//! What the two arms have to do with one another.
//!
//! A lazy layer is meant to stand in for the same layer in memory. Whether its
//! reads answer as those of the layer in memory do is a matter of the storage.
//! What the library makes of the reads then is the same on both arms. It is
//! stated here for queries and for the parent of a layer, and in
//! `recorded_agreement` for the reads that record their errors.
use crate::entry::{ObjectType, TypedDictEntry};
use crate::error::IoError;
use crate::layer::ReadLayer;
use crate::layer_io::LayerIo;
use crate::name::LayerName;
use crate::prolog::PrologError;
use crate::sinks::ErrorSinks;
use crate::triple::IdTriple;
use crate::triple_query::{TripleCursor, TripleRead, TriplePattern, TripleSource};
use crate::value_query::{Candidate, Direction};
use vstd::prelude::*;

verus! {

/// Two replies that are both values are the same value.
pub open spec fn alike<T>(a: Result<T, IoError>, b: Result<T, IoError>) -> bool {
    a is Ok && b is Ok ==> a->Ok_0 == b->Ok_0
}

/// Two replies that are both triples are the same triples, in whatever order.
pub open spec fn alike_triples(a: Result<Vec<IdTriple>, IoError>, b: Result<Vec<IdTriple>, IoError>) -> bool {
    a is Ok && b is Ok ==> crate::triple::same_triples(a->Ok_0@, b->Ok_0@)
}

/// A reply that is triples is those triples, in whatever order.
pub open spec fn lists_triples(reply: Result<Vec<IdTriple>, IoError>, triples: Seq<IdTriple>) -> bool {
    reply matches Ok(ts) ==> crate::triple::same_triples(ts@, triples)
}

/// The names are the same, one by one.
pub open spec fn same_names(a: Seq<LayerName>, b: Seq<LayerName>) -> bool {
    &&& a.len() == b.len()
    &&& forall|i: int| 0 <= i < a.len() ==> (#[trigger] a[i])@ == b[i]@
}

/// Two replies that are both names are the same names.
pub open spec fn alike_names(a: Result<Vec<LayerName>, IoError>, b: Result<Vec<LayerName>, IoError>) -> bool {
    a is Ok && b is Ok ==> same_names(a->Ok_0@, b->Ok_0@)
}

/// A reply that is a parent, or that there is none, is right about its name.
pub open spec fn parent_is_named<H: LayerIo>(
    reply: Result<Option<ReadLayer<H>>, IoError>,
    name: Option<Seq<u32>>,
) -> bool {
    match reply {
        Ok(Some(parent)) => name == Some(parent.layer_name()),
        Ok(None) => name is None,
        Err(_) => true,
    }
}

/// Where a read of the lazy layer succeeds, it says what the layer in memory
/// says. Triples may come in another order.
pub open spec fn mirrors<H: LayerIo>(lazy: ReadLayer<H>, stored: ReadLayer<H>) -> bool {
    &&& lazy is Lazy
    &&& stored is Materialized
    &&& lazy.layer_name() == stored.layer_name()
    &&& mirrors_names(lazy, stored)
    &&& mirrors_triples(lazy, stored)
    &&& mirrors_deltas(lazy, stored)
    &&& mirrors_history(lazy, stored)
}

/// It does so for names, ids and their counts.
pub open spec fn mirrors_names<H: LayerIo>(lazy: ReadLayer<H>, stored: ReadLayer<H>) -> bool {
    &&& forall|reply: Result<u64, IoError>| #[trigger]
        lazy.node_and_value_count_reply(reply) && reply is Ok ==> stored.node_and_value_count_reply(reply)
    &&& forall|reply: Result<u64, IoError>| #[trigger]
        lazy.predicate_count_reply(reply) && reply is Ok ==> stored.predicate_count_reply(reply)
    &&& forall|text: &str, reply: Result<Option<u64>, IoError>| #[trigger]
        lazy.subject_id_reply(text, reply) && reply is Ok ==> stored.subject_id_reply(text, reply)
    &&& forall|text: &str, reply: Result<Option<u64>, IoError>| #[trigger]
        lazy.predicate_id_reply(text, reply) && reply is Ok ==> stored.predicate_id_reply(text, reply)
    &&& forall|text: &str, reply: Result<Option<u64>, IoError>| #[trigger]
        lazy.object_node_id_reply(text, reply) && reply is Ok ==> stored.object_node_id_reply(text, reply)
    &&& forall|entry: &TypedDictEntry, reply: Result<Option<u64>, IoError>| #[trigger]
        lazy.object_value_id_reply(entry, reply) && reply is Ok ==> stored.object_value_id_reply(entry, reply)
    &&& forall|id: u64, reply: Result<Option<String>, IoError>| #[trigger]
        lazy.id_subject_reply(id, reply) && reply is Ok ==> stored.id_subject_reply(id, reply)
    &&& forall|id: u64, reply: Result<Option<String>, IoError>| #[trigger]
        lazy.id_predicate_reply(id, reply) && reply is Ok ==> stored.id_predicate_reply(id, reply)
    &&& forall|id: u64, reply: Result<Option<ObjectType>, IoError>| #[trigger]
        lazy.id_object_reply(id, reply) && reply is Ok ==> stored.id_object_reply(id, reply)
}

/// It does so for the triples of the layer together with its ancestors.
pub open spec fn mirrors_triples<H: LayerIo>(lazy: ReadLayer<H>, stored: ReadLayer<H>) -> bool {
    let layer = stored->Materialized_0;
    &&& forall|s: u64, p: u64, o: u64, reply: Result<bool, IoError>| #[trigger]
        lazy.triple_exists_reply(s, p, o, reply) && reply is Ok ==> stored.triple_exists_reply(s, p, o, reply)
    &&& forall|reply: Result<Vec<IdTriple>, IoError>| #[trigger]
        lazy.triples_reply(reply) ==> lists_triples(reply, crate::stored::stored_triples(layer))
    &&& forall|s: u64, reply: Result<Vec<IdTriple>, IoError>| #[trigger]
        lazy.triples_s_reply(s, reply) ==> lists_triples(reply, crate::stored::stored_triples_s(layer, s))
    &&& forall|s: u64, p: u64, reply: Result<Vec<IdTriple>, IoError>| #[trigger]
        lazy.triples_sp_reply(s, p, reply) ==> lists_triples(reply, crate::stored::stored_triples_sp(layer, s, p))
    &&& forall|p: u64, reply: Result<Vec<IdTriple>, IoError>| #[trigger]
        lazy.triples_p_reply(p, reply) ==> lists_triples(reply, crate::stored::stored_triples_p(layer, p))
    &&& forall|o: u64, reply: Result<Vec<IdTriple>, IoError>| #[trigger]
        lazy.triples_o_reply(o, reply) ==> lists_triples(reply, crate::stored::stored_triples_o(layer, o))
    &&& forall|
        low: &TypedDictEntry,
        high: &TypedDictEntry,
        a: Result<Vec<IdTriple>, IoError>,
        b: Result<Vec<IdTriple>, IoError>,
    |
        #[trigger] lazy.triples_value_range_reply(low, high, a)
            && #[trigger] stored.triples_value_range_reply(low, high, b)
            ==> alike_triples(a, b)
    &&& forall|
        low: &TypedDictEntry,
        high: &TypedDictEntry,
        a: Result<Vec<IdTriple>, IoError>,
        b: Result<Vec<IdTriple>, IoError>,
    |
        #[trigger] lazy.triples_value_range_rev_reply(low, high, a)
            && #[trigger] stored.triples_value_range_rev_reply(low, high, b)
            ==> alike_triples(a, b)
    &&& forall|reply: Result<usize, IoError>| #[trigger]
        lazy.triple_addition_count_reply(reply) && reply is Ok ==> stored.triple_addition_count_reply(reply)
    &&& forall|reply: Result<usize, IoError>| #[trigger]
        lazy.triple_removal_count_reply(reply) && reply is Ok ==> stored.triple_removal_count_reply(reply)
    &&& forall|reply: Result<usize, IoError>| #[trigger]
        lazy.triple_count_reply(reply) && reply is Ok ==> stored.triple_count_reply(reply)
}

/// It does so for what the layer itself adds and removes.
pub open spec fn mirrors_deltas<H: LayerIo>(lazy: ReadLayer<H>, stored: ReadLayer<H>) -> bool {
    &&& forall|s: u64, p: u64, o: u64, a: Result<bool, IoError>, b: Result<bool, IoError>|
        #[trigger] lazy.triple_addition_exists_reply(s, p, o, a)
            && #[trigger] stored.triple_addition_exists_reply(s, p, o, b)
            ==> alike(a, b)
    &&& forall|a: Result<Vec<IdTriple>, IoError>, b: Result<Vec<IdTriple>, IoError>|
        #[trigger] lazy.triple_additions_reply(a) && #[trigger] stored.triple_additions_reply(b)
            ==> alike_triples(a, b)
    &&& forall|s: u64, a: Result<Vec<IdTriple>, IoError>, b: Result<Vec<IdTriple>, IoError>|
        #[trigger] lazy.triple_additions_s_reply(s, a) && #[trigger] stored.triple_additions_s_reply(s, b)
            ==> alike_triples(a, b)
    &&& forall|s: u64, p: u64, a: Result<Vec<IdTriple>, IoError>, b: Result<Vec<IdTriple>, IoError>|
        #[trigger] lazy.triple_additions_sp_reply(s, p, a) && #[trigger] stored.triple_additions_sp_reply(s, p, b)
            ==> alike_triples(a, b)
    &&& forall|p: u64, a: Result<Vec<IdTriple>, IoError>, b: Result<Vec<IdTriple>, IoError>|
        #[trigger] lazy.triple_additions_p_reply(p, a) && #[trigger] stored.triple_additions_p_reply(p, b)
            ==> alike_triples(a, b)
    &&& forall|o: u64, a: Result<Vec<IdTriple>, IoError>, b: Result<Vec<IdTriple>, IoError>|
        #[trigger] lazy.triple_additions_o_reply(o, a) && #[trigger] stored.triple_additions_o_reply(o, b)
            ==> alike_triples(a, b)
    &&& forall|a: Result<usize, IoError>, b: Result<usize, IoError>|
        #[trigger] lazy.triple_layer_addition_count_reply(a)
            && #[trigger] stored.triple_layer_addition_count_reply(b)
            ==> alike(a, b)
    &&& forall|s: u64, p: u64, o: u64, a: Result<bool, IoError>, b: Result<bool, IoError>|
        #[trigger] lazy.triple_removal_exists_reply(s, p, o, a)
            && #[trigger] stored.triple_removal_exists_reply(s, p, o, b)
            ==> alike(a, b)
    &&& forall|a: Result<Vec<IdTriple>, IoError>, b: Result<Vec<IdTriple>, IoError>|
        #[trigger] lazy.triple_removals_reply(a) && #[trigger] stored.triple_removals_reply(b)
            ==> alike_triples(a, b)
    &&& forall|s: u64, a: Result<Vec<IdTriple>, IoError>, b: Result<Vec<IdTriple>, IoError>|
        #[trigger] lazy.triple_removals_s_reply(s, a) && #[trigger] stored.triple_removals_s_reply(s, b)
            ==> alike_triples(a, b)
    &&& forall|s: u64, p: u64, a: Result<Vec<IdTriple>, IoError>, b: Result<Vec<IdTriple>, IoError>|
        #[trigger] lazy.triple_removals_sp_reply(s, p, a) && #[trigger] stored.triple_removals_sp_reply(s, p, b)
            ==> alike_triples(a, b)
    &&& forall|p: u64, a: Result<Vec<IdTriple>, IoError>, b: Result<Vec<IdTriple>, IoError>|
        #[trigger] lazy.triple_removals_p_reply(p, a) && #[trigger] stored.triple_removals_p_reply(p, b)
            ==> alike_triples(a, b)
    &&& forall|o: u64, a: Result<Vec<IdTriple>, IoError>, b: Result<Vec<IdTriple>, IoError>|
        #[trigger] lazy.triple_removals_o_reply(o, a) && #[trigger] stored.triple_removals_o_reply(o, b)
            ==> alike_triples(a, b)
    &&& forall|a: Result<usize, IoError>, b: Result<usize, IoError>|
        #[trigger] lazy.triple_layer_removal_count_reply(a) && #[trigger] stored.triple_layer_removal_count_reply(b)
            ==> alike(a, b)
}

/// It does so for the parent of the layer and for the layers that it is made of.
pub open spec fn mirrors_history<H: LayerIo>(lazy: ReadLayer<H>, stored: ReadLayer<H>) -> bool {
    let name = crate::stored::stored_parent_name(stored->Materialized_0);
    &&& forall|reply: Result<Option<LayerName>, IoError>| #[trigger]
        lazy.parent_name_reply(reply) && reply is Ok ==> stored.parent_name_reply(reply)
    &&& forall|before: ErrorSinks, after: ErrorSinks, parent: Result<Option<ReadLayer<H>>, IoError>| #[trigger]
        lazy.parent_reply(before, after, parent) ==> parent_is_named(parent, name)
    &&& forall|before: ErrorSinks, after: ErrorSinks, parent: Result<Option<ReadLayer<H>>, IoError>| #[trigger]
        stored.parent_reply(before, after, parent) ==> parent_is_named(parent, name)
    &&& forall|a: Result<Vec<LayerName>, IoError>, b: Result<Vec<LayerName>, IoError>|
        #[trigger] lazy.layer_stack_names_reply(a)
            && #[trigger] stored.layer_stack_names_reply(b) ==> alike_names(a, b)
}

/// What a filter keeps does not depend on the order.
proof fn filtering_keeps_the_multiset(triples: Seq<IdTriple>, keep: spec_fn(IdTriple) -> bool)
    ensures
        triples.filter(keep).to_multiset() == triples.to_multiset().filter(keep),
    decreases triples.len(),
{
    broadcast use vstd::multiset::group_multiset_axioms;
    broadcast use vstd::seq_lib::group_to_multiset_ensures;

    reveal(Seq::filter);
    if triples.len() == 0 {
        assert(triples.filter(keep) =~= triples);
        assert(triples.to_multiset().filter(keep) =~= triples.to_multiset());
    } else {
        let shorter = triples.drop_last();
        filtering_keeps_the_multiset(shorter, keep);
        assert(triples =~= shorter.push(triples.last()));
        assert(triples.to_multiset() =~= shorter.to_multiset().insert(triples.last()));
        assert(triples.filter(keep).to_multiset() =~= triples.to_multiset().filter(keep));
    }
}

/// The same triples have the same solutions.
proof fn same_triples_have_the_same_solutions(pattern: TriplePattern, a: Seq<IdTriple>, b: Seq<IdTriple>)
    requires
        crate::triple::same_triples(a, b),
    ensures
        crate::triple::same_triples(
            crate::triple_query::solutions(pattern, a),
            crate::triple_query::solutions(pattern, b),
        ),
{
    let keep = |triple: IdTriple| crate::triple_query::keeps(pattern, triple);
    filtering_keeps_the_multiset(a, keep);
    filtering_keeps_the_multiset(b, keep);
}

/// Two queries start alike: at once, with the same solutions in whatever
/// order, or not.
pub open spec fn same_start(
    a: Result<Option<Seq<IdTriple>>, PrologError>,
    b: Result<Option<Seq<IdTriple>>, PrologError>,
) -> bool {
    match (a, b) {
        (Ok(Some(x)), Ok(Some(y))) => crate::triple::same_triples(x, y),
        (Ok(None), Ok(None)) => true,
        (Err(PrologError::Failure), Err(PrologError::Failure)) => true,
        _ => false,
    }
}

/// Unless one of them raises an exception, the two arms start every query
/// alike.
pub proof fn both_arms_start_queries_alike<H: LayerIo>(
    lazy: ReadLayer<H>,
    stored: ReadLayer<H>,
    source: TripleSource,
    pattern: TriplePattern,
    from_storage: Result<Option<TripleCursor>, PrologError>,
    from_memory: Result<Option<TripleCursor>, PrologError>,
)
    requires
        mirrors(lazy, stored),
        lazy.query_reply(source, pattern, from_storage),
        stored.query_reply(source, pattern, from_memory),
        !(from_storage matches Err(PrologError::Exception(_))),
        !(from_memory matches Err(PrologError::Exception(_))),
    ensures
        same_start(crate::triple_query::started(from_storage), crate::triple_query::started(from_memory)),
{
    let read = crate::triple_query::read_for(pattern);
    if let TripleRead::Exists { subject, predicate, object } = read {
        let a = choose|reply: Result<bool, IoError>| #[trigger]
            lazy.exists_reply(source, subject, predicate, object, reply) && crate::triple_query::started(
                from_storage,
            ) == crate::triple_query::exists_start(reply);
        let b = choose|reply: Result<bool, IoError>| #[trigger]
            stored.exists_reply(source, subject, predicate, object, reply) && crate::triple_query::started(
                from_memory,
            ) == crate::triple_query::exists_start(reply);
        assert(alike(a, b));
    } else {
        let a = choose|reply: Result<Vec<IdTriple>, IoError>| #[trigger]
            lazy.read_reply(source, read, reply) && crate::triple_query::started(from_storage)
                == crate::triple_query::triples_start(pattern, reply);
        let b = choose|reply: Result<Vec<IdTriple>, IoError>| #[trigger]
            stored.read_reply(source, read, reply) && crate::triple_query::started(from_memory)
                == crate::triple_query::triples_start(pattern, reply);
        assert(alike_triples(a, b));
        same_triples_have_the_same_solutions(pattern, a->Ok_0@, b->Ok_0@);
    }
}

/// What the layer may answer to a read for a range, in ascending or in
/// descending order.
pub open spec fn range_reply<H: LayerIo>(
    layer: ReadLayer<H>,
    descending: bool,
    low: TypedDictEntry,
    high: TypedDictEntry,
    reply: Result<Vec<IdTriple>, IoError>,
) -> bool {
    if descending {
        layer.triples_value_range_rev_reply(&low, &high, reply)
    } else {
        layer.triples_value_range_reply(&low, &high, reply)
    }
}

/// Unless one of them raises an exception, the two arms start every range
/// query with the same triples.
pub proof fn both_arms_start_range_queries_alike<H: LayerIo>(
    lazy: ReadLayer<H>,
    stored: ReadLayer<H>,
    descending: bool,
    low: TypedDictEntry,
    high: TypedDictEntry,
    from_storage: Result<Vec<IdTriple>, IoError>,
    from_memory: Result<Vec<IdTriple>, IoError>,
)
    requires
        mirrors(lazy, stored),
        range_reply(lazy, descending, low, high, from_storage),
        range_reply(stored, descending, low, high, from_memory),
    ensures
        match (crate::value_query::range_start(from_storage), crate::value_query::range_start(from_memory)) {
            (Ok(a), Ok(b)) => crate::triple::same_triples(a, b),
            _ => from_storage is Err || from_memory is Err,
        },
{
}

/// A candidate of one reading is a candidate of any reading of the same
/// triples, with the same object.
proof fn candidates_are_shared<H: LayerIo>(
    lazy: ReadLayer<H>,
    stored: ReadLayer<H>,
    a: Seq<IdTriple>,
    b: Seq<IdTriple>,
    read_a: Seq<Result<Option<ObjectType>, IoError>>,
    read_b: Seq<Result<Option<ObjectType>, IoError>>,
    candidates_a: Seq<Candidate>,
    candidates_b: Seq<Candidate>,
    i: int,
) -> (j: int)
    requires
        mirrors(lazy, stored),
        crate::triple::same_triples(a, b),
        crate::value_query::objects_read(lazy, a, read_a) && crate::value_query::objects_read(stored, b, read_b)
            || crate::value_query::objects_read(stored, a, read_a) && crate::value_query::objects_read(
            lazy,
            b,
            read_b,
        ),
        crate::value_query::candidates_of(a, read_a, candidates_a),
        crate::value_query::candidates_of(b, read_b, candidates_b),
        candidates_a.len() == a.len(),
        candidates_b.len() == b.len(),
        0 <= i < candidates_a.len(),
    ensures
        0 <= j < candidates_b.len(),
        candidates_b[j].id == candidates_a[i].id,
        object_view(candidates_b[j].object) == object_view(candidates_a[i].object),
{
    broadcast use vstd::seq_lib::group_to_multiset_ensures;

    assert(a.contains(a[i]));
    assert(a.to_multiset().count(a[i]) > 0);
    assert(b.contains(a[i]));
    let j = choose|j: int| 0 <= j < b.len() && b[j] == a[i];
    assert(candidates_a[i].id == a[i].object && candidates_b[j].id == b[j].object);
    assert(read_a[i] == Ok::<Option<ObjectType>, IoError>(candidates_a[i].object));
    assert(read_b[j] == Ok::<Option<ObjectType>, IoError>(candidates_b[j].object));
    j
}

/// What an object is.
pub open spec fn object_view(object: Option<ObjectType>) -> Option<crate::entry::ObjectView> {
    match object {
        Some(o) => Some(o@),
        None => None,
    }
}

/// Unless one of them raises an exception, the two arms find the same
/// neighbour of a value, or both find none.
pub proof fn both_arms_find_the_same_neighbour<H: LayerIo>(
    lazy: ReadLayer<H>,
    stored: ReadLayer<H>,
    direction: Direction,
    subject: u64,
    predicate: u64,
    reference: TypedDictEntry,
    read_a: Result<Vec<IdTriple>, IoError>,
    read_b: Result<Vec<IdTriple>, IoError>,
    from_storage: Result<u64, PrologError>,
    from_memory: Result<u64, PrologError>,
)
    requires
        mirrors(lazy, stored),
        lazy.triples_sp_reply(subject, predicate, read_a),
        stored.triples_sp_reply(subject, predicate, read_b),
        crate::value_query::neighbour_reply(lazy, direction, reference, read_a, from_storage),
        crate::value_query::neighbour_reply(stored, direction, reference, read_b, from_memory),
        !(from_storage matches Err(PrologError::Exception(_))),
        !(from_memory matches Err(PrologError::Exception(_))),
    ensures
        match (from_storage, from_memory) {
            (Ok(a), Ok(b)) => crate::stored::stored_id_object(stored->Materialized_0, a)
                == crate::stored::stored_id_object(stored->Materialized_0, b),
            (Err(_), Err(_)) => true,
            _ => false,
        },
{
    let a = read_a->Ok_0@;
    let b = read_b->Ok_0@;
    let objects_a = choose|objects: Seq<Result<Option<ObjectType>, IoError>>| #[trigger]
        crate::value_query::objects_answer(lazy, direction, reference, a, objects, from_storage);
    let objects_b = choose|objects: Seq<Result<Option<ObjectType>, IoError>>| #[trigger]
        crate::value_query::objects_answer(stored, direction, reference, b, objects, from_memory);
    let ca = choose|candidates: Seq<Candidate>| #[trigger]
        crate::value_query::candidates_of(a, objects_a, candidates) && crate::value_query::neighbour_answer(
            direction,
            reference,
            candidates,
            from_storage,
        );
    let cb = choose|candidates: Seq<Candidate>| #[trigger]
        crate::value_query::candidates_of(b, objects_b, candidates) && crate::value_query::neighbour_answer(
            direction,
            reference,
            candidates,
            from_memory,
        );
    if let Ok(found) = from_storage {
        let i = choose|i: int| #[trigger]
            crate::value_query::is_neighbour(direction, reference, ca, i) && found == ca[i].id;
        let j = candidates_are_shared(lazy, stored, a, b, objects_a, objects_b, ca, cb, i);
        assert(crate::value_query::qualifies(direction, reference, cb[j]));
        if let Ok(other) = from_memory {
            let k = choose|k: int| #[trigger]
                crate::value_query::is_neighbour(direction, reference, cb, k) && other == cb[k].id;
            let l = candidates_are_shared(lazy, stored, b, a, objects_b, objects_a, cb, ca, k);
            assert(crate::value_query::qualifies(direction, reference, ca[l]));
            crate::entry::bytes_less_is_total(
                crate::value_query::value_bytes(ca[i]),
                crate::value_query::value_bytes(cb[k]),
            );
            assert(object_view(ca[i].object) == object_view(cb[k].object));
            assert(objects_a[i] == Ok::<Option<ObjectType>, IoError>(ca[i].object));
            assert(lazy.id_object_reply(a[i].object, objects_a[i]));
            assert(objects_b[k] == Ok::<Option<ObjectType>, IoError>(cb[k].object));
            assert(stored.id_object_reply(b[k].object, objects_b[k]));
        }
    } else if let Ok(other) = from_memory {
        let k = choose|k: int| #[trigger]
            crate::value_query::is_neighbour(direction, reference, cb, k) && other == cb[k].id;
        let l = candidates_are_shared(lazy, stored, b, a, objects_b, objects_a, cb, ca, k);
        assert(crate::value_query::qualifies(direction, reference, ca[l]));
    }
}

/// The parents on the two arms, where both are found out, are both there, of
/// the same name and each on the arm of its child, or both missing. Asking the
/// lazy layer leaves what its sink holds, and the parent has a sink of its own,
/// which is empty.
pub proof fn both_arms_have_the_same_parent<H: LayerIo>(
    lazy: ReadLayer<H>,
    stored: ReadLayer<H>,
    before: ErrorSinks,
    after: ErrorSinks,
    other_before: ErrorSinks,
    other_after: ErrorSinks,
    from_storage: Option<ReadLayer<H>>,
    from_memory: Option<ReadLayer<H>>,
)
    requires
        mirrors(lazy, stored),
        lazy.sink_of(before),
        lazy.parent_reply(before, after, Ok(from_storage)),
        stored.parent_reply(other_before, other_after, Ok(from_memory)),
    ensures
        match (from_storage, from_memory) {
            (Some(a), Some(b)) => {
                &&& a is Lazy
                &&& b is Materialized
                &&& a.layer_name() == b.layer_name()
                &&& a.held(after) is None
                &&& a->Lazy_0.sink() != lazy->Lazy_0.sink()
            },
            (None, None) => true,
            _ => false,
        },
        lazy.held(after) == lazy.held(before),
        other_after == other_before,
{
    if let Some(parent) = from_storage {
        a_parent_has_a_sink_of_its_own(lazy, before, after, parent);
    }
}

/// The two arms count the same triples, where both do.
pub proof fn both_arms_count_the_same_triples<H: LayerIo>(
    lazy: ReadLayer<H>,
    stored: ReadLayer<H>,
    from_storage: Result<usize, IoError>,
    from_memory: Result<usize, IoError>,
)
    requires
        mirrors(lazy, stored),
        lazy.triple_count_reply(from_storage),
        stored.triple_count_reply(from_memory),
    ensures
        alike(from_storage, from_memory),
{
}

/// The two arms name the same layers that they are made of, where both do.
pub proof fn both_arms_name_the_same_layers<H: LayerIo>(
    lazy: ReadLayer<H>,
    stored: ReadLayer<H>,
    from_storage: Vec<LayerName>,
    from_memory: Vec<LayerName>,
)
    requires
        mirrors(lazy, stored),
        lazy.layer_stack_names_reply(Ok(from_storage)),
        stored.layer_stack_names_reply(Ok(from_memory)),
    ensures
        same_names(from_storage@, from_memory@),
{
}

/// A read that succeeds changes no sink.
pub proof fn a_read_that_succeeds_records_nothing<T, H: LayerIo>(
    layer: ReadLayer<H>,
    before: ErrorSinks,
    after: ErrorSinks,
    value: T,
    sink: u64,
)
    requires
        layer.records(before, after, Ok(value)),
    ensures
        after.held(sink) == before.held(sink),
{
}

/// Being the same layer is an equivalence, and does not depend on the arm: a
/// layer is its name.
pub proof fn being_the_same_layer_is_an_equivalence<H: LayerIo>(a: ReadLayer<H>, b: ReadLayer<H>, c: ReadLayer<H>)
    ensures
        vstd::std_specs::cmp::PartialEqSpec::eq_spec(&a, &a),
        vstd::std_specs::cmp::PartialEqSpec::eq_spec(&a, &b) == vstd::std_specs::cmp::PartialEqSpec::eq_spec(&b, &a),
        vstd::std_specs::cmp::PartialEqSpec::eq_spec(&a, &b) && vstd::std_specs::cmp::PartialEqSpec::eq_spec(&b, &c)
            ==> vstd::std_specs::cmp::PartialEqSpec::eq_spec(&a, &c),
        vstd::std_specs::cmp::PartialEqSpec::eq_spec(&a, &b) <==> a.layer_name() == b.layer_name(),
{
}

/// Two layers are the same exactly if their ids are.
pub proof fn the_id_tells_layers_apart<H: LayerIo>(a: ReadLayer<H>, b: ReadLayer<H>)
    requires
        a.layer_name().len() == 5,
        b.layer_name().len() == 5,
    ensures
        a.layer_name() == b.layer_name() <==> crate::name::name_text(a.layer_name()) == crate::name::name_text(
            b.layer_name(),
        ),
{
    if crate::name::name_text(a.layer_name()) == crate::name::name_text(b.layer_name()) {
        crate::name::name_text_is_injective(a.layer_name(), b.layer_name());
    }
}

/// The parent of a lazy layer has a sink of its own, which is empty.
pub proof fn a_parent_has_a_sink_of_its_own<H: LayerIo>(
    layer: ReadLayer<H>,
    before: ErrorSinks,
    after: ErrorSinks,
    parent: ReadLayer<H>,
)
    requires
        layer is Lazy,
        layer.sink_of(before),
        layer.parent_reply(before, after, Ok(Some(parent))),
    ensures
        parent is Lazy,
        parent->Lazy_0.sink() != layer->Lazy_0.sink(),
        parent.held(after) is None,
        layer.held(after) == layer.held(before),
{
    assert(!before.errors().contains_key(parent->Lazy_0.sink()));
}

/// An operation that needs a whole layer never refuses a lazy one as such: it
/// goes on with the layer if the storage brings it into memory, and otherwise
/// says why it could not.
pub proof fn a_lazy_layer_is_brought_into_memory<H: LayerIo>(
    layer: ReadLayer<H>,
    what: Seq<char>,
    brought: Result<terminus_store::store::sync::SyncStoreLayer, IoError>,
)
    requires
        layer is Lazy,
        layer.materialized_reply(what, brought),
    ensures
        exists|reply: Result<Option<terminus_store::store::sync::SyncStoreLayer>, IoError>| #[trigger]
            call_ensures(H::materialize, (&layer->Lazy_0.handle(),), reply) && (brought is Ok <==> reply matches Ok(
                Some(_),
            )),
{
    let reply = choose|reply: Result<Option<terminus_store::store::sync::SyncStoreLayer>, IoError>| #[trigger]
        call_ensures(H::materialize, (&layer->Lazy_0.handle(),), reply) && crate::layer::materialize_settles(
            what,
            reply,
            brought,
        );
    assert(call_ensures(H::materialize, (&layer->Lazy_0.handle(),), reply));
}

} // verus!
