//! The reads that record their errors answer alike on both arms.
//!
//! A reader that was written for layers in memory can be handed a lazy one:
//! if it finds the sink empty afterwards, it has read what it would have read
//! from memory. Here that is stated of every read, and after that what the reads
//! of one layer have to do with one another.
use crate::entry::{ObjectType, TypedDictEntry};
use crate::error::IoError;
use crate::layer::ReadLayer;
use crate::layer_io::LayerIo;
use crate::name::LayerName;
use crate::reads::{CountReplies, ObjectCounts};
use crate::sinks::{ErrorSinks, SinkId};
use crate::triple::{IdTriple, LayerCounts};
use vstd::prelude::*;

verus! {

/// The words of a name.
pub open spec fn name_view(name: Option<LayerName>) -> Option<Seq<u32>> {
    match name {
        Some(n) => Some(n@),
        None => None,
    }
}

/// The characters of a text.
pub open spec fn text_view(text: Option<String>) -> Option<Seq<char>> {
    match text {
        Some(t) => Some(t@),
        None => None,
    }
}

/// If no read failed, the two arms name the same parent, or none.
pub proof fn both_arms_name_the_same_parent<H: LayerIo>(
    lazy: ReadLayer<H>,
    stored: ReadLayer<H>,
    before: ErrorSinks,
    after: ErrorSinks,
    other_before: ErrorSinks,
    other_after: ErrorSinks,
    from_storage: Option<LayerName>,
    from_memory: Option<LayerName>,
)
    requires
        crate::agreement::mirrors(lazy, stored),
        lazy.parent_name_answer(before, after, from_storage),
        stored.parent_name_answer(other_before, other_after, from_memory),
        lazy.held(after) is None,
    ensures
        name_view(from_storage) == name_view(from_memory),
{
}

/// If no read failed, the two arms count as many nodes and values.
pub proof fn both_arms_count_as_many_nodes_and_values<H: LayerIo>(
    lazy: ReadLayer<H>,
    stored: ReadLayer<H>,
    before: ErrorSinks,
    after: ErrorSinks,
    other_before: ErrorSinks,
    other_after: ErrorSinks,
    from_storage: usize,
    from_memory: usize,
)
    requires
        crate::agreement::mirrors(lazy, stored),
        lazy.node_and_value_count_answer(before, after, from_storage),
        stored.node_and_value_count_answer(other_before, other_after, from_memory),
        lazy.held(after) is None,
    ensures
        from_storage == from_memory,
{
}

/// If no read failed, the two arms count as many predicates.
pub proof fn both_arms_count_as_many_predicates<H: LayerIo>(
    lazy: ReadLayer<H>,
    stored: ReadLayer<H>,
    before: ErrorSinks,
    after: ErrorSinks,
    other_before: ErrorSinks,
    other_after: ErrorSinks,
    from_storage: usize,
    from_memory: usize,
)
    requires
        crate::agreement::mirrors(lazy, stored),
        lazy.predicate_count_answer(before, after, from_storage),
        stored.predicate_count_answer(other_before, other_after, from_memory),
        lazy.held(after) is None,
    ensures
        from_storage == from_memory,
{
}

/// If no read failed, the two arms have the same id for a subject.
pub proof fn both_arms_have_the_same_subject_id<H: LayerIo>(
    lazy: ReadLayer<H>,
    stored: ReadLayer<H>,
    subject: &str,
    before: ErrorSinks,
    after: ErrorSinks,
    other_before: ErrorSinks,
    other_after: ErrorSinks,
    from_storage: Option<u64>,
    from_memory: Option<u64>,
)
    requires
        crate::agreement::mirrors(lazy, stored),
        lazy.subject_id_answer(subject, before, after, from_storage),
        stored.subject_id_answer(subject, other_before, other_after, from_memory),
        lazy.held(after) is None,
    ensures
        from_storage == from_memory,
{
}

/// If no read failed, the two arms have the same id for a predicate.
pub proof fn both_arms_have_the_same_predicate_id<H: LayerIo>(
    lazy: ReadLayer<H>,
    stored: ReadLayer<H>,
    predicate: &str,
    before: ErrorSinks,
    after: ErrorSinks,
    other_before: ErrorSinks,
    other_after: ErrorSinks,
    from_storage: Option<u64>,
    from_memory: Option<u64>,
)
    requires
        crate::agreement::mirrors(lazy, stored),
        lazy.predicate_id_answer(predicate, before, after, from_storage),
        stored.predicate_id_answer(predicate, other_before, other_after, from_memory),
        lazy.held(after) is None,
    ensures
        from_storage == from_memory,
{
}

/// If no read failed, the two arms have the same id for a node.
pub proof fn both_arms_have_the_same_object_node_id<H: LayerIo>(
    lazy: ReadLayer<H>,
    stored: ReadLayer<H>,
    object: &str,
    before: ErrorSinks,
    after: ErrorSinks,
    other_before: ErrorSinks,
    other_after: ErrorSinks,
    from_storage: Option<u64>,
    from_memory: Option<u64>,
)
    requires
        crate::agreement::mirrors(lazy, stored),
        lazy.object_node_id_answer(object, before, after, from_storage),
        stored.object_node_id_answer(object, other_before, other_after, from_memory),
        lazy.held(after) is None,
    ensures
        from_storage == from_memory,
{
}

/// If no read failed, the two arms have the same id for a value.
pub proof fn both_arms_have_the_same_object_value_id<H: LayerIo>(
    lazy: ReadLayer<H>,
    stored: ReadLayer<H>,
    object: &TypedDictEntry,
    before: ErrorSinks,
    after: ErrorSinks,
    other_before: ErrorSinks,
    other_after: ErrorSinks,
    from_storage: Option<u64>,
    from_memory: Option<u64>,
)
    requires
        crate::agreement::mirrors(lazy, stored),
        lazy.object_value_id_answer(object, before, after, from_storage),
        stored.object_value_id_answer(object, other_before, other_after, from_memory),
        lazy.held(after) is None,
    ensures
        from_storage == from_memory,
{
}

/// If no read failed, the two arms have the same subject for an id.
pub proof fn both_arms_have_the_same_subject<H: LayerIo>(
    lazy: ReadLayer<H>,
    stored: ReadLayer<H>,
    id: u64,
    before: ErrorSinks,
    after: ErrorSinks,
    other_before: ErrorSinks,
    other_after: ErrorSinks,
    from_storage: Option<String>,
    from_memory: Option<String>,
)
    requires
        crate::agreement::mirrors(lazy, stored),
        lazy.id_subject_answer(id, before, after, from_storage),
        stored.id_subject_answer(id, other_before, other_after, from_memory),
        lazy.held(after) is None,
    ensures
        text_view(from_storage) == text_view(from_memory),
{
}

/// If no read failed, the two arms have the same predicate for an id.
pub proof fn both_arms_have_the_same_predicate<H: LayerIo>(
    lazy: ReadLayer<H>,
    stored: ReadLayer<H>,
    id: u64,
    before: ErrorSinks,
    after: ErrorSinks,
    other_before: ErrorSinks,
    other_after: ErrorSinks,
    from_storage: Option<String>,
    from_memory: Option<String>,
)
    requires
        crate::agreement::mirrors(lazy, stored),
        lazy.id_predicate_answer(id, before, after, from_storage),
        stored.id_predicate_answer(id, other_before, other_after, from_memory),
        lazy.held(after) is None,
    ensures
        text_view(from_storage) == text_view(from_memory),
{
}

/// If no read failed, the two arms have the same object for an id.
pub proof fn both_arms_have_the_same_object<H: LayerIo>(
    lazy: ReadLayer<H>,
    stored: ReadLayer<H>,
    id: u64,
    before: ErrorSinks,
    after: ErrorSinks,
    other_before: ErrorSinks,
    other_after: ErrorSinks,
    from_storage: Option<ObjectType>,
    from_memory: Option<ObjectType>,
)
    requires
        crate::agreement::mirrors(lazy, stored),
        lazy.id_object_answer(id, before, after, from_storage),
        stored.id_object_answer(id, other_before, other_after, from_memory),
        lazy.held(after) is None,
    ensures
        crate::agreement::object_view(from_storage) == crate::agreement::object_view(from_memory),
{
}

/// If no read failed, the two arms tell nodes from values alike.
pub proof fn both_arms_tell_nodes_from_values_alike<H: LayerIo>(
    lazy: ReadLayer<H>,
    stored: ReadLayer<H>,
    id: u64,
    before: ErrorSinks,
    after: ErrorSinks,
    other_before: ErrorSinks,
    other_after: ErrorSinks,
    from_storage: Option<bool>,
    from_memory: Option<bool>,
)
    requires
        crate::agreement::mirrors(lazy, stored),
        lazy.id_object_is_node_answer(id, before, after, from_storage),
        stored.id_object_is_node_answer(id, other_before, other_after, from_memory),
        lazy.held(after) is None,
    ensures
        from_storage == from_memory,
{
}

/// If no read failed, the two arms have the same triples.
pub proof fn both_arms_have_the_same_triples<H: LayerIo>(
    lazy: ReadLayer<H>,
    stored: ReadLayer<H>,
    subject: u64,
    predicate: u64,
    object: u64,
    before: ErrorSinks,
    after: ErrorSinks,
    other_before: ErrorSinks,
    other_after: ErrorSinks,
    from_storage: bool,
    from_memory: bool,
)
    requires
        crate::agreement::mirrors(lazy, stored),
        lazy.triple_exists_answer(subject, predicate, object, before, after, from_storage),
        stored.triple_exists_answer(subject, predicate, object, other_before, other_after, from_memory),
        lazy.held(after) is None,
    ensures
        from_storage == from_memory,
{
}

/// If no read failed, the two arms list the same triples, in whatever order.
pub proof fn both_arms_list_the_same_triples<H: LayerIo>(
    lazy: ReadLayer<H>,
    stored: ReadLayer<H>,
    before: ErrorSinks,
    after: ErrorSinks,
    other_before: ErrorSinks,
    other_after: ErrorSinks,
    from_storage: Vec<IdTriple>,
    from_memory: Vec<IdTriple>,
)
    requires
        crate::agreement::mirrors(lazy, stored),
        lazy.triples_answer(before, after, from_storage),
        stored.triples_answer(other_before, other_after, from_memory),
        lazy.held(after) is None,
    ensures
        crate::triple::same_triples(from_storage@, from_memory@),
{
}

/// If no read failed, the two arms list the same triples of a subject, in
/// whatever order.
pub proof fn both_arms_list_the_same_triples_of_a_subject<H: LayerIo>(
    lazy: ReadLayer<H>,
    stored: ReadLayer<H>,
    subject: u64,
    before: ErrorSinks,
    after: ErrorSinks,
    other_before: ErrorSinks,
    other_after: ErrorSinks,
    from_storage: Vec<IdTriple>,
    from_memory: Vec<IdTriple>,
)
    requires
        crate::agreement::mirrors(lazy, stored),
        lazy.triples_s_answer(subject, before, after, from_storage),
        stored.triples_s_answer(subject, other_before, other_after, from_memory),
        lazy.held(after) is None,
    ensures
        crate::triple::same_triples(from_storage@, from_memory@),
{
}

/// If no read failed, the two arms list the same triples of a subject and a
/// predicate, in whatever order.
pub proof fn both_arms_list_the_same_triples_of_a_subject_and_predicate<H: LayerIo>(
    lazy: ReadLayer<H>,
    stored: ReadLayer<H>,
    subject: u64,
    predicate: u64,
    before: ErrorSinks,
    after: ErrorSinks,
    other_before: ErrorSinks,
    other_after: ErrorSinks,
    from_storage: Vec<IdTriple>,
    from_memory: Vec<IdTriple>,
)
    requires
        crate::agreement::mirrors(lazy, stored),
        lazy.triples_sp_answer(subject, predicate, before, after, from_storage),
        stored.triples_sp_answer(subject, predicate, other_before, other_after, from_memory),
        lazy.held(after) is None,
    ensures
        crate::triple::same_triples(from_storage@, from_memory@),
{
}

/// If no read failed, the two arms list the same triples of a predicate, in
/// whatever order.
pub proof fn both_arms_list_the_same_triples_of_a_predicate<H: LayerIo>(
    lazy: ReadLayer<H>,
    stored: ReadLayer<H>,
    predicate: u64,
    before: ErrorSinks,
    after: ErrorSinks,
    other_before: ErrorSinks,
    other_after: ErrorSinks,
    from_storage: Vec<IdTriple>,
    from_memory: Vec<IdTriple>,
)
    requires
        crate::agreement::mirrors(lazy, stored),
        lazy.triples_p_answer(predicate, before, after, from_storage),
        stored.triples_p_answer(predicate, other_before, other_after, from_memory),
        lazy.held(after) is None,
    ensures
        crate::triple::same_triples(from_storage@, from_memory@),
{
}

/// If no read failed, the two arms list the same triples of an object, in
/// whatever order.
pub proof fn both_arms_list_the_same_triples_of_an_object<H: LayerIo>(
    lazy: ReadLayer<H>,
    stored: ReadLayer<H>,
    object: u64,
    before: ErrorSinks,
    after: ErrorSinks,
    other_before: ErrorSinks,
    other_after: ErrorSinks,
    from_storage: Vec<IdTriple>,
    from_memory: Vec<IdTriple>,
)
    requires
        crate::agreement::mirrors(lazy, stored),
        lazy.triples_o_answer(object, before, after, from_storage),
        stored.triples_o_answer(object, other_before, other_after, from_memory),
        lazy.held(after) is None,
    ensures
        crate::triple::same_triples(from_storage@, from_memory@),
{
}

/// If no read failed, the two arms list the same triples of a range of values,
/// in whatever order.
pub proof fn both_arms_list_the_same_triples_of_a_range<H: LayerIo>(
    lazy: ReadLayer<H>,
    stored: ReadLayer<H>,
    low: &TypedDictEntry,
    high: &TypedDictEntry,
    before: ErrorSinks,
    after: ErrorSinks,
    other_before: ErrorSinks,
    other_after: ErrorSinks,
    from_storage: Vec<IdTriple>,
    from_memory: Vec<IdTriple>,
)
    requires
        crate::agreement::mirrors(lazy, stored),
        lazy.triples_value_range_answer(low, high, before, after, from_storage),
        stored.triples_value_range_answer(low, high, other_before, other_after, from_memory),
        lazy.held(after) is None,
    ensures
        crate::triple::same_triples(from_storage@, from_memory@),
{
}

/// If no read failed, the two arms list the same triples of a range of values
/// from its end, in whatever order.
pub proof fn both_arms_list_the_same_triples_of_a_range_backwards<H: LayerIo>(
    lazy: ReadLayer<H>,
    stored: ReadLayer<H>,
    low: &TypedDictEntry,
    high: &TypedDictEntry,
    before: ErrorSinks,
    after: ErrorSinks,
    other_before: ErrorSinks,
    other_after: ErrorSinks,
    from_storage: Vec<IdTriple>,
    from_memory: Vec<IdTriple>,
)
    requires
        crate::agreement::mirrors(lazy, stored),
        lazy.triples_value_range_rev_answer(low, high, before, after, from_storage),
        stored.triples_value_range_rev_answer(low, high, other_before, other_after, from_memory),
        lazy.held(after) is None,
    ensures
        crate::triple::same_triples(from_storage@, from_memory@),
{
}

/// If no read failed, the two arms count as many additions.
pub proof fn both_arms_count_as_many_additions<H: LayerIo>(
    lazy: ReadLayer<H>,
    stored: ReadLayer<H>,
    before: ErrorSinks,
    after: ErrorSinks,
    other_before: ErrorSinks,
    other_after: ErrorSinks,
    from_storage: usize,
    from_memory: usize,
)
    requires
        crate::agreement::mirrors(lazy, stored),
        lazy.triple_addition_count_answer(before, after, from_storage),
        stored.triple_addition_count_answer(other_before, other_after, from_memory),
        lazy.held(after) is None,
    ensures
        from_storage == from_memory,
{
}

/// If no read failed, the two arms count as many removals.
pub proof fn both_arms_count_as_many_removals<H: LayerIo>(
    lazy: ReadLayer<H>,
    stored: ReadLayer<H>,
    before: ErrorSinks,
    after: ErrorSinks,
    other_before: ErrorSinks,
    other_after: ErrorSinks,
    from_storage: usize,
    from_memory: usize,
)
    requires
        crate::agreement::mirrors(lazy, stored),
        lazy.triple_removal_count_answer(before, after, from_storage),
        stored.triple_removal_count_answer(other_before, other_after, from_memory),
        lazy.held(after) is None,
    ensures
        from_storage == from_memory,
{
}

/// If no read failed, the two arms both have a triple with a subject and a predicate to show, one that both
/// list, or both have none.
pub proof fn both_arms_pick_a_triple_alike<H: LayerIo>(
    lazy: ReadLayer<H>,
    stored: ReadLayer<H>,
    subject: u64,
    predicate: u64,
    before: ErrorSinks,
    after: ErrorSinks,
    other_before: ErrorSinks,
    other_after: ErrorSinks,
    from_storage: Option<IdTriple>,
    from_memory: Option<IdTriple>,
)
    requires
        crate::agreement::mirrors(lazy, stored),
        lazy.single_triple_sp_answer(subject, predicate, before, after, from_storage),
        stored.single_triple_sp_answer(subject, predicate, other_before, other_after, from_memory),
        lazy.held(after) is None,
    ensures
        match (from_storage, from_memory) {
            (Some(a), Some(b)) => {
                let triples = crate::stored::stored_triples_sp(stored->Materialized_0, subject, predicate);
                triples.contains(a) && triples.contains(b)
            },
            (None, None) => true,
            _ => false,
        },
{
    broadcast use vstd::seq_lib::group_to_multiset_ensures;

    let layer = stored->Materialized_0;
    let triples = crate::stored::stored_triples_sp(layer, subject, predicate);
    let reply = choose|reply: Result<Option<IdTriple>, IoError>| #[trigger]
        lazy.single_triple_sp_reply(subject, predicate, reply) && from_storage == crate::reads::or_fallback(
            reply,
            None,
        ) && lazy.records(before, after, reply);
    let read = choose|read: Result<Vec<IdTriple>, IoError>| #[trigger]
        lazy.triples_sp_reply(subject, predicate, read) && reply == (match read {
            Ok(ts) => Ok(crate::reads::first_of(ts@)),
            Err(e) => Err(e),
        });
    let listed = read->Ok_0@;
    assert(crate::triple::same_triples(listed, triples));
    assert(listed.len() == listed.to_multiset().len() && triples.len() == triples.to_multiset().len());
    if listed.len() > 0 {
        assert(listed.contains(listed[0]));
        assert(triples.to_multiset().count(listed[0]) > 0);
    }
}

/// The values among the objects that were read are those in memory.
proof fn the_values_read_are_those_in_memory<H: LayerIo>(
    lazy: ReadLayer<H>,
    stored: ReadLayer<H>,
    objects: Seq<Option<ObjectType>>,
)
    requires
        crate::agreement::mirrors(lazy, stored),
        lazy.first_objects(objects),
        objects.len() <= u64::MAX,
    ensures
        crate::reads::values_among(objects) == crate::stored::stored_kind_count(
            stored->Materialized_0,
            false,
            objects.len(),
        ),
    decreases objects.len(),
{
    if objects.len() > 0 {
        let fewer = objects.drop_last();
        assert(lazy.first_objects(fewer)) by {
            assert forall|i: int| 0 <= i < fewer.len() implies lazy.id_object_reply(
                (i + 1) as u64,
                Ok(#[trigger] fewer[i]),
            ) by {
                assert(fewer[i] == objects[i]);
            }
        }
        the_values_read_are_those_in_memory(lazy, stored, fewer);
        let last = objects.len() - 1;
        assert(lazy.id_object_reply((last + 1) as u64, Ok(objects[last])));
        assert(stored.id_object_reply((last + 1) as u64, Ok(objects[last])));
    }
}

/// If no read failed, the two arms count as many nodes, as many predicates and
/// as many values.
pub proof fn both_arms_give_the_same_counts<H: LayerIo>(
    lazy: ReadLayer<H>,
    stored: ReadLayer<H>,
    before: ErrorSinks,
    after: ErrorSinks,
    other_before: ErrorSinks,
    other_after: ErrorSinks,
    from_storage: LayerCounts,
    from_memory: LayerCounts,
)
    requires
        crate::agreement::mirrors(lazy, stored),
        lazy.all_counts_answer(before, after, from_storage),
        stored.all_counts_answer(other_before, other_after, from_memory),
        lazy.held(after) is None,
    ensures
        from_storage == from_memory,
{
    let (reply, predicates) = choose|objects: Result<ObjectCounts, IoError>, predicates: Result<u64, IoError>|
        {
            let replies = CountReplies { objects, predicates };
            &&& #[trigger] lazy.object_counts_reply(objects)
            &&& #[trigger] lazy.predicate_count_reply(predicates)
            &&& from_storage == crate::reads::counted(replies)
            &&& lazy.records_counts(before, after, replies)
        };
    let counts = reply->Ok_0;
    let (n, objects) = choose|n: u64, objects: Seq<Option<ObjectType>>|
        {
            &&& #[trigger] lazy.node_and_value_count_reply(Ok(n))
            &&& #[trigger] lazy.first_objects(objects)
            &&& objects.len() == n
            &&& counts.values == crate::reads::values_among(objects)
            &&& counts.nodes + counts.values == n
        };
    assert(stored.node_and_value_count_reply(Ok(n)));
    the_values_read_are_those_in_memory(lazy, stored, objects);
}

// ---- what the reads of one layer have to do with one another ----

/// The object of an id can be read, and is the same each time.
pub open spec fn object_is_settled<H: LayerIo>(layer: ReadLayer<H>, id: u64) -> bool {
    forall|a: Result<Option<ObjectType>, IoError>, b: Result<Option<ObjectType>, IoError>| #[trigger]
        layer.id_object_reply(id, a) && #[trigger] layer.id_object_reply(id, b) ==> {
            &&& a is Ok
            &&& b is Ok
            &&& crate::agreement::object_view(a->Ok_0) == crate::agreement::object_view(b->Ok_0)
        }
}

/// Whether an id is that of a node is what its object says, on either arm: true
/// for a node, false for a value, and nothing where there is no object. A lazy
/// layer reads the object for the one answer and for the other, and has to find
/// the same both times. Neither read then records anything.
pub proof fn the_object_tells_whether_it_is_a_node<H: LayerIo>(
    layer: ReadLayer<H>,
    id: u64,
    before: ErrorSinks,
    after: ErrorSinks,
    other_before: ErrorSinks,
    other_after: ErrorSinks,
    node: Option<bool>,
    object: Option<ObjectType>,
)
    requires
        layer is Lazy ==> object_is_settled(layer, id),
        layer.id_object_is_node_answer(id, before, after, node),
        layer.id_object_answer(id, other_before, other_after, object),
    ensures
        node == crate::reads::is_node(object),
        node == Some(true) <==> object matches Some(ObjectType::Node(_)),
        node == Some(false) <==> object matches Some(ObjectType::Value(_)),
        node is None <==> object is None,
        forall|sink: SinkId| #[trigger] after.held(sink) == before.held(sink),
        forall|sink: SinkId| #[trigger] other_after.held(sink) == other_before.held(sink),
{
    if layer is Lazy {
        let told = choose|reply: Result<Option<bool>, IoError>|
            {
                &&& #[trigger] layer.id_object_is_node_reply(id, reply)
                &&& node == crate::reads::or_fallback(reply, None)
                &&& layer.records(before, after, reply)
            };
        let first = choose|reply: Result<Option<ObjectType>, IoError>| #[trigger]
            layer.id_object_reply(id, reply) && told == (match reply {
                Ok(o) => Ok(crate::reads::is_node(o)),
                Err(e) => Err(e),
            });
        let second = choose|reply: Result<Option<ObjectType>, IoError>|
            {
                &&& #[trigger] layer.id_object_reply(id, reply)
                &&& object == crate::reads::or_fallback(reply, None)
                &&& layer.records(other_before, other_after, reply)
            };
        assert(layer.id_object_reply(id, first) && layer.id_object_reply(id, second));
    }
}

/// What the layer has can be counted, and is the same each time. No read of an
/// object fails, and the number of nodes and values is one that the machine
/// can hold in a `usize`.
pub open spec fn counts_are_settled<H: LayerIo>(layer: ReadLayer<H>) -> bool {
    &&& forall|a: Result<u64, IoError>, b: Result<u64, IoError>| #[trigger]
        layer.node_and_value_count_reply(a) && #[trigger] layer.node_and_value_count_reply(b) ==> a is Ok && a == b
    &&& forall|n: u64| #[trigger] layer.node_and_value_count_reply(Ok(n)) ==> n <= usize::MAX
    &&& forall|a: Result<u64, IoError>, b: Result<u64, IoError>| #[trigger]
        layer.predicate_count_reply(a) && #[trigger] layer.predicate_count_reply(b) ==> a is Ok && a == b
    &&& forall|id: u64, reply: Result<Option<ObjectType>, IoError>| #[trigger]
        layer.id_object_reply(id, reply) ==> reply is Ok
}

/// The nodes and the values together are as many as the layer says it has of
/// both, and the predicates as many as it says it has predicates, on either
/// arm. A lazy layer has to be able to read what it counts, and to find the
/// same numbers each time. Counting then records nothing.
pub proof fn the_counts_add_up<H: LayerIo>(
    layer: ReadLayer<H>,
    before: ErrorSinks,
    after: ErrorSinks,
    sized_before: ErrorSinks,
    sized_after: ErrorSinks,
    named_before: ErrorSinks,
    named_after: ErrorSinks,
    counts: LayerCounts,
    nodes_and_values: usize,
    predicates: usize,
)
    requires
        layer is Lazy ==> counts_are_settled(layer),
        layer.all_counts_answer(before, after, counts),
        layer.node_and_value_count_answer(sized_before, sized_after, nodes_and_values),
        layer.predicate_count_answer(named_before, named_after, predicates),
    ensures
        counts.node_count + counts.value_count == nodes_and_values,
        counts.predicate_count == predicates,
        forall|sink: SinkId| #[trigger] after.held(sink) == before.held(sink),
{
    if layer is Lazy {
        let (reply, own) = choose|objects: Result<ObjectCounts, IoError>, predicates: Result<u64, IoError>|
            {
                let replies = CountReplies { objects, predicates };
                &&& #[trigger] layer.object_counts_reply(objects)
                &&& #[trigger] layer.predicate_count_reply(predicates)
                &&& counts == crate::reads::counted(replies)
                &&& layer.records_counts(before, after, replies)
            };
        assert(own is Ok);
        assert(reply is Ok);
    }
}

} // verus!
