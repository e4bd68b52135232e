//! Queries by value.
//!
//! A literal term names a value. A range query asks for the triples whose
//! object lies between two values; the other two ask, among the objects of a
//! subject and a predicate, for the value of the same datatype that comes next
//! after a given one, or before it.
use crate::entry::{comes_before, ObjectType, TypedDictEntry};
use crate::error::IoError;
use crate::layer::ReadLayer;
use crate::layer_io::LayerIo;
use crate::prolog::{try_or_die, PrologError, Raised};
use crate::triple::IdTriple;
use crate::triple_query::TripleCursor;
use vstd::prelude::*;

verus! {

/// A term where a literal is expected: a typed value, a language string, or
/// something else. Making the value out of the term may have failed.
pub enum LiteralTerm {
    Value(Result<TypedDictEntry, PrologError>),
    Lang(Result<TypedDictEntry, PrologError>),
    Other,
}

impl LiteralTerm {
    /// The value that the term stands for.
    pub open spec fn literal(self) -> Result<TypedDictEntry, PrologError> {
        match self {
            LiteralTerm::Value(entry) => entry,
            LiteralTerm::Lang(entry) => entry,
            LiteralTerm::Other => Err(PrologError::Exception(Raised::NotALiteral)),
        }
    }

    /// The value that the term stands for. Anything but a literal is an
    /// exception.
    pub fn entry(self) -> (entry: Result<TypedDictEntry, PrologError>)
        ensures
            entry == self.literal(),
    {
        match self {
            LiteralTerm::Value(entry) => entry,
            LiteralTerm::Lang(entry) => entry,
            LiteralTerm::Other => Err(PrologError::Exception(Raised::NotALiteral)),
        }
    }
}

// ---- ranges ----

/// What a range query hands out, from the reply of the layer.
pub open spec fn range_start(reply: Result<Vec<IdTriple>, IoError>) -> Result<Seq<IdTriple>, PrologError> {
    match reply {
        Ok(triples) => Ok(triples@),
        Err(e) => Err(PrologError::Exception(Raised::Io(e))),
    }
}

/// What a cursor is to hand out.
pub open spec fn range_started(start: Result<TripleCursor, PrologError>) -> Result<Seq<IdTriple>, PrologError> {
    match start {
        Ok(cursor) => Ok(cursor.remaining()),
        Err(e) => Err(e),
    }
}

/// Starts a range query, from the reply of the layer.
pub fn start_range(reply: Result<Vec<IdTriple>, IoError>) -> (start: Result<TripleCursor, PrologError>)
    ensures
        range_started(start) == range_start(reply),
{
    match try_or_die(reply) {
        Ok(triples) => Ok(TripleCursor::new(triples)),
        Err(e) => Err(e),
    }
}

/// Starts a query for the triples whose object lies between two values. The
/// lower bound is looked at first.
pub fn id_triple_value_range<H: LayerIo>(layer: &ReadLayer<H>, low: LiteralTerm, high: LiteralTerm) -> (start: Result<
    TripleCursor,
    PrologError,
>)
    ensures
        match (low.literal(), high.literal()) {
            (Err(e), _) => start == Err::<TripleCursor, PrologError>(e),
            (Ok(_), Err(e)) => start == Err::<TripleCursor, PrologError>(e),
            (Ok(l), Ok(h)) => exists|reply: Result<Vec<IdTriple>, IoError>| #[trigger]
                layer.triples_value_range_reply(&l, &h, reply) && range_started(start) == range_start(reply),
        },
{
    match low.entry() {
        Err(e) => Err(e),
        Ok(l) => match high.entry() {
            Err(e) => Err(e),
            Ok(h) => {
                let reply = layer.try_triples_value_range(&l, &h);
                start_range(reply)
            },
        },
    }
}

/// As `id_triple_value_range`, with the values in descending order.
pub fn id_triple_value_range_rev<H: LayerIo>(
    layer: &ReadLayer<H>,
    low: LiteralTerm,
    high: LiteralTerm,
) -> (start: Result<TripleCursor, PrologError>)
    ensures
        match (low.literal(), high.literal()) {
            (Err(e), _) => start == Err::<TripleCursor, PrologError>(e),
            (Ok(_), Err(e)) => start == Err::<TripleCursor, PrologError>(e),
            (Ok(l), Ok(h)) => exists|reply: Result<Vec<IdTriple>, IoError>| #[trigger]
                layer.triples_value_range_rev_reply(&l, &h, reply) && range_started(start) == range_start(reply),
        },
{
    match low.entry() {
        Err(e) => Err(e),
        Ok(l) => match high.entry() {
            Err(e) => Err(e),
            Ok(h) => {
                let reply = layer.try_triples_value_range_rev(&l, &h);
                start_range(reply)
            },
        },
    }
}

// ---- neighbours of a value ----

/// In which direction a neighbour is sought.
#[derive(Clone, Copy, Debug, PartialEq, Eq, Structural)]
pub enum Direction {
    Next,
    Previous,
}

/// An object that a neighbour is sought among: its id, and what it is.
pub struct Candidate {
    pub id: u64,
    pub object: Option<ObjectType>,
}

/// The bytes `b` lie beyond the bytes `a`.
pub open spec fn beyond(direction: Direction, a: Seq<u8>, b: Seq<u8>) -> bool {
    match direction {
        Direction::Next => crate::entry::bytes_less(a, b),
        Direction::Previous => crate::entry::bytes_less(b, a),
    }
}

/// The candidate is a value of the datatype of `reference`, and lies beyond it.
pub open spec fn qualifies(direction: Direction, reference: TypedDictEntry, candidate: Candidate) -> bool {
    &&& candidate.object matches Some(ObjectType::Value(entry))
    &&& entry@.datatype == reference@.datatype
    &&& beyond(direction, reference@.bytes, entry@.bytes)
}

/// The bytes of a candidate that is a value.
pub open spec fn value_bytes(candidate: Candidate) -> Seq<u8> {
    match candidate.object {
        Some(ObjectType::Value(entry)) => entry@.bytes,
        _ => Seq::empty(),
    }
}

/// Candidate `i` is the neighbour of `reference`: it qualifies, no candidate
/// that qualifies lies between the two, and it is the first such.
pub open spec fn is_neighbour(
    direction: Direction,
    reference: TypedDictEntry,
    candidates: Seq<Candidate>,
    i: int,
) -> bool {
    &&& 0 <= i < candidates.len()
    &&& qualifies(direction, reference, candidates[i])
    &&& forall|j: int|
        0 <= j < candidates.len() && qualifies(direction, reference, #[trigger] candidates[j]) ==> !beyond(
            direction,
            value_bytes(candidates[j]),
            value_bytes(candidates[i]),
        )
    &&& forall|j: int|
        0 <= j < i && qualifies(direction, reference, #[trigger] candidates[j]) ==> value_bytes(candidates[j])
            != value_bytes(candidates[i])
}

/// Whether the bytes `b` lie beyond the bytes `a`.
fn lies_beyond(direction: Direction, a: &Vec<u8>, b: &Vec<u8>) -> (is_beyond: bool)
    ensures
        is_beyond == beyond(direction, a@, b@),
{
    match direction {
        Direction::Next => comes_before(a, b),
        Direction::Previous => comes_before(b, a),
    }
}

proof fn beyond_is_transitive(direction: Direction, a: Seq<u8>, b: Seq<u8>, c: Seq<u8>)
    requires
        beyond(direction, a, b),
        beyond(direction, b, c),
    ensures
        beyond(direction, a, c),
{
    match direction {
        Direction::Next => crate::entry::bytes_less_is_transitive(a, b, c),
        Direction::Previous => crate::entry::bytes_less_is_transitive(c, b, a),
    }
}

proof fn beyond_is_irreflexive(direction: Direction, a: Seq<u8>)
    ensures
        !beyond(direction, a, a),
{
    crate::entry::bytes_less_is_irreflexive(a);
}

proof fn beyond_is_total(direction: Direction, a: Seq<u8>, b: Seq<u8>)
    ensures
        beyond(direction, a, b) || beyond(direction, b, a) || a == b,
{
    crate::entry::bytes_less_is_total(a, b);
}

/// The id of the neighbour of `reference` among the candidates, if it has one.
pub fn neighbour(
    direction: Direction,
    candidates: &Vec<Candidate>,
    reference: &TypedDictEntry,
) -> (id: Option<u64>)
    ensures
        match id {
            Some(found) => exists|i: int| #[trigger]
                is_neighbour(direction, *reference, candidates@, i) && found == candidates@[i].id,
            None => forall|j: int|
                0 <= j < candidates@.len() ==> !qualifies(direction, *reference, #[trigger] candidates@[j]),
        },
{
    let mut best: Option<usize> = None;
    let mut i: usize = 0;
    while i < candidates.len()
        invariant
            i <= candidates.len(),
            match best {
                Some(b) => b < i && is_neighbour(direction, *reference, candidates@.take(i as int), b as int),
                None => forall|j: int|
                    0 <= j < i ==> !qualifies(direction, *reference, #[trigger] candidates@[j]),
            },
        decreases candidates.len() - i,
    {
        let ghost seen = candidates@.take(i as int);
        let ghost more = candidates@.take(i + 1);
        assert(forall|j: int| 0 <= j < i ==> seen[j] == more[j]);
        assert(more[i as int] == candidates@[i as int]);
        let ghost before = best;
        if let Some(ObjectType::Value(entry)) = &candidates[i].object {
            if entry.has_datatype_of(reference) && lies_beyond(direction, &reference.bytes, &entry.bytes) {
                assert(qualifies(direction, *reference, more[i as int]));
                match best {
                    None => {
                        best = Some(i);
                        proof {
                            beyond_is_irreflexive(direction, value_bytes(more[i as int]));
                            assert forall|j: int|
                                0 <= j < more.len() && qualifies(direction, *reference, #[trigger] more[j]) implies j
                                == i by {
                                if j < i {
                                    assert(!qualifies(direction, *reference, candidates@[j]));
                                }
                            }
                        }
                    },
                    Some(b) => {
                        if let Some(ObjectType::Value(best_entry)) = &candidates[b].object {
                            proof {
                                assert(value_bytes(seen[b as int]) == best_entry@.bytes);
                            }
                            if lies_beyond(direction, &entry.bytes, &best_entry.bytes) {
                                best = Some(i);
                                proof {
                                    closer_candidate_is_the_neighbour(direction, *reference, more, b as int, i as int);
                                }
                            } else {
                                proof {
                                    farther_candidate_changes_nothing(direction, *reference, more, b as int, i as int);
                                }
                            }
                        } else {
                            assert(qualifies(direction, *reference, seen[b as int]));
                            assert(false);
                        }
                    },
                }
            }
        }
        proof {
            if before == best {
                if let Some(b) = best {
                    if !qualifies(direction, *reference, more[i as int]) {
                        assert(is_neighbour(direction, *reference, more, b as int)) by {
                            assert(forall|j: int| 0 <= j < b ==> seen[j] == more[j]);
                        }
                    }
                }
            }
        }
        i = i + 1;
    }
    assert(candidates@.take(i as int) =~= candidates@);
    match best {
        Some(b) => {
            assert(is_neighbour(direction, *reference, candidates@, b as int));
            Some(candidates[b].id)
        },
        None => None,
    }
}

/// A new last candidate that lies between the reference and the neighbour so
/// far is the neighbour.
proof fn closer_candidate_is_the_neighbour(
    direction: Direction,
    reference: TypedDictEntry,
    candidates: Seq<Candidate>,
    b: int,
    i: int,
)
    requires
        0 <= b < i,
        candidates.len() == i + 1,
        is_neighbour(direction, reference, candidates.take(i), b),
        qualifies(direction, reference, candidates[i]),
        beyond(direction, value_bytes(candidates[i]), value_bytes(candidates[b])),
    ensures
        is_neighbour(direction, reference, candidates, i),
{
    let seen = candidates.take(i);
    assert forall|j: int|
        0 <= j < candidates.len() && qualifies(direction, reference, #[trigger] candidates[j]) implies !beyond(
        direction,
        value_bytes(candidates[j]),
        value_bytes(candidates[i]),
    ) by {
        if j == i {
            beyond_is_irreflexive(direction, value_bytes(candidates[i]));
        } else {
            assert(seen[j] == candidates[j]);
            if beyond(direction, value_bytes(candidates[j]), value_bytes(candidates[i])) {
                beyond_is_transitive(
                    direction,
                    value_bytes(candidates[j]),
                    value_bytes(candidates[i]),
                    value_bytes(candidates[b]),
                );
            }
        }
    }
    assert forall|j: int| 0 <= j < i && qualifies(direction, reference, #[trigger] candidates[j]) implies value_bytes(
        candidates[j],
    ) != value_bytes(candidates[i]) by {
        assert(seen[j] == candidates[j]);
        assert(!beyond(direction, value_bytes(seen[j]), value_bytes(seen[b])));
    }
}

/// A new last candidate that does not lie between the reference and the
/// neighbour so far leaves that the neighbour.
proof fn farther_candidate_changes_nothing(
    direction: Direction,
    reference: TypedDictEntry,
    candidates: Seq<Candidate>,
    b: int,
    i: int,
)
    requires
        0 <= b < i,
        candidates.len() == i + 1,
        is_neighbour(direction, reference, candidates.take(i), b),
        !beyond(direction, value_bytes(candidates[i]), value_bytes(candidates[b])),
    ensures
        is_neighbour(direction, reference, candidates, b),
{
    let seen = candidates.take(i);
    assert(seen[b] == candidates[b]);
    assert forall|j: int|
        0 <= j < candidates.len() && qualifies(direction, reference, #[trigger] candidates[j]) implies !beyond(
        direction,
        value_bytes(candidates[j]),
        value_bytes(candidates[b]),
    ) by {
        if j < i {
            assert(seen[j] == candidates[j]);
        }
    }
    assert forall|j: int| 0 <= j < b && qualifies(direction, reference, #[trigger] candidates[j]) implies value_bytes(
        candidates[j],
    ) != value_bytes(candidates[b]) by {
        assert(seen[j] == candidates[j]);
    }
}

/// What came of reading the objects of the triples one after the other: either
/// all of them were read, or the last read failed.
pub open spec fn objects_read<H: LayerIo>(
    layer: ReadLayer<H>,
    triples: Seq<IdTriple>,
    objects: Seq<Result<Option<ObjectType>, IoError>>,
) -> bool {
    &&& objects.len() <= triples.len()
    &&& forall|i: int|
        0 <= i < objects.len() ==> layer.id_object_reply(triples[i].object, #[trigger] objects[i])
    &&& forall|i: int| 0 <= i < objects.len() - 1 ==> (#[trigger] objects[i]) is Ok
    &&& objects.len() < triples.len() ==> objects.len() > 0 && objects.last() is Err
}

/// The candidates are the objects that were read, with their ids.
pub open spec fn candidates_of(
    triples: Seq<IdTriple>,
    objects: Seq<Result<Option<ObjectType>, IoError>>,
    candidates: Seq<Candidate>,
) -> bool {
    &&& candidates.len() == objects.len()
    &&& forall|i: int|
        0 <= i < candidates.len() ==> (#[trigger] candidates[i]).id == triples[i].object && objects[i] == Ok::<
            Option<ObjectType>,
            IoError,
        >(candidates[i].object)
}

/// The id that a neighbour query answers with, from the candidates.
pub open spec fn neighbour_answer(
    direction: Direction,
    reference: TypedDictEntry,
    candidates: Seq<Candidate>,
    id: Result<u64, PrologError>,
) -> bool {
    match id {
        Ok(found) => exists|i: int| #[trigger]
            is_neighbour(direction, reference, candidates, i) && found == candidates[i].id,
        Err(PrologError::Failure) => forall|j: int|
            0 <= j < candidates.len() ==> !qualifies(direction, reference, #[trigger] candidates[j]),
        Err(PrologError::Exception(_)) => false,
    }
}

/// What a neighbour query answers, given what came of reading the objects: the
/// neighbour among them, or the error of the read that failed.
pub open spec fn objects_answer<H: LayerIo>(
    layer: ReadLayer<H>,
    direction: Direction,
    reference: TypedDictEntry,
    triples: Seq<IdTriple>,
    objects: Seq<Result<Option<ObjectType>, IoError>>,
    id: Result<u64, PrologError>,
) -> bool {
    &&& objects_read(layer, triples, objects)
    &&& if objects.len() > 0 && objects.last() is Err {
        id == Err::<u64, PrologError>(PrologError::Exception(Raised::Io(objects.last()->Err_0)))
    } else {
        exists|candidates: Seq<Candidate>| #[trigger]
            candidates_of(triples, objects, candidates) && neighbour_answer(direction, reference, candidates, id)
    }
}

/// What a neighbour query may answer, given the reply to the read for triples.
pub open spec fn neighbour_reply<H: LayerIo>(
    layer: ReadLayer<H>,
    direction: Direction,
    reference: TypedDictEntry,
    reply: Result<Vec<IdTriple>, IoError>,
    id: Result<u64, PrologError>,
) -> bool {
    match reply {
        Err(e) => id == Err::<u64, PrologError>(PrologError::Exception(Raised::Io(e))),
        Ok(triples) => exists|objects: Seq<Result<Option<ObjectType>, IoError>>| #[trigger]
            objects_answer(layer, direction, reference, triples@, objects, id),
    }
}

/// The candidates, or the error of the read that failed, are what came of
/// reading the objects.
pub open spec fn objects_settle<H: LayerIo>(
    layer: ReadLayer<H>,
    triples: Seq<IdTriple>,
    objects: Seq<Result<Option<ObjectType>, IoError>>,
    candidates: Result<Vec<Candidate>, IoError>,
) -> bool {
    &&& objects_read(layer, triples, objects)
    &&& match candidates {
        Err(e) => objects.len() > 0 && objects.last() == Err::<Option<ObjectType>, IoError>(e),
        Ok(cs) => candidates_of(triples, objects, cs@),
    }
}

/// Reads the objects of the triples one after the other, up to the first read
/// that fails.
fn read_objects<H: LayerIo>(layer: &ReadLayer<H>, triples: &Vec<IdTriple>) -> (candidates: Result<
    Vec<Candidate>,
    IoError,
>)
    ensures
        exists|objects: Seq<Result<Option<ObjectType>, IoError>>| #[trigger]
            objects_settle(*layer, triples@, objects, candidates),
{
    let ghost mut objects: Seq<Result<Option<ObjectType>, IoError>> = Seq::empty();
    let mut candidates: Vec<Candidate> = Vec::new();
    let mut i: usize = 0;
    while i < triples.len()
        invariant
            i <= triples.len(),
            objects.len() == i,
            forall|k: int| 0 <= k < i ==> layer.id_object_reply(triples@[k].object, #[trigger] objects[k]),
            candidates_of(triples@, objects, candidates@),
        decreases triples.len() - i,
    {
        let id: u64 = triples[i].object;
        let object = layer.try_id_object(id);
        let ghost longer = objects.push(object);
        match object {
            Err(e) => {
                assert(objects_settle(*layer, triples@, longer, Err(e))) by {
                    assert forall|k: int| 0 <= k < longer.len() - 1 implies (#[trigger] longer[k]) is Ok by {
                        assert(candidates@[k].id == triples@[k].object);
                    }
                }
                return Err(e);
            },
            Ok(o) => {
                let ghost shorter = candidates@;
                candidates.push(Candidate { id, object: o });
                proof {
                    assert forall|k: int| 0 <= k < candidates@.len() implies (#[trigger] candidates@[k]).id
                        == triples@[k].object && longer[k] == Ok::<Option<ObjectType>, IoError>(
                        candidates@[k].object,
                    ) by {
                        if k < i {
                            assert(shorter[k].id == triples@[k].object);
                        }
                    }
                    objects = longer;
                }
            },
        }
        i = i + 1;
    }
    assert(objects_settle(*layer, triples@, objects, Ok(candidates))) by {
        assert forall|k: int| 0 <= k < objects.len() implies (#[trigger] objects[k]) is Ok by {
            assert(candidates@[k].id == triples@[k].object);
        }
    }
    Ok(candidates)
}

/// The object of the subject and the predicate that is the neighbour of a
/// value.
fn sp_value_neighbour<H: LayerIo>(
    layer: &ReadLayer<H>,
    direction: Direction,
    subject: u64,
    predicate: u64,
    reference: &TypedDictEntry,
) -> (id: Result<u64, PrologError>)
    ensures
        exists|reply: Result<Vec<IdTriple>, IoError>| #[trigger]
            layer.triples_sp_reply(subject, predicate, reply) && neighbour_reply(
                *layer,
                direction,
                *reference,
                reply,
                id,
            ),
{
    let reply = layer.try_triples_sp(subject, predicate);
    match reply {
        Err(e) => Err(PrologError::Exception(Raised::Io(e))),
        Ok(triples) => {
            let candidates = read_objects(layer, &triples);
            let ghost objects = choose|objects: Seq<Result<Option<ObjectType>, IoError>>| #[trigger]
                objects_settle(*layer, triples@, objects, candidates);
            let id = match candidates {
                Err(e) => Err(PrologError::Exception(Raised::Io(e))),
                Ok(cs) => {
                    assert(objects.len() > 0 ==> cs@[objects.len() - 1].id == triples@[objects.len() - 1].object);
                    match neighbour(direction, &cs, reference) {
                        Some(found) => Ok(found),
                        None => Err(PrologError::Failure),
                    }
                },
            };
            assert(objects_answer(*layer, direction, *reference, triples@, objects, id));
            id
        },
    }
}

/// The object of the subject and the predicate that comes next after a value,
/// among those of its datatype.
pub fn id_triple_sp_value_next<H: LayerIo>(
    layer: &ReadLayer<H>,
    subject: u64,
    predicate: u64,
    reference: LiteralTerm,
) -> (id: Result<u64, PrologError>)
    ensures
        match reference.literal() {
            Err(e) => id == Err::<u64, PrologError>(e),
            Ok(entry) => exists|reply: Result<Vec<IdTriple>, IoError>| #[trigger]
                layer.triples_sp_reply(subject, predicate, reply) && neighbour_reply(
                    *layer,
                    Direction::Next,
                    entry,
                    reply,
                    id,
                ),
        },
{
    match reference.entry() {
        Err(e) => Err(e),
        Ok(entry) => sp_value_neighbour(layer, Direction::Next, subject, predicate, &entry),
    }
}

/// The object of the subject and the predicate that comes last before a value,
/// among those of its datatype.
pub fn id_triple_sp_value_previous<H: LayerIo>(
    layer: &ReadLayer<H>,
    subject: u64,
    predicate: u64,
    reference: LiteralTerm,
) -> (id: Result<u64, PrologError>)
    ensures
        match reference.literal() {
            Err(e) => id == Err::<u64, PrologError>(e),
            Ok(entry) => exists|reply: Result<Vec<IdTriple>, IoError>| #[trigger]
                layer.triples_sp_reply(subject, predicate, reply) && neighbour_reply(
                    *layer,
                    Direction::Previous,
                    entry,
                    reply,
                    id,
                ),
        },
{
    match reference.entry() {
        Err(e) => Err(e),
        Ok(entry) => sp_value_neighbour(layer, Direction::Previous, subject, predicate, &entry),
    }
}

// ---- laws ----

/// A value has at most one neighbour on each side.
pub proof fn the_neighbour_is_unique(
    direction: Direction,
    reference: TypedDictEntry,
    candidates: Seq<Candidate>,
    i: int,
    j: int,
)
    requires
        is_neighbour(direction, reference, candidates, i),
        is_neighbour(direction, reference, candidates, j),
    ensures
        i == j,
{
    beyond_is_total(direction, value_bytes(candidates[i]), value_bytes(candidates[j]));
    if i < j {
        assert(qualifies(direction, reference, candidates[i]));
    } else if j < i {
        assert(qualifies(direction, reference, candidates[j]));
    }
}

/// The neighbour lies strictly beyond the reference, and no candidate of its
/// datatype lies strictly between the two.
pub proof fn nothing_lies_between(
    direction: Direction,
    reference: TypedDictEntry,
    candidates: Seq<Candidate>,
    i: int,
    j: int,
)
    requires
        is_neighbour(direction, reference, candidates, i),
        0 <= j < candidates.len(),
        candidates[j].object matches Some(ObjectType::Value(entry)) && entry@.datatype == reference@.datatype,
    ensures
        beyond(direction, reference@.bytes, value_bytes(candidates[i])),
        !(beyond(direction, reference@.bytes, value_bytes(candidates[j])) && beyond(
            direction,
            value_bytes(candidates[j]),
            value_bytes(candidates[i]),
        )),
{
    if beyond(direction, reference@.bytes, value_bytes(candidates[j])) {
        assert(qualifies(direction, reference, candidates[j]));
    }
}

/// A typed value and a language string are literals: where the entry could be
/// made, it is the entry that counts, and where not, the reason why. The
/// exception for what is no literal is for what is neither.
pub proof fn values_and_language_strings_are_literals(
    term: LiteralTerm,
    made: Result<TypedDictEntry, PrologError>,
    entry: Result<TypedDictEntry, PrologError>,
)
    requires
        call_ensures(LiteralTerm::entry, (term,), entry),
    ensures
        term == LiteralTerm::Value(made) ==> entry == made,
        term == LiteralTerm::Lang(made) ==> entry == made,
        term is Other ==> entry == Err::<TypedDictEntry, PrologError>(PrologError::Exception(Raised::NotALiteral)),
{
}

/// The term stands for that entry.
pub open spec fn stands_for(term: LiteralTerm, entry: TypedDictEntry) -> bool {
    term == LiteralTerm::Value(Ok(entry)) || term == LiteralTerm::Lang(Ok(entry))
}

/// The term stands for no entry, for that reason.
pub open spec fn stands_for_none(term: LiteralTerm, why: PrologError) -> bool {
    ||| term == LiteralTerm::Value(Err(why))
    ||| term == LiteralTerm::Lang(Err(why))
    ||| term is Other && why == PrologError::Exception(Raised::NotALiteral)
}

/// A range query asks for the triples between its two bounds, whichever kind of
/// literal they are, and hands out what it is told. A lower bound that is none
/// ends it, and so does an upper bound after that.
pub proof fn id_triple_value_range_asks_for_its_bounds<H: LayerIo>(
    layer: ReadLayer<H>,
    low: LiteralTerm,
    high: LiteralTerm,
    start: Result<TripleCursor, PrologError>,
)
    requires
        call_ensures(id_triple_value_range::<H>, (&layer, low, high), start),
    ensures
        forall|l: TypedDictEntry, h: TypedDictEntry| #[trigger]
            stands_for(low, l) && #[trigger] stands_for(high, h) ==> exists|reply: Result<Vec<IdTriple>, IoError>|
                {
                    &&& #[trigger] layer.triples_value_range_reply(&l, &h, reply)
                    &&& reply matches Ok(triples) ==> (start matches Ok(c) && c.remaining() == triples@)
                    &&& reply matches Err(e) ==> start == Err::<TripleCursor, PrologError>(
                        PrologError::Exception(Raised::Io(e)),
                    )
                },
        forall|why: PrologError| #[trigger]
            stands_for_none(low, why) ==> start == Err::<TripleCursor, PrologError>(why),
        forall|l: TypedDictEntry, why: PrologError| #[trigger]
            stands_for(low, l) && #[trigger] stands_for_none(high, why) ==> start == Err::<TripleCursor, PrologError>(
                why,
            ),
{
}

/// So does the query that goes backwards.
pub proof fn id_triple_value_range_rev_asks_for_its_bounds<H: LayerIo>(
    layer: ReadLayer<H>,
    low: LiteralTerm,
    high: LiteralTerm,
    start: Result<TripleCursor, PrologError>,
)
    requires
        call_ensures(id_triple_value_range_rev::<H>, (&layer, low, high), start),
    ensures
        forall|l: TypedDictEntry, h: TypedDictEntry| #[trigger]
            stands_for(low, l) && #[trigger] stands_for(high, h) ==> exists|reply: Result<Vec<IdTriple>, IoError>|
                {
                    &&& #[trigger] layer.triples_value_range_rev_reply(&l, &h, reply)
                    &&& reply matches Ok(triples) ==> (start matches Ok(c) && c.remaining() == triples@)
                    &&& reply matches Err(e) ==> start == Err::<TripleCursor, PrologError>(
                        PrologError::Exception(Raised::Io(e)),
                    )
                },
        forall|why: PrologError| #[trigger]
            stands_for_none(low, why) ==> start == Err::<TripleCursor, PrologError>(why),
        forall|l: TypedDictEntry, why: PrologError| #[trigger]
            stands_for(low, l) && #[trigger] stands_for_none(high, why) ==> start == Err::<TripleCursor, PrologError>(
                why,
            ),
{
}

/// The bytes `b` come after the bytes `a`, or before them, going by the first
/// byte in which they differ.
pub open spec fn is_past(direction: Direction, a: Seq<u8>, b: Seq<u8>) -> bool {
    match direction {
        Direction::Next => crate::entry::precedes(a, b),
        Direction::Previous => crate::entry::precedes(b, a),
    }
}

/// The object is a value of the same datatype that lies past the reference.
pub open spec fn is_eligible(direction: Direction, reference: TypedDictEntry, object: Option<ObjectType>) -> bool {
    &&& object matches Some(ObjectType::Value(entry))
    &&& entry.datatype == reference.datatype
    &&& is_past(direction, reference.bytes@, entry.bytes@)
}

/// Candidate `i` is the nearest: it is eligible, no eligible one lies between
/// it and the reference, and none before it has the same bytes.
pub open spec fn is_nearest(
    direction: Direction,
    reference: TypedDictEntry,
    candidates: Seq<Candidate>,
    i: int,
) -> bool {
    &&& 0 <= i < candidates.len()
    &&& is_eligible(direction, reference, candidates[i].object)
    &&& forall|j: int|
        0 <= j < candidates.len() && is_eligible(direction, reference, (#[trigger] candidates[j]).object) ==> !is_past(
            direction,
            candidates[j].object->0->Value_0.bytes@,
            candidates[i].object->0->Value_0.bytes@,
        )
    &&& forall|j: int|
        0 <= j < i && is_eligible(direction, reference, (#[trigger] candidates[j]).object)
            ==> candidates[j].object->0->Value_0.bytes@ != candidates[i].object->0->Value_0.bytes@
}

proof fn past_is_beyond(direction: Direction, a: Seq<u8>, b: Seq<u8>)
    ensures
        is_past(direction, a, b) <==> beyond(direction, a, b),
{
    crate::entry::the_first_difference_decides(a, b);
    crate::entry::the_first_difference_decides(b, a);
}

proof fn eligible_is_qualified(direction: Direction, reference: TypedDictEntry, candidate: Candidate)
    ensures
        is_eligible(direction, reference, candidate.object) <==> qualifies(direction, reference, candidate),
{
    if let Some(ObjectType::Value(entry)) = candidate.object {
        past_is_beyond(direction, reference.bytes@, entry.bytes@);
    }
}

proof fn nearest_is_neighbour(direction: Direction, reference: TypedDictEntry, candidates: Seq<Candidate>, i: int)
    ensures
        is_nearest(direction, reference, candidates, i) <==> is_neighbour(direction, reference, candidates, i),
{
    assert forall|j: int| 0 <= j < candidates.len() implies is_eligible(
        direction,
        reference,
        (#[trigger] candidates[j]).object,
    ) == qualifies(direction, reference, candidates[j]) by {
        eligible_is_qualified(direction, reference, candidates[j]);
    }
    if 0 <= i < candidates.len() {
        assert forall|j: int| 0 <= j < candidates.len() implies is_past(
            direction,
            value_bytes(#[trigger] candidates[j]),
            value_bytes(candidates[i]),
        ) == beyond(direction, value_bytes(candidates[j]), value_bytes(candidates[i])) by {
            past_is_beyond(direction, value_bytes(candidates[j]), value_bytes(candidates[i]));
        }
    }
}

/// The neighbour among candidates is the nearest: going up, the least of those
/// of the datatype that are greater, and going down, the greatest of those that
/// are less. There is none only if no candidate is eligible.
pub proof fn the_neighbour_is_the_nearest(
    direction: Direction,
    candidates: Vec<Candidate>,
    reference: TypedDictEntry,
    id: Option<u64>,
)
    requires
        call_ensures(neighbour, (direction, &candidates, &reference), id),
    ensures
        id matches Some(found) ==> exists|i: int| #[trigger]
            is_nearest(direction, reference, candidates@, i) && candidates@[i].id == found,
        id is None ==> forall|j: int|
            0 <= j < candidates@.len() ==> !is_eligible(direction, reference, (#[trigger] candidates@[j]).object),
{
    if let Some(found) = id {
        let i = choose|i: int| #[trigger]
            is_neighbour(direction, reference, candidates@, i) && candidates@[i].id == found;
        nearest_is_neighbour(direction, reference, candidates@, i);
        assert(is_nearest(direction, reference, candidates@, i));
    } else {
        assert forall|j: int| 0 <= j < candidates@.len() implies !is_eligible(
            direction,
            reference,
            (#[trigger] candidates@[j]).object,
        ) by {
            eligible_is_qualified(direction, reference, candidates@[j]);
        }
    }
}

/// The candidates are the objects of the triples, as they were read.
pub open spec fn are_the_objects<H: LayerIo>(
    layer: ReadLayer<H>,
    triples: Seq<IdTriple>,
    candidates: Seq<Candidate>,
) -> bool {
    &&& candidates.len() == triples.len()
    &&& forall|k: int|
        0 <= k < candidates.len() ==> (#[trigger] candidates[k]).id == triples[k].object && layer.id_object_reply(
            triples[k].object,
            Ok(candidates[k].object),
        )
}

/// What the triples of a subject and a predicate give: the object that is the
/// nearest, a failure if none is eligible, and an exception if an object could
/// not be read.
pub open spec fn nearest_object<H: LayerIo>(
    layer: ReadLayer<H>,
    direction: Direction,
    reference: TypedDictEntry,
    triples: Seq<IdTriple>,
    id: Result<u64, PrologError>,
) -> bool {
    match id {
        Ok(found) => exists|candidates: Seq<Candidate>, i: int| #[trigger]
            are_the_objects(layer, triples, candidates) && #[trigger] is_nearest(direction, reference, candidates, i)
                && found == candidates[i].id,
        Err(PrologError::Failure) => exists|candidates: Seq<Candidate>| #[trigger]
            are_the_objects(layer, triples, candidates) && forall|j: int|
                0 <= j < candidates.len() ==> !is_eligible(direction, reference, (#[trigger] candidates[j]).object),
        Err(PrologError::Exception(Raised::Io(e))) => exists|k: int|
            #![trigger triples[k]]
            0 <= k < triples.len() && layer.id_object_reply(triples[k].object, Err(e)),
        Err(PrologError::Exception(_)) => false,
    }
}

proof fn an_answer_is_the_nearest_object<H: LayerIo>(
    layer: ReadLayer<H>,
    direction: Direction,
    reference: TypedDictEntry,
    triples: Vec<IdTriple>,
    id: Result<u64, PrologError>,
)
    requires
        neighbour_reply(layer, direction, reference, Ok(triples), id),
    ensures
        nearest_object(layer, direction, reference, triples@, id),
{
    let objects = choose|objects: Seq<Result<Option<ObjectType>, IoError>>| #[trigger]
        objects_answer(layer, direction, reference, triples@, objects, id);
    if objects.len() > 0 && objects.last() is Err {
        let k = objects.len() - 1;
        assert(layer.id_object_reply(triples@[k].object, objects[k]));
    } else {
        let candidates = choose|candidates: Seq<Candidate>| #[trigger]
            candidates_of(triples@, objects, candidates) && neighbour_answer(direction, reference, candidates, id);
        assert(are_the_objects(layer, triples@, candidates)) by {
            assert forall|k: int| 0 <= k < candidates.len() implies (#[trigger] candidates[k]).id == triples@[k].object
                && layer.id_object_reply(triples@[k].object, Ok(candidates[k].object)) by {
                assert(layer.id_object_reply(triples@[k].object, objects[k]));
            }
        }
        if let Ok(found) = id {
            let i = choose|i: int| #[trigger]
                is_neighbour(direction, reference, candidates, i) && found == candidates[i].id;
            nearest_is_neighbour(direction, reference, candidates, i);
            assert(is_nearest(direction, reference, candidates, i));
        } else {
            assert forall|j: int| 0 <= j < candidates.len() implies !is_eligible(
                direction,
                reference,
                (#[trigger] candidates[j]).object,
            ) by {
                eligible_is_qualified(direction, reference, candidates[j]);
            }
        }
    }
}

/// The next value is the least above the reference among the objects of the
/// subject and the predicate that have its datatype.
pub proof fn id_triple_sp_value_next_finds_the_nearest<H: LayerIo>(
    layer: ReadLayer<H>,
    subject: u64,
    predicate: u64,
    reference: LiteralTerm,
    id: Result<u64, PrologError>,
)
    requires
        call_ensures(id_triple_sp_value_next::<H>, (&layer, subject, predicate, reference), id),
    ensures
        forall|entry: TypedDictEntry| #[trigger]
            stands_for(reference, entry) ==> exists|reply: Result<Vec<IdTriple>, IoError>|
                {
                    &&& #[trigger] layer.triples_sp_reply(subject, predicate, reply)
                    &&& reply matches Ok(triples) ==> nearest_object(
                        layer,
                        Direction::Next,
                        entry,
                        triples@,
                        id,
                    )
                    &&& reply matches Err(e) ==> id == Err::<u64, PrologError>(PrologError::Exception(Raised::Io(e)))
                },
        forall|why: PrologError| #[trigger] stands_for_none(reference, why) ==> id == Err::<u64, PrologError>(why),
{
    assert forall|entry: TypedDictEntry| #[trigger] stands_for(reference, entry) implies exists|
        reply: Result<Vec<IdTriple>, IoError>,
    |
        {
            &&& #[trigger] layer.triples_sp_reply(subject, predicate, reply)
            &&& reply matches Ok(triples) ==> nearest_object(layer, Direction::Next, entry, triples@, id)
            &&& reply matches Err(e) ==> id == Err::<u64, PrologError>(PrologError::Exception(Raised::Io(e)))
        } by {
        let reply = choose|reply: Result<Vec<IdTriple>, IoError>| #[trigger]
            layer.triples_sp_reply(subject, predicate, reply) && neighbour_reply(
                layer,
                Direction::Next,
                entry,
                reply,
                id,
            );
        if let Ok(triples) = reply {
            an_answer_is_the_nearest_object(layer, Direction::Next, entry, triples, id);
        }
        assert(layer.triples_sp_reply(subject, predicate, reply));
    }
}

/// The previous value is the greatest below it.
pub proof fn id_triple_sp_value_previous_finds_the_nearest<H: LayerIo>(
    layer: ReadLayer<H>,
    subject: u64,
    predicate: u64,
    reference: LiteralTerm,
    id: Result<u64, PrologError>,
)
    requires
        call_ensures(id_triple_sp_value_previous::<H>, (&layer, subject, predicate, reference), id),
    ensures
        forall|entry: TypedDictEntry| #[trigger]
            stands_for(reference, entry) ==> exists|reply: Result<Vec<IdTriple>, IoError>|
                {
                    &&& #[trigger] layer.triples_sp_reply(subject, predicate, reply)
                    &&& reply matches Ok(triples) ==> nearest_object(
                        layer,
                        Direction::Previous,
                        entry,
                        triples@,
                        id,
                    )
                    &&& reply matches Err(e) ==> id == Err::<u64, PrologError>(PrologError::Exception(Raised::Io(e)))
                },
        forall|why: PrologError| #[trigger] stands_for_none(reference, why) ==> id == Err::<u64, PrologError>(why),
{
    assert forall|entry: TypedDictEntry| #[trigger] stands_for(reference, entry) implies exists|
        reply: Result<Vec<IdTriple>, IoError>,
    |
        {
            &&& #[trigger] layer.triples_sp_reply(subject, predicate, reply)
            &&& reply matches Ok(triples) ==> nearest_object(layer, Direction::Previous, entry, triples@, id)
            &&& reply matches Err(e) ==> id == Err::<u64, PrologError>(PrologError::Exception(Raised::Io(e)))
        } by {
        let reply = choose|reply: Result<Vec<IdTriple>, IoError>| #[trigger]
            layer.triples_sp_reply(subject, predicate, reply) && neighbour_reply(
                layer,
                Direction::Previous,
                entry,
                reply,
                id,
            );
        if let Ok(triples) = reply {
            an_answer_is_the_nearest_object(layer, Direction::Previous, entry, triples, id);
        }
        assert(layer.triples_sp_reply(subject, predicate, reply));
    }
}

} // verus!
