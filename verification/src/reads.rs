//! Reads that cannot report an error.
//!
//! Many readers are written for layers in memory, where a read cannot fail.
//! They read a lazy layer through the functions here. A read that fails leaves
//! its error in the sink of the layer and answers as if there were nothing.
//! Whoever reads this way takes the error before reporting any result: if there
//! is none, no read failed and the results are complete; if there is one, they
//! are discarded.
//!
//! Each such read is a read that answers with a `Result`, which touches no
//! sink, and then `settle`, which touches nothing else.
use crate::entry::{ObjectType, TypedDictEntry};
use crate::error::IoError;
use crate::layer::ReadLayer;
use crate::layer_io::LayerIo;
use crate::name::LayerName;
use crate::sinks::ErrorSinks;
use crate::stored::{layer_all_counts, layer_id_object_is_node, layer_parent_name, layer_single_triple_sp};
use crate::triple::{IdTriple, LayerCounts};
use vstd::prelude::*;

verus! {

/// The value of a read, or what stands for it if the read failed.
pub open spec fn or_fallback<T>(reply: Result<T, IoError>, fallback: T) -> T {
    match reply {
        Ok(v) => v,
        Err(_) => fallback,
    }
}

/// The triples of a read, or none if it failed.
pub open spec fn or_no_triples(reply: Result<Vec<IdTriple>, IoError>) -> Seq<IdTriple> {
    match reply {
        Ok(triples) => triples@,
        Err(_) => Seq::empty(),
    }
}

/// Whether an object is a node, as a lazy layer tells it from the object.
pub open spec fn is_node(object: Option<ObjectType>) -> Option<bool> {
    match object {
        Some(ObjectType::Node(_)) => Some(true),
        Some(ObjectType::Value(_)) => Some(false),
        None => None,
    }
}

/// The first of some triples, if there is one.
pub open spec fn first_of(triples: Seq<IdTriple>) -> Option<IdTriple> {
    if triples.len() > 0 {
        Some(triples[0])
    } else {
        None
    }
}

/// How many of some objects are values.
pub open spec fn values_among(objects: Seq<Option<ObjectType>>) -> nat
    decreases objects.len(),
{
    if objects.len() == 0 {
        0
    } else if is_node(objects.last()) == Some(false) {
        values_among(objects.drop_last()) + 1
    } else {
        values_among(objects.drop_last())
    }
}

/// How many nodes and how many values a layer has.
#[derive(Clone, Copy, Debug, PartialEq, Eq, Structural)]
pub struct ObjectCounts {
    pub nodes: u64,
    pub values: u64,
}

/// What came of counting: of the objects, and of the predicates.
pub struct CountReplies {
    pub objects: Result<ObjectCounts, IoError>,
    pub predicates: Result<u64, IoError>,
}

/// The counts, with 0 for what could not be counted.
pub open spec fn counted(replies: CountReplies) -> LayerCounts {
    let objects = or_fallback(replies.objects, ObjectCounts { nodes: 0, values: 0 });
    LayerCounts {
        node_count: objects.nodes as usize,
        predicate_count: or_fallback(replies.predicates, 0) as usize,
        value_count: objects.values as usize,
    }
}

impl<H: LayerIo> ReadLayer<H> {
    /// After a read with that reply: the sink of the layer holds the error of
    /// the reply unless it held one before, and no other sink has changed. A
    /// materialized layer changes nothing.
    pub open spec fn records<T>(self, before: ErrorSinks, after: ErrorSinks, reply: Result<T, IoError>) -> bool {
        &&& self.others_keep(before, after)
        &&& match self {
            ReadLayer::Materialized(_) => true,
            ReadLayer::Lazy(d) => after.held(d.sink()) == crate::sinks::after_read(before.held(d.sink()), reply),
        }
    }

    /// Settles a read: its value, or `fallback` if it failed, with its error
    /// recorded.
    pub fn settle<T>(&self, sinks: &mut ErrorSinks, reply: Result<T, IoError>, fallback: T) -> (value: T)
        requires
            self.sink_of(*old(sinks)),
        ensures
            value == or_fallback(reply, fallback),
            self.records(*old(sinks), *final(sinks), reply),
            self.sink_of(*final(sinks)),
    {
        match self {
            ReadLayer::Materialized(_) => match reply {
                Ok(value) => value,
                Err(_) => fallback,
            },
            ReadLayer::Lazy(d) => d.or_record(sinks, reply, fallback),
        }
    }

    // ---- reads with a reply that only these reads need ----

    /// What the name of the parent may be read as.
    pub open spec fn parent_name_reply(self, reply: Result<Option<LayerName>, IoError>) -> bool {
        match self {
            ReadLayer::Materialized(l) => match reply {
                Ok(Some(name)) => crate::stored::stored_parent_name(l) == Some(name@),
                Ok(None) => crate::stored::stored_parent_name(l) is None,
                Err(_) => false,
            },
            ReadLayer::Lazy(d) => call_ensures(H::parent_name, (&d.handle(),), reply),
        }
    }

    /// The name of the parent, if there is one.
    pub fn try_parent_name(&self) -> (reply: Result<Option<LayerName>, IoError>)
        ensures
            self.parent_name_reply(reply),
    {
        match self {
            ReadLayer::Materialized(l) => Ok(layer_parent_name(l)),
            ReadLayer::Lazy(d) => d.inner().parent_name(),
        }
    }

    /// What an object may be said to be. A lazy layer reads the object to tell.
    pub open spec fn id_object_is_node_reply(self, id: u64, reply: Result<Option<bool>, IoError>) -> bool {
        match self {
            ReadLayer::Materialized(l) => reply == Ok::<Option<bool>, IoError>(crate::stored::stored_is_node(l, id)),
            ReadLayer::Lazy(_) => exists|object: Result<Option<ObjectType>, IoError>| #[trigger]
                self.id_object_reply(id, object) && reply == (match object {
                    Ok(o) => Ok(is_node(o)),
                    Err(e) => Err(e),
                }),
        }
    }

    /// Whether the object that has an id is a node.
    pub fn try_id_object_is_node(&self, id: u64) -> (reply: Result<Option<bool>, IoError>)
        ensures
            self.id_object_is_node_reply(id, reply),
    {
        match self {
            ReadLayer::Materialized(l) => Ok(layer_id_object_is_node(l, id)),
            ReadLayer::Lazy(_) => match self.try_id_object(id) {
                Ok(Some(ObjectType::Node(_))) => Ok(Some(true)),
                Ok(Some(ObjectType::Value(_))) => Ok(Some(false)),
                Ok(None) => Ok(None),
                Err(e) => Err(e),
            },
        }
    }

    /// Which triple may stand for those with a subject and a predicate: in
    /// memory one of them, none only if there are none, and on a lazy layer
    /// the first.
    pub open spec fn single_triple_sp_reply(
        self,
        subject: u64,
        predicate: u64,
        reply: Result<Option<IdTriple>, IoError>,
    ) -> bool {
        match self {
            ReadLayer::Materialized(l) => {
                &&& reply matches Ok(triple)
                &&& triple == crate::stored::stored_single_triple_sp(l, subject, predicate)
                &&& crate::triple::one_of(crate::stored::stored_triples_sp(l, subject, predicate), triple)
                &&& triple matches Some(t) ==> t.subject == subject && t.predicate == predicate
            },
            ReadLayer::Lazy(_) => exists|triples: Result<Vec<IdTriple>, IoError>| #[trigger]
                self.triples_sp_reply(subject, predicate, triples) && reply == (match triples {
                    Ok(ts) => Ok(first_of(ts@)),
                    Err(e) => Err(e),
                }),
        }
    }

    /// One triple with a subject and a predicate, if there is one.
    pub fn try_single_triple_sp(&self, subject: u64, predicate: u64) -> (reply: Result<Option<IdTriple>, IoError>)
        ensures
            self.single_triple_sp_reply(subject, predicate, reply),
    {
        match self {
            ReadLayer::Materialized(l) => Ok(layer_single_triple_sp(l, subject, predicate)),
            ReadLayer::Lazy(_) => match self.try_triples_sp(subject, predicate) {
                Ok(triples) => {
                    if triples.len() > 0 {
                        Ok(Some(triples[0]))
                    } else {
                        Ok(None)
                    }
                },
                Err(e) => Err(e),
            },
        }
    }

    // ---- counts ----

    /// The objects are what the ids from 1 on were read as, one after the
    /// other.
    pub open spec fn first_objects(self, objects: Seq<Option<ObjectType>>) -> bool {
        forall|i: int| 0 <= i < objects.len() ==> self.id_object_reply((i + 1) as u64, Ok(#[trigger] objects[i]))
    }

    /// How many nodes and values may be counted. A lazy layer asks how many
    /// there are of both, and reads the object of every id up to that number,
    /// until a read fails. All that are not values count as nodes, so that the
    /// two add up to the number.
    pub open spec fn object_counts_reply(self, reply: Result<ObjectCounts, IoError>) -> bool {
        match self {
            ReadLayer::Materialized(l) => {
                let n = crate::stored::stored_node_and_value_count(l);
                &&& reply matches Ok(counts)
                &&& counts.nodes == crate::stored::stored_kind_count(l, true, n as nat)
                &&& counts.values == crate::stored::stored_kind_count(l, false, n as nat)
                &&& counts.nodes + counts.values == n
            },
            ReadLayer::Lazy(_) => match reply {
                Ok(counts) => exists|n: u64, objects: Seq<Option<ObjectType>>|
                    {
                        &&& #[trigger] self.node_and_value_count_reply(Ok(n))
                        &&& #[trigger] self.first_objects(objects)
                        &&& objects.len() == n
                        &&& counts.values == values_among(objects)
                        &&& counts.nodes + counts.values == n
                    },
                Err(e) => {
                    ||| self.node_and_value_count_reply(Err(e))
                    ||| exists|n: u64, objects: Seq<Option<ObjectType>>|
                        {
                            &&& #[trigger] self.node_and_value_count_reply(Ok(n))
                            &&& #[trigger] self.first_objects(objects)
                            &&& objects.len() < n
                            &&& self.id_object_reply((objects.len() + 1) as u64, Err(e))
                        }
                },
            },
        }
    }

    /// Counts the nodes and the values among the objects of the ids up to `n`.
    fn count_objects(&self, n: u64) -> (reply: Result<ObjectCounts, IoError>)
        requires
            self is Lazy,
            self.node_and_value_count_reply(Ok(n)),
        ensures
            self.object_counts_reply(reply),
    {
        let mut values: u64 = 0;
        let mut read: u64 = 0;
        let ghost mut objects: Seq<Option<ObjectType>> = Seq::empty();
        while read < n
            invariant
                self is Lazy,
                self.node_and_value_count_reply(Ok(n)),
                read <= n,
                objects.len() == read,
                self.first_objects(objects),
                values == values_among(objects),
                values <= read,
            decreases n - read,
        {
            match self.try_id_object(read + 1) {
                Err(e) => {
                    return Err(e);
                },
                Ok(object) => {
                    if let Some(ObjectType::Value(_)) = &object {
                        values = values + 1;
                    }
                    proof {
                        let longer = objects.push(object);
                        assert(longer.drop_last() =~= objects);
                        assert(self.first_objects(longer)) by {
                            assert forall|i: int| 0 <= i < longer.len() implies self.id_object_reply(
                                (i + 1) as u64,
                                Ok(#[trigger] longer[i]),
                            ) by {
                                if i < objects.len() {
                                    assert(longer[i] == objects[i]);
                                }
                            }
                        }
                        objects = longer;
                    }
                    read = read + 1;
                },
            }
        }
        Ok(ObjectCounts { nodes: n - values, values })
    }

    /// Counts what the layer has.
    pub fn try_all_counts(&self) -> (replies: CountReplies)
        ensures
            self.object_counts_reply(replies.objects),
            self.predicate_count_reply(replies.predicates),
    {
        match self {
            ReadLayer::Materialized(l) => {
                let counts = layer_all_counts(l);
                CountReplies {
                    objects: Ok(
                        ObjectCounts { nodes: counts.node_count as u64, values: counts.value_count as u64 },
                    ),
                    predicates: Ok(counts.predicate_count as u64),
                }
            },
            ReadLayer::Lazy(_) => {
                let objects = match self.try_node_and_value_count() {
                    Ok(n) => self.count_objects(n),
                    Err(e) => Err(e),
                };
                CountReplies { objects, predicates: self.try_predicate_count() }
            },
        }
    }

    /// After both parts of a count: the sink of the layer holds the first error
    /// unless it held one before, and no other sink has changed.
    pub open spec fn records_counts(self, before: ErrorSinks, after: ErrorSinks, replies: CountReplies) -> bool {
        &&& self.others_keep(before, after)
        &&& match self {
            ReadLayer::Materialized(_) => true,
            ReadLayer::Lazy(d) => after.held(d.sink()) == crate::sinks::after_read(
                crate::sinks::after_read(before.held(d.sink()), replies.objects),
                replies.predicates,
            ),
        }
    }

    /// Settles a count: what was counted, with 0 for what could not be, and
    /// the error recorded.
    pub fn settle_counts(&self, sinks: &mut ErrorSinks, replies: CountReplies) -> (counts: LayerCounts)
        requires
            self.sink_of(*old(sinks)),
        ensures
            counts == counted(replies),
            self.records_counts(*old(sinks), *final(sinks), replies),
            self.sink_of(*final(sinks)),
    {
        let objects = self.settle(sinks, replies.objects, ObjectCounts { nodes: 0, values: 0 });
        let predicates: u64 = self.settle(sinks, replies.predicates, 0);
        LayerCounts {
            node_count: objects.nodes as usize,
            predicate_count: predicates as usize,
            value_count: objects.values as usize,
        }
    }

    /// What `all_counts` may answer, and leave in the sink.
    pub open spec fn all_counts_answer(self, before: ErrorSinks, after: ErrorSinks, counts: LayerCounts) -> bool {
        exists|objects: Result<ObjectCounts, IoError>, predicates: Result<u64, IoError>|
            {
                let replies = CountReplies { objects, predicates };
                &&& #[trigger] self.object_counts_reply(objects)
                &&& #[trigger] self.predicate_count_reply(predicates)
                &&& counts == counted(replies)
                &&& self.records_counts(before, after, replies)
            }
    }

    /// How many nodes, predicates and values there are, ancestors counted.
    pub fn all_counts(&self, sinks: &mut ErrorSinks) -> (counts: LayerCounts)
        requires
            self.sink_of(*old(sinks)),
        ensures
            self.all_counts_answer(*old(sinks), *final(sinks), counts),
            self.sink_of(*final(sinks)),
    {
        let replies = self.try_all_counts();
        self.settle_counts(sinks, replies)
    }

    // ---- the reads ----

    /// What `parent_name` may answer, and leave in the sink.
    pub open spec fn parent_name_answer(
        self,
        before: ErrorSinks,
        after: ErrorSinks,
        value: Option<LayerName>,
    ) -> bool {
        exists|reply: Result<Option<LayerName>, IoError>|
            {
                &&& #[trigger] self.parent_name_reply(reply)
                &&& value == or_fallback(reply, None)
                &&& self.records(before, after, reply)
            }
    }

    /// The name of the parent, if there is one.
    pub fn parent_name(&self, sinks: &mut ErrorSinks) -> (value: Option<LayerName>)
        requires
            self.sink_of(*old(sinks)),
        ensures
            self.parent_name_answer(*old(sinks), *final(sinks), value),
            self.sink_of(*final(sinks)),
    {
        let reply = self.try_parent_name();
        self.settle(sinks, reply, None)
    }

    /// What `node_and_value_count` may answer, and leave in the sink.
    pub open spec fn node_and_value_count_answer(
        self,
        before: ErrorSinks,
        after: ErrorSinks,
        value: usize,
    ) -> bool {
        exists|reply: Result<u64, IoError>|
            {
                &&& #[trigger] self.node_and_value_count_reply(reply)
                &&& value == or_fallback(reply, 0) as usize
                &&& self.records(before, after, reply)
            }
    }

    /// How many nodes and values there are, ancestors counted.
    pub fn node_and_value_count(&self, sinks: &mut ErrorSinks) -> (value: usize)
        requires
            self.sink_of(*old(sinks)),
        ensures
            self.node_and_value_count_answer(*old(sinks), *final(sinks), value),
            self.sink_of(*final(sinks)),
    {
        let reply = self.try_node_and_value_count();
        let count: u64 = self.settle(sinks, reply, 0);
        count as usize
    }

    /// What `predicate_count` may answer, and leave in the sink.
    pub open spec fn predicate_count_answer(
        self,
        before: ErrorSinks,
        after: ErrorSinks,
        value: usize,
    ) -> bool {
        exists|reply: Result<u64, IoError>|
            {
                &&& #[trigger] self.predicate_count_reply(reply)
                &&& value == or_fallback(reply, 0) as usize
                &&& self.records(before, after, reply)
            }
    }

    /// How many predicates there are, ancestors counted.
    pub fn predicate_count(&self, sinks: &mut ErrorSinks) -> (value: usize)
        requires
            self.sink_of(*old(sinks)),
        ensures
            self.predicate_count_answer(*old(sinks), *final(sinks), value),
            self.sink_of(*final(sinks)),
    {
        let reply = self.try_predicate_count();
        let count: u64 = self.settle(sinks, reply, 0);
        count as usize
    }

    /// What `subject_id` may answer, and leave in the sink.
    pub open spec fn subject_id_answer(
        self,
        subject: &str,
        before: ErrorSinks,
        after: ErrorSinks,
        value: Option<u64>,
    ) -> bool {
        exists|reply: Result<Option<u64>, IoError>|
            {
                &&& #[trigger] self.subject_id_reply(subject, reply)
                &&& value == or_fallback(reply, None)
                &&& self.records(before, after, reply)
            }
    }

    /// The id of a subject.
    pub fn subject_id(&self, sinks: &mut ErrorSinks, subject: &str) -> (value: Option<u64>)
        requires
            self.sink_of(*old(sinks)),
        ensures
            self.subject_id_answer(subject, *old(sinks), *final(sinks), value),
            self.sink_of(*final(sinks)),
    {
        let reply = self.try_subject_id(subject);
        self.settle(sinks, reply, None)
    }

    /// What `predicate_id` may answer, and leave in the sink.
    pub open spec fn predicate_id_answer(
        self,
        predicate: &str,
        before: ErrorSinks,
        after: ErrorSinks,
        value: Option<u64>,
    ) -> bool {
        exists|reply: Result<Option<u64>, IoError>|
            {
                &&& #[trigger] self.predicate_id_reply(predicate, reply)
                &&& value == or_fallback(reply, None)
                &&& self.records(before, after, reply)
            }
    }

    /// The id of a predicate.
    pub fn predicate_id(&self, sinks: &mut ErrorSinks, predicate: &str) -> (value: Option<u64>)
        requires
            self.sink_of(*old(sinks)),
        ensures
            self.predicate_id_answer(predicate, *old(sinks), *final(sinks), value),
            self.sink_of(*final(sinks)),
    {
        let reply = self.try_predicate_id(predicate);
        self.settle(sinks, reply, None)
    }

    /// What `object_node_id` may answer, and leave in the sink.
    pub open spec fn object_node_id_answer(
        self,
        object: &str,
        before: ErrorSinks,
        after: ErrorSinks,
        value: Option<u64>,
    ) -> bool {
        exists|reply: Result<Option<u64>, IoError>|
            {
                &&& #[trigger] self.object_node_id_reply(object, reply)
                &&& value == or_fallback(reply, None)
                &&& self.records(before, after, reply)
            }
    }

    /// The id of a node in the place of an object.
    pub fn object_node_id(&self, sinks: &mut ErrorSinks, object: &str) -> (value: Option<u64>)
        requires
            self.sink_of(*old(sinks)),
        ensures
            self.object_node_id_answer(object, *old(sinks), *final(sinks), value),
            self.sink_of(*final(sinks)),
    {
        let reply = self.try_object_node_id(object);
        self.settle(sinks, reply, None)
    }

    /// What `object_value_id` may answer, and leave in the sink.
    pub open spec fn object_value_id_answer(
        self,
        object: &TypedDictEntry,
        before: ErrorSinks,
        after: ErrorSinks,
        value: Option<u64>,
    ) -> bool {
        exists|reply: Result<Option<u64>, IoError>|
            {
                &&& #[trigger] self.object_value_id_reply(object, reply)
                &&& value == or_fallback(reply, None)
                &&& self.records(before, after, reply)
            }
    }

    /// The id of a value.
    pub fn object_value_id(&self, sinks: &mut ErrorSinks, object: &TypedDictEntry) -> (value: Option<u64>)
        requires
            self.sink_of(*old(sinks)),
        ensures
            self.object_value_id_answer(object, *old(sinks), *final(sinks), value),
            self.sink_of(*final(sinks)),
    {
        let reply = self.try_object_value_id(object);
        self.settle(sinks, reply, None)
    }

    /// What `id_subject` may answer, and leave in the sink.
    pub open spec fn id_subject_answer(
        self,
        id: u64,
        before: ErrorSinks,
        after: ErrorSinks,
        value: Option<String>,
    ) -> bool {
        exists|reply: Result<Option<String>, IoError>|
            {
                &&& #[trigger] self.id_subject_reply(id, reply)
                &&& value == or_fallback(reply, None)
                &&& self.records(before, after, reply)
            }
    }

    /// The subject that has an id.
    pub fn id_subject(&self, sinks: &mut ErrorSinks, id: u64) -> (value: Option<String>)
        requires
            self.sink_of(*old(sinks)),
        ensures
            self.id_subject_answer(id, *old(sinks), *final(sinks), value),
            self.sink_of(*final(sinks)),
    {
        let reply = self.try_id_subject(id);
        self.settle(sinks, reply, None)
    }

    /// What `id_predicate` may answer, and leave in the sink.
    pub open spec fn id_predicate_answer(
        self,
        id: u64,
        before: ErrorSinks,
        after: ErrorSinks,
        value: Option<String>,
    ) -> bool {
        exists|reply: Result<Option<String>, IoError>|
            {
                &&& #[trigger] self.id_predicate_reply(id, reply)
                &&& value == or_fallback(reply, None)
                &&& self.records(before, after, reply)
            }
    }

    /// The predicate that has an id.
    pub fn id_predicate(&self, sinks: &mut ErrorSinks, id: u64) -> (value: Option<String>)
        requires
            self.sink_of(*old(sinks)),
        ensures
            self.id_predicate_answer(id, *old(sinks), *final(sinks), value),
            self.sink_of(*final(sinks)),
    {
        let reply = self.try_id_predicate(id);
        self.settle(sinks, reply, None)
    }

    /// What `id_object` may answer, and leave in the sink.
    pub open spec fn id_object_answer(
        self,
        id: u64,
        before: ErrorSinks,
        after: ErrorSinks,
        value: Option<ObjectType>,
    ) -> bool {
        exists|reply: Result<Option<ObjectType>, IoError>|
            {
                &&& #[trigger] self.id_object_reply(id, reply)
                &&& value == or_fallback(reply, None)
                &&& self.records(before, after, reply)
            }
    }

    /// The object that has an id.
    pub fn id_object(&self, sinks: &mut ErrorSinks, id: u64) -> (value: Option<ObjectType>)
        requires
            self.sink_of(*old(sinks)),
        ensures
            self.id_object_answer(id, *old(sinks), *final(sinks), value),
            self.sink_of(*final(sinks)),
    {
        let reply = self.try_id_object(id);
        self.settle(sinks, reply, None)
    }

    /// What `id_object_is_node` may answer, and leave in the sink.
    pub open spec fn id_object_is_node_answer(
        self,
        id: u64,
        before: ErrorSinks,
        after: ErrorSinks,
        value: Option<bool>,
    ) -> bool {
        exists|reply: Result<Option<bool>, IoError>|
            {
                &&& #[trigger] self.id_object_is_node_reply(id, reply)
                &&& value == or_fallback(reply, None)
                &&& self.records(before, after, reply)
            }
    }

    /// Whether the object that has an id is a node.
    pub fn id_object_is_node(&self, sinks: &mut ErrorSinks, id: u64) -> (value: Option<bool>)
        requires
            self.sink_of(*old(sinks)),
        ensures
            self.id_object_is_node_answer(id, *old(sinks), *final(sinks), value),
            self.sink_of(*final(sinks)),
    {
        let reply = self.try_id_object_is_node(id);
        self.settle(sinks, reply, None)
    }

    /// What `triple_exists` may answer, and leave in the sink.
    pub open spec fn triple_exists_answer(
        self,
        subject: u64,
        predicate: u64,
        object: u64,
        before: ErrorSinks,
        after: ErrorSinks,
        value: bool,
    ) -> bool {
        exists|reply: Result<bool, IoError>|
            {
                &&& #[trigger] self.triple_exists_reply(subject, predicate, object, reply)
                &&& value == or_fallback(reply, false)
                &&& self.records(before, after, reply)
            }
    }

    /// Whether a triple is there.
    pub fn triple_exists(
        &self,
        sinks: &mut ErrorSinks,
        subject: u64,
        predicate: u64,
        object: u64,
    ) -> (value: bool)
        requires
            self.sink_of(*old(sinks)),
        ensures
            self.triple_exists_answer(subject, predicate, object, *old(sinks), *final(sinks), value),
            self.sink_of(*final(sinks)),
    {
        let reply = self.try_triple_exists(subject, predicate, object);
        self.settle(sinks, reply, false)
    }

    /// What `triples` may answer, and leave in the sink.
    pub open spec fn triples_answer(
        self,
        before: ErrorSinks,
        after: ErrorSinks,
        value: Vec<IdTriple>,
    ) -> bool {
        exists|reply: Result<Vec<IdTriple>, IoError>|
            {
                &&& #[trigger] self.triples_reply(reply)
                &&& value@ == or_no_triples(reply)
                &&& self.records(before, after, reply)
            }
    }

    /// All triples.
    pub fn triples(&self, sinks: &mut ErrorSinks) -> (value: Vec<IdTriple>)
        requires
            self.sink_of(*old(sinks)),
        ensures
            self.triples_answer(*old(sinks), *final(sinks), value),
            self.sink_of(*final(sinks)),
    {
        let reply = self.try_triples();
        self.settle(sinks, reply, Vec::new())
    }

    /// What `triples_s` may answer, and leave in the sink.
    pub open spec fn triples_s_answer(
        self,
        subject: u64,
        before: ErrorSinks,
        after: ErrorSinks,
        value: Vec<IdTriple>,
    ) -> bool {
        exists|reply: Result<Vec<IdTriple>, IoError>|
            {
                &&& #[trigger] self.triples_s_reply(subject, reply)
                &&& value@ == or_no_triples(reply)
                &&& self.records(before, after, reply)
            }
    }

    /// The triples with a subject.
    pub fn triples_s(&self, sinks: &mut ErrorSinks, subject: u64) -> (value: Vec<IdTriple>)
        requires
            self.sink_of(*old(sinks)),
        ensures
            self.triples_s_answer(subject, *old(sinks), *final(sinks), value),
            self.sink_of(*final(sinks)),
    {
        let reply = self.try_triples_s(subject);
        self.settle(sinks, reply, Vec::new())
    }

    /// What `triples_sp` may answer, and leave in the sink.
    pub open spec fn triples_sp_answer(
        self,
        subject: u64,
        predicate: u64,
        before: ErrorSinks,
        after: ErrorSinks,
        value: Vec<IdTriple>,
    ) -> bool {
        exists|reply: Result<Vec<IdTriple>, IoError>|
            {
                &&& #[trigger] self.triples_sp_reply(subject, predicate, reply)
                &&& value@ == or_no_triples(reply)
                &&& self.records(before, after, reply)
            }
    }

    /// The triples with a subject and a predicate.
    pub fn triples_sp(&self, sinks: &mut ErrorSinks, subject: u64, predicate: u64) -> (value: Vec<IdTriple>)
        requires
            self.sink_of(*old(sinks)),
        ensures
            self.triples_sp_answer(subject, predicate, *old(sinks), *final(sinks), value),
            self.sink_of(*final(sinks)),
    {
        let reply = self.try_triples_sp(subject, predicate);
        self.settle(sinks, reply, Vec::new())
    }

    /// What `triples_p` may answer, and leave in the sink.
    pub open spec fn triples_p_answer(
        self,
        predicate: u64,
        before: ErrorSinks,
        after: ErrorSinks,
        value: Vec<IdTriple>,
    ) -> bool {
        exists|reply: Result<Vec<IdTriple>, IoError>|
            {
                &&& #[trigger] self.triples_p_reply(predicate, reply)
                &&& value@ == or_no_triples(reply)
                &&& self.records(before, after, reply)
            }
    }

    /// The triples with a predicate.
    pub fn triples_p(&self, sinks: &mut ErrorSinks, predicate: u64) -> (value: Vec<IdTriple>)
        requires
            self.sink_of(*old(sinks)),
        ensures
            self.triples_p_answer(predicate, *old(sinks), *final(sinks), value),
            self.sink_of(*final(sinks)),
    {
        let reply = self.try_triples_p(predicate);
        self.settle(sinks, reply, Vec::new())
    }

    /// What `triples_o` may answer, and leave in the sink.
    pub open spec fn triples_o_answer(
        self,
        object: u64,
        before: ErrorSinks,
        after: ErrorSinks,
        value: Vec<IdTriple>,
    ) -> bool {
        exists|reply: Result<Vec<IdTriple>, IoError>|
            {
                &&& #[trigger] self.triples_o_reply(object, reply)
                &&& value@ == or_no_triples(reply)
                &&& self.records(before, after, reply)
            }
    }

    /// The triples with an object.
    pub fn triples_o(&self, sinks: &mut ErrorSinks, object: u64) -> (value: Vec<IdTriple>)
        requires
            self.sink_of(*old(sinks)),
        ensures
            self.triples_o_answer(object, *old(sinks), *final(sinks), value),
            self.sink_of(*final(sinks)),
    {
        let reply = self.try_triples_o(object);
        self.settle(sinks, reply, Vec::new())
    }

    /// What `triples_value_range` may answer, and leave in the sink.
    pub open spec fn triples_value_range_answer(
        self,
        low: &TypedDictEntry,
        high: &TypedDictEntry,
        before: ErrorSinks,
        after: ErrorSinks,
        value: Vec<IdTriple>,
    ) -> bool {
        exists|reply: Result<Vec<IdTriple>, IoError>|
            {
                &&& #[trigger] self.triples_value_range_reply(low, high, reply)
                &&& value@ == or_no_triples(reply)
                &&& self.records(before, after, reply)
            }
    }

    /// The triples whose object is a value in a range, in ascending order.
    pub fn triples_value_range(
        &self,
        sinks: &mut ErrorSinks,
        low: &TypedDictEntry,
        high: &TypedDictEntry,
    ) -> (value: Vec<IdTriple>)
        requires
            self.sink_of(*old(sinks)),
        ensures
            self.triples_value_range_answer(low, high, *old(sinks), *final(sinks), value),
            self.sink_of(*final(sinks)),
    {
        let reply = self.try_triples_value_range(low, high);
        self.settle(sinks, reply, Vec::new())
    }

    /// What `triples_value_range_rev` may answer, and leave in the sink.
    pub open spec fn triples_value_range_rev_answer(
        self,
        low: &TypedDictEntry,
        high: &TypedDictEntry,
        before: ErrorSinks,
        after: ErrorSinks,
        value: Vec<IdTriple>,
    ) -> bool {
        exists|reply: Result<Vec<IdTriple>, IoError>|
            {
                &&& #[trigger] self.triples_value_range_rev_reply(low, high, reply)
                &&& value@ == or_no_triples(reply)
                &&& self.records(before, after, reply)
            }
    }

    /// The triples whose object is a value in a range, in descending order.
    pub fn triples_value_range_rev(
        &self,
        sinks: &mut ErrorSinks,
        low: &TypedDictEntry,
        high: &TypedDictEntry,
    ) -> (value: Vec<IdTriple>)
        requires
            self.sink_of(*old(sinks)),
        ensures
            self.triples_value_range_rev_answer(low, high, *old(sinks), *final(sinks), value),
            self.sink_of(*final(sinks)),
    {
        let reply = self.try_triples_value_range_rev(low, high);
        self.settle(sinks, reply, Vec::new())
    }

    /// What `triple_addition_count` may answer, and leave in the sink.
    pub open spec fn triple_addition_count_answer(
        self,
        before: ErrorSinks,
        after: ErrorSinks,
        value: usize,
    ) -> bool {
        exists|reply: Result<usize, IoError>|
            {
                &&& #[trigger] self.triple_addition_count_reply(reply)
                &&& value == or_fallback(reply, 0)
                &&& self.records(before, after, reply)
            }
    }

    /// How many additions the layer and its ancestors hold.
    pub fn triple_addition_count(&self, sinks: &mut ErrorSinks) -> (value: usize)
        requires
            self.sink_of(*old(sinks)),
        ensures
            self.triple_addition_count_answer(*old(sinks), *final(sinks), value),
            self.sink_of(*final(sinks)),
    {
        let reply = self.try_triple_addition_count();
        self.settle(sinks, reply, 0)
    }

    /// What `triple_removal_count` may answer, and leave in the sink.
    pub open spec fn triple_removal_count_answer(
        self,
        before: ErrorSinks,
        after: ErrorSinks,
        value: usize,
    ) -> bool {
        exists|reply: Result<usize, IoError>|
            {
                &&& #[trigger] self.triple_removal_count_reply(reply)
                &&& value == or_fallback(reply, 0)
                &&& self.records(before, after, reply)
            }
    }

    /// How many removals the layer and its ancestors hold.
    pub fn triple_removal_count(&self, sinks: &mut ErrorSinks) -> (value: usize)
        requires
            self.sink_of(*old(sinks)),
        ensures
            self.triple_removal_count_answer(*old(sinks), *final(sinks), value),
            self.sink_of(*final(sinks)),
    {
        let reply = self.try_triple_removal_count();
        self.settle(sinks, reply, 0)
    }

    /// What `single_triple_sp` may answer, and leave in the sink.
    pub open spec fn single_triple_sp_answer(
        self,
        subject: u64,
        predicate: u64,
        before: ErrorSinks,
        after: ErrorSinks,
        value: Option<IdTriple>,
    ) -> bool {
        exists|reply: Result<Option<IdTriple>, IoError>|
            {
                &&& #[trigger] self.single_triple_sp_reply(subject, predicate, reply)
                &&& value == or_fallback(reply, None)
                &&& self.records(before, after, reply)
            }
    }

    /// One triple with a subject and a predicate, if there is one.
    pub fn single_triple_sp(
        &self,
        sinks: &mut ErrorSinks,
        subject: u64,
        predicate: u64,
    ) -> (value: Option<IdTriple>)
        requires
            self.sink_of(*old(sinks)),
        ensures
            self.single_triple_sp_answer(subject, predicate, *old(sinks), *final(sinks), value),
            self.sink_of(*final(sinks)),
    {
        let reply = self.try_single_triple_sp(subject, predicate);
        self.settle(sinks, reply, None)
    }

    /// How many bytes back the layer. Of a lazy layer that is not known, and 0
    /// stands for it; the sinks are left alone.
    pub fn stored_size(&self) -> (size: usize)
        ensures
            self.stored_size_reply(Ok(size)),
    {
        match self {
            ReadLayer::Materialized(l) => H::stored_size(l),
            ReadLayer::Lazy(_) => 0,
        }
    }
}

} // verus!
