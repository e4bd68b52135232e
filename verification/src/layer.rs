//! Layers as the Prolog interface sees them.
//!
//! A layer is either materialized, wholly in memory, or lazy: read block by
//! block from the storage when it is asked. The `try_` reads answer with a
//! `Result` on both arms, so that a failed read is an error and nothing else.
//! Writes and the rewriting of history need a whole layer, and bring a lazy
//! one into memory first.
use crate::entry::{ObjectType, TypedDictEntry};
use crate::error::{ErrorKind, IoError};
use crate::layer_io::LayerIo;
use crate::name::{same_name, LayerName};
use crate::sinks::{ErrorSinks, SinkId};
use crate::stored::{
    layer_id_object, layer_id_predicate, layer_id_subject, layer_name, layer_node_and_value_count,
    layer_object_node_id, layer_object_value_id, layer_predicate_count, layer_predicate_id, layer_subject_id,
    layer_triple_addition_count, layer_triple_count, layer_triple_exists, layer_triple_removal_count,
    layer_triples, layer_triples_o, layer_triples_p, layer_triples_s, layer_triples_sp,
};
use crate::triple::IdTriple;
use terminus_store::store::sync::{SyncStoreLayer, SyncStoreLayerBuilder};
use vstd::prelude::*;
use vstd::string::StringExecFns;

verus! {

/// A layer that is read from the storage, with the sink for the errors of
/// those reads that cannot report one.
///
/// All clones of a layer share its sink.
pub struct DisklessLayer<H> {
    inner: H,
    name: LayerName,
    sink: SinkId,
}

impl<H> DisklessLayer<H> {
    /// What the layer is read through.
    pub closed spec fn handle(self) -> H {
        self.inner
    }

    /// Its name.
    pub closed spec fn layer_name(self) -> Seq<u32> {
        self.name@
    }

    /// Its sink.
    pub closed spec fn sink(self) -> SinkId {
        self.sink
    }

    /// The layer of that name, with a sink of its own.
    pub fn new(inner: H, name: LayerName, sinks: &mut ErrorSinks) -> (layer: DisklessLayer<H>)
        requires
            old(sinks).wf(),
            old(sinks).issued() < u64::MAX,
        ensures
            layer.handle() == inner,
            layer.layer_name() == name@,
            layer.sink() == old(sinks).issued(),
            final(sinks).wf(),
            final(sinks).issued() == old(sinks).issued() + 1,
            final(sinks).errors() == old(sinks).errors(),
            final(sinks).held(layer.sink()) is None,
    {
        let sink: SinkId = sinks.fresh();
        DisklessLayer { inner, name, sink }
    }

    /// What the layer is read through, where errors are handed on rather than
    /// recorded.
    pub fn inner(&self) -> (inner: &H)
        ensures
            *inner == self.handle(),
    {
        &self.inner
    }

    /// Its sink, for whoever empties it when the last clone of the layer is
    /// gone.
    pub fn sink_id(&self) -> (sink: SinkId)
        ensures
            sink == self.sink(),
    {
        self.sink
    }

    /// The value of a read, or `fallback` if it failed. Its error is recorded
    /// in the sink of the layer, which keeps the first.
    pub fn or_record<T>(&self, sinks: &mut ErrorSinks, result: Result<T, IoError>, fallback: T) -> (value: T)
        requires
            old(sinks).wf(),
            self.sink() < old(sinks).issued(),
        ensures
            value == (match result {
                Ok(v) => v,
                Err(_) => fallback,
            }),
            final(sinks).wf(),
            final(sinks).held(self.sink()) == crate::sinks::after_read(old(sinks).held(self.sink()), result),
            final(sinks).differs_only_at(*old(sinks), self.sink()),
            result is Ok ==> *final(sinks) == *old(sinks),
    {
        match result {
            Ok(v) => v,
            Err(e) => {
                sinks.record(self.sink, e);
                fallback
            },
        }
    }

    /// Takes the first error recorded since the last call, if there is one.
    pub fn take_error(&self, sinks: &mut ErrorSinks) -> (error: Option<IoError>)
        requires
            old(sinks).wf(),
        ensures
            error == old(sinks).held(self.sink()),
            final(sinks).wf(),
            final(sinks).held(self.sink()) is None,
            final(sinks).differs_only_at(*old(sinks), self.sink()),
    {
        sinks.take(self.sink)
    }
}

impl<H: LayerIo> Clone for DisklessLayer<H> {
    fn clone(&self) -> (copy: DisklessLayer<H>)
        ensures
            vstd::pervasive::cloned(self.handle(), copy.handle()),
            copy.layer_name() == self.layer_name(),
            copy.sink() == self.sink(),
    {
        DisklessLayer { inner: self.inner.clone(), name: self.name, sink: self.sink }
    }
}

/// A layer: in memory, or read from the storage.
pub enum ReadLayer<H> {
    Materialized(SyncStoreLayer),
    Lazy(DisklessLayer<H>),
}

impl<H: LayerIo> Clone for ReadLayer<H> {
    fn clone(&self) -> (copy: ReadLayer<H>)
        ensures
            match *self {
                ReadLayer::Materialized(l) => copy == ReadLayer::<H>::Materialized(l),
                ReadLayer::Lazy(d) => copy matches ReadLayer::Lazy(c) && vstd::pervasive::cloned(
                    d.handle(),
                    c.handle(),
                ) && c.layer_name() == d.layer_name() && c.sink() == d.sink(),
            },
    {
        match self {
            ReadLayer::Materialized(l) => ReadLayer::Materialized(l.clone()),
            ReadLayer::Lazy(d) => ReadLayer::Lazy(d.clone()),
        }
    }
}

/// What comes of bringing a lazy layer into memory for the operation `what`.
pub open spec fn materialize_settles(
    what: Seq<char>,
    reply: Result<Option<SyncStoreLayer>, IoError>,
    layer: Result<SyncStoreLayer, IoError>,
) -> bool {
    match reply {
        Ok(Some(l)) => layer == Ok::<SyncStoreLayer, IoError>(l),
        Ok(None) => layer matches Err(e) && e.kind == ErrorKind::NotFound && e.message@ == what
            + ": layer could not be materialized"@,
        Err(e) => layer == Err::<SyncStoreLayer, IoError>(e),
    }
}

/// The layer that was brought into memory for the operation `what`. That there
/// is no such layer is an error of kind `NotFound`.
pub fn materialized_or_not_found(what: &str, reply: Result<Option<SyncStoreLayer>, IoError>) -> (layer: Result<
    SyncStoreLayer,
    IoError,
>)
    ensures
        materialize_settles(what@, reply, layer),
{
    match reply {
        Ok(Some(l)) => Ok(l),
        Ok(None) => Err(
            IoError::new(
                ErrorKind::NotFound,
                String::from_str(what).concat(": layer could not be materialized"),
            ),
        ),
        Err(e) => Err(e),
    }
}

impl<H: LayerIo> ReadLayer<H> {
    /// The name of the layer.
    pub open spec fn layer_name(self) -> Seq<u32> {
        match self {
            ReadLayer::Materialized(l) => crate::stored::stored_name(l),
            ReadLayer::Lazy(d) => d.layer_name(),
        }
    }

    /// The sink of the layer, if it has one, was handed out by `sinks`.
    pub open spec fn sink_of(self, sinks: ErrorSinks) -> bool {
        &&& sinks.wf()
        &&& match self {
            ReadLayer::Materialized(_) => true,
            ReadLayer::Lazy(d) => d.sink() < sinks.issued(),
        }
    }

    /// What the layer has recorded in its sink.
    pub open spec fn held(self, sinks: ErrorSinks) -> Option<IoError> {
        match self {
            ReadLayer::Materialized(_) => None,
            ReadLayer::Lazy(d) => sinks.held(d.sink()),
        }
    }

    /// The sinks before and after are the same, and hold the same, but for
    /// what the sink of the layer holds.
    pub open spec fn others_keep(self, before: ErrorSinks, after: ErrorSinks) -> bool {
        match self {
            ReadLayer::Materialized(_) => after == before,
            ReadLayer::Lazy(d) => after.wf() && after.differs_only_at(before, d.sink()),
        }
    }

    // ---- which arm ----

    /// The layer in memory, if it is.
    pub fn materialized(&self) -> (layer: Option<&SyncStoreLayer>)
        ensures
            match *self {
                ReadLayer::Materialized(l) => layer matches Some(m) && *m == l,
                ReadLayer::Lazy(_) => layer is None,
            },
    {
        match self {
            ReadLayer::Materialized(l) => Some(l),
            ReadLayer::Lazy(_) => None,
        }
    }

    /// The layer in memory, if it is.
    pub fn into_materialized(self) -> (layer: Option<SyncStoreLayer>)
        ensures
            layer == (match self {
                ReadLayer::Materialized(l) => Some(l),
                ReadLayer::Lazy(_) => None,
            }),
    {
        match self {
            ReadLayer::Materialized(l) => Some(l),
            ReadLayer::Lazy(_) => None,
        }
    }

    /// What bringing the layer into memory for the operation `what` may give:
    /// the layer itself where it is there already, else what the storage says.
    pub open spec fn materialized_reply(self, what: Seq<char>, layer: Result<SyncStoreLayer, IoError>) -> bool {
        match self {
            ReadLayer::Materialized(l) => layer == Ok::<SyncStoreLayer, IoError>(l),
            ReadLayer::Lazy(d) => exists|reply: Result<Option<SyncStoreLayer>, IoError>|
                #[trigger] call_ensures(H::materialize, (&d.handle(),), reply) && materialize_settles(
                    what,
                    reply,
                    layer,
                ),
        }
    }

    /// The layer in memory, brought there if need be.
    ///
    /// This costs what lazy layers are there to avoid. Reads never call it.
    fn materialized_layer(&self, what: &str) -> (layer: Result<SyncStoreLayer, IoError>)
        ensures
            self.materialized_reply(what@, layer),
    {
        match self {
            ReadLayer::Materialized(l) => Ok(l.clone()),
            ReadLayer::Lazy(d) => {
                let reply = d.inner().materialize();
                assert(call_ensures(H::materialize, (&d.handle(),), reply));
                materialized_or_not_found(what, reply)
            },
        }
    }

    /// The layer in memory, where a built layer is required: to install it as
    /// a head, or to apply it to a builder.
    pub fn require_materialized_head(&self) -> (layer: Result<SyncStoreLayer, IoError>)
        ensures
            self.materialized_reply("this operation"@, layer),
    {
        self.materialized_layer("this operation")
    }

    /// The name of the layer.
    pub fn name(&self) -> (name: LayerName)
        ensures
            name@ == self.layer_name(),
            self.layer_name().len() == 5,
    {
        match self {
            ReadLayer::Materialized(l) => layer_name(l),
            ReadLayer::Lazy(d) => d.name,
        }
    }

    /// Takes the first error recorded since the last call, if there is one. A
    /// materialized layer never has one.
    pub fn take_error(&self, sinks: &mut ErrorSinks) -> (error: Option<IoError>)
        requires
            old(sinks).wf(),
        ensures
            error == self.held(*old(sinks)),
            self.held(*final(sinks)) is None,
            self.others_keep(*old(sinks), *final(sinks)),
            final(sinks).wf(),
    {
        match self {
            ReadLayer::Materialized(_) => None,
            ReadLayer::Lazy(d) => d.take_error(sinks),
        }
    }

    // ---- chain metadata ----

    /// What `parent` may answer: the parent of a materialized layer is
    /// materialized, that of a lazy layer is lazy and has a sink of its own.
    pub open spec fn parent_reply(
        self,
        before: ErrorSinks,
        after: ErrorSinks,
        parent: Result<Option<ReadLayer<H>>, IoError>,
    ) -> bool {
        match self {
            ReadLayer::Materialized(l) => after == before && exists|reply: Result<Option<SyncStoreLayer>, IoError>|
                #[trigger] call_ensures(H::stored_parent, (&l,), reply) && parent == (match reply {
                    Ok(Some(p)) => Ok(Some(ReadLayer::<H>::Materialized(p))),
                    Ok(None) => Ok(None),
                    Err(e) => Err(e),
                }),
            ReadLayer::Lazy(d) => after.errors() == before.errors() && exists|
                reply: Result<Option<(H, LayerName)>, IoError>,
            | #[trigger]
                call_ensures(H::parent, (&d.handle(),), reply) && match reply {
                    Ok(Some((handle, name))) => {
                        &&& parent matches Ok(Some(ReadLayer::Lazy(p)))
                        &&& p.handle() == handle
                        &&& p.layer_name() == name@
                        &&& p.sink() == before.issued()
                        &&& after.issued() == before.issued() + 1
                    },
                    Ok(None) => parent == Ok::<Option<ReadLayer<H>>, IoError>(None) && after == before,
                    Err(e) => parent == Err::<Option<ReadLayer<H>>, IoError>(e) && after == before,
                },
        }
    }

    /// The parent of the layer, if it has one.
    pub fn parent(&self, sinks: &mut ErrorSinks) -> (parent: Result<Option<ReadLayer<H>>, IoError>)
        requires
            self.sink_of(*old(sinks)),
            old(sinks).issued() < u64::MAX,
        ensures
            self.parent_reply(*old(sinks), *final(sinks), parent),
            final(sinks).wf(),
    {
        match self {
            ReadLayer::Materialized(l) => {
                let reply = H::stored_parent(l);
                match reply {
                    Ok(Some(p)) => Ok(Some(ReadLayer::Materialized(p))),
                    Ok(None) => Ok(None),
                    Err(e) => Err(e),
                }
            },
            ReadLayer::Lazy(d) => {
                let reply = d.inner().parent();
                assert(call_ensures(H::parent, (&d.handle(),), reply));
                match reply {
                    Ok(Some((handle, name))) => Ok(
                        Some(ReadLayer::Lazy(DisklessLayer::new(handle, name, sinks))),
                    ),
                    Ok(None) => Ok(None),
                    Err(e) => Err(e),
                }
            },
        }
    }

    /// What `retrieve_layer_stack_names` may answer.
    pub open spec fn layer_stack_names_reply(self, reply: Result<Vec<LayerName>, IoError>) -> bool {
        match self {
            ReadLayer::Materialized(l) => call_ensures(H::stored_layer_stack_names, (&l,), reply),
            ReadLayer::Lazy(d) => call_ensures(H::retrieve_layer_stack_names, (&d.handle(),), reply),
        }
    }

    /// The names of the layers that the layer is made of.
    pub fn retrieve_layer_stack_names(&self) -> (reply: Result<Vec<LayerName>, IoError>)
        ensures
            self.layer_stack_names_reply(reply),
    {
        match self {
            ReadLayer::Materialized(l) => H::stored_layer_stack_names(l),
            ReadLayer::Lazy(d) => d.inner.retrieve_layer_stack_names(),
        }
    }

    // ---- counts of names ----

    /// What `try_node_and_value_count` may answer.
    pub open spec fn node_and_value_count_reply(self, reply: Result<u64, IoError>) -> bool {
        match self {
            ReadLayer::Materialized(l) => reply == Ok::<u64, IoError>(
                crate::stored::stored_node_and_value_count(l) as u64,
            ),
            ReadLayer::Lazy(d) => call_ensures(H::node_and_value_count, (&d.handle(),), reply),
        }
    }

    /// How many nodes and values there are, ancestors counted.
    pub fn try_node_and_value_count(&self) -> (reply: Result<u64, IoError>)
        ensures
            self.node_and_value_count_reply(reply),
    {
        match self {
            ReadLayer::Materialized(l) => Ok(layer_node_and_value_count(l) as u64),
            ReadLayer::Lazy(d) => d.inner.node_and_value_count(),
        }
    }

    /// What `try_predicate_count` may answer.
    pub open spec fn predicate_count_reply(self, reply: Result<u64, IoError>) -> bool {
        match self {
            ReadLayer::Materialized(l) => reply == Ok::<u64, IoError>(
                crate::stored::stored_predicate_count(l) as u64,
            ),
            ReadLayer::Lazy(d) => call_ensures(H::predicate_count, (&d.handle(),), reply),
        }
    }

    /// How many predicates there are, ancestors counted.
    pub fn try_predicate_count(&self) -> (reply: Result<u64, IoError>)
        ensures
            self.predicate_count_reply(reply),
    {
        match self {
            ReadLayer::Materialized(l) => Ok(layer_predicate_count(l) as u64),
            ReadLayer::Lazy(d) => d.inner.predicate_count(),
        }
    }

    // ---- from names to ids ----

    /// What `try_subject_id` may answer.
    pub open spec fn subject_id_reply(self, subject: &str, reply: Result<Option<u64>, IoError>) -> bool {
        match self {
            ReadLayer::Materialized(l) => reply == Ok::<Option<u64>, IoError>(
                crate::stored::stored_subject_id(l, subject@),
            ),
            ReadLayer::Lazy(d) => call_ensures(H::subject_id, (&d.handle(), subject), reply),
        }
    }

    /// The id of a subject.
    pub fn try_subject_id(&self, subject: &str) -> (reply: Result<Option<u64>, IoError>)
        ensures
            self.subject_id_reply(subject, reply),
    {
        match self {
            ReadLayer::Materialized(l) => Ok(layer_subject_id(l, subject)),
            ReadLayer::Lazy(d) => d.inner.subject_id(subject),
        }
    }

    /// What `try_predicate_id` may answer.
    pub open spec fn predicate_id_reply(self, predicate: &str, reply: Result<Option<u64>, IoError>) -> bool {
        match self {
            ReadLayer::Materialized(l) => reply == Ok::<Option<u64>, IoError>(
                crate::stored::stored_predicate_id(l, predicate@),
            ),
            ReadLayer::Lazy(d) => call_ensures(H::predicate_id, (&d.handle(), predicate), reply),
        }
    }

    /// The id of a predicate.
    pub fn try_predicate_id(&self, predicate: &str) -> (reply: Result<Option<u64>, IoError>)
        ensures
            self.predicate_id_reply(predicate, reply),
    {
        match self {
            ReadLayer::Materialized(l) => Ok(layer_predicate_id(l, predicate)),
            ReadLayer::Lazy(d) => d.inner.predicate_id(predicate),
        }
    }

    /// What `try_object_node_id` may answer.
    pub open spec fn object_node_id_reply(self, object: &str, reply: Result<Option<u64>, IoError>) -> bool {
        match self {
            ReadLayer::Materialized(l) => reply == Ok::<Option<u64>, IoError>(
                crate::stored::stored_object_node_id(l, object@),
            ),
            ReadLayer::Lazy(d) => call_ensures(H::object_node_id, (&d.handle(), object), reply),
        }
    }

    /// The id of a node in the place of an object.
    pub fn try_object_node_id(&self, object: &str) -> (reply: Result<Option<u64>, IoError>)
        ensures
            self.object_node_id_reply(object, reply),
    {
        match self {
            ReadLayer::Materialized(l) => Ok(layer_object_node_id(l, object)),
            ReadLayer::Lazy(d) => d.inner.object_node_id(object),
        }
    }

    /// What `try_object_value_id` may answer.
    pub open spec fn object_value_id_reply(
        self,
        object: &TypedDictEntry,
        reply: Result<Option<u64>, IoError>,
    ) -> bool {
        match self {
            ReadLayer::Materialized(l) => reply == Ok::<Option<u64>, IoError>(
                crate::stored::stored_object_value_id(l, object.datatype, object.bytes@),
            ),
            ReadLayer::Lazy(d) => call_ensures(H::object_value_id, (&d.handle(), object), reply),
        }
    }

    /// The id of a value.
    pub fn try_object_value_id(&self, object: &TypedDictEntry) -> (reply: Result<Option<u64>, IoError>)
        ensures
            self.object_value_id_reply(object, reply),
    {
        match self {
            ReadLayer::Materialized(l) => Ok(layer_object_value_id(l, object)),
            ReadLayer::Lazy(d) => d.inner.object_value_id(object),
        }
    }

    // ---- from ids to names ----

    /// What `try_id_subject` may answer.
    pub open spec fn id_subject_reply(self, id: u64, reply: Result<Option<String>, IoError>) -> bool {
        match self {
            ReadLayer::Materialized(l) => match reply {
                Ok(Some(v)) => crate::stored::stored_id_subject(l, id) == Some(v@),
                Ok(None) => crate::stored::stored_id_subject(l, id) is None,
                Err(_) => false,
            },
            ReadLayer::Lazy(d) => call_ensures(H::id_subject, (&d.handle(), id), reply),
        }
    }

    /// The subject that has an id.
    pub fn try_id_subject(&self, id: u64) -> (reply: Result<Option<String>, IoError>)
        ensures
            self.id_subject_reply(id, reply),
    {
        match self {
            ReadLayer::Materialized(l) => Ok(layer_id_subject(l, id)),
            ReadLayer::Lazy(d) => d.inner.id_subject(id),
        }
    }

    /// What `try_id_predicate` may answer.
    pub open spec fn id_predicate_reply(self, id: u64, reply: Result<Option<String>, IoError>) -> bool {
        match self {
            ReadLayer::Materialized(l) => match reply {
                Ok(Some(v)) => crate::stored::stored_id_predicate(l, id) == Some(v@),
                Ok(None) => crate::stored::stored_id_predicate(l, id) is None,
                Err(_) => false,
            },
            ReadLayer::Lazy(d) => call_ensures(H::id_predicate, (&d.handle(), id), reply),
        }
    }

    /// The predicate that has an id.
    pub fn try_id_predicate(&self, id: u64) -> (reply: Result<Option<String>, IoError>)
        ensures
            self.id_predicate_reply(id, reply),
    {
        match self {
            ReadLayer::Materialized(l) => Ok(layer_id_predicate(l, id)),
            ReadLayer::Lazy(d) => d.inner.id_predicate(id),
        }
    }

    /// What `try_id_object` may answer.
    pub open spec fn id_object_reply(self, id: u64, reply: Result<Option<ObjectType>, IoError>) -> bool {
        match self {
            ReadLayer::Materialized(l) => match reply {
                Ok(Some(v)) => crate::stored::stored_id_object(l, id) == Some(v@),
                Ok(None) => crate::stored::stored_id_object(l, id) is None,
                Err(_) => false,
            },
            ReadLayer::Lazy(d) => call_ensures(H::id_object, (&d.handle(), id), reply),
        }
    }

    /// The object that has an id.
    pub fn try_id_object(&self, id: u64) -> (reply: Result<Option<ObjectType>, IoError>)
        ensures
            self.id_object_reply(id, reply),
    {
        match self {
            ReadLayer::Materialized(l) => Ok(layer_id_object(l, id)),
            ReadLayer::Lazy(d) => d.inner.id_object(id),
        }
    }

    // ---- triples ----

    /// What `try_triple_exists` may answer.
    pub open spec fn triple_exists_reply(
        self,
        subject: u64,
        predicate: u64,
        object: u64,
        reply: Result<bool, IoError>,
    ) -> bool {
        match self {
            ReadLayer::Materialized(l) => reply == Ok::<bool, IoError>(
                crate::stored::stored_triple_exists(l, subject, predicate, object),
            ),
            ReadLayer::Lazy(d) => call_ensures(
                H::triple_exists,
                (&d.handle(), subject, predicate, object),
                reply,
            ),
        }
    }

    /// Whether a triple is there.
    pub fn try_triple_exists(
        &self,
        subject: u64,
        predicate: u64,
        object: u64,
    ) -> (reply: Result<bool, IoError>)
        ensures
            self.triple_exists_reply(subject, predicate, object, reply),
    {
        match self {
            ReadLayer::Materialized(l) => Ok(layer_triple_exists(l, subject, predicate, object)),
            ReadLayer::Lazy(d) => d.inner.triple_exists(subject, predicate, object),
        }
    }

    /// What `try_triples` may answer.
    pub open spec fn triples_reply(self, reply: Result<Vec<IdTriple>, IoError>) -> bool {
        match self {
            ReadLayer::Materialized(l) => match reply {
                Ok(triples) => triples@ == crate::stored::stored_triples(l),
                Err(_) => false,
            },
            ReadLayer::Lazy(d) => call_ensures(H::triples, (&d.handle(),), reply),
        }
    }

    /// All triples.
    pub fn try_triples(&self) -> (reply: Result<Vec<IdTriple>, IoError>)
        ensures
            self.triples_reply(reply),
    {
        match self {
            ReadLayer::Materialized(l) => Ok(layer_triples(l)),
            ReadLayer::Lazy(d) => d.inner.triples(),
        }
    }

    /// What `try_triples_s` may answer.
    pub open spec fn triples_s_reply(self, subject: u64, reply: Result<Vec<IdTriple>, IoError>) -> bool {
        match self {
            ReadLayer::Materialized(l) => match reply {
                Ok(triples) => {
                    &&& triples@ == crate::stored::stored_triples_s(l, subject)
                    &&& crate::triple::have_subject(triples@, subject)
                },
                Err(_) => false,
            },
            ReadLayer::Lazy(d) => call_ensures(H::triples_s, (&d.handle(), subject), reply),
        }
    }

    /// The triples with a subject.
    pub fn try_triples_s(&self, subject: u64) -> (reply: Result<Vec<IdTriple>, IoError>)
        ensures
            self.triples_s_reply(subject, reply),
    {
        match self {
            ReadLayer::Materialized(l) => Ok(layer_triples_s(l, subject)),
            ReadLayer::Lazy(d) => d.inner.triples_s(subject),
        }
    }

    /// What `try_triples_sp` may answer.
    pub open spec fn triples_sp_reply(
        self,
        subject: u64,
        predicate: u64,
        reply: Result<Vec<IdTriple>, IoError>,
    ) -> bool {
        match self {
            ReadLayer::Materialized(l) => match reply {
                Ok(triples) => {
                    &&& triples@ == crate::stored::stored_triples_sp(l, subject, predicate)
                    &&& crate::triple::have_subject(triples@, subject)
                    &&& crate::triple::have_predicate(triples@, predicate)
                },
                Err(_) => false,
            },
            ReadLayer::Lazy(d) => call_ensures(H::triples_sp, (&d.handle(), subject, predicate), reply),
        }
    }

    /// The triples with a subject and a predicate.
    pub fn try_triples_sp(&self, subject: u64, predicate: u64) -> (reply: Result<Vec<IdTriple>, IoError>)
        ensures
            self.triples_sp_reply(subject, predicate, reply),
    {
        match self {
            ReadLayer::Materialized(l) => Ok(layer_triples_sp(l, subject, predicate)),
            ReadLayer::Lazy(d) => d.inner.triples_sp(subject, predicate),
        }
    }

    /// What `try_triples_p` may answer.
    pub open spec fn triples_p_reply(self, predicate: u64, reply: Result<Vec<IdTriple>, IoError>) -> bool {
        match self {
            ReadLayer::Materialized(l) => match reply {
                Ok(triples) => {
                    &&& triples@ == crate::stored::stored_triples_p(l, predicate)
                    &&& predicate != 0 ==> crate::triple::have_predicate(triples@, predicate)
                },
                Err(_) => false,
            },
            ReadLayer::Lazy(d) => call_ensures(H::triples_p, (&d.handle(), predicate), reply),
        }
    }

    /// The triples with a predicate.
    pub fn try_triples_p(&self, predicate: u64) -> (reply: Result<Vec<IdTriple>, IoError>)
        ensures
            self.triples_p_reply(predicate, reply),
    {
        match self {
            ReadLayer::Materialized(l) => Ok(layer_triples_p(l, predicate)),
            ReadLayer::Lazy(d) => d.inner.triples_p(predicate),
        }
    }

    /// What `try_triples_o` may answer.
    pub open spec fn triples_o_reply(self, object: u64, reply: Result<Vec<IdTriple>, IoError>) -> bool {
        match self {
            ReadLayer::Materialized(l) => match reply {
                Ok(triples) => {
                    &&& triples@ == crate::stored::stored_triples_o(l, object)
                    &&& crate::triple::have_object(triples@, object)
                },
                Err(_) => false,
            },
            ReadLayer::Lazy(d) => call_ensures(H::triples_o, (&d.handle(), object), reply),
        }
    }

    /// The triples with an object.
    pub fn try_triples_o(&self, object: u64) -> (reply: Result<Vec<IdTriple>, IoError>)
        ensures
            self.triples_o_reply(object, reply),
    {
        match self {
            ReadLayer::Materialized(l) => Ok(layer_triples_o(l, object)),
            ReadLayer::Lazy(d) => d.inner.triples_o(object),
        }
    }

    // ---- ranges of values ----

    /// What `try_triples_value_range` may answer.
    pub open spec fn triples_value_range_reply(
        self,
        low: &TypedDictEntry,
        high: &TypedDictEntry,
        reply: Result<Vec<IdTriple>, IoError>,
    ) -> bool {
        match self {
            ReadLayer::Materialized(l) => match reply {
                Ok(triples) => call_ensures(H::stored_triples_value_range, (&l, low, high), triples),
                Err(_) => false,
            },
            ReadLayer::Lazy(d) => call_ensures(H::triples_value_range, (&d.handle(), low, high), reply),
        }
    }

    /// The triples whose object is a value in a range, in ascending order.
    pub fn try_triples_value_range(
        &self,
        low: &TypedDictEntry,
        high: &TypedDictEntry,
    ) -> (reply: Result<Vec<IdTriple>, IoError>)
        ensures
            self.triples_value_range_reply(low, high, reply),
    {
        match self {
            ReadLayer::Materialized(l) => Ok(H::stored_triples_value_range(l, low, high)),
            ReadLayer::Lazy(d) => d.inner.triples_value_range(low, high),
        }
    }

    /// What `try_triples_value_range_rev` may answer.
    pub open spec fn triples_value_range_rev_reply(
        self,
        low: &TypedDictEntry,
        high: &TypedDictEntry,
        reply: Result<Vec<IdTriple>, IoError>,
    ) -> bool {
        match self {
            ReadLayer::Materialized(l) => match reply {
                Ok(triples) => call_ensures(H::stored_triples_value_range_rev, (&l, low, high), triples),
                Err(_) => false,
            },
            ReadLayer::Lazy(d) => call_ensures(H::triples_value_range_rev, (&d.handle(), low, high), reply),
        }
    }

    /// The triples whose object is a value in a range, in descending order.
    pub fn try_triples_value_range_rev(
        &self,
        low: &TypedDictEntry,
        high: &TypedDictEntry,
    ) -> (reply: Result<Vec<IdTriple>, IoError>)
        ensures
            self.triples_value_range_rev_reply(low, high, reply),
    {
        match self {
            ReadLayer::Materialized(l) => Ok(H::stored_triples_value_range_rev(l, low, high)),
            ReadLayer::Lazy(d) => d.inner.triples_value_range_rev(low, high),
        }
    }

    // ---- counts of triples ----

    /// What `try_triple_addition_count` may answer.
    pub open spec fn triple_addition_count_reply(self, reply: Result<usize, IoError>) -> bool {
        match self {
            ReadLayer::Materialized(l) => reply == Ok::<usize, IoError>(
                crate::stored::stored_triple_addition_count(l),
            ),
            ReadLayer::Lazy(d) => call_ensures(H::triple_addition_count, (&d.handle(),), reply),
        }
    }

    /// How many additions the layer and its ancestors hold.
    pub fn try_triple_addition_count(&self) -> (reply: Result<usize, IoError>)
        ensures
            self.triple_addition_count_reply(reply),
    {
        match self {
            ReadLayer::Materialized(l) => Ok(layer_triple_addition_count(l)),
            ReadLayer::Lazy(d) => d.inner.triple_addition_count(),
        }
    }

    /// What `try_triple_removal_count` may answer.
    pub open spec fn triple_removal_count_reply(self, reply: Result<usize, IoError>) -> bool {
        match self {
            ReadLayer::Materialized(l) => reply == Ok::<usize, IoError>(
                crate::stored::stored_triple_removal_count(l),
            ),
            ReadLayer::Lazy(d) => call_ensures(H::triple_removal_count, (&d.handle(),), reply),
        }
    }

    /// How many removals the layer and its ancestors hold.
    pub fn try_triple_removal_count(&self) -> (reply: Result<usize, IoError>)
        ensures
            self.triple_removal_count_reply(reply),
    {
        match self {
            ReadLayer::Materialized(l) => Ok(layer_triple_removal_count(l)),
            ReadLayer::Lazy(d) => d.inner.triple_removal_count(),
        }
    }

    // ---- what the layer itself adds and removes ----

    /// What `triple_addition_exists` may answer.
    pub open spec fn triple_addition_exists_reply(
        self,
        subject: u64,
        predicate: u64,
        object: u64,
        reply: Result<bool, IoError>,
    ) -> bool {
        match self {
            ReadLayer::Materialized(l) => call_ensures(
                H::stored_triple_addition_exists,
                (&l, subject, predicate, object),
                reply,
            ),
            ReadLayer::Lazy(d) => call_ensures(
                H::triple_addition_exists,
                (&d.handle(), subject, predicate, object),
                reply,
            ),
        }
    }

    /// Whether the layer itself holds that addition.
    pub fn triple_addition_exists(
        &self,
        subject: u64,
        predicate: u64,
        object: u64,
    ) -> (reply: Result<bool, IoError>)
        ensures
            self.triple_addition_exists_reply(subject, predicate, object, reply),
    {
        match self {
            ReadLayer::Materialized(l) => H::stored_triple_addition_exists(l, subject, predicate, object),
            ReadLayer::Lazy(d) => d.inner.triple_addition_exists(subject, predicate, object),
        }
    }

    /// What `triple_additions` may answer.
    pub open spec fn triple_additions_reply(self, reply: Result<Vec<IdTriple>, IoError>) -> bool {
        match self {
            ReadLayer::Materialized(l) => call_ensures(H::stored_triple_additions, (&l,), reply),
            ReadLayer::Lazy(d) => call_ensures(H::triple_additions, (&d.handle(),), reply),
        }
    }

    /// The additions of the layer itself.
    pub fn triple_additions(&self) -> (reply: Result<Vec<IdTriple>, IoError>)
        ensures
            self.triple_additions_reply(reply),
    {
        match self {
            ReadLayer::Materialized(l) => H::stored_triple_additions(l),
            ReadLayer::Lazy(d) => d.inner.triple_additions(),
        }
    }

    /// What `triple_additions_s` may answer.
    pub open spec fn triple_additions_s_reply(
        self,
        subject: u64,
        reply: Result<Vec<IdTriple>, IoError>,
    ) -> bool {
        match self {
            ReadLayer::Materialized(l) => call_ensures(H::stored_triple_additions_s, (&l, subject), reply),
            ReadLayer::Lazy(d) => call_ensures(H::triple_additions_s, (&d.handle(), subject), reply),
        }
    }

    /// Its additions with a subject.
    pub fn triple_additions_s(&self, subject: u64) -> (reply: Result<Vec<IdTriple>, IoError>)
        ensures
            self.triple_additions_s_reply(subject, reply),
    {
        match self {
            ReadLayer::Materialized(l) => H::stored_triple_additions_s(l, subject),
            ReadLayer::Lazy(d) => d.inner.triple_additions_s(subject),
        }
    }

    /// What `triple_additions_sp` may answer.
    pub open spec fn triple_additions_sp_reply(
        self,
        subject: u64,
        predicate: u64,
        reply: Result<Vec<IdTriple>, IoError>,
    ) -> bool {
        match self {
            ReadLayer::Materialized(l) => call_ensures(
                H::stored_triple_additions_sp,
                (&l, subject, predicate),
                reply,
            ),
            ReadLayer::Lazy(d) => call_ensures(
                H::triple_additions_sp,
                (&d.handle(), subject, predicate),
                reply,
            ),
        }
    }

    /// Its additions with a subject and a predicate.
    pub fn triple_additions_sp(&self, subject: u64, predicate: u64) -> (reply: Result<Vec<IdTriple>, IoError>)
        ensures
            self.triple_additions_sp_reply(subject, predicate, reply),
    {
        match self {
            ReadLayer::Materialized(l) => H::stored_triple_additions_sp(l, subject, predicate),
            ReadLayer::Lazy(d) => d.inner.triple_additions_sp(subject, predicate),
        }
    }

    /// What `triple_additions_p` may answer.
    pub open spec fn triple_additions_p_reply(
        self,
        predicate: u64,
        reply: Result<Vec<IdTriple>, IoError>,
    ) -> bool {
        match self {
            ReadLayer::Materialized(l) => call_ensures(H::stored_triple_additions_p, (&l, predicate), reply),
            ReadLayer::Lazy(d) => call_ensures(H::triple_additions_p, (&d.handle(), predicate), reply),
        }
    }

    /// Its additions with a predicate.
    pub fn triple_additions_p(&self, predicate: u64) -> (reply: Result<Vec<IdTriple>, IoError>)
        ensures
            self.triple_additions_p_reply(predicate, reply),
    {
        match self {
            ReadLayer::Materialized(l) => H::stored_triple_additions_p(l, predicate),
            ReadLayer::Lazy(d) => d.inner.triple_additions_p(predicate),
        }
    }

    /// What `triple_additions_o` may answer.
    pub open spec fn triple_additions_o_reply(
        self,
        object: u64,
        reply: Result<Vec<IdTriple>, IoError>,
    ) -> bool {
        match self {
            ReadLayer::Materialized(l) => call_ensures(H::stored_triple_additions_o, (&l, object), reply),
            ReadLayer::Lazy(d) => call_ensures(H::triple_additions_o, (&d.handle(), object), reply),
        }
    }

    /// Its additions with an object.
    pub fn triple_additions_o(&self, object: u64) -> (reply: Result<Vec<IdTriple>, IoError>)
        ensures
            self.triple_additions_o_reply(object, reply),
    {
        match self {
            ReadLayer::Materialized(l) => H::stored_triple_additions_o(l, object),
            ReadLayer::Lazy(d) => d.inner.triple_additions_o(object),
        }
    }

    /// What `triple_layer_addition_count` may answer.
    pub open spec fn triple_layer_addition_count_reply(self, reply: Result<usize, IoError>) -> bool {
        match self {
            ReadLayer::Materialized(l) => call_ensures(H::stored_triple_layer_addition_count, (&l,), reply),
            ReadLayer::Lazy(d) => call_ensures(H::triple_layer_addition_count, (&d.handle(),), reply),
        }
    }

    /// How many additions the layer itself holds.
    pub fn triple_layer_addition_count(&self) -> (reply: Result<usize, IoError>)
        ensures
            self.triple_layer_addition_count_reply(reply),
    {
        match self {
            ReadLayer::Materialized(l) => H::stored_triple_layer_addition_count(l),
            ReadLayer::Lazy(d) => d.inner.triple_layer_addition_count(),
        }
    }

    /// What `triple_removal_exists` may answer.
    pub open spec fn triple_removal_exists_reply(
        self,
        subject: u64,
        predicate: u64,
        object: u64,
        reply: Result<bool, IoError>,
    ) -> bool {
        match self {
            ReadLayer::Materialized(l) => call_ensures(
                H::stored_triple_removal_exists,
                (&l, subject, predicate, object),
                reply,
            ),
            ReadLayer::Lazy(d) => call_ensures(
                H::triple_removal_exists,
                (&d.handle(), subject, predicate, object),
                reply,
            ),
        }
    }

    /// Whether the layer itself holds that removal.
    pub fn triple_removal_exists(
        &self,
        subject: u64,
        predicate: u64,
        object: u64,
    ) -> (reply: Result<bool, IoError>)
        ensures
            self.triple_removal_exists_reply(subject, predicate, object, reply),
    {
        match self {
            ReadLayer::Materialized(l) => H::stored_triple_removal_exists(l, subject, predicate, object),
            ReadLayer::Lazy(d) => d.inner.triple_removal_exists(subject, predicate, object),
        }
    }

    /// What `triple_removals` may answer.
    pub open spec fn triple_removals_reply(self, reply: Result<Vec<IdTriple>, IoError>) -> bool {
        match self {
            ReadLayer::Materialized(l) => call_ensures(H::stored_triple_removals, (&l,), reply),
            ReadLayer::Lazy(d) => call_ensures(H::triple_removals, (&d.handle(),), reply),
        }
    }

    /// The removals of the layer itself.
    pub fn triple_removals(&self) -> (reply: Result<Vec<IdTriple>, IoError>)
        ensures
            self.triple_removals_reply(reply),
    {
        match self {
            ReadLayer::Materialized(l) => H::stored_triple_removals(l),
            ReadLayer::Lazy(d) => d.inner.triple_removals(),
        }
    }

    /// What `triple_removals_s` may answer.
    pub open spec fn triple_removals_s_reply(
        self,
        subject: u64,
        reply: Result<Vec<IdTriple>, IoError>,
    ) -> bool {
        match self {
            ReadLayer::Materialized(l) => call_ensures(H::stored_triple_removals_s, (&l, subject), reply),
            ReadLayer::Lazy(d) => call_ensures(H::triple_removals_s, (&d.handle(), subject), reply),
        }
    }

    /// Its removals with a subject.
    pub fn triple_removals_s(&self, subject: u64) -> (reply: Result<Vec<IdTriple>, IoError>)
        ensures
            self.triple_removals_s_reply(subject, reply),
    {
        match self {
            ReadLayer::Materialized(l) => H::stored_triple_removals_s(l, subject),
            ReadLayer::Lazy(d) => d.inner.triple_removals_s(subject),
        }
    }

    /// What `triple_removals_sp` may answer.
    pub open spec fn triple_removals_sp_reply(
        self,
        subject: u64,
        predicate: u64,
        reply: Result<Vec<IdTriple>, IoError>,
    ) -> bool {
        match self {
            ReadLayer::Materialized(l) => call_ensures(
                H::stored_triple_removals_sp,
                (&l, subject, predicate),
                reply,
            ),
            ReadLayer::Lazy(d) => call_ensures(H::triple_removals_sp, (&d.handle(), subject, predicate), reply),
        }
    }

    /// Its removals with a subject and a predicate.
    pub fn triple_removals_sp(&self, subject: u64, predicate: u64) -> (reply: Result<Vec<IdTriple>, IoError>)
        ensures
            self.triple_removals_sp_reply(subject, predicate, reply),
    {
        match self {
            ReadLayer::Materialized(l) => H::stored_triple_removals_sp(l, subject, predicate),
            ReadLayer::Lazy(d) => d.inner.triple_removals_sp(subject, predicate),
        }
    }

    /// What `triple_removals_p` may answer.
    pub open spec fn triple_removals_p_reply(
        self,
        predicate: u64,
        reply: Result<Vec<IdTriple>, IoError>,
    ) -> bool {
        match self {
            ReadLayer::Materialized(l) => call_ensures(H::stored_triple_removals_p, (&l, predicate), reply),
            ReadLayer::Lazy(d) => call_ensures(H::triple_removals_p, (&d.handle(), predicate), reply),
        }
    }

    /// Its removals with a predicate.
    pub fn triple_removals_p(&self, predicate: u64) -> (reply: Result<Vec<IdTriple>, IoError>)
        ensures
            self.triple_removals_p_reply(predicate, reply),
    {
        match self {
            ReadLayer::Materialized(l) => H::stored_triple_removals_p(l, predicate),
            ReadLayer::Lazy(d) => d.inner.triple_removals_p(predicate),
        }
    }

    /// What `triple_removals_o` may answer.
    pub open spec fn triple_removals_o_reply(
        self,
        object: u64,
        reply: Result<Vec<IdTriple>, IoError>,
    ) -> bool {
        match self {
            ReadLayer::Materialized(l) => call_ensures(H::stored_triple_removals_o, (&l, object), reply),
            ReadLayer::Lazy(d) => call_ensures(H::triple_removals_o, (&d.handle(), object), reply),
        }
    }

    /// Its removals with an object.
    pub fn triple_removals_o(&self, object: u64) -> (reply: Result<Vec<IdTriple>, IoError>)
        ensures
            self.triple_removals_o_reply(object, reply),
    {
        match self {
            ReadLayer::Materialized(l) => H::stored_triple_removals_o(l, object),
            ReadLayer::Lazy(d) => d.inner.triple_removals_o(object),
        }
    }

    /// What `triple_layer_removal_count` may answer.
    pub open spec fn triple_layer_removal_count_reply(self, reply: Result<usize, IoError>) -> bool {
        match self {
            ReadLayer::Materialized(l) => call_ensures(H::stored_triple_layer_removal_count, (&l,), reply),
            ReadLayer::Lazy(d) => call_ensures(H::triple_layer_removal_count, (&d.handle(),), reply),
        }
    }

    /// How many removals the layer itself holds.
    pub fn triple_layer_removal_count(&self) -> (reply: Result<usize, IoError>)
        ensures
            self.triple_layer_removal_count_reply(reply),
    {
        match self {
            ReadLayer::Materialized(l) => H::stored_triple_layer_removal_count(l),
            ReadLayer::Lazy(d) => d.inner.triple_layer_removal_count(),
        }
    }

    // ---- whole counts and sizes ----

    /// What `try_triple_count` may answer: on a materialized layer, how many
    /// more additions than removals there are.
    pub open spec fn triple_count_reply(self, reply: Result<usize, IoError>) -> bool {
        match self {
            ReadLayer::Materialized(l) => reply matches Ok(count) && count
                == crate::stored::stored_triple_addition_count(l) - crate::stored::stored_triple_removal_count(l),
            ReadLayer::Lazy(d) => call_ensures(H::triple_count, (&d.handle(),), reply),
        }
    }

    /// A materialized layer does not hold more removals than additions.
    pub open spec fn counts_are_consistent(self) -> bool {
        match self {
            ReadLayer::Materialized(l) => crate::stored::stored_triple_addition_count(l)
                >= crate::stored::stored_triple_removal_count(l),
            ReadLayer::Lazy(_) => true,
        }
    }

    pub fn try_triple_count(&self) -> (reply: Result<usize, IoError>)
        requires
            self.counts_are_consistent(),
        ensures
            self.triple_count_reply(reply),
    {
        match self {
            ReadLayer::Materialized(l) => Ok(layer_triple_count(l)),
            ReadLayer::Lazy(d) => d.inner.triple_count(),
        }
    }

    /// The triple count, or nothing if the layer claims more removals than
    /// additions.
    pub fn checked_triple_count(&self) -> (reply: Option<Result<usize, IoError>>)
        ensures
            reply is Some <==> self.counts_are_consistent(),
            reply matches Some(r) ==> self.triple_count_reply(r),
    {
        if let ReadLayer::Materialized(l) = self {
            if layer_triple_addition_count(l) < layer_triple_removal_count(l) {
                return None;
            }
        }
        Some(self.try_triple_count())
    }

    /// What `try_stored_size` may answer.
    pub open spec fn stored_size_reply(self, reply: Result<usize, IoError>) -> bool {
        match self {
            ReadLayer::Materialized(l) => match reply {
                Ok(size) => call_ensures(H::stored_size, (&l,), size),
                Err(_) => false,
            },
            ReadLayer::Lazy(_) => reply == Ok::<usize, IoError>(0),
        }
    }

    /// How many bytes back the layer. Of a lazy layer that is not known, and 0
    /// stands for it.
    pub fn try_stored_size(&self) -> (reply: Result<usize, IoError>)
        ensures
            self.stored_size_reply(reply),
    {
        match self {
            ReadLayer::Materialized(l) => Ok(H::stored_size(l)),
            ReadLayer::Lazy(_) => Ok(0),
        }
    }

    // ---- writes and the rewriting of history ----

    /// What `open_write` may answer.
    pub open spec fn open_write_reply(self, reply: Result<SyncStoreLayerBuilder, IoError>) -> bool {
        exists|layer: Result<SyncStoreLayer, IoError>| #[trigger]
            self.materialized_reply("open_write"@, layer) && match layer {
                Ok(l) => call_ensures(H::stored_open_write, (&l,), reply),
                Err(e) => reply == Err::<SyncStoreLayerBuilder, IoError>(e),
            }
    }

    /// A builder for a child of this layer.
    pub fn open_write(&self) -> (reply: Result<SyncStoreLayerBuilder, IoError>)
        ensures
            self.open_write_reply(reply),
    {
        let layer = self.materialized_layer("open_write");
        match layer {
            Ok(l) => H::stored_open_write(&l),
            Err(e) => Err(e),
        }
    }

    /// What `squash` may answer.
    pub open spec fn squash_reply(self, reply: Result<SyncStoreLayer, IoError>) -> bool {
        exists|layer: Result<SyncStoreLayer, IoError>| #[trigger]
            self.materialized_reply("squash"@, layer) && match layer {
                Ok(l) => call_ensures(H::stored_squash, (&l,), reply),
                Err(e) => reply == Err::<SyncStoreLayer, IoError>(e),
            }
    }

    /// A new base layer with the contents of this layer.
    pub fn squash(&self) -> (reply: Result<SyncStoreLayer, IoError>)
        ensures
            self.squash_reply(reply),
    {
        let layer = self.materialized_layer("squash");
        match layer {
            Ok(l) => H::stored_squash(&l),
            Err(e) => Err(e),
        }
    }

    /// What `rollup` may answer.
    pub open spec fn rollup_reply(self, reply: Result<(), IoError>) -> bool {
        exists|layer: Result<SyncStoreLayer, IoError>| #[trigger]
            self.materialized_reply("rollup"@, layer) && match layer {
                Ok(l) => call_ensures(H::stored_rollup, (&l,), reply),
                Err(e) => reply == Err::<(), IoError>(e),
            }
    }

    /// Rolls the layer up with all its ancestors.
    pub fn rollup(&self) -> (reply: Result<(), IoError>)
        ensures
            self.rollup_reply(reply),
    {
        let layer = self.materialized_layer("rollup");
        match layer {
            Ok(l) => H::stored_rollup(&l),
            Err(e) => Err(e),
        }
    }

    /// What bringing first `upto` and then this layer into memory may give.
    pub open spec fn pair_reply(
        self,
        upto: ReadLayer<H>,
        what: Seq<char>,
        pair: Result<(SyncStoreLayer, SyncStoreLayer), IoError>,
    ) -> bool {
        exists|bound: Result<SyncStoreLayer, IoError>| #[trigger]
            upto.materialized_reply(what, bound) && match bound {
                Err(e) => pair == Err::<(SyncStoreLayer, SyncStoreLayer), IoError>(e),
                Ok(u) => exists|layer: Result<SyncStoreLayer, IoError>| #[trigger]
                    self.materialized_reply(what, layer) && pair == (match layer {
                        Ok(l) => Ok((l, u)),
                        Err(e) => Err(e),
                    }),
            }
    }

    /// This layer and `upto` in memory. `upto` is brought there first.
    fn materialized_pair(&self, upto: &ReadLayer<H>, what: &str) -> (pair: Result<
        (SyncStoreLayer, SyncStoreLayer),
        IoError,
    >)
        ensures
            self.pair_reply(*upto, what@, pair),
    {
        let bound = upto.materialized_layer(what);
        match bound {
            Err(e) => Err(e),
            Ok(u) => {
                let layer = self.materialized_layer(what);
                match layer {
                    Ok(l) => Ok((l, u)),
                    Err(e) => Err(e),
                }
            },
        }
    }

    /// What `squash_upto` may answer.
    pub open spec fn squash_upto_reply(self, upto: ReadLayer<H>, reply: Result<SyncStoreLayer, IoError>) -> bool {
        exists|pair: Result<(SyncStoreLayer, SyncStoreLayer), IoError>| #[trigger]
            self.pair_reply(upto, "squash_upto"@, pair) && match pair {
                Ok((l, u)) => call_ensures(H::stored_squash_upto, (&l, &u), reply),
                Err(e) => reply == Err::<SyncStoreLayer, IoError>(e),
            }
    }

    /// A new layer on top of `upto` with the contents of this layer.
    pub fn squash_upto(&self, upto: &ReadLayer<H>) -> (reply: Result<SyncStoreLayer, IoError>)
        ensures
            self.squash_upto_reply(*upto, reply),
    {
        let pair = self.materialized_pair(upto, "squash_upto");
        match pair {
            Ok((l, u)) => H::stored_squash_upto(&l, &u),
            Err(e) => Err(e),
        }
    }

    /// What `rollup_upto` may answer.
    pub open spec fn rollup_upto_reply(self, upto: ReadLayer<H>, reply: Result<(), IoError>) -> bool {
        exists|pair: Result<(SyncStoreLayer, SyncStoreLayer), IoError>| #[trigger]
            self.pair_reply(upto, "rollup_upto"@, pair) && match pair {
                Ok((l, u)) => call_ensures(H::stored_rollup_upto, (&l, &u), reply),
                Err(e) => reply == Err::<(), IoError>(e),
            }
    }

    /// Rolls the layer up with its ancestors down to `upto`.
    pub fn rollup_upto(&self, upto: &ReadLayer<H>) -> (reply: Result<(), IoError>)
        ensures
            self.rollup_upto_reply(*upto, reply),
    {
        let pair = self.materialized_pair(upto, "rollup_upto");
        match pair {
            Ok((l, u)) => H::stored_rollup_upto(&l, &u),
            Err(e) => Err(e),
        }
    }

    /// What `imprecise_rollup_upto` may answer.
    pub open spec fn imprecise_rollup_upto_reply(self, upto: ReadLayer<H>, reply: Result<(), IoError>) -> bool {
        exists|pair: Result<(SyncStoreLayer, SyncStoreLayer), IoError>| #[trigger]
            self.pair_reply(upto, "imprecise_rollup_upto"@, pair) && match pair {
                Ok((l, u)) => call_ensures(H::stored_imprecise_rollup_upto, (&l, &u), reply),
                Err(e) => reply == Err::<(), IoError>(e),
            }
    }

    /// Rolls the layer up with its ancestors down to `upto`, or to a rollup
    /// that reaches further.
    pub fn imprecise_rollup_upto(&self, upto: &ReadLayer<H>) -> (reply: Result<(), IoError>)
        ensures
            self.imprecise_rollup_upto_reply(*upto, reply),
    {
        let pair = self.materialized_pair(upto, "imprecise_rollup_upto");
        match pair {
            Ok((l, u)) => H::stored_imprecise_rollup_upto(&l, &u),
            Err(e) => Err(e),
        }
    }
}

/// Layers are named by their contents, so a layer is its name: a lazy and a
/// materialized handle on one layer are the same layer.
impl<H: LayerIo> PartialEq for ReadLayer<H> {
    fn eq(&self, other: &ReadLayer<H>) -> (same: bool) {
        same_name(&self.name(), &other.name())
    }
}

impl<H: LayerIo> vstd::std_specs::cmp::PartialEqSpecImpl for ReadLayer<H> {
    open spec fn obeys_eq_spec() -> bool {
        true
    }

    open spec fn eq_spec(&self, other: &ReadLayer<H>) -> bool {
        self.layer_name() == other.layer_name()
    }
}

} // verus!
