//! What a read of a layer is a read of.
//!
//! Each read asks the layer in memory, or the storage, for the one thing that
//! it is named after, with the arguments that it was given. The reads that
//! cannot report an error answer with what they were told, or, if they were
//! told of an error, with nothing, and keep the error.
use crate::entry::{ObjectType, TypedDictEntry};
use crate::error::{ErrorKind, IoError};
use crate::layer::{materialized_or_not_found, ReadLayer};
use crate::layer_io::LayerIo;
use crate::name::LayerName;
use crate::reads::CountReplies;
use crate::sinks::{ErrorSinks, SinkId};
use crate::triple::{IdTriple, LayerCounts};
use terminus_store::store::sync::{SyncStoreLayer, SyncStoreLayerBuilder};
use vstd::prelude::*;

verus! {

// ---- reads that answer with a result ----

/// A layer is asked how many nodes and values there are.
pub proof fn try_node_and_value_count_asks_the_layer<H: LayerIo>(
    layer: ReadLayer<H>,
    reply: Result<u64, IoError>,
)
    requires
        call_ensures(ReadLayer::<H>::try_node_and_value_count, (&layer,), reply)
            || layer.node_and_value_count_reply(reply),
    ensures
        match layer {
            ReadLayer::Materialized(l) => reply == Ok::<u64, IoError>(
                crate::stored::stored_node_and_value_count(l) as u64,
            ),
            ReadLayer::Lazy(d) => call_ensures(H::node_and_value_count, (&d.handle(),), reply),
        },
{
}

/// A layer is asked how many predicates there are.
pub proof fn try_predicate_count_asks_the_layer<H: LayerIo>(
    layer: ReadLayer<H>,
    reply: Result<u64, IoError>,
)
    requires
        call_ensures(ReadLayer::<H>::try_predicate_count, (&layer,), reply) || layer.predicate_count_reply(reply),
    ensures
        match layer {
            ReadLayer::Materialized(l) => reply == Ok::<u64, IoError>(
                crate::stored::stored_predicate_count(l) as u64,
            ),
            ReadLayer::Lazy(d) => call_ensures(H::predicate_count, (&d.handle(),), reply),
        },
{
}

/// A layer is asked for the id of the subject.
pub proof fn try_subject_id_asks_the_layer<H: LayerIo>(
    layer: ReadLayer<H>,
    subject: &str,
    reply: Result<Option<u64>, IoError>,
)
    requires
        call_ensures(ReadLayer::<H>::try_subject_id, (&layer, subject), reply)
            || layer.subject_id_reply(subject, reply),
    ensures
        match layer {
            ReadLayer::Materialized(l) => reply == Ok::<Option<u64>, IoError>(
                crate::stored::stored_subject_id(l, subject@),
            ),
            ReadLayer::Lazy(d) => call_ensures(H::subject_id, (&d.handle(), subject), reply),
        },
{
}

/// A layer is asked for the id of the predicate.
pub proof fn try_predicate_id_asks_the_layer<H: LayerIo>(
    layer: ReadLayer<H>,
    predicate: &str,
    reply: Result<Option<u64>, IoError>,
)
    requires
        call_ensures(ReadLayer::<H>::try_predicate_id, (&layer, predicate), reply)
            || layer.predicate_id_reply(predicate, reply),
    ensures
        match layer {
            ReadLayer::Materialized(l) => reply == Ok::<Option<u64>, IoError>(
                crate::stored::stored_predicate_id(l, predicate@),
            ),
            ReadLayer::Lazy(d) => call_ensures(H::predicate_id, (&d.handle(), predicate), reply),
        },
{
}

/// A layer is asked for the id of the node.
pub proof fn try_object_node_id_asks_the_layer<H: LayerIo>(
    layer: ReadLayer<H>,
    object: &str,
    reply: Result<Option<u64>, IoError>,
)
    requires
        call_ensures(ReadLayer::<H>::try_object_node_id, (&layer, object), reply)
            || layer.object_node_id_reply(object, reply),
    ensures
        match layer {
            ReadLayer::Materialized(l) => reply == Ok::<Option<u64>, IoError>(
                crate::stored::stored_object_node_id(l, object@),
            ),
            ReadLayer::Lazy(d) => call_ensures(H::object_node_id, (&d.handle(), object), reply),
        },
{
}

/// A layer is asked for the id of the value.
pub proof fn try_object_value_id_asks_the_layer<H: LayerIo>(
    layer: ReadLayer<H>,
    object: &TypedDictEntry,
    reply: Result<Option<u64>, IoError>,
)
    requires
        call_ensures(ReadLayer::<H>::try_object_value_id, (&layer, object), reply)
            || layer.object_value_id_reply(object, reply),
    ensures
        match layer {
            ReadLayer::Materialized(l) => reply == Ok::<Option<u64>, IoError>(
                crate::stored::stored_object_value_id(l, object.datatype, object.bytes@),
            ),
            ReadLayer::Lazy(d) => call_ensures(H::object_value_id, (&d.handle(), object), reply),
        },
{
}

/// A layer is asked for the subject with the id.
pub proof fn try_id_subject_asks_the_layer<H: LayerIo>(
    layer: ReadLayer<H>,
    id: u64,
    reply: Result<Option<String>, IoError>,
)
    requires
        call_ensures(ReadLayer::<H>::try_id_subject, (&layer, id), reply) || layer.id_subject_reply(id, reply),
    ensures
        match layer {
            ReadLayer::Materialized(l) => match reply {
                Ok(Some(v)) => crate::stored::stored_id_subject(l, id) == Some(v@),
                Ok(None) => crate::stored::stored_id_subject(l, id) is None,
                Err(_) => false,
            },
            ReadLayer::Lazy(d) => call_ensures(H::id_subject, (&d.handle(), id), reply),
        },
{
}

/// A layer is asked for the predicate with the id.
pub proof fn try_id_predicate_asks_the_layer<H: LayerIo>(
    layer: ReadLayer<H>,
    id: u64,
    reply: Result<Option<String>, IoError>,
)
    requires
        call_ensures(ReadLayer::<H>::try_id_predicate, (&layer, id), reply) || layer.id_predicate_reply(id, reply),
    ensures
        match layer {
            ReadLayer::Materialized(l) => match reply {
                Ok(Some(v)) => crate::stored::stored_id_predicate(l, id) == Some(v@),
                Ok(None) => crate::stored::stored_id_predicate(l, id) is None,
                Err(_) => false,
            },
            ReadLayer::Lazy(d) => call_ensures(H::id_predicate, (&d.handle(), id), reply),
        },
{
}

/// A layer is asked for the object with the id.
pub proof fn try_id_object_asks_the_layer<H: LayerIo>(
    layer: ReadLayer<H>,
    id: u64,
    reply: Result<Option<ObjectType>, IoError>,
)
    requires
        call_ensures(ReadLayer::<H>::try_id_object, (&layer, id), reply) || layer.id_object_reply(id, reply),
    ensures
        match layer {
            ReadLayer::Materialized(l) => match reply {
                Ok(Some(v)) => crate::stored::stored_id_object(l, id) == Some(v@),
                Ok(None) => crate::stored::stored_id_object(l, id) is None,
                Err(_) => false,
            },
            ReadLayer::Lazy(d) => call_ensures(H::id_object, (&d.handle(), id), reply),
        },
{
}

/// A layer is asked for the name of the parent.
pub proof fn try_parent_name_asks_the_layer<H: LayerIo>(
    layer: ReadLayer<H>,
    reply: Result<Option<LayerName>, IoError>,
)
    requires
        call_ensures(ReadLayer::<H>::try_parent_name, (&layer,), reply) || layer.parent_name_reply(reply),
    ensures
        match layer {
            ReadLayer::Materialized(l) => match reply {
                Ok(Some(v)) => crate::stored::stored_parent_name(l) == Some(v@),
                Ok(None) => crate::stored::stored_parent_name(l) is None,
                Err(_) => false,
            },
            ReadLayer::Lazy(d) => call_ensures(H::parent_name, (&d.handle(),), reply),
        },
{
}

/// A layer is asked whether the triple is there.
pub proof fn try_triple_exists_asks_the_layer<H: LayerIo>(
    layer: ReadLayer<H>,
    subject: u64,
    predicate: u64,
    object: u64,
    reply: Result<bool, IoError>,
)
    requires
        call_ensures(ReadLayer::<H>::try_triple_exists, (&layer, subject, predicate, object), reply)
            || layer.triple_exists_reply(subject, predicate, object, reply),
    ensures
        match layer {
            ReadLayer::Materialized(l) => reply == Ok::<bool, IoError>(
                crate::stored::stored_triple_exists(l, subject, predicate, object),
            ),
            ReadLayer::Lazy(d) => call_ensures(H::triple_exists, (&d.handle(), subject, predicate, object), reply),
        },
{
}

/// A layer is asked for all triples.
pub proof fn try_triples_asks_the_layer<H: LayerIo>(
    layer: ReadLayer<H>,
    reply: Result<Vec<IdTriple>, IoError>,
)
    requires
        call_ensures(ReadLayer::<H>::try_triples, (&layer,), reply) || layer.triples_reply(reply),
    ensures
        match layer {
            ReadLayer::Materialized(l) => reply matches Ok(ts) && ts@ == crate::stored::stored_triples(l),
            ReadLayer::Lazy(d) => call_ensures(H::triples, (&d.handle(),), reply),
        },
{
}

/// A layer is asked for the triples of the subject.
pub proof fn try_triples_s_asks_the_layer<H: LayerIo>(
    layer: ReadLayer<H>,
    subject: u64,
    reply: Result<Vec<IdTriple>, IoError>,
)
    requires
        call_ensures(ReadLayer::<H>::try_triples_s, (&layer, subject), reply) || layer.triples_s_reply(subject, reply),
    ensures
        match layer {
            ReadLayer::Materialized(l) => reply matches Ok(ts) && ts@ == crate::stored::stored_triples_s(l, subject),
            ReadLayer::Lazy(d) => call_ensures(H::triples_s, (&d.handle(), subject), reply),
        },
{
}

/// A layer is asked for the triples of the subject and the predicate.
pub proof fn try_triples_sp_asks_the_layer<H: LayerIo>(
    layer: ReadLayer<H>,
    subject: u64,
    predicate: u64,
    reply: Result<Vec<IdTriple>, IoError>,
)
    requires
        call_ensures(ReadLayer::<H>::try_triples_sp, (&layer, subject, predicate), reply)
            || layer.triples_sp_reply(subject, predicate, reply),
    ensures
        match layer {
            ReadLayer::Materialized(l) => reply matches Ok(ts) && ts@ == crate::stored::stored_triples_sp(
                l,
                subject,
                predicate,
            ),
            ReadLayer::Lazy(d) => call_ensures(H::triples_sp, (&d.handle(), subject, predicate), reply),
        },
{
}

/// A layer is asked for the triples of the predicate.
pub proof fn try_triples_p_asks_the_layer<H: LayerIo>(
    layer: ReadLayer<H>,
    predicate: u64,
    reply: Result<Vec<IdTriple>, IoError>,
)
    requires
        call_ensures(ReadLayer::<H>::try_triples_p, (&layer, predicate), reply)
            || layer.triples_p_reply(predicate, reply),
    ensures
        match layer {
            ReadLayer::Materialized(l) => reply matches Ok(ts) && ts@ == crate::stored::stored_triples_p(l, predicate),
            ReadLayer::Lazy(d) => call_ensures(H::triples_p, (&d.handle(), predicate), reply),
        },
{
}

/// A layer is asked for the triples of the object.
pub proof fn try_triples_o_asks_the_layer<H: LayerIo>(
    layer: ReadLayer<H>,
    object: u64,
    reply: Result<Vec<IdTriple>, IoError>,
)
    requires
        call_ensures(ReadLayer::<H>::try_triples_o, (&layer, object), reply) || layer.triples_o_reply(object, reply),
    ensures
        match layer {
            ReadLayer::Materialized(l) => reply matches Ok(ts) && ts@ == crate::stored::stored_triples_o(l, object),
            ReadLayer::Lazy(d) => call_ensures(H::triples_o, (&d.handle(), object), reply),
        },
{
}

/// A layer is asked for the triples of the range.
pub proof fn try_triples_value_range_asks_the_layer<H: LayerIo>(
    layer: ReadLayer<H>,
    low: &TypedDictEntry,
    high: &TypedDictEntry,
    reply: Result<Vec<IdTriple>, IoError>,
)
    requires
        call_ensures(ReadLayer::<H>::try_triples_value_range, (&layer, low, high), reply)
            || layer.triples_value_range_reply(low, high, reply),
    ensures
        match layer {
            ReadLayer::Materialized(l) => reply matches Ok(ts) && call_ensures(
                H::stored_triples_value_range,
                (&l, low, high),
                ts,
            ),
            ReadLayer::Lazy(d) => call_ensures(H::triples_value_range, (&d.handle(), low, high), reply),
        },
{
}

/// A layer is asked for the triples of the range, backwards.
pub proof fn try_triples_value_range_rev_asks_the_layer<H: LayerIo>(
    layer: ReadLayer<H>,
    low: &TypedDictEntry,
    high: &TypedDictEntry,
    reply: Result<Vec<IdTriple>, IoError>,
)
    requires
        call_ensures(ReadLayer::<H>::try_triples_value_range_rev, (&layer, low, high), reply)
            || layer.triples_value_range_rev_reply(low, high, reply),
    ensures
        match layer {
            ReadLayer::Materialized(l) => reply matches Ok(ts) && call_ensures(
                H::stored_triples_value_range_rev,
                (&l, low, high),
                ts,
            ),
            ReadLayer::Lazy(d) => call_ensures(H::triples_value_range_rev, (&d.handle(), low, high), reply),
        },
{
}

/// A layer is asked how many additions there are.
pub proof fn try_triple_addition_count_asks_the_layer<H: LayerIo>(
    layer: ReadLayer<H>,
    reply: Result<usize, IoError>,
)
    requires
        call_ensures(ReadLayer::<H>::try_triple_addition_count, (&layer,), reply)
            || layer.triple_addition_count_reply(reply),
    ensures
        match layer {
            ReadLayer::Materialized(l) => reply == Ok::<usize, IoError>(
                crate::stored::stored_triple_addition_count(l),
            ),
            ReadLayer::Lazy(d) => call_ensures(H::triple_addition_count, (&d.handle(),), reply),
        },
{
}

/// A layer is asked how many removals there are.
pub proof fn try_triple_removal_count_asks_the_layer<H: LayerIo>(
    layer: ReadLayer<H>,
    reply: Result<usize, IoError>,
)
    requires
        call_ensures(ReadLayer::<H>::try_triple_removal_count, (&layer,), reply)
            || layer.triple_removal_count_reply(reply),
    ensures
        match layer {
            ReadLayer::Materialized(l) => reply == Ok::<usize, IoError>(
                crate::stored::stored_triple_removal_count(l),
            ),
            ReadLayer::Lazy(d) => call_ensures(H::triple_removal_count, (&d.handle(),), reply),
        },
{
}

/// A layer is asked whether it adds the triple.
pub proof fn triple_addition_exists_asks_the_layer<H: LayerIo>(
    layer: ReadLayer<H>,
    subject: u64,
    predicate: u64,
    object: u64,
    reply: Result<bool, IoError>,
)
    requires
        call_ensures(ReadLayer::<H>::triple_addition_exists, (&layer, subject, predicate, object), reply)
            || layer.triple_addition_exists_reply(subject, predicate, object, reply),
    ensures
        match layer {
            ReadLayer::Materialized(l) => call_ensures(
                H::stored_triple_addition_exists,
                (&l, subject, predicate, object),
                reply,
            ),
            ReadLayer::Lazy(d) => call_ensures(
                H::triple_addition_exists,
                (&d.handle(), subject, predicate, object),
                reply,
            ),
        },
{
}

/// A layer is asked for all that it adds.
pub proof fn triple_additions_asks_the_layer<H: LayerIo>(
    layer: ReadLayer<H>,
    reply: Result<Vec<IdTriple>, IoError>,
)
    requires
        call_ensures(ReadLayer::<H>::triple_additions, (&layer,), reply) || layer.triple_additions_reply(reply),
    ensures
        match layer {
            ReadLayer::Materialized(l) => call_ensures(H::stored_triple_additions, (&l,), reply),
            ReadLayer::Lazy(d) => call_ensures(H::triple_additions, (&d.handle(),), reply),
        },
{
}

/// A layer is asked for what it adds for the subject.
pub proof fn triple_additions_s_asks_the_layer<H: LayerIo>(
    layer: ReadLayer<H>,
    subject: u64,
    reply: Result<Vec<IdTriple>, IoError>,
)
    requires
        call_ensures(ReadLayer::<H>::triple_additions_s, (&layer, subject), reply)
            || layer.triple_additions_s_reply(subject, reply),
    ensures
        match layer {
            ReadLayer::Materialized(l) => call_ensures(H::stored_triple_additions_s, (&l, subject), reply),
            ReadLayer::Lazy(d) => call_ensures(H::triple_additions_s, (&d.handle(), subject), reply),
        },
{
}

/// A layer is asked for what it adds for the subject and the predicate.
pub proof fn triple_additions_sp_asks_the_layer<H: LayerIo>(
    layer: ReadLayer<H>,
    subject: u64,
    predicate: u64,
    reply: Result<Vec<IdTriple>, IoError>,
)
    requires
        call_ensures(ReadLayer::<H>::triple_additions_sp, (&layer, subject, predicate), reply)
            || layer.triple_additions_sp_reply(subject, predicate, reply),
    ensures
        match layer {
            ReadLayer::Materialized(l) => call_ensures(H::stored_triple_additions_sp, (&l, subject, predicate), reply),
            ReadLayer::Lazy(d) => call_ensures(H::triple_additions_sp, (&d.handle(), subject, predicate), reply),
        },
{
}

/// A layer is asked for what it adds for the predicate.
pub proof fn triple_additions_p_asks_the_layer<H: LayerIo>(
    layer: ReadLayer<H>,
    predicate: u64,
    reply: Result<Vec<IdTriple>, IoError>,
)
    requires
        call_ensures(ReadLayer::<H>::triple_additions_p, (&layer, predicate), reply)
            || layer.triple_additions_p_reply(predicate, reply),
    ensures
        match layer {
            ReadLayer::Materialized(l) => call_ensures(H::stored_triple_additions_p, (&l, predicate), reply),
            ReadLayer::Lazy(d) => call_ensures(H::triple_additions_p, (&d.handle(), predicate), reply),
        },
{
}

/// A layer is asked for what it adds for the object.
pub proof fn triple_additions_o_asks_the_layer<H: LayerIo>(
    layer: ReadLayer<H>,
    object: u64,
    reply: Result<Vec<IdTriple>, IoError>,
)
    requires
        call_ensures(ReadLayer::<H>::triple_additions_o, (&layer, object), reply)
            || layer.triple_additions_o_reply(object, reply),
    ensures
        match layer {
            ReadLayer::Materialized(l) => call_ensures(H::stored_triple_additions_o, (&l, object), reply),
            ReadLayer::Lazy(d) => call_ensures(H::triple_additions_o, (&d.handle(), object), reply),
        },
{
}

/// A layer is asked how many triples it adds.
pub proof fn triple_layer_addition_count_asks_the_layer<H: LayerIo>(
    layer: ReadLayer<H>,
    reply: Result<usize, IoError>,
)
    requires
        call_ensures(ReadLayer::<H>::triple_layer_addition_count, (&layer,), reply)
            || layer.triple_layer_addition_count_reply(reply),
    ensures
        match layer {
            ReadLayer::Materialized(l) => call_ensures(H::stored_triple_layer_addition_count, (&l,), reply),
            ReadLayer::Lazy(d) => call_ensures(H::triple_layer_addition_count, (&d.handle(),), reply),
        },
{
}

/// A layer is asked whether it removes the triple.
pub proof fn triple_removal_exists_asks_the_layer<H: LayerIo>(
    layer: ReadLayer<H>,
    subject: u64,
    predicate: u64,
    object: u64,
    reply: Result<bool, IoError>,
)
    requires
        call_ensures(ReadLayer::<H>::triple_removal_exists, (&layer, subject, predicate, object), reply)
            || layer.triple_removal_exists_reply(subject, predicate, object, reply),
    ensures
        match layer {
            ReadLayer::Materialized(l) => call_ensures(
                H::stored_triple_removal_exists,
                (&l, subject, predicate, object),
                reply,
            ),
            ReadLayer::Lazy(d) => call_ensures(
                H::triple_removal_exists,
                (&d.handle(), subject, predicate, object),
                reply,
            ),
        },
{
}

/// A layer is asked for all that it removes.
pub proof fn triple_removals_asks_the_layer<H: LayerIo>(
    layer: ReadLayer<H>,
    reply: Result<Vec<IdTriple>, IoError>,
)
    requires
        call_ensures(ReadLayer::<H>::triple_removals, (&layer,), reply) || layer.triple_removals_reply(reply),
    ensures
        match layer {
            ReadLayer::Materialized(l) => call_ensures(H::stored_triple_removals, (&l,), reply),
            ReadLayer::Lazy(d) => call_ensures(H::triple_removals, (&d.handle(),), reply),
        },
{
}

/// A layer is asked for what it removes for the subject.
pub proof fn triple_removals_s_asks_the_layer<H: LayerIo>(
    layer: ReadLayer<H>,
    subject: u64,
    reply: Result<Vec<IdTriple>, IoError>,
)
    requires
        call_ensures(ReadLayer::<H>::triple_removals_s, (&layer, subject), reply)
            || layer.triple_removals_s_reply(subject, reply),
    ensures
        match layer {
            ReadLayer::Materialized(l) => call_ensures(H::stored_triple_removals_s, (&l, subject), reply),
            ReadLayer::Lazy(d) => call_ensures(H::triple_removals_s, (&d.handle(), subject), reply),
        },
{
}

/// A layer is asked for what it removes for the subject and the predicate.
pub proof fn triple_removals_sp_asks_the_layer<H: LayerIo>(
    layer: ReadLayer<H>,
    subject: u64,
    predicate: u64,
    reply: Result<Vec<IdTriple>, IoError>,
)
    requires
        call_ensures(ReadLayer::<H>::triple_removals_sp, (&layer, subject, predicate), reply)
            || layer.triple_removals_sp_reply(subject, predicate, reply),
    ensures
        match layer {
            ReadLayer::Materialized(l) => call_ensures(H::stored_triple_removals_sp, (&l, subject, predicate), reply),
            ReadLayer::Lazy(d) => call_ensures(H::triple_removals_sp, (&d.handle(), subject, predicate), reply),
        },
{
}

/// A layer is asked for what it removes for the predicate.
pub proof fn triple_removals_p_asks_the_layer<H: LayerIo>(
    layer: ReadLayer<H>,
    predicate: u64,
    reply: Result<Vec<IdTriple>, IoError>,
)
    requires
        call_ensures(ReadLayer::<H>::triple_removals_p, (&layer, predicate), reply)
            || layer.triple_removals_p_reply(predicate, reply),
    ensures
        match layer {
            ReadLayer::Materialized(l) => call_ensures(H::stored_triple_removals_p, (&l, predicate), reply),
            ReadLayer::Lazy(d) => call_ensures(H::triple_removals_p, (&d.handle(), predicate), reply),
        },
{
}

/// A layer is asked for what it removes for the object.
pub proof fn triple_removals_o_asks_the_layer<H: LayerIo>(
    layer: ReadLayer<H>,
    object: u64,
    reply: Result<Vec<IdTriple>, IoError>,
)
    requires
        call_ensures(ReadLayer::<H>::triple_removals_o, (&layer, object), reply)
            || layer.triple_removals_o_reply(object, reply),
    ensures
        match layer {
            ReadLayer::Materialized(l) => call_ensures(H::stored_triple_removals_o, (&l, object), reply),
            ReadLayer::Lazy(d) => call_ensures(H::triple_removals_o, (&d.handle(), object), reply),
        },
{
}

/// A layer is asked how many triples it removes.
pub proof fn triple_layer_removal_count_asks_the_layer<H: LayerIo>(
    layer: ReadLayer<H>,
    reply: Result<usize, IoError>,
)
    requires
        call_ensures(ReadLayer::<H>::triple_layer_removal_count, (&layer,), reply)
            || layer.triple_layer_removal_count_reply(reply),
    ensures
        match layer {
            ReadLayer::Materialized(l) => call_ensures(H::stored_triple_layer_removal_count, (&l,), reply),
            ReadLayer::Lazy(d) => call_ensures(H::triple_layer_removal_count, (&d.handle(),), reply),
        },
{
}

/// A layer is asked which layers it is made of.
pub proof fn retrieve_layer_stack_names_asks_the_layer<H: LayerIo>(
    layer: ReadLayer<H>,
    reply: Result<Vec<LayerName>, IoError>,
)
    requires
        call_ensures(ReadLayer::<H>::retrieve_layer_stack_names, (&layer,), reply)
            || layer.layer_stack_names_reply(reply),
    ensures
        match layer {
            ReadLayer::Materialized(l) => call_ensures(H::stored_layer_stack_names, (&l,), reply),
            ReadLayer::Lazy(d) => call_ensures(H::retrieve_layer_stack_names, (&d.handle(),), reply),
        },
{
}

// ---- reads that keep their errors ----

/// What a read leaves behind: nothing, if it succeeded. If it failed, the sink
/// of a lazy layer holds its error, unless it held one already, and no other
/// sink has changed.
pub open spec fn is_kept<T, H: LayerIo>(
    layer: ReadLayer<H>,
    before: ErrorSinks,
    after: ErrorSinks,
    reply: Result<T, IoError>,
) -> bool {
    &&& after.issued() == before.issued()
    &&& forall|sink: SinkId| #[trigger]
        after.held(sink) == (match (layer, reply) {
            (ReadLayer::Lazy(d), Err(e)) => if sink == d.sink() && before.held(sink) is None {
                Some(e)
            } else {
                before.held(sink)
            },
            _ => before.held(sink),
        })
}

/// Settling a read is saying what it was told, or what stands for it, and
/// keeping what it was not told.
pub proof fn settling_keeps_the_error<T, H: LayerIo>(
    layer: ReadLayer<H>,
    sinks: &mut ErrorSinks,
    reply: Result<T, IoError>,
    fallback: T,
    value: T,
)
    requires
        call_ensures(ReadLayer::<H>::settle::<T>, (&layer, sinks, reply, fallback), value),
    ensures
        reply matches Ok(v) ==> value == v,
        reply is Err ==> value == fallback,
        is_kept(layer, *old(sinks), *final(sinks), reply),
{
}

/// What `parent_name` was told is what it says, and what it was not told is kept.
pub proof fn parent_name_says_what_it_was_told<H: LayerIo>(
    layer: ReadLayer<H>,
    sinks: &mut ErrorSinks,
    value: Option<LayerName>,
)
    requires
        call_ensures(ReadLayer::<H>::parent_name, (&layer, sinks), value),
    ensures
        exists|reply: Result<Option<LayerName>, IoError>|
            {
                &&& #[trigger] layer.parent_name_reply(reply)
                &&& reply matches Ok(v) ==> value == v
                &&& reply is Err ==> value is None
                &&& is_kept(layer, *old(sinks), *final(sinks), reply)
            },
{
}

/// What `node_and_value_count` was told is what it says, and what it was not told is kept.
pub proof fn node_and_value_count_says_what_it_was_told<H: LayerIo>(
    layer: ReadLayer<H>,
    sinks: &mut ErrorSinks,
    value: usize,
)
    requires
        call_ensures(ReadLayer::<H>::node_and_value_count, (&layer, sinks), value),
    ensures
        exists|reply: Result<u64, IoError>|
            {
                &&& #[trigger] layer.node_and_value_count_reply(reply)
                &&& reply matches Ok(v) ==> value == v as usize
                &&& reply is Err ==> value == 0
                &&& is_kept(layer, *old(sinks), *final(sinks), reply)
            },
{
}

/// What `predicate_count` was told is what it says, and what it was not told is kept.
pub proof fn predicate_count_says_what_it_was_told<H: LayerIo>(
    layer: ReadLayer<H>,
    sinks: &mut ErrorSinks,
    value: usize,
)
    requires
        call_ensures(ReadLayer::<H>::predicate_count, (&layer, sinks), value),
    ensures
        exists|reply: Result<u64, IoError>|
            {
                &&& #[trigger] layer.predicate_count_reply(reply)
                &&& reply matches Ok(v) ==> value == v as usize
                &&& reply is Err ==> value == 0
                &&& is_kept(layer, *old(sinks), *final(sinks), reply)
            },
{
}

/// What `subject_id` was told is what it says, and what it was not told is kept.
pub proof fn subject_id_says_what_it_was_told<H: LayerIo>(
    layer: ReadLayer<H>,
    sinks: &mut ErrorSinks,
    subject: &str,
    value: Option<u64>,
)
    requires
        call_ensures(ReadLayer::<H>::subject_id, (&layer, sinks, subject), value),
    ensures
        exists|reply: Result<Option<u64>, IoError>|
            {
                &&& #[trigger] layer.subject_id_reply(subject, reply)
                &&& reply matches Ok(v) ==> value == v
                &&& reply is Err ==> value is None
                &&& is_kept(layer, *old(sinks), *final(sinks), reply)
            },
{
}

/// What `predicate_id` was told is what it says, and what it was not told is kept.
pub proof fn predicate_id_says_what_it_was_told<H: LayerIo>(
    layer: ReadLayer<H>,
    sinks: &mut ErrorSinks,
    predicate: &str,
    value: Option<u64>,
)
    requires
        call_ensures(ReadLayer::<H>::predicate_id, (&layer, sinks, predicate), value),
    ensures
        exists|reply: Result<Option<u64>, IoError>|
            {
                &&& #[trigger] layer.predicate_id_reply(predicate, reply)
                &&& reply matches Ok(v) ==> value == v
                &&& reply is Err ==> value is None
                &&& is_kept(layer, *old(sinks), *final(sinks), reply)
            },
{
}

/// What `object_node_id` was told is what it says, and what it was not told is kept.
pub proof fn object_node_id_says_what_it_was_told<H: LayerIo>(
    layer: ReadLayer<H>,
    sinks: &mut ErrorSinks,
    object: &str,
    value: Option<u64>,
)
    requires
        call_ensures(ReadLayer::<H>::object_node_id, (&layer, sinks, object), value),
    ensures
        exists|reply: Result<Option<u64>, IoError>|
            {
                &&& #[trigger] layer.object_node_id_reply(object, reply)
                &&& reply matches Ok(v) ==> value == v
                &&& reply is Err ==> value is None
                &&& is_kept(layer, *old(sinks), *final(sinks), reply)
            },
{
}

/// What `object_value_id` was told is what it says, and what it was not told is kept.
pub proof fn object_value_id_says_what_it_was_told<H: LayerIo>(
    layer: ReadLayer<H>,
    sinks: &mut ErrorSinks,
    object: &TypedDictEntry,
    value: Option<u64>,
)
    requires
        call_ensures(ReadLayer::<H>::object_value_id, (&layer, sinks, object), value),
    ensures
        exists|reply: Result<Option<u64>, IoError>|
            {
                &&& #[trigger] layer.object_value_id_reply(object, reply)
                &&& reply matches Ok(v) ==> value == v
                &&& reply is Err ==> value is None
                &&& is_kept(layer, *old(sinks), *final(sinks), reply)
            },
{
}

/// What `id_subject` was told is what it says, and what it was not told is kept.
pub proof fn id_subject_says_what_it_was_told<H: LayerIo>(
    layer: ReadLayer<H>,
    sinks: &mut ErrorSinks,
    id: u64,
    value: Option<String>,
)
    requires
        call_ensures(ReadLayer::<H>::id_subject, (&layer, sinks, id), value),
    ensures
        exists|reply: Result<Option<String>, IoError>|
            {
                &&& #[trigger] layer.id_subject_reply(id, reply)
                &&& reply matches Ok(v) ==> value == v
                &&& reply is Err ==> value is None
                &&& is_kept(layer, *old(sinks), *final(sinks), reply)
            },
{
}

/// What `id_predicate` was told is what it says, and what it was not told is kept.
pub proof fn id_predicate_says_what_it_was_told<H: LayerIo>(
    layer: ReadLayer<H>,
    sinks: &mut ErrorSinks,
    id: u64,
    value: Option<String>,
)
    requires
        call_ensures(ReadLayer::<H>::id_predicate, (&layer, sinks, id), value),
    ensures
        exists|reply: Result<Option<String>, IoError>|
            {
                &&& #[trigger] layer.id_predicate_reply(id, reply)
                &&& reply matches Ok(v) ==> value == v
                &&& reply is Err ==> value is None
                &&& is_kept(layer, *old(sinks), *final(sinks), reply)
            },
{
}

/// What `id_object` was told is what it says, and what it was not told is kept.
pub proof fn id_object_says_what_it_was_told<H: LayerIo>(
    layer: ReadLayer<H>,
    sinks: &mut ErrorSinks,
    id: u64,
    value: Option<ObjectType>,
)
    requires
        call_ensures(ReadLayer::<H>::id_object, (&layer, sinks, id), value),
    ensures
        exists|reply: Result<Option<ObjectType>, IoError>|
            {
                &&& #[trigger] layer.id_object_reply(id, reply)
                &&& reply matches Ok(v) ==> value == v
                &&& reply is Err ==> value is None
                &&& is_kept(layer, *old(sinks), *final(sinks), reply)
            },
{
}

/// What `triple_exists` was told is what it says, and what it was not told is kept.
pub proof fn triple_exists_says_what_it_was_told<H: LayerIo>(
    layer: ReadLayer<H>,
    sinks: &mut ErrorSinks,
    subject: u64,
    predicate: u64,
    object: u64,
    value: bool,
)
    requires
        call_ensures(ReadLayer::<H>::triple_exists, (&layer, sinks, subject, predicate, object), value),
    ensures
        exists|reply: Result<bool, IoError>|
            {
                &&& #[trigger] layer.triple_exists_reply(subject, predicate, object, reply)
                &&& reply matches Ok(v) ==> value == v
                &&& reply is Err ==> !value
                &&& is_kept(layer, *old(sinks), *final(sinks), reply)
            },
{
}

/// What `triples` was told is what it says, and what it was not told is kept.
pub proof fn triples_says_what_it_was_told<H: LayerIo>(
    layer: ReadLayer<H>,
    sinks: &mut ErrorSinks,
    value: Vec<IdTriple>,
)
    requires
        call_ensures(ReadLayer::<H>::triples, (&layer, sinks), value),
    ensures
        exists|reply: Result<Vec<IdTriple>, IoError>|
            {
                &&& #[trigger] layer.triples_reply(reply)
                &&& reply matches Ok(v) ==> value@ == v@
                &&& reply is Err ==> value@.len() == 0
                &&& is_kept(layer, *old(sinks), *final(sinks), reply)
            },
{
}

/// What `triples_s` was told is what it says, and what it was not told is kept.
pub proof fn triples_s_says_what_it_was_told<H: LayerIo>(
    layer: ReadLayer<H>,
    sinks: &mut ErrorSinks,
    subject: u64,
    value: Vec<IdTriple>,
)
    requires
        call_ensures(ReadLayer::<H>::triples_s, (&layer, sinks, subject), value),
    ensures
        exists|reply: Result<Vec<IdTriple>, IoError>|
            {
                &&& #[trigger] layer.triples_s_reply(subject, reply)
                &&& reply matches Ok(v) ==> value@ == v@
                &&& reply is Err ==> value@.len() == 0
                &&& is_kept(layer, *old(sinks), *final(sinks), reply)
            },
{
}

/// What `triples_sp` was told is what it says, and what it was not told is kept.
pub proof fn triples_sp_says_what_it_was_told<H: LayerIo>(
    layer: ReadLayer<H>,
    sinks: &mut ErrorSinks,
    subject: u64,
    predicate: u64,
    value: Vec<IdTriple>,
)
    requires
        call_ensures(ReadLayer::<H>::triples_sp, (&layer, sinks, subject, predicate), value),
    ensures
        exists|reply: Result<Vec<IdTriple>, IoError>|
            {
                &&& #[trigger] layer.triples_sp_reply(subject, predicate, reply)
                &&& reply matches Ok(v) ==> value@ == v@
                &&& reply is Err ==> value@.len() == 0
                &&& is_kept(layer, *old(sinks), *final(sinks), reply)
            },
{
}

/// What `triples_p` was told is what it says, and what it was not told is kept.
pub proof fn triples_p_says_what_it_was_told<H: LayerIo>(
    layer: ReadLayer<H>,
    sinks: &mut ErrorSinks,
    predicate: u64,
    value: Vec<IdTriple>,
)
    requires
        call_ensures(ReadLayer::<H>::triples_p, (&layer, sinks, predicate), value),
    ensures
        exists|reply: Result<Vec<IdTriple>, IoError>|
            {
                &&& #[trigger] layer.triples_p_reply(predicate, reply)
                &&& reply matches Ok(v) ==> value@ == v@
                &&& reply is Err ==> value@.len() == 0
                &&& is_kept(layer, *old(sinks), *final(sinks), reply)
            },
{
}

/// What `triples_o` was told is what it says, and what it was not told is kept.
pub proof fn triples_o_says_what_it_was_told<H: LayerIo>(
    layer: ReadLayer<H>,
    sinks: &mut ErrorSinks,
    object: u64,
    value: Vec<IdTriple>,
)
    requires
        call_ensures(ReadLayer::<H>::triples_o, (&layer, sinks, object), value),
    ensures
        exists|reply: Result<Vec<IdTriple>, IoError>|
            {
                &&& #[trigger] layer.triples_o_reply(object, reply)
                &&& reply matches Ok(v) ==> value@ == v@
                &&& reply is Err ==> value@.len() == 0
                &&& is_kept(layer, *old(sinks), *final(sinks), reply)
            },
{
}

/// What `triples_value_range` was told is what it says, and what it was not told is kept.
pub proof fn triples_value_range_says_what_it_was_told<H: LayerIo>(
    layer: ReadLayer<H>,
    sinks: &mut ErrorSinks,
    low: &TypedDictEntry,
    high: &TypedDictEntry,
    value: Vec<IdTriple>,
)
    requires
        call_ensures(ReadLayer::<H>::triples_value_range, (&layer, sinks, low, high), value),
    ensures
        exists|reply: Result<Vec<IdTriple>, IoError>|
            {
                &&& #[trigger] layer.triples_value_range_reply(low, high, reply)
                &&& reply matches Ok(v) ==> value@ == v@
                &&& reply is Err ==> value@.len() == 0
                &&& is_kept(layer, *old(sinks), *final(sinks), reply)
            },
{
}

/// What `triples_value_range_rev` was told is what it says, and what it was not told is kept.
pub proof fn triples_value_range_rev_says_what_it_was_told<H: LayerIo>(
    layer: ReadLayer<H>,
    sinks: &mut ErrorSinks,
    low: &TypedDictEntry,
    high: &TypedDictEntry,
    value: Vec<IdTriple>,
)
    requires
        call_ensures(ReadLayer::<H>::triples_value_range_rev, (&layer, sinks, low, high), value),
    ensures
        exists|reply: Result<Vec<IdTriple>, IoError>|
            {
                &&& #[trigger] layer.triples_value_range_rev_reply(low, high, reply)
                &&& reply matches Ok(v) ==> value@ == v@
                &&& reply is Err ==> value@.len() == 0
                &&& is_kept(layer, *old(sinks), *final(sinks), reply)
            },
{
}

/// What `triple_addition_count` was told is what it says, and what it was not told is kept.
pub proof fn triple_addition_count_says_what_it_was_told<H: LayerIo>(
    layer: ReadLayer<H>,
    sinks: &mut ErrorSinks,
    value: usize,
)
    requires
        call_ensures(ReadLayer::<H>::triple_addition_count, (&layer, sinks), value),
    ensures
        exists|reply: Result<usize, IoError>|
            {
                &&& #[trigger] layer.triple_addition_count_reply(reply)
                &&& reply matches Ok(v) ==> value == v
                &&& reply is Err ==> value == 0
                &&& is_kept(layer, *old(sinks), *final(sinks), reply)
            },
{
}

/// What `triple_removal_count` was told is what it says, and what it was not told is kept.
pub proof fn triple_removal_count_says_what_it_was_told<H: LayerIo>(
    layer: ReadLayer<H>,
    sinks: &mut ErrorSinks,
    value: usize,
)
    requires
        call_ensures(ReadLayer::<H>::triple_removal_count, (&layer, sinks), value),
    ensures
        exists|reply: Result<usize, IoError>|
            {
                &&& #[trigger] layer.triple_removal_count_reply(reply)
                &&& reply matches Ok(v) ==> value == v
                &&& reply is Err ==> value == 0
                &&& is_kept(layer, *old(sinks), *final(sinks), reply)
            },
{
}

/// Whether an id is that of a node is told in memory by the object that the
/// layer has for it, and else by the object that is read.
pub proof fn id_object_is_node_says_what_it_was_told<H: LayerIo>(
    layer: ReadLayer<H>,
    sinks: &mut ErrorSinks,
    id: u64,
    value: Option<bool>,
)
    requires
        call_ensures(ReadLayer::<H>::id_object_is_node, (&layer, sinks, id), value),
    ensures
        layer matches ReadLayer::Materialized(l) ==> {
            &&& value == Some(true) <==> (crate::stored::stored_id_object(l, id) matches Some(
                crate::entry::ObjectView::Node(_),
            ))
            &&& value is None <==> crate::stored::stored_id_object(l, id) is None
            &&& *final(sinks) == *old(sinks)
        },
        layer is Lazy ==> exists|reply: Result<Option<ObjectType>, IoError>|
            {
                &&& #[trigger] layer.id_object_reply(id, reply)
                &&& value == Some(true) <==> (reply matches Ok(Some(ObjectType::Node(_))))
                &&& value == Some(false) <==> (reply matches Ok(Some(ObjectType::Value(_))))
                &&& is_kept(layer, *old(sinks), *final(sinks), reply)
            },
{
}

/// The one triple that stands for those of a subject and a predicate is one of
/// them, and there is none only if there are none.
pub proof fn single_triple_sp_is_one_of_them<H: LayerIo>(
    layer: ReadLayer<H>,
    sinks: &mut ErrorSinks,
    subject: u64,
    predicate: u64,
    value: Option<IdTriple>,
)
    requires
        call_ensures(ReadLayer::<H>::single_triple_sp, (&layer, sinks, subject, predicate), value),
    ensures
        layer matches ReadLayer::Materialized(l) ==> {
            let triples = crate::stored::stored_triples_sp(l, subject, predicate);
            &&& value matches Some(t) ==> triples.contains(t)
            &&& value is None ==> triples.len() == 0
            &&& *final(sinks) == *old(sinks)
        },
        layer is Lazy ==> exists|reply: Result<Vec<IdTriple>, IoError>|
            {
                &&& #[trigger] layer.triples_sp_reply(subject, predicate, reply)
                &&& reply matches Ok(ts) ==> (value matches Some(t) ==> ts@.len() > 0 && t == ts@[0])
                &&& reply matches Ok(ts) ==> (value is None ==> ts@.len() == 0)
                &&& reply is Err ==> value is None
                &&& is_kept(layer, *old(sinks), *final(sinks), reply)
            },
{
}

/// A count that failed in part is 0 in that part. The error that is kept is
/// that of the objects, or else that of the predicates.
pub proof fn settling_counts_keeps_the_first_error<H: LayerIo>(
    layer: ReadLayer<H>,
    sinks: &mut ErrorSinks,
    replies: CountReplies,
    counts: LayerCounts,
)
    requires
        call_ensures(ReadLayer::<H>::settle_counts, (&layer, sinks, replies), counts),
    ensures
        replies.objects matches Ok(o) ==> counts.node_count == o.nodes as usize && counts.value_count
            == o.values as usize,
        replies.objects is Err ==> counts.node_count == 0 && counts.value_count == 0,
        replies.predicates matches Ok(n) ==> counts.predicate_count == n as usize,
        replies.predicates is Err ==> counts.predicate_count == 0,
        replies.objects matches Err(e) ==> is_kept::<u64, H>(layer, *old(sinks), *final(sinks), Err(e)),
        replies.objects is Ok ==> is_kept(layer, *old(sinks), *final(sinks), replies.predicates),
{
}

/// Taking the error of a layer empties its sink and leaves the others.
pub proof fn taking_an_error_takes_it_once<H: LayerIo>(
    layer: ReadLayer<H>,
    sinks: &mut ErrorSinks,
    error: Option<IoError>,
)
    requires
        call_ensures(ReadLayer::<H>::take_error, (&layer, sinks), error),
    ensures
        layer is Materialized ==> error is None && *final(sinks) == *old(sinks),
        layer matches ReadLayer::Lazy(d) ==> error == old(sinks).held(d.sink()) && final(sinks).held(d.sink()) is None
            && forall|sink: SinkId| sink != d.sink() ==> #[trigger] final(sinks).held(sink) == old(sinks).held(sink),
{
}

/// The values among some objects.
pub open spec fn are_values(objects: Seq<Option<ObjectType>>) -> Seq<Option<ObjectType>> {
    objects.filter(|o: Option<ObjectType>| o matches Some(ObjectType::Value(_)))
}

proof fn the_values_are_counted(objects: Seq<Option<ObjectType>>)
    ensures
        crate::reads::values_among(objects) == are_values(objects).len(),
    decreases objects.len(),
{
    reveal(Seq::filter);
    if objects.len() > 0 {
        the_values_are_counted(objects.drop_last());
    }
}

/// Counting the objects of a lazy layer reads the object of every id from 1 up
/// to the number that there are. The values are those that are values, the
/// nodes the others. It stops only at a read that failed, with its error.
pub proof fn counting_reads_every_id<H: LayerIo>(layer: ReadLayer<H>, replies: CountReplies)
    requires
        call_ensures(ReadLayer::<H>::try_all_counts, (&layer,), replies),
    ensures
        layer.predicate_count_reply(replies.predicates),
        layer matches ReadLayer::Materialized(l) ==> {
            &&& replies.objects matches Ok(counts)
            &&& counts.nodes + counts.values == crate::stored::stored_node_and_value_count(l)
            &&& counts.values == crate::stored::stored_kind_count(
                l,
                false,
                crate::stored::stored_node_and_value_count(l) as nat,
            )
        },
        layer is Lazy ==> (replies.objects matches Ok(counts) ==> exists|n: u64, objects: Seq<Option<ObjectType>>|
            {
                &&& #[trigger] layer.node_and_value_count_reply(Ok(n))
                &&& objects.len() == n
                &&& forall|i: int|
                    0 <= i < n ==> layer.id_object_reply((i + 1) as u64, Ok(#[trigger] objects[i]))
                &&& counts.values == #[trigger] are_values(objects).len()
                &&& counts.nodes + counts.values == n
            }),
        layer is Lazy ==> (replies.objects matches Err(e) ==> layer.node_and_value_count_reply(Err(e)) || exists|
            n: u64,
            id: u64,
        | #[trigger]
            layer.node_and_value_count_reply(Ok(n)) && 1 <= id <= n && #[trigger] layer.id_object_reply(id, Err(e))),
{
    if layer is Lazy {
        if let Ok(counts) = replies.objects {
            let (n, objects) = choose|n: u64, objects: Seq<Option<ObjectType>>|
                {
                    &&& #[trigger] layer.node_and_value_count_reply(Ok(n))
                    &&& #[trigger] layer.first_objects(objects)
                    &&& objects.len() == n
                    &&& counts.values == crate::reads::values_among(objects)
                    &&& counts.nodes + counts.values == n
                };
            the_values_are_counted(objects);
            assert(layer.node_and_value_count_reply(Ok(n)) && counts.values == are_values(objects).len());
        }
    }
}

// ---- layers brought into memory ----

/// A layer in memory is there. A lazy one is what the storage brings; where
/// the storage says that there is no such layer, the error says so and for
/// which operation, and an error of the storage is handed on.
pub proof fn a_layer_is_brought_as_it_is<H: LayerIo>(
    layer: ReadLayer<H>,
    what: Seq<char>,
    brought: Result<SyncStoreLayer, IoError>,
)
    requires
        layer.materialized_reply(what, brought),
    ensures
        layer matches ReadLayer::Materialized(l) ==> brought == Ok::<SyncStoreLayer, IoError>(l),
        layer matches ReadLayer::Lazy(d) ==> exists|reply: Result<Option<SyncStoreLayer>, IoError>|
            {
                &&& #[trigger] call_ensures(H::materialize, (&d.handle(),), reply)
                &&& reply matches Ok(Some(m)) ==> brought == Ok::<SyncStoreLayer, IoError>(m)
                &&& reply matches Ok(None) ==> (brought matches Err(e) && e.kind == ErrorKind::NotFound && e.message@
                    == what + ": layer could not be materialized"@)
                &&& reply matches Err(e) ==> brought == Err::<SyncStoreLayer, IoError>(e)
            },
{
    if let ReadLayer::Lazy(d) = layer {
        let reply = choose|reply: Result<Option<SyncStoreLayer>, IoError>| #[trigger]
            call_ensures(H::materialize, (&d.handle(),), reply) && crate::layer::materialize_settles(
                what,
                reply,
                brought,
            );
        assert(call_ensures(H::materialize, (&d.handle(),), reply));
    }
}

/// What was brought is handed on; that nothing was there is an error.
pub proof fn what_is_not_there_is_not_found(
    what: &str,
    reply: Result<Option<SyncStoreLayer>, IoError>,
    layer: Result<SyncStoreLayer, IoError>,
)
    requires
        call_ensures(materialized_or_not_found, (what, reply), layer),
    ensures
        reply matches Ok(Some(l)) ==> layer == Ok::<SyncStoreLayer, IoError>(l),
        reply matches Ok(None) ==> (layer matches Err(e) && e.kind == ErrorKind::NotFound && e.message@ == what@
            + ": layer could not be materialized"@),
        reply matches Err(e) ==> layer == Err::<SyncStoreLayer, IoError>(e),
{
}

/// A builder, or a squashed layer, or a rollup, is made of the layer that was
/// brought, and of no other; if none was, the reason is handed on.
pub proof fn history_is_rewritten_from_the_layer<H: LayerIo>(
    layer: ReadLayer<H>,
    builder: Result<SyncStoreLayerBuilder, IoError>,
    squashed: Result<SyncStoreLayer, IoError>,
    rolled_up: Result<(), IoError>,
)
    requires
        call_ensures(ReadLayer::<H>::open_write, (&layer,), builder),
        call_ensures(ReadLayer::<H>::squash, (&layer,), squashed),
        call_ensures(ReadLayer::<H>::rollup, (&layer,), rolled_up),
    ensures
        exists|brought: Result<SyncStoreLayer, IoError>|
            {
                &&& #[trigger] layer.materialized_reply("open_write"@, brought)
                &&& brought matches Ok(l) ==> call_ensures(H::stored_open_write, (&l,), builder)
                &&& brought matches Err(e) ==> builder == Err::<SyncStoreLayerBuilder, IoError>(e)
            },
        exists|brought: Result<SyncStoreLayer, IoError>|
            {
                &&& #[trigger] layer.materialized_reply("squash"@, brought)
                &&& brought matches Ok(l) ==> call_ensures(H::stored_squash, (&l,), squashed)
                &&& brought matches Err(e) ==> squashed == Err::<SyncStoreLayer, IoError>(e)
            },
        exists|brought: Result<SyncStoreLayer, IoError>|
            {
                &&& #[trigger] layer.materialized_reply("rollup"@, brought)
                &&& brought matches Ok(l) ==> call_ensures(H::stored_rollup, (&l,), rolled_up)
                &&& brought matches Err(e) ==> rolled_up == Err::<(), IoError>(e)
            },
{
}

/// Two layers are both brought, `upto` first. If one cannot be, that is the
/// reason, and that of `upto` counts before that of the other.
pub open spec fn both_are_brought<H: LayerIo>(
    layer: ReadLayer<H>,
    upto: ReadLayer<H>,
    what: Seq<char>,
    bound: Result<SyncStoreLayer, IoError>,
    brought: Result<SyncStoreLayer, IoError>,
) -> bool {
    &&& upto.materialized_reply(what, bound)
    &&& bound is Ok ==> layer.materialized_reply(what, brought)
}

proof fn a_pair_is_both<H: LayerIo>(
    layer: ReadLayer<H>,
    upto: ReadLayer<H>,
    what: Seq<char>,
    pair: Result<(SyncStoreLayer, SyncStoreLayer), IoError>,
) -> (both: (Result<SyncStoreLayer, IoError>, Result<SyncStoreLayer, IoError>))
    requires
        layer.pair_reply(upto, what, pair),
    ensures
        both_are_brought(layer, upto, what, both.0, both.1),
        both.0 matches Err(e) ==> pair == Err::<(SyncStoreLayer, SyncStoreLayer), IoError>(e),
        both.0 is Ok ==> (both.1 matches Err(e) ==> pair == Err::<(SyncStoreLayer, SyncStoreLayer), IoError>(e)),
        both.0 matches Ok(u) ==> (both.1 matches Ok(l) ==> pair == Ok::<(SyncStoreLayer, SyncStoreLayer), IoError>(
            (l, u),
        )),
{
    let bound = choose|bound: Result<SyncStoreLayer, IoError>| #[trigger]
        upto.materialized_reply(what, bound) && match bound {
            Err(e) => pair == Err::<(SyncStoreLayer, SyncStoreLayer), IoError>(e),
            Ok(u) => exists|l: Result<SyncStoreLayer, IoError>| #[trigger]
                layer.materialized_reply(what, l) && pair == (match l {
                    Ok(l) => Ok((l, u)),
                    Err(e) => Err(e),
                }),
        };
    if let Ok(u) = bound {
        let brought = choose|l: Result<SyncStoreLayer, IoError>| #[trigger]
            layer.materialized_reply(what, l) && pair == (match l {
                Ok(l) => Ok((l, u)),
                Err(e) => Err(e),
            });
        (bound, brought)
    } else {
        (bound, bound)
    }
}

/// `squash_upto` works on the two layers that were brought, the layer first and then
/// its bound.
pub proof fn squash_upto_goes_from_the_layer_to_its_bound<H: LayerIo>(
    layer: ReadLayer<H>,
    upto: ReadLayer<H>,
    reply: Result<SyncStoreLayer, IoError>,
)
    requires
        call_ensures(ReadLayer::<H>::squash_upto, (&layer, &upto), reply),
    ensures
        exists|bound: Result<SyncStoreLayer, IoError>, brought: Result<SyncStoreLayer, IoError>|
            {
                &&& #[trigger] both_are_brought(layer, upto, "squash_upto"@, bound, brought)
                &&& bound matches Err(e) ==> reply == Err::<SyncStoreLayer, IoError>(e)
                &&& bound is Ok ==> (brought matches Err(e) ==> reply == Err::<SyncStoreLayer, IoError>(e))
                &&& bound matches Ok(u) ==> (brought matches Ok(l) ==> call_ensures(
                    H::stored_squash_upto,
                    (&l, &u),
                    reply,
                ))
            },
{
    let pair = choose|pair: Result<(SyncStoreLayer, SyncStoreLayer), IoError>| #[trigger]
        layer.pair_reply(upto, "squash_upto"@, pair) && match pair {
            Ok((l, u)) => call_ensures(H::stored_squash_upto, (&l, &u), reply),
            Err(e) => reply == Err::<SyncStoreLayer, IoError>(e),
        };
    let both = a_pair_is_both(layer, upto, "squash_upto"@, pair);
    assert(both_are_brought(layer, upto, "squash_upto"@, both.0, both.1));
}

/// `rollup_upto` works on the two layers that were brought, the layer first and then
/// its bound.
pub proof fn rollup_upto_goes_from_the_layer_to_its_bound<H: LayerIo>(
    layer: ReadLayer<H>,
    upto: ReadLayer<H>,
    reply: Result<(), IoError>,
)
    requires
        call_ensures(ReadLayer::<H>::rollup_upto, (&layer, &upto), reply),
    ensures
        exists|bound: Result<SyncStoreLayer, IoError>, brought: Result<SyncStoreLayer, IoError>|
            {
                &&& #[trigger] both_are_brought(layer, upto, "rollup_upto"@, bound, brought)
                &&& bound matches Err(e) ==> reply == Err::<(), IoError>(e)
                &&& bound is Ok ==> (brought matches Err(e) ==> reply == Err::<(), IoError>(e))
                &&& bound matches Ok(u) ==> (brought matches Ok(l) ==> call_ensures(
                    H::stored_rollup_upto,
                    (&l, &u),
                    reply,
                ))
            },
{
    let pair = choose|pair: Result<(SyncStoreLayer, SyncStoreLayer), IoError>| #[trigger]
        layer.pair_reply(upto, "rollup_upto"@, pair) && match pair {
            Ok((l, u)) => call_ensures(H::stored_rollup_upto, (&l, &u), reply),
            Err(e) => reply == Err::<(), IoError>(e),
        };
    let both = a_pair_is_both(layer, upto, "rollup_upto"@, pair);
    assert(both_are_brought(layer, upto, "rollup_upto"@, both.0, both.1));
}

/// `imprecise_rollup_upto` works on the two layers that were brought, the layer first and then
/// its bound.
pub proof fn imprecise_rollup_upto_goes_from_the_layer_to_its_bound<H: LayerIo>(
    layer: ReadLayer<H>,
    upto: ReadLayer<H>,
    reply: Result<(), IoError>,
)
    requires
        call_ensures(ReadLayer::<H>::imprecise_rollup_upto, (&layer, &upto), reply),
    ensures
        exists|bound: Result<SyncStoreLayer, IoError>, brought: Result<SyncStoreLayer, IoError>|
            {
                &&& #[trigger] both_are_brought(layer, upto, "imprecise_rollup_upto"@, bound, brought)
                &&& bound matches Err(e) ==> reply == Err::<(), IoError>(e)
                &&& bound is Ok ==> (brought matches Err(e) ==> reply == Err::<(), IoError>(e))
                &&& bound matches Ok(u) ==> (brought matches Ok(l) ==> call_ensures(
                    H::stored_imprecise_rollup_upto,
                    (&l, &u),
                    reply,
                ))
            },
{
    let pair = choose|pair: Result<(SyncStoreLayer, SyncStoreLayer), IoError>| #[trigger]
        layer.pair_reply(upto, "imprecise_rollup_upto"@, pair) && match pair {
            Ok((l, u)) => call_ensures(H::stored_imprecise_rollup_upto, (&l, &u), reply),
            Err(e) => reply == Err::<(), IoError>(e),
        };
    let both = a_pair_is_both(layer, upto, "imprecise_rollup_upto"@, pair);
    assert(both_are_brought(layer, upto, "imprecise_rollup_upto"@, both.0, both.1));
}

// ---- the rest ----

/// A parent is on the arm of its child. In memory nothing changes. The parent
/// of a lazy layer has the handle and the name that the storage gives, and a
/// new sink, which is empty; no sink that was there changes.
pub proof fn a_parent_is_what_the_storage_says<H: LayerIo>(
    layer: ReadLayer<H>,
    sinks: &mut ErrorSinks,
    parent: Result<Option<ReadLayer<H>>, IoError>,
)
    requires
        call_ensures(ReadLayer::<H>::parent, (&layer, sinks), parent),
    ensures
        layer matches ReadLayer::Materialized(l) ==> *final(sinks) == *old(sinks) && exists|
            reply: Result<Option<SyncStoreLayer>, IoError>,
        |
            {
                &&& #[trigger] call_ensures(H::stored_parent, (&l,), reply)
                &&& reply matches Ok(Some(p)) ==> parent == Ok::<Option<ReadLayer<H>>, IoError>(
                    Some(ReadLayer::Materialized(p)),
                )
                &&& reply matches Ok(None) ==> parent == Ok::<Option<ReadLayer<H>>, IoError>(None)
                &&& reply matches Err(e) ==> parent == Err::<Option<ReadLayer<H>>, IoError>(e)
            },
        layer matches ReadLayer::Lazy(d) ==> exists|reply: Result<Option<(H, LayerName)>, IoError>|
            {
                &&& #[trigger] call_ensures(H::parent, (&d.handle(),), reply)
                &&& reply matches Ok(Some(p)) ==> (parent matches Ok(Some(ReadLayer::Lazy(found))) && found.handle()
                    == p.0 && found.layer_name() == p.1@ && found.sink() == old(sinks).issued()
                    && final(sinks).issued() == old(sinks).issued() + 1)
                &&& reply matches Ok(None) ==> parent == Ok::<Option<ReadLayer<H>>, IoError>(None)
                &&& reply matches Err(e) ==> parent == Err::<Option<ReadLayer<H>>, IoError>(e)
            },
        forall|sink: SinkId| #[trigger] final(sinks).held(sink) == old(sinks).held(sink),
{
    if let ReadLayer::Lazy(d) = layer {
        let reply = choose|reply: Result<Option<(H, LayerName)>, IoError>| #[trigger]
            call_ensures(H::parent, (&d.handle(),), reply) && match reply {
                Ok(Some((handle, name))) => {
                    &&& parent matches Ok(Some(ReadLayer::Lazy(p)))
                    &&& p.handle() == handle
                    &&& p.layer_name() == name@
                    &&& p.sink() == old(sinks).issued()
                    &&& final(sinks).issued() == old(sinks).issued() + 1
                },
                Ok(None) => parent == Ok::<Option<ReadLayer<H>>, IoError>(None) && *final(sinks) == *old(sinks),
                Err(e) => parent == Err::<Option<ReadLayer<H>>, IoError>(e) && *final(sinks) == *old(sinks),
            };
        assert(call_ensures(H::parent, (&d.handle(),), reply));
    }
}

/// The triples of a layer are its additions less its removals, and of a lazy
/// layer as many as the storage says.
pub proof fn the_triples_are_the_additions_less_the_removals<H: LayerIo>(
    layer: ReadLayer<H>,
    reply: Option<Result<usize, IoError>>,
)
    requires
        call_ensures(ReadLayer::<H>::checked_triple_count, (&layer,), reply),
    ensures
        layer matches ReadLayer::Materialized(l) ==> {
            let additions = crate::stored::stored_triple_addition_count(l);
            let removals = crate::stored::stored_triple_removal_count(l);
            &&& additions >= removals ==> (reply matches Some(Ok(n)) && n + removals == additions)
            &&& additions < removals ==> reply is None
        },
        layer matches ReadLayer::Lazy(d) ==> (reply matches Some(r) && call_ensures(
            H::triple_count,
            (&d.handle(),),
            r,
        )),
{
}

/// The size of a layer in memory is the one it says; a lazy layer says 0.
pub proof fn the_size_is_known_in_memory_only<H: LayerIo>(layer: ReadLayer<H>, size: usize)
    requires
        call_ensures(ReadLayer::<H>::stored_size, (&layer,), size),
    ensures
        layer matches ReadLayer::Materialized(l) ==> call_ensures(H::stored_size, (&l,), size),
        layer is Lazy ==> size == 0,
{
}

/// Only a layer in memory is one.
pub proof fn only_a_layer_in_memory_is_one<H: LayerIo>(
    layer: ReadLayer<H>,
    shared: Option<&SyncStoreLayer>,
    owned: Option<SyncStoreLayer>,
)
    requires
        call_ensures(ReadLayer::<H>::materialized, (&layer,), shared),
        call_ensures(ReadLayer::<H>::into_materialized, (layer,), owned),
    ensures
        shared is Some <==> layer is Materialized,
        owned is Some <==> layer is Materialized,
        forall|l: SyncStoreLayer| layer == ReadLayer::<H>::Materialized(l) ==> shared == Some(&l) && owned == Some(l),
{
}

/// A layer goes by its name: in memory the one that the layer has, and else the
/// one that it was made with. It has five words.
pub proof fn a_layer_goes_by_its_name<H: LayerIo>(layer: ReadLayer<H>, name: LayerName)
    requires
        call_ensures(ReadLayer::<H>::name, (&layer,), name),
    ensures
        layer matches ReadLayer::Materialized(l) ==> name@ == crate::stored::stored_name(l),
        layer matches ReadLayer::Lazy(d) ==> name@ == d.layer_name(),
        name@.len() == 5,
{
}

} // verus!
