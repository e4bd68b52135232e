//! Layers resident in memory.
//!
//! A materialized layer is a `SyncStoreLayer`: an immutable layer that is held
//! in memory with all its ancestors, so that a read of it can neither fail nor
//! change. What such a read returns depends on the layer and the arguments
//! alone, and is given a name here: `stored_subject_id(layer, subject)` is the
//! id that the layer has for a subject, and so on. The names are what the
//! contracts of the reads speak of.
use crate::entry::{ObjectType, ObjectView, TypedDictEntry};
use crate::name::LayerName;
use crate::triple::{IdTriple, LayerCounts};
use tdb_succinct::{Datatype, SizedDictEntry, TypedDictEntry as OutsideEntry};
use terminus_store::layer::{LayerCounts as OutsideCounts, ObjectType as OutsideObject};
use terminus_store::store::sync::{SyncNamedGraph, SyncStore, SyncStoreLayer, SyncStoreLayerBuilder};
use terminus_store::Layer;
use vstd::prelude::*;

verus! {

#[verifier::external_type_specification]
#[verifier::external_body]
pub struct ExSyncStoreLayer(SyncStoreLayer);

#[verifier::external_type_specification]
#[verifier::external_body]
pub struct ExSyncStore(SyncStore);

#[verifier::external_type_specification]
#[verifier::external_body]
pub struct ExSyncNamedGraph(SyncNamedGraph);

#[verifier::external_type_specification]
#[verifier::external_body]
pub struct ExSyncStoreLayerBuilder(SyncStoreLayerBuilder);

/// `SyncStoreLayer::clone` is derived: the copy shares the layer in memory, so
/// it is the same layer.
pub assume_specification[ <SyncStoreLayer as Clone>::clone ](layer: &SyncStoreLayer) -> (copy: SyncStoreLayer)
    ensures
        copy == *layer,
;

/// `SyncStore::clone` is derived: the copy is another handle on the store.
pub assume_specification[ <SyncStore as Clone>::clone ](store: &SyncStore) -> (copy: SyncStore)
    ensures
        copy == *store,
;

/// `SyncNamedGraph::clone` is derived: the copy is another handle on the graph.
pub assume_specification[ <SyncNamedGraph as Clone>::clone ](graph: &SyncNamedGraph) -> (copy: SyncNamedGraph)
    ensures
        copy == *graph,
;

/// The name of a layer.
pub uninterp spec fn stored_name(layer: SyncStoreLayer) -> Seq<u32>;

/// Calls `Layer::name` of a `SyncStoreLayer`: the name the layer was stored under.
#[verifier::external_body]
pub(crate) fn layer_name(layer: &SyncStoreLayer) -> (name: LayerName)
    ensures
        name@ == stored_name(*layer),
{
    layer.name()
}

/// The name of the parent of a layer, if it has one.
pub uninterp spec fn stored_parent_name(layer: SyncStoreLayer) -> Option<Seq<u32>>;

/// Calls `Layer::parent_name` of a `SyncStoreLayer`.
#[verifier::external_body]
pub(crate) fn layer_parent_name(layer: &SyncStoreLayer) -> (name: Option<LayerName>)
    ensures
        match name {
            Some(words) => stored_parent_name(*layer) == Some(words@),
            None => stored_parent_name(*layer) is None,
        },
{
    layer.parent_name()
}

/// How many nodes and values a layer has, ancestors counted.
pub uninterp spec fn stored_node_and_value_count(layer: SyncStoreLayer) -> usize;

/// Calls `Layer::node_and_value_count` of a `SyncStoreLayer`.
#[verifier::external_body]
pub(crate) fn layer_node_and_value_count(layer: &SyncStoreLayer) -> (count: usize)
    ensures
        count == stored_node_and_value_count(*layer),
{
    layer.node_and_value_count()
}

/// How many predicates a layer has, ancestors counted.
pub uninterp spec fn stored_predicate_count(layer: SyncStoreLayer) -> usize;

/// Calls `Layer::predicate_count` of a `SyncStoreLayer`.
#[verifier::external_body]
pub(crate) fn layer_predicate_count(layer: &SyncStoreLayer) -> (count: usize)
    ensures
        count == stored_predicate_count(*layer),
{
    layer.predicate_count()
}

/// The id that a layer has for a subject, if it has one.
pub uninterp spec fn stored_subject_id(layer: SyncStoreLayer, subject: Seq<char>) -> Option<u64>;

/// Calls `Layer::subject_id` of a `SyncStoreLayer`, which looks the text up in the
/// dictionaries of the layer and its ancestors.
#[verifier::external_body]
pub(crate) fn layer_subject_id(layer: &SyncStoreLayer, subject: &str) -> (id: Option<u64>)
    ensures
        id == stored_subject_id(*layer, subject@),
{
    layer.subject_id(subject)
}

/// The id that a layer has for a predicate, if it has one.
pub uninterp spec fn stored_predicate_id(layer: SyncStoreLayer, predicate: Seq<char>) -> Option<u64>;

/// Calls `Layer::predicate_id` of a `SyncStoreLayer`, which looks the text up in the
/// dictionaries of the layer and its ancestors.
#[verifier::external_body]
pub(crate) fn layer_predicate_id(layer: &SyncStoreLayer, predicate: &str) -> (id: Option<u64>)
    ensures
        id == stored_predicate_id(*layer, predicate@),
{
    layer.predicate_id(predicate)
}

/// The id that a layer has for a node in the place of an object, if it has one.
pub uninterp spec fn stored_object_node_id(layer: SyncStoreLayer, object: Seq<char>) -> Option<u64>;

/// Calls `Layer::object_node_id` of a `SyncStoreLayer`, which looks the text up in the
/// dictionaries of the layer and its ancestors.
#[verifier::external_body]
pub(crate) fn layer_object_node_id(layer: &SyncStoreLayer, object: &str) -> (id: Option<u64>)
    ensures
        id == stored_object_node_id(*layer, object@),
{
    layer.object_node_id(object)
}

/// The id that a layer has for a value, if it has one.
pub uninterp spec fn stored_object_value_id(
    layer: SyncStoreLayer,
    datatype: Datatype,
    bytes: Seq<u8>,
) -> Option<u64>;

/// Calls `Layer::object_value_id` of a `SyncStoreLayer` on the entry made of the
/// datatype and the bytes.
#[verifier::external_body]
pub(crate) fn layer_object_value_id(layer: &SyncStoreLayer, object: &TypedDictEntry) -> (id: Option<u64>)
    ensures
        id == stored_object_value_id(*layer, object.datatype, object.bytes@),
{
    let entry = SizedDictEntry::Single(object.bytes.clone().into());
    layer.object_value_id(&OutsideEntry::new(object.datatype, entry))
}

/// The subject that has an id in a layer, if there is one.
pub uninterp spec fn stored_id_subject(layer: SyncStoreLayer, id: u64) -> Option<Seq<char>>;

/// Calls `Layer::id_subject` of a `SyncStoreLayer`.
#[verifier::external_body]
pub(crate) fn layer_id_subject(layer: &SyncStoreLayer, id: u64) -> (text: Option<String>)
    ensures
        match text {
            Some(t) => stored_id_subject(*layer, id) == Some(t@),
            None => stored_id_subject(*layer, id) is None,
        },
{
    layer.id_subject(id)
}

/// The predicate that has an id in a layer, if there is one.
pub uninterp spec fn stored_id_predicate(layer: SyncStoreLayer, id: u64) -> Option<Seq<char>>;

/// Calls `Layer::id_predicate` of a `SyncStoreLayer`.
#[verifier::external_body]
pub(crate) fn layer_id_predicate(layer: &SyncStoreLayer, id: u64) -> (text: Option<String>)
    ensures
        match text {
            Some(t) => stored_id_predicate(*layer, id) == Some(t@),
            None => stored_id_predicate(*layer, id) is None,
        },
{
    layer.id_predicate(id)
}

/// The object that has an id in a layer, if there is one.
pub uninterp spec fn stored_id_object(layer: SyncStoreLayer, id: u64) -> Option<ObjectView>;

/// Calls `Layer::id_object` of a `SyncStoreLayer`. Of a value, the datatype and
/// the bytes are handed on.
#[verifier::external_body]
pub(crate) fn layer_id_object(layer: &SyncStoreLayer, id: u64) -> (object: Option<ObjectType>)
    ensures
        match object {
            Some(o) => stored_id_object(*layer, id) == Some(o@),
            None => stored_id_object(*layer, id) is None,
        },
{
    match layer.id_object(id)? {
        OutsideObject::Node(name) => Some(ObjectType::Node(name)),
        OutsideObject::Value(entry) => Some(
            ObjectType::Value(
                TypedDictEntry { datatype: entry.datatype(), bytes: entry.to_bytes().to_vec() },
            ),
        ),
    }
}

/// Whether the object that has an id in a layer is a node.
pub open spec fn stored_is_node(layer: SyncStoreLayer, id: u64) -> Option<bool> {
    match stored_id_object(layer, id) {
        Some(ObjectView::Node(_)) => Some(true),
        Some(ObjectView::Value(_)) => Some(false),
        None => None,
    }
}

/// How many of the ids from 1 to `n` are those of nodes, or of values.
pub open spec fn stored_kind_count(layer: SyncStoreLayer, is_node: bool, n: nat) -> nat
    decreases n,
{
    if n == 0 {
        0
    } else {
        let fewer = stored_kind_count(layer, is_node, (n - 1) as nat);
        if stored_is_node(layer, n as u64) == Some(is_node) {
            fewer + 1
        } else {
            fewer
        }
    }
}

/// Calls `Layer::id_object_is_node` of a `SyncStoreLayer`. It goes by the same
/// steps as `Layer::id_object`, and stops short of the dictionary: the object
/// is a node or a value by the part of the ids that its id lies in.
#[verifier::external_body]
pub(crate) fn layer_id_object_is_node(layer: &SyncStoreLayer, id: u64) -> (is_node: Option<bool>)
    ensures
        is_node == stored_is_node(*layer, id),
{
    layer.id_object_is_node(id)
}

/// Calls `Layer::all_counts` of a `SyncStoreLayer`, which adds up the entries of
/// the dictionaries of the layer and its ancestors. The ids from 1 on are those
/// of the entries of the dictionaries of nodes and values, one id to an entry.
/// So the nodes and the values together are as many as
/// `Layer::node_and_value_count` says, and each are as many as there are such
/// ids up to that number.
#[verifier::external_body]
pub(crate) fn layer_all_counts(layer: &SyncStoreLayer) -> (counts: LayerCounts)
    ensures
        counts.node_count == stored_kind_count(
            *layer,
            true,
            stored_node_and_value_count(*layer) as nat,
        ),
        counts.value_count == stored_kind_count(
            *layer,
            false,
            stored_node_and_value_count(*layer) as nat,
        ),
        counts.node_count + counts.value_count == stored_node_and_value_count(*layer),
        counts.predicate_count == stored_predicate_count(*layer),
{
    let OutsideCounts { node_count, predicate_count, value_count } = layer.all_counts();
    LayerCounts { node_count, predicate_count, value_count }
}

/// Whether a triple is in a layer.
pub uninterp spec fn stored_triple_exists(
    layer: SyncStoreLayer,
    subject: u64,
    predicate: u64,
    object: u64,
) -> bool;

/// Calls `Layer::triple_exists` of a `SyncStoreLayer`.
#[verifier::external_body]
pub(crate) fn layer_triple_exists(
    layer: &SyncStoreLayer,
    subject: u64,
    predicate: u64,
    object: u64,
) -> (exists: bool)
    ensures
        exists == stored_triple_exists(*layer, subject, predicate, object),
{
    layer.triple_exists(subject, predicate, object)
}

/// All triples of a layer, in the order in which it hands them out.
pub uninterp spec fn stored_triples(layer: SyncStoreLayer) -> Seq<IdTriple>;

/// Calls `Layer::triples` of a `SyncStoreLayer`.
#[verifier::external_body]
pub(crate) fn layer_triples(layer: &SyncStoreLayer) -> (triples: Vec<IdTriple>)
    ensures
        triples@ == stored_triples(*layer),
{
    layer
        .triples()
        .map(|t| IdTriple { subject: t.subject, predicate: t.predicate, object: t.object })
        .collect()
}

/// The triples of a layer with a subject.
pub uninterp spec fn stored_triples_s(layer: SyncStoreLayer, subject: u64) -> Seq<IdTriple>;

/// Calls `Layer::triples_s` of a `SyncStoreLayer`. The iterator ends at the first triple with
/// another subject.
#[verifier::external_body]
pub(crate) fn layer_triples_s(layer: &SyncStoreLayer, subject: u64) -> (triples: Vec<IdTriple>)
    ensures
        triples@ == stored_triples_s(*layer, subject),
        crate::triple::have_subject(triples@, subject),
{
    layer
        .triples_s(subject)
        .map(|t| IdTriple { subject: t.subject, predicate: t.predicate, object: t.object })
        .collect()
}

/// The triples of a layer with a subject and a predicate.
pub uninterp spec fn stored_triples_sp(layer: SyncStoreLayer, subject: u64, predicate: u64) -> Seq<IdTriple>;

/// Calls `Layer::triples_sp` of a `SyncStoreLayer`. The iterator ends at the first triple with
/// another subject or predicate.
#[verifier::external_body]
pub(crate) fn layer_triples_sp(layer: &SyncStoreLayer, subject: u64, predicate: u64) -> (triples: Vec<IdTriple>)
    ensures
        triples@ == stored_triples_sp(*layer, subject, predicate),
        crate::triple::have_subject(triples@, subject),
        crate::triple::have_predicate(triples@, predicate),
{
    layer
        .triples_sp(subject, predicate)
        .map(|t| IdTriple { subject: t.subject, predicate: t.predicate, object: t.object })
        .collect()
}

/// The triples of a layer with a predicate.
pub uninterp spec fn stored_triples_p(layer: SyncStoreLayer, predicate: u64) -> Seq<IdTriple>;

/// Calls `Layer::triples_p` of a `SyncStoreLayer`. The index of predicates leads
/// to the places where the predicate stands, so the triples there have it. The
/// index also has places without a predicate, under the id 0, which is none.
#[verifier::external_body]
pub(crate) fn layer_triples_p(layer: &SyncStoreLayer, predicate: u64) -> (triples: Vec<IdTriple>)
    ensures
        triples@ == stored_triples_p(*layer, predicate),
        predicate != 0 ==> crate::triple::have_predicate(triples@, predicate),
{
    layer
        .triples_p(predicate)
        .map(|t| IdTriple { subject: t.subject, predicate: t.predicate, object: t.object })
        .collect()
}

/// The triples of a layer with an object.
pub uninterp spec fn stored_triples_o(layer: SyncStoreLayer, object: u64) -> Seq<IdTriple>;

/// Calls `Layer::triples_o` of a `SyncStoreLayer`. The iterator ends at the first triple with
/// another object.
#[verifier::external_body]
pub(crate) fn layer_triples_o(layer: &SyncStoreLayer, object: u64) -> (triples: Vec<IdTriple>)
    ensures
        triples@ == stored_triples_o(*layer, object),
        crate::triple::have_object(triples@, object),
{
    layer
        .triples_o(object)
        .map(|t| IdTriple { subject: t.subject, predicate: t.predicate, object: t.object })
        .collect()
}

/// One triple of a layer with a subject and a predicate, if there is one.
pub uninterp spec fn stored_single_triple_sp(
    layer: SyncStoreLayer,
    subject: u64,
    predicate: u64,
) -> Option<IdTriple>;

/// Calls `Layer::single_triple_sp` of a `SyncStoreLayer`. It looks for the
/// newest addition of the subject and the predicate that no newer layer
/// removes. A layer is built to add only triples that its parent does not have
/// and to remove only triples that it has, so this finds one of those that
/// `Layer::triples_sp` returns, and finds none only if there is none.
#[verifier::external_body]
pub(crate) fn layer_single_triple_sp(
    layer: &SyncStoreLayer,
    subject: u64,
    predicate: u64,
) -> (triple: Option<IdTriple>)
    ensures
        triple == stored_single_triple_sp(*layer, subject, predicate),
        triple matches Some(t) ==> t.subject == subject && t.predicate == predicate,
        crate::triple::one_of(stored_triples_sp(*layer, subject, predicate), triple),
{
    let t = layer.single_triple_sp(subject, predicate)?;
    Some(IdTriple { subject: t.subject, predicate: t.predicate, object: t.object })
}

/// How many triple additions a layer and its ancestors hold together.
pub uninterp spec fn stored_triple_addition_count(layer: SyncStoreLayer) -> usize;

/// Calls `Layer::triple_addition_count` of a `SyncStoreLayer`.
#[verifier::external_body]
pub(crate) fn layer_triple_addition_count(layer: &SyncStoreLayer) -> (count: usize)
    ensures
        count == stored_triple_addition_count(*layer),
{
    layer.triple_addition_count()
}

/// How many triple removals a layer and its ancestors hold together.
pub uninterp spec fn stored_triple_removal_count(layer: SyncStoreLayer) -> usize;

/// Calls `Layer::triple_removal_count` of a `SyncStoreLayer`.
#[verifier::external_body]
pub(crate) fn layer_triple_removal_count(layer: &SyncStoreLayer) -> (count: usize)
    ensures
        count == stored_triple_removal_count(*layer),
{
    layer.triple_removal_count()
}

/// The label of a named graph.
pub uninterp spec fn graph_label(graph: SyncNamedGraph) -> Seq<char>;

/// Calls `SyncNamedGraph::name`, which returns the label the graph was opened
/// under.
#[verifier::external_body]
pub(crate) fn named_graph_label(graph: &SyncNamedGraph) -> (label: String)
    ensures
        label@ == graph_label(*graph),
{
    graph.name().to_string()
}

/// Calls `Layer::triple_count` of a `SyncStoreLayer`, which subtracts the
/// removals from the additions. Where there are more removals the subtraction
/// overflows; `requires` leaves that out.
#[verifier::external_body]
pub(crate) fn layer_triple_count(layer: &SyncStoreLayer) -> (count: usize)
    requires
        stored_triple_addition_count(*layer) >= stored_triple_removal_count(*layer),
    ensures
        count == stored_triple_addition_count(*layer) - stored_triple_removal_count(*layer),
{
    layer.triple_count()
}

} // verus!
