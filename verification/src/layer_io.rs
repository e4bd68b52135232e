//! The storage behind the layers.
//!
//! Everything that reaches for storage goes through the two traits here. They
//! promise nothing: whatever a method answers, and however often it answers
//! otherwise, what the library does with the answer is stated for that answer.
use crate::entry::{ObjectType, TypedDictEntry};
use crate::error::IoError;
use crate::name::LayerName;
use crate::pack::PackFailure;
use crate::triple::IdTriple;
use terminus_store::store::sync::{SyncNamedGraph, SyncStore, SyncStoreLayer, SyncStoreLayerBuilder};
use vstd::prelude::*;

verus! {

/// A handle on a layer that is read block by block from the storage.
///
/// A read of the handle may fail. The functions without a `self` are those
/// that reach for storage on behalf of a layer in memory.
pub trait LayerIo: Sized + Clone {
    /// The name of the parent, if there is one.
    fn parent_name(&self) -> Result<Option<LayerName>, IoError>;

    /// How many nodes and values there are, ancestors counted.
    fn node_and_value_count(&self) -> Result<u64, IoError>;

    /// How many predicates there are, ancestors counted.
    fn predicate_count(&self) -> Result<u64, IoError>;

    /// A handle on the parent, if there is one, and its name.
    fn parent(&self) -> Result<Option<(Self, LayerName)>, IoError>;

    /// The names of the layers this layer is made of.
    fn retrieve_layer_stack_names(&self) -> Result<Vec<LayerName>, IoError>;

    /// The id of a subject.
    fn subject_id(&self, subject: &str) -> Result<Option<u64>, IoError>;

    /// The id of a predicate.
    fn predicate_id(&self, predicate: &str) -> Result<Option<u64>, IoError>;

    /// The id of a node in the place of an object.
    fn object_node_id(&self, object: &str) -> Result<Option<u64>, IoError>;

    /// The id of a value.
    fn object_value_id(&self, object: &TypedDictEntry) -> Result<Option<u64>, IoError>;

    /// The subject that has an id.
    fn id_subject(&self, id: u64) -> Result<Option<String>, IoError>;

    /// The predicate that has an id.
    fn id_predicate(&self, id: u64) -> Result<Option<String>, IoError>;

    /// The object that has an id.
    fn id_object(&self, id: u64) -> Result<Option<ObjectType>, IoError>;

    /// Whether a triple is there.
    fn triple_exists(&self, subject: u64, predicate: u64, object: u64) -> Result<bool, IoError>;

    /// All triples.
    fn triples(&self) -> Result<Vec<IdTriple>, IoError>;

    /// The triples with a subject.
    fn triples_s(&self, subject: u64) -> Result<Vec<IdTriple>, IoError>;

    /// The triples with a subject and a predicate.
    fn triples_sp(&self, subject: u64, predicate: u64) -> Result<Vec<IdTriple>, IoError>;

    /// The triples with a predicate.
    fn triples_p(&self, predicate: u64) -> Result<Vec<IdTriple>, IoError>;

    /// The triples with an object.
    fn triples_o(&self, object: u64) -> Result<Vec<IdTriple>, IoError>;

    /// The triples whose object is a value in a range, in ascending order.
    fn triples_value_range(
        &self,
        low: &TypedDictEntry,
        high: &TypedDictEntry,
    ) -> Result<Vec<IdTriple>, IoError>;

    /// The triples whose object is a value in a range, in descending order.
    fn triples_value_range_rev(
        &self,
        low: &TypedDictEntry,
        high: &TypedDictEntry,
    ) -> Result<Vec<IdTriple>, IoError>;

    /// How many additions this layer and its ancestors hold.
    fn triple_addition_count(&self) -> Result<usize, IoError>;

    /// How many removals this layer and its ancestors hold.
    fn triple_removal_count(&self) -> Result<usize, IoError>;

    /// How many triples there are.
    fn triple_count(&self) -> Result<usize, IoError>;

    /// The layer itself, brought into memory.
    fn materialize(&self) -> Result<Option<SyncStoreLayer>, IoError>;

    /// Whether this layer itself holds that addition.
    fn triple_addition_exists(&self, subject: u64, predicate: u64, object: u64) -> Result<bool, IoError>;

    /// The additions of this layer itself.
    fn triple_additions(&self) -> Result<Vec<IdTriple>, IoError>;

    /// Its additions with a subject.
    fn triple_additions_s(&self, subject: u64) -> Result<Vec<IdTriple>, IoError>;

    /// Its additions with a subject and a predicate.
    fn triple_additions_sp(&self, subject: u64, predicate: u64) -> Result<Vec<IdTriple>, IoError>;

    /// Its additions with a predicate.
    fn triple_additions_p(&self, predicate: u64) -> Result<Vec<IdTriple>, IoError>;

    /// Its additions with an object.
    fn triple_additions_o(&self, object: u64) -> Result<Vec<IdTriple>, IoError>;

    /// How many additions this layer itself holds.
    fn triple_layer_addition_count(&self) -> Result<usize, IoError>;

    /// Whether this layer itself holds that removal.
    fn triple_removal_exists(&self, subject: u64, predicate: u64, object: u64) -> Result<bool, IoError>;

    /// The removals of this layer itself.
    fn triple_removals(&self) -> Result<Vec<IdTriple>, IoError>;

    /// Its removals with a subject.
    fn triple_removals_s(&self, subject: u64) -> Result<Vec<IdTriple>, IoError>;

    /// Its removals with a subject and a predicate.
    fn triple_removals_sp(&self, subject: u64, predicate: u64) -> Result<Vec<IdTriple>, IoError>;

    /// Its removals with a predicate.
    fn triple_removals_p(&self, predicate: u64) -> Result<Vec<IdTriple>, IoError>;

    /// Its removals with an object.
    fn triple_removals_o(&self, object: u64) -> Result<Vec<IdTriple>, IoError>;

    /// How many removals this layer itself holds.
    fn triple_layer_removal_count(&self) -> Result<usize, IoError>;

    /// The parent of a layer in memory, if it has one.
    fn stored_parent(layer: &SyncStoreLayer) -> Result<Option<SyncStoreLayer>, IoError>;

    /// The names of the layers that a layer in memory is made of.
    fn stored_layer_stack_names(layer: &SyncStoreLayer) -> Result<Vec<LayerName>, IoError>;

    /// Whether a layer in memory holds that addition.
    fn stored_triple_addition_exists(
        layer: &SyncStoreLayer,
        subject: u64,
        predicate: u64,
        object: u64,
    ) -> Result<bool, IoError>;

    /// The additions of a layer in memory.
    fn stored_triple_additions(layer: &SyncStoreLayer) -> Result<Vec<IdTriple>, IoError>;

    /// Its own additions with a subject.
    fn stored_triple_additions_s(layer: &SyncStoreLayer, subject: u64) -> Result<Vec<IdTriple>, IoError>;

    /// Its own additions with a subject and a predicate.
    fn stored_triple_additions_sp(
        layer: &SyncStoreLayer,
        subject: u64,
        predicate: u64,
    ) -> Result<Vec<IdTriple>, IoError>;

    /// Its own additions with a predicate.
    fn stored_triple_additions_p(layer: &SyncStoreLayer, predicate: u64) -> Result<Vec<IdTriple>, IoError>;

    /// Its own additions with an object.
    fn stored_triple_additions_o(layer: &SyncStoreLayer, object: u64) -> Result<Vec<IdTriple>, IoError>;

    /// How many additions a layer in memory holds.
    fn stored_triple_layer_addition_count(layer: &SyncStoreLayer) -> Result<usize, IoError>;

    /// Whether a layer in memory holds that removal.
    fn stored_triple_removal_exists(
        layer: &SyncStoreLayer,
        subject: u64,
        predicate: u64,
        object: u64,
    ) -> Result<bool, IoError>;

    /// The removals of a layer in memory.
    fn stored_triple_removals(layer: &SyncStoreLayer) -> Result<Vec<IdTriple>, IoError>;

    /// Its own removals with a subject.
    fn stored_triple_removals_s(layer: &SyncStoreLayer, subject: u64) -> Result<Vec<IdTriple>, IoError>;

    /// Its own removals with a subject and a predicate.
    fn stored_triple_removals_sp(
        layer: &SyncStoreLayer,
        subject: u64,
        predicate: u64,
    ) -> Result<Vec<IdTriple>, IoError>;

    /// Its own removals with a predicate.
    fn stored_triple_removals_p(layer: &SyncStoreLayer, predicate: u64) -> Result<Vec<IdTriple>, IoError>;

    /// Its own removals with an object.
    fn stored_triple_removals_o(layer: &SyncStoreLayer, object: u64) -> Result<Vec<IdTriple>, IoError>;

    /// How many removals a layer in memory holds.
    fn stored_triple_layer_removal_count(layer: &SyncStoreLayer) -> Result<usize, IoError>;

    /// The triples of a layer in memory whose object is a value in a range.
    fn stored_triples_value_range(
        layer: &SyncStoreLayer,
        low: &TypedDictEntry,
        high: &TypedDictEntry,
    ) -> Vec<IdTriple>;

    /// The same triples, in descending order of the values.
    fn stored_triples_value_range_rev(
        layer: &SyncStoreLayer,
        low: &TypedDictEntry,
        high: &TypedDictEntry,
    ) -> Vec<IdTriple>;

    /// How many bytes back a layer in memory.
    fn stored_size(layer: &SyncStoreLayer) -> usize;

    /// A builder for a child of a layer.
    fn stored_open_write(layer: &SyncStoreLayer) -> Result<SyncStoreLayerBuilder, IoError>;

    /// A new base layer with the contents of a layer.
    fn stored_squash(layer: &SyncStoreLayer) -> Result<SyncStoreLayer, IoError>;

    /// A new layer on top of `upto` with the contents of a layer.
    fn stored_squash_upto(layer: &SyncStoreLayer, upto: &SyncStoreLayer) -> Result<SyncStoreLayer, IoError>;

    /// Rolls a layer up with all its ancestors.
    fn stored_rollup(layer: &SyncStoreLayer) -> Result<(), IoError>;

    /// Rolls a layer up with its ancestors down to `upto`.
    fn stored_rollup_upto(layer: &SyncStoreLayer, upto: &SyncStoreLayer) -> Result<(), IoError>;

    /// Rolls a layer up with its ancestors down to `upto`, or to a rollup
    /// that reaches further.
    fn stored_imprecise_rollup_upto(layer: &SyncStoreLayer, upto: &SyncStoreLayer) -> Result<(), IoError>;
}

/// Stores and named graphs.
pub trait StoreIo: LayerIo {
    /// Whether the store has a layer of that name.
    fn layer_exists(store: &SyncStore, name: LayerName) -> Result<bool, IoError>;

    /// A handle on the layer of that name. It reads nothing yet.
    fn lazy_layer(store: &SyncStore, name: LayerName) -> Self;

    /// The layer of that name, brought into memory, if the store has it.
    fn get_layer_from_id(store: &SyncStore, name: LayerName) -> Result<Option<SyncStoreLayer>, IoError>;

    /// A builder for a base layer.
    fn create_base_layer(store: &SyncStore) -> Result<SyncStoreLayerBuilder, IoError>;

    /// A pack of the layers of those names.
    fn export_layers(store: &SyncStore, names: &Vec<LayerName>) -> Result<Vec<u8>, IoError>;

    /// Takes the layers of those names out of a pack.
    fn import_layers(store: &SyncStore, pack: &Vec<u8>, names: &Vec<LayerName>) -> Result<(), IoError>
        requires
            crate::changes::import_layers::asked_here(),
    ;

    /// The layers that a pack holds, in no order, with their parents.
    fn pack_layer_parents(pack: &Vec<u8>) -> Result<Vec<(LayerName, Option<LayerName>)>, PackFailure>;

    /// Merges base layers into a new one and returns its name.
    fn merge_base_layers(store: &SyncStore, names: &Vec<LayerName>, temp_dir: &str) -> Result<
        LayerName,
        IoError,
    >
        requires
            crate::changes::merge_base_layers::asked_here(),
    ;

    /// Drops what is cached of the layer of that name.
    fn invalidate_layer(store: &SyncStore, name: LayerName)
        requires
            crate::changes::invalidate_layer::asked_here(),
    ;

    /// Starts to roll up, every `interval_secs` seconds, the heads whose stack
    /// of layers is deeper than `max_depth`.
    fn spawn_compaction(store: &SyncStore, max_depth: usize, interval_secs: u64)
        requires
            crate::changes::spawn_compaction::asked_here(),
    ;

    /// A new named graph.
    fn create_graph(store: &SyncStore, label: &str) -> Result<SyncNamedGraph, IoError>
        requires
            crate::changes::create_graph::asked_here(),
    ;

    /// The named graph of that label, if there is one.
    fn open_graph(store: &SyncStore, label: &str) -> Result<Option<SyncNamedGraph>, IoError>;

    /// Deletes the named graph of that label. Whether there was one.
    fn delete_graph(store: &SyncStore, label: &str) -> Result<bool, IoError>
        requires
            crate::changes::delete_graph::asked_here(),
    ;

    /// The layer that a named graph points at, if any.
    fn graph_head(graph: &SyncNamedGraph) -> Result<Option<SyncStoreLayer>, IoError>;

    /// The layer that a named graph points at, if any, and the version.
    fn graph_head_version(graph: &SyncNamedGraph) -> Result<(Option<SyncStoreLayer>, u64), IoError>;

    /// Points a named graph at a layer that extends its head. Whether it did.
    fn set_head(graph: &SyncNamedGraph, layer: &SyncStoreLayer) -> Result<bool, IoError>
        requires
            crate::changes::set_head::asked_here(),
    ;

    /// Points a named graph at a layer.
    fn force_set_head(graph: &SyncNamedGraph, layer: &SyncStoreLayer) -> Result<(), IoError>
        requires
            crate::changes::force_set_head::asked_here(),
    ;

    /// Points a named graph at a layer if it has that version. Whether it did.
    fn force_set_head_version(
        graph: &SyncNamedGraph,
        layer: &SyncStoreLayer,
        version: u64,
    ) -> Result<bool, IoError>
        requires
            crate::changes::force_set_head_version::asked_here(),
    ;
}

} // verus!
