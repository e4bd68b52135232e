//! What a predicate can do to a store.
//!
//! [`StoreIo`] is everything that can be asked of a store. A predicate is not
//! given all of it. One that only looks is given `StoreReads`, and one that
//! changes something is given the one change that it makes, which stands in
//! `changes`. A change goes into a journal, so that a contract can say which changes were made, and that no
//! others were. Whoever has the whole of a store has each of these parts.
use crate::error::IoError;
use crate::layer_io::{LayerIo, StoreIo};
use crate::name::LayerName;
use crate::pack::PackFailure;
use terminus_store::store::sync::{SyncNamedGraph, SyncStore, SyncStoreLayer, SyncStoreLayerBuilder};
use vstd::prelude::*;

verus! {

/// A change to a store that was asked for, with what came of it.
#[allow(inconsistent_fields)]
pub enum StoreCall {
    SetHead { graph: SyncNamedGraph, layer: SyncStoreLayer, reply: Result<bool, IoError> },
    ForceSetHead { graph: SyncNamedGraph, layer: SyncStoreLayer, reply: Result<(), IoError> },
    ForceSetHeadVersion {
        graph: SyncNamedGraph,
        layer: SyncStoreLayer,
        version: u64,
        reply: Result<bool, IoError>,
    },
    CreateGraph { store: SyncStore, label: Seq<char>, reply: Result<SyncNamedGraph, IoError> },
    DeleteGraph { store: SyncStore, label: Seq<char>, reply: Result<bool, IoError> },
    ImportLayers { store: SyncStore, pack: Seq<u8>, names: Seq<LayerName>, reply: Result<(), IoError> },
    MergeBaseLayers {
        store: SyncStore,
        names: Seq<LayerName>,
        temp_dir: Seq<char>,
        reply: Result<LayerName, IoError>,
    },
    InvalidateLayer { store: SyncStore, name: LayerName },
    SpawnCompaction { store: SyncStore, max_depth: usize, interval_secs: u64 },
}

/// The changes that a predicate has asked for.
pub struct Journal {
    calls: Ghost<Seq<StoreCall>>,
}

impl Journal {
    /// The changes, in the order in which they were asked for.
    pub closed spec fn calls(self) -> Seq<StoreCall> {
        self.calls@
    }

    /// Nothing has been asked for yet. A journal is opened by the predicate, and
    /// not where a change is asked for.
    pub(crate) fn new() -> (journal: Journal)
        requires
            crate::named_graph::opened_here() || crate::store::opened_here() || crate::pack::opened_here(),
        ensures
            journal.calls() == Seq::<StoreCall>::empty(),
    {
        Journal { calls: Ghost(Seq::empty()) }
    }

    /// Enters a change.
    pub(crate) fn enter(&mut self, call: Ghost<StoreCall>)
        ensures
            final(self).calls() == old(self).calls().push(call@),
    {
        self.calls = Ghost(self.calls@.push(call@));
    }
}

/// The layer that a graph points at after some changes, if it pointed at
/// `start` before them. A head is moved by the calls that say they moved it.
pub open spec fn head_after(calls: Seq<StoreCall>, graph: SyncNamedGraph, start: Option<SyncStoreLayer>) -> Option<
    SyncStoreLayer,
>
    decreases calls.len(),
{
    if calls.len() == 0 {
        start
    } else {
        let before = head_after(calls.drop_last(), graph, start);
        match calls.last() {
            StoreCall::SetHead { graph: g, layer, reply: Ok(true) } => if g == graph {
                Some(layer)
            } else {
                before
            },
            StoreCall::ForceSetHead { graph: g, layer, reply: Ok(()) } => if g == graph {
                Some(layer)
            } else {
                before
            },
            StoreCall::ForceSetHeadVersion { graph: g, layer, version: _, reply: Ok(true) } => if g == graph {
                Some(layer)
            } else {
                before
            },
            _ => before,
        }
    }
}

/// What can be asked of a store without changing it. A builder that is made
/// changes nothing until it is committed.
pub trait StoreReads: LayerIo {
    fn layer_exists(store: &SyncStore, name: LayerName) -> Result<bool, IoError>;

    fn lazy_layer(store: &SyncStore, name: LayerName) -> Self;

    fn get_layer_from_id(store: &SyncStore, name: LayerName) -> Result<Option<SyncStoreLayer>, IoError>;

    fn create_base_layer(store: &SyncStore) -> Result<SyncStoreLayerBuilder, IoError>;

    fn export_layers(store: &SyncStore, names: &Vec<LayerName>) -> Result<Vec<u8>, IoError>;

    fn pack_layer_parents(pack: &Vec<u8>) -> Result<Vec<(LayerName, Option<LayerName>)>, PackFailure>;

    fn open_graph(store: &SyncStore, label: &str) -> Result<Option<SyncNamedGraph>, IoError>;

    fn graph_head(graph: &SyncNamedGraph) -> Result<Option<SyncStoreLayer>, IoError>;

    fn graph_head_version(graph: &SyncNamedGraph) -> Result<(Option<SyncStoreLayer>, u64), IoError>;
}

impl<T: StoreIo> StoreReads for T {
    fn layer_exists(store: &SyncStore, name: LayerName) -> (reply: Result<bool, IoError>)
        ensures
            call_ensures(<T as StoreIo>::layer_exists, (store, name), reply),
    {
        <T as StoreIo>::layer_exists(store, name)
    }

    fn lazy_layer(store: &SyncStore, name: LayerName) -> (reply: Self)
        ensures
            call_ensures(<T as StoreIo>::lazy_layer, (store, name), reply),
    {
        <T as StoreIo>::lazy_layer(store, name)
    }

    fn get_layer_from_id(store: &SyncStore, name: LayerName) -> (reply: Result<Option<SyncStoreLayer>, IoError>)
        ensures
            call_ensures(<T as StoreIo>::get_layer_from_id, (store, name), reply),
    {
        <T as StoreIo>::get_layer_from_id(store, name)
    }

    fn create_base_layer(store: &SyncStore) -> (reply: Result<SyncStoreLayerBuilder, IoError>)
        ensures
            call_ensures(<T as StoreIo>::create_base_layer, (store,), reply),
    {
        <T as StoreIo>::create_base_layer(store)
    }

    fn export_layers(store: &SyncStore, names: &Vec<LayerName>) -> (reply: Result<Vec<u8>, IoError>)
        ensures
            call_ensures(<T as StoreIo>::export_layers, (store, names), reply),
    {
        <T as StoreIo>::export_layers(store, names)
    }

    fn pack_layer_parents(pack: &Vec<u8>) -> (reply: Result<Vec<(LayerName, Option<LayerName>)>, PackFailure>)
        ensures
            call_ensures(<T as StoreIo>::pack_layer_parents, (pack,), reply),
    {
        <T as StoreIo>::pack_layer_parents(pack)
    }

    fn open_graph(store: &SyncStore, label: &str) -> (reply: Result<Option<SyncNamedGraph>, IoError>)
        ensures
            call_ensures(<T as StoreIo>::open_graph, (store, label), reply),
    {
        <T as StoreIo>::open_graph(store, label)
    }

    fn graph_head(graph: &SyncNamedGraph) -> (reply: Result<Option<SyncStoreLayer>, IoError>)
        ensures
            call_ensures(<T as StoreIo>::graph_head, (graph,), reply),
    {
        <T as StoreIo>::graph_head(graph)
    }

    fn graph_head_version(graph: &SyncNamedGraph) -> (reply: Result<(Option<SyncStoreLayer>, u64), IoError>)
        ensures
            call_ensures(<T as StoreIo>::graph_head_version, (graph,), reply),
    {
        <T as StoreIo>::graph_head_version(graph)
    }
}

// ---- laws ----

/// Whoever has the whole of a store reads it with its own reads.
pub proof fn the_reads_are_those_of_the_store<T: StoreIo>()
    ensures
        forall|store: SyncStore, name: LayerName, reply: Result<bool, IoError>| #[trigger]
            call_ensures(<T as StoreReads>::layer_exists, (&store, name), reply) ==> call_ensures(
                <T as StoreIo>::layer_exists,
                (&store, name),
                reply,
            ),
        forall|store: SyncStore, name: LayerName, reply: T| #[trigger]
            call_ensures(<T as StoreReads>::lazy_layer, (&store, name), reply) ==> call_ensures(
                <T as StoreIo>::lazy_layer,
                (&store, name),
                reply,
            ),
        forall|store: SyncStore, name: LayerName, reply: Result<Option<SyncStoreLayer>, IoError>| #[trigger]
            call_ensures(<T as StoreReads>::get_layer_from_id, (&store, name), reply) ==> call_ensures(
                <T as StoreIo>::get_layer_from_id,
                (&store, name),
                reply,
            ),
        forall|store: SyncStore, reply: Result<SyncStoreLayerBuilder, IoError>| #[trigger]
            call_ensures(<T as StoreReads>::create_base_layer, (&store,), reply) ==> call_ensures(
                <T as StoreIo>::create_base_layer,
                (&store,),
                reply,
            ),
        forall|store: SyncStore, names: Vec<LayerName>, reply: Result<Vec<u8>, IoError>| #[trigger]
            call_ensures(<T as StoreReads>::export_layers, (&store, &names), reply) ==> call_ensures(
                <T as StoreIo>::export_layers,
                (&store, &names),
                reply,
            ),
        forall|pack: Vec<u8>, reply: Result<Vec<(LayerName, Option<LayerName>)>, PackFailure>| #[trigger]
            call_ensures(<T as StoreReads>::pack_layer_parents, (&pack,), reply) ==> call_ensures(
                <T as StoreIo>::pack_layer_parents,
                (&pack,),
                reply,
            ),
        forall|store: SyncStore, label: &str, reply: Result<Option<SyncNamedGraph>, IoError>| #[trigger]
            call_ensures(<T as StoreReads>::open_graph, (&store, label), reply) ==> call_ensures(
                <T as StoreIo>::open_graph,
                (&store, label),
                reply,
            ),
        forall|graph: SyncNamedGraph, reply: Result<Option<SyncStoreLayer>, IoError>| #[trigger]
            call_ensures(<T as StoreReads>::graph_head, (&graph,), reply) ==> call_ensures(
                <T as StoreIo>::graph_head,
                (&graph,),
                reply,
            ),
        forall|graph: SyncNamedGraph, reply: Result<(Option<SyncStoreLayer>, u64), IoError>| #[trigger]
            call_ensures(<T as StoreReads>::graph_head_version, (&graph,), reply) ==> call_ensures(
                <T as StoreIo>::graph_head_version,
                (&graph,),
                reply,
            ),
{
}

/// Whoever has the whole of a store changes it with its own calls.
pub proof fn the_changes_are_those_of_the_store<T: StoreIo>()
    ensures
        forall|graph: &SyncNamedGraph, layer: &SyncStoreLayer, reply: Result<bool, IoError>| #[trigger]
            <T as crate::changes::set_head::SetsHeads>::may_set_head(graph, layer, reply) ==> call_ensures(
                <T as StoreIo>::set_head,
                (graph, layer),
                reply,
            ),
        forall|graph: &SyncNamedGraph, layer: &SyncStoreLayer, reply: Result<(), IoError>| #[trigger]
            <T as crate::changes::force_set_head::ForcesHeads>::may_force_set_head(graph, layer, reply)
                ==> call_ensures(
                <T as StoreIo>::force_set_head,
                (graph, layer),
                reply,
            ),
        forall|
            graph: &SyncNamedGraph,
            layer: &SyncStoreLayer,
            version: u64,
            reply: Result<bool, IoError>,
        | #[trigger]
            <T as crate::changes::force_set_head_version::ForcesHeadVersions>::may_force_set_head_version(
                graph,
                layer,
                version,
                reply,
            )
                ==> call_ensures(
                <T as StoreIo>::force_set_head_version,
                (graph, layer, version),
                reply,
            ),
        forall|store: &SyncStore, label: &str, reply: Result<SyncNamedGraph, IoError>| #[trigger]
            <T as crate::changes::create_graph::CreatesGraphs>::may_create_graph(store, label, reply) ==> call_ensures(
                <T as StoreIo>::create_graph,
                (store, label),
                reply,
            ),
        forall|store: &SyncStore, label: &str, reply: Result<bool, IoError>| #[trigger]
            <T as crate::changes::delete_graph::DeletesGraphs>::may_delete_graph(store, label, reply) ==> call_ensures(
                <T as StoreIo>::delete_graph,
                (store, label),
                reply,
            ),
        forall|
            store: &SyncStore,
            pack: &Vec<u8>,
            names: &Vec<LayerName>,
            reply: Result<(), IoError>,
        | #[trigger]
            <T as crate::changes::import_layers::ImportsLayers>::may_import_layers(store, pack, names, reply)
                ==> call_ensures(
                <T as StoreIo>::import_layers,
                (store, pack, names),
                reply,
            ),
        forall|
            store: &SyncStore,
            names: &Vec<LayerName>,
            temp_dir: &str,
            reply: Result<LayerName, IoError>,
        | #[trigger]
            <T as crate::changes::merge_base_layers::MergesLayers>::may_merge_base_layers(store, names, temp_dir, reply)
                ==> call_ensures(
                <T as StoreIo>::merge_base_layers,
                (store, names, temp_dir),
                reply,
            ),
        forall|store: &SyncStore, name: LayerName, reply: ()| #[trigger]
            <T as crate::changes::invalidate_layer::DropsCaches>::may_invalidate_layer(store, name, reply)
                ==> call_ensures(
                <T as StoreIo>::invalidate_layer,
                (store, name),
                reply,
            ),
        forall|store: &SyncStore, max_depth: usize, interval_secs: u64, reply: ()| #[trigger]
            <T as crate::changes::spawn_compaction::Compacts>::may_spawn_compaction(
                store,
                max_depth,
                interval_secs,
                reply,
            )
                ==> call_ensures(
                <T as StoreIo>::spawn_compaction,
                (store, max_depth, interval_secs),
                reply,
            ),
{
}

} // verus!
