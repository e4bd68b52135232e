//! Moving the head of a graph that has a version to a layer.
use crate::error::IoError;
use crate::layer::ReadLayer;
use crate::layer_io::{LayerIo, StoreIo};
use crate::named_graph::{did_or_fail, ReadNamedGraph};
use crate::prolog::{PrologError, Raised};
use crate::store_access::{Journal, StoreCall};
use std::ops::Deref;
use terminus_store::store::sync::{SyncNamedGraph, SyncStoreLayer};
use vstd::prelude::*;

verus! {

/// It is asked for in this module, and nowhere else: what this is can be seen
/// only here.
pub closed spec fn asked_here() -> bool {
    true
}

/// Moves the head of a graph that has a version to a layer.
pub trait ForcesHeadVersions: LayerIo {
    /// What may come of it.
    spec fn may_force_set_head_version(
        graph: &SyncNamedGraph,
        layer: &SyncStoreLayer,
        version: u64,
        reply: Result<bool, IoError>,
    ) -> bool;

    fn force_set_head_version(
        journal: &mut Journal,
        graph: &SyncNamedGraph,
        layer: &SyncStoreLayer,
        version: u64,
    ) -> (reply: Result<bool, IoError>)
        requires
            asked_here(),
        ensures
            Self::may_force_set_head_version(graph, layer, version, reply),
            final(journal).calls() == old(journal).calls().push(
                StoreCall::ForceSetHeadVersion { graph: *graph, layer: *layer, version, reply },
            ),
    ;
}

impl<T: StoreIo> ForcesHeadVersions for T {
    open spec fn may_force_set_head_version(
        graph: &SyncNamedGraph,
        layer: &SyncStoreLayer,
        version: u64,
        reply: Result<bool, IoError>,
    ) -> bool {
        call_ensures(<T as StoreIo>::force_set_head_version, (graph, layer, version), reply)
    }

    fn force_set_head_version(
        journal: &mut Journal,
        graph: &SyncNamedGraph,
        layer: &SyncStoreLayer,
        version: u64,
    ) -> (reply: Result<bool, IoError>) {
        let reply = <T as StoreIo>::force_set_head_version(graph, layer, version);
        journal.enter(Ghost(StoreCall::ForceSetHeadVersion { graph: *graph, layer: *layer, version, reply }));
        reply
    }
}

/// As `nb_force_set_head_version`, with a journal.
pub fn force_set_head_version_in<S: ForcesHeadVersions>(
    journal: &mut Journal,
    graph: &ReadNamedGraph,
    layer: &ReadLayer<S>,
    version: u64,
) -> (done: Result<(), PrologError>)
    ensures
        exists|built: Result<SyncStoreLayer, IoError>| #[trigger]
            layer.materialized_reply("this operation"@, built) && match built {
                Ok(l) => exists|reply: Result<bool, IoError>| #[trigger]
                    S::may_force_set_head_version(&graph.graph(), &l, version, reply) && {
                        &&& final(journal).calls() == old(journal).calls().push(
                            StoreCall::ForceSetHeadVersion { graph: graph.graph(), layer: l, version, reply },
                        )
                        &&& done == crate::named_graph::did(reply)
                    },
                Err(e) => done == Err::<(), PrologError>(PrologError::Exception(Raised::Io(e)))
                    && final(journal).calls() == old(journal).calls(),
            },
{
    let built = layer.require_materialized_head();
    match built {
        Ok(l) => {
            let reply = S::force_set_head_version(journal, graph.deref(), &l, version);
            assert(S::may_force_set_head_version(&graph.graph(), &l, version, reply));
            did_or_fail(reply)
        },
        Err(e) => Err(PrologError::Exception(Raised::Io(e))),
    }
}

} // verus!
