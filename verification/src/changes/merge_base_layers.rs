//! Merging base layers.
use crate::error::IoError;
use crate::layer_io::{LayerIo, StoreIo};
use crate::name::{name_to_string, LayerName};
use crate::pack::layer_names;
use crate::prolog::{PrologError, Raised};
use crate::store::ReadStore;
use crate::store_access::{Journal, StoreCall};
use std::ops::Deref;
use terminus_store::store::sync::SyncStore;
use vstd::prelude::*;

verus! {

/// It is asked for in this module, and nowhere else: what this is can be seen
/// only here.
pub closed spec fn asked_here() -> bool {
    true
}

/// Merges base layers.
pub trait MergesLayers: LayerIo {
    /// What may come of it.
    spec fn may_merge_base_layers(
        store: &SyncStore,
        names: &Vec<LayerName>,
        temp_dir: &str,
        reply: Result<LayerName, IoError>,
    ) -> bool;

    fn merge_base_layers(
        journal: &mut Journal,
        store: &SyncStore,
        names: &Vec<LayerName>,
        temp_dir: &str,
    ) -> (reply: Result<LayerName, IoError>)
        requires
            asked_here(),
        ensures
            Self::may_merge_base_layers(store, names, temp_dir, reply),
            final(journal).calls() == old(journal).calls().push(
                StoreCall::MergeBaseLayers { store: *store, names: names@, temp_dir: temp_dir@, reply },
            ),
    ;
}

impl<T: StoreIo> MergesLayers for T {
    open spec fn may_merge_base_layers(
        store: &SyncStore,
        names: &Vec<LayerName>,
        temp_dir: &str,
        reply: Result<LayerName, IoError>,
    ) -> bool {
        call_ensures(<T as StoreIo>::merge_base_layers, (store, names, temp_dir), reply)
    }

    fn merge_base_layers(
        journal: &mut Journal,
        store: &SyncStore,
        names: &Vec<LayerName>,
        temp_dir: &str,
    ) -> (reply: Result<LayerName, IoError>) {
        let reply = <T as StoreIo>::merge_base_layers(store, names, temp_dir);
        journal.enter(Ghost(StoreCall::MergeBaseLayers { store: *store, names: names@, temp_dir: temp_dir@, reply }));
        reply
    }
}

/// As `merge_base_layers`, with a journal.
pub fn merge_base_layers_in<S: MergesLayers>(
    journal: &mut Journal,
    store: &ReadStore,
    temp_dir: &str,
    ids: &Vec<String>,
) -> (id: Result<String, PrologError>)
    requires
        crate::pack::can_be_read(ids@),
    ensures
        if crate::pack::are_names(ids@, ids@.len() as int) {
            exists|names: Vec<LayerName>, reply: Result<LayerName, IoError>| #[trigger]
                S::may_merge_base_layers(&store.store(), &names, temp_dir, reply) && crate::pack::names_of(ids@, names@)
                    && final(journal).calls() == old(journal).calls().push(
                    StoreCall::MergeBaseLayers {
                        store: store.store(),
                        names: names@,
                        temp_dir: temp_dir@,
                        reply,
                    },
                ) && match reply {
                    Ok(name) => id matches Ok(text) && text@ == crate::name::name_text(name@),
                    Err(e) => id == Err::<String, PrologError>(PrologError::Exception(Raised::Io(e))),
                }
        } else {
            (id matches Err(e) && crate::pack::first_bad_id(ids@, e)) && final(journal).calls() == old(journal).calls()
        },
{
    match layer_names(ids) {
        Ok(names) => {
            let reply = S::merge_base_layers(journal, store.deref(), &names, temp_dir);
            assert(S::may_merge_base_layers(&store.store(), &names, temp_dir, reply));
            match reply {
                Ok(name) => Ok(name_to_string(name)),
                Err(e) => Err(PrologError::Exception(Raised::Io(e))),
            }
        },
        Err(e) => Err(e),
    }
}

} // verus!
