//! Taking layers out of a pack.
use crate::error::IoError;
use crate::layer_io::{LayerIo, StoreIo};
use crate::name::LayerName;
use crate::pack::layer_names;
use crate::prolog::{try_or_die, PrologError};
use crate::store::ReadStore;
use crate::store_access::{Journal, StoreCall};
use std::ops::Deref;
use terminus_store::store::sync::SyncStore;
use vstd::prelude::*;

verus! {

/// It is asked for in this module, and nowhere else: what this is can be seen
/// only here.
pub closed spec fn asked_here() -> bool {
    true
}

/// Takes layers out of a pack.
pub trait ImportsLayers: LayerIo {
    /// What may come of it.
    spec fn may_import_layers(
        store: &SyncStore,
        pack: &Vec<u8>,
        names: &Vec<LayerName>,
        reply: Result<(), IoError>,
    ) -> bool;

    fn import_layers(
        journal: &mut Journal,
        store: &SyncStore,
        pack: &Vec<u8>,
        names: &Vec<LayerName>,
    ) -> (reply: Result<(), IoError>)
        requires
            asked_here(),
        ensures
            Self::may_import_layers(store, pack, names, reply),
            final(journal).calls() == old(journal).calls().push(
                StoreCall::ImportLayers { store: *store, pack: pack@, names: names@, reply },
            ),
    ;
}

impl<T: StoreIo> ImportsLayers for T {
    open spec fn may_import_layers(
        store: &SyncStore,
        pack: &Vec<u8>,
        names: &Vec<LayerName>,
        reply: Result<(), IoError>,
    ) -> bool {
        call_ensures(<T as StoreIo>::import_layers, (store, pack, names), reply)
    }

    fn import_layers(
        journal: &mut Journal,
        store: &SyncStore,
        pack: &Vec<u8>,
        names: &Vec<LayerName>,
    ) -> (reply: Result<(), IoError>) {
        let reply = <T as StoreIo>::import_layers(store, pack, names);
        journal.enter(Ghost(StoreCall::ImportLayers { store: *store, pack: pack@, names: names@, reply }));
        reply
    }
}

/// As `pack_import`, with a journal.
pub fn pack_import_in<S: ImportsLayers>(
    journal: &mut Journal,
    store: &ReadStore,
    ids: &Vec<String>,
    pack: &Vec<u8>,
) -> (done: Result<(), PrologError>)
    requires
        crate::pack::can_be_read(ids@),
    ensures
        if crate::pack::are_names(ids@, ids@.len() as int) {
            exists|names: Vec<LayerName>, reply: Result<(), IoError>| #[trigger]
                S::may_import_layers(&store.store(), pack, &names, reply) && crate::pack::names_of(ids@, names@) && done
                    == crate::prolog::or_die(reply) && final(journal).calls() == old(journal).calls().push(
                    StoreCall::ImportLayers { store: store.store(), pack: pack@, names: names@, reply },
                )
        } else {
            (done matches Err(e) && crate::pack::first_bad_id(ids@, e)) && final(journal).calls()
                == old(journal).calls()
        },
{
    match layer_names(ids) {
        Ok(names) => {
            let reply = S::import_layers(journal, store.deref(), pack, &names);
            assert(S::may_import_layers(&store.store(), pack, &names, reply));
            try_or_die(reply)
        },
        Err(e) => Err(e),
    }
}

} // verus!
