//! Dropping what is cached of a layer.
use crate::layer_io::{LayerIo, StoreIo};
use crate::name::{string_to_name, LayerName};
use crate::prolog::{PrologError, Raised};
use crate::store::ReadStore;
use crate::store_access::{Journal, StoreCall};
use std::ops::Deref;
use terminus_store::store::sync::SyncStore;
use vstd::prelude::*;

verus! {

/// It is asked for in this module, and nowhere else: what this is can be seen
/// only here.
pub closed spec fn asked_here() -> bool {
    true
}

/// Drops what is cached of a layer.
pub trait DropsCaches: LayerIo {
    /// What may come of it.
    spec fn may_invalidate_layer(store: &SyncStore, name: LayerName, reply: ()) -> bool;

    fn invalidate_layer(journal: &mut Journal, store: &SyncStore, name: LayerName) -> (reply: ())
        requires
            asked_here(),
        ensures
            Self::may_invalidate_layer(store, name, ()),
            final(journal).calls() == old(journal).calls().push(StoreCall::InvalidateLayer { store: *store, name }),
    ;
}

impl<T: StoreIo> DropsCaches for T {
    open spec fn may_invalidate_layer(store: &SyncStore, name: LayerName, reply: ()) -> bool {
        call_ensures(<T as StoreIo>::invalidate_layer, (store, name), reply)
    }

    fn invalidate_layer(journal: &mut Journal, store: &SyncStore, name: LayerName) -> (reply: ()) {
        let reply = <T as StoreIo>::invalidate_layer(store, name);
        journal.enter(Ghost(StoreCall::InvalidateLayer { store: *store, name }));
        reply
    }
}

/// As `invalidate_layer_cache_entry`, with a journal.
pub fn invalidate_layer_cache_entry_in<S: DropsCaches>(
    journal: &mut Journal,
    store: &ReadStore,
    id: &str,
) -> (done: Result<(), PrologError>)
    requires
        crate::name::can_be_cut(id@),
    ensures
        done is Ok <==> crate::name::is_name_text(id@),
        done matches Err(e) ==> crate::store::bad_name(id@, e) && final(journal).calls() == old(journal).calls(),
        done is Ok ==> exists|name: LayerName|
            crate::name::names(id@, name@) && #[trigger] S::may_invalidate_layer(&store.store(), name, ())
                && final(journal).calls() == old(journal).calls().push(
                StoreCall::InvalidateLayer { store: store.store(), name },
            ),
{
    match string_to_name(id) {
        Ok(name) => {
            S::invalidate_layer(journal, store.deref(), name);
            assert(S::may_invalidate_layer(&store.store(), name, ()));
            Ok(())
        },
        Err(e) => Err(PrologError::Exception(Raised::Io(e))),
    }
}

} // verus!
