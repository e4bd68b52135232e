//! The changes that can be made to a store, one to a module.
//!
//! A module has what it takes to ask for its change, and the function that
//! decides whether to ask for it. No other module can ask for it, and it can
//! ask for no other.
pub mod set_head;
pub mod force_set_head;
pub mod force_set_head_version;
pub mod create_graph;
pub mod delete_graph;
pub mod import_layers;
pub mod merge_base_layers;
pub mod invalidate_layer;
pub mod spawn_compaction;
