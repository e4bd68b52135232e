//! The Prolog interface to a store of layered triples.
//!
//! A store holds immutable layers of triples. A layer is read either wholly in
//! memory or lazily, block by block from the storage. This library is what lies
//! between the predicates of the Prolog engine and the store: which read
//! answers which query, how a failed read is reported, and how layers, stores
//! and named graphs hand one another out.
//!
//! The storage itself is reached through [`layer_io`], and layers in memory
//! through the calls in [`stored`]. What a predicate can do to a store is in
//! [`store_access`] and [`changes`]. What reads and predicates mean is stated
//! beside them, and of layers in [`layer_laws`], [`agreement`] and
//! [`recorded_agreement`].
pub mod agreement;
pub mod changes;
pub mod entry;
pub mod error;
pub mod layer;
pub mod layer_io;
pub mod layer_laws;
pub mod name;
pub mod named_graph;
pub mod pack;
pub mod predicates;
pub mod process;
pub mod prolog;
pub mod reads;
pub mod recorded_agreement;
pub mod sinks;
pub mod store;
pub mod store_access;
pub mod stored;
pub mod text;
pub mod transaction;
pub mod triple;
pub mod triple_query;
pub mod value_query;
