//! Host-side embedding of component-model guests.
//!
//! `runtime` assembles an engine, a linker and a store around one capability
//! provider (`NestedView`); `table` gives host code handle-based access to the
//! values that guests refer to, with the liveness of each handle tracked in
//! its contracts. `outside` declares the engine's types and what is relied on
//! of them.

pub mod outside;
pub mod runtime;
pub mod table;
