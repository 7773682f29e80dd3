//! Replicated, composable data structures whose mutations are expressed as
//! update values, totally ordered by a relay and applied by every replica.
pub mod update;
pub mod unested;
pub mod umap;
pub mod uvec;
pub mod ustack;
pub mod messages;
pub mod framing;
pub mod relay;
pub mod replica;
pub mod gate;
pub mod proto;
pub mod recursive_structure_wrapper;
