//! Host side of a sandbox message-passing bridge, and the admission
//! controller that runs sandboxed jobs on a shared pool of slots.
pub mod arena;
pub mod bridge;
pub mod consts;
pub mod handles;
pub mod host;
pub mod jobs;
pub mod memory;
pub mod spawn;
