use vstd::prelude::*;

pub mod controller;
pub mod devices;
pub mod engine;
pub mod outcome;

verus! {

/// Size of one chunk moved from source to destination: 4 MiB.
pub const CHUNK_SIZE: usize = 4194304;

/// Bound of the queue that carries progress samples to the observer; when it
/// is full, a sample is dropped rather than stalling the copy.
pub const PROGRESS_CAPACITY: usize = 100;

} // verus!
