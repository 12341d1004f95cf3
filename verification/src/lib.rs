//! A benchmark core that compares two strategies for sharing read-mostly
//! string data across worker threads: handing out deep copies of pooled
//! strings versus handing out reference-counted shared handles.
//!
//! The library holds the measurable logic: the string pools and their
//! `fetch` operation, the per-worker workload loop, the result aggregation,
//! and the enumeration of the benchmark's parameter sweep. Spawning the
//! worker threads and printing the report are left to the surrounding
//! program.
use vstd::prelude::*;

pub mod classify;
pub mod clock;
pub mod measure;
pub mod rng;
pub mod scratch;
pub mod source;
pub mod sweep;
pub mod workload;

verus! {

/// Longest string length in the sweep, and the per-entry size assumed when
/// sizing a worker's scratch buffer.
pub const STR_SIZE_MAX: usize = 1024;

/// Iterations of the workload loop each worker performs in a full run: 2^20.
pub const ITERATIONS: usize = 1048576;

/// Approximate private memory footprint, in bytes, each worker touches
/// through its scratch buffer: 100 MiB.
pub const LOCAL_SCRATCH_SIZE: usize = 104857600;

} // verus!
