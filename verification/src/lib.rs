//! On-demand shared embedding-model manager.
//!
//! A single heavyweight text-embedding model is constructed lazily, on the
//! first request that finds it absent, and is then reused by every later
//! request. All access to the model — construction as well as inference —
//! happens under exclusive access to one process-wide slot, so no two
//! requests ever run the initializer or the model at the same time.

pub mod engine;
pub mod errors;
pub mod lifecycle;
pub mod slot;
