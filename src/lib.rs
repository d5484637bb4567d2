//! Batching of colored geometry into indexed-triangle draw calls, with a
//! shared view transform and projection per batch.

pub mod context;
