//! A verified trace-event transport pipeline for instrumenting
//! resource-constrained application code: a severity-filtered callback
//! facade, a process-wide span-identity allocator, a bounded queue feeding a
//! single transport worker with batching, a bounded-latency flush and a
//! one-way fail-safe degrade, and a compact byte-stuffed wire protocol.
pub mod level;
pub mod protocol;
pub mod wire;
pub mod cobs;
pub mod span_id;
pub mod pipeline;
pub mod debug_fmt;
