//! Verified core of a live-broadcast media pipeline orchestrator.
//!
//! The library models and verifies the orchestration logic: resolving
//! persisted settings into resolution and codec profiles, building the
//! initial composition graph, splicing the transport encode/packetize
//! subgraph, sequencing the lifecycle state machine, and classifying the
//! asynchronous notifications that media workers report. The surrounding
//! binary owns the actual media engine, file I/O and event loop, and drives
//! this library with plain values.

pub mod graph;
pub mod monitor;
pub mod pipeline;
pub mod settings;
