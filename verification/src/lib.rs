//! Lifecycle coordination for a media-processing pipeline.
//!
//! The pipeline itself (capture, demux, encode, mux, write) is an opaque
//! external collaborator; this crate holds the logic that drives it to a
//! clean termination: the bus dispatcher, which reduces the pipeline's
//! status events to the few commands the coordinator reacts to, and the
//! lifecycle coordinator, which arbitrates between a natural end-of-stream
//! and an operator's cancellation so that teardown happens at most once.

pub mod coordinator;
pub mod dispatcher;
