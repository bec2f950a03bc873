//! A thin, verified bridge around the rav1e AV1 encoder.
//!
//! The crate turns a loosely-typed configuration record into a fully
//! resolved strict configuration (`config`), creates one encoder context
//! per configuration, and drives the frame-in/packet-out protocol against
//! that context, including end-of-stream draining (`session`). All calls
//! into the encoder itself go through the narrow trusted layer in `engine`.

pub mod config;
pub mod engine;
pub mod session;
