//! Decoding of columnar record batches from the Arrow inter-process format:
//! the projection sequencer, the per-batch decoding protocol, dictionary
//! resolution and projection planning.

pub mod datatypes;
pub mod dictionary;
pub mod error;
pub mod index_map;
pub mod metadata;
pub mod plan;
pub mod projection;
pub mod record_batch;
