//! Measures how many bytes an input would occupy after gzip compression,
//! without keeping the compressed output: bytes are streamed through a
//! counting reader, a gzip encoder, and a counting writer that discards
//! everything but the count.

pub mod counters;
pub mod gzip;
pub mod pipeline;
pub mod report;
