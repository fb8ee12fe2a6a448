//! Reduces a stream of decoded PCM samples to a fixed-shape waveform
//! overview: fixed-size buckets, each summarised by its seeded minimum,
//! seeded maximum and the exact sum of squares behind its RMS energy.

pub mod bucket;
pub mod error;
pub mod summary;
