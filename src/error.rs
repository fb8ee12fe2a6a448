//! Errors of the library.
use vstd::prelude::*;

verus! {

/// Why no waveform summary was produced.
#[derive(Debug, Clone, Copy, PartialEq, Eq, Structural)]
pub enum SummaryError {
    /// The decoder could not produce a sample stream or its metadata.
    DecodeUnavailable,
    /// The stream reports a sample rate of zero.
    InvalidMetadata,
    /// Auto-resolution was requested with a target width of zero.
    InvalidResolution,
    /// A serialized summary does not match the wire schema.
    MalformedPayload,
}

} // verus!
