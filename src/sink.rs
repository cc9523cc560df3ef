use vstd::prelude::*;

verus! {

/// std's I/O error, carried through as an opaque value.
#[verifier::external_type_specification]
#[verifier::external_body]
pub struct ExIoError(std::io::Error);

/// The playback capability: one buffer of interleaved stereo 16-bit samples
/// at a time, bracketed by `start` and `stop`.
pub trait Sink {
    /// Begins or resumes output.
    fn start(&mut self) -> std::io::Result<()>;

    /// Halts output without giving up the device.
    fn stop(&mut self) -> std::io::Result<()>;

    /// Plays `data` right after whatever was written before.
    fn write(&mut self, data: &[i16]) -> std::io::Result<()>;
}

/// Relies on std::io::Error::other: an error value for a transport that can no
/// longer take samples.
#[verifier::external_body]
pub(crate) fn transport_gone() -> (r: std::io::Error) {
    std::io::Error::other("the audio transport stopped taking samples")
}

} // verus!
