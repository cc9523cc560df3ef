use vstd::prelude::*;

pub mod bus;
pub mod frame;
pub mod guard;
pub mod pipeline;
pub mod sink;
pub mod transport;

verus! {

/// Frames per second, on every adapter.
pub const SAMPLE_RATE: u32 = 44100;

/// Interleaved channels per frame (left, right).
pub const CHANNELS: u32 = 2;

/// The device the ALSA-style adapter opens.
pub const DEVICE_NAME: &'static str = "default";

} // verus!
