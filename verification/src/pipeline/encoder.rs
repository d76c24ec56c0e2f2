//! Encoders: they turn the frames of one output into chunks.

use crate::types::OutputId;
use crate::types::Resolution;
use vstd::prelude::*;

verus! {

/// Speed against quality, as the H264 encoder names it.
#[derive(Debug, Clone, Copy, PartialEq, Eq, Structural)]
pub enum EncoderPreset {
    Ultrafast,
    Superfast,
    Veryfast,
    Faster,
    Fast,
    Medium,
    Slow,
    Slower,
    Veryslow,
    Placebo,
}

/// What the H264 encoder is asked to do.
#[derive(Debug)]
pub struct H264Options {
    pub preset: EncoderPreset,
    pub resolution: Resolution,
    pub output_id: OutputId,
}

/// How to encode an output.
#[derive(Debug)]
pub enum EncoderOptions {
    H264(H264Options),
}

impl EncoderOptions {
    /// The size of the pictures to encode.
    pub open spec fn spec_resolution(&self) -> Resolution {
        match *self {
            EncoderOptions::H264(options) => options.resolution,
        }
    }

    /// The preset to encode with.
    pub open spec fn spec_preset(&self) -> EncoderPreset {
        match *self {
            EncoderOptions::H264(options) => options.preset,
        }
    }

    #[verifier::when_used_as_spec(spec_resolution)]
    pub fn resolution(&self) -> (resolution: Resolution)
        ensures
            resolution == self.spec_resolution(),
    {
        match self {
            EncoderOptions::H264(options) => options.resolution,
        }
    }

    #[verifier::when_used_as_spec(spec_preset)]
    pub fn preset(&self) -> (preset: EncoderPreset)
        ensures
            preset == self.spec_preset(),
    {
        match self {
            EncoderOptions::H264(options) => options.preset,
        }
    }
}

/// A running encoder.
#[derive(Debug, Clone, Copy, PartialEq, Eq, Structural)]
pub struct Encoder {
    pub preset: EncoderPreset,
    pub resolution: Resolution,
}

impl Encoder {
    /// The size of the pictures that the encoder takes.
    pub fn resolution(&self) -> (resolution: Resolution)
        ensures
            resolution == self.resolution,
    {
        self.resolution
    }
}

/// Why an encoder did not come up, in the codec library's words.
#[derive(Debug)]
pub struct EncoderInitError {
    pub reason: String,
}

} // verus!
