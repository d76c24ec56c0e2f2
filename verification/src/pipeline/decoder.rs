//! Decoders: they turn the chunks of one input into frames.

use vstd::prelude::*;

verus! {

/// How to decode an input.
#[derive(Debug, Clone, Copy, PartialEq, Eq, Structural)]
pub enum DecoderOptions {
    H264,
}

/// A running decoder.
#[derive(Debug, Clone, Copy, PartialEq, Eq, Structural)]
pub struct Decoder {
    pub options: DecoderOptions,
}

/// Why a decoder did not come up, in the codec library's words.
#[derive(Debug)]
pub struct DecoderInitError {
    pub reason: String,
}

} // verus!
