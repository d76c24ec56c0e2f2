//! Registration requests as the client writes them, and what they ask of
//! the pipeline.

use crate::pipeline::encoder;
use crate::pipeline::output;
use crate::pipeline::structs::Codec;
use crate::types::InputId;
use crate::types::OutputId;
use crate::types::RendererId;
use crate::types::Resolution;
use vstd::prelude::*;

verus! {

/// A shader to register. Only the identifier concerns the pipeline; the
/// rest goes to the renderer as it came.
#[derive(Debug)]
pub struct ShaderSpec {
    pub shader_id: RendererId,
    pub definition: String,
}

/// A web renderer instance to register.
#[derive(Debug)]
pub struct WebRendererSpec {
    pub instance_id: RendererId,
    pub definition: String,
}

/// An image to register.
#[derive(Debug)]
pub struct ImageSpec {
    pub image_id: RendererId,
    pub definition: String,
}

/// A request to register something.
#[derive(Debug)]
pub enum RegisterRequest {
    InputStream(RegisterInputRequest),
    OutputStream(RegisterOutputRequest),
    Shader(ShaderSpec),
    WebRenderer(WebRendererSpec),
    Image(ImageSpec),
}

/// A request to register an input stream.
#[derive(Debug)]
pub struct RegisterInputRequest {
    pub input_id: InputId,
    pub port: Port,
}

/// A port as the client writes it: a number, or a range as `START:END`.
#[derive(Debug, PartialEq, Eq)]
pub enum Port {
    String(String),
    U16(u16),
}

/// A request to register an output stream.
#[derive(Debug)]
pub struct RegisterOutputRequest {
    pub output_id: OutputId,
    pub port: u16,
    pub ip: String,
    pub resolution: Resolution,
    pub encoder_settings: EncoderSettings,
}

/// How the client wants an output encoded.
#[derive(Debug, Clone, Copy, PartialEq, Eq, Structural)]
pub struct EncoderSettings {
    pub preset: Option<EncoderPreset>,
}

/// Speed against quality, as the client names it.
#[derive(Debug, Clone, Copy, PartialEq, Eq, Structural)]
pub enum EncoderPreset {
    Ultrafast,
    Superfast,
    Veryfast,
    Faster,
    Fast,
    Medium,
    Slow,
    Slower,
    Veryslow,
    Placebo,
}

impl EncoderPreset {
    /// The encoder's preset of the same name.
    pub open spec fn spec_encoder_preset(self) -> encoder::EncoderPreset {
        match self {
            EncoderPreset::Ultrafast => encoder::EncoderPreset::Ultrafast,
            EncoderPreset::Superfast => encoder::EncoderPreset::Superfast,
            EncoderPreset::Veryfast => encoder::EncoderPreset::Veryfast,
            EncoderPreset::Faster => encoder::EncoderPreset::Faster,
            EncoderPreset::Fast => encoder::EncoderPreset::Fast,
            EncoderPreset::Medium => encoder::EncoderPreset::Medium,
            EncoderPreset::Slow => encoder::EncoderPreset::Slow,
            EncoderPreset::Slower => encoder::EncoderPreset::Slower,
            EncoderPreset::Veryslow => encoder::EncoderPreset::Veryslow,
            EncoderPreset::Placebo => encoder::EncoderPreset::Placebo,
        }
    }

    #[verifier::when_used_as_spec(spec_encoder_preset)]
    pub fn encoder_preset(self) -> (preset: encoder::EncoderPreset)
        ensures
            preset == self.spec_encoder_preset(),
    {
        match self {
            EncoderPreset::Ultrafast => encoder::EncoderPreset::Ultrafast,
            EncoderPreset::Superfast => encoder::EncoderPreset::Superfast,
            EncoderPreset::Veryfast => encoder::EncoderPreset::Veryfast,
            EncoderPreset::Faster => encoder::EncoderPreset::Faster,
            EncoderPreset::Fast => encoder::EncoderPreset::Fast,
            EncoderPreset::Medium => encoder::EncoderPreset::Medium,
            EncoderPreset::Slow => encoder::EncoderPreset::Slow,
            EncoderPreset::Slower => encoder::EncoderPreset::Slower,
            EncoderPreset::Veryslow => encoder::EncoderPreset::Veryslow,
            EncoderPreset::Placebo => encoder::EncoderPreset::Placebo,
        }
    }
}

impl EncoderSettings {
    /// The preset that the settings ask for; medium where they name none.
    pub open spec fn spec_preset_or_default(self) -> EncoderPreset {
        match self.preset {
            Some(preset) => preset,
            None => EncoderPreset::Medium,
        }
    }

    #[verifier::when_used_as_spec(spec_preset_or_default)]
    pub fn preset_or_default(self) -> (preset: EncoderPreset)
        ensures
            preset == self.spec_preset_or_default(),
    {
        match self.preset {
            Some(preset) => preset,
            None => EncoderPreset::Medium,
        }
    }
}

impl Clone for RegisterOutputRequest {
    fn clone(&self) -> (copy: Self)
        ensures
            copy == *self,
    {
        RegisterOutputRequest {
            output_id: self.output_id.clone(),
            port: self.port,
            ip: self.ip.clone(),
            resolution: self.resolution,
            encoder_settings: self.encoder_settings,
        }
    }
}

/// How the output of `request` is to be encoded: H264 at the requested size,
/// with the requested preset or medium.
pub open spec fn encoder_options_of(request: RegisterOutputRequest) -> encoder::EncoderOptions {
    encoder::EncoderOptions::H264(
        encoder::H264Options {
            preset: request.encoder_settings.spec_preset_or_default().spec_encoder_preset(),
            resolution: request.resolution,
            output_id: request.output_id,
        },
    )
}

/// Where the output of `request` is to be sent: H264 over RTP to the
/// requested address and port.
pub open spec fn output_options_of(request: RegisterOutputRequest) -> output::OutputOptions {
    output::OutputOptions::Rtp(
        output::RtpSenderOptions {
            codec: Codec::H264,
            ip: request.ip,
            port: request.port,
            output_id: request.output_id,
        },
    )
}

impl From<RegisterOutputRequest> for encoder::EncoderOptions {
    /// H264 at the requested size, with the requested preset or medium.
    fn from(request: RegisterOutputRequest) -> (options: Self) {
        encoder::EncoderOptions::H264(
            encoder::H264Options {
                preset: request.encoder_settings.preset_or_default().encoder_preset(),
                resolution: request.resolution,
                output_id: request.output_id,
            },
        )
    }
}

impl vstd::std_specs::convert::FromSpecImpl<RegisterOutputRequest> for encoder::EncoderOptions {
    open spec fn obeys_from_spec() -> bool {
        true
    }

    open spec fn from_spec(request: RegisterOutputRequest) -> Self {
        encoder_options_of(request)
    }
}

impl From<RegisterOutputRequest> for output::OutputOptions {
    /// H264 over RTP to the requested address and port.
    fn from(value: RegisterOutputRequest) -> (options: Self) {
        output::OutputOptions::Rtp(
            output::RtpSenderOptions {
                codec: Codec::H264,
                ip: value.ip,
                port: value.port,
                output_id: value.output_id,
            },
        )
    }
}

impl vstd::std_specs::convert::FromSpecImpl<RegisterOutputRequest> for output::OutputOptions {
    open spec fn obeys_from_spec() -> bool {
        true
    }

    open spec fn from_spec(value: RegisterOutputRequest) -> Self {
        output_options_of(value)
    }
}

} // verus!
