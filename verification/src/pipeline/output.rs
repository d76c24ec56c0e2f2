//! Outputs: where encoded chunks go.

use crate::pipeline::input::BindFailure;
use crate::pipeline::structs::Codec;
use crate::types::OutputId;
use vstd::prelude::*;

verus! {

/// What an RTP sender is asked to do.
#[derive(Debug)]
pub struct RtpSenderOptions {
    pub codec: Codec,
    pub ip: String,
    pub port: u16,
    pub output_id: OutputId,
}

/// How to bring an output up.
#[derive(Debug)]
pub enum OutputOptions {
    Rtp(RtpSenderOptions),
}

impl OutputOptions {
    /// The address that the output sends to.
    pub open spec fn ip(&self) -> Seq<char> {
        match *self {
            OutputOptions::Rtp(options) => options.ip@,
        }
    }

    /// The UDP port that the output sends to.
    pub open spec fn port(&self) -> u16 {
        match *self {
            OutputOptions::Rtp(options) => options.port,
        }
    }
}

/// A running RTP sender.
#[derive(Debug)]
pub struct RtpSender {
    pub port: u16,
    pub ip: String,
}

/// A running output.
#[derive(Debug)]
pub enum Output {
    Rtp(RtpSender),
}

impl Output {
    /// The address that the output sends to.
    pub open spec fn ip(&self) -> Seq<char> {
        match *self {
            Output::Rtp(sender) => sender.ip@,
        }
    }

    /// The UDP port that the output sends to.
    pub open spec fn spec_port(&self) -> u16 {
        match *self {
            Output::Rtp(sender) => sender.port,
        }
    }

    #[verifier::when_used_as_spec(spec_port)]
    pub fn port(&self) -> (port: u16)
        ensures
            port == self.spec_port(),
    {
        match self {
            Output::Rtp(sender) => sender.port,
        }
    }

    /// Whether the output sends to `ip` and `port`.
    pub fn sends_to(&self, ip: &String, port: u16) -> (same: bool)
        ensures
            same == (self.ip() == ip@ && self.spec_port() == port),
    {
        match self {
            Output::Rtp(sender) => sender.port == port && sender.ip == *ip,
        }
    }
}

impl Clone for Output {
    fn clone(&self) -> (copy: Self)
        ensures
            copy == *self,
    {
        match self {
            Output::Rtp(sender) => Output::Rtp(
                RtpSender { port: sender.port, ip: sender.ip.clone() },
            ),
        }
    }
}

/// Why an RTP sender did not come up.
#[derive(Debug)]
pub enum RtpSenderError {
    SocketBind(BindFailure),
}

/// Why an output did not come up.
#[derive(Debug)]
pub enum OutputInitError {
    Rtp(RtpSenderError),
}

} // verus!
