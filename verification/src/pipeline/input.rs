//! Inputs: where encoded chunks come from.

use crate::types::InputId;
use vstd::prelude::*;

verus! {

/// Why a socket could not be bound, as far as the pipeline cares.
#[derive(Debug)]
pub enum BindFailure {
    /// The address is held by another socket.
    AddrInUse,
    /// Any other failure, with the system's description of it.
    Other(String),
}

impl BindFailure {
    pub open spec fn is_addr_in_use(&self) -> bool {
        *self is AddrInUse
    }
}

/// What an RTP receiver is asked to do.
#[derive(Debug)]
pub struct RtpReceiverOptions {
    pub port: u16,
    pub input_id: InputId,
}

/// How to bring an input up.
#[derive(Debug)]
pub enum InputOptions {
    Rtp(RtpReceiverOptions),
}

impl InputOptions {
    /// The UDP port that the input listens on.
    pub open spec fn port(&self) -> u16 {
        match *self {
            InputOptions::Rtp(options) => options.port,
        }
    }
}

/// A running RTP receiver.
#[derive(Debug, Clone, Copy, PartialEq, Eq, Structural)]
pub struct RtpReceiver {
    pub port: u16,
}

/// A running input.
#[derive(Debug, Clone, Copy, PartialEq, Eq, Structural)]
pub enum Input {
    Rtp(RtpReceiver),
}

impl Input {
    /// The UDP port that the input listens on.
    pub open spec fn spec_port(&self) -> u16 {
        match *self {
            Input::Rtp(receiver) => receiver.port,
        }
    }

    #[verifier::when_used_as_spec(spec_port)]
    pub fn port(&self) -> (port: u16)
        ensures
            port == self.spec_port(),
    {
        match self {
            Input::Rtp(receiver) => receiver.port,
        }
    }
}

/// Why an RTP receiver did not come up.
#[derive(Debug)]
pub enum RtpReceiverError {
    SocketBind(BindFailure),
}

/// Why an input did not come up.
#[derive(Debug)]
pub enum InputInitError {
    Rtp(RtpReceiverError),
}

impl InputInitError {
    /// The input failed because its port is held by another socket.
    pub open spec fn is_addr_in_use(&self) -> bool {
        match *self {
            InputInitError::Rtp(RtpReceiverError::SocketBind(failure)) => failure is AddrInUse,
        }
    }
}

} // verus!
