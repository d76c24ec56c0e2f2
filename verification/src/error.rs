//! The errors of the pipeline and of the request dispatcher.

use crate::pipeline::decoder::DecoderInitError;
use crate::pipeline::encoder::EncoderInitError;
use crate::pipeline::input::BindFailure;
use crate::pipeline::input::InputInitError;
use crate::pipeline::input::RtpReceiverError;
use crate::pipeline::output::OutputInitError;
use crate::pipeline::output::RtpSenderError;
use crate::types::InputId;
use crate::types::OutputId;
use vstd::prelude::*;

verus! {

/// Why an input was not registered.
#[derive(Debug)]
pub enum RegisterInputError {
    /// The identifier is taken.
    AlreadyRegistered(InputId),
    /// The transport did not come up.
    InputError(InputId, InputInitError),
    /// The decoder did not come up.
    DecoderError(InputId, DecoderInitError),
}

/// Why an output was not registered.
#[derive(Debug)]
pub enum RegisterOutputError {
    /// The identifier is taken.
    AlreadyRegistered(OutputId),
    /// The width or the height is odd.
    UnsupportedResolution(OutputId),
    /// The encoder did not come up.
    EncoderError(OutputId, EncoderInitError),
    /// The transport did not come up.
    OutputError(OutputId, OutputInitError),
}

/// Why an input was not unregistered.
#[derive(Debug)]
pub enum UnregisterInputError {
    NotFound(InputId),
}

/// Why an output was not unregistered.
#[derive(Debug)]
pub enum UnregisterOutputError {
    NotFound(OutputId),
}

/// Why a scene update was not applied.
#[derive(Debug)]
pub enum UpdateSceneError {
    /// A scene names an output that is not registered.
    OutputNotRegistered(OutputId),
    /// The renderer refused the scenes, in its own words.
    InvalidScene(String),
}

/// Error code of a port that is taken.
pub const PORT_ALREADY_IN_USE_ERROR_CODE: &'static str = "PORT_ALREADY_IN_USE";

/// Error code of an output address and port that are taken.
pub const PORT_AND_IP_ALREADY_IN_USE_ERROR_CODE: &'static str = "PORT_AND_IP_ALREADY_IN_USE";

/// Error code of a deferred query that was not answered in time.
pub const QUERY_TIMEOUT_ERROR_CODE: &'static str = "QUERY_TIMEOUT";

/// Error code of a failure on the server's side.
pub const INTERNAL_SERVER_ERROR_CODE: &'static str = "INTERNAL_SERVER_ERROR";

/// Error code of a request that could not be read.
pub const MALFORMED_REQUEST_ERROR_CODE: &'static str = "MALFORMED_REQUEST";

pub const INPUT_STREAM_ALREADY_REGISTERED: &'static str = "INPUT_STREAM_ALREADY_REGISTERED";

pub const INPUT_STREAM_INPUT_ERROR: &'static str = "INPUT_STREAM_INPUT_ERROR";

pub const INPUT_STREAM_DECODER_ERROR: &'static str = "INPUT_STREAM_DECODER_ERROR";

pub const INPUT_STREAM_NOT_FOUND: &'static str = "INPUT_STREAM_NOT_FOUND";

pub const OUTPUT_STREAM_ALREADY_REGISTERED: &'static str = "OUTPUT_STREAM_ALREADY_REGISTERED";

pub const OUTPUT_STREAM_UNSUPPORTED_RESOLUTION: &'static str = "OUTPUT_STREAM_UNSUPPORTED_RESOLUTION";

pub const OUTPUT_STREAM_ENCODER_ERROR: &'static str = "OUTPUT_STREAM_ENCODER_ERROR";

pub const OUTPUT_STREAM_OUTPUT_ERROR: &'static str = "OUTPUT_STREAM_OUTPUT_ERROR";

pub const OUTPUT_STREAM_NOT_FOUND: &'static str = "OUTPUT_STREAM_NOT_FOUND";

pub const SCENE_OUTPUT_NOT_REGISTERED: &'static str = "SCENE_OUTPUT_NOT_REGISTERED";

pub const SCENE_INVALID: &'static str = "SCENE_INVALID";

/// HTTP status of a request that the client got wrong.
pub const STATUS_BAD_REQUEST: u16 = 400;

/// HTTP status of a request for something that is not there.
pub const STATUS_NOT_FOUND: u16 = 404;

/// HTTP status of a query that timed out.
pub const STATUS_REQUEST_TIMEOUT: u16 = 408;

/// HTTP status of a failure on the server's side.
pub const STATUS_INTERNAL_SERVER_ERROR: u16 = 500;

/// An error as the client is told of it.
#[derive(Debug)]
pub struct ApiError {
    pub error_code: &'static str,
    pub message: String,
    pub stack: Vec<String>,
    pub http_status_code: u16,
}

impl ApiError {
    /// The code and the status of the error.
    pub open spec fn is(&self, error_code: &str, http_status_code: u16) -> bool {
        self.error_code@ == error_code@ && self.http_status_code == http_status_code
    }

    /// The message of the error, and its stack: the message, and below it
    /// the cause where there is one.
    pub open spec fn tells(&self, message: Seq<char>, cause: Option<Seq<char>>) -> bool {
        &&& self.message@ == message
        &&& match cause {
            Some(cause) => self.stack@.len() == 2 && self.stack@[0]@ == message && self.stack@[1]@
                == cause,
            None => self.stack@.len() == 1 && self.stack@[0]@ == message,
        }
    }

    /// An error whose stack holds its message and nothing else.
    pub fn new(error_code: &'static str, message: String, http_status_code: u16) -> (error: Self)
        ensures
            error.error_code == error_code,
            error.message == message,
            error.stack@ == seq![message],
            error.http_status_code == http_status_code,
            error.tells(message@, None),
    {
        let mut stack: Vec<String> = Vec::new();
        stack.push(message.clone());
        ApiError { error_code, message, stack, http_status_code }
    }

    /// An error with `cause` below its message on the stack.
    pub fn caused(
        error_code: &'static str,
        message: String,
        cause: String,
        http_status_code: u16,
    ) -> (error: Self)
        ensures
            error.error_code == error_code,
            error.message == message,
            error.stack@ == seq![message, cause],
            error.http_status_code == http_status_code,
            error.tells(message@, Some(cause@)),
    {
        let mut stack: Vec<String> = Vec::new();
        stack.push(message.clone());
        stack.push(cause);
        ApiError { error_code, message, stack, http_status_code }
    }

    /// The error of a request that could not be read, with the parser's
    /// description of what is wrong.
    pub fn malformed_request(description: String) -> (error: Self)
        ensures
            error.is(MALFORMED_REQUEST_ERROR_CODE, STATUS_BAD_REQUEST),
            error.message == description,
            error.stack@ == seq![description],
            error.tells(description@, None),
    {
        ApiError::new(MALFORMED_REQUEST_ERROR_CODE, description, STATUS_BAD_REQUEST)
    }
}

/// `text` between double quotes, after `before` and followed by `after`.
pub open spec fn quoted(before: Seq<char>, text: Seq<char>, after: Seq<char>) -> Seq<char> {
    before + text + after
}

fn compose(before: &str, text: &String, after: &str) -> (sentence: String)
    ensures
        sentence@ == quoted(before@, text@, after@),
{
    String::from_str(before).concat(text.as_str()).concat(after)
}

impl BindFailure {
    /// The failure as a sentence.
    pub open spec fn spec_message(&self) -> Seq<char> {
        match *self {
            BindFailure::AddrInUse => "Address already in use"@,
            BindFailure::Other(description) => description@,
        }
    }

    /// Writes [`BindFailure::spec_message`].
    pub fn message(&self) -> (text: String)
        ensures
            text@ == self.spec_message(),
    {
        match self {
            BindFailure::AddrInUse => String::from_str("Address already in use"),
            BindFailure::Other(description) => description.clone(),
        }
    }
}

impl InputInitError {
    /// Decides [`InputInitError::is_addr_in_use`].
    pub fn check_addr_in_use(&self) -> (in_use: bool)
        ensures
            in_use == self.is_addr_in_use(),
    {
        match self {
            InputInitError::Rtp(RtpReceiverError::SocketBind(BindFailure::AddrInUse)) => true,
            InputInitError::Rtp(RtpReceiverError::SocketBind(BindFailure::Other(_))) => false,
        }
    }

    /// The error as a sentence.
    pub open spec fn spec_message(&self) -> Seq<char> {
        match *self {
            InputInitError::Rtp(RtpReceiverError::SocketBind(failure)) =>
                "Error while binding the socket: "@ + failure.spec_message(),
        }
    }

    /// Writes [`InputInitError::spec_message`].
    pub fn message(&self) -> (text: String)
        ensures
            text@ == self.spec_message(),
    {
        match self {
            InputInitError::Rtp(RtpReceiverError::SocketBind(failure)) => String::from_str(
                "Error while binding the socket: ",
            ).concat(failure.message().as_str()),
        }
    }
}

impl OutputInitError {
    /// The error as a sentence.
    pub open spec fn spec_message(&self) -> Seq<char> {
        match *self {
            OutputInitError::Rtp(RtpSenderError::SocketBind(failure)) =>
                "Error while binding the socket: "@ + failure.spec_message(),
        }
    }

    /// Writes [`OutputInitError::spec_message`].
    pub fn message(&self) -> (text: String)
        ensures
            text@ == self.spec_message(),
    {
        match self {
            OutputInitError::Rtp(RtpSenderError::SocketBind(failure)) => String::from_str(
                "Error while binding the socket: ",
            ).concat(failure.message().as_str()),
        }
    }
}

impl RegisterInputError {
    /// The code under which the client is told of the error.
    pub open spec fn error_code(&self) -> &'static str {
        match *self {
            RegisterInputError::AlreadyRegistered(_) => INPUT_STREAM_ALREADY_REGISTERED,
            RegisterInputError::InputError(_, _) => INPUT_STREAM_INPUT_ERROR,
            RegisterInputError::DecoderError(_, _) => INPUT_STREAM_DECODER_ERROR,
        }
    }

    /// The status under which the client is told of the error: the client's
    /// fault for a taken identifier, the server's for the rest.
    pub open spec fn http_status_code(&self) -> u16 {
        match *self {
            RegisterInputError::AlreadyRegistered(_) => STATUS_BAD_REQUEST,
            RegisterInputError::InputError(_, _) => STATUS_INTERNAL_SERVER_ERROR,
            RegisterInputError::DecoderError(_, _) => STATUS_INTERNAL_SERVER_ERROR,
        }
    }

    /// The transport failed because its port is held by another socket.
    pub open spec fn is_addr_in_use(&self) -> bool {
        match *self {
            RegisterInputError::InputError(_, error) => error.is_addr_in_use(),
            _ => false,
        }
    }

    /// The error as a sentence.
    pub open spec fn message(&self) -> Seq<char> {
        match *self {
            RegisterInputError::AlreadyRegistered(id) => quoted(
                "Failed to register input stream. Stream \""@,
                id@,
                "\" is already registered."@,
            ),
            RegisterInputError::InputError(id, _) => quoted(
                "Input initialization error while registering input for stream \""@,
                id@,
                "\"."@,
            ),
            RegisterInputError::DecoderError(id, _) => quoted(
                "Decoder initialization error while registering input for stream \""@,
                id@,
                "\"."@,
            ),
        }
    }

    /// What lies behind the error, as a sentence, where something does.
    pub open spec fn cause(&self) -> Option<Seq<char>> {
        match *self {
            RegisterInputError::AlreadyRegistered(_) => None,
            RegisterInputError::InputError(_, cause) => Some(cause.spec_message()),
            RegisterInputError::DecoderError(_, cause) => Some(cause.reason@),
        }
    }

    /// The error as the client is told of it.
    pub fn into_api_error(self) -> (error: ApiError)
        ensures
            error.is(self.error_code(), self.http_status_code()),
            error.tells(self.message(), self.cause()),
    {
        match self {
            RegisterInputError::AlreadyRegistered(id) => ApiError::new(
                INPUT_STREAM_ALREADY_REGISTERED,
                compose(
                    "Failed to register input stream. Stream \"",
                    &id.0,
                    "\" is already registered.",
                ),
                STATUS_BAD_REQUEST,
            ),
            RegisterInputError::InputError(id, cause) => ApiError::caused(
                INPUT_STREAM_INPUT_ERROR,
                compose(
                    "Input initialization error while registering input for stream \"",
                    &id.0,
                    "\".",
                ),
                cause.message(),
                STATUS_INTERNAL_SERVER_ERROR,
            ),
            RegisterInputError::DecoderError(id, cause) => ApiError::caused(
                INPUT_STREAM_DECODER_ERROR,
                compose(
                    "Decoder initialization error while registering input for stream \"",
                    &id.0,
                    "\".",
                ),
                cause.reason,
                STATUS_INTERNAL_SERVER_ERROR,
            ),
        }
    }
}

impl RegisterOutputError {
    /// The code under which the client is told of the error.
    pub open spec fn error_code(&self) -> &'static str {
        match *self {
            RegisterOutputError::AlreadyRegistered(_) => OUTPUT_STREAM_ALREADY_REGISTERED,
            RegisterOutputError::UnsupportedResolution(_) => OUTPUT_STREAM_UNSUPPORTED_RESOLUTION,
            RegisterOutputError::EncoderError(_, _) => OUTPUT_STREAM_ENCODER_ERROR,
            RegisterOutputError::OutputError(_, _) => OUTPUT_STREAM_OUTPUT_ERROR,
        }
    }

    /// The status under which the client is told of the error: the client's
    /// fault for a taken identifier and an odd size, the server's for the
    /// rest.
    pub open spec fn http_status_code(&self) -> u16 {
        match *self {
            RegisterOutputError::AlreadyRegistered(_) => STATUS_BAD_REQUEST,
            RegisterOutputError::UnsupportedResolution(_) => STATUS_BAD_REQUEST,
            RegisterOutputError::EncoderError(_, _) => STATUS_INTERNAL_SERVER_ERROR,
            RegisterOutputError::OutputError(_, _) => STATUS_INTERNAL_SERVER_ERROR,
        }
    }

    /// The error as a sentence.
    pub open spec fn message(&self) -> Seq<char> {
        match *self {
            RegisterOutputError::AlreadyRegistered(id) => quoted(
                "Failed to register output stream. Stream \""@,
                id@,
                "\" is already registered."@,
            ),
            RegisterOutputError::UnsupportedResolution(id) => quoted(
                "Failed to register output stream \""@,
                id@,
                "\". Resolution in each dimension has to be divisible by 2."@,
            ),
            RegisterOutputError::EncoderError(id, _) => quoted(
                "Encoder error while registering output stream for stream \""@,
                id@,
                "\"."@,
            ),
            RegisterOutputError::OutputError(id, _) => quoted(
                "Output initialization error while registering output for stream \""@,
                id@,
                "\"."@,
            ),
        }
    }

    /// What lies behind the error, as a sentence, where something does.
    pub open spec fn cause(&self) -> Option<Seq<char>> {
        match *self {
            RegisterOutputError::AlreadyRegistered(_) => None,
            RegisterOutputError::UnsupportedResolution(_) => None,
            RegisterOutputError::EncoderError(_, cause) => Some(cause.reason@),
            RegisterOutputError::OutputError(_, cause) => Some(cause.spec_message()),
        }
    }

    /// The error as the client is told of it.
    pub fn into_api_error(self) -> (error: ApiError)
        ensures
            error.is(self.error_code(), self.http_status_code()),
            error.tells(self.message(), self.cause()),
    {
        match self {
            RegisterOutputError::AlreadyRegistered(id) => ApiError::new(
                OUTPUT_STREAM_ALREADY_REGISTERED,
                compose(
                    "Failed to register output stream. Stream \"",
                    &id.0,
                    "\" is already registered.",
                ),
                STATUS_BAD_REQUEST,
            ),
            RegisterOutputError::UnsupportedResolution(id) => ApiError::new(
                OUTPUT_STREAM_UNSUPPORTED_RESOLUTION,
                compose(
                    "Failed to register output stream \"",
                    &id.0,
                    "\". Resolution in each dimension has to be divisible by 2.",
                ),
                STATUS_BAD_REQUEST,
            ),
            RegisterOutputError::EncoderError(id, cause) => ApiError::caused(
                OUTPUT_STREAM_ENCODER_ERROR,
                compose("Encoder error while registering output stream for stream \"", &id.0, "\"."),
                cause.reason,
                STATUS_INTERNAL_SERVER_ERROR,
            ),
            RegisterOutputError::OutputError(id, cause) => ApiError::caused(
                OUTPUT_STREAM_OUTPUT_ERROR,
                compose(
                    "Output initialization error while registering output for stream \"",
                    &id.0,
                    "\".",
                ),
                cause.message(),
                STATUS_INTERNAL_SERVER_ERROR,
            ),
        }
    }
}

impl UnregisterInputError {
    /// The error as a sentence.
    pub open spec fn message(&self) -> Seq<char> {
        match *self {
            UnregisterInputError::NotFound(id) => quoted(
                "Failed to unregister input stream. Stream \""@,
                id@,
                "\" does not exist."@,
            ),
        }
    }

    /// The error as the client is told of it: not found.
    pub fn into_api_error(self) -> (error: ApiError)
        ensures
            error.is(INPUT_STREAM_NOT_FOUND, STATUS_NOT_FOUND),
            error.tells(self.message(), None),
    {
        match self {
            UnregisterInputError::NotFound(id) => ApiError::new(
                INPUT_STREAM_NOT_FOUND,
                compose(
                    "Failed to unregister input stream. Stream \"",
                    &id.0,
                    "\" does not exist.",
                ),
                STATUS_NOT_FOUND,
            ),
        }
    }
}

impl UnregisterOutputError {
    /// The error as a sentence.
    pub open spec fn message(&self) -> Seq<char> {
        match *self {
            UnregisterOutputError::NotFound(id) => quoted(
                "Failed to unregister output stream. Stream \""@,
                id@,
                "\" does not exist."@,
            ),
        }
    }

    /// The error as the client is told of it: not found.
    pub fn into_api_error(self) -> (error: ApiError)
        ensures
            error.is(OUTPUT_STREAM_NOT_FOUND, STATUS_NOT_FOUND),
            error.tells(self.message(), None),
    {
        match self {
            UnregisterOutputError::NotFound(id) => ApiError::new(
                OUTPUT_STREAM_NOT_FOUND,
                compose(
                    "Failed to unregister output stream. Stream \"",
                    &id.0,
                    "\" does not exist.",
                ),
                STATUS_NOT_FOUND,
            ),
        }
    }
}

impl UpdateSceneError {
    /// The code under which the client is told of the error.
    pub open spec fn error_code(&self) -> &'static str {
        match *self {
            UpdateSceneError::OutputNotRegistered(_) => SCENE_OUTPUT_NOT_REGISTERED,
            UpdateSceneError::InvalidScene(_) => SCENE_INVALID,
        }
    }

    /// The error as a sentence.
    pub open spec fn message(&self) -> Seq<char> {
        match *self {
            UpdateSceneError::OutputNotRegistered(id) => quoted(
                "Output stream \""@,
                id@,
                "\" is not registered."@,
            ),
            UpdateSceneError::InvalidScene(reason) => reason@,
        }
    }

    /// The error as the client is told of it: the client's fault either way.
    pub fn into_api_error(self) -> (error: ApiError)
        ensures
            error.is(self.error_code(), STATUS_BAD_REQUEST),
            error.tells(self.message(), None),
    {
        match self {
            UpdateSceneError::OutputNotRegistered(id) => ApiError::new(
                SCENE_OUTPUT_NOT_REGISTERED,
                compose("Output stream \"", &id.0, "\" is not registered."),
                STATUS_BAD_REQUEST,
            ),
            UpdateSceneError::InvalidScene(reason) => ApiError::new(
                SCENE_INVALID,
                reason,
                STATUS_BAD_REQUEST,
            ),
        }
    }
}

} // verus!
