//! What the HTTP server decides: how a handled request is answered, and what
//! becomes of an answer that was deferred.
//!
//! Sockets, JSON and threads are the embedding program's work.

use crate::api::Response;
use crate::api::ResponseHandler;
use crate::error::ApiError;
use crate::error::INTERNAL_SERVER_ERROR_CODE;
use crate::error::QUERY_TIMEOUT_ERROR_CODE;
use crate::error::STATUS_INTERNAL_SERVER_ERROR;
use crate::error::STATUS_REQUEST_TIMEOUT;
use crate::queue::model::ListenerId;
use crate::text::decimal;
use crate::text::push_decimal;
use vstd::prelude::*;

verus! {

/// How long a deferred answer is waited for, in seconds.
pub const DEFERRED_RESPONSE_TIMEOUT_SECONDS: u64 = 60;

/// HTTP status of a successful answer.
pub const STATUS_OK: u16 = 200;

/// What is sent back to the client.
#[derive(Debug)]
pub enum Reply {
    /// The response, as JSON, with status 200.
    Response(Response),
    /// The error's message, stack and code, as JSON, with the error's
    /// status.
    Error(ApiError),
}

impl Reply {
    /// The HTTP status that the reply is sent with.
    pub open spec fn spec_status(&self) -> u16 {
        match *self {
            Reply::Response(_) => STATUS_OK,
            Reply::Error(error) => error.http_status_code,
        }
    }

    #[verifier::when_used_as_spec(spec_status)]
    pub fn status(&self) -> (status: u16)
        ensures
            status == self.spec_status(),
    {
        match self {
            Reply::Response(_) => STATUS_OK,
            Reply::Error(error) => error.http_status_code,
        }
    }
}

/// What the server does with a handled request.
#[derive(Debug)]
pub enum ServerAction {
    /// Send the reply.
    Send(Reply),
    /// Wait, away from the request loop, until the listener fires or the
    /// timeout has passed; then send what [`settle`] says.
    Defer { listener: ListenerId, timeout_seconds: u64 },
}

/// How the wait for a deferred answer ended.
#[derive(Debug)]
pub enum Wait {
    /// The listener fired, with this answer.
    Answered(Result<Response, ApiError>),
    /// The timeout passed first.
    TimedOut,
    /// The listener was dropped without firing.
    Disconnected,
}

/// Decides what to do with a handled request: an error is sent, a response
/// is sent, a plain success is sent as the empty response, and a deferred
/// answer is waited for, for a minute at most.
pub fn answer(handled: Result<ResponseHandler, ApiError>) -> (action: ServerAction)
    ensures
        action == match handled {
            Ok(ResponseHandler::Success) => ServerAction::Send(
                Reply::Response(Response::Success {  }),
            ),
            Ok(ResponseHandler::Response(response)) => ServerAction::Send(
                Reply::Response(response),
            ),
            Ok(ResponseHandler::DeferredResponse(listener)) => ServerAction::Defer {
                listener,
                timeout_seconds: DEFERRED_RESPONSE_TIMEOUT_SECONDS,
            },
            Err(error) => ServerAction::Send(Reply::Error(error)),
        },
{
    match handled {
        Ok(ResponseHandler::Success) => ServerAction::Send(Reply::Response(Response::Success {  })),
        Ok(ResponseHandler::Response(response)) => ServerAction::Send(Reply::Response(response)),
        Ok(ResponseHandler::DeferredResponse(listener)) => ServerAction::Defer {
            listener,
            timeout_seconds: DEFERRED_RESPONSE_TIMEOUT_SECONDS,
        },
        Err(error) => ServerAction::Send(Reply::Error(error)),
    }
}

/// Decides what is sent once the wait for a deferred answer has ended: the
/// answer itself, a query timeout, or an internal error where the listener
/// went away.
pub fn settle(wait: Wait) -> (reply: Reply)
    ensures
        match wait {
            Wait::Answered(Ok(response)) => reply == Reply::Response(response),
            Wait::Answered(Err(error)) => reply == Reply::Error(error),
            Wait::TimedOut => reply matches Reply::Error(error) && error.is(
                QUERY_TIMEOUT_ERROR_CODE,
                STATUS_REQUEST_TIMEOUT,
            ) && error.tells("query timed out"@, None),
            Wait::Disconnected => reply matches Reply::Error(error) && error.is(
                INTERNAL_SERVER_ERROR_CODE,
                STATUS_INTERNAL_SERVER_ERROR,
            ) && error.tells("Internal Server Error"@, None),
        },
{
    match wait {
        Wait::Answered(Ok(response)) => Reply::Response(response),
        Wait::Answered(Err(error)) => Reply::Error(error),
        Wait::TimedOut => Reply::Error(
            ApiError::new(
                QUERY_TIMEOUT_ERROR_CODE,
                String::from_str("query timed out"),
                STATUS_REQUEST_TIMEOUT,
            ),
        ),
        Wait::Disconnected => Reply::Error(
            ApiError::new(
                INTERNAL_SERVER_ERROR_CODE,
                String::from_str("Internal Server Error"),
                STATUS_INTERNAL_SERVER_ERROR,
            ),
        ),
    }
}

/// What the operator is told when the API port is held by another socket.
pub open spec fn port_in_use_hint(port: u16) -> Seq<char> {
    "Port "@ + decimal(port as nat)
        + " is already used. Stop using it or specify port using LIVE_COMPOSITOR_API_PORT environment variable."@
}

/// Writes [`port_in_use_hint`].
pub fn write_port_in_use_hint(port: u16) -> (hint: String)
    ensures
        hint@ == port_in_use_hint(port),
{
    let mut hint = String::from_str("Port ");
    push_decimal(&mut hint, port as u64);
    hint.append(
        " is already used. Stop using it or specify port using LIVE_COMPOSITOR_API_PORT environment variable.",
    );
    hint
}

} // verus!
