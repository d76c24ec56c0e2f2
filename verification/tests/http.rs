use video_compositor::api::Response;
use video_compositor::api::ResponseHandler;
use video_compositor::error::ApiError;
use video_compositor::http::answer;
use video_compositor::http::settle;
use video_compositor::http::write_port_in_use_hint;
use video_compositor::http::Reply;
use video_compositor::http::ServerAction;
use video_compositor::http::Wait;
use video_compositor::http::DEFERRED_RESPONSE_TIMEOUT_SECONDS;
use video_compositor::queue::model::ListenerId;

#[test]
fn success_is_answered_with_the_empty_response() {
    match answer(Ok(ResponseHandler::Success)) {
        ServerAction::Send(reply) => {
            assert_eq!(reply.status(), 200);
            assert!(matches!(reply, Reply::Response(Response::Success {})));
        }
        other => panic!("expected a reply, got {other:?}"),
    }
}

#[test]
fn response_is_sent_as_it_is() {
    match answer(Ok(ResponseHandler::Response(Response::RegisteredPort(5002)))) {
        ServerAction::Send(reply) => {
            assert_eq!(reply.status(), 200);
            assert!(matches!(reply, Reply::Response(Response::RegisteredPort(5002))));
        }
        other => panic!("expected a reply, got {other:?}"),
    }
}

#[test]
fn error_is_sent_with_its_status() {
    let error = ApiError::new("SOME_CODE", "went wrong".to_string(), 404);
    match answer(Err(error)) {
        ServerAction::Send(reply) => {
            assert_eq!(reply.status(), 404);
            match reply {
                Reply::Error(error) => {
                    assert_eq!(error.error_code, "SOME_CODE");
                    assert_eq!(error.message, "went wrong");
                    assert_eq!(error.stack, vec!["went wrong".to_string()]);
                }
                other => panic!("expected an error, got {other:?}"),
            }
        }
        other => panic!("expected a reply, got {other:?}"),
    }
}

#[test]
fn deferred_answer_is_waited_for_a_minute() {
    assert_eq!(DEFERRED_RESPONSE_TIMEOUT_SECONDS, 60);
    match answer(Ok(ResponseHandler::DeferredResponse(ListenerId(17)))) {
        ServerAction::Defer { listener, timeout_seconds } => {
            assert_eq!(listener, ListenerId(17));
            assert_eq!(timeout_seconds, 60);
        }
        other => panic!("expected a wait, got {other:?}"),
    }
}

#[test]
fn answered_wait_sends_the_answer() {
    let reply = settle(Wait::Answered(Ok(Response::Success {})));
    assert_eq!(reply.status(), 200);
    assert!(matches!(reply, Reply::Response(Response::Success {})));
    let reply = settle(Wait::Answered(Err(ApiError::new("X", "y".to_string(), 400))));
    assert_eq!(reply.status(), 400);
}

#[test]
fn wait_that_times_out_is_a_query_timeout() {
    match settle(Wait::TimedOut) {
        Reply::Error(error) => {
            assert_eq!(error.error_code, "QUERY_TIMEOUT");
            assert_eq!(error.http_status_code, 408);
            assert_eq!(error.message, "query timed out");
        }
        other => panic!("expected an error, got {other:?}"),
    }
}

#[test]
fn wait_for_a_dropped_listener_is_an_internal_error() {
    match settle(Wait::Disconnected) {
        Reply::Error(error) => {
            assert_eq!(error.error_code, "INTERNAL_SERVER_ERROR");
            assert_eq!(error.http_status_code, 500);
            assert_eq!(error.message, "Internal Server Error");
        }
        other => panic!("expected an error, got {other:?}"),
    }
}

#[test]
fn hint_names_the_port() {
    assert_eq!(
        write_port_in_use_hint(8081),
        "Port 8081 is already used. Stop using it or specify port using LIVE_COMPOSITOR_API_PORT environment variable."
    );
}
