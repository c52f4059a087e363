//! The generic call's envelope interpretation, fed with bodies as a mocked
//! transport would return them.

use teleapi::api::{execute_outcome, interpret_response, ApiError};

#[test]
fn ok_true_is_success() {
    let r = execute_outcome(Ok("{\"ok\": true}".to_string()));
    assert!(r.is_ok());
}

#[test]
fn ok_false_with_description_carries_it() {
    let r = execute_outcome(Ok(
        "{\"ok\": false, \"description\": \"bad token\"}".to_string()
    ));
    match r {
        Err(ApiError::Remote(m)) => {
            assert_eq!(m, "bad token");
        }
        other => panic!("expected a remote error, got {:?}", other),
    }
}

#[test]
fn ok_false_message_contains_description() {
    let r = execute_outcome(Ok(
        "{\"ok\": false, \"description\": \"bad token\"}".to_string()
    ));
    let err = r.unwrap_err();
    assert!(err.message().contains("bad token"));
}

#[test]
fn ok_false_without_description_uses_placeholder() {
    let r = execute_outcome(Ok("{\"ok\": false}".to_string()));
    match r {
        Err(ApiError::Remote(m)) => assert_eq!(m, "Unknown error"),
        other => panic!("expected a remote error, got {:?}", other),
    }
}

#[test]
fn non_json_body_is_a_decode_error() {
    let r = execute_outcome(Ok("this is not json".to_string()));
    match r {
        Err(ApiError::Decode(_)) => {}
        other => panic!("expected a decode error, got {:?}", other),
    }
}

#[test]
fn missing_ok_field_is_failure_with_placeholder() {
    let r = interpret_response("{\"result\": []}");
    match r {
        Err(ApiError::Remote(m)) => assert_eq!(m, "Unknown error"),
        other => panic!("expected a remote error, got {:?}", other),
    }
}

#[test]
fn non_boolean_ok_counts_as_false() {
    let r = interpret_response("{\"ok\": \"yes\"}");
    match r {
        Err(ApiError::Remote(m)) => assert_eq!(m, "Unknown error"),
        other => panic!("expected a remote error, got {:?}", other),
    }
}

#[test]
fn non_string_description_uses_placeholder() {
    let r = interpret_response("{\"ok\": false, \"description\": 17}");
    match r {
        Err(ApiError::Remote(m)) => assert_eq!(m, "Unknown error"),
        other => panic!("expected a remote error, got {:?}", other),
    }
}

#[test]
fn non_object_body_is_failure_with_placeholder() {
    let r = interpret_response("[1, 2, 3]");
    match r {
        Err(ApiError::Remote(m)) => assert_eq!(m, "Unknown error"),
        other => panic!("expected a remote error, got {:?}", other),
    }
}

#[test]
fn transport_failure_passes_through() {
    let r = execute_outcome(Err("connection refused".to_string()));
    match r {
        Err(ApiError::Transport(m)) => assert_eq!(m, "connection refused"),
        other => panic!("expected a transport error, got {:?}", other),
    }
}

#[test]
fn error_messages_name_their_kind() {
    assert_eq!(
        ApiError::Transport("x".to_string()).message(),
        "transport error: x"
    );
    assert_eq!(ApiError::Decode("y".to_string()).message(), "decode error: y");
    assert_eq!(
        ApiError::Remote("z".to_string()).message(),
        "Telegram API Error: z"
    );
}
