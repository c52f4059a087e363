//! The polling read's decoding, fed with bodies as a mocked transport would
//! return them.

use teleapi::api::{updates_outcome, ApiError};

#[test]
fn empty_array_is_an_empty_list() {
    let r = updates_outcome(Ok("[]".to_string()));
    let updates = r.expect("an empty array decodes");
    assert!(updates.is_empty());
}

#[test]
fn one_update_with_text() {
    let body = "[{\"message\":{\"chat\":{\"id\":1},\"from\":{\"id\":2},\"text\":\"hi\"}}]";
    let updates = updates_outcome(Ok(body.to_string())).expect("the update decodes");
    assert_eq!(updates.len(), 1);
    assert_eq!(updates[0].message.chat.id, 1);
    assert_eq!(updates[0].message.from.id, 2);
    assert_eq!(updates[0].message.text.as_deref(), Some("hi"));
}

#[test]
fn two_updates_keep_their_order() {
    let body = "[{\"message\":{\"chat\":{\"id\":1},\"from\":{\"id\":2},\"text\":\"a\"}},\
                {\"message\":{\"chat\":{\"id\":3},\"from\":{\"id\":4},\"text\":\"b\"}}]";
    let updates = updates_outcome(Ok(body.to_string())).expect("both updates decode");
    assert_eq!(updates.len(), 2);
    assert_eq!(updates[0].message.chat.id, 1);
    assert_eq!(updates[0].message.text.as_deref(), Some("a"));
    assert_eq!(updates[1].message.chat.id, 3);
    assert_eq!(updates[1].message.text.as_deref(), Some("b"));
}

#[test]
fn absent_text_decodes_as_none() {
    let body = "[{\"message\":{\"chat\":{\"id\":1},\"from\":{\"id\":2}}}]";
    let updates = updates_outcome(Ok(body.to_string())).expect("the update decodes");
    assert_eq!(updates[0].message.text, None);
}

#[test]
fn null_text_decodes_as_none() {
    let body = "[{\"message\":{\"chat\":{\"id\":1},\"from\":{\"id\":2},\"text\":null}}]";
    let updates = updates_outcome(Ok(body.to_string())).expect("the update decodes");
    assert_eq!(updates[0].message.text, None);
}

#[test]
fn numeric_text_fails_the_decode() {
    let body = "[{\"message\":{\"chat\":{\"id\":1},\"from\":{\"id\":2},\"text\":7}}]";
    match updates_outcome(Ok(body.to_string())) {
        Err(ApiError::Decode(_)) => {}
        other => panic!("expected a decode error, got {:?}", other),
    }
}

#[test]
fn missing_chat_fails_the_decode() {
    let body = "[{\"message\":{\"from\":{\"id\":2},\"text\":\"hi\"}}]";
    match updates_outcome(Ok(body.to_string())) {
        Err(ApiError::Decode(_)) => {}
        other => panic!("expected a decode error, got {:?}", other),
    }
}

#[test]
fn fractional_id_fails_the_decode() {
    let body = "[{\"message\":{\"chat\":{\"id\":1.5},\"from\":{\"id\":2},\"text\":\"hi\"}}]";
    match updates_outcome(Ok(body.to_string())) {
        Err(ApiError::Decode(_)) => {}
        other => panic!("expected a decode error, got {:?}", other),
    }
}

#[test]
fn oversized_id_fails_the_decode() {
    let body =
        "[{\"message\":{\"chat\":{\"id\":9223372036854775808},\"from\":{\"id\":2},\"text\":\"x\"}}]";
    match updates_outcome(Ok(body.to_string())) {
        Err(ApiError::Decode(_)) => {}
        other => panic!("expected a decode error, got {:?}", other),
    }
}

#[test]
fn largest_id_still_decodes() {
    let body =
        "[{\"message\":{\"chat\":{\"id\":9223372036854775807},\"from\":{\"id\":-9223372036854775808}}}]";
    let updates = updates_outcome(Ok(body.to_string())).expect("the update decodes");
    assert_eq!(updates[0].message.chat.id, i64::MAX);
    assert_eq!(updates[0].message.from.id, i64::MIN);
}

#[test]
fn envelope_instead_of_array_fails_the_decode() {
    let body = "{\"ok\":true,\"result\":[]}";
    match updates_outcome(Ok(body.to_string())) {
        Err(ApiError::Decode(_)) => {}
        other => panic!("expected a decode error, got {:?}", other),
    }
}

#[test]
fn non_json_updates_body_fails_the_decode() {
    match updates_outcome(Ok("<html>".to_string())) {
        Err(ApiError::Decode(_)) => {}
        other => panic!("expected a decode error, got {:?}", other),
    }
}

#[test]
fn updates_transport_failure_passes_through() {
    match updates_outcome(Err("timed out".to_string())) {
        Err(ApiError::Transport(m)) => assert_eq!(m, "timed out"),
        other => panic!("expected a transport error, got {:?}", other),
    }
}

#[test]
fn extra_fields_are_ignored() {
    let body = "[{\"update_id\":5,\"message\":{\"message_id\":9,\"chat\":{\"id\":1,\"type\":\"private\"},\
                \"from\":{\"id\":2,\"is_bot\":false},\"text\":\"hi\"}}]";
    let updates = updates_outcome(Ok(body.to_string())).expect("the update decodes");
    assert_eq!(updates[0].message.text.as_deref(), Some("hi"));
}
