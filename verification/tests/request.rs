//! The request a call sends: URL construction, form marshaling, and the
//! convenience surface forwarding to the generic call.

use teleapi::TeleApi;

#[test]
fn url_and_form_for_send_message() {
    let api = TeleApi::new("T");
    let r = api.prepare("sendMessage", &[("chat_id", "42"), ("text", "hello")]);
    assert_eq!(r.url, "https://api.telegram.org/botT/sendMessage");
    assert_eq!(
        r.form,
        vec![
            ("chat_id".to_string(), "42".to_string()),
            ("text".to_string(), "hello".to_string()),
            ("method".to_string(), "sendMessage".to_string()),
        ]
    );
}

#[test]
fn method_field_comes_after_caller_fields() {
    let api = TeleApi::new("token");
    let r = api.prepare("sendDice", &[("a", "1"), ("b", "2")]);
    let last = r.form.last().expect("the form is never empty");
    assert_eq!(last, &("method".to_string(), "sendDice".to_string()));
    assert_eq!(r.form.len(), 3);
}

#[test]
fn empty_params_still_carry_the_method_field() {
    let api = TeleApi::new("T");
    let r = api.prepare("getMe", &[]);
    assert_eq!(r.form, vec![("method".to_string(), "getMe".to_string())]);
}

#[test]
fn duplicate_params_are_kept_as_given() {
    let api = TeleApi::new("T");
    let r = api.prepare("sendMessage", &[("x", "1"), ("x", "2")]);
    assert_eq!(
        r.form,
        vec![
            ("x".to_string(), "1".to_string()),
            ("x".to_string(), "2".to_string()),
            ("method".to_string(), "sendMessage".to_string()),
        ]
    );
}

#[test]
fn convenience_operation_matches_the_generic_call() {
    let api = TeleApi::new("T");
    let params = [("chat_id", "42"), ("text", "hello")];
    assert_eq!(api.sendMessage(&params), api.prepare("sendMessage", &params));
    assert_eq!(api.sendPhoto(&params), api.prepare("sendPhoto", &params));
    assert_eq!(api.deleteMessage(&params), api.prepare("deleteMessage", &params));
    assert_eq!(api.getChat(&[]), api.prepare("getChat", &[]));
}

#[test]
fn updates_url_asks_for_the_most_recent_update() {
    let api = TeleApi::new("T");
    assert_eq!(
        api.updates_url(),
        "https://api.telegram.org/botT/getUpdates?offset=-1"
    );
}

#[test]
fn token_is_kept_verbatim_in_the_url() {
    let api = TeleApi::new("123:abc-DEF");
    let r = api.prepare("getMe", &[]);
    assert_eq!(r.url, "https://api.telegram.org/bot123:abc-DEF/getMe");
}
