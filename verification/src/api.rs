//! The API client: builds the request each call sends, and interprets what
//! the service answers.
//!
//! Sending is left to the caller: a call is prepared here as a URL and a
//! list of form fields, the caller performs the HTTP POST, and the response
//! body (or the transport's failure) comes back here to be decoded.

use vstd::prelude::*;
use vstd::string::StringExecFns;

use crate::json::{json_of, lookup, parse_json, spec_lookup, JsonValue};
use crate::model::{spec_updates_of, updates_from_json, updates_view, Update};

verus! {

/// Why a call failed: the transport broke, the response body could not be
/// decoded, or the service itself reported failure. The carried text is the
/// transport's message, a fixed decode message, or the service's own
/// description.
#[derive(Debug, Clone, PartialEq)]
pub enum ApiError {
    Transport(String),
    Decode(String),
    Remote(String),
}

impl ApiError {
    /// The error's text: its kind's prefix followed by the carried detail.
    pub open spec fn spec_message(&self) -> Seq<char> {
        match self {
            ApiError::Transport(m) => "transport error: "@ + m@,
            ApiError::Decode(m) => "decode error: "@ + m@,
            ApiError::Remote(m) => "Telegram API Error: "@ + m@,
        }
    }

    /// Renders the error as text.
    pub fn message(&self) -> (r: String)
        ensures
            r@ == self.spec_message(),
    {
        match self {
            ApiError::Transport(m) => {
                let mut s: String = "transport error: ".to_owned();
                s.append(m.as_str());
                s
            },
            ApiError::Decode(m) => {
                let mut s: String = "decode error: ".to_owned();
                s.append(m.as_str());
                s
            },
            ApiError::Remote(m) => {
                let mut s: String = "Telegram API Error: ".to_owned();
                s.append(m.as_str());
                s
            },
        }
    }
}

/// The request a call sends: the target URL and the form fields of the body,
/// in order.
#[derive(Debug, Clone, PartialEq)]
pub struct PreparedRequest {
    pub url: String,
    pub form: Vec<(String, String)>,
}

/// The form fields as mathematical pairs of character sequences.
pub open spec fn form_view(form: Seq<(String, String)>) -> Seq<(Seq<char>, Seq<char>)> {
    form.map_values(|p: (String, String)| (p.0@, p.1@))
}

/// The caller's parameters as mathematical pairs of character sequences.
pub open spec fn params_view(params: Seq<(&str, &str)>) -> Seq<(Seq<char>, Seq<char>)> {
    params.map_values(|p: (&str, &str)| (p.0@, p.1@))
}

/// The target URL of a call: the fixed host, the credential after `bot`, and
/// the method name.
pub open spec fn spec_url(token: Seq<char>, method: Seq<char>) -> Seq<char> {
    "https://api.telegram.org/bot"@ + token + "/"@ + method
}

/// The form body of a call: the caller's parameters, in order, with the
/// trailing `method` field appended.
pub open spec fn spec_form(params: Seq<(Seq<char>, Seq<char>)>, method: Seq<char>) -> Seq<
    (Seq<char>, Seq<char>),
> {
    params.push(("method"@, method))
}

/// Whether the envelope's `ok` field is true: a missing or non-boolean `ok`
/// counts as false.
pub open spec fn spec_ok_field(v: JsonValue) -> bool {
    match v {
        JsonValue::Object(fields) => match spec_lookup(fields@, "ok"@) {
            Some(JsonValue::Bool(b)) => b,
            _ => false,
        },
        _ => false,
    }
}

/// The envelope's `description` field, where it is present and a string.
pub open spec fn spec_description(v: JsonValue) -> Option<Seq<char>> {
    match v {
        JsonValue::Object(fields) => match spec_lookup(fields@, "description"@) {
            Some(JsonValue::Str(s)) => Some(s@),
            _ => None,
        },
        _ => None,
    }
}

/// What a parsed envelope means: success where `ok` is true, else failure
/// carrying the service's description, or the fixed placeholder where the
/// service gave none.
pub open spec fn spec_envelope(v: JsonValue) -> Result<(), Seq<char>> {
    if spec_ok_field(v) {
        Ok(())
    } else {
        Err(
            match spec_description(v) {
                Some(d) => d,
                None => "Unknown error"@,
            },
        )
    }
}

/// Interprets the response body of a generic call: parses it as JSON and
/// reads the success/failure envelope.
pub fn interpret_response(body: &str) -> (r: Result<(), ApiError>)
    ensures
        json_of(body@) is None ==> (r matches Err(ApiError::Decode(m)) && m@
            == "response body is not valid JSON"@),
        json_of(body@) matches Some(v) ==> (match spec_envelope(v) {
            Ok(()) => r is Ok,
            Err(d) => r matches Err(ApiError::Remote(m)) && m@ == d,
        }),
{
    let parsed = match parse_json(body) {
        Some(v) => v,
        None => {
            return Err(ApiError::Decode("response body is not valid JSON".to_owned()));
        },
    };
    let ok = match &parsed {
        JsonValue::Object(fields) => match lookup(fields, "ok") {
            Some(JsonValue::Bool(b)) => *b,
            _ => false,
        },
        _ => false,
    };
    if ok {
        Ok(())
    } else {
        let desc: String = match &parsed {
            JsonValue::Object(fields) => match lookup(fields, "description") {
                Some(JsonValue::Str(s)) => s.clone(),
                _ => "Unknown error".to_owned(),
            },
            _ => "Unknown error".to_owned(),
        };
        Err(ApiError::Remote(desc))
    }
}

/// Interprets the response body of the polling read: parses it as a bare
/// JSON array of updates.
pub fn interpret_updates_response(body: &str) -> (r: Result<Vec<Update>, ApiError>)
    ensures
        json_of(body@) is None ==> (r matches Err(ApiError::Decode(m)) && m@
            == "response body is not valid JSON"@),
        json_of(body@) matches Some(v) ==> (match spec_updates_of(v) {
            Some(us) => r matches Ok(list) && updates_view(list@) == us,
            None => r matches Err(ApiError::Decode(m)) && m@
                == "response body is not an update list"@,
        }),
{
    let parsed = match parse_json(body) {
        Some(v) => v,
        None => {
            return Err(ApiError::Decode("response body is not valid JSON".to_owned()));
        },
    };
    match updates_from_json(&parsed) {
        Some(list) => Ok(list),
        None => Err(ApiError::Decode("response body is not an update list".to_owned())),
    }
}

/// Decides what a generic call returns, given the transport's outcome: a
/// transport failure is passed through as such, a received body is read as
/// the envelope.
pub fn execute_outcome(outcome: Result<String, String>) -> (r: Result<(), ApiError>)
    ensures
        outcome matches Err(t) ==> (r matches Err(ApiError::Transport(m)) && m@ == t@),
        outcome matches Ok(body) ==> (json_of(body@) is None ==> (r matches Err(
            ApiError::Decode(m),
        ) && m@ == "response body is not valid JSON"@)),
        outcome matches Ok(body) ==> (json_of(body@) matches Some(v) ==> (match spec_envelope(v) {
            Ok(()) => r is Ok,
            Err(d) => r matches Err(ApiError::Remote(m)) && m@ == d,
        })),
{
    match outcome {
        Ok(body) => interpret_response(body.as_str()),
        Err(t) => Err(ApiError::Transport(t)),
    }
}

/// Decides what the polling read returns, given the transport's outcome.
pub fn updates_outcome(outcome: Result<String, String>) -> (r: Result<Vec<Update>, ApiError>)
    ensures
        outcome matches Err(t) ==> (r matches Err(ApiError::Transport(m)) && m@ == t@),
        outcome matches Ok(body) ==> (json_of(body@) is None ==> (r matches Err(
            ApiError::Decode(m),
        ) && m@ == "response body is not valid JSON"@)),
        outcome matches Ok(body) ==> (json_of(body@) matches Some(v) ==> (match spec_updates_of(
            v,
        ) {
            Some(us) => r matches Ok(list) && updates_view(list@) == us,
            None => r matches Err(ApiError::Decode(m)) && m@
                == "response body is not an update list"@,
        })),
{
    match outcome {
        Ok(body) => interpret_updates_response(body.as_str()),
        Err(t) => Err(ApiError::Transport(t)),
    }
}

/// Relies on `reqwest::Client`: the declared type is the transport handle a
/// client owns; the library only stores it and hands it back to the caller.
#[verifier::external_type_specification]
#[verifier::external_body]
pub struct ExClient(reqwest::Client);

/// Relies on `reqwest::Client::new`: builds a fresh transport handle with
/// default settings; no network activity occurs. It panics only where a TLS
/// backend is enabled and cannot be initialized.
#[verifier::external_body]
fn new_client() -> reqwest::Client {
    reqwest::Client::new()
}

/// The client: the bot's credential and a shared transport handle, both set
/// at construction and never mutated.
pub struct TeleApi {
    token: String,
    client: reqwest::Client,
}

impl TeleApi {
    /// The credential the client was built with.
    pub closed spec fn spec_token(&self) -> Seq<char> {
        self.token@
    }

    /// Builds a client around a credential, with a freshly created transport
    /// handle. No network activity occurs here.
    pub fn new(token: &str) -> (r: TeleApi)
        requires
            token@.len() > 0,
        ensures
            r.spec_token() == token@,
    {
        TeleApi { token: token.to_owned(), client: new_client() }
    }

    /// The transport handle, for the caller that performs the send.
    pub fn client(&self) -> &reqwest::Client {
        &self.client
    }

    /// Builds the request of a generic call: the target URL from the stored
    /// credential and the method name, and the form fields from the caller's
    /// parameters with the trailing `method` field appended.
    pub fn prepare(&self, method: &str, params: &[(&str, &str)]) -> (r: PreparedRequest)
        ensures
            r.url@ == spec_url(self.spec_token(), method@),
            form_view(r.form@) == spec_form(params_view(params@), method@),
    {
        let mut url: String = "https://api.telegram.org/bot".to_owned();
        url.append(self.token.as_str());
        url.append("/");
        url.append(method);
        let mut form: Vec<(String, String)> = Vec::new();
        let mut i: usize = 0;
        proof {
            assert(params@.take(0) =~= Seq::empty());
            assert(form_view(form@) =~= params_view(params@.take(0)));
        }
        while i < params.len()
            invariant
                i <= params@.len(),
                form_view(form@) == params_view(params@.take(i as int)),
            decreases params@.len() - i,
        {
            let ghost prev = form@;
            let (k, v) = params[i];
            form.push((k.to_owned(), v.to_owned()));
            proof {
                assert(params@.take(i as int + 1) =~= params@.take(i as int).push(
                    params@[i as int],
                ));
                assert(form_view(form@) =~= form_view(prev).push((k@, v@)));
                assert(params_view(params@.take(i as int).push(params@[i as int])) =~= params_view(
                    params@.take(i as int),
                ).push((k@, v@)));
            }
            i = i + 1;
        }
        let ghost before_method = form@;
        form.push(("method".to_owned(), method.to_owned()));
        proof {
            assert(params@.take(params@.len() as int) =~= params@);
            assert(form_view(form@) =~= form_view(before_method).push(("method"@, method@)));
        }
        PreparedRequest { url, form }
    }

    /// The URL of the polling read: the fixed method name with the query
    /// modifier asking for the most recent update only.
    pub fn updates_url(&self) -> (r: String)
        ensures
            r@ == spec_url(self.spec_token(), "getUpdates?offset=-1"@),
    {
        let mut url: String = "https://api.telegram.org/bot".to_owned();
        url.append(self.token.as_str());
        url.append("/");
        url.append("getUpdates?offset=-1");
        url
    }
}

} // verus!
