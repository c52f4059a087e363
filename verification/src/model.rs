//! Typed representations of the subset of the service's JSON schema that the
//! library understands, and the verified decoding of parsed JSON into them:
//! an incoming update wraps a message, which names the chat it came from,
//! its sender, and an optional text payload.

use vstd::prelude::*;

use crate::json::{lookup, spec_lookup, JsonValue};

verus! {

/// A chat, identified by its 64-bit signed id.
#[derive(Debug, Clone, PartialEq)]
pub struct Chat {
    pub id: i64,
}

/// A user, identified by its 64-bit signed id.
#[derive(Debug, Clone, PartialEq)]
pub struct User {
    pub id: i64,
}

/// A message: the chat it belongs to, the user it came from, and its text,
/// absent when the message carries no text payload.
#[derive(Debug, Clone, PartialEq)]
pub struct Message {
    pub chat: Chat,
    pub from: User,
    pub text: Option<String>,
}

/// A single polled update; only the message-bearing shape is modeled.
#[derive(Debug, Clone, PartialEq)]
pub struct Update {
    pub message: Message,
}

/// The mathematical content of a message: the two ids and the text.
pub struct MessageModel {
    pub chat_id: i64,
    pub from_id: i64,
    pub text: Option<Seq<char>>,
}

/// The mathematical content of an update.
pub struct UpdateModel {
    pub message: MessageModel,
}

impl View for Message {
    type V = MessageModel;

    open spec fn view(&self) -> MessageModel {
        MessageModel {
            chat_id: self.chat.id,
            from_id: self.from.id,
            text: match self.text {
                Some(s) => Some(s@),
                None => None,
            },
        }
    }
}

impl View for Update {
    type V = UpdateModel;

    open spec fn view(&self) -> UpdateModel {
        UpdateModel { message: self.message@ }
    }
}

/// The sequence of models of a decoded update list.
pub open spec fn updates_view(us: Seq<Update>) -> Seq<UpdateModel> {
    us.map_values(|u: Update| u@)
}

/// The id carried by a JSON object of the shape `{"id": <integer>}`, as chat
/// and user objects carry it; `None` where the value is not such an object.
pub open spec fn spec_id_of(v: JsonValue) -> Option<i64> {
    match v {
        JsonValue::Object(fields) => match spec_lookup(fields@, "id"@) {
            Some(JsonValue::Int(i)) => Some(i),
            _ => None,
        },
        _ => None,
    }
}

/// The text payload among a message object's fields: absent or null means no
/// text, a string is the text, and anything else fails the decode.
pub open spec fn spec_text_of(fields: Seq<(String, JsonValue)>) -> Option<Option<Seq<char>>> {
    match spec_lookup(fields, "text"@) {
        None => Some(None),
        Some(JsonValue::Null) => Some(None),
        Some(JsonValue::Str(s)) => Some(Some(s@)),
        Some(_) => None,
    }
}

/// The message a JSON value decodes to: an object whose `chat` and `from`
/// fields carry ids and whose `text` field, if any, is a string or null.
pub open spec fn spec_message_of(v: JsonValue) -> Option<MessageModel> {
    match v {
        JsonValue::Object(fields) => match (
            spec_lookup(fields@, "chat"@),
            spec_lookup(fields@, "from"@),
        ) {
            (Some(c), Some(f)) => match (spec_id_of(c), spec_id_of(f)) {
                (Some(cid), Some(fid)) => match spec_text_of(fields@) {
                    Some(t) => Some(MessageModel { chat_id: cid, from_id: fid, text: t }),
                    None => None,
                },
                _ => None,
            },
            _ => None,
        },
        _ => None,
    }
}

/// The update a JSON value decodes to: an object whose `message` field
/// decodes as a message.
pub open spec fn spec_update_of(v: JsonValue) -> Option<UpdateModel> {
    match v {
        JsonValue::Object(fields) => match spec_lookup(fields@, "message"@) {
            Some(m) => match spec_message_of(m) {
                Some(mm) => Some(UpdateModel { message: mm }),
                None => None,
            },
            None => None,
        },
        _ => None,
    }
}

/// The update list a sequence of JSON values decodes to: every element must
/// decode as an update, else the whole list fails.
pub open spec fn spec_updates_seq(items: Seq<JsonValue>) -> Option<Seq<UpdateModel>>
    decreases items.len(),
{
    if items.len() == 0 {
        Some(Seq::empty())
    } else {
        match spec_update_of(items[0]) {
            Some(u) => match spec_updates_seq(items.drop_first()) {
                Some(rest) => Some(seq![u] + rest),
                None => None,
            },
            None => None,
        }
    }
}

/// The update list a JSON value decodes to: a bare array, each element an
/// update.
pub open spec fn spec_updates_of(v: JsonValue) -> Option<Seq<UpdateModel>> {
    match v {
        JsonValue::Array(items) => spec_updates_seq(items@),
        _ => None,
    }
}

/// Decodes `{"id": <integer>}`, the shape chat and user objects take.
pub fn id_from_json(v: &JsonValue) -> (r: Option<i64>)
    ensures
        r == spec_id_of(*v),
{
    match v {
        JsonValue::Object(fields) => match lookup(fields, "id") {
            Some(JsonValue::Int(i)) => Some(*i),
            _ => None,
        },
        _ => None,
    }
}

/// Decodes the optional text payload among a message object's fields.
fn text_from_fields(fields: &Vec<(String, JsonValue)>) -> (r: Option<Option<String>>)
    ensures
        match r {
            None => spec_text_of(fields@) is None,
            Some(None) => spec_text_of(fields@) == Some(None::<Seq<char>>),
            Some(Some(s)) => spec_text_of(fields@) == Some(Some(s@)),
        },
{
    match lookup(fields, "text") {
        None => Some(None),
        Some(v) => match v {
            JsonValue::Null => Some(None),
            JsonValue::Str(s) => Some(Some(s.clone())),
            _ => None,
        },
    }
}

/// Decodes a message object; `None` where the value is not of the message
/// shape.
pub fn message_from_json(v: &JsonValue) -> (r: Option<Message>)
    ensures
        match r {
            Some(m) => spec_message_of(*v) == Some(m@),
            None => spec_message_of(*v) is None,
        },
{
    let fields = match v {
        JsonValue::Object(fields) => fields,
        _ => {
            return None;
        },
    };
    let c = match lookup(fields, "chat") {
        Some(c) => c,
        None => {
            return None;
        },
    };
    let cid = match id_from_json(c) {
        Some(i) => i,
        None => {
            return None;
        },
    };
    let f = match lookup(fields, "from") {
        Some(f) => f,
        None => {
            return None;
        },
    };
    let fid = match id_from_json(f) {
        Some(i) => i,
        None => {
            return None;
        },
    };
    let text = match text_from_fields(fields) {
        Some(t) => t,
        None => {
            return None;
        },
    };
    Some(Message { chat: Chat { id: cid }, from: User { id: fid }, text })
}

/// Decodes an update object; `None` where the value is not of the update
/// shape.
pub fn update_from_json(v: &JsonValue) -> (r: Option<Update>)
    ensures
        match r {
            Some(u) => spec_update_of(*v) == Some(u@),
            None => spec_update_of(*v) is None,
        },
{
    let fields = match v {
        JsonValue::Object(fields) => fields,
        _ => {
            return None;
        },
    };
    let m = match lookup(fields, "message") {
        Some(m) => m,
        None => {
            return None;
        },
    };
    match message_from_json(m) {
        Some(msg) => Some(Update { message: msg }),
        None => None,
    }
}

/// Unfolds one step of `spec_updates_seq` at position `i` of `items`.
proof fn lemma_updates_seq_step(items: Seq<JsonValue>, i: int)
    requires
        0 <= i < items.len(),
    ensures
        spec_updates_seq(items.skip(i)) == (match spec_update_of(items[i]) {
            Some(u) => match spec_updates_seq(items.skip(i + 1)) {
                Some(rest) => Some(seq![u] + rest),
                None => None,
            },
            None => None::<Seq<UpdateModel>>,
        }),
{
    assert(items.skip(i)[0] == items[i]);
    assert(items.skip(i).drop_first() =~= items.skip(i + 1));
}

/// Decodes a whole update list from a parsed JSON value; `None` where the
/// value is not a bare array of updates.
pub fn updates_from_json(v: &JsonValue) -> (r: Option<Vec<Update>>)
    ensures
        match r {
            Some(us) => spec_updates_of(*v) == Some(updates_view(us@)),
            None => spec_updates_of(*v) is None,
        },
{
    let items = match v {
        JsonValue::Array(items) => items,
        _ => {
            return None;
        },
    };
    let mut out: Vec<Update> = Vec::new();
    let mut i: usize = 0;
    proof {
        assert(items@.skip(0) =~= items@);
        assert(updates_view(out@) =~= Seq::empty());
    }
    while i < items.len()
        invariant
            i <= items@.len(),
            spec_updates_of(*v) == spec_updates_seq(items@),
            match spec_updates_seq(items@.skip(i as int)) {
                Some(rest) => spec_updates_seq(items@) == Some(updates_view(out@) + rest),
                None => spec_updates_seq(items@) is None,
            },
        decreases items@.len() - i,
    {
        proof {
            lemma_updates_seq_step(items@, i as int);
        }
        let ghost prev = out@;
        match update_from_json(&items[i]) {
            Some(u) => {
                out.push(u);
                proof {
                    match spec_updates_seq(items@.skip(i as int + 1)) {
                        Some(rest) => {
                            assert(updates_view(out@) =~= updates_view(prev).push(u@));
                            assert(updates_view(prev) + (seq![u@] + rest) =~= updates_view(
                                prev,
                            ).push(u@) + rest);
                        },
                        None => {
                            assert(spec_updates_seq(items@.skip(i as int)) is None);
                        },
                    }
                }
            },
            None => {
                return None;
            },
        }
        i = i + 1;
    }
    proof {
        assert(items@.skip(i as int) =~= Seq::<JsonValue>::empty());
        assert(updates_view(out@) + Seq::<UpdateModel>::empty() =~= updates_view(out@));
    }
    Some(out)
}

} // verus!
