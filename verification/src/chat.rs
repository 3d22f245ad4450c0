//! The chat-completion exchange with the language model: the request body
//! that is sent, and what is read back from the reply.
use vstd::prelude::*;
use crate::json::{json_get, json_str, opt_at, opt_get, opt_str, JsonValue};

verus! {

/// The model every request names.
pub open spec fn chat_model() -> Seq<char> {
    "gpt-4o-mini"@
}

/// `v` is a string value with text `s`.
pub open spec fn is_text(v: JsonValue, s: Seq<char>) -> bool {
    json_str(v) == Some(s)
}

/// `v` is an object with exactly the members `keys`, in that order, the
/// member named `keys[i]` holding `vals(i)`.
pub open spec fn is_object_of(v: JsonValue, keys: Seq<Seq<char>>, vals: spec_fn(int, JsonValue) -> bool) -> bool {
    match v {
        JsonValue::Object(m) => m@.len() == keys.len() && forall|i: int|
            0 <= i < keys.len() ==> #[trigger] m@[i].0@ == keys[i] && vals(i, m@[i].1),
        _ => false,
    }
}

/// `[{"role": "user", "content": prompt}]`.
pub open spec fn is_user_messages(v: JsonValue, prompt: Seq<char>) -> bool {
    match v {
        JsonValue::Array(a) => a@.len() == 1 && is_object_of(
            a@[0],
            seq!["role"@, "content"@],
            |i: int, x: JsonValue| if i == 0 { is_text(x, "user"@) } else { is_text(x, prompt) },
        ),
        _ => false,
    }
}

/// `v` is the number written `0.7`.
pub open spec fn is_temperature(v: JsonValue) -> bool {
    match v {
        JsonValue::Number(t) => t@ == "0.7"@,
        _ => false,
    }
}

/// `{"type": "json_object"}`.
pub open spec fn is_json_object_format(v: JsonValue) -> bool {
    is_object_of(v, seq!["type"@], |i: int, x: JsonValue| is_text(x, "json_object"@))
}

/// The request body for one user message `prompt`, at temperature 0.7;
/// with `json_answer` the model is asked to answer with a JSON object:
/// `{"model", "messages", "temperature"[, "response_format"]}`.
pub open spec fn is_chat_body(v: JsonValue, prompt: Seq<char>, json_answer: bool) -> bool {
    if json_answer {
        is_object_of(
            v,
            seq!["model"@, "messages"@, "temperature"@, "response_format"@],
            |i: int, x: JsonValue|
                if i == 0 {
                    is_text(x, chat_model())
                } else if i == 1 {
                    is_user_messages(x, prompt)
                } else if i == 2 {
                    is_temperature(x)
                } else {
                    is_json_object_format(x)
                },
        )
    } else {
        is_object_of(
            v,
            seq!["model"@, "messages"@, "temperature"@],
            |i: int, x: JsonValue|
                if i == 0 {
                    is_text(x, chat_model())
                } else if i == 1 {
                    is_user_messages(x, prompt)
                } else {
                    is_temperature(x)
                },
        )
    }
}

/// The body of a chat-completion request asking the model about `prompt`.
pub fn chat_request_body(prompt: &str, json_answer: bool) -> (v: JsonValue)
    ensures
        is_chat_body(v, prompt@, json_answer),
{
    let mut message: Vec<(String, JsonValue)> = Vec::new();
    message.push((String::from_str("role"), JsonValue::Str(String::from_str("user"))));
    message.push((String::from_str("content"), JsonValue::Str(String::from_str(prompt))));
    let mut messages: Vec<JsonValue> = Vec::new();
    messages.push(JsonValue::Object(message));
    let mut members: Vec<(String, JsonValue)> = Vec::new();
    members.push((String::from_str("model"), JsonValue::Str(String::from_str("gpt-4o-mini"))));
    members.push((String::from_str("messages"), JsonValue::Array(messages)));
    members.push((String::from_str("temperature"), JsonValue::Number(String::from_str("0.7"))));
    if json_answer {
        let mut format: Vec<(String, JsonValue)> = Vec::new();
        format.push((String::from_str("type"), JsonValue::Str(String::from_str("json_object"))));
        members.push((String::from_str("response_format"), JsonValue::Object(format)));
    }
    JsonValue::Object(members)
}

/// Whether an HTTP status code is a success (`200..=299`).
pub open spec fn is_success_status(code: u16) -> bool {
    200 <= code < 300
}

/// Whether an HTTP status code is a success (`200..=299`), as
/// `StatusCode::is_success` tells it.
pub fn status_is_success(code: u16) -> (b: bool)
    ensures
        b == is_success_status(code),
{
    200 <= code && code < 300
}

/// `choices[0].message.content` of a chat-completion reply.
pub open spec fn message_content(v: JsonValue) -> Option<Seq<char>> {
    opt_str(opt_get(opt_get(opt_at(json_get(v, "choices"@), 0), "message"@), "content"@))
}

/// The message content of a chat-completion reply, as it is.
pub fn response_content(v: &JsonValue) -> (r: Option<String>)
    ensures
        match r {
            Some(s) => message_content(*v) == Some(s@),
            None => message_content(*v) is None,
        },
{
    let choices = v.get("choices")?;
    let first = choices.at(0)?;
    let message = first.get("message")?;
    let content = message.get("content")?;
    let s = content.as_str()?;
    Some(String::from_str(s))
}

} // verus!
