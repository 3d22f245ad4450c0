//! Announcing a new review through an IFTTT webhook.
use vstd::prelude::*;
use crate::text::{chars_to_string, push_str, str_chars};
use crate::json::JsonValue;
use crate::chat::{is_object_of, is_text};
use crate::facebook::{url_text, usable};
use crate::oauth::osv;

verus! {

/// A webhook call: where it goes and its JSON body.
pub struct WebhookRequest {
    pub endpoint: String,
    pub body: JsonValue,
}

/// The event named in the settings, or `new_post`.
pub open spec fn event_name(event: Option<Seq<char>>) -> Seq<char> {
    match event {
        Some(e) => e,
        None => "new_post"@,
    }
}

/// The webhook address of `event` for the key `key`.
pub open spec fn webhook_endpoint(event: Seq<char>, key: Seq<char>) -> Seq<char> {
    "https://maker.ifttt.com/trigger/"@ + event + "/json/with/key/"@ + key
}

/// `{"value1": title, "value2": url}`.
pub open spec fn is_webhook_body(v: JsonValue, title: Seq<char>, url: Seq<char>) -> bool {
    is_object_of(
        v,
        seq!["value1"@, "value2"@],
        |i: int, x: JsonValue| if i == 0 { is_text(x, title) } else { is_text(x, url) },
    )
}

/// The webhook call announcing the post `title` at `url`, from the
/// settings `key` and `event`; `None` when no key is set (or it is blank),
/// and nothing is sent.
pub fn trigger_new_post(title: &str, url: Option<&str>, key: Option<&str>, event: Option<&str>) -> (r: Option<WebhookRequest>)
    ensures
        match r {
            Some(q) => usable(osv(key)) && q.endpoint@ == webhook_endpoint(
                event_name(osv(event)),
                osv(key)->0,
            ) && is_webhook_body(q.body, title@, url_text(osv(url))),
            None => !usable(osv(key)),
        },
{
    let k = match key {
        Some(k) => k,
        None => return None,
    };
    if crate::text::trim_str(k).len() == 0 {
        return None;
    }
    let mut endpoint = str_chars("https://maker.ifttt.com/trigger/");
    match event {
        Some(e) => push_str(&mut endpoint, e),
        None => push_str(&mut endpoint, "new_post"),
    }
    push_str(&mut endpoint, "/json/with/key/");
    push_str(&mut endpoint, k);
    let u = match url {
        Some(u) => u,
        None => "",
    };
    proof {
        reveal_strlit("");
        assert(""@ =~= Seq::<char>::empty());
    }
    let mut body: Vec<(String, JsonValue)> = Vec::new();
    body.push((String::from_str("value1"), JsonValue::Str(String::from_str(title))));
    body.push((String::from_str("value2"), JsonValue::Str(String::from_str(u))));
    Some(WebhookRequest { endpoint: chars_to_string(&endpoint), body: JsonValue::Object(body) })
}

/// Whether a webhook answer with status `code` is accepted: anything but
/// a client or server error (`400..=599`), as `error_for_status` judges.
pub fn webhook_accepted(code: u16) -> (b: bool)
    ensures
        b == !(400 <= code && code < 600),
{
    !(400 <= code && code < 600)
}

} // verus!
