//! Drafting a story in the Medium editor: the scripts run in the page, the
//! checks made on what they report, and the pace of the simulated typing.
use vstd::prelude::*;
use crate::text::{chars_to_string, push_str, replace_chars, replaced, str_chars};
use crate::json::{json_get, JsonValue};
use vstd::utf8::{
    decode_utf8, encode_utf8, encode_utf8_decode_utf8, encode_utf8_valid_utf8, is_ascii_chars,
    is_ascii_chars_encode_utf8, valid_utf8,
};
use vstd::string::StringSliceAdditionalSpecFns;

verus! {

// ---------------------------------------------------------------------
// The title script
// ---------------------------------------------------------------------

/// `s` made safe inside a JavaScript template literal: backslashes
/// doubled, then backticks and `${` escaped.
pub open spec fn template_escaped(s: Seq<char>) -> Seq<char> {
    replaced(replaced(replaced(s, "\\"@, "\\\\"@), "`"@, "\\`"@), "${"@, "\\${"@)
}

/// `s` made safe inside a JavaScript template literal.
pub fn js_escape_for_template_literal(s: &str) -> (r: String)
    ensures
        r@ == template_escaped(s@),
{
    let v = str_chars(s);
    let a = replace_chars(&v, &str_chars("\\"), &str_chars("\\\\"));
    let b = replace_chars(&a, &str_chars("`"), &str_chars("\\`"));
    let c = replace_chars(&b, &str_chars("${"), &str_chars("\\${"));
    chars_to_string(&c)
}

/// The script before the escaped title.
pub open spec fn title_script_head() -> Seq<char> {
    "(() => {\n  const title = `"@
}

/// The script after the escaped title.
pub open spec fn title_script_tail() -> Seq<char> {
    "`;\n\n  const editables = Array.from(document.querySelectorAll('[contenteditable=\"true\"]'));\n  if (!editables.length) {\n    return { ok: false, error: 'no contenteditable elements found (are you blocked by a login wall?)' };\n  }\n\n  const titleEl = editables.find((el) => el.tagName === 'H1') || editables[0];\n  titleEl.focus();\n  document.execCommand('selectAll', false, null);\n  document.execCommand('delete', false, null);\n\n  return { ok: true, editables: editables.length, activeTag: (document.activeElement && document.activeElement.tagName) || null, readyForTyping: true };\n})()"@
}

/// The script that focuses and clears the title of a new story, the title
/// written into it as an escaped template literal.
pub fn title_script(title: &str) -> (r: String)
    ensures
        r@ == title_script_head() + template_escaped(title@) + title_script_tail(),
{
    let mut out = str_chars("(() => {\n  const title = `");
    let esc = js_escape_for_template_literal(title);
    push_str(&mut out, esc.as_str());
    push_str(
        &mut out,
        "`;\n\n  const editables = Array.from(document.querySelectorAll('[contenteditable=\"true\"]'));\n  if (!editables.length) {\n    return { ok: false, error: 'no contenteditable elements found (are you blocked by a login wall?)' };\n  }\n\n  const titleEl = editables.find((el) => el.tagName === 'H1') || editables[0];\n  titleEl.focus();\n  document.execCommand('selectAll', false, null);\n  document.execCommand('delete', false, null);\n\n  return { ok: true, editables: editables.length, activeTag: (document.activeElement && document.activeElement.tagName) || null, readyForTyping: true };\n})()",
    );
    chars_to_string(&out)
}

/// The script reporting whether the page shows a sign-in prompt and an
/// editor.
pub const LOGIN_CHECK_JS: &'static str = "(() => {\n  const text = document.body ? document.body.innerText || '' : '';\n  const hasSignIn = /sign in|log in/i.test(text);\n  const hasEditor = document.querySelectorAll('[contenteditable=\"true\"]').length > 0;\n  return { hasSignIn, hasEditor, url: location.href };\n})()";

/// The script clicking the story's publish button.
pub const PUBLISH_JS: &'static str = "(() => {\n  const candidates = Array.from(document.querySelectorAll('button,a'));\n  const btn = candidates.find((el) => (el.innerText || '').trim().toLowerCase() === 'publish');\n  if (!btn) return { ok: false, error: 'publish button not found' };\n  btn.click();\n  return { ok: true };\n})()";

// ---------------------------------------------------------------------
// What the scripts report
// ---------------------------------------------------------------------

/// The member `key` of `v` is the boolean `true`.
pub open spec fn flag_set(v: JsonValue, key: Seq<char>) -> bool {
    json_get(v, key) == Some(JsonValue::Bool(true))
}

/// Whether the member `key` of `v` is the boolean `true`.
fn flag(v: &JsonValue, key: &str) -> (b: bool)
    ensures
        b == flag_set(*v, key@),
{
    match v.get(key) {
        Some(JsonValue::Bool(b)) => *b,
        _ => false,
    }
}

/// The editor is out of reach: the page asks to sign in and shows no
/// editor.
pub open spec fn blocked_model(report: JsonValue) -> bool {
    !flag_set(report, "hasEditor"@) && flag_set(report, "hasSignIn"@)
}

/// Whether the login check's `report` shows that the editor is out of
/// reach.
pub fn login_blocked(report: &JsonValue) -> (b: bool)
    ensures
        b == blocked_model(*report),
{
    !flag(report, "hasEditor") && flag(report, "hasSignIn")
}

/// Whether the title script's `report` says the title was made ready.
pub fn editor_ready(report: &JsonValue) -> (b: bool)
    ensures
        b == flag_set(*report, "ok"@),
{
    flag(report, "ok")
}

// ---------------------------------------------------------------------
// Typing
// ---------------------------------------------------------------------

/// The fewest and most bytes typed at once.
pub const MIN_CHUNK: u64 = 10;
pub const MAX_CHUNK: u64 = 55;

/// `rand::random_range(lo..=hi)`: a random number from `lo` to `hi`, which
/// must not be below `lo` (the range would be empty, and the call panics).
#[verifier::external_body]
fn random_between(lo: u64, hi: u64) -> (r: u64)
    requires
        lo <= hi,
    ensures
        lo <= r <= hi,
{
    rand::random_range(lo..=hi)
}

/// A pause of `ms` after `burst` chunks suits the period `period`: long
/// on a multiple of the period, short otherwise.
pub open spec fn pause_fits(burst: int, period: u64, ms: u64) -> bool {
    18 <= period <= 35 && if burst % period as int == 0 {
        400 <= ms <= 1200
    } else {
        35 <= ms <= 160
    }
}

/// Typing a text of `len` bytes chunk by chunk: `pos` bytes are typed, in
/// `burst` chunks.
pub struct Typing {
    pub pos: usize,
    pub burst: usize,
    pub len: usize,
}

impl Typing {
    /// Every chunk holds at least one byte.
    pub open spec fn wf(&self) -> bool {
        self.burst <= self.pos <= self.len
    }

    /// Typing of a text of `len` bytes, nothing typed yet.
    pub fn new(len: usize) -> (t: Typing)
        ensures
            t.wf(),
            t.pos == 0,
            t.burst == 0,
            t.len == len,
    {
        Typing { pos: 0, burst: 0, len }
    }

    /// Whether the whole text is typed.
    pub fn done(&self) -> (b: bool)
        ensures
            b == (self.pos >= self.len),
    {
        self.pos >= self.len
    }

    /// Types the next chunk of `text`: from 10 to 55 bytes on from where
    /// typing stands, cut at the end of the text, as the text of those
    /// bytes.
    pub fn next_chunk(&mut self, text: &str) -> (chunk: String)
        requires
            old(self).wf(),
            old(self).pos < old(self).len,
            old(self).len == text.spec_bytes().len(),
        ensures
            final(self).wf(),
            final(self).len == old(self).len,
            old(self).pos < final(self).pos <= old(self).len,
            final(self).pos == old(self).len || MIN_CHUNK <= final(self).pos - old(self).pos <= MAX_CHUNK,
            final(self).pos - old(self).pos <= MAX_CHUNK,
            final(self).burst == old(self).burst + 1,
            chunk@ == utf8_lossy_of(
                encode_utf8(text@).subrange(old(self).pos as int, final(self).pos as int),
            ),
            is_ascii_chars(text@) ==> chunk@ == text@.subrange(
                old(self).pos as int,
                final(self).pos as int,
            ),
    {
        let size = random_between(MIN_CHUNK, MAX_CHUNK) as usize;
        let start = self.pos;
        let end = if size >= self.len - start {
            self.len
        } else {
            start + size
        };
        self.pos = end;
        self.burst = self.burst + 1;
        assert(text.spec_bytes() == encode_utf8(text@));
        proof {
            if is_ascii_chars(text@) {
                is_ascii_chars_encode_utf8(text@);
                lemma_ascii_bytes_slice(text@, start as int, end as int);
            }
        }
        chunk_text(text, start, end)
    }

    /// The pause after the latest chunk, in milliseconds: a long one (0.4
    /// to 1.2 s) when the number of chunks typed is a multiple of a period
    /// drawn from 18 to 35, and a short one (35 to 160 ms) otherwise.
    pub fn pause_ms(&self) -> (ms: u64)
        ensures
            exists|period: u64| #[trigger] pause_fits(self.burst as int, period, ms),
    {
        let period = random_between(18, 35);
        let ms = if self.burst as u64 % period == 0 {
            random_between(400, 1200)
        } else {
            random_between(35, 160)
        };
        assert(pause_fits(self.burst as int, period, ms));
        ms
    }
}

/// For ASCII text, bytes `a..b` encode exactly the characters `a..b`.
pub proof fn lemma_ascii_bytes_slice(text: Seq<char>, a: int, b: int)
    requires
        is_ascii_chars(text),
        0 <= a <= b <= text.len(),
    ensures
        encode_utf8(text).len() == text.len(),
        valid_utf8(encode_utf8(text).subrange(a, b)),
        decode_utf8(encode_utf8(text).subrange(a, b)) == text.subrange(a, b),
{
    let sub = text.subrange(a, b);
    assert(is_ascii_chars(sub)) by {
        assert forall|i: int| 0 <= i < sub.len() implies '\0' <= #[trigger] sub[i] <= '\u{7f}' by {
            assert(sub[i] == text[a + i]);
        }
    }
    is_ascii_chars_encode_utf8(text);
    is_ascii_chars_encode_utf8(sub);
    assert(encode_utf8(text).subrange(a, b) =~= encode_utf8(sub)) by {
        assert forall|i: int| 0 <= i < b - a implies #[trigger] encode_utf8(text).subrange(a, b)[i]
            == encode_utf8(sub)[i] by {
            assert(encode_utf8(text)[a + i] == text[a + i] as u8);
            assert(encode_utf8(sub)[i] == sub[i] as u8);
        }
    }
    encode_utf8_valid_utf8(sub);
    encode_utf8_decode_utf8(sub);
}

/// The text `String::from_utf8_lossy` makes of a byte sequence.
pub uninterp spec fn utf8_lossy_of(bytes: Seq<u8>) -> Seq<char>;

/// `String::from_utf8_lossy` of the bytes `start..end` of `text`: a chunk
/// cut inside a character has it replaced by U+FFFD, which is named, not
/// restated; bytes that are valid UTF-8 come back as the text they encode,
/// as its documentation promises.
#[verifier::external_body]
pub(crate) fn chunk_text(text: &str, start: usize, end: usize) -> (r: String)
    requires
        start <= end <= text.spec_bytes().len(),
    ensures
        r@ == utf8_lossy_of(encode_utf8(text@).subrange(start as int, end as int)),
        valid_utf8(encode_utf8(text@).subrange(start as int, end as int)) ==> r@ == decode_utf8(
            encode_utf8(text@).subrange(start as int, end as int),
        ),
{
    String::from_utf8_lossy(&text.as_bytes()[start..end]).into_owned()
}

} // verus!
