//! Posting a review as a Pinterest Pin through the Pin builder in a
//! browser: whether to post at all, the scripts run in the page, and the
//! decisions taken on what they report while the builder is driven.
use vstd::prelude::*;
use crate::text::{
    chars_to_string, push_str, replaced, str_chars, trim, trim_str, strip_all_suffix,
    strip_all_suffix_exec, replace_chars, str_contains, contains,
};
use crate::encode::{json_quoted, json_string_literal};
use crate::markup::{lowercase_of, to_lowercase};
use crate::index::{split_char, split_chars};
use crate::oauth::osv;

verus! {

// ---------------------------------------------------------------------
// The description
// ---------------------------------------------------------------------

/// The most characters a Pin description keeps.
pub const DESCRIPTION_LIMIT: usize = 450;

/// The description of a Pin: the given text without surrounding
/// whitespace, none when that is empty, and cut to its first 447
/// characters followed by `...` when longer than 450 characters.
pub open spec fn description_model(d: Option<Seq<char>>) -> Option<Seq<char>> {
    match d {
        Some(s) => {
            let t = trim(s);
            if t.len() == 0 {
                None
            } else if t.len() > DESCRIPTION_LIMIT {
                Some(t.take(447) + "..."@)
            } else {
                Some(t)
            }
        },
        None => None,
    }
}

/// The description of a Pin made from `description`.
pub fn truncate_description(description: Option<&str>) -> (r: Option<String>)
    ensures
        match r {
            Some(s) => description_model(osv(description)) == Some(s@),
            None => description_model(osv(description)) is None,
        },
{
    let s = description?;
    let t = trim_str(s);
    if t.len() == 0 {
        return None;
    }
    if t.len() > DESCRIPTION_LIMIT {
        let mut out: Vec<char> = Vec::new();
        let mut i: usize = 0;
        while i < 447
            invariant
                i <= 447,
                t@.len() > 450,
                out@ == t@.take(i as int),
            decreases 447 - i,
        {
            out.push(t[i]);
            i = i + 1;
            assert(t@.take(i as int) == t@.take(i - 1).push(t@[i - 1]));
        }
        push_str(&mut out, "...");
        Some(chars_to_string(&out))
    } else {
        Some(chars_to_string(&t))
    }
}

// ---------------------------------------------------------------------
// Scripts
// ---------------------------------------------------------------------

/// The script function `setValue(el, v)`: writes `v` into a form field or an
/// editable element the way typing would, and fires its input events.
pub const SET_VALUE_FN_JS: &'static str = "const setValue = (el, v) => {\n    try { el.focus(); } catch(e) {}\n    const tag = (el.tagName||'').toUpperCase();\n    const ce = (el.getAttribute('contenteditable')||'').toLowerCase();\n    if (ce === 'true' || tag === 'DIV' || tag === 'SPAN') {\n      try { document.execCommand('selectAll', false, null); document.execCommand('insertText', false, v); } catch(e) {}\n    } else {\n      try {\n        const proto = tag === 'TEXTAREA' ? window.HTMLTextAreaElement.prototype : window.HTMLInputElement.prototype;\n        const ns = Object.getOwnPropertyDescriptor(proto, 'value');\n        if (ns && ns.set) ns.set.call(el, v); else el.value = v;\n      } catch(e) { try { el.value = v; } catch(e2) {} }\n    }\n    try { el.dispatchEvent(new Event('input', { bubbles: true })); } catch(e) {}\n    try { el.dispatchEvent(new Event('change', { bubbles: true })); } catch(e) {}\n    try { el.dispatchEvent(new Event('blur', { bubbles: true })); } catch(e) {}\n  };";

/// The body of the title script: the field with the known id, or else the
/// best-scoring title-like field, gets `value`.
pub const TITLE_BODY_JS: &'static str = "  // Try known IDs first.\n  const byId = document.getElementById('storyboard-selector-title');\n  if (byId) { setValue(byId, value); return true; }\n  // Fallback: heuristic scoring.\n  const els = Array.from(document.querySelectorAll('input,textarea,[contenteditable=\"true\"]'));\n  const score = (el) => {\n    if (el.getAttribute('type') === 'hidden') return -100;\n    const name = (el.getAttribute('name')||'').toLowerCase();\n    const ph = (el.getAttribute('placeholder')||'').toLowerCase();\n    const aria = (el.getAttribute('aria-label')||'').toLowerCase();\n    const id = (el.getAttribute('id')||'').toLowerCase();\n    const tag = (el.tagName||'').toLowerCase();\n    const ce = (el.getAttribute('contenteditable')||'').toLowerCase();\n    const s = name + ' ' + ph + ' ' + aria + ' ' + id;\n    let sc = 0;\n    if (tag === 'input') sc += 1;\n    if (tag === 'div' && ce === 'true') sc += 1;\n    if (s.includes('title')) sc += 3;\n    if (s.includes('pin title')) sc += 3;\n    if (s.includes('tell everyone')) sc += 3;\n    if (s.includes('your pin is about')) sc += 3;\n    if (s.includes('add your title')) sc += 3;\n    if (s.includes('your title')) sc += 2;\n    return sc;\n  };\n  let best = null; let bestScore = 0;\n  for (const el of els) { const sc = score(el); if (sc > bestScore) { bestScore = sc; best = el; } }\n  if (!best || bestScore < 2) return false;\n  setValue(best, value);\n  return true;";

/// The body of the description script: the field labelled "Describe your
/// Pin", or else the best-scoring description-like field, gets `value`.
pub const DESC_BODY_JS: &'static str = "  // Try known aria-label first (Pinterest uses \"Describe your Pin\").\n  const byAria = document.querySelector('[aria-label=\"Describe your Pin\"]');\n  if (byAria) { setValue(byAria, value); return true; }\n  // Fallback: heuristic scoring.\n  const els = Array.from(document.querySelectorAll('input,textarea,[contenteditable=\"true\"]'));\n  const score = (el) => {\n    if (el.getAttribute('type') === 'hidden') return -100;\n    const tag = (el.tagName||'').toLowerCase();\n    const name = (el.getAttribute('name')||'').toLowerCase();\n    const ph = (el.getAttribute('placeholder')||'').toLowerCase();\n    const aria = (el.getAttribute('aria-label')||'').toLowerCase();\n    const id = (el.getAttribute('id')||'').toLowerCase();\n    const ce = (el.getAttribute('contenteditable')||'').toLowerCase();\n    const s = name + ' ' + ph + ' ' + aria + ' ' + id;\n    let sc = 0;\n    if (tag === 'textarea') sc += 2;\n    if (tag === 'div' && ce === 'true') sc += 1;\n    if (s.includes('description')) sc += 3;\n    if (s.includes('describe')) sc += 3;\n    if (s.includes('tell everyone') || s.includes('add a description')) sc += 3;\n    if (s.includes('details')) sc += 1;\n    return sc;\n  };\n  let best = null; let bestScore = 0;\n  for (const el of els) { const sc = score(el); if (sc > bestScore) { bestScore = sc; best = el; } }\n  if (!best || bestScore < 2) return false;\n  setValue(best, value);\n  return true;";

/// The body of the link script: the field with the known id, or else the
/// best-scoring link-like field, gets `value`.
pub const LINK_BODY_JS: &'static str = "  // Try known IDs first.\n  const byId = document.getElementById('WebsiteField');\n  if (byId) { setValue(byId, value); return true; }\n  // Fallback: heuristic scoring.\n  const els = Array.from(document.querySelectorAll('input,textarea,[contenteditable=\"true\"]'));\n  const score = (el) => {\n    const name = (el.getAttribute('name')||'').toLowerCase();\n    const ph = (el.getAttribute('placeholder')||'').toLowerCase();\n    const aria = (el.getAttribute('aria-label')||'').toLowerCase();\n    const id = (el.getAttribute('id')||'').toLowerCase();\n    const tag = (el.tagName||'').toLowerCase();\n    const ce = (el.getAttribute('contenteditable')||'').toLowerCase();\n    const s = name + ' ' + ph + ' ' + aria + ' ' + id;\n    if (s.includes('destination')) return 3;\n    if (s.includes('website')) return 3;\n    if (s.includes('add a link')) return 3;\n    if (s.includes('link')) return 2;\n    if (s.includes('url')) return 2;\n    if (s.includes('source')) return 2;\n    if (tag === 'input' && (el.getAttribute('type')||'').toLowerCase() === 'url') return 2;\n    if (tag === 'div' && ce === 'true') return 1;\n    return 0;\n  };\n  let best = null; let bestScore = 0;\n  for (const el of els) { const sc = score(el); if (sc > bestScore) { bestScore = sc; best = el; } }\n  if (!best || bestScore < 2) return false;\n  setValue(best, value);\n  return true;";

/// The body of the board search script: the search box of the board
/// picker, if one is open, gets `needle`.
pub const SEARCH_JS_BODY: &'static str = "  const inputs = Array.from(document.querySelectorAll('input'));\n  const box = inputs.find(i => {\n    const ph = (i.getAttribute('placeholder')||'').toLowerCase();\n    const aria = (i.getAttribute('aria-label')||'').toLowerCase();\n    return ph.includes('search') || aria.includes('search') || ph.includes('board') || aria.includes('board');\n  });\n  if (!box) return false;\n  box.focus();\n  try {\n    const ns = Object.getOwnPropertyDescriptor(window.HTMLInputElement.prototype, 'value');\n    if (ns && ns.set) ns.set.call(box, needle); else box.value = needle;\n  } catch(e) { box.value = needle; }\n  box.dispatchEvent(new Event('input', { bubbles: true }));\n  box.dispatchEvent(new Event('change', { bubbles: true }));\n  return true;";

/// The body of the board pick script: the first option, list item or link
/// whose text matches `needle` is clicked.
pub const PICK_JS_BODY: &'static str = "  const norm = (s) => (s||'').toLowerCase().trim();\n  const n = norm(needle);\n  const tryPick = (sel) => {\n    const items = Array.from(document.querySelectorAll(sel));\n    return items.find(el => {\n      const t = norm(el.innerText);\n      return t === n || t.startsWith(n) || t.includes(n);\n    }) || null;\n  };\n  const target = tryPick('[role=option],[role=menuitem],[role=listitem]')\n    || tryPick('li')\n    || tryPick('a');\n  if (!target) { console.log('[board] could not find board item for:', n); return false; }\n  console.log('[board] clicking board item:', (target.innerText||'').trim().slice(0,60));\n  target.click();\n  return true;";

/// The script clicking the board picker open.
pub const OPEN_BOARD_PICKER_JS: &'static str = "(() => {\n  const buttons = Array.from(document.querySelectorAll('button,div[role=button],a[role=button],[role=combobox]'));\n  console.log('[board] total buttons:', buttons.length, buttons.map(b => (b.innerText||'').trim().slice(0,40)));\n  const norm = (s) => (s||'').toLowerCase();\n  const open = buttons.find(b => norm(b.innerText).includes('choose a board'))\n    || buttons.find(b => norm(b.getAttribute('placeholder')||'').includes('board'))\n    || buttons.find(b => norm(b.getAttribute('aria-label')||'').includes('board'))\n    || buttons.find(b => norm(b.innerText) === 'board')\n    || buttons.find(b => norm(b.innerText).includes('board'));\n  if (!open) { console.log('[board] could not find board picker button'); return false; }\n  console.log('[board] clicking board picker:', (open.innerText||'').trim(), open.getAttribute('aria-label')||'');\n  open.click();\n  return true;\n})()";

/// The script clicking the publish (or save) button.
pub const CLICK_PUBLISH_JS: &'static str = "(() => {\n  const btns = Array.from(document.querySelectorAll('button,div[role=button],a[role=button]'));\n  console.log('[publish] total buttons found:', btns.length);\n  console.log('[publish] buttons:', btns.map(b => ({\n    tag: b.tagName, text: (b.innerText||'').trim().slice(0,80),\n    aria: b.getAttribute('aria-label')||'', type: b.getAttribute('type')||'',\n    role: b.getAttribute('role')||'',\n  })));\n  const norm = (s) => (s||'').toLowerCase().trim();\n  const good = (b) => {\n    const t = norm(b.innerText);\n    const a = norm(b.getAttribute('aria-label')||'');\n    return t === 'publish' || t === 'save' || a === 'publish' || a === 'save'\n      || t.includes('publish') || t.includes('save pin') || a.includes('publish') || a.includes('save');\n  };\n  const target = btns.find(good) || btns.find(b => b.getAttribute('type') === 'submit');\n  if (!target) { console.log('[publish] no publish/save button found'); return false; }\n  console.log('[publish] clicking:', (target.innerText||'').trim(), target.getAttribute('aria-label')||'');\n  target.click();\n  return true;\n})()";

/// The script counting inputs, editable elements, file inputs, buttons
/// and frames on the page.
pub const POLL_JS: &'static str = "(() => {\n  const inputs = document.querySelectorAll('input,textarea').length;\n  const editables = document.querySelectorAll('[contenteditable=\"true\"]').length;\n  const fileInputs = document.querySelectorAll('input[type=file]').length;\n  const buttons = document.querySelectorAll('button,div[role=button],a[role=button]').length;\n  const iframes = document.querySelectorAll('iframe').length;\n  return [inputs, editables, fileInputs, buttons, iframes];\n})()";


/// `value` as a JavaScript string literal (JSON's quoting), or `""` should
/// writing it fail.
pub fn js_string(value: &str) -> (r: String)
    ensures
        r@ == json_quoted(value@),
{
    match json_string_literal(value) {
        Ok(q) => q,
        Err(_) => String::from_str("\"\""),
    }
}

/// A field script: `value` bound to the quoted text, `setValue` defined,
/// then `body`, all in a function that is called at once.
pub open spec fn field_script(value: Seq<char>, body: Seq<char>) -> Seq<char> {
    "(() => {\n  const value = "@ + json_quoted(value) + ";\n  "@ + SET_VALUE_FN_JS@ + "\n"@ + body
        + "\n})()"@
}

/// The field script running `body` with `value`.
fn make_field_js(value: &str, body: &str) -> (r: String)
    ensures
        r@ == field_script(value@, body@),
{
    let mut out = str_chars("(() => {\n  const value = ");
    push_str(&mut out, js_string(value).as_str());
    push_str(&mut out, ";\n  ");
    push_str(&mut out, SET_VALUE_FN_JS);
    push_str(&mut out, "\n");
    push_str(&mut out, body);
    push_str(&mut out, "\n})()");
    chars_to_string(&out)
}

/// The script writing `title` into the Pin's title field; it reports
/// whether a field was found.
pub fn make_title_js(title: &str) -> (r: String)
    ensures
        r@ == field_script(title@, TITLE_BODY_JS@),
{
    make_field_js(title, TITLE_BODY_JS)
}

/// The script writing `desc` into the Pin's description field.
pub fn make_description_js(desc: &str) -> (r: String)
    ensures
        r@ == field_script(desc@, DESC_BODY_JS@),
{
    make_field_js(desc, DESC_BODY_JS)
}

/// The script writing `link` into the Pin's link field.
pub fn make_link_js(link: &str) -> (r: String)
    ensures
        r@ == field_script(link@, LINK_BODY_JS@),
{
    make_field_js(link, LINK_BODY_JS)
}

/// A board script: `needle` bound to the quoted board name, then `body`.
pub open spec fn board_script(name: Seq<char>, body: Seq<char>) -> Seq<char> {
    "(() => {\n  const needle = "@ + json_quoted(name) + ";\n"@ + body + "\n})()"@
}

/// The board script running `body` for the board `name`.
fn make_board_js(name: &str, body: &str) -> (r: String)
    ensures
        r@ == board_script(name@, body@),
{
    let mut out = str_chars("(() => {\n  const needle = ");
    push_str(&mut out, js_string(name).as_str());
    push_str(&mut out, ";\n");
    push_str(&mut out, body);
    push_str(&mut out, "\n})()");
    chars_to_string(&out)
}

/// The script typing the board name into the picker's search box.
pub fn board_search_js(board_name: &str) -> (r: String)
    ensures
        r@ == board_script(board_name@, SEARCH_JS_BODY@),
{
    make_board_js(board_name, SEARCH_JS_BODY)
}

/// The script clicking the picker item of the board.
pub fn board_pick_js(board_name: &str) -> (r: String)
    ensures
        r@ == board_script(board_name@, PICK_JS_BODY@),
{
    make_board_js(board_name, PICK_JS_BODY)
}

// ---------------------------------------------------------------------
// Boards
// ---------------------------------------------------------------------

/// The board name in a board address: its last path segment (trailing
/// slashes ignored), dashes read as spaces.
pub open spec fn board_name_model(url: Seq<char>) -> Seq<char> {
    replaced(split_char(strip_all_suffix(url, "/"@), '/').last(), "-"@, " "@)
}

/// The name of the board at `board_url`.
pub fn board_name(board_url: &str) -> (r: String)
    ensures
        r@ == board_name_model(board_url@),
{
    let stripped = strip_all_suffix_exec(&str_chars(board_url), &str_chars("/"));
    let segs = split_chars(&stripped, '/');
    proof {
        assert(segs@.map_values(|v: Vec<char>| v@).len() == segs@.len());
        lemma_split_nonempty(stripped@, '/');
    }
    let last = &segs[segs.len() - 1];
    assert(last@ == split_char(stripped@, '/').last()) by {
        assert(segs@.map_values(|v: Vec<char>| v@)[segs@.len() - 1] == segs@[segs@.len() - 1]@);
    }
    let r = replace_chars(last, &str_chars("-"), &str_chars(" "));
    chars_to_string(&r)
}

/// Splitting gives at least one piece.
pub proof fn lemma_split_nonempty(s: Seq<char>, c: char)
    ensures
        split_char(s, c).len() >= 1,
    decreases s.len(),
{
    crate::text::lemma_first_index_bound(s, c);
    let k = crate::text::first_index(s, c);
    if k < s.len() {
        lemma_split_nonempty(s.skip(k + 1), c);
    }
}

// ---------------------------------------------------------------------
// Reading the page
// ---------------------------------------------------------------------

/// The page is a login wall: its address is a login page, or its text asks
/// to log in with a password.
pub open spec fn login_wall(url: Seq<char>, text: Seq<char>) -> bool {
    contains(url, "/login"@) || (contains(lowercase_of(text), "log in"@) && contains(
        lowercase_of(text),
        "password"@,
    ))
}

/// Whether the address `url` is a login page, which settles the question
/// before the page's text is read.
pub fn login_url(url: &str) -> (b: bool)
    ensures
        b == contains(url@, "/login"@),
{
    str_contains(url, "/login")
}

/// Whether the page at `url`, showing `inner_text`, is a login wall.
pub fn is_login_interstitial(url: &str, inner_text: &str) -> (b: bool)
    ensures
        b == login_wall(url@, inner_text@),
{
    if login_url(url) {
        return true;
    }
    let lower = to_lowercase(inner_text);
    str_contains(lower.as_str(), "log in") && str_contains(lower.as_str(), "password")
}

/// The Pin builder has rendered: there is a file input, or enough buttons,
/// or some buttons and some form fields.
pub open spec fn ui_ready(inputs: u64, editables: u64, file_inputs: u64, buttons: u64) -> bool {
    file_inputs >= 1 || buttons >= 6 || (buttons >= 4 && inputs + editables >= 3)
}

/// Whether the counts the poll script reports show a rendered builder.
pub fn pin_ui_ready(inputs: u64, editables: u64, file_inputs: u64, buttons: u64, iframes: u64) -> (b: bool)
    ensures
        b == ui_ready(inputs, editables, file_inputs, buttons),
{
    if file_inputs >= 1 {
        return true;
    }
    let formish = inputs.saturating_add(editables);
    buttons >= 6 || (buttons >= 4 && formish >= 3)
}

// ---------------------------------------------------------------------
// Retrying
// ---------------------------------------------------------------------

/// Attempts at something the page may not be ready for: `tries` made so
/// far out of `limit`, with a pause of `delay_ms` after each failure.
pub struct Retry {
    pub tries: u32,
    pub limit: u32,
    pub delay_ms: u64,
}

impl Retry {
    /// No more tries than the limit are made.
    pub open spec fn wf(&self) -> bool {
        self.tries <= self.limit
    }

    /// Up to `limit` tries, `delay_ms` apart.
    pub fn new(limit: u32, delay_ms: u64) -> (r: Retry)
        ensures
            r.wf(),
            r.tries == 0,
            r.limit == limit,
            r.delay_ms == delay_ms,
    {
        Retry { tries: 0, limit, delay_ms }
    }

    /// Whether another try is due.
    pub fn can_try(&self) -> (b: bool)
        ensures
            b == (self.tries < self.limit),
    {
        self.tries < self.limit
    }

    /// Counts a failed try; gives the pause before the next one.
    pub fn failed(&mut self) -> (pause_ms: u64)
        requires
            old(self).wf(),
            old(self).tries < old(self).limit,
        ensures
            final(self).wf(),
            final(self).tries == old(self).tries + 1,
            final(self).limit == old(self).limit,
            final(self).delay_ms == old(self).delay_ms,
            pause_ms == old(self).delay_ms,
    {
        self.tries = self.tries + 1;
        self.delay_ms
    }
}

/// Waiting for the builder: 360 polls, 500 ms apart (three minutes).
pub fn pin_ui_retry() -> (r: Retry)
    ensures
        r.wf() && r.tries == 0 && r.limit == 360 && r.delay_ms == 500,
{
    Retry::new(360, 500)
}

/// Looking for the image input: 40 rounds, 500 ms apart.
pub fn upload_retry() -> (r: Retry)
    ensures
        r.wf() && r.tries == 0 && r.limit == 40 && r.delay_ms == 500,
{
    Retry::new(40, 500)
}

/// Filling the fields: 20 rounds, 500 ms apart.
pub fn fields_retry() -> (r: Retry)
    ensures
        r.wf() && r.tries == 0 && r.limit == 20 && r.delay_ms == 500,
{
    Retry::new(20, 500)
}

/// Opening the board picker: 12 tries, 600 ms apart.
pub fn board_picker_retry() -> (r: Retry)
    ensures
        r.wf() && r.tries == 0 && r.limit == 12 && r.delay_ms == 600,
{
    Retry::new(12, 600)
}

/// Picking the board: 6 tries, 600 ms apart.
pub fn board_item_retry() -> (r: Retry)
    ensures
        r.wf() && r.tries == 0 && r.limit == 6 && r.delay_ms == 600,
{
    Retry::new(6, 600)
}

/// Clicking publish: 14 tries, 600 ms apart.
pub fn publish_retry() -> (r: Retry)
    ensures
        r.wf() && r.tries == 0 && r.limit == 14 && r.delay_ms == 600,
{
    Retry::new(14, 600)
}

/// The selectors tried, in turn, for the image input.
pub fn upload_selectors() -> (r: Vec<&'static str>)
    ensures
        r@.len() == 2,
        r@[0]@ == "input[type='file']"@,
        r@[1]@ == "input[type=\"file\"]"@,
{
    let mut v: Vec<&'static str> = Vec::new();
    v.push("input[type='file']");
    v.push("input[type=\"file\"]");
    v
}

// ---------------------------------------------------------------------
// Filling the fields
// ---------------------------------------------------------------------

/// A field of the Pin.
#[derive(Debug, PartialEq, Eq, Structural, Clone, Copy)]
pub enum Field {
    Title,
    Description,
    Link,
}

/// Which fields are filled in; a Pin without a description counts its
/// description as filled.
pub struct FieldFill {
    pub title_ok: bool,
    pub desc_ok: bool,
    pub link_ok: bool,
    pub has_desc: bool,
}

/// What is reported once the fields are given up on or filled.
#[derive(Debug, PartialEq, Eq, Structural)]
pub struct FieldsReport {
    pub missing_title: bool,
    pub missing_description: bool,
    pub missing_link: bool,
    /// The page's fields are worth recording: the title or the link is
    /// missing.
    pub dump_fields: bool,
}

impl FieldFill {
    /// Nothing filled in yet; the description only if there is one.
    pub fn new(has_desc: bool) -> (f: FieldFill)
        ensures
            !f.title_ok && !f.link_ok,
            f.desc_ok == !has_desc,
            f.has_desc == has_desc,
    {
        FieldFill { title_ok: false, desc_ok: !has_desc, link_ok: false, has_desc }
    }

    /// The field is still to be filled in.
    pub open spec fn is_pending(&self, f: Field) -> bool {
        match f {
            Field::Title => !self.title_ok,
            Field::Description => !self.desc_ok,
            Field::Link => !self.link_ok,
        }
    }

    /// Whether the field `f` is still to be filled in.
    pub fn pending(&self, f: Field) -> (b: bool)
        ensures
            b == self.is_pending(f),
    {
        match f {
            Field::Title => !self.title_ok,
            Field::Description => !self.desc_ok,
            Field::Link => !self.link_ok,
        }
    }

    /// Records whether the script for the pending field `f` found it.
    pub fn record(&mut self, f: Field, ok: bool)
        requires
            old(self).is_pending(f),
        ensures
            final(self).has_desc == old(self).has_desc,
            final(self).title_ok == if f == Field::Title { ok } else { old(self).title_ok },
            final(self).desc_ok == if f == Field::Description { ok } else { old(self).desc_ok },
            final(self).link_ok == if f == Field::Link { ok } else { old(self).link_ok },
    {
        match f {
            Field::Title => self.title_ok = ok,
            Field::Description => self.desc_ok = ok,
            Field::Link => self.link_ok = ok,
        }
    }

    /// Whether every field is filled in.
    pub fn all_set(&self) -> (b: bool)
        ensures
            b == (self.title_ok && self.desc_ok && self.link_ok),
    {
        self.title_ok && self.desc_ok && self.link_ok
    }

    /// What to report: each field not filled in, and whether the page's
    /// fields are worth recording.
    pub fn report(&self) -> (r: FieldsReport)
        ensures
            r.missing_title == !self.title_ok,
            r.missing_description == (self.has_desc && !self.desc_ok),
            r.missing_link == !self.link_ok,
            r.dump_fields == !(self.title_ok && self.link_ok),
    {
        FieldsReport {
            missing_title: !self.title_ok,
            missing_description: self.has_desc && !self.desc_ok,
            missing_link: !self.link_ok,
            dump_fields: !(self.title_ok && self.link_ok),
        }
    }
}

/// The scripts filling in a Pin: the title, the description (when there is
/// one, after truncation) and the link.
pub struct FieldScripts {
    pub title_js: String,
    pub description_js: Option<String>,
    pub link_js: String,
}

/// The scripts that fill in the Pin titled `title`, described by
/// `description`, linking to `link`.
pub fn fill_text_fields(title: &str, description: Option<&str>, link: &str) -> (r: FieldScripts)
    ensures
        r.title_js@ == field_script(title@, TITLE_BODY_JS@),
        r.link_js@ == field_script(link@, LINK_BODY_JS@),
        match description_model(osv(description)) {
            Some(d) => r.description_js matches Some(js) && js@ == field_script(d, DESC_BODY_JS@),
            None => r.description_js is None,
        },
{
    let desc = truncate_description(description);
    let description_js = match &desc {
        Some(d) => Some(make_description_js(d.as_str())),
        None => None,
    };
    FieldScripts {
        title_js: make_title_js(title),
        description_js,
        link_js: make_link_js(link),
    }
}

// ---------------------------------------------------------------------
// Whether to post, and the steps of posting
// ---------------------------------------------------------------------

/// The board used when none is set.
pub open spec fn default_board() -> Seq<char> {
    "https://uk.pinterest.com/forster2474/random-thoughts/"@
}

/// Why no Pin is posted.
#[derive(Debug, PartialEq, Eq, Structural)]
pub enum SkipReason {
    /// There is no article address (or it is blank).
    NoArticleUrl,
    /// There is no image, or the file is not there.
    NoImage,
    /// Posting to Pinterest is not switched on.
    Disabled,
}

/// Whether and where to post a Pin.
pub enum PinPlan {
    Skip(SkipReason),
    Post { board_url: String, link: String },
}

/// A setting that is present and not blank.
pub open spec fn set_value(v: Option<Seq<char>>) -> bool {
    v matches Some(s) && trim(s).len() > 0
}

/// The decision for a Pin linking to `article_url` with an image that
/// exists or not, given the board and switch settings: the board is the
/// one set or the default; no address, no image, or a switch not set to
/// `1` skips the post, in that order.
pub open spec fn pin_plan_model(
    board: Option<Seq<char>>,
    article_url: Option<Seq<char>>,
    image_exists: bool,
    enabled: Option<Seq<char>>,
) -> Result<(Seq<char>, Seq<char>), SkipReason> {
    if !set_value(article_url) {
        Err(SkipReason::NoArticleUrl)
    } else if !image_exists {
        Err(SkipReason::NoImage)
    } else if enabled != Some("1"@) {
        Err(SkipReason::Disabled)
    } else {
        Ok((if set_value(board) { board->0 } else { default_board() }, article_url->0))
    }
}

/// Whether a setting is present and not blank.
fn is_set(v: Option<&str>) -> (b: bool)
    ensures
        b == set_value(osv(v)),
{
    match v {
        Some(s) => trim_str(s).len() > 0,
        None => false,
    }
}

/// Decides whether to post a Pin for the article at `article_url` with
/// its image, from the settings `board_setting` and `enabled_setting`.
pub fn maybe_post_pin_to_board(
    board_setting: Option<&str>,
    article_url: Option<&str>,
    image_exists: bool,
    enabled_setting: Option<&str>,
) -> (r: PinPlan)
    ensures
        match r {
            PinPlan::Skip(why) => pin_plan_model(
                osv(board_setting),
                osv(article_url),
                image_exists,
                osv(enabled_setting),
            ) == Err::<(Seq<char>, Seq<char>), SkipReason>(why),
            PinPlan::Post { board_url, link } => pin_plan_model(
                osv(board_setting),
                osv(article_url),
                image_exists,
                osv(enabled_setting),
            ) == Ok::<(Seq<char>, Seq<char>), SkipReason>((board_url@, link@)),
        },
{
    let board_url = match board_setting {
        Some(b) => if is_set(board_setting) {
            String::from_str(b)
        } else {
            String::from_str("https://uk.pinterest.com/forster2474/random-thoughts/")
        },
        None => String::from_str("https://uk.pinterest.com/forster2474/random-thoughts/"),
    };
    if !is_set(article_url) {
        return PinPlan::Skip(SkipReason::NoArticleUrl);
    }
    if !image_exists {
        return PinPlan::Skip(SkipReason::NoImage);
    }
    let on = match enabled_setting {
        Some(e) => crate::json::chars_equal(&str_chars(e), &str_chars("1")),
        None => false,
    };
    if !on {
        return PinPlan::Skip(SkipReason::Disabled);
    }
    match article_url {
        Some(u) => PinPlan::Post { board_url, link: String::from_str(u) },
        None => PinPlan::Skip(SkipReason::NoArticleUrl),
    }
}

/// The steps of posting a Pin, in order.
#[derive(Debug, PartialEq, Eq, Structural, Clone, Copy)]
pub enum PinStage {
    OpenBoard,
    OpenBuilder,
    WaitForUi,
    CheckLogin,
    UploadImage,
    FillFields,
    ChooseBoard,
    Publish,
    Done,
}

/// Why posting a Pin failed.
#[derive(Debug, PartialEq, Eq, Structural)]
pub enum PinError {
    BoardNotOpened,
    BuilderNotOpened,
    UiNotRendered,
    LoginRequired,
    NoUploadInput,
    NoPublishButton,
}

/// The step after `stage`, or the error that ends the post, `ok` telling
/// whether the step went through (for the login check: no login wall).
/// Filling the fields and choosing the board are best effort: they never
/// end the post.
pub open spec fn next_stage_model(stage: PinStage, ok: bool) -> Result<PinStage, PinError> {
    match stage {
        PinStage::OpenBoard => if ok { Ok(PinStage::OpenBuilder) } else { Err(PinError::BoardNotOpened) },
        PinStage::OpenBuilder => if ok { Ok(PinStage::WaitForUi) } else { Err(PinError::BuilderNotOpened) },
        PinStage::WaitForUi => if ok { Ok(PinStage::CheckLogin) } else { Err(PinError::UiNotRendered) },
        PinStage::CheckLogin => if ok { Ok(PinStage::UploadImage) } else { Err(PinError::LoginRequired) },
        PinStage::UploadImage => if ok { Ok(PinStage::FillFields) } else { Err(PinError::NoUploadInput) },
        PinStage::FillFields => Ok(PinStage::ChooseBoard),
        PinStage::ChooseBoard => Ok(PinStage::Publish),
        PinStage::Publish => if ok { Ok(PinStage::Done) } else { Err(PinError::NoPublishButton) },
        PinStage::Done => Ok(PinStage::Done),
    }
}

/// The step after `stage`, given whether it went through.
pub fn next_stage(stage: PinStage, ok: bool) -> (r: Result<PinStage, PinError>)
    ensures
        r == next_stage_model(stage, ok),
{
    match stage {
        PinStage::OpenBoard => if ok { Ok(PinStage::OpenBuilder) } else { Err(PinError::BoardNotOpened) },
        PinStage::OpenBuilder => if ok { Ok(PinStage::WaitForUi) } else { Err(PinError::BuilderNotOpened) },
        PinStage::WaitForUi => if ok { Ok(PinStage::CheckLogin) } else { Err(PinError::UiNotRendered) },
        PinStage::CheckLogin => if ok { Ok(PinStage::UploadImage) } else { Err(PinError::LoginRequired) },
        PinStage::UploadImage => if ok { Ok(PinStage::FillFields) } else { Err(PinError::NoUploadInput) },
        PinStage::FillFields => Ok(PinStage::ChooseBoard),
        PinStage::ChooseBoard => Ok(PinStage::Publish),
        PinStage::Publish => if ok { Ok(PinStage::Done) } else { Err(PinError::NoPublishButton) },
        PinStage::Done => Ok(PinStage::Done),
    }
}

/// The pause after a step that went through, in milliseconds: the board
/// page and the builder are given time to load, an uploaded image time to
/// be processed, and a publish time to complete.
pub fn pause_after(stage: PinStage) -> (ms: u64)
    ensures
        ms == match stage {
            PinStage::OpenBoard => 1200u64,
            PinStage::OpenBuilder => 3000u64,
            PinStage::UploadImage => 4500u64,
            PinStage::Publish => 3500u64,
            _ => 0u64,
        },
{
    match stage {
        PinStage::OpenBoard => 1200,
        PinStage::OpenBuilder => 3000,
        PinStage::UploadImage => 4500,
        PinStage::Publish => 3500,
        _ => 0,
    }
}

/// The address of the Pin builder.
pub const PIN_BUILDER_URL: &'static str = "https://www.pinterest.com/pin-builder/";

} // verus!
