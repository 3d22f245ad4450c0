//! Product images of a retail product page: where the page lists them,
//! which of them to keep, and the names they are saved under.
use vstd::prelude::*;
use crate::text::{
    chars_to_string, contains, contains_exec, find_char_from, first_index, joined, join_exec,
    lemma_first_index_bound, occurs_at, occurs_at_exec, push_all, push_str, slice_chars, str_chars,
    zero_padded, zero_padded_exec,
};
use crate::json::{json_get, opt_str, JsonValue};
use crate::markup::{css_select_attr, opt_view, opt_views, select_attr, views};
use crate::json::chars_equal;

verus! {

// ---------------------------------------------------------------------
// The colour-image array embedded in a page's script
// ---------------------------------------------------------------------

/// The scanner's state while it walks an array literal.
pub struct ScanState {
    pub depth: int,
    pub in_str: bool,
    pub esc: bool,
}

/// One step of the scanner over character `c`.
pub open spec fn scan_step(st: ScanState, c: char) -> ScanState {
    if c == '\\' && st.in_str {
        ScanState { depth: st.depth, in_str: st.in_str, esc: true }
    } else if c == '"' && !st.esc {
        ScanState { depth: st.depth, in_str: !st.in_str, esc: st.esc }
    } else if c == '[' && !st.in_str {
        ScanState { depth: st.depth + 1, in_str: st.in_str, esc: st.esc }
    } else if c == ']' && !st.in_str {
        ScanState { depth: st.depth - 1, in_str: st.in_str, esc: st.esc }
    } else {
        ScanState { depth: st.depth, in_str: st.in_str, esc: false }
    }
}

/// Scanning `s` from position `i` in state `st`: the position of the `]`
/// that brings the depth back to zero, if any.
pub open spec fn close_index(s: Seq<char>, st: ScanState, i: int) -> Option<int>
    decreases s.len() - i,
{
    if i < 0 || i >= s.len() {
        None
    } else if s[i] == ']' && !st.in_str && st.depth - 1 == 0 {
        Some(i)
    } else {
        close_index(s, scan_step(st, s[i]), i + 1)
    }
}

/// The first position at or after `i` where `p` occurs in `s`.
pub open spec fn find_from(s: Seq<char>, p: Seq<char>, i: int) -> Option<int>
    decreases s.len() + 1 - i,
{
    if i < 0 || i > s.len() {
        None
    } else if occurs_at(s, p, i) {
        Some(i)
    } else {
        find_from(s, p, i + 1)
    }
}

/// The marker that introduces the colour-image array.
pub open spec fn initial_marker() -> Seq<char> {
    "'initial':"@
}

/// The text of the array literal that follows the first `'initial':` in
/// `s`: from the first `[` after the marker up to the `]` that closes it,
/// string literals and backslash escapes inside them taken into account.
pub open spec fn color_array_text(s: Seq<char>) -> Option<Seq<char>> {
    match find_from(s, initial_marker(), 0) {
        None => None,
        Some(k) => {
            let j = k + first_index(s.skip(k), '[');
            if j >= s.len() {
                None
            } else {
                match close_index(s, ScanState { depth: 0, in_str: false, esc: false }, j) {
                    Some(e) => Some(s.subrange(j, e + 1)),
                    None => None,
                }
            }
        },
    }
}

/// The first position at or after `from` where `p` occurs in `s`.
pub fn find_from_exec(s: &Vec<char>, p: &Vec<char>, from: usize) -> (r: Option<usize>)
    requires
        from <= s.len(),
    ensures
        r matches Some(k) ==> from <= k <= s.len(),
        match r {
            Some(k) => find_from(s@, p@, from as int) == Some(k as int),
            None => find_from(s@, p@, from as int) is None,
        },
{
    let mut i: usize = from;
    loop
        invariant
            from <= i <= s.len(),
            find_from(s@, p@, from as int) == find_from(s@, p@, i as int),
        decreases s.len() - i,
    {
        if occurs_at_exec(s, p, i) {
            return Some(i);
        }
        if i == s.len() {
            assert(find_from(s@, p@, i + 1) is None);
            return None;
        }
        i = i + 1;
    }
}

/// Walks `s` from `j`, where a `[` stands, to the `]` that closes it.
fn close_index_exec(s: &Vec<char>, j: usize) -> (r: Option<usize>)
    requires
        j < s.len(),
        s@[j as int] == '[',
    ensures
        r matches Some(e) ==> j < e < s.len(),
        match r {
            Some(e) => close_index(s@, ScanState { depth: 0, in_str: false, esc: false }, j as int)
                == Some(e as int),
            None => close_index(
                s@,
                ScanState { depth: 0, in_str: false, esc: false },
                j as int,
            ) is None,
        },
{
    let ghost init = ScanState { depth: 0, in_str: false, esc: false };
    let mut depth: u64 = 1;
    let mut in_str = false;
    let mut esc = false;
    let mut i: usize = j + 1;
    assert(scan_step(init, s@[j as int]) == ScanState { depth: 1, in_str: false, esc: false });
    while i < s.len()
        invariant
            j < i <= s.len(),
            init == (ScanState { depth: 0, in_str: false, esc: false }),
            1 <= depth <= i - j,
            close_index(s@, init, j as int) == close_index(
                s@,
                ScanState { depth: depth as int, in_str, esc },
                i as int,
            ),
        decreases s.len() - i,
    {
        let c = s[i];
        if c == ']' && !in_str && depth == 1 {
            assert(close_index(s@, ScanState { depth: depth as int, in_str, esc }, i as int) == Some(
                i as int,
            ));
            return Some(i);
        }
        if c == '\\' && in_str {
            esc = true;
        } else if c == '"' && !esc {
            in_str = !in_str;
        } else if c == '[' && !in_str {
            depth = depth + 1;
        } else if c == ']' && !in_str {
            depth = depth - 1;
        } else {
            esc = false;
        }
        i = i + 1;
    }
    None
}

/// The text of the colour-image array literal of a product page, if the
/// page has one.
pub fn color_image_array_text(html: &str) -> (r: Option<String>)
    ensures
        opt_view(r) == color_array_text(html@),
{
    let s = str_chars(html);
    let marker = str_chars("'initial':");
    match find_from_exec(&s, &marker, 0) {
        None => None,
        Some(k) => {
            let j = find_char_from(&s, k, '[');
            if j >= s.len() {
                return None;
            }
            proof {
                lemma_first_index_bound(s@.skip(k as int), '[');
                assert(s@.skip(k as int)[j - k] == s@[j as int]);
            }
            match close_index_exec(&s, j) {
                Some(e) => {
                    let t = slice_chars(&s, j, e + 1);
                    Some(chars_to_string(&t))
                },
                None => None,
            }
        },
    }
}

// ---------------------------------------------------------------------
// High-resolution image URLs from the parsed array
// ---------------------------------------------------------------------

/// The member name that holds an image's high-resolution URL.
pub open spec fn hires_key() -> Seq<char> {
    "hiRes"@
}

/// The `hiRes` string of every item that has one, in order.
pub open spec fn hires_urls_model(vals: Seq<JsonValue>) -> Seq<Seq<char>>
    decreases vals.len(),
{
    if vals.len() == 0 {
        seq![]
    } else {
        hires_urls_model(vals.drop_last()) + match opt_str(json_get(vals.last(), hires_key())) {
            Some(u) => seq![u],
            None => seq![],
        }
    }
}

/// The `hiRes` URL of every parsed array item that has one, in order.
pub fn hires_urls(vals: &Vec<JsonValue>) -> (r: Vec<String>)
    ensures
        views(r@) == hires_urls_model(vals@),
{
    let mut r: Vec<String> = Vec::new();
    let mut i: usize = 0;
    while i < vals.len()
        invariant
            i <= vals.len(),
            views(r@) == hires_urls_model(vals@.take(i as int)),
        decreases vals.len() - i,
    {
        assert(vals@.take(i + 1).drop_last() == vals@.take(i as int));
        assert(vals@.take(i + 1).last() == vals@[i as int]);
        let found = vals[i].get("hiRes");
        match found {
            Some(v) => {
                match v.as_str() {
                    Some(u) => {
                        let ghost before = r@;
                        r.push(String::from_str(u));
                        assert(views(r@) == views(before) + seq![u@]);
                    },
                    None => {},
                }
            },
            None => {},
        }
        i = i + 1;
    }
    assert(vals@.take(vals.len() as int) == vals@);
    r
}

// ---------------------------------------------------------------------
// Image URLs from the page's <img> tags
// ---------------------------------------------------------------------

/// The item at `i`, or `None` past the end.
pub open spec fn opt_item(v: Seq<Option<Seq<char>>>, i: int) -> Option<Seq<char>> {
    if 0 <= i < v.len() {
        v[i]
    } else {
        None
    }
}

/// The first present value of three.
pub open spec fn first_present(
    a: Option<Seq<char>>,
    b: Option<Seq<char>>,
    c: Option<Seq<char>>,
) -> Option<Seq<char>> {
    if a is Some {
        a
    } else if b is Some {
        b
    } else {
        c
    }
}

/// The path that marks an image as a product image.
pub open spec fn product_image_marker() -> Seq<char> {
    "m.media-amazon.com/images/I/"@
}

/// For the first `n` `<img>` tags: their source (`data-old-hires`, else
/// `data-src`, else `src`) when it is a product image, each source once, in
/// order of first appearance.
pub open spec fn img_sources_kept(
    hires: Seq<Option<Seq<char>>>,
    data_src: Seq<Option<Seq<char>>>,
    src: Seq<Option<Seq<char>>>,
    n: int,
) -> Seq<Seq<char>>
    decreases n,
{
    if n <= 0 {
        seq![]
    } else {
        let prev = img_sources_kept(hires, data_src, src, n - 1);
        match first_present(opt_item(hires, n - 1), opt_item(data_src, n - 1), opt_item(src, n - 1)) {
            Some(u) => if contains(u, product_image_marker()) && !prev.contains(u) {
                prev.push(u)
            } else {
                prev
            },
            None => prev,
        }
    }
}

/// The product-image URLs among the `<img>` tags of a page, given the three
/// source attributes of every tag.
pub open spec fn img_sources_model(html: Seq<char>) -> Seq<Seq<char>> {
    match (
        css_select_attr(html, "img"@, "data-old-hires"@),
        css_select_attr(html, "img"@, "data-src"@),
        css_select_attr(html, "img"@, "src"@),
    ) {
        (Some(a), Some(b), Some(c)) => img_sources_kept(a, b, c, a.len() as int),
        _ => seq![],
    }
}

/// Whether `v` holds characters equal to `u`.
fn holds(v: &Vec<Vec<char>>, u: &Vec<char>) -> (r: bool)
    ensures
        r == v@.map_values(|x: Vec<char>| x@).contains(u@),
{
    let ghost vs = v@.map_values(|x: Vec<char>| x@);
    let mut i: usize = 0;
    while i < v.len()
        invariant
            i <= v.len(),
            vs == v@.map_values(|x: Vec<char>| x@),
            forall|j: int| 0 <= j < i ==> vs[j] != u@,
        decreases v.len() - i,
    {
        if chars_equal(&v[i], u) {
            assert(vs[i as int] == u@);
            return true;
        }
        i = i + 1;
    }
    false
}

/// The optional attribute at `i`, as characters.
fn attr_at(v: &Vec<Option<String>>, i: usize) -> (r: Option<Vec<char>>)
    ensures
        match r {
            Some(c) => opt_item(opt_views(v@), i as int) == Some(c@),
            None => opt_item(opt_views(v@), i as int) is None,
        },
{
    if i < v.len() {
        match &v[i] {
            Some(s) => Some(str_chars(s.as_str())),
            None => None,
        }
    } else {
        None
    }
}

/// The product-image URLs among a page's `<img>` tags: each tag's
/// `data-old-hires`, else `data-src`, else `src`, kept when it points at the
/// product-image store, each URL once, in page order.
pub fn img_tag_image_urls(html: &str) -> (r: Vec<String>)
    ensures
        views(r@) == img_sources_model(html@),
{
    let a = select_attr(html, "img", "data-old-hires");
    let b = select_attr(html, "img", "data-src");
    let c = select_attr(html, "img", "src");
    let (a, b, c) = match (a, b, c) {
        (Some(a), Some(b), Some(c)) => (a, b, c),
        _ => {
            return Vec::new();
        },
    };
    let marker = str_chars("m.media-amazon.com/images/I/");
    let ghost av = opt_views(a@);
    let ghost bv = opt_views(b@);
    let ghost cv = opt_views(c@);
    let mut kept: Vec<Vec<char>> = Vec::new();
    let mut out: Vec<String> = Vec::new();
    let mut i: usize = 0;
    while i < a.len()
        invariant
            i <= a.len(),
            av == opt_views(a@),
            bv == opt_views(b@),
            cv == opt_views(c@),
            marker@ == product_image_marker(),
            kept@.map_values(|x: Vec<char>| x@) == img_sources_kept(av, bv, cv, i as int),
            views(out@) == img_sources_kept(av, bv, cv, i as int),
        decreases a.len() - i,
    {
        let ghost prev = img_sources_kept(av, bv, cv, i as int);
        let x = attr_at(&a, i);
        let y = attr_at(&b, i);
        let z = attr_at(&c, i);
        let chosen = match x {
            Some(x) => Some(x),
            None => match y {
                Some(y) => Some(y),
                None => z,
            },
        };
        match chosen {
            Some(u) => {
                if contains_exec(&u, &marker) && !holds(&kept, &u) {
                    let s = chars_to_string(&u);
                    let ghost ko = kept@;
                    let ghost oo = out@;
                    kept.push(u);
                    out.push(s);
                    assert(kept@.map_values(|x: Vec<char>| x@) == ko.map_values(|x: Vec<char>| x@).push(
                        u@,
                    ));
                    assert(views(out@) == views(oo).push(u@));
                }
            },
            None => {},
        }
        i = i + 1;
    }
    assert(av.len() == a@.len());
    out
}

/// The product images of a page: the high-resolution URLs of the colour
/// image array when the page has one that parses (`parsed_array`), else
/// the product-image `<img>` sources.
pub fn product_image_urls(html: &str, parsed_array: Option<Vec<JsonValue>>) -> (r: Vec<String>)
    ensures
        views(r@) == match parsed_array {
            Some(vals) => hires_urls_model(vals@),
            None => img_sources_model(html@),
        },
{
    match parsed_array {
        Some(vals) => hires_urls(&vals),
        None => img_tag_image_urls(html),
    }
}

// ---------------------------------------------------------------------
// Saved file names and the Markdown block that shows them
// ---------------------------------------------------------------------

/// The file name the `index`-th image (from zero) is saved under:
/// `image_001.jpg`, `image_002.jpg`, ...
pub open spec fn image_file_name_model(index: nat) -> Seq<char> {
    "image_"@ + zero_padded(index + 1, 3) + ".jpg"@
}

/// The file name the `index`-th downloaded image (from zero) is saved under.
pub fn image_file_name(index: u64) -> (r: String)
    requires
        index < u64::MAX,
    ensures
        r@ == image_file_name_model(index as nat),
{
    let mut v = str_chars("image_");
    let d = zero_padded_exec(index + 1, 3);
    push_all(&mut v, &d);
    push_str(&mut v, ".jpg");
    chars_to_string(&v)
}

/// One Markdown image line per saved image.
pub open spec fn image_lines(names: Seq<Seq<char>>) -> Seq<Seq<char>> {
    names.map_values(|n: Seq<char>| "![product image](images/"@ + n + ")"@)
}

/// The "Product Images" Markdown section for the saved image names.
pub open spec fn image_block_model(names: Seq<Seq<char>>) -> Seq<char> {
    "## Product Images\n\n"@ + joined(image_lines(names), "\n"@)
}

/// The "Product Images" Markdown section listing the saved images.
pub fn image_block(names: &Vec<String>) -> (r: String)
    ensures
        r@ == image_block_model(views(names@)),
{
    let mut lines: Vec<Vec<char>> = Vec::new();
    let mut i: usize = 0;
    while i < names.len()
        invariant
            i <= names.len(),
            lines@.len() == i,
            forall|j: int| 0 <= j < i ==> #[trigger] lines@[j]@ == image_lines(views(names@))[j],
        decreases names.len() - i,
    {
        let mut l = str_chars("![product image](images/");
        push_str(&mut l, names[i].as_str());
        push_str(&mut l, ")");
        lines.push(l);
        i = i + 1;
    }
    assert(lines@.map_values(|v: Vec<char>| v@) == image_lines(views(names@)));
    let sep = str_chars("\n");
    let body = join_exec(&lines, &sep);
    let mut out = str_chars("## Product Images\n\n");
    push_all(&mut out, &body);
    chars_to_string(&out)
}

} // verus!
