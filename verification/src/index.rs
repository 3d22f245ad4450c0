//! The site index: one link per review page, sorted by page title, each
//! link's path URL-encoded segment by segment and its text HTML-escaped.
use vstd::prelude::*;
use crate::text::{
    chars_to_string, first_index, join_exec, joined, lemma_first_index_bound, push_all, push_str,
    replace_chars, replaced, slice_chars, str_chars, trim, trim_str, find_char_from,
};
use crate::encode::{url_encode, url_encoded};
use crate::markup::{regex_capture1, regex_first_group, views};
use crate::sort::{keyed_view, stable_sort_by_key, stable_sorted};

verus! {

// ---------------------------------------------------------------------
// Escaping
// ---------------------------------------------------------------------

/// `s` with `&`, `<`, `>` and `"` written as character references, `&`
/// first so that no reference is escaped twice.
pub open spec fn html_escaped(s: Seq<char>) -> Seq<char> {
    replaced(
        replaced(replaced(replaced(s, "&"@, "&amp;"@), "<"@, "&lt;"@), ">"@, "&gt;"@),
        "\""@,
        "&quot;"@,
    )
}

/// `s` made safe to stand as HTML text or in a quoted attribute.
pub fn html_escape(s: &str) -> (r: String)
    ensures
        r@ == html_escaped(s@),
{
    let v = str_chars(s);
    let a = replace_chars(&v, &str_chars("&"), &str_chars("&amp;"));
    let b = replace_chars(&a, &str_chars("<"), &str_chars("&lt;"));
    let c = replace_chars(&b, &str_chars(">"), &str_chars("&gt;"));
    let d = replace_chars(&c, &str_chars("\""), &str_chars("&quot;"));
    chars_to_string(&d)
}

// ---------------------------------------------------------------------
// Titles
// ---------------------------------------------------------------------

/// The expression matching a page's `<title>` element, its text captured.
pub open spec fn title_pattern() -> Seq<char> {
    "(?si)<title\\b[^>]*>(.*?)</title>"@
}

/// The title of an HTML page: the text of its first `<title>` element,
/// without surrounding whitespace.
pub open spec fn page_title_model(html: Seq<char>) -> Option<Seq<char>> {
    match regex_first_group(title_pattern(), html) {
        Some(Some(t)) => Some(trim(t)),
        _ => None,
    }
}

/// The title of the HTML page `html`, if it has one.
pub fn extract_title(html: &str) -> (r: Option<String>)
    ensures
        match r {
            Some(t) => page_title_model(html@) == Some(t@),
            None => page_title_model(html@) is None,
        },
{
    match regex_capture1("(?si)<title\\b[^>]*>(.*?)</title>", html) {
        Some(Some(t)) => {
            let v = trim_str(t.as_str());
            Some(chars_to_string(&v))
        },
        _ => None,
    }
}

/// The link for a page found at `rel` below the site root, titled `title`
/// when the page has a title: `(rel, title or rel)`; none for the index
/// page itself.
pub open spec fn index_link_model(rel: Seq<char>, title: Option<Seq<char>>) -> Option<(Seq<char>, Seq<char>)> {
    if rel == "index.html"@ {
        None
    } else {
        match title {
            Some(t) => Some((rel, t)),
            None => Some((rel, rel)),
        }
    }
}

/// The index link of the page at `rel`, whose title is `title`.
pub fn index_link(rel: &str, title: Option<String>) -> (r: Option<(String, String)>)
    ensures
        match r {
            Some(l) => index_link_model(rel@, match title {
                Some(t) => Some(t@),
                None => None,
            }) == Some((l.0@, l.1@)),
            None => index_link_model(rel@, match title {
                Some(t) => Some(t@),
                None => None,
            }) is None,
        },
{
    let rv = str_chars(rel);
    let iv = str_chars("index.html");
    if crate::json::chars_equal(&rv, &iv) {
        return None;
    }
    match title {
        Some(t) => Some((String::from_str(rel), t)),
        None => Some((String::from_str(rel), String::from_str(rel))),
    }
}

// ---------------------------------------------------------------------
// Sorting
// ---------------------------------------------------------------------

/// Links keyed by their titles.
pub open spec fn title_keyed(links: Seq<(String, String)>) -> Seq<(Seq<char>, (String, String))> {
    links.map_values(|l: (String, String)| (l.1@, l))
}

/// The views of links.
pub open spec fn link_views(links: Seq<(String, String)>) -> Seq<(Seq<char>, Seq<char>)> {
    links.map_values(|l: (String, String)| (l.0@, l.1@))
}

/// Links stably sorted by title.
pub open spec fn sorted_links_model(links: Seq<(String, String)>) -> Seq<(Seq<char>, Seq<char>)> {
    stable_sorted(title_keyed(links)).map_values(
        |x: (Seq<char>, (String, String))| (x.1.0@, x.1.1@),
    )
}

/// `links` stably sorted by title (`sort_by` comparing titles).
pub fn sort_links_by_title(links: Vec<(String, String)>) -> (r: Vec<(String, String)>)
    ensures
        link_views(r@) == sorted_links_model(links@),
{
    let ghost orig = links@;
    let ghost n = orig.len();
    let mut items: Vec<(Vec<char>, (String, String))> = Vec::new();
    let mut rest = links;
    while rest.len() > 0
        invariant
            n == orig.len(),
            rest@.len() <= n,
            rest@ == orig.skip(n - rest@.len()),
            items@.len() == n - rest@.len(),
            forall|j: int|
                0 <= j < items@.len() ==> (#[trigger] items@[j]).0@ == orig[j].1@ && items@[j].1
                    == orig[j],
        decreases rest.len(),
    {
        let ghost done = n - rest@.len();
        let l = rest.remove(0);
        assert(rest@ == orig.skip(done + 1));
        assert(l == orig[done]);
        let k = str_chars(l.1.as_str());
        items.push((k, l));
    }
    assert(keyed_view(items@) == title_keyed(orig));
    let sorted = stable_sort_by_key(items);
    let mut out: Vec<(String, String)> = Vec::new();
    let mut sorted = sorted;
    let ghost sv = keyed_view(sorted@);
    let ghost m = sorted@.len();
    while sorted.len() > 0
        invariant
            m == sv.len(),
            sorted@.len() <= m,
            keyed_view(sorted@) == sv.skip(m - sorted@.len()),
            out@.len() == m - sorted@.len(),
            forall|j: int| 0 <= j < out@.len() ==> #[trigger] out@[j] == sv[j].1,
        decreases sorted.len(),
    {
        let ghost done = m - sorted@.len();
        let ghost before = sorted@;
        let x = sorted.remove(0);
        assert(keyed_view(sorted@) == sv.skip(done + 1)) by {
            assert(sorted@ == before.subrange(1, before.len() as int));
            assert(keyed_view(sorted@) == keyed_view(before).subrange(1, before.len() as int));
            assert(sv.skip(done).subrange(1, before.len() as int) == sv.skip(done + 1));
        }
        assert(x.1 == sv[done].1) by {
            assert(keyed_view(before)[0] == sv.skip(done)[0]);
        }
        out.push(x.1);
    }
    assert(link_views(out@) == sv.map_values(
        |x: (Seq<char>, (String, String))| (x.1.0@, x.1.1@),
    ));
    out
}

// ---------------------------------------------------------------------
// The index page
// ---------------------------------------------------------------------

/// The pieces of `s` between its `c` characters (`str::split` with a
/// character): one more piece than there are `c`s.
pub open spec fn split_char(s: Seq<char>, c: char) -> Seq<Seq<char>>
    decreases s.len(),
{
    let k = first_index(s, c);
    proof {
        lemma_first_index_bound(s, c);
    }
    if k >= s.len() {
        seq![s]
    } else {
        seq![s.take(k)] + split_char(s.skip(k + 1), c)
    }
}

/// A page path with each `/`-separated segment percent-encoded.
pub open spec fn encoded_path(href: Seq<char>) -> Seq<char> {
    joined(split_char(href, '/').map_values(|seg: Seq<char>| url_encoded(seg)), "/"@)
}

/// One list item: the link to `href` with the HTML-escaped `text`.
pub open spec fn link_item(href: Seq<char>, text: Seq<char>) -> Seq<char> {
    "<li><a href=\""@ + encoded_path(href) + "\">"@ + html_escaped(text) + "</a></li>"@
}

/// The text of the index page before the list items.
pub open spec fn index_head() -> Seq<char> {
    "<!DOCTYPE html>\n<html lang=\"en\">\n<head>\n<!-- Google tag (gtag.js) -->\n<script async src=\"https://www.googletagmanager.com/gtag/js?id=G-QQMJVW98SP\"></script>\n<script>\n  window.dataLayer = window.dataLayer || [];\n  function gtag(){dataLayer.push(arguments);}\n  gtag('js', new Date());\n\n  gtag('config', 'G-QQMJVW98SP');\n</script>\n<meta charset=\"UTF-8\">\n<title>Product Index</title>\n</head>\n<body>\n<h1>Product Index</h1>\n<ul>\n"@
}

/// The text of the index page after the list items.
pub open spec fn index_tail() -> Seq<char> {
    "\n</ul>\n</body>\n</html>"@
}

/// The index page listing `links` in the order given, one item per line.
pub open spec fn index_page_model(links: Seq<(Seq<char>, Seq<char>)>) -> Seq<char> {
    index_head() + joined(
        links.map_values(|l: (Seq<char>, Seq<char>)| link_item(l.0, l.1)),
        "\n"@,
    ) + index_tail()
}

/// The pieces of `s` between its `c` characters.
pub fn split_chars(s: &Vec<char>, c: char) -> (r: Vec<Vec<char>>)
    ensures
        r@.map_values(|v: Vec<char>| v@) == split_char(s@, c),
{
    let mut r: Vec<Vec<char>> = Vec::new();
    let ghost mut done: Seq<Seq<char>> = seq![];
    let mut i: usize = 0;
    assert(s@.skip(0) == s@);
    loop
        invariant
            i <= s.len(),
            done + split_char(s@.skip(i as int), c) == split_char(s@, c),
            r@.map_values(|v: Vec<char>| v@) == done,
        decreases s.len() - i,
    {
        let ghost rest = s@.skip(i as int);
        let k = find_char_from(s, i, c);
        if k >= s.len() {
            let piece = slice_chars(s, i, s.len());
            assert(rest == s@.subrange(i as int, s@.len() as int));
            proof {
                done = done + seq![rest];
            }
            r.push(piece);
            assert(r@.map_values(|v: Vec<char>| v@) == done);
            return r;
        }
        let piece = slice_chars(s, i, k);
        assert(rest.take(k - i) == s@.subrange(i as int, k as int));
        assert(rest.skip(k - i + 1) == s@.skip(k + 1));
        proof {
            done = done + seq![rest.take(k - i)];
        }
        r.push(piece);
        assert(r@.map_values(|v: Vec<char>| v@) == done);
        i = k + 1;
    }
}

/// `href` with each `/`-separated segment percent-encoded.
pub fn encode_path(href: &str) -> (r: Vec<char>)
    ensures
        r@ == encoded_path(href@),
{
    let segs = split_chars(&str_chars(href), '/');
    let ghost want = split_char(href@, '/').map_values(|seg: Seq<char>| url_encoded(seg));
    let mut parts: Vec<Vec<char>> = Vec::new();
    let mut i: usize = 0;
    while i < segs.len()
        invariant
            i <= segs.len(),
            segs@.map_values(|v: Vec<char>| v@) == split_char(href@, '/'),
            want == split_char(href@, '/').map_values(|seg: Seq<char>| url_encoded(seg)),
            parts@.len() == i,
            forall|j: int| 0 <= j < i ==> #[trigger] parts@[j]@ == want[j],
        decreases segs.len() - i,
    {
        assert(segs@.map_values(|v: Vec<char>| v@)[i as int] == segs@[i as int]@);
        let seg = chars_to_string(&segs[i]);
        let e = url_encode(seg.as_str());
        parts.push(str_chars(e.as_str()));
        i = i + 1;
    }
    assert(parts@.map_values(|v: Vec<char>| v@) == want);
    join_exec(&parts, &str_chars("/"))
}

/// The index page listing `links` (path, title) in the order given.
pub fn build_index_html(links: &Vec<(String, String)>) -> (r: String)
    ensures
        r@ == index_page_model(link_views(links@)),
{
    let ghost want = link_views(links@).map_values(
        |l: (Seq<char>, Seq<char>)| link_item(l.0, l.1),
    );
    let mut items: Vec<Vec<char>> = Vec::new();
    let mut i: usize = 0;
    while i < links.len()
        invariant
            i <= links.len(),
            want == link_views(links@).map_values(
                |l: (Seq<char>, Seq<char>)| link_item(l.0, l.1),
            ),
            items@.len() == i,
            forall|j: int| 0 <= j < i ==> #[trigger] items@[j]@ == want[j],
        decreases links.len() - i,
    {
        let mut item = str_chars("<li><a href=\"");
        let enc = encode_path(links[i].0.as_str());
        push_all(&mut item, &enc);
        push_str(&mut item, "\">");
        let esc = html_escape(links[i].1.as_str());
        push_str(&mut item, esc.as_str());
        push_str(&mut item, "</a></li>");
        items.push(item);
        i = i + 1;
    }
    assert(items@.map_values(|v: Vec<char>| v@) == want);
    let list = join_exec(&items, &str_chars("\n"));
    let mut out = str_chars(
        "<!DOCTYPE html>\n<html lang=\"en\">\n<head>\n<!-- Google tag (gtag.js) -->\n<script async src=\"https://www.googletagmanager.com/gtag/js?id=G-QQMJVW98SP\"></script>\n<script>\n  window.dataLayer = window.dataLayer || [];\n  function gtag(){dataLayer.push(arguments);}\n  gtag('js', new Date());\n\n  gtag('config', 'G-QQMJVW98SP');\n</script>\n<meta charset=\"UTF-8\">\n<title>Product Index</title>\n</head>\n<body>\n<h1>Product Index</h1>\n<ul>\n",
    );
    push_all(&mut out, &list);
    push_str(&mut out, "\n</ul>\n</body>\n</html>");
    chars_to_string(&out)
}

} // verus!
