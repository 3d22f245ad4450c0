//! Markup processing done by outside crates: regular expressions (`regex`),
//! HTML parsing and CSS selection (`scraper`), HTML to plain text
//! (`html2text`), Markdown to HTML (`pulldown_cmark`), and Unicode lower
//! casing (std).
//!
//! What these compute is named, not restated: each name below stands for
//! the result of one outside function on the given arguments.
use vstd::prelude::*;

verus! {

/// The views of a list of strings.
pub open spec fn views(v: Seq<String>) -> Seq<Seq<char>> {
    v.map_values(|s: String| s@)
}

/// The view of an optional string.
pub open spec fn opt_view(o: Option<String>) -> Option<Seq<char>> {
    match o {
        Some(s) => Some(s@),
        None => None,
    }
}

/// The views of a list of optional strings.
pub open spec fn opt_views(v: Seq<Option<String>>) -> Seq<Option<Seq<char>>> {
    v.map_values(|o: Option<String>| opt_view(o))
}

// ---------------------------------------------------------------------
// regex
// ---------------------------------------------------------------------

/// `Regex::new(pattern)` and then `replace_all(text, rep)`; `None` when the
/// pattern is rejected.
pub uninterp spec fn regex_replace_all_result(
    pattern: Seq<char>,
    text: Seq<char>,
    rep: Seq<char>,
) -> Option<Seq<char>>;

/// `Regex::new(pattern)` and then the text of `find(text)`; `None` when the
/// pattern is rejected.
pub uninterp spec fn regex_first_match(pattern: Seq<char>, text: Seq<char>) -> Option<
    Option<Seq<char>>,
>;

/// `Regex::new(pattern)` and then capture group 1 of `captures(text)`;
/// `None` when the pattern is rejected.
pub uninterp spec fn regex_first_group(pattern: Seq<char>, text: Seq<char>) -> Option<
    Option<Seq<char>>,
>;

/// `Regex::new(pattern)` and then the texts of `find_iter(text)`; `None`
/// when the pattern is rejected.
pub uninterp spec fn regex_all_matches(pattern: Seq<char>, text: Seq<char>) -> Option<
    Seq<Seq<char>>,
>;

/// `Regex::new(pattern)` and then the pieces of `split(text)`; `None` when
/// the pattern is rejected.
pub uninterp spec fn regex_split_pieces(pattern: Seq<char>, text: Seq<char>) -> Option<
    Seq<Seq<char>>,
>;

/// `regex::Regex::replace_all`: compiles `pattern` and replaces every match
/// in `text` by `rep`.  The result is named, not restated.
#[verifier::external_body]
pub(crate) fn regex_replace_all(pattern: &str, text: &str, rep: &str) -> (r: Option<String>)
    ensures
        opt_view(r) == regex_replace_all_result(pattern@, text@, rep@),
{
    let re = regex::Regex::new(pattern).ok()?;
    Some(re.replace_all(text, rep).into_owned())
}

/// `regex::Regex::find`: compiles `pattern` and gives the text of the
/// leftmost match in `text`.  The result is named, not restated.
#[verifier::external_body]
pub(crate) fn regex_find(pattern: &str, text: &str) -> (r: Option<Option<String>>)
    ensures
        match r {
            Some(m) => regex_first_match(pattern@, text@) == Some(opt_view(m)),
            None => regex_first_match(pattern@, text@) is None,
        },
{
    let re = regex::Regex::new(pattern).ok()?;
    Some(re.find(text).map(|m| m.as_str().to_string()))
}

/// `regex::Regex::captures`: compiles `pattern` and gives capture group 1
/// of the leftmost match in `text`.  The result is named, not restated.
#[verifier::external_body]
pub(crate) fn regex_capture1(pattern: &str, text: &str) -> (r: Option<Option<String>>)
    ensures
        match r {
            Some(m) => regex_first_group(pattern@, text@) == Some(opt_view(m)),
            None => regex_first_group(pattern@, text@) is None,
        },
{
    let re = regex::Regex::new(pattern).ok()?;
    Some(re.captures(text).and_then(|c| c.get(1)).map(|m| m.as_str().to_string()))
}

/// `regex::Regex::find_iter`: compiles `pattern` and gives the texts of
/// its successive non-overlapping matches in `text`.  Named, not restated.
#[verifier::external_body]
pub(crate) fn regex_find_all(pattern: &str, text: &str) -> (r: Option<Vec<String>>)
    ensures
        match r {
            Some(v) => regex_all_matches(pattern@, text@) == Some(views(v@)),
            None => regex_all_matches(pattern@, text@) is None,
        },
{
    let re = regex::Regex::new(pattern).ok()?;
    Some(re.find_iter(text).map(|m| m.as_str().to_string()).collect())
}

/// `regex::Regex::split`: compiles `pattern` and gives the pieces of `text`
/// between its matches.  Named, not restated.
#[verifier::external_body]
pub(crate) fn regex_split(pattern: &str, text: &str) -> (r: Option<Vec<String>>)
    ensures
        match r {
            Some(v) => regex_split_pieces(pattern@, text@) == Some(views(v@)),
            None => regex_split_pieces(pattern@, text@) is None,
        },
{
    let re = regex::Regex::new(pattern).ok()?;
    Some(re.split(text).map(|p| p.to_string()).collect())
}

// ---------------------------------------------------------------------
// scraper
// ---------------------------------------------------------------------

/// For the document `html` and the CSS selector `selector`: the text of
/// every matching element, in document order; `None` when the selector is
/// rejected.
pub uninterp spec fn css_select_texts(html: Seq<char>, selector: Seq<char>) -> Option<
    Seq<Seq<char>>,
>;

/// For every element of `html` matching `outer`, in document order: the
/// text of the first element inside it matching `inner`; `None` when a
/// selector is rejected.
pub uninterp spec fn css_first_inner_texts(
    html: Seq<char>,
    outer: Seq<char>,
    inner: Seq<char>,
) -> Option<Seq<Option<Seq<char>>>>;

/// For every element of `html` matching `selector`, in document order: the
/// value of its attribute `attr`; `None` when the selector is rejected.
pub uninterp spec fn css_select_attr(html: Seq<char>, selector: Seq<char>, attr: Seq<char>) -> Option<
    Seq<Option<Seq<char>>>,
>;

/// `scraper::Html::parse_document` then `select`: the concatenated text
/// nodes of each element matching `selector`.  Named, not restated.
#[verifier::external_body]
pub(crate) fn select_texts(html: &str, selector: &str) -> (r: Option<Vec<String>>)
    ensures
        match r {
            Some(v) => css_select_texts(html@, selector@) == Some(views(v@)),
            None => css_select_texts(html@, selector@) is None,
        },
{
    let sel = scraper::Selector::parse(selector).ok()?;
    let doc = scraper::Html::parse_document(html);
    Some(doc.select(&sel).map(|e| e.text().collect::<String>()).collect())
}

/// `scraper::Html::parse_document`, `select(outer)`, and in each match
/// `select(inner).next()`: the text of that first inner element.  Named,
/// not restated.
#[verifier::external_body]
pub(crate) fn select_first_inner_texts(html: &str, outer: &str, inner: &str) -> (r: Option<
    Vec<Option<String>>,
>)
    ensures
        match r {
            Some(v) => css_first_inner_texts(html@, outer@, inner@) == Some(opt_views(v@)),
            None => css_first_inner_texts(html@, outer@, inner@) is None,
        },
{
    let o = scraper::Selector::parse(outer).ok()?;
    let i = scraper::Selector::parse(inner).ok()?;
    let doc = scraper::Html::parse_document(html);
    Some(
        doc.select(&o).map(|e| e.select(&i).next().map(|x| x.text().collect::<String>())).collect(),
    )
}

/// `scraper::Html::parse_document`, `select(selector)`, and
/// `value().attr(attr)` of each match.  Named, not restated.
#[verifier::external_body]
pub(crate) fn select_attr(html: &str, selector: &str, attr: &str) -> (r: Option<
    Vec<Option<String>>,
>)
    ensures
        match r {
            Some(v) => css_select_attr(html@, selector@, attr@) == Some(opt_views(v@)),
            None => css_select_attr(html@, selector@, attr@) is None,
        },
{
    let sel = scraper::Selector::parse(selector).ok()?;
    let doc = scraper::Html::parse_document(html);
    Some(doc.select(&sel).map(|e| e.value().attr(attr).map(|a| a.to_string())).collect())
}

// ---------------------------------------------------------------------
// html2text, pulldown_cmark, lower case
// ---------------------------------------------------------------------

/// The plain-text rendering of `html` wrapped at `width` columns; `None`
/// when rendering fails.
pub uninterp spec fn plain_text_of(html: Seq<char>, width: usize) -> Option<Seq<char>>;

/// `html2text::from_read` on the bytes of `html`.  Named, not restated.
#[verifier::external_body]
pub(crate) fn html_to_text(html: &str, width: usize) -> (r: Option<String>)
    ensures
        opt_view(r) == plain_text_of(html@, width),
{
    html2text::from_read(html.as_bytes(), width).ok()
}

/// The CommonMark HTML rendering of `md` with default options.
pub uninterp spec fn commonmark_html(md: Seq<char>) -> Seq<char>;

/// `pulldown_cmark::html::push_html` of `Parser::new(md)` into an empty
/// string.  Named, not restated.
#[verifier::external_body]
pub(crate) fn markdown_to_html(md: &str) -> (r: String)
    ensures
        r@ == commonmark_html(md@),
{
    let mut out = String::new();
    pulldown_cmark::html::push_html(&mut out, pulldown_cmark::Parser::new(md));
    out
}

/// The Unicode lower-case form of `s`.
pub uninterp spec fn lowercase_of(s: Seq<char>) -> Seq<char>;

/// `str::to_lowercase`.  Named, not restated.
#[verifier::external_body]
pub(crate) fn to_lowercase(s: &str) -> (r: String)
    ensures
        r@ == lowercase_of(s@),
{
    s.to_lowercase()
}

} // verus!
