//! The review page: a Markdown review rendered into the HTML page template,
//! with the title, a short description, the price, the images and the
//! year filled in, and each second-level section set in a card.
use vstd::prelude::*;
use crate::text::{
    chars_to_string, copy_chars, decimal, decimal_exec, join_exec, joined, lines, lines_exec, push_all,
    push_str, replace_str, replaced, starts_with, str_chars, strip_all_prefix,
    strip_all_prefix_exec, strip_all_suffix, strip_all_suffix_exec, trim, trim_chars,
};
use crate::markup::{
    commonmark_html, markdown_to_html, regex_all_matches, regex_find, regex_find_all,
    regex_first_match, regex_split, regex_split_pieces, views,
};

verus! {

// ---------------------------------------------------------------------
// Title
// ---------------------------------------------------------------------

/// The first of `ls` that starts with `"# "`.
pub open spec fn first_heading(ls: Seq<Seq<char>>) -> Option<Seq<char>>
    decreases ls.len(),
{
    if ls.len() == 0 {
        None
    } else if "# "@.is_prefix_of(ls[0]) {
        Some(ls[0])
    } else {
        first_heading(ls.drop_first())
    }
}

/// The page title: the first `# ` heading line of the review, its `# `
/// marks and surrounding whitespace removed; empty when there is none.
pub open spec fn page_title(md: Seq<char>) -> Seq<char> {
    match first_heading(lines(md)) {
        Some(l) => trim(strip_all_prefix(l, "# "@)),
        None => seq![],
    }
}

/// The page title of the Markdown review `md`.
pub fn review_title(md: &str) -> (r: String)
    ensures
        r@ == page_title(md@),
{
    let ls = lines_exec(&str_chars(md));
    let mark = str_chars("# ");
    assert(lines(md@).skip(0) == lines(md@));
    let mut i: usize = 0;
    while i < ls.len()
        invariant
            i <= ls.len(),
            mark@ == "# "@,
            ls@.len() == lines(md@).len(),
            forall|j: int| 0 <= j < ls@.len() ==> #[trigger] ls@[j]@ == lines(md@)[j],
            first_heading(lines(md@)) == first_heading(lines(md@).skip(i as int)),
        decreases ls.len() - i,
    {
        let ghost rest = lines(md@).skip(i as int);
        assert(rest[0] == ls@[i as int]@);
        if starts_with(&ls[i], &mark) {
            let stripped = strip_all_prefix_exec(&ls[i], &mark);
            let t = trim_chars(&stripped);
            return chars_to_string(&t);
        }
        assert(rest.drop_first() == lines(md@).skip(i + 1));
        i = i + 1;
    }
    assert(lines(md@).skip(i as int).len() == 0);
    String::new()
}

// ---------------------------------------------------------------------
// Short description
// ---------------------------------------------------------------------

/// Lines that cannot open the short description: headings, images,
/// quotes, list items and blank lines.
pub open spec fn skipped_line(l: Seq<char>) -> bool {
    ||| "# "@.is_prefix_of(l)
    ||| "##"@.is_prefix_of(l)
    ||| "!"@.is_prefix_of(l)
    ||| ">"@.is_prefix_of(l)
    ||| "-"@.is_prefix_of(l)
    ||| "*"@.is_prefix_of(l)
    ||| trim(l).len() == 0
}

/// The first of `ls` that is not a skipped line.
pub open spec fn first_text_line(ls: Seq<Seq<char>>) -> Option<Seq<char>>
    decreases ls.len(),
{
    if ls.len() == 0 {
        None
    } else if !skipped_line(ls[0]) {
        Some(ls[0])
    } else {
        first_text_line(ls.drop_first())
    }
}

/// The HTML of one Markdown line without its paragraph tags and without
/// surrounding whitespace.
pub open spec fn inline_html(l: Seq<char>) -> Seq<char> {
    trim(strip_all_suffix(strip_all_prefix(commonmark_html(l), "<p>"@), "</p>"@))
}

/// The short description: the first line of ordinary text in the review,
/// rendered as inline HTML.
pub open spec fn first_paragraph_model(md: Seq<char>) -> Option<Seq<char>> {
    match first_text_line(lines(md)) {
        Some(l) => Some(inline_html(l)),
        None => None,
    }
}

/// Whether a line cannot open the short description.
fn is_skipped_line(l: &Vec<char>) -> (b: bool)
    ensures
        b == skipped_line(l@),
{
    starts_with(l, &str_chars("# ")) || starts_with(l, &str_chars("##")) || starts_with(
        l,
        &str_chars("!"),
    ) || starts_with(l, &str_chars(">")) || starts_with(l, &str_chars("-")) || starts_with(
        l,
        &str_chars("*"),
    ) || trim_chars(l).len() == 0
}

/// The short description of the Markdown review `md`, if it has a line of
/// ordinary text.
pub fn first_paragraph(md: &str) -> (r: Option<String>)
    ensures
        match r {
            Some(s) => first_paragraph_model(md@) == Some(s@),
            None => first_paragraph_model(md@) is None,
        },
{
    let ls = lines_exec(&str_chars(md));
    assert(lines(md@).skip(0) == lines(md@));
    let mut i: usize = 0;
    while i < ls.len()
        invariant
            i <= ls.len(),
            ls@.len() == lines(md@).len(),
            forall|j: int| 0 <= j < ls@.len() ==> #[trigger] ls@[j]@ == lines(md@)[j],
            first_text_line(lines(md@)) == first_text_line(lines(md@).skip(i as int)),
        decreases ls.len() - i,
    {
        let ghost rest = lines(md@).skip(i as int);
        assert(rest[0] == ls@[i as int]@);
        if !is_skipped_line(&ls[i]) {
            let line = chars_to_string(&ls[i]);
            let html = markdown_to_html(line.as_str());
            let h = str_chars(html.as_str());
            let a = strip_all_prefix_exec(&h, &str_chars("<p>"));
            let b = strip_all_suffix_exec(&a, &str_chars("</p>"));
            let t = trim_chars(&b);
            return Some(chars_to_string(&t));
        }
        assert(rest.drop_first() == lines(md@).skip(i + 1));
        i = i + 1;
    }
    assert(lines(md@).skip(i as int).len() == 0);
    None
}

// ---------------------------------------------------------------------
// Price
// ---------------------------------------------------------------------

/// The first price in the review: a pound, dollar or euro amount, found by
/// a regular expression.
pub open spec fn price_model(md: Seq<char>) -> Option<Seq<char>> {
    match regex_first_match("(?:GBP|\\$|\u{a3}|\u{20ac})\\d+(?:\\.\\d+)?"@, md) {
        Some(Some(m)) => Some(m),
        _ => None,
    }
}

/// The first price written in the Markdown review `md`, if any.
pub fn extract_price(md: &str) -> (r: Option<String>)
    ensures
        match r {
            Some(s) => price_model(md@) == Some(s@),
            None => price_model(md@) is None,
        },
{
    match regex_find("(?:GBP|\\$|\u{a3}|\u{20ac})\\d+(?:\\.\\d+)?", md) {
        Some(Some(m)) => Some(m),
        _ => None,
    }
}

// ---------------------------------------------------------------------
// Images
// ---------------------------------------------------------------------

/// The main image: `images/` and the first image's name, or nothing.
pub open spec fn image_url_model(images: Seq<Seq<char>>) -> Seq<char> {
    if images.len() > 0 {
        "images/"@ + images[0]
    } else {
        seq![]
    }
}

/// The main image's path of the saved `images`, or an empty string.
pub fn image_url(images: &Vec<String>) -> (r: String)
    ensures
        r@ == image_url_model(views(images@)),
{
    if images.len() > 0 {
        let mut out = str_chars("images/");
        push_str(&mut out, images[0].as_str());
        chars_to_string(&out)
    } else {
        String::new()
    }
}

/// The gallery element of one image.
pub open spec fn gallery_img(name: Seq<char>) -> Seq<char> {
    "<img src=\"images/"@ + name
        + "\" class=\"img-fluid rounded m-2\" style=\"max-width:300px\" alt=\"product image\">"@
}

/// The gallery: an image element for each image but the first, one per
/// line; nothing when there is at most one image.
pub open spec fn gallery_model(images: Seq<Seq<char>>) -> Seq<char> {
    if images.len() <= 1 {
        seq![]
    } else {
        joined(images.skip(1).map_values(|n: Seq<char>| gallery_img(n)), "\n"@)
    }
}

/// The gallery HTML of the saved `images`.
pub fn gallery_html(images: &Vec<String>) -> (r: String)
    ensures
        r@ == gallery_model(views(images@)),
{
    if images.len() <= 1 {
        return String::new();
    }
    let ghost want = views(images@).skip(1).map_values(|n: Seq<char>| gallery_img(n));
    let mut parts: Vec<Vec<char>> = Vec::new();
    let mut i: usize = 1;
    while i < images.len()
        invariant
            1 <= i <= images.len(),
            want == views(images@).skip(1).map_values(|n: Seq<char>| gallery_img(n)),
            parts@.len() == i - 1,
            forall|j: int| 0 <= j < parts@.len() ==> #[trigger] parts@[j]@ == want[j],
        decreases images.len() - i,
    {
        let mut p = str_chars("<img src=\"images/");
        push_str(&mut p, images[i].as_str());
        push_str(
            &mut p,
            "\" class=\"img-fluid rounded m-2\" style=\"max-width:300px\" alt=\"product image\">",
        );
        parts.push(p);
        i = i + 1;
    }
    assert(parts@.map_values(|v: Vec<char>| v@) == want);
    let out = join_exec(&parts, &str_chars("\n"));
    chars_to_string(&out)
}

// ---------------------------------------------------------------------
// Placeholders
// ---------------------------------------------------------------------

/// Replaces every `placeholder` in `s` by `value`.
pub fn replace_all(s: &mut String, placeholder: &str, value: &str)
    ensures
        final(s)@ == replaced(old(s)@, placeholder@, value@),
{
    let r = replace_str(s.as_str(), placeholder, value);
    *s = chars_to_string(&r);
}

// ---------------------------------------------------------------------
// Year
// ---------------------------------------------------------------------

/// The mean length of a year in seconds (365.25 days).
pub const SECONDS_PER_YEAR: u64 = 31_557_600;

/// The year `secs` seconds after the start of 1970, counting years of
/// 365.25 days.
pub open spec fn year_of(secs: u64) -> int {
    1970 + secs / SECONDS_PER_YEAR
}

/// The year `secs` seconds after the start of 1970.
pub fn year_from_unix_seconds(secs: u64) -> (y: i64)
    ensures
        y == year_of(secs),
{
    1970 + (secs / SECONDS_PER_YEAR) as i64
}

/// `SystemTime::now()` as whole seconds since the Unix epoch, 0 for a
/// clock set before it.  It is the time: nothing is promised of it.
#[verifier::external_body]
fn unix_seconds_now() -> (secs: u64) {
    std::time::SystemTime::now().duration_since(std::time::UNIX_EPOCH).unwrap_or_default().as_secs()
}

/// The current year, from the system clock.
pub fn current_year() -> (y: i64)
    ensures
        y >= 1970,
        exists|secs: u64| y == year_of(secs),
{
    let secs = unix_seconds_now();
    year_from_unix_seconds(secs)
}

// ---------------------------------------------------------------------
// Body
// ---------------------------------------------------------------------

/// `ls` without its leading blank lines.
pub open spec fn drop_blank(ls: Seq<Seq<char>>) -> Seq<Seq<char>>
    decreases ls.len(),
{
    if ls.len() > 0 && trim(ls[0]).len() == 0 {
        drop_blank(ls.drop_first())
    } else {
        ls
    }
}

/// The lines of the page body: the review's lines after the leading blank
/// ones, without the title line when it comes first.
pub open spec fn body_lines(md: Seq<char>) -> Seq<Seq<char>> {
    let ls = drop_blank(lines(md));
    if ls.len() > 0 && "# "@.is_prefix_of(ls[0]) {
        ls.drop_first()
    } else {
        ls
    }
}

/// The Markdown of the page body, its lines joined by line breaks.
pub open spec fn body_markdown_model(md: Seq<char>) -> Seq<char> {
    joined(body_lines(md), "\n"@)
}

/// The Markdown of the page body of the review `md`: the title is on the
/// page already, so it does not come twice.
pub fn body_markdown(md: &str) -> (r: String)
    ensures
        r@ == body_markdown_model(md@),
{
    let ls = lines_exec(&str_chars(md));
    let ghost all = lines(md@);
    assert(all.skip(0) == all);
    let mut i: usize = 0;
    while i < ls.len() && trim_chars(&ls[i]).len() == 0
        invariant
            i <= ls.len(),
            all == lines(md@),
            ls@.len() == all.len(),
            forall|j: int| 0 <= j < ls@.len() ==> #[trigger] ls@[j]@ == all[j],
            drop_blank(all) == drop_blank(all.skip(i as int)),
        decreases ls.len() - i,
    {
        assert(all.skip(i as int)[0] == ls@[i as int]@);
        assert(all.skip(i as int).drop_first() == all.skip(i + 1));
        i = i + 1;
    }
    proof {
        if i < ls.len() {
            assert(all.skip(i as int)[0] == ls@[i as int]@);
        }
        assert(drop_blank(all.skip(i as int)) == all.skip(i as int));
    }
    if i < ls.len() && starts_with(&ls[i], &str_chars("# ")) {
        assert(all.skip(i as int)[0] == ls@[i as int]@);
        assert(all.skip(i as int).drop_first() == all.skip(i + 1));
        i = i + 1;
    }
    let ghost body = all.skip(i as int);
    assert(body == body_lines(md@));
    let mut parts: Vec<Vec<char>> = Vec::new();
    let start = i;
    while i < ls.len()
        invariant
            start <= i <= ls.len(),
            ls@.len() == all.len(),
            forall|j: int| 0 <= j < ls@.len() ==> #[trigger] ls@[j]@ == all[j],
            body == all.skip(start as int),
            parts@.len() == i - start,
            forall|j: int| 0 <= j < parts@.len() ==> #[trigger] parts@[j]@ == body[j],
        decreases ls.len() - i,
    {
        parts.push(copy_chars(&ls[i]));
        i = i + 1;
    }
    assert(parts@.map_values(|v: Vec<char>| v@) == body);
    let out = join_exec(&parts, &str_chars("\n"));
    chars_to_string(&out)
}

// ---------------------------------------------------------------------
// Cards
// ---------------------------------------------------------------------

/// The card holding one second-level heading (given the card-title class)
/// and the HTML that follows it up to the next one.
pub open spec fn card(h2: Seq<char>, body: Seq<char>) -> Seq<char> {
    "<div class=\"card my-3\"><div class=\"card-body\">"@ + replaced(
        h2,
        "<h2>"@,
        "<h2 class=\"card-title\">"@,
    ) + body + "</div></div>"@
}

/// `ps[i]`, or nothing past the end.
pub open spec fn piece(ps: Seq<Seq<char>>, i: int) -> Seq<char> {
    if 0 <= i < ps.len() {
        ps[i]
    } else {
        seq![]
    }
}

/// The cards of the first `n` headings `ms`, the heading `ms[i]` followed
/// by the piece `ps[i + 1]`.
pub open spec fn cards(ms: Seq<Seq<char>>, ps: Seq<Seq<char>>, n: nat) -> Seq<char>
    decreases n,
{
    if n == 0 {
        seq![]
    } else {
        cards(ms, ps, (n - 1) as nat) + card(ms[n - 1], piece(ps, n as int))
    }
}

/// The expression matching one `<h2>` element.
pub open spec fn h2_pattern() -> Seq<char> {
    "(?s)<h2[^>]*>.*?</h2>"@
}

/// `html` with each `<h2>` element and what follows it, up to the next,
/// set in a card: the matches of the heading expression and the pieces
/// between them, put back together.
pub open spec fn cards_model(html: Seq<char>) -> Seq<char> {
    match regex_all_matches(h2_pattern(), html) {
        Some(ms) => match regex_split_pieces(h2_pattern(), html) {
            Some(ps) => piece(ps, 0) + cards(ms, ps, ms.len()),
            None => html,
        },
        None => html,
    }
}

/// The page fragment made of the heading matches `matches` and the pieces
/// `pieces` between them: the first piece, then each heading in a card
/// with the piece after it.
pub fn cards_from_parts(matches: &Vec<String>, pieces: &Vec<String>) -> (r: String)
    ensures
        r@ == piece(views(pieces@), 0) + cards(views(matches@), views(pieces@), matches@.len()),
{
    let ghost msv = views(matches@);
    let ghost psv = views(pieces@);
    let mut out: Vec<char> = Vec::new();
    if pieces.len() > 0 {
        out = str_chars(pieces[0].as_str());
    }
    let mut i: usize = 0;
    while i < matches.len()
        invariant
            i <= matches.len(),
            msv == views(matches@),
            psv == views(pieces@),
            out@ == piece(psv, 0) + cards(msv, psv, i as nat),
        decreases matches.len() - i,
    {
        push_str(&mut out, "<div class=\"card my-3\"><div class=\"card-body\">");
        let h = replace_str(matches[i].as_str(), "<h2>", "<h2 class=\"card-title\">");
        push_all(&mut out, &h);
        if i + 1 < pieces.len() {
            push_str(&mut out, pieces[i + 1].as_str());
        }
        push_str(&mut out, "</div></div>");
        i = i + 1;
    }
    chars_to_string(&out)
}

/// Sets each second-level section of `html` in a card.
pub fn wrap_h2_in_cards(html: &str) -> (r: String)
    ensures
        r@ == cards_model(html@),
{
    let ms = match regex_find_all("(?s)<h2[^>]*>.*?</h2>", html) {
        Some(m) => m,
        None => return String::from_str(html),
    };
    let ps = match regex_split("(?s)<h2[^>]*>.*?</h2>", html) {
        Some(p) => p,
        None => return String::from_str(html),
    };
    cards_from_parts(&ms, &ps)
}

// ---------------------------------------------------------------------
// The page
// ---------------------------------------------------------------------

/// An integer in decimal, with a minus sign when negative.
pub open spec fn int_text(n: int) -> Seq<char> {
    if n < 0 {
        "-"@ + decimal((-n) as nat)
    } else {
        decimal(n as nat)
    }
}

/// The text of `o`, or nothing.
pub open spec fn or_empty(o: Option<Seq<char>>) -> Seq<char> {
    match o {
        Some(s) => s,
        None => seq![],
    }
}

/// The page HTML of the review `md` whose sections, made HTML and set in
/// cards, are `content`: the template with its placeholders replaced, one
/// after another.
pub open spec fn page_with_content(
    md: Seq<char>,
    images: Seq<Seq<char>>,
    template: Seq<char>,
    year: int,
    content: Seq<char>,
) -> Seq<char> {
    let t1 = replaced(template, "{{TITLE}}"@, page_title(md));
    let t2 = replaced(t1, "{{SHORT_DESCRIPTION}}"@, or_empty(first_paragraph_model(md)));
    let t3 = replaced(t2, "{{PRICE}}"@, or_empty(price_model(md)));
    let t4 = replaced(t3, "{{IMAGE_URL}}"@, image_url_model(images));
    let t5 = replaced(t4, "{{BUY_URL}}"@, seq![]);
    let t6 = replaced(t5, "{{CONTENT}}"@, content);
    let t7 = replaced(t6, "{{GALLERY}}"@, gallery_model(images));
    replaced(t7, "{{YEAR}}"@, int_text(year))
}

/// The page HTML of the review `md`.
pub open spec fn page_model(md: Seq<char>, images: Seq<Seq<char>>, template: Seq<char>, year: int) -> Seq<char> {
    page_with_content(md, images, template, year, cards_model(commonmark_html(body_markdown_model(md))))
}

/// `n` in decimal.
pub fn int_text_exec(n: i64) -> (r: String)
    ensures
        r@ == int_text(n as int),
{
    if n < 0 {
        let m: u64 = (-(n as i128)) as u64;
        let mut out = str_chars("-");
        let d = decimal_exec(m);
        push_all(&mut out, &d);
        chars_to_string(&out)
    } else {
        chars_to_string(&decimal_exec(n as u64))
    }
}

/// Fills the page `template` for the review `md`, the saved `images`, the
/// copyright year `year` and the section cards `content`.
pub fn fill_template(md: &str, images: &Vec<String>, template: &str, year: i64, content: &str) -> (r: String)
    ensures
        r@ == page_with_content(md@, views(images@), template@, year as int, content@),
{
    let title = review_title(md);
    let short = match first_paragraph(md) {
        Some(s) => s,
        None => String::new(),
    };
    let price = match extract_price(md) {
        Some(p) => p,
        None => String::new(),
    };
    let image = image_url(images);
    let gallery = gallery_html(images);
    let year_text = int_text_exec(year);
    assert(short@ == or_empty(first_paragraph_model(md@)));
    assert(price@ == or_empty(price_model(md@)));
    proof {
        reveal_strlit("");
        assert(""@ =~= Seq::<char>::empty());
    }
    let mut out = String::from_str(template);
    replace_all(&mut out, "{{TITLE}}", title.as_str());
    let ghost t1 = replaced(template@, "{{TITLE}}"@, page_title(md@));
    assert(out@ == t1);
    replace_all(&mut out, "{{SHORT_DESCRIPTION}}", short.as_str());
    let ghost t2 = replaced(t1, "{{SHORT_DESCRIPTION}}"@, or_empty(first_paragraph_model(md@)));
    assert(out@ == t2);
    replace_all(&mut out, "{{PRICE}}", price.as_str());
    let ghost t3 = replaced(t2, "{{PRICE}}"@, or_empty(price_model(md@)));
    assert(out@ == t3);
    replace_all(&mut out, "{{IMAGE_URL}}", image.as_str());
    let ghost t4 = replaced(t3, "{{IMAGE_URL}}"@, image_url_model(views(images@)));
    assert(out@ == t4);
    replace_all(&mut out, "{{BUY_URL}}", "");
    let ghost t5 = replaced(t4, "{{BUY_URL}}"@, seq![]);
    assert(out@ == t5);
    replace_all(&mut out, "{{CONTENT}}", content);
    let ghost t6 = replaced(t5, "{{CONTENT}}"@, content@);
    assert(out@ == t6);
    replace_all(&mut out, "{{GALLERY}}", gallery.as_str());
    let ghost t7 = replaced(t6, "{{GALLERY}}"@, gallery_model(views(images@)));
    assert(out@ == t7);
    replace_all(&mut out, "{{YEAR}}", year_text.as_str());
    assert(out@ == replaced(t7, "{{YEAR}}"@, int_text(year as int)));
    out
}

/// Renders the Markdown review `md` into the page `template`, with the
/// saved `images` and the copyright year `year`.
pub fn render_with_year(md: &str, images: &Vec<String>, template: &str, year: i64) -> (r: String)
    ensures
        r@ == page_model(md@, views(images@), template@, year as int),
{
    let body = body_markdown(md);
    let html = markdown_to_html(body.as_str());
    let content = wrap_h2_in_cards(html.as_str());
    fill_template(md, images, template, year, content.as_str())
}

/// Renders the Markdown review `md` into the page `template`, with the
/// saved `images` and the current year.
pub fn render(md: &str, images: &Vec<String>, template: &str) -> (r: String)
    ensures
        exists|y: int| y >= 1970 && r@ == page_model(md@, views(images@), template@, y),
{
    let year = current_year();
    render_with_year(md, images, template, year)
}

} // verus!
