//! The Markdown summary of a retail product page: title, price, description,
//! feature bullets and the favourable customer reviews.
use vstd::prelude::*;
use crate::text::{
    chars_to_string, contains, contains_exec, first_word, first_word_exec, joined,
    join_exec, parse_i32, parse_i32_model, push_all, push_str, replace_chars, replaced,
    slice_chars, str_chars, trim, trim_chars, trim_end, trim_end_chars, starts_with,
};
use crate::markup::{
    css_first_inner_texts, css_select_texts, html_to_text, lowercase_of, opt_views,
    plain_text_of, regex_replace_all, regex_replace_all_result, select_first_inner_texts,
    select_texts, to_lowercase, views,
};
use crate::images::opt_item;

verus! {

// ---------------------------------------------------------------------
// Review excerpts
// ---------------------------------------------------------------------

/// A character that ends a sentence.
pub open spec fn is_stop(c: char) -> bool {
    c == '.' || c == '!' || c == '?'
}

/// Position of the last sentence end in `s`, or -1.
pub open spec fn last_stop(s: Seq<char>) -> int
    decreases s.len(),
{
    if s.len() == 0 {
        -1
    } else if is_stop(s.last()) {
        s.len() - 1
    } else {
        last_stop(s.drop_last())
    }
}

/// `text` cut to `max` characters: unchanged when it fits, else cut back to
/// its last sentence end within the limit, or, without one, its first `max`
/// characters with trailing whitespace removed and `...` added.
pub open spec fn truncated_review(text: Seq<char>, max: nat) -> Seq<char> {
    if text.len() <= max {
        text
    } else {
        let s = text.take(max as int);
        let k = last_stop(s);
        if k >= 0 {
            s.take(k + 1)
        } else {
            trim_end(s) + "..."@
        }
    }
}

/// A review text cut to at most `max` characters (plus `...`).
pub fn truncate_review(text: &Vec<char>, max: usize) -> (r: Vec<char>)
    ensures
        r@ == truncated_review(text@, max as nat),
{
    if text.len() <= max {
        return slice_chars(text, 0, text.len());
    }
    let s = slice_chars(text, 0, max);
    assert(s@ == text@.take(max as int));
    let mut j: usize = s.len();
    assert(s@.take(s@.len() as int) == s@);
    while j > 0 && !(s[j - 1] == '.' || s[j - 1] == '!' || s[j - 1] == '?')
        invariant
            j <= s.len(),
            last_stop(s@) == last_stop(s@.take(j as int)),
        decreases j,
    {
        assert(s@.take(j as int).drop_last() == s@.take(j - 1));
        j = j - 1;
    }
    if j > 0 {
        assert(last_stop(s@.take(j as int)) == j - 1);
        slice_chars(&s, 0, j)
    } else {
        assert(s@.take(0).len() == 0);
        let mut r = trim_end_chars(&s);
        push_str(&mut r, "...");
        r
    }
}

// ---------------------------------------------------------------------
// The model of the summary
// ---------------------------------------------------------------------

/// The first text, trimmed, or nothing.
pub open spec fn first_trimmed(ts: Seq<Seq<char>>) -> Seq<char> {
    if ts.len() > 0 {
        trim(ts[0])
    } else {
        seq![]
    }
}

/// A text that shows a price in one of the accepted currencies.
pub open spec fn is_price_text(t: Seq<char>) -> bool {
    "$"@.is_prefix_of(t) || "\u{a3}"@.is_prefix_of(t) || "\u{20ac}"@.is_prefix_of(t)
        || "GBP"@.is_prefix_of(t)
}

/// The first trimmed text that shows a price, or nothing.
pub open spec fn first_price(ts: Seq<Seq<char>>) -> Seq<char>
    decreases ts.len(),
{
    if ts.len() == 0 {
        seq![]
    } else if is_price_text(trim(ts[0])) {
        trim(ts[0])
    } else {
        first_price(ts.drop_first())
    }
}

/// A feature bullet worth keeping: not empty and not a "see more" or
/// "make it" link, in any letter case.
pub open spec fn keep_bullet(t: Seq<char>) -> bool {
    t.len() > 0 && !contains(lowercase_of(t), "see more"@) && !contains(
        lowercase_of(t),
        "make it"@,
    )
}

/// The trimmed feature bullets worth keeping, in order.
pub open spec fn bullets_model(ts: Seq<Seq<char>>) -> Seq<Seq<char>>
    decreases ts.len(),
{
    if ts.len() == 0 {
        seq![]
    } else {
        bullets_model(ts.drop_last()) + (if keep_bullet(trim(ts.last())) {
            seq![trim(ts.last())]
        } else {
            seq![]
        })
    }
}

/// The trimmed, non-empty description paragraphs, in order.
pub open spec fn descs_model(ts: Seq<Seq<char>>) -> Seq<Seq<char>>
    decreases ts.len(),
{
    if ts.len() == 0 {
        seq![]
    } else {
        descs_model(ts.drop_last()) + (if trim(ts.last()).len() > 0 {
            seq![trim(ts.last())]
        } else {
            seq![]
        })
    }
}

/// A present text, or nothing.
pub open spec fn opt_text(o: Option<Seq<char>>) -> Seq<char> {
    match o {
        Some(t) => t,
        None => seq![],
    }
}

/// A review body without the page's "read more" widgets and double spaces.
pub open spec fn cleaned_body(b: Seq<char>) -> Seq<char> {
    trim(
        replaced(
            replaced(
                replaced(
                    replaced(
                        replaced(
                            b,
                            "Brief content visible, double tap to read full content."@,
                            ""@,
                        ),
                        "Full content visible, double tap to read brief content."@,
                        ""@,
                    ),
                    "Read more"@,
                    ""@,
                ),
                "Read less"@,
                ""@,
            ),
            "  "@,
            " "@,
        ),
    )
}

/// The star count a rating text starts with (its first word read as an
/// `i32`), or 0.
pub open spec fn star_number(star: Seq<char>) -> int {
    match first_word(star) {
        Some(w) => match parse_i32_model(w) {
            Some(n) => n as int,
            None => 0,
        },
        None => 0,
    }
}

/// The summary line of one review, when it has a body and four stars or more.
pub open spec fn review_entry(
    star: Option<Seq<char>>,
    title: Option<Seq<char>>,
    body: Option<Seq<char>>,
) -> Option<Seq<char>> {
    let s = trim(opt_text(star));
    let t = trim(opt_text(title));
    let b = trim(opt_text(body));
    if b.len() == 0 {
        None
    } else {
        let c = cleaned_body(b);
        if c.len() == 0 {
            None
        } else if star_number(s) >= 4 {
            Some("**"@ + s + "** | "@ + t + ": "@ + truncated_review(c, 280))
        } else {
            None
        }
    }
}

/// The summary lines of the first `n` reviews that qualify.
pub open spec fn reviews_model(
    stars: Seq<Option<Seq<char>>>,
    titles: Seq<Option<Seq<char>>>,
    bodies: Seq<Option<Seq<char>>>,
    n: int,
) -> Seq<Seq<char>>
    decreases n,
{
    if n <= 0 {
        seq![]
    } else {
        reviews_model(stars, titles, bodies, n - 1) + match review_entry(
            opt_item(stars, n - 1),
            opt_item(titles, n - 1),
            opt_item(bodies, n - 1),
        ) {
            Some(r) => seq![r],
            None => seq![],
        }
    }
}

/// A Markdown bullet list, one `- item` line per item.
pub open spec fn list_items(items: Seq<Seq<char>>) -> Seq<char>
    decreases items.len(),
{
    if items.len() == 0 {
        seq![]
    } else {
        list_items(items.drop_last()) + "- "@ + items.last() + "\n"@
    }
}

/// The Markdown summary assembled from its parts; empty parts are left out.
pub open spec fn listing_markdown(
    title: Seq<char>,
    price: Seq<char>,
    descs: Seq<Seq<char>>,
    bullets: Seq<Seq<char>>,
    reviews: Seq<Seq<char>>,
) -> Seq<char> {
    "# "@ + title + "\n\n"@ + (if price.len() > 0 {
        "**Price:** "@ + price + "\n\n"@
    } else {
        seq![]
    }) + (if descs.len() > 0 {
        joined(descs, "\n\n"@) + "\n\n"@
    } else {
        seq![]
    }) + (if bullets.len() > 0 {
        "## Features\n\n"@ + list_items(bullets) + "\n"@
    } else {
        seq![]
    }) + (if reviews.len() > 0 {
        "## Customer Reviews\n\n"@ + list_items(reviews) + "\n"@
    } else {
        seq![]
    })
}

/// The texts a product page yields for each part of its summary.
pub struct ListingTexts {
    /// Texts of the `#productTitle` elements.
    pub titles: Vec<String>,
    /// Texts of the price elements.
    pub prices: Vec<String>,
    /// Texts of the feature-bullet list items.
    pub bullets: Vec<String>,
    /// Texts of the description paragraphs.
    pub descriptions: Vec<String>,
    /// Per review: text of its star rating.
    pub review_stars: Vec<Option<String>>,
    /// Per review: text of its title.
    pub review_titles: Vec<Option<String>>,
    /// Per review: text of its body.
    pub review_bodies: Vec<Option<String>>,
}

/// The summary of a page from the texts of its parts: `None` when it has
/// neither title, description nor bullets.
pub open spec fn listing_model(
    titles: Seq<Seq<char>>,
    prices: Seq<Seq<char>>,
    bullets: Seq<Seq<char>>,
    descs: Seq<Seq<char>>,
    stars: Seq<Option<Seq<char>>>,
    rtitles: Seq<Option<Seq<char>>>,
    bodies: Seq<Option<Seq<char>>>,
) -> Option<Seq<char>> {
    let title = first_trimmed(titles);
    let price = first_price(prices);
    let b = bullets_model(bullets);
    let d = descs_model(descs);
    let r = reviews_model(stars, rtitles, bodies, stars.len() as int);
    if title.len() == 0 && d.len() == 0 && b.len() == 0 {
        None
    } else {
        Some(listing_markdown(title, price, d, b, r))
    }
}

/// `listing_model` on the texts held by `t`.
pub open spec fn listing_texts_model(t: ListingTexts) -> Option<Seq<char>> {
    listing_model(
        views(t.titles@),
        views(t.prices@),
        views(t.bullets@),
        views(t.descriptions@),
        opt_views(t.review_stars@),
        opt_views(t.review_titles@),
        opt_views(t.review_bodies@),
    )
}

// ---------------------------------------------------------------------
// Assembling the summary
// ---------------------------------------------------------------------

fn first_trimmed_exec(ts: &Vec<String>) -> (r: Vec<char>)
    ensures
        r@ == first_trimmed(views(ts@)),
{
    if ts.len() > 0 {
        let v = str_chars(ts[0].as_str());
        trim_chars(&v)
    } else {
        Vec::new()
    }
}

fn is_price_text_exec(t: &Vec<char>) -> (b: bool)
    ensures
        b == is_price_text(t@),
{
    let a = str_chars("$");
    let p = str_chars("\u{a3}");
    let e = str_chars("\u{20ac}");
    let g = str_chars("GBP");
    starts_with(t, &a) || starts_with(t, &p) || starts_with(t, &e) || starts_with(t, &g)
}

fn first_price_exec(ts: &Vec<String>) -> (r: Vec<char>)
    ensures
        r@ == first_price(views(ts@)),
{
    let ghost all = views(ts@);
    let mut i: usize = 0;
    assert(all.skip(0) == all);
    while i < ts.len()
        invariant
            i <= ts.len(),
            all == views(ts@),
            first_price(all) == first_price(all.skip(i as int)),
        decreases ts.len() - i,
    {
        assert(all.skip(i as int).drop_first() == all.skip(i + 1));
        assert(all.skip(i as int)[0] == ts@[i as int]@);
        let v = str_chars(ts[i].as_str());
        let t = trim_chars(&v);
        if is_price_text_exec(&t) {
            return t;
        }
        i = i + 1;
    }
    assert(all.skip(i as int).len() == 0);
    Vec::new()
}

fn keep_bullet_exec(t: &Vec<char>) -> (b: bool)
    ensures
        b == keep_bullet(t@),
{
    if t.len() == 0 {
        return false;
    }
    let s = chars_to_string(t);
    let low = to_lowercase(s.as_str());
    let lv = str_chars(low.as_str());
    let see = str_chars("see more");
    let make = str_chars("make it");
    !contains_exec(&lv, &see) && !contains_exec(&lv, &make)
}

fn bullets_exec(ts: &Vec<String>) -> (r: Vec<Vec<char>>)
    ensures
        r@.map_values(|v: Vec<char>| v@) == bullets_model(views(ts@)),
{
    let ghost all = views(ts@);
    let mut r: Vec<Vec<char>> = Vec::new();
    let mut i: usize = 0;
    while i < ts.len()
        invariant
            i <= ts.len(),
            all == views(ts@),
            r@.map_values(|v: Vec<char>| v@) == bullets_model(all.take(i as int)),
        decreases ts.len() - i,
    {
        assert(all.take(i + 1).drop_last() == all.take(i as int));
        assert(all.take(i + 1).last() == ts@[i as int]@);
        let v = str_chars(ts[i].as_str());
        let t = trim_chars(&v);
        if keep_bullet_exec(&t) {
            let ghost before = r@;
            r.push(t);
            assert(r@.map_values(|v: Vec<char>| v@) == before.map_values(|v: Vec<char>| v@).push(
                r@.last()@,
            ));
        }
        i = i + 1;
    }
    assert(all.take(ts.len() as int) == all);
    r
}

fn descs_exec(ts: &Vec<String>) -> (r: Vec<Vec<char>>)
    ensures
        r@.map_values(|v: Vec<char>| v@) == descs_model(views(ts@)),
{
    let ghost all = views(ts@);
    let mut r: Vec<Vec<char>> = Vec::new();
    let mut i: usize = 0;
    while i < ts.len()
        invariant
            i <= ts.len(),
            all == views(ts@),
            r@.map_values(|v: Vec<char>| v@) == descs_model(all.take(i as int)),
        decreases ts.len() - i,
    {
        assert(all.take(i + 1).drop_last() == all.take(i as int));
        assert(all.take(i + 1).last() == ts@[i as int]@);
        let v = str_chars(ts[i].as_str());
        let t = trim_chars(&v);
        if t.len() > 0 {
            let ghost before = r@;
            r.push(t);
            assert(r@.map_values(|v: Vec<char>| v@) == before.map_values(|v: Vec<char>| v@).push(
                r@.last()@,
            ));
        }
        i = i + 1;
    }
    assert(all.take(ts.len() as int) == all);
    r
}

fn opt_text_at(v: &Vec<Option<String>>, i: usize) -> (r: Vec<char>)
    ensures
        r@ == opt_text(opt_item(opt_views(v@), i as int)),
{
    if i < v.len() {
        match &v[i] {
            Some(s) => str_chars(s.as_str()),
            None => Vec::new(),
        }
    } else {
        Vec::new()
    }
}

fn replace_lit(s: &Vec<char>, p: &str, r: &str) -> (out: Vec<char>)
    ensures
        out@ == replaced(s@, p@, r@),
{
    let pv = str_chars(p);
    let rv = str_chars(r);
    replace_chars(s, &pv, &rv)
}

fn cleaned_body_exec(b: &Vec<char>) -> (r: Vec<char>)
    ensures
        r@ == cleaned_body(b@),
{
    let x1 = replace_lit(b, "Brief content visible, double tap to read full content.", "");
    let x2 = replace_lit(&x1, "Full content visible, double tap to read brief content.", "");
    let x3 = replace_lit(&x2, "Read more", "");
    let x4 = replace_lit(&x3, "Read less", "");
    let x5 = replace_lit(&x4, "  ", " ");
    trim_chars(&x5)
}

fn star_number_exec(star: &Vec<char>) -> (n: i32)
    ensures
        n as int == star_number(star@),
{
    match first_word_exec(star) {
        Some(w) => match parse_i32(&w) {
            Some(n) => n,
            None => 0,
        },
        None => 0,
    }
}

fn review_entry_exec(star: &Vec<char>, title: &Vec<char>, body: &Vec<char>) -> (r: Option<
    Vec<char>,
>)
    ensures
        match r {
            Some(x) => review_entry(Some(star@), Some(title@), Some(body@)) == Some(x@),
            None => review_entry(Some(star@), Some(title@), Some(body@)) is None,
        },
{
    let s = trim_chars(star);
    let t = trim_chars(title);
    let b = trim_chars(body);
    if b.len() == 0 {
        return None;
    }
    let c = cleaned_body_exec(&b);
    if c.len() == 0 {
        return None;
    }
    if star_number_exec(&s) >= 4 {
        let mut out = str_chars("**");
        push_all(&mut out, &s);
        push_str(&mut out, "** | ");
        push_all(&mut out, &t);
        push_str(&mut out, ": ");
        let cut = truncate_review(&c, 280);
        push_all(&mut out, &cut);
        Some(out)
    } else {
        None
    }
}

fn reviews_exec(
    stars: &Vec<Option<String>>,
    titles: &Vec<Option<String>>,
    bodies: &Vec<Option<String>>,
) -> (r: Vec<Vec<char>>)
    ensures
        r@.map_values(|v: Vec<char>| v@) == reviews_model(
            opt_views(stars@),
            opt_views(titles@),
            opt_views(bodies@),
            stars@.len() as int,
        ),
{
    let ghost sv = opt_views(stars@);
    let ghost tv = opt_views(titles@);
    let ghost bv = opt_views(bodies@);
    let mut r: Vec<Vec<char>> = Vec::new();
    let mut i: usize = 0;
    while i < stars.len()
        invariant
            i <= stars.len(),
            sv == opt_views(stars@),
            tv == opt_views(titles@),
            bv == opt_views(bodies@),
            r@.map_values(|v: Vec<char>| v@) == reviews_model(sv, tv, bv, i as int),
        decreases stars.len() - i,
    {
        let s = opt_text_at(stars, i);
        let t = opt_text_at(titles, i);
        let b = opt_text_at(bodies, i);
        let e = review_entry_exec(&s, &t, &b);
        assert(review_entry(opt_item(sv, i as int), opt_item(tv, i as int), opt_item(bv, i as int))
            == review_entry(Some(s@), Some(t@), Some(b@)));
        match e {
            Some(x) => {
                let ghost before = r@;
                r.push(x);
                assert(r@.map_values(|v: Vec<char>| v@) == before.map_values(|v: Vec<char>| v@).push(
                    r@.last()@,
                ));
            },
            None => {},
        }
        i = i + 1;
    }
    r
}

fn list_items_exec(items: &Vec<Vec<char>>) -> (r: Vec<char>)
    ensures
        r@ == list_items(items@.map_values(|v: Vec<char>| v@)),
{
    let ghost all = items@.map_values(|v: Vec<char>| v@);
    let mut r: Vec<char> = Vec::new();
    let mut i: usize = 0;
    while i < items.len()
        invariant
            i <= items.len(),
            all == items@.map_values(|v: Vec<char>| v@),
            r@ == list_items(all.take(i as int)),
        decreases items.len() - i,
    {
        assert(all.take(i + 1).drop_last() == all.take(i as int));
        assert(all.take(i + 1).last() == items@[i as int]@);
        push_str(&mut r, "- ");
        push_all(&mut r, &items[i]);
        push_str(&mut r, "\n");
        i = i + 1;
    }
    assert(all.take(items.len() as int) == all);
    r
}

/// The Markdown summary of a product page from the texts of its parts;
/// `None` when the page has neither title, description nor feature bullets.
pub fn assemble_listing(t: &ListingTexts) -> (r: Option<String>)
    ensures
        match r {
            Some(s) => listing_texts_model(*t) == Some(s@),
            None => listing_texts_model(*t) is None,
        },
{
    let title = first_trimmed_exec(&t.titles);
    let price = first_price_exec(&t.prices);
    let bullets = bullets_exec(&t.bullets);
    let descs = descs_exec(&t.descriptions);
    let reviews = reviews_exec(&t.review_stars, &t.review_titles, &t.review_bodies);
    let ghost dv = descs@.map_values(|v: Vec<char>| v@);
    let ghost bv = bullets@.map_values(|v: Vec<char>| v@);
    let ghost rv = reviews@.map_values(|v: Vec<char>| v@);
    assert(dv.len() == descs.len());
    assert(bv.len() == bullets.len());
    assert(rv.len() == reviews.len());
    let mut out = str_chars("# ");
    push_all(&mut out, &title);
    push_str(&mut out, "\n\n");
    let ghost o1 = out@;
    assert(o1 == "# "@ + title@ + "\n\n"@);
    if price.len() > 0 {
        push_str(&mut out, "**Price:** ");
        push_all(&mut out, &price);
        push_str(&mut out, "\n\n");
    }
    let ghost o2 = out@;
    assert(o2 == o1 + (if price@.len() > 0 { "**Price:** "@ + price@ + "\n\n"@ } else { seq![] }));
    if descs.len() > 0 {
        let sep = str_chars("\n\n");
        let j = join_exec(&descs, &sep);
        push_all(&mut out, &j);
        push_str(&mut out, "\n\n");
    }
    let ghost o3 = out@;
    assert(o3 == o2 + (if dv.len() > 0 { joined(dv, "\n\n"@) + "\n\n"@ } else { seq![] }));
    if bullets.len() > 0 {
        push_str(&mut out, "## Features\n\n");
        let l = list_items_exec(&bullets);
        push_all(&mut out, &l);
        push_str(&mut out, "\n");
    }
    let ghost o4 = out@;
    assert(o4 == o3 + (if bv.len() > 0 { "## Features\n\n"@ + list_items(bv) + "\n"@ } else { seq![] }));
    if reviews.len() > 0 {
        push_str(&mut out, "## Customer Reviews\n\n");
        let l = list_items_exec(&reviews);
        push_all(&mut out, &l);
        push_str(&mut out, "\n");
    }
    assert(out@ == o4 + (if rv.len() > 0 { "## Customer Reviews\n\n"@ + list_items(rv) + "\n"@ } else { seq![] }));
    assert(out@ == listing_markdown(title@, price@, dv, bv, rv));
    if title.len() == 0 && descs.len() == 0 && bullets.len() == 0 {
        None
    } else {
        Some(chars_to_string(&out))
    }
}

// ---------------------------------------------------------------------
// From the page
// ---------------------------------------------------------------------

/// The summary of the page `html`, its parts picked out by CSS selectors;
/// `None` when a selector is rejected.
pub open spec fn product_text_model(html: Seq<char>) -> Option<Seq<char>> {
    match (
        css_select_texts(html, "#productTitle"@),
        css_select_texts(
            html,
            ".a-price .a-offscreen, #priceblock_ourprice, #priceblock_dealprice, .a-price-whole"@,
        ),
        css_select_texts(html, "#feature-bullets li"@),
        css_select_texts(html, "#productDescription p, #aplus p"@),
        css_first_inner_texts(
            html,
            "div[data-hook='review']"@,
            "[data-hook='review-star-rating'] .a-icon-alt, [data-hook='review-star-rating']"@,
        ),
        css_first_inner_texts(
            html,
            "div[data-hook='review']"@,
            "[data-hook='reviewTitle'] span, [data-hook='reviewTitle']"@,
        ),
        css_first_inner_texts(
            html,
            "div[data-hook='review']"@,
            "[data-hook='reviewText'] span, [data-hook='reviewText']"@,
        ),
    ) {
        (Some(a), Some(b), Some(c), Some(d), Some(e), Some(f), Some(g)) => listing_model(
            a,
            b,
            c,
            d,
            e,
            f,
            g,
        ),
        _ => None,
    }
}

/// The texts of a product page's parts, picked out by CSS selectors; `None`
/// when a selector is rejected.
pub fn listing_texts(html: &str) -> (r: Option<ListingTexts>)
    ensures
        match r {
            Some(t) => product_text_model(html@) == listing_texts_model(t),
            None => product_text_model(html@) is None,
        },
{
    let titles = select_texts(html, "#productTitle")?;
    let prices = select_texts(
        html,
        ".a-price .a-offscreen, #priceblock_ourprice, #priceblock_dealprice, .a-price-whole",
    )?;
    let bullets = select_texts(html, "#feature-bullets li")?;
    let descriptions = select_texts(html, "#productDescription p, #aplus p")?;
    let review_stars = select_first_inner_texts(
        html,
        "div[data-hook='review']",
        "[data-hook='review-star-rating'] .a-icon-alt, [data-hook='review-star-rating']",
    )?;
    let review_titles = select_first_inner_texts(
        html,
        "div[data-hook='review']",
        "[data-hook='reviewTitle'] span, [data-hook='reviewTitle']",
    )?;
    let review_bodies = select_first_inner_texts(
        html,
        "div[data-hook='review']",
        "[data-hook='reviewText'] span, [data-hook='reviewText']",
    )?;
    Some(
        ListingTexts {
            titles,
            prices,
            bullets,
            descriptions,
            review_stars,
            review_titles,
            review_bodies,
        },
    )
}

/// The Markdown summary of a product page: title, price, description,
/// feature bullets and the reviews with four stars or more; `None` when the
/// page has neither title, description nor bullets.
pub fn extract_product_text(html: &str) -> (r: Option<String>)
    ensures
        match r {
            Some(s) => product_text_model(html@) == Some(s@),
            None => product_text_model(html@) is None,
        },
{
    let t = listing_texts(html)?;
    assemble_listing(&t)
}

} // verus!

verus! {

// ---------------------------------------------------------------------
// The Markdown document written for a product page
// ---------------------------------------------------------------------

/// The pattern of the page regions that carry no product text: scripts,
/// styles, navigation, headers, footers, links and asides.
pub open spec fn noise_pattern() -> Seq<char> {
    "(?is)<(?:script|style|nav|header|footer|link|aside)\\b[^>]*>.*?</(?:script|style|nav|header|footer|link|aside)>"@
}

/// The pattern of a Markdown reference-link definition line.
pub open spec fn reference_line_pattern() -> Seq<char> {
    "(?m)^\\s*\\[\\d+\\]:\\s*\\S+.*$"@
}

/// `text` with every match of `pattern` removed (unchanged if the pattern
/// were rejected).
pub open spec fn regex_removed(pattern: Seq<char>, text: Seq<char>) -> Seq<char> {
    match regex_replace_all_result(pattern, text, ""@) {
        Some(r) => r,
        None => text,
    }
}

/// `html` without its script, style, navigation, header, footer, link and
/// aside elements.
pub fn clean_html(html: &str) -> (r: String)
    ensures
        r@ == regex_removed(noise_pattern(), html@),
{
    match regex_replace_all(
        "(?is)<(?:script|style|nav|header|footer|link|aside)\\b[^>]*>.*?</(?:script|style|nav|header|footer|link|aside)>",
        html,
        "",
    ) {
        Some(r) => r,
        None => String::from_str(html),
    }
}

/// `text` without its reference-link definition lines (their text, not
/// their line breaks).
pub fn clean_md(text: &str) -> (r: String)
    ensures
        r@ == regex_removed(reference_line_pattern(), text@),
{
    match regex_replace_all("(?m)^\\s*\\[\\d+\\]:\\s*\\S+.*$", text, "") {
        Some(r) => r,
        None => String::from_str(text),
    }
}

/// The text of a product page: its summary when it has one, else the
/// plain-text rendering (80 columns) of the page without its noise
/// elements, or nothing if that fails.
pub open spec fn page_text_model(html: Seq<char>) -> Seq<char> {
    match product_text_model(html) {
        Some(t) => t,
        None => opt_text(plain_text_of(regex_removed(noise_pattern(), html), 80)),
    }
}

/// The Markdown document for a product page: its text without reference
/// links, a blank line, then `images` (the image section, or nothing).
pub open spec fn page_markdown_model(html: Seq<char>, images: Seq<char>) -> Seq<char> {
    regex_removed(reference_line_pattern(), page_text_model(html)) + "\n\n"@ + images
}

/// The text of a product page: its summary, or else its plain-text rendering.
pub fn page_text(html: &str) -> (r: String)
    ensures
        r@ == page_text_model(html@),
{
    match extract_product_text(html) {
        Some(t) => t,
        None => {
            let cleaned = clean_html(html);
            match html_to_text(cleaned.as_str(), 80) {
                Some(t) => t,
                None => String::new(),
            }
        },
    }
}

/// The Markdown document written for a product page, given the image
/// section that lists its saved images (or nothing when it has none).
pub fn page_markdown(html: &str, images: &str) -> (r: String)
    ensures
        r@ == page_markdown_model(html@, images@),
{
    let text = page_text(html);
    let cleaned = clean_md(text.as_str());
    let mut v = str_chars(cleaned.as_str());
    push_str(&mut v, "\n\n");
    push_str(&mut v, images);
    chars_to_string(&v)
}

} // verus!
