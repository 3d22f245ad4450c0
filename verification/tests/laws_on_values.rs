use review_pipeline::article::{build_prompt, MAX_CHARS};
use review_pipeline::images::image_file_name;
use review_pipeline::index::{build_index_html, html_escape};
use review_pipeline::listing::truncate_review;
use review_pipeline::medium::js_escape_for_template_literal;
use review_pipeline::oauth::{callback_step, escape_html, CallbackError, CallbackParams, CallbackStep};
use review_pipeline::page::{cards_from_parts, fill_template, replace_all};
use review_pipeline::pinterest::{is_login_interstitial, login_url, next_stage, truncate_description, PinStage};
use review_pipeline::sort::sort_names;
use review_pipeline::tools::results_file_name;
use std::collections::HashSet;

#[test]
fn escaped_text_has_no_markup_characters() {
    let nasty = "<script>alert(\"x\")</script> & <b>";
    let e = html_escape(nasty);
    assert!(!e.contains('<') && !e.contains('>') && !e.contains('"'));
    let t = escape_html(nasty);
    assert!(!t.contains('<') && !t.contains('>'));
}

#[test]
fn absent_placeholder_keeps_the_template() {
    let mut page = "<html>{{OTHER}}</html>".to_string();
    replace_all(&mut page, "{{TITLE}}", "x");
    assert_eq!(page, "<html>{{OTHER}}</html>");
}

#[test]
fn descriptions_stay_within_the_limit() {
    for n in [1usize, 449, 450, 451, 1000] {
        let d = truncate_description(Some(&"w".repeat(n))).expect("text");
        assert!(!d.is_empty() && d.chars().count() <= 450);
    }
}

#[test]
fn excerpts_stay_within_the_limit() {
    let text: Vec<char> = "word ".repeat(100).chars().collect();
    for max in [0usize, 3, 10, 280] {
        assert!(truncate_review(&text, max).len() <= max + 3);
    }
    let short: Vec<char> = "fits.".chars().collect();
    assert_eq!(truncate_review(&short, 5), short);
}

#[test]
fn only_the_issued_state_leads_to_an_exchange() {
    let p = |state: Option<&str>| CallbackParams {
        code: Some("c".to_string()),
        state: state.map(String::from),
        error: None,
        error_description: None,
    };
    assert_eq!(callback_step(&p(Some("s1")), Some("s1")), Ok(CallbackStep::Exchange("c".to_string())));
    assert_eq!(callback_step(&p(Some("s2")), Some("s1")), Err(CallbackError::StateMismatch));
    assert_eq!(callback_step(&p(None), Some("s1")), Err(CallbackError::StateMismatch));
}

#[test]
fn pin_steps_never_skip() {
    assert_eq!(next_stage(PinStage::UploadImage, true), Ok(PinStage::FillFields));
    assert!(next_stage(PinStage::UploadImage, false).is_err());
    assert_eq!(next_stage(PinStage::Done, true), Ok(PinStage::Done));
}

#[test]
fn sorting_orders_and_keeps_every_name() {
    let input: Vec<String> = ["delta", "Alpha", "charlie", "alpha", "delta", ""].iter().map(|s| s.to_string()).collect();
    let sorted = sort_names(input.clone());
    assert!(sorted.windows(2).all(|w| w[0] <= w[1]));
    let mut a = input.clone();
    a.sort();
    assert_eq!(sorted, a);
}

#[test]
fn file_names_are_distinct() {
    let images: HashSet<String> = (0..1200u64).map(image_file_name).collect();
    assert_eq!(images.len(), 1200);
    let pages: HashSet<String> = (0..50usize).map(results_file_name).collect();
    assert_eq!(pages.len(), 50);
}

#[test]
fn index_links_stay_inside_their_attribute() {
    let html = build_index_html(&vec![("we\"ird/index.html".to_string(), "t".to_string())]);
    assert!(html.contains("<li><a href=\"we%22ird/index.html\">t</a></li>"));
}

/// Reads `x` as the inside of a template literal: true when no backtick
/// ends it and no `${` opens a substitution.
fn stays_inside_template(x: &str) -> bool {
    let c: Vec<char> = x.chars().collect();
    let mut i = 0;
    while i < c.len() {
        if c[i] == '\\' {
            if i + 1 >= c.len() {
                return false;
            }
            i += 2;
        } else if c[i] == '`' || (c[i] == '$' && i + 1 < c.len() && c[i + 1] == '{') {
            return false;
        } else {
            i += 1;
        }
    }
    true
}

#[test]
fn escaped_titles_stay_inside_the_template() {
    for t in ["plain", "a`b", "${x}", "\\", "\\`", "$${", "\\${`", "end\\"] {
        assert!(stays_inside_template(&js_escape_for_template_literal(t)), "{}", t);
    }
}

#[test]
fn escaped_text_reads_back() {
    for t in ["", "plain", "<b>&amp;</b>", "a < b > c & d", "&lt;&gt;", "&&<<>>"] {
        let e = escape_html(t);
        assert_eq!(e.replace("&gt;", ">").replace("&lt;", "<").replace("&amp;", "&"), t);
    }
    assert_eq!(escape_html("<a & b>"), "&lt;a &amp; b&gt;");
}

/// Reads `x` back as the inside of a template literal: a backslash before
/// a backslash, a backtick or a `$` stands for that character.
fn read_template(x: &str) -> String {
    let c: Vec<char> = x.chars().collect();
    let mut out = String::new();
    let mut i = 0;
    while i < c.len() {
        if c[i] == '\\' && i + 1 < c.len() && (c[i + 1] == '\\' || c[i + 1] == '`' || c[i + 1] == '$') {
            out.push(c[i + 1]);
            i += 2;
        } else {
            out.push(c[i]);
            i += 1;
        }
    }
    out
}

#[test]
fn escaped_titles_read_back() {
    for t in ["plain", "a`b", "${x}", "\\", "\\`", "$${", "\\${`", "end\\", "$5 off {now}"] {
        assert_eq!(read_template(&js_escape_for_template_literal(t)), t, "{}", t);
    }
}

#[test]
fn descriptions_are_settled() {
    let long = format!("  {}  ", "word ".repeat(200));
    for d in ["  padded  ", "short", long.as_str()] {
        let r = truncate_description(Some(d)).expect("text");
        assert_eq!(r.trim(), r);
        assert_eq!(truncate_description(Some(&r)), Some(r.clone()));
    }
    let r = truncate_description(Some(&long)).expect("text");
    assert_eq!(r.chars().count(), 450);
    assert!(r.ends_with("..."));
}

#[test]
fn article_prompt_cuts_the_page_once() {
    let short_page = "x".repeat(MAX_CHARS) + "é";
    let k = &short_page[..MAX_CHARS];
    let whole = build_prompt("T", Some("https://e.com/p"), &short_page);
    assert_eq!(whole, build_prompt("T", Some("https://e.com/p"), k));
    assert!(whole.ends_with(&format!("Product detail page HTML (truncated if needed):\n{}", k)));
    let small = build_prompt("T", None, "<p>hi</p>");
    assert!(small.ends_with("Product detail page HTML (truncated if needed):\n<p>hi</p>"));
}

#[test]
fn login_address_settles_the_wall() {
    assert!(login_url("https://www.pinterest.com/login/?next=/pin-builder/"));
    assert!(!login_url("https://www.pinterest.com/pin-builder/"));
    assert!(is_login_interstitial("https://www.pinterest.com/login/", ""));
    assert!(is_login_interstitial("https://x/", "Log in\nPassword"));
    assert!(!is_login_interstitial("https://x/", "Log in to continue"));
}

#[test]
fn cards_are_built_from_matches_and_pieces() {
    let matches = vec!["<h2>A</h2>".to_string(), "<h2 id=\"b\">B</h2>".to_string()];
    let pieces = vec!["<p>intro</p>".to_string(), "<p>a</p>".to_string(), "<p>b</p>".to_string()];
    assert_eq!(
        cards_from_parts(&matches, &pieces),
        "<p>intro</p><div class=\"card my-3\"><div class=\"card-body\"><h2 class=\"card-title\">A</h2><p>a</p></div></div><div class=\"card my-3\"><div class=\"card-body\"><h2 id=\"b\">B</h2><p>b</p></div></div>"
    );
    assert_eq!(cards_from_parts(&vec![], &vec!["<p>only</p>".to_string()]), "<p>only</p>");
}

#[test]
fn template_is_filled_in_order() {
    let md = "# Widget\n\nA fine widget.\n\n## Price\n\n$10\n";
    let page = fill_template(md, &vec![], "{{TITLE}}|{{CONTENT}}|{{YEAR}}|{{BUY_URL}}", 2031, "<p>c</p>");
    assert_eq!(page, "Widget|<p>c</p>|2031|");
}
