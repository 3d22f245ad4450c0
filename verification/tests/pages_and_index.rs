use review_pipeline::index::{
    build_index_html, encode_path, extract_title, html_escape, index_link, sort_links_by_title,
};
use review_pipeline::page::{
    body_markdown, current_year, extract_price, first_paragraph, gallery_html, image_url,
    render_with_year, replace_all, review_title, wrap_h2_in_cards, year_from_unix_seconds,
};
use review_pipeline::sort::sort_names;

fn names(v: &[&str]) -> Vec<String> {
    v.iter().map(|s| s.to_string()).collect()
}

#[test]
fn title_is_the_first_heading() {
    assert_eq!(review_title("intro\n# # My Kettle  \nmore\n# Second"), "My Kettle");
    assert_eq!(review_title("no heading\n## Sub"), "");
    assert_eq!(review_title(""), "");
}

#[test]
fn short_description_skips_headings_images_quotes_and_lists() {
    let md = "\n# Title\n## Sub\n![img](a.jpg)\n> quote\n- item\n* star\n   \nHello *world*\nNext";
    // The rendered line ends with a line break, so its closing tag stays.
    assert_eq!(first_paragraph(md).as_deref(), Some("Hello <em>world</em></p>"));
    assert_eq!(first_paragraph("# Only\n- list"), None);
}

#[test]
fn price_is_found() {
    assert_eq!(extract_price("Now \u{a3}19.99 only").as_deref(), Some("\u{a3}19.99"));
    assert_eq!(extract_price("cost GBP25 or $30").as_deref(), Some("GBP25"));
    assert_eq!(extract_price("\u{20ac}7").as_deref(), Some("\u{20ac}7"));
    assert_eq!(extract_price("free"), None);
}

#[test]
fn images_and_gallery() {
    assert_eq!(image_url(&names(&["a.jpg", "b.jpg"])), "images/a.jpg");
    assert_eq!(image_url(&vec![]), "");
    assert_eq!(gallery_html(&names(&["a.jpg"])), "");
    assert_eq!(gallery_html(&vec![]), "");
    assert_eq!(
        gallery_html(&names(&["a.jpg", "b.jpg", "c.jpg"])),
        "<img src=\"images/b.jpg\" class=\"img-fluid rounded m-2\" style=\"max-width:300px\" alt=\"product image\">\n<img src=\"images/c.jpg\" class=\"img-fluid rounded m-2\" style=\"max-width:300px\" alt=\"product image\">"
    );
}

#[test]
fn placeholders_are_replaced_everywhere() {
    let mut s = "{{A}} and {{A}}".to_string();
    replace_all(&mut s, "{{A}}", "x");
    assert_eq!(s, "x and x");
    let mut t = "no placeholder".to_string();
    replace_all(&mut t, "{{A}}", "x");
    assert_eq!(t, "no placeholder");
}

#[test]
fn year_from_seconds() {
    assert_eq!(year_from_unix_seconds(0), 1970);
    assert_eq!(year_from_unix_seconds(31_557_599), 1970);
    assert_eq!(year_from_unix_seconds(31_557_600), 1971);
    assert_eq!(year_from_unix_seconds(1_767_225_600), 2026);
    assert!(current_year() >= 2024);
}

#[test]
fn body_drops_leading_blank_lines_and_title() {
    assert_eq!(body_markdown("\n\n# Title\nText\n\nMore"), "Text\n\nMore");
    assert_eq!(body_markdown("Intro\n# Title"), "Intro\n# Title");
    assert_eq!(body_markdown(""), "");
}

#[test]
fn sections_are_set_in_cards() {
    let html = "<p>a</p>\n<h2>One</h2>\n<p>b</p>\n<h2 id=\"x\">Two</h2>\n<p>c</p>\n";
    assert_eq!(
        wrap_h2_in_cards(html),
        "<p>a</p>\n<div class=\"card my-3\"><div class=\"card-body\"><h2 class=\"card-title\">One</h2>\n<p>b</p>\n</div></div><div class=\"card my-3\"><div class=\"card-body\"><h2 id=\"x\">Two</h2>\n<p>c</p>\n</div></div>"
    );
    assert_eq!(wrap_h2_in_cards("<p>plain</p>"), "<p>plain</p>");
}

#[test]
fn page_is_rendered_into_the_template() {
    let md = "# Kettle\n\nA fast kettle for \u{a3}20.\n\n## Verdict\n\nGood.";
    let template = "<title>{{TITLE}}</title><meta content=\"{{SHORT_DESCRIPTION}}\">{{PRICE}}|{{IMAGE_URL}}|{{BUY_URL}}|{{CONTENT}}|{{GALLERY}}|{{YEAR}}";
    let page = render_with_year(md, &names(&["a.jpg", "b.jpg"]), template, 2025);
    assert_eq!(
        page,
        "<title>Kettle</title><meta content=\"A fast kettle for \u{a3}20.</p>\">\u{a3}20|images/a.jpg||<p>A fast kettle for \u{a3}20.</p>\n<div class=\"card my-3\"><div class=\"card-body\"><h2 class=\"card-title\">Verdict</h2>\n<p>Good.</p>\n</div></div>|<img src=\"images/b.jpg\" class=\"img-fluid rounded m-2\" style=\"max-width:300px\" alt=\"product image\">|2025"
    );
}

#[test]
fn escaping_for_the_index() {
    assert_eq!(html_escape("a & <b> \"c\""), "a &amp; &lt;b&gt; &quot;c&quot;");
    assert_eq!(html_escape("&amp;"), "&amp;amp;");
}

#[test]
fn titles_of_pages() {
    assert_eq!(extract_title("<html><TITLE lang=\"en\">\n  My Page \n</TITLE>").as_deref(), Some("My Page"));
    assert_eq!(extract_title("<title></title>").as_deref(), Some(""));
    assert_eq!(extract_title("<h1>none</h1>"), None);
}

#[test]
fn links_skip_the_index_itself() {
    assert_eq!(index_link("index.html", Some("Home".to_string())), None);
    assert_eq!(
        index_link("kettle/index.html", Some("Kettle".to_string())),
        Some(("kettle/index.html".to_string(), "Kettle".to_string()))
    );
    assert_eq!(
        index_link("a/index.html", None),
        Some(("a/index.html".to_string(), "a/index.html".to_string()))
    );
}

#[test]
fn links_are_sorted_by_title_stably() {
    let links = vec![
        ("c/index.html".to_string(), "Beta".to_string()),
        ("a/index.html".to_string(), "Alpha".to_string()),
        ("b/index.html".to_string(), "Beta".to_string()),
        ("d/index.html".to_string(), "Al".to_string()),
    ];
    let sorted = sort_links_by_title(links);
    let hrefs: Vec<&str> = sorted.iter().map(|l| l.0.as_str()).collect();
    assert_eq!(hrefs, vec!["d/index.html", "a/index.html", "c/index.html", "b/index.html"]);
}

#[test]
fn names_are_sorted() {
    let sorted = sort_names(names(&["b.jpg", "a.jpg", "B.jpg", "a.jpeg"]));
    assert_eq!(sorted, names(&["B.jpg", "a.jpeg", "a.jpg", "b.jpg"]));
}

#[test]
fn paths_are_encoded_by_segment() {
    assert_eq!(encode_path("my kettle/index.html").into_iter().collect::<String>(), "my%20kettle/index.html");
    assert_eq!(encode_path("a\"b/c").into_iter().collect::<String>(), "a%22b/c");
}

#[test]
fn index_page() {
    let html = build_index_html(&vec![("my kettle/index.html".to_string(), "K & <co>".to_string())]);
    assert!(html.starts_with("<!DOCTYPE html>\n<html lang=\"en\">\n<head>\n<!-- Google tag (gtag.js) -->\n"));
    assert!(html.contains("function gtag(){dataLayer.push(arguments);}"));
    assert!(html.ends_with(
        "<h1>Product Index</h1>\n<ul>\n<li><a href=\"my%20kettle/index.html\">K &amp; &lt;co&gt;</a></li>\n</ul>\n</body>\n</html>"
    ));
    let empty = build_index_html(&vec![]);
    assert!(empty.ends_with("<ul>\n\n</ul>\n</body>\n</html>"));
}
