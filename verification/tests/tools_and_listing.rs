use review_pipeline::images::{
    color_image_array_text, hires_urls, image_block, image_file_name, img_tag_image_urls,
    product_image_urls,
};
use review_pipeline::json::JsonValue;
use review_pipeline::listing::{
    assemble_listing, clean_html, clean_md, extract_product_text, page_markdown, truncate_review,
    ListingTexts,
};
use review_pipeline::tools::{
    deploy_branch, deploy_command, deploy_env, looks_blocked, newest_page, results_file_name,
    results_page_url, run_cargo_bin, run_html2md, run_md2review, run_review2html, search_query,
    search_url, step_failure,
};

fn strings(v: &[&str]) -> Vec<String> {
    v.iter().map(|s| s.to_string()).collect()
}

#[test]
fn pipeline_steps_run_through_cargo() {
    let run = run_html2md("/d/page.html", "/d/output.md");
    assert_eq!(run.program, "cargo");
    assert_eq!(run.args, strings(&["run", "--quiet", "--bin", "html2md", "--", "/d/page.html", "/d/output.md"]));
    assert_eq!(run_md2review("a", "b").args[3], "md2review");
    assert_eq!(run_review2html("a", "b").args[3], "review2html");
    assert_eq!(run_cargo_bin("scraper", &vec![]).args, strings(&["run", "--quiet", "--bin", "scraper", "--"]));
    assert_eq!(step_failure("html2md", Some(2)), "html2md failed with exit code 2");
    assert_eq!(step_failure("html2md", None), "html2md failed with exit code -1");
    assert_eq!(step_failure("x", Some(-7)), "x failed with exit code -7");
}

#[test]
fn newest_page_wins_first_on_ties() {
    assert_eq!(newest_page(&vec![]), None);
    assert_eq!(newest_page(&vec![5, 9, 3, 9]), Some(1));
    assert_eq!(newest_page(&vec![0]), Some(0));
}

#[test]
fn deployment_commands() {
    let w = deploy_command(true, "../data", "site", "main");
    assert_eq!(w.program, "wrangler");
    assert_eq!(w.args, strings(&["pages", "deploy", "../data", "--project-name", "site", "--branch", "main", "--no-bundle"]));
    let n = deploy_command(false, "d", "p", "b");
    assert_eq!(n.program, "npx");
    assert_eq!(n.args[..2].to_vec(), strings(&["-y", "wrangler"]));
    assert_eq!(n.args.len(), 10);
    assert_eq!(deploy_branch(None), "main");
    assert_eq!(deploy_branch(Some("preview")), "preview");
    let env = deploy_env("acc", "tok", "site", "main");
    assert_eq!(env[0], ("CLOUDFLARE_ACCOUNT_ID".to_string(), "acc".to_string()));
    assert_eq!(env[3], ("CF_API_TOKEN".to_string(), "tok".to_string()));
    assert_eq!(env.len(), 6);
}

#[test]
fn search_pages() {
    assert_eq!(search_query(&strings(&["best", "kettle"])).as_deref(), Some("best kettle"));
    assert_eq!(search_query(&strings(&[" ", ""])), None);
    assert_eq!(search_query(&vec![]), None);
    assert_eq!(search_url("best kettle"), "https://www.google.com/search?q=best%20kettle");
    assert_eq!(results_page_url("a&b", 3), "https://www.google.com/search?q=a%26b&num=10&start=30");
    assert_eq!(results_file_name(0), "page_001.html");
    assert_eq!(results_file_name(49), "page_050.html");
    assert!(looks_blocked(1999));
    assert!(!looks_blocked(2000));
}

#[test]
fn image_names_and_block() {
    assert_eq!(image_file_name(0), "image_001.jpg");
    assert_eq!(image_file_name(999), "image_1000.jpg");
    assert_eq!(
        image_block(&strings(&["image_001.jpg", "image_002.jpg"])),
        "## Product Images\n\n![product image](images/image_001.jpg)\n![product image](images/image_002.jpg)"
    );
}

#[test]
fn colour_image_array_is_found() {
    let html = "var data = {'initial': [{\"hiRes\":\"https://m.media-amazon.com/images/I/a.jpg\",\"x\":\"[\\\"]\"}, {\"hiRes\":null}]};";
    assert_eq!(
        color_image_array_text(html).as_deref(),
        Some("[{\"hiRes\":\"https://m.media-amazon.com/images/I/a.jpg\",\"x\":\"[\\\"]\"}, {\"hiRes\":null}]")
    );
    assert_eq!(color_image_array_text("no marker"), None);
    assert_eq!(color_image_array_text("'initial': [ [ ]"), None);
}

#[test]
fn high_resolution_urls() {
    let vals = vec![
        JsonValue::Object(vec![("hiRes".to_string(), JsonValue::Str("u1".to_string()))]),
        JsonValue::Object(vec![("hiRes".to_string(), JsonValue::Null)]),
        JsonValue::Str("x".to_string()),
        JsonValue::Object(vec![("hiRes".to_string(), JsonValue::Str("u2".to_string()))]),
    ];
    assert_eq!(hires_urls(&vals), strings(&["u1", "u2"]));
    assert_eq!(product_image_urls("<img src=\"x\">", Some(vec![])), Vec::<String>::new());
}

#[test]
fn image_tags() {
    let html = "<img data-old-hires=\"https://m.media-amazon.com/images/I/big.jpg\" src=\"https://m.media-amazon.com/images/I/small.jpg\">\
        <img src=\"https://m.media-amazon.com/images/I/two.jpg\">\
        <img src=\"https://example.com/logo.png\">\
        <img data-src=\"https://m.media-amazon.com/images/I/two.jpg\">";
    assert_eq!(
        img_tag_image_urls(html),
        strings(&["https://m.media-amazon.com/images/I/big.jpg", "https://m.media-amazon.com/images/I/two.jpg"])
    );
    assert_eq!(product_image_urls(html, None).len(), 2);
}

#[test]
fn review_excerpts() {
    let chars = |s: &str| s.chars().collect::<Vec<char>>();
    let text = |v: Vec<char>| v.into_iter().collect::<String>();
    assert_eq!(text(truncate_review(&chars("Short."), 280)), "Short.");
    assert_eq!(text(truncate_review(&chars("One. Two three four"), 12)), "One.");
    assert_eq!(text(truncate_review(&chars("no stop here at all"), 8)), "no stop...");
    assert_eq!(text(truncate_review(&chars("abc   def"), 6)), "abc...");
}

#[test]
fn listing_summary() {
    let t = ListingTexts {
        titles: strings(&["  Kettle  "]),
        prices: strings(&["12", "\u{a3}19.99", "$5"]),
        bullets: strings(&["Fast", "See more product details", " ", "Quiet"]),
        descriptions: strings(&["A kettle.", ""]),
        review_stars: vec![
            Some("5 out of 5 stars".to_string()),
            Some("2 out of 5 stars".to_string()),
            // A rating whose first word is not a whole number counts as no stars.
            Some("5.0 out of 5 stars".to_string()),
            None,
        ],
        review_titles: vec![Some("Great".to_string()), Some("Bad".to_string()), Some("Also".to_string()), Some("x".to_string())],
        review_bodies: vec![
            Some("Works well. Read more".to_string()),
            Some("Broke.".to_string()),
            Some("Fine.".to_string()),
            Some("y".to_string()),
        ],
    };
    assert_eq!(
        assemble_listing(&t).as_deref(),
        Some("# Kettle\n\n**Price:** \u{a3}19.99\n\nA kettle.\n\n## Features\n\n- Fast\n- Quiet\n\n## Customer Reviews\n\n- **5 out of 5 stars** | Great: Works well.\n\n")
    );
    let empty = ListingTexts {
        titles: vec![],
        prices: strings(&["$1"]),
        bullets: vec![],
        descriptions: vec![],
        review_stars: vec![],
        review_titles: vec![],
        review_bodies: vec![],
    };
    assert_eq!(assemble_listing(&empty), None);
}

#[test]
fn product_text_from_a_page() {
    let html = "<html><body><span id=\"productTitle\"> Kettle </span>\
        <span class=\"a-price\"><span class=\"a-offscreen\">\u{a3}20.00</span></span>\
        <div id=\"feature-bullets\"><ul><li> Boils fast </li></ul></div>\
        <div data-hook=\"review\"><i data-hook=\"review-star-rating\"><span class=\"a-icon-alt\">5 out of 5 stars</span></i>\
        <a data-hook=\"reviewTitle\"><span>Love it</span></a><span data-hook=\"reviewText\"><span>Great kettle.</span></span></div>\
        </body></html>";
    assert_eq!(
        extract_product_text(html).as_deref(),
        Some("# Kettle\n\n**Price:** \u{a3}20.00\n\n## Features\n\n- Boils fast\n\n## Customer Reviews\n\n- **5 out of 5 stars** | Love it: Great kettle.\n\n")
    );
}

#[test]
fn cleaning() {
    assert_eq!(clean_html("a<script>x</script>b<STYLE>y</STYLE>c<nav a=1>z</nav>"), "abc");
    assert_eq!(clean_md("text\n[1]: http://x\n  [22]: /y z\nmore"), "text\n\n\nmore");
    let md = page_markdown("<p>no product</p>", "## Product Images\n\n");
    assert!(md.starts_with("no product"));
    assert!(md.ends_with("\n\n## Product Images\n\n"));
}
