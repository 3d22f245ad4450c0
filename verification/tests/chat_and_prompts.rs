use review_pipeline::article::{
    article_reply, article_request_body, build_prompt as article_prompt, chatgpt_key,
    parse_openai_response, ArticleError,
};
use review_pipeline::chat::{chat_request_body, response_content, status_is_success};
use review_pipeline::json::JsonValue;
use review_pipeline::review::{
    build_prompt as review_prompt, reply_content, review_markdown, review_request_body,
    ReviewError,
};

fn text(s: &str) -> JsonValue {
    JsonValue::Str(s.to_string())
}

fn object(members: Vec<(&str, JsonValue)>) -> JsonValue {
    JsonValue::Object(members.into_iter().map(|(k, v)| (k.to_string(), v)).collect())
}

fn reply_with(content: JsonValue) -> JsonValue {
    object(vec![(
        "choices",
        JsonValue::Array(vec![object(vec![(
            "message",
            object(vec![("role", text("assistant")), ("content", content)]),
        )])]),
    )])
}

fn member<'a>(v: &'a JsonValue, key: &str) -> &'a JsonValue {
    v.get(key).expect("member")
}

#[test]
fn review_prompt_lists_images_and_description() {
    let images = vec!["image_001.jpg".to_string(), "image_002.jpg".to_string()];
    let p = review_prompt("# Kettle\n\nBoils water.", &images);
    assert!(p.starts_with("You are an expert product review and SEO writer.\n\n"));
    assert!(p.contains(
        "Product images:\n- images/image_001.jpg\n- images/image_002.jpg\n\nMarkdown product description:\n# Kettle\n\nBoils water.\n\n- Return the complete Markdown review"
    ));
    assert!(p.ends_with("Do not output HTML or code fences."));
}

#[test]
fn review_prompt_without_images_has_empty_list() {
    let p = review_prompt("x", &vec![]);
    assert!(p.contains("Product images:\n\n\nMarkdown product description:\nx\n\n"));
}

#[test]
fn review_prompt_cuts_long_descriptions() {
    let md = "a".repeat(80_005);
    let p = review_prompt(&md, &vec![]);
    let cut = format!("description:\n{}\n\n- Return", "a".repeat(80_000));
    assert!(p.contains(&cut));
}

#[test]
fn article_prompt_with_and_without_url() {
    let with_url = article_prompt("Kettle", Some("https://example.com/k"), "<p>page</p>");
    assert!(with_url.starts_with("You are an expert consumer tech review"));
    assert!(with_url.contains(
        "er. Write a review article that is about a 4-minute read.\n\nOutput requirements:\n- Output valid HTML only (no Markdown).\n"
    ));
    assert!(with_url.ends_with(
        "cautiously.\n\nTitle: Kettle\nProduct URL: https://example.com/k\n\nProduct detail page HTML (truncated if needed):\n<p>page</p>"
    ));
    let without = article_prompt("Kettle", None, "<p>page</p>");
    assert!(without.ends_with(
        "cautiously.\n\nTitle: Kettle\n\nProduct detail page HTML (truncated if needed):\n<p>page</p>"
    ));
    assert!(with_url.contains(
        "- The first paragraph must NOT repeat the title verbatim or start with the product name; write a short hook/lead instead.\n"
    ));
}

#[test]
fn article_prompt_cuts_long_pages() {
    let html = "b".repeat(120_010);
    let p = article_prompt("T", None, &html);
    assert!(p.ends_with(&format!("):\n{}", "b".repeat(120_000))));
}

#[test]
fn request_bodies_name_the_model_and_prompt() {
    let body = chat_request_body("hello", false);
    assert_eq!(member(&body, "model").as_str(), Some("gpt-4o-mini"));
    let messages = member(&body, "messages");
    let first = messages.at(0).expect("first message");
    assert_eq!(member(first, "role").as_str(), Some("user"));
    assert_eq!(member(first, "content").as_str(), Some("hello"));
    assert!(matches!(member(&body, "temperature"), JsonValue::Number(n) if n == "0.7"));
    assert!(body.get("response_format").is_none());

    let review = review_request_body("p");
    let format = member(&review, "response_format");
    assert_eq!(member(format, "type").as_str(), Some("json_object"));
    let article = article_request_body("p");
    assert!(article.get("response_format").is_none());
}

#[test]
fn status_codes() {
    assert!(status_is_success(200));
    assert!(status_is_success(299));
    assert!(!status_is_success(199));
    assert!(!status_is_success(300));
    assert!(!status_is_success(500));
}

#[test]
fn content_is_read_as_it_is() {
    let v = reply_with(text("  {\"md\": \"# R\"}  "));
    assert_eq!(response_content(&v).as_deref(), Some("  {\"md\": \"# R\"}  "));
    assert_eq!(response_content(&object(vec![])), None);
    assert_eq!(response_content(&reply_with(JsonValue::Null)), None);
}

#[test]
fn review_reply_errors_and_markdown() {
    let v = reply_with(text("{\"md\": \"x\"}"));
    assert_eq!(reply_content(200, &v), Ok("{\"md\": \"x\"}".to_string()));
    assert_eq!(reply_content(429, &v), Err(ReviewError::RequestFailed(429)));
    assert_eq!(reply_content(200, &object(vec![])), Err(ReviewError::MissingContent));
    let answer = object(vec![("md", text("# Review"))]);
    assert_eq!(review_markdown(&answer), Ok("# Review".to_string()));
    assert_eq!(review_markdown(&object(vec![("html", text("x"))])), Err(ReviewError::MissingMarkdown));
    assert_eq!(review_markdown(&object(vec![("md", JsonValue::Bool(true))])), Err(ReviewError::MissingMarkdown));
}

#[test]
fn article_reply_is_trimmed_and_required() {
    let v = reply_with(text("\n  <article>ok</article>\n"));
    assert_eq!(parse_openai_response(&v), Ok("<article>ok</article>".to_string()));
    assert_eq!(parse_openai_response(&reply_with(text("   \n"))), Err(ArticleError::MissingContent));
    assert_eq!(parse_openai_response(&object(vec![])), Err(ArticleError::MissingContent));
    assert_eq!(article_reply(401, &v), Err(ArticleError::RequestFailed(401)));
    assert_eq!(article_reply(200, &v), Ok("<article>ok</article>".to_string()));
}

#[test]
fn key_file_contents() {
    assert_eq!(chatgpt_key("  sk-abc\n"), Some("sk-abc".to_string()));
    assert_eq!(chatgpt_key(" \n\t"), None);
    assert_eq!(chatgpt_key(""), None);
}
