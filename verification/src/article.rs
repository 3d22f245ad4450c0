//! The HTML review article written from a product page: the prompt the
//! language model is given, the article read back from its reply, and the
//! API key read from the key file.
use vstd::prelude::*;
use crate::text::{byte_prefix, chars_to_string, cut_ok, push_str, str_chars, trim, trim_str, truncate_bytes};
use crate::json::JsonValue;
use crate::chat::{
    chat_request_body, is_chat_body, is_success_status, message_content, response_content,
    status_is_success,
};

verus! {

/// The longest product page, in bytes, that goes into the prompt.
pub const MAX_CHARS: usize = 120_000;

/// The prompt text before the title.
pub open spec fn article_prompt_head() -> Seq<char> {
    "You are an expert consumer tech review"@ + "er. Write a review article that is about a 4-minute read.\n\nOutput requirements:\n- Output valid HTML only (no Markdown).\n- Use <article> with a single <h1>, then sections with <h2>.\n- The first paragraph must NOT repeat the title verbatim or start with the product name; write a short hook/lead instead.\n- Include: overview, key features, who it's for, pros/cons lists, pricing/value discussion, and verdict.\n- Do not mention that you were given raw HTML; infer details from the provided page.\n- Write at least 5 sections with h2 headers\n- each section should have at least 3 paragraphs \n- each paragraph should be 3-5 sentences\n- If specs are unclear, state assumptions cautiously.\n\nTitle: "@
}

/// `Product URL: <url>` and a line break, or nothing without a URL.
pub open spec fn url_line(url: Option<Seq<char>>) -> Seq<char> {
    match url {
        Some(u) => "Product URL: "@ + u + "\n"@,
        None => Seq::empty(),
    }
}

/// The article prompt for a product titled `title`, found at `url`, whose
/// page is `html` (cut to its first `MAX_CHARS` bytes).
pub open spec fn article_prompt_model(title: Seq<char>, url: Option<Seq<char>>, html: Seq<char>) -> Seq<char> {
    article_prompt_head() + title + "\n"@ + url_line(url)
        + "\nProduct detail page HTML (truncated if needed):\n"@ + byte_prefix(html, MAX_CHARS as nat)
}

/// The view of an optional string slice.
pub open spec fn opt_str_view(o: Option<&str>) -> Option<Seq<char>> {
    match o {
        Some(s) => Some(s@),
        None => None,
    }
}

/// The prompt asking for an HTML review article of the product titled
/// `product_title`, at `product_url`, from its page HTML.  A page longer
/// than `MAX_CHARS` bytes is cut there, which must not fall inside a
/// character.
pub fn build_prompt(product_title: &str, product_url: Option<&str>, product_page_html: &str) -> (r: String)
    requires
        cut_ok(product_page_html@, MAX_CHARS as nat),
    ensures
        r@ == article_prompt_model(product_title@, opt_str_view(product_url), product_page_html@),
{
    let html = truncate_bytes(product_page_html, MAX_CHARS);
    let mut out = str_chars("You are an expert consumer tech review");
    push_str(
        &mut out,
        "er. Write a review article that is about a 4-minute read.\n\nOutput requirements:\n- Output valid HTML only (no Markdown).\n- Use <article> with a single <h1>, then sections with <h2>.\n- The first paragraph must NOT repeat the title verbatim or start with the product name; write a short hook/lead instead.\n- Include: overview, key features, who it's for, pros/cons lists, pricing/value discussion, and verdict.\n- Do not mention that you were given raw HTML; infer details from the provided page.\n- Write at least 5 sections with h2 headers\n- each section should have at least 3 paragraphs \n- each paragraph should be 3-5 sentences\n- If specs are unclear, state assumptions cautiously.\n\nTitle: ",
    );
    push_str(&mut out, product_title);
    push_str(&mut out, "\n");
    let ghost before_url = out@;
    match product_url {
        Some(u) => {
            push_str(&mut out, "Product URL: ");
            push_str(&mut out, u);
            push_str(&mut out, "\n");
        },
        None => {},
    }
    assert(out@ == before_url + url_line(opt_str_view(product_url)));
    push_str(&mut out, "\nProduct detail page HTML (truncated if needed):\n");
    push_str(&mut out, html);
    chars_to_string(&out)
}

/// The body of the article request for `prompt`.
pub fn article_request_body(prompt: &str) -> (v: JsonValue)
    ensures
        is_chat_body(v, prompt@, false),
{
    chat_request_body(prompt, false)
}

/// Why no article came back from the model.
#[derive(Debug, PartialEq, Eq, Structural)]
pub enum ArticleError {
    /// The request was answered with a status outside `200..=299`.
    RequestFailed(u16),
    /// The reply holds no `choices[0].message.content` string, or only
    /// whitespace there.
    MissingContent,
}

/// The article in a chat-completion reply: its message content without
/// surrounding whitespace, if that is not empty.
pub open spec fn article_content(v: JsonValue) -> Option<Seq<char>> {
    match message_content(v) {
        Some(c) => if trim(c).len() > 0 {
            Some(trim(c))
        } else {
            None
        },
        None => None,
    }
}

/// The article held in a chat-completion reply, trimmed; a reply without
/// content, or with only whitespace there, is an error.
pub fn parse_openai_response(v: &JsonValue) -> (r: Result<String, ArticleError>)
    ensures
        match r {
            Ok(s) => article_content(*v) == Some(s@),
            Err(e) => article_content(*v) is None && e == ArticleError::MissingContent,
        },
{
    match response_content(v) {
        Some(c) => {
            let t = trim_str(c.as_str());
            if t.len() > 0 {
                Ok(chars_to_string(&t))
            } else {
                Err(ArticleError::MissingContent)
            }
        },
        None => Err(ArticleError::MissingContent),
    }
}

/// What the article request's reply gives.
pub open spec fn article_reply_model(status: u16, v: JsonValue) -> Result<Seq<char>, ArticleError> {
    if !is_success_status(status) {
        Err(ArticleError::RequestFailed(status))
    } else {
        match article_content(v) {
            Some(c) => Ok(c),
            None => Err(ArticleError::MissingContent),
        }
    }
}

/// The article from the reply to the article request, answered with HTTP
/// status `status`: a failed status is an error, and so is a reply
/// without content.
pub fn article_reply(status: u16, v: &JsonValue) -> (r: Result<String, ArticleError>)
    ensures
        match r {
            Ok(s) => article_reply_model(status, *v) == Ok::<Seq<char>, ArticleError>(s@),
            Err(e) => article_reply_model(status, *v) == Err::<Seq<char>, ArticleError>(e),
        },
{
    if !status_is_success(status) {
        return Err(ArticleError::RequestFailed(status));
    }
    parse_openai_response(v)
}

/// The API key held in the key file whose text is `contents`: the text
/// without surrounding whitespace, or `None` when nothing else is there.
pub fn chatgpt_key(contents: &str) -> (r: Option<String>)
    ensures
        match r {
            Some(k) => trim(contents@).len() > 0 && k@ == trim(contents@),
            None => trim(contents@).len() == 0,
        },
{
    let t = trim_str(contents);
    if t.len() > 0 {
        Some(chars_to_string(&t))
    } else {
        None
    }
}

} // verus!
