//! The Markdown review written from a product description: the prompt the
//! language model is given, and the review read back from its answer.
use vstd::prelude::*;
use crate::text::{
    byte_prefix, chars_to_string, cut_ok, joined, join_exec, push_all, push_str, str_chars,
    truncate_bytes,
};
use crate::json::{json_get, opt_str, JsonValue};
use crate::chat::{
    chat_request_body, is_chat_body, is_success_status, message_content, response_content,
    status_is_success,
};
use crate::markup::views;

verus! {

/// The longest description, in bytes, that goes into the prompt.
pub const MAX_CHARS: usize = 80_000;

/// The prompt text before the image list.
pub open spec fn prompt_head() -> Seq<char> {
    "You are an expert product review and SEO writer.\n\n\
        Write a comprehensive product review in Markdown based on the Markdown product description below.\n\
        - Think of 3-5 problems this product solves and cover them in the review.\n\
        - Come up with a long-tail keyword a customer would search for to find this product, and target it naturally throughout the review.\n\
        - Aim for a 20-minute reading time. Expand the description, features, and analysis to be thorough and useful.\n\
        - Include every positive customer review (4 or 5 stars) from the Markdown. Do not summarize, combine, or omit any. Each review should appear as a Markdown quote with its original title and full original body text.\n\
        - Use the product images listed.\n\n\
        Product images:\n"@
}

/// The prompt text between the image list and the description.
pub open spec fn prompt_middle() -> Seq<char> {
    "\n\nMarkdown product description:\n"@
}

/// The prompt text after the description.
pub open spec fn prompt_tail() -> Seq<char> {
    "\n\n- Return the complete Markdown review inside a JSON object with a single `md` string key. Do not output HTML or code fences."@
}

/// One `- images/<name>` line per image.
pub open spec fn image_list_lines(images: Seq<Seq<char>>) -> Seq<Seq<char>> {
    images.map_values(|n: Seq<char>| "- images/"@ + n)
}

/// The review prompt for the description `md` (cut to its first
/// `MAX_CHARS` bytes) and the saved images.
pub open spec fn review_prompt_model(md: Seq<char>, images: Seq<Seq<char>>) -> Seq<char> {
    prompt_head() + joined(image_list_lines(images), "\n"@) + prompt_middle() + byte_prefix(
        md,
        MAX_CHARS as nat,
    ) + prompt_tail()
}

/// The prompt asking for a Markdown review of the product described in
/// `md`, its images listed.  A description longer than `MAX_CHARS` bytes
/// is cut there, which must not fall inside a character.
pub fn build_prompt(md: &str, images: &Vec<String>) -> (r: String)
    requires
        cut_ok(md@, MAX_CHARS as nat),
    ensures
        r@ == review_prompt_model(md@, views(images@)),
{
    let md = truncate_bytes(md, MAX_CHARS);
    let mut lines: Vec<Vec<char>> = Vec::new();
    let mut i: usize = 0;
    while i < images.len()
        invariant
            i <= images.len(),
            lines@.len() == i,
            forall|j: int|
                0 <= j < i ==> #[trigger] lines@[j]@ == image_list_lines(views(images@))[j],
        decreases images.len() - i,
    {
        let mut l = str_chars("- images/");
        push_str(&mut l, images[i].as_str());
        lines.push(l);
        i = i + 1;
    }
    assert(lines@.map_values(|v: Vec<char>| v@) == image_list_lines(views(images@)));
    let sep = str_chars("\n");
    let list = join_exec(&lines, &sep);
    let mut out = str_chars(
        "You are an expert product review and SEO writer.\n\n\
        Write a comprehensive product review in Markdown based on the Markdown product description below.\n\
        - Think of 3-5 problems this product solves and cover them in the review.\n\
        - Come up with a long-tail keyword a customer would search for to find this product, and target it naturally throughout the review.\n\
        - Aim for a 20-minute reading time. Expand the description, features, and analysis to be thorough and useful.\n\
        - Include every positive customer review (4 or 5 stars) from the Markdown. Do not summarize, combine, or omit any. Each review should appear as a Markdown quote with its original title and full original body text.\n\
        - Use the product images listed.\n\n\
        Product images:\n",
    );
    push_all(&mut out, &list);
    push_str(&mut out, "\n\nMarkdown product description:\n");
    push_str(&mut out, md);
    push_str(
        &mut out,
        "\n\n- Return the complete Markdown review inside a JSON object with a single `md` string key. Do not output HTML or code fences.",
    );
    chars_to_string(&out)
}

/// Why no review came back from the model.
#[derive(Debug, PartialEq, Eq, Structural)]
pub enum ReviewError {
    /// The request was answered with a status outside `200..=299`.
    RequestFailed(u16),
    /// The reply holds no `choices[0].message.content` string.
    MissingContent,
    /// The model's JSON answer has no `md` string.
    MissingMarkdown,
}

/// What the review request's reply gives: the message content the model
/// wrote, or why there is none.
pub open spec fn reply_content_model(status: u16, v: JsonValue) -> Result<Seq<char>, ReviewError> {
    if !is_success_status(status) {
        Err(ReviewError::RequestFailed(status))
    } else {
        match message_content(v) {
            Some(c) => Ok(c),
            None => Err(ReviewError::MissingContent),
        }
    }
}

/// The message content of the reply to the review request, which holds
/// the model's JSON answer as text; a failed status or a reply without
/// content is an error.
pub fn reply_content(status: u16, v: &JsonValue) -> (r: Result<String, ReviewError>)
    ensures
        match r {
            Ok(s) => reply_content_model(status, *v) == Ok::<Seq<char>, ReviewError>(s@),
            Err(e) => reply_content_model(status, *v) == Err::<Seq<char>, ReviewError>(e),
        },
{
    if !status_is_success(status) {
        return Err(ReviewError::RequestFailed(status));
    }
    match response_content(v) {
        Some(c) => Ok(c),
        None => Err(ReviewError::MissingContent),
    }
}

/// The body of the review request for `prompt`: the model is asked for a
/// JSON object.
pub fn review_request_body(prompt: &str) -> (v: JsonValue)
    ensures
        is_chat_body(v, prompt@, true),
{
    chat_request_body(prompt, true)
}

/// The `md` member of the JSON object the model answered with.
pub open spec fn md_member(v: JsonValue) -> Option<Seq<char>> {
    opt_str(json_get(v, "md"@))
}

/// The Markdown review held in the `md` member of the model's answer.
pub fn review_markdown(answer: &JsonValue) -> (r: Result<String, ReviewError>)
    ensures
        match r {
            Ok(s) => md_member(*answer) == Some(s@),
            Err(e) => md_member(*answer) is None && e == ReviewError::MissingMarkdown,
        },
{
    match answer.get("md") {
        Some(md) => match md.as_str() {
            Some(s) => Ok(String::from_str(s)),
            None => Err(ReviewError::MissingMarkdown),
        },
        None => Err(ReviewError::MissingMarkdown),
    }
}

} // verus!
