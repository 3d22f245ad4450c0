//! Posting a new review to a Facebook Page: the credentials taken from the
//! settings, the message, the form of a feed post, and the id read back.
use vstd::prelude::*;
use crate::text::{chars_to_string, push_str, replace_str, replaced, str_chars, trim, trim_str};
use crate::encode::{form_body, form_encoded, pairs_view};
use crate::json::{json_get, json_str, JsonValue};
use crate::chat::{is_success_status, status_is_success};
use crate::oauth::osv;

verus! {

/// A setting that is present and not blank.
pub open spec fn usable(v: Option<Seq<char>>) -> bool {
    v matches Some(s) && trim(s).len() > 0
}

/// The Page id and Page token, when both settings are present and not
/// blank (each kept as it is written).
pub open spec fn credentials_model(page_id: Option<Seq<char>>, token: Option<Seq<char>>) -> Option<(Seq<char>, Seq<char>)> {
    if usable(page_id) && usable(token) {
        Some((page_id->0, token->0))
    } else {
        None
    }
}

/// Whether the setting `v` is present and not blank.
fn is_usable(v: Option<&str>) -> (b: bool)
    ensures
        b == usable(osv(v)),
{
    match v {
        Some(s) => trim_str(s).len() > 0,
        None => false,
    }
}

/// The Page id and Page token from the settings `page_id` and
/// `access_token`.
pub fn get_fb_credentials(page_id: Option<&str>, access_token: Option<&str>) -> (r: Option<(String, String)>)
    ensures
        match r {
            Some((p, t)) => credentials_model(osv(page_id), osv(access_token)) == Some((p@, t@)),
            None => credentials_model(osv(page_id), osv(access_token)) is None,
        },
{
    if !is_usable(page_id) || !is_usable(access_token) {
        return None;
    }
    match (page_id, access_token) {
        (Some(p), Some(t)) => Some((String::from_str(p), String::from_str(t))),
        _ => None,
    }
}

/// The text of `url`, or nothing.
pub open spec fn url_text(url: Option<Seq<char>>) -> Seq<char> {
    match url {
        Some(u) => u,
        None => seq![],
    }
}

/// The message of a post about `title` at `url`: the template with
/// `{title}` and `{url}` filled in when a template is set and not blank,
/// and otherwise the title, with the address on a line of its own when
/// there is one.
pub open spec fn fb_message_model(title: Seq<char>, url: Option<Seq<char>>, template: Option<Seq<char>>) -> Seq<char> {
    if usable(template) {
        replaced(replaced(template->0, "{title}"@, title), "{url}"@, url_text(url))
    } else if url_text(url).len() == 0 {
        title
    } else {
        title + "\n"@ + url_text(url)
    }
}

/// The message of a post about `title` at `url`, after the template set
/// in the settings, if any.
pub fn build_fb_message(title: &str, url: Option<&str>, template: Option<&str>) -> (r: String)
    ensures
        r@ == fb_message_model(title@, osv(url), osv(template)),
{
    let u = match url {
        Some(u) => u,
        None => "",
    };
    proof {
        reveal_strlit("");
        assert(""@ =~= Seq::<char>::empty());
    }
    if is_usable(template) {
        let t = match template {
            Some(t) => t,
            None => "",
        };
        let a = chars_to_string(&replace_str(t, "{title}", title));
        let b = replace_str(a.as_str(), "{url}", u);
        return chars_to_string(&b);
    }
    if str_chars(u).len() == 0 {
        String::from_str(title)
    } else {
        let mut out = str_chars(title);
        push_str(&mut out, "\n");
        push_str(&mut out, u);
        chars_to_string(&out)
    }
}

/// The form of a feed post: the message and the token, and the link when
/// there is one that is not blank.
pub open spec fn feed_form_model(message: Seq<char>, token: Seq<char>, url: Option<Seq<char>>) -> Seq<(Seq<char>, Seq<char>)> {
    let base = seq![("message"@, message), ("access_token"@, token)];
    if usable(url) {
        base.push(("link"@, url->0))
    } else {
        base
    }
}

/// The form of a feed post with `message`, posted with `access_token`,
/// linking to `url`.
pub fn build_fb_feed_form(message: String, access_token: &str, url: Option<&str>) -> (r: Vec<(String, String)>)
    ensures
        pairs_view(r@) == feed_form_model(message@, access_token@, osv(url)),
{
    let mut form: Vec<(String, String)> = Vec::new();
    form.push((String::from_str("message"), message));
    form.push((String::from_str("access_token"), String::from_str(access_token)));
    if is_usable(url) {
        if let Some(u) = url {
            form.push((String::from_str("link"), String::from_str(u)));
        }
    }
    form
}

/// A request to the Graph API: where it goes and its form-encoded body.
pub struct FeedRequest {
    pub endpoint: String,
    pub body: String,
}

/// The feed endpoint of the Page `page_id`.
pub open spec fn feed_endpoint(page_id: Seq<char>) -> Seq<char> {
    "https://graph.facebook.com/v20.0/"@ + page_id + "/feed"@
}

/// The photos endpoint of the Page `page_id`.
pub open spec fn photos_endpoint(page_id: Seq<char>) -> Seq<char> {
    "https://graph.facebook.com/v20.0/"@ + page_id + "/photos"@
}

/// The endpoint `https://graph.facebook.com/v20.0/<page_id>/<edge>`.
fn graph_endpoint(page_id: &str, edge: &str) -> (r: String)
    ensures
        r@ == "https://graph.facebook.com/v20.0/"@ + page_id@ + edge@,
{
    let mut out = str_chars("https://graph.facebook.com/v20.0/");
    push_str(&mut out, page_id);
    push_str(&mut out, edge);
    chars_to_string(&out)
}

/// The feed post of a link to `url` titled `title`, given the settings for
/// the Page id, the Page token and the message template; none without
/// credentials.
pub open spec fn link_post_model(
    title: Seq<char>,
    url: Option<Seq<char>>,
    page_id: Option<Seq<char>>,
    token: Option<Seq<char>>,
    template: Option<Seq<char>>,
) -> Option<(Seq<char>, Seq<char>)> {
    match credentials_model(page_id, token) {
        Some((p, t)) => Some(
            (
                feed_endpoint(p),
                form_encoded(feed_form_model(fb_message_model(title, url, template), t, url)),
            ),
        ),
        None => None,
    }
}

/// The feed request posting a link to `url` titled `title`, from the
/// settings `page_id`, `access_token` and `template`; `None` when the
/// Page is not configured, and nothing is posted.
pub fn post_link_to_page(
    title: &str,
    url: Option<&str>,
    page_id: Option<&str>,
    access_token: Option<&str>,
    template: Option<&str>,
) -> (r: Option<FeedRequest>)
    ensures
        match r {
            Some(q) => link_post_model(title@, osv(url), osv(page_id), osv(access_token), osv(template))
                == Some((q.endpoint@, q.body@)),
            None => link_post_model(title@, osv(url), osv(page_id), osv(access_token), osv(template)) is None,
        },
{
    let (p, t) = get_fb_credentials(page_id, access_token)?;
    let message = build_fb_message(title, url, template);
    let form = build_fb_feed_form(message, t.as_str(), url);
    let body = form_body(&form);
    let endpoint = graph_endpoint(p.as_str(), "/feed");
    Some(FeedRequest { endpoint, body })
}

/// A photo post: where it goes, its caption and the Page token (the image
/// itself is attached by the caller).
pub struct PhotoRequest {
    pub endpoint: String,
    pub caption: String,
    pub access_token: String,
}

/// What posting a photo comes to.
pub enum PhotoPlan {
    /// The Page is not configured: nothing is posted.
    Skip,
    /// There is no image: the link is posted instead.
    Link(FeedRequest),
    /// The image is posted with a caption.
    Photo(PhotoRequest),
}

/// Plans the photo post of the image (when `image_exists`) titled `title`
/// and linking to `url`, from the settings.
pub fn post_photo_to_page(
    title: &str,
    url: Option<&str>,
    image_exists: bool,
    page_id: Option<&str>,
    access_token: Option<&str>,
    template: Option<&str>,
) -> (r: PhotoPlan)
    ensures
        match r {
            PhotoPlan::Skip => credentials_model(osv(page_id), osv(access_token)) is None,
            PhotoPlan::Link(q) => !image_exists && link_post_model(
                title@,
                osv(url),
                osv(page_id),
                osv(access_token),
                osv(template),
            ) == Some((q.endpoint@, q.body@)),
            PhotoPlan::Photo(q) => image_exists && (match credentials_model(
                osv(page_id),
                osv(access_token),
            ) {
                Some((p, t)) => q.endpoint@ == photos_endpoint(p) && q.caption@ == fb_message_model(
                    title@,
                    osv(url),
                    osv(template),
                ) && q.access_token@ == t,
                None => false,
            }),
        },
{
    let (p, t) = match get_fb_credentials(page_id, access_token) {
        Some(c) => c,
        None => return PhotoPlan::Skip,
    };
    if !image_exists {
        return match post_link_to_page(title, url, page_id, access_token, template) {
            Some(q) => PhotoPlan::Link(q),
            None => PhotoPlan::Skip,
        };
    }
    let caption = build_fb_message(title, url, template);
    let endpoint = graph_endpoint(p.as_str(), "/photos");
    PhotoPlan::Photo(PhotoRequest { endpoint, caption, access_token: t })
}

/// Why a post failed.
#[derive(Debug, PartialEq, Eq, Structural)]
pub enum PostError {
    /// The Graph API answered with a status outside `200..=299`.
    Rejected(u16),
}

/// The `id` string of a reply, if it has one.
pub open spec fn post_id_model(v: JsonValue) -> Option<Seq<char>> {
    match json_get(v, "id"@) {
        Some(x) => json_str(x),
        None => None,
    }
}

/// The outcome of a feed post answered with `status` and the reply
/// `reply` (`None` when it is not JSON): the id of the new post, if the
/// reply names it.
pub fn feed_post_outcome(status: u16, reply: Option<&JsonValue>) -> (r: Result<Option<String>, PostError>)
    ensures
        !is_success_status(status) <==> r == Err::<Option<String>, PostError>(PostError::Rejected(status)),
        r matches Ok(id) ==> match reply {
            Some(v) => match id {
                Some(s) => post_id_model(*v) == Some(s@),
                None => post_id_model(*v) is None,
            },
            None => id is None,
        },
{
    if !status_is_success(status) {
        return Err(PostError::Rejected(status));
    }
    match reply {
        Some(v) => match v.get("id") {
            Some(x) => match x.as_str() {
                Some(s) => Ok(Some(String::from_str(s))),
                None => Ok(None),
            },
            None => Ok(None),
        },
        None => Ok(None),
    }
}

/// The id of a photo post's reply: its `post_id` member when there is
/// one, and otherwise its `id`, if that member is a string.
pub open spec fn photo_id_model(v: JsonValue) -> Option<Seq<char>> {
    match json_get(v, "post_id"@) {
        Some(x) => json_str(x),
        None => post_id_model(v),
    }
}

/// The outcome of a photo post answered with `status` and the JSON reply
/// `reply`: the id of the new post, if the reply names it.
pub fn photo_post_outcome(status: u16, reply: &JsonValue) -> (r: Result<Option<String>, PostError>)
    ensures
        !is_success_status(status) <==> r == Err::<Option<String>, PostError>(PostError::Rejected(status)),
        r matches Ok(id) ==> match id {
            Some(s) => photo_id_model(*reply) == Some(s@),
            None => photo_id_model(*reply) is None,
        },
{
    if !status_is_success(status) {
        return Err(PostError::Rejected(status));
    }
    let x = match reply.get("post_id") {
        Some(x) => x,
        None => match reply.get("id") {
            Some(x) => x,
            None => return Ok(None),
        },
    };
    match x.as_str() {
        Some(s) => Ok(Some(String::from_str(s))),
        None => Ok(None),
    }
}

} // verus!
