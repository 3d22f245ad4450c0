//! The Facebook OAuth helper: the form that starts an authorization, the
//! requests that turn the code into a long-lived user token, the choice of
//! the Page, and the summary shown at the end.
use vstd::prelude::*;
use crate::text::{chars_to_string, decimal, decimal_exec, push_str, replaced, str_chars, trim, trim_str};
use crate::encode::{form_body, form_encoded, pairs_view, url_encode, url_encoded};
use crate::json::{json_get, json_str, JsonValue};
use crate::chat::{is_object_of, is_text};
use crate::oauth::{escape_html, last_response_model, last_response_text, osv, ov, random_u64, text_escaped};

verus! {

// ---------------------------------------------------------------------
// The start page
// ---------------------------------------------------------------------

/// The start page, `{CONTENT}` standing for the last response.
pub open spec fn fb_index_template() -> Seq<char> {
    "<!doctype html>\n<html>\n  <head>\n    <meta charset=\"utf-8\" />\n    <title>Facebook OAuth Helper</title>\n    <style>\n      body { font-family: system-ui, -apple-system, Segoe UI, Roboto, sans-serif; margin: 24px; max-width: 960px; }\n      input[type=text], input[type=password] { width: 100%; padding: 10px; margin: 6px 0 14px; box-sizing: border-box; }\n      textarea { width: 100%; height: 260px; }\n      .row { margin-bottom: 10px; }\n      .hint { color: #666; font-size: 12px; margin-top: -10px; margin-bottom: 12px; }\n      .btn { padding: 10px 14px; font-weight: 600; }\n      code { background: #f4f4f4; padding: 2px 5px; }\n    </style>\n  </head>\n  <body>\n    <h1>Facebook OAuth Helper</h1>\n    <form method=\"post\" action=\"/start\">\n      <div class=\"row\"><label>App ID</label>\n        <input name=\"app_id\" type=\"text\" placeholder=\"facebook app id\" required /></div>\n      <div class=\"row\"><label>App Secret</label>\n        <input name=\"app_secret\" type=\"password\" placeholder=\"facebook app secret\" required /></div>\n      <div class=\"row\"><label>Redirect URI</label>\n        <input name=\"redirect_uri\" type=\"text\" value=\"http://127.0.0.1:8086/callback\" required />\n        <div class=\"hint\">Must exactly match the redirect URI configured in your Facebook app.</div></div>\n      <div class=\"row\"><label>Scopes</label>\n        <input name=\"scope\" type=\"text\" value=\"pages_manage_posts,pages_read_engagement,pages_show_list\" required />\n        <div class=\"hint\">You may need <code>pages_manage_posts</code> + <code>pages_show_list</code>.</div></div>\n      <div class=\"row\"><label>Page ID (optional)</label>\n        <input name=\"page_id\" type=\"text\" placeholder=\"if blank, we use the first page from /me/accounts\" /></div>\n      <button class=\"btn\" type=\"submit\">Authorize on Facebook</button>\n    </form>\n    <h2>Last response</h2>\n    <textarea readonly>{CONTENT}</textarea>\n    <p>Direct link: <a href=\"/token\">/token</a></p>\n  </body>\n</html>"@
}

/// The start page showing the last response `last`, escaped.
pub open spec fn fb_index_model(last: Option<Seq<char>>) -> Seq<char> {
    replaced(fb_index_template(), "{CONTENT}"@, text_escaped(last_response_model(last)))
}

/// The start page of the helper, showing the last response.
pub fn index_page(last: Option<&str>) -> (r: String)
    ensures
        r@ == fb_index_model(osv(last)),
{
    let shown = last_response_text(last);
    let escaped = escape_html(shown.as_str());
    let page = crate::text::replace_str(
        "<!doctype html>\n<html>\n  <head>\n    <meta charset=\"utf-8\" />\n    <title>Facebook OAuth Helper</title>\n    <style>\n      body { font-family: system-ui, -apple-system, Segoe UI, Roboto, sans-serif; margin: 24px; max-width: 960px; }\n      input[type=text], input[type=password] { width: 100%; padding: 10px; margin: 6px 0 14px; box-sizing: border-box; }\n      textarea { width: 100%; height: 260px; }\n      .row { margin-bottom: 10px; }\n      .hint { color: #666; font-size: 12px; margin-top: -10px; margin-bottom: 12px; }\n      .btn { padding: 10px 14px; font-weight: 600; }\n      code { background: #f4f4f4; padding: 2px 5px; }\n    </style>\n  </head>\n  <body>\n    <h1>Facebook OAuth Helper</h1>\n    <form method=\"post\" action=\"/start\">\n      <div class=\"row\"><label>App ID</label>\n        <input name=\"app_id\" type=\"text\" placeholder=\"facebook app id\" required /></div>\n      <div class=\"row\"><label>App Secret</label>\n        <input name=\"app_secret\" type=\"password\" placeholder=\"facebook app secret\" required /></div>\n      <div class=\"row\"><label>Redirect URI</label>\n        <input name=\"redirect_uri\" type=\"text\" value=\"http://127.0.0.1:8086/callback\" required />\n        <div class=\"hint\">Must exactly match the redirect URI configured in your Facebook app.</div></div>\n      <div class=\"row\"><label>Scopes</label>\n        <input name=\"scope\" type=\"text\" value=\"pages_manage_posts,pages_read_engagement,pages_show_list\" required />\n        <div class=\"hint\">You may need <code>pages_manage_posts</code> + <code>pages_show_list</code>.</div></div>\n      <div class=\"row\"><label>Page ID (optional)</label>\n        <input name=\"page_id\" type=\"text\" placeholder=\"if blank, we use the first page from /me/accounts\" /></div>\n      <button class=\"btn\" type=\"submit\">Authorize on Facebook</button>\n    </form>\n    <h2>Last response</h2>\n    <textarea readonly>{CONTENT}</textarea>\n    <p>Direct link: <a href=\"/token\">/token</a></p>\n  </body>\n</html>",
        "{CONTENT}",
        escaped.as_str(),
    );
    chars_to_string(&page)
}

// ---------------------------------------------------------------------
// Starting an authorization
// ---------------------------------------------------------------------

/// The fields of the start form.
pub struct StartForm {
    pub app_id: String,
    pub app_secret: String,
    pub redirect_uri: String,
    pub scope: String,
    pub page_id: String,
}

/// What the helper keeps between the start and the redirect back.
pub struct Config {
    pub app_id: String,
    pub app_secret: String,
    pub redirect_uri: String,
    pub scope: String,
    pub state: String,
    pub page_id: Option<String>,
}

/// Why a start form is refused.
#[derive(Debug, PartialEq, Eq, Structural)]
pub enum StartError {
    AppIdRequired,
    AppSecretRequired,
    RedirectUriRequired,
    ScopeRequired,
}

/// The first empty required field of a form, in the order the form lists
/// them (after trimming).
pub open spec fn start_error(form: StartForm) -> Option<StartError> {
    if trim(form.app_id@).len() == 0 {
        Some(StartError::AppIdRequired)
    } else if trim(form.app_secret@).len() == 0 {
        Some(StartError::AppSecretRequired)
    } else if trim(form.redirect_uri@).len() == 0 {
        Some(StartError::RedirectUriRequired)
    } else if trim(form.scope@).len() == 0 {
        Some(StartError::ScopeRequired)
    } else {
        None
    }
}

/// The configuration a valid form gives with the state `state`: every
/// field trimmed, a blank page id left out.
pub open spec fn config_of(form: StartForm, state: Seq<char>, c: Config) -> bool {
    &&& c.app_id@ == trim(form.app_id@)
    &&& c.app_secret@ == trim(form.app_secret@)
    &&& c.redirect_uri@ == trim(form.redirect_uri@)
    &&& c.scope@ == trim(form.scope@)
    &&& c.state@ == state
    &&& ov(c.page_id) == if trim(form.page_id@).len() == 0 {
        None
    } else {
        Some(trim(form.page_id@))
    }
}

/// The provider's authorization address for the configuration `c`.
pub open spec fn authorize_url_model(c: Config) -> Seq<char> {
    "https://www.facebook.com/v20.0/dialog/oauth?client_id="@ + url_encoded(c.app_id@)
        + "&redirect_uri="@ + url_encoded(c.redirect_uri@) + "&state="@ + url_encoded(c.state@)
        + "&scope="@ + url_encoded(c.scope@) + "&response_type=code"@
}

/// The provider's authorization address for `cfg`.
pub fn authorize_url(cfg: &Config) -> (r: String)
    ensures
        r@ == authorize_url_model(*cfg),
{
    let mut out = str_chars("https://www.facebook.com/v20.0/dialog/oauth?client_id=");
    push_str(&mut out, url_encode(cfg.app_id.as_str()).as_str());
    push_str(&mut out, "&redirect_uri=");
    push_str(&mut out, url_encode(cfg.redirect_uri.as_str()).as_str());
    push_str(&mut out, "&state=");
    push_str(&mut out, url_encode(cfg.state.as_str()).as_str());
    push_str(&mut out, "&scope=");
    push_str(&mut out, url_encode(cfg.scope.as_str()).as_str());
    push_str(&mut out, "&response_type=code");
    chars_to_string(&out)
}

/// The configuration of the start form `form`, with the state written as
/// the number `state`.
pub fn start_config(form: &StartForm, state: u64) -> (r: Result<Config, StartError>)
    ensures
        match r {
            Ok(c) => start_error(*form) is None && config_of(*form, decimal(state as nat), c),
            Err(e) => start_error(*form) == Some(e),
        },
{
    let app_id = trim_str(form.app_id.as_str());
    if app_id.len() == 0 {
        return Err(StartError::AppIdRequired);
    }
    let app_secret = trim_str(form.app_secret.as_str());
    if app_secret.len() == 0 {
        return Err(StartError::AppSecretRequired);
    }
    let redirect_uri = trim_str(form.redirect_uri.as_str());
    if redirect_uri.len() == 0 {
        return Err(StartError::RedirectUriRequired);
    }
    let scope = trim_str(form.scope.as_str());
    if scope.len() == 0 {
        return Err(StartError::ScopeRequired);
    }
    let page_id = trim_str(form.page_id.as_str());
    let page_id = if page_id.len() == 0 {
        None
    } else {
        Some(chars_to_string(&page_id))
    };
    Ok(
        Config {
            app_id: chars_to_string(&app_id),
            app_secret: chars_to_string(&app_secret),
            redirect_uri: chars_to_string(&redirect_uri),
            scope: chars_to_string(&scope),
            state: chars_to_string(&decimal_exec(state)),
            page_id,
        },
    )
}

/// Starts an authorization from the form `form`: the configuration to
/// keep, with a fresh random state, and the address to send the browser
/// to.  The state is a random number; every field is as the form gives it.
pub fn start_inner(form: &StartForm) -> (r: Result<(Config, String), StartError>)
    ensures
        match r {
            Ok((c, url)) => start_error(*form) is None && (exists|n: u64|
                config_of(*form, decimal(n as nat), c)) && url@ == authorize_url_model(c),
            Err(e) => start_error(*form) == Some(e),
        },
{
    let n = random_u64();
    let cfg = start_config(form, n)?;
    let url = authorize_url(&cfg);
    Ok((cfg, url))
}

// ---------------------------------------------------------------------
// Token requests
// ---------------------------------------------------------------------

/// The token endpoint.
pub open spec fn token_endpoint() -> Seq<char> {
    "https://graph.facebook.com/v20.0/oauth/access_token"@
}

/// `base?query`, the query form-encoded from `pairs`.
pub open spec fn with_query(base: Seq<char>, pairs: Seq<(Seq<char>, Seq<char>)>) -> Seq<char> {
    base + "?"@ + form_encoded(pairs)
}

/// The request that exchanges the authorization `code` for a short-lived
/// user token.
pub open spec fn short_token_url_model(c: Config, code: Seq<char>) -> Seq<char> {
    with_query(
        token_endpoint(),
        seq![
            ("client_id"@, c.app_id@),
            ("redirect_uri"@, c.redirect_uri@),
            ("client_secret"@, c.app_secret@),
            ("code"@, code),
        ],
    )
}

/// The request that exchanges a short-lived user token for a long-lived one.
pub open spec fn long_token_url_model(c: Config, short: Seq<char>) -> Seq<char> {
    with_query(
        token_endpoint(),
        seq![
            ("grant_type"@, "fb_exchange_token"@),
            ("client_id"@, c.app_id@),
            ("client_secret"@, c.app_secret@),
            ("fb_exchange_token"@, short),
        ],
    )
}

/// The request listing the Pages the user manages.
pub open spec fn accounts_url_model(token: Seq<char>) -> Seq<char> {
    with_query("https://graph.facebook.com/v20.0/me/accounts"@, seq![("access_token"@, token)])
}

/// `base?query` from string pairs.
fn url_with_query(base: &str, pairs: &Vec<(String, String)>) -> (r: String)
    ensures
        r@ == with_query(base@, pairs_view(pairs@)),
{
    let mut out = str_chars(base);
    push_str(&mut out, "?");
    let q = form_body(pairs);
    push_str(&mut out, q.as_str());
    chars_to_string(&out)
}

/// A name and a value.
fn pair(name: &str, value: &str) -> (p: (String, String))
    ensures
        p.0@ == name@,
        p.1@ == value@,
{
    (String::from_str(name), String::from_str(value))
}

/// The request exchanging the authorization `code` for a short-lived token.
pub fn short_token_url(cfg: &Config, code: &str) -> (r: String)
    ensures
        r@ == short_token_url_model(*cfg, code@),
{
    let mut pairs: Vec<(String, String)> = Vec::new();
    pairs.push(pair("client_id", cfg.app_id.as_str()));
    pairs.push(pair("redirect_uri", cfg.redirect_uri.as_str()));
    pairs.push(pair("client_secret", cfg.app_secret.as_str()));
    pairs.push(pair("code", code));
    let r = url_with_query("https://graph.facebook.com/v20.0/oauth/access_token", &pairs);
    assert(pairs_view(pairs@) == seq![
        ("client_id"@, cfg.app_id@),
        ("redirect_uri"@, cfg.redirect_uri@),
        ("client_secret"@, cfg.app_secret@),
        ("code"@, code@),
    ]);
    r
}

/// The request exchanging the short-lived token `short` for a long-lived one.
pub fn long_token_url(cfg: &Config, short: &str) -> (r: String)
    ensures
        r@ == long_token_url_model(*cfg, short@),
{
    let mut pairs: Vec<(String, String)> = Vec::new();
    pairs.push(pair("grant_type", "fb_exchange_token"));
    pairs.push(pair("client_id", cfg.app_id.as_str()));
    pairs.push(pair("client_secret", cfg.app_secret.as_str()));
    pairs.push(pair("fb_exchange_token", short));
    let r = url_with_query("https://graph.facebook.com/v20.0/oauth/access_token", &pairs);
    assert(pairs_view(pairs@) == seq![
        ("grant_type"@, "fb_exchange_token"@),
        ("client_id"@, cfg.app_id@),
        ("client_secret"@, cfg.app_secret@),
        ("fb_exchange_token"@, short@),
    ]);
    r
}

/// The request listing the Pages of the user whose token is `token`.
pub fn accounts_url(token: &str) -> (r: String)
    ensures
        r@ == accounts_url_model(token@),
{
    let mut pairs: Vec<(String, String)> = Vec::new();
    pairs.push(pair("access_token", token));
    let r = url_with_query("https://graph.facebook.com/v20.0/me/accounts", &pairs);
    assert(pairs_view(pairs@) == seq![("access_token"@, token@)]);
    r
}

/// The `access_token` string of a token response.
pub open spec fn access_token_model(v: JsonValue) -> Option<Seq<char>> {
    match json_get(v, "access_token"@) {
        Some(t) => json_str(t),
        None => None,
    }
}

/// The `access_token` string of the token response `v`, if it has one.
pub fn access_token_of(v: &JsonValue) -> (r: Option<String>)
    ensures
        match r {
            Some(t) => access_token_model(*v) == Some(t@),
            None => access_token_model(*v) is None,
        },
{
    let t = v.get("access_token")?;
    let s = t.as_str()?;
    Some(String::from_str(s))
}

// ---------------------------------------------------------------------
// Pages
// ---------------------------------------------------------------------

/// A Page the user manages, with its access token.
pub struct PageInfo {
    pub id: String,
    pub name: Option<String>,
    pub access_token: String,
}

impl Clone for PageInfo {
    fn clone(&self) -> (r: Self)
        ensures
            r == *self,
    {
        PageInfo {
            id: self.id.clone(),
            name: match &self.name {
                Some(n) => Some(n.clone()),
                None => None,
            },
            access_token: self.access_token.clone(),
        }
    }
}

/// The position of the first page whose id is `id`, if any.
pub open spec fn page_index(pages: Seq<PageInfo>, id: Seq<char>) -> Option<int>
    decreases pages.len(),
{
    if pages.len() == 0 {
        None
    } else if pages[0].id@ == id {
        Some(0)
    } else {
        match page_index(pages.drop_first(), id) {
            Some(i) => Some(i + 1),
            None => None,
        }
    }
}

/// The Page to post as: the one with the wanted id when there is one, and
/// otherwise the first.
pub open spec fn selected_page(wanted: Option<Seq<char>>, pages: Seq<PageInfo>) -> Option<PageInfo> {
    match wanted {
        Some(id) => match page_index(pages, id) {
            Some(i) => Some(pages[i]),
            None => if pages.len() > 0 {
                Some(pages[0])
            } else {
                None
            },
        },
        None => if pages.len() > 0 {
            Some(pages[0])
        } else {
            None
        },
    }
}

proof fn lemma_page_index(pages: Seq<PageInfo>, id: Seq<char>)
    ensures
        match page_index(pages, id) {
            Some(i) => 0 <= i < pages.len() && pages[i].id@ == id && forall|j: int|
                0 <= j < i ==> pages[j].id@ != id,
            None => forall|j: int| 0 <= j < pages.len() ==> pages[j].id@ != id,
        },
    decreases pages.len(),
{
    if pages.len() > 0 {
        lemma_page_index(pages.drop_first(), id);
        assert forall|j: int| 1 <= j < pages.len() implies pages[j] == pages.drop_first()[j - 1] by {}
    }
}

/// The Page to post as, among `pages`, for the wanted id `wanted_id`.
pub fn select_page(wanted_id: Option<&str>, pages: &Vec<PageInfo>) -> (r: Option<PageInfo>)
    ensures
        r == selected_page(osv(wanted_id), pages@),
{
    if let Some(id) = wanted_id {
        let idv = str_chars(id);
        let mut i: usize = 0;
        while i < pages.len()
            invariant
                i <= pages.len(),
                idv@ == id@,
                wanted_id == Some(id),
                forall|j: int| 0 <= j < i ==> pages@[j].id@ != id@,
            decreases pages.len() - i,
        {
            if crate::json::chars_equal(&str_chars(pages[i].id.as_str()), &idv) {
                proof {
                    lemma_page_index(pages@, id@);
                    assert(pages@[i as int].id@ == id@);
                    let k = page_index(pages@, id@);
                    assert(k == Some(i as int));
                }
                let p = pages[i].clone();
                assert(p == pages@[i as int]);
                return Some(p);
            }
            i = i + 1;
        }
        proof {
            lemma_page_index(pages@, id@);
        }
    }
    if pages.len() > 0 {
        Some(pages[0].clone())
    } else {
        None
    }
}

// ---------------------------------------------------------------------
// The summary
// ---------------------------------------------------------------------

/// `v` is the JSON of the Page `p`: `{"id", "name", "access_token"}`, a
/// missing name as `null`.
pub open spec fn is_page_json(v: JsonValue, p: PageInfo) -> bool {
    is_object_of(
        v,
        seq!["id"@, "name"@, "access_token"@],
        |i: int, x: JsonValue|
            if i == 0 {
                is_text(x, p.id@)
            } else if i == 1 {
                match p.name {
                    Some(n) => is_text(x, n@),
                    None => x is Null,
                }
            } else {
                is_text(x, p.access_token@)
            },
    )
}

/// `v` is the list of the Pages `pages`.
pub open spec fn is_pages_json(v: JsonValue, pages: Seq<PageInfo>) -> bool {
    match v {
        JsonValue::Array(a) => a@.len() == pages.len() && forall|i: int|
            0 <= i < pages.len() ==> #[trigger] is_page_json(a@[i], pages[i]),
        _ => false,
    }
}

/// `v` is the summary shown at the end: how to use the chosen Page `p`,
/// the long-lived user token, and every Page.
pub open spec fn is_summary(v: JsonValue, p: PageInfo, long: Seq<char>, pages: Seq<PageInfo>) -> bool {
    is_object_of(
        v,
        seq!["how_to_use"@, "user_access_token_long_lived"@, "pages"@],
        |i: int, x: JsonValue|
            if i == 0 {
                is_object_of(
                    x,
                    seq!["env"@],
                    |j: int, e: JsonValue|
                        is_object_of(
                            e,
                            seq!["FB_PAGE_ID"@, "FB_PAGE_ACCESS_TOKEN"@],
                            |k: int, y: JsonValue|
                                if k == 0 {
                                    is_text(y, p.id@)
                                } else {
                                    is_text(y, p.access_token@)
                                },
                        ),
                )
            } else if i == 1 {
                is_text(x, long)
            } else {
                is_pages_json(x, pages)
            },
    )
}

/// A text member.
fn text_member(name: &str, value: &str) -> (m: (String, JsonValue))
    ensures
        m.0@ == name@,
        is_text(m.1, value@),
{
    (String::from_str(name), JsonValue::Str(String::from_str(value)))
}

/// The JSON of the Page `p`.
pub fn page_json(p: &PageInfo) -> (v: JsonValue)
    ensures
        is_page_json(v, *p),
{
    let mut m: Vec<(String, JsonValue)> = Vec::new();
    m.push(text_member("id", p.id.as_str()));
    let name = match &p.name {
        Some(n) => JsonValue::Str(n.clone()),
        None => JsonValue::Null,
    };
    m.push((String::from_str("name"), name));
    m.push(text_member("access_token", p.access_token.as_str()));
    JsonValue::Object(m)
}

/// The summary shown once the flow is through: the Page chosen among
/// `pages` for the wanted id, its id and token as the settings to use,
/// the long-lived user token and every Page; `None` when there is no Page.
pub fn flow_summary(wanted_id: Option<&str>, long: &str, pages: &Vec<PageInfo>) -> (r: Option<JsonValue>)
    ensures
        match selected_page(osv(wanted_id), pages@) {
            Some(p) => r matches Some(v) && is_summary(v, p, long@, pages@),
            None => r is None,
        },
{
    let p = select_page(wanted_id, pages)?;
    let mut env: Vec<(String, JsonValue)> = Vec::new();
    env.push(text_member("FB_PAGE_ID", p.id.as_str()));
    env.push(text_member("FB_PAGE_ACCESS_TOKEN", p.access_token.as_str()));
    let mut how: Vec<(String, JsonValue)> = Vec::new();
    how.push((String::from_str("env"), JsonValue::Object(env)));
    let mut list: Vec<JsonValue> = Vec::new();
    let mut i: usize = 0;
    while i < pages.len()
        invariant
            i <= pages.len(),
            list@.len() == i,
            forall|j: int| 0 <= j < i ==> #[trigger] is_page_json(list@[j], pages@[j]),
        decreases pages.len() - i,
    {
        list.push(page_json(&pages[i]));
        i = i + 1;
    }
    let mut top: Vec<(String, JsonValue)> = Vec::new();
    top.push((String::from_str("how_to_use"), JsonValue::Object(how)));
    top.push(text_member("user_access_token_long_lived", long));
    top.push((String::from_str("pages"), JsonValue::Array(list)));
    Some(JsonValue::Object(top))
}

} // verus!
