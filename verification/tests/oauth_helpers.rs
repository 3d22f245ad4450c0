use review_pipeline::fb_oauth::{
    access_token_of, accounts_url, authorize_url as fb_authorize_url, flow_summary,
    index_page as fb_index_page, long_token_url, select_page, short_token_url, start_config,
    start_inner as fb_start_inner, Config as FbConfig, PageInfo, StartError as FbStartError,
    StartForm as FbStartForm,
};
use review_pipeline::json::JsonValue;
use review_pipeline::oauth::{callback_step, escape_html, last_response_text, CallbackError, CallbackParams, CallbackStep};
use review_pipeline::x_oauth::{
    authorize_url as x_authorize_url, check_start_form, gen_pkce, gen_state,
    index_page as x_index_page, pkce_from_picks, start_config as x_start_config,
    start_inner as x_start_inner, token_request, StartError as XStartError,
    StartForm as XStartForm,
};

fn fb_form(app_id: &str, secret: &str, redirect: &str, scope: &str, page: &str) -> FbStartForm {
    FbStartForm {
        app_id: app_id.to_string(),
        app_secret: secret.to_string(),
        redirect_uri: redirect.to_string(),
        scope: scope.to_string(),
        page_id: page.to_string(),
    }
}

fn params(code: Option<&str>, state: Option<&str>, error: Option<&str>, desc: Option<&str>) -> CallbackParams {
    CallbackParams {
        code: code.map(String::from),
        state: state.map(String::from),
        error: error.map(String::from),
        error_description: desc.map(String::from),
    }
}

fn page(id: &str, name: Option<&str>, token: &str) -> PageInfo {
    PageInfo { id: id.to_string(), name: name.map(String::from), access_token: token.to_string() }
}

#[test]
fn escaping_for_the_helper_pages() {
    assert_eq!(escape_html("<a href=\"x\">&</a>"), "&lt;a href=\"x\"&gt;&amp;&lt;/a&gt;");
    assert_eq!(last_response_text(None), "(no token response yet)");
    assert_eq!(last_response_text(Some("{}")), "{}");
}

#[test]
fn start_pages_show_the_last_response_escaped() {
    let fb = fb_index_page(Some("<token>"));
    assert!(fb.contains("<textarea readonly>&lt;token&gt;</textarea>"));
    assert!(fb.starts_with("<!doctype html>\n<html>\n  <head>\n    <meta charset=\"utf-8\" />\n    <title>Facebook OAuth Helper</title>"));
    assert!(!fb.contains("{CONTENT}"));
    let x = x_index_page(None);
    assert!(x.contains("<textarea readonly>(no token response yet)</textarea>\n\n    <p>Direct link: <a href=\"/token\">/token</a></p>\n  </body>\n</html>"));
    assert!(x.contains("textarea { width: 100%; height: 220px; }"));
}

#[test]
fn redirect_back_decisions() {
    assert_eq!(
        callback_step(&params(None, None, Some("access_denied"), Some("User said no")), Some("1")),
        Ok(CallbackStep::Denied("oauth error: access_denied (User said no)".to_string()))
    );
    assert_eq!(
        callback_step(&params(Some("c"), None, Some("e"), None), Some("1")),
        Ok(CallbackStep::Denied("oauth error: e".to_string()))
    );
    assert_eq!(callback_step(&params(None, Some("1"), None, None), Some("1")), Err(CallbackError::MissingCode));
    assert_eq!(callback_step(&params(Some("c"), Some("1"), None, None), None), Err(CallbackError::NoConfig));
    assert_eq!(callback_step(&params(Some("c"), Some("2"), None, None), Some("1")), Err(CallbackError::StateMismatch));
    assert_eq!(callback_step(&params(Some("c"), None, None, None), Some("1")), Err(CallbackError::StateMismatch));
    assert_eq!(
        callback_step(&params(Some("code-9"), Some("1"), None, None), Some("1")),
        Ok(CallbackStep::Exchange("code-9".to_string()))
    );
}

#[test]
fn facebook_start_form_checks() {
    assert_eq!(start_config(&fb_form(" ", "s", "r", "p", ""), 1).err(), Some(FbStartError::AppIdRequired));
    assert_eq!(start_config(&fb_form("a", "", "r", "p", ""), 1).err(), Some(FbStartError::AppSecretRequired));
    assert_eq!(start_config(&fb_form("a", "s", "\t", "p", ""), 1).err(), Some(FbStartError::RedirectUriRequired));
    assert_eq!(start_config(&fb_form("a", "s", "r", "", ""), 1).err(), Some(FbStartError::ScopeRequired));
    let cfg = start_config(&fb_form(" 123 ", " sec ", " http://127.0.0.1:8086/callback ", " pages_show_list ", "  "), 42)
        .ok()
        .expect("valid form");
    assert_eq!(cfg.app_id, "123");
    assert_eq!(cfg.app_secret, "sec");
    assert_eq!(cfg.state, "42");
    assert_eq!(cfg.page_id, None);
    assert_eq!(
        fb_authorize_url(&cfg),
        "https://www.facebook.com/v20.0/dialog/oauth?client_id=123&redirect_uri=http%3A%2F%2F127.0.0.1%3A8086%2Fcallback&state=42&scope=pages_show_list&response_type=code"
    );
    let with_page = start_config(&fb_form("a", "s", "r", "p", " 77 "), 0).ok().expect("valid");
    assert_eq!(with_page.page_id.as_deref(), Some("77"));
    let (started, url) = fb_start_inner(&fb_form("a", "s", "r", "p", "")).ok().expect("started");
    assert!(started.state.chars().all(|c| c.is_ascii_digit()));
    assert!(url.contains(&format!("&state={}&", started.state)));
    assert_eq!(fb_start_inner(&fb_form("", "s", "r", "p", "")).err(), Some(FbStartError::AppIdRequired));
}

fn fb_cfg() -> FbConfig {
    FbConfig {
        app_id: "123".to_string(),
        app_secret: "s e".to_string(),
        redirect_uri: "http://h/cb".to_string(),
        scope: "x".to_string(),
        state: "9".to_string(),
        page_id: None,
    }
}

#[test]
fn facebook_token_requests() {
    assert_eq!(
        short_token_url(&fb_cfg(), "c&d"),
        "https://graph.facebook.com/v20.0/oauth/access_token?client_id=123&redirect_uri=http%3A%2F%2Fh%2Fcb&client_secret=s+e&code=c%26d"
    );
    assert_eq!(
        long_token_url(&fb_cfg(), "short"),
        "https://graph.facebook.com/v20.0/oauth/access_token?grant_type=fb_exchange_token&client_id=123&client_secret=s+e&fb_exchange_token=short"
    );
    assert_eq!(accounts_url("tok"), "https://graph.facebook.com/v20.0/me/accounts?access_token=tok");
    let v = JsonValue::Object(vec![("access_token".to_string(), JsonValue::Str("abc".to_string()))]);
    assert_eq!(access_token_of(&v).as_deref(), Some("abc"));
    assert_eq!(access_token_of(&JsonValue::Object(vec![])), None);
}

#[test]
fn page_selection() {
    let pages = vec![page("1", Some("One"), "t1"), page("2", None, "t2"), page("2", None, "t3")];
    assert_eq!(select_page(Some("2"), &pages).map(|p| p.access_token), Some("t2".to_string()));
    assert_eq!(select_page(Some("9"), &pages).map(|p| p.id), Some("1".to_string()));
    assert_eq!(select_page(None, &pages).map(|p| p.id), Some("1".to_string()));
    assert!(select_page(Some("1"), &vec![]).is_none());
}

#[test]
fn flow_summary_lists_pages() {
    let pages = vec![page("1", Some("One"), "t1"), page("2", None, "t2")];
    let v = flow_summary(Some("2"), "long", &pages).expect("summary");
    let env = v.get("how_to_use").and_then(|h| h.get("env")).expect("env");
    assert_eq!(env.get("FB_PAGE_ID").and_then(|x| x.as_str()), Some("2"));
    assert_eq!(env.get("FB_PAGE_ACCESS_TOKEN").and_then(|x| x.as_str()), Some("t2"));
    assert_eq!(v.get("user_access_token_long_lived").and_then(|x| x.as_str()), Some("long"));
    let listed = v.get("pages").expect("pages");
    assert_eq!(listed.at(0).and_then(|p| p.get("name")).and_then(|n| n.as_str()), Some("One"));
    assert!(matches!(listed.at(1).and_then(|p| p.get("name")), Some(JsonValue::Null)));
    assert!(listed.at(2).is_none());
    assert!(flow_summary(None, "long", &vec![]).is_none());
}

fn x_form(id: &str, secret: &str, redirect: &str, scope: &str, use_secret: bool) -> XStartForm {
    XStartForm {
        client_id: id.to_string(),
        client_secret: secret.to_string(),
        redirect_uri: redirect.to_string(),
        scope: scope.to_string(),
        use_client_secret: if use_secret { Some("1".to_string()) } else { None },
    }
}

#[test]
fn x_start_form_checks() {
    assert_eq!(check_start_form(&x_form("", "", "r", "s", false)), Some(XStartError::ClientIdRequired));
    assert_eq!(check_start_form(&x_form("i", "", " ", "s", false)), Some(XStartError::RedirectUriRequired));
    assert_eq!(check_start_form(&x_form("i", "", "r", "", false)), Some(XStartError::ScopeRequired));
    assert_eq!(check_start_form(&x_form("i", "  ", "r", "s", true)), Some(XStartError::ClientSecretEmpty));
    assert_eq!(check_start_form(&x_form("i", "  ", "r", "s", false)), None);
    assert_eq!(x_start_inner(&x_form("i", "", "r", "", false)).err(), Some(XStartError::ScopeRequired));
}

const ALPHABET: &str = "abcdefghijklmnopqrstuvwxyzABCDEFGHIJKLMNOPQRSTUVWXYZ0123456789-._~";

#[test]
fn pkce_pairs() {
    let (verifier, challenge) = pkce_from_picks(&vec![0, 1, 2]);
    assert_eq!(verifier, "abc");
    assert_eq!(challenge, "ungWv48Bz-pBQUDeXa4iI7ADYaOWF3qctBD_YfIAFa0");
    let (v, c) = gen_pkce();
    assert_eq!(v.len(), 64);
    assert!(v.chars().all(|ch| ALPHABET.contains(ch)));
    assert_eq!(c.len(), 43);
    let picks: Vec<usize> = v.chars().map(|ch| ALPHABET.find(ch).unwrap()).collect();
    let (again, _) = pkce_from_picks(&picks);
    assert_eq!(again, v);
    let s = gen_state();
    assert_eq!(s.len(), 22);
    assert!(s.chars().all(|ch| ch.is_ascii_alphanumeric() || ch == '-' || ch == '_'));
}

#[test]
fn x_authorization_and_token_request() {
    let cfg = x_start_config(
        &x_form(" id ", " secret ", " http://h/cb ", " tweet.read users.read ", true),
        "st".to_string(),
        "ver".to_string(),
        "chal".to_string(),
    );
    assert_eq!(cfg.client_id, "id");
    assert_eq!(cfg.client_secret.as_deref(), Some("secret"));
    assert_eq!(
        x_authorize_url(&cfg),
        "https://twitter.com/i/oauth2/authorize?response_type=code&client_id=id&redirect_uri=http%3A%2F%2Fh%2Fcb&scope=tweet.read%20users.read&state=st&code_challenge=chal&code_challenge_method=S256"
    );
    let req = token_request(&cfg, "the code");
    assert_eq!(req.url, "https://api.twitter.com/2/oauth2/token");
    assert_eq!(
        req.body,
        "grant_type=authorization_code&client_id=id&code=the+code&redirect_uri=http%3A%2F%2Fh%2Fcb&code_verifier=ver"
    );
    assert_eq!(req.authorization.as_deref(), Some("Basic aWQ6c2VjcmV0"));
    let public = x_start_config(&x_form("id", "ignored", "r", "s", false), "st".into(), "v".into(), "c".into());
    assert_eq!(public.client_secret, None);
    assert_eq!(token_request(&public, "c").authorization, None);
    let (started, url) = x_start_inner(&x_form("id", "", "r", "s", false)).ok().expect("started");
    assert_eq!(started.code_verifier.len(), 64);
    assert!(url.ends_with("&code_challenge_method=S256"));
    assert!(url.contains(&format!("&state={}&", started.state)));
}
