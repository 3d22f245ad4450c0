//! The X OAuth 2.0 helper: the start page, the start form with its PKCE
//! verifier and state, the authorization address, and the token request.
use vstd::prelude::*;
use crate::text::{chars_to_string, push_str, str_chars, trim, trim_str};
use crate::encode::{
    base64_of, base64_standard, base64_url_no_pad, lemma_base64_unpadded_len, form_body, form_encoded, pairs_view,
    sha256_digest, sha256_of, url_encode, url_encoded,
};
use crate::oauth::{escape_html, last_response_model, last_response_text, osv, ov, random_16_bytes, random_below, text_escaped};
use vstd::utf8::encode_utf8;
use vstd::string::StringSliceAdditionalSpecFns;

verus! {

// ---------------------------------------------------------------------
// The start page
// ---------------------------------------------------------------------

/// The start page up to the last token response.
pub open spec fn x_index_head() -> Seq<char> {
    "<!doctype html>\n<html>\n  <head>\n    <meta charset=\"utf-8\" />\n    <title>X OAuth Helper</title>\n    <style>\n      body { font-family: system-ui, -apple-system, Segoe UI, Roboto, sans-serif; margin: 24px; max-width: 960px; }\n      input[type=text], input[type=password] { width: 100%; padding: 10px; margin: 6px 0 14px; box-sizing: border-box; }\n      textarea { width: 100%; height: 220px; }\n      .row { margin-bottom: 10px; }\n      .hint { color: #666; font-size: 12px; margin-top: -10px; margin-bottom: 12px; }\n      .btn { padding: 10px 14px; font-weight: 600; }\n      code { background: #f4f4f4; padding: 2px 5px; }\n    </style>\n  </head>\n  <body>\n    <h1>X OAuth Helper</h1>\n\n    <form method=\"post\" action=\"/start\">\n      <div class=\"row\">\n        <label>Client ID</label>\n        <input name=\"client_id\" type=\"text\" placeholder=\"your client id\" required />\n      </div>\n\n      <div class=\"row\">\n        <label>Client Secret (optional)</label>\n        <input name=\"client_secret\" type=\"password\" placeholder=\"only needed for confidential clients\" />\n        <div class=\"hint\">If you leave this blank, we attempt PKCE-only token exchange (public client style).</div>\n      </div>\n\n      <div class=\"row\">\n        <label>Redirect URI</label>\n        <input name=\"redirect_uri\" type=\"text\" value=\"http://127.0.0.1:8085/callback\" required />\n        <div class=\"hint\">This must exactly match the redirect URI configured in your X developer app.</div>\n      </div>\n\n      <div class=\"row\">\n        <label>Scopes</label>\n        <input name=\"scope\" type=\"text\" value=\"tweet.read tweet.write users.read offline.access\" required />\n      </div>\n\n      <div class=\"row\">\n        <label>\n          <input type=\"checkbox\" name=\"use_client_secret\" value=\"1\" />\n          Use client secret (confidential client)\n        </label>\n      </div>\n\n      <button class=\"btn\" type=\"submit\">Authorize on X</button>\n    </form>\n\n    <h2>Last token response</h2>\n    <textarea readonly>"@
}

/// The start page after the last token response.
pub open spec fn x_index_tail() -> Seq<char> {
    "</textarea>\n\n    <p>Direct link: <a href=\"/token\">/token</a></p>\n  </body>\n</html>"@
}

/// The start page showing the last token response `last`, escaped.
pub open spec fn x_index_model(last: Option<Seq<char>>) -> Seq<char> {
    x_index_head() + text_escaped(last_response_model(last)) + x_index_tail()
}

/// The start page of the helper, showing the last token response.
pub fn index_page(last: Option<&str>) -> (r: String)
    ensures
        r@ == x_index_model(osv(last)),
{
    let shown = last_response_text(last);
    let escaped = escape_html(shown.as_str());
    let mut out = str_chars(
        "<!doctype html>\n<html>\n  <head>\n    <meta charset=\"utf-8\" />\n    <title>X OAuth Helper</title>\n    <style>\n      body { font-family: system-ui, -apple-system, Segoe UI, Roboto, sans-serif; margin: 24px; max-width: 960px; }\n      input[type=text], input[type=password] { width: 100%; padding: 10px; margin: 6px 0 14px; box-sizing: border-box; }\n      textarea { width: 100%; height: 220px; }\n      .row { margin-bottom: 10px; }\n      .hint { color: #666; font-size: 12px; margin-top: -10px; margin-bottom: 12px; }\n      .btn { padding: 10px 14px; font-weight: 600; }\n      code { background: #f4f4f4; padding: 2px 5px; }\n    </style>\n  </head>\n  <body>\n    <h1>X OAuth Helper</h1>\n\n    <form method=\"post\" action=\"/start\">\n      <div class=\"row\">\n        <label>Client ID</label>\n        <input name=\"client_id\" type=\"text\" placeholder=\"your client id\" required />\n      </div>\n\n      <div class=\"row\">\n        <label>Client Secret (optional)</label>\n        <input name=\"client_secret\" type=\"password\" placeholder=\"only needed for confidential clients\" />\n        <div class=\"hint\">If you leave this blank, we attempt PKCE-only token exchange (public client style).</div>\n      </div>\n\n      <div class=\"row\">\n        <label>Redirect URI</label>\n        <input name=\"redirect_uri\" type=\"text\" value=\"http://127.0.0.1:8085/callback\" required />\n        <div class=\"hint\">This must exactly match the redirect URI configured in your X developer app.</div>\n      </div>\n\n      <div class=\"row\">\n        <label>Scopes</label>\n        <input name=\"scope\" type=\"text\" value=\"tweet.read tweet.write users.read offline.access\" required />\n      </div>\n\n      <div class=\"row\">\n        <label>\n          <input type=\"checkbox\" name=\"use_client_secret\" value=\"1\" />\n          Use client secret (confidential client)\n        </label>\n      </div>\n\n      <button class=\"btn\" type=\"submit\">Authorize on X</button>\n    </form>\n\n    <h2>Last token response</h2>\n    <textarea readonly>",
    );
    push_str(&mut out, escaped.as_str());
    push_str(&mut out, "</textarea>\n\n    <p>Direct link: <a href=\"/token\">/token</a></p>\n  </body>\n</html>");
    chars_to_string(&out)
}

// ---------------------------------------------------------------------
// PKCE and state
// ---------------------------------------------------------------------

/// The unreserved characters a PKCE verifier is drawn from.
pub open spec fn pkce_alphabet() -> Seq<u8> {
    "abcdefghijklmnopqrstuvwxyzABCDEFGHIJKLMNOPQRSTUVWXYZ0123456789-._~"@.map_values(|c: char| c as u8)
}

/// The number of characters in a PKCE verifier.
pub const VERIFIER_LEN: usize = 64;

/// The alphabet's byte at position `i`, for `i < 66`.
fn alphabet_byte(i: usize) -> (b: u8)
    requires
        i < 66,
    ensures
        b == pkce_alphabet()[i as int],
{
    let alph = str_chars("abcdefghijklmnopqrstuvwxyzABCDEFGHIJKLMNOPQRSTUVWXYZ0123456789-._~");
    proof {
        reveal_strlit("abcdefghijklmnopqrstuvwxyzABCDEFGHIJKLMNOPQRSTUVWXYZ0123456789-._~");
    }
    let c = alph[i];
    assert(c == "abcdefghijklmnopqrstuvwxyzABCDEFGHIJKLMNOPQRSTUVWXYZ0123456789-._~"@[i as int]);
    let b = c as u8;
    b
}

/// The verifier a byte sequence spells.
pub open spec fn spelled(bytes: Seq<u8>) -> Seq<char> {
    bytes.map_values(|b: u8| b as char)
}

/// The PKCE challenge of a verifier: the URL-safe, unpadded base64 of the
/// SHA-256 digest of its bytes (method `S256`).
pub open spec fn challenge_of(bytes: Seq<u8>) -> Seq<char> {
    base64_of(sha256_of(bytes), true, false)
}

/// `bytes` is a verifier: 64 characters of the alphabet.
pub open spec fn is_verifier_bytes(bytes: Seq<u8>) -> bool {
    &&& bytes.len() == VERIFIER_LEN
    &&& forall|i: int| 0 <= i < bytes.len() ==> pkce_alphabet().contains(#[trigger] bytes[i])
}

/// The verifier picking the alphabet characters at `picks`, and its
/// challenge.
pub fn pkce_from_picks(picks: &Vec<usize>) -> (r: (String, String))
    requires
        forall|i: int| 0 <= i < picks@.len() ==> picks@[i] < 66,
    ensures
        exists|bytes: Seq<u8>|
            {
                &&& bytes.len() == picks@.len()
                &&& forall|i: int| 0 <= i < bytes.len() ==> #[trigger] bytes[i] == pkce_alphabet()[picks@[i] as int]
                &&& r.0@ == spelled(bytes)
                &&& r.1@ == challenge_of(bytes)
            },
        r.1@.len() == 43,
{
    let mut bytes: Vec<u8> = Vec::new();
    let mut i: usize = 0;
    while i < picks.len()
        invariant
            i <= picks.len(),
            forall|j: int| 0 <= j < picks@.len() ==> picks@[j] < 66,
            bytes@.len() == i,
            forall|j: int| 0 <= j < i ==> #[trigger] bytes@[j] == pkce_alphabet()[picks@[j] as int],
        decreases picks.len() - i,
    {
        bytes.push(alphabet_byte(picks[i]));
        i = i + 1;
    }
    let mut verifier: Vec<char> = Vec::new();
    let mut k: usize = 0;
    while k < bytes.len()
        invariant
            k <= bytes.len(),
            verifier@ == spelled(bytes@.take(k as int)),
        decreases bytes.len() - k,
    {
        verifier.push(bytes[k] as char);
        assert(bytes@.take(k + 1) == bytes@.take(k as int).push(bytes@[k as int]));
        k = k + 1;
    }
    assert(bytes@.take(bytes.len() as int) == bytes@);
    let digest = sha256_digest(bytes.as_slice());
    let challenge = base64_url_no_pad(digest.as_slice());
    proof {
        lemma_base64_unpadded_len(digest@, true);
    }
    (chars_to_string(&verifier), challenge)
}

/// A fresh PKCE pair: a verifier of 64 random alphabet characters and its
/// challenge.
pub fn gen_pkce() -> (r: (String, String))
    ensures
        exists|bytes: Seq<u8>|
            {
                &&& is_verifier_bytes(bytes)
                &&& r.0@ == spelled(bytes)
                &&& r.1@ == challenge_of(bytes)
            },
        r.1@.len() == 43,
{
    let mut picks: Vec<usize> = Vec::new();
    while picks.len() < VERIFIER_LEN
        invariant
            picks@.len() <= VERIFIER_LEN,
            forall|i: int| 0 <= i < picks@.len() ==> picks@[i] < 66,
        decreases VERIFIER_LEN - picks@.len(),
    {
        picks.push(random_below(66));
    }
    let r = pkce_from_picks(&picks);
    proof {
        let bytes = choose|bytes: Seq<u8>|
            {
                &&& bytes.len() == picks@.len()
                &&& forall|i: int| 0 <= i < bytes.len() ==> #[trigger] bytes[i] == pkce_alphabet()[picks@[i] as int]
                &&& r.0@ == spelled(bytes)
                &&& r.1@ == challenge_of(bytes)
            };
        assert(pkce_alphabet().len() == 66) by {
            reveal_strlit("abcdefghijklmnopqrstuvwxyzABCDEFGHIJKLMNOPQRSTUVWXYZ0123456789-._~");
        }
        assert forall|i: int| 0 <= i < bytes.len() implies pkce_alphabet().contains(#[trigger] bytes[i]) by {
            assert(bytes[i] == pkce_alphabet()[picks@[i] as int]);
        }
        assert(is_verifier_bytes(bytes));
    }
    r
}

/// A fresh state: sixteen random bytes, URL-safe base64 without padding.
pub fn gen_state() -> (r: String)
    ensures
        exists|bytes: Seq<u8>| bytes.len() == 16 && r@ == base64_of(bytes, true, false),
{
    let bytes = random_16_bytes();
    base64_url_no_pad(bytes.as_slice())
}

// ---------------------------------------------------------------------
// Starting an authorization
// ---------------------------------------------------------------------

/// The fields of the start form.
pub struct StartForm {
    pub client_id: String,
    pub client_secret: String,
    pub redirect_uri: String,
    pub scope: String,
    pub use_client_secret: Option<String>,
}

/// What the helper keeps between the start and the redirect back.
pub struct Config {
    pub client_id: String,
    pub client_secret: Option<String>,
    pub redirect_uri: String,
    pub scope: String,
    pub state: String,
    pub code_verifier: String,
    pub code_challenge: String,
}

/// Why a start form is refused.
#[derive(Debug, PartialEq, Eq, Structural)]
pub enum StartError {
    ClientIdRequired,
    RedirectUriRequired,
    ScopeRequired,
    /// The client secret is to be used, but none is given.
    ClientSecretEmpty,
}

/// The first fault of a start form, in the order the form lists its
/// fields (after trimming).
pub open spec fn start_error(form: StartForm) -> Option<StartError> {
    if trim(form.client_id@).len() == 0 {
        Some(StartError::ClientIdRequired)
    } else if trim(form.redirect_uri@).len() == 0 {
        Some(StartError::RedirectUriRequired)
    } else if trim(form.scope@).len() == 0 {
        Some(StartError::ScopeRequired)
    } else if form.use_client_secret is Some && trim(form.client_secret@).len() == 0 {
        Some(StartError::ClientSecretEmpty)
    } else {
        None
    }
}

/// The first fault of the start form `form`, if any.
pub fn check_start_form(form: &StartForm) -> (r: Option<StartError>)
    ensures
        r == start_error(*form),
{
    if trim_str(form.client_id.as_str()).len() == 0 {
        return Some(StartError::ClientIdRequired);
    }
    if trim_str(form.redirect_uri.as_str()).len() == 0 {
        return Some(StartError::RedirectUriRequired);
    }
    if trim_str(form.scope.as_str()).len() == 0 {
        return Some(StartError::ScopeRequired);
    }
    if form.use_client_secret.is_some() && trim_str(form.client_secret.as_str()).len() == 0 {
        return Some(StartError::ClientSecretEmpty);
    }
    None
}

/// The configuration a valid form gives with the given state and PKCE
/// pair: every field trimmed, the secret kept only when it is to be used.
pub open spec fn config_of(form: StartForm, state: Seq<char>, verifier: Seq<char>, challenge: Seq<char>, c: Config) -> bool {
    &&& c.client_id@ == trim(form.client_id@)
    &&& ov(c.client_secret) == if form.use_client_secret is Some {
        Some(trim(form.client_secret@))
    } else {
        None
    }
    &&& c.redirect_uri@ == trim(form.redirect_uri@)
    &&& c.scope@ == trim(form.scope@)
    &&& c.state@ == state
    &&& c.code_verifier@ == verifier
    &&& c.code_challenge@ == challenge
}

/// The configuration of the valid start form `form`.
pub fn start_config(form: &StartForm, state: String, verifier: String, challenge: String) -> (c: Config)
    requires
        start_error(*form) is None,
    ensures
        config_of(*form, state@, verifier@, challenge@, c),
{
    let secret = if form.use_client_secret.is_some() {
        Some(chars_to_string(&trim_str(form.client_secret.as_str())))
    } else {
        None
    };
    Config {
        client_id: chars_to_string(&trim_str(form.client_id.as_str())),
        client_secret: secret,
        redirect_uri: chars_to_string(&trim_str(form.redirect_uri.as_str())),
        scope: chars_to_string(&trim_str(form.scope.as_str())),
        state,
        code_verifier: verifier,
        code_challenge: challenge,
    }
}

/// The provider's authorization address for the configuration `c`.
pub open spec fn authorize_url_model(c: Config) -> Seq<char> {
    "https://twitter.com/i/oauth2/authorize?response_type=code&client_id="@ + url_encoded(
        c.client_id@,
    ) + "&redirect_uri="@ + url_encoded(c.redirect_uri@) + "&scope="@ + url_encoded(c.scope@)
        + "&state="@ + url_encoded(c.state@) + "&code_challenge="@ + url_encoded(c.code_challenge@)
        + "&code_challenge_method=S256"@
}

/// The provider's authorization address for `cfg`.
pub fn authorize_url(cfg: &Config) -> (r: String)
    ensures
        r@ == authorize_url_model(*cfg),
{
    let mut out = str_chars("https://twitter.com/i/oauth2/authorize?response_type=code&client_id=");
    push_str(&mut out, url_encode(cfg.client_id.as_str()).as_str());
    push_str(&mut out, "&redirect_uri=");
    push_str(&mut out, url_encode(cfg.redirect_uri.as_str()).as_str());
    push_str(&mut out, "&scope=");
    push_str(&mut out, url_encode(cfg.scope.as_str()).as_str());
    push_str(&mut out, "&state=");
    push_str(&mut out, url_encode(cfg.state.as_str()).as_str());
    push_str(&mut out, "&code_challenge=");
    push_str(&mut out, url_encode(cfg.code_challenge.as_str()).as_str());
    push_str(&mut out, "&code_challenge_method=S256");
    chars_to_string(&out)
}

/// Starts an authorization from the form `form`: the configuration to
/// keep, with a fresh PKCE pair and state, and the address to send the
/// browser to.  The random values are whatever was drawn; everything else
/// is as the form gives it.
pub fn start_inner(form: &StartForm) -> (r: Result<(Config, String), StartError>)
    ensures
        match r {
            Ok((c, url)) => {
                &&& start_error(*form) is None
                &&& (exists|bytes: Seq<u8>|
                    is_verifier_bytes(bytes) && c.code_verifier@ == spelled(bytes)
                        && c.code_challenge@ == challenge_of(bytes))
                &&& c.code_challenge@.len() == 43
                &&& (exists|bytes: Seq<u8>| bytes.len() == 16 && c.state@ == base64_of(bytes, true, false))
                &&& config_of(*form, c.state@, c.code_verifier@, c.code_challenge@, c)
                &&& url@ == authorize_url_model(c)
            },
            Err(e) => start_error(*form) == Some(e),
        },
{
    if let Some(e) = check_start_form(form) {
        return Err(e);
    }
    let (verifier, challenge) = gen_pkce();
    let state = gen_state();
    let cfg = start_config(form, state, verifier, challenge);
    let url = authorize_url(&cfg);
    Ok((cfg, url))
}

// ---------------------------------------------------------------------
// The token request
// ---------------------------------------------------------------------

/// A token request: where it goes, its form body, and the `Authorization`
/// header for a confidential client.
pub struct TokenRequest {
    pub url: String,
    pub body: String,
    pub authorization: Option<String>,
}

/// The form of the token request for the authorization `code`.
pub open spec fn token_form(c: Config, code: Seq<char>) -> Seq<(Seq<char>, Seq<char>)> {
    seq![
        ("grant_type"@, "authorization_code"@),
        ("client_id"@, c.client_id@),
        ("code"@, code),
        ("redirect_uri"@, c.redirect_uri@),
        ("code_verifier"@, c.code_verifier@),
    ]
}

/// HTTP Basic credentials: `Basic` and the base64 of `id:secret`.
pub open spec fn basic_auth(id: Seq<char>, secret: Seq<char>) -> Seq<char> {
    "Basic "@ + base64_of(encode_utf8(id + ":"@ + secret), false, true)
}

/// The token request exchanging `code` under the configuration `c`.
pub open spec fn is_token_request(r: TokenRequest, c: Config, code: Seq<char>) -> bool {
    &&& r.url@ == "https://api.twitter.com/2/oauth2/token"@
    &&& r.body@ == form_encoded(token_form(c, code))
    &&& ov(r.authorization) == match c.client_secret {
        Some(s) => Some(basic_auth(c.client_id@, s@)),
        None => None,
    }
}

/// A name and a value.
fn pair(name: &str, value: &str) -> (p: (String, String))
    ensures
        p.0@ == name@,
        p.1@ == value@,
{
    (String::from_str(name), String::from_str(value))
}

/// The token request exchanging the authorization `code` under `cfg`.
pub fn token_request(cfg: &Config, code: &str) -> (r: TokenRequest)
    ensures
        is_token_request(r, *cfg, code@),
{
    let mut pairs: Vec<(String, String)> = Vec::new();
    pairs.push(pair("grant_type", "authorization_code"));
    pairs.push(pair("client_id", cfg.client_id.as_str()));
    pairs.push(pair("code", code));
    pairs.push(pair("redirect_uri", cfg.redirect_uri.as_str()));
    pairs.push(pair("code_verifier", cfg.code_verifier.as_str()));
    assert(pairs_view(pairs@) == token_form(*cfg, code@));
    let body = form_body(&pairs);
    let authorization = match &cfg.client_secret {
        Some(secret) => {
            let mut cred = str_chars(cfg.client_id.as_str());
            push_str(&mut cred, ":");
            push_str(&mut cred, secret.as_str());
            let cred = chars_to_string(&cred);
            let cs = cred.as_str();
            let bytes = cs.as_bytes();
            assert(cs.spec_bytes() == encode_utf8(cs@));
            let enc = base64_standard(bytes);
            let mut h = str_chars("Basic ");
            push_str(&mut h, enc.as_str());
            Some(chars_to_string(&h))
        },
        None => None,
    };
    TokenRequest {
        url: String::from_str("https://api.twitter.com/2/oauth2/token"),
        body,
        authorization,
    }
}

} // verus!
