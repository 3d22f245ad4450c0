//! What the two OAuth helper servers share: escaping of the text shown on
//! their pages, the answer to the provider's redirect back, and the random
//! values they draw.
use vstd::prelude::*;
use crate::text::{chars_to_string, push_str, replace_chars, replaced, str_chars};

verus! {

// ---------------------------------------------------------------------
// Escaping
// ---------------------------------------------------------------------

/// `s` with `&`, `<` and `>` written as character references, `&` first.
pub open spec fn text_escaped(s: Seq<char>) -> Seq<char> {
    replaced(replaced(replaced(s, "&"@, "&amp;"@), "<"@, "&lt;"@), ">"@, "&gt;"@)
}

/// `s` made safe to stand as HTML text.
pub fn escape_html(s: &str) -> (r: String)
    ensures
        r@ == text_escaped(s@),
{
    let v = str_chars(s);
    let a = replace_chars(&v, &str_chars("&"), &str_chars("&amp;"));
    let b = replace_chars(&a, &str_chars("<"), &str_chars("&lt;"));
    let c = replace_chars(&b, &str_chars(">"), &str_chars("&gt;"));
    chars_to_string(&c)
}

/// The text shown for the last token response: the response, or a note
/// that none came yet.
pub open spec fn last_response_model(last: Option<Seq<char>>) -> Seq<char> {
    match last {
        Some(s) => s,
        None => "(no token response yet)"@,
    }
}

/// The text shown for the last token response `last`.
pub fn last_response_text(last: Option<&str>) -> (r: String)
    ensures
        r@ == last_response_model(match last {
            Some(s) => Some(s@),
            None => None,
        }),
{
    match last {
        Some(s) => String::from_str(s),
        None => String::from_str("(no token response yet)"),
    }
}

// ---------------------------------------------------------------------
// The redirect back from the provider
// ---------------------------------------------------------------------

/// The query parameters of the provider's redirect back.
pub struct CallbackParams {
    pub code: Option<String>,
    pub state: Option<String>,
    pub error: Option<String>,
    pub error_description: Option<String>,
}

/// What to do with the redirect back.
#[derive(Debug, PartialEq, Eq)]
pub enum CallbackStep {
    /// The provider refused: answer "bad request" with this message.
    Denied(String),
    /// Exchange this authorization code for a token.
    Exchange(String),
}

/// Why the redirect back is refused.
#[derive(Debug, PartialEq, Eq, Structural)]
pub enum CallbackError {
    /// No authorization code came back.
    MissingCode,
    /// No authorization was started since the server started.
    NoConfig,
    /// The state that came back is not the one sent.
    StateMismatch,
}

/// The message for a refusal `err`, with its description in brackets when
/// there is one.
pub open spec fn denial_message(err: Seq<char>, desc: Option<Seq<char>>) -> Seq<char> {
    "oauth error: "@ + err + match desc {
        Some(d) => " ("@ + d + ")"@,
        None => seq![],
    }
}

/// The view of an optional string.
pub open spec fn ov(o: Option<String>) -> Option<Seq<char>> {
    match o {
        Some(s) => Some(s@),
        None => None,
    }
}

/// The view of an optional string slice.
pub open spec fn osv(o: Option<&str>) -> Option<Seq<char>> {
    match o {
        Some(s) => Some(s@),
        None => None,
    }
}

/// What the redirect back with `params` leads to, when the authorization
/// started sent the state `expected` (`None` when none was started): a
/// refusal from the provider first, then a missing code, a missing start,
/// a state that is not the one sent, and otherwise the code's exchange.
pub open spec fn callback_model(
    code: Option<Seq<char>>,
    state: Option<Seq<char>>,
    error: Option<Seq<char>>,
    desc: Option<Seq<char>>,
    expected: Option<Seq<char>>,
) -> Result<(bool, Seq<char>), CallbackError> {
    match error {
        Some(e) => Ok((false, denial_message(e, desc))),
        None => match code {
            None => Err(CallbackError::MissingCode),
            Some(c) => match expected {
                None => Err(CallbackError::NoConfig),
                Some(x) => if state == Some(x) {
                    Ok((true, c))
                } else {
                    Err(CallbackError::StateMismatch)
                },
            },
        },
    }
}

/// The step as the model gives it: `(true, code)` for an exchange,
/// `(false, message)` for a refusal.
pub open spec fn step_view(s: CallbackStep) -> (bool, Seq<char>) {
    match s {
        CallbackStep::Denied(m) => (false, m@),
        CallbackStep::Exchange(c) => (true, c@),
    }
}

/// Decides what the redirect back with `params` leads to, the
/// authorization having sent the state `expected_state`.
pub fn callback_step(params: &CallbackParams, expected_state: Option<&str>) -> (r: Result<
    CallbackStep,
    CallbackError,
>)
    ensures
        match r {
            Ok(s) => callback_model(
                ov(params.code),
                ov(params.state),
                ov(params.error),
                ov(params.error_description),
                osv(expected_state),
            ) == Ok::<(bool, Seq<char>), CallbackError>(step_view(s)),
            Err(e) => callback_model(
                ov(params.code),
                ov(params.state),
                ov(params.error),
                ov(params.error_description),
                osv(expected_state),
            ) == Err::<(bool, Seq<char>), CallbackError>(e),
        },
{
    if let Some(err) = &params.error {
        let mut msg = str_chars("oauth error: ");
        push_str(&mut msg, err.as_str());
        let ghost head = msg@;
        match &params.error_description {
            Some(d) => {
                push_str(&mut msg, " (");
                push_str(&mut msg, d.as_str());
                push_str(&mut msg, ")");
                assert(msg@ == head + (" ("@ + d@ + ")"@));
            },
            None => {
                assert(msg@ == head + Seq::<char>::empty());
            },
        }
        assert(msg@ == denial_message(err@, ov(params.error_description)));
        return Ok(CallbackStep::Denied(chars_to_string(&msg)));
    }
    let code = match &params.code {
        Some(c) => c,
        None => return Err(CallbackError::MissingCode),
    };
    let expected = match expected_state {
        Some(x) => x,
        None => return Err(CallbackError::NoConfig),
    };
    let same = match &params.state {
        Some(s) => crate::json::chars_equal(&str_chars(s.as_str()), &str_chars(expected)),
        None => false,
    };
    if same {
        Ok(CallbackStep::Exchange(code.clone()))
    } else {
        Err(CallbackError::StateMismatch)
    }
}

// ---------------------------------------------------------------------
// Randomness
// ---------------------------------------------------------------------

/// `rand::random::<u64>()`: a random number from the thread's generator.
/// It is chance: nothing is promised of it.
#[verifier::external_body]
pub(crate) fn random_u64() -> (r: u64) {
    rand::random::<u64>()
}

/// `rand::random::<[u8; 16]>()`: sixteen random bytes.  Only their number
/// is promised.
#[verifier::external_body]
pub(crate) fn random_16_bytes() -> (r: Vec<u8>)
    ensures
        r@.len() == 16,
{
    rand::random::<[u8; 16]>().to_vec()
}

/// `rand::random_range(0..n)`: a random number below `n`, which must not
/// be 0 (the range would be empty, and the call panics).
#[verifier::external_body]
pub(crate) fn random_below(n: usize) -> (r: usize)
    requires
        n > 0,
    ensures
        r < n,
{
    rand::random_range(0..n)
}

} // verus!
