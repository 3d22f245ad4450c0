//! Properties of the library as a whole, proved over the models its
//! functions are specified by.
use vstd::prelude::*;
use crate::text::{
    contains, decimal, digit_char, is_ws, joined, occurs_at, replaced, trim, trim_end, trim_start,
    zero_padded,
};
use crate::article::{article_content, article_prompt_head, article_prompt_model, url_line, MAX_CHARS};
use crate::text::{byte_prefix, cut_ok};
use vstd::utf8::{decode_utf8_encode_utf8, encode_utf8_valid_utf8, valid_utf8_split};
use crate::chat::message_content;
use crate::json::JsonValue;
use crate::encode::{hex_upper, percent_byte, url_encode_bytes, url_encoded, url_unreserved};
use crate::index::{encoded_path, split_char};
use vstd::utf8::encode_utf8;
use crate::images::image_file_name_model;
use crate::tools::results_file_model;
use crate::index::html_escaped;
use crate::oauth::{callback_model, text_escaped, CallbackError};
use crate::pinterest::{description_model, next_stage_model, PinStage, DESCRIPTION_LIMIT};
use crate::listing::{
    cleaned_body, last_stop, page_text_model, product_text_model, review_entry,
    star_number, truncated_review,
};
use crate::markup::{plain_text_of, regex_replace_all_result};
use crate::text::{all_digits, digits_value, first_word, int_of, leading_word, parse_i32_model};
use crate::tools::deploy_env_model;
use crate::images::{img_sources_kept, img_sources_model, opt_item};
use crate::markup::css_select_attr;
use crate::index::{index_head, index_page_model, index_tail, link_item, sorted_links_model, title_keyed};
use vstd::seq_lib::to_multiset_contains;
use crate::medium::template_escaped;
use crate::sort::{chars_le, insert_pos, lemma_stable_sorted_len, stable_sorted};

verus! {

// ---------------------------------------------------------------------
// Replacing
// ---------------------------------------------------------------------

/// Replacing never brings in a character that neither the text nor the
/// replacement holds.
pub proof fn lemma_replaced_keeps_absent(s: Seq<char>, p: Seq<char>, r: Seq<char>, d: char)
    requires
        p.len() > 0,
        !s.contains(d),
        !r.contains(d),
    ensures
        !replaced(s, p, r).contains(d),
    decreases s.len(),
{
    if s.len() == 0 {
    } else if p.is_prefix_of(s) {
        let rest = s.skip(p.len() as int);
        assert forall|i: int| 0 <= i < rest.len() implies rest[i] != d by {
            assert(rest[i] == s[i + p.len()]);
        }
        lemma_replaced_keeps_absent(rest, p, r, d);
        let out = replaced(s, p, r);
        assert(out == r + replaced(rest, p, r));
        assert forall|i: int| 0 <= i < out.len() implies out[i] != d by {
            if i < r.len() {
                assert(out[i] == r[i]);
            } else {
                assert(out[i] == replaced(rest, p, r)[i - r.len()]);
            }
        }
    } else {
        let rest = s.drop_first();
        assert forall|i: int| 0 <= i < rest.len() implies rest[i] != d by {
            assert(rest[i] == s[i + 1]);
        }
        lemma_replaced_keeps_absent(rest, p, r, d);
        let out = replaced(s, p, r);
        assert(out == seq![s[0]] + replaced(rest, p, r));
        assert forall|i: int| 0 <= i < out.len() implies out[i] != d by {
            if i > 0 {
                assert(out[i] == replaced(rest, p, r)[i - 1]);
            }
        }
    }
}

/// Replacing every `d` by a text without `d` leaves no `d`.
pub proof fn lemma_replaced_removes(s: Seq<char>, d: char, r: Seq<char>)
    requires
        !r.contains(d),
    ensures
        !replaced(s, seq![d], r).contains(d),
    decreases s.len(),
{
    if s.len() == 0 {
    } else if seq![d].is_prefix_of(s) {
        let rest = s.skip(1);
        lemma_replaced_removes(rest, d, r);
        let out = replaced(s, seq![d], r);
        assert(out == r + replaced(rest, seq![d], r));
        assert forall|i: int| 0 <= i < out.len() implies out[i] != d by {
            if i < r.len() {
                assert(out[i] == r[i]);
            } else {
                assert(out[i] == replaced(rest, seq![d], r)[i - r.len()]);
            }
        }
    } else {
        let rest = s.drop_first();
        lemma_replaced_removes(rest, d, r);
        let out = replaced(s, seq![d], r);
        assert(s[0] != d) by {
            if s[0] == d {
                assert(s.take(1) == seq![d]);
            }
        }
        assert(out == seq![s[0]] + replaced(rest, seq![d], r));
        assert forall|i: int| 0 <= i < out.len() implies out[i] != d by {
            if i > 0 {
                assert(out[i] == replaced(rest, seq![d], r)[i - 1]);
            }
        }
    }
}

/// A placeholder that does not occur leaves the text as it is.
pub proof fn law_absent_placeholder_keeps_text(s: Seq<char>, p: Seq<char>, v: Seq<char>)
    requires
        p.len() > 0,
        !contains(s, p),
    ensures
        replaced(s, p, v) == s,
    decreases s.len(),
{
    if s.len() == 0 {
    } else {
        assert(!p.is_prefix_of(s)) by {
            if p.is_prefix_of(s) {
                assert(s.subrange(0, p.len() as int) == p);
                assert(occurs_at(s, p, 0));
            }
        }
        let rest = s.drop_first();
        assert(!contains(rest, p)) by {
            if contains(rest, p) {
                let i = choose|i: int| occurs_at(rest, p, i);
                assert(rest.subrange(i, i + p.len()) == s.subrange(i + 1, i + 1 + p.len()));
                assert(occurs_at(s, p, i + 1));
            }
        }
        law_absent_placeholder_keeps_text(rest, p, v);
        assert(seq![s[0]] + rest == s);
    }
}

// ---------------------------------------------------------------------
// Escaping
// ---------------------------------------------------------------------

/// Text escaped for the index page holds no `<`, `>` or `"`: it can stand
/// neither for markup nor for the end of a quoted attribute.
pub proof fn law_html_escape_removes_markup(s: Seq<char>)
    ensures
        !html_escaped(s).contains('<'),
        !html_escaped(s).contains('>'),
        !html_escaped(s).contains('"'),
{
    reveal_strlit("&");
    reveal_strlit("&amp;");
    reveal_strlit("<");
    reveal_strlit("&lt;");
    reveal_strlit(">");
    reveal_strlit("&gt;");
    reveal_strlit("\"");
    reveal_strlit("&quot;");
    let a = replaced(s, "&"@, "&amp;"@);
    let b = replaced(a, "<"@, "&lt;"@);
    let c = replaced(b, ">"@, "&gt;"@);
    assert("<"@ == seq!['<']);
    assert(">"@ == seq!['>']);
    assert("\""@ == seq!['"']);
    assert("&lt;"@ =~= seq!['&', 'l', 't', ';']);
    assert("&gt;"@ =~= seq!['&', 'g', 't', ';']);
    assert("&quot;"@ =~= seq!['&', 'q', 'u', 'o', 't', ';']);
    assert(!"&lt;"@.contains('<'));
    assert(!"&gt;"@.contains('<'));
    assert(!"&gt;"@.contains('>'));
    assert(!"&quot;"@.contains('<'));
    assert(!"&quot;"@.contains('>'));
    assert(!"&quot;"@.contains('"'));
    lemma_replaced_removes(a, '<', "&lt;"@);
    lemma_replaced_keeps_absent(b, ">"@, "&gt;"@, '<');
    lemma_replaced_removes(b, '>', "&gt;"@);
    lemma_replaced_keeps_absent(c, "\""@, "&quot;"@, '<');
    lemma_replaced_keeps_absent(c, "\""@, "&quot;"@, '>');
    lemma_replaced_removes(c, '"', "&quot;"@);
}

/// Text escaped for the helper pages holds no `<` or `>`: it cannot stand
/// for markup.
pub proof fn law_text_escape_removes_markup(s: Seq<char>)
    ensures
        !text_escaped(s).contains('<'),
        !text_escaped(s).contains('>'),
{
    reveal_strlit("&");
    reveal_strlit("&amp;");
    reveal_strlit("<");
    reveal_strlit("&lt;");
    reveal_strlit(">");
    reveal_strlit("&gt;");
    let a = replaced(s, "&"@, "&amp;"@);
    let b = replaced(a, "<"@, "&lt;"@);
    assert("<"@ == seq!['<']);
    assert(">"@ == seq!['>']);
    assert("&lt;"@ =~= seq!['&', 'l', 't', ';']);
    assert("&gt;"@ =~= seq!['&', 'g', 't', ';']);
    assert(!"&lt;"@.contains('<'));
    assert(!"&gt;"@.contains('<'));
    assert(!"&gt;"@.contains('>'));
    lemma_replaced_removes(a, '<', "&lt;"@);
    lemma_replaced_keeps_absent(b, ">"@, "&gt;"@, '<');
    lemma_replaced_removes(b, '>', "&gt;"@);
}

// ---------------------------------------------------------------------
// Lengths
// ---------------------------------------------------------------------

/// A Pin description is never empty and never longer than 450 characters.
pub proof fn law_description_bounded(d: Option<Seq<char>>)
    ensures
        description_model(d) matches Some(t) ==> 0 < t.len() <= DESCRIPTION_LIMIT,
{
    reveal_strlit("...");
}

/// A text that neither starts nor ends with whitespace is its own trim.
proof fn lemma_trim_keeps_clean(t: Seq<char>)
    requires
        t.len() > 0,
        !is_ws(t[0]),
        !is_ws(t.last()),
    ensures
        trim(t) == t,
{
    assert(trim_start(t) == t);
    assert(trim_end(t) == t);
}

/// A Pin description has no surrounding whitespace, and making a
/// description from a description gives it back unchanged.
pub proof fn law_description_settled(d: Option<Seq<char>>)
    ensures
        description_model(d) matches Some(t) ==> trim(t) == t && description_model(Some(t)) == Some(t),
{
    reveal_strlit("...");
    if let Some(s) = d {
        let t0 = trim(s);
        lemma_trim_idempotent(s);
        if t0.len() > DESCRIPTION_LIMIT {
            let a = trim_start(s);
            lemma_trim_start_clean(s);
            lemma_trim_end_prefix(a);
            assert(t0[0] == a[0]);
            let t = t0.take(447) + "..."@;
            assert(t[0] == t0[0]);
            assert(t.last() == '.');
            lemma_trim_keeps_clean(t);
            assert(t.len() == DESCRIPTION_LIMIT);
        }
    }
}

/// `last_stop` is a position of `s`, or -1.
pub proof fn lemma_last_stop_bound(s: Seq<char>)
    ensures
        -1 <= last_stop(s) < s.len(),
    decreases s.len(),
{
    if s.len() > 0 {
        lemma_last_stop_bound(s.drop_last());
    }
}

/// A review excerpt is at most three characters (the `...`) longer than
/// the limit, and a text within the limit is kept whole.
pub proof fn law_review_excerpt_bounded(text: Seq<char>, max: nat)
    ensures
        truncated_review(text, max).len() <= max + 3,
        text.len() <= max ==> truncated_review(text, max) == text,
{
    reveal_strlit("...");
    if text.len() > max {
        let s = text.take(max as int);
        lemma_last_stop_bound(s);
        crate::text::lemma_trim_end_len(s);
    }
}

// ---------------------------------------------------------------------
// The redirect back
// ---------------------------------------------------------------------

/// A code is only ever exchanged when the provider reported no refusal, an
/// authorization was started, and the redirect back carries the very state
/// it sent; and such a redirect with a code always leads to that code's
/// exchange.
pub proof fn law_exchange_needs_issued_state(
    code: Option<Seq<char>>,
    state: Option<Seq<char>>,
    error: Option<Seq<char>>,
    desc: Option<Seq<char>>,
    expected: Option<Seq<char>>,
)
    ensures
        callback_model(code, state, error, desc, expected) matches Ok((true, c)) ==> {
            &&& error is None
            &&& code == Some(c)
            &&& expected is Some
            &&& state == expected
        },
        error is None && code is Some && expected is Some && state == expected ==> callback_model(
            code,
            state,
            error,
            desc,
            expected,
        ) == Ok::<(bool, Seq<char>), CallbackError>((true, code->0)),
        error is None && code is Some && expected is Some && state != expected ==> callback_model(
            code,
            state,
            error,
            desc,
            expected,
        ) == Err::<(bool, Seq<char>), CallbackError>(CallbackError::StateMismatch),
{
}

// ---------------------------------------------------------------------
// Posting a Pin
// ---------------------------------------------------------------------

/// The place of a step in the order of posting.
pub open spec fn stage_rank(s: PinStage) -> int {
    match s {
        PinStage::OpenBoard => 0,
        PinStage::OpenBuilder => 1,
        PinStage::WaitForUi => 2,
        PinStage::CheckLogin => 3,
        PinStage::UploadImage => 4,
        PinStage::FillFields => 5,
        PinStage::ChooseBoard => 6,
        PinStage::Publish => 7,
        PinStage::Done => 8,
    }
}

/// Posting moves one step forward at a time and never skips one, so a Pin
/// is only published after the builder rendered, no login wall showed and
/// the image went up; a step that fails ends the post, except filling the
/// fields and choosing the board, which are best effort.
pub proof fn law_pin_steps_in_order(stage: PinStage, ok: bool)
    ensures
        next_stage_model(stage, ok) matches Ok(n) ==> (stage == PinStage::Done && n == PinStage::Done)
            || stage_rank(n) == stage_rank(stage) + 1,
        next_stage_model(stage, ok) is Err <==> !ok && stage != PinStage::FillFields && stage
            != PinStage::ChooseBoard && stage != PinStage::Done,
{
}

// ---------------------------------------------------------------------
// Sorting
// ---------------------------------------------------------------------

/// Any two texts are ordered one way or the other.
pub proof fn lemma_chars_le_total(a: Seq<char>, b: Seq<char>)
    ensures
        chars_le(a, b) || chars_le(b, a),
    decreases a.len(),
{
    if a.len() > 0 && b.len() > 0 {
        if a[0] == b[0] {
            lemma_chars_le_total(a.drop_first(), b.drop_first());
        } else {
            assert(a[0] < b[0] || b[0] < a[0]);
        }
    }
}

/// The order of texts is transitive.
pub proof fn lemma_chars_le_trans(a: Seq<char>, b: Seq<char>, c: Seq<char>)
    requires
        chars_le(a, b),
        chars_le(b, c),
    ensures
        chars_le(a, c),
    decreases a.len(),
{
    if a.len() > 0 && b.len() > 0 && c.len() > 0 && a[0] == b[0] && b[0] == c[0] {
        lemma_chars_le_trans(a.drop_first(), b.drop_first(), c.drop_first());
    }
}

/// The items of `s` come in the order of their keys.
pub open spec fn key_sorted<V>(s: Seq<(Seq<char>, V)>) -> bool {
    forall|i: int, j: int| 0 <= i < j < s.len() ==> chars_le(#[trigger] s[i].0, #[trigger] s[j].0)
}

/// Every item before the insertion point has a key not above `k`; the
/// item at it, if any, has a greater one.
pub proof fn lemma_insert_pos_props<V>(s: Seq<(Seq<char>, V)>, k: Seq<char>)
    ensures
        0 <= insert_pos(s, k) <= s.len(),
        forall|i: int| 0 <= i < insert_pos(s, k) ==> chars_le(#[trigger] s[i].0, k),
        insert_pos(s, k) < s.len() ==> !chars_le(s[insert_pos(s, k)].0, k),
    decreases s.len(),
{
    if s.len() > 0 && chars_le(s[0].0, k) {
        lemma_insert_pos_props(s.drop_first(), k);
        assert forall|i: int| 0 <= i < insert_pos(s, k) implies chars_le(#[trigger] s[i].0, k) by {
            if i > 0 {
                assert(s[i] == s.drop_first()[i - 1]);
            }
        }
    }
}

/// An item inserted at the insertion point is not above anything after
/// it.
proof fn lemma_inserted_below_rest<V>(t: Seq<(Seq<char>, V)>, k: Seq<char>, j: int)
    requires
        key_sorted(t),
        insert_pos(t, k) <= j < t.len(),
    ensures
        chars_le(k, t[j].0),
{
    let p = insert_pos(t, k);
    lemma_insert_pos_props(t, k);
    lemma_chars_le_total(t[p].0, k);
    if j > p {
        assert(chars_le(t[p].0, t[j].0));
        lemma_chars_le_trans(k, t[p].0, t[j].0);
    }
}

/// Inserting at the insertion point keeps a sorted sequence sorted.
#[verifier::spinoff_prover]
#[verifier::rlimit(40)]
pub proof fn lemma_insert_keeps_sorted<V>(t: Seq<(Seq<char>, V)>, x: (Seq<char>, V))
    requires
        key_sorted(t),
    ensures
        key_sorted(t.insert(insert_pos(t, x.0), x)),
{
    let p = insert_pos(t, x.0);
    lemma_insert_pos_props(t, x.0);
    let u = t.insert(p, x);
    t.insert_ensures(p, x);
    assert forall|i: int, j: int| 0 <= i < j < u.len() implies chars_le(#[trigger] u[i].0, #[trigger] u[j].0) by {
        if j < p {
            assert(u[i] == t[i] && u[j] == t[j]);
        } else if j == p {
            assert(u[i] == t[i]);
        } else if i < p {
            assert(u[i] == t[i]);
            assert(u[j] == t[j - 1]);
            if i < j - 1 {
                assert(chars_le(t[i].0, t[j - 1].0));
            }
        } else if i == p {
            assert(u[j] == t[j - 1]);
            lemma_inserted_below_rest(t, x.0, j - 1);
        } else {
            assert(u[i] == t[i - 1] && u[j] == t[j - 1]);
        }
    }
}

/// Sorting by key, as both sorts of the library do it (links by title,
/// file names by name), puts the items in the order of their keys and
/// keeps every item, each as often as it came.
pub proof fn law_stable_sort_sorts<V>(s: Seq<(Seq<char>, V)>)
    ensures
        key_sorted(stable_sorted(s)),
        stable_sorted(s).to_multiset() == s.to_multiset(),
        stable_sorted(s).len() == s.len(),
    decreases s.len(),
{
    lemma_stable_sorted_len(s);
    if s.len() == 0 {
    } else {
        let d = s.drop_last();
        law_stable_sort_sorts(d);
        let t = stable_sorted(d);
        lemma_insert_keeps_sorted(t, s.last());
        lemma_insert_pos_props(t, s.last().0);
        vstd::seq_lib::to_multiset_insert(t, insert_pos(t, s.last().0), s.last());
        vstd::seq_lib::to_multiset_build(d, s.last());
        assert(d.push(s.last()) == s);
    }
}

/// Every text is ordered before itself.
pub proof fn lemma_chars_le_refl(a: Seq<char>)
    ensures
        chars_le(a, a),
    decreases a.len(),
{
    if a.len() > 0 {
        lemma_chars_le_refl(a.drop_first());
    }
}

/// Each item carries its position as a tag.
pub open spec fn tagged_in_order<V>(s: Seq<(Seq<char>, (V, int))>) -> bool {
    forall|i: int| 0 <= i < s.len() ==> (#[trigger] s[i]).1.1 == i
}

/// Items with equal keys come in the order of their tags.
pub open spec fn equal_keys_in_order<V>(s: Seq<(Seq<char>, (V, int))>) -> bool {
    forall|i: int, j: int|
        0 <= i < j < s.len() && (#[trigger] s[i]).0 == (#[trigger] s[j]).0 ==> s[i].1.1 < s[j].1.1
}

/// Sorting keeps every tag of a tagged sequence below its length.
proof fn lemma_sorted_tags_below<V>(s: Seq<(Seq<char>, (V, int))>)
    requires
        tagged_in_order(s),
    ensures
        forall|i: int| 0 <= i < stable_sorted(s).len() ==> 0 <= (#[trigger] stable_sorted(s)[i]).1.1 < s.len(),
{
    let t = stable_sorted(s);
    law_stable_sort_sorts(s);
    assert forall|i: int| 0 <= i < t.len() implies 0 <= (#[trigger] t[i]).1.1 < s.len() by {
        let x = t[i];
        assert(t.contains(x));
        vstd::seq_lib::to_multiset_contains(t, x);
        vstd::seq_lib::to_multiset_contains(s, x);
        assert(s.contains(x));
        let k = choose|k: int| 0 <= k < s.len() && s[k] == x;
        assert(s[k].1.1 == k);
    }
}

/// Sorting is stable: items with equal keys, such as links with the same
/// title, keep the order they came in.
pub proof fn law_stable_sort_keeps_found_order<V>(s: Seq<(Seq<char>, (V, int))>)
    requires
        tagged_in_order(s),
    ensures
        equal_keys_in_order(stable_sorted(s)),
    decreases s.len(),
{
    if s.len() > 0 {
        let d = s.drop_last();
        assert forall|i: int| 0 <= i < d.len() implies (#[trigger] d[i]).1.1 == i by {
            assert(d[i] == s[i]);
        }
        law_stable_sort_keeps_found_order(d);
        law_stable_sort_sorts(d);
        lemma_sorted_tags_below(d);
        let t = stable_sorted(d);
        let x = s.last();
        assert(x.1.1 == s.len() - 1);
        let p = insert_pos(t, x.0);
        lemma_insert_pos_props(t, x.0);
        let u = t.insert(p, x);
        t.insert_ensures(p, x);
        assert(u == stable_sorted(s));
        assert forall|i: int, j: int|
            0 <= i < j < u.len() && (#[trigger] u[i]).0 == (#[trigger] u[j]).0 implies u[i].1.1 < u[j].1.1 by {
            if j < p {
                assert(u[i] == t[i] && u[j] == t[j]);
            } else if j == p {
                assert(u[i] == t[i]);
                assert(0 <= t[i].1.1 < d.len());
            } else if i < p {
                assert(u[i] == t[i] && u[j] == t[j - 1]);
            } else if i == p {
                assert(u[j] == t[j - 1]);
                lemma_chars_le_refl(x.0);
                if j - 1 > p {
                    assert(chars_le(t[p].0, t[j - 1].0));
                }
                assert(false);
            } else {
                assert(u[i] == t[i - 1] && u[j] == t[j - 1]);
            }
        }
    }
}

// ---------------------------------------------------------------------
// File names
// ---------------------------------------------------------------------

/// The decimal digits of a positive number start with a non-zero digit.
pub proof fn lemma_decimal_leading_digit(n: nat)
    requires
        n >= 1,
    ensures
        decimal(n).len() >= 1,
        decimal(n)[0] != '0',
    decreases n,
{
    if n >= 10 {
        lemma_decimal_leading_digit(n / 10);
    }
}

/// A number has a longer decimal form than every number below 10 from 10 on.
pub proof fn lemma_decimal_len(n: nat)
    ensures
        decimal(n).len() >= 1,
        n >= 10 ==> decimal(n).len() >= 2,
    decreases n,
{
    if n >= 10 {
        lemma_decimal_len(n / 10);
    }
}

/// Different digits are written differently.
pub proof fn lemma_digit_char_injective(a: nat, b: nat)
    requires
        a < 10,
        b < 10,
        digit_char(a) == digit_char(b),
    ensures
        a == b,
{
}

/// Different numbers are written differently.
pub proof fn lemma_decimal_injective(n: nat, m: nat)
    requires
        decimal(n) == decimal(m),
    ensures
        n == m,
    decreases n,
{
    lemma_decimal_len(n);
    lemma_decimal_len(m);
    if n < 10 && m < 10 {
        assert(decimal(n)[0] == digit_char(n));
        assert(decimal(m)[0] == digit_char(m));
        lemma_digit_char_injective(n, m);
    }
    if n >= 10 && m >= 10 {
        let a = decimal(n);
        let b = decimal(m);
        assert(a.last() == digit_char(n % 10));
        assert(b.last() == digit_char(m % 10));
        assert(a.drop_last() == decimal(n / 10));
        assert(b.drop_last() == decimal(m / 10));
        lemma_decimal_injective(n / 10, m / 10);
        lemma_digit_char_injective(n % 10, m % 10);
    }
}

/// Zero-padding keeps different positive numbers apart.
pub proof fn lemma_zero_padded_injective(n: nat, m: nat, w: nat)
    requires
        n >= 1,
        m >= 1,
        zero_padded(n, w) == zero_padded(m, w),
    ensures
        n == m,
{
    let dn = decimal(n);
    let dm = decimal(m);
    lemma_decimal_leading_digit(n);
    lemma_decimal_leading_digit(m);
    let kn: int = if dn.len() < w { w - dn.len() } else { 0 };
    let km: int = if dm.len() < w { w - dm.len() } else { 0 };
    let z = zero_padded(n, w);
    assert(z.len() == kn + dn.len());
    assert(forall|i: int| 0 <= i < kn ==> z[i] == '0');
    assert(forall|i: int| 0 <= i < km ==> z[i] == '0');
    assert(z[kn] == dn[0]);
    assert(z[km] == dm[0]);
    assert(kn == km);
    assert(dn == z.skip(kn));
    assert(dm == z.skip(km));
    lemma_decimal_injective(n, m);
}

/// Every downloaded image is saved under a name of its own.
pub proof fn law_image_names_distinct(i: nat, j: nat)
    requires
        i != j,
    ensures
        image_file_name_model(i) != image_file_name_model(j),
{
    let a = image_file_name_model(i);
    let b = image_file_name_model(j);
    if a == b {
        reveal_strlit("image_");
        reveal_strlit(".jpg");
        let zi = zero_padded(i + 1, 3);
        let zj = zero_padded(j + 1, 3);
        assert(a.len() == 10 + zi.len());
        assert(zi == a.subrange(6, a.len() - 4));
        assert(zj == b.subrange(6, b.len() - 4));
        lemma_zero_padded_injective(i + 1, j + 1, 3);
    }
}

/// Every saved result page goes to a file of its own.
pub proof fn law_results_files_distinct(i: nat, j: nat)
    requires
        i != j,
    ensures
        results_file_model(i) != results_file_model(j),
{
    let a = results_file_model(i);
    let b = results_file_model(j);
    if a == b {
        reveal_strlit("page_");
        reveal_strlit(".html");
        let zi = zero_padded(i + 1, 3);
        let zj = zero_padded(j + 1, 3);
        assert(zi == a.subrange(5, a.len() - 5));
        assert(zj == b.subrange(5, b.len() - 5));
        lemma_zero_padded_injective(i + 1, j + 1, 3);
    }
}

// ---------------------------------------------------------------------
// Links on the index page
// ---------------------------------------------------------------------

/// Percent-encoding never writes a double quote.
pub proof fn lemma_url_encoding_has_no_quote(bs: Seq<u8>)
    ensures
        !url_encode_bytes(bs).contains('"'),
    decreases bs.len(),
{
    if bs.len() > 0 {
        lemma_url_encoding_has_no_quote(bs.drop_first());
        let head = if url_unreserved(bs[0]) {
            seq![bs[0] as char]
        } else {
            percent_byte(bs[0])
        };
        let tail = url_encode_bytes(bs.drop_first());
        assert(url_encode_bytes(bs) == head + tail);
        assert(!head.contains('"')) by {
            if url_unreserved(bs[0]) {
                assert(bs[0] != 34);
                assert((bs[0] as char) as int == bs[0] as int);
            } else {
                let hi = bs[0] as int / 16;
                let lo = bs[0] as int % 16;
                assert(0 <= hi < 16 && 0 <= lo < 16);
                assert(hex_upper(hi) as int == if hi < 10 { hi + 48 } else { hi + 55 });
                assert(hex_upper(lo) as int == if lo < 10 { lo + 48 } else { lo + 55 });
            }
        }
        assert forall|i: int| 0 <= i < head.len() + tail.len() implies (head + tail)[i] != '"' by {
            if i >= head.len() {
                assert((head + tail)[i] == tail[i - head.len()]);
            }
        }
    }
}

/// Joining texts without `d` by a separator without `d` gives a text
/// without `d`.
pub proof fn lemma_joined_excludes(parts: Seq<Seq<char>>, sep: Seq<char>, d: char)
    requires
        forall|i: int| 0 <= i < parts.len() ==> !(#[trigger] parts[i]).contains(d),
        !sep.contains(d),
    ensures
        !joined(parts, sep).contains(d),
    decreases parts.len(),
{
    if parts.len() > 1 {
        let init = parts.drop_last();
        assert forall|i: int| 0 <= i < init.len() implies !(#[trigger] init[i]).contains(d) by {
            assert(init[i] == parts[i]);
        }
        lemma_joined_excludes(init, sep, d);
        let a = joined(init, sep);
        let l = parts.last();
        assert(!l.contains(d)) by {
            assert(l == parts[parts.len() - 1]);
        }
        let out = a + sep + l;
        assert(joined(parts, sep) == out);
        assert forall|i: int| 0 <= i < out.len() implies out[i] != d by {
            if i < a.len() {
                assert(out[i] == a[i]);
            } else if i < a.len() + sep.len() {
                assert(out[i] == sep[i - a.len()]);
            } else {
                assert(out[i] == l[i - a.len() - sep.len()]);
            }
        }
    } else if parts.len() == 1 {
        assert(!parts[0].contains(d));
    }
}

/// The link of every index entry is written without a double quote, so it
/// cannot end the `href` attribute it stands in, whatever the page path.
pub proof fn law_index_links_stay_in_attribute(href: Seq<char>)
    ensures
        !encoded_path(href).contains('"'),
{
    let parts = split_char(href, '/').map_values(|seg: Seq<char>| url_encoded(seg));
    assert forall|i: int| 0 <= i < parts.len() implies !(#[trigger] parts[i]).contains('"') by {
        lemma_url_encoding_has_no_quote(encode_utf8(split_char(href, '/')[i]));
    }
    reveal_strlit("/");
    assert("/"@ =~= seq!['/']);
    lemma_joined_excludes(parts, "/"@, '"');
}

// ---------------------------------------------------------------------
// Trimmed results
// ---------------------------------------------------------------------

/// What trimming the start leaves does not start with whitespace.
pub proof fn lemma_trim_start_clean(s: Seq<char>)
    ensures
        trim_start(s).len() > 0 ==> !is_ws(trim_start(s)[0]),
    decreases s.len(),
{
    if s.len() > 0 && is_ws(s[0]) {
        lemma_trim_start_clean(s.drop_first());
    }
}

/// Trimming the end leaves a prefix that does not end with whitespace.
pub proof fn lemma_trim_end_prefix(s: Seq<char>)
    ensures
        trim_end(s).len() <= s.len(),
        trim_end(s) == s.take(trim_end(s).len() as int),
        trim_end(s).len() > 0 ==> !is_ws(trim_end(s).last()),
    decreases s.len(),
{
    if s.len() > 0 && is_ws(s.last()) {
        lemma_trim_end_prefix(s.drop_last());
        assert(s.drop_last().take(trim_end(s).len() as int) == s.take(trim_end(s).len() as int));
    } else {
        assert(s.take(s.len() as int) == s);
    }
}

/// Trimming twice is trimming once.
pub proof fn lemma_trim_idempotent(s: Seq<char>)
    ensures
        trim(trim(s)) == trim(s),
{
    let a = trim_start(s);
    let c = trim_end(a);
    lemma_trim_start_clean(s);
    lemma_trim_end_prefix(a);
    if c.len() > 0 {
        assert(c[0] == a[0]);
        assert(trim_start(c) == c);
        assert(trim_end(c) == c);
    } else {
        assert(trim_start(c) == c);
    }
}

/// The article handed back is never empty and has no surrounding
/// whitespace; so is an API key read from its file.
pub proof fn law_results_are_trimmed(v: JsonValue, contents: Seq<char>)
    ensures
        article_content(v) matches Some(c) ==> c.len() > 0 && trim(c) == c,
        trim(contents).len() > 0 ==> trim(trim(contents)) == trim(contents),
{
    match message_content(v) {
        Some(c) => lemma_trim_idempotent(c),
        None => {},
    }
    lemma_trim_idempotent(contents);
}

// ---------------------------------------------------------------------
// The title inside a template literal
// ---------------------------------------------------------------------

/// Read as the inside of a JavaScript template literal, `x` neither ends
/// it nor opens a substitution: every backslash escapes the character
/// after it, and no bare backtick or `${` occurs.
pub open spec fn template_safe(x: Seq<char>) -> bool
    decreases x.len(),
{
    if x.len() == 0 {
        true
    } else if x[0] == '\\' {
        x.len() >= 2 && template_safe(x.skip(2))
    } else if x[0] == '`' {
        false
    } else if x[0] == '$' && x.len() >= 2 && x[1] == '{' {
        false
    } else {
        template_safe(x.drop_first())
    }
}

/// Escaping in one pass: a backslash doubled, a backtick and `${`
/// preceded by a backslash.
pub open spec fn escaped_once(s: Seq<char>) -> Seq<char>
    decreases s.len(),
{
    if s.len() == 0 {
        s
    } else if s[0] == '\\' {
        seq!['\\', '\\'] + escaped_once(s.drop_first())
    } else if s[0] == '`' {
        seq!['\\', '`'] + escaped_once(s.drop_first())
    } else if s[0] == '$' && s.len() >= 2 && s[1] == '{' {
        seq!['\\', '$', '{'] + escaped_once(s.skip(2))
    } else {
        seq![s[0]] + escaped_once(s.drop_first())
    }
}

/// Replacing a single character, one step.
proof fn lemma_replaced_char_step(s: Seq<char>, c: char, r: Seq<char>)
    requires
        s.len() > 0,
    ensures
        replaced(s, seq![c], r) == (if s[0] == c { r } else { seq![s[0]] }) + replaced(
            s.drop_first(),
            seq![c],
            r,
        ),
{
    if s[0] == c {
        assert(s.subrange(0, 1) =~= seq![c]);
        assert(seq![c].is_prefix_of(s));
    } else {
        if seq![c].is_prefix_of(s) {
            assert(s.subrange(0, 1)[0] == s[0]);
        }
    }
    assert(s.skip(1) == s.drop_first());
}

/// A text that does not start like the pattern keeps its first character.
proof fn lemma_replaced_keeps_first(x: Seq<char>, p: Seq<char>, r: Seq<char>)
    requires
        x.len() > 0,
        p.len() > 0,
        x[0] != p[0],
    ensures
        replaced(x, p, r) == seq![x[0]] + replaced(x.drop_first(), p, r),
{
    if p.is_prefix_of(x) {
        assert(x.subrange(0, p.len() as int)[0] == x[0]);
    }
}

/// The first character of the text after the first two escapes, when the
/// text does not start with a backslash or a backtick.
proof fn lemma_two_escapes_first(s: Seq<char>)
    requires
        s.len() > 0,
    ensures
        ({
            let y = replaced(replaced(s, seq!['\\'], seq!['\\', '\\']), seq!['`'], seq!['\\', '`']);
            y.len() > 0 && (y[0] == s[0] || y[0] == '\\')
        }),
{
    lemma_replaced_char_step(s, '\\', seq!['\\', '\\']);
    let a = replaced(s, seq!['\\'], seq!['\\', '\\']);
    assert(a.len() > 0);
    lemma_replaced_char_step(a, '`', seq!['\\', '`']);
}

/// The three replacements agree with escaping in one pass.
#[verifier::spinoff_prover]
#[verifier::rlimit(60)]
proof fn lemma_escape_steps(s: Seq<char>)
    ensures
        replaced(
            replaced(replaced(s, seq!['\\'], seq!['\\', '\\']), seq!['`'], seq!['\\', '`']),
            seq!['$', '{'],
            seq!['\\', '$', '{'],
        ) == escaped_once(s),
    decreases s.len(),
{
    let bs = seq!['\\'];
    let bb = seq!['\\', '\\'];
    let bt = seq!['`'];
    let bbt = seq!['\\', '`'];
    let dl = seq!['$', '{'];
    let bdl = seq!['\\', '$', '{'];
    if s.len() == 0 {
        assert(replaced(s, bs, bb) == s);
        assert(replaced(s, bt, bbt) == s);
        assert(replaced(s, dl, bdl) == s);
    } else {
        let rest = s.drop_first();
        lemma_replaced_char_step(s, '\\', bb);
        let r1 = replaced(rest, bs, bb);
        let r2 = replaced(r1, bt, bbt);
        if s[0] == '\\' {
            lemma_escape_steps(rest);
            let a = bb + r1;
            assert(replaced(s, bs, bb) == a);
            lemma_replaced_char_step(a, '`', bbt);
            assert(a.drop_first() == seq!['\\'] + r1);
            lemma_replaced_char_step(seq!['\\'] + r1, '`', bbt);
            assert((seq!['\\'] + r1).drop_first() == r1);
            let b = bb + r2;
            assert(replaced(a, bt, bbt) =~= b);
            lemma_replaced_keeps_first(b, dl, bdl);
            assert(b.drop_first() == seq!['\\'] + r2);
            lemma_replaced_keeps_first(seq!['\\'] + r2, dl, bdl);
            assert((seq!['\\'] + r2).drop_first() == r2);
            assert(replaced(b, dl, bdl) =~= bb + replaced(r2, dl, bdl));
        } else if s[0] == '`' {
            lemma_escape_steps(rest);
            let a = seq!['`'] + r1;
            assert(replaced(s, bs, bb) == a);
            lemma_replaced_char_step(a, '`', bbt);
            assert(a.drop_first() == r1);
            let b = bbt + r2;
            assert(replaced(a, bt, bbt) =~= b);
            lemma_replaced_keeps_first(b, dl, bdl);
            assert(b.drop_first() == seq!['`'] + r2);
            lemma_replaced_keeps_first(seq!['`'] + r2, dl, bdl);
            assert((seq!['`'] + r2).drop_first() == r2);
            assert(replaced(b, dl, bdl) =~= bbt + replaced(r2, dl, bdl));
        } else if s[0] == '$' && s.len() >= 2 && s[1] == '{' {
            let rest2 = s.skip(2);
            lemma_escape_steps(rest2);
            assert(rest[0] == '{' && rest.drop_first() == rest2);
            lemma_replaced_char_step(rest, '\\', bb);
            let q1 = replaced(rest2, bs, bb);
            let q2 = replaced(q1, bt, bbt);
            let a = seq!['$', '{'] + q1;
            assert(replaced(s, bs, bb) =~= a);
            lemma_replaced_char_step(a, '`', bbt);
            assert(a.drop_first() == seq!['{'] + q1);
            lemma_replaced_char_step(seq!['{'] + q1, '`', bbt);
            assert((seq!['{'] + q1).drop_first() == q1);
            let b = dl + q2;
            assert(replaced(a, bt, bbt) =~= b);
            assert(dl.is_prefix_of(b)) by {
                assert(b.take(2) =~= dl);
            }
            assert(b.skip(2) == q2);
            assert(replaced(b, dl, bdl) == bdl + replaced(q2, dl, bdl));
        } else {
            lemma_escape_steps(rest);
            let c = s[0];
            let a = seq![c] + r1;
            assert(replaced(s, bs, bb) == a);
            lemma_replaced_char_step(a, '`', bbt);
            assert(a.drop_first() == r1);
            let b = seq![c] + r2;
            assert(replaced(a, bt, bbt) =~= b);
            assert(!dl.is_prefix_of(b)) by {
                if dl.is_prefix_of(b) {
                    assert(b[0] == '$' && b[1] == '{');
                    assert(rest.len() > 0) by {
                        if rest.len() == 0 {
                            assert(r1 == rest);
                            assert(r2 == r1);
                        }
                    }
                    lemma_two_escapes_first(rest);
                    assert(r2[0] == b[1]);
                    assert(s[1] == rest[0]);
                }
            }
            assert(b.drop_first() == r2);
            assert(replaced(b, dl, bdl) =~= seq![c] + replaced(r2, dl, bdl));
        }
    }
}

/// Escaping in one pass leaves text safe inside a template literal.
proof fn lemma_escaped_once_safe(s: Seq<char>)
    ensures
        template_safe(escaped_once(s)),
        s.len() > 0 ==> escaped_once(s).len() > 0 && (escaped_once(s)[0] == '\\' || escaped_once(
            s,
        )[0] == s[0]),
    decreases s.len(),
{
    if s.len() > 0 {
        let e = escaped_once(s);
        if s[0] == '\\' || s[0] == '`' {
            let rest = s.drop_first();
            lemma_escaped_once_safe(rest);
            let pair = if s[0] == '\\' { seq!['\\', '\\'] } else { seq!['\\', '`'] };
            assert(e == pair + escaped_once(rest));
            assert(e[0] == '\\');
            assert(e.skip(2) =~= escaped_once(rest));
            assert(template_safe(e));
        } else if s[0] == '$' && s.len() >= 2 && s[1] == '{' {
            let rest2 = s.skip(2);
            lemma_escaped_once_safe(rest2);
            assert(e == seq!['\\', '$', '{'] + escaped_once(rest2));
            assert(e[0] == '\\');
            let t = seq!['{'] + escaped_once(rest2);
            assert(e.skip(2) =~= t);
            assert(t[0] == '{');
            assert(t.drop_first() =~= escaped_once(rest2));
            assert(template_safe(t));
            assert(template_safe(e));
        } else {
            let rest = s.drop_first();
            lemma_escaped_once_safe(rest);
            assert(e == seq![s[0]] + escaped_once(rest));
            assert(e[0] == s[0]);
            assert(e.drop_first() =~= escaped_once(rest));
            if s[0] == '$' && rest.len() > 0 {
                assert(rest[0] == s[1]);
                assert(rest[0] != '{');
                assert(e[1] == escaped_once(rest)[0]);
            }
            if s[0] == '$' && rest.len() == 0 {
                assert(e.len() == 1);
            }
            assert(template_safe(e));
        }
    }
}

/// A title written into the Medium editor's script cannot end the
/// template literal it stands in, nor open a substitution, whatever it
/// holds.
pub proof fn law_template_escape_is_safe(s: Seq<char>)
    ensures
        template_safe(template_escaped(s)),
{
    reveal_strlit("\\");
    reveal_strlit("\\\\");
    reveal_strlit("`");
    reveal_strlit("\\`");
    reveal_strlit("${");
    reveal_strlit("\\${");
    assert("\\"@ =~= seq!['\\']);
    assert("\\\\"@ =~= seq!['\\', '\\']);
    assert("`"@ =~= seq!['`']);
    assert("\\`"@ =~= seq!['\\', '`']);
    assert("${"@ =~= seq!['$', '{']);
    assert("\\${"@ =~= seq!['\\', '$', '{']);
    lemma_escape_steps(s);
    lemma_escaped_once_safe(s);
}


/// Reading a template literal's inside back: a backslash before another
/// backslash, a backtick or a `$` stands for that character; every other
/// character stands for itself.
pub open spec fn template_unescaped(x: Seq<char>) -> Seq<char>
    decreases x.len(),
{
    if x.len() == 0 {
        x
    } else if x[0] == '\\' && x.len() >= 2 && (x[1] == '\\' || x[1] == '`' || x[1] == '$') {
        seq![x[1]] + template_unescaped(x.skip(2))
    } else {
        seq![x[0]] + template_unescaped(x.drop_first())
    }
}

/// Reading back what escaping in one pass wrote gives the text.
proof fn lemma_escaped_once_reads_back(s: Seq<char>)
    ensures
        template_unescaped(escaped_once(s)) == s,
    decreases s.len(),
{
    if s.len() > 0 {
        let e = escaped_once(s);
        if s[0] == '\\' || s[0] == '`' {
            let rest = s.drop_first();
            lemma_escaped_once_reads_back(rest);
            assert(e.skip(2) =~= escaped_once(rest));
            assert(s =~= seq![s[0]] + rest);
        } else if s[0] == '$' && s.len() >= 2 && s[1] == '{' {
            let rest2 = s.skip(2);
            lemma_escaped_once_reads_back(rest2);
            let t = seq!['{'] + escaped_once(rest2);
            assert(e.skip(2) =~= t);
            assert(t.drop_first() =~= escaped_once(rest2));
            assert(template_unescaped(t) == seq!['{'] + rest2);
            assert(s =~= seq!['$', '{'] + rest2);
        } else {
            let rest = s.drop_first();
            lemma_escaped_once_reads_back(rest);
            assert(e.drop_first() =~= escaped_once(rest));
            assert(s =~= seq![s[0]] + rest);
        }
    }
}

/// Read back as a template literal, the escaped title is the title: the
/// escaping loses nothing, and every backtick and `${` of the title comes
/// out as written.
pub proof fn law_template_escape_reads_back(s: Seq<char>)
    ensures
        template_unescaped(template_escaped(s)) == s,
{
    reveal_strlit("\\");
    reveal_strlit("\\\\");
    reveal_strlit("`");
    reveal_strlit("\\`");
    reveal_strlit("${");
    reveal_strlit("\\${");
    assert("\\"@ =~= seq!['\\']);
    assert("\\\\"@ =~= seq!['\\', '\\']);
    assert("`"@ =~= seq!['`']);
    assert("\\`"@ =~= seq!['\\', '`']);
    assert("${"@ =~= seq!['$', '{']);
    assert("\\${"@ =~= seq!['\\', '$', '{']);
    lemma_escape_steps(s);
    lemma_escaped_once_reads_back(s);
}


// ---------------------------------------------------------------------
// Reading escaped HTML text back
// ---------------------------------------------------------------------

/// What escaping writes for one character.
pub open spec fn html_token(c: char) -> Seq<char> {
    if c == '&' {
        seq!['&', 'a', 'm', 'p', ';']
    } else if c == '<' {
        seq!['&', 'l', 't', ';']
    } else if c == '>' {
        seq!['&', 'g', 't', ';']
    } else {
        seq![c]
    }
}

/// Escaped text with `&gt;` read back as `>`.
pub open spec fn html_gt_read(s: Seq<char>) -> Seq<char>
    decreases s.len(),
{
    if s.len() == 0 {
        s
    } else {
        (if s[0] == '>' { seq!['>'] } else { html_token(s[0]) }) + html_gt_read(s.drop_first())
    }
}

/// Escaped text with `&gt;` and `&lt;` read back.
pub open spec fn html_lt_gt_read(s: Seq<char>) -> Seq<char>
    decreases s.len(),
{
    if s.len() == 0 {
        s
    } else {
        (if s[0] == '>' || s[0] == '<' { seq![s[0]] } else { html_token(s[0]) }) + html_lt_gt_read(
            s.drop_first(),
        )
    }
}

/// Replacing a single character distributes over joining two texts.
proof fn lemma_replaced_char_concat(a: Seq<char>, b: Seq<char>, c: char, r: Seq<char>)
    ensures
        replaced(a + b, seq![c], r) == replaced(a, seq![c], r) + replaced(b, seq![c], r),
    decreases a.len(),
{
    if a.len() == 0 {
        assert(a + b =~= b);
        assert(replaced(a, seq![c], r) == a);
    } else {
        lemma_replaced_char_step(a + b, c, r);
        lemma_replaced_char_step(a, c, r);
        assert((a + b).drop_first() =~= a.drop_first() + b);
        lemma_replaced_char_concat(a.drop_first(), b, c, r);
    }
}

/// A text none of whose characters starts the pattern is kept as it is in
/// front of what follows.
proof fn lemma_replaced_plain_front(t: Seq<char>, y: Seq<char>, p: Seq<char>, r: Seq<char>)
    requires
        p.len() > 0,
        forall|i: int| 0 <= i < t.len() ==> t[i] != p[0],
    ensures
        replaced(t + y, p, r) == t + replaced(y, p, r),
    decreases t.len(),
{
    if t.len() == 0 {
        assert(t + y =~= y);
    } else {
        let x = t + y;
        lemma_replaced_keeps_first(x, p, r);
        assert(x.drop_first() =~= t.drop_first() + y);
        lemma_replaced_plain_front(t.drop_first(), y, p, r);
        assert(x =~= seq![t[0]] + x.drop_first());
        assert(t =~= seq![t[0]] + t.drop_first());
    }
}

/// The pattern in front is replaced.
proof fn lemma_replaced_match_front(p: Seq<char>, y: Seq<char>, r: Seq<char>)
    requires
        p.len() > 0,
    ensures
        replaced(p + y, p, r) == r + replaced(y, p, r),
{
    let x = p + y;
    assert(x.subrange(0, p.len() as int) =~= p);
    assert(p.is_prefix_of(x));
    assert(x.skip(p.len() as int) =~= y);
}

/// A text that starts like the pattern but parts from it at its second
/// character, and holds no other start of it, is kept in front of what
/// follows.
proof fn lemma_replaced_near_front(t: Seq<char>, y: Seq<char>, p: Seq<char>, r: Seq<char>)
    requires
        p.len() >= 2,
        t.len() >= 2,
        t[1] != p[1],
        forall|i: int| 1 <= i < t.len() ==> t[i] != p[0],
    ensures
        replaced(t + y, p, r) == t + replaced(y, p, r),
{
    let x = t + y;
    assert(!p.is_prefix_of(x)) by {
        if p.is_prefix_of(x) {
            assert(x.subrange(0, p.len() as int)[1] == x[1]);
        }
    }
    let u = t.drop_first();
    assert(x.drop_first() =~= u + y);
    lemma_replaced_plain_front(u, y, p, r);
    assert(x.skip(1) == x.drop_first());
    assert(t =~= seq![t[0]] + u);
}

/// Escaping, one character at a time.
proof fn lemma_text_escaped_step(a: Seq<char>, b: Seq<char>)
    ensures
        text_escaped(a + b) == text_escaped(a) + text_escaped(b),
{
    reveal_strlit("&");
    reveal_strlit("&amp;");
    reveal_strlit("<");
    reveal_strlit("&lt;");
    reveal_strlit(">");
    reveal_strlit("&gt;");
    assert("&"@ =~= seq!['&']);
    assert("<"@ =~= seq!['<']);
    assert(">"@ =~= seq!['>']);
    let r1 = "&amp;"@;
    let r2 = "&lt;"@;
    let r3 = "&gt;"@;
    lemma_replaced_char_concat(a, b, '&', r1);
    let a1 = replaced(a, seq!['&'], r1);
    let b1 = replaced(b, seq!['&'], r1);
    lemma_replaced_char_concat(a1, b1, '<', r2);
    let a2 = replaced(a1, seq!['<'], r2);
    let b2 = replaced(b1, seq!['<'], r2);
    lemma_replaced_char_concat(a2, b2, '>', r3);
}

/// Escaping one character writes its token.
proof fn lemma_text_escaped_char(c: char)
    ensures
        text_escaped(seq![c]) == html_token(c),
{
    reveal_strlit("&");
    reveal_strlit("&amp;");
    reveal_strlit("<");
    reveal_strlit("&lt;");
    reveal_strlit(">");
    reveal_strlit("&gt;");
    assert("&"@ =~= seq!['&']);
    assert("<"@ =~= seq!['<']);
    assert(">"@ =~= seq!['>']);
    let amp = seq!['&', 'a', 'm', 'p', ';'];
    let lt = seq!['&', 'l', 't', ';'];
    let gt = seq!['&', 'g', 't', ';'];
    assert("&amp;"@ =~= amp);
    assert("&lt;"@ =~= lt);
    assert("&gt;"@ =~= gt);
    let e: Seq<char> = Seq::empty();
    assert(replaced(e, seq!['&'], amp) == e);
    assert(replaced(e, seq!['<'], lt) == e);
    assert(replaced(e, seq!['>'], gt) == e);
    lemma_replaced_char_step(seq![c], '&', amp);
    assert(seq![c].drop_first() =~= e);
    let a1 = replaced(seq![c], seq!['&'], amp);
    if c == '&' {
        assert(a1 =~= amp);
        lemma_replaced_plain_front(amp, e, seq!['<'], lt);
        assert(amp + e =~= amp);
        lemma_replaced_plain_front(amp, e, seq!['>'], gt);
    } else {
        assert(a1 =~= seq![c]);
        lemma_replaced_char_step(seq![c], '<', lt);
        let a2 = replaced(seq![c], seq!['<'], lt);
        if c == '<' {
            assert(a2 =~= lt);
            assert(lt + e =~= lt);
            lemma_replaced_plain_front(lt, e, seq!['>'], gt);
        } else {
            assert(a2 =~= seq![c]);
            lemma_replaced_char_step(seq![c], '>', gt);
        }
    }
}

/// Escaping a text is its first character's token, then the rest escaped.
proof fn lemma_text_escaped_first(s: Seq<char>)
    requires
        s.len() > 0,
    ensures
        text_escaped(s) == html_token(s[0]) + text_escaped(s.drop_first()),
{
    assert(s =~= seq![s[0]] + s.drop_first());
    lemma_text_escaped_step(seq![s[0]], s.drop_first());
    lemma_text_escaped_char(s[0]);
}

/// Reading `&gt;` back.
proof fn lemma_gt_read(s: Seq<char>)
    ensures
        replaced(text_escaped(s), seq!['&', 'g', 't', ';'], seq!['>']) == html_gt_read(s),
    decreases s.len(),
{
    let p = seq!['&', 'g', 't', ';'];
    if s.len() == 0 {
        reveal_strlit("&");
        reveal_strlit("<");
        reveal_strlit(">");
        assert(replaced(s, "&"@, "&amp;"@) == s);
        assert(replaced(s, "<"@, "&lt;"@) == s);
        assert(replaced(s, ">"@, "&gt;"@) == s);
    } else {
        let c = s[0];
        let rest = s.drop_first();
        lemma_text_escaped_first(s);
        lemma_gt_read(rest);
        let y = text_escaped(rest);
        let t = html_token(c);
        if c == '>' {
            lemma_replaced_match_front(p, y, seq!['>']);
        } else if c == '&' || c == '<' {
            lemma_replaced_near_front(t, y, p, seq!['>']);
        } else {
            lemma_replaced_plain_front(t, y, p, seq!['>']);
        }
    }
}

/// Reading `&lt;` back after `&gt;`.
proof fn lemma_lt_read(s: Seq<char>)
    ensures
        replaced(html_gt_read(s), seq!['&', 'l', 't', ';'], seq!['<']) == html_lt_gt_read(s),
    decreases s.len(),
{
    let p = seq!['&', 'l', 't', ';'];
    if s.len() > 0 {
        let c = s[0];
        let rest = s.drop_first();
        lemma_lt_read(rest);
        let y = html_gt_read(rest);
        let t = if c == '>' { seq!['>'] } else { html_token(c) };
        if c == '<' {
            lemma_replaced_match_front(p, y, seq!['<']);
        } else if c == '&' {
            lemma_replaced_near_front(t, y, p, seq!['<']);
        } else {
            lemma_replaced_plain_front(t, y, p, seq!['<']);
        }
    }
}

/// Reading `&amp;` back last gives the text.
proof fn lemma_amp_read(s: Seq<char>)
    ensures
        replaced(html_lt_gt_read(s), seq!['&', 'a', 'm', 'p', ';'], seq!['&']) == s,
    decreases s.len(),
{
    let p = seq!['&', 'a', 'm', 'p', ';'];
    if s.len() > 0 {
        let c = s[0];
        let rest = s.drop_first();
        lemma_amp_read(rest);
        let y = html_lt_gt_read(rest);
        if c == '&' {
            lemma_replaced_match_front(p, y, seq!['&']);
        } else {
            lemma_replaced_plain_front(seq![c], y, p, seq!['&']);
        }
        assert(s =~= seq![c] + rest);
    }
}

/// Escaped page text read back (`&gt;`, then `&lt;`, then `&amp;`) is the
/// text that was escaped.
pub proof fn law_text_escape_reads_back(s: Seq<char>)
    ensures
        replaced(replaced(replaced(text_escaped(s), "&gt;"@, ">"@), "&lt;"@, "<"@), "&amp;"@, "&"@) == s,
{
    reveal_strlit("&");
    reveal_strlit("&amp;");
    reveal_strlit("<");
    reveal_strlit("&lt;");
    reveal_strlit(">");
    reveal_strlit("&gt;");
    assert("&"@ =~= seq!['&']);
    assert("<"@ =~= seq!['<']);
    assert(">"@ =~= seq!['>']);
    assert("&amp;"@ =~= seq!['&', 'a', 'm', 'p', ';']);
    assert("&lt;"@ =~= seq!['&', 'l', 't', ';']);
    assert("&gt;"@ =~= seq!['&', 'g', 't', ';']);
    lemma_gt_read(s);
    lemma_lt_read(s);
    lemma_amp_read(s);
}


// ---------------------------------------------------------------------
// The page cut for the article prompt
// ---------------------------------------------------------------------

/// Cutting a text at a character boundary leaves exactly the bytes before
/// the cut, so cutting it there again changes nothing.
pub proof fn lemma_byte_prefix_settled(h: Seq<char>, n: nat)
    requires
        cut_ok(h, n),
    ensures
        encode_utf8(byte_prefix(h, n)).len() <= n,
        byte_prefix(byte_prefix(h, n), n) == byte_prefix(h, n),
        cut_ok(byte_prefix(h, n), n),
{
    let b = encode_utf8(h);
    if b.len() > n {
        encode_utf8_valid_utf8(h);
        valid_utf8_split(b, n as int);
        decode_utf8_encode_utf8(b.subrange(0, n as int));
    }
}

/// The article prompt is the same whether the page is cut to its first
/// `MAX_CHARS` bytes beforehand or not, and it ends with the cut page
/// under its heading.
pub proof fn law_article_prompt_cut(title: Seq<char>, url: Option<Seq<char>>, html: Seq<char>)
    requires
        cut_ok(html, MAX_CHARS as nat),
    ensures
        cut_ok(byte_prefix(html, MAX_CHARS as nat), MAX_CHARS as nat),
        article_prompt_model(title, url, byte_prefix(html, MAX_CHARS as nat)) == article_prompt_model(
            title,
            url,
            html,
        ),
        ("\nProduct detail page HTML (truncated if needed):\n"@ + byte_prefix(
            html,
            MAX_CHARS as nat,
        )).is_suffix_of(article_prompt_model(title, url, html)),
{
    lemma_byte_prefix_settled(html, MAX_CHARS as nat);
    let k = byte_prefix(html, MAX_CHARS as nat);
    let tail = "\nProduct detail page HTML (truncated if needed):\n"@ + k;
    let front = article_prompt_head() + title + "\n"@ + url_line(url);
    assert(article_prompt_model(title, url, html) =~= front + tail);
    let whole = front + tail;
    assert(whole.subrange(whole.len() - tail.len(), whole.len() as int) =~= tail);
}


// ---------------------------------------------------------------------
// Typing in chunks
// ---------------------------------------------------------------------

/// The texts of `cs`, one after another.
pub open spec fn concat_all(cs: Seq<Seq<char>>) -> Seq<char>
    decreases cs.len(),
{
    if cs.len() == 0 {
        seq![]
    } else {
        concat_all(cs.drop_last()) + cs.last()
    }
}

/// `cs` are the pieces of `text` between the successive positions `ps`,
/// the first of which is the start.
pub open spec fn chunks_cut_at(text: Seq<char>, ps: Seq<int>, cs: Seq<Seq<char>>) -> bool {
    &&& ps.len() == cs.len() + 1
    &&& ps[0] == 0
    &&& forall|i: int| 0 <= i < ps.len() ==> 0 <= #[trigger] ps[i] <= text.len()
    &&& forall|i: int|
        0 <= i < cs.len() ==> ps[i] <= ps[i + 1] && #[trigger] cs[i] == text.subrange(ps[i], ps[i + 1])
}

/// The first `k` chunks give the text up to the `k`-th position.
proof fn lemma_chunks_prefix(text: Seq<char>, ps: Seq<int>, cs: Seq<Seq<char>>, k: int)
    requires
        chunks_cut_at(text, ps, cs),
        0 <= k <= cs.len(),
    ensures
        concat_all(cs.take(k)) == text.subrange(0, ps[k]),
    decreases k,
{
    if k == 0 {
        assert(cs.take(0).len() == 0);
    } else {
        lemma_chunks_prefix(text, ps, cs, k - 1);
        assert(cs.take(k).drop_last() =~= cs.take(k - 1));
        assert(cs.take(k).last() == cs[k - 1]);
        assert(text.subrange(0, ps[k - 1]) + text.subrange(ps[k - 1], ps[k]) =~= text.subrange(0, ps[k]));
    }
}

/// Typing a text chunk by chunk, where each chunk is the text between the
/// position typing stood at and the one it moved to (as it is for ASCII
/// text), and the positions run from the start to the end: the chunks put
/// together are the text.
pub proof fn law_typed_chunks_make_the_text(text: Seq<char>, ps: Seq<int>, cs: Seq<Seq<char>>)
    requires
        chunks_cut_at(text, ps, cs),
        ps.last() == text.len(),
    ensures
        concat_all(cs) == text,
{
    lemma_chunks_prefix(text, ps, cs, cs.len() as int);
    assert(cs.take(cs.len() as int) =~= cs);
    assert(text.subrange(0, text.len() as int) =~= text);
}


// ---------------------------------------------------------------------
// Which reviews are kept
// ---------------------------------------------------------------------

/// Trimming the end keeps a first character that is not whitespace.
proof fn lemma_trim_end_keeps_first(s: Seq<char>)
    requires
        s.len() > 0,
        !is_ws(s[0]),
    ensures
        trim_end(s).len() >= 1,
    decreases s.len(),
{
    if is_ws(s.last()) {
        assert(s.len() >= 2);
        assert(s.drop_last()[0] == s[0]);
        lemma_trim_end_keeps_first(s.drop_last());
    }
}

/// A review body of only whitespace cleans to nothing.
proof fn lemma_cleaned_empty()
    ensures
        cleaned_body(seq![]) == Seq::<char>::empty(),
{
    reveal_strlit("Brief content visible, double tap to read full content.");
    reveal_strlit("Full content visible, double tap to read brief content.");
    reveal_strlit("Read more");
    reveal_strlit("Read less");
    reveal_strlit("  ");
    let e: Seq<char> = seq![];
    assert(replaced(e, "Brief content visible, double tap to read full content."@, ""@) == e);
    assert(replaced(e, "Full content visible, double tap to read brief content."@, ""@) == e);
    assert(replaced(e, "Read more"@, ""@) == e);
    assert(replaced(e, "Read less"@, ""@) == e);
    assert(replaced(e, "  "@, " "@) == e);
    assert(trim_start(e) == e);
    assert(trim_end(e) == e);
}

/// A review is kept exactly when its rating is four stars or more and its
/// body, cleaned, is not empty: four-star reviews are kept along with
/// five-star ones, three stars and fewer are dropped.
pub proof fn law_reviews_from_four_stars(star: Seq<char>, title: Seq<char>, body: Seq<char>)
    ensures
        star_number(trim(star)) >= 4 && cleaned_body(trim(body)).len() > 0 ==> review_entry(
            Some(star),
            Some(title),
            Some(body),
        ) is Some,
        star_number(trim(star)) >= 4 && cleaned_body(trim(body)).len() > 0 ==> review_entry(
            Some(star),
            Some(title),
            Some(body),
        ) == Some(
            "**"@ + trim(star) + "** | "@ + trim(title) + ": "@ + truncated_review(cleaned_body(trim(body)), 280),
        ),
        star_number(trim(star)) < 4 ==> review_entry(Some(star), Some(title), Some(body)) is None,
        cleaned_body(trim(body)).len() == 0 ==> review_entry(Some(star), Some(title), Some(body)) is None,
{
    if trim(body).len() == 0 {
        lemma_cleaned_empty();
        assert(trim(body) =~= Seq::<char>::empty());
    }
}

/// A rating text that starts with a digit and a space, as in `4 out of 5
/// stars`, rates by that digit; with a body left after cleaning, its review
/// is kept exactly when the digit is 4 or more.
pub proof fn law_star_digit_rates(d: char, rest: Seq<char>, title: Seq<char>, body: Seq<char>)
    requires
        '0' <= d <= '9',
    ensures
        star_number(trim(seq![d, ' '] + rest)) == d as int - '0' as int,
        cleaned_body(trim(body)).len() > 0 ==> (review_entry(
            Some(seq![d, ' '] + rest),
            Some(title),
            Some(body),
        ) is Some <==> '4' <= d),
{
    let s = seq![d, ' '] + rest;
    assert(!is_ws(d));
    assert(trim_start(s) == s);
    lemma_trim_end_keeps_first(s);
    lemma_trim_end_prefix(s);
    let u = trim(s);
    assert(u == trim_end(s));
    assert(u.len() >= 1 && u[0] == d);
    assert(trim_start(u) == u);
    let v = u.drop_first();
    if v.len() > 0 {
        assert(v[0] == s[1]);
        assert(is_ws(v[0]));
    }
    assert(leading_word(v) == Seq::<char>::empty());
    assert(leading_word(u) =~= seq![d]);
    assert(first_word(u) == Some(seq![d]));
    let w = seq![d];
    assert(all_digits(w));
    assert(w.drop_last() =~= Seq::<char>::empty());
    assert(digits_value(w.drop_last()) == 0);
    assert(w.last() == d);
    assert(digits_value(w) == d as int - '0' as int);
    assert(int_of(w) == Some(d as int - '0' as int));
    law_reviews_from_four_stars(s, title, body);
}

// ---------------------------------------------------------------------
// The deployment environment
// ---------------------------------------------------------------------

/// Every token variable of a deployment holds the API token, every account
/// variable the account id, and the project and branch variables hold the
/// project and the branch.
pub proof fn law_deploy_env_credentials(a: Seq<char>, t: Seq<char>, p: Seq<char>, b: Seq<char>)
    ensures
        forall|i: int|
            0 <= i < deploy_env_model(a, t, p, b).len() ==> {
                let (name, value) = #[trigger] deploy_env_model(a, t, p, b)[i];
                &&& "API_TOKEN"@.is_suffix_of(name) ==> value == t
                &&& "ACCOUNT_ID"@.is_suffix_of(name) ==> value == a
                &&& name == "CF_PAGE"@ ==> value == p
                &&& name == "CF_BRANCH"@ ==> value == b
            },
        deploy_env_model(a, t, p, b).contains(("CLOUDFLARE_API_TOKEN"@, t)),
        deploy_env_model(a, t, p, b).contains(("CLOUDFLARE_ACCOUNT_ID"@, a)),
{
    reveal_strlit("API_TOKEN");
    reveal_strlit("ACCOUNT_ID");
    reveal_strlit("CLOUDFLARE_ACCOUNT_ID");
    reveal_strlit("CLOUDFLARE_API_TOKEN");
    reveal_strlit("CF_ACCOUNT_ID");
    reveal_strlit("CF_API_TOKEN");
    reveal_strlit("CF_PAGE");
    reveal_strlit("CF_BRANCH");
    let env = deploy_env_model(a, t, p, b);
    let tok = "API_TOKEN"@;
    let acc = "ACCOUNT_ID"@;
    assert(!tok.is_suffix_of("CLOUDFLARE_ACCOUNT_ID"@)) by {
        let n = "CLOUDFLARE_ACCOUNT_ID"@;
        assert(n.subrange(n.len() - tok.len(), n.len() as int)[8] != tok[8]);
    }
    assert(!tok.is_suffix_of("CF_ACCOUNT_ID"@)) by {
        let n = "CF_ACCOUNT_ID"@;
        assert(n.subrange(n.len() - tok.len(), n.len() as int)[8] != tok[8]);
    }
    assert(!acc.is_suffix_of("CLOUDFLARE_API_TOKEN"@)) by {
        let n = "CLOUDFLARE_API_TOKEN"@;
        assert(n.subrange(n.len() - acc.len(), n.len() as int)[9] != acc[9]);
    }
    assert(!acc.is_suffix_of("CF_API_TOKEN"@)) by {
        let n = "CF_API_TOKEN"@;
        assert(n.subrange(n.len() - acc.len(), n.len() as int)[9] != acc[9]);
    }
    assert(!tok.is_suffix_of("CF_PAGE"@));
    assert(!acc.is_suffix_of("CF_PAGE"@));
    assert(!acc.is_suffix_of("CF_BRANCH"@));
    assert(!tok.is_suffix_of("CF_BRANCH"@)) by {
        let n = "CF_BRANCH"@;
        assert(n.subrange(n.len() - tok.len(), n.len() as int)[0] != tok[0]);
    }
    assert("CF_PAGE"@ != "CLOUDFLARE_ACCOUNT_ID"@ && "CF_PAGE"@ != "CLOUDFLARE_API_TOKEN"@);
    assert("CF_PAGE"@ != "CF_ACCOUNT_ID"@ && "CF_PAGE"@ != "CF_API_TOKEN"@ && "CF_PAGE"@ != "CF_BRANCH"@);
    assert("CF_BRANCH"@ != "CLOUDFLARE_ACCOUNT_ID"@ && "CF_BRANCH"@ != "CLOUDFLARE_API_TOKEN"@);
    assert("CF_BRANCH"@ != "CF_ACCOUNT_ID"@ && "CF_BRANCH"@ != "CF_API_TOKEN"@);
    assert(env[1] == ("CLOUDFLARE_API_TOKEN"@, t));
    assert(env[0] == ("CLOUDFLARE_ACCOUNT_ID"@, a));
}


// ---------------------------------------------------------------------
// The fallback text of a page
// ---------------------------------------------------------------------

/// A page without a product summary is given as the 80-column plain-text
/// rendering of the page after every script, style, nav, header, footer,
/// link and aside element is cut out of it; a page with one is given as
/// its summary.
pub proof fn law_fallback_text_drops_noise(html: Seq<char>)
    ensures
        product_text_model(html) is None ==> page_text_model(html) == match plain_text_of(
            match regex_replace_all_result(
                "(?is)<(?:script|style|nav|header|footer|link|aside)\\b[^>]*>.*?</(?:script|style|nav|header|footer|link|aside)>"@,
                html,
                ""@,
            ) {
                Some(r) => r,
                None => html,
            },
            80,
        ) {
            Some(t) => t,
            None => Seq::<char>::empty(),
        },
        product_text_model(html) matches Some(t) ==> page_text_model(html) == t,
{
}

// ---------------------------------------------------------------------
// The source of an <img> tag
// ---------------------------------------------------------------------

/// `u` is the source of tag `i`: its `data-old-hires`, else its
/// `data-src`, else its `src`.
pub open spec fn tag_source_is(
    hires: Seq<Option<Seq<char>>>,
    data_src: Seq<Option<Seq<char>>>,
    src: Seq<Option<Seq<char>>>,
    i: int,
    u: Seq<char>,
) -> bool {
    ||| opt_item(hires, i) == Some(u)
    ||| opt_item(hires, i) is None && opt_item(data_src, i) == Some(u)
    ||| opt_item(hires, i) is None && opt_item(data_src, i) is None && opt_item(src, i) == Some(u)
}

/// What is kept from fewer tags stays kept.
proof fn lemma_kept_grows(
    hires: Seq<Option<Seq<char>>>,
    data_src: Seq<Option<Seq<char>>>,
    src: Seq<Option<Seq<char>>>,
    n: int,
    m: int,
    u: Seq<char>,
)
    requires
        n <= m,
        img_sources_kept(hires, data_src, src, n).contains(u),
    ensures
        img_sources_kept(hires, data_src, src, m).contains(u),
    decreases m - n,
{
    if n < m {
        lemma_kept_grows(hires, data_src, src, n, m - 1, u);
        let prev = img_sources_kept(hires, data_src, src, m - 1);
        let k = choose|j: int| 0 <= j < prev.len() && prev[j] == u;
        if m > 0 {
            assert(img_sources_kept(hires, data_src, src, m)[k] == u);
        }
    }
}

/// The image URLs taken from a page's `<img>` tags: each is the source of
/// some tag (`data-old-hires`, else `data-src`, else `src`) and a product
/// image; the source of every tag that is a product image is taken; none
/// is taken twice.
pub proof fn law_img_sources_taken(
    hires: Seq<Option<Seq<char>>>,
    data_src: Seq<Option<Seq<char>>>,
    src: Seq<Option<Seq<char>>>,
    n: int,
)
    ensures
        forall|u: Seq<char>|
            #[trigger] img_sources_kept(hires, data_src, src, n).contains(u) ==> contains(
                u,
                "m.media-amazon.com/images/I/"@,
            ) && exists|i: int| 0 <= i < n && tag_source_is(hires, data_src, src, i, u),
        forall|i: int, u: Seq<char>|
            0 <= i < n && #[trigger] tag_source_is(hires, data_src, src, i, u) && contains(
                u,
                "m.media-amazon.com/images/I/"@,
            ) ==> img_sources_kept(hires, data_src, src, n).contains(u),
        img_sources_kept(hires, data_src, src, n).no_duplicates(),
    decreases n,
{
    if n > 0 {
        law_img_sources_taken(hires, data_src, src, n - 1);
        let prev = img_sources_kept(hires, data_src, src, n - 1);
        let cur = img_sources_kept(hires, data_src, src, n);
        let h = opt_item(hires, n - 1);
        let d = opt_item(data_src, n - 1);
        let c = opt_item(src, n - 1);
        assert forall|u: Seq<char>| #[trigger] cur.contains(u) implies contains(
            u,
            "m.media-amazon.com/images/I/"@,
        ) && exists|i: int| 0 <= i < n && tag_source_is(hires, data_src, src, i, u) by {
            if prev.contains(u) {
                let i = choose|i: int| 0 <= i < n - 1 && tag_source_is(hires, data_src, src, i, u);
                assert(0 <= i < n && tag_source_is(hires, data_src, src, i, u));
            } else {
                let k = choose|j: int| 0 <= j < cur.len() && cur[j] == u;
                assert(cur != prev);
                assert(k == prev.len());
                assert(tag_source_is(hires, data_src, src, n - 1, u));
            }
        }
        assert forall|i: int, u: Seq<char>|
            0 <= i < n && #[trigger] tag_source_is(hires, data_src, src, i, u) && contains(
                u,
                "m.media-amazon.com/images/I/"@,
            ) implies cur.contains(u) by {
            if i < n - 1 {
                assert(tag_source_is(hires, data_src, src, i, u));
                lemma_kept_grows(hires, data_src, src, n - 1, n, u);
            } else {
                if prev.contains(u) {
                    lemma_kept_grows(hires, data_src, src, n - 1, n, u);
                } else {
                    assert(cur == prev.push(u));
                    assert(cur[prev.len() as int] == u);
                }
            }
        }
        assert(cur.no_duplicates()) by {
            if cur != prev {
                let u = cur.last();
                assert(cur == prev.push(u));
                assert forall|a: int, b: int| 0 <= a < cur.len() && 0 <= b < cur.len() && a != b implies cur[a] != cur[b] by {
                    if a < prev.len() && b < prev.len() {
                        assert(cur[a] == prev[a] && cur[b] == prev[b]);
                    } else if a < prev.len() {
                        assert(cur[a] == prev[a]);
                        assert(prev.contains(prev[a]));
                    } else {
                        assert(cur[b] == prev[b]);
                        assert(prev.contains(prev[b]));
                    }
                }
            }
        }
    }
}

// ---------------------------------------------------------------------
// The index page
// ---------------------------------------------------------------------

/// The index page lists the links in the order they are given: its `i`-th
/// item is the item of the `i`-th link.
pub proof fn law_index_items_in_given_order(links: Seq<(Seq<char>, Seq<char>)>)
    ensures
        index_page_model(links) == index_head() + joined(
            Seq::new(links.len(), |i: int| link_item(links[i].0, links[i].1)),
            "\n"@,
        ) + index_tail(),
{
    assert(links.map_values(|l: (Seq<char>, Seq<char>)| link_item(l.0, l.1)) =~= Seq::new(
        links.len(),
        |i: int| link_item(links[i].0, links[i].1),
    ));
}

/// Sorted for the index, the links come in the order of their titles, and
/// none is lost or added.
pub proof fn law_index_links_by_title(links: Seq<(String, String)>)
    ensures
        sorted_links_model(links).len() == links.len(),
        forall|i: int, j: int|
            0 <= i < j < links.len() ==> chars_le(
                #[trigger] sorted_links_model(links)[i].1,
                #[trigger] sorted_links_model(links)[j].1,
            ),
{
    let tk = title_keyed(links);
    let st = stable_sorted(tk);
    law_stable_sort_sorts(tk);
    assert forall|k: int| 0 <= k < st.len() implies #[trigger] st[k].0 == st[k].1.1@ by {
        let x = st[k];
        assert(st.contains(x));
        to_multiset_contains(st, x);
        to_multiset_contains(tk, x);
        let m = choose|m: int| 0 <= m < tk.len() && tk[m] == x;
        assert(tk[m] == (links[m].1@, links[m]));
    }
    assert forall|i: int, j: int| 0 <= i < j < links.len() implies chars_le(
        #[trigger] sorted_links_model(links)[i].1,
        #[trigger] sorted_links_model(links)[j].1,
    ) by {
        assert(sorted_links_model(links)[i].1 == st[i].1.1@);
        assert(sorted_links_model(links)[j].1 == st[j].1.1@);
        assert(st[i].0 == st[i].1.1@);
        assert(st[j].0 == st[j].1.1@);
        assert(chars_le(st[i].0, st[j].0));
    }
}


/// The product-image URLs of a page's `<img>` tags, when the three source
/// attributes could be read: a URL is taken exactly when it is the
/// `data-old-hires` of some tag, or its `data-src` when it has no
/// `data-old-hires`, or its `src` when it has neither, and points at the
/// product-image store; each is taken once.
pub proof fn law_page_img_sources(html: Seq<char>)
    ensures
        ({
            let hires = css_select_attr(html, "img"@, "data-old-hires"@);
            let data_src = css_select_attr(html, "img"@, "data-src"@);
            let src = css_select_attr(html, "img"@, "src"@);
            hires is Some && data_src is Some && src is Some ==> {
                let h = hires->0;
                let d = data_src->0;
                let c = src->0;
                &&& forall|u: Seq<char>|
                    #[trigger] img_sources_model(html).contains(u) <==> contains(
                        u,
                        "m.media-amazon.com/images/I/"@,
                    ) && exists|i: int| 0 <= i < h.len() && tag_source_is(h, d, c, i, u)
                &&& img_sources_model(html).no_duplicates()
            }
        }),
{
    let hires = css_select_attr(html, "img"@, "data-old-hires"@);
    let data_src = css_select_attr(html, "img"@, "data-src"@);
    let src = css_select_attr(html, "img"@, "src"@);
    if hires is Some && data_src is Some && src is Some {
        let h = hires->0;
        let d = data_src->0;
        let c = src->0;
        law_img_sources_taken(h, d, c, h.len() as int);
        let kept = img_sources_kept(h, d, c, h.len() as int);
        assert(img_sources_model(html) == kept);
        assert forall|u: Seq<char>|
            #[trigger] img_sources_model(html).contains(u) <==> contains(
                u,
                "m.media-amazon.com/images/I/"@,
            ) && exists|i: int| 0 <= i < h.len() && tag_source_is(h, d, c, i, u) by {
            if contains(u, "m.media-amazon.com/images/I/"@) && exists|i: int|
                0 <= i < h.len() && tag_source_is(h, d, c, i, u) {
                let i = choose|i: int| 0 <= i < h.len() && tag_source_is(h, d, c, i, u);
                assert(tag_source_is(h, d, c, i, u));
                assert(kept.contains(u));
            }
        }
    }
}

} // verus!
