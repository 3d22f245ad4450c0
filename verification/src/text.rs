//! Character-level string operations with their mathematical models.
//!
//! Every operation works on the sequence of Unicode scalar values of a
//! string (its view `s@`).  The spec functions below are the models that
//! the rest of the library states its contracts in.
use vstd::prelude::*;
use vstd::utf8::{decode_utf8, encode_utf8, encode_utf8_decode_utf8, is_char_boundary};
use vstd::string::StringSliceAdditionalSpecFns;

verus! {

// ---------------------------------------------------------------------
// Models
// ---------------------------------------------------------------------

/// Unicode `White_Space`, the set `char::is_whitespace` is documented to test.
pub open spec fn is_ws(c: char) -> bool {
    ||| c == '\t' || c == '\n' || c == '\u{0b}' || c == '\u{0c}' || c == '\r'
    ||| c == ' ' || c == '\u{85}' || c == '\u{a0}' || c == '\u{1680}'
    ||| ('\u{2000}' <= c && c <= '\u{200a}')
    ||| c == '\u{2028}' || c == '\u{2029}' || c == '\u{202f}' || c == '\u{205f}'
    ||| c == '\u{3000}'
}

/// `s` with its leading whitespace removed.
pub open spec fn trim_start(s: Seq<char>) -> Seq<char>
    decreases s.len(),
{
    if s.len() > 0 && is_ws(s[0]) {
        trim_start(s.drop_first())
    } else {
        s
    }
}

/// `s` with its trailing whitespace removed.
pub open spec fn trim_end(s: Seq<char>) -> Seq<char>
    decreases s.len(),
{
    if s.len() > 0 && is_ws(s.last()) {
        trim_end(s.drop_last())
    } else {
        s
    }
}

/// Trimming the end never lengthens a text.
pub proof fn lemma_trim_end_len(s: Seq<char>)
    ensures
        trim_end(s).len() <= s.len(),
    decreases s.len(),
{
    if s.len() > 0 && is_ws(s.last()) {
        lemma_trim_end_len(s.drop_last());
    }
}

/// `s` with leading and trailing whitespace removed (`str::trim`).
pub open spec fn trim(s: Seq<char>) -> Seq<char> {
    trim_end(trim_start(s))
}

/// True when every character of `s` is whitespace.
pub open spec fn all_ws(s: Seq<char>) -> bool {
    forall|i: int| 0 <= i < s.len() ==> is_ws(#[trigger] s[i])
}

/// `p` occurs in `s` starting at position `i`.
pub open spec fn occurs_at(s: Seq<char>, p: Seq<char>, i: int) -> bool {
    0 <= i && i + p.len() <= s.len() && s.subrange(i, i + p.len()) == p
}

/// `p` occurs somewhere in `s` (`str::contains`).
pub open spec fn contains(s: Seq<char>, p: Seq<char>) -> bool {
    exists|i: int| occurs_at(s, p, i)
}

/// Every non-overlapping occurrence of `p` in `s`, scanning from the left,
/// replaced by `r` (`str::replace`).  An empty pattern matches before every
/// character and at the end.
pub open spec fn replaced(s: Seq<char>, p: Seq<char>, r: Seq<char>) -> Seq<char>
    decreases s.len(),
{
    if p.len() == 0 {
        if s.len() == 0 {
            r
        } else {
            r + seq![s[0]] + replaced(s.drop_first(), p, r)
        }
    } else if s.len() == 0 {
        s
    } else if p.is_prefix_of(s) {
        r + replaced(s.skip(p.len() as int), p, r)
    } else {
        seq![s[0]] + replaced(s.drop_first(), p, r)
    }
}

/// `s` with every copy of `p` removed from its start (`str::trim_start_matches`).
pub open spec fn strip_all_prefix(s: Seq<char>, p: Seq<char>) -> Seq<char>
    decreases s.len(),
{
    if p.len() > 0 && p.is_prefix_of(s) {
        strip_all_prefix(s.skip(p.len() as int), p)
    } else {
        s
    }
}

/// `s` with every copy of `p` removed from its end (`str::trim_end_matches`).
pub open spec fn strip_all_suffix(s: Seq<char>, p: Seq<char>) -> Seq<char>
    decreases s.len(),
{
    if p.len() > 0 && p.is_suffix_of(s) {
        strip_all_suffix(s.take(s.len() - p.len()), p)
    } else {
        s
    }
}

/// Position of the first `c` in `s`, or `s.len()` when there is none.
pub open spec fn first_index(s: Seq<char>, c: char) -> int
    decreases s.len(),
{
    if s.len() == 0 {
        0
    } else if s[0] == c {
        0
    } else {
        1 + first_index(s.drop_first(), c)
    }
}

/// `first_index` lies within `0..=s.len()`, and `s` holds `c` there when it is below.
pub proof fn lemma_first_index_bound(s: Seq<char>, c: char)
    ensures
        0 <= first_index(s, c) <= s.len(),
        first_index(s, c) < s.len() ==> s[first_index(s, c)] == c,
        forall|j: int| 0 <= j < first_index(s, c) ==> s[j] != c,
    decreases s.len(),
{
    if s.len() > 0 && s[0] != c {
        lemma_first_index_bound(s.drop_first(), c);
        assert forall|j: int| 0 <= j < first_index(s, c) implies s[j] != c by {
            if j > 0 {
                assert(s[j] == s.drop_first()[j - 1]);
            }
        }
    }
}

/// `s` without one trailing carriage return.
pub open spec fn strip_cr(s: Seq<char>) -> Seq<char> {
    if s.len() > 0 && s.last() == '\r' {
        s.drop_last()
    } else {
        s
    }
}

/// The lines of `s` as `str::lines` yields them: split after each `'\n'`,
/// the `'\n'` and one `'\r'` before it removed, no empty line after a final
/// line ending.
pub open spec fn lines(s: Seq<char>) -> Seq<Seq<char>>
    decreases s.len(),
{
    if s.len() == 0 {
        seq![]
    } else {
        let k = first_index(s, '\n');
        proof {
            lemma_first_index_bound(s, '\n');
        }
        if k >= s.len() {
            seq![s]
        } else {
            seq![strip_cr(s.take(k))] + lines(s.skip(k + 1))
        }
    }
}

/// The items of `parts` with `sep` between each two of them (`join`).
pub open spec fn joined(parts: Seq<Seq<char>>, sep: Seq<char>) -> Seq<char>
    decreases parts.len(),
{
    if parts.len() == 0 {
        seq![]
    } else if parts.len() == 1 {
        parts[0]
    } else {
        joined(parts.drop_last(), sep) + sep + parts.last()
    }
}

/// The longest prefix of `s` that holds no whitespace.
pub open spec fn leading_word(s: Seq<char>) -> Seq<char>
    decreases s.len(),
{
    if s.len() == 0 || is_ws(s[0]) {
        seq![]
    } else {
        seq![s[0]] + leading_word(s.drop_first())
    }
}

/// The first item `str::split_whitespace` yields, if any.
pub open spec fn first_word(s: Seq<char>) -> Option<Seq<char>> {
    let t = trim_start(s);
    if t.len() == 0 {
        None
    } else {
        Some(leading_word(t))
    }
}

/// An ASCII decimal digit.
pub open spec fn is_digit(c: char) -> bool {
    '0' <= c && c <= '9'
}

/// Whether `c` is an ASCII digit.
pub fn is_digit_exec(c: char) -> (b: bool)
    ensures
        b == is_digit(c),
{
    '0' <= c && c <= '9'
}

/// Every character of `s` is an ASCII digit.
pub open spec fn all_digits(s: Seq<char>) -> bool {
    forall|i: int| 0 <= i < s.len() ==> is_digit(#[trigger] s[i])
}

/// The number that the digits of `s` spell in base 10.
pub open spec fn digits_value(s: Seq<char>) -> int
    decreases s.len(),
{
    if s.len() == 0 {
        0
    } else {
        digits_value(s.drop_last()) * 10 + (s.last() as int - '0' as int)
    }
}

/// The integer that `s` spells: an optional `+` or `-`, then one or more
/// ASCII digits.
pub open spec fn int_of(s: Seq<char>) -> Option<int> {
    if s.len() > 0 && (s[0] == '+' || s[0] == '-') {
        let d = s.drop_first();
        if d.len() > 0 && all_digits(d) {
            Some(if s[0] == '-' { -digits_value(d) } else { digits_value(d) })
        } else {
            None
        }
    } else if s.len() > 0 && all_digits(s) {
        Some(digits_value(s))
    } else {
        None
    }
}

/// What `str::parse::<i32>` returns, `None` standing for its error.
pub open spec fn parse_i32_model(s: Seq<char>) -> Option<i32> {
    match int_of(s) {
        Some(v) => if i32::MIN <= v && v <= i32::MAX {
            Some(v as i32)
        } else {
            None
        },
        None => None,
    }
}

/// The decimal digits of `n`, without leading zeros.
pub open spec fn decimal(n: nat) -> Seq<char>
    decreases n,
{
    if n < 10 {
        seq![digit_char(n)]
    } else {
        decimal(n / 10) + seq![digit_char(n % 10)]
    }
}

/// The ASCII digit for `d < 10`.
pub open spec fn digit_char(d: nat) -> char {
    if d == 0 { '0' }
    else if d == 1 { '1' }
    else if d == 2 { '2' }
    else if d == 3 { '3' }
    else if d == 4 { '4' }
    else if d == 5 { '5' }
    else if d == 6 { '6' }
    else if d == 7 { '7' }
    else if d == 8 { '8' }
    else { '9' }
}

/// `n` in decimal, left-padded with zeros to at least `width` digits
/// (`format!("{:0width$}", n)`).
pub open spec fn zero_padded(n: nat, width: nat) -> Seq<char> {
    let d = decimal(n);
    if d.len() < width {
        Seq::new((width - d.len()) as nat, |i: int| '0') + d
    } else {
        d
    }
}

// ---------------------------------------------------------------------
// Conversions
// ---------------------------------------------------------------------

/// The characters of a string slice, in order.
pub fn str_chars(s: &str) -> (r: Vec<char>)
    ensures
        r@ == s@,
{
    let mut r: Vec<char> = Vec::new();
    for c in it: s.chars()
        invariant
            r@ == it.seq().take(it.index() as int),
    {
        r.push(c);
    }
    r
}

/// Collects characters into a `String` (`Iterator::collect::<String>`).
#[verifier::external_body]
pub(crate) fn chars_to_string(v: &Vec<char>) -> (r: String)
    ensures
        r@ == v@,
{
    v.iter().collect()
}

// ---------------------------------------------------------------------
// Building blocks on character vectors
// ---------------------------------------------------------------------

/// Appends all of `s` to `out`.
pub fn push_all(out: &mut Vec<char>, s: &Vec<char>)
    ensures
        final(out)@ == old(out)@ + s@,
{
    let mut i: usize = 0;
    while i < s.len()
        invariant
            i <= s.len(),
            out@ == old(out)@ + s@.take(i as int),
        decreases s.len() - i,
    {
        out.push(s[i]);
        i = i + 1;
        assert(s@.take(i as int) == s@.take((i - 1) as int).push(s@[i - 1]));
    }
    assert(s@.take(s.len() as int) == s@);
}

/// Appends the characters of `s` to `out`.
pub fn push_str(out: &mut Vec<char>, s: &str)
    ensures
        final(out)@ == old(out)@ + s@,
{
    let v = str_chars(s);
    push_all(out, &v);
}

/// The characters `s[a..b]`.
pub fn slice_chars(s: &Vec<char>, a: usize, b: usize) -> (r: Vec<char>)
    requires
        a <= b <= s.len(),
    ensures
        r@ == s@.subrange(a as int, b as int),
{
    let mut r: Vec<char> = Vec::new();
    let mut i: usize = a;
    while i < b
        invariant
            a <= i <= b <= s.len(),
            r@ == s@.subrange(a as int, i as int),
        decreases b - i,
    {
        r.push(s[i]);
        i = i + 1;
        assert(s@.subrange(a as int, i as int) == s@.subrange(a as int, (i - 1) as int).push(
            s@[i - 1],
        ));
    }
    r
}

/// Copies a character vector.
pub fn copy_chars(s: &Vec<char>) -> (r: Vec<char>)
    ensures
        r@ == s@,
{
    let r = slice_chars(s, 0, s.len());
    assert(s@.subrange(0, s@.len() as int) == s@);
    r
}

/// Whether `p` occurs in `s` at position `i`.
pub fn occurs_at_exec(s: &Vec<char>, p: &Vec<char>, i: usize) -> (b: bool)
    ensures
        b == occurs_at(s@, p@, i as int),
{
    if i > s.len() || p.len() > s.len() - i {
        return false;
    }
    let mut k: usize = 0;
    while k < p.len()
        invariant
            i + p.len() <= s.len(),
            k <= p.len(),
            forall|j: int| 0 <= j < k ==> s@[i + j] == p@[j],
        decreases p.len() - k,
    {
        if s[i + k] != p[k] {
            assert(s@.subrange(i as int, i + p.len())[k as int] != p@[k as int]);
            return false;
        }
        k = k + 1;
    }
    assert(s@.subrange(i as int, i + p.len()) == p@);
    true
}

/// Whether `s` starts with `p` (`str::starts_with`).
pub fn starts_with(s: &Vec<char>, p: &Vec<char>) -> (b: bool)
    ensures
        b == p@.is_prefix_of(s@),
{
    let b = occurs_at_exec(s, p, 0);
    proof {
        if b {
            assert(s@.subrange(0, p@.len() as int) == p@);
        }
        if p@.is_prefix_of(s@) {
            assert(occurs_at(s@, p@, 0));
        }
    }
    b
}

/// Whether `s` ends with `p` (`str::ends_with`).
pub fn ends_with(s: &Vec<char>, p: &Vec<char>) -> (b: bool)
    ensures
        b == p@.is_suffix_of(s@),
{
    if p.len() > s.len() {
        return false;
    }
    let b = occurs_at_exec(s, p, s.len() - p.len());
    proof {
        if b {
            assert(p@ =~= s@.subrange(s@.len() - p@.len(), s@.len() as int));
        }
        if p@.is_suffix_of(s@) {
            assert(occurs_at(s@, p@, s@.len() - p@.len()));
        }
    }
    b
}

/// Whether `p` occurs in `s` (`str::contains`).
pub fn contains_exec(s: &Vec<char>, p: &Vec<char>) -> (b: bool)
    ensures
        b == contains(s@, p@),
{
    if p.len() == 0 {
        assert(s@.subrange(0, 0) == p@);
        assert(occurs_at(s@, p@, 0));
        return true;
    }
    if p.len() > s.len() {
        return false;
    }
    let last = s.len() - p.len();
    let mut i: usize = 0;
    while i <= last
        invariant
            p@.len() > 0,
            last == s@.len() - p@.len(),
            last < s.len(),
            i <= last + 1,
            forall|j: int| 0 <= j < i ==> !occurs_at(s@, p@, j),
        decreases last + 1 - i,
    {
        if occurs_at_exec(s, p, i) {
            return true;
        }
        i = i + 1;
    }
    assert forall|j: int| !occurs_at(s@, p@, j) by {
        if 0 <= j < i {
        } else {
            assert(!occurs_at(s@, p@, j));
        }
    }
    false
}

/// Whether `p` occurs in the string `s`.
pub fn str_contains(s: &str, p: &str) -> (b: bool)
    ensures
        b == contains(s@, p@),
{
    let sv = str_chars(s);
    let pv = str_chars(p);
    contains_exec(&sv, &pv)
}

/// Whether the string `s` starts with `p`.
pub fn str_starts_with(s: &str, p: &str) -> (b: bool)
    ensures
        b == p@.is_prefix_of(s@),
{
    let sv = str_chars(s);
    let pv = str_chars(p);
    starts_with(&sv, &pv)
}

// ---------------------------------------------------------------------
// Trimming
// ---------------------------------------------------------------------

/// Whether `c` is Unicode whitespace (`char::is_whitespace`).
pub fn is_ws_exec(c: char) -> (b: bool)
    ensures
        b == is_ws(c),
{
    c == '\t' || c == '\n' || c == '\u{0b}' || c == '\u{0c}' || c == '\r' || c == ' ' || c
        == '\u{85}' || c == '\u{a0}' || c == '\u{1680}' || ('\u{2000}' <= c && c <= '\u{200a}')
        || c == '\u{2028}' || c == '\u{2029}' || c == '\u{202f}' || c == '\u{205f}' || c
        == '\u{3000}'
}

/// Number of leading whitespace characters of `s`; `trim_start` drops exactly these.
pub fn trim_start_index(s: &Vec<char>) -> (i: usize)
    ensures
        i <= s.len(),
        trim_start(s@) == s@.skip(i as int),
{
    let mut i: usize = 0;
    assert(s@.skip(0) == s@);
    while i < s.len() && is_ws_exec(s[i])
        invariant
            i <= s.len(),
            trim_start(s@) == trim_start(s@.skip(i as int)),
        decreases s.len() - i,
    {
        assert(s@.skip(i as int).drop_first() == s@.skip(i + 1));
        i = i + 1;
    }
    i
}

/// End of `s[from..]` once its trailing whitespace is dropped.
pub fn trim_end_index(s: &Vec<char>, from: usize) -> (j: usize)
    requires
        from <= s.len(),
    ensures
        from <= j <= s.len(),
        trim_end(s@.subrange(from as int, s@.len() as int)) == s@.subrange(from as int, j as int),
{
    let mut j: usize = s.len();
    while j > from && is_ws_exec(s[j - 1])
        invariant
            from <= j <= s.len(),
            trim_end(s@.subrange(from as int, s@.len() as int)) == trim_end(
                s@.subrange(from as int, j as int),
            ),
        decreases j,
    {
        assert(s@.subrange(from as int, j as int).drop_last() == s@.subrange(
            from as int,
            j - 1,
        ));
        j = j - 1;
    }
    j
}

/// `s` without leading and trailing whitespace (`str::trim`).
pub fn trim_chars(s: &Vec<char>) -> (r: Vec<char>)
    ensures
        r@ == trim(s@),
{
    let i = trim_start_index(s);
    assert(s@.skip(i as int) == s@.subrange(i as int, s@.len() as int));
    let j = trim_end_index(s, i);
    slice_chars(s, i, j)
}

/// `s` without trailing whitespace (`str::trim_end`).
pub fn trim_end_chars(s: &Vec<char>) -> (r: Vec<char>)
    ensures
        r@ == trim_end(s@),
{
    let j = trim_end_index(s, 0);
    assert(s@.subrange(0, s@.len() as int) == s@);
    slice_chars(s, 0, j)
}

/// The string `s` without leading and trailing whitespace.
pub fn trim_str(s: &str) -> (r: Vec<char>)
    ensures
        r@ == trim(s@),
{
    let v = str_chars(s);
    trim_chars(&v)
}

// ---------------------------------------------------------------------
// Replacing
// ---------------------------------------------------------------------

/// Every non-overlapping occurrence of `p` in `s` replaced by `r` (`str::replace`).
pub fn replace_chars(s: &Vec<char>, p: &Vec<char>, r: &Vec<char>) -> (out: Vec<char>)
    ensures
        out@ == replaced(s@, p@, r@),
{
    let mut out: Vec<char> = Vec::new();
    let mut i: usize = 0;
    assert(s@.skip(0) == s@);
    assert(out@ + replaced(s@, p@, r@) == replaced(s@, p@, r@));
    if p.len() == 0 {
        while i < s.len()
            invariant
                p@.len() == 0,
                i <= s.len(),
                out@ + replaced(s@.skip(i as int), p@, r@) == replaced(s@, p@, r@),
            decreases s.len() - i,
        {
            let ghost rest = s@.skip(i as int);
            assert(rest.drop_first() == s@.skip(i + 1));
            assert(rest[0] == s@[i as int]);
            push_all(&mut out, r);
            out.push(s[i]);
            i = i + 1;
            assert(out@ + replaced(s@.skip(i as int), p@, r@) == replaced(s@, p@, r@));
        }
        push_all(&mut out, r);
        assert(s@.skip(i as int).len() == 0);
        return out;
    }
    while i < s.len()
        invariant
            p@.len() > 0,
            i <= s.len(),
            out@ + replaced(s@.skip(i as int), p@, r@) == replaced(s@, p@, r@),
        decreases s.len() - i,
    {
        let ghost rest = s@.skip(i as int);
        if occurs_at_exec(s, p, i) {
            assert(p@.is_prefix_of(rest)) by {
                assert(rest.subrange(0, p@.len() as int) == s@.subrange(
                    i as int,
                    i + p@.len(),
                ));
            }
            assert(rest.skip(p@.len() as int) == s@.skip(i + p@.len()));
            push_all(&mut out, r);
            i = i + p.len();
        } else {
            assert(!p@.is_prefix_of(rest)) by {
                if p@.is_prefix_of(rest) {
                    assert(rest.subrange(0, p@.len() as int) == s@.subrange(
                        i as int,
                        i + p@.len(),
                    ));
                }
            }
            assert(rest.drop_first() == s@.skip(i + 1));
            assert(rest[0] == s@[i as int]);
            out.push(s[i]);
            i = i + 1;
            assert(out@ + replaced(s@.skip(i as int), p@, r@) == replaced(s@, p@, r@));
        }
    }
    assert(s@.skip(i as int).len() == 0);
    assert(out@ + replaced(s@.skip(i as int), p@, r@) == out@);
    out
}

/// `s.replace(p, r)` on strings.
pub fn replace_str(s: &str, p: &str, r: &str) -> (out: Vec<char>)
    ensures
        out@ == replaced(s@, p@, r@),
{
    let sv = str_chars(s);
    let pv = str_chars(p);
    let rv = str_chars(r);
    replace_chars(&sv, &pv, &rv)
}

/// `s` with every leading copy of `p` removed (`str::trim_start_matches`).
pub fn strip_all_prefix_exec(s: &Vec<char>, p: &Vec<char>) -> (r: Vec<char>)
    ensures
        r@ == strip_all_prefix(s@, p@),
{
    if p.len() == 0 {
        return copy_chars(s);
    }
    let mut i: usize = 0;
    assert(s@.skip(0) == s@);
    while occurs_at_exec(s, p, i)
        invariant
            p@.len() > 0,
            i <= s.len(),
            strip_all_prefix(s@, p@) == strip_all_prefix(s@.skip(i as int), p@),
        decreases s.len() - i,
    {
        let ghost rest = s@.skip(i as int);
        assert(rest.subrange(0, p@.len() as int) == s@.subrange(i as int, i + p@.len()));
        assert(rest.skip(p@.len() as int) == s@.skip(i + p@.len()));
        i = i + p.len();
    }
    let ghost rest = s@.skip(i as int);
    assert(!p@.is_prefix_of(rest)) by {
        if p@.is_prefix_of(rest) {
            assert(rest.subrange(0, p@.len() as int) == s@.subrange(i as int, i + p@.len()));
        }
    }
    assert(rest == s@.subrange(i as int, s@.len() as int));
    slice_chars(s, i, s.len())
}

/// `s` with every trailing copy of `p` removed (`str::trim_end_matches`).
pub fn strip_all_suffix_exec(s: &Vec<char>, p: &Vec<char>) -> (r: Vec<char>)
    ensures
        r@ == strip_all_suffix(s@, p@),
{
    if p.len() == 0 {
        return copy_chars(s);
    }
    let mut j: usize = s.len();
    assert(s@.take(s@.len() as int) == s@);
    while j >= p.len() && occurs_at_exec(s, p, j - p.len())
        invariant
            p@.len() > 0,
            j <= s.len(),
            strip_all_suffix(s@, p@) == strip_all_suffix(s@.take(j as int), p@),
        decreases j,
    {
        let ghost pre = s@.take(j as int);
        assert(pre.subrange(j - p@.len(), j as int) == s@.subrange(j - p@.len(), j as int));
        assert(p@.is_suffix_of(pre));
        assert(pre.take(pre.len() - p@.len()) == s@.take(j - p@.len()));
        j = j - p.len();
    }
    let ghost pre = s@.take(j as int);
    assert(!p@.is_suffix_of(pre)) by {
        if p@.is_suffix_of(pre) {
            assert(pre.subrange(j - p@.len(), j as int) == s@.subrange(
                j - p@.len(),
                j as int,
            ));
        }
    }
    assert(pre == s@.subrange(0, j as int));
    slice_chars(s, 0, j)
}

// ---------------------------------------------------------------------
// Lines and words
// ---------------------------------------------------------------------

/// Position of the first `c` in `s[from..]`, or `s.len()`.
pub fn find_char_from(s: &Vec<char>, from: usize, c: char) -> (k: usize)
    requires
        from <= s.len(),
    ensures
        from <= k <= s.len(),
        k - from == first_index(s@.skip(from as int), c),
{
    let mut k: usize = from;
    while k < s.len() && s[k] != c
        invariant
            from <= k <= s.len(),
            first_index(s@.skip(from as int), c) == (k - from) + first_index(
                s@.skip(k as int),
                c,
            ),
        decreases s.len() - k,
    {
        assert(s@.skip(k as int).drop_first() == s@.skip(k + 1));
        k = k + 1;
    }
    k
}

/// `s` without one trailing carriage return.
pub fn strip_cr_exec(s: &Vec<char>) -> (r: Vec<char>)
    ensures
        r@ == strip_cr(s@),
{
    if s.len() > 0 && s[s.len() - 1] == '\r' {
        let r = slice_chars(s, 0, s.len() - 1);
        assert(s@.drop_last() == s@.subrange(0, s@.len() - 1));
        r
    } else {
        copy_chars(s)
    }
}

/// The lines of `s` (`str::lines`).
pub fn lines_exec(s: &Vec<char>) -> (r: Vec<Vec<char>>)
    ensures
        r@.len() == lines(s@).len(),
        forall|i: int| 0 <= i < r@.len() ==> #[trigger] r@[i]@ == lines(s@)[i],
{
    let mut r: Vec<Vec<char>> = Vec::new();
    let mut i: usize = 0;
    let ghost mut done: Seq<Seq<char>> = seq![];
    assert(s@.skip(0) == s@);
    assert(done + lines(s@) == lines(s@));
    while i < s.len()
        invariant
            i <= s.len(),
            done + lines(s@.skip(i as int)) == lines(s@),
            r@.len() == done.len(),
            forall|j: int| 0 <= j < r@.len() ==> #[trigger] r@[j]@ == done[j],
        decreases s.len() - i,
    {
        let ghost rest = s@.skip(i as int);
        let k = find_char_from(s, i, '\n');
        if k >= s.len() {
            let line = slice_chars(s, i, s.len());
            assert(rest == s@.subrange(i as int, s@.len() as int));
            proof {
                done = done + seq![rest];
            }
            r.push(line);
            assert(s@.skip(s.len() as int).len() == 0);
            i = s.len();
            assert(lines(s@.skip(i as int)) == Seq::<Seq<char>>::empty());
        } else {
            let raw = slice_chars(s, i, k);
            let line = strip_cr_exec(&raw);
            assert(rest.take(k - i) == s@.subrange(i as int, k as int));
            assert(rest.skip(k - i + 1) == s@.skip(k + 1));
            proof {
                done = done + seq![strip_cr(rest.take(k - i))];
            }
            r.push(line);
            i = k + 1;
        }
    }
    assert(s@.skip(i as int).len() == 0);
    assert(done + lines(s@.skip(i as int)) == done);
    r
}

/// The number of leading non-whitespace characters of `s[from..]`.
pub fn word_end(s: &Vec<char>, from: usize) -> (k: usize)
    requires
        from <= s.len(),
    ensures
        from <= k <= s.len(),
        leading_word(s@.skip(from as int)) == s@.subrange(from as int, k as int),
{
    let mut k: usize = from;
    while k < s.len() && !is_ws_exec(s[k])
        invariant
            from <= k <= s.len(),
            leading_word(s@.skip(from as int)) == s@.subrange(from as int, k as int)
                + leading_word(s@.skip(k as int)),
        decreases s.len() - k,
    {
        assert(s@.skip(k as int).drop_first() == s@.skip(k + 1));
        assert(s@.subrange(from as int, k + 1) == s@.subrange(from as int, k as int) + seq![
            s@[k as int],
        ]);
        k = k + 1;
    }
    k
}

/// The first whitespace-separated word of `s` (`split_whitespace().next()`).
pub fn first_word_exec(s: &Vec<char>) -> (r: Option<Vec<char>>)
    ensures
        match r {
            Some(w) => first_word(s@) == Some(w@),
            None => first_word(s@) is None,
        },
{
    let i = trim_start_index(s);
    if i >= s.len() {
        return None;
    }
    let k = word_end(s, i);
    Some(slice_chars(s, i, k))
}

// ---------------------------------------------------------------------
// Numbers
// ---------------------------------------------------------------------

proof fn lemma_digits_value_nonneg(s: Seq<char>)
    requires
        all_digits(s),
    ensures
        digits_value(s) >= 0,
    decreases s.len(),
{
    if s.len() > 0 {
        lemma_digits_value_nonneg(s.drop_last());
    }
}

/// Value of the digits `s[from..to]`, or `None` once it passes `limit`.
fn digits_upto(s: &Vec<char>, from: usize, limit: u64) -> (r: Option<u64>)
    requires
        from <= s.len(),
        all_digits(s@.skip(from as int)),
        limit <= 10_000_000_000,
    ensures
        match r {
            Some(v) => v == digits_value(s@.skip(from as int)) && v <= limit,
            None => digits_value(s@.skip(from as int)) > limit,
        },
{
    let mut acc: u64 = 0;
    let mut k: usize = from;
    while k < s.len()
        invariant
            from <= k <= s.len(),
            all_digits(s@.skip(from as int)),
            limit <= 10_000_000_000,
            acc == digits_value(s@.subrange(from as int, k as int)),
            acc <= limit,
        decreases s.len() - k,
    {
        let ghost pre = s@.subrange(from as int, k as int);
        let ghost next = s@.subrange(from as int, k + 1);
        assert(next.drop_last() == pre);
        assert(next.last() == s@[k as int]);
        assert(is_digit(s@.skip(from as int)[k - from]));
        let d = (s[k] as u32 - '0' as u32) as u64;
        let v = acc * 10 + d;
        assert(v == digits_value(next));
        if v > limit {
            proof {
                lemma_digits_prefix_bound(s@.skip(from as int), (k + 1 - from) as int);
                assert(s@.skip(from as int).take((k + 1 - from) as int) == next);
            }
            return None;
        }
        acc = v;
        k = k + 1;
    }
    assert(s@.subrange(from as int, s@.len() as int) == s@.skip(from as int));
    Some(acc)
}

/// The value of all digits is at least the value of any prefix.
proof fn lemma_digits_prefix_bound(s: Seq<char>, n: int)
    requires
        0 <= n <= s.len(),
        all_digits(s),
    ensures
        digits_value(s) >= digits_value(s.take(n)),
    decreases s.len(),
{
    if n < s.len() {
        let t = s.drop_last();
        assert(t.take(n) == s.take(n));
        assert(all_digits(t));
        lemma_digits_prefix_bound(t, n);
        lemma_digits_value_nonneg(t);
    } else {
        assert(s.take(n) == s);
    }
}

/// `str::parse::<i32>` on characters.
pub fn parse_i32(s: &Vec<char>) -> (r: Option<i32>)
    ensures
        r == parse_i32_model(s@),
{
    if s.len() == 0 {
        return None;
    }
    let signed = s[0] == '+' || s[0] == '-';
    let from: usize = if signed { 1 } else { 0 };
    if from >= s.len() {
        return None;
    }
    let mut k: usize = from;
    while k < s.len()
        invariant
            from <= k <= s.len(),
            s@.len() > 0,
            signed == (s@[0] == '+' || s@[0] == '-'),
            from == (if signed { 1usize } else { 0usize }),
            forall|j: int| from <= j < k ==> is_digit(#[trigger] s@[j]),
        decreases s.len() - k,
    {
        if !is_digit_exec(s[k]) {
            proof {
                if signed {
                    assert(s@.drop_first()[k - 1] == s@[k as int]);
                    assert(!all_digits(s@.drop_first()));
                } else {
                    assert(!all_digits(s@));
                }
            }
            return None;
        }
        k = k + 1;
    }
    assert(all_digits(s@.skip(from as int)));
    proof {
        if signed {
            assert(s@.drop_first() == s@.skip(1));
        } else {
            assert(s@.skip(0) == s@);
        }
    }
    let neg = s[0] == '-';
    let limit: u64 = if neg { 2147483648 } else { 2147483647 };
    match digits_upto(s, from, limit) {
        Some(v) => {
            if neg {
                let r = (0 - (v as i64)) as i32;
                Some(r)
            } else {
                Some(v as i32)
            }
        },
        None => None,
    }
}

/// The decimal digits of `n`.
pub fn decimal_exec(n: u64) -> (r: Vec<char>)
    ensures
        r@ == decimal(n as nat),
    decreases n,
{
    if n < 10 {
        let mut r: Vec<char> = Vec::new();
        r.push(digit_char_exec(n));
        r
    } else {
        let mut r = decimal_exec(n / 10);
        r.push(digit_char_exec(n % 10));
        r
    }
}

/// The ASCII digit for `d < 10`.
pub fn digit_char_exec(d: u64) -> (c: char)
    requires
        d < 10,
    ensures
        c == digit_char(d as nat),
{
    if d == 0 { '0' }
    else if d == 1 { '1' }
    else if d == 2 { '2' }
    else if d == 3 { '3' }
    else if d == 4 { '4' }
    else if d == 5 { '5' }
    else if d == 6 { '6' }
    else if d == 7 { '7' }
    else if d == 8 { '8' }
    else { '9' }
}

/// `n` in decimal, left-padded with zeros to at least `width` digits.
pub fn zero_padded_exec(n: u64, width: usize) -> (r: Vec<char>)
    ensures
        r@ == zero_padded(n as nat, width as nat),
{
    let d = decimal_exec(n);
    if d.len() < width {
        let mut r: Vec<char> = Vec::new();
        let pad = width - d.len();
        let mut i: usize = 0;
        while i < pad
            invariant
                i <= pad,
                r@ == Seq::new(i as nat, |j: int| '0'),
            decreases pad - i,
        {
            r.push('0');
            i = i + 1;
            assert(r@ == Seq::new(i as nat, |j: int| '0'));
        }
        push_all(&mut r, &d);
        r
    } else {
        d
    }
}

// ---------------------------------------------------------------------
// Joining
// ---------------------------------------------------------------------

/// The items of `parts` joined with `sep` between them.
pub fn join_exec(parts: &Vec<Vec<char>>, sep: &Vec<char>) -> (r: Vec<char>)
    ensures
        r@ == joined(parts@.map_values(|v: Vec<char>| v@), sep@),
{
    let ghost ps = parts@.map_values(|v: Vec<char>| v@);
    let mut r: Vec<char> = Vec::new();
    let mut i: usize = 0;
    while i < parts.len()
        invariant
            i <= parts.len(),
            ps == parts@.map_values(|v: Vec<char>| v@),
            r@ == joined(ps.take(i as int), sep@),
        decreases parts.len() - i,
    {
        if i > 0 {
            push_all(&mut r, sep);
        }
        push_all(&mut r, &parts[i]);
        assert(ps.take(i + 1).drop_last() == ps.take(i as int));
        assert(ps.take(i + 1).last() == parts@[i as int]@);
        i = i + 1;
    }
    assert(ps.take(parts.len() as int) == ps);
    r
}

// ---------------------------------------------------------------------
// Byte-length limits
// ---------------------------------------------------------------------

/// The text of the first `n` UTF-8 bytes of `s` (all of `s` if it is no
/// longer), as slicing `&s[..n]` gives it.
pub open spec fn byte_prefix(s: Seq<char>, n: nat) -> Seq<char> {
    if encode_utf8(s).len() > n {
        decode_utf8(encode_utf8(s).subrange(0, n as int))
    } else {
        s
    }
}

/// Cutting `s` after `n` bytes does not split a character.
pub open spec fn cut_ok(s: Seq<char>, n: nat) -> bool {
    encode_utf8(s).len() <= n || is_char_boundary(encode_utf8(s), n as int)
}

/// `s` limited to its first `n` bytes (`&s[..n]` when longer).
pub fn truncate_bytes(s: &str, n: usize) -> (r: &str)
    requires
        cut_ok(s@, n as nat),
    ensures
        r@ == byte_prefix(s@, n as nat),
{
    let bytes = s.as_bytes();
    assert(s.spec_bytes() == encode_utf8(s@));
    if bytes.len() > n {
        let (a, _b) = s.split_at(n);
        proof {
            encode_utf8_decode_utf8(a@);
            assert(a.spec_bytes() == encode_utf8(a@));
            assert(s.spec_bytes() == encode_utf8(s@));
            assert(encode_utf8(a@) == encode_utf8(s@).subrange(0, n as int));
        }
        a
    } else {
        s
    }
}

} // verus!
