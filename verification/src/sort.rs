//! Stable sorting by a text key, in the order `String`'s `Ord` gives
//! (character by character, by code point; a prefix first).
use vstd::prelude::*;
use crate::text::str_chars;
use crate::markup::views;

verus! {

/// `a <= b` in the lexicographic order of code points.
pub open spec fn chars_le(a: Seq<char>, b: Seq<char>) -> bool
    decreases a.len(),
{
    if a.len() == 0 {
        true
    } else if b.len() == 0 {
        false
    } else if a[0] != b[0] {
        a[0] < b[0]
    } else {
        chars_le(a.drop_first(), b.drop_first())
    }
}

/// Where stable insertion puts an item with key `k` into `s`: before the
/// first item whose key is greater than `k`.
pub open spec fn insert_pos<V>(s: Seq<(Seq<char>, V)>, k: Seq<char>) -> int
    decreases s.len(),
{
    if s.len() == 0 {
        0
    } else if !chars_le(s[0].0, k) {
        0
    } else {
        1 + insert_pos(s.drop_first(), k)
    }
}

/// `s` stably sorted by key: each item inserted, in turn, after every item
/// already placed whose key is not greater.
pub open spec fn stable_sorted<V>(s: Seq<(Seq<char>, V)>) -> Seq<(Seq<char>, V)>
    decreases s.len(),
{
    if s.len() == 0 {
        s
    } else {
        let t = stable_sorted(s.drop_last());
        t.insert(insert_pos(t, s.last().0), s.last())
    }
}

/// The keys of a keyed sequence as character sequences.
pub open spec fn keyed_view<V>(s: Seq<(Vec<char>, V)>) -> Seq<(Seq<char>, V)> {
    s.map_values(|x: (Vec<char>, V)| (x.0@, x.1))
}

pub proof fn lemma_insert_pos_bound<V>(s: Seq<(Seq<char>, V)>, k: Seq<char>)
    ensures
        0 <= insert_pos(s, k) <= s.len(),
    decreases s.len(),
{
    if s.len() > 0 && chars_le(s[0].0, k) {
        lemma_insert_pos_bound(s.drop_first(), k);
    }
}

pub proof fn lemma_stable_sorted_len<V>(s: Seq<(Seq<char>, V)>)
    ensures
        stable_sorted(s).len() == s.len(),
    decreases s.len(),
{
    if s.len() > 0 {
        lemma_stable_sorted_len(s.drop_last());
        lemma_insert_pos_bound(stable_sorted(s.drop_last()), s.last().0);
    }
}

/// `a <= b` on character vectors.
pub fn chars_le_exec(a: &Vec<char>, b: &Vec<char>) -> (r: bool)
    ensures
        r == chars_le(a@, b@),
{
    let mut i: usize = 0;
    assert(a@.skip(0) == a@);
    assert(b@.skip(0) == b@);
    loop
        invariant
            i <= a.len(),
            i <= b.len(),
            chars_le(a@, b@) == chars_le(a@.skip(i as int), b@.skip(i as int)),
        decreases a.len() - i,
    {
        if i == a.len() {
            return true;
        }
        if i == b.len() {
            return false;
        }
        assert(a@.skip(i as int)[0] == a@[i as int]);
        assert(b@.skip(i as int)[0] == b@[i as int]);
        if a[i] != b[i] {
            return a[i] < b[i];
        }
        assert(a@.skip(i as int).drop_first() == a@.skip(i + 1));
        assert(b@.skip(i as int).drop_first() == b@.skip(i + 1));
        i = i + 1;
    }
}

/// Where stable insertion puts key `k` into `out`.
fn find_insert_pos<V>(out: &Vec<(Vec<char>, V)>, k: &Vec<char>) -> (p: usize)
    ensures
        p as int == insert_pos(keyed_view(out@), k@),
        p <= out.len(),
{
    let ghost s = keyed_view(out@);
    let mut i: usize = 0;
    assert(s.skip(0) == s);
    while i < out.len() && chars_le_exec(&out[i].0, k)
        invariant
            i <= out.len(),
            s == keyed_view(out@),
            insert_pos(s, k@) == i + insert_pos(s.skip(i as int), k@),
        decreases out.len() - i,
    {
        assert(s.skip(i as int).drop_first() == s.skip(i + 1));
        assert(s.skip(i as int)[0] == s[i as int]);
        i = i + 1;
    }
    proof {
        if i < out.len() {
            assert(s.skip(i as int)[0] == s[i as int]);
        }
    }
    i
}

/// `items` stably sorted by their text keys.
pub fn stable_sort_by_key<V>(items: Vec<(Vec<char>, V)>) -> (r: Vec<(Vec<char>, V)>)
    ensures
        keyed_view(r@) == stable_sorted(keyed_view(items@)),
{
    let ghost orig = keyed_view(items@);
    let ghost n = items@.len();
    let mut rest = items;
    let mut out: Vec<(Vec<char>, V)> = Vec::new();
    assert(orig.take(0) == Seq::<(Seq<char>, V)>::empty());
    assert(keyed_view(rest@) == orig.skip(0));
    while rest.len() > 0
        invariant
            n == orig.len(),
            rest@.len() <= n,
            keyed_view(out@) == stable_sorted(orig.take(n - rest@.len())),
            keyed_view(rest@) == orig.skip(n - rest@.len()),
        decreases rest.len(),
    {
        let ghost done = n - rest@.len();
        let ghost before_rest = rest@;
        let x = rest.remove(0);
        assert(keyed_view(rest@) == orig.skip(done + 1)) by {
            assert(rest@ == before_rest.subrange(1, before_rest.len() as int));
            assert(keyed_view(rest@) == keyed_view(before_rest).subrange(
                1,
                before_rest.len() as int,
            ));
            assert(orig.skip(done).subrange(1, before_rest.len() as int) == orig.skip(done + 1));
        }
        assert((x.0@, x.1) == orig[done]) by {
            assert(keyed_view(before_rest)[0] == orig.skip(done)[0]);
        }
        let p = find_insert_pos(&out, &x.0);
        let ghost before_out = out@;
        out.insert(p, x);
        assert(orig.take(done + 1).drop_last() == orig.take(done));
        assert(orig.take(done + 1).last() == orig[done]);
        assert(keyed_view(out@) == keyed_view(before_out).insert(p as int, orig[done]));
    }
    assert(orig.take(n as int) == orig);
    out
}

/// Strings keyed by their own text.
pub open spec fn self_keyed(names: Seq<String>) -> Seq<(Seq<char>, String)> {
    names.map_values(|n: String| (n@, n))
}

/// Names in `String` order (`Vec::sort`).
pub open spec fn sorted_names_model(names: Seq<String>) -> Seq<Seq<char>> {
    stable_sorted(self_keyed(names)).map_values(|x: (Seq<char>, String)| x.1@)
}

/// `names` sorted in `String` order.
pub fn sort_names(names: Vec<String>) -> (r: Vec<String>)
    ensures
        views(r@) == sorted_names_model(names@),
{
    let ghost orig = names@;
    let mut items: Vec<(Vec<char>, String)> = Vec::new();
    let mut rest = names;
    let ghost n = rest@.len();
    while rest.len() > 0
        invariant
            n == orig.len(),
            rest@.len() <= n,
            rest@ == orig.skip(n - rest@.len()),
            items@.len() == n - rest@.len(),
            forall|j: int|
                0 <= j < items@.len() ==> (#[trigger] items@[j]).0@ == orig[j]@ && items@[j].1
                    == orig[j],
        decreases rest.len(),
    {
        let ghost before = rest@;
        let ghost done = n - rest@.len();
        let s = rest.remove(0);
        assert(rest@ == orig.skip(done + 1));
        assert(s == orig[done]);
        let k = str_chars(s.as_str());
        items.push((k, s));
    }
    assert(keyed_view(items@) == self_keyed(orig));
    let sorted = stable_sort_by_key(items);
    let mut out: Vec<String> = Vec::new();
    let mut i: usize = 0;
    while i < sorted.len()
        invariant
            i <= sorted.len(),
            out@.len() == i,
            forall|j: int| 0 <= j < i ==> (#[trigger] out@[j])@ == sorted@[j].1@,
        decreases sorted.len() - i,
    {
        out.push(String::from_str(sorted[i].1.as_str()));
        i = i + 1;
    }
    proof {
        let sv = stable_sorted(self_keyed(orig));
        assert(keyed_view(sorted@) == sv);
        assert(sv.len() == sorted@.len());
        assert forall|j: int| 0 <= j < out@.len() implies out@[j]@ == sv[j].1@ by {
            assert(keyed_view(sorted@)[j] == (sorted@[j].0@, sorted@[j].1));
        }
        assert(views(out@) == sv.map_values(|x: (Seq<char>, String)| x.1@));
    }
    out
}

} // verus!
