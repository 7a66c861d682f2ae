use vstd::prelude::*;
use crate::key::VirtualKey;
use crate::keymap::{distinct_sources, KeyMap};
use crate::labels::{debug_name, variant_name};

verus! {

/// Whether `a` comes before `b` in the order of strings: by character
/// codes, a proper prefix first.
pub open spec fn text_less(a: Seq<char>, b: Seq<char>) -> bool
    decreases a.len(),
{
    if a.len() == 0 {
        b.len() > 0
    } else if b.len() == 0 {
        false
    } else if a[0] != b[0] {
        (a[0] as u32) < (b[0] as u32)
    } else {
        text_less(a.drop_first(), b.drop_first())
    }
}

/// A proper prefix comes before the longer string.
pub proof fn law_prefix_first(p: Seq<char>, q: Seq<char>)
    requires
        q.len() > 0,
    ensures
        text_less(p, p + q),
        !text_less(p + q, p),
    decreases p.len(),
{
    if p.len() > 0 {
        assert((p + q).drop_first() =~= p.drop_first() + q);
        assert((p + q)[0] == p[0]);
        law_prefix_first(p.drop_first(), q);
    }
}

/// After a common beginning, the string with the smaller character code at
/// the first difference comes first.
pub proof fn law_first_difference_decides(p: Seq<char>, c1: char, c2: char, x: Seq<char>, y: Seq<char>)
    requires
        (c1 as u32) < (c2 as u32),
    ensures
        text_less(p.push(c1) + x, p.push(c2) + y),
        !text_less(p.push(c2) + y, p.push(c1) + x),
    decreases p.len(),
{
    let a = p.push(c1) + x;
    let b = p.push(c2) + y;
    if p.len() == 0 {
        assert(a[0] == c1);
        assert(b[0] == c2);
    } else {
        assert(a[0] == p[0]);
        assert(b[0] == p[0]);
        assert(a.drop_first() =~= p.drop_first().push(c1) + x);
        assert(b.drop_first() =~= p.drop_first().push(c2) + y);
        law_first_difference_decides(p.drop_first(), c1, c2, x, y);
    }
}

/// The order of strings is transitive.
pub proof fn lemma_text_less_transitive(a: Seq<char>, b: Seq<char>, c: Seq<char>)
    requires
        text_less(a, b),
        text_less(b, c),
    ensures
        text_less(a, c),
    decreases a.len(),
{
    if a.len() > 0 && b.len() > 0 && c.len() > 0 && a[0] == b[0] && b[0] == c[0] {
        lemma_text_less_transitive(a.drop_first(), b.drop_first(), c.drop_first());
    }
}

/// Whether `a` comes before `b` in the order of strings.
pub fn less_text(a: &str, b: &str) -> (r: bool)
    ensures
        r == text_less(a@, b@),
{
    let n = a.unicode_len();
    let m = b.unicode_len();
    let mut i: usize = 0;
    assert(a@.skip(0) =~= a@);
    assert(b@.skip(0) =~= b@);
    while i < n && i < m
        invariant
            n == a@.len(),
            m == b@.len(),
            i <= n,
            i <= m,
            text_less(a@, b@) == text_less(a@.skip(i as int), b@.skip(i as int)),
        decreases n - i,
    {
        let ca = a.get_char(i);
        let cb = b.get_char(i);
        assert(a@.skip(i as int)[0] == ca);
        assert(b@.skip(i as int)[0] == cb);
        if ca != cb {
            return (ca as u32) < (cb as u32);
        }
        assert(a@.skip(i as int).drop_first() =~= a@.skip(i + 1));
        assert(b@.skip(i as int).drop_first() =~= b@.skip(i + 1));
        i = i + 1;
    }
    i == n && i < m
}

/// The pairs are listed in the order of the variant names of their source
/// keys.
pub open spec fn sorted_by_name(s: Seq<(VirtualKey, VirtualKey)>) -> bool {
    forall|a: int, b: int| 0 <= a < b < s.len() ==> !text_less(variant_name(#[trigger] s[b].0), variant_name(#[trigger] s[a].0))
}

/// `x` is one of the first `n` pairs of `from`.
#[verifier::opaque]
pub open spec fn in_prefix(from: Seq<(VirtualKey, VirtualKey)>, n: int, x: (VirtualKey, VirtualKey)) -> bool {
    exists|j: int| 0 <= j < n && from[j] == x
}

/// `x` is a pair of `s`.
#[verifier::opaque]
pub open spec fn in_seq(s: Seq<(VirtualKey, VirtualKey)>, x: (VirtualKey, VirtualKey)) -> bool {
    exists|q: int| 0 <= q < s.len() && s[q] == x
}

proof fn lemma_in_prefix_intro(from: Seq<(VirtualKey, VirtualKey)>, n: int, j: int)
    requires
        0 <= j < n,
    ensures
        in_prefix(from, n, from[j]),
{
    reveal(in_prefix);
}

proof fn lemma_in_prefix_elim(from: Seq<(VirtualKey, VirtualKey)>, n: int, x: (VirtualKey, VirtualKey)) -> (j: int)
    requires
        in_prefix(from, n, x),
    ensures
        0 <= j < n,
        from[j] == x,
{
    reveal(in_prefix);
    choose|j: int| 0 <= j < n && from[j] == x
}

proof fn lemma_in_seq_intro(s: Seq<(VirtualKey, VirtualKey)>, q: int)
    requires
        0 <= q < s.len(),
    ensures
        in_seq(s, s[q]),
{
    reveal(in_seq);
}

proof fn lemma_in_seq_elim(s: Seq<(VirtualKey, VirtualKey)>, x: (VirtualKey, VirtualKey)) -> (q: int)
    requires
        in_seq(s, x),
    ensures
        0 <= q < s.len(),
        s[q] == x,
{
    reveal(in_seq);
    choose|q: int| 0 <= q < s.len() && s[q] == x
}

/// Every pair of `s` is among the first `n` pairs of `from`, and each of those
/// is in `s`.
pub open spec fn holds_prefix(s: Seq<(VirtualKey, VirtualKey)>, from: Seq<(VirtualKey, VirtualKey)>, n: int) -> bool {
    &&& forall|q: int| 0 <= q < s.len() ==> in_prefix(from, n, #[trigger] s[q])
    &&& forall|j: int| 0 <= j < n ==> in_seq(s, #[trigger] from[j])
}

/// Inserting `x` before the first pair whose name comes after its own keeps
/// the list sorted.
proof fn lemma_insert_sorted(before: Seq<(VirtualKey, VirtualKey)>, p: int, x: (VirtualKey, VirtualKey))
    requires
        sorted_by_name(before),
        0 <= p <= before.len(),
        forall|q: int| 0 <= q < p ==> !text_less(variant_name(x.0), variant_name(#[trigger] before[q].0)),
        p < before.len() ==> text_less(variant_name(x.0), variant_name(before[p].0)),
    ensures
        sorted_by_name(before.insert(p, x)),
{
    let out = before.insert(p, x);
    assert forall|a: int, b: int| 0 <= a < b < out.len() implies !text_less(variant_name(#[trigger] out[b].0), variant_name(#[trigger] out[a].0)) by {
        let na = variant_name(out[a].0);
        let nb = variant_name(out[b].0);
        if a < p && b == p {
            assert(out[a] == before[a]);
        } else if a == p && b > p {
            assert(out[b] == before[b - 1]);
            if text_less(nb, na) {
                lemma_text_less_transitive(nb, na, variant_name(before[p].0));
                if b - 1 == p {
                    lemma_text_less_irreflexive(nb);
                } else {
                    assert(!text_less(variant_name(before[b - 1].0), variant_name(before[p].0)));
                }
            }
        } else if a < p && b < p {
            assert(out[a] == before[a] && out[b] == before[b]);
        } else if a < p && b > p {
            assert(out[a] == before[a] && out[b] == before[b - 1]);
        } else {
            assert(out[a] == before[a - 1] && out[b] == before[b - 1]);
        }
    }
}

/// Inserting the next pair keeps the list a rearrangement of a prefix, with
/// distinct sources.
proof fn lemma_insert_holds(before: Seq<(VirtualKey, VirtualKey)>, pairs: Seq<(VirtualKey, VirtualKey)>, i: int, p: int)
    requires
        0 <= i < pairs.len(),
        0 <= p <= before.len(),
        distinct_sources(pairs),
        distinct_sources(before),
        holds_prefix(before, pairs, i),
    ensures
        holds_prefix(before.insert(p, pairs[i]), pairs, i + 1),
        distinct_sources(before.insert(p, pairs[i])),
{
    let out = before.insert(p, pairs[i]);
    assert forall|q: int| 0 <= q < out.len() implies in_prefix(pairs, i + 1, #[trigger] out[q]) by {
        if q == p {
            lemma_in_prefix_intro(pairs, i + 1, i);
        } else {
            let b = if q < p { q } else { q - 1 };
            assert(out[q] == before[b]);
            let j = lemma_in_prefix_elim(pairs, i, before[b]);
            lemma_in_prefix_intro(pairs, i + 1, j);
        }
    }
    assert forall|j: int| 0 <= j < i + 1 implies in_seq(out, #[trigger] pairs[j]) by {
        if j == i {
            lemma_in_seq_intro(out, p);
        } else {
            let q = lemma_in_seq_elim(before, pairs[j]);
            if q < p {
                assert(out[q] == before[q]);
                lemma_in_seq_intro(out, q);
            } else {
                assert(out[q + 1] == before[q]);
                lemma_in_seq_intro(out, q + 1);
            }
        }
    }
    assert forall|a: int, b: int| 0 <= a < b < out.len() implies #[trigger] out[a].0 != #[trigger] out[b].0 by {
        if a != p && b != p {
            let ia = if a < p { a } else { a - 1 };
            let ib = if b < p { b } else { b - 1 };
            assert(out[a] == before[ia] && out[b] == before[ib]);
        } else {
            let other = if a == p { b } else { a };
            let ob = if other < p { other } else { other - 1 };
            assert(out[other] == before[ob]);
            let j = lemma_in_prefix_elim(pairs, i, before[ob]);
            assert(pairs[j].0 != pairs[i].0);
        }
    }
}

/// The pairs of a key map sorted by the variant names of their source keys,
/// the order in which the mapping table lists them.
pub fn sorted_pairs(map: &KeyMap) -> (r: Vec<(VirtualKey, VirtualKey)>)
    ensures
        distinct_sources(r@),
        forall|i: int| 0 <= i < r@.len() ==> map@.contains_key(#[trigger] r@[i].0) && map@[r@[i].0] == r@[i].1,
        forall|k: VirtualKey| map@.contains_key(k) ==> exists|i: int| 0 <= i < r@.len() && #[trigger] r@[i].0 == k,
        sorted_by_name(r@),
{
    let pairs = map.pairs();
    let mut out: Vec<(VirtualKey, VirtualKey)> = Vec::new();
    let mut i: usize = 0;
    while i < pairs.len()
        invariant
            i <= pairs@.len(),
            distinct_sources(pairs@),
            distinct_sources(out@),
            holds_prefix(out@, pairs@, i as int),
            forall|q: int| 0 <= q < pairs@.len() ==> map@.contains_key(#[trigger] pairs@[q].0) && map@[pairs@[q].0] == pairs@[q].1,
            sorted_by_name(out@),
        decreases pairs@.len() - i,
    {
        let x = pairs[i];
        let name_x = debug_name(x.0);
        // the first position whose key comes after x's
        let mut p: usize = 0;
        while p < out.len()
            invariant
                p <= out@.len(),
                name_x@ == variant_name(x.0),
                forall|q: int| 0 <= q < p ==> !text_less(name_x@, variant_name(#[trigger] out@[q].0)),
            ensures
                p <= out@.len(),
                forall|q: int| 0 <= q < p ==> !text_less(name_x@, variant_name(#[trigger] out@[q].0)),
                p < out@.len() ==> text_less(name_x@, variant_name(out@[p as int].0)),
            decreases out@.len() - p,
        {
            let name_p = debug_name(out[p].0);
            if less_text(name_x.as_str(), name_p.as_str()) {
                break;
            }
            p = p + 1;
        }
        proof {
            lemma_insert_sorted(out@, p as int, x);
            lemma_insert_holds(out@, pairs@, i as int, p as int);
        }
        out.insert(p, x);
        i = i + 1;
    }
    proof {
        assert forall|k: VirtualKey| map@.contains_key(k) implies exists|q: int| 0 <= q < out@.len() && #[trigger] out@[q].0 == k by {
            let j = choose|j: int| 0 <= j < pairs@.len() && #[trigger] pairs@[j].0 == k;
            let q = lemma_in_seq_elim(out@, pairs@[j]);
            assert(out@[q].0 == k);
        }
        assert forall|q: int| 0 <= q < out@.len() implies map@.contains_key(#[trigger] out@[q].0) && map@[out@[q].0] == out@[q].1 by {
            let j = lemma_in_prefix_elim(pairs@, pairs@.len() as int, out@[q]);
            assert(map@.contains_key(pairs@[j].0));
        }
    }
    out
}

/// No string comes before itself.
pub proof fn lemma_text_less_irreflexive(a: Seq<char>)
    ensures
        !text_less(a, a),
    decreases a.len(),
{
    if a.len() > 0 {
        lemma_text_less_irreflexive(a.drop_first());
    }
}

} // verus!
