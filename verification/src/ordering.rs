//! The order listings are shown in: by depth, then by path, comparing path
//! parts one by one and each part character by character. On UTF-8 text,
//! comparing characters by code point is comparing the bytes, which is the
//! order of `str` and of `Path` on relative paths.

use vstd::prelude::*;
use crate::text;

verus! {

/// `a` comes before `b`: at the first difference `a` has the smaller
/// character, or `a` is a proper prefix of `b`.
pub open spec fn chars_lt(a: Seq<char>, b: Seq<char>) -> bool
    decreases a.len(),
{
    if a.len() == 0 {
        b.len() > 0
    } else if b.len() == 0 {
        false
    } else if a[0] != b[0] {
        (a[0] as u32) < (b[0] as u32)
    } else {
        chars_lt(a.drop_first(), b.drop_first())
    }
}

/// The same order on sequences of parts, each part compared by `chars_lt`.
pub open spec fn parts_lt(a: Seq<Seq<char>>, b: Seq<Seq<char>>) -> bool
    decreases a.len(),
{
    if a.len() == 0 {
        b.len() > 0
    } else if b.len() == 0 {
        false
    } else if a[0] != b[0] {
        chars_lt(a[0], b[0])
    } else {
        parts_lt(a.drop_first(), b.drop_first())
    }
}

/// Fewer parts first; the same number of parts in `parts_lt` order.
pub open spec fn key_lt(a: Seq<Seq<char>>, b: Seq<Seq<char>>) -> bool {
    a.len() < b.len() || (a.len() == b.len() && parts_lt(a, b))
}

pub proof fn lemma_chars_lt_irreflexive(a: Seq<char>)
    ensures
        !chars_lt(a, a),
    decreases a.len(),
{
    if a.len() > 0 {
        lemma_chars_lt_irreflexive(a.drop_first());
    }
}

pub proof fn lemma_chars_lt_transitive(a: Seq<char>, b: Seq<char>, c: Seq<char>)
    requires
        chars_lt(a, b),
        chars_lt(b, c),
    ensures
        chars_lt(a, c),
    decreases a.len(),
{
    if a.len() > 0 && b.len() > 0 && c.len() > 0 {
        if a[0] == b[0] && b[0] == c[0] {
            lemma_chars_lt_transitive(a.drop_first(), b.drop_first(), c.drop_first());
        }
    }
}

pub proof fn lemma_chars_lt_asymmetric(a: Seq<char>, b: Seq<char>)
    requires
        chars_lt(a, b),
    ensures
        !chars_lt(b, a),
    decreases a.len(),
{
    if a.len() > 0 && b.len() > 0 && a[0] == b[0] {
        lemma_chars_lt_asymmetric(a.drop_first(), b.drop_first());
    }
}

pub proof fn lemma_parts_lt_transitive(a: Seq<Seq<char>>, b: Seq<Seq<char>>, c: Seq<Seq<char>>)
    requires
        parts_lt(a, b),
        parts_lt(b, c),
    ensures
        parts_lt(a, c),
    decreases a.len(),
{
    if a.len() > 0 && b.len() > 0 && c.len() > 0 {
        if a[0] == b[0] && b[0] == c[0] {
            lemma_parts_lt_transitive(a.drop_first(), b.drop_first(), c.drop_first());
        } else if a[0] != b[0] && b[0] != c[0] {
            lemma_chars_lt_transitive(a[0], b[0], c[0]);
            if a[0] == c[0] {
                lemma_chars_lt_asymmetric(a[0], b[0]);
            }
        }
    }
}

pub proof fn lemma_parts_lt_asymmetric(a: Seq<Seq<char>>, b: Seq<Seq<char>>)
    requires
        parts_lt(a, b),
    ensures
        !parts_lt(b, a),
    decreases a.len(),
{
    if a.len() > 0 && b.len() > 0 {
        if a[0] == b[0] {
            lemma_parts_lt_asymmetric(a.drop_first(), b.drop_first());
        } else {
            lemma_chars_lt_asymmetric(a[0], b[0]);
        }
    }
}

pub proof fn lemma_key_lt_transitive(a: Seq<Seq<char>>, b: Seq<Seq<char>>, c: Seq<Seq<char>>)
    requires
        key_lt(a, b),
        key_lt(b, c),
    ensures
        key_lt(a, c),
{
    if a.len() == b.len() && b.len() == c.len() {
        lemma_parts_lt_transitive(a, b, c);
    }
}

proof fn lemma_key_lt_irreflexive(a: Seq<Seq<char>>)
    ensures
        !key_lt(a, a),
    decreases a.len(),
{
    if a.len() > 0 {
        lemma_key_lt_irreflexive(a.drop_first());
    }
}

pub proof fn lemma_key_lt_asymmetric(a: Seq<Seq<char>>, b: Seq<Seq<char>>)
    requires
        key_lt(a, b),
    ensures
        !key_lt(b, a),
{
    if a.len() == b.len() {
        lemma_parts_lt_asymmetric(a, b);
    }
}

/// Whether `a` comes before `b` in `chars_lt` order.
pub fn str_less(a: &str, b: &str) -> (r: bool)
    ensures
        r == chars_lt(a@, b@),
{
    let x = text::chars_of(a);
    let y = text::chars_of(b);
    let mut i: usize = 0;
    proof {
        assert(x@.skip(0) =~= x@);
        assert(y@.skip(0) =~= y@);
    }
    while i < x.len() && i < y.len() && x[i] == y[i]
        invariant
            i <= x.len(),
            i <= y.len(),
            x@ == a@,
            y@ == b@,
            chars_lt(a@, b@) == chars_lt(x@.skip(i as int), y@.skip(i as int)),
        decreases x.len() - i,
    {
        proof {
            assert(x@.skip(i as int).drop_first() =~= x@.skip(i + 1));
            assert(y@.skip(i as int).drop_first() =~= y@.skip(i + 1));
        }
        i += 1;
    }
    proof {
        if i < x.len() && i < y.len() {
            assert(x@.skip(i as int)[0] == x@[i as int]);
            assert(y@.skip(i as int)[0] == y@[i as int]);
        }
    }
    if i == x.len() {
        i < y.len()
    } else if i == y.len() {
        false
    } else {
        (x[i] as u32) < (y[i] as u32)
    }
}

/// Whether key `a` comes before key `b` in `key_lt` order.
pub fn key_less(a: &Vec<String>, b: &Vec<String>) -> (r: bool)
    ensures
        r == key_lt(text::strings_view(a@), text::strings_view(b@)),
{
    let ghost av = text::strings_view(a@);
    let ghost bv = text::strings_view(b@);
    if a.len() != b.len() {
        return a.len() < b.len();
    }
    let mut i: usize = 0;
    proof {
        assert(av.skip(0) =~= av);
        assert(bv.skip(0) =~= bv);
    }
    while i < a.len() && text::str_eq(a[i].as_str(), b[i].as_str())
        invariant
            i <= a.len(),
            a.len() == b.len(),
            av == text::strings_view(a@),
            bv == text::strings_view(b@),
            parts_lt(av, bv) == parts_lt(av.skip(i as int), bv.skip(i as int)),
        decreases a.len() - i,
    {
        proof {
            assert(av.skip(i as int).drop_first() =~= av.skip(i + 1));
            assert(bv.skip(i as int).drop_first() =~= bv.skip(i + 1));
            assert(av[i as int] == bv[i as int]);
        }
        i += 1;
    }
    if i == a.len() {
        false
    } else {
        proof {
            assert(av.skip(i as int)[0] == av[i as int]);
            assert(bv.skip(i as int)[0] == bv[i as int]);
        }
        str_less(a[i].as_str(), b[i].as_str())
    }
}

/// A keyed item as plain values: its key's parts and the item.
pub open spec fn keyed_view<T>(p: (Vec<String>, T)) -> (Seq<Seq<char>>, T) {
    (text::strings_view(p.0@), p.1)
}

pub open spec fn keyed_views<T>(v: Seq<(Vec<String>, T)>) -> Seq<(Seq<Seq<char>>, T)> {
    v.map_values(|p: (Vec<String>, T)| keyed_view(p))
}

/// No item has a smaller key than one before it.
pub open spec fn sorted_by_key<T>(s: Seq<(Seq<Seq<char>>, T)>) -> bool {
    forall|i: int, j: int| 0 <= i < j < s.len() ==> !key_lt(#[trigger] s[j].0, #[trigger] s[i].0)
}

proof fn lemma_insert_sorted<T>(s: Seq<(Seq<Seq<char>>, T)>, p: int, x: (Seq<Seq<char>>, T))
    requires
        sorted_by_key(s),
        0 <= p <= s.len(),
        forall|m: int| 0 <= m < p ==> !key_lt(x.0, #[trigger] s[m].0),
        p < s.len() ==> key_lt(x.0, s[p].0),
    ensures
        sorted_by_key(s.insert(p, x)),
{
    let t = s.insert(p, x);
    assert forall|i: int, j: int| 0 <= i < j < t.len() implies !key_lt(#[trigger] t[j].0, #[trigger] t[i].0) by {
        if j == p {
            assert(t[i] == s[i]);
        } else if i == p {
            assert(t[j] == s[j - 1]);
            if key_lt(s[j - 1].0, x.0) {
                if j - 1 > p {
                    assert(!key_lt(s[j - 1].0, s[p].0));
                    lemma_key_lt_transitive(s[j - 1].0, x.0, s[p].0);
                } else {
                    lemma_key_lt_asymmetric(x.0, s[p].0);
                }
            }
        } else {
            let si = if i < p { i } else { i - 1 };
            let sj = if j < p { j } else { j - 1 };
            assert(t[i] == s[si]);
            assert(t[j] == s[sj]);
        }
    }
}

/// The items of `s` whose key is `k`, in their order in `s`.
pub open spec fn with_key<T>(s: Seq<(Seq<Seq<char>>, T)>, k: Seq<Seq<char>>) -> Seq<
    (Seq<Seq<char>>, T),
>
    decreases s.len(),
{
    if s.len() == 0 {
        Seq::empty()
    } else if s.last().0 == k {
        with_key(s.drop_last(), k).push(s.last())
    } else {
        with_key(s.drop_last(), k)
    }
}

proof fn lemma_with_key_add<T>(a: Seq<(Seq<Seq<char>>, T)>, b: Seq<(Seq<Seq<char>>, T)>, k: Seq<Seq<char>>)
    ensures
        with_key(a + b, k) == with_key(a, k) + with_key(b, k),
    decreases b.len(),
{
    if b.len() == 0 {
        assert(a + b =~= a);
        assert(with_key(a, k) + with_key(b, k) =~= with_key(a, k));
    } else {
        lemma_with_key_add(a, b.drop_last(), k);
        assert((a + b).drop_last() =~= a + b.drop_last());
        assert((a + b).last() == b.last());
        assert(with_key(a, k) + with_key(b.drop_last(), k).push(b.last()) =~= (with_key(a, k)
            + with_key(b.drop_last(), k)).push(b.last()));
    }
}

/// Inserting `x` before the first item whose key is larger than its own,
/// into items in key order, puts it after every item with its key.
proof fn lemma_with_key_insert<T>(s: Seq<(Seq<Seq<char>>, T)>, p: int, x: (Seq<Seq<char>>, T), k: Seq<Seq<char>>)
    requires
        sorted_by_key(s),
        0 <= p <= s.len(),
        p < s.len() ==> key_lt(x.0, s[p].0),
    ensures
        with_key(s.insert(p, x), k) == if x.0 == k {
            with_key(s, k).push(x)
        } else {
            with_key(s, k)
        },
{
    let front = s.take(p);
    let back = s.skip(p);
    assert(s =~= front + back);
    assert(s.insert(p, x) =~= front + seq![x] + back);
    lemma_with_key_add(front, back, k);
    lemma_with_key_add(front + seq![x], back, k);
    lemma_with_key_add(front, seq![x], k);
    lemma_with_key_single(x, k);
    if x.0 == k {
        assert(sorted_by_key(back)) by {
            assert forall|i: int, j: int| 0 <= i < j < back.len() implies !key_lt(#[trigger] back[j].0, #[trigger] back[i].0) by {
                assert(back[i] == s[p + i]);
                assert(back[j] == s[p + j]);
            }
        }
        if back.len() > 0 {
            assert(back[0] == s[p]);
        }
        lemma_with_key_none(back, k, x.0);
        assert(with_key(back, k) =~= Seq::<(Seq<Seq<char>>, T)>::empty());
        assert(with_key(front, k) + seq![x] + with_key(back, k) =~= (with_key(front, k) + with_key(back, k)).push(x));
    } else {
        assert(with_key(front, k) + Seq::<(Seq<Seq<char>>, T)>::empty() =~= with_key(front, k));
    }
}

proof fn lemma_with_key_single<T>(x: (Seq<Seq<char>>, T), k: Seq<Seq<char>>)
    ensures
        with_key(seq![x], k) == if x.0 == k {
            seq![x]
        } else {
            Seq::<(Seq<Seq<char>>, T)>::empty()
        },
{
    let e = Seq::<(Seq<Seq<char>>, T)>::empty();
    assert(with_key(e, k) == e);
    assert(seq![x].drop_last() == e);
    assert(seq![x].last() == x);
    assert(e.push(x) =~= seq![x]);
}

/// No item after position `p` of items in key order has a key that is
/// smaller than the key at `p`; so none has a key below which that one is.
proof fn lemma_with_key_none<T>(back: Seq<(Seq<Seq<char>>, T)>, k: Seq<Seq<char>>, x: Seq<Seq<char>>)
    requires
        sorted_by_key(back),
        k == x,
        back.len() > 0 ==> key_lt(x, back[0].0),
    ensures
        with_key(back, k).len() == 0,
    decreases back.len(),
{
    if back.len() > 0 {
        let rest = back.drop_last();
        assert(sorted_by_key(rest)) by {
            assert forall|i: int, j: int| 0 <= i < j < rest.len() implies !key_lt(#[trigger] rest[j].0, #[trigger] rest[i].0) by {
                assert(rest[i] == back[i]);
                assert(rest[j] == back[j]);
            }
        }
        if rest.len() > 0 {
            assert(rest[0] == back[0]);
        }
        lemma_with_key_none(rest, k, x);
        if back.last().0 == k {
            if back.len() == 1 {
                lemma_key_lt_irreflexive(x);
            } else {
                assert(!key_lt(back[back.len() - 1].0, back[0].0));
            }
        }
    }
}

/// The items in key order (an insertion sort). The result holds the same
/// items, as many times each, and items with the same key keep their order.
pub fn sort_by_parts<T>(items: Vec<(Vec<String>, T)>) -> (r: Vec<(Vec<String>, T)>)
    ensures
        keyed_views(r@).to_multiset() == keyed_views(items@).to_multiset(),
        sorted_by_key(keyed_views(r@)),
        forall|k: Seq<Seq<char>>| #[trigger] with_key(keyed_views(r@), k) == with_key(keyed_views(items@), k),
{
    broadcast use vstd::seq_lib::group_to_multiset_ensures, vstd::multiset::group_multiset_axioms;

    let ghost all = keyed_views(items@);
    let mut rest = items;
    let mut out: Vec<(Vec<String>, T)> = Vec::new();
    proof {
        assert(keyed_views(out@) =~= Seq::<(Seq<Seq<char>>, T)>::empty());
    }
    while rest.len() > 0
        invariant
            keyed_views(out@).to_multiset().add(keyed_views(rest@).to_multiset()) == all.to_multiset(),
            sorted_by_key(keyed_views(out@)),
            forall|k: Seq<Seq<char>>| #[trigger] with_key(all, k) == with_key(keyed_views(out@), k) + with_key(keyed_views(rest@), k),
        decreases rest.len(),
    {
        let ghost rv = keyed_views(rest@);
        let x = rest.remove(0);
        proof {
            assert(keyed_views(rest@) =~= rv.remove(0));
            assert(rv[0] == keyed_view(x));
        }
        let mut p: usize = 0;
        while p < out.len() && !key_less(&x.0, &out[p].0)
            invariant
                p <= out.len(),
                forall|m: int| 0 <= m < p ==> !key_lt(keyed_view(x).0, #[trigger] keyed_views(out@)[m].0),
            decreases out.len() - p,
        {
            p += 1;
        }
        let ghost ov = keyed_views(out@);
        proof {
            lemma_insert_sorted(ov, p as int, keyed_view(x));
        }
        out.insert(p, x);
        proof {
            assert(keyed_views(out@) =~= ov.insert(p as int, keyed_view(x)));
            let xv = keyed_view(x);
            let rr = keyed_views(rest@);
            assert(rv =~= seq![xv] + rr);
            assert forall|k: Seq<Seq<char>>| #[trigger] with_key(all, k) == with_key(keyed_views(out@), k) + with_key(rr, k) by {
                lemma_with_key_insert(ov, p as int, xv, k);
                lemma_with_key_add(seq![xv], rr, k);
                lemma_with_key_single(xv, k);
                if xv.0 == k {
                    assert(with_key(ov, k).push(xv) + with_key(rr, k) =~= with_key(ov, k) + (seq![xv] + with_key(rr, k)));
                } else {
                    assert(Seq::<(Seq<Seq<char>>, T)>::empty() + with_key(rr, k) =~= with_key(rr, k));
                }
            }
            vstd::seq_lib::to_multiset_insert(ov, p as int, keyed_view(x));
            vstd::seq_lib::to_multiset_remove(rv, 0);
            assert(rv.contains(rv[0]));
            vstd::seq_lib::to_multiset_contains(rv, rv[0]);
            assert(keyed_views(out@).to_multiset().add(keyed_views(rest@).to_multiset())
                =~= ov.to_multiset().add(rv.to_multiset()));
        }
    }
    proof {
        assert(keyed_views(rest@) =~= Seq::<(Seq<Seq<char>>, T)>::empty());
        assert(keyed_views(out@).to_multiset() =~= all.to_multiset());
        assert forall|k: Seq<Seq<char>>| #[trigger] with_key(keyed_views(out@), k) == with_key(all, k) by {
            assert(with_key(keyed_views(out@), k) + with_key(keyed_views(rest@), k) =~= with_key(keyed_views(out@), k));
        }
    }
    out
}


/// Mapping two sequences with the same items, as many times each, gives
/// sequences with the same items.
pub proof fn lemma_map_multiset<A, B>(a: Seq<A>, b: Seq<A>, f: spec_fn(A) -> B)
    requires
        a.to_multiset() == b.to_multiset(),
    ensures
        a.map_values(f).to_multiset() == b.map_values(f).to_multiset(),
    decreases a.len(),
{
    broadcast use vstd::seq_lib::group_to_multiset_ensures, vstd::multiset::group_multiset_axioms;

    if a.len() == 0 {
        assert(b.to_multiset().len() == 0);
        assert(b.len() == 0);
        assert(a.map_values(f) =~= b.map_values(f));
    } else {
        let x = a.last();
        let a0 = a.drop_last();
        assert(a =~= a0.push(x));
        assert(a.to_multiset() == a0.to_multiset().insert(x));
        vstd::seq_lib::to_multiset_contains(b, x);
        assert(b.to_multiset().count(x) > 0);
        let k = b.index_of(x);
        vstd::seq_lib::to_multiset_remove(b, k);
        assert(b.remove(k).to_multiset() =~= a0.to_multiset());
        lemma_map_multiset(a0, b.remove(k), f);
        assert(a.map_values(f) =~= a0.map_values(f).push(f(x)));
        assert(b.remove(k).map_values(f) =~= b.map_values(f).remove(k));
        vstd::seq_lib::to_multiset_remove(b.map_values(f), k);
        vstd::seq_lib::to_multiset_contains(b.map_values(f), f(x));
        assert(b.map_values(f)[k] == f(x));
        assert(b.map_values(f).contains(f(x)));
        assert(a.map_values(f).to_multiset() =~= b.map_values(f).to_multiset());
    }
}

} // verus!
