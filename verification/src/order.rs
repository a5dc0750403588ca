//! Lexicographic order of strings (the order of `String`'s `Ord`, since UTF-8 keeps
//! code point order), sorted string lists, and sorted sets of strings.
use vstd::prelude::*;
use crate::text::chars_of;
use vstd::multiset::Multiset;

verus! {

/// `a` sorts strictly before `b`: at the first difference `a` has the smaller
/// character, or `a` is a proper prefix of `b`.
pub open spec fn lex_lt(a: Seq<char>, b: Seq<char>) -> bool
    decreases a.len(),
{
    if a.len() == 0 {
        b.len() > 0
    } else if b.len() == 0 {
        false
    } else if a[0] != b[0] {
        a[0] < b[0]
    } else {
        lex_lt(a.drop_first(), b.drop_first())
    }
}

pub open spec fn lex_le(a: Seq<char>, b: Seq<char>) -> bool {
    lex_lt(a, b) || a == b
}

pub proof fn lemma_lex_irrefl(a: Seq<char>)
    ensures
        !lex_lt(a, a),
    decreases a.len(),
{
    if a.len() > 0 {
        lemma_lex_irrefl(a.drop_first());
    }
}

pub proof fn lemma_lex_trans(a: Seq<char>, b: Seq<char>, c: Seq<char>)
    requires
        lex_lt(a, b),
        lex_lt(b, c),
    ensures
        lex_lt(a, c),
    decreases a.len(),
{
    if a.len() > 0 && b.len() > 0 && c.len() > 0 {
        if a[0] == b[0] && b[0] == c[0] {
            lemma_lex_trans(a.drop_first(), b.drop_first(), c.drop_first());
        }
    }
}

pub proof fn lemma_lex_total(a: Seq<char>, b: Seq<char>)
    ensures
        lex_lt(a, b) || lex_lt(b, a) || a == b,
    decreases a.len(),
{
    if a.len() > 0 && b.len() > 0 && a[0] == b[0] {
        lemma_lex_total(a.drop_first(), b.drop_first());
        if a.drop_first() == b.drop_first() {
            assert(a =~= seq![a[0]] + a.drop_first());
            assert(b =~= seq![b[0]] + b.drop_first());
        }
    } else if a.len() == 0 && b.len() == 0 {
        assert(a =~= b);
    }
}

/// Strictly increasing: sorted with no repeats.
pub open spec fn strictly_sorted(s: Seq<Seq<char>>) -> bool {
    forall|i: int, j: int| 0 <= i < j < s.len() ==> lex_lt(#[trigger] s[i], #[trigger] s[j])
}

/// Non-decreasing.
pub open spec fn sorted(s: Seq<Seq<char>>) -> bool {
    forall|i: int, j: int| 0 <= i < j < s.len() ==> lex_le(#[trigger] s[i], #[trigger] s[j])
}

pub open spec fn views(v: Seq<String>) -> Seq<Seq<char>> {
    v.map_values(|s: String| s@)
}

/// Does `a` sort strictly before `b`?
pub fn less_than(a: &str, b: &str) -> (r: bool)
    ensures
        r == lex_lt(a@, b@),
{
    let av = chars_of(a);
    let bv = chars_of(b);
    let mut i: usize = 0;
    assert(av@.skip(0) =~= av@);
    assert(bv@.skip(0) =~= bv@);
    while i < av.len() && i < bv.len() && av[i] == bv[i]
        invariant
            i <= av@.len(),
            i <= bv@.len(),
            av@ == a@,
            bv@ == b@,
            av@.take(i as int) == bv@.take(i as int),
            lex_lt(a@, b@) == lex_lt(av@.skip(i as int), bv@.skip(i as int)),
        decreases av.len() - i,
    {
        assert(av@.skip(i as int).drop_first() =~= av@.skip(i + 1));
        assert(bv@.skip(i as int).drop_first() =~= bv@.skip(i + 1));
        assert(av@.take(i + 1) =~= av@.take(i as int).push(av@[i as int]));
        assert(bv@.take(i + 1) =~= bv@.take(i as int).push(bv@[i as int]));
        i = i + 1;
    }
    if i == av.len() {
        i < bv.len()
    } else if i == bv.len() {
        false
    } else {
        av[i] < bv[i]
    }
}

/// Inserts `s` into a strictly sorted list unless it is already there.
pub fn insert_sorted(v: &mut Vec<String>, s: String)
    requires
        strictly_sorted(views(old(v)@)),
    ensures
        strictly_sorted(views(final(v)@)),
        views(final(v)@).to_set() == views(old(v)@).to_set().insert(s@),
        views(old(v)@).contains(s@) ==> final(v)@.len() == old(v)@.len(),
        !views(old(v)@).contains(s@) ==> final(v)@.len() == old(v)@.len() + 1,
{
    let ghost old_v = views(v@);
    let mut i: usize = 0;
    while i < v.len() && less_than(v[i].as_str(), s.as_str())
        invariant
            i <= v@.len(),
            views(v@) == old_v,
            strictly_sorted(old_v),
            forall|k: int| 0 <= k < i ==> lex_lt(#[trigger] old_v[k], s@),
        decreases v.len() - i,
    {
        i = i + 1;
    }
    if i < v.len() && crate::text::str_eq(v[i].as_str(), s.as_str()) {
        assert(old_v.contains(s@)) by {
            assert(old_v[i as int] == s@);
        }
        assert(old_v.to_set() =~= old_v.to_set().insert(s@));
        return;
    }
    proof {
        if i < old_v.len() {
            lemma_lex_total(old_v[i as int], s@);
        }
        assert forall|k: int| i <= k < old_v.len() implies lex_lt(s@, #[trigger] old_v[k]) by {
            if k > i {
                lemma_lex_trans(s@, old_v[i as int], old_v[k]);
            }
        }
        assert(!old_v.contains(s@)) by {
            if old_v.contains(s@) {
                let k = choose|k: int| 0 <= k < old_v.len() && old_v[k] == s@;
                if k < i {
                    lemma_lex_irrefl(s@);
                } else {
                    lemma_lex_irrefl(s@);
                }
            }
        }
    }
    let ghost sv = s@;
    v.insert(i, s);
    proof {
        let nv = views(v@);
        assert(nv =~= old_v.take(i as int).push(sv) + old_v.skip(i as int));
        assert forall|a: int, b: int| 0 <= a < b < nv.len() implies lex_lt(#[trigger] nv[a], #[trigger] nv[b]) by {
            if a < i && b < i {
            } else if a < i && b == i {
            } else if a < i && b > i {
                assert(nv[b] == old_v[b - 1]);
                lemma_lex_trans(old_v[a], sv, old_v[b - 1]);
            } else if a == i {
                assert(nv[b] == old_v[b - 1]);
            } else {
                assert(nv[a] == old_v[a - 1]);
                assert(nv[b] == old_v[b - 1]);
            }
        }
        assert(nv.to_set() =~= old_v.to_set().insert(sv)) by {
            assert forall|x: Seq<char>| nv.to_set().contains(x) <==> old_v.to_set().insert(sv).contains(x) by {
                if nv.contains(x) {
                    let k = choose|k: int| 0 <= k < nv.len() && nv[k] == x;
                    if k < i {
                        assert(old_v[k] == x);
                    } else if k > i {
                        assert(old_v[k - 1] == x);
                    }
                }
                if old_v.contains(x) {
                    let k = choose|k: int| 0 <= k < old_v.len() && old_v[k] == x;
                    if k < i {
                        assert(nv[k] == x);
                    } else {
                        assert(nv[k + 1] == x);
                    }
                }
                if x == sv {
                    assert(nv[i as int] == x);
                }
            }
        }
    }
}

/// Sorts strings ascending (insertion sort).
pub fn sort_strings(v: Vec<String>) -> (r: Vec<String>)
    ensures
        sorted(views(r@)),
        views(r@).to_multiset() == views(v@).to_multiset(),
        r@.len() == v@.len(),
{
    let mut out: Vec<String> = Vec::new();
    let mut rest = v;
    let ghost orig = views(rest@);
    proof {
        let e = views(out@);
        assert(e =~= Seq::<Seq<char>>::empty());
        e.to_multiset_ensures();
        assert(e.to_multiset() =~= Multiset::empty());
        assert(Multiset::<Seq<char>>::empty().add(orig.to_multiset()) =~= orig.to_multiset());
    }
    while rest.len() > 0
        invariant
            sorted(views(out@)),
            views(out@).to_multiset().add(views(rest@).to_multiset()) == orig.to_multiset(),
            out@.len() + rest@.len() == orig.len(),
        decreases rest.len(),
    {
        let ghost before_rest = views(rest@);
        let s = rest.pop().unwrap();
        proof {
            assert(before_rest =~= views(rest@).push(s@));
            before_rest.to_multiset_ensures();
            views(rest@).to_multiset_ensures();
            assert(before_rest.drop_last() =~= views(rest@));
        }
        let ghost before_out = views(out@);
        let mut i: usize = 0;
        while i < out.len() && !less_than(s.as_str(), out[i].as_str())
            invariant
                i <= out@.len(),
                views(out@) == before_out,
                sorted(before_out),
                forall|k: int| 0 <= k < i ==> lex_le(#[trigger] before_out[k], s@),
            decreases out.len() - i,
        {
            proof {
                lemma_lex_total(s@, before_out[i as int]);
            }
            i = i + 1;
        }
        let ghost sv = s@;
        out.insert(i, s);
        proof {
            let nv = views(out@);
            assert(nv =~= before_out.take(i as int).push(sv) + before_out.skip(i as int));
            assert forall|a: int, b: int| 0 <= a < b < nv.len() implies lex_le(#[trigger] nv[a], #[trigger] nv[b]) by {
                if a < i && b > i {
                    assert(nv[b] == before_out[b - 1]);
                    if lex_lt(before_out[a], sv) && lex_lt(sv, before_out[i as int]) {
                        lemma_lex_trans(before_out[a], sv, before_out[i as int]);
                    }
                    if i < before_out.len() {
                        assert(lex_lt(sv, before_out[i as int]));
                        if b - 1 > i {
                            assert(lex_le(before_out[i as int], before_out[b - 1]));
                            if lex_lt(before_out[i as int], before_out[b - 1]) {
                                lemma_lex_trans(sv, before_out[i as int], before_out[b - 1]);
                            }
                        }
                        if lex_lt(before_out[a], sv) {
                            lemma_lex_trans(before_out[a], sv, before_out[b - 1]);
                        }
                    }
                } else if a == i && b > i {
                    assert(nv[b] == before_out[b - 1]);
                    assert(lex_lt(sv, before_out[i as int]));
                    if b - 1 > i {
                        if lex_lt(before_out[i as int], before_out[b - 1]) {
                            lemma_lex_trans(sv, before_out[i as int], before_out[b - 1]);
                        }
                    }
                } else if a > i {
                    assert(nv[a] == before_out[a - 1]);
                    assert(nv[b] == before_out[b - 1]);
                }
            }
            assert(nv.to_multiset() =~= before_out.to_multiset().insert(sv)) by {
                let left = before_out.take(i as int);
                let right = before_out.skip(i as int);
                assert(before_out =~= left + right);
                vstd::seq_lib::lemma_multiset_commutative(left.push(sv), right);
                vstd::seq_lib::lemma_multiset_commutative(left, right);
                left.to_multiset_ensures();
            }
        }
    }
    proof {
        views(rest@).to_multiset_ensures();
        assert(views(rest@) =~= Seq::<Seq<char>>::empty());
        assert(views(rest@).to_multiset() =~= Multiset::empty());
        assert(views(out@).to_multiset().add(Multiset::empty()) =~= views(out@).to_multiset());
    }
    out
}

} // verus!
