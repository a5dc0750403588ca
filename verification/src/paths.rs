//! Paths as text, joined the way `std::path::Path::join` joins them on Unix, and
//! ordered the way `std::path::Path` orders them: component by component.
use vstd::prelude::*;
use vstd::multiset::Multiset;
use crate::order::{lemma_lex_irrefl, lemma_lex_total, lemma_lex_trans, lex_lt, less_than};
use crate::text::{cat, cat3, chars_of, split_char, split_chars, str_eq, string_of, strs};

verus! {

/// `Path::join` on Unix: an absolute `p` replaces `base`; otherwise `p` is appended,
/// with a `'/'` in between unless `base` is empty or already ends with one.
pub open spec fn path_join(base: Seq<char>, p: Seq<char>) -> Seq<char> {
    if p.len() > 0 && p[0] == '/' {
        p
    } else if base.len() == 0 || base.last() == '/' {
        base + p
    } else {
        base + seq!['/'] + p
    }
}

pub fn join(base: &str, p: &str) -> (r: String)
    ensures
        r@ == path_join(base@, p@),
{
    let pv = chars_of(p);
    if pv.len() > 0 && pv[0] == '/' {
        return p.to_owned();
    }
    let bv = chars_of(base);
    if bv.len() == 0 || bv[bv.len() - 1] == '/' {
        cat(base, p)
    } else {
        proof {
            reveal_strlit("/");
        }
        cat3(base, "/", p)
    }
}

/// A path is absolute when it starts at the root.
pub open spec fn is_absolute(p: Seq<char>) -> bool {
    p.len() > 0 && p[0] == '/'
}

pub fn absolute(p: &str) -> (r: bool)
    ensures
        r == is_absolute(p@),
{
    let v = chars_of(p);
    v.len() > 0 && v[0] == '/'
}


// ---------------------------------------------------------------------------
// Order
// ---------------------------------------------------------------------------

/// The pieces of a split path that name a component: not empty (repeated or trailing
/// separators) and not `.`.
pub open spec fn kept_parts(ps: Seq<Seq<char>>) -> Seq<Seq<char>>
    decreases ps.len(),
{
    if ps.len() == 0 {
        Seq::empty()
    } else {
        kept_parts(ps.drop_last()) + if ps.last().len() > 0 && ps.last() != "."@ {
            seq![ps.last()]
        } else {
            Seq::empty()
        }
    }
}

/// Splitting `s + t` where `t` holds no separator: `t` extends the last piece of `s`.
proof fn lemma_split_append_plain(s: Seq<char>, t: Seq<char>, c: char)
    requires
        forall|i: int| 0 <= i < t.len() ==> t[i] != c,
    ensures
        split_char(s + t, c) == split_char(s, c).update(
            split_char(s, c).len() - 1,
            split_char(s, c).last() + t,
        ),
    decreases t.len(),
{
    crate::text::lemma_split_char_nonempty(s, c);
    let p = split_char(s, c);
    if t.len() == 0 {
        assert(s + t =~= s);
        assert(p.last() + t =~= p.last());
        assert(p.update(p.len() - 1, p.last() + t) =~= p);
    } else {
        let t0 = t.drop_last();
        lemma_split_append_plain(s, t0, c);
        assert((s + t).drop_last() =~= s + t0);
        assert((s + t).last() == t.last());
        let q = split_char(s + t0, c);
        assert(q =~= p.update(p.len() - 1, p.last() + t0));
        assert((p.last() + t0).push(t.last()) =~= p.last() + t);
        assert(q.update(q.len() - 1, q.last().push(t.last())) =~= p.update(p.len() - 1, p.last() + t));
    }
}

/// Joining a single component `name` onto any path adds exactly that component: the
/// result ends with `name`, and its components are those of `base` followed by `name`
/// (so its parent is `base`).
pub proof fn law_join_one_component(base: Seq<char>, name: Seq<char>)
    requires
        name.len() > 0,
        name != "."@,
        forall|i: int| 0 <= i < name.len() ==> name[i] != '/',
    ensures
        crate::text::ends_with(path_join(base, name), name),
        path_components(path_join(base, name)) == path_components(base).push(name),
{
    let j = path_join(base, name);
    assert(!(name.len() > 0 && name[0] == '/'));
    if base.len() == 0 {
        assert(j =~= base + name);
        lemma_split_append_plain(base, name, '/');
        assert(split_char(base, '/') =~= seq![Seq::<char>::empty()]);
        assert(split_char(j, '/') =~= seq![name]);
        assert(seq![name].drop_last() =~= Seq::<Seq<char>>::empty());
        assert(seq![Seq::<char>::empty()].drop_last() =~= Seq::<Seq<char>>::empty());
        assert(kept_parts(Seq::<Seq<char>>::empty()) =~= Seq::<Seq<char>>::empty());
        assert(kept_parts(seq![Seq::<char>::empty()]) =~= Seq::<Seq<char>>::empty());
        assert(kept_parts(split_char(base, '/')) =~= Seq::<Seq<char>>::empty());
        assert(kept_parts(seq![name]) =~= seq![name]);
        assert(path_components(j) =~= seq![name]);
    } else if base.last() == '/' {
        assert(j =~= base + name);
        lemma_split_append_plain(base, name, '/');
        let b0 = base.drop_last();
        assert(b0.push('/') =~= base);
        let p0 = split_char(b0, '/');
        assert(split_char(base, '/') == p0.push(Seq::<char>::empty()));
        assert(Seq::<char>::empty() + name =~= name);
        assert(split_char(j, '/') =~= p0.push(name));
        assert(p0.push(name).drop_last() =~= p0);
        assert(p0.push(Seq::<char>::empty()).drop_last() =~= p0);
        assert(kept_parts(split_char(base, '/')) =~= kept_parts(p0) + Seq::<Seq<char>>::empty());
    } else {
        let bs = base.push('/');
        assert(j =~= bs + name);
        lemma_split_append_plain(bs, name, '/');
        assert(bs.drop_last() =~= base);
        let p0 = split_char(base, '/');
        assert(split_char(bs, '/') == p0.push(Seq::<char>::empty()));
        assert(Seq::<char>::empty() + name =~= name);
        assert(split_char(j, '/') =~= p0.push(name));
        assert(p0.push(name).drop_last() =~= p0);
    }
    assert(j.skip(j.len() - name.len()) =~= name);
}

/// The named components of a path, in order. Whether a path is absolute is not part
/// of this: paths compared here are either all absolute or all relative.
pub open spec fn path_components(p: Seq<char>) -> Seq<Seq<char>> {
    kept_parts(split_char(p, '/'))
}

/// Lexicographic order of component lists, each component ordered as text.
pub open spec fn comps_lt(a: Seq<Seq<char>>, b: Seq<Seq<char>>) -> bool
    decreases a.len(),
{
    if a.len() == 0 {
        b.len() > 0
    } else if b.len() == 0 {
        false
    } else if a[0] != b[0] {
        lex_lt(a[0], b[0])
    } else {
        comps_lt(a.drop_first(), b.drop_first())
    }
}

/// `a` sorts strictly before `b` as a path.
pub open spec fn path_lt(a: Seq<char>, b: Seq<char>) -> bool {
    comps_lt(path_components(a), path_components(b))
}

pub proof fn lemma_comps_irrefl(a: Seq<Seq<char>>)
    ensures
        !comps_lt(a, a),
    decreases a.len(),
{
    if a.len() > 0 {
        lemma_comps_irrefl(a.drop_first());
    }
}

pub proof fn lemma_comps_trans(a: Seq<Seq<char>>, b: Seq<Seq<char>>, c: Seq<Seq<char>>)
    requires
        comps_lt(a, b),
        comps_lt(b, c),
    ensures
        comps_lt(a, c),
    decreases a.len(),
{
    if a.len() > 0 && b.len() > 0 && c.len() > 0 {
        if a[0] == b[0] && b[0] == c[0] {
            lemma_comps_trans(a.drop_first(), b.drop_first(), c.drop_first());
        } else if a[0] != b[0] && b[0] != c[0] {
            lemma_lex_trans(a[0], b[0], c[0]);
            if a[0] == c[0] {
                lemma_lex_irrefl(a[0]);
            }
        }
    }
}

pub proof fn lemma_comps_total(a: Seq<Seq<char>>, b: Seq<Seq<char>>)
    ensures
        comps_lt(a, b) || comps_lt(b, a) || a == b,
    decreases a.len(),
{
    if a.len() > 0 && b.len() > 0 {
        if a[0] == b[0] {
            lemma_comps_total(a.drop_first(), b.drop_first());
            if a.drop_first() == b.drop_first() {
                assert(a =~= seq![a[0]] + a.drop_first());
                assert(b =~= seq![b[0]] + b.drop_first());
            }
        } else {
            lemma_lex_total(a[0], b[0]);
        }
    } else if a.len() == 0 && b.len() == 0 {
        assert(a =~= b);
    }
}

/// `a` may come before `b` in a sorted list of paths.
pub open spec fn path_le(a: Seq<char>, b: Seq<char>) -> bool {
    !path_lt(b, a)
}

/// Sorted as paths (ties, which name the same components, in any order).
pub open spec fn paths_sorted(s: Seq<Seq<char>>) -> bool {
    forall|i: int, j: int| 0 <= i < j < s.len() ==> path_le(#[trigger] s[i], #[trigger] s[j])
}

pub proof fn lemma_path_le_trans(a: Seq<char>, b: Seq<char>, c: Seq<char>)
    requires
        path_le(a, b),
        path_le(b, c),
    ensures
        path_le(a, c),
{
    let (ca, cb, cc) = (path_components(a), path_components(b), path_components(c));
    if comps_lt(cc, ca) {
        lemma_comps_total(ca, cb);
        if comps_lt(ca, cb) {
            lemma_comps_trans(cc, ca, cb);
        }
    }
}

pub proof fn lemma_path_le_total(a: Seq<char>, b: Seq<char>)
    ensures
        path_le(a, b) || path_le(b, a),
{
    let (ca, cb) = (path_components(a), path_components(b));
    lemma_comps_total(ca, cb);
    if comps_lt(ca, cb) && comps_lt(cb, ca) {
        lemma_comps_trans(ca, cb, ca);
        lemma_comps_irrefl(ca);
    }
}

/// The named components of a path.
pub fn components(p: &str) -> (r: Vec<String>)
    ensures
        strs(r@) == path_components(p@),
{
    let cs = chars_of(p);
    let parts = split_chars(&cs, '/');
    let ghost ps = split_char(p@, '/');
    let mut out: Vec<String> = Vec::new();
    let mut i: usize = 0;
    while i < parts.len()
        invariant
            i <= parts@.len(),
            parts@.len() == ps.len(),
            forall|k: int| 0 <= k < ps.len() ==> #[trigger] parts@[k]@ == ps[k],
            strs(out@) == kept_parts(ps.take(i as int)),
        decreases parts.len() - i,
    {
        assert(ps.take(i + 1).drop_last() =~= ps.take(i as int));
        assert(ps.take(i + 1).last() == ps[i as int]);
        let piece = string_of(&parts[i]);
        if piece.unicode_len() > 0 && !str_eq(piece.as_str(), ".") {
            let ghost o0 = strs(out@);
            out.push(piece);
            assert(strs(out@) =~= o0 + seq![ps[i as int]]);
        } else {
            assert(strs(out@) =~= strs(out@) + Seq::<Seq<char>>::empty());
        }
        i = i + 1;
    }
    assert(ps.take(ps.len() as int) =~= ps);
    out
}

/// Does `a` sort strictly before `b` as a path?
pub fn path_less(a: &str, b: &str) -> (r: bool)
    ensures
        r == path_lt(a@, b@),
{
    let ca = components(a);
    let cb = components(b);
    let ghost va = strs(ca@);
    let ghost vb = strs(cb@);
    let mut i: usize = 0;
    assert(va.skip(0) =~= va);
    assert(vb.skip(0) =~= vb);
    while i < ca.len() && i < cb.len() && str_eq(ca[i].as_str(), cb[i].as_str())
        invariant
            i <= ca@.len(),
            i <= cb@.len(),
            va == strs(ca@),
            vb == strs(cb@),
            path_lt(a@, b@) == comps_lt(va.skip(i as int), vb.skip(i as int)),
        decreases ca.len() - i,
    {
        assert(va.skip(i as int).drop_first() =~= va.skip(i + 1));
        assert(vb.skip(i as int).drop_first() =~= vb.skip(i + 1));
        assert(va.skip(i as int)[0] == va[i as int]);
        assert(vb.skip(i as int)[0] == vb[i as int]);
        i = i + 1;
    }
    if i == ca.len() {
        i < cb.len()
    } else if i == cb.len() {
        false
    } else {
        assert(va.skip(i as int)[0] == va[i as int]);
        assert(vb.skip(i as int)[0] == vb[i as int]);
        less_than(ca[i].as_str(), cb[i].as_str())
    }
}

/// Sorts paths the way `Path`'s order sorts them (insertion sort).
pub fn sort_paths(v: Vec<String>) -> (r: Vec<String>)
    ensures
        paths_sorted(strs(r@)),
        strs(r@).to_multiset() == strs(v@).to_multiset(),
        r@.len() == v@.len(),
{
    let mut out: Vec<String> = Vec::new();
    let mut rest = v;
    let ghost orig = strs(rest@);
    proof {
        let e = strs(out@);
        assert(e =~= Seq::<Seq<char>>::empty());
        e.to_multiset_ensures();
        assert(e.to_multiset() =~= Multiset::empty());
        assert(Multiset::<Seq<char>>::empty().add(orig.to_multiset()) =~= orig.to_multiset());
    }
    while rest.len() > 0
        invariant
            paths_sorted(strs(out@)),
            strs(out@).to_multiset().add(strs(rest@).to_multiset()) == orig.to_multiset(),
            out@.len() + rest@.len() == orig.len(),
        decreases rest.len(),
    {
        let ghost before_rest = strs(rest@);
        let s = rest.pop().unwrap();
        proof {
            assert(before_rest =~= strs(rest@).push(s@));
            before_rest.to_multiset_ensures();
            strs(rest@).to_multiset_ensures();
        }
        let ghost before_out = strs(out@);
        let mut i: usize = 0;
        while i < out.len() && !path_less(s.as_str(), out[i].as_str())
            invariant
                i <= out@.len(),
                strs(out@) == before_out,
                paths_sorted(before_out),
                forall|k: int| 0 <= k < i ==> path_le(#[trigger] before_out[k], s@),
            decreases out.len() - i,
        {
            i = i + 1;
        }
        let ghost sv = s@;
        out.insert(i, s);
        proof {
            let nv = strs(out@);
            assert(nv =~= before_out.take(i as int).push(sv) + before_out.skip(i as int));
            assert forall|a: int, b: int| 0 <= a < b < nv.len() implies path_le(#[trigger] nv[a], #[trigger] nv[b]) by {
                if a < i && b == i {
                } else if a < i && b > i {
                    assert(nv[b] == before_out[b - 1]);
                    assert(nv[a] == before_out[a]);
                } else if a == i && b > i {
                    assert(nv[b] == before_out[b - 1]);
                    assert(path_lt(sv, before_out[i as int]));
                    lemma_path_le_total(sv, before_out[i as int]);
                    if b - 1 > i {
                        assert(path_le(before_out[i as int], before_out[b - 1]));
                        lemma_path_le_trans(sv, before_out[i as int], before_out[b - 1]);
                    }
                } else if a > i {
                    assert(nv[a] == before_out[a - 1]);
                    assert(nv[b] == before_out[b - 1]);
                }
            }
            assert(nv.to_multiset() =~= before_out.to_multiset().insert(sv)) by {
                let left = before_out.take(i as int);
                let right = before_out.skip(i as int);
                assert(before_out =~= left + right);
                vstd::seq_lib::lemma_multiset_commutative(left.push(sv), right);
                vstd::seq_lib::lemma_multiset_commutative(left, right);
                left.to_multiset_ensures();
            }
        }
    }
    proof {
        strs(rest@).to_multiset_ensures();
        assert(strs(rest@) =~= Seq::<Seq<char>>::empty());
        assert(strs(rest@).to_multiset() =~= Multiset::empty());
        assert(strs(out@).to_multiset().add(Multiset::empty()) =~= strs(out@).to_multiset());
    }
    out
}

} // verus!
