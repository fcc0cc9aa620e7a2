//! Ordered sets of strings, held as strictly increasing vectors (the order
//! of `String`'s `Ord`: lexicographic by character).
use vstd::prelude::*;
use crate::text::chars_of;

verus! {

/// `a` comes strictly before `b` in lexicographic order.
pub open spec fn seq_lt(a: Seq<char>, b: Seq<char>) -> bool
    decreases a.len(),
{
    if a.len() == 0 {
        b.len() > 0
    } else if b.len() == 0 {
        false
    } else if a[0] != b[0] {
        (a[0] as int) < (b[0] as int)
    } else {
        seq_lt(a.drop_first(), b.drop_first())
    }
}

/// Strictly increasing, hence without repetition.
pub open spec fn sorted_unique(v: Seq<Seq<char>>) -> bool {
    forall|i: int, j: int| 0 <= i < j < v.len() ==> seq_lt(#[trigger] v[i], #[trigger] v[j])
}

/// The characters of each string.
pub open spec fn strs_view(v: Seq<String>) -> Seq<Seq<char>> {
    Seq::new(v.len(), |i: int| v[i]@)
}

/// No string comes before itself.
pub proof fn lemma_lt_irreflexive(a: Seq<char>)
    ensures
        !seq_lt(a, a),
    decreases a.len(),
{
    if a.len() > 0 {
        lemma_lt_irreflexive(a.drop_first());
    }
}

/// Of two different strings, one comes before the other.
pub proof fn lemma_lt_total(a: Seq<char>, b: Seq<char>)
    ensures
        a == b || seq_lt(a, b) || seq_lt(b, a),
    decreases a.len(),
{
    if a.len() > 0 && b.len() > 0 && a[0] == b[0] {
        lemma_lt_total(a.drop_first(), b.drop_first());
        if a.drop_first() == b.drop_first() {
            assert(a =~= seq![a[0]] + a.drop_first());
            assert(b =~= seq![b[0]] + b.drop_first());
        }
    } else if a.len() == 0 && b.len() == 0 {
        assert(a =~= b);
    }
}

/// Two strings never each come before the other.
pub proof fn lemma_lt_asymmetric(a: Seq<char>, b: Seq<char>)
    requires
        seq_lt(a, b),
    ensures
        !seq_lt(b, a),
    decreases a.len(),
{
    if a.len() > 0 && b.len() > 0 && a[0] == b[0] {
        lemma_lt_asymmetric(a.drop_first(), b.drop_first());
    }
}

/// The order is transitive.
pub proof fn lemma_lt_transitive(a: Seq<char>, b: Seq<char>, c: Seq<char>)
    requires
        seq_lt(a, b),
        seq_lt(b, c),
    ensures
        seq_lt(a, c),
    decreases a.len(),
{
    if a.len() > 0 && b.len() > 0 && c.len() > 0 && a[0] == b[0] && b[0] == c[0] {
        lemma_lt_transitive(a.drop_first(), b.drop_first(), c.drop_first());
    }
}

/// `a` comes strictly before `b`.
pub fn str_lt(a: &str, b: &str) -> (r: bool)
    ensures
        r == seq_lt(a@, b@),
{
    let x = chars_of(a);
    let y = chars_of(b);
    assert(a@.subrange(0, a@.len() as int) =~= a@);
    assert(b@.subrange(0, b@.len() as int) =~= b@);
    let mut i: usize = 0;
    while i < x.len() && i < y.len()
        invariant
            x@ == a@,
            y@ == b@,
            i <= x@.len(),
            i <= y@.len(),
            seq_lt(a@, b@) == seq_lt(a@.subrange(i as int, a@.len() as int), b@.subrange(i as int, b@.len() as int)),
        decreases x@.len() - i,
    {
        let ghost sa = a@.subrange(i as int, a@.len() as int);
        let ghost sb = b@.subrange(i as int, b@.len() as int);
        assert(sa[0] == x@[i as int]);
        assert(sb[0] == y@[i as int]);
        if x[i] != y[i] {
            return x[i] < y[i];
        }
        assert(sa.drop_first() =~= a@.subrange(i + 1, a@.len() as int));
        assert(sb.drop_first() =~= b@.subrange(i + 1, b@.len() as int));
        i = i + 1;
    }
    i < y.len()
}

/// Adds `x` to a strictly increasing vector, keeping it strictly increasing.
pub fn insert_sorted(v: &mut Vec<String>, x: String)
    requires
        sorted_unique(strs_view(old(v)@)),
    ensures
        sorted_unique(strs_view(final(v)@)),
        forall|s: Seq<char>|
            strs_view(final(v)@).contains(s) <==> (strs_view(old(v)@).contains(s) || s == x@),
{
    let ghost old_view = strs_view(v@);
    let mut p: usize = 0;
    while p < v.len() && str_lt(v[p].as_str(), x.as_str())
        invariant
            old_view == strs_view(v@),
            sorted_unique(old_view),
            p <= v@.len(),
            forall|k: int| 0 <= k < p ==> seq_lt(#[trigger] old_view[k], x@),
        decreases v@.len() - p,
    {
        p = p + 1;
    }
    if p < v.len() && crate::text::str_eq(v[p].as_str(), x.as_str()) {
        assert(old_view[p as int] == x@);
        return;
    }
    proof {
        assert forall|k: int| p <= k < old_view.len() implies seq_lt(x@, #[trigger] old_view[k]) by {
            assert(!seq_lt(old_view[p as int], x@));
            assert(old_view[p as int] != x@);
            lemma_lt_total(old_view[p as int], x@);
            if k > p {
                lemma_lt_transitive(x@, old_view[p as int], old_view[k]);
            }
        }
    }
    v.insert(p, x);
    let ghost nv = strs_view(v@);
    assert(nv =~= old_view.subrange(0, p as int).push(x@) + old_view.subrange(p as int, old_view.len() as int));
    assert forall|i: int, j: int| 0 <= i < j < nv.len() implies seq_lt(#[trigger] nv[i], #[trigger] nv[j]) by {
        if j < p {
        } else if j == p {
        } else if i < p {
            lemma_lt_transitive(nv[i], x@, nv[j]);
        } else if i == p {
        } else {
        }
    }
    assert forall|s: Seq<char>| nv.contains(s) <==> (old_view.contains(s) || s == x@) by {
        if nv.contains(s) {
            let i = choose|i: int| 0 <= i < nv.len() && nv[i] == s;
            if i < p {
                assert(old_view[i] == s);
            } else if i > p {
                assert(old_view[i - 1] == s);
            }
        }
        if old_view.contains(s) {
            let i = choose|i: int| 0 <= i < old_view.len() && old_view[i] == s;
            if i < p {
                assert(nv[i] == s);
            } else {
                assert(nv[i + 1] == s);
            }
        }
        if s == x@ {
            assert(nv[p as int] == s);
        }
    }
}

/// The elements of `a` that are not in `b`, in the order of `a`.
pub open spec fn seq_minus(a: Seq<Seq<char>>, b: Seq<Seq<char>>) -> Seq<Seq<char>>
    decreases a.len(),
{
    if a.len() == 0 {
        Seq::empty()
    } else if b.contains(a.last()) {
        seq_minus(a.drop_last(), b)
    } else {
        seq_minus(a.drop_last(), b).push(a.last())
    }
}

/// Membership in a difference.
pub proof fn lemma_minus_contains(a: Seq<Seq<char>>, b: Seq<Seq<char>>, s: Seq<char>)
    ensures
        seq_minus(a, b).contains(s) <==> (a.contains(s) && !b.contains(s)),
    decreases a.len(),
{
    if a.len() > 0 {
        lemma_minus_contains(a.drop_last(), b, s);
        let r = seq_minus(a.drop_last(), b);
        if a.contains(s) && !a.drop_last().contains(s) {
            let i = choose|i: int| 0 <= i < a.len() && a[i] == s;
            if i < a.len() - 1 {
                assert(a.drop_last()[i] == s);
            }
            if !b.contains(s) {
                assert(r.push(a.last())[r.len() as int] == s);
            }
        }
        if a.drop_last().contains(s) {
            let i = choose|i: int| 0 <= i < a.drop_last().len() && a.drop_last()[i] == s;
            assert(a[i] == s);
        }
        if !b.contains(a.last()) {
            if r.push(a.last()).contains(s) {
                let i = choose|i: int| 0 <= i < r.len() + 1 && r.push(a.last())[i] == s;
                if i < r.len() {
                    assert(r[i] == s);
                }
            }
            if r.contains(s) {
                let i = choose|i: int| 0 <= i < r.len() && r[i] == s;
                assert(r.push(a.last())[i] == s);
            }
        }
    }
}

/// Is `s` one of `v`?
pub fn contains_string(v: &Vec<String>, s: &str) -> (r: bool)
    ensures
        r == strs_view(v@).contains(s@),
{
    let ghost vv = strs_view(v@);
    let mut i: usize = 0;
    while i < v.len()
        invariant
            vv == strs_view(v@),
            i <= v@.len(),
            forall|k: int| 0 <= k < i ==> vv[k] != s@,
        decreases v@.len() - i,
    {
        if crate::text::str_eq(v[i].as_str(), s) {
            assert(vv[i as int] == s@);
            return true;
        }
        i = i + 1;
    }
    false
}

/// The elements of `a` that are not in `b`, in the order of `a`.
pub fn minus(a: &Vec<String>, b: &Vec<String>) -> (r: Vec<String>)
    ensures
        strs_view(r@) == seq_minus(strs_view(a@), strs_view(b@)),
{
    let ghost av = strs_view(a@);
    let ghost bv = strs_view(b@);
    let mut out: Vec<String> = Vec::new();
    let mut i: usize = 0;
    while i < a.len()
        invariant
            av == strs_view(a@),
            bv == strs_view(b@),
            i <= a@.len(),
            strs_view(out@) == seq_minus(av.take(i as int), bv),
        decreases a@.len() - i,
    {
        assert(av.take(i + 1).drop_last() =~= av.take(i as int));
        assert(av.take(i + 1).last() == a@[i as int]@);
        if !contains_string(b, a[i].as_str()) {
            let ghost before = strs_view(out@);
            out.push(a[i].clone());
            assert(strs_view(out@) =~= before.push(a@[i as int]@));
        }
        i = i + 1;
    }
    assert(av.take(a@.len() as int) =~= av);
    out
}

} // verus!
