//! The roster in turn order.
//!
//! Characters act in the order of their initiative, the highest first; of two
//! with the same initiative a foe acts before a player. Characters that tie
//! in both stand in the order in which they came.

use crate::character::{Chr, ChrName};
use vstd::prelude::*;

verus! {

/// No character stands behind one that it acts before.
pub open spec fn in_order(s: Seq<Chr>) -> bool {
    forall|i: int, j: int| 0 <= i < j < s.len() ==> !(#[trigger] s[j]).acts_before(#[trigger] s[i])
}

/// Every character's pool of hit points, if it has one, is valid.
pub open spec fn all_wf(s: Seq<Chr>) -> bool {
    forall|k: int| 0 <= k < s.len() ==> (#[trigger] s[k]).wf()
}

/// Whether `e`, at place `j`, gives way to a character `x` that comes in: it
/// does if `x` acts before it, and also if the two tie and `j` is not below
/// `at`, the place at which `x` stood before.
pub open spec fn gives_way(e: Chr, j: int, x: Chr, at: int) -> bool {
    x.acts_before(e) || (!e.acts_before(x) && j >= at)
}

/// The place at which `x` comes into `r`: that of the first character that
/// gives way to it, or the end.
pub open spec fn landing(r: Seq<Chr>, x: Chr, at: int) -> int
    decreases r.len(),
{
    if r.len() == 0 {
        0
    } else {
        let p = landing(r.drop_last(), x, at);
        if p < r.len() - 1 {
            p
        } else if gives_way(r.last(), r.len() - 1, x, at) {
            r.len() - 1
        } else {
            r.len() as int
        }
    }
}

/// `landing` is the first place whose character gives way.
pub proof fn lemma_landing(r: Seq<Chr>, x: Chr, at: int)
    ensures
        0 <= landing(r, x, at) <= r.len(),
        forall|j: int| 0 <= j < landing(r, x, at) ==> !gives_way(#[trigger] r[j], j, x, at),
        landing(r, x, at) < r.len() ==> gives_way(r[landing(r, x, at)], landing(r, x, at), x, at),
    decreases r.len(),
{
    if r.len() > 0 {
        let front = r.drop_last();
        lemma_landing(front, x, at);
        assert(forall|j: int| 0 <= j < front.len() ==> front[j] == r[j]);
    }
}

/// A roster in order is still in order with `x` at its landing place.
pub proof fn lemma_landing_in_order(r: Seq<Chr>, x: Chr, at: int)
    requires
        in_order(r),
    ensures
        in_order(r.insert(landing(r, x, at), x)),
{
    let p = landing(r, x, at);
    lemma_landing(r, x, at);
    let s = r.insert(p, x);
    assert forall|i: int, j: int| 0 <= i < j < s.len() implies !(#[trigger] s[j]).acts_before(
        #[trigger] s[i],
    ) by {
        if j < p {
            assert(s[i] == r[i] && s[j] == r[j]);
        } else if j == p {
            assert(s[i] == r[i]);
            assert(!gives_way(r[i], i, x, at));
        } else if i == p {
            assert(s[j] == r[j - 1]);
            assert(gives_way(r[p], p, x, at));
            if j - 1 > p {
                assert(!r[j - 1].acts_before(r[p]));
            }
        } else if i < p {
            assert(s[i] == r[i] && s[j] == r[j - 1]);
        } else {
            assert(s[i] == r[i - 1] && s[j] == r[j - 1]);
        }
    }
}

/// The characters of `s` in turn order, ties in the order in which they
/// stand in `s`.
pub open spec fn ordered(s: Seq<Chr>) -> Seq<Chr>
    decreases s.len(),
{
    if s.len() == 0 {
        s
    } else {
        let front = ordered(s.drop_last());
        front.insert(landing(front, s.last(), front.len() as int), s.last())
    }
}

/// `ordered` gives a roster in order with the same characters, whose pools
/// are valid if they were.
pub proof fn lemma_ordered(s: Seq<Chr>)
    ensures
        in_order(ordered(s)),
        ordered(s).len() == s.len(),
        ordered(s).to_multiset() == s.to_multiset(),
        all_wf(s) ==> all_wf(ordered(s)),
    decreases s.len(),
{
    broadcast use vstd::seq_lib::group_to_multiset_ensures;

    if s.len() > 0 {
        let front = ordered(s.drop_last());
        lemma_ordered(s.drop_last());
        lemma_landing(front, s.last(), front.len() as int);
        lemma_landing_in_order(front, s.last(), front.len() as int);
        assert(s =~= s.drop_last().push(s.last()));
        if all_wf(s) {
            assert(all_wf(s.drop_last())) by {
                assert(forall|k: int| 0 <= k < s.len() - 1 ==> s.drop_last()[k] == s[k]);
            }
            let p = landing(front, s.last(), front.len() as int);
            let out = front.insert(p, s.last());
            assert forall|k: int| 0 <= k < out.len() implies (#[trigger] out[k]).wf() by {
                if k < p {
                    assert(out[k] == front[k]);
                } else if k > p {
                    assert(out[k] == front[k - 1]);
                } else {
                    assert(out[k] == s[s.len() - 1]);
                }
            }
        }
    } else {
        assert(ordered(s) =~= s);
    }
}

/// A roster that is in order is left as it is.
pub proof fn lemma_ordered_in_order(s: Seq<Chr>)
    requires
        in_order(s),
    ensures
        ordered(s) == s,
    decreases s.len(),
{
    if s.len() > 0 {
        let front = s.drop_last();
        assert(in_order(front)) by {
            assert(forall|j: int| 0 <= j < front.len() ==> front[j] == s[j]);
        }
        lemma_ordered_in_order(front);
        lemma_landing(front, s.last(), front.len() as int);
        let p = landing(front, s.last(), front.len() as int);
        if p < front.len() {
            assert(front[p] == s[p]);
            assert(!s[s.len() - 1].acts_before(s[p]));
        }
        assert(front.insert(front.len() as int, s.last()) =~= s);
    }
}

/// Putting a roster in order again after a character came in at its end is
/// putting that character at its landing place.
pub proof fn lemma_ordered_push(s: Seq<Chr>, x: Chr)
    requires
        in_order(s),
    ensures
        ordered(s.push(x)) == s.insert(landing(s, x, s.len() as int), x),
{
    lemma_ordered_in_order(s);
    assert(s.push(x).drop_last() =~= s);
}

/// Putting a roster in order again after the character at `at` became `x`
/// is taking it out and putting `x` at its landing place.
pub proof fn lemma_ordered_update(s: Seq<Chr>, at: int, x: Chr)
    requires
        in_order(s),
        0 <= at < s.len(),
    ensures
        ordered(s.update(at, x)) == s.remove(at).insert(landing(s.remove(at), x, at), x),
{
    lemma_ordered_update_upto(s, at, x, s.len() as int);
    assert(s.update(at, x).take(s.len() as int) =~= s.update(at, x));
    assert(s.take(s.len() as int) =~= s);
}

/// The induction behind `lemma_ordered_update`, over the first `k`
/// characters.
proof fn lemma_ordered_update_upto(s: Seq<Chr>, at: int, x: Chr, k: int)
    requires
        in_order(s),
        0 <= at < k <= s.len(),
    ensures
        ordered(s.update(at, x).take(k)) == s.take(k).remove(at).insert(
            landing(s.take(k).remove(at), x, at),
            x,
        ),
    decreases k,
{
    let u = s.update(at, x);
    if k == at + 1 {
        let front = s.take(at);
        assert(in_order(front)) by {
            assert(forall|j: int| 0 <= j < front.len() ==> front[j] == s[j]);
        }
        lemma_ordered_in_order(front);
        assert(u.take(k).drop_last() =~= front);
        assert(s.take(k).remove(at) =~= front);
    } else {
        lemma_ordered_update_upto(s, at, x, k - 1);
        let y = s[k - 1];
        let r = s.take(k - 1).remove(at);
        let p = landing(r, x, at);
        let f = r.insert(p, x);
        lemma_landing(r, x, at);
        assert(u.take(k).drop_last() =~= u.take(k - 1));
        assert(u.take(k).last() == y);
        assert(s.take(k).remove(at) =~= r.push(y));
        assert(r.push(y).drop_last() =~= r);
        // No character of `r` stands behind `y` in the order.
        assert forall|j: int| 0 <= j < r.len() implies !y.acts_before(#[trigger] r[j]) by {
            let i = if j < at {
                j
            } else {
                j + 1
            };
            assert(r[j] == s[i]);
            assert(!s[k - 1].acts_before(s[i]));
        }
        lemma_landing(f, y, f.len() as int);
        let q = landing(f, y, f.len() as int);
        assert(forall|j: int| 0 <= j < p ==> f[j] == r[j]);
        assert(forall|j: int| p < j < f.len() ==> f[j] == r[j - 1]);
        assert(f[p] == x);
        if y.acts_before(x) {
            if p < r.len() {
                assert(gives_way(r[p], p, x, at));
                assert(!y.acts_before(r[p]));
            }
            assert(p == r.len());
            assert(q == p) by {
                if q < p {
                    assert(gives_way(f[q], q, y, f.len() as int));
                }
            }
            assert(f.insert(q, y) =~= r.push(y).insert(r.len() as int + 1, x));
        } else {
            assert(q == f.len()) by {
                if q < f.len() {
                    assert(gives_way(f[q], q, y, f.len() as int));
                    if q < p {
                        assert(f[q] == r[q]);
                    } else if q > p {
                        assert(f[q] == r[q - 1]);
                    }
                }
            }
            assert(f.insert(q, y) =~= r.push(y).insert(p, x));
        }
    }
}

/// The place of the first character named `name`.
pub open spec fn position(s: Seq<Chr>, name: Seq<char>) -> Option<int>
    decreases s.len(),
{
    if s.len() == 0 {
        None
    } else {
        match position(s.drop_last(), name) {
            Some(i) => Some(i),
            None => if s.last().name@ == name {
                Some(s.len() - 1)
            } else {
                None
            },
        }
    }
}

/// `position` finds the first character of that name, and none only where
/// there is none.
pub proof fn lemma_position(s: Seq<Chr>, name: Seq<char>)
    ensures
        match position(s, name) {
            Some(i) => {
                &&& 0 <= i < s.len()
                &&& s[i].name@ == name
                &&& forall|j: int| 0 <= j < i ==> (#[trigger] s[j]).name@ != name
            },
            None => forall|j: int| 0 <= j < s.len() ==> (#[trigger] s[j]).name@ != name,
        },
    decreases s.len(),
{
    if s.len() > 0 {
        let front = s.drop_last();
        lemma_position(front, name);
        assert(forall|j: int| 0 <= j < front.len() ==> front[j] == s[j]);
    }
}

/// The place of the first character named `name`.
pub fn pos(chrs: &Vec<Chr>, name: &ChrName) -> (r: Option<usize>)
    ensures
        match r {
            Some(i) => i < chrs.len() && position(chrs@, name@) == Some(i as int),
            None => position(chrs@, name@) is None,
        },
{
    let mut i: usize = 0;
    while i < chrs.len()
        invariant
            i <= chrs.len(),
            forall|j: int| 0 <= j < i ==> (#[trigger] chrs@[j]).name@ != name@,
        decreases chrs.len() - i,
    {
        if chrs[i].name == *name {
            proof {
                lemma_position(chrs@, name@);
            }
            return Some(i);
        }
        i += 1;
    }
    proof {
        lemma_position(chrs@, name@);
    }
    None
}

/// Whether the roster is in turn order.
pub fn is_in_order(chrs: &Vec<Chr>) -> (r: bool)
    ensures
        r == in_order(chrs@),
{
    if chrs.len() == 0 {
        return true;
    }
    let mut i: usize = 1;
    while i < chrs.len()
        invariant
            1 <= i <= chrs.len(),
            in_order(chrs@.take(i as int)),
        decreases chrs.len() - i,
    {
        if chrs[i].precedes(&chrs[i - 1]) {
            assert(chrs@[i as int].acts_before(chrs@[i - 1]));
            return false;
        }
        proof {
            let now = chrs@.take(i as int);
            let next = chrs@.take(i + 1);
            assert forall|a: int, b: int| 0 <= a < b < next.len() implies !(
            #[trigger] next[b]).acts_before(#[trigger] next[a]) by {
                if b < i {
                    assert(now[a] == next[a] && now[b] == next[b]);
                } else if a < i - 1 {
                    assert(now[a] == next[a] && now[i - 1] == next[i - 1]);
                    assert(!now[i - 1].acts_before(now[a]));
                }
            }
        }
        i += 1;
    }
    proof {
        assert(chrs@.take(i as int) =~= chrs@);
    }
    true
}

/// The place at which `x` comes into the roster, where `at` is the place at
/// which it stood before (the length of the roster for one that is new).
pub fn land(chrs: &Vec<Chr>, x: &Chr, at: usize) -> (r: usize)
    ensures
        r == landing(chrs@, *x, at as int),
        r <= chrs.len(),
{
    let mut j: usize = 0;
    while j < chrs.len()
        invariant
            j <= chrs.len(),
            forall|k: int| 0 <= k < j ==> !gives_way(#[trigger] chrs@[k], k, *x, at as int),
        decreases chrs.len() - j,
    {
        if x.precedes(&chrs[j]) || (!chrs[j].precedes(x) && j >= at) {
            proof {
                lemma_landing(chrs@, *x, at as int);
            }
            return j;
        }
        j += 1;
    }
    proof {
        lemma_landing(chrs@, *x, at as int);
    }
    j
}

/// Whether the pool of every character that has one is valid.
pub fn are_valid(chrs: &Vec<Chr>) -> (r: bool)
    ensures
        r == all_wf(chrs@),
{
    let mut i: usize = 0;
    while i < chrs.len()
        invariant
            i <= chrs.len(),
            forall|k: int| 0 <= k < i ==> (#[trigger] chrs@[k]).wf(),
        decreases chrs.len() - i,
    {
        if !chrs[i].is_valid() {
            return false;
        }
        i += 1;
    }
    true
}

/// Puts the roster in turn order, ties in the order in which they stood.
pub fn sort(chrs: &mut Vec<Chr>)
    ensures
        final(chrs)@ == ordered(old(chrs)@),
        in_order(final(chrs)@),
        all_wf(old(chrs)@) ==> all_wf(final(chrs)@),
{
    let mut out: Vec<Chr> = Vec::new();
    let mut i: usize = 0;
    while i < chrs.len()
        invariant
            i <= chrs.len(),
            chrs@ == old(chrs)@,
            out@ == ordered(chrs@.take(i as int)),
            out.len() == i,
        decreases chrs.len() - i,
    {
        proof {
            assert(chrs@.take(i + 1).drop_last() =~= chrs@.take(i as int));
            lemma_ordered(chrs@.take(i + 1));
        }
        let x = chrs[i].clone();
        let p = land(&out, &x, i);
        out.insert(p, x);
        i += 1;
    }
    proof {
        assert(chrs@.take(i as int) =~= chrs@);
        lemma_ordered(chrs@);
    }
    *chrs = out;
}

} // verus!
