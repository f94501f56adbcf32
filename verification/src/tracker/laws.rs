//! What holds of every encounter: how the turn goes round, what removing and
//! moving a character does to the turn, and that what was undone can be
//! redone.

use crate::character::Chr;
use crate::tracker::roster::lemma_landing;
use crate::conditions::condition_manager::{lemma_kept, Held};
use crate::tracker::scene::{lemma_remove_in_order, Scene, TrackerView};
use vstd::prelude::*;

verus! {

/// The turn goes round the roster in turn order: in a roster that is not
/// empty, after `k` turns ended the turn is `k` places further on, counted
/// round the roster, and the `k`th turn from no one's is that of place
/// `k - 1`; so after as many turns as there are characters the turn is back
/// where it was. Ending turns leaves everyone at its place, with its name,
/// initiative and side, and the roster in order: of two characters the one
/// that stands first has no lower initiative, and where the two have the
/// same and it is a player, so is the other.
pub proof fn law_turns_go_round(s: Scene, k: nat)
    requires
        s.wf(),
        s.chrs.len() > 0,
    ensures
        s.turns_ended(k).wf(),
        s.turns_ended(k).chrs.len() == s.chrs.len(),
        forall|j: int|
            0 <= j < s.chrs.len() ==> {
                &&& (#[trigger] s.turns_ended(k).chrs[j]).name == s.chrs[j].name
                &&& s.turns_ended(k).chrs[j].init == s.chrs[j].init
                &&& s.turns_ended(k).chrs[j].player == s.chrs[j].player
            },
        forall|a: int, b: int|
            0 <= a < b < s.chrs.len() ==> {
                &&& (#[trigger] s.turns_ended(k).chrs[a]).init >= (
                #[trigger] s.turns_ended(k).chrs[b]).init
                &&& s.turns_ended(k).chrs[a].init == s.turns_ended(k).chrs[b].init
                    && s.turns_ended(k).chrs[a].player ==> s.turns_ended(k).chrs[b].player
            },
        s.in_turn matches Some(i) ==> s.turns_ended(k).in_turn == Some(
            ((i + k) % (s.chrs.len() as int)) as usize,
        ),
        s.in_turn matches Some(i) ==> s.turns_ended(s.chrs.len()).in_turn == Some(i),
        s.in_turn is None && k > 0 ==> s.turns_ended(k).in_turn == Some(
            ((k - 1) % (s.chrs.len() as int)) as usize,
        ),
    decreases k,
{
    let len = s.chrs.len() as int;
    lemma_round(s, k);
    lemma_round(s, s.chrs.len());
    match s.in_turn {
        Some(i) => {
            vstd::arithmetic::div_mod::lemma_mod_add_multiples_vanish(i as int, len);
            vstd::arithmetic::div_mod::lemma_small_mod(i as nat, len as nat);
        },
        None => {},
    }
    let after = s.turns_ended(k);
    assert forall|a: int, b: int| 0 <= a < b < s.chrs.len() implies {
        &&& (#[trigger] after.chrs[a]).init >= (#[trigger] after.chrs[b]).init
        &&& after.chrs[a].init == after.chrs[b].init && after.chrs[a].player
            ==> after.chrs[b].player
    } by {
        assert(!after.chrs[b].acts_before(after.chrs[a]));
    }
}

/// The induction behind `law_turns_go_round`.
proof fn lemma_round(s: Scene, k: nat)
    requires
        s.wf(),
        s.chrs.len() > 0,
    ensures
        s.turns_ended(k).wf(),
        s.turns_ended(k).chrs.len() == s.chrs.len(),
        forall|j: int|
            0 <= j < s.chrs.len() ==> {
                &&& (#[trigger] s.turns_ended(k).chrs[j]).name == s.chrs[j].name
                &&& s.turns_ended(k).chrs[j].init == s.chrs[j].init
                &&& s.turns_ended(k).chrs[j].player == s.chrs[j].player
            },
        s.in_turn matches Some(i) ==> s.turns_ended(k).in_turn == Some(
            ((i + k) % (s.chrs.len() as int)) as usize,
        ),
        s.in_turn is None && k > 0 ==> s.turns_ended(k).in_turn == Some(
            ((k - 1) % (s.chrs.len() as int)) as usize,
        ),
    decreases k,
{
    let len = s.chrs.len() as int;
    if k == 0 {
        match s.in_turn {
            Some(i) => {
                vstd::arithmetic::div_mod::lemma_small_mod(i as nat, len as nat);
            },
            None => {},
        }
    } else {
        let before = s.turns_ended((k - 1) as nat);
        lemma_round(s, (k - 1) as nat);
        before.lemma_turn_ended();
        match s.in_turn {
            Some(i) => {
                vstd::arithmetic::div_mod::lemma_add_mod_noop(i + k - 1, 1, len);
                vstd::arithmetic::div_mod::lemma_mod_bound(i + k - 1, len);
                vstd::arithmetic::div_mod::lemma_mod_bound(i + k, len);
                if len > 1 {
                    vstd::arithmetic::div_mod::lemma_small_mod(1, len as nat);
                } else {
                    assert((i + k) % 1 == 0);
                    assert(((i + k - 1) % 1 + 1) % 1 == 0);
                }
            },
            None => {
                if k == 1 {
                    vstd::arithmetic::div_mod::lemma_small_mod(0, len as nat);
                } else {
                    vstd::arithmetic::div_mod::lemma_add_mod_noop(k - 2, 1, len);
                    vstd::arithmetic::div_mod::lemma_mod_bound(k - 2, len);
                    vstd::arithmetic::div_mod::lemma_mod_bound(k - 1, len);
                    if len > 1 {
                        vstd::arithmetic::div_mod::lemma_small_mod(1, len as nat);
                    } else {
                        assert((k - 1) % 1 == 0);
                        assert(((k - 2) % 1 + 1) % 1 == 0);
                    }
                }
            },
        }
    }
}

/// Where the character in turn is removed and others are left, the one that
/// stood behind it is in turn, and the one at the head of the roster where it
/// stood last. The others keep their order, names, initiatives and sides: no
/// one is skipped, and no one has a second turn.
pub proof fn law_removed_in_turn(s: Scene, at: usize)
    requires
        s.wf(),
        s.chrs.len() >= 2,
        s.in_turn == Some(at),
    ensures
        s.without(at as int).wf(),
        s.without(at as int).chrs.len() == s.chrs.len() - 1,
        forall|j: int|
            0 <= j < s.chrs.len() - 1 ==> {
                &&& (#[trigger] s.without(at as int).chrs[j]).name == s.chrs.remove(
                    at as int,
                )[j].name
                &&& s.without(at as int).chrs[j].init == s.chrs.remove(at as int)[j].init
                &&& s.without(at as int).chrs[j].player == s.chrs.remove(at as int)[j].player
            },
        s.without(at as int).in_turn == Some(
            if at == s.chrs.len() - 1 {
                0usize
            } else {
                at
            },
        ),
        s.without(at as int).acting() matches Some(next) && next.name == s.chrs[(at + 1) % (
        s.chrs.len() as int)].name,
{
    let len = s.chrs.len() as int;
    s.lemma_without(at as int);
    lemma_remove_in_order(s.chrs, at as int);
    lemma_kept(
        s.conds.held,
        |e: Held| e.0@ == s.chrs[at as int].name@,
    );
    let left = Scene {
        chrs: s.chrs.remove(at as int),
        in_turn: if at == 0 {
            None
        } else {
            Some((at - 1) as usize)
        },
        conds: s.conds.without_character(s.chrs[at as int].name@),
    };
    assert(s.without(at as int) == left.turn_ended());
    left.lemma_turn_ended();
    if at == len - 1 {
        assert((at + 1) % len == 0) by {
            vstd::arithmetic::div_mod::lemma_mod_self_0(len);
        }
        if at > 0 {
            assert(((at - 1) + 1) % (len - 1) == 0) by {
                vstd::arithmetic::div_mod::lemma_mod_self_0(len - 1);
            }
        }
        assert(left.turn_ended().in_turn == Some(0usize));
        assert(s.chrs.remove(at as int)[0] == s.chrs[0]);
    } else {
        vstd::arithmetic::div_mod::lemma_small_mod((at + 1) as nat, len as nat);
        if at > 0 {
            vstd::arithmetic::div_mod::lemma_small_mod(at as nat, (len - 1) as nat);
        }
        assert(left.turn_ended().in_turn == Some(at));
        assert(s.chrs.remove(at as int)[at as int] == s.chrs[at + 1]);
    }
}

/// The character in turn changes only by a move of its own, and never
/// without a notice: when a character other than the one in turn moves in
/// the order, the one in turn stays in turn; when the one in turn moves
/// itself and nothing is told, it is in turn as before.
pub proof fn law_turn_kept_or_told(s: Scene, at: usize, x: Chr)
    requires
        s.wf(),
        x.wf(),
        at < s.chrs.len(),
    ensures
        s.in_turn matches Some(i) ==> (i != at ==> s.with_moved(at as int, x).acting() == Some(
            s.chrs[i as int],
        )),
        s.in_turn == Some(at) && s.move_notice(at as int, x) is None ==> s.with_moved(
            at as int,
            x,
        ).acting() == Some(x),
        s.in_turn is None ==> s.with_moved(at as int, x).acting() is None && s.move_notice(
            at as int,
            x,
        ) is None,
{
    s.lemma_with_moved(at as int, x);
    lemma_landing(s.chrs.remove(at as int), x, at as int);
}

/// Two trackers show the same encounter and history, and agree in the
/// nearest `m` steps that can be redone.
pub open spec fn agree(a: TrackerView, b: TrackerView, m: nat) -> bool {
    &&& a.now == b.now
    &&& a.history == b.history
    &&& a.settings == b.settings
    &&& a.undone.len() >= m
    &&& b.undone.len() >= m
    &&& a.undone.take(m as int) == b.undone.take(m as int)
}

/// Steps forward can be counted from either end.
proof fn lemma_forward_shift(v: TrackerView, n: nat)
    requires
        n > 0,
    ensures
        v.forward(n) == v.stepped_forward().forward((n - 1) as nat),
    decreases n,
{
    if n > 1 {
        lemma_forward_shift(v, (n - 1) as nat);
    } else {
        assert(v.forward(0) == v);
        assert(v.stepped_forward().forward(0) == v.stepped_forward());
    }
}

/// Trackers that agree in the nearest `m` steps agree after `k <= m` steps
/// forward.
proof fn lemma_forward_agree(a: TrackerView, b: TrackerView, m: nat, k: nat)
    requires
        agree(a, b, m),
        k <= m,
    ensures
        agree(a.forward(k), b.forward(k), (m - k) as nat),
    decreases k,
{
    if k > 0 {
        lemma_forward_agree(a, b, m, (k - 1) as nat);
        let a1 = a.forward((k - 1) as nat);
        let b1 = b.forward((k - 1) as nat);
        let left = (m - (k - 1)) as nat;
        assert(a1.undone[0] == a1.undone.take(left as int)[0]);
        assert(b1.undone[0] == b1.undone.take(left as int)[0]);
        assert(a1.undone.drop_first().take(left - 1) =~= a1.undone.take(left as int).drop_first());
        assert(b1.undone.drop_first().take(left - 1) =~= b1.undone.take(left as int).drop_first());
    }
}

/// One step back and one forward again leave the encounter and the history
/// as they were, and of the steps that could be redone all but, where there
/// is no room, the farthest.
proof fn lemma_back_and_forth(v: TrackerView, m: nat)
    requires
        0 < v.history.len() <= v.settings.depth(),
        m <= v.undone.len(),
        m < v.settings.depth(),
    ensures
        agree(v.stepped_back().stepped_forward(), v, m),
{
    let depth = v.settings.depth();
    let w = v.stepped_back();
    let u = w.stepped_forward();
    assert(w.undone[0] == v.now);
    assert(seq![v.history[0]] + v.history.drop_first() =~= v.history);
    assert(u.undone.take(m as int) =~= v.undone.take(m as int));
}

/// After `n` steps back the history is shorter by `n` scenes, and `n` steps
/// can be redone.
proof fn lemma_back_shape(v: TrackerView, n: nat)
    requires
        n <= v.history.len() <= v.settings.depth(),
    ensures
        v.back(n).history.len() == v.history.len() - n,
        v.back(n).settings == v.settings,
        v.back(n).undone.len() >= n,
    decreases n,
{
    if n > 0 {
        lemma_back_shape(v, (n - 1) as nat);
    }
}

/// What was undone can be redone: where `n` steps can be undone, `n` steps
/// back and `n` steps forward again give the encounter as it was, roster,
/// turn and conditions, and the history as it was.
pub proof fn law_undo_redo(v: TrackerView, n: nat)
    requires
        n <= v.history.len() <= v.settings.depth(),
    ensures
        v.back(n).forward(n).now == v.now,
        v.back(n).forward(n).history == v.history,
    decreases n,
{
    if n > 0 {
        let u = v.back((n - 1) as nat);
        lemma_back_shape(v, (n - 1) as nat);
        law_undo_redo(v, (n - 1) as nat);
        let w = u.stepped_back();
        assert(w == v.back(n));
        lemma_forward_shift(w, n);
        lemma_back_and_forth(u, (n - 1) as nat);
        lemma_forward_agree(w.stepped_forward(), u, (n - 1) as nat, (n - 1) as nat);
    }
}

} // verus!
