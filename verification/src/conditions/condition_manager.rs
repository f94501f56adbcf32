//! The conditions that the characters of an encounter hold, and how they
//! change as turns start and end.
//!
//! A character holds at most one condition of a kind. Conditions added since
//! the last start or end of a turn are remembered as fresh: a fresh condition
//! outlasts the end of the turn in which it was added where its term speaks
//! of the end of the next turn.

use crate::character::ChrName;
use crate::conditions::{
    damage_types, Condition, DamageType, NonValuedCondition, NonValuedTerm, TurnEvent,
    ValuedCondition, ValuedTerm,
};
use crate::duration::{lemma_quotient_grows, Duration};
use vstd::prelude::*;

verus! {

/// Damage dealt at the end of a turn.
pub type Damage = u32;

/// A condition and the character that holds it.
pub type Held = (ChrName, Condition);

/// `e` is the condition of the kind of `c` on the character named `who`.
pub open spec fn is_held(e: Held, who: Seq<char>, c: Condition) -> bool {
    e.0@ == who && e.1.same_kind(c)
}

/// The place in `s` of the first condition of the kind of `c` on the character
/// named `who`.
pub open spec fn slot(s: Seq<Held>, who: Seq<char>, c: Condition) -> Option<int>
    decreases s.len(),
{
    if s.len() == 0 {
        None
    } else {
        match slot(s.drop_last(), who, c) {
            Some(i) => Some(i),
            None => if is_held(s.last(), who, c) {
                Some(s.len() - 1)
            } else {
                None
            },
        }
    }
}

/// No character holds two conditions of one kind.
pub open spec fn distinct(s: Seq<Held>) -> bool {
    forall|i: int, j: int|
        0 <= i < j < s.len() ==> !is_held(#[trigger] s[j], (#[trigger] s[i]).0@, s[i].1)
}

/// `slot` finds the first place that holds such a condition, and none only
/// where there is none.
pub proof fn lemma_slot(s: Seq<Held>, who: Seq<char>, c: Condition)
    ensures
        match slot(s, who, c) {
            Some(i) => {
                &&& 0 <= i < s.len()
                &&& is_held(s[i], who, c)
                &&& forall|j: int| 0 <= j < i ==> !is_held(#[trigger] s[j], who, c)
            },
            None => forall|j: int| 0 <= j < s.len() ==> !is_held(#[trigger] s[j], who, c),
        },
    decreases s.len(),
{
    if s.len() > 0 {
        let front = s.drop_last();
        lemma_slot(front, who, c);
        assert(forall|j: int| 0 <= j < front.len() ==> front[j] == s[j]);
    }
}

/// The place of the first condition of the kind of `cond` on `who`.
fn find(entries: &Vec<Held>, who: &ChrName, cond: &Condition) -> (r: Option<usize>)
    ensures
        match r {
            Some(i) => i < entries.len() && slot(entries@, who@, *cond) == Some(i as int),
            None => slot(entries@, who@, *cond) is None,
        },
{
    let mut i: usize = 0;
    while i < entries.len()
        invariant
            i <= entries.len(),
            forall|j: int| 0 <= j < i ==> !is_held(#[trigger] entries@[j], who@, *cond),
        decreases entries.len() - i,
    {
        if entries[i].0 == *who && entries[i].1 == *cond {
            proof {
                lemma_slot(entries@, who@, *cond);
            }
            return Some(i);
        }
        i += 1;
    }
    proof {
        lemma_slot(entries@, who@, *cond);
    }
    None
}

/// A copy of the conditions held.
fn copy_of(entries: &Vec<Held>) -> (r: Vec<Held>)
    ensures
        r@ == entries@,
{
    let mut out: Vec<Held> = Vec::new();
    let mut i: usize = 0;
    while i < entries.len()
        invariant
            i <= entries.len(),
            out@ == entries@.take(i as int),
        decreases entries.len() - i,
    {
        out.push((entries[i].0.clone(), entries[i].1.clone()));
        proof {
            assert(out@ =~= entries@.take(i + 1));
        }
        i += 1;
    }
    proof {
        assert(entries@.take(i as int) =~= entries@);
    }
    out
}

/// Whether no character holds two conditions of one kind.
fn all_distinct(entries: &Vec<Held>) -> (r: bool)
    ensures
        r == distinct(entries@),
{
    let mut j: usize = 0;
    while j < entries.len()
        invariant
            j <= entries.len(),
            distinct(entries@.take(j as int)),
        decreases entries.len() - j,
    {
        proof {
            lemma_slot(entries@, entries@[j as int].0@, entries@[j as int].1);
        }
        match find(entries, &entries[j].0, &entries[j].1) {
            Some(i) => {
                if i != j {
                    return false;
                }
            },
            None => {},
        }
        proof {
            let now = entries@.take(j as int);
            let next = entries@.take(j + 1);
            assert forall|a: int, b: int| 0 <= a < b < next.len() implies !is_held(
                #[trigger] next[b],
                (#[trigger] next[a]).0@,
                next[a].1,
            ) by {
                if b < j {
                    assert(now[a] == next[a] && now[b] == next[b]);
                } else {
                    assert(!is_held(entries@[a], entries@[j as int].0@, entries@[j as int].1));
                }
            }
        }
        j += 1;
    }
    proof {
        assert(entries@.take(j as int) =~= entries@);
    }
    true
}

/// A condition of level `new` takes the place of one of the same kind of
/// level `held` only if it is the more severe.
pub open spec fn outranks(new: Condition, held: Condition) -> bool {
    match (new, held) {
        (Condition::Valued { level: l1, .. }, Condition::Valued { level: l2, .. }) => l1 > l2,
        _ => false,
    }
}

/// The conditions held after `c` was added to the character `who`: it is
/// added where the character has none of its kind, takes the place of a less
/// severe one, and is left out where one as severe is held.
pub open spec fn held_after_add(held: Seq<Held>, who: ChrName, c: Condition) -> Seq<Held> {
    match slot(held, who@, c) {
        Some(i) => if outranks(c, held[i].1) {
            held.update(i, (who, c))
        } else {
            held
        },
        None => held.push((who, c)),
    }
}

/// Whether adding `c` to `who` changes what is held.
pub open spec fn takes(held: Seq<Held>, who: ChrName, c: Condition) -> bool {
    match slot(held, who@, c) {
        Some(i) => outranks(c, held[i].1),
        None => true,
    }
}

/// The fresh conditions after `c` was added to the character `who`.
pub open spec fn fresh_after_add(
    held: Seq<Held>,
    fresh: Seq<Held>,
    who: ChrName,
    c: Condition,
) -> Seq<Held> {
    if takes(held, who, c) && slot(fresh, who@, c) is None {
        fresh.push((who, c))
    } else {
        fresh
    }
}

/// The conditions of `held` but those for which `gone` holds, in their order.
pub open spec fn kept(held: Seq<Held>, gone: spec_fn(Held) -> bool) -> Seq<Held>
    decreases held.len(),
{
    if held.len() == 0 {
        held
    } else if gone(held.last()) {
        kept(held.drop_last(), gone)
    } else {
        kept(held.drop_last(), gone).push(held.last())
    }
}

/// The conditions held after the one of the kind of `c` was taken from the
/// character named `who`.
pub open spec fn held_without(held: Seq<Held>, who: Seq<char>, c: Condition) -> Seq<Held> {
    kept(held, |e: Held| is_held(e, who, c))
}

/// The conditions held after those of the character named `who` were taken
/// away.
pub open spec fn held_without_character(held: Seq<Held>, who: Seq<char>) -> Seq<Held> {
    kept(held, |e: Held| e.0@ == who)
}

/// The conditions of the character named `who`, in the order in which they
/// are held.
pub open spec fn conditions_of(held: Seq<Held>, who: Seq<char>) -> Seq<Condition>
    decreases held.len(),
{
    if held.len() == 0 {
        Seq::empty()
    } else if held.last().0@ == who {
        conditions_of(held.drop_last(), who).push(held.last().1)
    } else {
        conditions_of(held.drop_last(), who)
    }
}

/// The conditions held after the character named `from` took the name `to`.
/// Where the new name already held a condition of a kind, the one that comes
/// first in `held` stays.
pub open spec fn held_after_rename(held: Seq<Held>, from: Seq<char>, to: ChrName) -> Seq<Held>
    decreases held.len(),
{
    if held.len() == 0 {
        held
    } else {
        let front = held_after_rename(held.drop_last(), from, to);
        let e = if held.last().0@ == from {
            (to, held.last().1)
        } else {
            held.last()
        };
        if slot(front, e.0@, e.1) is Some {
            front
        } else {
            front.push(e)
        }
    }
}

/// Every condition of `part` is also held, on the same character, in `all`.
pub open spec fn within(part: Seq<Held>, all: Seq<Held>) -> bool {
    forall|j: int| 0 <= j < part.len() ==> slot(all, (#[trigger] part[j]).0@, part[j].1) is Some
}

/// What is held in the front of a sequence is held in all of it, at the same
/// place.
pub proof fn lemma_slot_grows(s: Seq<Held>, who: Seq<char>, c: Condition)
    requires
        s.len() > 0,
        slot(s.drop_last(), who, c) is Some,
    ensures
        slot(s, who, c) == slot(s.drop_last(), who, c),
{
}

/// Leaving conditions out keeps what is left distinct, and holds nothing new.
pub proof fn lemma_kept(held: Seq<Held>, gone: spec_fn(Held) -> bool)
    ensures
        within(kept(held, gone), held),
        distinct(held) ==> distinct(kept(held, gone)),
        forall|j: int| 0 <= j < kept(held, gone).len() ==> !gone(#[trigger] kept(held, gone)[j]),
        kept(held, gone).len() <= held.len(),
    decreases held.len(),
{
    if held.len() > 0 {
        let front = held.drop_last();
        let out = kept(front, gone);
        lemma_kept(front, gone);
        assert forall|j: int| 0 <= j < out.len() implies slot(
            held,
            (#[trigger] out[j]).0@,
            out[j].1,
        ) is Some by {
            lemma_slot_grows(held, out[j].0@, out[j].1);
        }
        if !gone(held.last()) {
            lemma_push_within(out, held, held.last());
        }
    }
}

/// The time left of a term after one more turn: the whole turns less one,
/// and none where no more than one turn was left.
pub open spec fn turns_left(dur: Duration) -> Option<Duration> {
    let turns = dur@ / 6;
    if turns <= 1 {
        None
    } else {
        Some(Duration::of_seconds((6 * (turns - 1)) as nat))
    }
}

/// A level less a reduction, and none where nothing is left of it.
pub open spec fn reduced_level(reduction: u8, level: u8) -> Option<u8> {
    if level <= reduction {
        None
    } else {
        Some((level - reduction) as u8)
    }
}

/// What becomes of a condition with a level and a term `For(dur)`, held by
/// `who`, at `event`: at the end of the holder's own next turn one turn
/// passes, at any other event nothing.
pub open spec fn stepped_for_valued(
    event: TurnEvent,
    who: ChrName,
    dur: Duration,
    cond: ValuedCondition,
    level: u8,
) -> Option<Held> {
    if event is EndOfNextTurn && event.who()@ == who@ {
        match turns_left(dur) {
            Some(left) => Some(
                (who, Condition::Valued { cond, term: ValuedTerm::For(left), level }),
            ),
            None => None,
        }
    } else {
        Some((who, Condition::Valued { cond, term: ValuedTerm::For(dur), level }))
    }
}

/// What becomes of a condition without a level and with a term `For(dur)`,
/// held by `who`, at `event`.
pub open spec fn stepped_for_nonvalued(
    event: TurnEvent,
    who: ChrName,
    dur: Duration,
    cond: NonValuedCondition,
) -> Option<Held> {
    if event is EndOfNextTurn && event.who()@ == who@ {
        match turns_left(dur) {
            Some(left) => Some(
                (who, Condition::NonValued { cond, term: NonValuedTerm::For(left) }),
            ),
            None => None,
        }
    } else {
        Some((who, Condition::NonValued { cond, term: NonValuedTerm::For(dur) }))
    }
}

/// What becomes, when its own event fires, of a condition whose level sinks
/// at that event. A fresh condition is spared at the end of a next turn: the
/// turn in which it was added is not the next.
pub open spec fn stepped_reduced(
    in_grace: bool,
    who: ChrName,
    event: TurnEvent,
    reduction: u8,
    level: u8,
    cond: ValuedCondition,
) -> Option<Held> {
    if event is EndOfNextTurn && in_grace {
        Some((who, Condition::Valued { cond, term: ValuedTerm::Reduced(event, reduction), level }))
    } else {
        match reduced_level(reduction, level) {
            Some(left) => Some(
                (
                    who,
                    Condition::Valued {
                        cond,
                        term: ValuedTerm::Reduced(event, reduction),
                        level: left,
                    },
                ),
            ),
            None => None,
        }
    }
}

/// Whether a condition that ends at `own` ends when `event` fires: the two
/// must be the same event, and a fresh condition is spared unless it ends
/// with the current turn.
pub open spec fn until_ends(own: TurnEvent, event: TurnEvent, in_grace: bool) -> bool {
    own.same_as(event) && (own is EndOfCurrentTurn || !in_grace)
}

/// What becomes of the condition `e.1`, held by `e.0`, when `event` fires,
/// where `fresh` are the conditions added since a turn last started or ended:
/// it stays as it is, changes, or ends.
pub open spec fn stepped(event: TurnEvent, e: Held, fresh: Seq<Held>) -> Option<Held> {
    let in_grace = slot(fresh, e.0@, e.1) is Some;
    match e.1 {
        Condition::Valued { cond, term: ValuedTerm::For(dur), level } => stepped_for_valued(
            event,
            e.0,
            dur,
            cond,
            level,
        ),
        Condition::NonValued { cond, term: NonValuedTerm::For(dur) } => stepped_for_nonvalued(
            event,
            e.0,
            dur,
            cond,
        ),
        Condition::Valued { term: ValuedTerm::Until(own), .. } => if until_ends(
            own,
            event,
            in_grace,
        ) {
            None
        } else {
            Some(e)
        },
        Condition::NonValued { term: NonValuedTerm::Until(own), .. } => if until_ends(
            own,
            event,
            in_grace,
        ) {
            None
        } else {
            Some(e)
        },
        Condition::Valued { cond, term: ValuedTerm::Reduced(own, reduction), level } => if own
            .same_as(event) {
            stepped_reduced(in_grace, e.0, own, reduction, level, cond)
        } else {
            Some(e)
        },
        _ => Some(e),
    }
}

/// The conditions held after `event` fired: each one stepped, those that
/// ended left out, in their order.
pub open spec fn advanced(held: Seq<Held>, fresh: Seq<Held>, event: TurnEvent) -> Seq<Held>
    decreases held.len(),
{
    if held.len() == 0 {
        held
    } else {
        let front = advanced(held.drop_last(), fresh, event);
        match stepped(event, held.last(), fresh) {
            Some(e) => front.push(e),
            None => front,
        }
    }
}

/// A condition that is held only to name its kind: persistent damage of the
/// type `ty`.
pub open spec fn persistent(ty: DamageType) -> Condition {
    Condition::Valued {
        cond: ValuedCondition::PersistentDamage(ty),
        term: ValuedTerm::Manual,
        level: 0,
    }
}

/// The level of the condition of the kind of `c` that the character named
/// `who` holds, and nothing where it holds none.
pub open spec fn level_held(held: Seq<Held>, who: Seq<char>, c: Condition) -> nat {
    match slot(held, who, c) {
        Some(i) => held[i].1.level_or_zero(),
        None => 0,
    }
}

/// The levels of the persistent damage of the types `types` that the
/// character named `who` holds, added up.
pub open spec fn persistent_damage_among(
    held: Seq<Held>,
    who: Seq<char>,
    types: Seq<DamageType>,
) -> nat
    decreases types.len(),
{
    if types.len() == 0 {
        0
    } else {
        persistent_damage_among(held, who, types.drop_last()) + level_held(
            held,
            who,
            persistent(types.last()),
        )
    }
}

/// The persistent damage that the character named `who` takes at the end of
/// its turn: the levels of its persistent damage of every type, added up.
pub open spec fn persistent_damage(held: Seq<Held>, who: Seq<char>) -> nat {
    persistent_damage_among(held, who, DamageType::all())
}

/// No persistent damage of one turn is more than sixteen times the highest
/// level.
pub proof fn lemma_persistent_damage_bound(held: Seq<Held>, who: Seq<char>)
    ensures
        persistent_damage(held, who) <= 16 * 255,
{
    lemma_persistent_damage_among(held, who, DamageType::all());
}

/// The persistent damage of some types is no more than the highest level
/// for each.
proof fn lemma_persistent_damage_among(held: Seq<Held>, who: Seq<char>, types: Seq<DamageType>)
    ensures
        persistent_damage_among(held, who, types) <= 255 * types.len(),
    decreases types.len(),
{
    if types.len() > 0 {
        lemma_persistent_damage_among(held, who, types.drop_last());
        lemma_slot(held, who, persistent(types.last()));
    }
}

/// A step leaves a condition with its holder and its kind.
pub proof fn lemma_stepped_same(event: TurnEvent, e: Held, fresh: Seq<Held>)
    ensures
        stepped(event, e, fresh) matches Some(after) ==> after.0 == e.0 && after.1.same_kind(e.1),
{
}

/// An event leaves what is held distinct, and nothing is held after it that
/// was not held before.
pub proof fn lemma_advanced(held: Seq<Held>, fresh: Seq<Held>, event: TurnEvent)
    ensures
        within(advanced(held, fresh, event), held),
        distinct(held) ==> distinct(advanced(held, fresh, event)),
        advanced(held, fresh, event).len() <= held.len(),
    decreases held.len(),
{
    if held.len() > 0 {
        let front = held.drop_last();
        let out = advanced(front, fresh, event);
        lemma_advanced(front, fresh, event);
        assert forall|j: int| 0 <= j < out.len() implies slot(
            held,
            (#[trigger] out[j]).0@,
            out[j].1,
        ) is Some by {
            lemma_slot_grows(held, out[j].0@, out[j].1);
        }
        match stepped(event, held.last(), fresh) {
            Some(e) => {
                lemma_stepped_same(event, held.last(), fresh);
                lemma_push_within(out, held, e);
            },
            None => {},
        }
    }
}

/// Behind conditions that are all held in the front of `held` may come one
/// of the holder and kind of the last of `held`: they are then all held in
/// `held`, and distinct if `held` is.
pub proof fn lemma_push_within(out: Seq<Held>, held: Seq<Held>, e: Held)
    requires
        held.len() > 0,
        within(out, held.drop_last()),
        distinct(held) ==> distinct(out),
        e.0@ == held.last().0@,
        e.1.same_kind(held.last().1),
    ensures
        within(out.push(e), held),
        distinct(held) ==> distinct(out.push(e)),
{
    let front = held.drop_last();
    let all = out.push(e);
    lemma_slot(held, e.0@, e.1);
    assert(is_held(held[held.len() - 1], e.0@, e.1));
    assert forall|j: int| 0 <= j < all.len() implies slot(
        held,
        (#[trigger] all[j]).0@,
        all[j].1,
    ) is Some by {
        if j < out.len() {
            assert(all[j] == out[j]);
            lemma_slot_grows(held, out[j].0@, out[j].1);
        }
    }
    if distinct(held) {
        assert forall|i: int, j: int| 0 <= i < j < all.len() implies !is_held(
            #[trigger] all[j],
            (#[trigger] all[i]).0@,
            all[i].1,
        ) by {
            if j < out.len() {
                assert(all[j] == out[j] && all[i] == out[i]);
            } else {
                assert(all[i] == out[i]);
                lemma_slot(front, out[i].0@, out[i].1);
                let k = slot(front, out[i].0@, out[i].1)->0;
                assert(front[k] == held[k]);
                assert(!is_held(held[held.len() - 1], held[k].0@, held[k].1));
            }
        }
    }
}

/// After a rename no character holds two conditions of one kind.
pub proof fn lemma_rename_distinct(held: Seq<Held>, from: Seq<char>, to: ChrName)
    ensures
        distinct(held_after_rename(held, from, to)),
        held_after_rename(held, from, to).len() <= held.len(),
    decreases held.len(),
{
    if held.len() > 0 {
        let front = held_after_rename(held.drop_last(), from, to);
        lemma_rename_distinct(held.drop_last(), from, to);
        let e = if held.last().0@ == from {
            (to, held.last().1)
        } else {
            held.last()
        };
        if slot(front, e.0@, e.1) is None {
            lemma_slot(front, e.0@, e.1);
            let all = front.push(e);
            assert forall|i: int, j: int| 0 <= i < j < all.len() implies !is_held(
                #[trigger] all[j],
                (#[trigger] all[i]).0@,
                all[i].1,
            ) by {
                if j < front.len() {
                    assert(all[j] == front[j] && all[i] == front[i]);
                } else {
                    assert(all[i] == front[i]);
                    assert(!is_held(front[i], e.0@, e.1));
                }
            }
        }
    }
}

/// Adding a condition leaves what is held distinct.
pub proof fn lemma_add_distinct(held: Seq<Held>, who: ChrName, c: Condition)
    requires
        distinct(held),
    ensures
        distinct(held_after_add(held, who, c)),
{
    lemma_slot(held, who@, c);
}

/// An event steps each condition for itself: where a character holds a
/// condition of a kind, it holds after the event what the step made of that
/// condition, and where it holds none, it holds none after the event.
pub proof fn lemma_advanced_at(
    held: Seq<Held>,
    fresh: Seq<Held>,
    event: TurnEvent,
    who: Seq<char>,
    c: Condition,
)
    requires
        distinct(held),
    ensures
        match slot(held, who, c) {
            Some(i) => match stepped(event, held[i], fresh) {
                Some(e) => {
                    &&& slot(advanced(held, fresh, event), who, c) matches Some(j)
                    &&& advanced(held, fresh, event)[j] == e
                },
                None => slot(advanced(held, fresh, event), who, c) is None,
            },
            None => slot(advanced(held, fresh, event), who, c) is None,
        },
    decreases held.len(),
{
    if held.len() > 0 {
        let front = held.drop_last();
        let last = held.last();
        let out = advanced(front, fresh, event);
        assert(distinct(front)) by {
            assert(forall|j: int| 0 <= j < front.len() ==> front[j] == held[j]);
        }
        lemma_advanced_at(front, fresh, event, who, c);
        lemma_stepped_same(event, last, fresh);
        lemma_slot(front, who, c);
        lemma_slot(out, who, c);
        let all = advanced(held, fresh, event);
        match slot(front, who, c) {
            Some(i) => {
                assert(front[i] == held[i]);
                assert(!is_held(held[held.len() - 1], held[i].0@, held[i].1));
                assert(!is_held(last, who, c));
                match stepped(event, last, fresh) {
                    Some(e) => {
                        assert(all == out.push(e));
                        assert(all.drop_last() =~= out);
                        assert(!is_held(e, who, c));
                    },
                    None => {
                        assert(all == out);
                    },
                }
            },
            None => {
                match stepped(event, last, fresh) {
                    Some(e) => {
                        assert(all == out.push(e));
                        assert(all.drop_last() =~= out);
                        assert(is_held(e, who, c) == is_held(last, who, c));
                    },
                    None => {
                        assert(all == out);
                    },
                }
            },
        }
    }
}

/// A condition that ends with the next turn of its holder outlasts the turn
/// in which it was added, and ends with the turn after: let a character hold
/// no condition of some kind without a level, and be given one that lasts
/// until the end of its own next turn. When its turn then ends, it still holds
/// the condition. When after that another character has had its turn, and its
/// own turn has started and ended, it holds it no more.
pub proof fn law_grace_period(
    before: Conditions,
    x: ChrName,
    other: ChrName,
    kind: NonValuedCondition,
)
    requires
        before.wf(),
        other@ != x@,
        slot(
            before.held,
            x@,
            Condition::NonValued {
                cond: kind,
                term: NonValuedTerm::Until(TurnEvent::EndOfNextTurn(x)),
            },
        ) is None,
    ensures
        ({
            let c = Condition::NonValued {
                cond: kind,
                term: NonValuedTerm::Until(TurnEvent::EndOfNextTurn(x)),
            };
            let same_turn = before.added(x, c).turn_ended(x);
            let next_turn = same_turn.turn_started(other).turn_ended(other).turn_started(
                x,
            ).turn_ended(x);
            &&& slot(same_turn.held, x@, c) matches Some(i) && same_turn.held[i] == (x, c)
            &&& slot(next_turn.held, x@, c) is None
        }),
{
    let c = Condition::NonValued {
        cond: kind,
        term: NonValuedTerm::Until(TurnEvent::EndOfNextTurn(x)),
    };
    let s1 = before.added(x, c);
    lemma_add_distinct(before.held, x, c);
    lemma_slot(s1.held, x@, c);
    lemma_slot(before.fresh, x@, c);
    lemma_slot(s1.fresh, x@, c);
    assert(s1.held.last() == (x, c));
    assert(slot(s1.fresh, x@, c) is Some) by {
        if slot(before.fresh, x@, c) is None {
            assert(is_held(s1.fresh.last(), x@, c));
        }
    }
    // The turn in which it was added ends.
    let h1 = advanced(s1.held, s1.fresh, TurnEvent::EndOfCurrentTurn(x));
    lemma_advanced(s1.held, s1.fresh, TurnEvent::EndOfCurrentTurn(x));
    lemma_advanced_at(s1.held, s1.fresh, TurnEvent::EndOfCurrentTurn(x), x@, c);
    let h2 = advanced(h1, s1.fresh, TurnEvent::EndOfNextTurn(x));
    lemma_advanced(h1, s1.fresh, TurnEvent::EndOfNextTurn(x));
    lemma_advanced_at(h1, s1.fresh, TurnEvent::EndOfNextTurn(x), x@, c);
    let none = Seq::<Held>::empty();
    // Another character has its turn.
    let h3 = advanced(h2, none, TurnEvent::StartOfNextTurn(other));
    lemma_advanced(h2, none, TurnEvent::StartOfNextTurn(other));
    lemma_advanced_at(h2, none, TurnEvent::StartOfNextTurn(other), x@, c);
    let h4 = advanced(h3, none, TurnEvent::EndOfCurrentTurn(other));
    lemma_advanced(h3, none, TurnEvent::EndOfCurrentTurn(other));
    lemma_advanced_at(h3, none, TurnEvent::EndOfCurrentTurn(other), x@, c);
    let h5 = advanced(h4, none, TurnEvent::EndOfNextTurn(other));
    lemma_advanced(h4, none, TurnEvent::EndOfNextTurn(other));
    lemma_advanced_at(h4, none, TurnEvent::EndOfNextTurn(other), x@, c);
    // Its own next turn starts and ends.
    let h6 = advanced(h5, none, TurnEvent::StartOfNextTurn(x));
    lemma_advanced(h5, none, TurnEvent::StartOfNextTurn(x));
    lemma_advanced_at(h5, none, TurnEvent::StartOfNextTurn(x), x@, c);
    let h7 = advanced(h6, none, TurnEvent::EndOfCurrentTurn(x));
    lemma_advanced(h6, none, TurnEvent::EndOfCurrentTurn(x));
    lemma_advanced_at(h6, none, TurnEvent::EndOfCurrentTurn(x), x@, c);
    lemma_advanced_at(h7, none, TurnEvent::EndOfNextTurn(x), x@, c);
}

/// The conditions that the characters hold.
#[derive(Debug, PartialEq, Eq)]
pub struct ConditionManager {
    conds: Vec<(ChrName, Condition)>,
    new_conds: Vec<(ChrName, Condition)>,
}

/// What a [`ConditionManager`] stands for.
pub ghost struct Conditions {
    /// The conditions and their holders, in the order in which they came.
    pub held: Seq<Held>,
    /// Those added since a turn last started or ended.
    pub fresh: Seq<Held>,
}

impl Conditions {
    /// No character holds two conditions of one kind, nor is one fresh twice.
    pub open spec fn wf(self) -> bool {
        distinct(self.held) && distinct(self.fresh)
    }

    /// With `c` added to the character `who`.
    pub open spec fn added(self, who: ChrName, c: Condition) -> Conditions {
        Conditions {
            held: held_after_add(self.held, who, c),
            fresh: fresh_after_add(self.held, self.fresh, who, c),
        }
    }

    /// Without the condition of the kind of `c` on the character named `who`.
    pub open spec fn without(self, who: Seq<char>, c: Condition) -> Conditions {
        Conditions { held: held_without(self.held, who, c), ..self }
    }

    /// Without the conditions of the character named `who`.
    pub open spec fn without_character(self, who: Seq<char>) -> Conditions {
        Conditions { held: held_without_character(self.held, who), ..self }
    }

    /// With the conditions of the character named `from` held under the
    /// name `to`.
    pub open spec fn renamed(self, from: Seq<char>, to: ChrName) -> Conditions {
        Conditions { held: held_after_rename(self.held, from, to), ..self }
    }

    /// After the turn of `who` started.
    pub open spec fn turn_started(self, who: ChrName) -> Conditions {
        Conditions {
            held: advanced(self.held, self.fresh, TurnEvent::StartOfNextTurn(who)),
            fresh: Seq::empty(),
        }
    }

    /// After the turn of `who` ended.
    pub open spec fn turn_ended(self, who: ChrName) -> Conditions {
        Conditions {
            held: advanced(
                advanced(self.held, self.fresh, TurnEvent::EndOfCurrentTurn(who)),
                self.fresh,
                TurnEvent::EndOfNextTurn(who),
            ),
            fresh: Seq::empty(),
        }
    }
}

impl View for ConditionManager {
    type V = Conditions;

    closed spec fn view(&self) -> Conditions {
        Conditions { held: self.conds@, fresh: self.new_conds@ }
    }
}

impl Clone for ConditionManager {
    fn clone(&self) -> (r: Self)
        ensures
            r@ == self@,
    {
        ConditionManager { conds: copy_of(&self.conds), new_conds: copy_of(&self.new_conds) }
    }
}

impl Default for ConditionManager {
    fn default() -> (r: Self)
        ensures
            r@ == (Conditions { held: Seq::empty(), fresh: Seq::empty() }),
    {
        Self::new()
    }
}

impl ConditionManager {
    /// No character holds two conditions of one kind.
    pub open spec fn wf(self) -> bool {
        self@.wf()
    }

    /// A manager in which no character holds a condition.
    #[must_use]
    pub fn new() -> (r: Self)
        ensures
            r@ == (Conditions { held: Seq::empty(), fresh: Seq::empty() }),
            r.wf(),
    {
        Self { conds: Vec::new(), new_conds: Vec::new() }
    }

    /// A manager of the conditions `conds`, of which `new_conds` are fresh.
    /// Nothing is asked of them: `is_valid` tells whether no character
    /// holds two of a kind.
    #[must_use]
    pub fn from_parts(conds: Vec<(ChrName, Condition)>, new_conds: Vec<(ChrName, Condition)>) -> (r:
        Self)
        ensures
            r@ == (Conditions { held: conds@, fresh: new_conds@ }),
    {
        Self { conds, new_conds }
    }

    /// Whether no character holds two conditions of one kind, nor is a
    /// condition fresh twice.
    pub fn is_valid(&self) -> (r: bool)
        ensures
            r == self.wf(),
    {
        all_distinct(&self.conds) && all_distinct(&self.new_conds)
    }

    /// The conditions and their holders, in the order in which they came.
    #[must_use]
    pub fn held(&self) -> (r: Vec<(ChrName, Condition)>)
        ensures
            r@ == self@.held,
    {
        copy_of(&self.conds)
    }

    /// The conditions that were added since a turn last started or ended.
    #[must_use]
    pub fn fresh(&self) -> (r: Vec<(ChrName, Condition)>)
        ensures
            r@ == self@.fresh,
    {
        copy_of(&self.new_conds)
    }

    /// Adds `cond` to `character`, unless the character holds a condition of
    /// that kind that is as severe, and remembers it as fresh if it was added.
    pub fn add_condition(&mut self, character: ChrName, cond: Condition)
        ensures
            final(self)@ == old(self)@.added(character, cond),
            old(self).wf() ==> final(self).wf(),
    {
        let place = find(&self.conds, &character, &cond);
        let takes: bool = match place {
            Some(i) => match (&cond, &self.conds[i].1) {
                (Condition::Valued { level: l1, .. }, Condition::Valued { level: l2, .. }) => *l1
                    > *l2,
                _ => false,
            },
            None => true,
        };
        if takes {
            proof {
                lemma_slot(old(self).conds@, character@, cond);
                lemma_slot(old(self).new_conds@, character@, cond);
            }
            match place {
                Some(i) => {
                    self.conds[i] = (character.clone(), cond.clone());
                },
                None => {
                    self.conds.push((character.clone(), cond.clone()));
                },
            }
            if find(&self.new_conds, &character, &cond).is_none() {
                self.new_conds.push((character, cond));
            }
        }
    }

    /// Takes the condition of the kind of `condition` from `character`, if
    /// the character holds one.
    pub fn remove_condition(&mut self, character: &ChrName, condition: &Condition)
        ensures
            final(self)@ == old(self)@.without(character@, *condition),
            old(self).wf() ==> final(self).wf(),
    {
        let ghost gone = |e: Held| is_held(e, character@, *condition);
        let mut out: Vec<(ChrName, Condition)> = Vec::new();
        let mut i: usize = 0;
        while i < self.conds.len()
            invariant
                i <= self.conds.len(),
                self.conds@ == old(self).conds@,
                self.new_conds@ == old(self).new_conds@,
                gone == (|e: Held| is_held(e, character@, *condition)),
                out@ == kept(self.conds@.take(i as int), gone),
            decreases self.conds.len() - i,
        {
            proof {
                assert(self.conds@.take(i + 1).drop_last() =~= self.conds@.take(i as int));
            }
            if !(self.conds[i].0 == *character && self.conds[i].1 == *condition) {
                out.push((self.conds[i].0.clone(), self.conds[i].1.clone()));
            }
            i += 1;
        }
        proof {
            assert(self.conds@.take(i as int) =~= self.conds@);
            lemma_kept(self.conds@, gone);
        }
        self.conds = out;
    }

    /// Gives the conditions of `character` to the name `new_name`. Where the
    /// new name already holds a condition of a kind, the one that was held
    /// first stays.
    pub fn rename_character(&mut self, character: &ChrName, new_name: ChrName)
        ensures
            final(self)@ == old(self)@.renamed(character@, new_name),
            distinct(final(self)@.held),
            old(self).wf() ==> final(self).wf(),
    {
        let mut out: Vec<(ChrName, Condition)> = Vec::new();
        let mut i: usize = 0;
        while i < self.conds.len()
            invariant
                i <= self.conds.len(),
                self.conds@ == old(self).conds@,
                self.new_conds@ == old(self).new_conds@,
                out@ == held_after_rename(self.conds@.take(i as int), character@, new_name),
            decreases self.conds.len() - i,
        {
            proof {
                assert(self.conds@.take(i + 1).drop_last() =~= self.conds@.take(i as int));
            }
            let name = if self.conds[i].0 == *character {
                new_name.clone()
            } else {
                self.conds[i].0.clone()
            };
            let cond = self.conds[i].1.clone();
            if find(&out, &name, &cond).is_none() {
                out.push((name, cond));
            }
            i += 1;
        }
        proof {
            assert(self.conds@.take(i as int) =~= self.conds@);
            lemma_rename_distinct(self.conds@, character@, new_name);
        }
        self.conds = out;
    }

    /// Takes from `character` all the conditions that it holds.
    pub fn remove_character(&mut self, character: &ChrName)
        ensures
            final(self)@ == old(self)@.without_character(character@),
            old(self).wf() ==> final(self).wf(),
    {
        let ghost gone = |e: Held| e.0@ == character@;
        let mut out: Vec<(ChrName, Condition)> = Vec::new();
        let mut i: usize = 0;
        while i < self.conds.len()
            invariant
                i <= self.conds.len(),
                self.conds@ == old(self).conds@,
                self.new_conds@ == old(self).new_conds@,
                gone == (|e: Held| e.0@ == character@),
                out@ == kept(self.conds@.take(i as int), gone),
            decreases self.conds.len() - i,
        {
            proof {
                assert(self.conds@.take(i + 1).drop_last() =~= self.conds@.take(i as int));
            }
            if !(self.conds[i].0 == *character) {
                out.push((self.conds[i].0.clone(), self.conds[i].1.clone()));
            }
            i += 1;
        }
        proof {
            assert(self.conds@.take(i as int) =~= self.conds@);
            lemma_kept(self.conds@, gone);
        }
        self.conds = out;
    }

    /// The conditions that `character` holds.
    #[must_use]
    pub fn get_conditions(&self, character: &ChrName) -> (r: Vec<Condition>)
        ensures
            r@ == conditions_of(self@.held, character@),
    {
        let mut out: Vec<Condition> = Vec::new();
        let mut i: usize = 0;
        while i < self.conds.len()
            invariant
                i <= self.conds.len(),
                out@ == conditions_of(self.conds@.take(i as int), character@),
            decreases self.conds.len() - i,
        {
            proof {
                assert(self.conds@.take(i + 1).drop_last() =~= self.conds@.take(i as int));
            }
            if self.conds[i].0 == *character {
                out.push(self.conds[i].1.clone());
            }
            i += 1;
        }
        proof {
            assert(self.conds@.take(i as int) =~= self.conds@);
        }
        out
    }

    /// Signals that the turn of `character` starts: the conditions that
    /// change or end at the start of its next turn do so, and nothing is
    /// fresh any more.
    pub fn start_of_turn(&mut self, character: ChrName)
        ensures
            final(self)@ == old(self)@.turn_started(character),
            old(self).wf() ==> final(self).wf(),
    {
        self.handle_turn_event(&TurnEvent::StartOfNextTurn(character));
        self.new_conds = Vec::new();
    }

    /// Signals that the turn of `character` ends, and returns the persistent
    /// damage that it takes, if any. The conditions that change or end with
    /// the current turn of the character do so, then those that do with its
    /// next turn, and nothing is fresh any more.
    pub fn end_of_turn(&mut self, character: ChrName) -> (r: Option<Damage>)
        ensures
            final(self)@ == old(self)@.turn_ended(character),
            old(self).wf() ==> final(self).wf(),
            r == damage_due(persistent_damage(old(self)@.held, character@)),
    {
        let damage: u32 = self.persistent_damage_on(&character);
        self.handle_turn_event(&TurnEvent::EndOfCurrentTurn(character.clone()));
        self.handle_turn_event(&TurnEvent::EndOfNextTurn(character));
        self.new_conds = Vec::new();
        if damage == 0 {
            None
        } else {
            Some(damage)
        }
    }

    /// The persistent damage that `character` would take now.
    fn persistent_damage_on(&self, character: &ChrName) -> (r: u32)
        ensures
            r == persistent_damage(self@.held, character@),
    {
        let types = damage_types();
        let mut sum: u32 = 0;
        let mut i: usize = 0;
        while i < types.len()
            invariant
                i <= types.len(),
                types@.len() == 16,
                sum == persistent_damage_among(self.conds@, character@, types@.take(i as int)),
            decreases types.len() - i,
        {
            proof {
                assert(types@.take(i + 1).drop_last() =~= types@.take(i as int));
                lemma_persistent_damage_among(self.conds@, character@, types@.take(i as int));
            }
            let probe = Condition::Valued {
                cond: ValuedCondition::PersistentDamage(types[i]),
                term: ValuedTerm::Manual,
                level: 0,
            };
            match find(&self.conds, character, &probe) {
                Some(at) => {
                    match &self.conds[at].1 {
                        Condition::Valued { level, .. } => {
                            sum = sum + (*level as u32);
                        },
                        Condition::NonValued { .. } => {},
                    }
                },
                None => {},
            }
            i += 1;
        }
        proof {
            assert(types@.take(i as int) =~= types@);
        }
        sum
    }

    /// Lets every condition held take its step at `event`.
    fn handle_turn_event(&mut self, event: &TurnEvent)
        ensures
            final(self)@.held == advanced(old(self)@.held, old(self)@.fresh, *event),
            final(self)@.fresh == old(self)@.fresh,
            old(self).wf() ==> final(self).wf(),
    {
        let mut out: Vec<(ChrName, Condition)> = Vec::new();
        let mut i: usize = 0;
        while i < self.conds.len()
            invariant
                i <= self.conds.len(),
                self.conds@ == old(self).conds@,
                self.new_conds@ == old(self).new_conds@,
                out@ == advanced(self.conds@.take(i as int), self.new_conds@, *event),
            decreases self.conds.len() - i,
        {
            proof {
                assert(self.conds@.take(i + 1).drop_last() =~= self.conds@.take(i as int));
            }
            let affected = self.conds[i].0.clone();
            let cond = self.conds[i].1.clone();
            match self.cond_step(event, affected, cond) {
                Some(e) => {
                    out.push(e);
                },
                None => {},
            }
            i += 1;
        }
        proof {
            assert(self.conds@.take(i as int) =~= self.conds@);
            lemma_advanced(self.conds@, self.new_conds@, *event);
        }
        self.conds = out;
    }

    /// What becomes of `cond`, held by `affected`, when `event` fires.
    fn cond_step(&self, event: &TurnEvent, affected: ChrName, cond: Condition) -> (r: Option<
        (ChrName, Condition),
    >)
        ensures
            r == stepped(*event, (affected, cond), self@.fresh),
    {
        match cond {
            Condition::Valued { cond: kind, term, level } => match term {
                ValuedTerm::For(dur) => cond_step_for_valued(event, affected, dur, kind, level),
                ValuedTerm::Until(own) => {
                    let fires: bool = own == *event;
                    let current: bool = match &own {
                        TurnEvent::EndOfCurrentTurn(_) => true,
                        _ => false,
                    };
                    let held = Condition::Valued {
                        cond: kind,
                        term: ValuedTerm::Until(own),
                        level,
                    };
                    if fires && (current || !self.has_new_condition_on(&affected, &held)) {
                        None
                    } else {
                        Some((affected, held))
                    }
                },
                ValuedTerm::Reduced(own, reduction) => {
                    if own == *event {
                        self.cond_step_reduced(affected, own, reduction, level, kind)
                    } else {
                        Some(
                            (
                                affected,
                                Condition::Valued {
                                    cond: kind,
                                    term: ValuedTerm::Reduced(own, reduction),
                                    level,
                                },
                            ),
                        )
                    }
                },
                ValuedTerm::Manual => Some(
                    (affected, Condition::Valued { cond: kind, term: ValuedTerm::Manual, level }),
                ),
            },
            Condition::NonValued { cond: kind, term } => match term {
                NonValuedTerm::For(dur) => cond_step_for_nonvalued(event, affected, dur, kind),
                NonValuedTerm::Until(own) => {
                    let fires: bool = own == *event;
                    let current: bool = match &own {
                        TurnEvent::EndOfCurrentTurn(_) => true,
                        _ => false,
                    };
                    let held = Condition::NonValued { cond: kind, term: NonValuedTerm::Until(own) };
                    if fires && (current || !self.has_new_condition_on(&affected, &held)) {
                        None
                    } else {
                        Some((affected, held))
                    }
                },
                NonValuedTerm::Manual => Some(
                    (affected, Condition::NonValued { cond: kind, term: NonValuedTerm::Manual }),
                ),
            },
        }
    }

    /// What becomes, when its own event `event` fires, of a condition of
    /// kind `cond` and level `level` whose level sinks by `reduction`.
    fn cond_step_reduced(
        &self,
        affected: ChrName,
        event: TurnEvent,
        reduction: u8,
        level: u8,
        cond: ValuedCondition,
    ) -> (r: Option<(ChrName, Condition)>)
        ensures
            r == stepped_reduced(
                slot(
                    self@.fresh,
                    affected@,
                    Condition::Valued { cond, term: ValuedTerm::Reduced(event, reduction), level },
                ) is Some,
                affected,
                event,
                reduction,
                level,
                cond,
            ),
    {
        let next: bool = match &event {
            TurnEvent::EndOfNextTurn(_) => true,
            _ => false,
        };
        let held = Condition::Valued { cond, term: ValuedTerm::Reduced(event, reduction), level };
        if next && self.has_new_condition_on(&affected, &held) {
            Some((affected, held))
        } else {
            match held {
                Condition::Valued { cond: kind, term, level: was } => match reduce(reduction, was) {
                    Some(left) => Some(
                        (affected, Condition::Valued { cond: kind, term, level: left }),
                    ),
                    None => None,
                },
                Condition::NonValued { .. } => None,
            }
        }
    }

    /// Whether `condition` was added to `affected` since a turn last started
    /// or ended.
    fn has_new_condition_on(&self, affected: &ChrName, condition: &Condition) -> (r: bool)
        ensures
            r == slot(self@.fresh, affected@, *condition) is Some,
    {
        find(&self.new_conds, affected, condition).is_some()
    }
}

/// What is returned for an amount of damage: nothing where it is zero.
pub open spec fn damage_due(damage: nat) -> Option<Damage> {
    if damage == 0 {
        None
    } else {
        Some(damage as u32)
    }
}

/// `level` less `reduction`, and none where nothing is left.
fn reduce(reduction: u8, level: u8) -> (r: Option<u8>)
    ensures
        r == reduced_level(reduction, level),
{
    if level <= reduction {
        None
    } else {
        Some(level - reduction)
    }
}

/// The time left of `dur` after one more turn.
fn duration_turn(dur: Duration) -> (r: Option<Duration>)
    ensures
        r == turns_left(dur),
{
    let turns: u64 = dur.whole_turns();
    let total: u64 = dur.total_seconds();
    if turns <= 1 {
        None
    } else {
        proof {
            lemma_quotient_grows((6 * (turns - 1)) as nat, total as nat);
        }
        Some(Duration::from_total_seconds(6 * (turns - 1)))
    }
}

/// What becomes of a condition without a level and with a term `For(dur)`,
/// held by `affected`, when `event` fires.
fn cond_step_for_nonvalued(
    event: &TurnEvent,
    affected: ChrName,
    dur: Duration,
    cond: NonValuedCondition,
) -> (r: Option<(ChrName, Condition)>)
    ensures
        r == stepped_for_nonvalued(*event, affected, dur, cond),
{
    let own: bool = match event {
        TurnEvent::EndOfNextTurn(c) => *c == affected,
        _ => false,
    };
    if own {
        match duration_turn(dur) {
            Some(left) => Some(
                (affected, Condition::NonValued { cond, term: NonValuedTerm::For(left) }),
            ),
            None => None,
        }
    } else {
        Some((affected, Condition::NonValued { cond, term: NonValuedTerm::For(dur) }))
    }
}

/// What becomes of a condition with a level and a term `For(dur)`, held by
/// `affected`, when `event` fires.
fn cond_step_for_valued(
    event: &TurnEvent,
    affected: ChrName,
    dur: Duration,
    cond: ValuedCondition,
    level: u8,
) -> (r: Option<(ChrName, Condition)>)
    ensures
        r == stepped_for_valued(*event, affected, dur, cond, level),
{
    let own: bool = match event {
        TurnEvent::EndOfNextTurn(c) => *c == affected,
        _ => false,
    };
    if own {
        match duration_turn(dur) {
            Some(left) => Some(
                (affected, Condition::Valued { cond, term: ValuedTerm::For(left), level }),
            ),
            None => None,
        }
    } else {
        Some((affected, Condition::Valued { cond, term: ValuedTerm::For(dur), level }))
    }
}

} // verus!
