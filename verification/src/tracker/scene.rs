//! What a tracker stands for: the roster, whose turn it is and the
//! conditions, and the same for each step that can be undone or redone.

use crate::character::{Chr, ChrName};
use crate::conditions::condition_manager::{
    advanced, lemma_advanced, lemma_kept, lemma_persistent_damage_bound, persistent_damage,
    Conditions, Held,
};
use crate::conditions::Condition;
use crate::conditions::TurnEvent;
use crate::settings::Settings;
use crate::tracker::history::pushed;
use crate::tracker::roster::{
    all_wf, in_order, landing, lemma_landing, lemma_landing_in_order, lemma_ordered_push,
    lemma_ordered_update, ordered, position,
};
use crate::tracker::MovedStatus;
use vstd::prelude::*;

verus! {

/// The state of an encounter at one moment.
pub ghost struct Scene {
    /// The roster in turn order.
    pub chrs: Seq<Chr>,
    /// The place in the roster of the character in turn, if any.
    pub in_turn: Option<usize>,
    /// The conditions that the characters hold.
    pub conds: Conditions,
}

impl Scene {
    /// The roster is in turn order and no longer than a machine can hold,
    /// the pools of hit points are valid, the turn is that of a character
    /// in the roster, and no character holds two conditions of one kind.
    pub open spec fn wf(self) -> bool {
        &&& in_order(self.chrs)
        &&& all_wf(self.chrs)
        &&& self.chrs.len() <= usize::MAX
        &&& self.in_turn matches Some(i) ==> i < self.chrs.len()
        &&& self.conds.wf()
    }

    /// The character in turn.
    pub open spec fn acting(self) -> Option<Chr> {
        match self.in_turn {
            Some(i) => if i < self.chrs.len() {
                Some(self.chrs[i as int])
            } else {
                None
            },
            None => None,
        }
    }

    /// After the turn of the character in turn was closed: it has taken its
    /// persistent damage, and its conditions have been told that its turn
    /// ended. Nothing changes where no one is in turn.
    pub open spec fn turn_closed(self) -> Scene {
        match self.in_turn {
            Some(i) => {
                let who = self.chrs[i as int];
                let damage = persistent_damage(self.conds.held, who.name@);
                Scene {
                    chrs: if damage == 0 {
                        self.chrs
                    } else {
                        self.chrs.update(i as int, who.damaged(damage as u32))
                    },
                    in_turn: self.in_turn,
                    conds: self.conds.turn_ended(who.name),
                }
            },
            None => self,
        }
    }

    /// The place whose turn is next: the first where no one was in turn, the
    /// one behind the place in turn otherwise, and the first again behind the
    /// last. In an empty roster the turn stays where it is.
    pub open spec fn next_place(self) -> Option<usize> {
        if self.chrs.len() == 0 {
            self.in_turn
        } else {
            match self.in_turn {
                Some(i) => Some(((i + 1) % (self.chrs.len() as int)) as usize),
                None => Some(0),
            }
        }
    }

    /// After the turn ended: the turn of the character in turn is closed, the
    /// next character is in turn, and the conditions have been told that its
    /// turn started.
    pub open spec fn turn_ended(self) -> Scene {
        let closed = self.turn_closed();
        let next = closed.next_place();
        Scene {
            chrs: closed.chrs,
            in_turn: next,
            conds: match next {
                Some(j) => if j < closed.chrs.len() {
                    closed.conds.turn_started(closed.chrs[j as int].name)
                } else {
                    closed.conds
                },
                None => closed.conds,
            },
        }
    }

    /// After `n` turns ended.
    pub open spec fn turns_ended(self, n: nat) -> Scene
        decreases n,
    {
        if n == 0 {
            self
        } else {
            self.turns_ended((n - 1) as nat).turn_ended()
        }
    }

    /// With `chr` in the roster, behind the characters that it ties with. The
    /// character in turn stays in turn.
    pub open spec fn with_added(self, chr: Chr) -> Scene {
        let p = landing(self.chrs, chr, self.chrs.len() as int);
        Scene {
            chrs: self.chrs.insert(p, chr),
            in_turn: match self.in_turn {
                Some(i) => if p <= i {
                    Some((i + 1) as usize)
                } else {
                    Some(i)
                },
                None => None,
            },
            conds: self.conds,
        }
    }

    /// Without the character at place `at` and its conditions. A character
    /// in turn stays in turn; where the one in turn leaves, the turn ends as
    /// it would have ended for the one before it, so that the one behind it
    /// comes in turn.
    pub open spec fn without(self, at: int) -> Scene {
        let left = Scene {
            chrs: self.chrs.remove(at),
            in_turn: self.in_turn,
            conds: self.conds.without_character(self.chrs[at].name@),
        };
        if left.chrs.len() == 0 {
            Scene { in_turn: None, ..left }
        } else {
            match self.in_turn {
                Some(i) => if at < i {
                    Scene { in_turn: Some((i - 1) as usize), ..left }
                } else if at == i {
                    Scene {
                        in_turn: if i == 0 {
                            None
                        } else {
                            Some((i - 1) as usize)
                        },
                        ..left
                    }.turn_ended()
                } else {
                    left
                },
                None => left,
            }
        }
    }

    /// With `x` in the place of the character at `at`, which leaves the
    /// order as it is.
    pub open spec fn with_replaced(self, at: int, x: Chr) -> Scene {
        Scene { chrs: self.chrs.update(at, x), ..self }
    }

    /// With the first character named `name` changed by `change`, which
    /// leaves the order as it is. Nothing changes where no character has
    /// that name.
    pub open spec fn with_change(self, name: Seq<char>, change: spec_fn(Chr) -> Chr) -> Scene {
        match position(self.chrs, name) {
            Some(at) => self.with_replaced(at, change(self.chrs[at])),
            None => self,
        }
    }

    /// With the first character named `old` under the name `new`, and the
    /// conditions of `old` held under that name.
    pub open spec fn with_rename(self, old: Seq<char>, new: ChrName) -> Scene {
        Scene { conds: self.conds.renamed(old, new), ..self }.with_change(
            old,
            |c: Chr| c.renamed(new),
        )
    }

    /// With the first character named `name` given the initiative `init`
    /// and moved to the place that the order gives it.
    pub open spec fn with_init(self, name: Seq<char>, init: i32) -> Scene {
        match position(self.chrs, name) {
            Some(at) => self.with_moved(at, Chr { init, ..self.chrs[at] }),
            None => self,
        }
    }

    /// What is told of that move.
    pub open spec fn init_notice(self, name: Seq<char>, init: i32) -> Option<MovedStatus> {
        match position(self.chrs, name) {
            Some(at) => self.move_notice(at, Chr { init, ..self.chrs[at] }),
            None => None,
        }
    }

    /// With the first character named `name` put on the side `player` and
    /// moved to the place that the order gives it.
    pub open spec fn with_side(self, name: Seq<char>, player: bool) -> Scene {
        match position(self.chrs, name) {
            Some(at) => self.with_moved(at, Chr { player, ..self.chrs[at] }),
            None => self,
        }
    }

    /// What is told of that move.
    pub open spec fn side_notice(self, name: Seq<char>, player: bool) -> Option<MovedStatus> {
        match position(self.chrs, name) {
            Some(at) => self.move_notice(at, Chr { player, ..self.chrs[at] }),
            None => None,
        }
    }

    /// Without the first character named `name` and the conditions of that
    /// name. Nothing changes where no character has that name.
    pub open spec fn without_named(self, name: Seq<char>) -> Scene {
        match position(self.chrs, name) {
            Some(at) => self.without(at),
            None => self,
        }
    }

    /// With `cond` added to the character `name`, if the roster has one of
    /// that name.
    pub open spec fn with_condition(self, name: ChrName, cond: Condition) -> Scene {
        match position(self.chrs, name@) {
            Some(_) => Scene { conds: self.conds.added(name, cond), ..self },
            None => self,
        }
    }

    /// The place to which the character at `at` moves when it becomes `x`.
    pub open spec fn new_place(self, at: int, x: Chr) -> int {
        landing(self.chrs.remove(at), x, at)
    }

    /// With the character at `at` become `x` and moved to the place that the
    /// order gives it: behind the ties that stood before it, before those
    /// that stood behind it. A character in turn that did not move itself
    /// stays in turn; where the one in turn moved, the turn stays at its
    /// place.
    pub open spec fn with_moved(self, at: int, x: Chr) -> Scene {
        let to = self.new_place(at, x);
        Scene {
            chrs: self.chrs.remove(at).insert(to, x),
            in_turn: match self.in_turn {
                Some(i) => if at < i && i <= to {
                    Some((i - 1) as usize)
                } else if at > i && i >= to {
                    Some((i + 1) as usize)
                } else {
                    Some(i)
                },
                None => None,
            },
            conds: self.conds,
        }
    }

    /// What is told of the move of the character at `at` that becomes `x`.
    pub open spec fn move_notice(self, at: int, x: Chr) -> Option<MovedStatus> {
        let to = self.new_place(at, x);
        match self.in_turn {
            Some(i) => if at == i && to != i {
                Some(MovedStatus::TwoTurns(x))
            } else if at < i && i <= to {
                Some(MovedStatus::TwoTurns(x))
            } else if at > i && i >= to {
                Some(MovedStatus::Skipped(x))
            } else {
                None
            },
            None => None,
        }
    }

    /// With an empty roster, no one in turn and no conditions.
    pub open spec fn cleared() -> Scene {
        Scene {
            chrs: Seq::empty(),
            in_turn: None,
            conds: Conditions { held: Seq::empty(), fresh: Seq::empty() },
        }
    }
}

/// What a tracker stands for.
pub ghost struct TrackerView {
    /// The encounter as it is.
    pub now: Scene,
    /// The scenes to which `undo` goes back, the latest first.
    pub history: Seq<Scene>,
    /// The scenes to which `redo` goes forward, the nearest first.
    pub undone: Seq<Scene>,
    /// The user's settings.
    pub settings: Settings,
}

impl TrackerView {
    /// Every scene is well formed, and neither history is deeper than the
    /// settings allow.
    pub open spec fn wf(self) -> bool {
        &&& self.now.wf()
        &&& forall|k: int| 0 <= k < self.history.len() ==> (#[trigger] self.history[k]).wf()
        &&& forall|k: int| 0 <= k < self.undone.len() ==> (#[trigger] self.undone[k]).wf()
        &&& self.history.len() <= self.settings.depth()
        &&& self.undone.len() <= self.settings.depth()
    }

    /// With the scene as it is remembered for `undo`, and nothing left to
    /// redo: what every change does first.
    pub open spec fn snapped(self) -> TrackerView {
        TrackerView {
            history: pushed(self.history, self.now, self.settings.depth()),
            undone: Seq::empty(),
            ..self
        }
    }

    /// With another scene as the encounter as it is.
    pub open spec fn with_now(self, now: Scene) -> TrackerView {
        TrackerView { now, ..self }
    }

    /// One step back: the latest scene of the history is the encounter, and
    /// the encounter as it was can be redone.
    pub open spec fn stepped_back(self) -> TrackerView {
        TrackerView {
            now: self.history[0],
            history: self.history.drop_first(),
            undone: pushed(self.undone, self.now, self.settings.depth()),
            settings: self.settings,
        }
    }

    /// One step forward again: the mirror image of `stepped_back`.
    pub open spec fn stepped_forward(self) -> TrackerView {
        TrackerView {
            now: self.undone[0],
            history: pushed(self.history, self.now, self.settings.depth()),
            undone: self.undone.drop_first(),
            settings: self.settings,
        }
    }

    /// `n` steps back.
    pub open spec fn back(self, n: nat) -> TrackerView
        decreases n,
    {
        if n == 0 {
            self
        } else {
            self.back((n - 1) as nat).stepped_back()
        }
    }

    /// `n` steps forward.
    pub open spec fn forward(self, n: nat) -> TrackerView
        decreases n,
    {
        if n == 0 {
            self
        } else {
            self.forward((n - 1) as nat).stepped_forward()
        }
    }
}

/// A roster stays in order when a character leaves, and the pools of the
/// others are valid if all were.
pub proof fn lemma_remove_in_order(chrs: Seq<Chr>, at: int)
    requires
        in_order(chrs),
        0 <= at < chrs.len(),
    ensures
        in_order(chrs.remove(at)),
        all_wf(chrs) ==> all_wf(chrs.remove(at)),
{
    let r = chrs.remove(at);
    assert forall|i: int, j: int| 0 <= i < j < r.len() implies !(#[trigger] r[j]).acts_before(
        #[trigger] r[i],
    ) by {
        let a = if i < at {
            i
        } else {
            i + 1
        };
        let b = if j < at {
            j
        } else {
            j + 1
        };
        assert(r[i] == chrs[a] && r[j] == chrs[b]);
    }
}

/// A roster stays in order when a character changes in what the order does
/// not look at.
pub proof fn lemma_update_in_order(chrs: Seq<Chr>, at: int, x: Chr)
    requires
        in_order(chrs),
        0 <= at < chrs.len(),
        x.init == chrs[at].init,
        x.player == chrs[at].player,
    ensures
        in_order(chrs.update(at, x)),
{
    let r = chrs.update(at, x);
    assert forall|i: int, j: int| 0 <= i < j < r.len() implies !(#[trigger] r[j]).acts_before(
        #[trigger] r[i],
    ) by {
        assert(!chrs[j].acts_before(chrs[i]));
    }
}

impl Scene {
    /// Closing a turn keeps the scene well formed and the roster as long as
    /// it was.
    pub proof fn lemma_turn_closed(self)
        requires
            self.wf(),
        ensures
            self.turn_closed().wf(),
            self.turn_closed().chrs.len() == self.chrs.len(),
            self.turn_closed().in_turn == self.in_turn,
            self.in_turn matches Some(i) ==> persistent_damage(
                self.conds.held,
                self.chrs[i as int].name@,
            ) <= u32::MAX,
            forall|k: int|
                0 <= k < self.chrs.len() ==> {
                    &&& (#[trigger] self.turn_closed().chrs[k]).name == self.chrs[k].name
                    &&& self.turn_closed().chrs[k].init == self.chrs[k].init
                    &&& self.turn_closed().chrs[k].player == self.chrs[k].player
                },
    {
        match self.in_turn {
            Some(i) => {
                let who = self.chrs[i as int];
                let damage = persistent_damage(self.conds.held, who.name@);
                lemma_persistent_damage_bound(self.conds.held, who.name@);
                lemma_update_in_order(self.chrs, i as int, who.damaged(damage as u32));
                let first = TurnEvent::EndOfCurrentTurn(who.name);
                lemma_advanced(self.conds.held, self.conds.fresh, first);
                lemma_advanced(
                    advanced(
                        self.conds.held,
                        self.conds.fresh,
                        first,
                    ),
                    self.conds.fresh,
                    TurnEvent::EndOfNextTurn(who.name),
                );
            },
            None => {},
        }
    }

    /// Ending a turn keeps the scene well formed and everyone at its place;
    /// in a roster that is not empty, the turn moves on by one place, and
    /// from the last place to the first.
    pub proof fn lemma_turn_ended(self)
        requires
            self.wf(),
        ensures
            self.turn_ended().wf(),
            self.turn_ended().chrs.len() == self.chrs.len(),
            self.turn_ended().in_turn == self.next_place(),
            forall|k: int|
                0 <= k < self.chrs.len() ==> {
                    &&& (#[trigger] self.turn_ended().chrs[k]).name == self.chrs[k].name
                    &&& self.turn_ended().chrs[k].init == self.chrs[k].init
                    &&& self.turn_ended().chrs[k].player == self.chrs[k].player
                },
    {
        self.lemma_turn_closed();
        let closed = self.turn_closed();
        match closed.next_place() {
            Some(j) => {
                if j < closed.chrs.len() {
                    lemma_advanced(
                        closed.conds.held,
                        closed.conds.fresh,
                        TurnEvent::StartOfNextTurn(closed.chrs[j as int].name),
                    );
                }
            },
            None => {},
        }
    }

    /// A scene stays well formed when a character is added; the roster is
    /// the roster with the character behind it, put in order again, and the
    /// character in turn is the same as before.
    pub proof fn lemma_with_added(self, chr: Chr)
        requires
            self.wf(),
            chr.wf(),
            self.chrs.len() < usize::MAX,
        ensures
            self.with_added(chr).wf(),
            self.with_added(chr).chrs == ordered(self.chrs.push(chr)),
            self.with_added(chr).acting() == self.acting(),
    {
        lemma_landing(self.chrs, chr, self.chrs.len() as int);
        lemma_landing_in_order(self.chrs, chr, self.chrs.len() as int);
        lemma_ordered_push(self.chrs, chr);
    }

    /// A scene stays well formed when a character is removed.
    pub proof fn lemma_without(self, at: int)
        requires
            self.wf(),
            0 <= at < self.chrs.len(),
        ensures
            self.without(at).wf(),
    {
        lemma_remove_in_order(self.chrs, at);
        lemma_kept(self.conds.held, |e: Held| e.0@ == self.chrs[at].name@);
        let left = Scene {
            chrs: self.chrs.remove(at),
            in_turn: self.in_turn,
            conds: self.conds.without_character(self.chrs[at].name@),
        };
        if left.chrs.len() > 0 {
            match self.in_turn {
                Some(i) => {
                    if at == i {
                        let stepped = Scene {
                            in_turn: if i == 0 {
                                None
                            } else {
                                Some((i - 1) as usize)
                            },
                            ..left
                        };
                        stepped.lemma_turn_ended();
                    }
                },
                None => {},
            }
        }
    }

    /// A scene stays well formed when a character changes in what the order
    /// does not look at.
    pub proof fn lemma_with_replaced(self, at: int, x: Chr)
        requires
            self.wf(),
            x.wf(),
            0 <= at < self.chrs.len(),
            x.init == self.chrs[at].init,
            x.player == self.chrs[at].player,
        ensures
            self.with_replaced(at, x).wf(),
    {
        lemma_update_in_order(self.chrs, at, x);
    }

    /// A scene stays well formed when a character moves in the order, and
    /// the roster is the roster with the changed character, put in order
    /// again.
    pub proof fn lemma_with_moved(self, at: int, x: Chr)
        requires
            self.wf(),
            x.wf(),
            0 <= at < self.chrs.len(),
        ensures
            self.with_moved(at, x).wf(),
            self.with_moved(at, x).chrs == ordered(self.chrs.update(at, x)),
            0 <= self.new_place(at, x) < self.chrs.len(),
            self.with_moved(at, x).chrs.len() == self.chrs.len(),
    {
        lemma_remove_in_order(self.chrs, at);
        lemma_landing(self.chrs.remove(at), x, at);
        lemma_landing_in_order(self.chrs.remove(at), x, at);
        lemma_ordered_update(self.chrs, at, x);
    }
}

} // verus!
