//! The tracker: the roster in turn order, whose turn it is, the conditions,
//! and the history by which changes are undone and redone.
//!
//! Every change first remembers the encounter as it is, so that it can be
//! undone, and hands the tracker to its saver when it is done.

use crate::character::{Chr, ChrName, Health};
use crate::conditions::condition_manager::{
    conditions_of, is_held, lemma_kept, ConditionManager, Conditions, Held,
};
use crate::conditions::Condition;
use crate::saver::Saver;
use crate::settings::{Pf2eVersion, Settings, DEFAULT_UNDO_SIZE};
use crate::tracker::history::{cut, pushed, BoundedStack};
use crate::tracker::roster::{
    all_wf, are_valid, in_order, is_in_order, land, ordered, pos, position, sort,
};
use crate::tracker::scene::{lemma_remove_in_order, Scene, TrackerView};
use vstd::prelude::*;
use vstd::std_specs::cmp::PartialEqSpecImpl;
use vstd::string::StringExecFns;

pub mod history;
pub mod laws;
pub mod roster;
pub mod scene;

verus! {

/// Why the tracker refused or failed.
#[derive(Debug)]
pub enum Error {
    /// There is already a character of that name.
    AddDupError(ChrName),
    /// There is no character of that name to remove.
    RmNoneError(ChrName),
    /// There is no character of that name to change.
    ChangeNoneError(ChrName),
    /// There is already a character of the new name.
    RenameDupError { old: ChrName, new: String },
    /// The saver failed.
    LoadError(crate::saver::Error),
    /// Nothing is left to undo.
    UndoNothingError,
    /// Nothing is left to redo.
    RedoNothingError,
}

impl PartialEq for Error {
    fn eq(&self, other: &Self) -> (r: bool) {
        match (self, other) {
            (Self::AddDupError(x), Self::AddDupError(y)) => *x == *y,
            (Self::RmNoneError(x), Self::RmNoneError(y)) => *x == *y,
            (Self::ChangeNoneError(x), Self::ChangeNoneError(y)) => *x == *y,
            (
                Self::RenameDupError { old: old1, new: new1 },
                Self::RenameDupError { old: old2, new: new2 },
            ) => *old1 == *old2 && *new1 == *new2,
            (Self::LoadError(_), Self::LoadError(_)) => true,
            (Self::UndoNothingError, Self::UndoNothingError) => true,
            (Self::RedoNothingError, Self::RedoNothingError) => true,
            _ => false,
        }
    }
}

impl PartialEqSpecImpl for Error {
    open spec fn obeys_eq_spec() -> bool {
        true
    }

    /// Two errors are equal when they are of the same kind and name the same
    /// characters; how a saver failed makes no difference.
    open spec fn eq_spec(&self, other: &Self) -> bool {
        match (*self, *other) {
            (Self::AddDupError(x), Self::AddDupError(y)) => x@ == y@,
            (Self::RmNoneError(x), Self::RmNoneError(y)) => x@ == y@,
            (Self::ChangeNoneError(x), Self::ChangeNoneError(y)) => x@ == y@,
            (
                Self::RenameDupError { old: old1, new: new1 },
                Self::RenameDupError { old: old2, new: new2 },
            ) => old1@ == old2@ && new1@ == new2@,
            (Self::LoadError(_), Self::LoadError(_)) => true,
            (Self::UndoNothingError, Self::UndoNothingError) => true,
            (Self::RedoNothingError, Self::RedoNothingError) => true,
            _ => false,
        }
    }
}

pub type Result<T> = std::result::Result<T, Error>;

/// What is told when a character's place in the order changed in a way that
/// touches the running round. Each holds the character as it is after the
/// change.
#[derive(Debug, PartialEq, Eq)]
pub enum MovedStatus {
    /// The character moved from behind the one in turn to before it, so its
    /// turn is skipped in this round.
    Skipped(Chr),
    /// The move gives someone a second turn in this round: the character
    /// moved from before the one in turn to behind it, or it was in turn
    /// itself and left its place to another.
    TwoTurns(Chr),
}

impl Clone for MovedStatus {
    fn clone(&self) -> (r: Self)
        ensures
            r == *self,
    {
        match self {
            Self::Skipped(c) => Self::Skipped(c.clone()),
            Self::TwoTurns(c) => Self::TwoTurns(c.clone()),
        }
    }
}

/// The encounter at one moment, as the history keeps it.
#[derive(Debug, PartialEq, Eq)]
pub struct Snapshot {
    pub chrs: Vec<Chr>,
    pub in_turn_index: Option<usize>,
    pub cm: ConditionManager,
}

impl View for Snapshot {
    type V = Scene;

    open spec fn view(&self) -> Scene {
        Scene { chrs: self.chrs@, in_turn: self.in_turn_index, conds: self.cm@ }
    }
}

impl Snapshot {
    /// Whether the scene is well formed.
    pub fn is_valid(&self) -> (r: bool)
        ensures
            r == self@.wf(),
    {
        scene_is_valid(&self.chrs, self.in_turn_index, &self.cm)
    }
}

/// Whether a roster, a turn and conditions make a well-formed scene.
fn scene_is_valid(chrs: &Vec<Chr>, in_turn_index: Option<usize>, cm: &ConditionManager) -> (r:
    bool)
    ensures
        r == (Scene { chrs: chrs@, in_turn: in_turn_index, conds: cm@ }).wf(),
{
    let turn: bool = match in_turn_index {
        Some(i) => i < chrs.len(),
        None => true,
    };
    assert(chrs.len() == chrs@.len());
    turn && is_in_order(chrs) && are_valid(chrs) && cm.is_valid()
}

/// Whether every scene of the stack is well formed.
fn stack_is_valid(stack: &BoundedStack<Snapshot>) -> (r: bool)
    ensures
        r == forall|k: int| 0 <= k < stack@.len() ==> (#[trigger] scenes(stack@)[k]).wf(),
{
    let mut i: usize = 0;
    while i < stack.len()
        invariant
            i <= stack@.len(),
            forall|k: int| 0 <= k < i ==> (#[trigger] scenes(stack@)[k]).wf(),
        decreases stack@.len() - i,
    {
        if !stack.get(i).is_valid() {
            assert(!scenes(stack@)[i as int].wf());
            return false;
        }
        i += 1;
    }
    true
}

impl Clone for Snapshot {
    fn clone(&self) -> (r: Self)
        ensures
            r@ == self@,
    {
        let chrs = self.chrs.clone();
        assert(chrs@ =~= self.chrs@);
        Snapshot { chrs, in_turn_index: self.in_turn_index, cm: self.cm.clone() }
    }
}

/// The scenes that a stack of snapshots stands for, from the top.
pub open spec fn scenes(stack: Seq<Snapshot>) -> Seq<Scene> {
    stack.map_values(|s: Snapshot| s@)
}

/// Everything that a tracker holds, as it is handed to a saver.
#[derive(Debug, PartialEq, Eq)]
pub struct TrackerData {
    pub chrs: Vec<Chr>,
    pub in_turn_index: Option<usize>,
    pub cm: ConditionManager,
    pub undone: BoundedStack<Snapshot>,
    pub history: BoundedStack<Snapshot>,
    pub settings: Settings,
}

impl View for TrackerData {
    type V = TrackerView;

    open spec fn view(&self) -> TrackerView {
        TrackerView {
            now: Scene { chrs: self.chrs@, in_turn: self.in_turn_index, conds: self.cm@ },
            history: scenes(self.history@),
            undone: scenes(self.undone@),
            settings: self.settings,
        }
    }
}

impl TrackerData {
    /// Every scene is well formed, and both histories are bounded by the
    /// depth that the settings give.
    pub open spec fn wf(self) -> bool {
        &&& self@.wf()
        &&& self.history.bound() == self.settings.depth()
        &&& self.undone.bound() == self.settings.depth()
    }
}

impl TrackerData {
    /// Whether the data is well formed.
    pub fn is_valid(&self) -> (r: bool)
        ensures
            r == self.wf(),
    {
        let depth: usize = self.settings.get_undo_size();
        self.history.get_bound() == depth && self.undone.get_bound() == depth
            && self.history.len() <= depth && self.undone.len() <= depth && scene_is_valid(
            &self.chrs,
            self.in_turn_index,
            &self.cm,
        ) && stack_is_valid(&self.history) && stack_is_valid(&self.undone)
    }
}

impl Clone for TrackerData {
    fn clone(&self) -> (r: Self)
        ensures
            r@ == self@,
            r.history.bound() == self.history.bound(),
            r.undone.bound() == self.undone.bound(),
    {
        let chrs = self.chrs.clone();
        assert(chrs@ =~= self.chrs@);
        let r = TrackerData {
            chrs,
            in_turn_index: self.in_turn_index,
            cm: self.cm.clone(),
            undone: self.undone.clone(),
            history: self.history.clone(),
            settings: self.settings,
        };
        assert(scenes(r.history@) =~= scenes(self.history@));
        assert(scenes(r.undone@) =~= scenes(self.undone@));
        r
    }
}

/// What a change returns once the tracker was handed to its saver: what was
/// due if the saver took it, and the saver's error if it did not.
pub fn after_save<T>(saved: crate::saver::Result<()>, due: T) -> (r: Result<T>)
    ensures
        r == match saved {
            Ok(_) => Ok::<T, Error>(due),
            Err(e) => Err::<T, Error>(Error::LoadError(e)),
        },
{
    match saved {
        Ok(_) => Ok(due),
        Err(e) => Err(Error::LoadError(e)),
    }
}

/// `r` is what was due, or the failure of the saver where success was due
/// and the saver can fail.
pub open spec fn due_or_unsaved<S: Saver, T>(r: Result<T>, due: Result<T>) -> bool {
    r == due || (due is Ok && !S::never_fails() && r matches Err(Error::LoadError(_)))
}

/// The place of the save named `file_name`: among the saves.
pub fn save_path(file_name: &str) -> (r: String)
    ensures
        r@ == "saves/"@ + file_name@,
{
    let mut dir: String = "saves/".to_owned();
    dir.append(file_name);
    dir
}

/// A tracker.
#[derive(Debug, PartialEq, Eq)]
pub struct Tracker<S: Saver> {
    chrs: Vec<Chr>,
    in_turn_index: Option<usize>,
    saver: S,
    cm: ConditionManager,
    undone: BoundedStack<Snapshot>,
    history: BoundedStack<Snapshot>,
    settings: Settings,
}

impl<S: Saver> View for Tracker<S> {
    type V = TrackerView;

    closed spec fn view(&self) -> TrackerView {
        TrackerView {
            now: Scene { chrs: self.chrs@, in_turn: self.in_turn_index, conds: self.cm@ },
            history: scenes(self.history@),
            undone: scenes(self.undone@),
            settings: self.settings,
        }
    }
}

impl<S: Saver> Clone for Tracker<S> {
    fn clone(&self) -> (r: Self)
        ensures
            r@ == self@,
            self.wf() ==> r.wf(),
            cloned::<S>(self.keeper(), r.keeper()),
    {
        let chrs = self.chrs.clone();
        assert(chrs@ =~= self.chrs@);
        let r = Tracker {
            chrs,
            in_turn_index: self.in_turn_index,
            saver: self.saver.clone(),
            cm: self.cm.clone(),
            undone: self.undone.clone(),
            history: self.history.clone(),
            settings: self.settings,
        };
        assert(scenes(r.history@) =~= scenes(self.history@));
        assert(scenes(r.undone@) =~= scenes(self.undone@));
        r
    }
}

impl<S: Saver> Default for Tracker<S> {
    /// An empty tracker with the default settings and the saver's default.
    fn default() -> (r: Self)
        ensures
            r.wf(),
            call_ensures(S::default, (), r.keeper()),
            r@.now == Scene::cleared(),
            r@.history.len() == 0,
            r@.undone.len() == 0,
            r@.settings.depth() == DEFAULT_UNDO_SIZE,
            r@.settings.version() == Pf2eVersion::Remastered,
    {
        Builder::new(S::default()).build()
    }
}

/// A tracker under construction.
pub struct Builder<S: Saver> {
    chrs: Vec<Chr>,
    in_turn_index: Option<usize>,
    saver: S,
    cm: ConditionManager,
}

impl<S: Saver> Default for Builder<S> {
    /// A builder with an empty roster and the saver's default.
    fn default() -> (r: Self)
        ensures
            r.roster() == Seq::<Chr>::empty(),
            call_ensures(S::default, (), r.keeper()),
    {
        Builder::new(S::default())
    }
}

impl<S: Saver> Builder<S> {
    /// The roster is in turn order, no one is in turn, and no one holds a
    /// condition.
    #[verifier::type_invariant]
    closed spec fn inv(self) -> bool {
        &&& in_order(self.chrs@)
        &&& all_wf(self.chrs@)
        &&& self.in_turn_index is None
        &&& self.cm@ == (Conditions {
            held: Seq::empty(),
            fresh: Seq::empty(),
        })
    }

    /// The roster given so far, in turn order.
    pub closed spec fn roster(self) -> Seq<Chr> {
        self.chrs@
    }

    /// The saver given.
    pub closed spec fn keeper(self) -> S {
        self.saver
    }

    /// Starts a tracker that keeps itself with `saver`.
    #[must_use]
    pub fn new(saver: S) -> (r: Self)
        ensures
            r.roster() == Seq::<Chr>::empty(),
            r.keeper() == saver,
    {
        Self { chrs: Vec::new(), in_turn_index: None, saver, cm: ConditionManager::new() }
    }

    /// Gives the saver.
    #[must_use]
    pub fn with_saver(self, saver: S) -> (r: Self)
        ensures
            r.roster() == self.roster(),
            r.keeper() == saver,
    {
        proof {
            use_type_invariant(&self);
        }
        Self { chrs: self.chrs, in_turn_index: self.in_turn_index, saver, cm: self.cm }
    }

    /// Gives the roster: `chrs`, put in turn order, ties in the order in
    /// which they stand in `chrs`.
    #[must_use]
    pub fn with_chrs(self, chrs: Vec<Chr>) -> (r: Self)
        requires
            all_wf(chrs@),
        ensures
            r.roster() == ordered(chrs@),
            r.keeper() == self.keeper(),
    {
        proof {
            use_type_invariant(&self);
        }
        let mut chrs = chrs;
        sort(&mut chrs);
        Self { chrs, in_turn_index: self.in_turn_index, saver: self.saver, cm: self.cm }
    }

    /// The tracker: the roster given, no one in turn, no conditions, nothing
    /// to undo or redo, and the default settings.
    pub fn build(self) -> (r: Tracker<S>)
        ensures
            r.wf(),
            r.keeper() == self.keeper(),
            r@.now == (Scene { chrs: self.roster(), ..Scene::cleared() }),
            r@.history.len() == 0,
            r@.undone.len() == 0,
            r@.settings.depth() == DEFAULT_UNDO_SIZE,
            r@.settings.version() == Pf2eVersion::Remastered,
    {
        proof {
            use_type_invariant(&self);
            assert(self.chrs.len() == self.chrs@.len());
        }
        let settings = Settings::default();
        Tracker {
            chrs: self.chrs,
            in_turn_index: self.in_turn_index,
            saver: self.saver,
            cm: self.cm,
            undone: BoundedStack::new(settings.get_undo_size()),
            history: BoundedStack::new(settings.get_undo_size()),
            settings,
        }
    }
}

impl<S: Saver> Tracker<S> {
    /// The saver to which the tracker is handed after each change.
    pub closed spec fn keeper(self) -> S {
        self.saver
    }

    /// Both histories are bounded by the depth that the settings give.
    pub closed spec fn bounded(self) -> bool {
        &&& self.history.bound() == self.settings.depth()
        &&& self.undone.bound() == self.settings.depth()
    }

    /// Every scene is well formed, and both histories are bounded by the
    /// depth that the settings give.
    pub open spec fn wf(self) -> bool {
        self@.wf() && self.bounded()
    }

    /// Starts a tracker with the saver's default.
    #[must_use]
    pub fn builder() -> (r: Builder<S>)
        ensures
            r.roster() == Seq::<Chr>::empty(),
            call_ensures(S::default, (), r.keeper()),
    {
        Builder::new(S::default())
    }

    /// The first character named `name`, if there is one.
    pub fn get_chr(&self, name: &ChrName) -> (r: Option<&Chr>)
        ensures
            refers_to(r, named(self@.now.chrs, name@)),
    {
        match pos(&self.chrs, name) {
            Some(i) => Some(&self.chrs[i]),
            None => None,
        }
    }

    /// The roster in turn order.
    pub fn get_chrs(&self) -> (r: &[Chr])
        ensures
            r@ == self@.now.chrs,
    {
        self.chrs.as_slice()
    }

    /// The character in turn, if any.
    pub fn get_in_turn(&self) -> (r: Option<&Chr>)
        ensures
            refers_to(r, self@.now.acting()),
    {
        match self.in_turn_index {
            Some(i) => if i < self.chrs.len() {
                Some(&self.chrs[i])
            } else {
                None
            },
            None => None,
        }
    }

    /// The conditions that `character` holds.
    pub fn get_conditions(&self, character: &ChrName) -> (r: Vec<Condition>)
        ensures
            r@ == conditions_of(
                self@.now.conds.held,
                character@,
            ),
    {
        self.cm.get_conditions(character)
    }

    /// The depth of the undo history.
    pub fn get_undo_size_setting(&self) -> (r: usize)
        ensures
            r == self@.settings.depth(),
    {
        self.settings.get_undo_size()
    }

    /// The edition of the rules.
    pub fn get_pf2e_version_setting(&self) -> (r: Pf2eVersion)
        ensures
            r == self@.settings.version(),
    {
        self.settings.get_pf2e_version()
    }

    /// Sets the edition of the rules.
    pub fn set_pf2e_version_setting(&mut self, value: Pf2eVersion) -> (r: Result<()>)
        requires
            old(self).wf(),
        ensures
            final(self).wf(),
            final(self).keeper() == old(self).keeper(),
            final(self)@.settings.version() == value,
            final(self)@.settings.depth() == old(self)@.settings.depth(),
            final(self)@.now == old(self)@.now,
            final(self)@.history == old(self)@.history,
            final(self)@.undone == old(self)@.undone,
            due_or_unsaved::<S, _>(r, Ok(())),
    {
        self.settings.set_pf2e_version(value);
        self.auto_save()
    }

    /// Sets the depth of the undo history, and forgets the oldest steps
    /// beyond it.
    pub fn set_undo_size_setting(&mut self, value: usize) -> (r: Result<()>)
        requires
            old(self).wf(),
        ensures
            final(self).wf(),
            final(self).keeper() == old(self).keeper(),
            final(self)@.settings.depth() == value,
            final(self)@.settings.version() == old(self)@.settings.version(),
            final(self)@.now == old(self)@.now,
            final(self)@.history == cut(old(self)@.history, value),
            final(self)@.undone == cut(old(self)@.undone, value),
            due_or_unsaved::<S, _>(r, Ok(())),
    {
        self.settings.set_undo_size(value);
        self.history.set_bound(value);
        self.undone.set_bound(value);
        proof {
            assert(scenes(self.history@) =~= cut(
                scenes(old(self).history@),
                value,
            ));
            assert(scenes(self.undone@) =~= cut(
                scenes(old(self).undone@),
                value,
            ));
        }
        self.auto_save()
    }

    /// The encounter as it is.
    fn snapshot(&self) -> (r: Snapshot)
        ensures
            r@ == self@.now,
    {
        let chrs = self.chrs.clone();
        assert(chrs@ =~= self.chrs@);
        Snapshot { chrs, in_turn_index: self.in_turn_index, cm: self.cm.clone() }
    }

    /// Remembers the encounter as it is for `undo`, and forgets what could
    /// be redone.
    fn take_snap(&mut self)
        requires
            old(self).wf(),
        ensures
            final(self).wf(),
            final(self).keeper() == old(self).keeper(),
            final(self)@ == old(self)@.snapped(),
    {
        self.undone = BoundedStack::new(self.settings.get_undo_size());
        let snap = self.snapshot();
        self.history.push(snap);
        proof {
            assert(scenes(self.history@) =~= pushed(
                scenes(old(self).history@),
                old(self)@.now,
                old(self).settings.depth(),
            ));
            assert(scenes(self.undone@) =~= Seq::<Scene>::empty());
        }
    }

    /// Makes `snapshot` the encounter as it is.
    fn recover(&mut self, snapshot: Snapshot)
        ensures
            final(self).keeper() == old(self).keeper(),
            final(self)@.now == snapshot@,
            final(self)@.history == old(self)@.history,
            final(self)@.undone == old(self)@.undone,
            final(self)@.settings == old(self)@.settings,
            final(self).history.bound() == old(self).history.bound(),
            final(self).undone.bound() == old(self).undone.bound(),
    {
        self.chrs = snapshot.chrs;
        self.in_turn_index = snapshot.in_turn_index;
        self.cm = snapshot.cm;
    }

    /// Undoes the last change.
    pub fn undo(&mut self) -> (r: Result<()>)
        requires
            old(self).wf(),
        ensures
            final(self).wf(),
            final(self).keeper() == old(self).keeper(),
            old(self)@.history.len() > 0 ==> due_or_unsaved::<S, _>(r, Ok(())) && final(self)@
                == old(self)@.stepped_back(),
            old(self)@.history.len() == 0 ==> r == Err::<(), Error>(Error::UndoNothingError)
                && final(self)@ == old(self)@,
    {
        match self.history.pop() {
            None => Err(Error::UndoNothingError),
            Some(prev) => {
                let curr = self.snapshot();
                self.recover(prev);
                self.undone.push(curr);
                proof {
                    assert(scenes(self.history@) =~= scenes(old(self).history@).drop_first());
                    assert(scenes(self.undone@) =~= pushed(
                        scenes(old(self).undone@),
                        old(self)@.now,
                        old(self).settings.depth(),
                    ));
                    assert(old(self)@.history[0].wf());
                }
                self.auto_save()
            },
        }
    }

    /// Redoes the change that was undone last.
    pub fn redo(&mut self) -> (r: Result<()>)
        requires
            old(self).wf(),
        ensures
            final(self).wf(),
            final(self).keeper() == old(self).keeper(),
            old(self)@.undone.len() > 0 ==> due_or_unsaved::<S, _>(r, Ok(())) && final(self)@
                == old(self)@.stepped_forward(),
            old(self)@.undone.len() == 0 ==> r == Err::<(), Error>(Error::RedoNothingError)
                && final(self)@ == old(self)@,
    {
        match self.undone.pop() {
            None => Err(Error::RedoNothingError),
            Some(next) => {
                let curr = self.snapshot();
                self.recover(next);
                self.history.push(curr);
                proof {
                    assert(scenes(self.undone@) =~= scenes(old(self).undone@).drop_first());
                    assert(scenes(self.history@) =~= pushed(
                        scenes(old(self).history@),
                        old(self)@.now,
                        old(self).settings.depth(),
                    ));
                    assert(old(self)@.undone[0].wf());
                }
                self.auto_save()
            },
        }
    }

    /// Everything that the tracker holds, as it is handed to its saver.
    pub fn to_data(&self) -> (r: TrackerData)
        requires
            self.wf(),
        ensures
            r@ == self@,
            r.wf(),
    {
        let chrs = self.chrs.clone();
        assert(chrs@ =~= self.chrs@);
        let r = TrackerData {
            chrs,
            in_turn_index: self.in_turn_index,
            cm: self.cm.clone(),
            undone: self.undone.clone(),
            history: self.history.clone(),
            settings: self.settings,
        };
        assert(scenes(r.history@) =~= scenes(self.history@));
        assert(scenes(r.undone@) =~= scenes(self.undone@));
        r
    }

    /// The tracker that a saver's answer gives: the tracker of the data that
    /// was loaded, with the default of the saver; the saver's error where it
    /// failed; and a corrupt save at `dir` where the data is not well
    /// formed.
    pub fn restore(loaded: crate::saver::Result<TrackerData>, dir: String) -> (r: Result<Self>)
        ensures
            match loaded {
                Ok(data) => if data.wf() {
                    &&& r matches Ok(t)
                    &&& t.wf()
                    &&& t@ == data@
                    &&& call_ensures(S::default, (), t.keeper())
                } else {
                    &&& r matches Err(
                        Error::LoadError(crate::saver::Error::LoadCorruptSave(at, why)),
                    )
                    &&& at == dir
                    &&& why@ == "the save does not hold a well-formed tracker"@
                },
                Err(e) => r == Err::<Self, Error>(Error::LoadError(e)),
            },
    {
        match loaded {
            Ok(data) => {
                if data.is_valid() {
                    Ok(
                        Tracker {
                            chrs: data.chrs,
                            in_turn_index: data.in_turn_index,
                            saver: S::default(),
                            cm: data.cm,
                            undone: data.undone,
                            history: data.history,
                            settings: data.settings,
                        },
                    )
                } else {
                    Err(
                        Error::LoadError(
                            crate::saver::Error::LoadCorruptSave(
                                dir,
                                "the save does not hold a well-formed tracker".to_owned(),
                            ),
                        ),
                    )
                }
            },
            Err(e) => Err(Error::LoadError(e)),
        }
    }

    /// Asks `saver` for the tracker kept as `file_name` among the saves.
    pub fn load(saver: &S, file_name: &str) -> (r: Result<Self>)
        ensures
            r matches Ok(t) ==> t.wf(),
            r matches Err(e) ==> e is LoadError,
    {
        let dir = save_path(file_name);
        let loaded = saver.load(dir.clone());
        Self::restore(loaded, dir)
    }

    /// Hands what `to_data` gives to the saver, to be kept at the place
    /// that `save_path` gives for `file_name`. Only the saver can fail.
    pub fn save(&self, file_name: &str) -> (r: Result<()>)
        requires
            self.wf(),
        ensures
            due_or_unsaved::<S, _>(r, Ok(())),
    {
        after_save(self.saver.save(&self.to_data(), save_path(file_name)), ())
    }

    /// Hands the tracker to its saver, to be kept as the automatic save.
    pub fn auto_save(&self) -> (r: Result<()>)
        requires
            self.wf(),
        ensures
            due_or_unsaved::<S, _>(r, Ok(())),
    {
        self.save("auto.save")
    }

    /// Ends the turn, and returns the character that is in turn then.
    /// Nothing but the history changes in an empty roster.
    pub fn end_turn(&mut self) -> (r: Result<Option<&Chr>>)
        requires
            old(self).wf(),
        ensures
            final(self).wf(),
            final(self).keeper() == old(self).keeper(),
            final(self)@ == old(self)@.snapped().with_now(old(self)@.now.turn_ended()),
            match r {
                Ok(c) => refers_to(c, final(self)@.now.acting()),
                Err(e) => e is LoadError && !S::never_fails(),
            },
    {
        self.take_snap();
        self.end_turn_no_snap();
        let saved = self.auto_save();
        match saved {
            Ok(_) => Ok(self.get_in_turn()),
            Err(e) => Err(e),
        }
    }

    /// Ends the turn without remembering the scene or saving.
    fn end_turn_no_snap(&mut self)
        requires
            old(self).wf(),
        ensures
            final(self).wf(),
            final(self).keeper() == old(self).keeper(),
            final(self)@ == old(self)@.with_now(old(self)@.now.turn_ended()),
    {
        proof {
            old(self)@.now.lemma_turn_closed();
            old(self)@.now.lemma_turn_ended();
        }
        match self.in_turn_index {
            Some(i) => {
                let name = self.chrs[i].name.clone();
                match self.cm.end_of_turn(name) {
                    Some(damage) => {
                        self.chrs[i].damage(damage);
                    },
                    None => {},
                }
            },
            None => {},
        }
        assert(self@.now == old(self)@.now.turn_closed());
        if self.chrs.len() > 0 {
            self.in_turn_index = Some(
                match self.in_turn_index {
                    None => 0,
                    Some(i) => (i + 1) % self.chrs.len(),
                },
            );
        }
        match self.in_turn_index {
            Some(j) => {
                if j < self.chrs.len() {
                    let name = self.chrs[j].name.clone();
                    self.cm.start_of_turn(name);
                }
            },
            None => {},
        }
    }

    /// Adds `chr` to the roster, unless it has a character of that name.
    /// The character in turn stays in turn.
    pub fn add_chr(&mut self, chr: Chr) -> (r: Result<()>)
        requires
            old(self).wf(),
            chr.wf(),
        ensures
            final(self).wf(),
            final(self).keeper() == old(self).keeper(),
            match position(old(self)@.now.chrs, chr.name@) {
                Some(_) => {
                    &&& r == Err::<(), Error>(Error::AddDupError(chr.name))
                    &&& final(self)@ == old(self)@.snapped()
                },
                None => {
                    &&& due_or_unsaved::<S, _>(r, Ok(()))
                    &&& final(self)@ == old(self)@.snapped().with_now(
                        old(self)@.now.with_added(chr),
                    )
                    &&& final(self)@.now.chrs == ordered(old(self)@.now.chrs.push(chr))
                    &&& final(self)@.now.acting() == old(self)@.now.acting()
                },
            },
    {
        self.take_snap();
        if pos(&self.chrs, &chr.name).is_some() {
            return Err(Error::AddDupError(chr.name));
        }
        let at = land(&self.chrs, &chr, self.chrs.len());
        match self.in_turn_index {
            Some(i) => {
                if at <= i {
                    self.in_turn_index = Some(i + 1);
                }
            },
            None => {},
        }
        self.chrs.insert(at, chr);
        proof {
            assert(self.chrs.len() == self.chrs@.len());
            old(self)@.now.lemma_with_added(chr);
        }
        self.auto_save()
    }

    /// Adds `cond` to the character `name`, unless that character holds a
    /// condition of that kind that is as severe.
    pub fn add_condition(&mut self, name: ChrName, cond: Condition) -> (r: Result<()>)
        requires
            old(self).wf(),
        ensures
            final(self).wf(),
            final(self).keeper() == old(self).keeper(),
            final(self)@ == old(self)@.snapped().with_now(
                old(self)@.now.with_condition(name, cond),
            ),
            match position(old(self)@.now.chrs, name@) {
                Some(_) => due_or_unsaved::<S, _>(r, Ok(())),
                None => r == Err::<(), Error>(Error::ChangeNoneError(name)),
            },
    {
        self.take_snap();
        match pos(&self.chrs, &name) {
            None => Err(Error::ChangeNoneError(name)),
            Some(_) => {
                self.cm.add_condition(name, cond);
                self.auto_save()
            },
        }
    }

    /// Takes the condition of the kind of `condition` from `character`, if
    /// it holds one.
    pub fn rm_condition(&mut self, character: &ChrName, condition: &Condition) -> (r: Result<()>)
        requires
            old(self).wf(),
        ensures
            final(self).wf(),
            final(self).keeper() == old(self).keeper(),
            final(self)@ == old(self)@.snapped().with_now(
                Scene {
                    conds: old(self)@.now.conds.without(character@, *condition),
                    ..old(self)@.now
                },
            ),
            due_or_unsaved::<S, _>(r, Ok(())),
    {
        self.take_snap();
        self.cm.remove_condition(character, condition);
        proof {
            lemma_kept(
                old(self)@.now.conds.held,
                |e: Held|
                    is_held(e, character@, *condition),
            );
        }
        self.auto_save()
    }

    /// Removes the first character named `name` and the conditions of that
    /// name. Where it was in turn, the character behind it comes in turn.
    pub fn rm_chr(&mut self, name: &ChrName) -> (r: Result<()>)
        requires
            old(self).wf(),
        ensures
            final(self).wf(),
            final(self).keeper() == old(self).keeper(),
            final(self)@ == old(self)@.snapped().with_now(old(self)@.now.without_named(name@)),
            match position(old(self)@.now.chrs, name@) {
                Some(_) => due_or_unsaved::<S, _>(r, Ok(())),
                None => r == Err::<(), Error>(Error::RmNoneError(*name)),
            },
    {
        self.take_snap();
        let at = match pos(&self.chrs, name) {
            Some(at) => at,
            None => {
                return Err(Error::RmNoneError(name.clone()));
            },
        };
        proof {
            old(self)@.now.lemma_without(at as int);
            lemma_remove_in_order(old(self)@.now.chrs, at as int);
        }
        let removed = self.chrs.remove(at);
        self.cm.remove_character(&removed.name);
        if self.chrs.len() == 0 {
            self.in_turn_index = None;
        } else {
            match self.in_turn_index {
                Some(i) => {
                    if at < i {
                        self.in_turn_index = Some(i - 1);
                    } else if at == i {
                        self.in_turn_index = if i == 0 {
                            None
                        } else {
                            Some(i - 1)
                        };
                        proof {
                            lemma_kept(
                                old(self)@.now.conds.held,
                                |e: Held| e.0@ == name@,
                            );
                        }
                        self.end_turn_no_snap();
                    }
                },
                None => {},
            }
        }
        self.auto_save()
    }

    /// Removes all characters and conditions.
    pub fn clear(&mut self) -> (r: Result<()>)
        requires
            old(self).wf(),
        ensures
            final(self).wf(),
            final(self).keeper() == old(self).keeper(),
            final(self)@ == old(self)@.snapped().with_now(Scene::cleared()),
            due_or_unsaved::<S, _>(r, Ok(())),
    {
        self.take_snap();
        self.chrs = Vec::new();
        self.in_turn_index = None;
        self.cm = ConditionManager::new();
        self.auto_save()
    }

    /// Gives the first character named `name` the name `new`, and its
    /// conditions with it, unless the roster has a character named `new`.
    pub fn rename(&mut self, name: &ChrName, new: &str) -> (r: Result<()>)
        requires
            old(self).wf(),
        ensures
            final(self).wf(),
            final(self).keeper() == old(self).keeper(),
            match position(old(self)@.now.chrs, new@) {
                Some(_) => {
                    &&& final(self)@ == old(self)@.snapped()
                    &&& r matches Err(Error::RenameDupError { old: from, new: to })
                    &&& from == *name
                    &&& to@ == new@
                },
                None => {
                    &&& exists|n: ChrName| #[trigger]
                        renames(old(self)@, final(self)@, name@, n) && n@ == new@
                    &&& change_met::<S>(r, old(self)@.now.chrs, *name)
                },
            },
    {
        self.take_snap();
        let new_chrname = ChrName::new(new);
        if pos(&self.chrs, &new_chrname).is_some() {
            return Err(Error::RenameDupError { old: name.clone(), new: new.to_owned() });
        }
        self.cm.rename_character(name, new_chrname.clone());
        let r = self.unchecked_change(name, Change::Name(new_chrname));
        proof {
            assert(renames(old(self)@, self@, name@, new_chrname));
        }
        r
    }

    /// Gives the first character named `name` the initiative `init`, moves
    /// it to the place that the order gives it, and tells what that did to
    /// the round. A character in turn that did not move itself stays in
    /// turn.
    pub fn change_init(&mut self, name: &ChrName, init: i32) -> (r: Result<Option<MovedStatus>>)
        requires
            old(self).wf(),
        ensures
            final(self).wf(),
            final(self).keeper() == old(self).keeper(),
            final(self)@ == old(self)@.snapped().with_now(old(self)@.now.with_init(name@, init)),
            match position(old(self)@.now.chrs, name@) {
                Some(at) => {
                    &&& due_or_unsaved::<S, _>(r, Ok(old(self)@.now.init_notice(name@, init)))
                    &&& final(self)@.now.chrs == ordered(
                        old(self)@.now.chrs.update(at, Chr { init, ..old(self)@.now.chrs[at] }),
                    )
                },
                None => r == Err::<Option<MovedStatus>, Error>(Error::ChangeNoneError(*name)),
            },
    {
        self.take_snap();
        match pos(&self.chrs, name) {
            None => Err(Error::ChangeNoneError(name.clone())),
            Some(at) => {
                let mut x = self.chrs[at].clone();
                x.init = init;
                let notice = self.resettle(at, x);
                after_save(self.save_data(), notice)
            },
        }
    }

    /// Puts the first character named `name` on the side `player`, moves it
    /// to the place that the order gives it, and tells what that did to the
    /// round.
    pub fn set_player(&mut self, name: &ChrName, player: bool) -> (r: Result<Option<MovedStatus>>)
        requires
            old(self).wf(),
        ensures
            final(self).wf(),
            final(self).keeper() == old(self).keeper(),
            final(self)@ == old(self)@.snapped().with_now(
                old(self)@.now.with_side(name@, player),
            ),
            match position(old(self)@.now.chrs, name@) {
                Some(at) => {
                    &&& due_or_unsaved::<S, _>(r, Ok(old(self)@.now.side_notice(name@, player)))
                    &&& final(self)@.now.chrs == ordered(
                        old(self)@.now.chrs.update(at, Chr { player, ..old(self)@.now.chrs[at] }),
                    )
                },
                None => r == Err::<Option<MovedStatus>, Error>(Error::ChangeNoneError(*name)),
            },
    {
        self.take_snap();
        match pos(&self.chrs, name) {
            None => Err(Error::ChangeNoneError(name.clone())),
            Some(at) => {
                let mut x = self.chrs[at].clone();
                x.player = player;
                let notice = self.resettle(at, x);
                after_save(self.save_data(), notice)
            },
        }
    }

    /// Sets the maximum of the hit points of the first character named
    /// `name`; a character without a pool gets a full one.
    pub fn change_max_health(&mut self, name: &ChrName, max: u32) -> (r: Result<()>)
        requires
            old(self).wf(),
        ensures
            final(self).wf(),
            final(self).keeper() == old(self).keeper(),
            final(self)@ == old(self)@.snapped().with_now(
                old(self)@.now.with_change(name@, |c: Chr| c.with_max(max)),
            ),
            change_met::<S>(r, old(self)@.now.chrs, *name),
    {
        self.take_snap();
        self.unchecked_change(name, Change::MaxHealth(max))
    }

    /// Gives the first character named `name` the pool `health`.
    pub fn set_health(&mut self, name: &ChrName, health: Health) -> (r: Result<()>)
        requires
            old(self).wf(),
            health.wf(),
        ensures
            final(self).wf(),
            final(self).keeper() == old(self).keeper(),
            final(self)@ == old(self)@.snapped().with_now(
                old(self)@.now.with_change(name@, |c: Chr| c.with_health(health)),
            ),
            change_met::<S>(r, old(self)@.now.chrs, *name),
    {
        self.take_snap();
        self.unchecked_change(name, Change::Pool(health))
    }

    /// Sets the current hit points of the first character named `name`, at
    /// most to their maximum.
    pub fn set_current_health(&mut self, name: &ChrName, hp: u32) -> (r: Result<()>)
        requires
            old(self).wf(),
        ensures
            final(self).wf(),
            final(self).keeper() == old(self).keeper(),
            final(self)@ == old(self)@.snapped().with_now(
                old(self)@.now.with_change(name@, |c: Chr| c.with_current(hp)),
            ),
            change_met::<S>(r, old(self)@.now.chrs, *name),
    {
        self.take_snap();
        self.unchecked_change(name, Change::CurrentHealth(hp))
    }

    /// Sets the temporary hit points of the first character named `name`.
    pub fn set_temp_health(&mut self, name: &ChrName, hp: u32) -> (r: Result<()>)
        requires
            old(self).wf(),
        ensures
            final(self).wf(),
            final(self).keeper() == old(self).keeper(),
            final(self)@ == old(self)@.snapped().with_now(
                old(self)@.now.with_change(name@, |c: Chr| c.with_temp(hp)),
            ),
            change_met::<S>(r, old(self)@.now.chrs, *name),
    {
        self.take_snap();
        self.unchecked_change(name, Change::TempHealth(hp))
    }

    /// Adds to the temporary hit points of the first character named
    /// `name`.
    pub fn add_temp_health(&mut self, name: &ChrName, hp: u32) -> (r: Result<()>)
        requires
            old(self).wf(),
            named(old(self)@.now.chrs, name@) matches Some(c) ==> (c.health matches Some(h)
                ==> h.temp + hp <= u32::MAX),
        ensures
            final(self).wf(),
            final(self).keeper() == old(self).keeper(),
            final(self)@ == old(self)@.snapped().with_now(
                old(self)@.now.with_change(name@, |c: Chr| c.with_more_temp(hp)),
            ),
            change_met::<S>(r, old(self)@.now.chrs, *name),
    {
        self.take_snap();
        self.unchecked_change(name, Change::MoreTempHealth(hp))
    }

    /// Deals `amount` points of damage to the first character named `name`.
    pub fn damage(&mut self, name: &ChrName, amount: u32) -> (r: Result<()>)
        requires
            old(self).wf(),
        ensures
            final(self).wf(),
            final(self).keeper() == old(self).keeper(),
            final(self)@ == old(self)@.snapped().with_now(
                old(self)@.now.with_change(name@, |c: Chr| c.damaged(amount)),
            ),
            change_met::<S>(r, old(self)@.now.chrs, *name),
    {
        self.take_snap();
        self.unchecked_change(name, Change::Damage(amount))
    }

    /// Heals the first character named `name` by `heal` points.
    pub fn heal(&mut self, name: &ChrName, heal: u32) -> (r: Result<()>)
        requires
            old(self).wf(),
        ensures
            final(self).wf(),
            final(self).keeper() == old(self).keeper(),
            final(self)@ == old(self)@.snapped().with_now(
                old(self)@.now.with_change(name@, |c: Chr| c.healed(heal)),
            ),
            change_met::<S>(r, old(self)@.now.chrs, *name),
    {
        self.take_snap();
        self.unchecked_change(name, Change::Heal(heal))
    }

    /// Hands the tracker to its saver as the automatic save, and returns
    /// what the saver said.
    fn save_data(&self) -> (r: crate::saver::Result<()>)
        requires
            self.wf(),
        ensures
            S::never_fails() ==> r is Ok,
    {
        self.saver.save(&self.to_data(), save_path("auto.save"))
    }

    /// Changes the first character named `name` in what the order does not
    /// look at, and saves.
    fn unchecked_change(&mut self, name: &ChrName, change: Change) -> (r: Result<()>)
        requires
            old(self).wf(),
            named(old(self)@.now.chrs, name@) matches Some(c) ==> change.fits(c),
        ensures
            final(self).wf(),
            final(self).keeper() == old(self).keeper(),
            final(self)@ == old(self)@.with_now(
                old(self)@.now.with_change(name@, |c: Chr| change.applied(c)),
            ),
            change_met::<S>(r, old(self)@.now.chrs, *name),
    {
        match pos(&self.chrs, name) {
            Some(at) => {
                change.apply(&mut self.chrs[at]);
                proof {
                    old(self)@.now.lemma_with_replaced(
                        at as int,
                        change.applied(old(self)@.now.chrs[at as int]),
                    );
                }
                self.auto_save()
            },
            None => Err(Error::ChangeNoneError(name.clone())),
        }
    }

    /// Makes `x` of the character at `at`, and moves it to the place that
    /// the order gives it.
    fn resettle(&mut self, at: usize, x: Chr) -> (r: Option<MovedStatus>)
        requires
            old(self).wf(),
            x.wf(),
            at < old(self)@.now.chrs.len(),
        ensures
            final(self).wf(),
            final(self).keeper() == old(self).keeper(),
            final(self)@ == old(self)@.with_now(old(self)@.now.with_moved(at as int, x)),
            final(self)@.now.chrs == ordered(old(self)@.now.chrs.update(at as int, x)),
            r == old(self)@.now.move_notice(at as int, x),
    {
        proof {
            old(self)@.now.lemma_with_moved(at as int, x);
        }
        self.chrs.remove(at);
        let to = land(&self.chrs, &x, at);
        let notice = match self.in_turn_index {
            Some(i) => {
                if at == i && to != i {
                    Some(MovedStatus::TwoTurns(x.clone()))
                } else if at < i && i <= to {
                    self.in_turn_index = Some(i - 1);
                    Some(MovedStatus::TwoTurns(x.clone()))
                } else if at > i && i >= to {
                    self.in_turn_index = Some(i + 1);
                    Some(MovedStatus::Skipped(x.clone()))
                } else {
                    None
                }
            },
            None => None,
        };
        self.chrs.insert(to, x);
        notice
    }
}

/// A change to one character that leaves its place in the order.
enum Change {
    Name(ChrName),
    MaxHealth(u32),
    Pool(Health),
    CurrentHealth(u32),
    TempHealth(u32),
    MoreTempHealth(u32),
    Damage(u32),
    Heal(u32),
}

impl Change {
    /// The character after the change.
    spec fn applied(self, c: Chr) -> Chr {
        match self {
            Change::Name(name) => c.renamed(name),
            Change::MaxHealth(max) => c.with_max(max),
            Change::Pool(health) => c.with_health(health),
            Change::CurrentHealth(hp) => c.with_current(hp),
            Change::TempHealth(hp) => c.with_temp(hp),
            Change::MoreTempHealth(hp) => c.with_more_temp(hp),
            Change::Damage(amount) => c.damaged(amount),
            Change::Heal(amount) => c.healed(amount),
        }
    }

    /// The change can be made: temporary points that are added must fit,
    /// and a pool that is given must be valid.
    spec fn fits(self, c: Chr) -> bool {
        match self {
            Change::MoreTempHealth(hp) => c.health matches Some(h) ==> h.temp + hp <= u32::MAX,
            Change::Pool(health) => health.wf(),
            _ => true,
        }
    }

    /// Makes the change.
    fn apply(self, chr: &mut Chr)
        requires
            self.fits(*old(chr)),
        ensures
            *final(chr) == self.applied(*old(chr)),
            final(chr).init == old(chr).init,
            final(chr).player == old(chr).player,
            old(chr).wf() ==> final(chr).wf(),
    {
        match self {
            Change::Name(name) => {
                chr.name = name;
            },
            Change::MaxHealth(max) => {
                chr.set_max_health(max);
            },
            Change::Pool(health) => {
                chr.set_health(health);
            },
            Change::CurrentHealth(hp) => {
                chr.set_current_health(hp);
            },
            Change::TempHealth(hp) => {
                chr.set_temp_health(hp);
            },
            Change::MoreTempHealth(hp) => {
                chr.add_temp_health(hp);
            },
            Change::Damage(amount) => {
                chr.damage(amount);
            },
            Change::Heal(amount) => {
                chr.heal(amount);
            },
        }
    }
}

/// `after` is `before` with the scene remembered and the first character
/// named `old` renamed to `n`.
pub open spec fn renames(
    before: TrackerView,
    after: TrackerView,
    old: Seq<char>,
    n: ChrName,
) -> bool {
    after == before.snapped().with_now(before.now.with_rename(old, n))
}

/// What a change to the character named `name` returns: that there is no
/// such character, or else nothing, unless the saver failed.
pub open spec fn change_met<S: Saver>(r: Result<()>, chrs: Seq<Chr>, name: ChrName) -> bool {
    match position(chrs, name@) {
        Some(_) => due_or_unsaved::<S, _>(r, Ok(())),
        None => r == Err::<(), Error>(Error::ChangeNoneError(name)),
    }
}

/// The first character named `name`.
pub open spec fn named(chrs: Seq<Chr>, name: Seq<char>) -> Option<Chr> {
    match position(chrs, name) {
        Some(i) => Some(chrs[i]),
        None => None,
    }
}

/// `r` refers to the character `c`, or to none where there is none.
pub open spec fn refers_to(r: Option<&Chr>, c: Option<Chr>) -> bool {
    match c {
        Some(c) => r == Some(&c),
        None => r is None,
    }
}

} // verus!
