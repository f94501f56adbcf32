//! What the user can configure: the edition of the rules, by which some
//! conditions and damage types are named, and the depth of the undo history.

use vstd::prelude::*;

verus! {

/// The edition of the rules.
#[derive(Debug, Clone, Copy, PartialEq, Eq, Structural, PartialOrd, Ord, Hash)]
pub enum Pf2eVersion {
    Old,
    Remastered,
}

impl Default for Pf2eVersion {
    /// The remastered edition.
    fn default() -> (r: Self)
        ensures
            r == Pf2eVersion::Remastered,
    {
        Pf2eVersion::Remastered
    }
}

/// The number of steps that can be undone unless the user asks for another.
pub const DEFAULT_UNDO_SIZE: usize = 128;

/// The user's settings.
#[derive(Debug, Clone, Copy, PartialEq, Eq, Structural, PartialOrd, Ord, Hash)]
pub struct Settings {
    pf2e_version: Pf2eVersion,
    undo_size: usize,
}

impl Default for Settings {
    /// The remastered edition and the default depth of the history.
    fn default() -> (r: Self)
        ensures
            r.version() == Pf2eVersion::Remastered,
            r.depth() == DEFAULT_UNDO_SIZE,
    {
        Self { pf2e_version: Pf2eVersion::Remastered, undo_size: DEFAULT_UNDO_SIZE }
    }
}

impl Settings {
    /// The edition of the rules that is set.
    pub closed spec fn version(self) -> Pf2eVersion {
        self.pf2e_version
    }

    /// The depth of the undo history that is set.
    pub closed spec fn depth(self) -> usize {
        self.undo_size
    }

    /// The settings with the given edition and depth.
    pub fn new(pf2e_version: Pf2eVersion, undo_size: usize) -> (r: Self)
        ensures
            r.version() == pf2e_version,
            r.depth() == undo_size,
    {
        Self { pf2e_version, undo_size }
    }

    /// The depth of the undo history.
    pub fn get_undo_size(&self) -> (r: usize)
        ensures
            r == self.depth(),
    {
        self.undo_size
    }

    /// Sets the depth of the undo history.
    pub fn set_undo_size(&mut self, value: usize)
        ensures
            final(self).depth() == value,
            final(self).version() == old(self).version(),
    {
        self.undo_size = value
    }

    /// The edition of the rules.
    pub fn get_pf2e_version(&self) -> (r: Pf2eVersion)
        ensures
            r == self.version(),
    {
        self.pf2e_version
    }

    /// Sets the edition of the rules.
    pub fn set_pf2e_version(&mut self, value: Pf2eVersion)
        ensures
            final(self).version() == value,
            final(self).depth() == old(self).depth(),
    {
        self.pf2e_version = value
    }
}

} // verus!
