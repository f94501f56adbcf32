//! Where a tracker is kept between sessions.
//!
//! The tracker hands a saver everything that it holds after each change, and
//! asks it once for what was saved. How and where a saver keeps it is its own
//! affair.

use crate::tracker::TrackerData;
use vstd::prelude::*;

verus! {

/// Why saving or loading failed. Each holds the place of the save first, and
/// then, where there is one, the cause in words.
#[derive(Debug)]
pub enum Error {
    /// Nothing is saved at that place.
    LoadMissingSave(String),
    /// The save could not be read.
    LoadIOError(String, String),
    /// The save could not be written there.
    InvalidDirPath(String, String),
    /// What was read is no tracker.
    LoadCorruptSave(String, String),
    /// The tracker could not be written out.
    SerialisationError(String, String),
}

pub type Result<T> = std::result::Result<T, Error>;

/// A place to keep a tracker.
pub trait Saver: Default + Clone + Sized {
    /// Whether saving with a saver of this type never fails. Unless a
    /// saver says otherwise, it may fail.
    open spec fn never_fails() -> bool {
        false
    }

    /// Saves `data` at `dir`. It is handed well-formed data only.
    fn save(&self, data: &TrackerData, dir: String) -> (r: Result<()>)
        requires
            data.wf(),
        ensures
            Self::never_fails() ==> r is Ok,
    ;

    /// Loads what was saved at `dir`.
    fn load(&self, dir: String) -> Result<TrackerData>;
}

/// A saver that keeps nothing: saving does nothing, and loading finds no
/// save.
#[derive(Debug, Clone, Copy)]
pub struct NoSaver;

impl Default for NoSaver {
    fn default() -> (r: Self) {
        NoSaver
    }
}

impl Saver for NoSaver {
    /// Saving nothing never fails.
    open spec fn never_fails() -> bool {
        true
    }

    fn save(&self, data: &TrackerData, dir: String) -> (r: Result<()>) {
        Ok(())
    }

    fn load(&self, dir: String) -> (r: Result<TrackerData>)
        ensures
            r matches Err(Error::LoadMissingSave(at)) && at == dir,
    {
        Err(Error::LoadMissingSave(dir))
    }
}

} // verus!
