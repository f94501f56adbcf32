//! Initiative tracking for a tabletop role-playing game: game time in mixed
//! units, timed conditions and the rules by which they end, the roster in
//! turn order, and an undo history over all of it.

pub mod character;
pub mod conditions;
pub mod duration;
pub mod saver;
pub mod settings;
pub mod text;
pub mod tracker;
