//! State model of a rubber-duck sound toy: the persisted user preferences
//! (which duck is shown, playback rate and volume) and the sound player that
//! picks a random quack from a fixed catalog.

pub mod duck;
pub mod prefs;
pub mod sound;

pub use duck::Duck;
pub use prefs::{LoadWarning, PrefKey, Preferences, ReadOutcome, Stored, WriteBack};
pub use sound::{Player, SOUND_COUNT};
