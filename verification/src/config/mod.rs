//! Node configuration: the values the node falls back to when the
//! configuration file leaves a setting out. Durations are held in seconds.

pub mod blend;
pub mod cryptarchia;
pub mod time;
