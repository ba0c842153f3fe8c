//! What holds of the library as a whole: of whole runs of the state machines, of the
//! rings that they build, and of what is left to give back.

pub mod calls;
pub mod mapping;
pub mod messages;
pub mod restoring;
pub mod rings;
pub mod sharing;
