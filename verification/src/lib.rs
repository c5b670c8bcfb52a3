//! Which files does an editor have open, and which of them is in front?
//!
//! The answer is recovered from what a running editor shows of itself: the
//! name of its processes, their command lines and window titles, and the
//! session state that the editor keeps on disk. Every source is unreliable,
//! so the sources are read in a fixed order of trust and merged into one
//! result, or into one reported failure.
//!
//! The library reads nothing itself. Its caller lists the processes
//! ([`process`]) and observes the machine ([`evidence`]); the readers
//! ([`readers`]) take the open files out of the observations; a detector for
//! each family of editors ([`detectors`]) orders its readers; the resolution
//! engine ([`resolution`]) merges what they found; and the registry
//! ([`detector`]) chooses the detector. All of it is verified: each function
//! states what it returns over the views of its arguments.

pub mod clock;
pub mod detector;
pub mod detectors;
pub mod evidence;
pub mod json;
pub mod pattern;
pub mod process;
pub mod readers;
pub mod report;
pub mod resolution;
pub mod text;
pub mod types;
