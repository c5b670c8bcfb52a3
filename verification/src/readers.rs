//! The readers of evidence: each takes what one source shows of the open
//! files out of what was observed.

pub mod directory_scan;
pub mod editor_layout;
pub mod project_search;
pub mod project_state;
pub mod session;
pub mod title;
