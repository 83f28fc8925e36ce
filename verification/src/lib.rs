//! State, classification and text composition for a terminal dashboard
//! that shows the head, the local branches and the changed paths of one
//! repository.
//!
//! The crate holds the decisions of the dashboard: how raw status flags map
//! to display sections, what a refresh replaces, when a refresh is due, how
//! events change the state, and what text a frame shows. Reading keys,
//! querying the repository and drawing are left to the program around it.

pub mod flags;
pub mod status;
pub mod state;
pub mod snapshot;
pub mod event;
pub mod render;
