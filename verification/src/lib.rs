//! Version-gated invalidation of a desktop application's on-disk caches.
//!
//! At each start the application compares the version that a marker file in
//! its data directory names with the version of the running build. Where the
//! marker is missing, empty or names another version, the web view's state
//! and the general cache are deleted and the marker is rewritten. No failure
//! on the way keeps the application from starting: failures become warnings.
//!
//! The crate decides; it does not touch the file system. A [`Reconciler`]
//! names one [`Action`] at a time, the program around it carries the action
//! out and hands back an [`Outcome`]. The module `model` describes the data
//! directory and such a program mathematically, `effect` says what a whole
//! run against them leaves behind, and `laws` proves that and what follows
//! from it.

pub mod effect;
pub mod laws;
pub mod layout;
pub mod model;
pub mod protocol;
pub mod reconciler;
pub mod text;

pub use crate::layout::{marker_name, CacheDir};
pub use crate::protocol::{Action, Outcome, Warning};
pub use crate::reconciler::Reconciler;
pub use crate::text::is_current;
