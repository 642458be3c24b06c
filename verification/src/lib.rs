//! Verified core of a desktop wallpaper updater.
//!
//! The updater fetches an image from a configured source at a configured
//! interval, keeps it in its workspace, has a helper apply it to the desktop,
//! and remembers what it did in a state file.
//!
//! This crate decides; its caller acts. Nothing here touches the disk, the
//! network, the clock or another process. The engine, [`Wow`], is advanced
//! one step at a time: each step returns a request ([`machine::Effect`]) and
//! is continued with the answer ([`machine::Event`]). What a step does is
//! defined by [`wow::WowView::next`]; [`laws`] states what follows from it.
//!
//! - [`clock`]: points in time, and when an update is due
//! - [`config`]: the persisted state and its byte form
//! - [`codec`]: the calls into `bincode`, which are trusted
//! - [`paths`]: the files of a workspace
//! - [`command`]: the command line
//! - [`machine`]: requests, answers and notices
//! - [`wow`]: the engine
//! - [`laws`]: what holds of the engine whatever the caller answers
pub mod clock;
pub mod codec;
pub mod command;
pub mod config;
pub mod laws;
pub mod machine;
pub mod paths;
pub mod report;
pub mod wow;

pub use crate::clock::Timestamp;
pub use crate::config::Config;
pub use crate::report::ErrInfo;
pub use crate::wow::Wow;
