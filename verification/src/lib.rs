//! Gopher: an inbox for pull requests under review by coding agents.
//!
//! The library decides what each pull request's state is, what the user is told
//! about it, which requests go to GitHub and what its replies mean. It performs
//! no input or output of its own.

pub mod actions;
pub mod config;
pub mod evidence;
pub mod github;
pub mod hotkeys;
pub mod identity;
pub mod installer;
pub mod json;
pub mod laws;
pub mod lifecycle;
pub mod logging;
pub mod macos;
pub mod model;
pub mod order;
pub mod reviewers;
pub mod store;
pub mod text;
pub mod text_map;
pub mod worker;
