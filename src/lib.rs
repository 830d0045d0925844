//! Keeps a media player's queue supplied with fresh URLs from a paginated feed.
//!
//! The library holds the decisions: which page to ask for next, which URLs are
//! new, when the queue needs more, and what to do when a fetch fails. The
//! program around it performs the network and player calls that the decisions
//! ask for.

pub mod dedup;
pub mod feed;
pub mod buffer;
pub mod common;
pub mod lemmy_cli;
pub mod reddit;
pub mod reddit_cli;
