//! Verified core of a chat bot that watches joined rooms for links to
//! social-media posts, resolves each link through an embed API, and
//! republishes a normalized summary (text plus at most one media attachment)
//! back into the room.
//!
//! The modules here hold the decision logic: link extraction and
//! deduplication, the media-selection policy, summary formatting, the
//! per-link republish pipeline, the invite-autojoin retrier, and the
//! session supervisor. Network and storage I/O live outside the library.

pub mod text;
pub mod weblink;
pub mod extract;
pub mod post;
pub mod media;
pub mod civil;
pub mod summary;
pub mod pipeline;
pub mod autojoin;
pub mod typing;
pub mod supervisor;
