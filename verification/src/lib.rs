//! Core logic of a channel-relay bot: once a message in a moderated source
//! channel is approved by its own author, a copy is published into a public
//! destination channel, and the two are kept in sync on later edits and
//! deletions of the source.
//!
//! Everything here works on plain values (identifiers, byte vectors,
//! strings); the surrounding binary performs the platform I/O and feeds the
//! results in.

pub mod attachments;
pub mod channels;
pub mod cloner;
pub mod config;
pub mod digits;
pub mod dispatch;
pub mod link;
pub mod presence;
pub mod prune;
pub mod resolve;
pub mod util;
