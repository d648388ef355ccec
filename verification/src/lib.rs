//! A message-triggered media-retrieval relay.
//!
//! The library is the verified core of a chat bot that watches messages for
//! embedded URLs, invokes an external downloader per URL, and relays the
//! resulting media file back into the chat, with attributed captions and
//! origin-message cleanup in group chats, bare delivery in private chats,
//! and removal of the local file after every delivery attempt.
//!
//! The modules:
//! - [`text`]: character-sequence searching used by the other modules.
//! - [`extract`]: finding URL annotations in an inbound message, honouring
//!   the opt-out marker.
//! - [`invoke`]: deriving the output file name and the downloader's argument
//!   list from a URL, and mapping the subprocess outcome to a result.
//! - [`compose`]: deciding caption, attribution link and origin-message
//!   deletion for one delivery.
//! - [`session`]: the per-message orchestration state machine that the
//!   surrounding process drives; the process performs the returned actions
//!   and reports download and upload outcomes back.

pub mod compose;
pub mod extract;
pub mod invoke;
pub mod session;
pub mod text;
