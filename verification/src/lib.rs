//! A verified core for a line-editing and history binding layer.
//!
//! The native line editor is reached over a C boundary: nul-terminated
//! byte strings cross it in both directions, a nullable pointer stands
//! for end of input, and a fixed-signature callback delivers completed
//! lines. Everything on this side of that boundary that decides or
//! computes lives here, with contracts:
//!
//! - [`codec`] frames host text for the boundary, recovers and decodes
//!   what comes back, and proves the transfer round-trips.
//! - [`expand`] interprets the status code of a history expansion.
//! - [`history`] models the history store: insertion, stifling, and the
//!   cursor walk that enumerates it.
//! - [`callback`] models the asynchronous input mode: the handler slot
//!   and the delivery of completed lines, one per newline.

pub mod callback;
pub mod codec;
pub mod expand;
pub mod history;
