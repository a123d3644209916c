//! A model of the asynchronous, character-driven input mode.
//!
//! The native library in this mode is handed a fixed callback and fed
//! one unit of raw input per call; only when a full line is complete
//! does it invoke the callback, once, with the line (or with the null
//! sentinel at end of input). The host handler itself lives in a
//! process-wide slot outside this crate; what is modeled here is the
//! state that governs it: whether a handler is engaged — processing
//! input while none is engaged is a precondition violation — and the
//! pending input out of which exactly one delivery per completed line
//! is produced.

use vstd::prelude::*;

verus! {

use crate::codec::{decode_line, lossy_utf8, unframed};

/// The byte that completes a pending line.
pub const NEWLINE: u8 = 10;

/// One unit of raw input handed to the reader.
pub enum InputEvent {
    /// One byte of input.
    Byte(u8),
    /// The input stream has ended.
    EndOfInput,
}

/// The state of the asynchronous reader: whether a handler is engaged
/// in the process-wide slot, and the raw bytes of the line being
/// assembled.
pub struct CallbackState {
    engaged: bool,
    pending: Vec<u8>,
}

impl CallbackState {
    /// Whether a handler is currently engaged.
    pub closed spec fn installed(&self) -> bool {
        self.engaged
    }

    /// The raw bytes of the line assembled so far.
    pub closed spec fn pending_bytes(&self) -> Seq<u8> {
        self.pending@
    }

    /// The initial state: no handler engaged, nothing pending.
    pub fn new() -> (r: CallbackState)
        ensures
            !r.installed(),
            r.pending_bytes() == Seq::<u8>::empty(),
    {
        CallbackState { engaged: false, pending: Vec::new() }
    }

    /// Engage the handler slot, replacing whatever handler was engaged
    /// before — at most one is ever held — and start a fresh line.
    pub fn install_handler(&mut self)
        ensures
            final(self).installed(),
            final(self).pending_bytes() == Seq::<u8>::empty(),
    {
        self.engaged = true;
        self.pending.clear();
    }

    /// Clear the handler slot. Until a handler is engaged again,
    /// processing input violates its precondition.
    pub fn remove_handler(&mut self)
        ensures
            !final(self).installed(),
            final(self).pending_bytes() == Seq::<u8>::empty(),
    {
        self.engaged = false;
        self.pending.clear();
    }

    /// Whether processing input is currently legal; a caller with no
    /// handler engaged must treat the attempt as a fatal error rather
    /// than proceed.
    pub fn is_installed(&self) -> (r: bool)
        ensures
            r == self.installed(),
    {
        self.engaged
    }

    /// Process one unit of raw input. A newline completes the pending
    /// line: it is delivered, decoded exactly as a synchronous line is,
    /// exactly once, and the assembly restarts empty. End of input
    /// delivers the sentinel `None` once. Any other byte is buffered
    /// and nothing is delivered.
    pub fn read_char(&mut self, event: InputEvent) -> (r: Option<Option<String>>)
        requires
            old(self).installed(),
        ensures
            final(self).installed(),
            event matches InputEvent::Byte(b) ==> (b != NEWLINE ==> r is None
                && final(self).pending_bytes() == old(self).pending_bytes().push(b)),
            event matches InputEvent::Byte(b) ==> (b == NEWLINE ==> (r matches Some(Some(s))
                && s@ == lossy_utf8(unframed(old(self).pending_bytes()))
                && final(self).pending_bytes() == Seq::<u8>::empty())),
            event is EndOfInput ==> r == Some(None::<String>) && final(self).pending_bytes()
                == Seq::<u8>::empty(),
    {
        match event {
            InputEvent::Byte(b) => {
                if b == NEWLINE {
                    let line = decode_line(&self.pending);
                    self.pending.clear();
                    Some(Some(line))
                } else {
                    self.pending.push(b);
                    None
                }
            },
            InputEvent::EndOfInput => {
                self.pending.clear();
                Some(None)
            },
        }
    }
}

} // verus!
