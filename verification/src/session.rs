//! The raw terminal session protocol: the original terminal attributes
//! are snapshotted exactly once before any mutation, and restored
//! exactly once, whatever path the session ends on.
//!
//! The type records which phase the session is in; its contracts let a
//! verified caller enter raw mode only from the pristine phase and
//! restore only from the raw phase, so a session can neither mutate
//! the terminal twice nor restore it twice.

use vstd::prelude::*;

verus! {

/// The phase of one raw terminal session.
#[derive(Clone, Copy, PartialEq, Eq, Debug)]
pub enum SessionPhase {
    /// The terminal still has its original attributes; nothing has
    /// been snapshotted or changed yet.
    Pristine,
    /// The original attributes are saved; canonical input and echo are
    /// off and reads do not block.
    Raw,
    /// The saved attributes have been put back; the session is over.
    Restored,
}

/// One raw terminal session. Exactly one is created per run, before
/// any input is read.
pub struct RawSession {
    /// Where the session stands in its lifecycle.
    pub phase: SessionPhase,
}

impl RawSession {
    /// Begin a session: no snapshot taken, no attribute changed.
    pub fn new() -> (r: RawSession)
        ensures
            r.phase is Pristine,
    {
        RawSession { phase: SessionPhase::Pristine }
    }

    /// Record that the caller snapshotted the terminal attributes and
    /// switched the terminal to raw, non-blocking, non-echoing mode.
    /// Only a pristine session may do this, so the snapshot is taken
    /// exactly once and never overwritten.
    pub fn enter_raw(&mut self)
        requires
            old(self).phase is Pristine,
        ensures
            final(self).phase is Raw,
    {
        self.phase = SessionPhase::Raw;
    }

    /// Record that the caller put the saved attributes back. Only a
    /// raw session may do this, so restoration happens exactly once,
    /// and never before the snapshot exists.
    pub fn restore(&mut self)
        requires
            old(self).phase is Raw,
        ensures
            final(self).phase is Restored,
    {
        self.phase = SessionPhase::Restored;
    }
}

} // verus!
