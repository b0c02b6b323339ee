//! The handshake as a state machine: from the session's flags to the next
//! I/O cycle the driver must run, until negotiation is over.
use vstd::prelude::*;
use crate::error::TlsError;

verus! {

/// The session's flags that steer the handshake.
#[derive(Clone, Copy, Debug, PartialEq, Eq)]
pub struct SessionFlags {
    pub handshaking: bool,
    pub wants_read: bool,
    pub wants_write: bool,
}

/// Where the handshake stands.
#[derive(Clone, Copy, Debug, PartialEq, Eq)]
pub enum Phase {
    /// Pushing the session's ciphertext out.
    Writing,
    /// Pulling ciphertext in for the session.
    Reading,
    /// Negotiation is over; post-handshake messages are still being drained.
    Flushing,
    /// Finished with the byte counts read and written.
    Done,
    /// Finished with an error.
    Failed(TlsError),
}

/// What the driver does next.
#[derive(Clone, Copy, Debug, PartialEq, Eq)]
pub enum HandshakeAction {
    /// Run one write cycle, then report its byte count with `wrote`.
    WriteCycle,
    /// Run one read cycle, then report its byte count with `read`.
    ReadCycle,
    /// The handshake failed.
    Fail(TlsError),
    /// The handshake completed: bytes read, bytes written.
    Complete(usize, usize),
}

#[derive(Clone, Copy, Debug, PartialEq, Eq)]
pub struct Handshake {
    pub phase: Phase,
    pub rdlen: usize,
    pub wrlen: usize,
    pub eof: bool,
}

pub open spec fn with_phase(h: Handshake, p: Phase) -> Handshake {
    Handshake { phase: p, ..h }
}

/// The flushing step: drain while the session wants to write, then complete.
pub open spec fn flush_next(h: Handshake, f: SessionFlags) -> (Handshake, HandshakeAction) {
    if f.wants_write {
        (with_phase(h, Phase::Flushing), HandshakeAction::WriteCycle)
    } else {
        (with_phase(h, Phase::Done), HandshakeAction::Complete(h.rdlen, h.wrlen))
    }
}

/// The reading step: read while not at end of stream and the negotiating
/// session wants to; then fail on end of stream, go back to writing, or
/// (negotiation over) flush. A session that is still negotiating yet wants
/// neither to read nor to write would leave the driver looping without any
/// I/O to run; that is reported as `HandshakeStalled` rather than spun on.
pub open spec fn read_next(h: Handshake, f: SessionFlags) -> (Handshake, HandshakeAction) {
    if !h.eof && f.wants_read && f.handshaking {
        (with_phase(h, Phase::Reading), HandshakeAction::ReadCycle)
    } else if !f.handshaking {
        flush_next(h, f)
    } else if h.eof {
        (with_phase(h, Phase::Failed(TlsError::UnexpectedEof)), HandshakeAction::Fail(TlsError::UnexpectedEof))
    } else if f.wants_write {
        (with_phase(h, Phase::Writing), HandshakeAction::WriteCycle)
    } else {
        (with_phase(h, Phase::Failed(TlsError::HandshakeStalled)), HandshakeAction::Fail(TlsError::HandshakeStalled))
    }
}

/// One step of the handshake: the new state and the action it asks for.
pub open spec fn handshake_next(h: Handshake, f: SessionFlags) -> (Handshake, HandshakeAction) {
    match h.phase {
        Phase::Writing => if f.wants_write && f.handshaking {
            (h, HandshakeAction::WriteCycle)
        } else {
            read_next(h, f)
        },
        Phase::Reading => read_next(h, f),
        Phase::Flushing => flush_next(h, f),
        Phase::Done => (h, HandshakeAction::Complete(h.rdlen, h.wrlen)),
        Phase::Failed(e) => (h, HandshakeAction::Fail(e)),
    }
}

pub open spec fn sat_add(a: usize, b: usize) -> usize {
    if a + b > usize::MAX {
        usize::MAX
    } else {
        (a + b) as usize
    }
}

impl Handshake {
    pub fn new() -> (r: Handshake)
        ensures
            r == (Handshake { phase: Phase::Writing, rdlen: 0, wrlen: 0, eof: false }),
    {
        Handshake { phase: Phase::Writing, rdlen: 0, wrlen: 0, eof: false }
    }

    /// Decides the next cycle from the session's current flags.
    pub fn next(&mut self, f: SessionFlags) -> (r: HandshakeAction)
        ensures
            (*final(self), r) == handshake_next(*old(self), f),
            r is Complete && old(self).phase != Phase::Done ==> !f.wants_write,
            r is Complete && (old(self).phase is Writing || old(self).phase is Reading)
                ==> !f.handshaking,
            r == HandshakeAction::Fail(TlsError::UnexpectedEof) && !(old(self).phase is Failed)
                ==> old(self).eof && f.handshaking,
    {
        if let Phase::Writing = self.phase {
            if f.wants_write && f.handshaking {
                return HandshakeAction::WriteCycle;
            }
            return self.read_next(f);
        }
        match self.phase {
            Phase::Reading => self.read_next(f),
            Phase::Flushing => self.flush_next(f),
            Phase::Done => HandshakeAction::Complete(self.rdlen, self.wrlen),
            Phase::Failed(e) => HandshakeAction::Fail(e),
            Phase::Writing => HandshakeAction::WriteCycle,
        }
    }

    fn read_next(&mut self, f: SessionFlags) -> (r: HandshakeAction)
        ensures
            (*final(self), r) == read_next(*old(self), f),
    {
        if !self.eof && f.wants_read && f.handshaking {
            self.phase = Phase::Reading;
            HandshakeAction::ReadCycle
        } else if !f.handshaking {
            self.flush_next(f)
        } else if self.eof {
            self.phase = Phase::Failed(TlsError::UnexpectedEof);
            HandshakeAction::Fail(TlsError::UnexpectedEof)
        } else if f.wants_write {
            self.phase = Phase::Writing;
            HandshakeAction::WriteCycle
        } else {
            self.phase = Phase::Failed(TlsError::HandshakeStalled);
            HandshakeAction::Fail(TlsError::HandshakeStalled)
        }
    }

    fn flush_next(&mut self, f: SessionFlags) -> (r: HandshakeAction)
        ensures
            (*final(self), r) == flush_next(*old(self), f),
    {
        if f.wants_write {
            self.phase = Phase::Flushing;
            HandshakeAction::WriteCycle
        } else {
            self.phase = Phase::Done;
            HandshakeAction::Complete(self.rdlen, self.wrlen)
        }
    }

    /// Records a write cycle that moved `n` bytes.
    pub fn wrote(&mut self, n: usize)
        ensures
            *final(self) == (Handshake { wrlen: sat_add(old(self).wrlen, n), ..*old(self) }),
    {
        self.wrlen = self.wrlen.saturating_add(n);
    }

    /// Records a read cycle that moved `n` bytes; zero bytes is end of stream.
    pub fn read(&mut self, n: usize)
        ensures
            *final(self) == (Handshake {
                rdlen: sat_add(old(self).rdlen, n),
                eof: old(self).eof || n == 0,
                ..*old(self)
            }),
    {
        self.rdlen = self.rdlen.saturating_add(n);
        if n == 0 {
            self.eof = true;
        }
    }
}

} // verus!
