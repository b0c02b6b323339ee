//! The stream driver's synchronous half: the session and one adaptor per
//! direction. Whoever owns the socket runs the completion I/O that these
//! steps ask for (`begin_*_io` / `finish_*_io`) and retries on `NotReady`.
use vstd::prelude::*;
use crate::buffer::{
    ReadIo, ReadStatus, RingBuffer, SyncReadAdaptor, SyncWriteAdaptor, WriteIo, WriteStatus, BUFFER_SIZE,
};
use crate::engine;
use crate::error::TlsError;
use crate::handshake::SessionFlags;

verus! {

/// What processing newly received records comes to: a rejected record is
/// invalid data, and a peer that closes while still negotiating is a
/// handshake alert; otherwise the `n` bytes read stand.
pub fn packets_outcome(n: usize, accepted: bool, peer_closed: bool, handshaking: bool) -> (r: Result<usize, TlsError>)
    ensures
        r == if !accepted {
            Err(TlsError::InvalidData)
        } else if peer_closed && handshaking {
            Err(TlsError::HandshakeAlert)
        } else {
            Ok::<usize, TlsError>(n)
        },
{
    if !accepted {
        Err(TlsError::InvalidData)
    } else if peer_closed && handshaking {
        Err(TlsError::HandshakeAlert)
    } else {
        Ok(n)
    }
}

/// After an application read found no plaintext, a read cycle that brought
/// zero bytes means the peer closed mid-stream.
pub fn read_cycle_outcome(n: usize) -> (r: Result<(), TlsError>)
    ensures
        r == if n == 0 {
            Err(TlsError::UnexpectedEof)
        } else {
            Ok::<(), TlsError>(())
        },
{
    if n == 0 {
        Err(TlsError::UnexpectedEof)
    } else {
        Ok(())
    }
}

/// Whether the write drain goes on: while the session wants to write and the
/// last cycle moved bytes.
pub fn drain_continues(wants_write: bool, last: usize) -> (r: bool)
    ensures
        r == (wants_write && last > 0),
{
    wants_write && last > 0
}

/// A TLS session with a read adaptor and a write adaptor.
pub struct TlsStream {
    session: rustls::Connection,
    rbuffer: SyncReadAdaptor,
    wbuffer: SyncWriteAdaptor,
}

impl TlsStream {
    pub closed spec fn wf(&self) -> bool {
        self.rbuffer.wf() && self.wbuffer.wf()
    }

    pub closed spec fn reader(&self) -> SyncReadAdaptor {
        self.rbuffer
    }

    pub closed spec fn writer(&self) -> SyncWriteAdaptor {
        self.wbuffer
    }

    pub fn new(session: rustls::Connection) -> (r: TlsStream)
        ensures
            r.wf(),
            r.reader().is_idle(),
            r.writer().is_idle(),
            r.reader().data().len() == 0,
            r.writer().data().len() == 0,
            r.reader().status() == ReadStatus::Clear,
            r.writer().status() == WriteStatus::Clear,
            r.reader().capacity() == BUFFER_SIZE && r.reader().room() == BUFFER_SIZE,
            r.writer().capacity() == BUFFER_SIZE && r.writer().room() == BUFFER_SIZE,
    {
        TlsStream { session, rbuffer: SyncReadAdaptor::new(), wbuffer: SyncWriteAdaptor::new() }
    }

    pub fn flags(&self) -> (r: SessionFlags) {
        SessionFlags {
            handshaking: engine::is_handshaking(&self.session),
            wants_read: engine::wants_read(&self.session),
            wants_write: engine::wants_write(&self.session),
        }
    }

    pub fn is_handshaking(&self) -> bool {
        engine::is_handshaking(&self.session)
    }

    pub fn wants_write(&self) -> bool {
        engine::wants_write(&self.session)
    }

    /// Feeds buffered ciphertext to the session and processes it. `NotReady`
    /// means the read adaptor must run a completion read first.
    pub fn read_tls(&mut self) -> (r: Result<usize, TlsError>)
        requires
            old(self).wf(),
            old(self).reader().is_idle(),
        ensures
            final(self).wf(),
            final(self).reader().is_idle(),
            final(self).writer() == old(self).writer(),
            (r == Err::<usize, TlsError>(TlsError::NotReady)) == (old(self).reader().data().len() == 0
                && old(self).reader().status() == ReadStatus::Clear),
            r == Err::<usize, TlsError>(TlsError::NotReady) ==> final(self).reader() == old(self).reader(),
            r matches Err(TlsError::Transport(c)) ==> old(self).reader().status()
                == ReadStatus::Failed(c) && final(self).reader().status()
                == ReadStatus::Clear,
            old(self).reader().data().len() == 0 && old(self).reader().status() is Failed ==> r
                == Err::<usize, TlsError>(TlsError::Transport(old(self).reader().status()->Failed_0))
                && final(self).reader().status() == ReadStatus::Clear
                && final(self).reader().data() == old(self).reader().data(),
            r matches Ok(n) ==> n <= old(self).reader().data().len() && final(self).reader().data()
                == old(self).reader().data().subrange(n as int, old(self).reader().data().len() as int),
            final(self).reader().capacity() == old(self).reader().capacity(),
    {
        let n = self.rbuffer.read_tls_into(&mut self.session);
        match n {
            Ok(n) => {
                let (accepted, closed) = match engine::process_new_packets(&mut self.session) {
                    Ok(state) => (true, engine::peer_has_closed(&state)),
                    Err(_) => (false, false),
                };
                let handshaking = engine::is_handshaking(&self.session);
                packets_outcome(n, accepted, closed, handshaking)
            },
            Err(e) => Err(e),
        }
    }

    /// Lets the session put ciphertext into the write adaptor. `NotReady`
    /// means the write adaptor must run a completion write first.
    pub fn write_tls(&mut self) -> (r: Result<usize, TlsError>)
        requires
            old(self).wf(),
            old(self).writer().is_idle(),
        ensures
            final(self).wf(),
            final(self).writer().is_idle(),
            final(self).reader() == old(self).reader(),
            final(self).writer().capacity() == old(self).writer().capacity(),
            match r {
                Ok(n) => {
                    &&& final(self).writer().data().len() == old(self).writer().data().len() + n
                    &&& final(self).writer().data().subrange(0, old(self).writer().data().len() as int)
                        == old(self).writer().data()
                    &&& final(self).writer().room() == old(self).writer().room() - n
                    &&& final(self).writer().status() == old(self).writer().status()
                },
                Err(TlsError::Transport(c)) => {
                    &&& old(self).writer().status() == WriteStatus::Failed(c)
                    &&& final(self).writer().status() == WriteStatus::Clear
                    &&& final(self).writer().data() == old(self).writer().data()
                    &&& final(self).writer().room() == old(self).writer().room()
                },
                Err(TlsError::NotReady) => {
                    &&& old(self).writer().status() == WriteStatus::Clear
                    &&& old(self).writer().room() == 0
                    &&& final(self).writer() == old(self).writer()
                },
                Err(_) => {
                    &&& old(self).writer().status() == WriteStatus::Clear
                    &&& final(self).writer().status() == WriteStatus::Clear
                    &&& final(self).writer().data() == old(self).writer().data()
                    &&& final(self).writer().room() == old(self).writer().room()
                },
            },
            old(self).writer().status() == WriteStatus::Clear && old(self).writer().room() > 0 ==> !(r
                is Err && (r->Err_0 is Transport || r->Err_0 is NotReady)),
    {
        self.wbuffer.write_tls_from(&mut self.session)
    }

    pub fn begin_read_io(&mut self) -> (r: ReadIo)
        requires
            old(self).wf(),
            old(self).reader().is_idle(),
        ensures
            final(self).wf(),
            final(self).writer() == old(self).writer(),
            old(self).reader().data().len() > 0 ==> r == ReadIo::Buffered(old(self).reader().data().len() as usize)
                && final(self).reader() == old(self).reader(),
            old(self).reader().data().len() == 0 ==> !final(self).reader().is_idle() && (r matches ReadIo::Issue(b)
                && b.wf() && b@.len() == 0 && b.cap() == old(self).reader().capacity()
                && b.read_pos() == 0 && b.write_pos() == 0),
            final(self).reader().status() == old(self).reader().status(),
    {
        self.rbuffer.begin_io()
    }

    pub fn finish_read_io(&mut self, ring: RingBuffer, outcome: Result<Vec<u8>, i32>) -> (r: Result<usize, TlsError>)
        requires
            old(self).wf(),
            ring.wf(),
            outcome matches Ok(v) ==> v@.len() <= ring.cap() - ring.write_pos(),
        ensures
            final(self).wf(),
            final(self).reader().is_idle(),
            final(self).reader().capacity() == ring.cap(),
            final(self).writer() == old(self).writer(),
            match outcome {
                Ok(v) => if v@.len() == 0 {
                    &&& final(self).reader().status() == ReadStatus::Eof
                    &&& final(self).reader().data() == ring@
                    &&& r == Ok::<usize, TlsError>(0)
                } else {
                    &&& final(self).reader().status() == ReadStatus::Clear
                    &&& final(self).reader().data() == ring@ + v@
                    &&& r == Ok::<usize, TlsError>(v@.len() as usize)
                },
                Err(c) => {
                    &&& final(self).reader().status() == ReadStatus::Failed(c)
                    &&& final(self).reader().data() == ring@
                    &&& r == Err::<usize, TlsError>(TlsError::Transport(c))
                },
            },
    {
        self.rbuffer.finish_io(ring, outcome)
    }

    pub fn begin_write_io(&mut self) -> (r: WriteIo)
        requires
            old(self).wf(),
            old(self).writer().is_idle(),
        ensures
            final(self).wf(),
            final(self).reader() == old(self).reader(),
            old(self).writer().data().len() == 0 ==> r is Nothing && final(self).writer() == old(self).writer(),
            old(self).writer().data().len() > 0 ==> !final(self).writer().is_idle() && (r matches WriteIo::Issue(b)
                && b.wf() && b@ == old(self).writer().data() && b.cap() == old(self).writer().capacity()
                && b.cap() - b.write_pos() == old(self).writer().room()),
            final(self).writer().status() == old(self).writer().status(),
    {
        self.wbuffer.begin_io()
    }

    pub fn finish_write_io(&mut self, ring: RingBuffer, outcome: Result<usize, i32>) -> (r: Result<usize, TlsError>)
        requires
            old(self).wf(),
            ring.wf(),
            outcome matches Ok(n) ==> n <= ring@.len(),
        ensures
            final(self).wf(),
            final(self).writer().is_idle(),
            final(self).reader() == old(self).reader(),
            r == match outcome {
                Ok(n) => Ok::<usize, TlsError>(n),
                Err(c) => Err(TlsError::Transport(c)),
            },
            final(self).writer().data() == match outcome {
                Ok(n) => ring@.subrange(n as int, ring@.len() as int),
                Err(_) => ring@,
            },
            final(self).writer().status() == match outcome {
                Ok(_) => old(self).writer().status(),
                Err(c) => WriteStatus::Failed(c),
            },
            final(self).writer().capacity() == ring.cap(),
    {
        self.wbuffer.finish_io(ring, outcome)
    }

    /// Asks the session for decrypted bytes into `dst`. `NotReady` means a
    /// read cycle must run first; `Ok(0)` on a non-empty `dst` is a clean close.
    pub fn read_plaintext(&mut self, dst: &mut Vec<u8>) -> (r: Result<usize, TlsError>)
        ensures
            final(self).reader() == old(self).reader(),
            final(self).writer() == old(self).writer(),
            final(dst)@.len() == old(dst)@.len(),
            r matches Ok(n) ==> n <= old(dst)@.len(),
            !(r matches Err(TlsError::Transport(_))),
    {
        match engine::read_plaintext(&mut self.session, dst) {
            Ok(n) => Ok(n),
            Err(e) => Err(engine::error_of(&e)),
        }
    }

    /// Hands plaintext to the session, which takes what its limit allows, and
    /// flushes the session's writer. The count taken is returned.
    pub fn write_plaintext(&mut self, src: &[u8]) -> (r: Result<usize, TlsError>)
        ensures
            final(self).reader() == old(self).reader(),
            final(self).writer() == old(self).writer(),
            r matches Ok(n) ==> n <= src@.len(),
            !(r matches Err(TlsError::Transport(_))),
    {
        let n = match engine::write_plaintext(&mut self.session, src) {
            Ok(n) => n,
            Err(e) => return Err(engine::error_of(&e)),
        };
        match engine::flush_plaintext(&mut self.session) {
            Ok(()) => Ok(n),
            Err(e) => Err(engine::error_of(&e)),
        }
    }

    /// Hands all of `src` to the session, or fails; then flushes its writer.
    pub fn write_all_plaintext(&mut self, src: &[u8]) -> (r: Result<(), TlsError>)
        ensures
            final(self).reader() == old(self).reader(),
            final(self).writer() == old(self).writer(),
            !(r matches Err(TlsError::Transport(_))),
    {
        if let Err(e) = engine::write_all_plaintext(&mut self.session, src) {
            return Err(engine::error_of(&e));
        }
        match engine::flush_plaintext(&mut self.session) {
            Ok(()) => Ok(()),
            Err(e) => Err(engine::error_of(&e)),
        }
    }
}

} // verus!
