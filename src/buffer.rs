use vstd::prelude::*;
use vstd::pervasive::unreached;
use vstd::slice::slice_subrange;
use crate::engine;
use crate::error::TlsError;

verus! {

/// One operation on the cursors of a ring buffer.
#[derive(Clone, Copy, Debug, PartialEq, Eq)]
pub enum RingOp {
    /// `n` bytes were written at the write cursor.
    Append(usize),
    /// `n` unread bytes were taken from the read cursor.
    Consume(usize),
}

/// Whether `op` may be applied to cursors `(rd, wr)` of a buffer of capacity `cap`.
pub open spec fn op_allowed(rd: int, wr: int, cap: int, op: RingOp) -> bool {
    match op {
        RingOp::Append(n) => wr + n <= cap,
        RingOp::Consume(n) => n <= wr - rd,
    }
}

/// The cursors after `op`: a consume that drains the buffer resets both to zero.
pub open spec fn apply_op(rd: int, wr: int, op: RingOp) -> (int, int) {
    match op {
        RingOp::Append(n) => (rd, wr + n),
        RingOp::Consume(n) => if rd + n == wr {
            (0, 0)
        } else {
            (rd + n, wr)
        },
    }
}

/// The cursors after a sequence of operations, or `None` once one of them
/// does not respect the capacity.
pub open spec fn run_ops(rd: int, wr: int, cap: int, ops: Seq<RingOp>) -> Option<(int, int)>
    decreases ops.len(),
{
    if ops.len() == 0 {
        Some((rd, wr))
    } else if !op_allowed(rd, wr, cap, ops[0]) {
        None
    } else {
        let next = apply_op(rd, wr, ops[0]);
        run_ops(next.0, next.1, cap, ops.drop_first())
    }
}

/// The cursor invariant: `0 <= read <= write <= capacity`, and an empty
/// buffer has both cursors at zero.
pub open spec fn cursors_ok(rd: int, wr: int, cap: int) -> bool {
    &&& 0 <= rd <= wr <= cap
    &&& rd == wr ==> rd == 0
}

/// Every interleaving of appends and consumes that respects the capacity keeps
/// the cursor invariant: the length `write - read` never goes negative nor past
/// the capacity, and whenever the buffer is drained both cursors are back at zero.
pub proof fn lemma_ring_ops_keep_cursors(rd: int, wr: int, cap: int, ops: Seq<RingOp>)
    requires
        cursors_ok(rd, wr, cap),
    ensures
        run_ops(rd, wr, cap, ops) matches Some(c) ==> cursors_ok(c.0, c.1, cap),
    decreases ops.len(),
{
    if ops.len() > 0 && op_allowed(rd, wr, cap, ops[0]) {
        let next = apply_op(rd, wr, ops[0]);
        lemma_ring_ops_keep_cursors(next.0, next.1, cap, ops.drop_first());
    }
}

/// A fixed-capacity byte store with a read cursor and a write cursor. The
/// unread bytes lie between the two; bytes can be appended only up to the
/// capacity, and the cursors return to the start once everything was read.
pub struct RingBuffer {
    read: usize,
    write: usize,
    capacity: usize,
    buf: Vec<u8>,
}

impl RingBuffer {
    /// The cursor invariant holds and the backing store has the capacity's length.
    pub open spec fn wf(&self) -> bool {
        &&& cursors_ok(self.read_pos(), self.write_pos(), self.cap())
        &&& self.storage().len() == self.cap()
    }

    /// The whole backing store, read or not.
    pub closed spec fn storage(&self) -> Seq<u8> {
        self.buf@
    }

    /// The unread bytes.
    pub closed spec fn view(&self) -> Seq<u8> {
        self.buf@.subrange(self.read as int, self.write as int)
    }

    pub closed spec fn read_pos(&self) -> int {
        self.read as int
    }

    pub closed spec fn write_pos(&self) -> int {
        self.write as int
    }

    pub closed spec fn cap(&self) -> int {
        self.capacity as int
    }

    pub fn with_capacity(size: usize) -> (r: RingBuffer)
        ensures
            r.wf(),
            r.cap() == size,
            r.read_pos() == 0,
            r.write_pos() == 0,
            r@ == Seq::<u8>::empty(),
    {
        RingBuffer { read: 0, write: 0, capacity: size, buf: vec![0u8; size] }
    }

    pub fn len(&self) -> (r: usize)
        requires
            self.wf(),
        ensures
            r == self.write_pos() - self.read_pos(),
            r == self@.len(),
    {
        self.write - self.read
    }

    pub fn is_empty(&self) -> (r: bool)
        requires
            self.wf(),
        ensures
            r == (self@.len() == 0),
            r ==> self.read_pos() == 0 && self.write_pos() == 0,
    {
        self.len() == 0
    }

    /// Free space past the write cursor.
    pub fn available(&self) -> (r: usize)
        requires
            self.wf(),
        ensures
            r == self.cap() - self.write_pos(),
    {
        self.capacity - self.write
    }

    pub fn is_full(&self) -> (r: bool)
        requires
            self.wf(),
        ensures
            r == (self.write_pos() == self.cap()),
    {
        self.available() == 0
    }

    /// Consumes `n` unread bytes; both cursors go back to zero once drained.
    pub fn advance(&mut self, n: usize)
        requires
            old(self).wf(),
            n <= old(self)@.len(),
        ensures
            final(self).wf(),
            final(self).cap() == old(self).cap(),
            (final(self).read_pos(), final(self).write_pos()) == apply_op(
                old(self).read_pos(),
                old(self).write_pos(),
                RingOp::Consume(n),
            ),
            final(self)@ == old(self)@.subrange(n as int, old(self)@.len() as int),
            final(self).storage() == old(self).storage(),
    {
        self.read = self.read + n;
        if self.read == self.write {
            self.read = 0;
            self.write = 0;
        }
        assert(self@ =~= old(self)@.subrange(n as int, old(self)@.len() as int));
    }

    /// Number of unread bytes: the initialised part as seen by an I/O primitive.
    pub fn bytes_init(&self) -> (r: usize)
        requires
            self.wf(),
        ensures
            r == self@.len(),
    {
        self.len()
    }

    /// Number of bytes an I/O primitive may write at the write cursor.
    pub fn bytes_total(&self) -> (r: usize)
        requires
            self.wf(),
        ensures
            r == self.cap() - self.write_pos(),
    {
        self.available()
    }

    /// The unread bytes, as one contiguous slice.
    pub fn unread(&self) -> (r: &[u8])
        requires
            self.wf(),
        ensures
            r@ == self@,
    {
        slice_subrange(self.buf.as_slice(), self.read, self.write)
    }

    /// Copies as much of `src` as fits past the write cursor and returns the count.
    pub fn append_from(&mut self, src: &[u8]) -> (n: usize)
        requires
            old(self).wf(),
        ensures
            final(self).wf(),
            final(self).cap() == old(self).cap(),
            n == if src@.len() <= old(self).cap() - old(self).write_pos() {
                src@.len() as int
            } else {
                old(self).cap() - old(self).write_pos()
            },
            (final(self).read_pos(), final(self).write_pos()) == apply_op(
                old(self).read_pos(),
                old(self).write_pos(),
                RingOp::Append(n),
            ),
            final(self)@ == old(self)@ + src@.subrange(0, n as int),
    {
        let avail = self.available();
        let n: usize = if src.len() < avail {
            src.len()
        } else {
            avail
        };
        if n == 0 {
            assert(self@ =~= old(self)@ + src@.subrange(0, 0));
            return 0;
        }
        let start = self.write;
        let mut i: usize = 0;
        while i < n
            invariant
                i <= n,
                n <= src@.len(),
                start + n <= self.capacity,
                self.buf@.len() == self.capacity,
                self.read == old(self).read,
                self.write == start,
                self.capacity == old(self).capacity,
                start == old(self).write,
                forall|j: int| 0 <= j < start ==> self.buf@[j] == old(self).buf@[j],
                forall|j: int| 0 <= j < i ==> self.buf@[start + j] == src@[j],
            decreases n - i,
        {
            self.buf.set(start + i, src[i]);
            i = i + 1;
        }
        self.write = start + n;
        assert(self@ =~= old(self)@ + src@.subrange(0, n as int));
        n
    }
}

/// Size of each adaptor's ring buffer.
pub const BUFFER_SIZE: usize = 8192;

/// Where an adaptor's ring buffer is: at rest in the adaptor, or handed to a
/// completion I/O operation that has not yet returned it.
pub enum BufferSlot {
    Idle(RingBuffer),
    InFlight,
}

/// The terminal status a read adaptor holds until it has been reported once.
#[derive(Clone, Copy, Debug, PartialEq, Eq)]
pub enum ReadStatus {
    Clear,
    Eof,
    Failed(i32),
}

/// The terminal status a write adaptor holds until it has been reported once.
#[derive(Clone, Copy, Debug, PartialEq, Eq)]
pub enum WriteStatus {
    Clear,
    Failed(i32),
}

/// What a read adaptor asks of the completion I/O.
pub enum ReadIo {
    /// Bytes are already buffered: no I/O is needed.
    Buffered(usize),
    /// Read into this buffer, then hand it back with `finish_io`.
    Issue(RingBuffer),
}

/// What a write adaptor asks of the completion I/O.
pub enum WriteIo {
    /// Nothing is buffered: no I/O is needed.
    Nothing,
    /// Write the unread bytes of this buffer, then hand it back with `finish_io`.
    Issue(RingBuffer),
}

pub open spec fn min_int(a: int, b: int) -> int {
    if a <= b {
        a
    } else {
        b
    }
}

/// The synchronous read of an adaptor holding `data` and `status`, into room
/// for `max` bytes: the buffered bytes left, the status left, and the result.
pub open spec fn read_step(data: Seq<u8>, status: ReadStatus, max: int) -> (
    Seq<u8>,
    ReadStatus,
    Result<Seq<u8>, TlsError>,
) {
    if max == 0 {
        (data, status, Ok(Seq::empty()))
    } else if data.len() > 0 {
        let k = min_int(data.len() as int, max);
        (data.subrange(k, data.len() as int), status, Ok(data.subrange(0, k)))
    } else {
        match status {
            ReadStatus::Eof => (data, ReadStatus::Clear, Ok(Seq::empty())),
            ReadStatus::Failed(c) => (data, ReadStatus::Clear, Err(TlsError::Transport(c))),
            ReadStatus::Clear => (data, ReadStatus::Clear, Err(TlsError::NotReady)),
        }
    }
}

/// The flush of a write adaptor holding `data` and `status`: the status left
/// and the result.
pub open spec fn flush_step(data: Seq<u8>, status: WriteStatus) -> (WriteStatus, Result<(), TlsError>) {
    if data.len() > 0 {
        (status, Err(TlsError::NotReady))
    } else {
        match status {
            WriteStatus::Failed(c) => (WriteStatus::Clear, Err(TlsError::Transport(c))),
            WriteStatus::Clear => (status, Ok(())),
        }
    }
}

pub open spec fn bytes_result(r: Result<Vec<u8>, TlsError>) -> Result<Seq<u8>, TlsError> {
    match r {
        Ok(v) => Ok(v@),
        Err(e) => Err(e),
    }
}

/// A transport error latched by a read adaptor is reported by exactly one
/// synchronous read: the read after it finds the adaptor merely not ready.
pub proof fn lemma_read_error_reported_once(data: Seq<u8>, code: i32, max1: int, max2: int)
    requires
        data.len() == 0,
        max1 > 0,
        max2 > 0,
    ensures
        read_step(data, ReadStatus::Failed(code), max1).2 == Err::<Seq<u8>, TlsError>(
            TlsError::Transport(code),
        ),
        ({
            let first = read_step(data, ReadStatus::Failed(code), max1);
            read_step(first.0, first.1, max2).2 == Err::<Seq<u8>, TlsError>(TlsError::NotReady)
        }),
{
}

/// A transport error latched by a write adaptor is reported by exactly one
/// flush of the drained adaptor: the flush after it succeeds.
pub proof fn lemma_write_error_reported_once(code: i32)
    ensures
        flush_step(Seq::empty(), WriteStatus::Failed(code)).1 == Err::<(), TlsError>(
            TlsError::Transport(code),
        ),
        flush_step(Seq::empty(), flush_step(Seq::empty(), WriteStatus::Failed(code)).0).1 == Ok::<
            (),
            TlsError,
        >(()),
{
}

/// Maps an error of the session's record layer. "Would block" there is not
/// this adaptor's own signal to run I/O, so it does not become `NotReady`.
fn session_error(e: &std::io::Error) -> (r: TlsError)
    ensures
        !(r is Transport),
        r != TlsError::NotReady,
{
    let k = engine::error_of(e);
    if let TlsError::NotReady = k {
        TlsError::Other
    } else {
        k
    }
}

/// Bridges a session's synchronous pulls of ciphertext onto completion reads,
/// at most one per `begin_io` / `finish_io` pair.
pub struct SyncReadAdaptor {
    buffer: BufferSlot,
    status: ReadStatus,
}

impl SyncReadAdaptor {
    /// A buffer at rest is well formed; its unread bytes and its room past
    /// the write cursor fit the capacity, and with nothing unread the whole
    /// capacity is room.
    pub open spec fn wf(&self) -> bool {
        &&& self.slot_ok()
        &&& self.is_idle() ==> 0 <= self.room() && self.data().len() + self.room() <= self.capacity()
        &&& self.is_idle() && self.data().len() == 0 ==> self.room() == self.capacity()
    }

    pub closed spec fn slot_ok(&self) -> bool {
        self.buffer matches BufferSlot::Idle(b) ==> b.wf()
    }

    /// The capacity of the buffer at rest.
    pub closed spec fn capacity(&self) -> int {
        match self.buffer {
            BufferSlot::Idle(b) => b.cap(),
            BufferSlot::InFlight => 0,
        }
    }

    /// Room left past the buffer's write cursor.
    pub closed spec fn room(&self) -> int {
        match self.buffer {
            BufferSlot::Idle(b) => b.cap() - b.write_pos(),
            BufferSlot::InFlight => 0,
        }
    }

    /// The buffer is at rest in the adaptor.
    pub closed spec fn is_idle(&self) -> bool {
        self.buffer is Idle
    }

    /// The buffered bytes not yet handed to the session.
    pub closed spec fn data(&self) -> Seq<u8> {
        match self.buffer {
            BufferSlot::Idle(b) => b@,
            BufferSlot::InFlight => Seq::empty(),
        }
    }

    pub closed spec fn status(&self) -> ReadStatus {
        self.status
    }

    pub fn new() -> (r: SyncReadAdaptor)
        ensures
            r.wf(),
            r.is_idle(),
            r.data() == Seq::<u8>::empty(),
            r.capacity() == BUFFER_SIZE,
            r.room() == BUFFER_SIZE,
            r.status() == ReadStatus::Clear,
    {
        SyncReadAdaptor { buffer: BufferSlot::Idle(RingBuffer::with_capacity(BUFFER_SIZE)), status: ReadStatus::Clear }
    }

    /// Clears the latched status and returns what it was.
    fn take_status(&mut self) -> (r: ReadStatus)
        ensures
            r == old(self).status,
            final(self).status == ReadStatus::Clear,
            final(self).buffer == old(self).buffer,
    {
        let r = self.status;
        self.status = ReadStatus::Clear;
        r
    }

    /// Copies up to `max` buffered bytes out. With nothing buffered, reports a
    /// latched end of stream (no bytes) or error once, else `NotReady`.
    pub fn read(&mut self, max: usize) -> (r: Result<Vec<u8>, TlsError>)
        requires
            old(self).wf(),
            old(self).is_idle(),
        ensures
            final(self).capacity() == old(self).capacity(),
            final(self).wf(),
            final(self).is_idle(),
            ({
                let s = read_step(old(self).data(), old(self).status(), max as int);
                &&& final(self).data() == s.0
                &&& final(self).status() == s.1
                &&& bytes_result(r) == s.2
            }),
    {
        if max == 0 {
            return Ok(Vec::new());
        }
        let empty = match &self.buffer {
            BufferSlot::Idle(b) => b.is_empty(),
            BufferSlot::InFlight => unreached(),
        };
        if empty {
            return match self.take_status() {
                ReadStatus::Eof => Ok(Vec::new()),
                ReadStatus::Failed(c) => Err(TlsError::Transport(c)),
                ReadStatus::Clear => Err(TlsError::NotReady),
            };
        }
        match &mut self.buffer {
            BufferSlot::Idle(b) => {
                let len = b.len();
                let k: usize = if len < max {
                    len
                } else {
                    max
                };
                let mut out: Vec<u8> = Vec::new();
                let src = b.unread();
                let mut i: usize = 0;
                while i < k
                    invariant
                        k <= src@.len(),
                        i <= k,
                        out@ == src@.subrange(0, i as int),
                    decreases k - i,
                {
                    out.push(src[i]);
                    i = i + 1;
                }
                b.advance(k);
                Ok(out)
            },
            BufferSlot::InFlight => unreached(),
        }
    }

    /// Offers the buffered bytes to the session's `read_tls`. With nothing
    /// buffered, a latched end of stream is passed on to the session as an
    /// empty read and a latched error is returned, each once; else `NotReady`.
    pub fn read_tls_into(&mut self, conn: &mut rustls::Connection) -> (r: Result<usize, TlsError>)
        requires
            old(self).wf(),
            old(self).is_idle(),
        ensures
            final(self).capacity() == old(self).capacity(),
            final(self).wf(),
            final(self).is_idle(),
            old(self).data().len() == 0 ==> final(self).data() == old(self).data(),
            old(self).data().len() == 0 ==> final(self).status() == ReadStatus::Clear,
            (r == Err::<usize, TlsError>(TlsError::NotReady)) == (old(self).data().len() == 0
                && old(self).status() == ReadStatus::Clear),
            r == Err::<usize, TlsError>(TlsError::NotReady) ==> *final(self) == *old(self),
            old(self).data().len() == 0 && old(self).status() is Failed
                ==> r == Err::<usize, TlsError>(TlsError::Transport(old(self).status()->Failed_0)),
            old(self).data().len() == 0 && old(self).status() == ReadStatus::Eof
                ==> (r == Ok::<usize, TlsError>(0) || (r matches Err(e) && !(e is Transport))),
            old(self).data().len() > 0 ==> final(self).status() == old(self).status(),
            old(self).data().len() > 0 ==> match r {
                Ok(n) => n <= old(self).data().len() && final(self).data()
                    == old(self).data().subrange(n as int, old(self).data().len() as int),
                Err(e) => final(self).data() == old(self).data() && !(e is Transport),
            },
    {
        let empty = match &self.buffer {
            BufferSlot::Idle(b) => b.is_empty(),
            BufferSlot::InFlight => unreached(),
        };
        if empty {
            return match self.take_status() {
                ReadStatus::Eof => {
                    let none: [u8; 0] = [];
                    match engine::read_tls(conn, none.as_slice()) {
                        Ok(n) => Ok(n),
                        Err(e) => Err(session_error(&e)),
                    }
                },
                ReadStatus::Failed(c) => Err(TlsError::Transport(c)),
                ReadStatus::Clear => Err(TlsError::NotReady),
            };
        }
        match &mut self.buffer {
            BufferSlot::Idle(b) => {
                match engine::read_tls(conn, b.unread()) {
                    Ok(n) => {
                        b.advance(n);
                        Ok(n)
                    },
                    Err(e) => Err(session_error(&e)),
                }
            },
            BufferSlot::InFlight => unreached(),
        }
    }

    /// First half of a completion read: with bytes buffered, reports their
    /// number and needs no I/O; else hands the (empty) buffer out for the read.
    pub fn begin_io(&mut self) -> (r: ReadIo)
        requires
            old(self).wf(),
            old(self).is_idle(),
        ensures
            final(self).wf(),
            final(self).status() == old(self).status(),
            old(self).data().len() > 0 ==> r == ReadIo::Buffered(old(self).data().len() as usize)
                && *final(self) == *old(self),
            old(self).data().len() == 0 ==> !final(self).is_idle() && (r matches ReadIo::Issue(b)
                && b.wf() && b@ == old(self).data() && b.cap() == old(self).capacity()
                && b.read_pos() == 0 && b.write_pos() == 0),
    {
        let n = match &self.buffer {
            BufferSlot::Idle(b) => b.len(),
            BufferSlot::InFlight => unreached(),
        };
        if n > 0 {
            return ReadIo::Buffered(n);
        }
        let mut slot = BufferSlot::InFlight;
        core::mem::swap(&mut self.buffer, &mut slot);
        match slot {
            BufferSlot::Idle(b) => ReadIo::Issue(b),
            BufferSlot::InFlight => unreached(),
        }
    }

    /// Second half of a completion read: the buffer is reinstalled whatever the
    /// outcome. Bytes read (no more than the room the buffer offered) are
    /// appended; an empty read latches end of stream and a failure latches the
    /// error, which is also returned.
    pub fn finish_io(&mut self, ring: RingBuffer, outcome: Result<Vec<u8>, i32>) -> (r: Result<usize, TlsError>)
        requires
            ring.wf(),
            outcome matches Ok(v) ==> v@.len() <= ring.cap() - ring.write_pos(),
        ensures
            final(self).wf(),
            final(self).is_idle(),
            final(self).capacity() == ring.cap(),
            match outcome {
                Ok(v) => if v@.len() == 0 {
                    &&& final(self).status() == ReadStatus::Eof
                    &&& final(self).data() == ring@
                    &&& r == Ok::<usize, TlsError>(0)
                } else {
                    &&& final(self).status() == ReadStatus::Clear
                    &&& final(self).data() == ring@ + v@
                    &&& r == Ok::<usize, TlsError>(v@.len() as usize)
                },
                Err(c) => {
                    &&& final(self).status() == ReadStatus::Failed(c)
                    &&& final(self).data() == ring@
                    &&& r == Err::<usize, TlsError>(TlsError::Transport(c))
                },
            },
    {
        let mut ring = ring;
        match outcome {
            Ok(v) => {
                if v.len() == 0 {
                    self.buffer = BufferSlot::Idle(ring);
                    self.status = ReadStatus::Eof;
                    Ok(0)
                } else {
                    let n = ring.append_from(v.as_slice());
                    self.buffer = BufferSlot::Idle(ring);
                    self.status = ReadStatus::Clear;
                    Ok(n)
                }
            },
            Err(c) => {
                self.buffer = BufferSlot::Idle(ring);
                self.status = ReadStatus::Failed(c);
                Err(TlsError::Transport(c))
            },
        }
    }
}

impl Default for SyncReadAdaptor {
    fn default() -> (r: SyncReadAdaptor)
        ensures
            r.wf(),
            r.is_idle(),
            r.data() == Seq::<u8>::empty(),
            r.capacity() == BUFFER_SIZE,
            r.room() == BUFFER_SIZE,
            r.status() == ReadStatus::Clear,
    {
        SyncReadAdaptor::new()
    }
}

/// Bridges a session's synchronous pushes of ciphertext onto completion
/// writes, at most one per `begin_io` / `finish_io` pair.
pub struct SyncWriteAdaptor {
    buffer: BufferSlot,
    status: WriteStatus,
}

impl SyncWriteAdaptor {
    /// A buffer at rest is well formed; its unread bytes and its room past
    /// the write cursor fit the capacity, and with nothing unread the whole
    /// capacity is room.
    pub open spec fn wf(&self) -> bool {
        &&& self.slot_ok()
        &&& self.is_idle() ==> 0 <= self.room() && self.data().len() + self.room() <= self.capacity()
        &&& self.is_idle() && self.data().len() == 0 ==> self.room() == self.capacity()
    }

    pub closed spec fn slot_ok(&self) -> bool {
        self.buffer matches BufferSlot::Idle(b) ==> b.wf()
    }

    /// The capacity of the buffer at rest.
    pub closed spec fn capacity(&self) -> int {
        match self.buffer {
            BufferSlot::Idle(b) => b.cap(),
            BufferSlot::InFlight => 0,
        }
    }

    /// Room left past the buffer's write cursor.
    pub closed spec fn room(&self) -> int {
        match self.buffer {
            BufferSlot::Idle(b) => b.cap() - b.write_pos(),
            BufferSlot::InFlight => 0,
        }
    }

    pub closed spec fn is_idle(&self) -> bool {
        self.buffer is Idle
    }

    /// The buffered bytes not yet accepted by the transport.
    pub closed spec fn data(&self) -> Seq<u8> {
        match self.buffer {
            BufferSlot::Idle(b) => b@,
            BufferSlot::InFlight => Seq::empty(),
        }
    }

    pub closed spec fn status(&self) -> WriteStatus {
        self.status
    }

    pub fn new() -> (r: SyncWriteAdaptor)
        ensures
            r.wf(),
            r.is_idle(),
            r.data() == Seq::<u8>::empty(),
            r.capacity() == BUFFER_SIZE,
            r.room() == BUFFER_SIZE,
            r.status() == WriteStatus::Clear,
    {
        SyncWriteAdaptor {
            buffer: BufferSlot::Idle(RingBuffer::with_capacity(BUFFER_SIZE)),
            status: WriteStatus::Clear,
        }
    }

    fn take_status(&mut self) -> (r: WriteStatus)
        ensures
            r == old(self).status,
            final(self).status == WriteStatus::Clear,
            final(self).buffer == old(self).buffer,
    {
        let r = self.status;
        self.status = WriteStatus::Clear;
        r
    }

    fn is_full(&self) -> (r: bool)
        requires
            self.wf(),
            self.is_idle(),
        ensures
            r == (self.room() == 0),
    {
        match &self.buffer {
            BufferSlot::Idle(b) => b.is_full(),
            BufferSlot::InFlight => unreached(),
        }
    }

    /// Buffers as much of `src` as fits. A latched error is reported once
    /// first; a full buffer is `NotReady` (it must be drained first).
    pub fn write(&mut self, src: &[u8]) -> (r: Result<usize, TlsError>)
        requires
            old(self).wf(),
            old(self).is_idle(),
        ensures
            final(self).capacity() == old(self).capacity(),
            final(self).wf(),
            final(self).is_idle(),
            src@.len() == 0 ==> r == Ok::<usize, TlsError>(0) && *final(self) == *old(self),
            src@.len() > 0 && old(self).status() is Failed ==> r == Err::<usize, TlsError>(
                TlsError::Transport(old(self).status()->Failed_0),
            ) && final(self).status() == WriteStatus::Clear && final(self).data() == old(self).data()
                && final(self).room() == old(self).room(),
            src@.len() > 0 && old(self).status() == WriteStatus::Clear && old(self).room() == 0
                ==> r == Err::<usize, TlsError>(TlsError::NotReady) && *final(self) == *old(self),
            src@.len() > 0 && old(self).status() == WriteStatus::Clear && old(self).room() > 0 ==> {
                let k = min_int(src@.len() as int, old(self).room());
                &&& r == Ok::<usize, TlsError>(k as usize)
                &&& final(self).data() == old(self).data() + src@.subrange(0, k)
                &&& final(self).room() == old(self).room() - k
                &&& final(self).status() == WriteStatus::Clear
            },
    {
        if src.len() == 0 {
            return Ok(0);
        }
        if let WriteStatus::Failed(c) = self.take_status() {
            return Err(TlsError::Transport(c));
        }
        if self.is_full() {
            return Err(TlsError::NotReady);
        }
        match &mut self.buffer {
            BufferSlot::Idle(b) => Ok(b.append_from(src)),
            BufferSlot::InFlight => unreached(),
        }
    }

    /// `NotReady` while bytes wait to be drained; then a latched error is
    /// reported once; else success.
    pub fn flush(&mut self) -> (r: Result<(), TlsError>)
        requires
            old(self).wf(),
            old(self).is_idle(),
        ensures
            final(self).capacity() == old(self).capacity(),
            final(self).wf(),
            final(self).is_idle(),
            final(self).data() == old(self).data(),
            final(self).room() == old(self).room(),
            ({
                let s = flush_step(old(self).data(), old(self).status());
                final(self).status() == s.0 && r == s.1
            }),
    {
        let empty = match &self.buffer {
            BufferSlot::Idle(b) => b.is_empty(),
            BufferSlot::InFlight => unreached(),
        };
        if !empty {
            return Err(TlsError::NotReady);
        }
        match self.take_status() {
            WriteStatus::Failed(c) => Err(TlsError::Transport(c)),
            WriteStatus::Clear => Ok(()),
        }
    }

    /// Lets the session's `write_tls` put ciphertext into the buffer. A session
    /// with nothing to send gets `Ok(0)`; then a latched error is reported
    /// once; a full buffer is `NotReady`.
    pub fn write_tls_from(&mut self, conn: &mut rustls::Connection) -> (r: Result<usize, TlsError>)
        requires
            old(self).wf(),
            old(self).is_idle(),
        ensures
            final(self).capacity() == old(self).capacity(),
            final(self).wf(),
            final(self).is_idle(),
            match r {
                Ok(n) => {
                    &&& final(self).data().len() == old(self).data().len() + n
                    &&& final(self).data().subrange(0, old(self).data().len() as int) == old(self).data()
                    &&& final(self).room() == old(self).room() - n
                    &&& final(self).status() == old(self).status()
                },
                Err(TlsError::Transport(c)) => {
                    &&& old(self).status() == WriteStatus::Failed(c)
                    &&& final(self).status() == WriteStatus::Clear
                    &&& final(self).data() == old(self).data()
                    &&& final(self).room() == old(self).room()
                },
                Err(TlsError::NotReady) => {
                    &&& old(self).status() == WriteStatus::Clear
                    &&& old(self).room() == 0
                    &&& *final(self) == *old(self)
                },
                Err(_) => {
                    &&& old(self).status() == WriteStatus::Clear
                    &&& final(self).status() == WriteStatus::Clear
                    &&& final(self).data() == old(self).data()
                    &&& final(self).room() == old(self).room()
                },
            },
            old(self).status() == WriteStatus::Clear && old(self).room() > 0 ==> !(r
                is Err && (r->Err_0 is Transport || r->Err_0 is NotReady)),
    {
        if !engine::wants_write(conn) {
            return Ok(0);
        }
        if let WriteStatus::Failed(c) = self.take_status() {
            return Err(TlsError::Transport(c));
        }
        if self.is_full() {
            return Err(TlsError::NotReady);
        }
        match &mut self.buffer {
            BufferSlot::Idle(b) => {
                let ghost before = b.buf@;
                let start = b.write;
                let res = engine::write_tls(conn, &mut b.buf, start);
                proof {
                    assert forall|j: int| 0 <= j < start implies b.buf@[j] == before[j] by {
                        assert(b.buf@.subrange(0, start as int)[j] == before.subrange(0, start as int)[j]);
                    }
                    assert(b.buf@.subrange(b.read as int, start as int) =~= before.subrange(
                        b.read as int,
                        start as int,
                    ));
                }
                match res {
                    Ok(n) => {
                        b.write = start + n;
                        assert(b@.subrange(0, old(self).data().len() as int) =~= old(self).data());
                        Ok(n)
                    },
                    Err(e) => Err(session_error(&e)),
                }
            },
            BufferSlot::InFlight => unreached(),
        }
    }

    /// First half of a completion write: with nothing buffered there is nothing
    /// to do; else the buffer is handed out for the write.
    pub fn begin_io(&mut self) -> (r: WriteIo)
        requires
            old(self).wf(),
            old(self).is_idle(),
        ensures
            final(self).wf(),
            final(self).status() == old(self).status(),
            old(self).data().len() == 0 ==> r is Nothing && *final(self) == *old(self),
            old(self).data().len() > 0 ==> !final(self).is_idle() && (r matches WriteIo::Issue(b)
                && b.wf() && b@ == old(self).data() && b.cap() == old(self).capacity()
                && b.cap() - b.write_pos() == old(self).room()),
    {
        let empty = match &self.buffer {
            BufferSlot::Idle(b) => b.is_empty(),
            BufferSlot::InFlight => unreached(),
        };
        if empty {
            return WriteIo::Nothing;
        }
        let mut slot = BufferSlot::InFlight;
        core::mem::swap(&mut self.buffer, &mut slot);
        match slot {
            BufferSlot::Idle(b) => WriteIo::Issue(b),
            BufferSlot::InFlight => unreached(),
        }
    }

    /// Second half of a completion write: the buffer is reinstalled whatever
    /// the outcome; the bytes the transport accepted are consumed, and a
    /// failure is latched and returned.
    pub fn finish_io(&mut self, ring: RingBuffer, outcome: Result<usize, i32>) -> (r: Result<usize, TlsError>)
        requires
            ring.wf(),
            outcome matches Ok(n) ==> n <= ring@.len(),
        ensures
            final(self).wf(),
            final(self).is_idle(),
            final(self).capacity() == ring.cap(),
            match outcome {
                Ok(n) => {
                    &&& final(self).status() == old(self).status()
                    &&& final(self).data() == ring@.subrange(n as int, ring@.len() as int)
                    &&& r == Ok::<usize, TlsError>(n)
                },
                Err(c) => {
                    &&& final(self).status() == WriteStatus::Failed(c)
                    &&& final(self).data() == ring@
                    &&& r == Err::<usize, TlsError>(TlsError::Transport(c))
                },
            },
    {
        let mut ring = ring;
        match outcome {
            Ok(n) => {
                ring.advance(n);
                self.buffer = BufferSlot::Idle(ring);
                Ok(n)
            },
            Err(c) => {
                self.buffer = BufferSlot::Idle(ring);
                self.status = WriteStatus::Failed(c);
                Err(TlsError::Transport(c))
            },
        }
    }
}

impl Default for SyncWriteAdaptor {
    fn default() -> (r: SyncWriteAdaptor)
        ensures
            r.wf(),
            r.is_idle(),
            r.data() == Seq::<u8>::empty(),
            r.capacity() == BUFFER_SIZE,
            r.room() == BUFFER_SIZE,
            r.status() == WriteStatus::Clear,
    {
        SyncWriteAdaptor::new()
    }
}

} // verus!
