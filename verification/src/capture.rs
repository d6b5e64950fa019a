//! The capture session: configuration builder, format negotiation and the
//! buffer-lifecycle state machine.
//!
//! A session moves `Opened -> Prepared -> Streaming -> Stopped`, with
//! `Stopped -> Prepared` on a re-prepare and `Prepared/Stopped -> Opened` on
//! an unprepare. Every device-control exchange is performed by the caller
//! (the unverified shell around this library); the session here is the
//! authority on what may be exchanged in which order, records the outcome of
//! each exchange, and fails fast on anything out of order.

use vstd::prelude::*;

use crate::sys::ioctl::v4l2_buffer;
use crate::sys::ioctl::v4l2_captureparm;
use crate::sys::ioctl::v4l2_colorspace;
use crate::sys::ioctl::v4l2_field;
use crate::sys::ioctl::v4l2_fract;
use crate::sys::ioctl::v4l2_pix_format;
use crate::sys::ioctl::V4L2_CAP_TIMEPERFRAME;
use crate::sys::ioctl::V4L2_MODE_HIGHQUALITY;
use crate::sys::ioctl::V4L2_MODE_IMAGE;
use crate::sys::ioctl::V4L2_MODE_PREVIEW;
use crate::sys::ioctl::V4L2_MODE_VIDEO;

verus! {

/// The errors a capture session surfaces. Every failed operation reports one
/// of these synchronously; nothing is retried.
#[derive(Clone, Copy, Debug, PartialEq, Eq, Structural)]
pub enum CaptureError {
    /// The device node could not be opened.
    OpenError,
    /// The requested pixel format is absent from the device's enumerated
    /// format list.
    UnsupportedFormat,
    /// A control operation was rejected, or was attempted out of order.
    ControlError,
    /// A buffer slot could not be memory-mapped.
    MappingError,
}

/// Where a session stands in its lifecycle. The closed state needs no value:
/// a session exists only once its device is open.
#[derive(Clone, Copy, Debug, PartialEq, Eq, Structural)]
pub enum SessionState {
    /// Device open, format negotiated, no buffer pool.
    Opened,
    /// A buffer pool is requested and memory-mapped.
    Prepared,
    /// The kernel is actively filling queued buffers.
    Streaming,
    /// Streaming was switched off; the pool still exists.
    Stopped,
}

/// One slot of the buffer pool: the length and kernel-side memory offset of
/// its mapping, taken verbatim from the kernel's buffer-query response.
#[derive(Clone, Copy, Debug, PartialEq, Eq, Structural)]
pub struct PoolSlot {
    pub length: u32,
    pub offset: u32,
}

/// The mathematical view of a session: its state, its negotiated format, the
/// slots of its pool, and which slots the kernel currently owns (queued and
/// not yet dequeued).
#[verifier::ext_equal]
pub ghost struct SessionModel {
    pub state: SessionState,
    pub format: v4l2_pix_format,
    pub pool: Seq<PoolSlot>,
    pub kernel_owned: Seq<bool>,
}

impl SessionModel {
    /// Well-formedness: one ownership flag per slot, and no pool before
    /// prepare.
    pub open spec fn inv(self) -> bool {
        &&& self.kernel_owned.len() == self.pool.len()
        &&& (self.state is Opened ==> self.pool.len() == 0)
    }

    /// Whether a prepare exchange may be accepted: the session is Opened or
    /// Stopped, and the kernel granted no more buffers than were requested.
    pub open spec fn can_prepare(self, count: int, granted: int) -> bool {
        &&& (self.state is Opened || self.state is Stopped)
        &&& granted <= count
    }

    /// The session after a successful prepare: a fresh pool of exactly
    /// `slots`, none of them queued.
    pub open spec fn prepared(self, slots: Seq<PoolSlot>) -> SessionModel {
        SessionModel {
            state: SessionState::Prepared,
            format: self.format,
            pool: slots,
            kernel_owned: Seq::new(slots.len(), |i: int| false),
        }
    }

    /// The session after the kernel handed frame `i` to the caller.
    pub open spec fn taken(self, i: int) -> SessionModel {
        SessionModel {
            state: self.state,
            format: self.format,
            pool: self.pool,
            kernel_owned: self.kernel_owned.update(i, false),
        }
    }

    /// The session after the caller re-queued frame `i`.
    pub open spec fn requeued(self, i: int) -> SessionModel {
        SessionModel {
            state: self.state,
            format: self.format,
            pool: self.pool,
            kernel_owned: self.kernel_owned.update(i, true),
        }
    }

    /// The session once streaming is on: every slot queued to the kernel.
    pub open spec fn streaming(self) -> SessionModel {
        SessionModel {
            state: SessionState::Streaming,
            format: self.format,
            pool: self.pool,
            kernel_owned: Seq::new(self.pool.len(), |i: int| true),
        }
    }

    /// The session after a streaming startup that failed partway: the first
    /// `issued` slots stay queued (no rollback), the state stays Prepared.
    pub open spec fn start_aborted(self, issued: int) -> SessionModel {
        SessionModel {
            state: self.state,
            format: self.format,
            pool: self.pool,
            kernel_owned: Seq::new(self.pool.len(), |i: int| i < issued),
        }
    }

    /// The session after streaming is switched off: the kernel returns every
    /// queued buffer to a dequeued state.
    pub open spec fn stopped(self) -> SessionModel {
        SessionModel {
            state: SessionState::Stopped,
            format: self.format,
            pool: self.pool,
            kernel_owned: Seq::new(self.pool.len(), |i: int| false),
        }
    }

    /// The session after its pool is released.
    pub open spec fn unprepared(self) -> SessionModel {
        SessionModel {
            state: SessionState::Opened,
            format: self.format,
            pool: Seq::empty(),
            kernel_owned: Seq::empty(),
        }
    }
}

/// Whether every slot of a prepare exchange was mapped.
pub open spec fn all_mapped(slots: Seq<Option<PoolSlot>>) -> bool {
    forall|i: int| 0 <= i < slots.len() ==> slots[i] is Some
}

/// The pool contents of a prepare exchange in which every slot was mapped.
pub open spec fn mapped_slots(slots: Seq<Option<PoolSlot>>) -> Seq<PoolSlot> {
    Seq::new(slots.len(), |i: int| slots[i]->0)
}

/// A capture session: the streaming state machine over one open device and
/// its buffer pool. The caller performs each device-control exchange and
/// feeds its outcome back in; the session validates the order, keeps the
/// model of the pool, and never panics — out-of-order calls and
/// out-of-range kernel replies surface as `ControlError`.
#[derive(Debug)]
pub struct Capture {
    state: SessionState,
    format: v4l2_pix_format,
    pool: Vec<PoolSlot>,
    kernel_owned: Vec<bool>,
}

impl View for Capture {
    type V = SessionModel;

    closed spec fn view(&self) -> SessionModel {
        SessionModel {
            state: self.state,
            format: self.format,
            pool: self.pool@,
            kernel_owned: self.kernel_owned@,
        }
    }
}

impl Capture {
    /// A session over a freshly opened device: Opened, with the negotiated
    /// pixel format and no pool.
    pub fn opened(format: v4l2_pix_format) -> (r: Capture)
        ensures
            r@.inv(),
            r@.state is Opened,
            r@.pool.len() == 0,
            r@.format == format,
    {
        Capture { state: SessionState::Opened, format, pool: Vec::new(), kernel_owned: Vec::new() }
    }

    /// The pixel format the session was opened with.
    pub fn pix_format(&self) -> (r: v4l2_pix_format)
        ensures
            r == self@.format,
    {
        self.format
    }

    /// Where the session stands in its lifecycle.
    pub fn state(&self) -> (r: SessionState)
        ensures
            r == self@.state,
    {
        self.state
    }

    /// The slots of the buffer pool, in index order.
    pub fn pool(&self) -> (r: &Vec<PoolSlot>)
        ensures
            r@ == self@.pool,
    {
        &self.pool
    }

    /// The number of pool slots.
    pub fn pool_len(&self) -> (r: usize)
        ensures
            r == self@.pool.len(),
    {
        self.pool.len()
    }

    /// Which slots the kernel currently owns (queued, not yet dequeued).
    pub fn kernel_owned(&self) -> (r: &Vec<bool>)
        ensures
            r@ == self@.kernel_owned,
    {
        &self.kernel_owned
    }

    /// Accepts the outcome of a prepare exchange: the caller requested
    /// `count` buffers, the kernel granted `granted`, and `slots[i]` is the
    /// mapping of slot `i`, or `None` where the mapping was denied.
    ///
    /// Succeeds exactly when the session is Opened or Stopped, the grant is
    /// within the request, and every slot mapped; the pool then holds
    /// exactly the granted slots, in index order. One failed mapping fails
    /// the whole prepare with `MappingError` — a truncated pool would break
    /// the dense indexing the streaming cycle depends on — and the session
    /// is left unchanged.
    pub fn prepare_mmapped(
        &mut self,
        count: usize,
        granted: usize,
        slots: &Vec<Option<PoolSlot>>,
    ) -> (r: Result<(), CaptureError>)
        requires
            old(self)@.inv(),
        ensures
            final(self)@.inv(),
            r is Ok <==> (old(self)@.can_prepare(count as int, granted as int)
                && slots@.len() == granted && all_mapped(slots@)),
            r is Ok ==> final(self)@ == old(self)@.prepared(mapped_slots(slots@))
                && final(self)@.pool.len() == granted && final(self)@.pool.len() <= count,
            r is Err ==> final(self)@ == old(self)@,
            !(old(self)@.can_prepare(count as int, granted as int) && slots@.len() == granted)
                ==> r == Err::<(), CaptureError>(CaptureError::ControlError),
            (old(self)@.can_prepare(count as int, granted as int) && slots@.len() == granted
                && !all_mapped(slots@)) ==> r == Err::<(), CaptureError>(CaptureError::MappingError),
    {
        match self.state {
            SessionState::Opened => {},
            SessionState::Stopped => {},
            _ => {
                return Err(CaptureError::ControlError);
            },
        }
        if granted > count || slots.len() != granted {
            return Err(CaptureError::ControlError);
        }
        let mut pool: Vec<PoolSlot> = Vec::new();
        let mut owned: Vec<bool> = Vec::new();
        let mut i: usize = 0;
        while i < granted
            invariant
                self@ == old(self)@,
                old(self)@.inv(),
                old(self)@.can_prepare(count as int, granted as int),
                i <= granted,
                granted == slots@.len(),
                pool@.len() == i,
                owned@.len() == i,
                forall|j: int| 0 <= j < i ==> slots@[j] is Some,
                forall|j: int| 0 <= j < i ==> pool@[j] == slots@[j]->0,
                forall|j: int| 0 <= j < i ==> owned@[j] == false,
            decreases granted - i,
        {
            match slots[i] {
                Some(s) => {
                    pool.push(s);
                    owned.push(false);
                },
                None => {
                    return Err(CaptureError::MappingError);
                },
            }
            i += 1;
        }
        proof {
            assert(pool@ =~= mapped_slots(slots@));
            assert(owned@ =~= Seq::new(slots@.len(), |j: int| false));
        }
        self.state = SessionState::Prepared;
        self.pool = pool;
        self.kernel_owned = owned;
        Ok(())
    }

    /// Accepts a completed-buffer descriptor from a dequeue exchange and
    /// hands the caller the pool index it identifies.
    ///
    /// Succeeds exactly when the session is Streaming and the kernel named a
    /// valid, currently queued slot; that slot then becomes caller-owned
    /// until it is returned. The pool itself never changes.
    pub fn take_frame(&mut self, buf: &v4l2_buffer) -> (r: Result<usize, CaptureError>)
        requires
            old(self)@.inv(),
        ensures
            final(self)@.inv(),
            r is Ok <==> (old(self)@.state is Streaming
                && (buf.index as int) < old(self)@.pool.len()
                && old(self)@.kernel_owned[buf.index as int]),
            r matches Ok(i) ==> i == buf.index as usize
                && final(self)@ == old(self)@.taken(buf.index as int),
            r is Err ==> r == Err::<usize, CaptureError>(CaptureError::ControlError)
                && final(self)@ == old(self)@,
    {
        match self.state {
            SessionState::Streaming => {},
            _ => {
                return Err(CaptureError::ControlError);
            },
        }
        let idx = buf.index as usize;
        if idx >= self.pool.len() {
            return Err(CaptureError::ControlError);
        }
        if !self.kernel_owned[idx] {
            return Err(CaptureError::ControlError);
        }
        self.kernel_owned.set(idx, false);
        Ok(idx)
    }

    /// Records that the caller re-queues the buffer `buf` identifies,
    /// pairing an earlier take. The caller issues the enqueue exchange only
    /// after this succeeds.
    ///
    /// Succeeds exactly when the session is Streaming and the slot is valid
    /// and caller-owned; a slot already queued is refused, as the kernel
    /// would refuse it. The pool itself never changes.
    pub fn return_frame(&mut self, buf: &v4l2_buffer) -> (r: Result<(), CaptureError>)
        requires
            old(self)@.inv(),
        ensures
            final(self)@.inv(),
            r is Ok <==> (old(self)@.state is Streaming
                && (buf.index as int) < old(self)@.pool.len()
                && !old(self)@.kernel_owned[buf.index as int]),
            r is Ok ==> final(self)@ == old(self)@.requeued(buf.index as int),
            r is Err ==> r == Err::<(), CaptureError>(CaptureError::ControlError)
                && final(self)@ == old(self)@,
    {
        match self.state {
            SessionState::Streaming => {},
            _ => {
                return Err(CaptureError::ControlError);
            },
        }
        let idx = buf.index as usize;
        if idx >= self.pool.len() {
            return Err(CaptureError::ControlError);
        }
        if self.kernel_owned[idx] {
            return Err(CaptureError::ControlError);
        }
        self.kernel_owned.set(idx, true);
        Ok(())
    }

    /// Records a successful stream-off exchange. Succeeds exactly when the
    /// session is Streaming — no buffer needs to be drained first — and
    /// leaves it Stopped; the kernel returns every queued buffer to a
    /// dequeued state.
    pub fn stop(&mut self) -> (r: Result<(), CaptureError>)
        requires
            old(self)@.inv(),
        ensures
            final(self)@.inv(),
            r is Ok <==> old(self)@.state is Streaming,
            r is Ok ==> final(self)@ == old(self)@.stopped(),
            r is Err ==> r == Err::<(), CaptureError>(CaptureError::ControlError)
                && final(self)@ == old(self)@,
    {
        match self.state {
            SessionState::Streaming => {},
            _ => {
                return Err(CaptureError::ControlError);
            },
        }
        let n = self.pool.len();
        let mut owned: Vec<bool> = Vec::new();
        let mut i: usize = 0;
        while i < n
            invariant
                i <= n,
                owned@.len() == i,
                forall|j: int| 0 <= j < i ==> owned@[j] == false,
            decreases n - i,
        {
            owned.push(false);
            i += 1;
        }
        proof {
            assert(owned@ =~= Seq::new(old(self)@.pool.len(), |j: int| false));
        }
        self.state = SessionState::Stopped;
        self.kernel_owned = owned;
        Ok(())
    }

    /// Releases the buffer pool: every mapping is dropped and the session
    /// returns to Opened. Succeeds from Opened (where it is idempotent),
    /// Prepared and Stopped; only a Streaming session refuses it.
    pub fn unprepare(&mut self) -> (r: Result<(), CaptureError>)
        requires
            old(self)@.inv(),
        ensures
            final(self)@.inv(),
            r is Ok <==> !(old(self)@.state is Streaming),
            r is Ok ==> final(self)@ == old(self)@.unprepared(),
            r is Err ==> r == Err::<(), CaptureError>(CaptureError::ControlError)
                && final(self)@ == old(self)@,
    {
        match self.state {
            SessionState::Streaming => {
                return Err(CaptureError::ControlError);
            },
            _ => {},
        }
        self.state = SessionState::Opened;
        self.pool = Vec::new();
        self.kernel_owned = Vec::new();
        proof {
            assert(self.pool@ =~= Seq::<PoolSlot>::empty());
            assert(self.kernel_owned@ =~= Seq::<bool>::empty());
        }
        Ok(())
    }

    /// Begins the streaming startup. Succeeds exactly when the session is
    /// Prepared; the returned sequence commands the caller to enqueue every
    /// slot in ascending index order and then switch streaming on, stopping
    /// at the first failure. The session itself moves only when the driven
    /// sequence is handed back to `start_complete`.
    pub fn start(&self) -> (r: Result<StartSequence, CaptureError>)
        requires
            self@.inv(),
        ensures
            r is Ok <==> self@.state is Prepared,
            r matches Ok(s) ==> s.inv() && s.total == self@.pool.len() && s.issued == 0
                && !s.aborted && !s.turned_on,
            r is Err ==> r == Err::<StartSequence, CaptureError>(CaptureError::ControlError),
    {
        match self.state {
            SessionState::Prepared => {},
            _ => {
                return Err(CaptureError::ControlError);
            },
        }
        Ok(StartSequence::new(self.pool.len()))
    }

    /// Accepts a driven startup sequence back. When the sequence ran to
    /// completion the session is Streaming with every slot queued; when it
    /// aborted, the slots it had enqueued stay queued — partial enqueue
    /// state is left as-is, with no rollback — the session stays Prepared,
    /// and the failure surfaces as `ControlError`.
    pub fn start_complete(&mut self, seq: &StartSequence) -> (r: Result<(), CaptureError>)
        requires
            old(self)@.inv(),
            seq.inv(),
        ensures
            final(self)@.inv(),
            r is Ok <==> (old(self)@.state is Prepared && seq.total == old(self)@.pool.len()
                && seq.turned_on),
            r is Ok ==> final(self)@ == old(self)@.streaming(),
            r is Err ==> r == Err::<(), CaptureError>(CaptureError::ControlError),
            (old(self)@.state is Prepared && seq.total == old(self)@.pool.len()
                && !seq.turned_on) ==> final(self)@ == old(self)@.start_aborted(seq.issued as int),
            !(old(self)@.state is Prepared && seq.total == old(self)@.pool.len())
                ==> final(self)@ == old(self)@,
    {
        match self.state {
            SessionState::Prepared => {},
            _ => {
                return Err(CaptureError::ControlError);
            },
        }
        if seq.total != self.pool.len() {
            return Err(CaptureError::ControlError);
        }
        let n = self.pool.len();
        if seq.turned_on {
            let mut owned: Vec<bool> = Vec::new();
            let mut i: usize = 0;
            while i < n
                invariant
                    i <= n,
                    owned@.len() == i,
                    forall|j: int| 0 <= j < i ==> owned@[j] == true,
                decreases n - i,
            {
                owned.push(true);
                i += 1;
            }
            proof {
                assert(owned@ =~= Seq::new(old(self)@.pool.len(), |j: int| true));
            }
            self.state = SessionState::Streaming;
            self.kernel_owned = owned;
            Ok(())
        } else {
            let mut owned: Vec<bool> = Vec::new();
            let mut i: usize = 0;
            while i < n
                invariant
                    i <= n,
                    owned@.len() == i,
                    forall|j: int| 0 <= j < i ==> owned@[j] == (j < seq.issued as int),
                decreases n - i,
            {
                owned.push(i < seq.issued);
                i += 1;
            }
            proof {
                assert(owned@ =~= Seq::new(old(self)@.pool.len(), |j: int| j < seq.issued as int));
            }
            self.kernel_owned = owned;
            Err(CaptureError::ControlError)
        }
    }
}

// ---------------------------------------------------------------------------
// The streaming startup.
// ---------------------------------------------------------------------------

/// One device command of the streaming startup.
#[derive(Clone, Copy, Debug, PartialEq, Eq, Structural)]
pub enum StartCommand {
    /// Enqueue the pool slot with this index.
    Enqueue(usize),
    /// Switch streaming on.
    StreamOn,
}

/// The streaming-startup sequence: enqueue every pool slot in ascending
/// index order, then switch streaming on. The caller repeatedly asks for
/// the next command, performs the exchange, and records its outcome; after
/// a failure no further command is handed out — in particular stream-on is
/// never issued after a failed enqueue.
#[derive(Clone, Copy, Debug, PartialEq, Eq, Structural)]
pub struct StartSequence {
    /// Number of pool slots to enqueue.
    pub total: usize,
    /// Number of enqueues that have succeeded.
    pub issued: usize,
    /// A command failed; the startup is over.
    pub aborted: bool,
    /// Stream-on succeeded; the startup is complete.
    pub turned_on: bool,
}

impl StartSequence {
    pub open spec fn inv(self) -> bool {
        &&& self.issued <= self.total
        &&& (self.turned_on ==> self.issued == self.total && !self.aborted)
    }

    /// The next command a compliant caller performs, if any.
    pub open spec fn spec_next(self) -> Option<StartCommand> {
        if self.aborted || self.turned_on {
            None
        } else if self.issued < self.total {
            Some(StartCommand::Enqueue(self.issued))
        } else {
            Some(StartCommand::StreamOn)
        }
    }

    /// The sequence after the pending command's outcome is recorded.
    pub open spec fn spec_record(self, ok: bool) -> StartSequence {
        if self.aborted || self.turned_on {
            self
        } else if !ok {
            StartSequence { aborted: true, ..self }
        } else if self.issued < self.total {
            StartSequence { issued: (self.issued + 1) as usize, ..self }
        } else {
            StartSequence { turned_on: true, ..self }
        }
    }

    /// A startup over `total` slots, nothing issued yet.
    pub fn new(total: usize) -> (r: StartSequence)
        ensures
            r.inv(),
            r.total == total,
            r.issued == 0,
            !r.aborted,
            !r.turned_on,
    {
        StartSequence { total, issued: 0, aborted: false, turned_on: false }
    }

    /// The next command to perform: the enqueue of the lowest index not yet
    /// enqueued, then stream-on; nothing once the startup failed or
    /// completed.
    pub fn next_command(&self) -> (r: Option<StartCommand>)
        ensures
            r == self.spec_next(),
    {
        if self.aborted || self.turned_on {
            None
        } else if self.issued < self.total {
            Some(StartCommand::Enqueue(self.issued))
        } else {
            Some(StartCommand::StreamOn)
        }
    }

    /// Records the outcome of the command last handed out.
    pub fn record(&mut self, ok: bool)
        requires
            old(self).inv(),
        ensures
            final(self).inv(),
            *final(self) == old(self).spec_record(ok),
    {
        if self.aborted || self.turned_on {
        } else if !ok {
            self.aborted = true;
        } else if self.issued < self.total {
            self.issued = self.issued + 1;
        } else {
            self.turned_on = true;
        }
    }

    /// Whether the startup ran to completion.
    pub fn succeeded(&self) -> (r: bool)
        ensures
            r == self.turned_on,
    {
        self.turned_on
    }

    /// Whether a command failed.
    pub fn failed(&self) -> (r: bool)
        ensures
            r == self.aborted,
    {
        self.aborted
    }
}

/// The commands a compliant caller issues while driving a startup sequence:
/// at each step it asks for the next command, performs the exchange, and
/// records `outcomes[k]`, the outcome of the k-th performed command. The
/// trace ends when no further command is handed out (or the given outcomes
/// run out).
pub open spec fn start_trace(s: StartSequence, outcomes: Seq<bool>) -> Seq<StartCommand>
    decreases outcomes.len(),
{
    if outcomes.len() == 0 {
        Seq::empty()
    } else {
        match s.spec_next() {
            Option::None => Seq::empty(),
            Option::Some(c) => seq![c] + start_trace(s.spec_record(outcomes[0]), outcomes.drop_first()),
        }
    }
}

/// When every exchange succeeds, the startup issues exactly one enqueue per
/// slot, in ascending index order, and stream-on last.
pub proof fn lemma_start_trace_ascending(s: StartSequence, outcomes: Seq<bool>)
    requires
        s.inv(),
        !s.aborted,
        !s.turned_on,
        outcomes.len() == s.total - s.issued + 1,
        forall|k: int| 0 <= k < outcomes.len() ==> outcomes[k],
    ensures
        start_trace(s, outcomes).len() == s.total - s.issued + 1,
        forall|k: int| 0 <= k < s.total - s.issued
            ==> start_trace(s, outcomes)[k] == StartCommand::Enqueue((s.issued + k) as usize),
        start_trace(s, outcomes)[s.total - s.issued] == StartCommand::StreamOn,
    decreases s.total - s.issued,
{
    let t = start_trace(s, outcomes);
    if s.issued == s.total {
        assert(s.spec_next() == Some(StartCommand::StreamOn));
        assert(outcomes[0]);
        assert(t == seq![StartCommand::StreamOn] + start_trace(s.spec_record(true), outcomes.drop_first()));
        assert(outcomes.drop_first().len() == 0);
        assert(t =~= seq![StartCommand::StreamOn]);
    } else {
        let s1 = s.spec_record(outcomes[0]);
        assert(outcomes[0]);
        assert(s1.issued == s.issued + 1);
        lemma_start_trace_ascending(s1, outcomes.drop_first());
        let t1 = start_trace(s1, outcomes.drop_first());
        assert(t == seq![StartCommand::Enqueue(s.issued)] + t1);
        assert forall|k: int| 0 <= k < s.total - s.issued implies
            t[k] == StartCommand::Enqueue((s.issued + k) as usize) by {
            if k == 0 {
            } else {
                assert(t[k] == t1[k - 1]);
                assert(t1[k - 1] == StartCommand::Enqueue((s1.issued + (k - 1)) as usize));
            }
        }
        assert(t[s.total - s.issued] == t1[s.total - s1.issued]);
    }
}

/// When the `k`-th enqueue fails, the startup issues exactly the enqueues of
/// indices up to `k`, in ascending order; no later slot is enqueued and
/// stream-on is never issued.
pub proof fn lemma_start_trace_aborts(s: StartSequence, outcomes: Seq<bool>, k: int)
    requires
        s.inv(),
        !s.aborted,
        !s.turned_on,
        0 <= k,
        s.issued + k < s.total,
        k < outcomes.len(),
        forall|j: int| 0 <= j < k ==> outcomes[j],
        !outcomes[k],
    ensures
        start_trace(s, outcomes).len() == k + 1,
        forall|j: int| 0 <= j <= k
            ==> start_trace(s, outcomes)[j] == StartCommand::Enqueue((s.issued + j) as usize),
        forall|j: int| 0 <= j < start_trace(s, outcomes).len()
            ==> start_trace(s, outcomes)[j] != StartCommand::StreamOn,
    decreases k,
{
    let t = start_trace(s, outcomes);
    assert(s.spec_next() == Some(StartCommand::Enqueue(s.issued)));
    let s1 = s.spec_record(outcomes[0]);
    let t1 = start_trace(s1, outcomes.drop_first());
    assert(t == seq![StartCommand::Enqueue(s.issued)] + t1);
    if k == 0 {
        assert(s1.aborted);
        if outcomes.drop_first().len() == 0 {
            assert(t1 =~= Seq::<StartCommand>::empty());
        } else {
            assert(s1.spec_next() is None);
            assert(t1 =~= Seq::<StartCommand>::empty());
        }
        assert(t =~= seq![StartCommand::Enqueue(s.issued)]);
    } else {
        assert(outcomes[0]);
        assert(s1.issued == s.issued + 1);
        lemma_start_trace_aborts(s1, outcomes.drop_first(), k - 1);
        assert forall|j: int| 0 <= j <= k implies
            t[j] == StartCommand::Enqueue((s.issued + j) as usize) by {
            if j == 0 {
            } else {
                assert(t[j] == t1[j - 1]);
                assert(t1[j - 1] == StartCommand::Enqueue((s1.issued + (j - 1)) as usize));
            }
        }
        assert forall|j: int| 0 <= j < t.len() implies t[j] != StartCommand::StreamOn by {
            if j > 0 {
                assert(t[j] == t1[j - 1]);
            }
        }
    }
}

// ---------------------------------------------------------------------------
// Laws of the frame cycle and of re-preparation.
// ---------------------------------------------------------------------------

/// One complete frame cycle on slot `i`: the kernel completes it, the caller
/// takes it and then returns it.
pub open spec fn take_return_cycle(m: SessionModel, i: int) -> SessionModel {
    m.taken(i).requeued(i)
}

/// Any number of complete frame cycles, on the slots `idxs` in turn.
pub open spec fn take_return_cycles(m: SessionModel, idxs: Seq<int>) -> SessionModel
    decreases idxs.len(),
{
    if idxs.len() == 0 {
        m
    } else {
        take_return_cycles(take_return_cycle(m, idxs[0]), idxs.drop_first())
    }
}

/// After any number of complete take/return cycles the session is unchanged:
/// in particular the set of valid pool indices is exactly what it was — no
/// slot is ever lost or duplicated.
pub proof fn lemma_cycles_preserve_pool(m: SessionModel, idxs: Seq<int>)
    requires
        m.inv(),
        m.state is Streaming,
        forall|k: int| 0 <= k < idxs.len()
            ==> 0 <= #[trigger] idxs[k] < m.pool.len() && m.kernel_owned[idxs[k]],
    ensures
        take_return_cycles(m, idxs) == m,
    decreases idxs.len(),
{
    if idxs.len() == 0 {
    } else {
        let m1 = take_return_cycle(m, idxs[0]);
        assert(m1.kernel_owned =~= m.kernel_owned);
        assert(m1 =~= m);
        assert(forall|k: int| 0 <= k < idxs.drop_first().len()
            ==> idxs.drop_first()[k] == idxs[k + 1]);
        lemma_cycles_preserve_pool(m, idxs.drop_first());
    }
}

/// Releasing the pool enables a fresh prepare: after an unprepare from any
/// non-streaming state the session is Opened with no mappings, any
/// well-shaped prepare is then accepted, and the pool it installs is exactly
/// the newly granted slots — independent of anything the old pool held.
pub proof fn lemma_unprepare_enables_fresh_prepare(
    m: SessionModel,
    count: int,
    granted: int,
    slots: Seq<PoolSlot>,
)
    requires
        m.inv(),
        !(m.state is Streaming),
        granted <= count,
        slots.len() == granted,
    ensures
        m.unprepared().inv(),
        m.unprepared().state is Opened,
        m.unprepared().pool.len() == 0,
        m.unprepared().can_prepare(count, granted),
        m.unprepared().prepared(slots).inv(),
        m.unprepared().prepared(slots).state is Prepared,
        m.unprepared().prepared(slots).pool == slots,
        forall|i: int| 0 <= i < granted ==> !m.unprepared().prepared(slots).kernel_owned[i],
{
}

// ---------------------------------------------------------------------------
// The session builder.
// ---------------------------------------------------------------------------

/// Whether `code` occurs in the device's enumerated format list.
pub open spec fn format_supported(formats: Seq<u32>, code: u32) -> bool {
    exists|i: int| 0 <= i < formats.len() && formats[i] == code
}

/// What the single finalize step applies to the device, in order: the input
/// selection if one was configured, then the stream parameters, then the
/// pixel format. Nothing is written to the device before the plan exists.
#[derive(Clone, Copy, Debug)]
pub struct OpenPlan {
    /// Input index to select first, if one was configured.
    pub input: Option<i32>,
    /// Stream parameters to apply second.
    pub parm: v4l2_captureparm,
    /// Pixel format to apply third.
    pub format: v4l2_pix_format,
}

/// Fluent configuration collector for a capture session. Every field is
/// only collected here; the device sees them all at once when the
/// configuration is finalized.
#[derive(Clone, Copy, Debug)]
pub struct Builder<'a> {
    pub path: &'a str,
    pub input: Option<i32>,
    pub capturemode: u32,
    pub timeperframe: v4l2_fract,
    pub format: v4l2_pix_format,
}

/// `format` with its rotation angle replaced.
pub open spec fn spec_with_rot_angle(format: v4l2_pix_format, degree: u32) -> v4l2_pix_format {
    v4l2_pix_format { rot_angle: degree, ..format }
}

impl<'a> Builder<'a> {
    /// A configuration for the device at `path`: no input selected, plain
    /// capture mode, 30 frames per second, and a zeroed format that requests
    /// the JPEG colorspace and any field order.
    pub fn with_device(path: &'a str) -> (r: Self)
        ensures
            r.path == path,
            r.input is None,
            r.capturemode == 0,
            r.timeperframe == (v4l2_fract { numerator: 1, denominator: 30 }),
            r.format == (v4l2_pix_format {
                width: 0,
                height: 0,
                pixelformat: 0,
                field: v4l2_field::V4L2_FIELD_ANY,
                bytesperline: 0,
                sizeimage: 0,
                colorspace: v4l2_colorspace::V4L2_COLORSPACE_JPEG,
                private: 0,
                rot_angle: 0,
            }),
    {
        Builder {
            path,
            input: None,
            capturemode: 0,
            timeperframe: v4l2_fract { numerator: 1, denominator: 30 },
            format: v4l2_pix_format {
                width: 0,
                height: 0,
                pixelformat: 0,
                field: v4l2_field::V4L2_FIELD_ANY,
                bytesperline: 0,
                sizeimage: 0,
                colorspace: v4l2_colorspace::V4L2_COLORSPACE_JPEG,
                private: 0,
                rot_angle: 0,
            },
        }
    }

    /// Replaces the device path.
    pub fn device(self, path: &'a str) -> (r: Self)
        ensures
            r.path == path,
            r.input == self.input,
            r.capturemode == self.capturemode,
            r.timeperframe == self.timeperframe,
            r.format == self.format,
    {
        Builder { path, ..self }
    }

    /// Selects the active input index to apply before streaming.
    pub fn input(self, input: i32) -> (r: Self)
        ensures
            r.path == self.path,
            r.input == Some(input),
            r.capturemode == self.capturemode,
            r.timeperframe == self.timeperframe,
            r.format == self.format,
    {
        Builder { input: Some(input), ..self }
    }

    /// Requests the high-quality imaging capture mode.
    pub fn high_quality(self) -> (r: Self)
        ensures
            r.path == self.path,
            r.input == self.input,
            r.capturemode == V4L2_MODE_HIGHQUALITY,
            r.timeperframe == self.timeperframe,
            r.format == self.format,
    {
        Builder { capturemode: V4L2_MODE_HIGHQUALITY, ..self }
    }

    /// Sets the requested frame width and height.
    pub fn video_size(self, width: u32, height: u32) -> (r: Self)
        ensures
            r.path == self.path,
            r.input == self.input,
            r.capturemode == self.capturemode,
            r.timeperframe == self.timeperframe,
            r.format == (v4l2_pix_format { width, height, ..self.format }),
    {
        let mut format = self.format;
        format.width = width;
        format.height = height;
        Builder { format, ..self }
    }

    /// Sets the requested four-character pixel encoding.
    pub fn pixel_format(self, fmt: u32) -> (r: Self)
        ensures
            r.path == self.path,
            r.input == self.input,
            r.capturemode == self.capturemode,
            r.timeperframe == self.timeperframe,
            r.format == (v4l2_pix_format { pixelformat: fmt, ..self.format }),
    {
        let mut format = self.format;
        format.pixelformat = fmt;
        Builder { format, ..self }
    }

    /// Requests progressive (non-interlaced) frames.
    pub fn progressive(self) -> (r: Self)
        ensures
            r.path == self.path,
            r.input == self.input,
            r.capturemode == self.capturemode,
            r.timeperframe == self.timeperframe,
            r.format == (v4l2_pix_format { field: v4l2_field::V4L2_FIELD_NONE, ..self.format }),
    {
        let mut format = self.format;
        format.field = v4l2_field::V4L2_FIELD_NONE;
        Builder { format, ..self }
    }

    /// Sets the requested frame time as a ratio of seconds.
    pub fn time_per_frame(self, num: u32, den: u32) -> (r: Self)
        ensures
            r.path == self.path,
            r.input == self.input,
            r.capturemode == self.capturemode,
            r.timeperframe == (v4l2_fract { numerator: num, denominator: den }),
            r.format == self.format,
    {
        Builder { timeperframe: v4l2_fract { numerator: num, denominator: den }, ..self }
    }

    /// Requests the vendor video capture mode.
    pub fn video_mode(self) -> (r: Self)
        ensures
            r.path == self.path,
            r.input == self.input,
            r.capturemode == V4L2_MODE_VIDEO,
            r.timeperframe == self.timeperframe,
            r.format == self.format,
    {
        Builder { capturemode: V4L2_MODE_VIDEO, ..self }
    }

    /// Requests the vendor still-image capture mode.
    pub fn image_mode(self) -> (r: Self)
        ensures
            r.path == self.path,
            r.input == self.input,
            r.capturemode == V4L2_MODE_IMAGE,
            r.timeperframe == self.timeperframe,
            r.format == self.format,
    {
        Builder { capturemode: V4L2_MODE_IMAGE, ..self }
    }

    /// Requests the vendor preview capture mode.
    pub fn preview_mode(self) -> (r: Self)
        ensures
            r.path == self.path,
            r.input == self.input,
            r.capturemode == V4L2_MODE_PREVIEW,
            r.timeperframe == self.timeperframe,
            r.format == self.format,
    {
        Builder { capturemode: V4L2_MODE_PREVIEW, ..self }
    }

    /// Sets the vendor rotation angle of the requested format.
    pub fn rotate(&mut self, degree: u32) -> (r: &mut Self)
        ensures
            *r == (Builder {
                format: spec_with_rot_angle(old(self).format, degree),
                ..*old(self)
            }),
            *final(self) == *final(r),
    {
        self.format.rot_angle = degree;
        self
    }

    /// Decides the single finalize step of the configuration, from the
    /// device's enumerated format list and its current stream parameters.
    ///
    /// Fails with `UnsupportedFormat` exactly when the requested pixel
    /// format code is absent from `formats`. Otherwise the returned plan
    /// keeps the configured input selection and format, and carries the
    /// device's stream parameters with the capture mode overwritten and the
    /// frame time overwritten only when the device's capability bit says the
    /// frame time is honored.
    pub fn negotiate(&self, formats: &Vec<u32>, device_parm: &v4l2_captureparm) -> (r: Result<
        OpenPlan,
        CaptureError,
    >)
        ensures
            r is Ok <==> format_supported(formats@, self.format.pixelformat),
            !format_supported(formats@, self.format.pixelformat)
                ==> r == Err::<OpenPlan, CaptureError>(CaptureError::UnsupportedFormat),
            r matches Ok(p) ==> p.input == self.input && p.format == self.format
                && p.parm == (v4l2_captureparm {
                    capturemode: self.capturemode,
                    timeperframe: if device_parm.capability & V4L2_CAP_TIMEPERFRAME != 0 {
                        self.timeperframe
                    } else {
                        device_parm.timeperframe
                    },
                    ..*device_parm
                }),
    {
        let n = formats.len();
        let mut found = false;
        let mut i: usize = 0;
        while i < n
            invariant
                i <= n,
                n == formats@.len(),
                found == exists|j: int|
                    0 <= j < i && formats@[j] == self.format.pixelformat,
            decreases n - i,
        {
            if formats[i] == self.format.pixelformat {
                found = true;
            }
            i += 1;
        }
        if !found {
            return Err(CaptureError::UnsupportedFormat);
        }
        let mut parm = *device_parm;
        parm.capturemode = self.capturemode;
        if parm.capability & V4L2_CAP_TIMEPERFRAME != 0 {
            parm.timeperframe = self.timeperframe;
        }
        Ok(OpenPlan { input: self.input, parm, format: self.format })
    }
}

impl<'a> Default for Builder<'a> {
    /// The configuration for the first video device node.
    fn default() -> (r: Builder<'a>)
        ensures
            r.path@ == "/dev/video0"@,
            r.input is None,
            r.capturemode == 0,
            r.timeperframe == (v4l2_fract { numerator: 1, denominator: 30 }),
    {
        Builder::with_device("/dev/video0")
    }
}

impl Capture {
    /// A configuration for the first video device node.
    pub fn with_default() -> (r: Builder<'static>)
        ensures
            r.path@ == "/dev/video0"@,
            r.input is None,
            r.capturemode == 0,
            r.timeperframe == (v4l2_fract { numerator: 1, denominator: 30 }),
    {
        Builder::with_device("/dev/video0")
    }

    /// A configuration for the device at `path`.
    pub fn with_device(path: &str) -> (r: Builder<'_>)
        ensures
            r.path == path,
            r.input is None,
            r.capturemode == 0,
            r.timeperframe == (v4l2_fract { numerator: 1, denominator: 30 }),
    {
        Builder::with_device(path)
    }
}

} // verus!
