//! The transport loop, as a state machine.  For each frame, in order: send
//! it as a feature report; on write failure record the failure and continue
//! with the next frame (the chosen policy: one rejected frame does not
//! abandon the rest of the transaction); otherwise wait a fixed settling
//! delay, then read the frame back, a failure there being recorded but
//! never fatal.  No retries.  The caller performs the actual writes, waits
//! and reads, and feeds each outcome back into the machine.

use vstd::prelude::*;

use crate::frame::Frame;
use crate::frame::FrameSequence;

verus! {

/// The settling delay between a write and its read-back, in milliseconds.
pub const SETTLE_DELAY_MS: u64 = 300;

/// What the caller must do next.
#[derive(Debug, Clone, Copy, PartialEq, Eq)]
pub enum TransportPhase {
    /// Send the current frame as a feature-report write.
    Sending,
    /// Wait the settling delay.
    Settling,
    /// Read the current frame back.
    ReadingBack,
    /// The transaction is over.
    Done,
}

/// How a finished transaction went.
#[derive(Debug, Clone, Copy, PartialEq, Eq)]
pub enum TransportStatus {
    Completed,
    CompletedWithWarnings,
}

/// The outcome of a finished transaction.
#[derive(Debug, Clone, PartialEq, Eq)]
pub struct TransportReport {
    /// How many frames were offered to the device; always the whole
    /// sequence, failures notwithstanding.
    pub frames_attempted: usize,
    /// Indices of frames whose write failed, in order.
    pub write_failures: Vec<usize>,
    /// Indices of frames whose read-back failed, in order.
    pub read_failures: Vec<usize>,
    /// Completed cleanly, or completed with recorded failures.
    pub status: TransportStatus,
}

/// The per-frame send/settle/read-back machine.
pub struct TransportLoop {
    pub frames: FrameSequence,
    pub pos: usize,
    pub phase: TransportPhase,
    pub write_failures: Vec<usize>,
    pub read_failures: Vec<usize>,
}

impl TransportLoop {
    /// The machine's invariant: the position never passes the end, and the
    /// machine is done exactly when it has.
    pub open spec fn wf(&self) -> bool {
        &&& self.pos as int <= self.frames@.len()
        &&& (self.phase is Done <==> self.pos as int == self.frames@.len())
    }

    /// Starts a transaction over a frame sequence.
    pub fn new(frames: FrameSequence) -> (m: TransportLoop)
        ensures
            m.wf(),
            m.frames == frames,
            m.pos == 0,
            m.write_failures@ =~= Seq::<usize>::empty(),
            m.read_failures@ =~= Seq::<usize>::empty(),
            (m.phase is Sending <==> frames@.len() > 0),
            (m.phase is Done <==> frames@.len() == 0),
    {
        let phase = if frames.len() == 0 {
            TransportPhase::Done
        } else {
            TransportPhase::Sending
        };
        TransportLoop { frames, pos: 0, phase, write_failures: Vec::new(), read_failures: Vec::new() }
    }

    /// The frame to send next.
    pub fn current_frame(&self) -> (f: &Frame)
        requires
            self.wf(),
            !(self.phase is Done),
        ensures
            f@ == self.frames@[self.pos as int],
    {
        self.frames.get(self.pos)
    }

    /// Feeds back the outcome of the current frame's write.  On success the
    /// machine moves to the settling wait; on failure it records the frame
    /// and continues directly with the next frame.
    pub fn on_write_result(&mut self, ok: bool)
        requires
            old(self).wf(),
            old(self).phase is Sending,
        ensures
            final(self).wf(),
            final(self).frames == old(self).frames,
            final(self).read_failures == old(self).read_failures,
            ok ==> {
                &&& final(self).phase is Settling
                &&& final(self).pos == old(self).pos
                &&& final(self).write_failures == old(self).write_failures
            },
            !ok ==> {
                &&& final(self).write_failures@ =~= old(self).write_failures@.push(old(self).pos)
                &&& final(self).pos == old(self).pos + 1
                &&& (final(self).phase is Sending <==> old(self).pos + 1 < old(self).frames@.len())
                &&& (final(self).phase is Done <==> old(self).pos + 1 == old(self).frames@.len())
            },
    {
        if ok {
            self.phase = TransportPhase::Settling;
        } else {
            let n = self.frames.len();
            assert(self.pos < n);
            self.write_failures.push(self.pos);
            self.pos = self.pos + 1;
            self.phase = if self.pos == n {
                TransportPhase::Done
            } else {
                TransportPhase::Sending
            };
        }
    }

    /// Feeds back that the settling delay has passed.
    pub fn on_settled(&mut self)
        requires
            old(self).wf(),
            old(self).phase is Settling,
        ensures
            final(self).wf(),
            *final(self) == (TransportLoop { phase: TransportPhase::ReadingBack, ..*old(self) }),
    {
        self.phase = TransportPhase::ReadingBack;
    }

    /// Feeds back the outcome of the current frame's read-back; a failure
    /// is recorded and never fatal.  The machine continues with the next
    /// frame either way.
    pub fn on_read_result(&mut self, ok: bool)
        requires
            old(self).wf(),
            old(self).phase is ReadingBack,
        ensures
            final(self).wf(),
            final(self).frames == old(self).frames,
            final(self).write_failures == old(self).write_failures,
            ok ==> final(self).read_failures == old(self).read_failures,
            !ok ==> final(self).read_failures@ =~= old(self).read_failures@.push(old(self).pos),
            final(self).pos == old(self).pos + 1,
            (final(self).phase is Sending <==> old(self).pos + 1 < old(self).frames@.len()),
            (final(self).phase is Done <==> old(self).pos + 1 == old(self).frames@.len()),
    {
        let n = self.frames.len();
        assert(self.pos < n);
        if !ok {
            self.read_failures.push(self.pos);
        }
        self.pos = self.pos + 1;
        self.phase = if self.pos == n {
            TransportPhase::Done
        } else {
            TransportPhase::Sending
        };
    }

    /// The outcome of a finished transaction: completed cleanly when no
    /// write and no read-back failed, completed with warnings otherwise.
    pub fn report(self) -> (r: TransportReport)
        requires
            self.wf(),
            self.phase is Done,
        ensures
            r.frames_attempted as int == self.frames@.len(),
            r.write_failures == self.write_failures,
            r.read_failures == self.read_failures,
            (r.status is Completed <==> self.write_failures@.len() == 0
                && self.read_failures@.len() == 0),
            (r.status is CompletedWithWarnings <==> self.write_failures@.len() > 0
                || self.read_failures@.len() > 0),
    {
        let status = if self.write_failures.len() == 0 && self.read_failures.len() == 0 {
            TransportStatus::Completed
        } else {
            TransportStatus::CompletedWithWarnings
        };
        TransportReport {
            frames_attempted: self.pos,
            write_failures: self.write_failures,
            read_failures: self.read_failures,
            status,
        }
    }
}

/// Indices among the first `k` frames whose write fails, in order.
pub open spec fn spec_write_failures(write_ok: Seq<bool>, k: int) -> Seq<usize>
    decreases k,
{
    if k <= 0 {
        Seq::empty()
    } else {
        let prefix = spec_write_failures(write_ok, k - 1);
        if write_ok[k - 1] {
            prefix
        } else {
            prefix.push((k - 1) as usize)
        }
    }
}

/// Indices among the first `k` frames whose write succeeds but whose
/// read-back fails, in order.
pub open spec fn spec_read_failures(write_ok: Seq<bool>, read_ok: Seq<bool>, k: int) -> Seq<usize>
    decreases k,
{
    if k <= 0 {
        Seq::empty()
    } else {
        let prefix = spec_read_failures(write_ok, read_ok, k - 1);
        if write_ok[k - 1] && !read_ok[k - 1] {
            prefix.push((k - 1) as usize)
        } else {
            prefix
        }
    }
}

/// The status a transaction with these outcomes reports.
pub open spec fn spec_transport_status(write_ok: Seq<bool>, read_ok: Seq<bool>) -> TransportStatus {
    if spec_write_failures(write_ok, write_ok.len() as int).len() == 0 && spec_read_failures(
        write_ok,
        read_ok,
        write_ok.len() as int,
    ).len() == 0 {
        TransportStatus::Completed
    } else {
        TransportStatus::CompletedWithWarnings
    }
}

/// Runs a whole transaction against given per-frame outcomes:
/// `write_ok[i]` is what the write of frame `i` would return, `read_ok[i]`
/// what its read-back would.  Every frame of the sequence is attempted,
/// whatever failed before it.
pub fn run_with_outcomes(frames: FrameSequence, write_ok: &Vec<bool>, read_ok: &Vec<bool>) -> (r:
    TransportReport)
    requires
        write_ok@.len() == frames@.len(),
        read_ok@.len() == frames@.len(),
    ensures
        r.frames_attempted as int == frames@.len(),
        r.write_failures@ =~= spec_write_failures(write_ok@, write_ok@.len() as int),
        r.read_failures@ =~= spec_read_failures(write_ok@, read_ok@, read_ok@.len() as int),
        r.status == spec_transport_status(write_ok@, read_ok@),
{
    let ghost n = frames@.len();
    let mut machine = TransportLoop::new(frames);
    while !matches!(machine.phase, TransportPhase::Done)
        invariant
            machine.wf(),
            machine.phase is Sending || machine.phase is Done,
            machine.frames@.len() == n,
            write_ok@.len() == n,
            read_ok@.len() == n,
            machine.write_failures@ =~= spec_write_failures(write_ok@, machine.pos as int),
            machine.read_failures@ =~= spec_read_failures(
                write_ok@,
                read_ok@,
                machine.pos as int,
            ),
        decreases machine.frames@.len() - machine.pos,
    {
        let i = machine.pos;
        let wrote = write_ok[i];
        machine.on_write_result(wrote);
        if wrote {
            machine.on_settled();
            machine.on_read_result(read_ok[i]);
        }
    }
    machine.report()
}

/// A frame whose write fails among the first `n` is recorded.
proof fn lemma_write_failure_recorded(write_ok: Seq<bool>, n: int, j: int)
    requires
        0 <= j < n <= write_ok.len(),
        !write_ok[j],
    ensures
        spec_write_failures(write_ok, n).contains(j as usize),
    decreases n,
{
    if j == n - 1 {
        let prefix = spec_write_failures(write_ok, n - 1);
        assert(prefix.push((n - 1) as usize)[prefix.len() as int] == (n - 1) as usize);
    } else {
        lemma_write_failure_recorded(write_ok, n - 1, j);
        let prefix = spec_write_failures(write_ok, n - 1);
        let witness = choose|w: int| 0 <= w < prefix.len() && prefix[w] == j as usize;
        if !write_ok[n - 1] {
            assert(prefix.push((n - 1) as usize)[witness] == j as usize);
        }
    }
}

/// A frame whose write succeeds but whose read-back fails among the first
/// `n` is recorded.
proof fn lemma_read_failure_recorded(write_ok: Seq<bool>, read_ok: Seq<bool>, n: int, j: int)
    requires
        0 <= j < n <= write_ok.len(),
        write_ok[j],
        !read_ok[j],
    ensures
        spec_read_failures(write_ok, read_ok, n).contains(j as usize),
    decreases n,
{
    if j == n - 1 {
        let prefix = spec_read_failures(write_ok, read_ok, n - 1);
        assert(prefix.push((n - 1) as usize)[prefix.len() as int] == (n - 1) as usize);
    } else {
        lemma_read_failure_recorded(write_ok, read_ok, n - 1, j);
        let prefix = spec_read_failures(write_ok, read_ok, n - 1);
        let witness = choose|w: int| 0 <= w < prefix.len() && prefix[w] == j as usize;
        if write_ok[n - 1] && !read_ok[n - 1] {
            assert(prefix.push((n - 1) as usize)[witness] == j as usize);
        }
    }
}

/// Continue-on-error: a write failure on frame `k` does not abandon the
/// transaction.  The failure is recorded; the outcome of every later frame,
/// write or read-back, is still recorded as if nothing had failed; and the
/// transaction reports completed-with-warnings, never an abort.
pub proof fn law_transport_continue_on_error(write_ok: Seq<bool>, read_ok: Seq<bool>, k: int)
    requires
        write_ok.len() == read_ok.len(),
        0 <= k < write_ok.len(),
        !write_ok[k],
    ensures
        spec_write_failures(write_ok, write_ok.len() as int).contains(k as usize),
        forall|j: int|
            k < j < write_ok.len() && !write_ok[j] ==> spec_write_failures(
                write_ok,
                write_ok.len() as int,
            ).contains(j as usize),
        forall|j: int|
            k < j < write_ok.len() && write_ok[j] && !read_ok[j] ==> spec_read_failures(
                write_ok,
                read_ok,
                read_ok.len() as int,
            ).contains(j as usize),
        spec_transport_status(write_ok, read_ok) is CompletedWithWarnings,
{
    let n = write_ok.len() as int;
    lemma_write_failure_recorded(write_ok, n, k);
    assert forall|j: int| k < j < n && !write_ok[j] implies spec_write_failures(
        write_ok,
        n,
    ).contains(j as usize) by {
        lemma_write_failure_recorded(write_ok, n, j);
    }
    assert forall|j: int| k < j < n && write_ok[j] && !read_ok[j] implies spec_read_failures(
        write_ok,
        read_ok,
        n,
    ).contains(j as usize) by {
        lemma_read_failure_recorded(write_ok, read_ok, n, j);
    }
    assert(spec_write_failures(write_ok, n).len() > 0);
}

} // verus!
