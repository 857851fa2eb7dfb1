//! The decisions of a firmware download: whether to keep waiting for the
//! device, when the transfer is complete, how its outcome is judged, and what
//! follows it. The caller performs each action and reports back.

use vstd::prelude::*;
use crate::adapter::DfuNusb;
use crate::error::DfuNusbError;

verus! {

/// Whether an attempt to open the device is followed by a pause and another
/// attempt: only while waiting was asked for and the device is not there yet.
pub open spec fn keeps_waiting(wait: bool, not_found: bool) -> bool {
    wait && not_found
}

/// Whether another attempt follows `attempt`; the caller sleeps before it.
pub fn should_retry(wait: bool, attempt: &Result<DfuNusb, DfuNusbError>) -> (r: bool)
    ensures
        r == keeps_waiting(wait, attempt matches Err(e) && e is DeviceNotFound),
{
    match attempt {
        Err(e) => wait && e.is_device_not_found(),
        Ok(_) => false,
    }
}

/// The number of pauses before the attempt that ends the wait, for the outcomes
/// `not_found` of successive attempts (`true`: the device was not found).
pub open spec fn pauses(wait: bool, not_found: Seq<bool>) -> nat
    decreases not_found.len(),
{
    if not_found.len() == 0 {
        0
    } else if keeps_waiting(wait, not_found[0]) {
        1 + pauses(wait, not_found.drop_first())
    } else {
        0
    }
}

/// When waiting, `n` attempts that do not find the device followed by one that
/// does give exactly `n` pauses, and the attempt that ends the wait is the one
/// that found it.
pub proof fn lemma_wait_pauses(n: nat, rest: Seq<bool>)
    ensures
        ({
            let outcomes = Seq::new(n, |i: int| true) + seq![false] + rest;
            pauses(true, outcomes) == n && !outcomes[n as int]
        }),
    decreases n,
{
    let outcomes = Seq::new(n, |i: int| true) + seq![false] + rest;
    if n == 0 {
        assert(outcomes[0] == false);
    } else {
        lemma_wait_pauses((n - 1) as nat, rest);
        let shorter = Seq::new((n - 1) as nat, |i: int| true) + seq![false] + rest;
        assert(outcomes.drop_first() =~= shorter);
        assert(outcomes[0]);
    }
}

/// Without waiting, the first attempt ends the wait whatever its outcome.
pub proof fn lemma_no_wait_no_pause(not_found: Seq<bool>)
    ensures
        pauses(false, not_found) == 0,
{
}

/// The running count of bytes written: `position` never passes `u64::MAX`.
pub open spec fn next_position(position: nat, count: nat) -> nat {
    if position + count > u64::MAX { u64::MAX as nat } else { position + count }
}

/// Whether the chunk of `count` bytes completes the transfer: the running count
/// reaches `total` for the first time.
pub open spec fn completes(total: nat, position: nat, finished: bool, count: nat) -> bool {
    !finished && next_position(position, count) == total
}

/// Progress of a transfer of `total` bytes, fed with the size of each chunk written.
pub struct Progress {
    total: u32,
    position: u64,
    finished: bool,
}

impl Progress {
    /// The size of the whole image.
    pub closed spec fn total(&self) -> nat {
        self.total as nat
    }

    /// The bytes counted so far.
    pub closed spec fn position(&self) -> nat {
        self.position as nat
    }

    /// Whether completion was signalled.
    pub closed spec fn finished(&self) -> bool {
        self.finished
    }

    /// Progress of a transfer of `total` bytes, before any is written.
    pub fn new(total: u32) -> (r: Progress)
        ensures
            r.total() == total,
            r.position() == 0,
            !r.finished(),
    {
        Progress { total, position: 0, finished: false }
    }

    /// Counts a chunk of `count` bytes; returns whether this chunk completes the
    /// transfer, which happens once at most.
    pub fn advance(&mut self, count: usize) -> (r: bool)
        ensures
            final(self).total() == old(self).total(),
            final(self).position() == next_position(old(self).position(), count as nat),
            r == completes(old(self).total(), old(self).position(), old(self).finished(), count as nat),
            final(self).finished() == (old(self).finished() || r),
    {
        let count = count as u64;
        self.position = if count > u64::MAX - self.position { u64::MAX } else { self.position + count };
        let r = !self.finished && self.position == self.total as u64;
        if r {
            self.finished = true;
        }
        r
    }

    /// Whether completion was signalled.
    pub fn is_finished(&self) -> (r: bool)
        ensures
            r == self.finished(),
    {
        self.finished
    }

    /// The bytes counted so far.
    pub fn current(&self) -> (r: u64)
        ensures
            r == self.position(),
    {
        self.position
    }

    /// The size of the whole image.
    pub fn size(&self) -> (r: u32)
        ensures
            r == self.total(),
    {
        self.total
    }
}

/// The sum of `chunks`.
pub open spec fn sum(chunks: Seq<nat>) -> nat
    decreases chunks.len(),
{
    if chunks.len() == 0 { 0 } else { sum(chunks.drop_last()) + chunks.last() }
}

/// Progress after `chunks` were counted from the start: the running count, whether
/// completion was signalled, how many times, and at which chunk last.
pub open spec fn run(total: nat, chunks: Seq<nat>) -> (nat, bool, nat, int)
    decreases chunks.len(),
{
    if chunks.len() == 0 {
        (0, false, 0, -1)
    } else {
        let (position, finished, signals, at) = run(total, chunks.drop_last());
        let signal = completes(total, position, finished, chunks.last());
        (
            next_position(position, chunks.last()),
            finished || signal,
            if signal { signals + 1 } else { signals },
            if signal { chunks.len() - 1 } else { at },
        )
    }
}

proof fn lemma_prefix_sum(chunks: Seq<nat>, m: int)
    requires
        0 <= m <= chunks.len(),
    ensures
        sum(chunks.take(m)) <= sum(chunks),
    decreases chunks.len(),
{
    if m < chunks.len() {
        lemma_prefix_sum(chunks.drop_last(), m);
        assert(chunks.drop_last().take(m) =~= chunks.take(m));
    } else {
        assert(chunks.take(m) =~= chunks);
    }
}

proof fn lemma_run(total: nat, chunks: Seq<nat>)
    requires
        sum(chunks) <= total,
        total <= u32::MAX,
    ensures
        run(total, chunks).0 == sum(chunks),
        run(total, chunks).1 <==> (chunks.len() > 0 && sum(chunks) == total),
        run(total, chunks).2 == if run(total, chunks).1 { 1nat } else { 0nat },
        run(total, chunks).1 ==> ({
            let at = run(total, chunks).3;
            0 <= at < chunks.len() && sum(chunks.take(at + 1)) == total
                && forall|j: int| 0 <= j < at ==> sum(#[trigger] chunks.take(j + 1)) < total
        }),
    decreases chunks.len(),
{
    if chunks.len() > 0 {
        let rest = chunks.drop_last();
        lemma_run(total, rest);
        let at = run(total, chunks).3;
        if run(total, rest).1 {
            assert forall|j: int| 0 <= j <= at implies #[trigger] chunks.take(j + 1) == rest.take(j + 1) by {
                assert(chunks.take(j + 1) =~= rest.take(j + 1));
            }
        } else if run(total, chunks).1 {
            assert(chunks.take(chunks.len() as int) =~= chunks);
            assert forall|j: int| 0 <= j < at implies sum(#[trigger] chunks.take(j + 1)) < total by {
                assert(chunks.take(j + 1) =~= rest.take(j + 1));
                lemma_prefix_sum(rest, j + 1);
            }
        }
    }
}

/// Chunks of sizes summing to the image's size `total`: after the first `k` are
/// counted the running count is their sum, which never passes `total`, and
/// completion was signalled (once) exactly when that sum is `total`.
pub proof fn lemma_progress_prefix(total: nat, chunks: Seq<nat>, k: int)
    requires
        total <= u32::MAX,
        sum(chunks) == total,
        0 <= k <= chunks.len(),
    ensures
        run(total, chunks.take(k)).0 == sum(chunks.take(k)),
        sum(chunks.take(k)) <= total,
        run(total, chunks.take(k)).1 <==> (k > 0 && sum(chunks.take(k)) == total),
        run(total, chunks.take(k)).2 == if run(total, chunks.take(k)).1 { 1nat } else { 0nat },
{
    lemma_prefix_sum(chunks, k);
    lemma_run(total, chunks.take(k));
}

/// Chunks of sizes summing to the image's size `total`: once all are counted the
/// running count is `total`, and completion was signalled exactly once, at the
/// first chunk after which the running count is `total`.
pub proof fn lemma_progress_completes(total: nat, chunks: Seq<nat>)
    requires
        total <= u32::MAX,
        chunks.len() > 0,
        sum(chunks) == total,
    ensures
        run(total, chunks).0 == total,
        run(total, chunks).1,
        run(total, chunks).2 == 1,
        ({
            let at = run(total, chunks).3;
            0 <= at < chunks.len() && sum(chunks.take(at + 1)) == total
                && forall|j: int| 0 <= j < at ==> sum(#[trigger] chunks.take(j + 1)) < total
        }),
{
    lemma_run(total, chunks);
}

/// How a transfer ended, as the download judges it.
#[derive(Clone, Copy, Debug, PartialEq, Eq, Structural)]
pub enum TransferOutcome {
    /// The engine reported success.
    Completed,
    /// The transport failed (a control transfer or the USB host stack) after
    /// every byte was written: the device is taken to have reset itself once it
    /// had the last block.
    CompletedWithSelfReset,
    /// Any other failure.
    Failed,
}

impl TransferOutcome {
    /// Whether the download counts as a success.
    pub fn is_success(&self) -> (r: bool)
        ensures
            r == !(*self is Failed),
    {
        match self {
            TransferOutcome::Failed => false,
            _ => true,
        }
    }
}

/// Whether `e` is a failure of the transport: a control transfer or the USB host stack.
pub open spec fn is_transport_error(e: DfuNusbError) -> bool {
    e is Nusb || e is Transfer
}

/// The judgement of a transfer whose result is `result`, given whether progress
/// had reached the image's size.
pub open spec fn spec_outcome(result: Result<(), DfuNusbError>, finished: bool) -> TransferOutcome {
    match result {
        Ok(()) => TransferOutcome::Completed,
        Err(e) => if is_transport_error(e) && finished {
            TransferOutcome::CompletedWithSelfReset
        } else {
            TransferOutcome::Failed
        },
    }
}

/// Judges a transfer: a transport failure once progress is complete is the
/// device resetting itself and counts as success; any other failure is fatal.
pub fn classify_transfer(result: &Result<(), DfuNusbError>, finished: bool) -> (r: TransferOutcome)
    ensures
        r == spec_outcome(*result, finished),
{
    match result {
        Ok(()) => TransferOutcome::Completed,
        Err(e) => if e.is_transport_error() && finished {
            TransferOutcome::CompletedWithSelfReset
        } else {
            TransferOutcome::Failed
        },
    }
}

/// The same transport failure is a success once progress is complete and fatal
/// before.
pub proof fn lemma_failure_after_completion(e: DfuNusbError)
    requires
        is_transport_error(e),
    ensures
        spec_outcome(Err(e), true) == TransferOutcome::CompletedWithSelfReset,
        spec_outcome(Err(e), false) == TransferOutcome::Failed,
{
}

/// What follows a successful transfer.
#[derive(Clone, Copy, Debug, PartialEq, Eq, Structural)]
pub enum NextStep {
    /// Send a DFU detach request; its result is ignored.
    Detach,
    /// Reset the device on the bus.
    BusReset,
    /// Nothing more to do.
    Done,
}

/// With a reset asked for, a detach comes first; otherwise the download is done.
pub fn after_transfer(reset: bool) -> (r: NextStep)
    ensures
        r == if reset { NextStep::Detach } else { NextStep::Done },
{
    if reset { NextStep::Detach } else { NextStep::Done }
}

/// Whatever the detach gave, the bus reset follows: some bootloaders only start
/// the new firmware after a detach, and a device may refuse it.
pub fn after_detach(detach: &Result<(), DfuNusbError>) -> (r: NextStep)
    ensures
        r == NextStep::BusReset,
{
    NextStep::BusReset
}

/// The end result of the download once the bus reset gave `reset`: its failure is fatal.
pub fn after_bus_reset(reset: Result<(), DfuNusbError>) -> (r: Result<(), DfuNusbError>)
    ensures
        r is Err <==> reset is Err,
        r == reset,
{
    reset
}

} // verus!
