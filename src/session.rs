use vstd::prelude::*;
use crate::decoder::{decode_report, covers_schema, decodes_to, ControllerState};
use crate::schema::Schema;

verus! {

/// Where the transfer loop stands.
#[derive(Debug, Clone, Copy, PartialEq, Eq, Structural)]
pub enum Phase {
    /// The endpoint is not configured yet.
    Idle,
    /// One transfer per tick, indefinitely.
    Streaming,
    /// Setup failed, or a stop was requested.
    Stopped,
}

/// What the loop asks its driver to do next.
#[derive(Debug, Clone, Copy, PartialEq, Eq, Structural)]
pub enum TickAction {
    /// Perform one transfer for this tick.
    Transfer { tick: u64 },
    /// Leave the loop, re-attaching the kernel driver when it was detached.
    Shutdown { reattach_driver: bool },
}

/// The decisions of the transfer loop over one exclusively owned endpoint.
#[derive(Debug, Clone, Copy, PartialEq, Eq, Structural)]
pub struct TransportLoop {
    pub phase: Phase,
    /// Ticks begun so far; each begun tick makes one transfer.
    pub tick: u64,
    /// A kernel driver was bound to the interface and was detached.
    pub driver_detached: bool,
    /// Transfers that failed or timed out; none of them ends the loop.
    pub failed_transfers: u64,
}

impl TransportLoop {
    /// The loop after beginning one more tick.
    pub open spec fn advanced(self) -> TransportLoop {
        TransportLoop { tick: (self.tick + 1) as u64, ..self }
    }

    /// The loop after a transfer of the current tick ended, well or not.
    pub open spec fn recorded(self, ok: bool) -> TransportLoop {
        TransportLoop { failed_transfers: if ok { self.failed_transfers } else { (self.failed_transfers + 1) as u64 }, ..self }
    }

    /// A loop before setup.
    pub fn new() -> (r: TransportLoop)
        ensures
            r == (TransportLoop { phase: Phase::Idle, tick: 0, driver_detached: false, failed_transfers: 0 }),
    {
        TransportLoop { phase: Phase::Idle, tick: 0, driver_detached: false, failed_transfers: 0 }
    }

    /// Records whether a kernel driver holds the interface; returns whether
    /// to detach it. A detached driver is re-attached on shutdown.
    pub fn on_driver_probe(&mut self, kernel_driver_active: bool) -> (detach: bool)
        requires
            old(self).phase == Phase::Idle,
        ensures
            detach == kernel_driver_active,
            *final(self) == (TransportLoop { driver_detached: kernel_driver_active, ..*old(self) }),
    {
        self.driver_detached = kernel_driver_active;
        kernel_driver_active
    }

    /// Records the outcome of selecting configuration, interface and
    /// alternate setting: streaming starts, or the run stops for good.
    pub fn on_configured(&mut self, ok: bool)
        requires
            old(self).phase == Phase::Idle,
        ensures
            final(self).phase == (if ok { Phase::Streaming } else { Phase::Stopped }),
            final(self).tick == old(self).tick,
            final(self).driver_detached == old(self).driver_detached,
            final(self).failed_transfers == old(self).failed_transfers,
    {
        self.phase = if ok { Phase::Streaming } else { Phase::Stopped };
    }

    /// Begins the next tick, unless a stop was requested before it.
    pub fn next_tick(&mut self, stop_requested: bool) -> (a: TickAction)
        requires
            old(self).phase == Phase::Streaming,
            old(self).tick < u64::MAX,
        ensures
            stop_requested ==> (a == (TickAction::Shutdown { reattach_driver: old(self).driver_detached })
                && *final(self) == (TransportLoop { phase: Phase::Stopped, ..*old(self) })),
            !stop_requested ==> (a == (TickAction::Transfer { tick: (old(self).tick + 1) as u64 })
                && *final(self) == old(self).advanced()),
    {
        if stop_requested {
            self.phase = Phase::Stopped;
            TickAction::Shutdown { reattach_driver: self.driver_detached }
        } else {
            self.tick = self.tick + 1;
            TickAction::Transfer { tick: self.tick }
        }
    }

    /// Records the end of this tick's transfer. A failure is counted and the
    /// loop goes on streaming.
    pub fn record_transfer(&mut self, ok: bool)
        requires
            old(self).failed_transfers < u64::MAX,
        ensures
            *final(self) == old(self).recorded(ok),
    {
        if !ok {
            self.failed_transfers = self.failed_transfers + 1;
        }
    }
}

/// A read session: the loop and the last state decoded from a full report.
#[derive(Debug, Clone)]
pub struct Reader {
    pub transport: TransportLoop,
    pub state: Option<ControllerState>,
}

/// How the decoded state moves on when a tick's inbound transfer ends: a
/// full report replaces it, a failed transfer or a short report keeps it.
pub open spec fn refreshed(before: Option<ControllerState>, after: Option<ControllerState>, schema: Schema, received: Option<Seq<u8>>) -> bool {
    if received is Some && covers_schema(received->Some_0, schema) {
        after is Some && decodes_to(received->Some_0, schema, after->Some_0)
    } else {
        after == before
    }
}

/// One tick of a read session that was not asked to stop: the tick begins,
/// its transfer ends with `received` (`None` when it failed), and the state
/// is refreshed from it.
pub open spec fn read_tick(before: Reader, after: Reader, schema: Schema, received: Option<Seq<u8>>) -> bool {
    &&& after.transport == before.transport.advanced().recorded(received is Some)
    &&& refreshed(before.state, after.state, schema, received)
}

/// One tick of a write session that was not asked to stop: the tick begins
/// and its outbound transfer ends, well (`ok`) or not.
pub open spec fn write_tick(before: TransportLoop, after: TransportLoop, ok: bool) -> bool {
    after == before.advanced().recorded(ok)
}

/// Failed transfers do not end a write session: after any number of failed
/// ticks followed by one whose transfer succeeds, the loop is still
/// streaming, has begun every one of those ticks and counted each failure.
pub proof fn write_failures_do_not_end_streaming(runs: Seq<TransportLoop>, failures: nat)
    requires
        runs.len() == failures + 2,
        runs[0].phase == Phase::Streaming,
        forall|i: int| 0 <= i < failures ==> write_tick(#[trigger] runs[i], runs[i + 1], false),
        write_tick(runs[failures as int], runs[(failures + 1) as int], true),
        runs[0].tick + failures + 1 <= u64::MAX,
        runs[0].failed_transfers + failures <= u64::MAX,
    ensures
        runs[(failures + 1) as int].phase == Phase::Streaming,
        runs[(failures + 1) as int].tick == runs[0].tick + failures + 1,
        runs[(failures + 1) as int].failed_transfers == runs[0].failed_transfers + failures,
{
    lemma_failed_writes(runs, failures, failures);
}

proof fn lemma_failed_writes(runs: Seq<TransportLoop>, failures: nat, k: nat)
    requires
        k <= failures,
        runs.len() == failures + 2,
        runs[0].phase == Phase::Streaming,
        forall|i: int| 0 <= i < failures ==> write_tick(#[trigger] runs[i], runs[i + 1], false),
        runs[0].tick + failures + 1 <= u64::MAX,
        runs[0].failed_transfers + failures <= u64::MAX,
    ensures
        runs[k as int].phase == Phase::Streaming,
        runs[k as int].tick == runs[0].tick + k,
        runs[k as int].failed_transfers == runs[0].failed_transfers + k,
    decreases k,
{
    if k > 0 {
        lemma_failed_writes(runs, failures, (k - 1) as nat);
        assert(write_tick(runs[k - 1], runs[k as int], false));
    }
}

impl Reader {
    /// A read session before setup, with no state decoded yet.
    pub fn new() -> (r: Reader)
        ensures
            r.transport == (TransportLoop { phase: Phase::Idle, tick: 0, driver_detached: false, failed_transfers: 0 }),
            r.state is None,
    {
        Reader { transport: TransportLoop::new(), state: None }
    }

    /// Hands the loop the outcome of this tick's inbound transfer: the bytes
    /// read, or `None` when it failed or timed out. Returns whether the state
    /// was refreshed.
    pub fn on_report(&mut self, schema: &Schema, received: Option<&[u8]>) -> (refreshed_now: bool)
        requires
            schema.wf(),
            old(self).transport.failed_transfers < u64::MAX,
        ensures
            final(self).transport == old(self).transport.recorded(received is Some),
            refreshed(old(self).state, final(self).state, *schema, match received { Some(b) => Some(b@), None => None }),
            refreshed_now == (received is Some && covers_schema(received->Some_0@, *schema)),
    {
        match received {
            Some(bytes) => {
                self.transport.record_transfer(true);
                match decode_report(bytes, schema) {
                    Some(state) => {
                        self.state = Some(state);
                        true
                    },
                    None => false,
                }
            },
            None => {
                self.transport.record_transfer(false);
                false
            },
        }
    }
}

/// Failed transfers do not end a read session: after any number of failed
/// ticks followed by one that reads a full report, the loop is still
/// streaming, has begun every one of those ticks, and holds the state
/// decoded from that report.
pub proof fn failures_do_not_end_streaming(runs: Seq<Reader>, schema: Schema, report: Seq<u8>, failures: nat)
    requires
        runs.len() == failures + 2,
        runs[0].transport.phase == Phase::Streaming,
        covers_schema(report, schema),
        forall|i: int| 0 <= i < failures ==> read_tick(#[trigger] runs[i], runs[i + 1], schema, None),
        read_tick(runs[failures as int], runs[(failures + 1) as int], schema, Some(report)),
        runs[0].transport.tick + failures + 1 <= u64::MAX,
        runs[0].transport.failed_transfers + failures <= u64::MAX,
    ensures
        runs[(failures + 1) as int].transport.phase == Phase::Streaming,
        runs[(failures + 1) as int].transport.tick == runs[0].transport.tick + failures + 1,
        runs[(failures + 1) as int].transport.failed_transfers == runs[0].transport.failed_transfers + failures,
        runs[(failures + 1) as int].state is Some,
        decodes_to(report, schema, runs[(failures + 1) as int].state->Some_0),
{
    lemma_failed_ticks(runs, schema, failures, failures);
}

proof fn lemma_failed_ticks(runs: Seq<Reader>, schema: Schema, failures: nat, k: nat)
    requires
        k <= failures,
        runs.len() == failures + 2,
        runs[0].transport.phase == Phase::Streaming,
        forall|i: int| 0 <= i < failures ==> read_tick(#[trigger] runs[i], runs[i + 1], schema, None),
        runs[0].transport.tick + failures + 1 <= u64::MAX,
        runs[0].transport.failed_transfers + failures <= u64::MAX,
    ensures
        runs[k as int].transport.phase == Phase::Streaming,
        runs[k as int].transport.tick == runs[0].transport.tick + k,
        runs[k as int].transport.failed_transfers == runs[0].transport.failed_transfers + k,
    decreases k,
{
    if k > 0 {
        lemma_failed_ticks(runs, schema, failures, (k - 1) as nat);
        assert(read_tick(runs[k - 1], runs[k as int], schema, None));
    }
}

} // verus!
