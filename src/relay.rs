use vstd::prelude::*;
use crate::address::BtAddr;
use crate::report::{is_device_info, rewrite_device_info, rewritten};

verus! {

/// The two ends of a channel pair.
#[derive(Debug, Copy, Clone, PartialEq, Eq, Structural)]
pub enum Side {
    /// The console, which connected to the proxy.
    Console,
    /// The physical controller, to which the proxy connected.
    Controller,
}

impl Side {
    pub open spec fn spec_opposite(self) -> Side {
        match self {
            Side::Console => Side::Controller,
            Side::Controller => Side::Console,
        }
    }

    pub fn opposite(self) -> (r: Side)
        ensures
            r == self.spec_opposite(),
    {
        match self {
            Side::Console => Side::Controller,
            Side::Controller => Side::Console,
        }
    }
}

/// The HID channels, each an L2CAP channel of its own.
#[derive(Debug, Copy, Clone, PartialEq, Eq, Structural)]
pub enum ChannelRole {
    Control,
    Interrupt,
}

pub const CONTROL_PSM: u16 = 17;

pub const INTERRUPT_PSM: u16 = 19;

impl ChannelRole {
    pub open spec fn spec_psm(self) -> u16 {
        match self {
            ChannelRole::Control => CONTROL_PSM,
            ChannelRole::Interrupt => INTERRUPT_PSM,
        }
    }

    /// The PSM that the channel is bound to.
    pub fn psm(self) -> (r: u16)
        ensures
            r == self.spec_psm(),
    {
        match self {
            ChannelRole::Control => CONTROL_PSM,
            ChannelRole::Interrupt => INTERRUPT_PSM,
        }
    }

    pub open spec fn spec_read_buffer_len(self) -> usize {
        match self {
            ChannelRole::Control => 512,
            ChannelRole::Interrupt => 128,
        }
    }

    /// The size of the buffer that one read on the channel fills.
    pub fn read_buffer_len(self) -> (r: usize)
        ensures
            r == self.spec_read_buffer_len(),
    {
        match self {
            ChannelRole::Control => 512,
            ChannelRole::Interrupt => 128,
        }
    }
}

/// How a read on one side ended.
#[derive(Debug, Copy, Clone, PartialEq, Eq, Structural)]
pub enum ReadOutcome {
    /// The read returned the bytes handed over with it; none means that the
    /// side closed its end.
    Received,
    /// The read failed.
    Failed,
}

/// What the relay loop does after a read completed.
#[derive(Debug, Copy, Clone, PartialEq, Eq, Structural)]
pub enum RelayAction {
    /// Write the report to `to`, then issue a new read on the side it came
    /// from. The read pending on `to` stays as it is.
    Forward { to: Side },
    /// `side` closed its end: stop, and drop the read pending on the other side.
    Closed { side: Side },
    /// The read on `side` failed: stop, and drop the read pending on the other side.
    Failed { side: Side },
    /// The relay has already stopped: nothing is read or written any more.
    Finished,
}

/// The mathematical state of a relay engine.
pub struct RelayState {
    pub role: ChannelRole,
    /// The adapter's address, display order.
    pub adapter: Seq<u8>,
    /// Bytes read from the console so far.
    pub from_console: nat,
    /// Bytes read from the controller so far.
    pub from_controller: nat,
    /// The report last read from the console, as it was forwarded.
    pub last_console: Seq<u8>,
    /// The report last read from the controller, as it was forwarded.
    pub last_controller: Seq<u8>,
    pub finished: bool,
}

/// A byte count that stops at the largest `u64`.
pub open spec fn add_bytes(total: nat, n: nat) -> nat {
    if total + n > u64::MAX {
        u64::MAX as nat
    } else {
        total + n
    }
}

/// What is sent on for a report read on `side` of a `role` channel: only the
/// controller's device-info replies on the interrupt channel are rewritten.
pub open spec fn forwarded(role: ChannelRole, side: Side, report: Seq<u8>, adapter: Seq<u8>) -> Seq<
    u8,
> {
    if role == ChannelRole::Interrupt && side == Side::Controller {
        rewritten(report, adapter)
    } else {
        report
    }
}

/// The state after `report` was read on `side`: its count grows by its length,
/// and it becomes that side's last report.
pub open spec fn record(s: RelayState, side: Side, report: Seq<u8>) -> RelayState {
    match side {
        Side::Console => RelayState {
            from_console: add_bytes(s.from_console, report.len()),
            last_console: report,
            ..s
        },
        Side::Controller => RelayState {
            from_controller: add_bytes(s.from_controller, report.len()),
            last_controller: report,
            ..s
        },
    }
}

/// One step of the relay: the next state, the action, and the report as it
/// is to be written.
pub open spec fn next(s: RelayState, side: Side, outcome: ReadOutcome, report: Seq<u8>) -> (
    RelayState,
    RelayAction,
    Seq<u8>,
) {
    if s.finished {
        (s, RelayAction::Finished, report)
    } else {
        match outcome {
            ReadOutcome::Failed => (
                RelayState { finished: true, ..s },
                RelayAction::Failed { side },
                report,
            ),
            ReadOutcome::Received => if report.len() == 0 {
                (
                    RelayState { finished: true, ..record(s, side, report) },
                    RelayAction::Closed { side },
                    report,
                )
            } else {
                let out = forwarded(s.role, side, report, s.adapter);
                (record(s, side, out), RelayAction::Forward { to: side.spec_opposite() }, out)
            },
        }
    }
}

/// The forwarding engine of one channel pair. The loop that drives it keeps
/// one read pending on each side, hands each completed read to [`RelayEngine::step`]
/// and does what the returned action says.
pub struct RelayEngine {
    role: ChannelRole,
    adapter: BtAddr,
    from_console: u64,
    from_controller: u64,
    last_console: Vec<u8>,
    last_controller: Vec<u8>,
    finished: bool,
}

impl View for RelayEngine {
    type V = RelayState;

    closed spec fn view(&self) -> RelayState {
        RelayState {
            role: self.role,
            adapter: self.adapter.0@,
            from_console: self.from_console as nat,
            from_controller: self.from_controller as nat,
            last_console: self.last_console@,
            last_controller: self.last_controller@,
            finished: self.finished,
        }
    }
}

fn add_saturating(total: u64, n: usize) -> (r: u64)
    ensures
        r as nat == add_bytes(total as nat, n as nat),
{
    if n as u64 > u64::MAX - total {
        u64::MAX
    } else {
        total + n as u64
    }
}

impl RelayEngine {
    /// The engine of a `role` channel pair, before any read; `adapter` is the
    /// proxy adapter's address in display order.
    pub fn new(role: ChannelRole, adapter: BtAddr) -> (r: RelayEngine)
        ensures
            r@ == (RelayState {
                role,
                adapter: adapter.0@,
                from_console: 0,
                from_controller: 0,
                last_console: Seq::empty(),
                last_controller: Seq::empty(),
                finished: false,
            }),
    {
        RelayEngine {
            role,
            adapter,
            from_console: 0,
            from_controller: 0,
            last_console: Vec::new(),
            last_controller: Vec::new(),
            finished: false,
        }
    }

    /// Takes the outcome of the read that completed on `side`, with the bytes
    /// it delivered in `report`, and says what to do next. On `Forward`,
    /// `report` holds the bytes to write.
    pub fn step(&mut self, side: Side, outcome: ReadOutcome, report: &mut Vec<u8>) -> (r:
        RelayAction)
        ensures
            (final(self)@, r, final(report)@) == next(old(self)@, side, outcome, old(report)@),
    {
        if self.finished {
            return RelayAction::Finished;
        }
        match outcome {
            ReadOutcome::Failed => {
                self.finished = true;
                RelayAction::Failed { side }
            },
            ReadOutcome::Received => {
                if self.role == ChannelRole::Interrupt && side == Side::Controller {
                    rewrite_device_info(report, &self.adapter);
                }
                let n = report.len();
                match side {
                    Side::Console => {
                        self.from_console = add_saturating(self.from_console, n);
                        self.last_console = report.clone();
                    },
                    Side::Controller => {
                        self.from_controller = add_saturating(self.from_controller, n);
                        self.last_controller = report.clone();
                    },
                }
                if n == 0 {
                    self.finished = true;
                    RelayAction::Closed { side }
                } else {
                    RelayAction::Forward { to: side.opposite() }
                }
            },
        }
    }

    pub fn role(&self) -> (r: ChannelRole)
        ensures
            r == self@.role,
    {
        self.role
    }

    pub fn is_finished(&self) -> (r: bool)
        ensures
            r == self@.finished,
    {
        self.finished
    }

    /// Bytes read so far on `side`.
    pub fn total_read(&self, side: Side) -> (r: u64)
        ensures
            r as nat == match side {
                Side::Console => self@.from_console,
                Side::Controller => self@.from_controller,
            },
    {
        match side {
            Side::Console => self.from_console,
            Side::Controller => self.from_controller,
        }
    }

    /// The byte counts of an engine fit in a `u64`, and its adapter address
    /// has six bytes.
    pub proof fn lemma_state_valid(&self)
        ensures
            counts_fit(self@),
            self@.adapter.len() == 6,
    {
    }

    /// The report last read on `side`, as it was forwarded.
    pub fn last_report(&self, side: Side) -> (r: &Vec<u8>)
        ensures
            r@ == match side {
                Side::Console => self@.last_console,
                Side::Controller => self@.last_controller,
            },
    {
        match side {
            Side::Console => &self.last_console,
            Side::Controller => &self.last_controller,
        }
    }
}

pub open spec fn counts_fit(s: RelayState) -> bool {
    s.from_console <= u64::MAX && s.from_controller <= u64::MAX
}

/// A report that is not a device-info reply is forwarded to the other side
/// exactly as it was read, whatever the channel and the side.
pub proof fn lemma_other_reports_verbatim(s: RelayState, side: Side, report: Seq<u8>)
    requires
        !s.finished,
        report.len() > 0,
        !is_device_info(report),
    ensures
        next(s, side, ReadOutcome::Received, report).1 == (RelayAction::Forward {
            to: side.spec_opposite(),
        }),
        next(s, side, ReadOutcome::Received, report).2 == report,
{
}

/// A device-info reply from the controller on the interrupt channel is
/// forwarded with the same length, bytes 20..26 (bytes 19..25 after the
/// transport prefix) holding the adapter's address and every other byte
/// unchanged.
pub proof fn lemma_device_info_rewritten(s: RelayState, report: Seq<u8>)
    requires
        !s.finished,
        s.role == ChannelRole::Interrupt,
        s.adapter.len() == 6,
        is_device_info(report),
    ensures
        next(s, Side::Controller, ReadOutcome::Received, report).1 == (RelayAction::Forward {
            to: Side::Console,
        }),
        next(s, Side::Controller, ReadOutcome::Received, report).2.len() == 50,
        next(s, Side::Controller, ReadOutcome::Received, report).2.subrange(20, 26) == s.adapter,
        forall|k: int|
            0 <= k < 50 && !(20 <= k < 26) ==> next(
                s,
                Side::Controller,
                ReadOutcome::Received,
                report,
            ).2[k] == report[k],
{
    let out = next(s, Side::Controller, ReadOutcome::Received, report).2;
    assert(out.subrange(20, 26) =~= s.adapter);
}

/// A read of no bytes on either side ends the relay: nothing is written, no
/// read is issued, and every read that completes afterwards, on either side,
/// is dropped without a read, a write or a change of state.
pub proof fn lemma_zero_read_ends_relay(
    s: RelayState,
    side: Side,
    later_side: Side,
    later_outcome: ReadOutcome,
    later_report: Seq<u8>,
)
    requires
        !s.finished,
    ensures
        next(s, side, ReadOutcome::Received, Seq::empty()).1 == (RelayAction::Closed { side }),
        next(s, side, ReadOutcome::Received, Seq::empty()).0.finished,
        next(next(s, side, ReadOutcome::Received, Seq::empty()).0, later_side, later_outcome, later_report)
            == (next(s, side, ReadOutcome::Received, Seq::empty()).0, RelayAction::Finished, later_report),
{
}

/// When both sides deliver a read of no bytes, the relay stops once, on the
/// first; the second changes nothing, and the byte counts stay those from
/// before either.
pub proof fn lemma_both_closed_stop_once(s: RelayState, first: Side)
    requires
        !s.finished,
        counts_fit(s),
    ensures
        next(s, first, ReadOutcome::Received, Seq::empty()).1 == (RelayAction::Closed { side: first }),
        next(
            next(s, first, ReadOutcome::Received, Seq::empty()).0,
            first.spec_opposite(),
            ReadOutcome::Received,
            Seq::empty(),
        ).1 == RelayAction::Finished,
        next(
            next(s, first, ReadOutcome::Received, Seq::empty()).0,
            first.spec_opposite(),
            ReadOutcome::Received,
            Seq::empty(),
        ).0 == next(s, first, ReadOutcome::Received, Seq::empty()).0,
        next(s, first, ReadOutcome::Received, Seq::empty()).0.from_console == s.from_console,
        next(s, first, ReadOutcome::Received, Seq::empty()).0.from_controller == s.from_controller,
{
}

/// A completed read, as the relay loop hands it to the engine.
pub struct ReadEvent {
    pub side: Side,
    pub outcome: ReadOutcome,
    pub report: Seq<u8>,
}

/// The state after the reads of `events`, in order.
pub open spec fn run(s: RelayState, events: Seq<ReadEvent>) -> RelayState
    decreases events.len(),
{
    if events.len() == 0 {
        s
    } else {
        let e = events.last();
        next(run(s, events.drop_last()), e.side, e.outcome, e.report).0
    }
}

/// The number of bytes that the reads of `events` delivered on `side`.
pub open spec fn received_on(events: Seq<ReadEvent>, side: Side) -> nat
    decreases events.len(),
{
    if events.len() == 0 {
        0
    } else {
        let e = events.last();
        received_on(events.drop_last(), side) + if e.side == side && e.outcome
            == ReadOutcome::Received {
            e.report.len()
        } else {
            0
        }
    }
}

/// Reads that each delivered at least one byte.
pub open spec fn all_data(events: Seq<ReadEvent>) -> bool {
    forall|i: int|
        0 <= i < events.len() ==> (#[trigger] events[i]).outcome == ReadOutcome::Received
            && events[i].report.len() > 0
}

/// While every read delivers bytes, the relay keeps running and each side's
/// count grows by exactly the bytes read on it (rewriting keeps a report's
/// length), as long as the counts stay within a `u64`.
pub proof fn lemma_run_counts(s: RelayState, events: Seq<ReadEvent>)
    requires
        !s.finished,
        all_data(events),
        s.from_console + received_on(events, Side::Console) <= u64::MAX,
        s.from_controller + received_on(events, Side::Controller) <= u64::MAX,
    ensures
        !run(s, events).finished,
        run(s, events).from_console == s.from_console + received_on(events, Side::Console),
        run(s, events).from_controller == s.from_controller + received_on(
            events,
            Side::Controller,
        ),
    decreases events.len(),
{
    if events.len() > 0 {
        let rest = events.drop_last();
        assert forall|i: int| 0 <= i < rest.len() implies (#[trigger] rest[i]).outcome
            == ReadOutcome::Received && rest[i].report.len() > 0 by {
            assert(rest[i] == events[i]);
        }
        assert(events.last() == events[events.len() - 1]);
        lemma_run_counts(s, rest);
    }
}

/// A read of no bytes on `side`.
pub open spec fn closed_read(side: Side) -> ReadEvent {
    ReadEvent { side, outcome: ReadOutcome::Received, report: Seq::empty() }
}

/// After any reads that delivered bytes, both sides reporting a read of no
/// bytes stop the relay once, on the first; the second is dropped, and each
/// side's count is the sum of the bytes read on it, each report counted once.
pub proof fn lemma_counts_after_both_close(s: RelayState, events: Seq<ReadEvent>, first: Side)
    requires
        !s.finished,
        all_data(events),
        s.from_console + received_on(events, Side::Console) <= u64::MAX,
        s.from_controller + received_on(events, Side::Controller) <= u64::MAX,
    ensures
        next(run(s, events), first, ReadOutcome::Received, Seq::empty()).1 == (RelayAction::Closed {
            side: first,
        }),
        next(
            run(s, events.push(closed_read(first))),
            first.spec_opposite(),
            ReadOutcome::Received,
            Seq::empty(),
        ).1 == RelayAction::Finished,
        run(s, events.push(closed_read(first)).push(closed_read(first.spec_opposite()))).finished,
        run(
            s,
            events.push(closed_read(first)).push(closed_read(first.spec_opposite())),
        ).from_console == s.from_console + received_on(events, Side::Console),
        run(
            s,
            events.push(closed_read(first)).push(closed_read(first.spec_opposite())),
        ).from_controller == s.from_controller + received_on(events, Side::Controller),
{
    lemma_run_counts(s, events);
    let one = events.push(closed_read(first));
    let two = one.push(closed_read(first.spec_opposite()));
    assert(one.drop_last() =~= events);
    assert(two.drop_last() =~= one);
    assert(one.last() == closed_read(first));
    assert(two.last() == closed_read(first.spec_opposite()));
}

} // verus!
