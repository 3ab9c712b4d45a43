//! The connection forwarder as a machine: it is told what happened on the
//! two streams and answers what to do next. The caller owns the streams,
//! the two buffers and the clock, and performs each action in full before
//! it reports the next event.

use std::time::Duration;
use vstd::prelude::*;

verus! {

/// Size of the buffer of each direction, in bytes.
pub const BUFFER_SIZE: usize = 16384;

#[derive(Debug, Clone, Copy)]
pub struct PumpOptions {
    /// The window without traffic after which the connection is closed;
    /// `None` arms no timer.
    pub idle_timeout: Option<Duration>,
}

#[derive(Debug, Clone, Copy, PartialEq, Eq, Structural)]
pub enum CloseReason {
    SourceEof,
    DestinationEof,
    IdleTimeout,
}

#[derive(Debug, Clone, Copy)]
pub struct PumpStats {
    /// Bytes forwarded from the source to the destination.
    pub bytes_up: u64,
    /// Bytes forwarded from the destination to the source.
    pub bytes_down: u64,
    pub reason: CloseReason,
    pub duration: Duration,
}

/// What happened on the streams since the last action.
#[derive(Debug, Clone, Copy, PartialEq, Eq, Structural)]
pub enum PumpEvent {
    /// A read from the source gave this many bytes; 0 is the end of the stream.
    SourceRead(usize),
    /// A read from the destination gave this many bytes; 0 is the end of the stream.
    DestinationRead(usize),
    /// The write that was asked for has been made in full.
    Written,
    /// The idle timer fired before either read completed.
    IdleTimeout,
}

/// What the caller is to do next.
#[derive(Debug, Clone, Copy)]
pub enum PumpAction {
    /// Wait for a read on either stream to complete, into that stream's
    /// buffer; with a timer, give up waiting when it fires. The timer is
    /// started afresh with each wait.
    Await { idle_timer: Option<Duration> },
    /// Write the first `len` bytes of the source's buffer to the destination.
    WriteToDestination { len: usize },
    /// Write the first `len` bytes of the destination's buffer to the source.
    WriteToSource { len: usize },
    /// Shut down the write side of the streams named, and stop.
    Close { shutdown_source: bool, shutdown_destination: bool, reason: CloseReason },
}

/// Where a connection stands.
#[derive(Debug, Clone, Copy, PartialEq, Eq, Structural)]
pub enum PumpPhase {
    /// Waiting for a read or the timer.
    Waiting,
    /// Bytes read from the source are being written to the destination.
    WritingUp(usize),
    /// Bytes read from the destination are being written to the source.
    WritingDown(usize),
    Closed(CloseReason),
}

/// The state of a connection: its options, the bytes forwarded so far in
/// each direction, and its phase.
pub struct PumpState {
    pub idle_timeout: Option<Duration>,
    pub bytes_up: nat,
    pub bytes_down: nat,
    pub phase: PumpPhase,
}

impl PumpState {
    /// The state of a connection on which nothing has happened yet.
    pub open spec fn initial(idle_timeout: Option<Duration>) -> PumpState {
        PumpState { idle_timeout, bytes_up: 0, bytes_down: 0, phase: PumpPhase::Waiting }
    }

    /// Whether `event` can happen in this state: reads and the timer while
    /// waiting, the timer only if one is armed; the end of a write while
    /// writing; nothing once the connection is closed.
    pub open spec fn accepts(self, event: PumpEvent) -> bool {
        match (self.phase, event) {
            (PumpPhase::Waiting, PumpEvent::SourceRead(_)) => true,
            (PumpPhase::Waiting, PumpEvent::DestinationRead(_)) => true,
            (PumpPhase::Waiting, PumpEvent::IdleTimeout) => self.idle_timeout is Some,
            (PumpPhase::WritingUp(_), PumpEvent::Written) => true,
            (PumpPhase::WritingDown(_), PumpEvent::Written) => true,
            _ => false,
        }
    }

    /// The state after `event`. Bytes count as forwarded once their write
    /// is complete. An event that cannot happen changes nothing.
    pub open spec fn after(self, event: PumpEvent) -> PumpState {
        if !self.accepts(event) {
            self
        } else {
            match (self.phase, event) {
                (PumpPhase::Waiting, PumpEvent::SourceRead(len)) => PumpState {
                    phase: if len == 0 {
                        PumpPhase::Closed(CloseReason::SourceEof)
                    } else {
                        PumpPhase::WritingUp(len)
                    },
                    ..self
                },
                (PumpPhase::Waiting, PumpEvent::DestinationRead(len)) => PumpState {
                    phase: if len == 0 {
                        PumpPhase::Closed(CloseReason::DestinationEof)
                    } else {
                        PumpPhase::WritingDown(len)
                    },
                    ..self
                },
                (PumpPhase::Waiting, PumpEvent::IdleTimeout) => PumpState {
                    phase: PumpPhase::Closed(CloseReason::IdleTimeout),
                    ..self
                },
                (PumpPhase::WritingUp(len), PumpEvent::Written) => PumpState {
                    bytes_up: self.bytes_up + len as nat,
                    phase: PumpPhase::Waiting,
                    ..self
                },
                (PumpPhase::WritingDown(len), PumpEvent::Written) => PumpState {
                    bytes_down: self.bytes_down + len as nat,
                    phase: PumpPhase::Waiting,
                    ..self
                },
                _ => self,
            }
        }
    }

    /// What is to be done in this state. At the end of either stream the
    /// write side of the other is shut down; on an idle timeout, both.
    pub open spec fn action(self) -> PumpAction {
        match self.phase {
            PumpPhase::Waiting => PumpAction::Await { idle_timer: self.idle_timeout },
            PumpPhase::WritingUp(len) => PumpAction::WriteToDestination { len },
            PumpPhase::WritingDown(len) => PumpAction::WriteToSource { len },
            PumpPhase::Closed(reason) => PumpAction::Close {
                shutdown_source: reason != CloseReason::SourceEof,
                shutdown_destination: reason != CloseReason::DestinationEof,
                reason,
            },
        }
    }

    /// The state after all of `events`, in order.
    pub open spec fn after_all(self, events: Seq<PumpEvent>) -> PumpState
        decreases events.len(),
    {
        if events.len() == 0 {
            self
        } else {
            self.after_all(events.drop_last()).after(events.last())
        }
    }
}

/// One connection's forwarder.
pub struct Pump {
    options: PumpOptions,
    bytes_up: u64,
    bytes_down: u64,
    phase: PumpPhase,
}

impl View for Pump {
    type V = PumpState;

    closed spec fn view(&self) -> PumpState {
        PumpState {
            idle_timeout: self.options.idle_timeout,
            bytes_up: self.bytes_up as nat,
            bytes_down: self.bytes_down as nat,
            phase: self.phase,
        }
    }
}

impl Pump {
    /// Whether the counters can take the bytes of the write in progress.
    pub open spec fn has_room(&self) -> bool {
        match self@.phase {
            PumpPhase::WritingUp(len) => self@.bytes_up + len <= u64::MAX,
            PumpPhase::WritingDown(len) => self@.bytes_down + len <= u64::MAX,
            _ => true,
        }
    }

    /// The forwarder of a connection that was just made.
    pub fn new(options: PumpOptions) -> (pump: Pump)
        ensures
            pump@ == PumpState::initial(options.idle_timeout),
    {
        Pump { options, bytes_up: 0, bytes_down: 0, phase: PumpPhase::Waiting }
    }

    /// What is to be done now.
    pub fn action(&self) -> (action: PumpAction)
        ensures
            action == self@.action(),
    {
        match self.phase {
            PumpPhase::Waiting => PumpAction::Await { idle_timer: self.options.idle_timeout },
            PumpPhase::WritingUp(len) => PumpAction::WriteToDestination { len },
            PumpPhase::WritingDown(len) => PumpAction::WriteToSource { len },
            PumpPhase::Closed(reason) => PumpAction::Close {
                shutdown_source: !matches!(reason, CloseReason::SourceEof),
                shutdown_destination: !matches!(reason, CloseReason::DestinationEof),
                reason,
            },
        }
    }

    /// Whether `event` can be taken now: it can happen in this phase, and
    /// the counter has room for the bytes of a write that it completes.
    pub fn accepts(&self, event: PumpEvent) -> (ok: bool)
        ensures
            ok == (self@.accepts(event) && self.has_room()),
    {
        match (self.phase, event) {
            (PumpPhase::Waiting, PumpEvent::SourceRead(_)) => true,
            (PumpPhase::Waiting, PumpEvent::DestinationRead(_)) => true,
            (PumpPhase::Waiting, PumpEvent::IdleTimeout) => self.options.idle_timeout.is_some(),
            (PumpPhase::WritingUp(len), PumpEvent::Written) => len as u64 <= u64::MAX
                - self.bytes_up,
            (PumpPhase::WritingDown(len), PumpEvent::Written) => len as u64 <= u64::MAX
                - self.bytes_down,
            _ => false,
        }
    }

    /// Takes `event` and says what to do next.
    pub fn step(&mut self, event: PumpEvent) -> (action: PumpAction)
        requires
            old(self)@.accepts(event),
            old(self).has_room(),
        ensures
            final(self)@ == old(self)@.after(event),
            action == final(self)@.action(),
    {
        match (self.phase, event) {
            (PumpPhase::Waiting, PumpEvent::SourceRead(len)) => {
                self.phase = if len == 0 {
                    PumpPhase::Closed(CloseReason::SourceEof)
                } else {
                    PumpPhase::WritingUp(len)
                };
            },
            (PumpPhase::Waiting, PumpEvent::DestinationRead(len)) => {
                self.phase = if len == 0 {
                    PumpPhase::Closed(CloseReason::DestinationEof)
                } else {
                    PumpPhase::WritingDown(len)
                };
            },
            (PumpPhase::Waiting, PumpEvent::IdleTimeout) => {
                self.phase = PumpPhase::Closed(CloseReason::IdleTimeout);
            },
            (PumpPhase::WritingUp(len), PumpEvent::Written) => {
                self.bytes_up = self.bytes_up + len as u64;
                self.phase = PumpPhase::Waiting;
            },
            (PumpPhase::WritingDown(len), PumpEvent::Written) => {
                self.bytes_down = self.bytes_down + len as u64;
                self.phase = PumpPhase::Waiting;
            },
            _ => {},
        }
        self.action()
    }

    /// The totals of a connection that is closed, with the time it took;
    /// nothing while the connection is open.
    pub fn finish(&self, elapsed: Duration) -> (stats: Option<PumpStats>)
        ensures
            match self@.phase {
                PumpPhase::Closed(reason) => stats matches Some(s) && s.bytes_up == self@.bytes_up
                    && s.bytes_down == self@.bytes_down && s.reason == reason && s.duration
                    == elapsed,
                _ => stats is None,
            },
    {
        match self.phase {
            PumpPhase::Closed(reason) => Some(
                PumpStats {
                    bytes_up: self.bytes_up,
                    bytes_down: self.bytes_down,
                    reason,
                    duration: elapsed,
                },
            ),
            _ => None,
        }
    }
}

impl PumpState {
    /// Whether each of `events` can happen when its turn comes.
    pub open spec fn runs(self, events: Seq<PumpEvent>) -> bool
        decreases events.len(),
    {
        events.len() == 0 || (self.runs(events.drop_last()) && self.after_all(
            events.drop_last(),
        ).accepts(events.last()))
    }
}

/// The bytes that `events` show as written in full to the destination: those
/// of each read from the source whose write was completed.
pub open spec fn payload_up(events: Seq<PumpEvent>) -> nat
    decreases events.len(),
{
    if events.len() < 2 {
        0
    } else {
        payload_up(events.drop_last()) + match (events[events.len() - 2], events.last()) {
            (PumpEvent::SourceRead(len), PumpEvent::Written) => len as nat,
            _ => 0,
        }
    }
}

/// The bytes that `events` show as written in full to the source.
pub open spec fn payload_down(events: Seq<PumpEvent>) -> nat
    decreases events.len(),
{
    if events.len() < 2 {
        0
    } else {
        payload_down(events.drop_last()) + match (events[events.len() - 2], events.last()) {
            (PumpEvent::DestinationRead(len), PumpEvent::Written) => len as nat,
            _ => 0,
        }
    }
}

/// The phase that the last event leaves behind.
pub open spec fn phase_after(events: Seq<PumpEvent>) -> PumpPhase {
    if events.len() == 0 {
        PumpPhase::Waiting
    } else {
        match events.last() {
            PumpEvent::SourceRead(len) => if len == 0 {
                PumpPhase::Closed(CloseReason::SourceEof)
            } else {
                PumpPhase::WritingUp(len)
            },
            PumpEvent::DestinationRead(len) => if len == 0 {
                PumpPhase::Closed(CloseReason::DestinationEof)
            } else {
                PumpPhase::WritingDown(len)
            },
            PumpEvent::Written => PumpPhase::Waiting,
            PumpEvent::IdleTimeout => PumpPhase::Closed(CloseReason::IdleTimeout),
        }
    }
}

/// No event takes bytes back: the totals of both directions never fall.
pub proof fn lemma_totals_never_fall(state: PumpState, events: Seq<PumpEvent>)
    ensures
        state.after_all(events).bytes_up >= state.bytes_up,
        state.after_all(events).bytes_down >= state.bytes_down,
        state.after_all(events).bytes_up + state.after_all(events).bytes_down >= state.bytes_up
            + state.bytes_down,
        state.after_all(events).idle_timeout == state.idle_timeout,
    decreases events.len(),
{
    if events.len() > 0 {
        lemma_totals_never_fall(state, events.drop_last());
    }
}

/// On a connection that starts afresh, the totals are the payload written
/// in full in each direction, and the phase is that of the last event.
pub proof fn lemma_totals_are_payload(idle_timeout: Option<Duration>, events: Seq<PumpEvent>)
    requires
        PumpState::initial(idle_timeout).runs(events),
    ensures
        PumpState::initial(idle_timeout).after_all(events).bytes_up == payload_up(events),
        PumpState::initial(idle_timeout).after_all(events).bytes_down == payload_down(events),
        PumpState::initial(idle_timeout).after_all(events).phase == phase_after(events),
    decreases events.len(),
{
    if events.len() > 0 {
        lemma_totals_are_payload(idle_timeout, events.drop_last());
    }
}

/// The events of a source that sends `chunks`, each of which is written to
/// the destination before the next is read.
pub open spec fn source_sends(chunks: Seq<usize>) -> Seq<PumpEvent>
    decreases chunks.len(),
{
    if chunks.len() == 0 {
        Seq::empty()
    } else {
        source_sends(chunks.drop_last()).push(PumpEvent::SourceRead(chunks.last())).push(
            PumpEvent::Written,
        )
    }
}

/// The number of bytes in `chunks`.
pub open spec fn total_len(chunks: Seq<usize>) -> nat
    decreases chunks.len(),
{
    if chunks.len() == 0 {
        0
    } else {
        total_len(chunks.drop_last()) + chunks.last() as nat
    }
}

/// A source that sends its bytes in chunks and then closes, on a
/// connection on which nothing else happens: each chunk is written to the
/// destination whole, as soon as it is read; the destination's write side
/// is shut down at the end, and the source's is not; the reason is the end
/// of the source, and the bytes forwarded are the bytes sent.
pub proof fn lemma_source_to_destination(idle_timeout: Option<Duration>, chunks: Seq<usize>)
    requires
        forall|k: int| 0 <= k < chunks.len() ==> chunks[k] > 0,
    ensures
        PumpState::initial(idle_timeout).runs(source_sends(chunks)),
        PumpState::initial(idle_timeout).after_all(source_sends(chunks)) == (PumpState {
            bytes_up: total_len(chunks),
            ..PumpState::initial(idle_timeout)
        }),
        chunks.len() > 0 ==> PumpState::initial(idle_timeout).after_all(
            source_sends(chunks).drop_last(),
        ).action() == (PumpAction::WriteToDestination { len: chunks.last() }),
        PumpState::initial(idle_timeout).after_all(
            source_sends(chunks).push(PumpEvent::SourceRead(0)),
        ) == (PumpState {
            bytes_up: total_len(chunks),
            phase: PumpPhase::Closed(CloseReason::SourceEof),
            ..PumpState::initial(idle_timeout)
        }),
        PumpState::initial(idle_timeout).after_all(
            source_sends(chunks).push(PumpEvent::SourceRead(0)),
        ).action() == (PumpAction::Close {
            shutdown_source: false,
            shutdown_destination: true,
            reason: CloseReason::SourceEof,
        }),
    decreases chunks.len(),
{
    let start = PumpState::initial(idle_timeout);
    let events = source_sends(chunks);
    if chunks.len() > 0 {
        let before = source_sends(chunks.drop_last());
        let read = before.push(PumpEvent::SourceRead(chunks.last()));
        lemma_source_to_destination(idle_timeout, chunks.drop_last());
        assert(read.drop_last() =~= before);
        assert(events.drop_last() =~= read);
        assert(start.runs(read));
    }
    assert(events.push(PumpEvent::SourceRead(0)).drop_last() =~= events);
}

/// The lengths of `chunks`, in order.
pub open spec fn lengths(chunks: Seq<Seq<u8>>) -> Seq<usize> {
    chunks.map_values(|chunk: Seq<u8>| chunk.len() as usize)
}

/// The bytes of `chunks`, one chunk after the other.
pub open spec fn joined(chunks: Seq<Seq<u8>>) -> Seq<u8>
    decreases chunks.len(),
{
    if chunks.len() == 0 {
        Seq::empty()
    } else {
        joined(chunks.drop_last()) + chunks.last()
    }
}

/// What reaches the destination from a source that delivers `chunks`, one
/// with each read: after a read the chunk stands at the front of the
/// source's buffer, and the caller writes what the action then asks for.
pub open spec fn delivered(idle_timeout: Option<Duration>, chunks: Seq<Seq<u8>>) -> Seq<u8>
    decreases chunks.len(),
{
    if chunks.len() == 0 {
        Seq::empty()
    } else {
        let earlier = chunks.drop_last();
        let state = PumpState::initial(idle_timeout).after_all(source_sends(lengths(earlier)));
        delivered(idle_timeout, earlier) + match state.after(
            PumpEvent::SourceRead(chunks.last().len() as usize),
        ).action() {
            PumpAction::WriteToDestination { len } => chunks.last().take(len as int),
            _ => Seq::empty(),
        }
    }
}

/// What the source sends is what the destination gets, byte for byte and
/// in order, where each read gives at least one byte and no more than the
/// buffer holds.
pub proof fn lemma_delivered_is_sent(idle_timeout: Option<Duration>, chunks: Seq<Seq<u8>>)
    requires
        forall|k: int| 0 <= k < chunks.len() ==> 0 < (#[trigger] chunks[k]).len() <= BUFFER_SIZE,
    ensures
        delivered(idle_timeout, chunks) == joined(chunks),
    decreases chunks.len(),
{
    if chunks.len() > 0 {
        let earlier = chunks.drop_last();
        assert forall|k: int| 0 <= k < earlier.len() implies 0 < (#[trigger] earlier[k]).len()
            <= BUFFER_SIZE by {}
        lemma_delivered_is_sent(idle_timeout, earlier);
        assert forall|k: int| 0 <= k < lengths(earlier).len() implies lengths(earlier)[k] > 0 by {}
        lemma_source_to_destination(idle_timeout, lengths(earlier));
    }
}

} // verus!
