//! The batch accumulator: messages are collected into a bounded batch that is
//! flushed when it is full, when it has waited too long, or when the upstream
//! channel closes.
//!
//! The accumulator does no waiting of its own. Its driver receives from the
//! channel, arms a timer with [`BatchAccumulator::time_to_deadline`] and
//! reports what happened as a [`BatchEvent`]; the accumulator answers with
//! what to do next. Instants are milliseconds on a monotonic clock.

use crate::config::ConfigError;
use crate::message::{JsonMessage, JsonMessageView};
use vstd::prelude::*;

verus! {

/// Why a batch was flushed.
#[derive(Clone, Copy, Debug, PartialEq, Eq, Structural)]
pub enum FlushTrigger {
    /// The batch reached its configured size.
    SizeFull,
    /// The batch had been non-empty for the idle timeout or longer.
    TimedOut,
    /// The upstream channel closed while messages were pending.
    Draining,
}

/// What the driver observed.
#[derive(Clone, Debug, PartialEq, Eq)]
pub enum BatchEvent {
    /// A message arrived at instant `at`.
    Message { at: u64, message: JsonMessage },
    /// The timer fired, or the driver looked at the clock, at instant `at`.
    Tick { at: u64 },
    /// The upstream channel closed.
    Closed,
}

/// Mathematical value of a [`BatchEvent`].
#[verifier::ext_equal]
pub ghost enum BatchEventView {
    Message { at: nat, message: JsonMessageView },
    Tick { at: nat },
    Closed,
}

impl BatchEventView {
    /// The instant at which the event was observed. Closing carries none and
    /// counts as instant zero.
    pub open spec fn instant(self) -> nat {
        match self {
            BatchEventView::Message { at, .. } => at,
            BatchEventView::Tick { at } => at,
            BatchEventView::Closed => 0,
        }
    }
}

impl View for BatchEvent {
    type V = BatchEventView;

    open spec fn view(&self) -> BatchEventView {
        match *self {
            BatchEvent::Message { at, message } => BatchEventView::Message {
                at: at as nat,
                message: message@,
            },
            BatchEvent::Tick { at } => BatchEventView::Tick { at: at as nat },
            BatchEvent::Closed => BatchEventView::Closed,
        }
    }
}

/// What the driver has to do after an event.
#[derive(Clone, Debug, PartialEq, Eq)]
pub enum BatchAction {
    /// Nothing to flush; keep waiting.
    Wait,
    /// Snap and persist `batch`. After a `Draining` flush the loop ends.
    Flush { batch: Vec<JsonMessage>, trigger: FlushTrigger },
    /// The loop has ended and nothing is pending.
    Stop,
}

/// Mathematical value of a [`BatchAction`].
#[verifier::ext_equal]
pub ghost enum BatchActionView {
    Wait,
    Flush { batch: Seq<JsonMessageView>, trigger: FlushTrigger },
    Stop,
}

impl View for BatchAction {
    type V = BatchActionView;

    open spec fn view(&self) -> BatchActionView {
        match *self {
            BatchAction::Wait => BatchActionView::Wait,
            BatchAction::Flush { batch, trigger } => BatchActionView::Flush {
                batch: batch.deep_view(),
                trigger,
            },
            BatchAction::Stop => BatchActionView::Stop,
        }
    }
}

/// Mathematical state of the accumulator.
#[verifier::ext_equal]
pub ghost struct AccumulatorView {
    /// The pending messages, oldest first.
    pub batch: Seq<JsonMessageView>,
    /// The size at which a batch is flushed.
    pub batch_size: nat,
    /// How long a non-empty batch may wait, in milliseconds.
    pub idle_timeout: nat,
    /// The instant at which the batch became non-empty.
    pub since: Option<nat>,
    /// Whether the upstream channel has closed.
    pub terminated: bool,
}

impl AccumulatorView {
    /// The states that an accumulator can be in between two events.
    pub open spec fn well_formed(self) -> bool {
        &&& self.batch_size >= 1
        &&& self.batch.len() < self.batch_size
        &&& (self.since is Some <==> self.batch.len() > 0)
        &&& (self.terminated ==> self.batch.len() == 0)
    }

    /// How long the batch has been non-empty at instant `now`; zero for an
    /// empty batch.
    pub open spec fn idle_time(self, now: nat) -> nat {
        match self.since {
            Some(start) => if now >= start {
                (now - start) as nat
            } else {
                0
            },
            None => 0,
        }
    }

    /// Whether a timeout flush is due at instant `now`.
    pub open spec fn expired(self, now: nat) -> bool {
        self.batch.len() > 0 && self.idle_time(now) >= self.idle_timeout
    }

    /// How long the driver may wait at instant `now` before a timeout flush
    /// is due: the rest of the idle timeout, or `None` while nothing is
    /// pending.
    pub open spec fn time_to_deadline(self, now: nat) -> Option<nat> {
        if self.batch.len() == 0 {
            None
        } else if self.expired(now) {
            Some(0)
        } else {
            Some((self.idle_timeout - self.idle_time(now)) as nat)
        }
    }

    /// The state with nothing pending.
    pub open spec fn emptied(self) -> AccumulatorView {
        AccumulatorView { batch: Seq::empty(), since: None, ..self }
    }

    /// The transition function: the state after `event` and the action it
    /// calls for.
    ///
    /// A message that arrives when the timeout has already run out finds the
    /// old batch flushed and opens a new one; otherwise it joins the batch,
    /// which is flushed if that fills it. A tick flushes a batch whose
    /// timeout has run out and does nothing else. Closing flushes what is
    /// pending and ends the loop; after that every event is answered `Stop`.
    pub open spec fn next(self, event: BatchEventView) -> (AccumulatorView, BatchActionView) {
        if self.terminated {
            (self, BatchActionView::Stop)
        } else {
            match event {
                BatchEventView::Message { at, message } => {
                    if self.expired(at) {
                        (
                            AccumulatorView { batch: seq![message], since: Some(at), ..self },
                            BatchActionView::Flush {
                                batch: self.batch,
                                trigger: FlushTrigger::TimedOut,
                            },
                        )
                    } else if self.batch.len() + 1 == self.batch_size {
                        (
                            self.emptied(),
                            BatchActionView::Flush {
                                batch: self.batch.push(message),
                                trigger: FlushTrigger::SizeFull,
                            },
                        )
                    } else {
                        (
                            AccumulatorView {
                                batch: self.batch.push(message),
                                since: if self.batch.len() == 0 {
                                    Some(at)
                                } else {
                                    self.since
                                },
                                ..self
                            },
                            BatchActionView::Wait,
                        )
                    }
                },
                BatchEventView::Tick { at } => {
                    if self.expired(at) {
                        (
                            self.emptied(),
                            BatchActionView::Flush {
                                batch: self.batch,
                                trigger: FlushTrigger::TimedOut,
                            },
                        )
                    } else {
                        (self, BatchActionView::Wait)
                    }
                },
                BatchEventView::Closed => {
                    if self.batch.len() > 0 {
                        (
                            AccumulatorView { terminated: true, ..self.emptied() },
                            BatchActionView::Flush {
                                batch: self.batch,
                                trigger: FlushTrigger::Draining,
                            },
                        )
                    } else {
                        (AccumulatorView { terminated: true, ..self }, BatchActionView::Stop)
                    }
                },
            }
        }
    }
}

/// Collects messages into batches of at most `batch_size`.
#[derive(Debug)]
pub struct BatchAccumulator {
    batch: Vec<JsonMessage>,
    batch_size: usize,
    idle_timeout: u64,
    since: u64,
    terminated: bool,
}

impl View for BatchAccumulator {
    type V = AccumulatorView;

    closed spec fn view(&self) -> AccumulatorView {
        AccumulatorView {
            batch: self.batch.deep_view(),
            batch_size: self.batch_size as nat,
            idle_timeout: self.idle_timeout as nat,
            since: if self.batch@.len() > 0 {
                Some(self.since as nat)
            } else {
                None
            },
            terminated: self.terminated,
        }
    }
}

impl BatchAccumulator {
    #[verifier::type_invariant]
    spec fn coherent(self) -> bool {
        &&& self.batch_size >= 1
        &&& self.batch@.len() < self.batch_size
        &&& (self.terminated ==> self.batch@.len() == 0)
    }

    /// An empty accumulator that flushes at `batch_size` messages, or when a
    /// batch has been non-empty for `idle_timeout_ms` milliseconds. A batch
    /// size of zero is refused.
    pub fn new(batch_size: usize, idle_timeout_ms: u64) -> (made: Result<
        BatchAccumulator,
        ConfigError,
    >)
        ensures
            made is Ok <==> batch_size >= 1,
            made matches Err(error) ==> error == ConfigError::InvalidBatchSize,
            made matches Ok(accumulator) ==> accumulator@ == (AccumulatorView {
                batch: Seq::empty(),
                batch_size: batch_size as nat,
                idle_timeout: idle_timeout_ms as nat,
                since: None,
                terminated: false,
            }) && accumulator@.well_formed(),
    {
        if batch_size == 0 {
            return Err(ConfigError::InvalidBatchSize);
        }
        let accumulator = BatchAccumulator {
            batch: Vec::new(),
            batch_size,
            idle_timeout: idle_timeout_ms,
            since: 0,
            terminated: false,
        };
        Ok(accumulator)
    }

    /// Handles one event: updates the batch and says what the driver has to
    /// do. A flush hands the batch over and leaves the accumulator without it.
    pub fn step(&mut self, event: BatchEvent) -> (action: BatchAction)
        ensures
            old(self)@.well_formed(),
            (final(self)@, action@) == old(self)@.next(event@),
            final(self)@.well_formed(),
    {
        proof {
            use_type_invariant(&*self);
        }
        if self.terminated {
            return BatchAction::Stop;
        }
        match event {
            BatchEvent::Message { at, message } => {
                let expired = self.batch.len() > 0 && self.idle_at(at) >= self.idle_timeout;
                let mut pending = self.take_batch();
                if expired {
                    let mut opened: Vec<JsonMessage> = Vec::new();
                    opened.push(message);
                    self.batch = opened;
                    self.since = at;
                    BatchAction::Flush { batch: pending, trigger: FlushTrigger::TimedOut }
                } else if pending.len() + 1 == self.batch_size {
                    let ghost before = pending.deep_view();
                    pending.push(message);
                    assert(pending.deep_view() =~= before.push(message@));
                    BatchAction::Flush { batch: pending, trigger: FlushTrigger::SizeFull }
                } else {
                    let ghost before = pending.deep_view();
                    if pending.len() == 0 {
                        self.since = at;
                    }
                    pending.push(message);
                    assert(pending.deep_view() =~= before.push(message@));
                    self.batch = pending;
                    BatchAction::Wait
                }
            },
            BatchEvent::Tick { at } => {
                if self.batch.len() > 0 && self.idle_at(at) >= self.idle_timeout {
                    let flushed = self.take_batch();
                    BatchAction::Flush { batch: flushed, trigger: FlushTrigger::TimedOut }
                } else {
                    BatchAction::Wait
                }
            },
            BatchEvent::Closed => {
                let flushed = self.take_batch();
                self.terminated = true;
                if flushed.len() > 0 {
                    BatchAction::Flush { batch: flushed, trigger: FlushTrigger::Draining }
                } else {
                    BatchAction::Stop
                }
            },
        }
    }

    /// Hands the pending messages over and leaves nothing pending.
    fn take_batch(&mut self) -> (taken: Vec<JsonMessage>)
        ensures
            taken == old(self).batch,
            final(self).batch@ == Seq::<JsonMessage>::empty(),
            final(self).batch.deep_view() == Seq::<JsonMessageView>::empty(),
            final(self).batch_size == old(self).batch_size,
            final(self).idle_timeout == old(self).idle_timeout,
            final(self).since == old(self).since,
            final(self).terminated == old(self).terminated,
    {
        proof {
            use_type_invariant(&*self);
        }
        let mut taken: Vec<JsonMessage> = Vec::new();
        std::mem::swap(&mut self.batch, &mut taken);
        taken
    }

    /// How long the pending batch has been non-empty at instant `now`.
    fn idle_at(&self, now: u64) -> (idle: u64)
        ensures
            idle == self@.idle_time(now as nat),
    {
        if self.batch.len() > 0 && now >= self.since {
            now - self.since
        } else {
            0
        }
    }

    /// How long the driver may wait for a message before it has to report a
    /// tick: the rest of the idle timeout, or `None` while nothing is pending.
    pub fn time_to_deadline(&self, now: u64) -> (wait: Option<u64>)
        ensures
            self@.well_formed(),
            wait is Some <==> self@.time_to_deadline(now as nat) is Some,
            wait matches Some(millis) ==> self@.time_to_deadline(now as nat) == Some(millis as nat),
    {
        proof {
            use_type_invariant(self);
        }
        if self.batch.len() == 0 {
            None
        } else {
            let idle = self.idle_at(now);
            if idle >= self.idle_timeout {
                Some(0)
            } else {
                Some(self.idle_timeout - idle)
            }
        }
    }

    /// The number of pending messages.
    pub fn len(&self) -> (pending: usize)
        ensures
            pending == self@.batch.len(),
    {
        self.batch.len()
    }

    /// Whether nothing is pending.
    pub fn is_empty(&self) -> (empty: bool)
        ensures
            empty == (self@.batch.len() == 0),
    {
        self.batch.len() == 0
    }

    /// The size at which a batch is flushed.
    pub fn batch_size(&self) -> (size: usize)
        ensures
            size == self@.batch_size,
    {
        self.batch_size
    }

    /// The idle timeout in milliseconds.
    pub fn idle_timeout(&self) -> (timeout: u64)
        ensures
            timeout == self@.idle_timeout,
    {
        self.idle_timeout
    }

    /// Whether the upstream channel has closed.
    pub fn is_terminated(&self) -> (terminated: bool)
        ensures
            terminated == self@.terminated,
    {
        self.terminated
    }
}

/// The messages that an action hands over: the flushed batch, or none.
pub open spec fn flushed_by(action: BatchActionView) -> Seq<JsonMessageView> {
    match action {
        BatchActionView::Flush { batch, .. } => batch,
        _ => Seq::empty(),
    }
}

/// Between events the batch holds fewer messages than its size, and no event
/// changes that: the accumulator's states stay well-formed, and its size and
/// timeout never change.
pub proof fn batch_stays_bounded(state: AccumulatorView, event: BatchEventView)
    requires
        state.well_formed(),
    ensures
        state.next(event).0.well_formed(),
        state.next(event).0.batch.len() < state.batch_size,
        state.next(event).0.batch_size == state.batch_size,
        state.next(event).0.idle_timeout == state.idle_timeout,
{
}

/// While the channel is open, a message or a tick causes a flush exactly
/// when the batch reaches its size with that message, or has been non-empty
/// for the idle timeout or longer at the instant of the event. The timeout,
/// where it has run out, comes first and is named as the trigger.
pub proof fn flush_exactly_when_due(state: AccumulatorView, event: BatchEventView)
    requires
        state.well_formed(),
        !state.terminated,
        event !is Closed,
    ensures
        state.next(event).1 is Flush <==> (event is Message && state.batch.len() + 1
            == state.batch_size) || (state.batch.len() > 0 && state.idle_time(event.instant())
            >= state.idle_timeout),
        state.next(event).1 is Flush ==> (state.next(event).1->trigger == FlushTrigger::TimedOut
            <==> state.batch.len() > 0 && state.idle_time(event.instant())
            >= state.idle_timeout),
        state.next(event).1 is Flush ==> state.next(event).1->trigger != FlushTrigger::Draining,
        state.next(event).1 !is Stop,
{
}

/// The wait that [`AccumulatorView::time_to_deadline`] allows is exact: while
/// the clock does not run backwards, a tick after that wait flushes the
/// batch for its timeout, and a tick before it flushes nothing.
pub proof fn tick_at_deadline_flushes(state: AccumulatorView, now: nat, tick: nat)
    requires
        state.well_formed(),
        !state.terminated,
        state.batch.len() > 0,
        state.since->0 <= now <= tick,
    ensures
        state.time_to_deadline(now) is Some,
        tick - now >= state.time_to_deadline(now)->0 ==> state.next(
            BatchEventView::Tick { at: tick },
        ).1 == (BatchActionView::Flush { batch: state.batch, trigger: FlushTrigger::TimedOut }),
        tick - now < state.time_to_deadline(now)->0 ==> state.next(
            BatchEventView::Tick { at: tick },
        ) == (state, BatchActionView::Wait),
{
}

/// A message that arrives after the timeout has run out is handled as if the
/// timer had fired first: the batch is flushed for its timeout, as a tick at
/// the same instant would have flushed it, and the message is then taken
/// into the emptied accumulator.
pub proof fn late_message_is_tick_then_message(
    state: AccumulatorView,
    at: nat,
    message: JsonMessageView,
)
    requires
        state.well_formed(),
        !state.terminated,
        state.expired(at),
    ensures
        state.next(BatchEventView::Message { at, message }).1 == state.next(
            BatchEventView::Tick { at },
        ).1,
        state.next(BatchEventView::Message { at, message }).0 == state.next(
            BatchEventView::Tick { at },
        ).0.next(BatchEventView::Message { at, message }).0,
        state.next(BatchEventView::Tick { at }).0.next(BatchEventView::Message { at, message }).1
            is Wait,
{
    let ticked = state.next(BatchEventView::Tick { at }).0;
    assert(ticked.batch.push(message) =~= seq![message]);
}

/// No flush hands over an empty batch or one above the batch size; a batch
/// flushed for its size has exactly that size.
pub proof fn flushed_batch_is_bounded(state: AccumulatorView, event: BatchEventView)
    requires
        state.well_formed(),
    ensures
        state.next(event).1 matches BatchActionView::Flush { batch, trigger } ==> 0 < batch.len()
            <= state.batch_size && (trigger == FlushTrigger::SizeFull ==> batch.len()
            == state.batch_size),
{
}

/// A tick never flushes an empty batch, and leaves it empty.
pub proof fn timeout_alone_never_flushes_empty(state: AccumulatorView, at: nat)
    requires
        state.well_formed(),
        state.batch.len() == 0,
    ensures
        state.next(BatchEventView::Tick { at }).1 !is Flush,
        state.next(BatchEventView::Tick { at }).0 == state,
{
}

/// Nothing is lost, duplicated or reordered: what was pending, followed by
/// the message that an event brings, is what the action hands over followed
/// by what is pending afterwards.
pub proof fn messages_are_conserved(state: AccumulatorView, event: BatchEventView)
    requires
        state.well_formed(),
        !state.terminated,
    ensures
        flushed_by(state.next(event).1) + state.next(event).0.batch == (match event {
            BatchEventView::Message { message, .. } => state.batch.push(message),
            _ => state.batch,
        }),
{
}

/// Closing the channel ends the loop: what is pending is flushed once, as a
/// draining flush, and from then on every event is answered `Stop` and
/// changes nothing.
pub proof fn close_drains_then_stops(state: AccumulatorView, later: BatchEventView)
    requires
        state.well_formed(),
        !state.terminated,
    ensures
        state.next(BatchEventView::Closed).0.terminated,
        state.next(BatchEventView::Closed).0.batch.len() == 0,
        state.batch.len() > 0 ==> state.next(BatchEventView::Closed).1
            == (BatchActionView::Flush { batch: state.batch, trigger: FlushTrigger::Draining }),
        state.batch.len() == 0 ==> state.next(BatchEventView::Closed).1 is Stop,
        state.next(BatchEventView::Closed).0.next(later) == (
            state.next(BatchEventView::Closed).0,
            BatchActionView::Stop,
        ),
{
}

/// The messages that a sequence of events brings, in order of arrival.
pub open spec fn arrivals(events: Seq<BatchEventView>) -> Seq<JsonMessageView>
    decreases events.len(),
{
    if events.len() == 0 {
        Seq::empty()
    } else {
        arrivals(events.drop_last()) + (match events.last() {
            BatchEventView::Message { message, .. } => seq![message],
            _ => Seq::empty(),
        })
    }
}

/// Running the accumulator over a sequence of events: the state it ends in,
/// and the flushed batches laid end to end.
pub open spec fn run(state: AccumulatorView, events: Seq<BatchEventView>) -> (
    AccumulatorView,
    Seq<JsonMessageView>,
)
    decreases events.len(),
{
    if events.len() == 0 {
        (state, Seq::empty())
    } else {
        let (reached, flushed) = run(state, events.drop_last());
        let (after, action) = reached.next(events.last());
        (after, flushed + flushed_by(action))
    }
}

/// Over any run in which nothing follows the closing of the channel, every
/// message leaves in exactly one flush and in order of arrival: the flushed
/// batches laid end to end, followed by what is still pending, are the
/// messages that were pending at the start followed by those that arrived.
/// A run that ends with the closing leaves nothing pending.
pub proof fn every_message_is_flushed_once(state: AccumulatorView, events: Seq<BatchEventView>)
    requires
        state.well_formed(),
        !state.terminated,
        forall|i: int| 0 <= i < events.len() - 1 ==> (#[trigger] events[i]) !is Closed,
    ensures
        run(state, events).0.well_formed(),
        run(state, events).1 + run(state, events).0.batch == state.batch + arrivals(events),
        run(state, events).0.terminated <==> events.len() > 0 && events.last() is Closed,
        events.len() > 0 && events.last() is Closed ==> run(state, events).1 == state.batch
            + arrivals(events),
    decreases events.len(),
{
    if events.len() > 0 {
        let earlier = events.drop_last();
        every_message_is_flushed_once(state, earlier);
        let reached = run(state, earlier).0;
        messages_are_conserved(reached, events.last());
        batch_stays_bounded(reached, events.last());
        let brought = match events.last() {
            BatchEventView::Message { message, .. } => seq![message],
            _ => Seq::<JsonMessageView>::empty(),
        };
        assert((state.batch + arrivals(earlier)) + brought =~= state.batch + arrivals(events));
    }
}

} // verus!
