//! The asynchronous stream of events.
//!
//! A stream is polled by a scheduler. Within one poll it asks its driver for
//! a receive attempt, and, where that found nothing, clears the readiness
//! slot and asks for a readiness check; only when that check finds nothing
//! either does the poll end without an event. The driver makes the calls and
//! hands each result back; the stream decides what follows.

use vstd::prelude::*;
use crate::bridge::{Registration, Slot};
use crate::device::{Device, DeviceView};
use crate::error::Error;
use crate::event::{Event, EventView};
use crate::monitor::device_view;
use crate::socket::{lemma_attached, MonitorSocket, MonitorSocketView};
use vstd::std_specs::convert::TryFromSpecImpl;

verus! {

/// What one receive attempt gave.
#[derive(Debug)]
pub enum Received {
    /// A device that the kernel reported.
    Device(Device),
    /// Nothing is queued.
    WouldBlock,
    /// The attempt failed, with this error number if one was at hand.
    Failed(Option<i32>),
    /// The channel is gone.
    Closed,
}

/// What a [`Received`] is, as plain values.
pub enum ReceivedView {
    Device(DeviceView),
    WouldBlock,
    Failed(Option<i32>),
    Closed,
}

impl View for Received {
    type V = ReceivedView;

    open spec fn view(&self) -> ReceivedView {
        match *self {
            Received::Device(d) => ReceivedView::Device(d@),
            Received::WouldBlock => ReceivedView::WouldBlock,
            Received::Failed(code) => ReceivedView::Failed(code),
            Received::Closed => ReceivedView::Closed,
        }
    }
}

impl ReceivedView {
    /// What the result of a receive attempt on the native monitor says: the
    /// device that it gave; that nothing is queued; that the channel has
    /// ended; or a failure, with its error number where the error carries
    /// one.
    pub open spec fn of(outcome: Result<DeviceView, Error>) -> ReceivedView {
        match outcome {
            Ok(device) => ReceivedView::Device(device),
            Err(Error::WouldBlock) => ReceivedView::WouldBlock,
            Err(Error::Closed) => ReceivedView::Closed,
            Err(Error::Receive(code)) => ReceivedView::Failed(code),
            Err(_) => ReceivedView::Failed(None),
        }
    }

    /// The event that a receive attempt gave, if it gave a device.
    pub open spec fn event(self) -> Option<EventView> {
        match self {
            ReceivedView::Device(device) => Some(EventView::decode(device)),
            _ => None,
        }
    }
}

/// What an optional event is, as plain values.
pub open spec fn event_view(event: Option<Event>) -> Option<EventView> {
    match event {
        Some(e) => Some(e@),
        None => None,
    }
}

impl Received {
    /// Tells the empty queue from the failures in the result of a receive
    /// attempt on the native monitor.
    pub fn of(outcome: Result<Device, Error>) -> (r: Received)
        ensures
            r@ == ReceivedView::of(device_view(outcome)),
    {
        match outcome {
            Ok(device) => Received::Device(device),
            Err(Error::WouldBlock) => Received::WouldBlock,
            Err(Error::Closed) => Received::Closed,
            Err(Error::Receive(code)) => Received::Failed(code),
            Err(_) => Received::Failed(None),
        }
    }

    /// The event of a receive attempt outside a stream: a device is decoded,
    /// and everything else gives no event.
    pub fn into_event(self) -> (event: Option<Event>)
        ensures
            event_view(event) == self@.event(),
    {
        match self {
            Received::Device(device) => Some(Event::decode(device)),
            _ => None,
        }
    }
}

/// What one readiness check gave.
#[derive(Clone, Copy, Debug, PartialEq, Eq, Structural)]
pub enum Readiness {
    /// No report since the slot was cleared: the consumer will be woken.
    Pending,
    /// The socket was reported readable.
    Ready,
    /// The readiness facility failed, with this error number if one was at
    /// hand.
    Failed(Option<i32>),
}

/// What one poll hands to the consumer.
#[derive(Debug)]
pub enum Outcome {
    /// No event now. The consumer is suspended until the socket is reported
    /// readable.
    Pending,
    /// One event.
    Event(Event),
    /// The stream has failed and has ended.
    Error(Error),
    /// The stream has ended.
    End,
}

/// What an [`Outcome`] is, as plain values.
pub enum OutcomeView {
    Pending,
    Event(EventView),
    Error(Error),
    End,
}

impl View for Outcome {
    type V = OutcomeView;

    open spec fn view(&self) -> OutcomeView {
        match *self {
            Outcome::Pending => OutcomeView::Pending,
            Outcome::Event(e) => OutcomeView::Event(e@),
            Outcome::Error(e) => OutcomeView::Error(e),
            Outcome::End => OutcomeView::End,
        }
    }
}

/// What the driver of a stream is to do next.
#[derive(Debug)]
pub enum Step {
    /// Make one receive attempt and report it with
    /// [`AsyncMonitorSocket::received`].
    Receive,
    /// Check the readiness of the socket, so that the consumer is woken by
    /// the next report, and report the result with
    /// [`AsyncMonitorSocket::readiness`].
    PollReady,
    /// End the poll with this outcome.
    Yield(Outcome),
}

/// What a [`Step`] is, as plain values.
pub enum StepView {
    Receive,
    PollReady,
    Yield(OutcomeView),
}

impl View for Step {
    type V = StepView;

    open spec fn view(&self) -> StepView {
        match *self {
            Step::Receive => StepView::Receive,
            Step::PollReady => StepView::PollReady,
            Step::Yield(o) => StepView::Yield(o@),
        }
    }
}

/// What a stream waits for.
#[derive(Clone, Copy, Debug, PartialEq, Eq, Structural)]
pub enum Phase {
    /// For the consumer to poll.
    Idle,
    /// For the result of a receive attempt.
    Receiving,
    /// For the result of the readiness check that follows a receive attempt
    /// which found nothing.
    Checking,
}

/// Whether a stream goes on.
#[derive(Clone, Copy, Debug, PartialEq, Eq, Structural)]
pub enum Fate {
    /// It does.
    Live,
    /// It has ended cleanly.
    Ended,
    /// It has ended with this error.
    Failed(Error),
}

impl Fate {
    /// What every poll of a stream that has ended gives.
    pub open spec fn outcome(self) -> OutcomeView {
        match self {
            Fate::Failed(e) => OutcomeView::Error(e),
            _ => OutcomeView::End,
        }
    }
}

/// Something that happens to a stream.
pub enum Input {
    /// The consumer polls.
    Resumed,
    /// The driver reports a receive attempt.
    Received(ReceivedView),
    /// The driver reports a readiness check.
    Readiness(Readiness),
}

/// What a stream is, as plain values.
pub struct StreamState {
    /// The socket, whose bridge holds the one readiness slot of the channel.
    pub socket: MonitorSocketView,
    pub phase: Phase,
    pub fate: Fate,
}

impl StreamState {
    /// The stream of a socket before its first poll.
    pub open spec fn initial(socket: MonitorSocketView) -> StreamState {
        StreamState { socket, phase: Phase::Idle, fate: Fate::Live }
    }

    /// The readiness slot of the socket.
    pub open spec fn slot(self) -> Slot {
        self.socket.bridge.slot
    }

    /// The stream in another phase and with its slot in the state `slot`.
    pub open spec fn with_slot(self, slot: Slot, phase: Phase) -> StreamState {
        StreamState { socket: self.socket.with_slot(slot), phase, ..self }
    }

    /// What holds of every stream: one that has ended waits for nothing, one
    /// that waits for a readiness check has a cleared slot, and an error that
    /// ends a stream is never the signal that nothing is queued.
    pub open spec fn wf(self) -> bool {
        &&& self.fate != Fate::Live ==> self.phase == Phase::Idle
        &&& self.phase == Phase::Checking ==> self.slot() == Slot::Pending
        &&& self.fate matches Fate::Failed(e) ==> e.is_fatal()
    }

    pub open spec fn is_live(self) -> bool {
        self.fate == Fate::Live
    }

    /// The stream after the poll has ended with its fate sealed.
    pub open spec fn ended(self, fate: Fate) -> StreamState {
        StreamState { phase: Phase::Idle, fate, ..self }
    }

    /// The stream in another phase.
    pub open spec fn in_phase(self, phase: Phase) -> StreamState {
        StreamState { phase, ..self }
    }

    /// The stream after `input`.
    ///
    /// A stream that has ended stays as it is. A live stream takes every
    /// input for what it is, asked for or not: a poll starts with a receive
    /// attempt; a device ends the poll; an empty queue clears the slot and
    /// asks for a readiness check; a failure or the end of the channel seals
    /// the fate. A report that the socket is readable sets the slot. Where
    /// nothing was reported, the poll ends pending if the check followed an
    /// empty queue, and turns to a receive attempt otherwise, so that no poll
    /// ends pending before a receive attempt has found the queue empty.
    pub open spec fn next(self, input: Input) -> StreamState {
        if !self.is_live() {
            self
        } else {
            match input {
                Input::Resumed => self.in_phase(Phase::Receiving),
                Input::Received(ReceivedView::Device(_)) => self.in_phase(Phase::Idle),
                Input::Received(ReceivedView::WouldBlock) => self.with_slot(
                    Slot::Pending,
                    Phase::Checking,
                ),
                Input::Received(ReceivedView::Failed(code)) => self.ended(
                    Fate::Failed(Error::Receive(code)),
                ),
                Input::Received(ReceivedView::Closed) => self.ended(Fate::Ended),
                Input::Readiness(Readiness::Ready) => self.with_slot(
                    Slot::ReadyUnconsumed,
                    Phase::Receiving,
                ),
                Input::Readiness(Readiness::Failed(code)) => self.ended(
                    Fate::Failed(Error::Registration(code)),
                ),
                Input::Readiness(Readiness::Pending) => if self.phase == Phase::Checking {
                    self.in_phase(Phase::Idle)
                } else {
                    self.in_phase(Phase::Receiving)
                },
            }
        }
    }

    /// What the driver is told after `input`.
    pub open spec fn step(self, input: Input) -> StepView {
        if !self.is_live() {
            StepView::Yield(self.fate.outcome())
        } else {
            match input {
                Input::Resumed => StepView::Receive,
                Input::Received(ReceivedView::Device(d)) => StepView::Yield(
                    OutcomeView::Event(EventView::decode(d)),
                ),
                Input::Received(ReceivedView::WouldBlock) => StepView::PollReady,
                Input::Received(ReceivedView::Failed(code)) => StepView::Yield(
                    OutcomeView::Error(Error::Receive(code)),
                ),
                Input::Received(ReceivedView::Closed) => StepView::Yield(OutcomeView::End),
                Input::Readiness(Readiness::Ready) => StepView::Receive,
                Input::Readiness(Readiness::Failed(code)) => StepView::Yield(
                    OutcomeView::Error(Error::Registration(code)),
                ),
                Input::Readiness(Readiness::Pending) => if self.phase == Phase::Checking {
                    StepView::Yield(OutcomeView::Pending)
                } else {
                    StepView::Receive
                },
            }
        }
    }
}

/// A notification socket as a stream of events, for one consumer.
#[derive(Debug)]
pub struct AsyncMonitorSocket {
    socket: MonitorSocket,
    phase: Phase,
    fate: Fate,
}

impl View for AsyncMonitorSocket {
    type V = StreamState;

    closed spec fn view(&self) -> StreamState {
        StreamState { socket: self.socket@, phase: self.phase, fate: self.fate }
    }
}

impl AsyncMonitorSocket {
    /// What [`AsyncMonitorSocket::new`] makes of a socket.
    pub closed spec fn opened(monitor: MonitorSocket) -> Result<AsyncMonitorSocket, Error> {
        if monitor@.bridge.is_registered() {
            Err(Error::AlreadyRegistered)
        } else {
            Ok(
                AsyncMonitorSocket {
                    socket: monitor.attached(),
                    phase: Phase::Idle,
                    fate: Fate::Live,
                },
            )
        }
    }

    #[verifier::type_invariant]
    spec fn well_formed(self) -> bool {
        self@.wf()
    }

    /// Makes a stream of a wrapped socket and registers the socket with the
    /// scheduler that will drive the stream. A socket that is registered
    /// already, with a multiplexer or with another stream, is refused.
    pub fn new(monitor: MonitorSocket) -> (r: Result<AsyncMonitorSocket, Error>)
        ensures
            r == Self::opened(monitor),
            match r {
                Ok(stream) => !monitor@.bridge.is_registered() && stream@ == StreamState::initial(
                    monitor@.with_bridge(monitor@.bridge.registered(Registration::Scheduler)),
                ),
                Err(e) => monitor@.bridge.is_registered() && e == Error::AlreadyRegistered,
            },
    {
        proof {
            lemma_attached(monitor);
        }
        let mut socket = monitor;
        match socket.attach() {
            Err(e) => Err(e),
            Ok(()) => Ok(AsyncMonitorSocket { socket, phase: Phase::Idle, fate: Fate::Live }),
        }
    }

    /// The socket of the stream.
    pub fn get_ref(&self) -> (socket: &MonitorSocket)
        ensures
            socket@ == self@.socket,
    {
        &self.socket
    }

    /// What the stream waits for.
    pub fn phase(&self) -> (phase: Phase)
        ensures
            phase == self@.phase,
            self@.wf(),
    {
        proof {
            use_type_invariant(self);
        }
        self.phase
    }

    /// Whether the stream goes on, and how it has ended if it does not.
    pub fn fate(&self) -> (fate: Fate)
        ensures
            fate == self@.fate,
            self@.wf(),
    {
        proof {
            use_type_invariant(self);
        }
        self.fate
    }

    /// The readiness slot of the socket.
    pub fn poll_ready(&self) -> (slot: Slot)
        ensures
            slot == self@.slot(),
            self@.wf(),
    {
        proof {
            use_type_invariant(self);
        }
        self.socket.poll_ready()
    }

    /// Ends the stream and hands back its socket, which is registered with
    /// nobody any more.
    pub fn into_inner(self) -> (socket: MonitorSocket)
        ensures
            socket@ == self@.socket.with_bridge(self@.socket.bridge.deregistered()),
    {
        let mut socket = self.socket;
        socket.deregister();
        socket
    }

    /// What a poll of a stream that has ended gives.
    fn terminal(&self) -> (step: Step)
        requires
            !self@.is_live(),
        ensures
            step@ == StepView::Yield(self@.fate.outcome()),
    {
        match self.fate {
            Fate::Failed(e) => Step::Yield(Outcome::Error(e)),
            _ => Step::Yield(Outcome::End),
        }
    }

    /// Seals the fate of the stream and ends the poll.
    fn end(&mut self, fate: Fate)
        requires
            fate != Fate::Live,
            fate matches Fate::Failed(e) ==> e.is_fatal(),
        ensures
            final(self)@ == old(self)@.ended(fate),
    {
        proof {
            use_type_invariant(&*self);
        }
        self.phase = Phase::Idle;
        self.fate = fate;
    }

    /// The consumer polls the stream. A live stream starts the poll with a
    /// receive attempt; one that has ended gives what it ended with, and
    /// asks for nothing.
    pub fn poll_next(&mut self) -> (step: Step)
        ensures
            final(self)@ == old(self)@.next(Input::Resumed),
            step@ == old(self)@.step(Input::Resumed),
            final(self)@.wf(),
    {
        proof {
            use_type_invariant(&*self);
        }
        match self.fate {
            Fate::Live => {
                self.phase = Phase::Receiving;
                Step::Receive
            },
            _ => self.terminal(),
        }
    }

    /// The driver reports a receive attempt. A device is decoded and ends
    /// the poll as an event. An empty queue is never handed on: the slot is
    /// cleared and a readiness check is asked for. A failure, or the end of
    /// the channel, ends the stream.
    pub fn received(&mut self, outcome: Received) -> (step: Step)
        ensures
            final(self)@ == old(self)@.next(Input::Received(outcome@)),
            step@ == old(self)@.step(Input::Received(outcome@)),
            final(self)@.wf(),
    {
        proof {
            use_type_invariant(&*self);
        }
        match self.fate {
            Fate::Live => {},
            _ => {
                return self.terminal();
            },
        }
        match outcome {
            Received::Device(device) => {
                self.phase = Phase::Idle;
                Step::Yield(Outcome::Event(Event::decode(device)))
            },
            Received::WouldBlock => {
                self.socket = self.socket.with_slot(Slot::Pending);
                self.phase = Phase::Checking;
                Step::PollReady
            },
            Received::Failed(code) => {
                self.end(Fate::Failed(Error::Receive(code)));
                Step::Yield(Outcome::Error(Error::Receive(code)))
            },
            Received::Closed => {
                self.end(Fate::Ended);
                Step::Yield(Outcome::End)
            },
        }
    }

    /// The driver reports a readiness check. Where the socket was reported
    /// readable, another receive attempt follows at once. Where nothing was
    /// reported after a receive attempt found the queue empty, the poll ends
    /// pending, with the slot cleared. A failure of the facility ends the
    /// stream.
    pub fn readiness(&mut self, report: Readiness) -> (step: Step)
        ensures
            final(self)@ == old(self)@.next(Input::Readiness(report)),
            step@ == old(self)@.step(Input::Readiness(report)),
            final(self)@.wf(),
    {
        proof {
            use_type_invariant(&*self);
        }
        match self.fate {
            Fate::Live => {},
            _ => {
                return self.terminal();
            },
        }
        match report {
            Readiness::Ready => {
                self.phase = Phase::Receiving;
                self.socket = self.socket.with_slot(Slot::ReadyUnconsumed);
                Step::Receive
            },
            Readiness::Failed(code) => {
                self.end(Fate::Failed(Error::Registration(code)));
                Step::Yield(Outcome::Error(Error::Registration(code)))
            },
            Readiness::Pending => {
                match self.phase {
                    Phase::Checking => {
                        self.phase = Phase::Idle;
                        Step::Yield(Outcome::Pending)
                    },
                    _ => {
                        self.phase = Phase::Receiving;
                        Step::Receive
                    },
                }
            },
        }
    }
}

impl TryFrom<MonitorSocket> for AsyncMonitorSocket {
    type Error = Error;

    /// The same as [`AsyncMonitorSocket::new`].
    fn try_from(monitor: MonitorSocket) -> (r: Result<AsyncMonitorSocket, Error>) {
        AsyncMonitorSocket::new(monitor)
    }
}

impl TryFromSpecImpl<MonitorSocket> for AsyncMonitorSocket {
    open spec fn obeys_try_from_spec() -> bool {
        true
    }

    open spec fn try_from_spec(monitor: MonitorSocket) -> Result<AsyncMonitorSocket, Error> {
        AsyncMonitorSocket::opened(monitor)
    }
}

} // verus!
