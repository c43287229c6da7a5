//! A stream of devices that checks readiness first.
//!
//! This stream serves a reactor that keeps the readiness of a socket and
//! must be asked before the socket is touched. A poll asks for a readiness
//! check, and a receive attempt follows only where the socket was reported
//! readable. The stream hands out devices as they come, undecoded.

use vstd::prelude::*;
use crate::bridge::{Registration, Slot};
use crate::device::{Device, DeviceView};
use crate::error::Error;
use crate::context::Context;
use crate::monitor::{
    device_view, rule_views, Activation, ActivationView, DeviceType, Monitor as NativeMonitor,
    MonitorName, MonitorView, Rule, RuleView, Subsystem,
};
use crate::socket::{MonitorSocket, MonitorSocketView};
use crate::stream::{Fate, Phase, Readiness};

verus! {

/// Collects match rules for a monitor.
#[derive(Debug)]
pub struct Builder {
    match_filters: Vec<Rule>,
}

impl View for Builder {
    type V = Seq<RuleView>;

    /// The rules, in the order in which they were added.
    closed spec fn view(&self) -> Seq<RuleView> {
        rule_views(self.match_filters@)
    }
}

impl Builder {
    /// A builder without rules.
    pub fn new() -> (b: Builder)
        ensures
            b@ == Seq::<RuleView>::empty(),
    {
        let b = Builder { match_filters: Vec::new() };
        assert(b@ =~= Seq::<RuleView>::empty());
        b
    }

    /// Adds a rule after those that are there.
    pub fn add_match(self, subsystem: Subsystem, devtype: DeviceType) -> (b: Builder)
        ensures
            b@ == self@.push(RuleView::SubsystemDevtype(subsystem@, devtype@)),
    {
        let mut match_filters = self.match_filters;
        let ghost before = match_filters@;
        match_filters.push(Rule::SubsystemDevtype(subsystem, devtype));
        assert(rule_views(match_filters@) =~= rule_views(before).push(
            RuleView::SubsystemDevtype(subsystem@, devtype@),
        ));
        Builder { match_filters }
    }

    /// Starts to set up the monitor for the source `name`. The caller has
    /// made the native monitor in `context`; `handle` is its token and `fd`
    /// the descriptor of its socket. The native library gives zero where it
    /// could not make a monitor, and nothing is built on that. The monitor is
    /// to be given every rule, in the order in which the rules were added,
    /// and then told to receive; the first refusal ends the building.
    pub fn build(self, context: &Context, name: MonitorName, handle: usize, fd: i32) -> (activation:
        Activation)
        requires
            handle != 0,
        ensures
            activation@ == (ActivationView {
                monitor: MonitorView {
                    handle,
                    context: context@,
                    source: name@,
                    fd,
                    filters: Seq::empty(),
                    receiving: false,
                },
                pending: self@,
            }),
    {
        Activation::begin(
            NativeMonitor::new_from_netlink(context, name, handle, fd),
            self.match_filters,
        )
    }
}

/// What one poll of a [`Monitor`] hands to the consumer.
#[derive(Debug)]
pub enum Async {
    /// No device now. The consumer is woken when the socket is reported
    /// readable.
    NotReady,
    /// One device, or the end of the stream.
    Ready(Option<Device>),
}

/// What an [`Async`] is, as plain values.
pub enum AsyncView {
    NotReady,
    Ready(Option<DeviceView>),
}

impl View for Async {
    type V = AsyncView;

    open spec fn view(&self) -> AsyncView {
        match *self {
            Async::NotReady => AsyncView::NotReady,
            Async::Ready(Some(d)) => AsyncView::Ready(Some(d@)),
            Async::Ready(None) => AsyncView::Ready(None),
        }
    }
}

/// What the driver of a [`Monitor`] is to do next.
#[derive(Debug)]
pub enum Ask {
    /// Check the readiness of the socket, so that the consumer is woken by
    /// the next report, and report the result with [`Monitor::readiness`].
    PollReady,
    /// Make one receive attempt and report it with [`Monitor::received`].
    Receive,
    /// End the poll with this.
    Return(Result<Async, Error>),
}

/// What an [`Ask`] is, as plain values.
pub enum AskView {
    PollReady,
    Receive,
    Return(Result<AsyncView, Error>),
}

impl View for Ask {
    type V = AskView;

    open spec fn view(&self) -> AskView {
        match *self {
            Ask::PollReady => AskView::PollReady,
            Ask::Receive => AskView::Receive,
            Ask::Return(Ok(a)) => AskView::Return(Ok(a@)),
            Ask::Return(Err(e)) => AskView::Return(Err(e)),
        }
    }
}

/// Something that happens to a [`Monitor`].
pub enum Input {
    /// The consumer polls.
    Polled,
    /// The driver reports a readiness check.
    Readiness(Readiness),
    /// The driver reports a receive attempt: a device, or why there is none.
    Received(Result<DeviceView, Error>),
}

/// What every poll of a stream that has ended gives.
pub open spec fn ended_with(fate: Fate) -> AskView {
    match fate {
        Fate::Failed(e) => AskView::Return(Err(e)),
        _ => AskView::Return(Ok(AsyncView::Ready(None))),
    }
}

/// What a [`Monitor`] is, as plain values.
pub struct MonitorState {
    /// The socket, whose bridge holds the one readiness slot of the channel.
    pub socket: MonitorSocketView,
    pub phase: Phase,
    pub fate: Fate,
}

impl MonitorState {
    /// The stream of a socket before its first poll.
    pub open spec fn initial(socket: MonitorSocketView) -> MonitorState {
        MonitorState { socket, phase: Phase::Idle, fate: Fate::Live }
    }

    /// The readiness slot of the socket.
    pub open spec fn slot(self) -> Slot {
        self.socket.bridge.slot
    }

    pub open spec fn is_live(self) -> bool {
        self.fate == Fate::Live
    }

    /// What holds of every stream: one that has ended waits for nothing,
    /// and the error that ended it is neither the signal that nothing is
    /// queued nor the end of the channel, which ends a stream cleanly.
    pub open spec fn wf(self) -> bool {
        &&& self.fate != Fate::Live ==> self.phase == Phase::Idle
        &&& self.fate matches Fate::Failed(e) ==> e != Error::WouldBlock && e != Error::Closed
    }

    /// The stream in another phase and with its slot in the state `slot`.
    pub open spec fn with_slot(self, slot: Slot, phase: Phase) -> MonitorState {
        MonitorState { socket: self.socket.with_slot(slot), phase, ..self }
    }

    /// The stream after it has ended.
    pub open spec fn ended(self, fate: Fate) -> MonitorState {
        MonitorState { phase: Phase::Idle, fate, ..self }
    }

    /// The stream after `input`.
    ///
    /// A stream that has ended stays as it is. On a live one, a poll asks
    /// for a readiness check. A readiness report sets or clears the slot;
    /// where the socket was reported readable a receive attempt follows,
    /// where it was not the poll ends. A device ends the poll. An empty
    /// queue clears the slot and asks for another readiness check. The end
    /// of the channel ends the stream cleanly, and every other failure ends
    /// it with that failure.
    pub open spec fn next(self, input: Input) -> MonitorState {
        if !self.is_live() {
            self
        } else {
            match input {
                Input::Polled => MonitorState { phase: Phase::Checking, ..self },
                Input::Readiness(Readiness::Pending) => self.with_slot(Slot::Pending, Phase::Idle),
                Input::Readiness(Readiness::Ready) => self.with_slot(
                    Slot::ReadyUnconsumed,
                    Phase::Receiving,
                ),
                Input::Readiness(Readiness::Failed(code)) => self.ended(
                    Fate::Failed(Error::Registration(code)),
                ),
                Input::Received(Ok(_)) => MonitorState { phase: Phase::Idle, ..self },
                Input::Received(Err(e)) => if e == Error::WouldBlock {
                    self.with_slot(Slot::Pending, Phase::Checking)
                } else if e == Error::Closed {
                    self.ended(Fate::Ended)
                } else {
                    self.ended(Fate::Failed(e))
                },
            }
        }
    }

    /// What the driver is told after `input`.
    pub open spec fn ask(self, input: Input) -> AskView {
        if !self.is_live() {
            ended_with(self.fate)
        } else {
            match input {
                Input::Polled => AskView::PollReady,
                Input::Readiness(Readiness::Pending) => AskView::Return(Ok(AsyncView::NotReady)),
                Input::Readiness(Readiness::Ready) => AskView::Receive,
                Input::Readiness(Readiness::Failed(code)) => AskView::Return(
                    Err(Error::Registration(code)),
                ),
                Input::Received(Ok(d)) => AskView::Return(Ok(AsyncView::Ready(Some(d)))),
                Input::Received(Err(e)) => if e == Error::WouldBlock {
                    AskView::PollReady
                } else if e == Error::Closed {
                    AskView::Return(Ok(AsyncView::Ready(None)))
                } else {
                    AskView::Return(Err(e))
                },
            }
        }
    }
}

/// A notification socket as a stream of devices, for one consumer.
#[derive(Debug)]
pub struct Monitor {
    io: MonitorSocket,
    phase: Phase,
    fate: Fate,
}

impl View for Monitor {
    type V = MonitorState;

    closed spec fn view(&self) -> MonitorState {
        MonitorState { socket: self.io@, phase: self.phase, fate: self.fate }
    }
}

impl Monitor {
    #[verifier::type_invariant]
    spec fn well_formed(self) -> bool {
        self@.wf()
    }

    /// Makes a stream of a wrapped socket and registers the socket with the
    /// reactor that will drive the stream. A socket that is registered
    /// already is refused.
    pub fn new(monitor: MonitorSocket) -> (r: Result<Monitor, Error>)
        ensures
            match r {
                Ok(stream) => !monitor@.bridge.is_registered() && stream@ == MonitorState::initial(
                    monitor@.with_bridge(monitor@.bridge.registered(Registration::Scheduler)),
                ),
                Err(e) => monitor@.bridge.is_registered() && e == Error::AlreadyRegistered,
            },
    {
        let mut io = monitor;
        match io.attach() {
            Err(e) => Err(e),
            Ok(()) => Ok(Monitor { io, phase: Phase::Idle, fate: Fate::Live }),
        }
    }

    /// The socket of the stream.
    pub fn get_ref(&self) -> (socket: &MonitorSocket)
        ensures
            socket@ == self@.socket,
    {
        &self.io
    }

    /// What the stream waits for.
    pub fn phase(&self) -> (phase: Phase)
        ensures
            phase == self@.phase,
            self@.wf(),
    {
        proof {
            use_type_invariant(self);
        }
        self.phase
    }

    /// Whether the stream goes on, and how it has ended if it does not.
    pub fn fate(&self) -> (fate: Fate)
        ensures
            fate == self@.fate,
            self@.wf(),
    {
        proof {
            use_type_invariant(self);
        }
        self.fate
    }

    /// What a poll of a stream that has ended gives.
    fn terminal(&self) -> (ask: Ask)
        requires
            !self@.is_live(),
        ensures
            ask@ == ended_with(self@.fate),
    {
        match self.fate {
            Fate::Failed(e) => Ask::Return(Err(e)),
            _ => Ask::Return(Ok(Async::Ready(None))),
        }
    }

    /// Ends the stream.
    fn end(&mut self, fate: Fate)
        requires
            fate != Fate::Live,
            fate matches Fate::Failed(e) ==> e != Error::WouldBlock && e != Error::Closed,
        ensures
            final(self)@ == old(self)@.ended(fate),
    {
        proof {
            use_type_invariant(&*self);
        }
        self.phase = Phase::Idle;
        self.fate = fate;
    }

    /// The consumer polls the stream. A live stream asks for a readiness
    /// check before anything else; one that has ended gives what it ended
    /// with.
    pub fn poll_receive(&mut self) -> (ask: Ask)
        ensures
            final(self)@ == old(self)@.next(Input::Polled),
            ask@ == old(self)@.ask(Input::Polled),
            final(self)@.wf(),
    {
        proof {
            use_type_invariant(&*self);
        }
        match self.fate {
            Fate::Live => {
                self.phase = Phase::Checking;
                Ask::PollReady
            },
            _ => self.terminal(),
        }
    }

    /// The driver reports a readiness check. A socket that was reported
    /// readable is received from; where nothing was reported the poll ends
    /// without a receive attempt. A failure of the reactor ends the stream.
    pub fn readiness(&mut self, report: Readiness) -> (ask: Ask)
        ensures
            final(self)@ == old(self)@.next(Input::Readiness(report)),
            ask@ == old(self)@.ask(Input::Readiness(report)),
            final(self)@.wf(),
    {
        proof {
            use_type_invariant(&*self);
        }
        match self.fate {
            Fate::Live => {},
            _ => {
                return self.terminal();
            },
        }
        match report {
            Readiness::Pending => {
                self.io = self.io.with_slot(Slot::Pending);
                self.phase = Phase::Idle;
                Ask::Return(Ok(Async::NotReady))
            },
            Readiness::Ready => {
                self.io = self.io.with_slot(Slot::ReadyUnconsumed);
                self.phase = Phase::Receiving;
                Ask::Receive
            },
            Readiness::Failed(code) => {
                self.end(Fate::Failed(Error::Registration(code)));
                Ask::Return(Err(Error::Registration(code)))
            },
        }
    }

    /// The driver reports a receive attempt. A device ends the poll. An
    /// empty queue is never handed on: the slot is cleared and the reactor is
    /// asked again. The end of the channel ends the stream cleanly, and
    /// every other error ends it with that error.
    pub fn received(&mut self, outcome: Result<Device, Error>) -> (ask: Ask)
        ensures
            final(self)@ == old(self)@.next(Input::Received(device_view(outcome))),
            ask@ == old(self)@.ask(Input::Received(device_view(outcome))),
            final(self)@.wf(),
    {
        proof {
            use_type_invariant(&*self);
        }
        match self.fate {
            Fate::Live => {},
            _ => {
                return self.terminal();
            },
        }
        match outcome {
            Ok(device) => {
                self.phase = Phase::Idle;
                Ask::Return(Ok(Async::Ready(Some(device))))
            },
            Err(Error::WouldBlock) => {
                self.io = self.io.with_slot(Slot::Pending);
                self.phase = Phase::Checking;
                Ask::PollReady
            },
            Err(Error::Closed) => {
                self.end(Fate::Ended);
                Ask::Return(Ok(Async::Ready(None)))
            },
            Err(e) => {
                self.end(Fate::Failed(e));
                Ask::Return(Err(e))
            },
        }
    }
}

/// A receive attempt is asked for in one way only: the stream is live and
/// the socket has just been reported readable. So the socket is never
/// touched on a poll that finds it not readable.
pub proof fn law_receive_follows_a_ready_report(s: MonitorState, input: Input)
    requires
        s.ask(input) == AskView::Receive,
    ensures
        s.is_live(),
        input == Input::Readiness(Readiness::Ready),
        s.next(input).slot() == Slot::ReadyUnconsumed,
{
}

/// An empty queue is never handed to the consumer: its report clears the
/// slot and asks the reactor again, and no poll ends with the error that
/// stands for it.
pub proof fn law_empty_queue_is_absorbed(s: MonitorState, input: Input)
    requires
        s.wf(),
    ensures
        s.next(input).wf(),
        s.is_live() ==> s.ask(Input::Received(Err(Error::WouldBlock))) == AskView::PollReady
            && s.next(Input::Received(Err(Error::WouldBlock))).slot() == Slot::Pending,
        s.ask(input) != AskView::Return(Err(Error::WouldBlock)),
        s.ask(input) == AskView::Return(Ok(AsyncView::NotReady)) ==> s.next(input).slot()
            == Slot::Pending,
{
}

/// A stream that has ended stays as it is, and answers everything with what
/// it ended with; and a stream ends with the first error or the first end of
/// the channel that it hands to the consumer.
pub proof fn law_end_is_final(s: MonitorState, input: Input, later: Input)
    requires
        s.wf(),
    ensures
        !s.is_live() ==> s.next(input) == s && s.ask(input) == ended_with(s.fate),
        s.ask(input) matches AskView::Return(Err(e)) ==> s.next(input).fate == Fate::Failed(e)
            && s.next(input).ask(later) == s.ask(input) && s.next(input).next(later) == s.next(
            input,
        ),
        s.ask(input) == AskView::Return(Ok(AsyncView::Ready(None))) ==> s.next(input).fate
            == Fate::Ended && s.next(input).ask(later) == s.ask(input) && s.next(input).next(later)
            == s.next(input),
{
}

} // verus!
