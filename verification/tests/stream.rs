//! The stream of events, driven against a kernel that is played from a
//! script.

use std::collections::VecDeque;

use tokio_udev::bridge::{Registration, Slot, Token};
use tokio_udev::device::Device;
use tokio_udev::error::Error;
use tokio_udev::event::EventType;
use tokio_udev::flags::{FlagBits, FlagSetup, SetupStep};
use tokio_udev::socket::MonitorSocket;
use tokio_udev::stream::{AsyncMonitorSocket, Fate, Outcome, Phase, Readiness, Received, Step};

fn wrapped(fd: i32) -> MonitorSocket {
    let bits = FlagBits { close_on_exec: 1, non_blocking: 0o4000 };
    let setup = match FlagSetup::begin(fd, bits).advance(1) {
        SetupStep::Call(next) => next,
        _ => panic!("the status flags are still to be read"),
    };
    match setup.advance(0o4000) {
        SetupStep::Done(socket) => socket,
        _ => panic!("both flags are set"),
    }
}

fn stream_on(fd: i32) -> AsyncMonitorSocket {
    AsyncMonitorSocket::new(wrapped(fd)).expect("a fresh socket is free")
}

fn usb_device(handle: usize, action: &str) -> Device {
    Device::from_raw_part(
        handle,
        Some(format!("/devices/usb/{}", handle).into_bytes()),
        Some(action.as_bytes().to_vec()),
    )
}

/// What the kernel does at one receive attempt.
enum Queued {
    Device(Device),
    /// The attempt fails with this error number.
    Fault(i32),
    /// The channel is gone.
    Gone,
}

/// A kernel with a queue. An empty queue answers a receive attempt with
/// "nothing queued" and a readiness check with "nothing reported".
struct Kernel {
    queue: VecDeque<Queued>,
    /// Devices that arrive right after the next receive attempt that finds
    /// the queue empty.
    late: VecDeque<Queued>,
    receives: usize,
    checks: usize,
}

impl Kernel {
    fn holding(queue: Vec<Queued>) -> Kernel {
        Kernel { queue: queue.into(), late: VecDeque::new(), receives: 0, checks: 0 }
    }

    fn receive(&mut self) -> Received {
        self.receives += 1;
        match self.queue.pop_front() {
            Some(Queued::Device(d)) => Received::Device(d),
            Some(Queued::Fault(code)) => Received::Failed(Some(code)),
            Some(Queued::Gone) => Received::Closed,
            None => {
                self.queue.append(&mut self.late);
                Received::WouldBlock
            }
        }
    }

    fn check(&mut self) -> Readiness {
        self.checks += 1;
        if self.queue.is_empty() {
            Readiness::Pending
        } else {
            Readiness::Ready
        }
    }
}

/// One poll by a driver that does what it is asked.
fn poll(stream: &mut AsyncMonitorSocket, kernel: &mut Kernel) -> Outcome {
    let mut step = stream.poll_next();
    loop {
        step = match step {
            Step::Receive => {
                assert_eq!(stream.phase(), Phase::Receiving);
                stream.received(kernel.receive())
            }
            Step::PollReady => {
                assert_eq!(stream.phase(), Phase::Checking);
                assert_eq!(stream.poll_ready(), Slot::Pending);
                stream.readiness(kernel.check())
            }
            Step::Yield(outcome) => {
                assert_eq!(stream.phase(), Phase::Idle);
                return outcome;
            }
        };
    }
}

fn expect_event(outcome: Outcome, kind: EventType, handle: usize) {
    match outcome {
        Outcome::Event(event) => {
            assert_eq!(event.event_type(), kind);
            assert_eq!(event.device().handle(), handle);
        }
        other => panic!("an event was due, not {:?}", other),
    }
}

#[test]
fn a_stream_starts_idle_and_live() {
    let stream = stream_on(4);
    assert_eq!(stream.phase(), Phase::Idle);
    assert_eq!(stream.fate(), Fate::Live);
    assert_eq!(stream.poll_ready(), Slot::Pending);
    assert_eq!(stream.get_ref().fd(), 4);
    assert_eq!(stream.get_ref().bridge().registration, Registration::Scheduler);
}

#[test]
fn a_registered_socket_is_refused() {
    let mut socket = wrapped(4);
    socket.register(Token(1)).expect("free");
    match AsyncMonitorSocket::new(socket) {
        Err(e) => assert_eq!(e, Error::AlreadyRegistered),
        Ok(_) => panic!("the socket is registered with a multiplexer"),
    }
    let stream = stream_on(5);
    let socket = stream.into_inner();
    assert!(!socket.bridge().registered_with_any());
    let again = AsyncMonitorSocket::try_from(socket);
    assert!(again.is_ok());
    let taken = again.ok().map(|s| s.into_inner()).expect("made");
    let mut taken = taken;
    taken.register(Token(2)).expect("free again");
    assert!(AsyncMonitorSocket::try_from(taken).is_err());
}

#[test]
fn the_queue_comes_out_in_its_order_and_then_the_stream_waits() {
    let kinds = ["add", "change", "bind", "unbind", "remove", "strange", "move", "online", "offline"];
    let expected = [
        EventType::Add,
        EventType::Change,
        EventType::Bind,
        EventType::Unbind,
        EventType::Remove,
        EventType::Unknown,
        EventType::Move,
        EventType::Online,
        EventType::Offline,
    ];
    let queue = kinds
        .iter()
        .enumerate()
        .map(|(i, kind)| Queued::Device(usb_device(100 + i, kind)))
        .collect();
    let mut kernel = Kernel::holding(queue);
    let mut stream = stream_on(4);
    for (i, kind) in expected.iter().enumerate() {
        expect_event(poll(&mut stream, &mut kernel), *kind, 100 + i);
    }
    assert_eq!(kernel.receives, 9);
    assert_eq!(kernel.checks, 0);
    for idle in 1..=3usize {
        assert!(matches!(poll(&mut stream, &mut kernel), Outcome::Pending));
        assert_eq!(kernel.receives, 9 + idle);
        assert_eq!(kernel.checks, idle);
        assert_eq!(stream.fate(), Fate::Live);
    }
}

#[test]
fn an_empty_queue_is_never_handed_on() {
    let mut stream = stream_on(4);
    assert!(matches!(stream.poll_next(), Step::Receive));
    assert!(matches!(stream.received(Received::WouldBlock), Step::PollReady));
    assert_eq!(stream.phase(), Phase::Checking);
    assert_eq!(stream.poll_ready(), Slot::Pending);
    assert!(matches!(stream.readiness(Readiness::Pending), Step::Yield(Outcome::Pending)));
    assert_eq!(stream.fate(), Fate::Live);
}

#[test]
fn a_device_that_arrives_during_the_check_is_received_at_once() {
    let mut kernel = Kernel::holding(Vec::new());
    kernel.late.push_back(Queued::Device(usb_device(7, "add")));
    let mut stream = stream_on(4);
    expect_event(poll(&mut stream, &mut kernel), EventType::Add, 7);
    assert_eq!(kernel.receives, 2);
    assert_eq!(kernel.checks, 1);
    assert_eq!(stream.poll_ready(), Slot::ReadyUnconsumed);
    assert_eq!(stream.get_ref().poll_ready(), Slot::ReadyUnconsumed);
    assert!(matches!(poll(&mut stream, &mut kernel), Outcome::Pending));
    assert_eq!(stream.get_ref().poll_ready(), Slot::Pending);
    assert_eq!(kernel.receives, 3);
    assert_eq!(kernel.checks, 2);
    assert_eq!(stream.poll_ready(), Slot::Pending);
}

#[test]
fn a_poll_that_waits_takes_one_receive_attempt_however_often_it_is_made() {
    let mut kernel = Kernel::holding(Vec::new());
    let mut stream = stream_on(4);
    for polls in 1..=50usize {
        assert!(matches!(poll(&mut stream, &mut kernel), Outcome::Pending));
        assert_eq!(kernel.receives, polls);
        assert_eq!(kernel.checks, polls);
    }
}

#[test]
fn one_usb_device_is_added_and_then_the_kernel_is_idle() {
    let builder = tokio_udev::builder::MonitorBuilder::new()
        .and_then(|b| b.match_subsystem(b"usb"))
        .expect("a name without a NUL byte");
    assert_eq!(builder.len(), 1);
    let context = tokio_udev::context::Context::new(0x500);
    let native = tokio_udev::monitor::Monitor::new_from_netlink(
        &context,
        tokio_udev::monitor::udev_monitor(),
        0x600,
        6,
    );
    let activation = builder.listen(native);
    let activation = match activation.advance(0) {
        tokio_udev::monitor::ActivationStep::Call(next) => next,
        other => panic!("the order to receive is still to come, not {:?}", other),
    };
    let monitor = match activation.advance(0) {
        tokio_udev::monitor::ActivationStep::Done(monitor) => monitor,
        other => panic!("the monitor receives, not {:?}", other),
    };
    assert!(monitor.is_receiving());
    let setup = MonitorSocket::new(monitor.as_raw_fd());
    let setup = match setup.advance(libc::FD_CLOEXEC) {
        SetupStep::Call(next) => next,
        _ => panic!("the status flags are still to be read"),
    };
    let socket = match setup.advance(libc::O_NONBLOCK) {
        SetupStep::Done(socket) => socket,
        _ => panic!("both flags are set"),
    };
    let mut stream = AsyncMonitorSocket::new(socket).expect("free");
    let mut kernel = Kernel::holding(vec![Queued::Device(usb_device(0xabc, "add"))]);

    expect_event(poll(&mut stream, &mut kernel), EventType::Add, 0xabc);
    assert_eq!(kernel.receives, 1);

    // The first poll of the idle period finds the queue empty and waits.
    assert!(matches!(poll(&mut stream, &mut kernel), Outcome::Pending));
    assert_eq!(kernel.receives, 2);
    // While the consumer waits nothing is asked of the kernel.
    assert_eq!(stream.phase(), Phase::Idle);
    assert_eq!(stream.poll_ready(), Slot::Pending);
    assert_eq!(kernel.receives, 2);
    assert_eq!(kernel.checks, 1);

    // The next report wakes the consumer, and the device comes out.
    kernel.queue.push_back(Queued::Device(usb_device(0xabd, "remove")));
    expect_event(poll(&mut stream, &mut kernel), EventType::Remove, 0xabd);
    assert_eq!(kernel.receives, 3);
}

#[test]
fn the_third_receive_fails_and_the_stream_has_ended() {
    let mut kernel = Kernel::holding(vec![
        Queued::Device(usb_device(1, "add")),
        Queued::Device(usb_device(2, "change")),
        Queued::Fault(9),
        Queued::Device(usb_device(3, "remove")),
    ]);
    let mut stream = stream_on(4);
    expect_event(poll(&mut stream, &mut kernel), EventType::Add, 1);
    expect_event(poll(&mut stream, &mut kernel), EventType::Change, 2);
    match poll(&mut stream, &mut kernel) {
        Outcome::Error(e) => assert_eq!(e, Error::Receive(Some(9))),
        other => panic!("an error was due, not {:?}", other),
    }
    assert_eq!(kernel.receives, 3);
    assert_eq!(stream.fate(), Fate::Failed(Error::Receive(Some(9))));
    for _ in 0..5 {
        match poll(&mut stream, &mut kernel) {
            Outcome::Error(e) => assert_eq!(e, Error::Receive(Some(9))),
            other => panic!("the same error was due, not {:?}", other),
        }
    }
    assert_eq!(kernel.receives, 3);
    assert_eq!(kernel.checks, 0);
    assert_eq!(kernel.queue.len(), 1);
}

#[test]
fn an_ended_stream_answers_reports_with_its_end_too() {
    let mut stream = stream_on(4);
    stream.poll_next();
    assert!(matches!(
        stream.received(Received::Failed(None)),
        Step::Yield(Outcome::Error(Error::Receive(None)))
    ));
    assert!(matches!(
        stream.received(Received::Device(usb_device(1, "add"))),
        Step::Yield(Outcome::Error(Error::Receive(None)))
    ));
    assert!(matches!(
        stream.readiness(Readiness::Ready),
        Step::Yield(Outcome::Error(Error::Receive(None)))
    ));
    assert!(matches!(
        stream.received(Received::WouldBlock),
        Step::Yield(Outcome::Error(Error::Receive(None)))
    ));
    assert_eq!(stream.phase(), Phase::Idle);
    assert_eq!(stream.fate(), Fate::Failed(Error::Receive(None)));
}

#[test]
fn the_end_of_the_channel_ends_the_stream_cleanly() {
    let mut kernel = Kernel::holding(vec![
        Queued::Device(usb_device(1, "add")),
        Queued::Gone,
        Queued::Device(usb_device(2, "add")),
    ]);
    let mut stream = stream_on(4);
    expect_event(poll(&mut stream, &mut kernel), EventType::Add, 1);
    assert!(matches!(poll(&mut stream, &mut kernel), Outcome::End));
    assert_eq!(stream.fate(), Fate::Ended);
    assert!(matches!(poll(&mut stream, &mut kernel), Outcome::End));
    assert!(matches!(poll(&mut stream, &mut kernel), Outcome::End));
    assert_eq!(kernel.receives, 2);
}

#[test]
fn a_failure_of_the_readiness_check_ends_the_stream() {
    let mut stream = stream_on(4);
    stream.poll_next();
    stream.received(Received::WouldBlock);
    assert!(matches!(
        stream.readiness(Readiness::Failed(Some(5))),
        Step::Yield(Outcome::Error(Error::Registration(Some(5))))
    ));
    assert_eq!(stream.fate(), Fate::Failed(Error::Registration(Some(5))));
    assert!(matches!(
        stream.poll_next(),
        Step::Yield(Outcome::Error(Error::Registration(Some(5))))
    ));
}

#[test]
fn no_poll_waits_before_a_receive_attempt_found_nothing() {
    // A report that nothing is readable, which nobody asked for, does not
    // suspend the consumer: a receive attempt comes first.
    let mut stream = stream_on(4);
    assert!(matches!(stream.readiness(Readiness::Pending), Step::Receive));
    assert_eq!(stream.phase(), Phase::Receiving);
    assert!(matches!(stream.readiness(Readiness::Pending), Step::Receive));
    assert!(matches!(stream.received(Received::WouldBlock), Step::PollReady));
    assert!(matches!(stream.readiness(Readiness::Pending), Step::Yield(Outcome::Pending)));
    // A device is an event whenever it is reported.
    assert!(matches!(
        stream.received(Received::Device(usb_device(5, "add"))),
        Step::Yield(Outcome::Event(_))
    ));
    assert!(matches!(stream.readiness(Readiness::Ready), Step::Receive));
    assert_eq!(stream.poll_ready(), Slot::ReadyUnconsumed);
}

#[test]
fn the_result_of_a_receive_attempt_is_told_apart() {
    assert!(matches!(Received::of(Err(Error::WouldBlock)), Received::WouldBlock));
    assert!(matches!(Received::of(Err(Error::Receive(Some(3)))), Received::Failed(Some(3))));
    assert!(matches!(Received::of(Err(Error::Receive(None))), Received::Failed(None)));
    assert!(matches!(Received::of(Err(Error::Enable)), Received::Failed(None)));
    assert!(matches!(Received::of(Err(Error::Closed)), Received::Closed));
    match Received::of(Ok(usb_device(77, "add"))) {
        Received::Device(device) => assert_eq!(device.handle(), 77),
        other => panic!("a device was due, not {:?}", other),
    }
}

#[test]
fn the_slot_is_not_cleared_by_a_report_that_nobody_asked_for() {
    let mut stream = stream_on(4);
    stream.poll_next();
    stream.received(Received::WouldBlock);
    assert!(matches!(stream.readiness(Readiness::Ready), Step::Receive));
    assert_eq!(stream.poll_ready(), Slot::ReadyUnconsumed);
    assert!(matches!(stream.readiness(Readiness::Pending), Step::Receive));
    assert_eq!(stream.poll_ready(), Slot::ReadyUnconsumed);
    assert!(matches!(stream.received(Received::WouldBlock), Step::PollReady));
    assert_eq!(stream.poll_ready(), Slot::Pending);
}

#[test]
fn a_receive_attempt_outside_a_stream_gives_an_event_or_none() {
    match Received::Device(usb_device(9, "unbind")).into_event() {
        Some(event) => {
            assert_eq!(event.event_type(), EventType::Unbind);
            assert_eq!(event.device().handle(), 9);
        }
        None => panic!("a device is an event"),
    }
    assert!(Received::WouldBlock.into_event().is_none());
    assert!(Received::Failed(Some(9)).into_event().is_none());
    assert!(Received::Closed.into_event().is_none());
}

#[test]
fn a_dead_descriptor_ends_the_stream_and_does_not_wait() {
    let context = tokio_udev::context::Context::new(0x500);
    let native = tokio_udev::monitor::Monitor::new_from_netlink(
        &context,
        tokio_udev::monitor::udev_monitor(),
        0x600,
        6,
    );
    let again = tokio_udev::monitor::would_block_code();
    let mut stream = stream_on(6);
    assert!(matches!(stream.poll_next(), Step::Receive));
    let attempt = Received::of(native.receive_device(0, libc::EBADF, again, None, None));
    match stream.received(attempt) {
        Step::Yield(Outcome::Error(e)) => assert_eq!(e, Error::Receive(Some(libc::EBADF))),
        other => panic!("the stream must fail, not {:?}", other),
    }
    assert_eq!(stream.fate(), Fate::Failed(Error::Receive(Some(libc::EBADF))));

    let mut idle = stream_on(7);
    idle.poll_next();
    let attempt = Received::of(native.receive_device(0, again, again, None, None));
    assert!(matches!(idle.received(attempt), Step::PollReady));

    let mut closed = stream_on(8);
    closed.poll_next();
    let attempt = Received::of(native.receive_device(0, 0, again, None, None));
    assert!(matches!(closed.received(attempt), Step::Yield(Outcome::End)));
    assert_eq!(closed.fate(), Fate::Ended);
}
