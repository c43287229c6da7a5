//! The stream of devices that asks for readiness first.

use tokio_udev::bridge::{Registration, Slot, Token};
use tokio_udev::device::Device;
use tokio_udev::error::Error;
use tokio_udev::flags::{FlagBits, FlagSetup, SetupStep};
use tokio_udev::reactor::{Ask, Async, Monitor};
use tokio_udev::socket::MonitorSocket;
use tokio_udev::stream::{Fate, Phase, Readiness};

fn socket_for_the_reactor(fd: i32) -> MonitorSocket {
    let bits = FlagBits { close_on_exec: 1, non_blocking: 0o4000 };
    let setup = match FlagSetup::begin(fd, bits).advance(1) {
        SetupStep::Call(next) => next,
        _ => panic!("the status flags are still to be read"),
    };
    match setup.advance(0o4000) {
        SetupStep::Done(socket) => socket,
        _ => panic!("both flags are set"),
    }
}

fn monitor_on(fd: i32) -> Monitor {
    Monitor::new(socket_for_the_reactor(fd)).expect("a fresh socket is free")
}

fn plain_device(handle: usize) -> Device {
    Device::from_raw_part(handle, None, Some(b"add".to_vec()))
}

#[test]
fn the_reactor_stream_registers_its_socket() {
    let monitor = monitor_on(3);
    assert_eq!(monitor.get_ref().fd(), 3);
    assert_eq!(monitor.get_ref().bridge().registration, Registration::Scheduler);
    assert_eq!(monitor.phase(), Phase::Idle);
    assert_eq!(monitor.fate(), Fate::Live);

    let mut taken = socket_for_the_reactor(3);
    taken.register(Token(3)).expect("free");
    match Monitor::new(taken) {
        Err(e) => assert_eq!(e, Error::AlreadyRegistered),
        Ok(_) => panic!("the socket is registered with a multiplexer"),
    }
}

#[test]
fn a_socket_that_is_not_readable_is_not_touched() {
    let mut monitor = monitor_on(3);
    for _ in 0..3 {
        assert!(matches!(monitor.poll_receive(), Ask::PollReady));
        assert_eq!(monitor.phase(), Phase::Checking);
        assert!(matches!(
            monitor.readiness(Readiness::Pending),
            Ask::Return(Ok(Async::NotReady))
        ));
        assert_eq!(monitor.phase(), Phase::Idle);
    }
}

#[test]
fn a_readable_socket_gives_its_device() {
    let mut monitor = monitor_on(3);
    assert!(matches!(monitor.poll_receive(), Ask::PollReady));
    assert!(matches!(monitor.readiness(Readiness::Ready), Ask::Receive));
    assert_eq!(monitor.phase(), Phase::Receiving);
    match monitor.received(Ok(plain_device(0x44))) {
        Ask::Return(Ok(Async::Ready(Some(device)))) => assert_eq!(device.handle(), 0x44),
        other => panic!("a device was due, not {:?}", other),
    }
    assert_eq!(monitor.phase(), Phase::Idle);
    assert_eq!(monitor.fate(), Fate::Live);
}

#[test]
fn an_empty_queue_clears_the_slot_and_asks_the_reactor_again() {
    let mut monitor = monitor_on(3);
    monitor.poll_receive();
    monitor.readiness(Readiness::Ready);
    assert!(matches!(monitor.received(Err(Error::WouldBlock)), Ask::PollReady));
    assert_eq!(monitor.phase(), Phase::Checking);
    assert_eq!(monitor.fate(), Fate::Live);
    assert!(matches!(monitor.readiness(Readiness::Pending), Ask::Return(Ok(Async::NotReady))));
    // The socket became readable while it was checked: it is received from.
    monitor.poll_receive();
    monitor.readiness(Readiness::Ready);
    assert!(matches!(monitor.received(Err(Error::WouldBlock)), Ask::PollReady));
    assert!(matches!(monitor.readiness(Readiness::Ready), Ask::Receive));
    assert!(matches!(
        monitor.received(Ok(plain_device(1))),
        Ask::Return(Ok(Async::Ready(Some(_))))
    ));
}

#[test]
fn an_error_ends_the_reactor_stream() {
    let mut monitor = monitor_on(3);
    monitor.poll_receive();
    monitor.readiness(Readiness::Ready);
    assert!(matches!(
        monitor.received(Err(Error::Receive(Some(9)))),
        Ask::Return(Err(Error::Receive(Some(9))))
    ));
    assert_eq!(monitor.fate(), Fate::Failed(Error::Receive(Some(9))));
    assert!(matches!(monitor.poll_receive(), Ask::Return(Err(Error::Receive(Some(9))))));
    assert!(matches!(
        monitor.readiness(Readiness::Ready),
        Ask::Return(Err(Error::Receive(Some(9))))
    ));
    assert!(matches!(
        monitor.received(Ok(plain_device(2))),
        Ask::Return(Err(Error::Receive(Some(9))))
    ));
    assert_eq!(monitor.phase(), Phase::Idle);

    let mut other = monitor_on(4);
    other.poll_receive();
    assert!(matches!(
        other.readiness(Readiness::Failed(None)),
        Ask::Return(Err(Error::Registration(None)))
    ));
    assert_eq!(other.fate(), Fate::Failed(Error::Registration(None)));
    assert!(matches!(other.poll_receive(), Ask::Return(Err(Error::Registration(None)))));
}

#[test]
fn the_slot_of_a_reactor_stream_follows_the_reports() {
    let mut monitor = monitor_on(3);
    assert_eq!(monitor.get_ref().poll_ready(), Slot::Pending);
    monitor.poll_receive();
    monitor.readiness(Readiness::Ready);
    assert_eq!(monitor.get_ref().poll_ready(), Slot::ReadyUnconsumed);
    assert_eq!(monitor.phase(), Phase::Receiving);
    monitor.received(Err(Error::WouldBlock));
    assert_eq!(monitor.get_ref().poll_ready(), Slot::Pending);
    monitor.readiness(Readiness::Ready);
    assert_eq!(monitor.get_ref().poll_ready(), Slot::ReadyUnconsumed);
    monitor.received(Ok(plain_device(1)));
    monitor.poll_receive();
    monitor.readiness(Readiness::Pending);
    assert_eq!(monitor.get_ref().poll_ready(), Slot::Pending);
    assert_eq!(monitor.get_ref().bridge().registration, Registration::Scheduler);
}

#[test]
fn the_end_of_the_channel_ends_the_reactor_stream_cleanly() {
    let mut monitor = monitor_on(3);
    monitor.poll_receive();
    monitor.readiness(Readiness::Ready);
    assert!(matches!(monitor.received(Err(Error::Closed)), Ask::Return(Ok(Async::Ready(None)))));
    assert_eq!(monitor.fate(), Fate::Ended);
    assert!(matches!(monitor.poll_receive(), Ask::Return(Ok(Async::Ready(None)))));
    assert!(matches!(monitor.readiness(Readiness::Ready), Ask::Return(Ok(Async::Ready(None)))));
    assert!(matches!(
        monitor.received(Ok(plain_device(2))),
        Ask::Return(Ok(Async::Ready(None)))
    ));
}
