//! Names, match rules, and the monitor of the native library.

use tokio_udev::builder::MonitorBuilder;
use tokio_udev::context::{Context, Handle};
use tokio_udev::error::Error;
use tokio_udev::monitor::{
    udev_monitor, usb_device, usb_subsystem, would_block_code, Activation, ActivationStep,
    DeviceType, Monitor, MonitorName, NativeCall, Rule, Subsystem,
};
use tokio_udev::name::{check_name, CName};
use tokio_udev::reactor::Builder;

#[test]
fn the_known_names_end_in_one_nul_byte() {
    assert_eq!(udev_monitor().as_bytes(), b"udev\0");
    assert_eq!(usb_subsystem().as_bytes(), b"usb\0");
    assert_eq!(usb_device().as_bytes(), b"usb_device\0");
}

#[test]
fn a_name_holds_no_nul_byte() {
    assert!(check_name(b""));
    assert!(check_name(b"usb"));
    assert!(!check_name(b"\0"));
    assert!(!check_name(b"us\0b"));
    assert!(!check_name(b"usb\0"));
    assert_eq!(CName::new(b"block").map(|n| n.as_bytes().to_vec()), Ok(b"block\0".to_vec()));
    assert_eq!(CName::new(b"").map(|n| n.as_bytes().to_vec()), Ok(b"\0".to_vec()));
    assert_eq!(CName::new(b"bl\0ock").map(|n| n.as_bytes().to_vec()), Err(Error::InvalidName));
    assert_eq!(
        Subsystem::new(b"input").map(|n| n.as_bytes().to_vec()),
        Ok(b"input\0".to_vec())
    );
    assert_eq!(Subsystem::new(b"\0").map(|n| n.as_bytes().to_vec()), Err(Error::InvalidName));
    assert_eq!(
        DeviceType::new(b"disk").map(|n| n.clone().as_bytes().to_vec()),
        Ok(b"disk\0".to_vec())
    );
    assert_eq!(DeviceType::new(b"di\0").map(|n| n.as_bytes().to_vec()), Err(Error::InvalidName));
    assert_eq!(
        MonitorName::new(b"kernel").map(|n| n.as_bytes().to_vec()),
        Ok(b"kernel\0".to_vec())
    );
    assert_eq!(MonitorName::new(b"\0k").map(|n| n.as_bytes().to_vec()), Err(Error::InvalidName));
}

fn rule_bytes(rule: &Rule) -> Vec<Vec<u8>> {
    match rule {
        Rule::Subsystem(s) => vec![s.as_bytes().to_vec()],
        Rule::SubsystemDevtype(s, d) => vec![s.as_bytes().to_vec(), d.as_bytes().to_vec()],
        Rule::Tag(t) => vec![b"tag".to_vec(), t.as_bytes().to_vec()],
    }
}

fn call_bytes(call: &NativeCall) -> Vec<Vec<u8>> {
    match call {
        NativeCall::Filter(rule) => rule_bytes(rule),
        NativeCall::EnableReceiving => vec![b"enable".to_vec()],
    }
}

fn fresh_monitor() -> Monitor {
    Monitor::new_from_netlink(&Context::new(0x10), udev_monitor(), 0x20, 5)
}

/// Answers the calls of an activation from `statuses`, and records them.
fn activate(activation: Activation, statuses: &[i32]) -> (Vec<Vec<Vec<u8>>>, Result<Monitor, Error>) {
    let mut activation = activation;
    let mut calls = Vec::new();
    let mut statuses = statuses.iter();
    loop {
        calls.push(call_bytes(&activation.request()));
        let status = *statuses.next().expect("a status for every call");
        match activation.advance(status) {
            ActivationStep::Call(next) => activation = next,
            ActivationStep::Done(monitor) => return (calls, Ok(monitor)),
            ActivationStep::Failed(e) => return (calls, Err(e)),
        }
    }
}

#[test]
fn rules_are_kept_in_the_order_in_which_they_were_added() {
    let builder = MonitorBuilder::new()
        .and_then(|b| b.match_subsystem(b"usb"))
        .and_then(|b| b.match_subsystem_devtype(b"block", b"disk"))
        .and_then(|b| b.match_tag(b"seat"))
        .expect("names without a NUL byte");
    assert_eq!(builder.len(), 3);
    assert_eq!(builder.rule(0).map(rule_bytes), Some(vec![b"usb\0".to_vec()]));
    assert_eq!(
        builder.rule(1).map(rule_bytes),
        Some(vec![b"block\0".to_vec(), b"disk\0".to_vec()])
    );
    assert_eq!(builder.rule(2).map(rule_bytes), Some(vec![b"tag".to_vec(), b"seat\0".to_vec()]));
    assert!(builder.rule(3).is_none());
    let cleared = builder.clear_filters().expect("never fails");
    assert_eq!(cleared.len(), 0);
    assert!(cleared.rule(0).is_none());
}

#[test]
fn a_rule_with_a_nul_byte_is_refused() {
    let fresh = || MonitorBuilder::new().expect("never fails");
    assert_eq!(fresh().len(), 0);
    assert_eq!(fresh().match_subsystem(b"u\0sb").err(), Some(Error::InvalidName));
    assert_eq!(fresh().match_subsystem_devtype(b"u\0sb", b"disk").err(), Some(Error::InvalidName));
    assert_eq!(fresh().match_subsystem_devtype(b"usb", b"\0").err(), Some(Error::InvalidName));
    assert_eq!(fresh().match_tag(b"seat\0").err(), Some(Error::InvalidName));
}

#[test]
fn listen_gives_the_monitor_every_rule_and_then_tells_it_to_receive() {
    let builder = MonitorBuilder::new()
        .and_then(|b| b.match_subsystem(b"usb"))
        .and_then(|b| b.match_tag(b"seat"))
        .expect("names without a NUL byte");
    let activation = builder.listen(fresh_monitor());
    assert_eq!(activation.monitor().filter_count(), 0);
    let (calls, monitor) = activate(activation, &[0, 7, 0]);
    assert_eq!(
        calls,
        vec![
            vec![b"usb\0".to_vec()],
            vec![b"tag".to_vec(), b"seat\0".to_vec()],
            vec![b"enable".to_vec()],
        ]
    );
    let monitor = monitor.expect("no call was refused");
    assert_eq!(monitor.filter_count(), 2);
    assert!(monitor.is_receiving());
    assert_eq!(monitor.as_raw_fd(), 5);

    let (calls, monitor) = activate(MonitorBuilder::new().expect("never fails").listen(fresh_monitor()), &[0]);
    assert_eq!(calls, vec![vec![b"enable".to_vec()]]);
    assert!(monitor.expect("listens").is_receiving());
}

#[test]
fn listen_stops_when_the_native_library_refuses() {
    let builder = MonitorBuilder::new().expect("never fails");
    let (calls, monitor) = activate(builder.listen(fresh_monitor()), &[-1]);
    assert_eq!(calls.len(), 1);
    assert_eq!(monitor.err(), Some(Error::Enable));
}

#[test]
fn a_handle_is_its_token() {
    assert_eq!(Handle::new(0x55).get(), 0x55);
    let context = Context::new(0x7f00);
    assert_eq!(context.as_ptr(), 0x7f00);
    assert_eq!(context.clone().as_ptr(), 0x7f00);
}

fn three_rules() -> Builder {
    let block = Subsystem::new(b"block").expect("a name");
    let disk = DeviceType::new(b"disk").expect("a name");
    let input = Subsystem::new(b"input").expect("a name");
    let mouse = DeviceType::new(b"mouse").expect("a name");
    Builder::new().add_match(usb_subsystem(), usb_device()).add_match(block, disk).add_match(input, mouse)
}

#[test]
fn build_asks_for_the_calls_in_their_order() {
    let context = Context::new(0x10);
    let (calls, monitor) = activate(Builder::new().build(&context, udev_monitor(), 0x20, 5), &[0]);
    assert_eq!(calls, vec![vec![b"enable".to_vec()]]);
    let monitor = monitor.expect("no call was refused");
    assert_eq!(monitor.filter_count(), 0);
    assert!(monitor.is_receiving());

    let (calls, monitor) =
        activate(three_rules().build(&context, udev_monitor(), 0x21, 6), &[0, 1, 2, 3]);
    assert_eq!(
        calls,
        vec![
            vec![b"usb\0".to_vec(), b"usb_device\0".to_vec()],
            vec![b"block\0".to_vec(), b"disk\0".to_vec()],
            vec![b"input\0".to_vec(), b"mouse\0".to_vec()],
            vec![b"enable".to_vec()],
        ]
    );
    let monitor = monitor.expect("no call was refused");
    assert_eq!(monitor.as_ptr(), 0x21);
    assert_eq!(monitor.as_raw_fd(), 6);
    assert_eq!(monitor.filter_count(), 3);
    assert!(monitor.is_receiving());
}

#[test]
fn build_stops_at_the_first_rule_that_is_refused() {
    let context = Context::new(0x10);
    let (calls, monitor) =
        activate(three_rules().build(&context, udev_monitor(), 0x21, 6), &[0, -22, 0, 0]);
    assert_eq!(
        calls,
        vec![
            vec![b"usb\0".to_vec(), b"usb_device\0".to_vec()],
            vec![b"block\0".to_vec(), b"disk\0".to_vec()],
        ]
    );
    assert_eq!(monitor.err(), Some(Error::Filter));

    let (calls, monitor) =
        activate(three_rules().build(&context, udev_monitor(), 0x21, 6), &[-1, 0, 0, 0]);
    assert_eq!(calls.len(), 1);
    assert_eq!(monitor.err(), Some(Error::Filter));

    let (calls, monitor) =
        activate(three_rules().build(&context, udev_monitor(), 0x21, 6), &[0, 0, 0, -1]);
    assert_eq!(calls.len(), 4);
    assert_eq!(monitor.err(), Some(Error::Enable));
}

#[test]
fn a_monitor_takes_the_status_of_each_native_call() {
    let mut monitor = fresh_monitor();
    assert_eq!(monitor.as_ptr(), 0x20);
    assert_eq!(monitor.as_raw_fd(), 5);
    assert_eq!(monitor.filter_count(), 0);
    assert!(!monitor.is_receiving());

    assert_eq!(
        monitor.filter_add_match_subsystem_devtype(usb_subsystem(), usb_device(), -1),
        Err(Error::Filter)
    );
    assert_eq!(monitor.filter_add_match_subsystem(usb_subsystem(), -5), Err(Error::Filter));
    assert_eq!(
        monitor.filter_add_match_tag(CName::new(b"seat").expect("a name"), i32::MIN),
        Err(Error::Filter)
    );
    assert_eq!(
        monitor.filter_add_match(Rule::Subsystem(usb_subsystem()), -1),
        Err(Error::Filter)
    );
    assert_eq!(monitor.filter_count(), 0);
    assert_eq!(
        monitor.filter_add_match_subsystem_devtype(usb_subsystem(), usb_device(), 0),
        Ok(())
    );
    assert_eq!(monitor.filter_add_match_subsystem(usb_subsystem(), 3), Ok(()));
    assert_eq!(monitor.filter_add_match_tag(CName::new(b"seat").expect("a name"), 0), Ok(()));
    assert_eq!(monitor.filter_add_match(Rule::Subsystem(usb_subsystem()), 0), Ok(()));
    assert_eq!(monitor.filter_count(), 4);

    assert_eq!(monitor.enable_receiving(i32::MIN), Err(Error::Enable));
    assert!(!monitor.is_receiving());
    assert_eq!(monitor.enable_receiving(0), Ok(()));
    assert!(monitor.is_receiving());

    let copy = monitor.clone();
    assert_eq!(copy.as_ptr(), 0x20);
    assert_eq!(copy.as_raw_fd(), 5);
    assert_eq!(copy.filter_count(), 4);
    assert!(copy.is_receiving());
}

#[test]
fn the_code_of_an_empty_queue_is_that_of_libc() {
    assert_eq!(would_block_code(), libc::EAGAIN);
    assert_ne!(would_block_code(), 0);
}

#[test]
fn a_receive_attempt_gives_a_device_or_says_why_not() {
    let monitor = fresh_monitor();
    let again = libc::EAGAIN;
    // Nothing is queued.
    assert_eq!(monitor.receive_device(0, again, again, None, None).err(), Some(Error::WouldBlock));
    assert_eq!(
        monitor
            .receive_device(0, again, again, Some(b"/devices/x".to_vec()), Some(b"add".to_vec()))
            .err(),
        Some(Error::WouldBlock)
    );
    // The attempt failed: the descriptor is bad.
    assert_eq!(
        monitor.receive_device(0, libc::EBADF, again, None, None).err(),
        Some(Error::Receive(Some(libc::EBADF)))
    );
    assert_eq!(
        monitor.receive_device(0, libc::ENOBUFS, again, None, None).err(),
        Some(Error::Receive(Some(libc::ENOBUFS)))
    );
    assert_eq!(monitor.receive_device(0, -3, again, None, None).err(), Some(Error::Receive(Some(-3))));
    // No device and no error: the channel has ended.
    assert_eq!(monitor.receive_device(0, 0, again, None, None).err(), Some(Error::Closed));
    // A device, whatever error number an earlier call left behind.
    for errno in [0, again, libc::EBADF] {
        match monitor.receive_device(
            0x30,
            errno,
            again,
            Some(b"/devices/x".to_vec()),
            Some(b"add".to_vec()),
        ) {
            Ok(device) => {
                assert_eq!(device.handle(), 0x30);
                assert_eq!(device.get_devpath(), Ok("/devices/x".to_string()));
                assert_eq!(device.get_action(), Ok("add".to_string()));
            }
            Err(e) => panic!("a device was due, not {:?}", e),
        }
    }
}
