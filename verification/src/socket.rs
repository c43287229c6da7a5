//! The wrapped notification socket.

use vstd::prelude::*;
use crate::bridge::{ReadinessBridge, Registration, Slot, Token};
use crate::error::Error;
use crate::flags::{has_bits, FlagBits, FlagSetup};

verus! {

/// A notification socket whose descriptor is non-blocking and close-on-exec.
///
/// The flags are fixed once, when the socket is wrapped, and the socket
/// remembers the values that it saw or wrote then.
#[derive(Debug)]
pub struct MonitorSocket {
    fd: i32,
    bits: FlagBits,
    descriptor_flags: i32,
    status_flags: i32,
    bridge: ReadinessBridge,
}

/// What a [`MonitorSocket`] is, as plain values.
pub struct MonitorSocketView {
    pub fd: i32,
    pub bits: FlagBits,
    pub descriptor_flags: i32,
    pub status_flags: i32,
    pub bridge: ReadinessBridge,
}

impl MonitorSocketView {
    /// Both flags are in place.
    pub open spec fn flags_fixed(self) -> bool {
        &&& has_bits(self.descriptor_flags, self.bits.close_on_exec)
        &&& has_bits(self.status_flags, self.bits.non_blocking)
    }

    /// The same socket with another bridge.
    pub open spec fn with_bridge(self, bridge: ReadinessBridge) -> MonitorSocketView {
        MonitorSocketView { bridge, ..self }
    }

    /// The same socket with its readiness slot in the state `slot`.
    pub open spec fn with_slot(self, slot: Slot) -> MonitorSocketView {
        self.with_bridge(ReadinessBridge { registration: self.bridge.registration, slot })
    }
}

/// The view of a socket that is registered with a scheduler.
pub proof fn lemma_attached(socket: MonitorSocket)
    ensures
        socket.attached()@ == socket@.with_bridge(
            socket@.bridge.registered(Registration::Scheduler),
        ),
{
}

impl View for MonitorSocket {
    type V = MonitorSocketView;

    closed spec fn view(&self) -> MonitorSocketView {
        MonitorSocketView {
            fd: self.fd,
            bits: self.bits,
            descriptor_flags: self.descriptor_flags,
            status_flags: self.status_flags,
            bridge: self.bridge,
        }
    }
}

impl MonitorSocket {
    /// The socket once it is registered with the scheduler of its stream.
    pub closed spec fn attached(self) -> MonitorSocket {
        MonitorSocket { bridge: self.bridge.registered(Registration::Scheduler), ..self }
    }

    #[verifier::type_invariant]
    spec fn flags_are_fixed(self) -> bool {
        &&& has_bits(self.descriptor_flags, self.bits.close_on_exec)
        &&& has_bits(self.status_flags, self.bits.non_blocking)
    }

    /// Starts to wrap the descriptor `fd` for the flag masks of the
    /// platform, neither of which is empty. The socket comes out of the
    /// [`FlagSetup`] once the flags are fixed.
    pub fn new(fd: i32) -> (setup: FlagSetup)
        ensures
            setup@.fd == fd,
            setup@.is_initial(),
            setup@.bits.effective(),
    {
        FlagSetup::begin(fd, FlagBits::native())
    }

    /// The socket at the end of a flag setup: unregistered, its slot pending.
    pub(crate) fn wrapped(fd: i32, bits: FlagBits, descriptor_flags: i32, status_flags: i32) -> (s:
        MonitorSocket)
        requires
            has_bits(descriptor_flags, bits.close_on_exec),
            has_bits(status_flags, bits.non_blocking),
        ensures
            s@ == (MonitorSocketView {
                fd,
                bits,
                descriptor_flags,
                status_flags,
                bridge: ReadinessBridge::idle(),
            }),
    {
        MonitorSocket { fd, bits, descriptor_flags, status_flags, bridge: ReadinessBridge::new() }
    }

    /// The raw descriptor, for registering the socket. No data is to be read
    /// through it but by the receive primitive.
    pub fn fd(&self) -> (fd: i32)
        ensures
            fd == self@.fd,
    {
        self.fd
    }

    /// The descriptor flags as they stood when the socket was wrapped. They
    /// hold the close-on-exec bit.
    pub fn descriptor_flags(&self) -> (flags: i32)
        ensures
            flags == self@.descriptor_flags,
            has_bits(flags, self@.bits.close_on_exec),
            self@.flags_fixed(),
    {
        proof {
            use_type_invariant(self);
        }
        self.descriptor_flags
    }

    /// The status flags as they stood when the socket was wrapped. They
    /// hold the non-blocking bit.
    pub fn status_flags(&self) -> (flags: i32)
        ensures
            flags == self@.status_flags,
            has_bits(flags, self@.bits.non_blocking),
            self@.flags_fixed(),
    {
        proof {
            use_type_invariant(self);
        }
        self.status_flags
    }

    /// The flag masks that the socket was wrapped for.
    pub fn bits(&self) -> (bits: FlagBits)
        ensures
            bits == self@.bits,
    {
        self.bits
    }

    /// The registration and the readiness slot of the socket.
    pub fn bridge(&self) -> (b: ReadinessBridge)
        ensures
            b == self@.bridge,
    {
        self.bridge
    }

    /// Registers the socket with a multiplexer under `token`. A socket that
    /// is registered already is refused and keeps its registration.
    pub fn register(&mut self, token: Token) -> (r: Result<Token, Error>)
        ensures
            final(self)@ == old(self)@.with_bridge(
                old(self)@.bridge.registered(Registration::Multiplexer(token)),
            ),
            r == (if old(self)@.bridge.is_registered() {
                Err::<Token, Error>(Error::AlreadyRegistered)
            } else {
                Ok::<Token, Error>(token)
            }),
    {
        proof {
            use_type_invariant(&*self);
        }
        let mut bridge = self.bridge;
        let r = bridge.register(token);
        self.bridge = bridge;
        r
    }

    /// Changes the token under which a multiplexer watches the socket.
    pub fn reregister(&mut self, token: Token) -> (r: Result<Token, Error>)
        ensures
            old(self)@.bridge.registration is Multiplexer ==> r == Ok::<Token, Error>(token)
                && final(self)@ == old(self)@.with_bridge(
                ReadinessBridge {
                    registration: Registration::Multiplexer(token),
                    slot: old(self)@.bridge.slot,
                },
            ),
            !(old(self)@.bridge.registration is Multiplexer) ==> r == Err::<Token, Error>(
                Error::Registration(None),
            ) && final(self)@ == old(self)@,
    {
        proof {
            use_type_invariant(&*self);
        }
        let mut bridge = self.bridge;
        let r = bridge.reregister(token);
        self.bridge = bridge;
        r
    }

    /// Lets go of the socket. On a socket that nobody watches this does
    /// nothing.
    pub fn deregister(&mut self)
        ensures
            final(self)@ == old(self)@.with_bridge(old(self)@.bridge.deregistered()),
    {
        proof {
            use_type_invariant(&*self);
        }
        let mut bridge = self.bridge;
        let r = bridge.deregister();
        self.bridge = bridge;
        r
    }

    /// Takes back a registration that the facility refused, and names the
    /// failure.
    pub fn registration_failed(&mut self, code: Option<i32>) -> (e: Error)
        ensures
            final(self)@ == old(self)@.with_bridge(old(self)@.bridge.deregistered()),
            e == Error::Registration(code),
    {
        proof {
            use_type_invariant(&*self);
        }
        let mut bridge = self.bridge;
        let r = bridge.registration_failed(code);
        self.bridge = bridge;
        r
    }

    /// Records that the multiplexer reported the socket readable.
    pub fn notify(&mut self)
        ensures
            final(self)@ == old(self)@.with_bridge(old(self)@.bridge.notified()),
    {
        proof {
            use_type_invariant(&*self);
        }
        let mut bridge = self.bridge;
        let r = bridge.notify();
        self.bridge = bridge;
        r
    }

    /// The state of the readiness slot.
    pub fn poll_ready(&self) -> (s: Slot)
        ensures
            s == self@.bridge.slot,
    {
        self.bridge.poll_ready()
    }

    /// Clears the readiness slot, after a receive attempt found nothing.
    pub fn clear_ready(&mut self)
        ensures
            final(self)@ == old(self)@.with_bridge(old(self)@.bridge.cleared()),
    {
        proof {
            use_type_invariant(&*self);
        }
        let mut bridge = self.bridge;
        let r = bridge.clear_ready();
        self.bridge = bridge;
        r
    }

    /// The same socket with its readiness slot in the state `slot`.
    pub(crate) fn with_slot(&self, slot: Slot) -> (s: MonitorSocket)
        ensures
            s@ == self@.with_slot(slot),
    {
        proof {
            use_type_invariant(self);
        }
        MonitorSocket {
            fd: self.fd,
            bits: self.bits,
            descriptor_flags: self.descriptor_flags,
            status_flags: self.status_flags,
            bridge: ReadinessBridge { registration: self.bridge.registration, slot },
        }
    }

    /// Registers the socket with the scheduler of its stream.
    pub(crate) fn attach(&mut self) -> (r: Result<(), Error>)
        ensures
            *final(self) == old(self).attached(),
            final(self)@ == old(self)@.with_bridge(
                old(self)@.bridge.registered(Registration::Scheduler),
            ),
            r == (if old(self)@.bridge.is_registered() {
                Err::<(), Error>(Error::AlreadyRegistered)
            } else {
                Ok::<(), Error>(())
            }),
    {
        proof {
            use_type_invariant(&*self);
        }
        let mut bridge = self.bridge;
        let r = bridge.attach();
        self.bridge = bridge;
        r
    }
}

} // verus!
