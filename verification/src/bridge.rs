//! The readiness slot of a socket.
//!
//! A socket that is registered with a readiness facility has one slot, which
//! says whether the socket is believed readable. The facility sets the slot
//! when the kernel reports the socket readable; the consumer clears it when
//! a receive attempt found nothing. The slot is a machine of two states, so
//! that clearing it is an act of its own and not a side effect.

use vstd::prelude::*;
use crate::error::Error;

verus! {

/// Names a socket among those of one multiplexer.
#[derive(Clone, Copy, Debug, PartialEq, Eq, Structural)]
pub struct Token(pub usize);

/// The two states of a readiness slot.
#[derive(Clone, Copy, Debug, PartialEq, Eq, Structural)]
pub enum Slot {
    /// Nothing was reported since the slot was last cleared.
    Pending,
    /// The socket was reported readable and no receive attempt has yet
    /// found it empty.
    ReadyUnconsumed,
}

/// With whom a socket is registered.
#[derive(Clone, Copy, Debug, PartialEq, Eq, Structural)]
pub enum Registration {
    /// With nobody.
    Unregistered,
    /// With a multiplexer, under a token.
    Multiplexer(Token),
    /// With the scheduler that drives the stream of the socket.
    Scheduler,
}

/// The registration of a socket and its readiness slot.
#[derive(Clone, Copy, Debug, PartialEq, Eq, Structural)]
pub struct ReadinessBridge {
    pub registration: Registration,
    pub slot: Slot,
}

impl ReadinessBridge {
    /// The bridge of a socket that nobody watches.
    pub open spec fn idle() -> ReadinessBridge {
        ReadinessBridge { registration: Registration::Unregistered, slot: Slot::Pending }
    }

    pub open spec fn is_registered(self) -> bool {
        self.registration != Registration::Unregistered
    }

    /// The bridge once it is registered with `with`, where it was free.
    pub open spec fn registered(self, with: Registration) -> ReadinessBridge {
        if self.is_registered() {
            self
        } else {
            ReadinessBridge { registration: with, slot: self.slot }
        }
    }

    /// The bridge once the facility has let go of the socket.
    pub open spec fn deregistered(self) -> ReadinessBridge {
        Self::idle()
    }

    /// The bridge once the facility has reported the socket readable. A
    /// socket that nobody watches is reported by nobody.
    pub open spec fn notified(self) -> ReadinessBridge {
        if self.is_registered() {
            ReadinessBridge { registration: self.registration, slot: Slot::ReadyUnconsumed }
        } else {
            self
        }
    }

    /// The bridge once its slot is cleared.
    pub open spec fn cleared(self) -> ReadinessBridge {
        ReadinessBridge { registration: self.registration, slot: Slot::Pending }
    }

    pub fn new() -> (b: ReadinessBridge)
        ensures
            b == Self::idle(),
    {
        ReadinessBridge { registration: Registration::Unregistered, slot: Slot::Pending }
    }

    /// Whether the socket is registered.
    pub fn registered_with_any(&self) -> (r: bool)
        ensures
            r == self.is_registered(),
    {
        match self.registration {
            Registration::Unregistered => false,
            _ => true,
        }
    }

    /// Registers the socket with a multiplexer under `token`. A socket is
    /// registered once: a second registration is refused and changes nothing.
    pub fn register(&mut self, token: Token) -> (r: Result<Token, Error>)
        ensures
            *final(self) == old(self).registered(Registration::Multiplexer(token)),
            r == (if old(self).is_registered() {
                Err::<Token, Error>(Error::AlreadyRegistered)
            } else {
                Ok::<Token, Error>(token)
            }),
    {
        if self.registered_with_any() {
            Err(Error::AlreadyRegistered)
        } else {
            self.registration = Registration::Multiplexer(token);
            Ok(token)
        }
    }

    /// Registers the socket with the scheduler of its stream, under the same
    /// rule as [`ReadinessBridge::register`].
    pub fn attach(&mut self) -> (r: Result<(), Error>)
        ensures
            *final(self) == old(self).registered(Registration::Scheduler),
            r == (if old(self).is_registered() {
                Err::<(), Error>(Error::AlreadyRegistered)
            } else {
                Ok::<(), Error>(())
            }),
    {
        if self.registered_with_any() {
            Err(Error::AlreadyRegistered)
        } else {
            self.registration = Registration::Scheduler;
            Ok(())
        }
    }

    /// Changes the token of a socket that a multiplexer watches. A socket
    /// that no multiplexer watches is refused and nothing changes.
    pub fn reregister(&mut self, token: Token) -> (r: Result<Token, Error>)
        ensures
            old(self).registration is Multiplexer ==> r == Ok::<Token, Error>(token) && *final(self)
                == (ReadinessBridge {
                registration: Registration::Multiplexer(token),
                slot: old(self).slot,
            }),
            !(old(self).registration is Multiplexer) ==> r == Err::<Token, Error>(
                Error::Registration(None),
            ) && *final(self) == *old(self),
    {
        match self.registration {
            Registration::Multiplexer(_) => {
                self.registration = Registration::Multiplexer(token);
                Ok(token)
            },
            _ => Err(Error::Registration(None)),
        }
    }

    /// Lets go of the socket. On a socket that nobody watches this does
    /// nothing.
    pub fn deregister(&mut self)
        ensures
            *final(self) == old(self).deregistered(),
    {
        self.registration = Registration::Unregistered;
        self.slot = Slot::Pending;
    }

    /// Takes back a registration that the facility refused, and names the
    /// failure.
    pub fn registration_failed(&mut self, code: Option<i32>) -> (e: Error)
        ensures
            *final(self) == old(self).deregistered(),
            e == Error::Registration(code),
    {
        self.deregister();
        Error::Registration(code)
    }

    /// Records that the facility reported the socket readable.
    pub fn notify(&mut self)
        ensures
            *final(self) == old(self).notified(),
    {
        if self.registered_with_any() {
            self.slot = Slot::ReadyUnconsumed;
        }
    }

    /// The state of the slot.
    pub fn poll_ready(&self) -> (s: Slot)
        ensures
            s == self.slot,
    {
        self.slot
    }

    /// Clears the slot. To be called when a receive attempt found nothing,
    /// and before the consumer is suspended.
    pub fn clear_ready(&mut self)
        ensures
            *final(self) == old(self).cleared(),
    {
        self.slot = Slot::Pending;
    }
}

/// Letting go of a socket twice is the same as letting go of it once.
pub proof fn law_deregister_is_idempotent(b: ReadinessBridge)
    ensures
        b.deregistered().deregistered() == b.deregistered(),
        !b.deregistered().is_registered(),
{
}

/// A socket is registered at most once: whatever a second registration asks
/// for, the first one stands.
pub proof fn law_register_once(b: ReadinessBridge, first: Registration, second: Registration)
    requires
        first != Registration::Unregistered,
        !b.is_registered(),
    ensures
        b.registered(first).is_registered(),
        b.registered(first).registered(second) == b.registered(first),
{
}

/// A report that is followed by a clearing leaves the slot pending, and a
/// clearing never makes a slot ready: readiness comes from reports alone.
pub proof fn law_clear_then_pending(b: ReadinessBridge)
    ensures
        b.notified().cleared().slot == Slot::Pending,
        b.cleared().slot == Slot::Pending,
        b.cleared().registration == b.registration,
{
}

} // verus!
