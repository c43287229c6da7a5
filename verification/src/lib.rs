//! Verified core of an asynchronous stream of kernel device events.
//!
//! The kernel announces hotplug and change events of devices on a
//! notification socket. This crate holds the decisions that turn that socket
//! into a stream of decoded events: which descriptor flags to fix when the
//! socket is wrapped, how a readiness slot is armed and cleared, and in which
//! order a receive attempt, a readiness check and a suspension follow each
//! other. System calls, calls into the native library and the scheduler stay
//! with the caller, who makes the calls that the state machines here ask for
//! and reports what they gave.
//!
//! The modules, from the leaves up:
//!
//! - [`util`], [`error`]: the status of a system call, and what can fail.
//! - [`name`], [`context`], [`device`], [`monitor`]: the objects of the
//!   native library, as tokens and plain values.
//! - [`event`]: the decoder from a received device to an event.
//! - [`flags`], [`socket`], [`bridge`]: wrapping a descriptor, and the
//!   readiness slot of the wrapped socket.
//! - [`builder`]: match rules for a monitor.
//! - [`stream`], [`drain`]: the stream of events, and what holds of it over
//!   many polls.
//! - [`reactor`]: the stream of devices that asks for readiness first.

pub mod util;
pub mod error;
pub mod name;
pub mod context;
pub mod device;
pub mod event;
pub mod monitor;
pub mod flags;
pub mod bridge;
pub mod socket;
pub mod builder;
pub mod stream;
pub mod drain;
pub mod reactor;

pub use crate::builder::MonitorBuilder;
pub use crate::context::Context;
pub use crate::device::Device;
pub use crate::error::Error;
pub use crate::event::{Event, EventType};
pub use crate::socket::MonitorSocket;
pub use crate::stream::AsyncMonitorSocket;
