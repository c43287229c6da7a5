//! Fixing the flags of a descriptor when a socket is wrapped.
//!
//! A wrapped socket must be non-blocking and close-on-exec. Each flag is
//! read first and written only where it is missing, so that no other flag of
//! the descriptor is touched. The system calls are the caller's: a
//! [`FlagSetup`] names the next one, and takes its status.

use vstd::prelude::*;
use crate::error::Error;
use crate::socket::{MonitorSocket, MonitorSocketView};
use crate::bridge::ReadinessBridge;
use crate::util::cvt;

verus! {

/// Reads `libc::FD_CLOEXEC`, the close-on-exec bit among the descriptor
/// flags. Its value is that of the platform. All that is claimed of it is
/// that it is not zero, which holds of every value that libc gives it.
#[verifier::external_body]
fn fd_cloexec() -> (mask: i32)
    ensures
        mask != 0,
{
    libc::FD_CLOEXEC
}

/// Reads `libc::O_NONBLOCK`, the non-blocking bit among the status flags.
/// Its value is that of the platform. All that is claimed of it is that it
/// is not zero, which holds of every value that libc gives it.
#[verifier::external_body]
fn o_nonblock() -> (mask: i32)
    ensures
        mask != 0,
{
    libc::O_NONBLOCK
}

/// The two flag masks that a wrapped socket must hold.
#[derive(Clone, Copy, Debug, PartialEq, Eq, Structural)]
pub struct FlagBits {
    /// Mask among the descriptor flags.
    pub close_on_exec: i32,
    /// Mask among the status flags.
    pub non_blocking: i32,
}

impl FlagBits {
    /// Neither mask is empty. With an empty mask a flag would count as set
    /// on every descriptor and would never be written.
    pub open spec fn effective(self) -> bool {
        self.close_on_exec != 0 && self.non_blocking != 0
    }

    /// The masks of the platform. Neither is empty.
    pub(crate) fn native() -> (bits: FlagBits)
        ensures
            bits.effective(),
    {
        FlagBits { close_on_exec: fd_cloexec(), non_blocking: o_nonblock() }
    }
}

/// Whether `flags` holds every bit of `mask`.
pub open spec fn has_bits(flags: i32, mask: i32) -> bool {
    flags & mask == mask
}

/// `flags` with every bit of `mask` set and no other bit changed.
pub open spec fn with_bits(flags: i32, mask: i32) -> i32 {
    flags | mask
}

/// A system call on the descriptor that the caller is asked to make.
#[derive(Clone, Copy, Debug, PartialEq, Eq, Structural)]
pub enum FlagRequest {
    /// Read the descriptor flags.
    GetDescriptorFlags,
    /// Write the descriptor flags.
    SetDescriptorFlags(i32),
    /// Read the status flags.
    GetStatusFlags,
    /// Write the status flags.
    SetStatusFlags(i32),
}

/// Setting `mask` in flags that hold it changes nothing, and the result of
/// setting it always holds it.
pub proof fn lemma_with_bits(flags: i32, mask: i32)
    ensures
        has_bits(with_bits(flags, mask), mask),
        has_bits(flags, mask) ==> with_bits(flags, mask) == flags,
{
    assert((flags | mask) & mask == mask) by (bit_vector);
    assert(flags & mask == mask ==> flags | mask == flags) by (bit_vector);
}

/// Decides what one flag class needs: `None` where `flags` holds `mask`
/// already, else the value to write.
pub fn missing_bits(flags: i32, mask: i32) -> (r: Option<i32>)
    ensures
        r == (if has_bits(flags, mask) { None } else { Some(with_bits(flags, mask)) }),
{
    if (flags & mask) != mask {
        Some(flags | mask)
    } else {
        None
    }
}

/// Where a flag setup stands: which system call it waits for.
#[derive(Clone, Copy, Debug, PartialEq, Eq, Structural)]
pub enum Stage {
    /// The descriptor flags are being read.
    QueryDescriptor,
    /// The descriptor flags are being written.
    UpdateDescriptor,
    /// The status flags are being read.
    QueryStatus,
    /// The status flags are being written.
    UpdateStatus,
}

/// The wrapping of a descriptor, between two system calls.
#[derive(Debug)]
pub struct FlagSetup {
    fd: i32,
    bits: FlagBits,
    stage: Stage,
    descriptor_flags: i32,
    status_flags: i32,
}

/// What a [`FlagSetup`] is, as plain values. `descriptor_flags` and
/// `status_flags` hold what was last read or is being written; before the
/// first answer they are zero.
pub struct FlagSetupView {
    pub fd: i32,
    pub bits: FlagBits,
    pub stage: Stage,
    pub descriptor_flags: i32,
    pub status_flags: i32,
}

/// What follows one answer to a flag setup.
#[derive(Debug)]
pub enum SetupStep {
    /// Another system call is needed: make the one that the setup asks for.
    Call(FlagSetup),
    /// The flags are fixed and the socket is wrapped.
    Done(MonitorSocket),
    /// A system call failed. The descriptor is not wrapped.
    Failed(Error),
}

/// What a [`SetupStep`] is, as plain values.
pub enum SetupStepView {
    Call(FlagSetupView),
    Done(MonitorSocketView),
    Failed(Error),
}

impl View for FlagSetup {
    type V = FlagSetupView;

    closed spec fn view(&self) -> FlagSetupView {
        FlagSetupView {
            fd: self.fd,
            bits: self.bits,
            stage: self.stage,
            descriptor_flags: self.descriptor_flags,
            status_flags: self.status_flags,
        }
    }
}

impl View for SetupStep {
    type V = SetupStepView;

    open spec fn view(&self) -> SetupStepView {
        match *self {
            SetupStep::Call(setup) => SetupStepView::Call(setup@),
            SetupStep::Done(socket) => SetupStepView::Done(socket@),
            SetupStep::Failed(e) => SetupStepView::Failed(e),
        }
    }
}

impl FlagSetupView {
    /// The setup of `fd` before its first system call.
    pub open spec fn initial(fd: i32, bits: FlagBits) -> FlagSetupView {
        FlagSetupView {
            fd,
            bits,
            stage: Stage::QueryDescriptor,
            descriptor_flags: 0,
            status_flags: 0,
        }
    }

    pub open spec fn is_initial(self) -> bool {
        self == Self::initial(self.fd, self.bits)
    }

    /// The flags that the setup has established so far hold their bit.
    pub open spec fn wf(self) -> bool {
        &&& self.stage != Stage::QueryDescriptor ==> has_bits(
            self.descriptor_flags,
            self.bits.close_on_exec,
        )
        &&& self.stage == Stage::UpdateStatus ==> has_bits(
            self.status_flags,
            self.bits.non_blocking,
        )
    }

    /// The system call that the setup waits for.
    pub open spec fn request(self) -> FlagRequest {
        match self.stage {
            Stage::QueryDescriptor => FlagRequest::GetDescriptorFlags,
            Stage::UpdateDescriptor => FlagRequest::SetDescriptorFlags(self.descriptor_flags),
            Stage::QueryStatus => FlagRequest::GetStatusFlags,
            Stage::UpdateStatus => FlagRequest::SetStatusFlags(self.status_flags),
        }
    }

    /// The socket that the setup ends in, for given status flags.
    pub open spec fn socket(self, status_flags: i32) -> MonitorSocketView {
        MonitorSocketView {
            fd: self.fd,
            bits: self.bits,
            descriptor_flags: self.descriptor_flags,
            status_flags,
            bridge: ReadinessBridge::idle(),
        }
    }

    /// What follows when the system call that the setup waits for succeeds
    /// with `status`. A query answers with the flags; the status of an update
    /// says nothing more than that it succeeded.
    pub open spec fn next(self, status: i32) -> SetupStepView {
        match self.stage {
            Stage::QueryDescriptor => if has_bits(status, self.bits.close_on_exec) {
                SetupStepView::Call(
                    FlagSetupView { stage: Stage::QueryStatus, descriptor_flags: status, ..self },
                )
            } else {
                SetupStepView::Call(
                    FlagSetupView {
                        stage: Stage::UpdateDescriptor,
                        descriptor_flags: with_bits(status, self.bits.close_on_exec),
                        ..self
                    },
                )
            },
            Stage::UpdateDescriptor => SetupStepView::Call(
                FlagSetupView { stage: Stage::QueryStatus, ..self },
            ),
            Stage::QueryStatus => if has_bits(status, self.bits.non_blocking) {
                SetupStepView::Done(self.socket(status))
            } else {
                SetupStepView::Call(
                    FlagSetupView {
                        stage: Stage::UpdateStatus,
                        status_flags: with_bits(status, self.bits.non_blocking),
                        ..self
                    },
                )
            },
            Stage::UpdateStatus => SetupStepView::Done(self.socket(self.status_flags)),
        }
    }
}

impl FlagSetup {
    #[verifier::type_invariant]
    spec fn established(self) -> bool {
        self@.wf()
    }

    /// Starts to wrap the descriptor `fd` for the masks `bits`. The first
    /// system call reads the descriptor flags.
    pub fn begin(fd: i32, bits: FlagBits) -> (setup: FlagSetup)
        ensures
            setup@ == FlagSetupView::initial(fd, bits),
    {
        FlagSetup { fd, bits, stage: Stage::QueryDescriptor, descriptor_flags: 0, status_flags: 0 }
    }

    /// The descriptor that is being wrapped.
    pub fn fd(&self) -> (fd: i32)
        ensures
            fd == self@.fd,
    {
        self.fd
    }

    /// The masks that the descriptor is wrapped for.
    pub fn bits(&self) -> (bits: FlagBits)
        ensures
            bits == self@.bits,
    {
        self.bits
    }

    /// The system call to make now.
    pub fn request(&self) -> (r: FlagRequest)
        ensures
            r == self@.request(),
            self@.wf(),
    {
        proof {
            use_type_invariant(self);
        }
        match self.stage {
            Stage::QueryDescriptor => FlagRequest::GetDescriptorFlags,
            Stage::UpdateDescriptor => FlagRequest::SetDescriptorFlags(self.descriptor_flags),
            Stage::QueryStatus => FlagRequest::GetStatusFlags,
            Stage::UpdateStatus => FlagRequest::SetStatusFlags(self.status_flags),
        }
    }

    /// Takes the status of the system call that was asked for, as the call
    /// returned it and right after it returned. Minus one is its failure,
    /// which ends the setup with the error that the operating system holds
    /// for it. Any other status moves the setup on: a flag that is in place
    /// is not written, a flag that is missing is written with the others
    /// kept.
    pub fn advance(self, status: i32) -> (step: SetupStep)
        ensures
            status == -1 ==> step@ is Failed && step@->Failed_0 is Setup,
            status != -1 ==> step@ == self@.next(status),
    {
        proof {
            use_type_invariant(&self);
        }
        let flags = match cvt(status) {
            Err(e) => {
                return SetupStep::Failed(Error::setup(&e));
            },
            Ok(flags) => flags,
        };
        let FlagSetup { fd, bits, stage, descriptor_flags, status_flags } = self;
        match stage {
            Stage::QueryDescriptor => {
                proof {
                    lemma_with_bits(flags, bits.close_on_exec);
                }
                match missing_bits(flags, bits.close_on_exec) {
                    Some(wanted) => SetupStep::Call(
                        FlagSetup {
                            fd,
                            bits,
                            stage: Stage::UpdateDescriptor,
                            descriptor_flags: wanted,
                            status_flags,
                        },
                    ),
                    None => SetupStep::Call(
                        FlagSetup {
                            fd,
                            bits,
                            stage: Stage::QueryStatus,
                            descriptor_flags: flags,
                            status_flags,
                        },
                    ),
                }
            },
            Stage::UpdateDescriptor => SetupStep::Call(
                FlagSetup { fd, bits, stage: Stage::QueryStatus, descriptor_flags, status_flags },
            ),
            Stage::QueryStatus => {
                proof {
                    lemma_with_bits(flags, bits.non_blocking);
                }
                match missing_bits(flags, bits.non_blocking) {
                    Some(wanted) => SetupStep::Call(
                        FlagSetup {
                            fd,
                            bits,
                            stage: Stage::UpdateStatus,
                            descriptor_flags,
                            status_flags: wanted,
                        },
                    ),
                    None => SetupStep::Done(
                        MonitorSocket::wrapped(fd, bits, descriptor_flags, flags),
                    ),
                }
            },
            Stage::UpdateStatus => SetupStep::Done(
                MonitorSocket::wrapped(fd, bits, descriptor_flags, status_flags),
            ),
        }
    }
}

impl Stage {
    /// How far a stage is into the setup.
    pub open spec fn rank(self) -> int {
        match self {
            Stage::QueryDescriptor => 0,
            Stage::UpdateDescriptor => 1,
            Stage::QueryStatus => 2,
            Stage::UpdateStatus => 3,
        }
    }
}

/// Wrapping a descriptor whose flags hold both bits already takes the two
/// queries and no write: the answer to the first query leads to the second
/// query, and the answer to that one to the socket.
pub proof fn law_fixed_flags_are_not_written(
    fd: i32,
    bits: FlagBits,
    descriptor_flags: i32,
    status_flags: i32,
)
    requires
        has_bits(descriptor_flags, bits.close_on_exec),
        has_bits(status_flags, bits.non_blocking),
    ensures
        FlagSetupView::initial(fd, bits).request() == FlagRequest::GetDescriptorFlags,
        FlagSetupView::initial(fd, bits).next(descriptor_flags) matches SetupStepView::Call(second)
            && second.request() == FlagRequest::GetStatusFlags && second.next(status_flags)
            == SetupStepView::Done(
            MonitorSocketView {
                fd,
                bits,
                descriptor_flags,
                status_flags,
                bridge: ReadinessBridge::idle(),
            },
        ),
{
}

/// A write follows a query only where the bit was missing from the answer,
/// and it writes the answer with that bit added: every other flag of the
/// descriptor is written back as it was read.
pub proof fn law_writes_add_only_the_missing_bit(s: FlagSetupView, status: i32)
    requires
        s.stage == Stage::QueryDescriptor || s.stage == Stage::QueryStatus,
    ensures
        match s.next(status) {
            SetupStepView::Call(t) => match t.request() {
                FlagRequest::SetDescriptorFlags(written) => {
                    &&& s.stage == Stage::QueryDescriptor
                    &&& !has_bits(status, s.bits.close_on_exec)
                    &&& written == status | s.bits.close_on_exec
                    &&& written & !s.bits.close_on_exec == status & !s.bits.close_on_exec
                },
                FlagRequest::SetStatusFlags(written) => {
                    &&& s.stage == Stage::QueryStatus
                    &&& !has_bits(status, s.bits.non_blocking)
                    &&& written == status | s.bits.non_blocking
                    &&& written & !s.bits.non_blocking == status & !s.bits.non_blocking
                },
                _ => true,
            },
            _ => true,
        },
{
    let c = s.bits.close_on_exec;
    let n = s.bits.non_blocking;
    assert((status | c) & !c == status & !c) by (bit_vector);
    assert((status | n) & !n == status & !n) by (bit_vector);
}

/// Every successful system call moves a setup strictly on, so that a setup
/// makes four calls at most, and the socket that it ends in holds both
/// flags.
pub proof fn law_setup_moves_on(s: FlagSetupView, status: i32)
    requires
        s.wf(),
    ensures
        match s.next(status) {
            SetupStepView::Call(t) => t.wf() && t.fd == s.fd && t.bits == s.bits && t.stage.rank()
                > s.stage.rank(),
            SetupStepView::Done(socket) => socket.flags_fixed() && socket.fd == s.fd && socket.bits
                == s.bits && !socket.bridge.is_registered(),
            SetupStepView::Failed(_) => false,
        },
{
    lemma_with_bits(status, s.bits.close_on_exec);
    lemma_with_bits(status, s.bits.non_blocking);
}

} // verus!
