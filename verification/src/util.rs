//! Conversion of the status of a system call into a `Result`.

use vstd::prelude::*;
use vstd::std_specs::ops::NegSpec;
use vstd::std_specs::cmp::PartialEqSpec;
use std::ops::Neg;

verus! {

/// Declares `std::io::Error` as an opaque type.
#[verifier::external_type_specification]
#[verifier::external_body]
pub struct ExIoError(std::io::Error);

/// Calls `std::io::Error::last_os_error`, which reads the error number that
/// the calling thread's last failed system call left behind. Nothing is
/// claimed of the value.
#[verifier::external_body]
pub(crate) fn last_os_error() -> std::io::Error {
    std::io::Error::last_os_error()
}

/// Integer types that have the value one.
pub trait One: Sized {
    /// The value one of this type.
    spec fn spec_one() -> Self;

    fn one() -> (r: Self)
        ensures
            r == Self::spec_one(),
    ;
}

impl One for i8 {
    open spec fn spec_one() -> i8 {
        1
    }

    fn one() -> (r: i8) {
        1
    }
}

impl One for i16 {
    open spec fn spec_one() -> i16 {
        1
    }

    fn one() -> (r: i16) {
        1
    }
}

impl One for i32 {
    open spec fn spec_one() -> i32 {
        1
    }

    fn one() -> (r: i32) {
        1
    }
}

impl One for i64 {
    open spec fn spec_one() -> i64 {
        1
    }

    fn one() -> (r: i64) {
        1
    }
}

impl One for isize {
    open spec fn spec_one() -> isize {
        1
    }

    fn one() -> (r: isize) {
        1
    }
}

impl One for u8 {
    open spec fn spec_one() -> u8 {
        1
    }

    fn one() -> (r: u8) {
        1
    }
}

impl One for u16 {
    open spec fn spec_one() -> u16 {
        1
    }

    fn one() -> (r: u16) {
        1
    }
}

impl One for u32 {
    open spec fn spec_one() -> u32 {
        1
    }

    fn one() -> (r: u32) {
        1
    }
}

impl One for u64 {
    open spec fn spec_one() -> u64 {
        1
    }

    fn one() -> (r: u64) {
        1
    }
}

impl One for usize {
    open spec fn spec_one() -> usize {
        1
    }

    fn one() -> (r: usize) {
        1
    }
}

/// Whether `t` is the value that a failed system call returns: minus one.
pub open spec fn is_failure<T: One + PartialEq + Neg<Output = T>>(t: T) -> bool {
    t.eq_spec(&T::spec_one().neg_spec())
}

/// Turns the status of a system call into a `Result`: minus one is the
/// failure, reported with the error of the operating system, and every other
/// value is handed back.
pub fn cvt<T: One + PartialEq + Neg<Output = T>>(t: T) -> (r: Result<T, std::io::Error>)
    requires
        T::spec_one().neg_req(),
    ensures
        T::obeys_eq_spec() && T::obeys_neg_spec() ==> (r is Err <==> is_failure(t)),
        r matches Ok(v) ==> v == t,
{
    let one: T = T::one();
    if t == one.neg() {
        Err(last_os_error())
    } else {
        Ok(t)
    }
}

} // verus!
