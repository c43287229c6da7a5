//! The context of the native library.

use vstd::prelude::*;

verus! {

/// The token of a native object: its address, which is never zero.
#[derive(Debug)]
pub struct Handle {
    raw: usize,
}

impl View for Handle {
    type V = usize;

    closed spec fn view(&self) -> usize {
        self.raw
    }
}

impl Handle {
    #[verifier::type_invariant]
    spec fn is_set(self) -> bool {
        self.raw != 0
    }

    /// Makes a token of an address that is not zero.
    pub fn new(raw: usize) -> (h: Handle)
        requires
            raw != 0,
        ensures
            h@ == raw,
    {
        Handle { raw }
    }

    /// The address. It is never zero.
    pub fn get(&self) -> (raw: usize)
        ensures
            raw == self@,
            raw != 0,
    {
        proof {
            use_type_invariant(self);
        }
        self.raw
    }
}

/// A handle on the context of the native library, as a token. The library
/// counts the handles on a context; to take and to give back a handle is the
/// caller's part.
#[derive(Debug)]
pub struct Context {
    handle: Handle,
}

impl View for Context {
    type V = usize;

    closed spec fn view(&self) -> usize {
        self.handle@
    }
}

impl Context {

    /// Makes a context of the token that the native library gave for it.
    /// The library gives zero where it could not make a context, and no
    /// context is made of that.
    pub fn new(handle: usize) -> (c: Context)
        requires
            handle != 0,
        ensures
            c@ == handle,
    {
        Context { handle: Handle::new(handle) }
    }

    /// The token, for calls into the native library. It is never zero.
    pub fn as_ptr(&self) -> (handle: usize)
        ensures
            handle == self@,
            handle != 0,
    {
        self.handle.get()
    }
}

impl Clone for Context {
    /// A second handle on the same context.
    fn clone(&self) -> (c: Context)
        ensures
            c@ == self@,
    {
        Context { handle: Handle::new(self.handle.get()) }
    }
}

} // verus!
