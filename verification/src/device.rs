//! Devices as the stream hands them out.
//!
//! The native library owns a device. What this crate reads of one is copied
//! when the device is received: the handle, as a token, and the raw bytes of
//! the properties, each absent where the library has no value for it.

use vstd::prelude::*;
use vstd::slice::slice_to_vec;
use vstd::utf8::{decode_utf8, valid_utf8};
use crate::error::Error;

verus! {

/// Calls `std::str::from_utf8` and copies the text where the bytes are
/// accepted. The bytes are accepted exactly where they are well-formed
/// UTF-8, and the text is then the characters that they encode.
#[verifier::external_body]
fn text_of(bytes: &[u8]) -> (r: Option<String>)
    ensures
        r is Some <==> valid_utf8(bytes@),
        r matches Some(s) ==> s@ == decode_utf8(bytes@),
{
    match std::str::from_utf8(bytes) {
        Ok(s) => Some(s.to_string()),
        Err(_) => None,
    }
}

/// A device that the kernel reported.
#[derive(Debug)]
pub struct Device {
    handle: usize,
    devpath: Option<Vec<u8>>,
    action: Option<Vec<u8>>,
}

/// What a [`Device`] is, as plain values.
pub struct DeviceView {
    /// The token of the native object. Never zero.
    pub handle: usize,
    /// The path of the device below the system directory, as raw bytes.
    pub devpath: Option<Seq<u8>>,
    /// The name of what happened to the device, as raw bytes.
    pub action: Option<Seq<u8>>,
}

/// The bytes of an optional byte vector.
pub open spec fn bytes_of(raw: Option<Vec<u8>>) -> Option<Seq<u8>> {
    match raw {
        Some(v) => Some(v@),
        None => None,
    }
}

/// The text of a property: an absent property has none, and neither has one
/// that is not well-formed UTF-8.
pub open spec fn property_text(raw: Option<Seq<u8>>) -> Result<Seq<char>, Error> {
    match raw {
        None => Err(Error::Absent),
        Some(bytes) => if valid_utf8(bytes) {
            Ok(decode_utf8(bytes))
        } else {
            Err(Error::Encoding)
        },
    }
}

/// The characters of a text that was read, or the failure to read it.
pub open spec fn text_view(r: Result<String, Error>) -> Result<Seq<char>, Error> {
    match r {
        Ok(s) => Ok(s@),
        Err(e) => Err(e),
    }
}

/// Reads a property as text.
fn read_property(raw: &Option<Vec<u8>>) -> (r: Result<String, Error>)
    ensures
        text_view(r) == property_text(bytes_of(*raw)),
{
    match raw {
        None => Err(Error::Absent),
        Some(bytes) => match text_of(bytes.as_slice()) {
            Some(text) => Ok(text),
            None => Err(Error::Encoding),
        },
    }
}

/// Copies an optional byte vector.
fn copy_bytes(raw: &Option<Vec<u8>>) -> (r: Option<Vec<u8>>)
    ensures
        bytes_of(r) == bytes_of(*raw),
{
    match raw {
        Some(v) => Some(slice_to_vec(v.as_slice())),
        None => None,
    }
}

impl View for Device {
    type V = DeviceView;

    closed spec fn view(&self) -> DeviceView {
        DeviceView {
            handle: self.handle,
            devpath: bytes_of(self.devpath),
            action: bytes_of(self.action),
        }
    }
}

impl Device {
    #[verifier::type_invariant]
    spec fn handle_is_set(self) -> bool {
        self.handle != 0
    }

    /// Makes a device of the token of its native object and of the
    /// properties that were read from it. The token of a device is never
    /// zero.
    pub fn from_raw_part(handle: usize, devpath: Option<Vec<u8>>, action: Option<Vec<u8>>) -> (d:
        Device)
        requires
            handle != 0,
        ensures
            d@ == (DeviceView { handle, devpath: bytes_of(devpath), action: bytes_of(action) }),
    {
        Device { handle, devpath, action }
    }

    /// The token of the native object.
    pub fn handle(&self) -> (h: usize)
        ensures
            h == self@.handle,
            h != 0,
    {
        proof {
            use_type_invariant(self);
        }
        self.handle
    }

    /// The path of the device below the system directory.
    pub fn get_devpath(&self) -> (r: Result<String, Error>)
        ensures
            text_view(r) == property_text(self@.devpath),
    {
        read_property(&self.devpath)
    }

    /// The name of what happened to the device.
    pub fn get_action(&self) -> (r: Result<String, Error>)
        ensures
            text_view(r) == property_text(self@.action),
    {
        read_property(&self.action)
    }

    /// The raw bytes of the name of what happened to the device.
    pub fn action_bytes(&self) -> (r: Option<&[u8]>)
        ensures
            r is Some <==> self@.action is Some,
            r matches Some(bytes) ==> self@.action == Some(bytes@),
    {
        match &self.action {
            Some(v) => Some(v.as_slice()),
            None => None,
        }
    }
}

impl Clone for Device {
    /// A second handle on the same native object, with the same properties.
    fn clone(&self) -> (d: Device)
        ensures
            d@ == self@,
    {
        proof {
            use_type_invariant(self);
        }
        Device {
            handle: self.handle,
            devpath: copy_bytes(&self.devpath),
            action: copy_bytes(&self.action),
        }
    }
}

} // verus!
