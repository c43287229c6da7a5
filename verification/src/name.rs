//! Names as the native library takes them.
//!
//! The native library takes a name as a run of bytes that ends at the first
//! NUL byte. A name is therefore kept with one NUL byte at its end and none
//! before it.

use vstd::prelude::*;
use vstd::string::is_ascii_spec_bytes;
use vstd::string::StringSliceAdditionalSpecFns;
use crate::error::Error;

verus! {

/// Whether a name can be handed to the native library: it holds no NUL byte.
pub open spec fn is_name(bytes: Seq<u8>) -> bool {
    forall|i: int| 0 <= i < bytes.len() ==> bytes[i] != 0u8
}

/// Whether `bytes` holds no NUL byte.
pub fn check_name(bytes: &[u8]) -> (ok: bool)
    ensures
        ok == is_name(bytes@),
{
    let mut i: usize = 0;
    while i < bytes.len()
        invariant
            i <= bytes.len(),
            forall|j: int| 0 <= j < i ==> bytes@[j] != 0u8,
        decreases bytes.len() - i,
    {
        if bytes[i] == 0 {
            return false;
        }
        i = i + 1;
    }
    true
}

/// A name with its terminating NUL byte.
#[derive(Debug)]
pub struct CName {
    bytes: Vec<u8>,
}

impl View for CName {
    type V = Seq<u8>;

    /// The name, without the NUL byte at its end.
    closed spec fn view(&self) -> Seq<u8> {
        self.bytes@.drop_last()
    }
}

impl CName {
    #[verifier::type_invariant]
    spec fn terminated(self) -> bool {
        &&& self.bytes@.len() > 0
        &&& self.bytes@.last() == 0u8
        &&& is_name(self.bytes@.drop_last())
    }

    /// Makes a name of its bytes. Bytes that hold a NUL byte are refused.
    pub fn new(name: &[u8]) -> (r: Result<CName, Error>)
        ensures
            match r {
                Ok(n) => is_name(name@) && n@ == name@,
                Err(e) => !is_name(name@) && e == Error::InvalidName,
            },
    {
        if !check_name(name) {
            return Err(Error::InvalidName);
        }
        let mut bytes: Vec<u8> = Vec::new();
        let mut i: usize = 0;
        while i < name.len()
            invariant
                i <= name.len(),
                bytes@ =~= name@.take(i as int),
            decreases name.len() - i,
        {
            bytes.push(name[i]);
            i = i + 1;
        }
        assert(name@.take(name.len() as int) =~= name@);
        bytes.push(0);
        assert(bytes@.drop_last() =~= name@);
        Ok(CName { bytes })
    }

    /// The bytes to hand to the native library: the name and one NUL byte.
    pub fn as_bytes(&self) -> (bytes: &[u8])
        ensures
            bytes@ == self@.push(0u8),
            is_name(self@),
    {
        proof {
            use_type_invariant(self);
            assert(self.bytes@ =~= self.bytes@.drop_last().push(0u8));
        }
        self.bytes.as_slice()
    }
}

impl Clone for CName {
    fn clone(&self) -> (n: CName)
        ensures
            n@ == self@,
    {
        proof {
            use_type_invariant(self);
        }
        let bytes = vstd::slice::slice_to_vec(self.bytes.as_slice());
        CName { bytes }
    }
}

/// Makes a name of a text that is known to hold no NUL byte.
pub(crate) fn literal(text: &str) -> (n: CName)
    requires
        is_name(text.spec_bytes()),
    ensures
        n@ == text.spec_bytes(),
{
    match CName::new(text.as_bytes()) {
        Ok(n) => n,
        Err(_) => vstd::pervasive::unreached(),
    }
}

/// The bytes of the names that this crate knows.
pub proof fn lemma_known_names()
    ensures
        "udev".spec_bytes() == seq![117u8, 100, 101, 118],
        "usb".spec_bytes() == seq![117u8, 115, 98],
        "usb_device".spec_bytes() == seq![117u8, 115, 98, 95, 100, 101, 118, 105, 99, 101],
        is_name("udev".spec_bytes()),
        is_name("usb".spec_bytes()),
        is_name("usb_device".spec_bytes()),
{
    reveal_strlit("udev");
    reveal_strlit("usb");
    reveal_strlit("usb_device");
    is_ascii_spec_bytes("udev");
    is_ascii_spec_bytes("usb");
    is_ascii_spec_bytes("usb_device");
    assert("udev".spec_bytes() =~= seq![117u8, 100, 101, 118]);
    assert("usb".spec_bytes() =~= seq![117u8, 115, 98]);
    assert("usb_device".spec_bytes() =~= seq![117u8, 115, 98, 95, 100, 101, 118, 105, 99, 101]);
}

} // verus!
