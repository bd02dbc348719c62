//! Owned memory that can be bridged into dispatch data without a copy.

use vstd::prelude::*;
use vstd::utf8::encode_utf8;

verus! {

/// A value that owns a contiguous run of bytes.
///
/// Dispatch borrows the bytes for as long as the data object that wraps them
/// lives, and drops the owner afterwards.
pub trait HasMemory {
    /// The bytes owned by this value.
    fn as_slice(&self) -> &[u8];
}

impl HasMemory for String {
    /// The UTF-8 encoding of the string.
    fn as_slice(&self) -> (r: &[u8])
        ensures
            r@ == encode_utf8(self@),
    {
        self.as_str().as_bytes()
    }
}

impl HasMemory for Box<[u8]> {
    /// The boxed bytes themselves.
    fn as_slice(&self) -> (r: &[u8])
        ensures
            r@ == (**self)@,
    {
        &**self
    }
}

} // verus!
