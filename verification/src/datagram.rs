//! Datagram payloads.

use vstd::prelude::*;
use vstd::slice::{slice_subrange, slice_to_vec};

verus! {

/// The size of a receive buffer, and so the longest payload relayed whole.
pub const BUFFER_SIZE: usize = 4096;

/// The payload of a datagram of `len` bytes received into `buf`: the first
/// `len` bytes, no fewer and no more, each as received.
pub fn payload_of(buf: &[u8], len: usize) -> (payload: Vec<u8>)
    requires
        len <= buf@.len(),
    ensures
        payload@ == buf@.subrange(0, len as int),
{
    slice_to_vec(slice_subrange(buf, 0, len))
}

/// A copy of `bytes`.
pub(crate) fn copy_of(bytes: &Vec<u8>) -> (copy: Vec<u8>)
    ensures
        copy@ == bytes@,
{
    slice_to_vec(bytes.as_slice())
}

} // verus!
