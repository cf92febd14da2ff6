//! Immutable byte buffers. Code and calldata are held in `bytes::Bytes`; the
//! functions here are what the machine needs to read and to make one.

use bytes::Bytes;
use vstd::prelude::*;

verus! {

#[verifier::external_type_specification]
#[verifier::external_body]
pub struct ExBytes(bytes::Bytes);

/// The bytes that a buffer holds, in order.
pub uninterp spec fn bytes_seq(buffer: Bytes) -> Seq<u8>;

/// `AsRef<[u8]>::as_ref` of `Bytes`: the buffer's bytes as a slice.
#[verifier::external_body]
pub(crate) fn bytes_as_slice(buffer: &Bytes) -> (r: &[u8])
    ensures
        r@ == bytes_seq(*buffer),
{
    buffer.as_ref()
}

/// `Clone::clone` of `Bytes`: a second handle on the same bytes.
#[verifier::external_body]
pub(crate) fn bytes_clone(buffer: &Bytes) -> (r: Bytes)
    ensures
        bytes_seq(r) == bytes_seq(*buffer),
{
    buffer.clone()
}

/// `Bytes::new`: a buffer that holds nothing.
#[verifier::external_body]
pub(crate) fn bytes_new() -> (r: Bytes)
    ensures
        bytes_seq(r) == Seq::<u8>::empty(),
{
    Bytes::new()
}

} // verus!
