//! Trusted interface to the reference-counted byte buffer of the `bytes`
//! crate, the alternate owned storage for text and byte values.
//!
//! The buffer is opaque to the verifier; its contents are named by
//! [`bytes_content`], and each operation the library relies on is declared
//! with the contract the crate's source shows.

use vstd::prelude::*;

verus! {

/// `bytes::Bytes`, declared so it can stand in signatures and fields.
#[verifier::external_type_specification]
#[verifier::external_body]
pub struct ExBytes(bytes::Bytes);

/// The byte contents of a reference-counted buffer.
pub uninterp spec fn bytes_content(b: bytes::Bytes) -> Seq<u8>;

/// Relies on `<Bytes as From<Vec<u8>>>::from`: the new buffer holds exactly
/// the vector's bytes.
#[verifier::external_body]
pub(crate) fn bytes_from_vec(v: Vec<u8>) -> (r: bytes::Bytes)
    ensures
        bytes_content(r) == v@,
{
    bytes::Bytes::from(v)
}

/// Relies on `<Bytes as AsRef<[u8]>>::as_ref`: a view of the buffer's bytes.
#[verifier::external_body]
pub(crate) fn bytes_as_slice(b: &bytes::Bytes) -> (r: &[u8])
    ensures
        r@ == bytes_content(*b),
{
    b.as_ref()
}

/// Relies on `<Bytes as Clone>::clone`: a clone shares the same bytes.
#[verifier::external_body]
pub(crate) fn bytes_clone(b: &bytes::Bytes) -> (r: bytes::Bytes)
    ensures
        bytes_content(r) == bytes_content(*b),
{
    b.clone()
}

} // verus!
