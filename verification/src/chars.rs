//! Reference-counted owned text: the alternate representation of a string
//! value, logically equivalent to `String` but cheaply clonable.

use vstd::prelude::*;
use vstd::slice::slice_to_vec;
use vstd::string::StringSliceAdditionalSpecFns;
use vstd::utf8::decode_utf8;
use vstd::utf8::encode_utf8_decode_utf8;
use vstd::utf8::encode_utf8_valid_utf8;
use vstd::utf8::valid_utf8;

use crate::shared::bytes_as_slice;
use crate::shared::bytes_clone;
use crate::shared::bytes_content;
use crate::shared::bytes_from_vec;

verus! {

/// Owned text stored as the UTF-8 bytes of its characters in a shared,
/// reference-counted buffer.
pub struct Chars {
    bytes: bytes::Bytes,
}

/// Relies on `core::str::from_utf8`: it succeeds exactly on valid UTF-8 and
/// returns the text those bytes spell.
#[verifier::external_body]
fn str_from_utf8(v: &[u8]) -> (r: Option<&str>)
    ensures
        r is Some <==> valid_utf8(v@),
        r is Some ==> r->Some_0.spec_bytes() == v@,
{
    core::str::from_utf8(v).ok()
}

impl Chars {
    /// The characters this text holds.
    pub closed spec fn chars(self) -> Seq<char> {
        decode_utf8(bytes_content(self.bytes))
    }

    #[verifier::type_invariant]
    spec fn wf(self) -> bool {
        valid_utf8(bytes_content(self.bytes))
    }

    /// Copies a plain owned string into the shared representation.
    pub fn from_string(s: String) -> (r: Chars)
        ensures
            r.chars() == s@,
    {
        let v: Vec<u8> = slice_to_vec(s.as_str().as_bytes());
        let bytes = bytes_from_vec(v);
        proof {
            broadcast use encode_utf8_valid_utf8;

            encode_utf8_decode_utf8(s@);
        }
        Chars { bytes }
    }

    /// Borrows the text.
    pub fn as_str<'a>(&'a self) -> (r: &'a str)
        ensures
            r@ == self.chars(),
    {
        proof {
            use_type_invariant(&*self);
        }
        let sl = bytes_as_slice(&self.bytes);
        match str_from_utf8(sl) {
            Some(s) => {
                proof {
                    encode_utf8_decode_utf8(s@);
                }
                s
            },
            None => vstd::pervasive::unreached(),
        }
    }

    /// A cheap clone sharing the same buffer.
    pub fn shallow_clone(&self) -> (r: Chars)
        ensures
            r.chars() == self.chars(),
    {
        proof {
            use_type_invariant(&*self);
        }
        Chars { bytes: bytes_clone(&self.bytes) }
    }
}

} // verus!
