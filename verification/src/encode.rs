//! The base64 encoding of the binary document, behind a trusted wrapper.

use vstd::prelude::*;
use base64::Engine;

verus! {

/// The standard base64 encoding (with padding) of a byte sequence.
pub uninterp spec fn b64_of(bytes: Seq<u8>) -> Seq<char>;

/// Relies on base64's `STANDARD` engine (`Engine::encode`): the encoding
/// is a function of the input bytes alone. The length bound keeps the
/// engine's output-size computation from overflowing, on which it would
/// panic.
#[verifier::external_body]
pub(crate) fn b64_encode(b: &Vec<u8>) -> (r: String)
    requires
        b@.len() < 0x4000_0000,
    ensures
        r@ == b64_of(b@),
{
    base64::engine::general_purpose::STANDARD.encode(b.as_slice())
}

} // verus!
