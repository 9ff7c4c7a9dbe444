//! Declarations of the outside types that cross the library's trusted calls.
//! The values are opaque: they are only carried from a call to the place
//! where a failure of the library's own replaces them.
use vstd::prelude::*;

verus! {

/// The failure of std's I/O traits, as returned by the compressor's readers.
#[verifier::external_type_specification]
#[verifier::external_body]
pub struct ExIoError(std::io::Error);

/// The failure of the base64 decoder.
#[verifier::external_type_specification]
#[verifier::external_body]
pub struct ExDecodeError(base64::DecodeError);

} // verus!
