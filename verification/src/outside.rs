//! Types of the standard library that the library carries through its values.
use vstd::prelude::*;

verus! {

/// An I/O error of the standard library; opaque to proofs.
#[verifier::external_type_specification]
#[verifier::external_body]
pub struct ExIoError(std::io::Error);

/// An integer parsing error of the standard library; opaque to proofs.
#[verifier::external_type_specification]
#[verifier::external_body]
pub struct ExParseIntError(std::num::ParseIntError);

} // verus!
