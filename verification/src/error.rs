//! Errors of the library.
use vstd::prelude::*;

verus! {

/// Everything that can go wrong in the service.
#[derive(Debug)]
pub enum Error {
    ConfigIncomplete(&'static str),
    ConfigParse(String),
    Io(std::io::Error),
    InvalidPin,
    InvalidDuration,
    InvalidSessionToken,
    ParseInt(std::num::ParseIntError),
    SecretUnseal,
    SecretSeal,
    Time,
    SnapshotUnavailable(String),
}

/// Result with the library's error.
pub type Result<T> = std::result::Result<T, Error>;

} // verus!
