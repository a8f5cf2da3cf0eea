//! The failures a store reports.
use vstd::prelude::*;

verus! {

#[verifier::external_type_specification]
#[verifier::external_body]
pub struct ExIoError(std::io::Error);

#[verifier::external_type_specification]
#[verifier::external_body]
pub struct ExJsonError(serde_json::Error);

/// Why an operation on a store failed.
#[derive(Debug)]
pub enum ConfigstoreError {
    /// The platform has no configuration directory to put the store in.
    DirectoryResolution,
    /// Creating the directory, or opening, reading or writing an entry file,
    /// failed; the cause is kept.
    Io(std::io::Error),
    /// A value could not be encoded, or an entry's contents do not decode
    /// into the requested shape.
    Serialization(serde_json::Error),
}

} // verus!

verus! {

impl From<std::io::Error> for ConfigstoreError {
    fn from(e: std::io::Error) -> (r: ConfigstoreError) {
        ConfigstoreError::Io(e)
    }
}

impl vstd::std_specs::convert::FromSpecImpl<std::io::Error> for ConfigstoreError {
    open spec fn obeys_from_spec() -> bool {
        true
    }

    open spec fn from_spec(e: std::io::Error) -> ConfigstoreError {
        ConfigstoreError::Io(e)
    }
}

impl From<serde_json::Error> for ConfigstoreError {
    fn from(e: serde_json::Error) -> (r: ConfigstoreError) {
        ConfigstoreError::Serialization(e)
    }
}

impl vstd::std_specs::convert::FromSpecImpl<serde_json::Error> for ConfigstoreError {
    open spec fn obeys_from_spec() -> bool {
        true
    }

    open spec fn from_spec(e: serde_json::Error) -> ConfigstoreError {
        ConfigstoreError::Serialization(e)
    }
}

/// The outcome of a file system step: its value, or its cause as an I/O
/// failure.
pub fn io_outcome<T>(r: Result<T, std::io::Error>) -> (out: Result<T, ConfigstoreError>)
    ensures
        match r {
            Ok(v) => out == Ok::<T, ConfigstoreError>(v),
            Err(e) => out matches Err(ConfigstoreError::Io(c)) && c == e,
        },
{
    match r {
        Ok(v) => Ok(v),
        Err(e) => Err(ConfigstoreError::from(e)),
    }
}

/// The outcome of encoding or decoding a document: its value, or its cause
/// as a serialization failure.
pub fn json_outcome<T>(r: Result<T, serde_json::Error>) -> (out: Result<T, ConfigstoreError>)
    ensures
        match r {
            Ok(v) => out == Ok::<T, ConfigstoreError>(v),
            Err(e) => out matches Err(ConfigstoreError::Serialization(c)) && c == e,
        },
{
    match r {
        Ok(v) => Ok(v),
        Err(e) => Err(ConfigstoreError::from(e)),
    }
}

} // verus!
