//! The unified error type shared by every component of the library.

use vstd::prelude::*;
use vstd::string::StringExecFns;

verus! {

/// `std::io::Error` is held opaquely inside `BaseError::IOError`; the
/// library never reads it, only carries it and renders its text.
#[verifier::external_type_specification]
#[verifier::external_body]
pub struct ExIoError(std::io::Error);

/// Core library error enum.
#[derive(Debug)]
pub enum BaseError {
    /// A settings-merge or override failure.
    ConfigError(String),
    /// A dispatch-time unknown command, or a failure a command reports.
    CommandError(String),
    /// An underlying OS-level I/O failure, wrapped as it was raised.
    IOError(std::io::Error),
    /// A type-level mismatch between the configuration tree and the
    /// target settings structure.
    DeserializeError(String),
    /// Reserved for environment-variable failures raised by commands.
    EnvError(String),
    /// Catch-all, never produced by the library itself.
    Unknown,
}

/// Custom Result type for the core library.
pub type BaseResult<T> = Result<T, BaseError>;

impl BaseError {
    /// Create a new configuration error carrying `msg`.
    pub fn config_error(msg: &str) -> (r: Self)
        ensures
            r matches BaseError::ConfigError(m) && m@ == msg@,
    {
        BaseError::ConfigError(msg.to_owned())
    }

    /// Create a new command error carrying `msg`.
    pub fn command_error(msg: &str) -> (r: Self)
        ensures
            r matches BaseError::CommandError(m) && m@ == msg@,
    {
        BaseError::CommandError(msg.to_owned())
    }

    /// The human-readable message of this error: a fixed variant prefix
    /// followed by the carried message, if any.
    pub fn message(&self) -> (r: String)
        ensures
            self matches BaseError::ConfigError(m) ==> r@ == "Configuration error: "@ + m@,
            self matches BaseError::CommandError(m) ==> r@ == "Command error: "@ + m@,
            self matches BaseError::IOError(_) ==> r@.len() >= "I/O error: "@.len()
                && r@.subrange(0, "I/O error: "@.len() as int) == "I/O error: "@,
            self matches BaseError::DeserializeError(m)
                ==> r@ == "Failed to deserialize configuration: "@ + m@,
            self matches BaseError::EnvError(m)
                ==> r@ == "Environment variable not set or invalid: "@ + m@,
            self is Unknown ==> r@ == "Unknown error occurred"@,
    {
        match self {
            BaseError::ConfigError(m) => "Configuration error: ".to_owned().concat(m.as_str()),
            BaseError::CommandError(m) => "Command error: ".to_owned().concat(m.as_str()),
            BaseError::IOError(e) => {
                let prefix = "I/O error: ";
                let r = prefix.to_owned().concat(io_error_text(e).as_str());
                proof {
                    assert(r@.subrange(0, prefix@.len() as int) =~= prefix@);
                }
                r
            },
            BaseError::DeserializeError(m) => {
                "Failed to deserialize configuration: ".to_owned().concat(m.as_str())
            },
            BaseError::EnvError(m) => {
                "Environment variable not set or invalid: ".to_owned().concat(m.as_str())
            },
            BaseError::Unknown => "Unknown error occurred".to_owned(),
        }
    }
}

/// Relies on the `std::fmt::Display` impl of `std::io::Error`: the
/// OS-level failure rendered as text.
#[verifier::external_body]
fn io_error_text(e: &std::io::Error) -> String {
    format!("{}", e)
}

impl From<std::io::Error> for BaseError {
    /// The automatic conversion path for OS-level I/O failures.
    fn from(e: std::io::Error) -> (r: Self) {
        BaseError::IOError(e)
    }
}

impl vstd::std_specs::convert::FromSpecImpl<std::io::Error> for BaseError {
    open spec fn obeys_from_spec() -> bool {
        true
    }

    open spec fn from_spec(e: std::io::Error) -> Self {
        BaseError::IOError(e)
    }
}

} // verus!
