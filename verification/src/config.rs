//! Validation of configuration values.
//!
//! Reading the process environment is left to the caller; these functions
//! decide, for a value that was (or was not) found there, whether the
//! configuration is acceptable and which diagnostic to raise when it is not.

use vstd::prelude::*;

verus! {

/// Why a required configuration value was rejected.
#[derive(Debug)]
pub enum ConfigError {
    /// The key was not set at all.
    Missing { key: String, example: String },
    /// The key was set to an empty string.
    Empty { key: String },
}

impl ConfigError {
    /// The diagnostic text for this error.
    pub open spec fn message_spec(&self) -> Seq<char> {
        match self {
            ConfigError::Missing { key, example } => key@ + " must be set. For example: "@
                + example@,
            ConfigError::Empty { key } => key@ + " must not be empty"@,
        }
    }

    /// Renders the diagnostic named by `message_spec`.
    pub fn message(&self) -> (r: String)
        ensures
            r@ == self.message_spec(),
    {
        match self {
            ConfigError::Missing { key, example } => {
                let mut m = key.clone();
                m.append(" must be set. For example: ");
                m.append(example.as_str());
                m
            },
            ConfigError::Empty { key } => {
                let mut m = key.clone();
                m.append(" must not be empty");
                m
            },
        }
    }
}

/// Accepts a required configuration value: the value looked up for `key`
/// is returned exactly as provided when it is present and non-empty, and
/// rejected otherwise, with a diagnostic naming the key (and, when the key
/// was absent, showing `example`).
pub fn require_value(key: &str, example: &str, value: Option<String>) -> (r: Result<
    String,
    ConfigError,
>)
    ensures
        match value {
            Some(v) => if v@.len() > 0 {
                r == Ok::<String, ConfigError>(v)
            } else {
                r matches Err(e) && e matches ConfigError::Empty { key: k } && k@ == key@
            },
            None => r matches Err(e) && e matches ConfigError::Missing { key: k, example: x }
                && k@ == key@ && x@ == example@,
        },
{
    match value {
        Some(v) => {
            if v.as_str().is_empty() {
                Err(ConfigError::Empty { key: key.to_owned() })
            } else {
                Ok(v)
            }
        },
        None => Err(
            ConfigError::Missing { key: key.to_owned(), example: example.to_owned() },
        ),
    }
}

/// Accepts an optional configuration value: the value looked up for `key`
/// when it is present, and `default` otherwise.
pub fn optional_value(value: Option<String>, default: &str) -> (r: String)
    ensures
        match value {
            Some(v) => r == v,
            None => r@ == default@,
        },
{
    match value {
        Some(v) => v,
        None => default.to_owned(),
    }
}

} // verus!
