//! The reading of one named setting of the program.
//!
//! The caller looks the setting up where the program keeps its settings and
//! hands over what it found; this module says what becomes of it.
use vstd::prelude::*;
use vstd::string::*;

verus! {

/// The words that begin every message about a setting.
pub const NAMESPACE: &'static str = "[CONFIG_ERROR]:";

/// Why a setting could not be had. Both carry the name of the setting.
#[derive(Debug)]
pub enum ConfigError {
    /// The setting is not there.
    MissingArgument(String),
    /// The setting is there and cannot be read.
    InvalidArgument(String),
}

impl ConfigError {
    /// What is said of the error: for a setting that is not there
    /// `[CONFIG_ERROR]: Argument {key} is missing`, and for one that cannot
    /// be read `[CONFIG_ERROR]: Could not parse {key} argument`.
    pub open spec fn message_of(self) -> Seq<char> {
        match self {
            ConfigError::MissingArgument(name) => NAMESPACE@ + " Argument "@ + name@
                + " is missing"@,
            ConfigError::InvalidArgument(name) => NAMESPACE@ + " Could not parse "@ + name@
                + " argument"@,
        }
    }

    /// What is said of the error.
    pub fn message(&self) -> (r: String)
        ensures
            r@ == self.message_of(),
    {
        let mut text = NAMESPACE.to_owned();
        match self {
            ConfigError::MissingArgument(name) => {
                text.append(" Argument ");
                text.append(name.as_str());
                text.append(" is missing");
            },
            ConfigError::InvalidArgument(name) => {
                text.append(" Could not parse ");
                text.append(name.as_str());
                text.append(" argument");
            },
        }
        text
    }
}

/// Reads the setting `key` from `value`, the text that was found for it,
/// with `parse_fn`. A setting that was not found is missing; one that
/// `parse_fn` refuses is invalid.
pub fn load_and_parse_arg<T, F: Fn(String) -> Result<T, String>>(
    key: &str,
    value: Option<String>,
    parse_fn: F,
) -> (r: Result<T, ConfigError>)
    requires
        match value {
            Some(text) => parse_fn.requires((text,)),
            None => true,
        },
    ensures
        match (value, r) {
            (None, Err(ConfigError::MissingArgument(name))) => name@ == key@,
            (Some(text), Ok(parsed)) => parse_fn.ensures((text,), Ok(parsed)),
            (Some(text), Err(ConfigError::InvalidArgument(name))) => name@ == key@ && exists|
                reason: String,
            | parse_fn.ensures((text,), Err(reason)),
            _ => false,
        },
{
    match value {
        None => Err(ConfigError::MissingArgument(key.to_owned())),
        Some(text) => match parse_fn(text) {
            Ok(parsed) => Ok(parsed),
            Err(reason) => {
                assert(parse_fn.ensures((text,), Err(reason)));
                Err(ConfigError::InvalidArgument(key.to_owned()))
            },
        },
    }
}

} // verus!
