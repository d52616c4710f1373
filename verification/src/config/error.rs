use vstd::prelude::*;
use vstd::string::*;

verus! {

/// Why a configuration could not be loaded or was rejected.
#[derive(Debug)]
pub enum ConfigFailure {
    /// A setting holds a value the services cannot run with.
    Invalid { field: String, message: String },
    /// A setting that the configuration does not define.
    UnknownField { field: String },
    /// A setting whose value has the wrong type or is out of range.
    Malformed { key: String, message: String },
    /// The sources could not be read or parsed.
    Source { message: String },
    /// A configuration file that must exist does not.
    NotFound { path: String },
    /// The variable that names the configuration file is set but empty.
    EmptyPath { variable: String },
}

impl ConfigFailure {
    /// A human-readable description of the error.
    pub fn message(&self) -> (m: String)
        ensures
            self matches ConfigFailure::Invalid { field, message } ==> m@ == "invalid configuration `"@ + field@
                + "`: "@ + message@,
            self matches ConfigFailure::UnknownField { field } ==> m@ == "unknown field `"@ + field@ + "`"@,
            self matches ConfigFailure::Malformed { key, message } ==> m@ == "invalid value for `"@ + key@
                + "`: "@ + message@,
            self matches ConfigFailure::Source { message } ==> m@ == message@,
            self matches ConfigFailure::NotFound { path } ==> m@ == "configuration file \""@ + path@
                + "\" not found"@,
            self matches ConfigFailure::EmptyPath { variable } ==> m@ == variable@ + " must not be empty"@,
    {
        match self {
            ConfigFailure::Invalid { field, message } => {
                let mut m = String::from_str("invalid configuration `");
                m.append(field.as_str());
                m.append("`: ");
                m.append(message.as_str());
                m
            },
            ConfigFailure::UnknownField { field } => {
                let mut m = String::from_str("unknown field `");
                m.append(field.as_str());
                m.append("`");
                m
            },
            ConfigFailure::Malformed { key, message } => {
                let mut m = String::from_str("invalid value for `");
                m.append(key.as_str());
                m.append("`: ");
                m.append(message.as_str());
                m
            },
            ConfigFailure::Source { message } => message.clone(),
            ConfigFailure::NotFound { path } => {
                let mut m = String::from_str("configuration file \"");
                m.append(path.as_str());
                m.append("\" not found");
                m
            },
            ConfigFailure::EmptyPath { variable } => {
                let mut m = variable.clone();
                m.append(" must not be empty");
                m
            },
        }
    }
}

} // verus!
