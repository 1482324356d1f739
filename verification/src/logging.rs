//! The errors that setting up the log can end in.

use vstd::prelude::*;
use vstd::string::*;

verus! {

/// Why the log could not be set up.
#[derive(Debug, Clone, PartialEq, Eq)]
pub enum LoggingError {
    /// The log level, as given, is none.
    InvalidLogLevel(String),
    /// A subscriber had been installed before.
    SubscriberInit,
}

/// The sentence that describes a `LoggingError` with the given level, if it
/// carries one.
pub open spec fn logging_error_text(level: Option<Seq<char>>) -> Seq<char> {
    match level {
        Some(level) => "failed to parse log level: "@ + level,
        None => "failed to initialize tracing subscriber"@,
    }
}

impl LoggingError {
    /// The log level that was refused, if that is the error.
    pub open spec fn level(self) -> Option<Seq<char>> {
        match self {
            LoggingError::InvalidLogLevel(level) => Some(level@),
            LoggingError::SubscriberInit => None,
        }
    }

    /// The sentence that describes the error.
    pub fn to_string(&self) -> (r: String)
        ensures
            r@ == logging_error_text(self.level()),
    {
        match self {
            LoggingError::InvalidLogLevel(level) => {
                let mut r = String::from_str("failed to parse log level: ");
                r.append(level.as_str());
                r
            },
            LoggingError::SubscriberInit => String::from_str(
                "failed to initialize tracing subscriber",
            ),
        }
    }
}

} // verus!
