//! What a log record carries: its severity and its payload.

use vstd::prelude::*;

verus! {

/// The failure of a JSON encoding, `serde_json::Error`. Only its presence
/// is looked at, never what it says.
#[verifier::external_type_specification]
#[verifier::external_body]
pub struct ExJsonError(serde_json::Error);

/// A JSON document, `serde_json::Value`. It is carried as the payload of a
/// record and never looked into.
#[verifier::external_type_specification]
#[verifier::external_body]
pub struct ExJsonValue(serde_json::Value);

/// How severe a log record is.
#[derive(Clone, Copy, Debug, PartialEq, Eq, Structural)]
pub enum LogLevel {
    INFO,
    WARN,
    ERROR,
    DEBUG,
    TRACE,
}

/// The level of a record for which none is given.
pub const DEFAULT_LOG_LEVEL: LogLevel = LogLevel::INFO;

impl LogLevel {
    /// The text by which the level is written in a log record: the name of
    /// the variant in capitals.
    pub open spec fn name(self) -> Seq<char> {
        match self {
            LogLevel::INFO => "INFO"@,
            LogLevel::WARN => "WARN"@,
            LogLevel::ERROR => "ERROR"@,
            LogLevel::DEBUG => "DEBUG"@,
            LogLevel::TRACE => "TRACE"@,
        }
    }

    /// The level as text.
    pub fn to_string(&self) -> (text: String)
        ensures
            text@ == self.name(),
    {
        match self {
            LogLevel::INFO => "INFO".to_owned(),
            LogLevel::WARN => "WARN".to_owned(),
            LogLevel::ERROR => "ERROR".to_owned(),
            LogLevel::DEBUG => "DEBUG".to_owned(),
            LogLevel::TRACE => "TRACE".to_owned(),
        }
    }
}

/// The payload of a log record: a JSON document and, where the record
/// reports a failure, the message of the error.
pub struct LogJson {
    pub data: serde_json::Value,
    pub error: Option<String>,
}

impl LogJson {
    /// The text that a payload is shown as, given the outcome of encoding
    /// it as JSON: the encoding itself, or an empty JSON object where the
    /// encoding failed.
    pub fn display_text(encoded: Result<String, serde_json::Error>) -> (text: String)
        ensures
            text@ == match encoded {
                Ok(json) => json@,
                Err(_) => "{}"@,
            },
    {
        match encoded {
            Ok(json) => json,
            Err(_) => "{}".to_owned(),
        }
    }
}

} // verus!
