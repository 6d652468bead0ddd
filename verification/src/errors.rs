//! The unified error taxonomy of the transport: a closed set of variants, each
//! wrapping the text of its underlying cause.
use vstd::prelude::*;
use vstd::string::StringExecFns;

verus! {

/// A failure surfaced by a transport operation. Exactly one variant applies:
/// `IoError` for socket-layer failures, `SerializeError` for encode failures,
/// `DeserializeError` for decode failures, and `Error` for codec failures
/// whose error type does not separate encode from decode causes.
#[derive(Debug)]
pub enum TransitError {
    IoError(String),
    SerializeError(String),
    DeserializeError(String),
    Error(String),
}

impl TransitError {
    /// The text of the wrapped underlying cause.
    pub open spec fn cause_text(&self) -> Seq<char> {
        match self {
            TransitError::IoError(s) => s@,
            TransitError::SerializeError(s) => s@,
            TransitError::DeserializeError(s) => s@,
            TransitError::Error(s) => s@,
        }
    }

    /// The label naming the variant in the rendered form of the error.
    pub open spec fn label_text(&self) -> Seq<char> {
        match self {
            TransitError::IoError(_) => "IoError: "@,
            TransitError::SerializeError(_) => "SerializeError: "@,
            TransitError::DeserializeError(_) => "DeserializeError: "@,
            TransitError::Error(_) => "Error: "@,
        }
    }

    /// A short description of the failure: delegates to the wrapped cause, so
    /// diagnostics are not lossy.
    pub fn description(&self) -> (r: &str)
        ensures
            r@ == self.cause_text(),
    {
        match self {
            TransitError::IoError(s) => s.as_str(),
            TransitError::SerializeError(s) => s.as_str(),
            TransitError::DeserializeError(s) => s.as_str(),
            TransitError::Error(s) => s.as_str(),
        }
    }

    /// Access to the wrapped cause itself.
    pub fn cause(&self) -> (r: Option<&String>)
        ensures
            r matches Some(s) && s@ == self.cause_text(),
    {
        match self {
            TransitError::IoError(s) => Some(s),
            TransitError::SerializeError(s) => Some(s),
            TransitError::DeserializeError(s) => Some(s),
            TransitError::Error(s) => Some(s),
        }
    }

    /// The full rendering of the failure: the variant label followed by the
    /// text of the wrapped cause.
    pub fn message(&self) -> (r: String)
        ensures
            r@ == self.label_text() + self.cause_text(),
    {
        let label: &str = match self {
            TransitError::IoError(_) => "IoError: ",
            TransitError::SerializeError(_) => "SerializeError: ",
            TransitError::DeserializeError(_) => "DeserializeError: ",
            TransitError::Error(_) => "Error: ",
        };
        let mut out: String = label.to_owned();
        out.append(self.description());
        out
    }
}

} // verus!
