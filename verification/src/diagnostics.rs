//! Compiler diagnostics: a severity and a message.
use vstd::prelude::*;

verus! {

/// How serious a diagnostic is.
#[derive(Debug, Clone, Copy, PartialEq, Eq, Structural)]
pub enum Severity {
    Error,
    Warning,
}

/// A message reported to the user.
#[derive(Debug)]
pub struct Diagnostic {
    pub severity: Severity,
    pub message: String,
}

impl Diagnostic {
    /// An error with the given message.
    pub fn error(message: &str) -> (d: Diagnostic)
        ensures
            d.severity == Severity::Error,
            d.message@ == message@,
    {
        Diagnostic { severity: Severity::Error, message: String::from_str(message) }
    }

    /// An error whose message is already built.
    pub fn error_owned(message: String) -> (d: Diagnostic)
        ensures
            d.severity == Severity::Error,
            d.message@ == message@,
    {
        Diagnostic { severity: Severity::Error, message }
    }
}

} // verus!
