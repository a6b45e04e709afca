//! The failures that an operation of the tray application can report.

use std::sync::mpsc::{RecvError, RecvTimeoutError};
use vstd::prelude::*;
use vstd::std_specs::convert::FromSpecImpl;

verus! {

/// Why an operation of the tray application failed.
#[derive(Debug)]
pub enum SystrayError {
    /// The platform layer could not create or configure the native resource. The text is
    /// the platform's own description of what went wrong.
    OsError(String),
    /// The operation exists but the current platform does not support it.
    NotImplementedError,
    /// The producer end of the event channel is gone: the native UI thread has exited, or
    /// was never started.
    Disconnected,
    /// The deadline of a timed wait passed before an activation arrived.
    Timeout,
}

impl SystrayError {
    /// The text of [`SystrayError::message`], as a sequence of characters.
    pub open spec fn message_text(self) -> Seq<char> {
        match self {
            SystrayError::OsError(detail) => "OsError: "@ + detail@,
            SystrayError::NotImplementedError => "Functionality is not implemented yet"@,
            SystrayError::Disconnected => "Application channel disconnected"@,
            SystrayError::Timeout => "Timeout"@,
        }
    }

    /// A human-readable description of the failure.
    pub fn message(&self) -> (text: String)
        ensures
            text@ == self.message_text(),
    {
        match self {
            SystrayError::OsError(detail) => String::from_str("OsError: ").concat(detail.as_str()),
            SystrayError::NotImplementedError => String::from_str(
                "Functionality is not implemented yet",
            ),
            SystrayError::Disconnected => String::from_str("Application channel disconnected"),
            SystrayError::Timeout => String::from_str("Timeout"),
        }
    }
}

impl Clone for SystrayError {
    fn clone(&self) -> (copy: Self)
        ensures
            copy == *self,
    {
        match self {
            SystrayError::OsError(detail) => SystrayError::OsError(detail.clone()),
            SystrayError::NotImplementedError => SystrayError::NotImplementedError,
            SystrayError::Disconnected => SystrayError::Disconnected,
            SystrayError::Timeout => SystrayError::Timeout,
        }
    }
}

/// A failed blocking receive can only mean that every sender is gone.
impl From<RecvError> for SystrayError {
    fn from(e: RecvError) -> (converted: SystrayError) {
        SystrayError::Disconnected
    }
}

impl FromSpecImpl<RecvError> for SystrayError {
    open spec fn obeys_from_spec() -> bool {
        true
    }

    open spec fn from_spec(e: RecvError) -> SystrayError {
        SystrayError::Disconnected
    }
}

/// A failed timed receive keeps its meaning: the deadline passed, or every sender is gone.
impl From<RecvTimeoutError> for SystrayError {
    fn from(e: RecvTimeoutError) -> (converted: SystrayError) {
        match e {
            RecvTimeoutError::Timeout => SystrayError::Timeout,
            RecvTimeoutError::Disconnected => SystrayError::Disconnected,
        }
    }
}

impl FromSpecImpl<RecvTimeoutError> for SystrayError {
    open spec fn obeys_from_spec() -> bool {
        true
    }

    open spec fn from_spec(e: RecvTimeoutError) -> SystrayError {
        match e {
            RecvTimeoutError::Timeout => SystrayError::Timeout,
            RecvTimeoutError::Disconnected => SystrayError::Disconnected,
        }
    }
}

} // verus!
