//! What the session's operations report when the transport fails them.

use vstd::prelude::*;
use vstd::string::StringExecFns;

verus! {

/// Start of the message of [`ConnectionError::Create`].
pub const CREATE_FAILED: &'static str = "Failed to create Discord client: ";

/// Start of the message of [`ConnectionError::Handshake`].
pub const HANDSHAKE_FAILED: &'static str = "Failed to connect to Discord: ";

/// Start of the message of [`PublishError::Clock`].
pub const CLOCK_FAILED: &'static str = "Time error: ";

/// Start of the message of [`PublishError::SetActivity`].
pub const SET_ACTIVITY_FAILED: &'static str = "Failed to set activity: ";

/// Start of the message of [`PublishError::ClearActivity`].
pub const CLEAR_ACTIVITY_FAILED: &'static str = "Failed to clear activity: ";

/// Why no connection was made. Each variant holds what the transport said.
#[derive(Debug, PartialEq, Eq)]
pub enum ConnectionError {
    /// No client could be constructed.
    Create(String),
    /// The desktop client could not be reached, or the handshake failed.
    Handshake(String),
}

/// Why nothing was published on a live connection. Each variant holds what
/// the failing part said. The connection stays as it was.
#[derive(Debug, PartialEq, Eq)]
pub enum PublishError {
    /// The wall clock is set before the Unix epoch.
    Clock(String),
    /// The activity could not be sent.
    SetActivity(String),
    /// The request to remove the activity could not be sent.
    ClearActivity(String),
}

impl ConnectionError {
    /// The message: what failed, then what the transport said.
    pub open spec fn text(self) -> Seq<char> {
        match self {
            ConnectionError::Create(cause) => CREATE_FAILED@ + cause@,
            ConnectionError::Handshake(cause) => HANDSHAKE_FAILED@ + cause@,
        }
    }

    /// The message, as [`ConnectionError::text`] defines it.
    pub fn message(&self) -> (message: String)
        ensures
            message@ == self.text(),
    {
        match self {
            ConnectionError::Create(cause) => String::from_str(CREATE_FAILED).concat(
                cause.as_str(),
            ),
            ConnectionError::Handshake(cause) => String::from_str(HANDSHAKE_FAILED).concat(
                cause.as_str(),
            ),
        }
    }
}

impl PublishError {
    /// The message: what failed, then what the failing part said.
    pub open spec fn text(self) -> Seq<char> {
        match self {
            PublishError::Clock(cause) => CLOCK_FAILED@ + cause@,
            PublishError::SetActivity(cause) => SET_ACTIVITY_FAILED@ + cause@,
            PublishError::ClearActivity(cause) => CLEAR_ACTIVITY_FAILED@ + cause@,
        }
    }

    /// The message, as [`PublishError::text`] defines it.
    pub fn message(&self) -> (message: String)
        ensures
            message@ == self.text(),
    {
        match self {
            PublishError::Clock(cause) => String::from_str(CLOCK_FAILED).concat(cause.as_str()),
            PublishError::SetActivity(cause) => String::from_str(SET_ACTIVITY_FAILED).concat(
                cause.as_str(),
            ),
            PublishError::ClearActivity(cause) => String::from_str(CLEAR_ACTIVITY_FAILED).concat(
                cause.as_str(),
            ),
        }
    }
}

} // verus!
