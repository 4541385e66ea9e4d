//! The library's error type.

use vstd::prelude::*;

verus! {

/// Failure of a camera operation.
#[derive(Clone, Debug)]
pub enum Error {
    /// No frame arrived within the requested timeout.
    Timeout,
    /// The user or the system denied camera access.
    PermissionDenied,
    /// Another process holds the device.
    DeviceInUse,
    /// The platform rejected a request it cannot honour.
    Unsupported {
        /// Platform that refused.
        platform: &'static str,
        /// Which control or combination was refused.
        reason: &'static str,
    },
    /// A platform call failed.
    Backend {
        /// Platform whose call failed.
        platform: &'static str,
        /// Description of the failure.
        message: String,
    },
}

/// `e` is an `Unsupported` error of `platform` for `reason`.
pub open spec fn is_unsupported(e: Error, platform: Seq<char>, reason: Seq<char>) -> bool {
    match e {
        Error::Unsupported { platform: p, reason: r } => p@ == platform && r@ == reason,
        _ => false,
    }
}

/// `e` is a `Backend` error of `platform` with `message`.
pub open spec fn is_backend(e: Error, platform: Seq<char>, message: Seq<char>) -> bool {
    match e {
        Error::Backend { platform: p, message: m } => p@ == platform && m@ == message,
        _ => false,
    }
}

/// Human-readable description of `e`.
pub open spec fn error_message(e: Error) -> Seq<char> {
    match e {
        Error::Timeout => "timed out waiting for a frame"@,
        Error::PermissionDenied => "camera access was denied"@,
        Error::DeviceInUse => "the camera is in use by another application"@,
        Error::Unsupported { platform, reason } => platform@ + ": unsupported: "@ + reason@,
        Error::Backend { platform, message } => platform@ + ": "@ + message@,
    }
}

impl Error {
    /// Human-readable description of the error; see [`error_message`].
    pub fn message(&self) -> (text: String)
        ensures
            text@ == error_message(*self),
    {
        match self {
            Error::Timeout => String::from_str("timed out waiting for a frame"),
            Error::PermissionDenied => String::from_str("camera access was denied"),
            Error::DeviceInUse => String::from_str("the camera is in use by another application"),
            Error::Unsupported { platform, reason } => {
                let mut text = String::from_str(platform);
                text.append(": unsupported: ");
                text.append(reason);
                text
            },
            Error::Backend { platform, message } => {
                let mut text = String::from_str(platform);
                text.append(": ");
                text.append(message.as_str());
                text
            },
        }
    }
}

} // verus!
