//! A typed content model for Windows toast notifications, a verified
//! serializer from that model to the platform's notification-document
//! schema, and translation of the platform's asynchronous interaction
//! events (activation, dismissal, failure) into structured values.
//!
//! The library itself performs no platform calls: the serializer produces
//! an in-memory element tree ([`xml::Element`]) that mirrors the document
//! the notification platform consumes, and the event translators work on
//! the plain values extracted from the platform's event payloads.

use vstd::prelude::*;

pub mod action;
pub mod audio;
pub mod decimal;
pub mod header;
pub mod image;
pub mod input;
pub mod manager;
pub mod serialize;
pub mod text;
pub mod toast;
pub mod xml;

pub use action::Action;
pub use audio::Audio;
pub use header::Header;
pub use image::Image;
pub use input::Input;
pub use input::Selection;
pub use manager::ActivatedAction;
pub use manager::DismissalReason;
pub use manager::ToastDismissed;
pub use manager::ToastFailed;
pub use text::Text;
pub use text::TextPlacement;
pub use toast::Scenario;
pub use toast::Toast;
pub use toast::ToastDuration;

verus! {

/// The error type used in this crate.
#[derive(Debug, Clone, PartialEq, Eq)]
pub enum WinToastError {
    /// The platform reported a failing result code (an HRESULT).
    Os(i32),
    /// An I/O operation failed; the payload describes it.
    Io(String),
    /// The given path is not absolute, and therefore cannot be converted to a URL.
    InvalidPath,
    /// The dismissal reason reported by the platform is unknown.
    InvalidDismissalReason,
    /// A failure was reported without a usable error code.
    Unknown,
}

impl WinToastError {
    /// A short human-readable description of the error kind.
    pub fn message(&self) -> (r: String)
        ensures
            r@ == match self {
                WinToastError::Os(_) => "Windows API error"@,
                WinToastError::Io(_) => "IO error"@,
                WinToastError::InvalidPath => "The given path is not absolute"@,
                WinToastError::InvalidDismissalReason => "The dismissal reason from OS is unknown"@,
                WinToastError::Unknown => "Unknown error"@,
            },
    {
        match self {
            WinToastError::Os(_) => String::from_str("Windows API error"),
            WinToastError::Io(_) => String::from_str("IO error"),
            WinToastError::InvalidPath => String::from_str("The given path is not absolute"),
            WinToastError::InvalidDismissalReason => {
                String::from_str("The dismissal reason from OS is unknown")
            },
            WinToastError::Unknown => String::from_str("Unknown error"),
        }
    }
}

} // verus!
