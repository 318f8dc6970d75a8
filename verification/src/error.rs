//! The crate's error type. Platform failures are carried verbatim: the
//! raw OS code where one exists, and the platform's own diagnostic
//! text untranslated.

use vstd::prelude::*;
use vstd::string::StringExecFns;

use crate::mac;
use crate::text::decimal_u64;
use crate::text::decimal_chars;

verus! {

/// What can go wrong while opening a channel or moving a message.
#[derive(Debug)]
pub enum Error {
    /// The message's length exceeds the hard per-message ceiling of the
    /// ceiling-enforcing transport; nothing was written.
    MessageTooLarge(usize),
    /// An OS-level failure: the raw error code, if the OS reported one,
    /// and the OS's rendering of the error.
    Io { code: Option<i32>, message: String },
    /// The platform's diagnostic text for a native error code.
    Unknown(String),
    /// An opaque failure wrapped from elsewhere, already rendered.
    Other(String),
}

/// The diagnostic line for each error, as `Error::to_string` renders it.
pub open spec fn error_text(e: Error) -> Seq<char> {
    match e {
        Error::MessageTooLarge(size) => "Message with length "@ + decimal_chars(size as nat)
            + " is too large, messages sent over a network cannot be larger than 424 bytes"@,
        Error::Io { code, message } => "IO Error: "@ + message@,
        Error::Unknown(message) => message@,
        Error::Other(message) => "Unknown Error: "@ + message@,
    }
}

impl Error {
    /// Relies on `std::io::Error::last_os_error`, with its
    /// `raw_os_error` accessor and `Display` rendering, to capture the
    /// calling thread's most recent OS error verbatim. Which error
    /// that is depends on the environment, so no more than the variant
    /// is promised.
    #[verifier::external_body]
    pub fn last_os_error() -> (r: Error)
        ensures
            r is Io,
    {
        let e = std::io::Error::last_os_error();
        Error::Io { code: e.raw_os_error(), message: e.to_string() }
    }

    /// The error for a native code on the port-based platform: the
    /// translated diagnostic, with its documented fallback for codes
    /// outside the translation table.
    pub fn macos_error(code: i32) -> (r: Error)
        ensures
            r matches Error::Unknown(m) && m@ == mac::error_name_text(code as int),
    {
        Error::Unknown(mac::error_name(code))
    }

    /// One diagnostic line for the error, exactly `error_text`.
    pub fn to_string(&self) -> (r: String)
        ensures
            r@ == error_text(*self),
    {
        match self {
            Error::MessageTooLarge(size) => {
                let mut s = String::from_str("Message with length ");
                let digits = decimal_u64(*size as u64);
                s.append(digits.as_str());
                s.append(
                    " is too large, messages sent over a network cannot be larger than 424 bytes",
                );
                s
            },
            Error::Io { code: _, message } => {
                let mut s = String::from_str("IO Error: ");
                s.append(message.as_str());
                s
            },
            Error::Unknown(message) => String::from_str(message.as_str()),
            Error::Other(message) => {
                let mut s = String::from_str("Unknown Error: ");
                s.append(message.as_str());
                s
            },
        }
    }
}

} // verus!
