//! The port-based platform: channel names in reverse-domain service
//! form, translation of the native codes its bootstrap facility
//! reports, and the decisions its send and receive paths make on
//! those codes.

use vstd::prelude::*;
use vstd::string::StringExecFns;

use crate::error::Error;
use crate::text::decimal_i32;
use crate::text::signed_decimal_chars;

verus! {

/// The code a native call reports on success.
pub const KERN_SUCCESS: i32 = 0;

/// The code a bounded receive reports when its timeout lapsed with no
/// message pending: normal control flow, not a failure.
pub const MACH_RCV_TIMED_OUT: i32 = 0x1000_4003;

/// The bootstrap facility's error codes, as its table defines them.
pub const BOOTSTRAP_NOT_PRIVILEGED: i32 = 1100;

pub const BOOTSTRAP_NAME_IN_USE: i32 = 1101;

pub const BOOTSTRAP_UNKNOWN_SERVICE: i32 = 1102;

pub const BOOTSTRAP_SERVICE_ACTIVE: i32 = 1103;

pub const BOOTSTRAP_BAD_COUNT: i32 = 1104;

pub const BOOTSTRAP_NO_MEMORY: i32 = 1105;

pub const BOOTSTRAP_NO_CHILDREN: i32 = 1106;

/// A channel name: a registration domain and a short path, rendered as
/// a reverse-domain service name.
pub struct MailslotName {
    pub domain: String,
    pub path: String,
}

/// The exact service string a name renders to: the fixed leading
/// token, then the path, then the domain, dot-separated.
pub open spec fn rendered_name(domain: Seq<char>, path: Seq<char>) -> Seq<char> {
    "org."@ + path + "."@ + domain
}

impl MailslotName {
    /// A name addressed to the local machine's domain token.
    pub fn local(path: &str) -> (r: Self)
        ensures
            r.domain@ == "localhost"@,
            r.path@ == path@,
    {
        Self { domain: String::from_str("localhost"), path: String::from_str(path) }
    }

    /// A name addressed to an explicit domain.
    pub fn network(domain: &str, path: &str) -> (r: Self)
        ensures
            r.domain@ == domain@,
            r.path@ == path@,
    {
        Self { domain: String::from_str(domain), path: String::from_str(path) }
    }

    /// A name under the default domain token.
    pub fn default_domain(path: &str) -> (r: Self)
        ensures
            r.domain@ == "example"@,
            r.path@ == path@,
    {
        Self { domain: String::from_str("example"), path: String::from_str(path) }
    }

    /// The canonical address string, byte-identical to what the
    /// platform's registration and lookup calls expect.
    pub fn to_string(&self) -> (r: String)
        ensures
            r@ == rendered_name(self.domain@, self.path@),
    {
        let mut s = String::from_str("org.");
        s.append(self.path.as_str());
        s.append(".");
        s.append(self.domain.as_str());
        proof {
            assert(s@ =~= rendered_name(self.domain@, self.path@));
        }
        s
    }
}

/// The diagnostic for a native code: the bootstrap table's name for
/// the codes it defines, else the documented fallback naming the code.
pub open spec fn error_name_text(code: int) -> Seq<char> {
    if code == BOOTSTRAP_NOT_PRIVILEGED as int {
        "BOOTSTRAP_NOT_PRIVILEGED"@
    } else if code == BOOTSTRAP_NAME_IN_USE as int {
        "BOOTSTRAP_NAME_IN_USE"@
    } else if code == BOOTSTRAP_UNKNOWN_SERVICE as int {
        "BOOTSTRAP_UNKNOWN_SERVICE"@
    } else if code == BOOTSTRAP_SERVICE_ACTIVE as int {
        "BOOTSTRAP_SERVICE_ACTIVE"@
    } else if code == BOOTSTRAP_BAD_COUNT as int {
        "BOOTSTRAP_BAD_COUNT"@
    } else if code == BOOTSTRAP_NO_MEMORY as int {
        "BOOTSTRAP_NO_MEMORY"@
    } else if code == BOOTSTRAP_NO_CHILDREN as int {
        "BOOTSTRAP_NO_CHILDREN"@
    } else {
        "Unknown error code: "@ + signed_decimal_chars(code)
    }
}

/// Translates a native error code to its diagnostic string.
pub fn error_name(code: i32) -> (r: String)
    ensures
        r@ == error_name_text(code as int),
{
    if code == BOOTSTRAP_NOT_PRIVILEGED {
        String::from_str("BOOTSTRAP_NOT_PRIVILEGED")
    } else if code == BOOTSTRAP_NAME_IN_USE {
        String::from_str("BOOTSTRAP_NAME_IN_USE")
    } else if code == BOOTSTRAP_UNKNOWN_SERVICE {
        String::from_str("BOOTSTRAP_UNKNOWN_SERVICE")
    } else if code == BOOTSTRAP_SERVICE_ACTIVE {
        String::from_str("BOOTSTRAP_SERVICE_ACTIVE")
    } else if code == BOOTSTRAP_BAD_COUNT {
        String::from_str("BOOTSTRAP_BAD_COUNT")
    } else if code == BOOTSTRAP_NO_MEMORY {
        String::from_str("BOOTSTRAP_NO_MEMORY")
    } else if code == BOOTSTRAP_NO_CHILDREN {
        String::from_str("BOOTSTRAP_NO_CHILDREN")
    } else {
        let mut s = String::from_str("Unknown error code: ");
        let digits = decimal_i32(code);
        s.append(digits.as_str());
        s
    }
}

/// What acquiring a port decides from a native call's result: keep the
/// port the call produced only when the call succeeded, else the
/// translated platform error.
pub fn port_outcome(code: i32, port: u32) -> (r: Result<u32, Error>)
    ensures
        code == KERN_SUCCESS ==> r == Ok::<u32, Error>(port),
        code != KERN_SUCCESS ==> (r matches Err(e) && e matches Error::Unknown(m) && m@
            == error_name_text(code as int)),
{
    if code != KERN_SUCCESS {
        Err(Error::macos_error(code))
    } else {
        Ok(port)
    }
}

/// What the send path decides from the native write's result code: the
/// write either went through whole or failed with the platform's
/// diagnostic; nothing is retried.
pub fn send_outcome(code: i32) -> (r: Result<(), Error>)
    ensures
        code == KERN_SUCCESS ==> r is Ok,
        code != KERN_SUCCESS ==> (r matches Err(e) && e matches Error::Unknown(m) && m@
            == error_name_text(code as int)),
{
    if code != KERN_SUCCESS {
        Err(Error::macos_error(code))
    } else {
        Ok(())
    }
}

/// What one bounded receive attempt decides from the native call's
/// result code and the bytes it delivered: a lapsed timeout is "no
/// message", success hands the message out whole, and any other code
/// is the translated platform error.
pub fn receive_outcome(code: i32, content: Vec<u8>) -> (r: Result<Option<Vec<u8>>, Error>)
    ensures
        code == MACH_RCV_TIMED_OUT ==> (r matches Ok(m) && m is None),
        code == KERN_SUCCESS ==> (r matches Ok(m) && (m matches Some(v) && v@ == content@)),
        code != KERN_SUCCESS && code != MACH_RCV_TIMED_OUT ==> (r matches Err(e)
            && e matches Error::Unknown(m) && m@ == error_name_text(code as int)),
{
    if code == MACH_RCV_TIMED_OUT {
        Ok(None)
    } else if code != KERN_SUCCESS {
        Err(Error::macos_error(code))
    } else {
        Ok(Some(content))
    }
}

} // verus!
