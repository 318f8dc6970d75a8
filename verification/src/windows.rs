//! The named-mailslot platform: channel names in UNC form, the
//! sender-side size ceiling, and the receive-side decision that turns
//! the facility's "is a message ready, and how large" query into a
//! pending-message length.

use vstd::prelude::*;
use vstd::string::StringExecFns;

use crate::MESSAGE_SIZE_CEILING;
use crate::error::Error;
use crate::text::str_eq;

verus! {

/// The sentinel the facility's info query reports in place of a size
/// when no message is pending.
pub const MAILSLOT_NO_MESSAGE: u32 = 0xFFFF_FFFF;

/// A channel name: a domain and a slot path, rendered in the
/// facility's fixed UNC grammar.
pub struct MailslotName {
    pub domain: String,
    pub path: String,
}

/// The exact address a name renders to: two leading separators, the
/// domain, the fixed mailslot token, then the path.
pub open spec fn rendered_name(domain: Seq<char>, path: Seq<char>) -> Seq<char> {
    "\\\\"@ + domain + "\\mailslot\\"@ + path
}

impl MailslotName {
    /// A name addressed to the local machine's domain token.
    pub fn local(path: &str) -> (r: Self)
        ensures
            r.domain@ == "."@,
            r.path@ == path@,
    {
        Self { domain: String::from_str("."), path: String::from_str(path) }
    }

    /// A name addressed to an explicit domain.
    pub fn network(domain: &str, path: &str) -> (r: Self)
        ensures
            r.domain@ == domain@,
            r.path@ == path@,
    {
        Self { domain: String::from_str(domain), path: String::from_str(path) }
    }

    /// A name addressed to every domain, the wildcard token.
    pub fn default_domain(path: &str) -> (r: Self)
        ensures
            r.domain@ == "*"@,
            r.path@ == path@,
    {
        Self { domain: String::from_str("*"), path: String::from_str(path) }
    }

    /// The canonical address string, byte-identical to what the
    /// facility's creation and open calls expect.
    pub fn to_string(&self) -> (r: String)
        ensures
            r@ == rendered_name(self.domain@, self.path@),
    {
        let mut s = String::from_str("\\\\");
        s.append(self.domain.as_str());
        s.append("\\mailslot\\");
        s.append(self.path.as_str());
        proof {
            assert(s@ =~= rendered_name(self.domain@, self.path@));
        }
        s
    }

    /// Whether the name carries the local-machine domain token: the
    /// case in which a sender enforces the size ceiling itself.
    pub fn uses_local_domain(&self) -> (r: bool)
        ensures
            r == (self.domain@ == "."@),
    {
        str_eq(self.domain.as_str(), ".")
    }
}

/// The sender-side size check: a ceiling-enforcing sender rejects a
/// message longer than the transport's hard per-message ceiling with
/// the error naming the offending size, before anything is written; a
/// pass-through sender performs no local check.
pub fn check_message_size(enforce_ceiling: bool, len: usize) -> (r: Result<(), Error>)
    ensures
        enforce_ceiling && len > MESSAGE_SIZE_CEILING ==> r == Err::<(), Error>(
            Error::MessageTooLarge(len),
        ),
        !(enforce_ceiling && len > MESSAGE_SIZE_CEILING) ==> r is Ok,
{
    if enforce_ceiling && len > MESSAGE_SIZE_CEILING {
        Err(Error::MessageTooLarge(len))
    } else {
        Ok(())
    }
}

/// The receive-side framing decision, from what the facility's info
/// query reported: a failed query propagates the OS error untouched; a
/// no-message sentinel or an empty count is "no message"; otherwise
/// the next message's exact length, so that exactly that many bytes
/// are allocated and read.
pub fn interpret_mailslot_info(query_ok: bool, next_size: u32, message_count: u32) -> (r: Result<
    Option<u32>,
    Error,
>)
    ensures
        !query_ok ==> (r matches Err(e) && e is Io),
        query_ok && (next_size == MAILSLOT_NO_MESSAGE || message_count == 0) ==> (r matches Ok(m)
            && m is None),
        query_ok && next_size != MAILSLOT_NO_MESSAGE && message_count != 0 ==> r == Ok::<
            Option<u32>,
            Error,
        >(Some(next_size)),
{
    if !query_ok {
        Err(Error::last_os_error())
    } else if next_size == MAILSLOT_NO_MESSAGE || message_count == 0 {
        Ok(None)
    } else {
        Ok(Some(next_size))
    }
}

} // verus!
