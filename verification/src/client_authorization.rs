//! Signing-identity policy for virtual camera clients: allow any client whose
//! code-signing identity could be established, deny one whose identity could
//! not, and treat the process id as audit data only, never as policy input.
use vstd::prelude::*;

use crate::text::{push_signed_decimal, push_str, signed_decimal, str_chars, string_from_chars, trim, trim_bounds};

verus! {

/// Identity facts established for one connecting client process.
#[derive(Debug, Clone, PartialEq, Eq)]
pub struct ClientIdentity {
    /// Per-connection identifier; opaque, stable only for the connection.
    pub client_id: String,
    /// Code-signing identifier, when one exists.
    pub signing_id: Option<String>,
    /// Client process id, when a positive one was reported.
    pub pid: Option<i32>,
}

/// The usable signing identity: present and not blank, trimmed.
pub open spec fn established_signing(identity: ClientIdentity) -> Option<Seq<char>> {
    match identity.signing_id {
        Some(s) => if trim(s@).len() > 0 {
            Some(trim(s@))
        } else {
            None
        },
        None => None,
    }
}

/// The one-line audit form of an identity.
pub open spec fn audit_text(identity: ClientIdentity) -> Seq<char> {
    "client "@ + identity.client_id@ + ", signing id "@ + match established_signing(identity) {
        Some(s) => s,
        None => "unknown"@,
    } + ", pid "@ + match identity.pid {
        Some(pid) => signed_decimal(pid as int),
        None => "unknown"@,
    }
}

impl ClientIdentity {
    /// The signing id usable as identity: present and not blank.
    pub fn established_signing_id(&self) -> (r: Option<&str>)
        ensures
            match established_signing(*self) {
                Some(s) => r matches Some(t) && t@ == s,
                None => r is None,
            },
    {
        match &self.signing_id {
            None => None,
            Some(signing_id) => {
                let chars = str_chars(signing_id.as_str());
                let (start, end) = trim_bounds(chars.as_slice());
                if start == end {
                    None
                } else {
                    Some(signing_id.as_str().substring_char(start, end))
                }
            },
        }
    }

    /// One-line audit form; absent fields print an explicit "unknown".
    pub fn audit_line(&self) -> (line: String)
        ensures
            line@ == audit_text(*self),
    {
        let mut out: Vec<char> = Vec::new();
        push_str(&mut out, "client ");
        push_str(&mut out, self.client_id.as_str());
        push_str(&mut out, ", signing id ");
        match self.established_signing_id() {
            Some(signing_id) => push_str(&mut out, signing_id),
            None => push_str(&mut out, "unknown"),
        }
        push_str(&mut out, ", pid ");
        match self.pid {
            Some(pid) => push_signed_decimal(&mut out, pid as i64),
            None => push_str(&mut out, "unknown"),
        }
        string_from_chars(out.as_slice())
    }
}

/// Why a client was denied.
#[derive(Debug, Clone, Copy, PartialEq, Eq, Structural)]
pub enum ClientDenialReason {
    /// No usable code-signing identity was reported for the process.
    UnidentifiedSigning,
}

impl ClientDenialReason {
    pub fn reason(self) -> (s: &'static str)
        ensures
            s@ == "no code-signing identity could be established"@,
    {
        match self {
            Self::UnidentifiedSigning => "no code-signing identity could be established",
        }
    }
}

/// The policy decision for one client.
#[derive(Debug, Clone, Copy, PartialEq, Eq, Structural)]
pub enum ClientAuthorization {
    Allow,
    Deny(ClientDenialReason),
}

/// The policy: allow exactly the clients with an established signing id.
pub open spec fn authorization_of(identity: ClientIdentity) -> ClientAuthorization {
    if established_signing(identity) is Some {
        ClientAuthorization::Allow
    } else {
        ClientAuthorization::Deny(ClientDenialReason::UnidentifiedSigning)
    }
}

/// The single policy consulted on connect and on stream start.
pub fn authorize_client(identity: &ClientIdentity) -> (a: ClientAuthorization)
    ensures
        a == authorization_of(*identity),
{
    match identity.established_signing_id() {
        Some(_) => ClientAuthorization::Allow,
        None => ClientAuthorization::Deny(ClientDenialReason::UnidentifiedSigning),
    }
}

/// The process id never decides: two identities that differ only in their
/// process id are authorized alike.
pub proof fn law_pid_is_not_policy_input(a: ClientIdentity, b: ClientIdentity)
    requires
        a.client_id == b.client_id,
        a.signing_id == b.signing_id,
    ensures
        authorization_of(a) == authorization_of(b),
{
}

/// A client is allowed exactly when it reports a signing id that is not
/// blank after trimming whitespace.
pub proof fn law_allowed_iff_signing_id_not_blank(identity: ClientIdentity)
    ensures
        (authorization_of(identity) == ClientAuthorization::Allow) <==> (
        identity.signing_id matches Some(s) && trim(s@).len() > 0),
{
}

} // verus!
