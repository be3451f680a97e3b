//! The policy table: the single source of truth for how each failure kind
//! is translated into an outbound status code and a message template.
//!
//! The one status rule with any freedom in it: a non-success upstream
//! status in the 400–599 range is relayed as it is (a client error stays a
//! client error, a 5xx stays that 5xx), and any other non-success status
//! falls back to the table's client-error default.
use crate::bytestr::str_bytes_vec;
use crate::outcome::FailureKind;
use vstd::prelude::*;
use vstd::string::StringSliceAdditionalSpecFns;

verus! {

/// One row of the policy table: an outbound status code and the opening
/// words of the rendered message.
pub struct PolicyEntry {
    pub status: u16,
    pub message_prefix: Vec<u8>,
}

/// The read-only mapping from failure kind to outbound response policy,
/// built once at startup.
pub struct PolicyTable {
    pub transport: PolicyEntry,
    pub non_success: PolicyEntry,
    pub decode: PolicyEntry,
}

/// Message template for transport failures.
pub open spec fn transport_prefix() -> Seq<u8> {
    "upstream request failed: ".spec_bytes()
}

/// Message template for non-success upstream responses.
pub open spec fn non_success_prefix() -> Seq<u8> {
    "upstream returned an error: ".spec_bytes()
}

/// Message template for decode failures.
pub open spec fn decode_prefix() -> Seq<u8> {
    "upstream response was not decodable: ".spec_bytes()
}

impl PolicyTable {
    /// The canonical table: transport trouble is a server-side 500, a
    /// decode failure is a 502 (bad gateway semantics), and the fallback
    /// for odd non-success statuses is a 400.
    pub open spec fn wf(self) -> bool {
        &&& self.transport.status == 500
        &&& self.non_success.status == 400
        &&& self.decode.status == 502
        &&& self.transport.message_prefix@ == transport_prefix()
        &&& self.non_success.message_prefix@ == non_success_prefix()
        &&& self.decode.message_prefix@ == decode_prefix()
    }

    /// The outbound status the table assigns to a failure.
    pub open spec fn status_for(self, kind: FailureKind, upstream_status: Option<u16>) -> u16 {
        match kind {
            FailureKind::Transport => self.transport.status,
            FailureKind::DecodeError => self.decode.status,
            FailureKind::UpstreamNonSuccess => match upstream_status {
                Some(s) => if 400 <= s <= 599 {
                    s
                } else {
                    self.non_success.status
                },
                None => self.non_success.status,
            },
        }
    }

    /// The message template the table assigns to a failure kind.
    pub open spec fn prefix_for(self, kind: FailureKind) -> Seq<u8> {
        match kind {
            FailureKind::Transport => self.transport.message_prefix@,
            FailureKind::UpstreamNonSuccess => self.non_success.message_prefix@,
            FailureKind::DecodeError => self.decode.message_prefix@,
        }
    }

    /// Build the canonical table.
    pub fn new() -> (t: PolicyTable)
        ensures
            t.wf(),
    {
        PolicyTable {
            transport: PolicyEntry {
                status: 500,
                message_prefix: str_bytes_vec("upstream request failed: "),
            },
            non_success: PolicyEntry {
                status: 400,
                message_prefix: str_bytes_vec("upstream returned an error: "),
            },
            decode: PolicyEntry {
                status: 502,
                message_prefix: str_bytes_vec("upstream response was not decodable: "),
            },
        }
    }

    /// Look up the outbound status for a failure.
    pub fn outbound_status(&self, kind: FailureKind, upstream_status: Option<u16>) -> (s: u16)
        ensures
            s == self.status_for(kind, upstream_status),
    {
        match kind {
            FailureKind::Transport => self.transport.status,
            FailureKind::DecodeError => self.decode.status,
            FailureKind::UpstreamNonSuccess => match upstream_status {
                Some(s) => if 400 <= s && s <= 599 {
                    s
                } else {
                    self.non_success.status
                },
                None => self.non_success.status,
            },
        }
    }

    /// Look up the message template for a failure kind.
    pub fn template_prefix(&self, kind: FailureKind) -> (p: &Vec<u8>)
        ensures
            p@ == self.prefix_for(kind),
    {
        match kind {
            FailureKind::Transport => &self.transport.message_prefix,
            FailureKind::UpstreamNonSuccess => &self.non_success.message_prefix,
            FailureKind::DecodeError => &self.decode.message_prefix,
        }
    }
}

} // verus!
