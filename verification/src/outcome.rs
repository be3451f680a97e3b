//! The upstream invoker's outcome: the closed failure taxonomy and the
//! classification of a completed (or failed) upstream call.
use crate::headers::{filter_headers, filtered_headers, header_views, is_hop_by_hop, HeaderPair};
use crate::is_success_status;
use crate::jsoncheck::{json_parses, json_wellformed};
use crate::status_is_success;
use vstd::prelude::*;
use vstd::string::StringSliceAdditionalSpecFns;

verus! {

/// The closed set of ways an upstream call can fail.
#[derive(Clone, Copy, PartialEq, Eq, Structural, Debug)]
pub enum FailureKind {
    /// The call never completed: DNS, connect, TLS or timeout trouble.
    Transport,
    /// The call completed with a status outside the success range.
    UpstreamNonSuccess,
    /// The call completed with a success status but the body was not the
    /// structure the caller asked for.
    DecodeError,
}

/// A typed failure, with diagnostic detail and the upstream status when
/// one was observed.
pub struct Failure {
    pub kind: FailureKind,
    pub message: Vec<u8>,
    pub upstream_status: Option<u16>,
}

impl Failure {
    /// What each kind guarantees about the recorded upstream status.
    pub open spec fn wf(self) -> bool {
        match self.kind {
            FailureKind::Transport => self.upstream_status is None,
            FailureKind::UpstreamNonSuccess => self.upstream_status matches Some(s) && 100 <= s
                <= 599 && !is_success_status(s),
            FailureKind::DecodeError => self.upstream_status matches Some(s) && is_success_status(
                s,
            ),
        }
    }
}

/// How the upstream body is to be treated: relayed raw, or decoded as JSON
/// and re-presented in the wrap envelope.
#[derive(Clone, Copy, PartialEq, Eq, Structural, Debug)]
pub enum BodyMode {
    Relay,
    DecodeJson,
}

/// What one upstream invocation produced: exactly one of a relayable
/// success or a typed failure.
pub enum UpstreamOutcome {
    Success { status: u16, headers: Vec<HeaderPair>, body: Vec<u8> },
    Failure(Failure),
}

/// No hop-by-hop header stands in the sequence.
pub open spec fn headers_clean(hs: Seq<HeaderPair>) -> bool {
    forall|i: int| 0 <= i < hs.len() ==> !is_hop_by_hop(#[trigger] hs[i].0@)
}

impl UpstreamOutcome {
    /// A success carries a success status and already-filtered headers; a
    /// failure is well-formed in its own right.
    pub open spec fn wf(self) -> bool {
        match self {
            UpstreamOutcome::Success { status, headers, body } => is_success_status(status)
                && headers_clean(headers@),
            UpstreamOutcome::Failure(f) => f.wf(),
        }
    }
}

/// Diagnostic detail attached to a decode failure.
pub open spec fn decode_detail() -> Seq<u8> {
    "upstream returned a success status but the body was not valid JSON".spec_bytes()
}

/// The outcome of a call that never completed at the transport layer.
pub fn transport_failure(detail: Vec<u8>) -> (o: UpstreamOutcome)
    ensures
        o matches UpstreamOutcome::Failure(f) && f.kind == FailureKind::Transport && f.message@
            == detail@ && f.upstream_status is None,
        o.wf(),
{
    UpstreamOutcome::Failure(
        Failure { kind: FailureKind::Transport, message: detail, upstream_status: None },
    )
}

/// Classify a completed upstream call. A status outside the success range
/// is a failure carrying the (small, diagnostic) body as detail; a success
/// status yields a relayable success with filtered headers, unless JSON
/// decoding was asked for and the body does not parse.
pub fn classify_response(status: u16, headers: Vec<HeaderPair>, body: Vec<u8>, mode: BodyMode) -> (o:
    UpstreamOutcome)
    requires
        100 <= status <= 599,
    ensures
        !is_success_status(status) ==> (o matches UpstreamOutcome::Failure(f) && f.kind
            == FailureKind::UpstreamNonSuccess && f.message@ == body@ && f.upstream_status == Some(
            status,
        )),
        is_success_status(status) && mode == BodyMode::DecodeJson && !json_wellformed(body@) ==> (
        o matches UpstreamOutcome::Failure(f) && f.kind == FailureKind::DecodeError && f.message@
            == decode_detail() && f.upstream_status == Some(status)),
        is_success_status(status) && (mode == BodyMode::Relay || json_wellformed(body@)) ==> (
        o matches UpstreamOutcome::Success { status: s, headers: h, body: b } && s == status
            && header_views(h@) == filtered_headers(header_views(headers@)) && b@ == body@),
        o.wf(),
{
    if !status_is_success(status) {
        return UpstreamOutcome::Failure(
            Failure {
                kind: FailureKind::UpstreamNonSuccess,
                message: body,
                upstream_status: Some(status),
            },
        );
    }
    match mode {
        BodyMode::DecodeJson => {
            if !json_parses(&body) {
                let detail = crate::bytestr::str_bytes_vec(
                    "upstream returned a success status but the body was not valid JSON",
                );
                return UpstreamOutcome::Failure(
                    Failure {
                        kind: FailureKind::DecodeError,
                        message: detail,
                        upstream_status: Some(status),
                    },
                );
            }
        },
        BodyMode::Relay => {},
    }
    let kept = filter_headers(&headers);
    proof {
        crate::headers::lemma_filtered_headers_clean(header_views(headers@));
        assert forall|i: int| 0 <= i < kept@.len() implies !is_hop_by_hop(
            #[trigger] kept@[i].0@,
        ) by {
            let fh = filtered_headers(header_views(headers@));
            assert(header_views(kept@)[i] == (kept@[i].0@, kept@[i].1@));
            assert(fh[i] == header_views(kept@)[i]);
            assert(!is_hop_by_hop(fh[i].0));
        }
    }
    UpstreamOutcome::Success { status, headers: kept, body }
}

} // verus!
