//! The response normalizer: one upstream outcome in, exactly one outbound
//! response out — a transparent relay for success, a policy-driven JSON
//! error envelope for every failure.
use crate::bytestr::{append_bytes, copy_bytes, has_substring, str_bytes_vec};
use crate::envelope::{build_data_envelope, build_error_envelope, data_envelope, error_envelope,
    escape_json, escaped};
use crate::headers::{header_views, HeaderPair};
use crate::is_success_status;
use crate::outcome::{BodyMode, Failure, FailureKind, UpstreamOutcome};
use crate::policy::PolicyTable;
use crate::sanitize::{lemma_sanitized_hides_credential, sanitize_message, sanitized};
use vstd::prelude::*;
use vstd::string::StringSliceAdditionalSpecFns;

verus! {

/// The response handed back to the original caller.
pub struct NormalizedResponse {
    pub status: u16,
    pub headers: Vec<HeaderPair>,
    pub body: Vec<u8>,
}

/// The error message as the caller sees it: the policy's template for the
/// failure kind, the failure's detail substituted in, and the configured
/// credential scrubbed out.
pub open spec fn rendered_failure_message(
    policy: PolicyTable,
    f: Failure,
    cred: Seq<u8>,
) -> Seq<u8> {
    sanitized(policy.prefix_for(f.kind) + f.message@, cred)
}

/// The outbound status of a normalized outcome: the upstream's own status
/// on success, the policy's translation on failure.
pub open spec fn normalized_status(policy: PolicyTable, o: UpstreamOutcome) -> u16 {
    match o {
        UpstreamOutcome::Success { status, headers, body } => status,
        UpstreamOutcome::Failure(f) => policy.status_for(f.kind, f.upstream_status),
    }
}

/// The outbound body of a normalized outcome: the upstream bytes
/// unchanged (relay), the wrap envelope around them (decode mode), or the
/// error envelope around the rendered message (failure).
pub open spec fn normalized_body(
    policy: PolicyTable,
    o: UpstreamOutcome,
    cred: Seq<u8>,
    mode: BodyMode,
) -> Seq<u8> {
    match o {
        UpstreamOutcome::Success { status, headers, body } => if mode == BodyMode::Relay {
            body@
        } else {
            data_envelope(body@)
        },
        UpstreamOutcome::Failure(f) => error_envelope(
            escaped(rendered_failure_message(policy, f, cred)),
        ),
    }
}

/// The outbound headers of a normalized outcome: the upstream's filtered
/// header set on a relayed success, the constructed JSON header set
/// otherwise.
pub open spec fn normalized_header_views(o: UpstreamOutcome, mode: BodyMode) -> Seq<
    (Seq<u8>, Seq<u8>),
> {
    match o {
        UpstreamOutcome::Success { status, headers, body } => if mode == BodyMode::Relay {
            header_views(headers@)
        } else {
            json_header_views()
        },
        UpstreamOutcome::Failure(f) => json_header_views(),
    }
}

/// The single header set of a constructed JSON response.
pub open spec fn json_header_views() -> Seq<(Seq<u8>, Seq<u8>)> {
    seq![("content-type".spec_bytes(), "application/json".spec_bytes())]
}

/// Headers of a constructed JSON response.
pub fn json_headers() -> (h: Vec<HeaderPair>)
    ensures
        header_views(h@) =~= json_header_views(),
{
    let mut h: Vec<HeaderPair> = Vec::new();
    h.push((str_bytes_vec("content-type"), str_bytes_vec("application/json")));
    h
}

/// Consume one upstream outcome and produce the one outbound response:
/// relay or wrap on success, the policy's status and the error envelope on
/// failure, with the credential scrubbed from every error message.
pub fn normalize(
    o: UpstreamOutcome,
    policy: &PolicyTable,
    credential: &Vec<u8>,
    mode: BodyMode,
) -> (resp: NormalizedResponse)
    requires
        policy.wf(),
        o.wf(),
        credential@.len() > 0,
    ensures
        resp.status == normalized_status(*policy, o),
        resp.body@ == normalized_body(*policy, o, credential@, mode),
        header_views(resp.headers@) =~= normalized_header_views(o, mode),
        (match o {
            UpstreamOutcome::Failure(f) => !has_substring(
                rendered_failure_message(*policy, f, credential@),
                credential@,
            ),
            _ => true,
        }),
        o is Failure ==> !is_success_status(resp.status),
{
    match o {
        UpstreamOutcome::Success { status, headers, body } => {
            match mode {
                BodyMode::Relay => NormalizedResponse { status, headers, body },
                BodyMode::DecodeJson => {
                    let wrapped = build_data_envelope(&body);
                    NormalizedResponse { status, headers: json_headers(), body: wrapped }
                },
            }
        },
        UpstreamOutcome::Failure(f) => {
            let status = policy.outbound_status(f.kind, f.upstream_status);
            let mut raw = copy_bytes(policy.template_prefix(f.kind));
            append_bytes(&mut raw, &f.message);
            let scrubbed = sanitize_message(&raw, credential);
            proof {
                lemma_sanitized_hides_credential(raw@, credential@);
            }
            let rendered = escape_json(&scrubbed);
            let body = build_error_envelope(&rendered);
            NormalizedResponse { status, headers: json_headers(), body }
        },
    }
}

/// Classification correctness for transport failures: whatever detail the
/// transport layer reported, the outbound status is 500 — never 200, never
/// 400.
pub proof fn lemma_transport_failure_status(policy: PolicyTable, f: Failure)
    requires
        policy.wf(),
        f.wf(),
        f.kind == FailureKind::Transport,
    ensures
        normalized_status(policy, UpstreamOutcome::Failure(f)) == 500,
        normalized_status(policy, UpstreamOutcome::Failure(f)) != 200,
        normalized_status(policy, UpstreamOutcome::Failure(f)) != 400,
{
}

/// Status decoupling: a client-side upstream error stays in the 4xx range
/// (404 in particular is relayed), and an upstream 5xx is relayed as that
/// 5xx, never softened into a 4xx.
pub proof fn lemma_status_decoupling(policy: PolicyTable, f: Failure, s: u16)
    requires
        policy.wf(),
        f.wf(),
        f.kind == FailureKind::UpstreamNonSuccess,
        f.upstream_status == Some(s),
    ensures
        400 <= s <= 499 ==> normalized_status(policy, UpstreamOutcome::Failure(f)) == s,
        500 <= s <= 599 ==> normalized_status(policy, UpstreamOutcome::Failure(f)) == s,
        400 <= normalized_status(policy, UpstreamOutcome::Failure(f)) <= 599,
{
}

/// Relay fidelity: on the happy path the normalizer is the identity —
/// upstream status, filtered header set and body bytes pass through
/// untouched.
pub proof fn lemma_relay_fidelity(policy: PolicyTable, o: UpstreamOutcome, cred: Seq<u8>)
    requires
        o is Success,
    ensures
        (match o {
            UpstreamOutcome::Success { status, headers, body } => normalized_status(policy, o)
                == status && normalized_body(policy, o, cred, BodyMode::Relay) == body@
                && normalized_header_views(o, BodyMode::Relay) == header_views(headers@),
            _ => true,
        }),
{
}

/// No silent success on failure: whatever the failure kind and whatever
/// status the upstream did or did not return, the outbound status of a
/// failure is never in the success range.
pub proof fn lemma_no_silent_success(policy: PolicyTable, f: Failure)
    requires
        policy.wf(),
        f.wf(),
    ensures
        !is_success_status(normalized_status(policy, UpstreamOutcome::Failure(f))),
{
}

/// Credential hygiene: the configured (nonempty) credential never appears
/// as a substring of any rendered error message, whatever the failure's
/// detail holds.
pub proof fn lemma_credential_hygiene(policy: PolicyTable, f: Failure, cred: Seq<u8>)
    requires
        cred.len() > 0,
    ensures
        !has_substring(rendered_failure_message(policy, f, cred), cred),
{
    lemma_sanitized_hides_credential(policy.prefix_for(f.kind) + f.message@, cred);
}

} // verus!
