//! The request translator: from already-resolved configuration and the
//! inbound parameters to an outbound request description, with the
//! credential check done before any network work.
use crate::bytestr::{append_bytes, copy_bytes};
use vstd::prelude::*;
use vstd::string::StringSliceAdditionalSpecFns;

verus! {

/// Process-wide configuration, resolved once at startup and read-only
/// afterwards.
pub struct Config {
    pub base_url: Vec<u8>,
    pub api_key: Vec<u8>,
}

impl Config {
    /// A usable configuration always carries a nonempty credential.
    pub open spec fn wf(self) -> bool {
        self.api_key@.len() > 0
    }

    /// Resolve the configuration from an environment-style lookup result.
    /// A missing or empty credential is a startup-time configuration
    /// error; no request may be served from such a state.
    pub fn new(base_url: Vec<u8>, api_key: Option<Vec<u8>>) -> (r: Result<Config, ConfigurationError
    >)
        ensures
            r matches Ok(c) ==> api_key matches Some(k) && k@.len() > 0 && c.base_url@ == base_url@
                && c.api_key@ == k@ && c.wf(),
            r is Err <==> (api_key matches Some(k) ==> k@.len() == 0),
    {
        match api_key {
            Some(k) => {
                if k.len() == 0 {
                    Err(ConfigurationError {})
                } else {
                    Ok(Config { base_url, api_key: k })
                }
            },
            None => Err(ConfigurationError {}),
        }
    }
}

/// A required credential or configuration value was absent at startup.
/// This fails startup entirely; it is never a per-request status.
#[derive(Clone, Copy, PartialEq, Eq, Structural, Debug)]
pub struct ConfigurationError {}

/// The one outbound method this gateway issues.
#[derive(Clone, Copy, PartialEq, Eq, Structural, Debug)]
pub enum HttpMethod {
    Get,
}

/// Description of the outbound request: target, method, query parameters
/// in order, and at most one required header.
pub struct OutboundRequestSpec {
    pub method: HttpMethod,
    pub target_url: Vec<u8>,
    pub query: Vec<(Vec<u8>, Vec<u8>)>,
    pub required_header: Option<(Vec<u8>, Vec<u8>)>,
}

/// The query pairs rendered as `&k=v` for every pair.
pub open spec fn rendered_query_tail(q: Seq<(Seq<u8>, Seq<u8>)>) -> Seq<u8>
    decreases q.len(),
{
    if q.len() == 0 {
        Seq::empty()
    } else {
        seq![38u8] + q[0].0 + seq![61u8] + q[0].1 + rendered_query_tail(q.skip(1))
    }
}

/// The complete outbound URL: the base, then `?k=v` for the first query
/// pair and `&k=v` for each further one.
pub open spec fn rendered_url(base: Seq<u8>, q: Seq<(Seq<u8>, Seq<u8>)>) -> Seq<u8> {
    if q.len() == 0 {
        base
    } else {
        base + seq![63u8] + q[0].0 + seq![61u8] + q[0].1 + rendered_query_tail(q.skip(1))
    }
}

/// The name/value views of the query pairs.
pub open spec fn query_views(q: Seq<(Vec<u8>, Vec<u8>)>) -> Seq<(Seq<u8>, Seq<u8>)> {
    q.map_values(|p: (Vec<u8>, Vec<u8>)| (p.0@, p.1@))
}

/// Build the outbound request description for one inbound request: a GET
/// against the configured base URL, asking for the caller's location and
/// carrying the configured credential as a query parameter.
pub fn translate_request(config: &Config, location: &Vec<u8>) -> (req: OutboundRequestSpec)
    requires
        config.wf(),
    ensures
        req.method == HttpMethod::Get,
        req.target_url@ == config.base_url@,
        query_views(req.query@) =~= seq![
            ("location".spec_bytes(), location@),
            ("apikey".spec_bytes(), config.api_key@),
        ],
        req.required_header is None,
{
    let mut query: Vec<(Vec<u8>, Vec<u8>)> = Vec::new();
    query.push((crate::bytestr::str_bytes_vec("location"), copy_bytes(location)));
    query.push((crate::bytestr::str_bytes_vec("apikey"), copy_bytes(&config.api_key)));
    OutboundRequestSpec {
        method: HttpMethod::Get,
        target_url: copy_bytes(&config.base_url),
        query,
        required_header: None,
    }
}

/// Render the outbound URL described by a request specification.
pub fn render_url(req: &OutboundRequestSpec) -> (url: Vec<u8>)
    ensures
        url@ == rendered_url(req.target_url@, query_views(req.query@)),
{
    let mut url = copy_bytes(&req.target_url);
    let n: usize = req.query.len();
    let ghost q = query_views(req.query@);
    if n == 0 {
        return url;
    }
    url.push(63);
    append_bytes(&mut url, &req.query[0].0);
    url.push(61);
    append_bytes(&mut url, &req.query[0].1);
    proof {
        assert(url@ =~= req.target_url@ + seq![63u8] + q[0].0 + seq![61u8] + q[0].1);
    }
    let mut i: usize = 1;
    proof {
        assert(rendered_url(req.target_url@, q) == req.target_url@ + seq![63u8] + q[0].0
            + seq![61u8] + q[0].1 + rendered_query_tail(q.skip(1)));
    }
    while i < n
        invariant
            1 <= i <= n,
            n == req.query@.len(),
            q == query_views(req.query@),
            rendered_url(req.target_url@, q) == url@ + rendered_query_tail(q.skip(i as int)),
        decreases n - i,
    {
        let ghost rest = q.skip(i as int);
        let ghost url0 = url@;
        proof {
            assert(rest[0] == q[i as int]);
            assert(rest.skip(1) =~= q.skip(i + 1));
            assert(rendered_query_tail(rest) == seq![38u8] + rest[0].0 + seq![61u8] + rest[0].1
                + rendered_query_tail(q.skip(i + 1)));
        }
        url.push(38);
        append_bytes(&mut url, &req.query[i].0);
        url.push(61);
        append_bytes(&mut url, &req.query[i].1);
        proof {
            assert(url@ =~= url0 + (seq![38u8] + q[i as int].0 + seq![61u8] + q[i as int].1));
        }
        i += 1;
    }
    proof {
        assert(q.skip(n as int) =~= Seq::<(Seq<u8>, Seq<u8>)>::empty());
        assert(url@ + rendered_query_tail(q.skip(n as int)) =~= url@);
    }
    url
}

} // verus!
