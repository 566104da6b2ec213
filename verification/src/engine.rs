//! The forwarding engine: turns an inbound request into the outbound request
//! for the target the policy selects, and turns the outcome of the outbound
//! call into the response for the original caller.
//!
//! The engine decides; it does not perform I/O. The surrounding server hands
//! it the inbound envelope, performs the outbound call it plans, and hands
//! back either the upstream's response or the transport failure.

use vstd::prelude::*;
use vstd::string::{StrSliceExecFns, StringExecFns};
use vstd::utf8::encode_utf8;

use crate::envelope::{
    InboundRequest, OutboundRequest, ProxyResponse, TransportError, UpstreamResponse,
};
use crate::policy::Policy;
use crate::text::{decimal_string, spec_decimal};

verus! {

/// A target base joined with a path-plus-query: exactly one separating slash,
/// whether or not the base ends with one and the path starts with one.
pub open spec fn spec_join_uri(t: Seq<char>, p: Seq<char>) -> Seq<char> {
    let t_slash = t.len() > 0 && t.last() == '/';
    let p_slash = p.len() > 0 && p.first() == '/';
    if t_slash && p_slash {
        t + p.skip(1)
    } else if !t_slash && !p_slash {
        t + seq!['/'] + p
    } else {
        t + p
    }
}

/// The text of the caller-facing message for a failed outbound call.
pub open spec fn spec_error_text(m: Seq<char>) -> Seq<char> {
    "Forwarding error: "@ + m
}

/// The loopback base URI for a listener on the given port.
pub open spec fn spec_local_uri(port: nat) -> Seq<char> {
    "http://127.0.0.1:"@ + spec_decimal(port)
}

/// Concatenates a target base with a path-plus-query, normalizing so the two
/// meet in exactly one slash.
pub fn join_uri(target: &str, path: &str) -> (r: String)
    ensures
        r@ == spec_join_uri(target@, path@),
{
    let tlen = target.unicode_len();
    let plen = path.unicode_len();
    let t_slash = tlen > 0 && target.get_char(tlen - 1) == '/';
    let p_slash = plen > 0 && path.get_char(0) == '/';
    if t_slash && p_slash {
        let rest = path.substring_char(1, plen);
        let r = String::from_str(target).concat(rest);
        proof {
            assert(r@ =~= spec_join_uri(target@, path@));
        }
        r
    } else if !t_slash && !p_slash {
        let r = String::from_str(target).concat("/").concat(path);
        proof {
            reveal_strlit("/");
            assert(r@ =~= spec_join_uri(target@, path@));
        }
        r
    } else {
        let r = String::from_str(target).concat(path);
        proof {
            assert(r@ =~= spec_join_uri(target@, path@));
        }
        r
    }
}

/// A fresh copy of a byte buffer.
fn copy_bytes(src: &Vec<u8>) -> (r: Vec<u8>)
    ensures
        r@ == src@,
{
    let mut r: Vec<u8> = Vec::new();
    let mut i: usize = 0;
    while i < src.len()
        invariant
            i <= src.len(),
            r@ == src@.subrange(0, i as int),
        decreases src.len() - i,
    {
        r.push(src[i]);
        i = i + 1;
        proof {
            assert(r@ =~= src@.subrange(0, i as int));
        }
    }
    proof {
        assert(src@.subrange(0, src@.len() as int) =~= src@);
    }
    r
}

/// Builds the outbound request for one selected target: the joined URI, the
/// inbound method verbatim, and the inbound body bytes unmodified. Inbound
/// headers are deliberately not carried over.
pub fn build_outbound(target: &str, req: &InboundRequest) -> (out: OutboundRequest)
    ensures
        out.method == req.method,
        out.body@ == req.body@,
        out.uri@ == spec_join_uri(target@, req.path_and_query@),
{
    OutboundRequest {
        method: req.method.clone(),
        uri: join_uri(target, req.path_and_query.as_str()),
        body: copy_bytes(&req.body),
    }
}

/// The unconditional answer of the health endpoint: status 200, no headers,
/// empty body. It consults nothing, so it holds whatever state any upstream
/// target is in.
pub fn health_response() -> (r: ProxyResponse)
    ensures
        r.status == 200,
        r.headers@.len() == 0,
        r.body@ == Seq::<u8>::empty(),
{
    ProxyResponse { status: 200, headers: Vec::new(), body: Vec::new() }
}

/// The caller-facing response for a failed outbound call: status 500 with a
/// short descriptive body, no retry and no failover.
fn error_response(e: &TransportError) -> (r: ProxyResponse)
    ensures
        r.status == 500,
        r.headers@.len() == 0,
        r.body@ == encode_utf8(spec_error_text(e.message@)),
{
    let mut text = String::from_str("Forwarding error: ");
    text.append(e.message.as_str());
    let body = text.as_str().as_bytes_vec();
    ProxyResponse { status: 500, headers: Vec::new(), body }
}

/// Turns the outcome of the outbound call into the response for the original
/// caller: an upstream response is relayed verbatim — status copied 1:1,
/// every header kept with its raw value in order, body bytes untouched — and
/// a transport failure becomes the 500 error response.
pub fn handle_upstream_outcome(outcome: Result<UpstreamResponse, TransportError>) -> (r:
    ProxyResponse)
    ensures
        match outcome {
            Ok(u) => r.status == u.status && r.headers == u.headers && r.body == u.body,
            Err(e) => {
                &&& r.status == 500
                &&& r.headers@.len() == 0
                &&& r.body@ == encode_utf8(spec_error_text(e.message@))
            },
        },
{
    match outcome {
        Ok(u) => ProxyResponse { status: u.status, headers: u.headers, body: u.body },
        Err(e) => error_response(&e),
    }
}

/// The long-lived core a running server shares across its concurrently
/// handled requests: the listening port and the active routing policy. The
/// connection client the server also shares is an I/O resource and lives with
/// the server, not here.
pub struct Loadbalancer {
    port: u16,
    policy: Policy,
}

impl Loadbalancer {
    /// The configured listening port.
    pub closed spec fn spec_port(&self) -> u16 {
        self.port
    }

    /// The active routing policy.
    pub closed spec fn spec_policy(&self) -> Policy {
        self.policy
    }

    /// The state a constructed balancer always satisfies: its policy's own
    /// invariant.
    pub open spec fn wf(&self) -> bool {
        self.spec_policy().wf()
    }

    pub fn new(port: u16, policy: Policy) -> (lb: Self)
        requires
            policy.wf(),
        ensures
            lb.wf(),
            lb.spec_port() == port,
            lb.spec_policy() == policy,
    {
        Loadbalancer { port, policy }
    }

    /// The balancer's own base URI on the loopback interface.
    pub fn uri(&self) -> (r: String)
        ensures
            r@ == spec_local_uri(self.spec_port() as nat),
    {
        let mut s = String::from_str("http://127.0.0.1:");
        s.append(decimal_string(self.port).as_str());
        s
    }

    /// One forwarding decision: asks the policy for this request's target and
    /// builds the outbound request aimed at it. The policy's cursor advances
    /// exactly one step, so the balancer is ready for the next request
    /// whatever becomes of the outbound call.
    pub fn plan_forward(&mut self, req: &InboundRequest) -> (out: OutboundRequest)
        requires
            old(self).wf(),
        ensures
            final(self).wf(),
            final(self).spec_port() == old(self).spec_port(),
            final(self).spec_policy().spec_targets() == old(self).spec_policy().spec_targets(),
            final(self).spec_policy().spec_cursor() == (old(self).spec_policy().spec_cursor() + 1)
                % (old(self).spec_policy().spec_targets().len() as int),
            out.method == req.method,
            out.body@ == req.body@,
            out.uri@ == spec_join_uri(
                old(self).spec_policy().spec_targets()[old(self).spec_policy().spec_cursor()],
                req.path_and_query@,
            ),
    {
        let target = self.policy.next(req);
        build_outbound(target.as_str(), req)
    }
}

} // verus!
