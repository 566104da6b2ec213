//! Routing policies: the pluggable strategy that picks which upstream target
//! a request is forwarded to. Two variants exist: a single fixed target, and
//! round-robin over a fixed, non-empty, ordered target list.
//!
//! Both are described by one model: an ordered target list (fixed at
//! construction) and a cursor. A call to `next` returns `targets[cursor]` and
//! steps the cursor to `(cursor + 1) % targets.len()` in the same call, so a
//! caller never observes a read without its advance. The single-target policy
//! is the one-element instance of the model: its cursor is always 0.

use vstd::arithmetic::div_mod::{lemma_mod_self_0, lemma_small_mod};
use vstd::prelude::*;

use crate::envelope::InboundRequest;

verus! {

/// A policy that always routes to one fixed upstream target.
pub struct SingleServerPolicy {
    server: String,
}

impl SingleServerPolicy {
    /// The one configured target, as its character sequence.
    pub closed spec fn spec_server(&self) -> Seq<char> {
        self.server@
    }

    pub fn new(server: String) -> (p: Self)
        ensures
            p.spec_server() == server@,
    {
        Self { server }
    }

    /// Returns the configured target, for any call count and any request
    /// content; the policy has no mutable state.
    pub fn next(&self, _request: &InboundRequest) -> (t: String)
        ensures
            t@ == self.spec_server(),
    {
        self.server.clone()
    }
}

/// A policy that cycles over a fixed, non-empty, ordered list of upstream
/// targets, one step per call, wrapping to the front after the last target.
pub struct RoundRobinServerPolicy {
    servers: Vec<String>,
    idx: usize,
}

impl RoundRobinServerPolicy {
    /// The ordered target list, each target as its character sequence.
    pub closed spec fn spec_targets(&self) -> Seq<Seq<char>> {
        self.servers.deep_view()
    }

    /// The cursor: the index of the target the next call will return.
    pub closed spec fn spec_cursor(&self) -> int {
        self.idx as int
    }

    /// Construction-time invariant: at least one target, and the cursor
    /// resolves to a valid index.
    pub open spec fn wf(&self) -> bool {
        self.spec_targets().len() >= 1 && 0 <= self.spec_cursor() < self.spec_targets().len()
    }

    /// The target list must be non-empty; it is fixed for the life of the
    /// policy.
    pub fn new(servers: Vec<String>) -> (p: Self)
        requires
            servers@.len() >= 1,
        ensures
            p.wf(),
            p.spec_targets() == servers.deep_view(),
            p.spec_cursor() == 0,
    {
        Self { servers, idx: 0 }
    }

    /// Returns `targets[cursor]`, then advances the cursor one step, wrapping
    /// past the end of the list; read and advance happen in the same call.
    pub fn next(&mut self, _request: &InboundRequest) -> (t: String)
        requires
            old(self).wf(),
        ensures
            final(self).wf(),
            final(self).spec_targets() == old(self).spec_targets(),
            t@ == old(self).spec_targets()[old(self).spec_cursor()],
            final(self).spec_cursor() == (old(self).spec_cursor() + 1) % (
            old(self).spec_targets().len() as int),
    {
        let max_server_idx = self.servers.len() - 1;
        let idx = self.idx;
        if idx >= max_server_idx {
            self.idx = 0;
            proof {
                lemma_mod_self_0(old(self).spec_targets().len() as int);
            }
        } else {
            self.idx = idx + 1;
            proof {
                lemma_small_mod((idx + 1) as nat, old(self).spec_targets().len() as nat);
            }
        }
        let t = self.servers[idx].clone();
        proof {
            assert(self.servers.deep_view()[idx as int] == self.servers@[idx as int]@);
        }
        t
    }
}

/// The closed set of routing policies a server can be configured with.
/// New content-aware variants would extend this enum; `next` keeps taking the
/// request so such variants need no interface change.
pub enum Policy {
    Single(SingleServerPolicy),
    RoundRobin(RoundRobinServerPolicy),
}

impl Policy {
    /// The ordered target list the policy cycles over; for a single-target
    /// policy this is the one-element list.
    pub open spec fn spec_targets(&self) -> Seq<Seq<char>> {
        match self {
            Policy::Single(p) => seq![p.spec_server()],
            Policy::RoundRobin(p) => p.spec_targets(),
        }
    }

    /// The index of the target the next call will return; always 0 for a
    /// single-target policy.
    pub open spec fn spec_cursor(&self) -> int {
        match self {
            Policy::Single(_) => 0,
            Policy::RoundRobin(p) => p.spec_cursor(),
        }
    }

    /// The policy invariant: a non-empty target list and an in-range cursor.
    pub open spec fn wf(&self) -> bool {
        self.spec_targets().len() >= 1 && 0 <= self.spec_cursor() < self.spec_targets().len()
    }

    /// Returns `targets[cursor]` and advances the cursor one step, wrapping
    /// past the end of the list. Selection never inspects the request with
    /// the current variants.
    pub fn next(&mut self, request: &InboundRequest) -> (t: String)
        requires
            old(self).wf(),
        ensures
            final(self).wf(),
            final(self).spec_targets() == old(self).spec_targets(),
            t@ == old(self).spec_targets()[old(self).spec_cursor()],
            final(self).spec_cursor() == (old(self).spec_cursor() + 1) % (
            old(self).spec_targets().len() as int),
    {
        match self {
            Policy::Single(p) => p.next(request),
            Policy::RoundRobin(p) => p.next(request),
        }
    }
}

} // verus!
