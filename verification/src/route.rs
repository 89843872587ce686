//! The host-aware router.
//!
//! An incoming request is mapped to a project either by apex subdomain —
//! `<project>.<apex>`, the project name being the left-most label — or by
//! a custom-domain table lookup (see the registry).  The proxy then acts
//! on the project's state: forward, resume, wait, or reject.

use vstd::prelude::*;
use vstd::string::*;

use crate::name::{valid_project_name, ProjectName};
use crate::state::{BackendAddr, ProjectState};

verus! {

/// What the proxy does with a request, given the target project's state.
#[derive(Clone, Copy, Debug, PartialEq, Eq, Structural)]
pub enum RouteDecision {
    /// Open a backend connection to this address and stream.
    Forward { backend: BackendAddr },
    /// Enqueue a resume task, then wait (bounded) for readiness.
    ResumeAndWait,
    /// The project is already on its way; wait (bounded) for readiness.
    Wait,
    /// Answer with this HTTP status: 404 for a failed project, 503 for
    /// one being or already destroyed.
    Reject { status: u16 },
}

/// The proxy behaviour for each project state.
pub open spec fn spec_route(s: ProjectState) -> RouteDecision {
    match s {
        ProjectState::Ready { backend, .. } => RouteDecision::Forward { backend },
        ProjectState::Stopped { .. } => RouteDecision::ResumeAndWait,
        ProjectState::Errored { .. } => RouteDecision::Reject { status: 404 },
        ProjectState::Destroying { .. } => RouteDecision::Reject { status: 503 },
        ProjectState::Destroyed => RouteDecision::Reject { status: 503 },
        _ => RouteDecision::Wait,
    }
}

/// Decides what to do with a request for a project in state `s`.
pub fn route_for_state(s: &ProjectState) -> (d: RouteDecision)
    ensures
        d == spec_route(*s),
{
    match s {
        ProjectState::Ready { backend, .. } => RouteDecision::Forward { backend: *backend },
        ProjectState::Stopped { .. } => RouteDecision::ResumeAndWait,
        ProjectState::Errored { .. } => RouteDecision::Reject { status: 404 },
        ProjectState::Destroying { .. } => RouteDecision::Reject { status: 503 },
        ProjectState::Destroyed => RouteDecision::Reject { status: 503 },
        _ => RouteDecision::Wait,
    }
}

/// Resolves a request's host against the apex domain: `Some(name)` when
/// `host` is exactly `<name>.<apex>` for a valid project name, `None`
/// otherwise.  Valid names contain no dot, so the split is unique.
pub fn resolve_host(host: &str, apex: &str) -> (r: Option<ProjectName>)
    ensures
        match r {
            Some(name) => valid_project_name(name@) && host@ == name@ + seq!['.'] + apex@,
            None => forall|n: Seq<char>|
                valid_project_name(n) ==> host@ != n + seq!['.'] + apex@,
        },
{
    let host_len = host.unicode_len();
    let apex_len = apex.unicode_len();
    let mut i: usize = 0;
    while i < host_len && host.get_char(i) != '.'
        invariant
            i <= host_len,
            host_len == host@.len(),
            forall|j: int| 0 <= j < i ==> host@[j] != '.',
        decreases host_len - i,
    {
        i = i + 1;
    }
    if i == host_len {
        // no dot at all
        proof {
            assert forall|n: Seq<char>|
                valid_project_name(n) implies host@ != n + seq!['.'] + apex@ by {
                if host@ == n + seq!['.'] + apex@ {
                    assert(host@[n.len() as int] == '.');
                }
            }
        }
        return None;
    }
    // host[i] is the first dot
    if host_len - (i + 1) != apex_len {
        proof {
            lemma_split_at_first_dot(host@, apex@, i as int);
        }
        return None;
    }
    let prefix = host.substring_char(0, i);
    match ProjectName::parse(prefix) {
        Err(_) => {
            proof {
                lemma_split_at_first_dot(host@, apex@, i as int);
            }
            None
        },
        Ok(name) => {
            let mut j: usize = 0;
            while j < apex_len
                invariant
                    j <= apex_len,
                    host_len == host@.len(),
                    apex_len == apex@.len(),
                    i < host_len,
                    host@[i as int] == '.',
                    forall|j0: int| 0 <= j0 < i ==> host@[j0] != '.',
                    host_len - (i + 1) == apex_len,
                    forall|j2: int| 0 <= j2 < j ==> host@[i + 1 + j2] == apex@[j2],
                decreases apex_len - j,
            {
                if host.get_char(i + 1 + j) != apex.get_char(j) {
                    proof {
                        lemma_split_at_first_dot(host@, apex@, i as int);
                    }
                    return None;
                }
                j = j + 1;
            }
            proof {
                assert(host@ =~= name@ + seq!['.'] + apex@);
            }
            Some(name)
        },
    }
}

/// The hostname round trip is unambiguous: two valid project names that
/// form the same `<name>.<apex>` hostname are the same name.  With
/// [`resolve_host`]'s contract this says every valid name resolves back
/// to itself from its own hostname.
pub proof fn lemma_resolution_round_trip(n: Seq<char>, m: Seq<char>, apex: Seq<char>)
    requires
        valid_project_name(n),
        valid_project_name(m),
        n + seq!['.'] + apex == m + seq!['.'] + apex,
    ensures
        n == m,
{
    assert((n + seq!['.'] + apex).len() == n.len() + 1 + apex.len());
    assert((m + seq!['.'] + apex).len() == m.len() + 1 + apex.len());
    assert(n.len() == m.len());
    assert forall|k: int| 0 <= k < n.len() implies n[k] == m[k] by {
        assert((n + seq!['.'] + apex)[k] == n[k]);
        assert((m + seq!['.'] + apex)[k] == m[k]);
    }
    assert(n =~= m);
}

/// If `host` has its first dot at `i`, any decomposition of `host` as
/// `<valid name>.<apex>` splits exactly there; so when the piece before
/// `i` is no valid name, or what follows differs from `apex`, there is
/// none.
proof fn lemma_split_at_first_dot(host: Seq<char>, apex: Seq<char>, i: int)
    requires
        0 <= i < host.len(),
        host[i] == '.',
        forall|j: int| 0 <= j < i ==> host[j] != '.',
    ensures
        forall|n: Seq<char>|
            (valid_project_name(n) && host == n + seq!['.'] + apex) ==> (n.len() == i && n
                =~= host.subrange(0, i) && host.len() - i - 1 == apex.len() && (forall|j2: int|
                0 <= j2 < apex.len() ==> host[i + 1 + j2] == apex[j2])),
{
    assert forall|n: Seq<char>|
        (valid_project_name(n) && host == n + seq!['.'] + apex) implies (n.len() == i && n
        =~= host.subrange(0, i) && host.len() - i - 1 == apex.len() && (forall|j2: int|
        0 <= j2 < apex.len() ==> host[i + 1 + j2] == apex[j2])) by {
        if valid_project_name(n) && host == n + seq!['.'] + apex {
            let nl = n.len() as int;
            assert(host[nl] == '.');
            if nl < i {
                assert(host[nl] != '.');
            }
            if nl > i {
                assert(host[i] == n[i]);
                assert(crate::name::is_name_char(n[i]));
                assert(n[i] != '.');
            }
            assert(nl == i);
            assert(n =~= host.subrange(0, i));
            assert forall|j2: int| 0 <= j2 < apex.len() implies host[i + 1 + j2] == apex[j2] by {
                assert(host[i + 1 + j2] == apex[j2]);
            }
        }
    }
}

} // verus!
