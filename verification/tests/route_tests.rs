use gateway::route::{resolve_host, route_for_state, RouteDecision};
use gateway::state::{BackendAddr, ErrorMessage, ProjectState};

fn backend() -> BackendAddr {
    BackendAddr { ip: 0x0a000001, port: 8080 }
}

#[test]
fn ready_projects_are_forwarded() {
    let d = route_for_state(&ProjectState::Ready { container_id: 1, backend: backend() });
    assert_eq!(d, RouteDecision::Forward { backend: backend() });
}

#[test]
fn stopped_projects_resume_on_demand() {
    let d = route_for_state(&ProjectState::Stopped { container_id: 1 });
    assert_eq!(d, RouteDecision::ResumeAndWait);
}

#[test]
fn transitional_states_wait() {
    for s in [
        ProjectState::Creating { recreate_count: 0 },
        ProjectState::Attaching { container_id: 1, recreate_count: 0 },
        ProjectState::Starting { container_id: 1, restart_count: 0 },
        ProjectState::Started { container_id: 1, start_count: 0 },
        ProjectState::Restarting { container_id: 1, restart_count: 1 },
        ProjectState::Recreating { recreate_count: 1 },
        ProjectState::Stopping { container_id: 1 },
    ] {
        assert_eq!(route_for_state(&s), RouteDecision::Wait);
    }
}

#[test]
fn failed_and_destroyed_projects_are_rejected() {
    let errored = ProjectState::Errored { message: ErrorMessage::CreateLimit, previous: None };
    assert_eq!(route_for_state(&errored), RouteDecision::Reject { status: 404 });
    assert_eq!(
        route_for_state(&ProjectState::Destroying { container_id: 1 }),
        RouteDecision::Reject { status: 503 }
    );
    assert_eq!(
        route_for_state(&ProjectState::Destroyed),
        RouteDecision::Reject { status: 503 }
    );
}

#[test]
fn valid_names_resolve_back_from_their_hostname() {
    let apex = "test.example.com";
    for n in ["matrix", "blue", "a", "x-1"] {
        let host = format!("{n}.{apex}");
        let resolved = resolve_host(&host, apex).expect("hostname must resolve");
        assert_eq!(resolved.as_str(), n);
    }
}

#[test]
fn foreign_and_malformed_hosts_do_not_resolve() {
    let apex = "test.example.com";
    assert!(resolve_host("test.example.com", apex).is_none()); // no label
    assert!(resolve_host("matrix.other.example.com", apex).is_none()); // wrong apex
    assert!(resolve_host("matrix", apex).is_none()); // no dot
    assert!(resolve_host("-bad.test.example.com", apex).is_none()); // invalid label
    assert!(resolve_host("UPPER.test.example.com", apex).is_none());
    assert!(resolve_host(".test.example.com", apex).is_none()); // empty label
    assert!(resolve_host("matrix.test.example.co", apex).is_none()); // apex prefix
}
