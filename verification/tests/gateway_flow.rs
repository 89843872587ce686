//! The whole lifecycle exercised through the library: account and project
//! provisioning, the worker driving the state machine against a mock
//! runtime, host routing, idle stop and resume, and idempotent deletion.

use gateway::codec::{decode_state, encode_state};
use gateway::name::{AccountName, ProjectName};
use gateway::route::{resolve_host, route_for_state, RouteDecision};
use gateway::service::GatewayService;
use gateway::state::{
    advance, apply_task, required_op, BackendAddr, DriverOp, DriverResponse, ProjectState,
    TaskPayload,
};
use gateway::task::TaskQueue;

const APEX: &str = "test.example.com";

/// A healthy mock runtime: every operation succeeds, `Create` hands out
/// ascending handles.
struct MockDriver {
    next_handle: u64,
    backend: BackendAddr,
}

impl MockDriver {
    fn perform(&mut self, op: DriverOp) -> DriverResponse {
        match op {
            DriverOp::Create => {
                let id = self.next_handle;
                self.next_handle += 1;
                DriverResponse::Created { container_id: id }
            }
            DriverOp::Inspect { .. } => DriverResponse::Inspected { running: false, config_ok: true },
            DriverOp::Start { .. } => DriverResponse::Done,
            DriverOp::Stop { .. } => DriverResponse::Done,
            DriverOp::Remove { .. } => DriverResponse::Done,
            DriverOp::HealthProbe { .. } => DriverResponse::Healthy { backend: self.backend },
            DriverOp::Wait => DriverResponse::Tick,
        }
    }
}

/// One worker turn for a project: drain its queue, folding tasks and
/// runtime answers into the persisted state; the state is serialised and
/// re-read around every commit, as it is in the store.
fn worker_turn(
    svc: &mut GatewayService,
    queue: &mut TaskQueue,
    driver: &mut MockDriver,
    name: &ProjectName,
    max_ticks: usize,
) {
    for _ in 0..max_ticks {
        let task = queue.pop().map(|t| t.payload);
        let persisted = encode_state(svc.find_project(name).expect("project exists"));
        let mut state = decode_state(persisted.as_slice()).expect("persisted state decodes");
        if let Some(payload) = task {
            state = apply_task(state, payload);
        } else if state.is_done() {
            svc.update_project(name, state).unwrap();
            return;
        }
        let op = required_op(&state);
        let answer = driver.perform(op);
        let state = advance(state, answer);
        svc.update_project(name, state).unwrap();
    }
}

#[test]
fn end_to_end_lifecycle() {
    let mut svc = GatewayService::new();
    let mut driver = MockDriver {
        next_handle: 1,
        backend: BackendAddr { ip: 0x7f000001, port: 8000 },
    };

    // neo becomes the super-user, and provisions the trinity account
    let neo = AccountName::parse("neo").unwrap();
    svc.create_user(neo.clone(), vec![0x01]).unwrap();
    svc.set_super_user(&neo, true).unwrap();
    assert!(svc.find_account(&neo).unwrap().is_super);
    let trinity = AccountName::parse("trinity").unwrap();
    svc.create_user(trinity.clone(), vec![0xaa, 0xbb]).unwrap();
    assert!(svc.find_account(&trinity).is_some());

    // trinity creates the matrix project
    let matrix = ProjectName::parse("matrix").unwrap();
    svc.create_project(matrix.clone(), trinity.clone()).unwrap();
    let mut queue = TaskQueue::new();

    // the worker drives it; it must be Ready within a dozen turns
    let mut polls = 0;
    loop {
        worker_turn(&mut svc, &mut queue, &mut driver, &matrix, 1);
        polls += 1;
        if matches!(svc.find_project(&matrix), Some(ProjectState::Ready { .. })) {
            break;
        }
        assert!(polls <= 12, "project did not become Ready in time");
    }

    // a request with the project's hostname routes to its backend
    let resolved = resolve_host("matrix.test.example.com", APEX).unwrap();
    assert!(resolved.eq_name(&matrix));
    let decision = route_for_state(svc.find_project(&matrix).unwrap());
    assert_eq!(
        decision,
        RouteDecision::Forward { backend: BackendAddr { ip: 0x7f000001, port: 8000 } }
    );

    // idle timeout stops it; the next request resumes it
    queue.submit(TaskPayload::Stop).unwrap();
    worker_turn(&mut svc, &mut queue, &mut driver, &matrix, 4);
    assert!(matches!(svc.find_project(&matrix), Some(ProjectState::Stopped { .. })));
    assert_eq!(route_for_state(svc.find_project(&matrix).unwrap()), RouteDecision::ResumeAndWait);
    queue.submit(TaskPayload::Resume).unwrap();
    worker_turn(&mut svc, &mut queue, &mut driver, &matrix, 4);
    assert!(matches!(svc.find_project(&matrix), Some(ProjectState::Ready { .. })));

    // deletion: the intent is folded in at once and the worker finishes it
    let st = svc.request_destroy(&matrix).unwrap();
    assert!(matches!(st, ProjectState::Destroying { .. }));
    let mut polls = 0;
    loop {
        worker_turn(&mut svc, &mut queue, &mut driver, &matrix, 1);
        polls += 1;
        if matches!(svc.find_project(&matrix), Some(ProjectState::Destroyed)) {
            break;
        }
        assert!(polls <= 20, "project was not destroyed in time");
    }

    // a second delete still answers Destroyed
    let st = svc.request_destroy(&matrix).unwrap();
    assert_eq!(st, ProjectState::Destroyed);
}
