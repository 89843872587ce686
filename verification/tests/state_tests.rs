use gateway::state::{
    advance, apply_task, idle_timeout_reached, required_op, run_to_quiescence, BackendAddr,
    DriverError, DriverOp, DriverResponse, ErrorMessage, ProjectState, TaskPayload,
    IDLE_TIMEOUT_SECS, RECREATE_CAP, RESTART_CAP,
};

fn backend() -> BackendAddr {
    BackendAddr { ip: 0x7f000001, port: 8000 }
}

#[test]
fn happy_path_reaches_ready_in_four_steps() {
    // create, attach, start, probe: the boot sequence against a healthy runtime
    let s0 = ProjectState::Creating { recreate_count: 0 };
    assert_eq!(required_op(&s0), DriverOp::Create);
    let s1 = advance(s0, DriverResponse::Created { container_id: 7 });
    assert_eq!(s1, ProjectState::Attaching { container_id: 7, recreate_count: 0 });
    assert_eq!(required_op(&s1), DriverOp::Inspect { container_id: 7 });
    let s2 = advance(s1, DriverResponse::Inspected { running: false, config_ok: true });
    assert_eq!(s2, ProjectState::Starting { container_id: 7, restart_count: 0 });
    let s3 = advance(s2, DriverResponse::Done);
    assert_eq!(s3, ProjectState::Started { container_id: 7, start_count: 0 });
    assert_eq!(required_op(&s3), DriverOp::HealthProbe { container_id: 7 });
    let s4 = advance(s3, DriverResponse::Healthy { backend: backend() });
    assert_eq!(s4, ProjectState::Ready { container_id: 7, backend: backend() });
    assert!(s4.is_done());
}

#[test]
fn terminal_states_are_fixed_points() {
    let answers = [
        DriverResponse::Tick,
        DriverResponse::Done,
        DriverResponse::Failed { error: DriverError::Fatal },
        DriverResponse::Created { container_id: 3 },
    ];
    for r in answers {
        assert_eq!(advance(ProjectState::Destroyed, r), ProjectState::Destroyed);
        let errored = ProjectState::Errored {
            message: ErrorMessage::RestartLimit,
            previous: None,
        };
        assert_eq!(
            advance(errored, r),
            ProjectState::Errored { message: ErrorMessage::RestartLimit, previous: None }
        );
    }
}

#[test]
fn destroy_wins_from_any_state() {
    let states = || {
        vec![
            ProjectState::Creating { recreate_count: 1 },
            ProjectState::Attaching { container_id: 4, recreate_count: 0 },
            ProjectState::Starting { container_id: 4, restart_count: 2 },
            ProjectState::Started { container_id: 4, start_count: 0 },
            ProjectState::Ready { container_id: 4, backend: backend() },
            ProjectState::Stopping { container_id: 4 },
            ProjectState::Stopped { container_id: 4 },
            ProjectState::Restarting { container_id: 4, restart_count: 1 },
            ProjectState::Recreating { recreate_count: 2 },
            ProjectState::Destroying { container_id: 4 },
            ProjectState::Destroyed,
            ProjectState::Errored {
                message: ErrorMessage::CreateLimit,
                previous: Some(Box::new(ProjectState::Creating { recreate_count: 3 })),
            },
        ]
    };
    for s in states() {
        let after_task = apply_task(s, TaskPayload::Destroy);
        // at most one more driver answer and the project is destroyed
        let op = required_op(&after_task);
        let answer = match op {
            DriverOp::Wait => DriverResponse::Tick,
            _ => DriverResponse::Done,
        };
        assert_eq!(advance(after_task, answer), ProjectState::Destroyed);
    }
    // failure of the removal still destroys
    let failing = apply_task(
        ProjectState::Ready { container_id: 9, backend: backend() },
        TaskPayload::Destroy,
    );
    assert_eq!(
        advance(failing, DriverResponse::Failed { error: DriverError::NotFound }),
        ProjectState::Destroyed
    );
}

#[test]
fn nothing_leaves_destroyed() {
    for t in [
        TaskPayload::Resume,
        TaskPayload::Stop,
        TaskPayload::Restart,
        TaskPayload::Destroy,
        TaskPayload::Refresh,
        TaskPayload::CheckHealth,
    ] {
        assert_eq!(apply_task(ProjectState::Destroyed, t), ProjectState::Destroyed);
    }
}

#[test]
fn restart_cap_folds_into_errored() {
    // the runtime refuses every start: each failure spends one restart
    let mut s = ProjectState::Starting { container_id: 2, restart_count: 0 };
    let mut failures = 0;
    loop {
        match s {
            ProjectState::Starting { container_id, restart_count } => {
                s = advance(
                    ProjectState::Starting { container_id, restart_count },
                    DriverResponse::Failed { error: DriverError::Transient },
                );
                failures += 1;
            }
            ProjectState::Restarting { container_id, restart_count } => {
                s = advance(
                    ProjectState::Restarting { container_id, restart_count },
                    DriverResponse::Done,
                );
            }
            other => {
                s = other;
                break;
            }
        }
    }
    assert_eq!(failures, RESTART_CAP as u32 + 1);
    match s {
        ProjectState::Errored { message, previous } => {
            assert_eq!(message, ErrorMessage::RestartLimit);
            let prev = *previous.unwrap();
            assert_eq!(
                prev,
                ProjectState::Starting { container_id: 2, restart_count: RESTART_CAP }
            );
            // destroy still works out of the error state
            let destroying = apply_task(
                ProjectState::Errored { message, previous: Some(Box::new(prev)) },
                TaskPayload::Destroy,
            );
            assert_eq!(destroying, ProjectState::Destroying { container_id: 2 });
        }
        other => panic!("expected Errored, got {other:?}"),
    }
}

#[test]
fn create_retries_up_to_the_cap() {
    let mut s = ProjectState::Creating { recreate_count: 0 };
    for expected in 1..=RECREATE_CAP {
        s = advance(s, DriverResponse::Failed { error: DriverError::Transient });
        assert_eq!(s, ProjectState::Creating { recreate_count: expected });
    }
    s = advance(s, DriverResponse::Failed { error: DriverError::Transient });
    match s {
        ProjectState::Errored { message, .. } => assert_eq!(message, ErrorMessage::CreateLimit),
        other => panic!("expected Errored, got {other:?}"),
    }
}

#[test]
fn config_mismatch_recreates_the_container() {
    let s = ProjectState::Attaching { container_id: 5, recreate_count: 0 };
    let s = advance(s, DriverResponse::Inspected { running: true, config_ok: false });
    assert_eq!(s, ProjectState::Recreating { recreate_count: 1 });
    let s = advance(s, DriverResponse::Done);
    assert_eq!(s, ProjectState::Creating { recreate_count: 1 });
}

#[test]
fn mismatch_at_the_cap_errors_through_recreating() {
    // even with the budget gone, the mismatch path still goes through
    // Recreating, so the removal is attempted before the project errors
    let s = ProjectState::Attaching { container_id: 5, recreate_count: RECREATE_CAP };
    let s = advance(s, DriverResponse::Inspected { running: true, config_ok: false });
    assert_eq!(s, ProjectState::Recreating { recreate_count: RECREATE_CAP + 1 });
    assert_eq!(required_op(&s), DriverOp::Remove { container_id: None });
    let s = advance(s, DriverResponse::Done);
    match s {
        ProjectState::Errored { message, .. } => assert_eq!(message, ErrorMessage::RecreateLimit),
        other => panic!("expected Errored, got {other:?}"),
    }
}

#[test]
fn remove_failure_still_returns_to_creating() {
    // the removal is best-effort: a failed remove does not spend budget
    let s = ProjectState::Recreating { recreate_count: 1 };
    let s = advance(s, DriverResponse::Failed { error: DriverError::Transient });
    assert_eq!(s, ProjectState::Creating { recreate_count: 1 });
    let s2 = ProjectState::Recreating { recreate_count: 2 };
    let s2 = advance(s2, DriverResponse::Failed { error: DriverError::NotFound });
    assert_eq!(s2, ProjectState::Creating { recreate_count: 2 });
}

#[test]
fn stop_and_resume_cycle() {
    // idle stop out of Ready, then resume on demand
    let ready = ProjectState::Ready { container_id: 8, backend: backend() };
    let stopping = apply_task(ready, TaskPayload::Stop);
    assert_eq!(stopping, ProjectState::Stopping { container_id: 8 });
    let stopped = advance(stopping, DriverResponse::Done);
    assert_eq!(stopped, ProjectState::Stopped { container_id: 8 });
    assert!(stopped.is_done());
    let starting = apply_task(stopped, TaskPayload::Resume);
    assert_eq!(starting, ProjectState::Starting { container_id: 8, restart_count: 0 });
    let started = advance(starting, DriverResponse::Done);
    let ready_again = advance(started, DriverResponse::Healthy { backend: backend() });
    assert_eq!(ready_again, ProjectState::Ready { container_id: 8, backend: backend() });
}

#[test]
fn refresh_leaves_state_and_reconciliation_advances() {
    // a worker killed between the start side effect and persistence: on
    // restart the state still reads Starting; refresh re-runs start, the
    // runtime reports it already running, no second container appears
    let persisted = ProjectState::Starting { container_id: 3, restart_count: 0 };
    let after_refresh = apply_task(persisted, TaskPayload::Refresh);
    assert_eq!(
        after_refresh,
        ProjectState::Starting { container_id: 3, restart_count: 0 }
    );
    let started = advance(after_refresh, DriverResponse::Done);
    assert_eq!(started, ProjectState::Started { container_id: 3, start_count: 0 });
    let ready = advance(started, DriverResponse::Healthy { backend: backend() });
    assert_eq!(ready, ProjectState::Ready { container_id: 3, backend: backend() });
}

#[test]
fn check_health_reprobes_ready() {
    let ready = ProjectState::Ready { container_id: 8, backend: backend() };
    let probing = apply_task(ready, TaskPayload::CheckHealth);
    assert_eq!(probing, ProjectState::Started { container_id: 8, start_count: 0 });
}

#[test]
fn restart_leaves_errored_via_explicit_task() {
    let errored = ProjectState::Errored {
        message: ErrorMessage::RestartLimit,
        previous: Some(Box::new(ProjectState::Started { container_id: 6, start_count: 5 })),
    };
    assert_eq!(errored.container_id(), Some(6));
    let restarting = apply_task(errored, TaskPayload::Restart);
    assert_eq!(restarting, ProjectState::Restarting { container_id: 6, restart_count: 0 });
    let no_container = ProjectState::Errored { message: ErrorMessage::CreateLimit, previous: None };
    assert_eq!(
        apply_task(no_container, TaskPayload::Restart),
        ProjectState::Creating { recreate_count: 0 }
    );
}

#[test]
fn drain_loop_runs_to_quiescence() {
    let answers = vec![
        DriverResponse::Created { container_id: 11 },
        DriverResponse::Inspected { running: false, config_ok: true },
        DriverResponse::Done,
        DriverResponse::Healthy { backend: backend() },
        // extra answers beyond quiescence are ignored
        DriverResponse::Tick,
    ];
    let end = run_to_quiescence(ProjectState::Creating { recreate_count: 0 }, &answers);
    assert_eq!(end, ProjectState::Ready { container_id: 11, backend: backend() });
}

#[test]
fn flaky_runtime_still_reaches_ready() {
    // a transient failure at every other step only spends retry budget
    let answers = vec![
        DriverResponse::Failed { error: DriverError::Transient },
        DriverResponse::Created { container_id: 12 },
        DriverResponse::Failed { error: DriverError::Transient },
        DriverResponse::Done,
        DriverResponse::Created { container_id: 13 },
        DriverResponse::Inspected { running: false, config_ok: true },
        DriverResponse::Failed { error: DriverError::Transient },
        DriverResponse::Done,
        DriverResponse::Done,
        DriverResponse::Failed { error: DriverError::Transient },
        DriverResponse::Done,
        DriverResponse::Done,
        DriverResponse::Healthy { backend: backend() },
    ];
    let end = run_to_quiescence(ProjectState::Creating { recreate_count: 0 }, &answers);
    assert_eq!(end, ProjectState::Ready { container_id: 13, backend: backend() });
}

#[test]
fn into_result_splits_off_the_failure() {
    let ready = ProjectState::Ready { container_id: 1, backend: backend() };
    assert_eq!(
        ready.into_result(),
        Ok(ProjectState::Ready { container_id: 1, backend: backend() })
    );
    let errored = ProjectState::Errored { message: ErrorMessage::CreateLimit, previous: None };
    assert_eq!(errored.into_result(), Err(ErrorMessage::CreateLimit));
    assert_eq!(ErrorMessage::CreateLimit.text(), "gave up creating container");
}

#[test]
fn idle_threshold_is_thirty_minutes() {
    let t0 = 1_700_000_000;
    assert!(!idle_timeout_reached(t0, t0));
    assert!(!idle_timeout_reached(t0, t0 + IDLE_TIMEOUT_SECS - 1));
    assert!(idle_timeout_reached(t0, t0 + IDLE_TIMEOUT_SECS));
    assert!(!idle_timeout_reached(t0, t0 - 1)); // clock moved backwards
}

#[test]
fn duplicate_is_deep_equality() {
    let s = ProjectState::Errored {
        message: ErrorMessage::RecreateLimit,
        previous: Some(Box::new(ProjectState::Attaching { container_id: 2, recreate_count: 3 })),
    };
    assert_eq!(s.duplicate(), s);
}
