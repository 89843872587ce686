//! The per-project lifecycle state machine.
//!
//! A project's state is a single tagged variant.  The worker drives it with
//! [`advance`]: it performs the container-runtime operation that
//! [`required_op`] names, then folds the runtime's answer back into the
//! state.  `advance` is infallible: every failure folds into a retry state
//! or into `Errored`.  External intents (resume, stop, restart, destroy,
//! refresh, health check) are folded in first with [`apply_task`].
//!
//! The runtime itself is outside this crate: callers perform the named
//! operation and hand back a [`DriverResponse`], so every branch below is
//! verified for every possible runtime behaviour.

use vstd::prelude::*;

verus! {

/// How many times a project is re-created before giving up.
pub const RECREATE_CAP: u8 = 3;

/// How many times a project's container is restarted before giving up.
pub const RESTART_CAP: u8 = 5;

/// Seconds of inactivity after which a `Ready` project is stopped.
pub const IDLE_TIMEOUT_SECS: u64 = 1800;

/// Grace given to a container to stop on its own, in seconds.
pub const STOP_GRACE_SECS: u64 = 10;

/// How long a start may take before it counts as failed, in seconds.
pub const START_TIMEOUT_SECS: u64 = 60;

/// How long the health probe may take, in seconds.
pub const HEALTH_TIMEOUT_SECS: u64 = 30;

/// How long the proxy awaits readiness of a resumed project, in seconds.
pub const RESUME_TIMEOUT_SECS: u64 = 10;

/// Network location of a project's HTTP backend, as confirmed by the
/// health probe.
#[derive(Clone, Copy, Debug, PartialEq, Eq, Structural)]
pub struct BackendAddr {
    pub ip: u32,
    pub port: u16,
}

/// A project's lifecycle state.  The container runtime hands out opaque
/// numeric handles; `container_id` is such a handle.
#[derive(Debug, PartialEq, Eq)]
pub enum ProjectState {
    /// No container yet; the next step instantiates one.
    Creating { recreate_count: u8 },
    /// The container exists but has not been started in this epoch.
    Attaching { container_id: u64, recreate_count: u8 },
    /// Start issued; waiting for the runtime to report it running.
    Starting { container_id: u64, restart_count: u8 },
    /// Running per the runtime; health not yet confirmed.
    Started { container_id: u64, start_count: u8 },
    /// Health probe succeeded; routing enabled.
    Ready { container_id: u64, backend: BackendAddr },
    /// Graceful shutdown issued.
    Stopping { container_id: u64 },
    /// Known to exist and be stopped; resumable.
    Stopped { container_id: u64 },
    /// Pending self-initiated restart.
    Restarting { container_id: u64, restart_count: u8 },
    /// The container is unrecoverable: remove it and create afresh.
    Recreating { recreate_count: u8 },
    /// Explicit destruction requested.
    Destroying { container_id: u64 },
    /// Terminal success of destruction.
    Destroyed,
    /// Terminal failure; only an external restart or destroy task leaves
    /// it.  `message` names the cause; `previous` is the state the
    /// failure occurred in.
    Errored { message: ErrorMessage, previous: Option<Box<ProjectState>> },
}

/// The diagnostic a project's `Errored` state carries; [`ErrorMessage::text`]
/// renders it.
#[derive(Clone, Copy, Debug, PartialEq, Eq, Structural)]
pub enum ErrorMessage {
    /// The create retry limit was reached.
    CreateLimit,
    /// The recreate limit was reached.
    RecreateLimit,
    /// The restart limit was reached.
    RestartLimit,
}

impl ErrorMessage {
    pub open spec fn spec_text(self) -> Seq<char> {
        match self {
            ErrorMessage::CreateLimit => "gave up creating container"@,
            ErrorMessage::RecreateLimit => "gave up recreating container"@,
            ErrorMessage::RestartLimit => "gave up restarting container"@,
        }
    }

    pub fn text(self) -> (s: &'static str)
        ensures
            s@ == self.spec_text(),
    {
        match self {
            ErrorMessage::CreateLimit => "gave up creating container",
            ErrorMessage::RecreateLimit => "gave up recreating container",
            ErrorMessage::RestartLimit => "gave up restarting container",
        }
    }
}

/// An external intent acting on one project.
#[derive(Clone, Copy, Debug, PartialEq, Eq, Structural)]
pub enum TaskPayload {
    /// Start a stopped project again (enqueued by the proxy on demand).
    Resume,
    /// Stop an idle project.
    Stop,
    /// Explicit user restart; also the way out of `Errored`.
    Restart,
    /// Remove the project for good.  Absorbing: it wins over any state.
    Destroy,
    /// Reconcile with the runtime's ground truth; wakes the worker.
    Refresh,
    /// Re-verify a `Ready` project's health.
    CheckHealth,
}

/// The container-runtime error model, collapsed to what the state machine
/// distinguishes.
#[derive(Clone, Copy, Debug, PartialEq, Eq, Structural)]
pub enum DriverError {
    NotFound,
    AlreadyExists,
    Transient,
    Fatal,
}

/// The operation the worker must perform against the container runtime to
/// advance a state.  `Remove { container_id: None }` removes whatever
/// container carries the project's name.
#[derive(Clone, Copy, Debug, PartialEq, Eq, Structural)]
pub enum DriverOp {
    Create,
    Inspect { container_id: u64 },
    Start { container_id: u64 },
    Stop { container_id: u64 },
    Remove { container_id: Option<u64> },
    HealthProbe { container_id: u64 },
    /// Quiescent state: nothing to do until an external task arrives.
    Wait,
}

/// What the container runtime answered.
#[derive(Clone, Copy, Debug, PartialEq, Eq, Structural)]
pub enum DriverResponse {
    /// A container was created and got this handle.
    Created { container_id: u64 },
    /// Inspection result: is it running, and does its configuration match
    /// what the project expects (image, network)?
    Inspected { running: bool, config_ok: bool },
    /// The requested start, stop or removal completed.
    Done,
    /// The health probe succeeded at this address.
    Healthy { backend: BackendAddr },
    /// The operation failed.
    Failed { error: DriverError },
    /// Nothing to report (answer to `Wait`).
    Tick,
}

/// States the worker leaves alone until an external task arrives.
pub open spec fn spec_quiescent(s: ProjectState) -> bool {
    match s {
        ProjectState::Ready { .. } => true,
        ProjectState::Stopped { .. } => true,
        ProjectState::Destroyed => true,
        ProjectState::Errored { .. } => true,
        _ => false,
    }
}

/// The operation [`advance`] expects an answer to, for each state.
pub open spec fn spec_required_op(s: ProjectState) -> DriverOp {
    match s {
        ProjectState::Creating { .. } => DriverOp::Create,
        ProjectState::Attaching { container_id, .. } => DriverOp::Inspect { container_id },
        ProjectState::Starting { container_id, .. } => DriverOp::Start { container_id },
        ProjectState::Started { container_id, .. } => DriverOp::HealthProbe { container_id },
        ProjectState::Ready { .. } => DriverOp::Wait,
        ProjectState::Stopping { container_id } => DriverOp::Stop { container_id },
        ProjectState::Stopped { .. } => DriverOp::Wait,
        ProjectState::Restarting { container_id, .. } => DriverOp::Stop { container_id },
        ProjectState::Recreating { .. } => DriverOp::Remove { container_id: None },
        ProjectState::Destroying { container_id } => DriverOp::Remove {
            container_id: Some(container_id),
        },
        ProjectState::Destroyed => DriverOp::Wait,
        ProjectState::Errored { .. } => DriverOp::Wait,
    }
}

/// Is `r` a possible answer to `op`?  The worker only ever feeds
/// [`advance`] a matching answer.
pub open spec fn response_matches(op: DriverOp, r: DriverResponse) -> bool {
    match op {
        DriverOp::Create => r matches DriverResponse::Created { .. } || r
            matches DriverResponse::Failed { .. },
        DriverOp::Inspect { .. } => r matches DriverResponse::Inspected { .. } || r
            matches DriverResponse::Failed { .. },
        DriverOp::Start { .. } => r matches DriverResponse::Done || r
            matches DriverResponse::Failed { .. },
        DriverOp::Stop { .. } => r matches DriverResponse::Done || r
            matches DriverResponse::Failed { .. },
        DriverOp::Remove { .. } => r matches DriverResponse::Done || r
            matches DriverResponse::Failed { .. },
        DriverOp::HealthProbe { .. } => r matches DriverResponse::Healthy { .. } || r
            matches DriverResponse::Failed { .. },
        DriverOp::Wait => true,
    }
}

/// The count one step further, held at the numeric ceiling; the cap
/// check in the `Recreating` row fires long before the ceiling matters.
pub open spec fn spec_bump(c: u8) -> u8 {
    if c < u8::MAX {
        (c + 1) as u8
    } else {
        c
    }
}

/// The transition table: what [`advance`] computes.  A response that does
/// not answer the state's required operation leaves the state unchanged.
pub open spec fn spec_advance(s: ProjectState, r: DriverResponse) -> ProjectState {
    match s {
        ProjectState::Creating { recreate_count } => match r {
            DriverResponse::Created { container_id } => ProjectState::Attaching {
                container_id,
                recreate_count,
            },
            DriverResponse::Failed { .. } => if recreate_count < RECREATE_CAP {
                ProjectState::Creating { recreate_count: (recreate_count + 1) as u8 }
            } else {
                ProjectState::Errored {
                    message: ErrorMessage::CreateLimit,
                    previous: Some(Box::new(ProjectState::Creating { recreate_count })),
                }
            },
            _ => s,
        },
        ProjectState::Attaching { container_id, recreate_count } => match r {
            DriverResponse::Inspected { running: _, config_ok: true } => ProjectState::Starting {
                container_id,
                restart_count: 0,
            },
            DriverResponse::Inspected { running: _, config_ok: false } => ProjectState::Recreating {
                recreate_count: spec_bump(recreate_count),
            },
            DriverResponse::Failed { .. } => ProjectState::Recreating {
                recreate_count: spec_bump(recreate_count),
            },
            _ => s,
        },
        ProjectState::Starting { container_id, restart_count } => match r {
            DriverResponse::Done => ProjectState::Started { container_id, start_count: restart_count },
            DriverResponse::Failed { .. } => if restart_count < RESTART_CAP {
                ProjectState::Restarting { container_id, restart_count: (restart_count + 1) as u8 }
            } else {
                ProjectState::Errored {
                    message: ErrorMessage::RestartLimit,
                    previous: Some(
                        Box::new(ProjectState::Starting { container_id, restart_count }),
                    ),
                }
            },
            _ => s,
        },
        ProjectState::Started { container_id, start_count } => match r {
            DriverResponse::Healthy { backend } => ProjectState::Ready { container_id, backend },
            DriverResponse::Failed { .. } => if start_count < RESTART_CAP {
                ProjectState::Restarting { container_id, restart_count: (start_count + 1) as u8 }
            } else {
                ProjectState::Errored {
                    message: ErrorMessage::RestartLimit,
                    previous: Some(Box::new(ProjectState::Started { container_id, start_count })),
                }
            },
            _ => s,
        },
        ProjectState::Ready { .. } => s,
        ProjectState::Stopping { container_id } => match r {
            DriverResponse::Done => ProjectState::Stopped { container_id },
            DriverResponse::Failed { .. } => ProjectState::Stopped { container_id },
            _ => s,
        },
        ProjectState::Stopped { .. } => s,
        ProjectState::Restarting { container_id, restart_count } => if restart_count > RESTART_CAP {
            ProjectState::Errored {
                message: ErrorMessage::RestartLimit,
                previous: Some(Box::new(ProjectState::Restarting { container_id, restart_count })),
            }
        } else {
            match r {
                DriverResponse::Done => ProjectState::Starting { container_id, restart_count },
                DriverResponse::Failed { .. } => ProjectState::Starting {
                    container_id,
                    restart_count,
                },
                _ => s,
            }
        },
        ProjectState::Recreating { recreate_count } => if recreate_count > RECREATE_CAP {
            ProjectState::Errored {
                message: ErrorMessage::RecreateLimit,
                previous: Some(Box::new(ProjectState::Recreating { recreate_count })),
            }
        } else {
            match r {
                DriverResponse::Done => ProjectState::Creating { recreate_count },
                DriverResponse::Failed { .. } => ProjectState::Creating { recreate_count },
                _ => s,
            }
        },
        ProjectState::Destroying { container_id } => match r {
            DriverResponse::Done => ProjectState::Destroyed,
            DriverResponse::Failed { .. } => ProjectState::Destroyed,
            _ => s,
        },
        ProjectState::Destroyed => s,
        ProjectState::Errored { .. } => s,
    }
}

/// The container handle a state refers to, if any.  For `Errored` it is
/// the handle of the state the failure occurred in.
pub open spec fn spec_container_of(s: ProjectState) -> Option<u64>
    decreases s,
{
    match s {
        ProjectState::Creating { .. } => None,
        ProjectState::Attaching { container_id, .. } => Some(container_id),
        ProjectState::Starting { container_id, .. } => Some(container_id),
        ProjectState::Started { container_id, .. } => Some(container_id),
        ProjectState::Ready { container_id, .. } => Some(container_id),
        ProjectState::Stopping { container_id } => Some(container_id),
        ProjectState::Stopped { container_id } => Some(container_id),
        ProjectState::Restarting { container_id, .. } => Some(container_id),
        ProjectState::Recreating { .. } => None,
        ProjectState::Destroying { container_id } => Some(container_id),
        ProjectState::Destroyed => None,
        ProjectState::Errored { previous, .. } => match previous {
            Some(p) => spec_container_of(*p),
            None => None,
        },
    }
}

/// What folding an external task onto a state yields.
///
/// `Destroy` is absorbing: whatever the current state, it becomes
/// `Destroying` (when a container handle is known) or directly
/// `Destroyed`.  Nothing leaves `Destroyed`.
pub open spec fn spec_apply_task(s: ProjectState, t: TaskPayload) -> ProjectState {
    match t {
        TaskPayload::Destroy => match spec_container_of(s) {
            Some(c) => ProjectState::Destroying { container_id: c },
            None => ProjectState::Destroyed,
        },
        TaskPayload::Resume => match s {
            ProjectState::Stopped { container_id } => ProjectState::Starting {
                container_id,
                restart_count: 0,
            },
            _ => s,
        },
        TaskPayload::Stop => match s {
            ProjectState::Ready { container_id, .. } => ProjectState::Stopping { container_id },
            _ => s,
        },
        TaskPayload::Restart => match s {
            ProjectState::Ready { container_id, .. } => ProjectState::Restarting {
                container_id,
                restart_count: 0,
            },
            ProjectState::Stopped { container_id } => ProjectState::Restarting {
                container_id,
                restart_count: 0,
            },
            ProjectState::Errored { .. } => match spec_container_of(s) {
                Some(c) => ProjectState::Restarting { container_id: c, restart_count: 0 },
                None => ProjectState::Creating { recreate_count: 0 },
            },
            _ => s,
        },
        TaskPayload::Refresh => s,
        TaskPayload::CheckHealth => match s {
            ProjectState::Ready { container_id, .. } => ProjectState::Started {
                container_id,
                start_count: 0,
            },
            _ => s,
        },
    }
}

impl ProjectState {
    /// Is the state quiescent: nothing to do until an external task?
    pub fn is_done(&self) -> (r: bool)
        ensures
            r == spec_quiescent(*self),
    {
        match self {
            ProjectState::Ready { .. } => true,
            ProjectState::Stopped { .. } => true,
            ProjectState::Destroyed => true,
            ProjectState::Errored { .. } => true,
            _ => false,
        }
    }

    /// Splits the terminal failure off: `Err` with the diagnostic for
    /// `Errored`, `Ok` with the state itself otherwise.
    pub fn into_result(self) -> (r: Result<ProjectState, ErrorMessage>)
        ensures
            match r {
                Ok(s) => s == self && !(self matches ProjectState::Errored { .. }),
                Err(m) => self matches ProjectState::Errored { message, .. } && m == message,
            },
    {
        match self {
            ProjectState::Errored { message, .. } => Err(message),
            other => Ok(other),
        }
    }

    /// A deep copy of the state.
    pub fn duplicate(&self) -> (r: ProjectState)
        ensures
            r == *self,
        decreases *self,
    {
        match self {
            ProjectState::Creating { recreate_count } => ProjectState::Creating {
                recreate_count: *recreate_count,
            },
            ProjectState::Attaching { container_id, recreate_count } => ProjectState::Attaching {
                container_id: *container_id,
                recreate_count: *recreate_count,
            },
            ProjectState::Starting { container_id, restart_count } => ProjectState::Starting {
                container_id: *container_id,
                restart_count: *restart_count,
            },
            ProjectState::Started { container_id, start_count } => ProjectState::Started {
                container_id: *container_id,
                start_count: *start_count,
            },
            ProjectState::Ready { container_id, backend } => ProjectState::Ready {
                container_id: *container_id,
                backend: *backend,
            },
            ProjectState::Stopping { container_id } => ProjectState::Stopping {
                container_id: *container_id,
            },
            ProjectState::Stopped { container_id } => ProjectState::Stopped {
                container_id: *container_id,
            },
            ProjectState::Restarting { container_id, restart_count } => ProjectState::Restarting {
                container_id: *container_id,
                restart_count: *restart_count,
            },
            ProjectState::Recreating { recreate_count } => ProjectState::Recreating {
                recreate_count: *recreate_count,
            },
            ProjectState::Destroying { container_id } => ProjectState::Destroying {
                container_id: *container_id,
            },
            ProjectState::Destroyed => ProjectState::Destroyed,
            ProjectState::Errored { message, previous } => ProjectState::Errored {
                message: *message,
                previous: match previous {
                    Some(p) => Some(Box::new(p.duplicate())),
                    None => None,
                },
            },
        }
    }

    /// The container handle this state refers to, if any.
    pub fn container_id(&self) -> (r: Option<u64>)
        ensures
            r == spec_container_of(*self),
        decreases *self,
    {
        match self {
            ProjectState::Creating { .. } => None,
            ProjectState::Attaching { container_id, .. } => Some(*container_id),
            ProjectState::Starting { container_id, .. } => Some(*container_id),
            ProjectState::Started { container_id, .. } => Some(*container_id),
            ProjectState::Ready { container_id, .. } => Some(*container_id),
            ProjectState::Stopping { container_id } => Some(*container_id),
            ProjectState::Stopped { container_id } => Some(*container_id),
            ProjectState::Restarting { container_id, .. } => Some(*container_id),
            ProjectState::Recreating { .. } => None,
            ProjectState::Destroying { container_id } => Some(*container_id),
            ProjectState::Destroyed => None,
            ProjectState::Errored { previous, .. } => match previous {
                Some(p) => p.container_id(),
                None => None,
            },
        }
    }
}

/// The operation the worker must perform next for this state.
pub fn required_op(s: &ProjectState) -> (op: DriverOp)
    ensures
        op == spec_required_op(*s),
{
    match s {
        ProjectState::Creating { .. } => DriverOp::Create,
        ProjectState::Attaching { container_id, .. } => DriverOp::Inspect {
            container_id: *container_id,
        },
        ProjectState::Starting { container_id, .. } => DriverOp::Start {
            container_id: *container_id,
        },
        ProjectState::Started { container_id, .. } => DriverOp::HealthProbe {
            container_id: *container_id,
        },
        ProjectState::Ready { .. } => DriverOp::Wait,
        ProjectState::Stopping { container_id } => DriverOp::Stop { container_id: *container_id },
        ProjectState::Stopped { .. } => DriverOp::Wait,
        ProjectState::Restarting { container_id, .. } => DriverOp::Stop {
            container_id: *container_id,
        },
        ProjectState::Recreating { .. } => DriverOp::Remove { container_id: None },
        ProjectState::Destroying { container_id } => DriverOp::Remove {
            container_id: Some(*container_id),
        },
        ProjectState::Destroyed => DriverOp::Wait,
        ProjectState::Errored { .. } => DriverOp::Wait,
    }
}

/// The count one step further, held at the numeric ceiling.
fn bump(c: u8) -> (r: u8)
    ensures
        r == spec_bump(c),
{
    if c < u8::MAX {
        c + 1
    } else {
        c
    }
}

/// One step of the state machine: folds the runtime's answer to the
/// state's required operation into the next state.  Infallible: failures
/// become retry states or `Errored`.
pub fn advance(s: ProjectState, r: DriverResponse) -> (next: ProjectState)
    ensures
        next == spec_advance(s, r),
{
    match s {
        ProjectState::Creating { recreate_count } => match r {
            DriverResponse::Created { container_id } => ProjectState::Attaching {
                container_id,
                recreate_count,
            },
            DriverResponse::Failed { .. } => {
                if recreate_count < RECREATE_CAP {
                    ProjectState::Creating { recreate_count: recreate_count + 1 }
                } else {
                    ProjectState::Errored {
                        message: ErrorMessage::CreateLimit,
                        previous: Some(Box::new(ProjectState::Creating { recreate_count })),
                    }
                }
            },
            _ => ProjectState::Creating { recreate_count },
        },
        ProjectState::Attaching { container_id, recreate_count } => match r {
            DriverResponse::Inspected { running: _, config_ok } => {
                if config_ok {
                    ProjectState::Starting { container_id, restart_count: 0 }
                } else {
                    ProjectState::Recreating { recreate_count: bump(recreate_count) }
                }
            },
            DriverResponse::Failed { .. } => ProjectState::Recreating {
                recreate_count: bump(recreate_count),
            },
            _ => ProjectState::Attaching { container_id, recreate_count },
        },
        ProjectState::Starting { container_id, restart_count } => match r {
            DriverResponse::Done => ProjectState::Started { container_id, start_count: restart_count },
            DriverResponse::Failed { .. } => {
                if restart_count < RESTART_CAP {
                    ProjectState::Restarting { container_id, restart_count: restart_count + 1 }
                } else {
                    ProjectState::Errored {
                        message: ErrorMessage::RestartLimit,
                        previous: Some(
                            Box::new(ProjectState::Starting { container_id, restart_count }),
                        ),
                    }
                }
            },
            _ => ProjectState::Starting { container_id, restart_count },
        },
        ProjectState::Started { container_id, start_count } => match r {
            DriverResponse::Healthy { backend } => ProjectState::Ready { container_id, backend },
            DriverResponse::Failed { .. } => {
                if start_count < RESTART_CAP {
                    ProjectState::Restarting { container_id, restart_count: start_count + 1 }
                } else {
                    ProjectState::Errored {
                        message: ErrorMessage::RestartLimit,
                        previous: Some(
                            Box::new(ProjectState::Started { container_id, start_count }),
                        ),
                    }
                }
            },
            _ => ProjectState::Started { container_id, start_count },
        },
        ProjectState::Ready { container_id, backend } => ProjectState::Ready {
            container_id,
            backend,
        },
        ProjectState::Stopping { container_id } => match r {
            DriverResponse::Done => ProjectState::Stopped { container_id },
            DriverResponse::Failed { .. } => ProjectState::Stopped { container_id },
            _ => ProjectState::Stopping { container_id },
        },
        ProjectState::Stopped { container_id } => ProjectState::Stopped { container_id },
        ProjectState::Restarting { container_id, restart_count } => {
            if restart_count > RESTART_CAP {
                ProjectState::Errored {
                    message: ErrorMessage::RestartLimit,
                    previous: Some(
                        Box::new(ProjectState::Restarting { container_id, restart_count }),
                    ),
                }
            } else {
                match r {
                    DriverResponse::Done => ProjectState::Starting { container_id, restart_count },
                    DriverResponse::Failed { .. } => ProjectState::Starting {
                        container_id,
                        restart_count,
                    },
                    _ => ProjectState::Restarting { container_id, restart_count },
                }
            }
        },
        ProjectState::Recreating { recreate_count } => {
            if recreate_count > RECREATE_CAP {
                ProjectState::Errored {
                    message: ErrorMessage::RecreateLimit,
                    previous: Some(Box::new(ProjectState::Recreating { recreate_count })),
                }
            } else {
                match r {
                    DriverResponse::Done => ProjectState::Creating { recreate_count },
                    DriverResponse::Failed { .. } => ProjectState::Creating { recreate_count },
                    _ => ProjectState::Recreating { recreate_count },
                }
            }
        },
        ProjectState::Destroying { container_id } => match r {
            DriverResponse::Done => ProjectState::Destroyed,
            DriverResponse::Failed { .. } => ProjectState::Destroyed,
            _ => ProjectState::Destroying { container_id },
        },
        ProjectState::Destroyed => ProjectState::Destroyed,
        ProjectState::Errored { message, previous } => ProjectState::Errored { message, previous },
    }
}

/// Folds an external task onto the state.
pub fn apply_task(s: ProjectState, t: TaskPayload) -> (next: ProjectState)
    ensures
        next == spec_apply_task(s, t),
{
    match t {
        TaskPayload::Destroy => match s.container_id() {
            Some(c) => ProjectState::Destroying { container_id: c },
            None => ProjectState::Destroyed,
        },
        TaskPayload::Resume => match s {
            ProjectState::Stopped { container_id } => ProjectState::Starting {
                container_id,
                restart_count: 0,
            },
            other => other,
        },
        TaskPayload::Stop => match s {
            ProjectState::Ready { container_id, .. } => ProjectState::Stopping { container_id },
            other => other,
        },
        TaskPayload::Restart => match s.container_id() {
            Some(c) => match s {
                ProjectState::Ready { .. } => ProjectState::Restarting {
                    container_id: c,
                    restart_count: 0,
                },
                ProjectState::Stopped { .. } => ProjectState::Restarting {
                    container_id: c,
                    restart_count: 0,
                },
                ProjectState::Errored { .. } => ProjectState::Restarting {
                    container_id: c,
                    restart_count: 0,
                },
                other => other,
            },
            None => match s {
                ProjectState::Errored { .. } => ProjectState::Creating { recreate_count: 0 },
                other => other,
            },
        },
        TaskPayload::Refresh => s,
        TaskPayload::CheckHealth => match s {
            ProjectState::Ready { container_id, .. } => ProjectState::Started {
                container_id,
                start_count: 0,
            },
            other => other,
        },
    }
}

/// The boot-phase states: the image of `advance` starting from
/// `Creating`, before any stop or destroy intent.
pub open spec fn boot_state(s: ProjectState) -> bool {
    match s {
        ProjectState::Creating { .. } => true,
        ProjectState::Attaching { .. } => true,
        ProjectState::Starting { .. } => true,
        ProjectState::Started { .. } => true,
        ProjectState::Restarting { .. } => true,
        ProjectState::Recreating { .. } => true,
        ProjectState::Ready { .. } => true,
        ProjectState::Errored { .. } => true,
        _ => false,
    }
}

/// How many re-creations remain before `Errored`.
pub open spec fn recreate_budget(recreate_count: u8) -> nat {
    if recreate_count > RECREATE_CAP {
        0
    } else {
        (RECREATE_CAP - recreate_count + 1) as nat
    }
}

/// How many restarts remain before `Errored`.
pub open spec fn restart_budget(restart_count: u8) -> nat {
    if restart_count > RESTART_CAP {
        0
    } else {
        (RESTART_CAP - restart_count + 1) as nat
    }
}

/// A ranking that every matching `advance` step strictly decreases until
/// the state quiesces: the measure behind the forward-progress guarantee.
pub open spec fn spec_rank(s: ProjectState) -> nat {
    match s {
        ProjectState::Creating { recreate_count } => recreate_budget(recreate_count) * 31 + 29,
        ProjectState::Attaching { recreate_count, .. } => recreate_budget(recreate_count) * 31
            + 28,
        ProjectState::Recreating { recreate_count } => if recreate_count > RECREATE_CAP {
            1
        } else {
            recreate_budget(recreate_count) * 31 + 30
        },
        ProjectState::Starting { restart_count, .. } => restart_budget(restart_count) * 4 + 2,
        ProjectState::Started { start_count, .. } => restart_budget(start_count) * 4 + 1,
        ProjectState::Restarting { restart_count, .. } => restart_budget(restart_count) * 4 + 3,
        ProjectState::Stopping { .. } => 1,
        ProjectState::Destroying { .. } => 1,
        _ => 0,
    }
}

/// Every advancement step follows the transition table: for each source
/// state, the successors possible under a matching runtime answer.  The
/// quiescent states repeat themselves; `Errored` is reached only from
/// `Creating`, `Starting`, `Started`, `Restarting` and `Recreating`, each
/// at its exhausted budget.
pub proof fn lemma_advance_follows_table(s: ProjectState, r: DriverResponse)
    requires
        response_matches(spec_required_op(s), r),
    ensures
        ({
            let n = spec_advance(s, r);
            match s {
                ProjectState::Creating { .. } => (n matches ProjectState::Attaching { .. }) || (n
                    matches ProjectState::Creating { .. }) || (n
                    matches ProjectState::Errored { .. }),
                ProjectState::Attaching { .. } => (n matches ProjectState::Starting { .. }) || (n
                    matches ProjectState::Recreating { .. }),
                ProjectState::Starting { .. } => (n matches ProjectState::Started { .. }) || (n
                    matches ProjectState::Restarting { .. }) || (n
                    matches ProjectState::Errored { .. }),
                ProjectState::Started { .. } => (n matches ProjectState::Ready { .. }) || (n
                    matches ProjectState::Restarting { .. }) || (n
                    matches ProjectState::Errored { .. }),
                ProjectState::Ready { .. } => n == s,
                ProjectState::Stopping { .. } => n matches ProjectState::Stopped { .. },
                ProjectState::Stopped { .. } => n == s,
                ProjectState::Restarting { .. } => (n matches ProjectState::Starting { .. }) || (n
                    matches ProjectState::Errored { .. }),
                ProjectState::Recreating { .. } => (n matches ProjectState::Creating { .. }) || (n
                    matches ProjectState::Errored { .. }),
                ProjectState::Destroying { .. } => n matches ProjectState::Destroyed,
                ProjectState::Destroyed => n == s,
                ProjectState::Errored { .. } => n == s,
            }
        }),
{
}

/// A state is quiescent exactly when it requires no runtime operation.
pub proof fn lemma_quiescent_iff_waiting(s: ProjectState)
    ensures
        spec_quiescent(s) <==> spec_required_op(s) == DriverOp::Wait,
{
}

/// Every matching answer makes progress: the step either quiesces or
/// strictly decreases the rank.
pub proof fn lemma_advance_progress(s: ProjectState, r: DriverResponse)
    requires
        !spec_quiescent(s),
        response_matches(spec_required_op(s), r),
    ensures
        spec_quiescent(spec_advance(s, r)) || spec_rank(spec_advance(s, r)) < spec_rank(s),
{
}

/// Folding a sequence of runtime answers into the state, stopping at the
/// first quiescent state: what a worker that drains its answers reaches.
pub open spec fn spec_run(s: ProjectState, rs: Seq<DriverResponse>) -> ProjectState
    decreases rs.len(),
{
    if rs.len() == 0 || spec_quiescent(s) {
        s
    } else {
        spec_run(spec_advance(s, rs[0]), rs.subrange(1, rs.len() as int))
    }
}

/// Does each answer in `rs` answer the operation required at its point of
/// the run?
pub open spec fn responses_match_from(s: ProjectState, rs: Seq<DriverResponse>) -> bool
    decreases rs.len(),
{
    rs.len() == 0 || (response_matches(spec_required_op(s), rs[0]) && responses_match_from(
        spec_advance(s, rs[0]),
        rs.subrange(1, rs.len() as int),
    ))
}

/// Forward progress: from any state, the machine quiesces within
/// `spec_rank(s)` matching runtime answers, whatever mix of successes and
/// failures they are.
pub proof fn lemma_run_quiesces(s: ProjectState, rs: Seq<DriverResponse>)
    requires
        responses_match_from(s, rs),
        rs.len() >= spec_rank(s),
    ensures
        spec_quiescent(spec_run(s, rs)),
    decreases rs.len(),
{
    if !spec_quiescent(s) {
        assert(spec_rank(s) >= 1);
        lemma_advance_progress(s, rs[0]);
        lemma_run_quiesces(spec_advance(s, rs[0]), rs.subrange(1, rs.len() as int));
    }
}

/// Without external tasks, a project being brought up stays within the
/// boot states.
pub proof fn lemma_boot_preserved(s: ProjectState, r: DriverResponse)
    requires
        boot_state(s),
    ensures
        boot_state(spec_advance(s, r)),
{
}

/// `lemma_boot_preserved`, carried through a whole run.
pub proof fn lemma_boot_run_preserved(s: ProjectState, rs: Seq<DriverResponse>)
    requires
        boot_state(s),
    ensures
        boot_state(spec_run(s, rs)),
    decreases rs.len(),
{
    if rs.len() == 0 || spec_quiescent(s) {
    } else {
        lemma_boot_preserved(s, rs[0]);
        lemma_boot_run_preserved(spec_advance(s, rs[0]), rs.subrange(1, rs.len() as int));
    }
}

/// Outcome under runtime flakiness: starting anywhere in boot — in
/// particular at `Creating` — after at most `spec_rank(s)` matching
/// answers the project is `Ready`, or `Errored` with its retry budgets
/// exhausted.  Failures only spend budget; they never wedge the machine.
pub proof fn lemma_boot_outcome(s: ProjectState, rs: Seq<DriverResponse>)
    requires
        boot_state(s),
        responses_match_from(s, rs),
        rs.len() >= spec_rank(s),
    ensures
        (spec_run(s, rs) matches ProjectState::Ready { .. }) || (spec_run(s, rs)
            matches ProjectState::Errored { .. }),
{
    lemma_run_quiesces(s, rs);
    lemma_boot_run_preserved(s, rs);
}

/// The progress bound for a fresh project, as one number: from
/// `Creating` at retry count zero, one hundred and fifty-three matching
/// runtime answers — however failures and successes mix — leave the
/// project `Ready` or `Errored`.
pub proof fn lemma_fresh_project_outcome(rs: Seq<DriverResponse>)
    requires
        responses_match_from(ProjectState::Creating { recreate_count: 0 }, rs),
        rs.len() >= 153,
    ensures
        (spec_run(ProjectState::Creating { recreate_count: 0 }, rs)
            matches ProjectState::Ready { .. }) || (spec_run(
            ProjectState::Creating { recreate_count: 0 },
            rs,
        ) matches ProjectState::Errored { .. }),
{
    assert(spec_rank(ProjectState::Creating { recreate_count: 0 }) == 153);
    lemma_boot_outcome(ProjectState::Creating { recreate_count: 0 }, rs);
}

/// Terminal states are fixed points of `advance`: absent external tasks,
/// `Destroyed` and `Errored` never move.
pub proof fn lemma_terminal_fixed(s: ProjectState, r: DriverResponse)
    requires
        (s matches ProjectState::Destroyed) || (s matches ProjectState::Errored { .. }),
    ensures
        spec_advance(s, r) == s,
{
}

/// A destroy intent wins from any state: folding the task in and giving
/// the runtime's answer to the one operation it may still require leaves
/// the project `Destroyed`.
pub proof fn lemma_destroy_absorbs(s: ProjectState, r: DriverResponse)
    requires
        response_matches(spec_required_op(spec_apply_task(s, TaskPayload::Destroy)), r),
    ensures
        spec_advance(spec_apply_task(s, TaskPayload::Destroy), r) == ProjectState::Destroyed,
{
}

/// Nothing leaves `Destroyed`: neither a runtime answer nor any external
/// task.
pub proof fn lemma_destroyed_is_final(t: TaskPayload, r: DriverResponse)
    ensures
        spec_apply_task(ProjectState::Destroyed, t) == ProjectState::Destroyed,
        spec_advance(ProjectState::Destroyed, r) == ProjectState::Destroyed,
{
}

/// Leaving `Errored` takes an explicit intent: every task other than
/// `Restart` and `Destroy` leaves an errored project where it is, as
/// does every runtime answer.
pub proof fn lemma_errored_needs_explicit_task(s: ProjectState, t: TaskPayload, r: DriverResponse)
    requires
        s matches ProjectState::Errored { .. },
        t != TaskPayload::Restart && t != TaskPayload::Destroy,
    ensures
        spec_apply_task(s, t) == s,
        spec_advance(s, r) == s,
{
}

/// The success answer a healthy runtime gives to each operation, with
/// `new_id` the handle `Create` yields and `backend` the probed address.
pub open spec fn success_response(op: DriverOp, new_id: u64, backend: BackendAddr) -> DriverResponse {
    match op {
        DriverOp::Create => DriverResponse::Created { container_id: new_id },
        DriverOp::Inspect { .. } => DriverResponse::Inspected { running: false, config_ok: true },
        DriverOp::Start { .. } => DriverResponse::Done,
        DriverOp::Stop { .. } => DriverResponse::Done,
        DriverOp::Remove { .. } => DriverResponse::Done,
        DriverOp::HealthProbe { .. } => DriverResponse::Healthy { backend },
        DriverOp::Wait => DriverResponse::Tick,
    }
}

/// One step of the machine against an always-succeeding runtime.
pub open spec fn success_step(s: ProjectState, new_id: u64, backend: BackendAddr) -> ProjectState {
    spec_advance(s, success_response(spec_required_op(s), new_id, backend))
}

/// Against an always-succeeding runtime, a project created at any retry
/// count is `Ready` after four steps: create, attach, start, probe.
pub proof fn lemma_create_reaches_ready(recreate_count: u8, id: u64, backend: BackendAddr)
    ensures
        success_step(
            success_step(
                success_step(
                    success_step(ProjectState::Creating { recreate_count }, id, backend),
                    id,
                    backend,
                ),
                id,
                backend,
            ),
            id,
            backend,
        ) == (ProjectState::Ready { container_id: id, backend }),
{
}

/// Has a `Ready` project sat idle long enough to be stopped?  Times are
/// seconds since the epoch; a clock that moved backwards reads as not
/// idle.
pub open spec fn spec_idle_timeout_reached(last_active_at: u64, now: u64) -> bool {
    now as int - last_active_at as int >= IDLE_TIMEOUT_SECS as int
}

/// Decides the idle-stop: the worker enqueues `Stop` for a `Ready`
/// project whose last routed request is at least the idle threshold old.
pub fn idle_timeout_reached(last_active_at: u64, now: u64) -> (r: bool)
    ensures
        r == spec_idle_timeout_reached(last_active_at, now),
{
    now >= last_active_at && now - last_active_at >= IDLE_TIMEOUT_SECS
}

/// Applies [`advance`] over recorded runtime answers until the state
/// quiesces or the answers run out: the worker's drain loop.
pub fn run_to_quiescence(state: ProjectState, resps: &Vec<DriverResponse>) -> (r: ProjectState)
    ensures
        r == spec_run(state, resps@),
{
    let mut s = state;
    let mut i: usize = 0;
    proof {
        assert(resps@.subrange(0, resps@.len() as int) =~= resps@);
    }
    while i < resps.len()
        invariant
            i <= resps@.len(),
            spec_run(state, resps@) == spec_run(s, resps@.subrange(i as int, resps@.len() as int)),
        decreases resps@.len() - i,
    {
        if s.is_done() {
            return s;
        }
        let r = resps[i];
        proof {
            let tail = resps@.subrange(i as int, resps@.len() as int);
            assert(tail[0] == resps@[i as int]);
            assert(tail.subrange(1, tail.len() as int) =~= resps@.subrange(
                i as int + 1,
                resps@.len() as int,
            ));
        }
        s = advance(s, r);
        i = i + 1;
    }
    proof {
        assert(resps@.subrange(i as int, resps@.len() as int) =~= Seq::<DriverResponse>::empty());
    }
    s
}

} // verus!
