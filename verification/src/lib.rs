//! Control-plane core of a multi-tenant deployment gateway.
//!
//! Each tenant owns a *project*: a dedicated runtime container driven
//! through its lifecycle (create, start, ready, idle, stop, destroy) by a
//! per-project state machine.  This crate holds the verified core of that
//! gateway: the state machine itself, the task queue that serialises
//! advancement, the host-based router, the persisted-state codec and the
//! project/account registry.  Container-runtime calls, HTTP listeners and
//! the relational store live outside; they exchange plain values with the
//! functions here.

pub mod codec;
pub mod error;
pub mod name;
pub mod route;
pub mod service;
pub mod state;
pub mod task;
