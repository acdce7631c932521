//! Orchestration core of a sandboxed code runner: language profiles,
//! per-execution workspaces, step dispatch and outcome classification,
//! admission control and invocation counting.

pub mod error;
pub mod language;
pub mod workspace;
pub mod profile;
pub mod outcome;
pub mod dispatch;
pub mod admission;
pub mod tracker;
pub mod ui;
pub mod session;
