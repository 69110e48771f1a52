//! A Linux process sandbox: launches a command under namespace isolation,
//! enforces cgroup-backed resource limits, and reports a post-mortem verdict.
//!
//! This crate is the verified decision core of the sandbox: the configuration
//! model, the ordered launch plans for the supervisor and the sandboxed child,
//! the cgroup file operations, the wire codec for the result pipe, and the
//! verdict logic that reconciles wait statuses with cgroup counters. The
//! process and filesystem work itself (clone, mount, exec, file reads) is
//! performed by an unverified runtime that executes these plans: it forks the
//! supervisor with `pipeline::clone_flags`, walks `pipeline::supervisor_steps`
//! and `pipeline::child_steps`, reaps with `waitpid`, reads the counters named
//! by `cgroups`, settles the run with `pipeline::resolve_child_wait`, and
//! hands the caller's side of the pipe to `JailHandle::wait`.

pub mod cgroups;
pub mod codec;
pub mod config;
pub mod errors;
pub mod pipeline;
pub mod run_info;
pub mod utils;

use vstd::prelude::*;
use crate::codec::{decode_supervisor_report, spec_supervisor_report_view, WireRecord};
use crate::errors::Error;
use crate::pipeline::{spec_resolve_supervisor_wait, WaitStatus};
use crate::run_info::RunInfo;

verus! {

/// The caller's handle on a running invocation: the supervisor process that
/// owns the sandbox tree, named by its pid.
pub struct JailHandle {
    pub supervisor_pid: i32,
}

impl JailHandle {
    pub fn new(supervisor_pid: i32) -> (r: JailHandle)
        ensures
            r.supervisor_pid == supervisor_pid,
    {
        JailHandle { supervisor_pid }
    }

    /// Settles the invocation from the supervisor's wait status and
    /// everything its result pipe held. A supervisor that exited zero and
    /// wrote a complete record reported the run's outcome, error or verdict;
    /// one that wrote nothing, wrote a torn record or died of anything else
    /// produced no result, and the caller learns that instead.
    pub fn wait(self, status: WaitStatus, pipe: &[u8]) -> (r: Result<RunInfo<()>, Error>)
        ensures
            spec_supervisor_report_view(r) == spec_resolve_supervisor_wait(status, pipe@),
    {
        let exited_clean = match status {
            WaitStatus::Exited(c) => c == 0,
            _ => false,
        };
        if !exited_clean {
            return Err(Error::SupervisorProcessDiedError);
        }
        match decode_supervisor_report(pipe) {
            WireRecord::Present(report) => report,
            WireRecord::Absent => Err(Error::SupervisorProcessDiedError),
            WireRecord::Corrupt => Err(Error::SerializationError),
        }
    }
}

} // verus!
