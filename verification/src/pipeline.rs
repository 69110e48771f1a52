//! The launch pipeline: the clone flags of the two forks, the ordered setup
//! plans that the supervisor and the sandboxed child perform, and the wait
//! logic that turns a wait status, the result pipe's contents and the cgroup
//! counters into one verdict or error.
//!
//! The inner setup is a strict linear pipeline — redirects, stack limit,
//! cgroup join, cgroup unshare, private remount, bind mounts, pivot root,
//! uid/gid maps, process group, exec — and reordering it silently breaks the
//! isolation. The plan encodes that order once; the unverified runtime only
//! walks it.

use vstd::prelude::*;
use crate::cgroups::{cgroup_setup_ops, spec_cgroup_setup_ops, CgroupOp, CgroupOpV};
use crate::config::{
    Config, Environment, EnvironmentV, Interactive, Limits, Mount, MountV, ShareNet, SpaceUsage,
    SwapRedirects, spec_strings_view,
};
use crate::errors::{ChildErrorV, Error, ErrorV, FFIError, FFIErrorV, ChildError};
use crate::codec::{
    decode_child_report, spec_parse_child_frame, spec_parse_supervisor_frame,
    spec_supervisor_report_view, WireRecord,
};
use crate::run_info::{spec_merge_verdict, RunInfo, RunUsage, Verdict};

verus! {

/// New mount namespace: both clones always request one, so nothing either
/// process mounts is ever seen by the caller.
pub const CLONE_NEWNS: u64 = 0x0002_0000;

/// New user namespace: grants capabilities inside the sandbox only.
pub const CLONE_NEWUSER: u64 = 0x1000_0000;

/// New pid namespace: the child's descendants die with the supervisor.
pub const CLONE_NEWPID: u64 = 0x2000_0000;

/// New network namespace.
pub const CLONE_NEWNET: u64 = 0x4000_0000;

/// The flags of a sandbox fork: always a fresh mount and user namespace, a
/// pid namespace for the sandboxed child, and a network namespace when the
/// policy does not share the caller's.
pub open spec fn spec_clone_flags(share_net: ShareNet, new_pid_ns: bool) -> u64 {
    CLONE_NEWNS | CLONE_NEWUSER | (if new_pid_ns {
        CLONE_NEWPID
    } else {
        0
    }) | (if share_net is Unshare {
        CLONE_NEWNET
    } else {
        0
    })
}

pub fn clone_flags(share_net: ShareNet, new_pid_ns: bool) -> (r: u64)
    ensures
        r == spec_clone_flags(share_net, new_pid_ns),
{
    let pid_flag: u64 = if new_pid_ns {
        CLONE_NEWPID
    } else {
        0
    };
    let net_flag: u64 = match share_net {
        ShareNet::Share => 0,
        ShareNet::Unshare => CLONE_NEWNET,
    };
    CLONE_NEWNS | CLONE_NEWUSER | pid_flag | net_flag
}

/// Both forks always isolate mounts and users; pid and net namespaces follow
/// the policy. In particular the caller's mount table cannot change: every
/// mount the sandbox performs happens in a namespace of its own.
pub proof fn lemma_clone_flags_isolate(share_net: ShareNet, new_pid_ns: bool)
    ensures
        spec_clone_flags(share_net, new_pid_ns) & CLONE_NEWNS != 0,
        spec_clone_flags(share_net, new_pid_ns) & CLONE_NEWUSER != 0,
        (spec_clone_flags(share_net, new_pid_ns) & CLONE_NEWPID != 0) <==> new_pid_ns,
        (spec_clone_flags(share_net, new_pid_ns) & CLONE_NEWNET != 0) <==> share_net is Unshare,
{
    let p: u64 = if new_pid_ns {
        0x2000_0000
    } else {
        0
    };
    let n: u64 = if share_net is Unshare {
        0x4000_0000
    } else {
        0
    };
    assert(spec_clone_flags(share_net, new_pid_ns) == 0x0002_0000u64 | 0x1000_0000u64 | p | n);
    assert((0x0002_0000u64 | 0x1000_0000u64 | p | n) & 0x0002_0000u64 != 0) by (bit_vector)
        requires
            p == 0x2000_0000u64 || p == 0u64,
            n == 0x4000_0000u64 || n == 0u64,
    ;
    assert((0x0002_0000u64 | 0x1000_0000u64 | p | n) & 0x1000_0000u64 != 0) by (bit_vector)
        requires
            p == 0x2000_0000u64 || p == 0u64,
            n == 0x4000_0000u64 || n == 0u64,
    ;
    assert(((0x0002_0000u64 | 0x1000_0000u64 | p | n) & 0x2000_0000u64 != 0) == (p
        == 0x2000_0000u64)) by (bit_vector)
        requires
            p == 0x2000_0000u64 || p == 0u64,
            n == 0x4000_0000u64 || n == 0u64,
    ;
    assert(((0x0002_0000u64 | 0x1000_0000u64 | p | n) & 0x4000_0000u64 != 0) == (n
        == 0x4000_0000u64)) by (bit_vector)
        requires
            p == 0x2000_0000u64 || p == 0u64,
            n == 0x4000_0000u64 || n == 0u64,
    ;
}

/// One step of the supervisor's setup, before it forks the sandboxed child.
#[derive(Debug, PartialEq, Eq, Structural, Copy, Clone)]
pub enum SupervisorStep {
    /// Die with the caller, taking the whole pid namespace along.
    KillOnParentDeath,
    /// A fresh proc for the fresh namespace.
    MountProc,
    /// Map root inside the user namespace to the given host ids.
    SetUidGidMaps { uid: u32, gid: u32 },
}

/// The supervisor's ordered setup: guard against an orphaned tree, mount
/// proc, make the caller's user visible inside the namespace. The host ids
/// must have been read before the clone.
pub fn supervisor_steps(host_uid: u32, host_gid: u32) -> (steps: Vec<SupervisorStep>)
    ensures
        steps@ == seq![
            SupervisorStep::KillOnParentDeath,
            SupervisorStep::MountProc,
            SupervisorStep::SetUidGidMaps { uid: host_uid, gid: host_gid },
        ],
{
    let mut steps: Vec<SupervisorStep> = Vec::new();
    steps.push(SupervisorStep::KillOnParentDeath);
    steps.push(SupervisorStep::MountProc);
    steps.push(SupervisorStep::SetUidGidMaps { uid: host_uid, gid: host_gid });
    proof {
        assert(steps@ =~= seq![
            SupervisorStep::KillOnParentDeath,
            SupervisorStep::MountProc,
            SupervisorStep::SetUidGidMaps { uid: host_uid, gid: host_gid },
        ]);
    }
    steps
}

/// One step of the sandboxed child's setup, in the order the runtime must
/// perform them.
#[derive(Debug, PartialEq, Eq, Clone)]
pub enum ChildStep {
    RedirectStdout { path: String },
    RedirectStdin { path: String },
    RedirectStderr { path: String },
    SetStackLimit { size: SpaceUsage },
    EnterCgroups { ops: Vec<CgroupOp> },
    UnshareCgroup,
    RemountPrivate,
    BindMount { new_root: String, mount: Mount },
    PivotRoot { new_root: String },
    MountProc,
    SetUidGidMaps { uid: u32, gid: u32 },
    MoveToDifferentProcessGroup,
    Exec { command: String, args: Vec<String>, environment: Environment },
}

/// The mathematical image of a `ChildStep`.
pub enum ChildStepV {
    RedirectStdout { path: Seq<char> },
    RedirectStdin { path: Seq<char> },
    RedirectStderr { path: Seq<char> },
    SetStackLimit { size: SpaceUsage },
    EnterCgroups { ops: Seq<CgroupOpV> },
    UnshareCgroup,
    RemountPrivate,
    BindMount { new_root: Seq<char>, mount: MountV },
    PivotRoot { new_root: Seq<char> },
    MountProc,
    SetUidGidMaps { uid: u32, gid: u32 },
    MoveToDifferentProcessGroup,
    Exec { command: Seq<char>, args: Seq<Seq<char>>, environment: EnvironmentV },
}

impl View for ChildStep {
    type V = ChildStepV;

    open spec fn view(&self) -> ChildStepV {
        match self {
            ChildStep::RedirectStdout { path } => ChildStepV::RedirectStdout { path: path@ },
            ChildStep::RedirectStdin { path } => ChildStepV::RedirectStdin { path: path@ },
            ChildStep::RedirectStderr { path } => ChildStepV::RedirectStderr { path: path@ },
            ChildStep::SetStackLimit { size } => ChildStepV::SetStackLimit { size: *size },
            ChildStep::EnterCgroups { ops } => ChildStepV::EnterCgroups {
                ops: ops@.map_values(|op: CgroupOp| op@),
            },
            ChildStep::UnshareCgroup => ChildStepV::UnshareCgroup,
            ChildStep::RemountPrivate => ChildStepV::RemountPrivate,
            ChildStep::BindMount { new_root, mount } => ChildStepV::BindMount {
                new_root: new_root@,
                mount: mount@,
            },
            ChildStep::PivotRoot { new_root } => ChildStepV::PivotRoot { new_root: new_root@ },
            ChildStep::MountProc => ChildStepV::MountProc,
            ChildStep::SetUidGidMaps { uid, gid } => ChildStepV::SetUidGidMaps {
                uid: *uid,
                gid: *gid,
            },
            ChildStep::MoveToDifferentProcessGroup => ChildStepV::MoveToDifferentProcessGroup,
            ChildStep::Exec { command, args, environment } => ChildStepV::Exec {
                command: command@,
                args: spec_strings_view(args@),
                environment: environment@,
            },
        }
    }
}

/// The stdout redirect, as a zero- or one-step segment.
pub open spec fn spec_stdout_step(c: Config) -> Seq<ChildStepV> {
    match c.redirect_stdout {
        Some(p) => seq![ChildStepV::RedirectStdout { path: p@ }],
        None => Seq::<ChildStepV>::empty(),
    }
}

/// The stdin redirect, as a zero- or one-step segment.
pub open spec fn spec_stdin_step(c: Config) -> Seq<ChildStepV> {
    match c.redirect_stdin {
        Some(p) => seq![ChildStepV::RedirectStdin { path: p@ }],
        None => Seq::<ChildStepV>::empty(),
    }
}

/// The stderr redirect, as a zero- or one-step segment.
pub open spec fn spec_stderr_step(c: Config) -> Seq<ChildStepV> {
    match c.redirect_stderr {
        Some(p) => seq![ChildStepV::RedirectStderr { path: p@ }],
        None => Seq::<ChildStepV>::empty(),
    }
}

/// The redirect segment. Stdout comes before stdin exactly under swapped
/// redirects, so a pair of sandboxes sharing two FIFOs can both get past the
/// blocking open; stderr always comes last.
pub open spec fn spec_redirect_steps(c: Config) -> Seq<ChildStepV> {
    (if c.swap_redirects is Yes {
        spec_stdout_step(c)
    } else {
        Seq::<ChildStepV>::empty()
    }) + spec_stdin_step(c) + (if c.swap_redirects is No {
        spec_stdout_step(c)
    } else {
        Seq::<ChildStepV>::empty()
    }) + spec_stderr_step(c)
}

/// The stack rlimit, when limited.
pub open spec fn spec_stack_steps(c: Config) -> Seq<ChildStepV> {
    match c.limits.stack {
        Some(s) => seq![ChildStepV::SetStackLimit { size: s }],
        None => Seq::<ChildStepV>::empty(),
    }
}

/// Cgroup join, then cgroup namespace unshare, then the private remount.
/// The join must come first: after the unshare and after the pivot the host
/// cgroup filesystem is no longer reachable.
pub open spec fn spec_isolation_steps(c: Config) -> Seq<ChildStepV> {
    seq![
        ChildStepV::EnterCgroups {
            ops: spec_cgroup_setup_ops(c.controller_path, c.instance_name, c.limits, c.clear_usage),
        },
        ChildStepV::UnshareCgroup,
        ChildStepV::RemountPrivate,
    ]
}

/// With a new root: each bind mount in policy order, then the pivot, which
/// itself mounts proc between the pivot and the detach of the old root.
/// Without one: only a fresh proc for the fresh pid namespace.
pub open spec fn spec_root_steps(c: Config) -> Seq<ChildStepV> {
    match c.new_root {
        Some(root) => c.mounts@.map_values(
            |m: Mount| ChildStepV::BindMount { new_root: root@, mount: m@ },
        ) + seq![ChildStepV::PivotRoot { new_root: root@ }],
        None => seq![ChildStepV::MountProc],
    }
}

/// Become root inside the user namespace, leave the caller's process group
/// unless interactive, then exec. The map write must come after proc is
/// mounted, else `/proc/self/uid_map` is not there to write.
pub open spec fn spec_final_steps(c: Config) -> Seq<ChildStepV> {
    seq![ChildStepV::SetUidGidMaps { uid: 0, gid: 0 }] + (if c.interactive is No {
        seq![ChildStepV::MoveToDifferentProcessGroup]
    } else {
        Seq::<ChildStepV>::empty()
    }) + seq![
        ChildStepV::Exec {
            command: c.command@,
            args: spec_strings_view(c.args@),
            environment: c.environment@,
        },
    ]
}

/// The whole ordered setup of the sandboxed child.
pub open spec fn spec_child_steps(c: Config) -> Seq<ChildStepV> {
    spec_redirect_steps(c) + spec_stack_steps(c) + spec_isolation_steps(c) + spec_root_steps(c)
        + spec_final_steps(c)
}

fn clone_string(s: &String) -> (r: String)
    ensures
        r@ == s@,
{
    s.clone()
}

fn clone_mount(m: &Mount) -> (r: Mount)
    ensures
        r@ == m@,
{
    Mount {
        source: m.source.clone(),
        destination: m.destination.clone(),
        mount_options: m.mount_options,
    }
}

fn clone_strings(v: &Vec<String>) -> (r: Vec<String>)
    ensures
        spec_strings_view(r@) == spec_strings_view(v@),
{
    let mut out: Vec<String> = Vec::new();
    let mut i: usize = 0;
    while i < v.len()
        invariant
            0 <= i <= v@.len(),
            out@.len() == i,
            forall|j: int| 0 <= j < i ==> out@[j]@ == v@[j]@,
        decreases v@.len() - i,
    {
        out.push(v[i].clone());
        i = i + 1;
    }
    proof {
        assert(spec_strings_view(out@) =~~= spec_strings_view(v@));
    }
    out
}

fn clone_environment(e: &Environment) -> (r: Environment)
    ensures
        r@ == e@,
{
    match e {
        Environment::Inherit => Environment::Inherit,
        Environment::Empty => Environment::Empty,
        Environment::EnvList(pairs) => {
            let mut out: Vec<(String, String)> = Vec::new();
            let mut i: usize = 0;
            while i < pairs.len()
                invariant
                    0 <= i <= pairs@.len(),
                    out@.len() == i,
                    forall|j: int| 0 <= j < i ==> out@[j].0@ == pairs@[j].0@ && out@[j].1@
                        == pairs@[j].1@,
                decreases pairs@.len() - i,
            {
                let pair = &pairs[i];
                out.push((pair.0.clone(), pair.1.clone()));
                i = i + 1;
            }
            let r = Environment::EnvList(out);
            proof {
                assert(r@ matches EnvironmentV::EnvList(l1) && e@ matches EnvironmentV::EnvList(
                    l2,
                ) && l1 =~~= l2);
            }
            r
        },
    }
}

fn push_redirect_steps(steps: &mut Vec<ChildStep>, config: &Config)
    ensures
        final(steps)@.map_values(|s: ChildStep| s@) == old(steps)@.map_values(|s: ChildStep| s@)
            + spec_redirect_steps(*config),
{
    let ghost g0 = steps@.map_values(|s: ChildStep| s@);
    if let SwapRedirects::Yes = config.swap_redirects {
        if let Some(p) = &config.redirect_stdout {
            steps.push(ChildStep::RedirectStdout { path: clone_string(p) });
        }
    }
    proof {
        assert(steps@.map_values(|s: ChildStep| s@) =~~= g0 + (if config.swap_redirects is Yes {
            spec_stdout_step(*config)
        } else {
            Seq::<ChildStepV>::empty()
        }));
    }
    let ghost g1 = steps@.map_values(|s: ChildStep| s@);
    if let Some(p) = &config.redirect_stdin {
        steps.push(ChildStep::RedirectStdin { path: clone_string(p) });
    }
    proof {
        assert(steps@.map_values(|s: ChildStep| s@) =~~= g1 + spec_stdin_step(*config));
    }
    let ghost g2 = steps@.map_values(|s: ChildStep| s@);
    if let SwapRedirects::No = config.swap_redirects {
        if let Some(p) = &config.redirect_stdout {
            steps.push(ChildStep::RedirectStdout { path: clone_string(p) });
        }
    }
    proof {
        assert(steps@.map_values(|s: ChildStep| s@) =~~= g2 + (if config.swap_redirects is No {
            spec_stdout_step(*config)
        } else {
            Seq::<ChildStepV>::empty()
        }));
    }
    let ghost g3 = steps@.map_values(|s: ChildStep| s@);
    if let Some(p) = &config.redirect_stderr {
        steps.push(ChildStep::RedirectStderr { path: clone_string(p) });
    }
    proof {
        assert(steps@.map_values(|s: ChildStep| s@) =~~= g3 + spec_stderr_step(*config));
        assert(steps@.map_values(|s: ChildStep| s@) =~~= g0 + spec_redirect_steps(*config));
    }
}

fn push_stack_steps(steps: &mut Vec<ChildStep>, config: &Config)
    ensures
        final(steps)@.map_values(|s: ChildStep| s@) == old(steps)@.map_values(|s: ChildStep| s@)
            + spec_stack_steps(*config),
{
    if let Some(s) = &config.limits.stack {
        steps.push(ChildStep::SetStackLimit { size: *s });
    }
    proof {
        assert(steps@.map_values(|s: ChildStep| s@) =~~= old(steps)@.map_values(
            |s: ChildStep| s@,
        ) + spec_stack_steps(*config));
    }
}

fn push_isolation_steps(steps: &mut Vec<ChildStep>, config: &Config)
    ensures
        final(steps)@.map_values(|s: ChildStep| s@) == old(steps)@.map_values(|s: ChildStep| s@)
            + spec_isolation_steps(*config),
{
    let instance = match &config.instance_name {
        Some(n) => Some(n),
        None => None,
    };
    let ops = cgroup_setup_ops(&config.controller_path, instance, &config.limits,
        config.clear_usage);
    steps.push(ChildStep::EnterCgroups { ops });
    steps.push(ChildStep::UnshareCgroup);
    steps.push(ChildStep::RemountPrivate);
    proof {
        assert(steps@.map_values(|s: ChildStep| s@) =~~= old(steps)@.map_values(
            |s: ChildStep| s@,
        ) + spec_isolation_steps(*config));
    }
}

fn push_root_steps(steps: &mut Vec<ChildStep>, config: &Config)
    ensures
        final(steps)@.map_values(|s: ChildStep| s@) == old(steps)@.map_values(|s: ChildStep| s@)
            + spec_root_steps(*config),
{
    match &config.new_root {
        Some(root) => {
            let ghost pre = steps@;
            let mut i: usize = 0;
            while i < config.mounts.len()
                invariant
                    0 <= i <= config.mounts@.len(),
                    steps@.len() == pre.len() + i,
                    steps@.subrange(0, pre.len() as int) == pre,
                    forall|j: int|
                        0 <= j < i ==> steps@[pre.len() + j]@ == (ChildStepV::BindMount {
                            new_root: root@,
                            mount: config.mounts@[j]@,
                        }),
                    config.new_root == Some(*root),
                decreases config.mounts@.len() - i,
            {
                steps.push(ChildStep::BindMount {
                    new_root: clone_string(root),
                    mount: clone_mount(&config.mounts[i]),
                });
                proof {
                    assert(steps@.subrange(0, pre.len() as int) =~= pre);
                }
                i = i + 1;
            }
            steps.push(ChildStep::PivotRoot { new_root: clone_string(root) });
            proof {
                assert(steps@.map_values(|s: ChildStep| s@) =~~= pre.map_values(
                    |s: ChildStep| s@,
                ) + spec_root_steps(*config));
            }
        },
        None => {
            steps.push(ChildStep::MountProc);
            proof {
                assert(steps@.map_values(|s: ChildStep| s@) =~~= old(steps)@.map_values(
                    |s: ChildStep| s@,
                ) + spec_root_steps(*config));
            }
        },
    }
}

fn push_final_steps(steps: &mut Vec<ChildStep>, config: &Config)
    ensures
        final(steps)@.map_values(|s: ChildStep| s@) == old(steps)@.map_values(|s: ChildStep| s@)
            + spec_final_steps(*config),
{
    steps.push(ChildStep::SetUidGidMaps { uid: 0, gid: 0 });
    if let Interactive::No = config.interactive {
        steps.push(ChildStep::MoveToDifferentProcessGroup);
    }
    steps.push(ChildStep::Exec {
        command: clone_string(&config.command),
        args: clone_strings(&config.args),
        environment: clone_environment(&config.environment),
    });
    proof {
        assert(steps@.map_values(|s: ChildStep| s@) =~~= old(steps)@.map_values(
            |s: ChildStep| s@,
        ) + spec_final_steps(*config));
    }
}

/// Builds the child's ordered setup plan from the policy.
pub fn child_steps(config: &Config) -> (steps: Vec<ChildStep>)
    ensures
        steps@.map_values(|s: ChildStep| s@) == spec_child_steps(*config),
{
    let mut steps: Vec<ChildStep> = Vec::new();
    push_redirect_steps(&mut steps, config);
    push_stack_steps(&mut steps, config);
    push_isolation_steps(&mut steps, config);
    push_root_steps(&mut steps, config);
    push_final_steps(&mut steps, config);
    proof {
        assert(steps@.map_values(|s: ChildStep| s@) =~~= spec_child_steps(*config));
    }
    steps
}

/// How the wait on a cloned process ended: a normal exit with a code, a
/// death by signal, or the wall-clock alarm firing first (after which the
/// runtime kills and reaps the process).
#[derive(Debug, PartialEq, Eq, Structural, Copy, Clone)]
pub enum WaitStatus {
    Exited(i32),
    Signaled(i32),
    Alarmed,
}

/// The verdict a wait status alone gives, before the counters speak.
pub open spec fn spec_base_verdict(status: WaitStatus) -> Verdict<()> {
    match status {
        WaitStatus::Exited(c) => if c == 0 {
            Verdict::Success(())
        } else {
            Verdict::NonZeroExit(c)
        },
        WaitStatus::Signaled(s) => Verdict::KilledBySignal(s),
        WaitStatus::Alarmed => Verdict::WallTimeExceeded,
    }
}

/// The error reported when the child's body claims success: the body ends in
/// exec, so a success report can only mean the command was never executed.
pub open spec fn spec_synthetic_child_error() -> ErrorV {
    ErrorV::ChildError(
        ChildErrorV::FFIError(FFIErrorV::ExecError { path: Seq::<u8>::empty(), errno: 0 }),
    )
}

/// What the supervisor concludes from the child's wait status, the bytes the
/// result pipe held, the measured usage and the limits.
///
/// A record on the pipe takes precedence over the exit status: the child
/// reports setup failures over the pipe precisely so that they cannot be
/// mistaken for the program's own nonzero exit. Without a record the status
/// speaks, and the counters may then upgrade the verdict.
pub open spec fn spec_resolve_child_wait(
    status: WaitStatus,
    pipe: Seq<u8>,
    usage: RunUsage,
    limits: Limits,
) -> Result<RunInfo<()>, ErrorV> {
    if status is Alarmed {
        Ok(
            RunInfo {
                verdict: spec_merge_verdict(Verdict::WallTimeExceeded, usage, limits),
                usage,
            },
        )
    } else {
        match spec_parse_child_frame(pipe) {
            WireRecord::Absent => Ok(
                RunInfo {
                    verdict: spec_merge_verdict(spec_base_verdict(status), usage, limits),
                    usage,
                },
            ),
            WireRecord::Present(report) => match report {
                Ok(_) => Err(spec_synthetic_child_error()),
                Err(ce) => Err(ErrorV::ChildError(ce)),
            },
            WireRecord::Corrupt => Err(ErrorV::SerializationError),
        }
    }
}

/// The supervisor's wait-and-verdict step, run after the child was reaped
/// and the counters were read.
pub fn resolve_child_wait(
    status: WaitStatus,
    pipe: &[u8],
    usage: RunUsage,
    limits: &Limits,
) -> (r: Result<RunInfo<()>, Error>)
    ensures
        spec_supervisor_report_view(r) == spec_resolve_child_wait(status, pipe@, usage, *limits),
{
    if let WaitStatus::Alarmed = status {
        let info = RunInfo::new(Verdict::WallTimeExceeded, usage).merge_usage(usage, limits);
        return Ok(info);
    }
    match decode_child_report(pipe) {
        WireRecord::Absent => {
            let base: Verdict<()> = match status {
                WaitStatus::Exited(c) => if c == 0 {
                    Verdict::Success(())
                } else {
                    Verdict::NonZeroExit(c)
                },
                WaitStatus::Signaled(s) => Verdict::KilledBySignal(s),
                WaitStatus::Alarmed => Verdict::WallTimeExceeded,
            };
            let info = RunInfo::new(base, usage).merge_usage(usage, limits);
            Ok(info)
        },
        WireRecord::Present(report) => match report {
            Ok(_) => {
                let e = Error::ChildError(
                    ChildError::FFIError(FFIError::ExecError { path: Vec::new(), errno: 0 }),
                );
                proof {
                    assert(e@ =~~= spec_synthetic_child_error());
                }
                Err(e)
            },
            Err(ce) => Err(Error::ChildError(ce)),
        },
        WireRecord::Corrupt => Err(Error::SerializationError),
    }
}

/// What the caller concludes from the supervisor's wait status and the
/// bytes its result pipe held: the supervisor's own report where there is
/// one, otherwise the supervisor died before producing a result.
pub open spec fn spec_resolve_supervisor_wait(status: WaitStatus, pipe: Seq<u8>) -> Result<
    RunInfo<()>,
    ErrorV,
> {
    if status != WaitStatus::Exited(0) {
        Err(ErrorV::SupervisorProcessDiedError)
    } else {
        match spec_parse_supervisor_frame(pipe) {
            WireRecord::Present(report) => report,
            WireRecord::Absent => Err(ErrorV::SupervisorProcessDiedError),
            WireRecord::Corrupt => Err(ErrorV::SerializationError),
        }
    }
}

/// A run under no limits whose child wrote nothing and exited zero is a
/// success, whatever the counters measured.
pub proof fn lemma_unlimited_clean_exit_succeeds(pipe: Seq<u8>, usage: RunUsage, limits: Limits)
    requires
        limits.spec_is_unlimited(),
        spec_parse_child_frame(pipe) == WireRecord::<Result<(), ChildErrorV>>::Absent,
    ensures
        spec_resolve_child_wait(WaitStatus::Exited(0), pipe, usage, limits) == Result::<
            RunInfo<()>,
            ErrorV,
        >::Ok(RunInfo::<()> { verdict: Verdict::Success(()), usage }),
{
}

/// An exit with code zero is never reported as a nonzero exit: the verdict
/// `NonZeroExit(0)` cannot arise.
pub proof fn lemma_no_nonzero_exit_zero(
    status: WaitStatus,
    pipe: Seq<u8>,
    usage: RunUsage,
    limits: Limits,
)
    ensures
        match spec_resolve_child_wait(status, pipe, usage, limits) {
            Ok(info) => info.verdict != Verdict::<()>::NonZeroExit(0),
            Err(_) => true,
        },
{
}

/// Two runs that ended the same way and stand on the same side of every
/// limit get verdicts of the same kind: only the measured usage differs.
pub proof fn lemma_same_run_same_verdict(
    status: WaitStatus,
    pipe: Seq<u8>,
    u1: RunUsage,
    u2: RunUsage,
    limits: Limits,
)
    requires
        crate::run_info::spec_memory_exceeded(u1, limits) == crate::run_info::spec_memory_exceeded(
            u2,
            limits,
        ),
        crate::run_info::spec_time_exceeded(u1, limits) == crate::run_info::spec_time_exceeded(
            u2,
            limits,
        ),
    ensures
        match (
            spec_resolve_child_wait(status, pipe, u1, limits),
            spec_resolve_child_wait(status, pipe, u2, limits),
        ) {
            (Ok(a), Ok(b)) => a.verdict == b.verdict && a.usage == u1 && b.usage == u2,
            (Err(a), Err(b)) => a == b,
            _ => false,
        },
{
}

/// The plan ends with the exec of the configured command, and execs nothing
/// before it: only the innermost child ever runs the user's program.
pub proof fn lemma_exec_is_last(c: Config)
    ensures
        spec_child_steps(c).len() > 0,
        spec_child_steps(c).last() == (ChildStepV::Exec {
            command: c.command@,
            args: spec_strings_view(c.args@),
            environment: c.environment@,
        }),
        forall|i: int|
            0 <= i < spec_child_steps(c).len() - 1 ==> !(spec_child_steps(c)[i] is Exec),
{
    let s = spec_child_steps(c);
    let pre = spec_redirect_steps(c) + spec_stack_steps(c) + spec_isolation_steps(c)
        + spec_root_steps(c);
    let fin = spec_final_steps(c);
    assert(s =~~= pre + fin);
    assert(fin.last() == (ChildStepV::Exec {
        command: c.command@,
        args: spec_strings_view(c.args@),
        environment: c.environment@,
    }));
    assert forall|i: int| 0 <= i < s.len() - 1 implies !(s[i] is Exec) by {
        lemma_no_exec_before_end(c, i);
    }
}

proof fn lemma_no_exec_before_end(c: Config, i: int)
    requires
        0 <= i < spec_child_steps(c).len() - 1,
    ensures
        !(spec_child_steps(c)[i] is Exec),
{
    let r = spec_redirect_steps(c);
    let st = spec_stack_steps(c);
    let iso = spec_isolation_steps(c);
    let ro = spec_root_steps(c);
    let fin = spec_final_steps(c);
    let s = spec_child_steps(c);
    if i < r.len() {
        let a = if c.swap_redirects is Yes {
            spec_stdout_step(c)
        } else {
            Seq::<ChildStepV>::empty()
        };
        let b = spec_stdin_step(c);
        let d = if c.swap_redirects is No {
            spec_stdout_step(c)
        } else {
            Seq::<ChildStepV>::empty()
        };
        let e = spec_stderr_step(c);
        assert(r == a + b + d + e);
        assert(!(r[i] is Exec));
    } else if i < r.len() + st.len() {
        assert(s[i] == st[i - r.len()]);
    } else if i < r.len() + st.len() + iso.len() {
        assert(s[i] == iso[i - r.len() - st.len()]);
    } else if i < r.len() + st.len() + iso.len() + ro.len() {
        let j = i - r.len() - st.len() - iso.len();
        assert(s[i] == ro[j]);
        match c.new_root {
            Some(root) => {
                if j < c.mounts@.len() {
                    assert(ro[j] == c.mounts@.map_values(
                        |m: Mount| ChildStepV::BindMount { new_root: root@, mount: m@ },
                    )[j]);
                }
            },
            None => {},
        }
    } else {
        let j = i - r.len() - st.len() - iso.len() - ro.len();
        assert(s[i] == fin[j]);
        assert(j < fin.len() - 1);
    }
}

/// The pipeline's load-bearing order: the cgroups are joined before the
/// cgroup namespace is unshared and before the root is pivoted, every bind
/// mount comes before the pivot and in policy order, and without a new root
/// a fresh proc is mounted instead.
pub proof fn lemma_child_pipeline_order(c: Config)
    ensures
        ({
            let s = spec_child_steps(c);
            let k = (spec_redirect_steps(c).len() + spec_stack_steps(c).len()) as int;
            &&& s.len() > k + 3
            &&& s[k] == (ChildStepV::EnterCgroups {
                ops: spec_cgroup_setup_ops(
                    c.controller_path,
                    c.instance_name,
                    c.limits,
                    c.clear_usage,
                ),
            })
            &&& s[k + 1] == ChildStepV::UnshareCgroup
            &&& s[k + 2] == ChildStepV::RemountPrivate
            &&& match c.new_root {
                Some(root) => {
                    &&& (forall|t: int|
                        0 <= t < c.mounts@.len() ==> s[k + 3 + t] == (ChildStepV::BindMount {
                            new_root: root@,
                            mount: c.mounts@[t]@,
                        }))
                    &&& s[k + 3 + c.mounts@.len() as int] == (ChildStepV::PivotRoot {
                        new_root: root@,
                    })
                },
                None => s[k + 3] == ChildStepV::MountProc,
            }
        }),
{
    let s = spec_child_steps(c);
    let k = (spec_redirect_steps(c).len() + spec_stack_steps(c).len()) as int;
    let iso = spec_isolation_steps(c);
    let ro = spec_root_steps(c);
    assert(s[k] == iso[0]);
    assert(s[k + 1] == iso[1]);
    assert(s[k + 2] == iso[2]);
    match c.new_root {
        Some(root) => {
            let bind = c.mounts@.map_values(
                |m: Mount| ChildStepV::BindMount { new_root: root@, mount: m@ },
            );
            assert forall|t: int| 0 <= t < c.mounts@.len() implies s[k + 3 + t]
                == (ChildStepV::BindMount { new_root: root@, mount: c.mounts@[t]@ }) by {
                assert(s[k + 3 + t] == ro[t]);
                assert(ro[t] == bind[t]);
            }
            assert(s[k + 3 + c.mounts@.len() as int] == ro[c.mounts@.len() as int]);
        },
        None => {
            assert(s[k + 3] == ro[0]);
        },
    }
}

/// Under swapped redirects stdout is opened first, otherwise stdin is: the
/// pairing contract that lets two sandboxes exchange data over two FIFOs
/// without both blocking in open.
pub proof fn lemma_redirect_order(c: Config)
    requires
        c.redirect_stdout is Some,
        c.redirect_stdin is Some,
    ensures
        ({
            let s = spec_child_steps(c);
            let out_path = c.redirect_stdout->0;
            let in_path = c.redirect_stdin->0;
            &&& c.swap_redirects is Yes ==> s[0] == (ChildStepV::RedirectStdout {
                path: out_path@,
            }) && s[1] == (ChildStepV::RedirectStdin { path: in_path@ })
            &&& c.swap_redirects is No ==> s[0] == (ChildStepV::RedirectStdin { path: in_path@ })
                && s[1] == (ChildStepV::RedirectStdout { path: out_path@ })
        }),
{
    let s = spec_child_steps(c);
    let r = spec_redirect_steps(c);
    assert(s[0] == r[0]);
    assert(s[1] == r[1]);
}

} // verus!
