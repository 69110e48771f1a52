use ia_sandbox::config::{
    ClearUsage, Config, ControllerPath, Environment, Interactive, Limits, Mount, MountOptions,
    ShareNet, SpaceUsage, SwapRedirects, TimeSpan,
};
use ia_sandbox::errors::{ChildError, Error, FFIError};
use ia_sandbox::pipeline::{
    child_steps, clone_flags, resolve_child_wait, supervisor_steps, ChildStep, SupervisorStep,
    WaitStatus, CLONE_NEWNET, CLONE_NEWNS, CLONE_NEWPID, CLONE_NEWUSER,
};
use ia_sandbox::run_info::{RunInfo, RunUsage, Verdict};

fn full_config() -> Config {
    Config::new(
        "/bin/program".to_string(),
        vec!["x".to_string()],
        Some("/tmp/root".to_string()),
        ShareNet::Unshare,
        Some("in".to_string()),
        Some("out".to_string()),
        Some("err".to_string()),
        Limits::new(
            Some(TimeSpan::from_millis(1000)),
            Some(TimeSpan::from_millis(500)),
            Some(SpaceUsage::from_megabytes(19)),
            Some(SpaceUsage::from_mebibytes(8)),
            Some(4),
        ),
        Some("leaf".to_string()),
        ControllerPath::new(
            Some("/sys/fs/cgroup/cpuacct".to_string()),
            Some("/sys/fs/cgroup/memory".to_string()),
            Some("/sys/fs/cgroup/pids".to_string()),
        ),
        vec![Mount::new("/host/a".to_string(), "/a".to_string(), MountOptions::default())],
        Environment::Empty,
        SwapRedirects::No,
        ClearUsage::No,
        Interactive::No,
    )
}

fn usage(wall_ms: u64, user_ms: u64, memory_bytes: u64) -> RunUsage {
    RunUsage::new(
        TimeSpan::from_millis(wall_ms),
        TimeSpan::from_millis(user_ms),
        SpaceUsage::from_bytes(memory_bytes),
    )
}

#[test]
fn clone_flags_always_isolate_mounts_and_users() {
    for (net, pid) in [
        (ShareNet::Share, false),
        (ShareNet::Share, true),
        (ShareNet::Unshare, false),
        (ShareNet::Unshare, true),
    ] {
        let flags = clone_flags(net, pid);
        assert!(flags & CLONE_NEWNS != 0);
        assert!(flags & CLONE_NEWUSER != 0);
        assert_eq!(flags & CLONE_NEWPID != 0, pid);
        assert_eq!(flags & CLONE_NEWNET != 0, net == ShareNet::Unshare);
    }
}

#[test]
fn supervisor_plan_guards_then_maps() {
    let steps = supervisor_steps(1000, 1000);
    assert_eq!(
        steps,
        vec![
            SupervisorStep::KillOnParentDeath,
            SupervisorStep::MountProc,
            SupervisorStep::SetUidGidMaps { uid: 1000, gid: 1000 },
        ]
    );
}

#[test]
fn child_plan_follows_the_pipeline_order() {
    let steps = child_steps(&full_config());
    let kinds: Vec<&'static str> = steps
        .iter()
        .map(|s| match s {
            ChildStep::RedirectStdout { .. } => "stdout",
            ChildStep::RedirectStdin { .. } => "stdin",
            ChildStep::RedirectStderr { .. } => "stderr",
            ChildStep::SetStackLimit { .. } => "stack",
            ChildStep::EnterCgroups { .. } => "cgroups",
            ChildStep::UnshareCgroup => "unshare_cgroup",
            ChildStep::RemountPrivate => "remount_private",
            ChildStep::BindMount { .. } => "bind_mount",
            ChildStep::PivotRoot { .. } => "pivot_root",
            ChildStep::MountProc => "mount_proc",
            ChildStep::SetUidGidMaps { .. } => "uid_gid_maps",
            ChildStep::MoveToDifferentProcessGroup => "process_group",
            ChildStep::Exec { .. } => "exec",
        })
        .collect();
    assert_eq!(
        kinds,
        vec![
            "stdin",
            "stdout",
            "stderr",
            "stack",
            "cgroups",
            "unshare_cgroup",
            "remount_private",
            "bind_mount",
            "pivot_root",
            "uid_gid_maps",
            "process_group",
            "exec",
        ]
    );
    assert!(matches!(&steps[9], ChildStep::SetUidGidMaps { uid: 0, gid: 0 }));
}

#[test]
fn swapped_redirects_open_stdout_first() {
    let mut config = full_config();
    config.swap_redirects = SwapRedirects::Yes;
    let steps = child_steps(&config);
    assert!(matches!(&steps[0], ChildStep::RedirectStdout { .. }));
    assert!(matches!(&steps[1], ChildStep::RedirectStdin { .. }));
}

#[test]
fn interactive_children_keep_their_process_group() {
    let mut config = full_config();
    config.interactive = Interactive::Yes;
    let steps = child_steps(&config);
    assert!(!steps.iter().any(|s| matches!(s, ChildStep::MoveToDifferentProcessGroup)));
}

#[test]
fn without_a_new_root_proc_is_mounted_in_place() {
    let mut config = full_config();
    config.new_root = None;
    config.mounts = vec![];
    let steps = child_steps(&config);
    assert!(steps.iter().any(|s| matches!(s, ChildStep::MountProc)));
    assert!(!steps.iter().any(|s| matches!(s, ChildStep::PivotRoot { .. })));
}

#[test]
fn memory_kill_outranks_the_signal() {
    let limits = Limits::new(None, None, Some(SpaceUsage::from_megabytes(19)), None, None);
    let info = RunInfo::new(Verdict::<()>::KilledBySignal(9), usage(0, 0, 0));
    let merged = info.merge_usage(usage(100, 10, 19_000_000), &limits);
    assert!(matches!(merged.verdict, Verdict::MemoryExceeded));

    // A signal that the memory killer never sends keeps its own verdict.
    let info = RunInfo::new(Verdict::<()>::KilledBySignal(7), usage(0, 0, 0));
    let merged = info.merge_usage(usage(100, 10, 19_000_000), &limits);
    assert!(matches!(merged.verdict, Verdict::KilledBySignal(7)));
}

#[test]
fn cpu_time_over_the_limit_outranks_a_clean_exit() {
    let limits = Limits::new(None, Some(TimeSpan::from_millis(450)), None, None, None);
    let info = RunInfo::new(Verdict::Success(()), usage(0, 0, 0));
    let merged = info.merge_usage(usage(520, 500, 0), &limits);
    assert!(matches!(merged.verdict, Verdict::TimeExceeded));
    assert_eq!(merged.usage, usage(520, 500, 0));
}

#[test]
fn run_info_success_combinators() {
    let info = RunInfo::new(Verdict::Success(7u32), usage(1, 1, 1));
    assert!(info.is_success());
    assert_eq!(info.success(), Some(7));
    let info: RunInfo<u32> = RunInfo::new(Verdict::NonZeroExit(3), usage(1, 1, 1));
    assert!(!info.is_success());
    assert_eq!(info.success(), None);
}

#[test]
fn exit_codes_follow_the_shell_convention() {
    let u = usage(1, 1, 1);
    assert_eq!(RunInfo::new(Verdict::Success(()), u).exit_code(), 0);
    assert_eq!(RunInfo::<()>::new(Verdict::NonZeroExit(23), u).exit_code(), 23);
    assert_eq!(RunInfo::<()>::new(Verdict::KilledBySignal(11), u).exit_code(), 139);
    assert_eq!(RunInfo::<()>::new(Verdict::WallTimeExceeded, u).exit_code(), 125);
    assert_eq!(RunInfo::<()>::new(Verdict::TimeExceeded, u).exit_code(), 124);
    assert_eq!(RunInfo::<()>::new(Verdict::MemoryExceeded, u).exit_code(), 123);
}

#[test]
fn run_info_map_and_and_then_touch_only_the_success_branch() {
    let info = RunInfo::new(Verdict::Success(21u32), usage(1, 1, 1));
    let doubled = info.map(|x| x * 2);
    assert_eq!(doubled.verdict, Verdict::Success(42));

    let info: RunInfo<u32> = RunInfo::new(Verdict::KilledBySignal(11), usage(1, 1, 1));
    let mapped = info.map(|x| x * 2);
    assert_eq!(mapped.verdict, Verdict::KilledBySignal(11));

    let info = RunInfo::new(Verdict::Success(7u32), usage(1, 1, 1));
    let r: Result<RunInfo<u32>, &str> =
        info.and_then(|x| if x == 7 { Ok(x + 1) } else { Err("odd") });
    assert_eq!(r.unwrap().verdict, Verdict::Success(8));

    let info = RunInfo::new(Verdict::Success(9u32), usage(1, 1, 1));
    let r: Result<RunInfo<u32>, &str> =
        info.and_then(|x| if x == 7 { Ok(x) } else { Err("odd") });
    assert_eq!(r.unwrap_err(), "odd");

    let info: RunInfo<u32> = RunInfo::new(Verdict::TimeExceeded, usage(1, 1, 1));
    let r: Result<RunInfo<u32>, &str> = info.and_then(|_| Err("unreached"));
    assert!(matches!(r.unwrap().verdict, Verdict::TimeExceeded));
}

#[test]
fn the_alarm_turns_into_a_wall_time_verdict() {
    let limits = Limits::new(Some(TimeSpan::from_millis(800)), None, None, None, None);
    let r = resolve_child_wait(WaitStatus::Alarmed, &[], usage(820, 10, 0), &limits).unwrap();
    assert!(matches!(r.verdict, Verdict::WallTimeExceeded));
}

#[test]
fn a_success_report_from_the_child_is_a_logic_error() {
    // The child's body ends in exec, so a written success report means the
    // command never ran; it surfaces as an exec failure with an empty path.
    let pipe = ia_sandbox::codec::encode_child_report(&Ok(()));
    let limits = Limits::default();
    let err =
        resolve_child_wait(WaitStatus::Exited(0), &pipe, usage(0, 0, 0), &limits).unwrap_err();
    assert!(matches!(
        err,
        Error::ChildError(ChildError::FFIError(FFIError::ExecError { ref path, errno: 0 }))
            if path.is_empty()
    ));
}

#[test]
fn a_torn_child_record_is_a_serialization_error() {
    let mut pipe = ia_sandbox::codec::encode_child_report(&Ok(()));
    pipe.pop();
    let limits = Limits::default();
    let err =
        resolve_child_wait(WaitStatus::Exited(0), &pipe, usage(0, 0, 0), &limits).unwrap_err();
    assert_eq!(err, Error::SerializationError);
}
