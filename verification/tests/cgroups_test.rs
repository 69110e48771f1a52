use ia_sandbox::cgroups::{cgroup_setup_ops, cgroup_teardown_dirs, get_usage, CgroupOp};
use ia_sandbox::config::{ClearUsage, ControllerPath, Limits, SpaceUsage, TimeSpan};
use ia_sandbox::errors::CgroupError;
use ia_sandbox::utils::{parse_counter, parse_u64, path_join, u64_to_string};

fn full_paths() -> ControllerPath {
    ControllerPath::new(
        Some("/sys/fs/cgroup/cpuacct".to_string()),
        Some("/sys/fs/cgroup/memory".to_string()),
        Some("/sys/fs/cgroup/pids".to_string()),
    )
}

#[test]
fn setup_ops_cover_every_enabled_controller_in_order() {
    let limits = Limits::new(
        None,
        None,
        Some(SpaceUsage::from_megabytes(19)),
        None,
        Some(4),
    );
    let instance = "leaf".to_string();
    let ops = cgroup_setup_ops(&full_paths(), Some(&instance), &limits, ClearUsage::Yes);
    let expected = vec![
        CgroupOp::EnsureDir { path: "/sys/fs/cgroup/cpuacct/leaf".to_string() },
        CgroupOp::JoinProcs { path: "/sys/fs/cgroup/cpuacct/leaf/cgroup.procs".to_string() },
        CgroupOp::WriteValue {
            path: "/sys/fs/cgroup/cpuacct/leaf/cpuacct.usage".to_string(),
            value: "0".to_string(),
        },
        CgroupOp::EnsureDir { path: "/sys/fs/cgroup/memory/leaf".to_string() },
        CgroupOp::JoinProcs { path: "/sys/fs/cgroup/memory/leaf/cgroup.procs".to_string() },
        CgroupOp::WriteValue {
            path: "/sys/fs/cgroup/memory/leaf/memory.max_usage_in_bytes".to_string(),
            value: "0".to_string(),
        },
        CgroupOp::WriteValue {
            path: "/sys/fs/cgroup/memory/leaf/memory.limit_in_bytes".to_string(),
            value: "19000000".to_string(),
        },
        CgroupOp::WriteValueIfExists {
            path: "/sys/fs/cgroup/memory/leaf/memory.memsw.limit_in_bytes".to_string(),
            value: "19000000".to_string(),
        },
        CgroupOp::WriteValue {
            path: "/sys/fs/cgroup/memory/leaf/memory.swappiness".to_string(),
            value: "0".to_string(),
        },
        CgroupOp::EnsureDir { path: "/sys/fs/cgroup/pids/leaf".to_string() },
        CgroupOp::JoinProcs { path: "/sys/fs/cgroup/pids/leaf/cgroup.procs".to_string() },
        CgroupOp::WriteValue {
            path: "/sys/fs/cgroup/pids/leaf/pids.max".to_string(),
            value: "4".to_string(),
        },
    ];
    assert_eq!(ops, expected);
}

#[test]
fn teardown_removes_exactly_what_setup_created() {
    let limits = Limits::new(None, None, Some(SpaceUsage::from_megabytes(19)), None, Some(4));
    let instance = "leaf".to_string();
    for clear in [ClearUsage::Yes, ClearUsage::No] {
        let ops = cgroup_setup_ops(&full_paths(), Some(&instance), &limits, clear);
        let created: Vec<String> = ops
            .iter()
            .filter_map(|op| match op {
                CgroupOp::EnsureDir { path } => Some(path.clone()),
                _ => None,
            })
            .collect();
        let dirs = cgroup_teardown_dirs(&full_paths(), Some(&instance));
        assert_eq!(created, dirs);
    }
}

#[test]
fn no_instance_name_means_no_leaf() {
    let limits = Limits::new(None, None, Some(SpaceUsage::from_megabytes(19)), None, Some(4));
    let ops = cgroup_setup_ops(&full_paths(), None, &limits, ClearUsage::Yes);
    assert!(ops.is_empty());
    assert!(cgroup_teardown_dirs(&full_paths(), None).is_empty());
}

#[test]
fn usage_is_assembled_from_the_counter_files() {
    let instance = "leaf".to_string();
    let wall = TimeSpan::from_millis(750);
    let cpu_raw = Some(b"123456789\n".to_vec());
    let mem_raw = Some(b"20000000".to_vec());
    let usage = get_usage(&full_paths(), Some(&instance), wall, &cpu_raw, &mem_raw).unwrap();
    assert_eq!(usage.wall_time(), wall);
    assert_eq!(usage.user_time().as_nanos(), 123_456_789);
    assert_eq!(usage.memory().as_bytes(), 20_000_000);
}

#[test]
fn disabled_controllers_contribute_zero_usage() {
    let instance = "leaf".to_string();
    let wall = TimeSpan::from_millis(10);
    let none = ControllerPath::new(None, None, None);
    let usage = get_usage(&none, Some(&instance), wall, &None, &None).unwrap();
    assert_eq!(usage.user_time().as_nanos(), 0);
    assert_eq!(usage.memory().as_bytes(), 0);
}

#[test]
fn unreadable_counters_are_read_errors() {
    let instance = "leaf".to_string();
    let wall = TimeSpan::from_millis(10);
    let err = get_usage(&full_paths(), Some(&instance), wall, &None, &None).unwrap_err();
    assert!(matches!(err, CgroupError::ReadError { .. }));
    let garbled = Some(b"12x4\n".to_vec());
    let mem = Some(b"1\n".to_vec());
    let err = get_usage(&full_paths(), Some(&instance), wall, &garbled, &mem).unwrap_err();
    assert!(matches!(err, CgroupError::ReadError { .. }));
}

#[test]
fn counter_parsing_accepts_exactly_decimal_values() {
    assert_eq!(parse_counter(b"0"), Some(0));
    assert_eq!(parse_counter(b"15\n"), Some(15));
    assert_eq!(parse_counter(b"18446744073709551615"), Some(u64::MAX));
    assert_eq!(parse_counter(b"18446744073709551616"), None);
    assert_eq!(parse_counter(b""), None);
    assert_eq!(parse_counter(b"\n"), None);
    assert_eq!(parse_counter(b"12a"), None);
    assert_eq!(parse_u64(b"00123"), Some(123));
    assert_eq!(parse_u64(b"-1"), None);
}

#[test]
fn numbers_render_in_plain_decimal() {
    assert_eq!(u64_to_string(0), "0");
    assert_eq!(u64_to_string(12345), "12345");
    assert_eq!(u64_to_string(u64::MAX), "18446744073709551615");
    assert_eq!(path_join("/sys/fs/cgroup", "leaf"), "/sys/fs/cgroup/leaf");
}
