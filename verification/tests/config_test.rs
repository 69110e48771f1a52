use ia_sandbox::config::{
    ClearUsage, Config, ControllerPath, Environment, Interactive, Limits, Mount, MountOptions,
    ShareNet, SpaceUsage, SwapRedirects, TimeSpan,
};

#[test]
fn space_usage_conversions() {
    assert_eq!(SpaceUsage::from_bytes(123).as_bytes(), 123);
    assert_eq!(SpaceUsage::from_kilobytes(7).as_bytes(), 7_000);
    assert_eq!(SpaceUsage::from_megabytes(26).as_bytes(), 26_000_000);
    assert_eq!(SpaceUsage::from_gigabytes(3).as_bytes(), 3_000_000_000);
    assert_eq!(SpaceUsage::from_kibibytes(2).as_bytes(), 2_048);
    assert_eq!(SpaceUsage::from_mebibytes(2).as_bytes(), 2_097_152);
    assert_eq!(SpaceUsage::from_gibibytes(1).as_bytes(), 1_073_741_824);
    assert_eq!(SpaceUsage::from_megabytes(26).as_kilobytes(), 26_000);
}

#[test]
fn space_usage_display_prefers_binary_units() {
    assert_eq!(SpaceUsage::from_bytes(1_048_576).display_string(), "1 mebibytes");
    assert_eq!(SpaceUsage::from_gibibytes(2).display_string(), "2 gibibytes");
    assert_eq!(SpaceUsage::from_bytes(2_048).display_string(), "2 kibibytes");
    // 1,536,000 divides by 1024 exactly, so the binary unit wins over the
    // decimal reading as 1536 kilobytes.
    assert_eq!(SpaceUsage::from_kilobytes(1_536).display_string(), "1500 kibibytes");
    assert_eq!(SpaceUsage::from_gigabytes(3).display_string(), "3 gigabytes");
    assert_eq!(SpaceUsage::from_megabytes(7).display_string(), "7 megabytes");
    assert_eq!(SpaceUsage::from_kilobytes(7).display_string(), "7 kilobytes");
    assert_eq!(SpaceUsage::from_bytes(999).display_string(), "999 bytes");
    assert_eq!(SpaceUsage::from_bytes(0).display_string(), "0 gibibytes");
}

#[test]
fn time_span_conversions() {
    assert_eq!(TimeSpan::from_millis(1_500).as_nanos(), 1_500_000_000);
    assert_eq!(TimeSpan::from_secs(2).as_nanos(), 2_000_000_000);
    assert_eq!(TimeSpan::from_nanos(1_999_999).as_millis(), 1);
    assert_eq!(TimeSpan::from_millis(800).as_millis(), 800);
}

#[test]
fn limits_fields_are_kept() {
    let limits = Limits::new(
        Some(TimeSpan::from_millis(1200)),
        Some(TimeSpan::from_millis(600)),
        Some(SpaceUsage::from_megabytes(19)),
        Some(SpaceUsage::from_mebibytes(8)),
        Some(5),
    );
    assert_eq!(limits.wall_time(), Some(TimeSpan::from_millis(1200)));
    assert_eq!(limits.user_time(), Some(TimeSpan::from_millis(600)));
    assert_eq!(limits.memory(), Some(SpaceUsage::from_megabytes(19)));
    assert_eq!(limits.stack(), Some(SpaceUsage::from_mebibytes(8)));
    assert_eq!(limits.pids(), Some(5));

    let unlimited = Limits::default();
    assert_eq!(unlimited.wall_time(), None);
    assert_eq!(unlimited.user_time(), None);
    assert_eq!(unlimited.memory(), None);
    assert_eq!(unlimited.stack(), None);
    assert_eq!(unlimited.pids(), None);
}

#[test]
fn mount_options_default_is_restrictive() {
    let mut options = MountOptions::default();
    assert!(options.read_only());
    assert!(!options.dev());
    assert!(!options.exec());
    options.set_read_only(false);
    options.set_dev(true);
    options.set_exec(true);
    assert!(!options.read_only());
    assert!(options.dev());
    assert!(options.exec());
}

#[test]
fn mount_and_controller_path_getters() {
    let mount = Mount::new("/host/data".to_string(), "/mount".to_string(), MountOptions::default());
    assert_eq!(mount.source(), "/host/data");
    assert_eq!(mount.destination(), "/mount");
    assert!(mount.mount_options().read_only());

    let cp = ControllerPath::new(
        Some("/sys/fs/cgroup/cpuacct".to_string()),
        Some("/sys/fs/cgroup/memory".to_string()),
        None,
    );
    assert_eq!(cp.cpuacct(), Some(&"/sys/fs/cgroup/cpuacct".to_string()));
    assert_eq!(cp.memory(), Some(&"/sys/fs/cgroup/memory".to_string()));
    assert_eq!(cp.pids(), None);
    let empty = ControllerPath::default();
    assert_eq!(empty.cpuacct(), None);
}

#[test]
fn config_getters_reflect_the_policy() {
    let config = Config::new(
        "./target/debug/hello_world".to_string(),
        vec!["a".to_string(), "b".to_string()],
        Some("/tmp/root".to_string()),
        ShareNet::Unshare,
        Some("in".to_string()),
        Some("out".to_string()),
        Some("err".to_string()),
        Limits::default(),
        Some("instance".to_string()),
        ControllerPath::default(),
        vec![],
        Environment::Empty,
        SwapRedirects::Yes,
        ClearUsage::Yes,
        Interactive::Yes,
    );
    assert_eq!(config.command(), "./target/debug/hello_world");
    assert_eq!(config.args(), &["a".to_string(), "b".to_string()]);
    assert_eq!(config.new_root(), Some(&"/tmp/root".to_string()));
    assert_eq!(config.share_net(), ShareNet::Unshare);
    assert_eq!(config.redirect_stdin(), Some(&"in".to_string()));
    assert_eq!(config.redirect_stdout(), Some(&"out".to_string()));
    assert_eq!(config.redirect_stderr(), Some(&"err".to_string()));
    assert_eq!(config.limits(), Limits::default());
    assert_eq!(config.instance_name(), Some(&"instance".to_string()));
    assert_eq!(config.controller_path(), &ControllerPath::default());
    assert!(config.mounts().is_empty());
    assert_eq!(config.environment(), &Environment::Empty);
    assert_eq!(config.swap_redirects(), SwapRedirects::Yes);
    assert_eq!(config.clear_usage(), ClearUsage::Yes);
    assert_eq!(config.interactive(), Interactive::Yes);
}
