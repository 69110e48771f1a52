//! The immutable policy describing what to run and under which isolation:
//! command, arguments, environment, root switching, bind mounts, redirects,
//! resource limits, cgroup controller roots and the per-invocation flags.
//!
//! Paths and names are held as plain strings; the unverified runtime turns
//! them into OS path values at the boundary.

use vstd::prelude::*;

verus! {

/// Whether the sandboxed child shares the caller's network namespace.
#[derive(Debug, PartialEq, Eq, Structural, Copy, Clone)]
pub enum ShareNet {
    Share,
    Unshare,
}

/// Whether stdout is redirected before stdin. Opening a FIFO blocks until the
/// peer opens the other end; a pair of sandboxes sharing two FIFOs can only
/// make progress if exactly one of them opens its stdout first.
#[derive(Debug, PartialEq, Eq, Structural, Copy, Clone)]
pub enum SwapRedirects {
    Yes,
    No,
}

/// Whether cpuacct and memory counters are reset when the cgroup is entered.
#[derive(Debug, PartialEq, Eq, Structural, Copy, Clone)]
pub enum ClearUsage {
    Yes,
    No,
}

/// Whether the child keeps the caller's process group. A non-interactive
/// child is moved to a group of its own so it cannot signal its supervisor.
#[derive(Debug, PartialEq, Eq, Structural, Copy, Clone)]
pub enum Interactive {
    Yes,
    No,
}

/// The environment handed to the executed command: the caller's own, an empty
/// one, or exactly the listed name/value pairs.
#[derive(Debug, PartialEq, Eq, Clone)]
pub enum Environment {
    Inherit,
    Empty,
    EnvList(Vec<(String, String)>),
}

/// An amount of space, stored in bytes.
#[derive(Debug, PartialEq, Eq, Structural, Copy, Clone)]
pub struct SpaceUsage(pub u64);

impl SpaceUsage {
    pub fn from_bytes(bytes: u64) -> (r: SpaceUsage)
        ensures
            r.0 == bytes,
    {
        SpaceUsage(bytes)
    }

    pub fn from_kilobytes(kilobytes: u64) -> (r: SpaceUsage)
        requires
            kilobytes * 1_000 <= u64::MAX,
        ensures
            r.0 == kilobytes * 1_000,
    {
        SpaceUsage::from_bytes(kilobytes * 1_000)
    }

    pub fn from_megabytes(megabytes: u64) -> (r: SpaceUsage)
        requires
            megabytes * 1_000_000 <= u64::MAX,
        ensures
            r.0 == megabytes * 1_000_000,
    {
        SpaceUsage::from_kilobytes(megabytes * 1_000)
    }

    pub fn from_gigabytes(gigabytes: u64) -> (r: SpaceUsage)
        requires
            gigabytes * 1_000_000_000 <= u64::MAX,
        ensures
            r.0 == gigabytes * 1_000_000_000,
    {
        SpaceUsage::from_megabytes(gigabytes * 1_000)
    }

    pub fn from_kibibytes(kibibytes: u64) -> (r: SpaceUsage)
        requires
            kibibytes * 1_024 <= u64::MAX,
        ensures
            r.0 == kibibytes * 1_024,
    {
        SpaceUsage::from_bytes(kibibytes * 1_024)
    }

    pub fn from_mebibytes(mebibytes: u64) -> (r: SpaceUsage)
        requires
            mebibytes * 1_048_576 <= u64::MAX,
        ensures
            r.0 == mebibytes * 1_048_576,
    {
        SpaceUsage::from_kibibytes(mebibytes * 1_024)
    }

    pub fn from_gibibytes(gibibytes: u64) -> (r: SpaceUsage)
        requires
            gibibytes * 1_073_741_824 <= u64::MAX,
        ensures
            r.0 == gibibytes * 1_073_741_824,
    {
        SpaceUsage::from_mebibytes(gibibytes * 1_024)
    }

    pub fn as_bytes(&self) -> (r: u64)
        ensures
            r == self.0,
    {
        self.0
    }

    pub fn as_kilobytes(&self) -> (r: u64)
        ensures
            r == self.0 / 1_000,
    {
        self.0 / 1_000
    }

    /// Renders the amount under the largest unit that divides it evenly,
    /// binary units preferred over decimal ones.
    pub fn display_string(&self) -> (r: String)
        ensures
            r@ == spec_space_usage_display(self.0),
    {
        let x = self.0;
        if x % 1_073_741_824 == 0 {
            concat_unit(x / 1_073_741_824, " gibibytes")
        } else if x % 1_048_576 == 0 {
            concat_unit(x / 1_048_576, " mebibytes")
        } else if x % 1_024 == 0 {
            concat_unit(x / 1_024, " kibibytes")
        } else if x % 1_000_000_000 == 0 {
            concat_unit(x / 1_000_000_000, " gigabytes")
        } else if x % 1_000_000 == 0 {
            concat_unit(x / 1_000_000, " megabytes")
        } else if x % 1_000 == 0 {
            concat_unit(x / 1_000, " kilobytes")
        } else {
            concat_unit(x, " bytes")
        }
    }
}

/// The display form of an amount of space: the scaled number, then the unit,
/// binary units preferred and the largest even divisor chosen.
pub open spec fn spec_space_usage_display(x: u64) -> Seq<char> {
    if x % 1_073_741_824 == 0 {
        crate::utils::spec_u64_string(x / 1_073_741_824) + " gibibytes"@
    } else if x % 1_048_576 == 0 {
        crate::utils::spec_u64_string(x / 1_048_576) + " mebibytes"@
    } else if x % 1_024 == 0 {
        crate::utils::spec_u64_string(x / 1_024) + " kibibytes"@
    } else if x % 1_000_000_000 == 0 {
        crate::utils::spec_u64_string(x / 1_000_000_000) + " gigabytes"@
    } else if x % 1_000_000 == 0 {
        crate::utils::spec_u64_string(x / 1_000_000) + " megabytes"@
    } else if x % 1_000 == 0 {
        crate::utils::spec_u64_string(x / 1_000) + " kilobytes"@
    } else {
        crate::utils::spec_u64_string(x) + " bytes"@
    }
}

fn concat_unit(scaled: u64, unit: &str) -> (r: String)
    ensures
        r@ == crate::utils::spec_u64_string(scaled) + unit@,
{
    let mut s = crate::utils::u64_to_string(scaled);
    s.append(unit);
    s
}

/// A span of time, stored in nanoseconds: wall-clock limits are given in
/// milliseconds or seconds, while the cpuacct controller reports nanoseconds.
#[derive(Debug, PartialEq, Eq, Structural, Copy, Clone)]
pub struct TimeSpan {
    pub nanos: u64,
}

impl TimeSpan {
    pub fn from_nanos(nanos: u64) -> (r: TimeSpan)
        ensures
            r.nanos == nanos,
    {
        TimeSpan { nanos }
    }

    pub fn from_millis(millis: u64) -> (r: TimeSpan)
        requires
            millis * 1_000_000 <= u64::MAX,
        ensures
            r.nanos == millis * 1_000_000,
    {
        TimeSpan { nanos: millis * 1_000_000 }
    }

    pub fn from_secs(secs: u64) -> (r: TimeSpan)
        requires
            secs * 1_000_000_000 <= u64::MAX,
        ensures
            r.nanos == secs * 1_000_000_000,
    {
        TimeSpan { nanos: secs * 1_000_000_000 }
    }

    pub fn as_nanos(&self) -> (r: u64)
        ensures
            r == self.nanos,
    {
        self.nanos
    }

    pub fn as_millis(&self) -> (r: u64)
        ensures
            r == self.nanos / 1_000_000,
    {
        self.nanos / 1_000_000
    }
}

/// Limits for memory, time, stack and process count. A `None` field means no
/// limit is enforced for that dimension.
#[derive(Debug, PartialEq, Eq, Copy, Clone)]
pub struct Limits {
    pub wall_time: Option<TimeSpan>,
    pub user_time: Option<TimeSpan>,
    pub memory: Option<SpaceUsage>,
    pub stack: Option<SpaceUsage>,
    pub pids: Option<usize>,
}

impl Limits {
    pub fn new(
        wall_time: Option<TimeSpan>,
        user_time: Option<TimeSpan>,
        memory: Option<SpaceUsage>,
        stack: Option<SpaceUsage>,
        pids: Option<usize>,
    ) -> (r: Limits)
        ensures
            r == (Limits { wall_time, user_time, memory, stack, pids }),
    {
        Limits { wall_time, user_time, memory, stack, pids }
    }

    pub fn wall_time(&self) -> (r: Option<TimeSpan>)
        ensures
            r == self.wall_time,
    {
        self.wall_time
    }

    pub fn user_time(&self) -> (r: Option<TimeSpan>)
        ensures
            r == self.user_time,
    {
        self.user_time
    }

    pub fn memory(&self) -> (r: Option<SpaceUsage>)
        ensures
            r == self.memory,
    {
        self.memory
    }

    pub fn stack(&self) -> (r: Option<SpaceUsage>)
        ensures
            r == self.stack,
    {
        self.stack
    }

    pub fn pids(&self) -> (r: Option<usize>)
        ensures
            r == self.pids,
    {
        self.pids
    }

    /// True when no dimension is limited at all.
    pub open spec fn spec_is_unlimited(&self) -> bool {
        self.wall_time is None && self.user_time is None && self.memory is None
            && self.stack is None && self.pids is None
    }
}

impl Default for Limits {
    fn default() -> (r: Limits)
        ensures
            r.spec_is_unlimited(),
    {
        Limits::new(None, None, None, None, None)
    }
}

/// The parent directories under which per-invocation leaf cgroups are
/// created, one per enabled controller.
#[derive(Debug, PartialEq, Eq, Clone)]
pub struct ControllerPath {
    pub cpuacct: Option<String>,
    pub memory: Option<String>,
    pub pids: Option<String>,
}

impl ControllerPath {
    pub fn new(
        cpuacct: Option<String>,
        memory: Option<String>,
        pids: Option<String>,
    ) -> (r: ControllerPath)
        ensures
            r == (ControllerPath { cpuacct, memory, pids }),
    {
        ControllerPath { cpuacct, memory, pids }
    }

    pub fn cpuacct(&self) -> (r: Option<&String>)
        ensures
            match r {
                Some(p) => self.cpuacct == Some(*p),
                None => self.cpuacct is None,
            },
    {
        match &self.cpuacct {
            Some(p) => Some(p),
            None => None,
        }
    }

    pub fn memory(&self) -> (r: Option<&String>)
        ensures
            match r {
                Some(p) => self.memory == Some(*p),
                None => self.memory is None,
            },
    {
        match &self.memory {
            Some(p) => Some(p),
            None => None,
        }
    }

    pub fn pids(&self) -> (r: Option<&String>)
        ensures
            match r {
                Some(p) => self.pids == Some(*p),
                None => self.pids is None,
            },
    {
        match &self.pids {
            Some(p) => Some(p),
            None => None,
        }
    }
}

impl Default for ControllerPath {
    fn default() -> (r: ControllerPath)
        ensures
            r.cpuacct is None,
            r.memory is None,
            r.pids is None,
    {
        ControllerPath::new(None, None, None)
    }
}

/// Options of a single bind mount.
#[derive(Debug, PartialEq, Eq, Structural, Clone, Copy)]
pub struct MountOptions {
    pub read_only: bool,
    pub dev: bool,
    pub exec_allowed: bool,
}

impl MountOptions {
    pub fn read_only(&self) -> (r: bool)
        ensures
            r == self.read_only,
    {
        self.read_only
    }

    pub fn dev(&self) -> (r: bool)
        ensures
            r == self.dev,
    {
        self.dev
    }

    pub fn exec(&self) -> (r: bool)
        ensures
            r == self.exec_allowed,
    {
        self.exec_allowed
    }

    pub fn set_read_only(&mut self, value: bool)
        ensures
            *final(self) == (MountOptions { read_only: value, ..*old(self) }),
    {
        self.read_only = value;
    }

    pub fn set_dev(&mut self, value: bool)
        ensures
            *final(self) == (MountOptions { dev: value, ..*old(self) }),
    {
        self.dev = value;
    }

    pub fn set_exec(&mut self, value: bool)
        ensures
            *final(self) == (MountOptions { exec_allowed: value, ..*old(self) }),
    {
        self.exec_allowed = value;
    }
}

impl Default for MountOptions {
    /// The default mount is read-only, without device nodes, not executable.
    fn default() -> (r: MountOptions)
        ensures
            r == (MountOptions { read_only: true, dev: false, exec_allowed: false }),
    {
        MountOptions { read_only: true, dev: false, exec_allowed: false }
    }
}

/// A bind mount: a host path made visible at a destination relative to the
/// new root.
#[derive(Debug, PartialEq, Eq, Clone)]
pub struct Mount {
    pub source: String,
    pub destination: String,
    pub mount_options: MountOptions,
}

impl Mount {
    pub fn new(source: String, destination: String, mount_options: MountOptions) -> (r: Mount)
        ensures
            r.source@ == source@,
            r.destination@ == destination@,
            r.mount_options == mount_options,
    {
        Mount { source, destination, mount_options }
    }

    pub fn source(&self) -> (r: &String)
        ensures
            r@ == self.source@,
    {
        &self.source
    }

    pub fn destination(&self) -> (r: &String)
        ensures
            r@ == self.destination@,
    {
        &self.destination
    }

    pub fn mount_options(&self) -> (r: MountOptions)
        ensures
            r == self.mount_options,
    {
        self.mount_options
    }
}

/// The mathematical image of a `Mount`: paths become character sequences.
pub struct MountV {
    pub source: Seq<char>,
    pub destination: Seq<char>,
    pub mount_options: MountOptions,
}

impl View for Mount {
    type V = MountV;

    open spec fn view(&self) -> MountV {
        MountV {
            source: self.source@,
            destination: self.destination@,
            mount_options: self.mount_options,
        }
    }
}

/// The mathematical image of an `Environment`.
pub enum EnvironmentV {
    Inherit,
    Empty,
    EnvList(Seq<(Seq<char>, Seq<char>)>),
}

impl View for Environment {
    type V = EnvironmentV;

    open spec fn view(&self) -> EnvironmentV {
        match self {
            Environment::Inherit => EnvironmentV::Inherit,
            Environment::Empty => EnvironmentV::Empty,
            Environment::EnvList(pairs) => EnvironmentV::EnvList(
                pairs@.map_values(|p: (String, String)| (p.0@, p.1@)),
            ),
        }
    }
}

/// The images of a sequence of strings.
pub open spec fn spec_strings_view(v: Seq<String>) -> Seq<Seq<char>> {
    v.map_values(|s: String| s@)
}

/// The full, immutable sandbox policy.
#[derive(Debug, PartialEq, Eq, Clone)]
pub struct Config {
    pub command: String,
    pub args: Vec<String>,
    pub new_root: Option<String>,
    pub share_net: ShareNet,
    pub redirect_stdin: Option<String>,
    pub redirect_stdout: Option<String>,
    pub redirect_stderr: Option<String>,
    pub limits: Limits,
    pub instance_name: Option<String>,
    pub controller_path: ControllerPath,
    pub mounts: Vec<Mount>,
    pub environment: Environment,
    pub swap_redirects: SwapRedirects,
    pub clear_usage: ClearUsage,
    pub interactive: Interactive,
}

impl Config {
    #[allow(clippy::too_many_arguments)]
    pub fn new(
        command: String,
        args: Vec<String>,
        new_root: Option<String>,
        share_net: ShareNet,
        redirect_stdin: Option<String>,
        redirect_stdout: Option<String>,
        redirect_stderr: Option<String>,
        limits: Limits,
        instance_name: Option<String>,
        controller_path: ControllerPath,
        mounts: Vec<Mount>,
        environment: Environment,
        swap_redirects: SwapRedirects,
        clear_usage: ClearUsage,
        interactive: Interactive,
    ) -> (r: Config)
        ensures
            r == (Config {
                command,
                args,
                new_root,
                share_net,
                redirect_stdin,
                redirect_stdout,
                redirect_stderr,
                limits,
                instance_name,
                controller_path,
                mounts,
                environment,
                swap_redirects,
                clear_usage,
                interactive,
            }),
    {
        Config {
            command,
            args,
            new_root,
            share_net,
            redirect_stdin,
            redirect_stdout,
            redirect_stderr,
            limits,
            instance_name,
            controller_path,
            mounts,
            environment,
            swap_redirects,
            clear_usage,
            interactive,
        }
    }

    pub fn command(&self) -> (r: &String)
        ensures
            r@ == self.command@,
    {
        &self.command
    }

    pub fn args(&self) -> (r: &Vec<String>)
        ensures
            r@ == self.args@,
    {
        &self.args
    }

    pub fn new_root(&self) -> (r: Option<&String>)
        ensures
            match r {
                Some(p) => self.new_root == Some(*p),
                None => self.new_root is None,
            },
    {
        match &self.new_root {
            Some(p) => Some(p),
            None => None,
        }
    }

    pub fn share_net(&self) -> (r: ShareNet)
        ensures
            r == self.share_net,
    {
        self.share_net
    }

    pub fn redirect_stdin(&self) -> (r: Option<&String>)
        ensures
            match r {
                Some(p) => self.redirect_stdin == Some(*p),
                None => self.redirect_stdin is None,
            },
    {
        match &self.redirect_stdin {
            Some(p) => Some(p),
            None => None,
        }
    }

    pub fn redirect_stdout(&self) -> (r: Option<&String>)
        ensures
            match r {
                Some(p) => self.redirect_stdout == Some(*p),
                None => self.redirect_stdout is None,
            },
    {
        match &self.redirect_stdout {
            Some(p) => Some(p),
            None => None,
        }
    }

    pub fn redirect_stderr(&self) -> (r: Option<&String>)
        ensures
            match r {
                Some(p) => self.redirect_stderr == Some(*p),
                None => self.redirect_stderr is None,
            },
    {
        match &self.redirect_stderr {
            Some(p) => Some(p),
            None => None,
        }
    }

    pub fn limits(&self) -> (r: Limits)
        ensures
            r == self.limits,
    {
        self.limits
    }

    pub fn instance_name(&self) -> (r: Option<&String>)
        ensures
            match r {
                Some(p) => self.instance_name == Some(*p),
                None => self.instance_name is None,
            },
    {
        match &self.instance_name {
            Some(p) => Some(p),
            None => None,
        }
    }

    pub fn controller_path(&self) -> (r: &ControllerPath)
        ensures
            r == self.controller_path,
    {
        &self.controller_path
    }

    pub fn mounts(&self) -> (r: &Vec<Mount>)
        ensures
            r@ == self.mounts@,
    {
        &self.mounts
    }

    pub fn environment(&self) -> (r: &Environment)
        ensures
            r == self.environment,
    {
        &self.environment
    }

    pub fn swap_redirects(&self) -> (r: SwapRedirects)
        ensures
            r == self.swap_redirects,
    {
        self.swap_redirects
    }

    pub fn clear_usage(&self) -> (r: ClearUsage)
        ensures
            r == self.clear_usage,
    {
        self.clear_usage
    }

    pub fn interactive(&self) -> (r: Interactive)
        ensures
            r == self.interactive,
    {
        self.interactive
    }
}

} // verus!
