//! The cgroup controller: the ordered file operations that create, join and
//! configure the per-invocation leaf cgroups, the directories to remove on
//! teardown, and the assembly of measured usage from the counter files.
//!
//! The unverified runtime performs each operation in order against the
//! cgroup filesystem; everything that is decided — which files, which
//! values, in which order — is decided here.

use vstd::prelude::*;
use crate::config::{ClearUsage, ControllerPath, Limits, TimeSpan, SpaceUsage};
use crate::errors::CgroupError;
use crate::run_info::RunUsage;
use crate::utils::{
    parse_counter, path_join, spec_all_digits, spec_digits_value, spec_trim_newline,
    spec_u64_string, u64_to_string,
};

verus! {

/// One operation against the cgroup filesystem.
#[derive(Debug, PartialEq, Eq, Clone)]
pub enum CgroupOp {
    /// Create the directory; an already existing one is taken as is.
    EnsureDir { path: String },
    /// Write the runtime's own pid into the file, joining the cgroup.
    JoinProcs { path: String },
    /// Write the value into the file.
    WriteValue { path: String, value: String },
    /// Write the value into the file if the kernel provides the file.
    WriteValueIfExists { path: String, value: String },
}

/// The mathematical image of a `CgroupOp`.
pub enum CgroupOpV {
    EnsureDir { path: Seq<char> },
    JoinProcs { path: Seq<char> },
    WriteValue { path: Seq<char>, value: Seq<char> },
    WriteValueIfExists { path: Seq<char>, value: Seq<char> },
}

impl View for CgroupOp {
    type V = CgroupOpV;

    open spec fn view(&self) -> CgroupOpV {
        match self {
            CgroupOp::EnsureDir { path } => CgroupOpV::EnsureDir { path: path@ },
            CgroupOp::JoinProcs { path } => CgroupOpV::JoinProcs { path: path@ },
            CgroupOp::WriteValue { path, value } => CgroupOpV::WriteValue {
                path: path@,
                value: value@,
            },
            CgroupOp::WriteValueIfExists { path, value } => CgroupOpV::WriteValueIfExists {
                path: path@,
                value: value@,
            },
        }
    }
}

/// A directory path and an entry name joined with one separator.
pub open spec fn spec_path_join(a: Seq<char>, b: Seq<char>) -> Seq<char> {
    a + seq!['/'] + b
}

/// The ops entering and configuring the cpuacct leaf.
pub open spec fn spec_cpuacct_ops(root: Seq<char>, name: Seq<char>, clear: ClearUsage) -> Seq<
    CgroupOpV,
> {
    let leaf = spec_path_join(root, name);
    seq![
        CgroupOpV::EnsureDir { path: leaf },
        CgroupOpV::JoinProcs { path: spec_path_join(leaf, "cgroup.procs"@) },
    ] + if clear is Yes {
        seq![
            CgroupOpV::WriteValue { path: spec_path_join(leaf, "cpuacct.usage"@), value: "0"@ },
        ]
    } else {
        Seq::<CgroupOpV>::empty()
    }
}

/// The ops entering and configuring the memory leaf.
pub open spec fn spec_memory_ops(
    root: Seq<char>,
    name: Seq<char>,
    clear: ClearUsage,
    limit: Option<SpaceUsage>,
) -> Seq<CgroupOpV> {
    let leaf = spec_path_join(root, name);
    seq![
        CgroupOpV::EnsureDir { path: leaf },
        CgroupOpV::JoinProcs { path: spec_path_join(leaf, "cgroup.procs"@) },
    ] + (if clear is Yes {
        seq![
            CgroupOpV::WriteValue {
                path: spec_path_join(leaf, "memory.max_usage_in_bytes"@),
                value: "0"@,
            },
        ]
    } else {
        Seq::<CgroupOpV>::empty()
    }) + (match limit {
        Some(m) => seq![
            CgroupOpV::WriteValue {
                path: spec_path_join(leaf, "memory.limit_in_bytes"@),
                value: spec_u64_string(m.0),
            },
            CgroupOpV::WriteValueIfExists {
                path: spec_path_join(leaf, "memory.memsw.limit_in_bytes"@),
                value: spec_u64_string(m.0),
            },
            CgroupOpV::WriteValue {
                path: spec_path_join(leaf, "memory.swappiness"@),
                value: "0"@,
            },
        ],
        None => Seq::<CgroupOpV>::empty(),
    })
}

/// The ops entering and configuring the pids leaf.
pub open spec fn spec_pids_ops(root: Seq<char>, name: Seq<char>, limit: Option<usize>) -> Seq<
    CgroupOpV,
> {
    let leaf = spec_path_join(root, name);
    seq![
        CgroupOpV::EnsureDir { path: leaf },
        CgroupOpV::JoinProcs { path: spec_path_join(leaf, "cgroup.procs"@) },
    ] + (match limit {
        Some(p) => seq![
            CgroupOpV::WriteValue {
                path: spec_path_join(leaf, "pids.max"@),
                value: spec_u64_string(p as u64),
            },
        ],
        None => Seq::<CgroupOpV>::empty(),
    })
}

/// A controller takes part only when its parent directory is configured and
/// the invocation carries an instance name for the leaf.
pub open spec fn spec_cgroup_setup_ops(
    cp: ControllerPath,
    instance: Option<String>,
    limits: Limits,
    clear: ClearUsage,
) -> Seq<CgroupOpV> {
    (match (cp.cpuacct, instance) {
        (Some(root), Some(name)) => spec_cpuacct_ops(root@, name@, clear),
        _ => Seq::<CgroupOpV>::empty(),
    }) + (match (cp.memory, instance) {
        (Some(root), Some(name)) => spec_memory_ops(root@, name@, clear, limits.memory),
        _ => Seq::<CgroupOpV>::empty(),
    }) + (match (cp.pids, instance) {
        (Some(root), Some(name)) => spec_pids_ops(root@, name@, limits.pids),
        _ => Seq::<CgroupOpV>::empty(),
    })
}

/// The leaf directories that teardown removes, in the order they were made.
pub open spec fn spec_cgroup_teardown_dirs(cp: ControllerPath, instance: Option<String>) -> Seq<
    Seq<char>,
> {
    (match (cp.cpuacct, instance) {
        (Some(root), Some(name)) => seq![spec_path_join(root@, name@)],
        _ => Seq::<Seq<char>>::empty(),
    }) + (match (cp.memory, instance) {
        (Some(root), Some(name)) => seq![spec_path_join(root@, name@)],
        _ => Seq::<Seq<char>>::empty(),
    }) + (match (cp.pids, instance) {
        (Some(root), Some(name)) => seq![spec_path_join(root@, name@)],
        _ => Seq::<Seq<char>>::empty(),
    })
}

fn push_enter_ops(ops: &mut Vec<CgroupOp>, root: &String, name: &String)
    ensures
        final(ops)@.len() == old(ops)@.len() + 2,
        final(ops)@.map_values(|op: CgroupOp| op@) == old(ops)@.map_values(|op: CgroupOp| op@)
            + seq![
            CgroupOpV::EnsureDir { path: spec_path_join(root@, name@) },
            CgroupOpV::JoinProcs {
                path: spec_path_join(spec_path_join(root@, name@), "cgroup.procs"@),
            },
        ],
{
    let leaf = path_join(root.as_str(), name.as_str());
    let procs = path_join(leaf.as_str(), "cgroup.procs");
    ops.push(CgroupOp::EnsureDir { path: leaf });
    ops.push(CgroupOp::JoinProcs { path: procs });
    proof {
        assert(ops@.map_values(|op: CgroupOp| op@) =~= old(ops)@.map_values(|op: CgroupOp| op@)
            + seq![
            CgroupOpV::EnsureDir { path: spec_path_join(root@, name@) },
            CgroupOpV::JoinProcs {
                path: spec_path_join(spec_path_join(root@, name@), "cgroup.procs"@),
            },
        ]);
    }
}

/// Builds the ordered operations that create, join and configure every
/// enabled leaf cgroup. The sandboxed child performs them before it unshares
/// its cgroup namespace and before it pivots its root, while the host cgroup
/// filesystem is still reachable.
pub fn cgroup_setup_ops(
    cp: &ControllerPath,
    instance: Option<&String>,
    limits: &Limits,
    clear: ClearUsage,
) -> (ops: Vec<CgroupOp>)
    ensures
        ops@.map_values(|op: CgroupOp| op@) == spec_cgroup_setup_ops(
            *cp,
            match instance {
                Some(name) => Some(*name),
                None => None,
            },
            *limits,
            clear,
        ),
{
    let mut ops: Vec<CgroupOp> = Vec::new();
    let name = match instance {
        Some(name) => name,
        None => {
            proof {
                assert(ops@.map_values(|op: CgroupOp| op@) =~= spec_cgroup_setup_ops(
                    *cp,
                    None,
                    *limits,
                    clear,
                ));
            }
            return ops;
        },
    };
    if let Some(root) = &cp.cpuacct {
        push_enter_ops(&mut ops, root, name);
        let leaf = path_join(root.as_str(), name.as_str());
        if let ClearUsage::Yes = clear {
            ops.push(CgroupOp::WriteValue {
                path: path_join(leaf.as_str(), "cpuacct.usage"),
                value: u64_to_string(0),
            });
            proof {
                reveal_strlit("0");
                assert(spec_u64_string(0) =~= "0"@);
            }
        }
        proof {
            assert(ops@.map_values(|op: CgroupOp| op@) =~= spec_cpuacct_ops(
                root@,
                name@,
                clear,
            ));
        }
    }
    let ghost cpuacct_part = ops@.map_values(|op: CgroupOp| op@);
    if let Some(root) = &cp.memory {
        push_enter_ops(&mut ops, root, name);
        let ghost entered = ops@.map_values(|op: CgroupOp| op@);
        let leaf = path_join(root.as_str(), name.as_str());
        if let ClearUsage::Yes = clear {
            ops.push(CgroupOp::WriteValue {
                path: path_join(leaf.as_str(), "memory.max_usage_in_bytes"),
                value: u64_to_string(0),
            });
            proof {
                reveal_strlit("0");
                assert(spec_u64_string(0) =~= "0"@);
            }
        }
        proof {
            let cleared = ops@.map_values(|op: CgroupOp| op@);
            if clear is Yes {
                assert(cleared =~= entered + seq![
                    CgroupOpV::WriteValue {
                        path: spec_path_join(
                            spec_path_join(root@, name@),
                            "memory.max_usage_in_bytes"@,
                        ),
                        value: "0"@,
                    },
                ]);
            }
        }
        let ghost cleared = ops@.map_values(|op: CgroupOp| op@);
        if let Some(m) = &limits.memory {
            ops.push(CgroupOp::WriteValue {
                path: path_join(leaf.as_str(), "memory.limit_in_bytes"),
                value: u64_to_string(m.0),
            });
            ops.push(CgroupOp::WriteValueIfExists {
                path: path_join(leaf.as_str(), "memory.memsw.limit_in_bytes"),
                value: u64_to_string(m.0),
            });
            ops.push(CgroupOp::WriteValue {
                path: path_join(leaf.as_str(), "memory.swappiness"),
                value: u64_to_string(0),
            });
            proof {
                reveal_strlit("0");
                assert(spec_u64_string(0) =~= "0"@);
                assert(ops@.map_values(|op: CgroupOp| op@) =~= cleared + seq![
                    CgroupOpV::WriteValue {
                        path: spec_path_join(
                            spec_path_join(root@, name@),
                            "memory.limit_in_bytes"@,
                        ),
                        value: spec_u64_string(m.0),
                    },
                    CgroupOpV::WriteValueIfExists {
                        path: spec_path_join(
                            spec_path_join(root@, name@),
                            "memory.memsw.limit_in_bytes"@,
                        ),
                        value: spec_u64_string(m.0),
                    },
                    CgroupOpV::WriteValue {
                        path: spec_path_join(
                            spec_path_join(root@, name@),
                            "memory.swappiness"@,
                        ),
                        value: "0"@,
                    },
                ]);
            }
        }
        proof {
            assert(ops@.map_values(|op: CgroupOp| op@) =~= cpuacct_part + spec_memory_ops(
                root@,
                name@,
                clear,
                limits.memory,
            ));
        }
    }
    let ghost mem_part = ops@.map_values(|op: CgroupOp| op@);
    if let Some(root) = &cp.pids {
        push_enter_ops(&mut ops, root, name);
        let ghost entered = ops@.map_values(|op: CgroupOp| op@);
        let leaf = path_join(root.as_str(), name.as_str());
        if let Some(p) = &limits.pids {
            ops.push(CgroupOp::WriteValue {
                path: path_join(leaf.as_str(), "pids.max"),
                value: u64_to_string(*p as u64),
            });
            proof {
                assert(ops@.map_values(|op: CgroupOp| op@) =~= entered + seq![
                    CgroupOpV::WriteValue {
                        path: spec_path_join(spec_path_join(root@, name@), "pids.max"@),
                        value: spec_u64_string(*p as u64),
                    },
                ]);
            }
        }
        proof {
            assert(ops@.map_values(|op: CgroupOp| op@) =~= mem_part + spec_pids_ops(
                root@,
                name@,
                limits.pids,
            ));
        }
    }
    proof {
        assert(ops@.map_values(|op: CgroupOp| op@) =~= spec_cgroup_setup_ops(
            *cp,
            match instance {
                Some(name) => Some(*name),
                None => None,
            },
            *limits,
            clear,
        ));
    }
    ops
}

/// The leaf directories to remove once the run is over, whatever the
/// verdict was.
pub fn cgroup_teardown_dirs(cp: &ControllerPath, instance: Option<&String>) -> (dirs: Vec<String>)
    ensures
        dirs@.map_values(|d: String| d@) == spec_cgroup_teardown_dirs(
            *cp,
            match instance {
                Some(name) => Some(*name),
                None => None,
            },
        ),
{
    let mut dirs: Vec<String> = Vec::new();
    let name = match instance {
        Some(name) => name,
        None => {
            proof {
                assert(dirs@.map_values(|d: String| d@) =~= spec_cgroup_teardown_dirs(*cp, None));
            }
            return dirs;
        },
    };
    if let Some(root) = &cp.cpuacct {
        dirs.push(path_join(root.as_str(), name.as_str()));
    }
    if let Some(root) = &cp.memory {
        dirs.push(path_join(root.as_str(), name.as_str()));
    }
    if let Some(root) = &cp.pids {
        dirs.push(path_join(root.as_str(), name.as_str()));
    }
    proof {
        assert(dirs@.map_values(|d: String| d@) =~= spec_cgroup_teardown_dirs(
            *cp,
            match instance {
                Some(name) => Some(*name),
                None => None,
            },
        ));
    }
    dirs
}

/// Every directory the teardown removes is one the setup created, and the
/// setup creates no other: the leaf cgroups live exactly as long as the
/// invocation.
pub proof fn lemma_teardown_matches_setup(
    cp: ControllerPath,
    instance: Option<String>,
    limits: Limits,
    clear: ClearUsage,
)
    ensures
        forall|d: Seq<char>|
            spec_cgroup_teardown_dirs(cp, instance).contains(d) <==> spec_cgroup_setup_ops(
                cp,
                instance,
                limits,
                clear,
            ).contains(CgroupOpV::EnsureDir { path: d }),
{
    let dirs = spec_cgroup_teardown_dirs(cp, instance);
    let ops = spec_cgroup_setup_ops(cp, instance, limits, clear);
    assert forall|d: Seq<char>| dirs.contains(d) implies ops.contains(
        CgroupOpV::EnsureDir { path: d },
    ) by {
        let j = choose|j: int| 0 <= j < dirs.len() && dirs[j] == d;
        lemma_teardown_dir_is_created(cp, instance, limits, clear, j);
    }
    assert forall|d: Seq<char>| ops.contains(CgroupOpV::EnsureDir { path: d }) implies dirs
        .contains(d) by {
        let i = choose|i: int|
            0 <= i < ops.len() && ops[i] == (CgroupOpV::EnsureDir { path: d });
        lemma_ensure_dirs_are_leaves(cp, instance, limits, clear, i, d);
    }
}

proof fn lemma_teardown_dir_is_created(
    cp: ControllerPath,
    instance: Option<String>,
    limits: Limits,
    clear: ClearUsage,
    j: int,
)
    requires
        0 <= j < spec_cgroup_teardown_dirs(cp, instance).len(),
    ensures
        spec_cgroup_setup_ops(cp, instance, limits, clear).contains(
            CgroupOpV::EnsureDir { path: spec_cgroup_teardown_dirs(cp, instance)[j] },
        ),
{
    let dirs = spec_cgroup_teardown_dirs(cp, instance);
    let ops = spec_cgroup_setup_ops(cp, instance, limits, clear);
    let name = instance->0;
    let ca = spec_cpuacct_len(cp, instance, clear);
    let me = spec_memory_len(cp, instance, limits, clear);
    let cn = if cp.cpuacct is Some && instance is Some { 1int } else { 0int };
    let mn = if cp.memory is Some && instance is Some { 1int } else { 0int };
    if j < cn {
        let root = cp.cpuacct->0;
        assert(dirs[j] == spec_path_join(root@, name@));
        assert(ops[0] == (CgroupOpV::EnsureDir { path: spec_path_join(root@, name@) }));
    } else if j < cn + mn {
        let root = cp.memory->0;
        assert(dirs[j] == spec_path_join(root@, name@));
        assert(ops[ca] == (CgroupOpV::EnsureDir { path: spec_path_join(root@, name@) }));
    } else {
        let root = cp.pids->0;
        assert(dirs[j] == spec_path_join(root@, name@));
        assert(ops[ca + me] == (CgroupOpV::EnsureDir { path: spec_path_join(root@, name@) }));
    }
}

spec fn spec_cpuacct_len(cp: ControllerPath, instance: Option<String>, clear: ClearUsage) -> int {
    match (cp.cpuacct, instance) {
        (Some(root), Some(name)) => spec_cpuacct_ops(root@, name@, clear).len() as int,
        _ => 0,
    }
}

spec fn spec_memory_len(
    cp: ControllerPath,
    instance: Option<String>,
    limits: Limits,
    clear: ClearUsage,
) -> int {
    match (cp.memory, instance) {
        (Some(root), Some(name)) => spec_memory_ops(root@, name@, clear, limits.memory).len()
            as int,
        _ => 0,
    }
}

proof fn lemma_ensure_dirs_are_leaves(
    cp: ControllerPath,
    instance: Option<String>,
    limits: Limits,
    clear: ClearUsage,
    i: int,
    d: Seq<char>,
)
    requires
        0 <= i < spec_cgroup_setup_ops(cp, instance, limits, clear).len(),
        spec_cgroup_setup_ops(cp, instance, limits, clear)[i] == (CgroupOpV::EnsureDir {
            path: d,
        }),
    ensures
        spec_cgroup_teardown_dirs(cp, instance).contains(d),
{
    let name = instance->0;
    let ops = spec_cgroup_setup_ops(cp, instance, limits, clear);
    let dirs = spec_cgroup_teardown_dirs(cp, instance);
    let ca = spec_cpuacct_len(cp, instance, clear);
    let me = spec_memory_len(cp, instance, limits, clear);
    if i < ca {
        let root = cp.cpuacct->0;
        assert(ops[i] == spec_cpuacct_ops(root@, name@, clear)[i]);
        assert(i == 0);
        assert(d == spec_path_join(root@, name@));
        assert(dirs[0] == d);
    } else if i < ca + me {
        let root = cp.memory->0;
        assert(ops[i] == spec_memory_ops(root@, name@, clear, limits.memory)[i - ca]);
        assert(i - ca == 0);
        let cn = if cp.cpuacct is Some { 1int } else { 0int };
        assert(d == spec_path_join(root@, name@));
        assert(dirs[cn] == d);
    } else {
        let root = cp.pids->0;
        assert(ops[i] == spec_pids_ops(root@, name@, limits.pids)[i - ca - me]);
        assert(i - ca - me == 0);
        let cn = (if cp.cpuacct is Some { 1int } else { 0int }) + (if cp.memory is Some {
            1int
        } else {
            0int
        });
        assert(d == spec_path_join(root@, name@));
        assert(dirs[cn] == d);
    }
}

/// Whether usage is measured for a controller: its parent directory and the
/// instance name are both configured.
pub open spec fn spec_controller_enabled(root: Option<String>, instance: Option<String>) -> bool {
    root is Some && instance is Some
}

/// Assembles the measured usage of a finished run from the raw contents of
/// the counter files, read by the runtime after the child was reaped.
///
/// `cpuacct.usage` holds nanoseconds of cpu time;
/// `memory.max_usage_in_bytes` holds the high-water mark in bytes. A
/// controller that is not enabled contributes zero. A missing or malformed
/// counter file is a read error for that controller, cpuacct checked first.
pub fn get_usage(
    cp: &ControllerPath,
    instance: Option<&String>,
    wall_time: TimeSpan,
    cpuacct_raw: &Option<Vec<u8>>,
    memory_raw: &Option<Vec<u8>>,
) -> (r: Result<RunUsage, CgroupError>)
    ensures
        ({
            let inst = match instance {
                Some(name) => Some(*name),
                None => None,
            };
            let cpu_on = spec_controller_enabled(cp.cpuacct, inst);
            let mem_on = spec_controller_enabled(cp.memory, inst);
            match r {
                Ok(u) => {
                    &&& u.wall_time == wall_time
                    &&& if cpu_on {
                        cpuacct_raw matches Some(b) && spec_counter_value(b@) == Some(
                            u.user_time.nanos,
                        )
                    } else {
                        u.user_time.nanos == 0
                    }
                    &&& if mem_on {
                        memory_raw matches Some(b) && spec_counter_value(b@) == Some(u.memory.0)
                    } else {
                        u.memory.0 == 0
                    }
                },
                Err(e) => {
                    &&& e is ReadError
                    &&& (cpu_on && !spec_counter_ok(*cpuacct_raw)) || (mem_on
                        && !spec_counter_ok(*memory_raw))
                },
            }
        }),
{
    let user_time = match instance {
        Some(_) => match &cp.cpuacct {
            Some(root) => match cpuacct_raw {
                Some(bytes) => match parse_counter(bytes.as_slice()) {
                    Some(v) => TimeSpan { nanos: v },
                    None => {
                        return Err(read_error(root, instance_name_of(instance), "cpuacct.usage"));
                    },
                },
                None => {
                    return Err(read_error(root, instance_name_of(instance), "cpuacct.usage"));
                },
            },
            None => TimeSpan { nanos: 0 },
        },
        None => TimeSpan { nanos: 0 },
    };
    let memory = match instance {
        Some(_) => match &cp.memory {
            Some(root) => match memory_raw {
                Some(bytes) => match parse_counter(bytes.as_slice()) {
                    Some(v) => SpaceUsage(v),
                    None => {
                        return Err(
                            read_error(
                                root,
                                instance_name_of(instance),
                                "memory.max_usage_in_bytes",
                            ),
                        );
                    },
                },
                None => {
                    return Err(
                        read_error(root, instance_name_of(instance), "memory.max_usage_in_bytes"),
                    );
                },
            },
            None => SpaceUsage(0),
        },
        None => SpaceUsage(0),
    };
    Ok(RunUsage { wall_time, user_time, memory })
}

/// What a counter file denotes, if it is well formed: a decimal value that
/// fits a machine word, with an optional trailing line feed.
pub open spec fn spec_counter_value(s: Seq<u8>) -> Option<u64> {
    let t = spec_trim_newline(s);
    if t.len() > 0 && spec_all_digits(t) && spec_digits_value(t) <= u64::MAX {
        Some(spec_digits_value(t) as u64)
    } else {
        None
    }
}

/// The raw read is present and well formed.
pub open spec fn spec_counter_ok(raw: Option<Vec<u8>>) -> bool {
    raw matches Some(b) && spec_counter_value(b@) is Some
}

fn instance_name_of<'a>(instance: Option<&'a String>) -> (r: &'a str)
    requires
        instance is Some,
    ensures
        r@ == instance->0@,
{
    match instance {
        Some(name) => name.as_str(),
        None => "",
    }
}

fn read_error(root: &String, name: &str, file: &str) -> (r: CgroupError)
    ensures
        r is ReadError,
{
    let leaf = path_join(root.as_str(), name);
    let full = path_join(leaf.as_str(), file);
    let bytes = vstd::slice::slice_to_vec(full.as_str().as_bytes());
    CgroupError::ReadError { file: bytes }
}

} // verus!
