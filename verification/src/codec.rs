//! The wire format of the result pipe: one length-prefixed binary record per
//! direction of a clone. The sandboxed child reports a
//! `Result<(), ChildError>`; the supervisor reports a
//! `Result<RunInfo<()>, Error>`. The format is private to one invocation and
//! never persisted.
//!
//! Every record is a little-endian length followed by a payload of fixed
//! fields and at most one trailing byte string, so a record is decoded by
//! checking its exact length and reading at fixed offsets.

use vstd::prelude::*;
use vstd::bytes::{
    spec_u32_from_le_bytes, spec_u32_to_le_bytes, spec_u64_from_le_bytes, spec_u64_to_le_bytes,
    u32_from_le_bytes, u32_to_le_bytes, u64_from_le_bytes, u64_to_le_bytes,
    lemma_auto_spec_u32_to_from_le_bytes, lemma_auto_spec_u64_to_from_le_bytes,
};
use vstd::slice::{slice_subrange, slice_to_vec};
use crate::config::{SpaceUsage, TimeSpan};
use crate::errors::{
    CgroupError, CgroupErrorV, ChildError, ChildErrorV, Error, ErrorV, FFIError, FFIErrorV,
};
use crate::run_info::{RunInfo, RunUsage, Verdict};

verus! {

/// What a read of the result pipe contained: nothing at all, a complete
/// record, or bytes that are not one record.
#[derive(Debug, PartialEq, Eq, Clone)]
pub enum WireRecord<T> {
    Absent,
    Corrupt,
    Present(T),
}

/// An errno on the wire: four little-endian bytes of its two's-complement
/// image.
pub open spec fn spec_encode_errno(errno: i32) -> Seq<u8> {
    spec_u32_to_le_bytes(errno as u32)
}

pub open spec fn spec_decode_errno(s: Seq<u8>) -> i32
    recommends
        s.len() == 4,
{
    spec_u32_from_le_bytes(s) as i32
}

proof fn lemma_errno_roundtrip(errno: i32)
    ensures
        spec_encode_errno(errno).len() == 4,
        spec_decode_errno(spec_encode_errno(errno)) == errno,
{
    lemma_auto_spec_u32_to_from_le_bytes();
    let u = errno as u32;
    assert(spec_u32_to_le_bytes(u).len() == 4);
    assert(spec_u32_from_le_bytes(spec_u32_to_le_bytes(u)) == u);
    assert(((errno as u32) as i32) == errno) by (bit_vector);
}

fn encode_errno(errno: i32) -> (r: Vec<u8>)
    ensures
        r@ == spec_encode_errno(errno),
        r@.len() == 4,
{
    u32_to_le_bytes(errno as u32)
}

/// The verdict tag byte.
pub open spec fn spec_verdict_tag(v: Verdict<()>) -> u8 {
    match v {
        Verdict::Success(_) => 0,
        Verdict::NonZeroExit(_) => 1,
        Verdict::KilledBySignal(_) => 2,
        Verdict::WallTimeExceeded => 3,
        Verdict::TimeExceeded => 4,
        Verdict::MemoryExceeded => 5,
    }
}

/// The code field: the exit code or the signal, zero for the other verdicts.
pub open spec fn spec_verdict_code(v: Verdict<()>) -> i32 {
    match v {
        Verdict::NonZeroExit(c) => c,
        Verdict::KilledBySignal(s) => s,
        _ => 0,
    }
}

/// The 24-byte usage block: wall nanoseconds, cpu nanoseconds, bytes.
pub open spec fn spec_encode_usage(u: RunUsage) -> Seq<u8> {
    spec_u64_to_le_bytes(u.wall_time.nanos) + spec_u64_to_le_bytes(u.user_time.nanos)
        + spec_u64_to_le_bytes(u.memory.0)
}

pub open spec fn spec_decode_usage(s: Seq<u8>) -> RunUsage
    recommends
        s.len() == 24,
{
    RunUsage {
        wall_time: TimeSpan { nanos: spec_u64_from_le_bytes(s.subrange(0, 8)) },
        user_time: TimeSpan { nanos: spec_u64_from_le_bytes(s.subrange(8, 16)) },
        memory: SpaceUsage(spec_u64_from_le_bytes(s.subrange(16, 24))),
    }
}

proof fn lemma_usage_roundtrip(u: RunUsage)
    ensures
        spec_encode_usage(u).len() == 24,
        spec_decode_usage(spec_encode_usage(u)) == u,
{
    lemma_auto_spec_u64_to_from_le_bytes();
    let s = spec_encode_usage(u);
    assert(s.subrange(0, 8) =~= spec_u64_to_le_bytes(u.wall_time.nanos));
    assert(s.subrange(8, 16) =~= spec_u64_to_le_bytes(u.user_time.nanos));
    assert(s.subrange(16, 24) =~= spec_u64_to_le_bytes(u.memory.0));
}

fn encode_usage(u: &RunUsage) -> (r: Vec<u8>)
    ensures
        r@ == spec_encode_usage(*u),
        r@.len() == 24,
{
    let mut out = u64_to_le_bytes(u.wall_time.nanos);
    let mut user = u64_to_le_bytes(u.user_time.nanos);
    let mut mem = u64_to_le_bytes(u.memory.0);
    out.append(&mut user);
    out.append(&mut mem);
    proof {
        assert(out@ =~= spec_encode_usage(*u));
    }
    out
}

fn decode_usage(bytes: &[u8]) -> (r: RunUsage)
    requires
        bytes@.len() == 24,
    ensures
        r == spec_decode_usage(bytes@),
{
    let wall: u64 = u64_from_le_bytes(slice_subrange(bytes, 0, 8));
    let user: u64 = u64_from_le_bytes(slice_subrange(bytes, 8, 16));
    let mem: u64 = u64_from_le_bytes(slice_subrange(bytes, 16, 24));
    RunUsage {
        wall_time: TimeSpan { nanos: wall },
        user_time: TimeSpan { nanos: user },
        memory: SpaceUsage(mem),
    }
}

/// The 29-byte image of a `RunInfo<()>`: verdict tag, code, usage block.
pub open spec fn spec_encode_run_info(info: RunInfo<()>) -> Seq<u8> {
    seq![spec_verdict_tag(info.verdict)] + spec_encode_errno(spec_verdict_code(info.verdict))
        + spec_encode_usage(info.usage)
}

pub open spec fn spec_decode_run_info(s: Seq<u8>) -> Option<RunInfo<()>> {
    if s.len() != 29 {
        None
    } else {
        let tag = s[0];
        let code = spec_decode_errno(s.subrange(1, 5));
        let usage = spec_decode_usage(s.subrange(5, 29));
        if tag == 0 {
            Some(RunInfo { verdict: Verdict::Success(()), usage })
        } else if tag == 1 {
            Some(RunInfo { verdict: Verdict::NonZeroExit(code), usage })
        } else if tag == 2 {
            Some(RunInfo { verdict: Verdict::KilledBySignal(code), usage })
        } else if tag == 3 {
            Some(RunInfo { verdict: Verdict::WallTimeExceeded, usage })
        } else if tag == 4 {
            Some(RunInfo { verdict: Verdict::TimeExceeded, usage })
        } else if tag == 5 {
            Some(RunInfo { verdict: Verdict::MemoryExceeded, usage })
        } else {
            None
        }
    }
}

/// Decoding inverts encoding: the run info the supervisor reads back is the
/// one the record was made from.
pub proof fn lemma_run_info_roundtrip(info: RunInfo<()>)
    ensures
        spec_encode_run_info(info).len() == 29,
        spec_decode_run_info(spec_encode_run_info(info)) == Some(info),
{
    lemma_errno_roundtrip(spec_verdict_code(info.verdict));
    lemma_usage_roundtrip(info.usage);
    let s = spec_encode_run_info(info);
    assert(s.subrange(1, 5) =~= spec_encode_errno(spec_verdict_code(info.verdict)));
    assert(s.subrange(5, 29) =~= spec_encode_usage(info.usage));
    assert(s[0] == spec_verdict_tag(info.verdict));
    assert(s.len() == 29);
    let decoded = spec_decode_run_info(s);
    match info.verdict {
        Verdict::Success(u) => {
            assert(info.verdict == Verdict::Success(u));
            assert(decoded == Some(RunInfo::<()> { verdict: Verdict::Success(()), usage: info.usage }));
        },
        Verdict::NonZeroExit(c) => {
            assert(info.verdict == Verdict::<()>::NonZeroExit(c));
            assert(decoded == Some(RunInfo::<()> { verdict: Verdict::NonZeroExit(c), usage: info.usage }));
        },
        Verdict::KilledBySignal(sg) => {
            assert(info.verdict == Verdict::<()>::KilledBySignal(sg));
            assert(decoded == Some(RunInfo::<()> { verdict: Verdict::KilledBySignal(sg), usage: info.usage }));
        },
        Verdict::WallTimeExceeded => {
            assert(decoded == Some(RunInfo::<()> { verdict: Verdict::WallTimeExceeded, usage: info.usage }));
        },
        Verdict::TimeExceeded => {
            assert(decoded == Some(RunInfo::<()> { verdict: Verdict::TimeExceeded, usage: info.usage }));
        },
        Verdict::MemoryExceeded => {
            assert(decoded == Some(RunInfo::<()> { verdict: Verdict::MemoryExceeded, usage: info.usage }));
        },
    }
}

/// Two runs whose records are bit-identical had the same verdict and usage.
pub proof fn lemma_run_info_record_identical(a: RunInfo<()>, b: RunInfo<()>)
    requires
        spec_encode_run_info(a) == spec_encode_run_info(b),
    ensures
        a == b,
{
    lemma_run_info_roundtrip(a);
    lemma_run_info_roundtrip(b);
}

pub fn encode_run_info(info: &RunInfo<()>) -> (r: Vec<u8>)
    ensures
        r@ == spec_encode_run_info(*info),
        r@.len() == 29,
{
    let tag: u8 = match &info.verdict {
        Verdict::Success(_) => 0,
        Verdict::NonZeroExit(_) => 1,
        Verdict::KilledBySignal(_) => 2,
        Verdict::WallTimeExceeded => 3,
        Verdict::TimeExceeded => 4,
        Verdict::MemoryExceeded => 5,
    };
    let code: i32 = match &info.verdict {
        Verdict::NonZeroExit(c) => *c,
        Verdict::KilledBySignal(s) => *s,
        _ => 0,
    };
    let mut out: Vec<u8> = Vec::new();
    out.push(tag);
    let mut code_bytes = encode_errno(code);
    let mut usage_bytes = encode_usage(&info.usage);
    out.append(&mut code_bytes);
    out.append(&mut usage_bytes);
    proof {
        assert(out@ =~= spec_encode_run_info(*info));
    }
    out
}

/// The kernel-primitive error image: a tag byte, the errno, and for an exec
/// failure the attempted path as trailing bytes.
pub open spec fn spec_encode_ffi_error(e: FFIErrorV) -> Seq<u8> {
    match e {
        FFIErrorV::CloneError { errno } => seq![0u8] + spec_encode_errno(errno),
        FFIErrorV::MountError { errno } => seq![1u8] + spec_encode_errno(errno),
        FFIErrorV::PivotRootError { errno } => seq![2u8] + spec_encode_errno(errno),
        FFIErrorV::UidGidMapError { errno } => seq![3u8] + spec_encode_errno(errno),
        FFIErrorV::RedirectError { errno } => seq![4u8] + spec_encode_errno(errno),
        FFIErrorV::ExecError { path, errno } => seq![5u8] + spec_encode_errno(errno) + path,
        FFIErrorV::WaitError { errno } => seq![6u8] + spec_encode_errno(errno),
        FFIErrorV::SignalHandlerError { errno } => seq![7u8] + spec_encode_errno(errno),
    }
}

pub open spec fn spec_decode_ffi_error(s: Seq<u8>) -> Option<FFIErrorV> {
    if s.len() < 5 {
        None
    } else {
        let errno = spec_decode_errno(s.subrange(1, 5));
        if s[0] == 5 {
            Some(FFIErrorV::ExecError { path: s.subrange(5, s.len() as int), errno })
        } else if s.len() != 5 {
            None
        } else if s[0] == 0 {
            Some(FFIErrorV::CloneError { errno })
        } else if s[0] == 1 {
            Some(FFIErrorV::MountError { errno })
        } else if s[0] == 2 {
            Some(FFIErrorV::PivotRootError { errno })
        } else if s[0] == 3 {
            Some(FFIErrorV::UidGidMapError { errno })
        } else if s[0] == 4 {
            Some(FFIErrorV::RedirectError { errno })
        } else if s[0] == 6 {
            Some(FFIErrorV::WaitError { errno })
        } else if s[0] == 7 {
            Some(FFIErrorV::SignalHandlerError { errno })
        } else {
            None
        }
    }
}

proof fn lemma_ffi_error_roundtrip(e: FFIErrorV)
    ensures
        spec_encode_ffi_error(e).len() >= 5,
        spec_decode_ffi_error(spec_encode_ffi_error(e)) == Some(e),
{
    let s = spec_encode_ffi_error(e);
    match e {
        FFIErrorV::CloneError { errno } => {
            lemma_errno_roundtrip(errno);
            assert(s.subrange(1, 5) =~= spec_encode_errno(errno));
            assert(spec_decode_ffi_error(s) == Some(FFIErrorV::CloneError { errno }));
        },
        FFIErrorV::MountError { errno } => {
            lemma_errno_roundtrip(errno);
            assert(s.subrange(1, 5) =~= spec_encode_errno(errno));
            assert(spec_decode_ffi_error(s) == Some(FFIErrorV::MountError { errno }));
        },
        FFIErrorV::PivotRootError { errno } => {
            lemma_errno_roundtrip(errno);
            assert(s.subrange(1, 5) =~= spec_encode_errno(errno));
            assert(spec_decode_ffi_error(s) == Some(FFIErrorV::PivotRootError { errno }));
        },
        FFIErrorV::UidGidMapError { errno } => {
            lemma_errno_roundtrip(errno);
            assert(s.subrange(1, 5) =~= spec_encode_errno(errno));
            assert(spec_decode_ffi_error(s) == Some(FFIErrorV::UidGidMapError { errno }));
        },
        FFIErrorV::RedirectError { errno } => {
            lemma_errno_roundtrip(errno);
            assert(s.subrange(1, 5) =~= spec_encode_errno(errno));
            assert(spec_decode_ffi_error(s) == Some(FFIErrorV::RedirectError { errno }));
        },
        FFIErrorV::ExecError { path, errno } => {
            lemma_errno_roundtrip(errno);
            assert(s.subrange(1, 5) =~= spec_encode_errno(errno));
            assert(s.subrange(5, s.len() as int) =~= path);
            assert(spec_decode_ffi_error(s) == Some(FFIErrorV::ExecError { path, errno }));
        },
        FFIErrorV::WaitError { errno } => {
            lemma_errno_roundtrip(errno);
            assert(s.subrange(1, 5) =~= spec_encode_errno(errno));
            assert(spec_decode_ffi_error(s) == Some(FFIErrorV::WaitError { errno }));
        },
        FFIErrorV::SignalHandlerError { errno } => {
            lemma_errno_roundtrip(errno);
            assert(s.subrange(1, 5) =~= spec_encode_errno(errno));
            assert(spec_decode_ffi_error(s) == Some(FFIErrorV::SignalHandlerError { errno }));
        },
    }
}

fn encode_ffi_error(e: &FFIError) -> (r: Vec<u8>)
    ensures
        r@ == spec_encode_ffi_error(e@),
{
    let mut out: Vec<u8> = Vec::new();
    match e {
        FFIError::CloneError { errno } => {
            out.push(0);
            let mut eb = encode_errno(*errno);
            out.append(&mut eb);
        },
        FFIError::MountError { errno } => {
            out.push(1);
            let mut eb = encode_errno(*errno);
            out.append(&mut eb);
        },
        FFIError::PivotRootError { errno } => {
            out.push(2);
            let mut eb = encode_errno(*errno);
            out.append(&mut eb);
        },
        FFIError::UidGidMapError { errno } => {
            out.push(3);
            let mut eb = encode_errno(*errno);
            out.append(&mut eb);
        },
        FFIError::RedirectError { errno } => {
            out.push(4);
            let mut eb = encode_errno(*errno);
            out.append(&mut eb);
        },
        FFIError::ExecError { path, errno } => {
            out.push(5);
            let mut eb = encode_errno(*errno);
            out.append(&mut eb);
            out.extend_from_slice(path.as_slice());
        },
        FFIError::WaitError { errno } => {
            out.push(6);
            let mut eb = encode_errno(*errno);
            out.append(&mut eb);
        },
        FFIError::SignalHandlerError { errno } => {
            out.push(7);
            let mut eb = encode_errno(*errno);
            out.append(&mut eb);
        },
    }
    proof {
        assert(out@ =~= spec_encode_ffi_error(e@));
    }
    out
}

fn decode_ffi_error(bytes: &[u8]) -> (r: Option<FFIError>)
    ensures
        match r {
            Some(e) => spec_decode_ffi_error(bytes@) == Some(e@),
            None => spec_decode_ffi_error(bytes@) is None,
        },
{
    if bytes.len() < 5 {
        return None;
    }
    let tag: u8 = bytes[0];
    let errno: i32 = u32_from_le_bytes(slice_subrange(bytes, 1, 5)) as i32;
    proof {
        assert(spec_decode_errno(bytes@.subrange(1, 5)) == errno);
    }
    if tag == 5 {
        let path = slice_to_vec(slice_subrange(bytes, 5, bytes.len()));
        let e = FFIError::ExecError { path, errno };
        proof {
            assert(e@ == FFIErrorV::ExecError {
                path: bytes@.subrange(5, bytes@.len() as int),
                errno,
            });
        }
        return Some(e);
    }
    if bytes.len() != 5 {
        return None;
    }
    match tag {
        0 => Some(FFIError::CloneError { errno }),
        1 => Some(FFIError::MountError { errno }),
        2 => Some(FFIError::PivotRootError { errno }),
        3 => Some(FFIError::UidGidMapError { errno }),
        4 => Some(FFIError::RedirectError { errno }),
        6 => Some(FFIError::WaitError { errno }),
        7 => Some(FFIError::SignalHandlerError { errno }),
        _ => None,
    }
}

/// The cgroup error image: a tag byte, then for a read or write failure the
/// file's path as trailing bytes.
pub open spec fn spec_encode_cgroup_error(e: CgroupErrorV) -> Seq<u8> {
    match e {
        CgroupErrorV::ControllerUnavailable => seq![0u8],
        CgroupErrorV::WriteError { file } => seq![1u8] + file,
        CgroupErrorV::ReadError { file } => seq![2u8] + file,
        CgroupErrorV::LeafBusy => seq![3u8],
    }
}

pub open spec fn spec_decode_cgroup_error(s: Seq<u8>) -> Option<CgroupErrorV> {
    if s.len() < 1 {
        None
    } else if s[0] == 1 {
        Some(CgroupErrorV::WriteError { file: s.subrange(1, s.len() as int) })
    } else if s[0] == 2 {
        Some(CgroupErrorV::ReadError { file: s.subrange(1, s.len() as int) })
    } else if s.len() != 1 {
        None
    } else if s[0] == 0 {
        Some(CgroupErrorV::ControllerUnavailable)
    } else if s[0] == 3 {
        Some(CgroupErrorV::LeafBusy)
    } else {
        None
    }
}

proof fn lemma_cgroup_error_roundtrip(e: CgroupErrorV)
    ensures
        spec_encode_cgroup_error(e).len() >= 1,
        spec_decode_cgroup_error(spec_encode_cgroup_error(e)) == Some(e),
{
    let s = spec_encode_cgroup_error(e);
    match e {
        CgroupErrorV::ControllerUnavailable => {
            assert(spec_decode_cgroup_error(s) == Some(CgroupErrorV::ControllerUnavailable));
        },
        CgroupErrorV::WriteError { file } => {
            assert(s.subrange(1, s.len() as int) =~= file);
            assert(spec_decode_cgroup_error(s) == Some(CgroupErrorV::WriteError { file }));
        },
        CgroupErrorV::ReadError { file } => {
            assert(s.subrange(1, s.len() as int) =~= file);
            assert(spec_decode_cgroup_error(s) == Some(CgroupErrorV::ReadError { file }));
        },
        CgroupErrorV::LeafBusy => {
            assert(spec_decode_cgroup_error(s) == Some(CgroupErrorV::LeafBusy));
        },
    }
}

fn encode_cgroup_error(e: &CgroupError) -> (r: Vec<u8>)
    ensures
        r@ == spec_encode_cgroup_error(e@),
{
    let mut out: Vec<u8> = Vec::new();
    match e {
        CgroupError::ControllerUnavailable => {
            out.push(0);
        },
        CgroupError::WriteError { file } => {
            out.push(1);
            out.extend_from_slice(file.as_slice());
        },
        CgroupError::ReadError { file } => {
            out.push(2);
            out.extend_from_slice(file.as_slice());
        },
        CgroupError::LeafBusy => {
            out.push(3);
        },
    }
    proof {
        assert(out@ =~= spec_encode_cgroup_error(e@));
    }
    out
}

fn decode_cgroup_error(bytes: &[u8]) -> (r: Option<CgroupError>)
    ensures
        match r {
            Some(e) => spec_decode_cgroup_error(bytes@) == Some(e@),
            None => spec_decode_cgroup_error(bytes@) is None,
        },
{
    if bytes.len() < 1 {
        return None;
    }
    let tag: u8 = bytes[0];
    if tag == 1 {
        let file = slice_to_vec(slice_subrange(bytes, 1, bytes.len()));
        let e = CgroupError::WriteError { file };
        proof {
            assert(e@ == CgroupErrorV::WriteError {
                file: bytes@.subrange(1, bytes@.len() as int),
            });
        }
        return Some(e);
    }
    if tag == 2 {
        let file = slice_to_vec(slice_subrange(bytes, 1, bytes.len()));
        let e = CgroupError::ReadError { file };
        proof {
            assert(e@ == CgroupErrorV::ReadError {
                file: bytes@.subrange(1, bytes@.len() as int),
            });
        }
        return Some(e);
    }
    if bytes.len() != 1 {
        return None;
    }
    match tag {
        0 => Some(CgroupError::ControllerUnavailable),
        3 => Some(CgroupError::LeafBusy),
        _ => None,
    }
}

/// The child error image: a domain byte, then the domain's own image.
pub open spec fn spec_encode_child_error(e: ChildErrorV) -> Seq<u8> {
    match e {
        ChildErrorV::FFIError(f) => seq![0u8] + spec_encode_ffi_error(f),
        ChildErrorV::CgroupError(c) => seq![1u8] + spec_encode_cgroup_error(c),
    }
}

pub open spec fn spec_decode_child_error(s: Seq<u8>) -> Option<ChildErrorV> {
    if s.len() < 1 {
        None
    } else if s[0] == 0 {
        match spec_decode_ffi_error(s.subrange(1, s.len() as int)) {
            Some(f) => Some(ChildErrorV::FFIError(f)),
            None => None,
        }
    } else if s[0] == 1 {
        match spec_decode_cgroup_error(s.subrange(1, s.len() as int)) {
            Some(c) => Some(ChildErrorV::CgroupError(c)),
            None => None,
        }
    } else {
        None
    }
}

proof fn lemma_child_error_roundtrip(e: ChildErrorV)
    ensures
        spec_encode_child_error(e).len() >= 1,
        spec_decode_child_error(spec_encode_child_error(e)) == Some(e),
{
    let s = spec_encode_child_error(e);
    match e {
        ChildErrorV::FFIError(f) => {
            lemma_ffi_error_roundtrip(f);
            assert(s.subrange(1, s.len() as int) =~= spec_encode_ffi_error(f));
            assert(spec_decode_child_error(s) == Some(ChildErrorV::FFIError(f)));
        },
        ChildErrorV::CgroupError(c) => {
            lemma_cgroup_error_roundtrip(c);
            assert(s.subrange(1, s.len() as int) =~= spec_encode_cgroup_error(c));
            assert(spec_decode_child_error(s) == Some(ChildErrorV::CgroupError(c)));
        },
    }
}

fn encode_child_error(e: &ChildError) -> (r: Vec<u8>)
    ensures
        r@ == spec_encode_child_error(e@),
{
    let mut out: Vec<u8> = Vec::new();
    match e {
        ChildError::FFIError(f) => {
            out.push(0);
            let mut fb = encode_ffi_error(f);
            out.append(&mut fb);
        },
        ChildError::CgroupError(c) => {
            out.push(1);
            let mut cb = encode_cgroup_error(c);
            out.append(&mut cb);
        },
    }
    proof {
        assert(out@ =~= spec_encode_child_error(e@));
    }
    out
}

fn decode_child_error(bytes: &[u8]) -> (r: Option<ChildError>)
    ensures
        match r {
            Some(e) => spec_decode_child_error(bytes@) == Some(e@),
            None => spec_decode_child_error(bytes@) is None,
        },
{
    if bytes.len() < 1 {
        return None;
    }
    let tag: u8 = bytes[0];
    let rest = slice_subrange(bytes, 1, bytes.len());
    if tag == 0 {
        match decode_ffi_error(rest) {
            Some(f) => Some(ChildError::FFIError(f)),
            None => None,
        }
    } else if tag == 1 {
        match decode_cgroup_error(rest) {
            Some(c) => Some(ChildError::CgroupError(c)),
            None => None,
        }
    } else {
        None
    }
}

/// The caller-level error image.
pub open spec fn spec_encode_error(e: ErrorV) -> Seq<u8> {
    match e {
        ErrorV::FFIError(f) => seq![0u8] + spec_encode_ffi_error(f),
        ErrorV::ChildError(c) => seq![1u8] + spec_encode_child_error(c),
        ErrorV::SupervisorProcessDiedError => seq![2u8],
        ErrorV::SerializationError => seq![3u8],
    }
}

pub open spec fn spec_decode_error(s: Seq<u8>) -> Option<ErrorV> {
    if s.len() < 1 {
        None
    } else if s[0] == 0 {
        match spec_decode_ffi_error(s.subrange(1, s.len() as int)) {
            Some(f) => Some(ErrorV::FFIError(f)),
            None => None,
        }
    } else if s[0] == 1 {
        match spec_decode_child_error(s.subrange(1, s.len() as int)) {
            Some(c) => Some(ErrorV::ChildError(c)),
            None => None,
        }
    } else if s.len() != 1 {
        None
    } else if s[0] == 2 {
        Some(ErrorV::SupervisorProcessDiedError)
    } else if s[0] == 3 {
        Some(ErrorV::SerializationError)
    } else {
        None
    }
}

proof fn lemma_error_roundtrip(e: ErrorV)
    ensures
        spec_encode_error(e).len() >= 1,
        spec_decode_error(spec_encode_error(e)) == Some(e),
{
    let s = spec_encode_error(e);
    match e {
        ErrorV::FFIError(f) => {
            lemma_ffi_error_roundtrip(f);
            assert(s.subrange(1, s.len() as int) =~= spec_encode_ffi_error(f));
            assert(spec_decode_error(s) == Some(ErrorV::FFIError(f)));
        },
        ErrorV::ChildError(c) => {
            lemma_child_error_roundtrip(c);
            assert(s.subrange(1, s.len() as int) =~= spec_encode_child_error(c));
            assert(spec_decode_error(s) == Some(ErrorV::ChildError(c)));
        },
        ErrorV::SupervisorProcessDiedError => {
            assert(spec_decode_error(s) == Some(ErrorV::SupervisorProcessDiedError));
        },
        ErrorV::SerializationError => {
            assert(spec_decode_error(s) == Some(ErrorV::SerializationError));
        },
    }
}

fn encode_error(e: &Error) -> (r: Vec<u8>)
    ensures
        r@ == spec_encode_error(e@),
{
    let mut out: Vec<u8> = Vec::new();
    match e {
        Error::FFIError(f) => {
            out.push(0);
            let mut fb = encode_ffi_error(f);
            out.append(&mut fb);
        },
        Error::ChildError(c) => {
            out.push(1);
            let mut cb = encode_child_error(c);
            out.append(&mut cb);
        },
        Error::SupervisorProcessDiedError => {
            out.push(2);
        },
        Error::SerializationError => {
            out.push(3);
        },
    }
    proof {
        assert(out@ =~= spec_encode_error(e@));
    }
    out
}

fn decode_error(bytes: &[u8]) -> (r: Option<Error>)
    ensures
        match r {
            Some(e) => spec_decode_error(bytes@) == Some(e@),
            None => spec_decode_error(bytes@) is None,
        },
{
    if bytes.len() < 1 {
        return None;
    }
    let tag: u8 = bytes[0];
    if tag == 0 {
        let rest = slice_subrange(bytes, 1, bytes.len());
        match decode_ffi_error(rest) {
            Some(f) => Some(Error::FFIError(f)),
            None => None,
        }
    } else if tag == 1 {
        let rest = slice_subrange(bytes, 1, bytes.len());
        match decode_child_error(rest) {
            Some(c) => Some(Error::ChildError(c)),
            None => None,
        }
    } else if bytes.len() != 1 {
        None
    } else if tag == 2 {
        Some(Error::SupervisorProcessDiedError)
    } else if tag == 3 {
        Some(Error::SerializationError)
    } else {
        None
    }
}

pub fn decode_run_info(bytes: &[u8]) -> (r: Option<RunInfo<()>>)
    ensures
        r == spec_decode_run_info(bytes@),
{
    if bytes.len() != 29 {
        return None;
    }
    let tag: u8 = bytes[0];
    let code: i32 = u32_from_le_bytes(slice_subrange(bytes, 1, 5)) as i32;
    let usage = decode_usage(slice_subrange(bytes, 5, 29));
    match tag {
        0 => Some(RunInfo { verdict: Verdict::Success(()), usage }),
        1 => Some(RunInfo { verdict: Verdict::NonZeroExit(code), usage }),
        2 => Some(RunInfo { verdict: Verdict::KilledBySignal(code), usage }),
        3 => Some(RunInfo { verdict: Verdict::WallTimeExceeded, usage }),
        4 => Some(RunInfo { verdict: Verdict::TimeExceeded, usage }),
        5 => Some(RunInfo { verdict: Verdict::MemoryExceeded, usage }),
        _ => None,
    }
}

/// The mathematical image of the child's report.
pub open spec fn spec_child_report_view(r: Result<(), ChildError>) -> Result<(), ChildErrorV> {
    match r {
        Ok(u) => Ok(u),
        Err(e) => Err(e@),
    }
}

/// The mathematical image of the supervisor's report.
pub open spec fn spec_supervisor_report_view(r: Result<RunInfo<()>, Error>) -> Result<
    RunInfo<()>,
    ErrorV,
> {
    match r {
        Ok(info) => Ok(info),
        Err(e) => Err(e@),
    }
}

/// The child's record: what the sandboxed child writes before exec, nothing
/// on success, its error otherwise.
pub open spec fn spec_encode_child_report(r: Result<(), ChildErrorV>) -> Seq<u8> {
    match r {
        Ok(_) => seq![0u8],
        Err(e) => seq![1u8] + spec_encode_child_error(e),
    }
}

pub open spec fn spec_decode_child_report(s: Seq<u8>) -> Option<Result<(), ChildErrorV>> {
    if s.len() < 1 {
        None
    } else if s[0] == 0 {
        if s.len() == 1 {
            Some(Ok(()))
        } else {
            None
        }
    } else if s[0] == 1 {
        match spec_decode_child_error(s.subrange(1, s.len() as int)) {
            Some(e) => Some(Err(e)),
            None => None,
        }
    } else {
        None
    }
}

proof fn lemma_child_report_payload_roundtrip(r: Result<(), ChildErrorV>)
    ensures
        spec_encode_child_report(r).len() >= 1,
        spec_decode_child_report(spec_encode_child_report(r)) == Some(r),
{
    let s = spec_encode_child_report(r);
    match r {
        Ok(u) => {
            assert(spec_decode_child_report(s) == Some(Result::<(), ChildErrorV>::Ok(())));
        },
        Err(e) => {
            lemma_child_error_roundtrip(e);
            assert(s.subrange(1, s.len() as int) =~= spec_encode_child_error(e));
            assert(spec_decode_child_report(s) == Some(Result::<(), ChildErrorV>::Err(e)));
        },
    }
}

/// The supervisor's record: the finished run's info, or the error that kept
/// the run from finishing.
pub open spec fn spec_encode_supervisor_report(r: Result<RunInfo<()>, ErrorV>) -> Seq<u8> {
    match r {
        Ok(info) => seq![0u8] + spec_encode_run_info(info),
        Err(e) => seq![1u8] + spec_encode_error(e),
    }
}

pub open spec fn spec_decode_supervisor_report(s: Seq<u8>) -> Option<Result<RunInfo<()>, ErrorV>> {
    if s.len() < 1 {
        None
    } else if s[0] == 0 {
        match spec_decode_run_info(s.subrange(1, s.len() as int)) {
            Some(info) => Some(Ok(info)),
            None => None,
        }
    } else if s[0] == 1 {
        match spec_decode_error(s.subrange(1, s.len() as int)) {
            Some(e) => Some(Err(e)),
            None => None,
        }
    } else {
        None
    }
}

proof fn lemma_supervisor_report_payload_roundtrip(r: Result<RunInfo<()>, ErrorV>)
    ensures
        spec_encode_supervisor_report(r).len() >= 1,
        spec_decode_supervisor_report(spec_encode_supervisor_report(r)) == Some(r),
{
    let s = spec_encode_supervisor_report(r);
    match r {
        Ok(info) => {
            lemma_run_info_roundtrip(info);
            assert(s.subrange(1, s.len() as int) =~= spec_encode_run_info(info));
            assert(spec_decode_supervisor_report(s) == Some(
                Result::<RunInfo<()>, ErrorV>::Ok(info),
            ));
        },
        Err(e) => {
            lemma_error_roundtrip(e);
            assert(s.subrange(1, s.len() as int) =~= spec_encode_error(e));
            assert(spec_decode_supervisor_report(s) == Some(
                Result::<RunInfo<()>, ErrorV>::Err(e),
            ));
        },
    }
}

/// A framed record: the payload length as a little-endian word, then the
/// payload.
pub open spec fn spec_frame(p: Seq<u8>) -> Seq<u8> {
    spec_u64_to_le_bytes(p.len() as u64) + p
}

/// The payload of a framed record, if the bytes are exactly one frame.
pub open spec fn spec_parse_frame(s: Seq<u8>) -> Option<Seq<u8>> {
    if s.len() < 8 {
        None
    } else if spec_u64_from_le_bytes(s.subrange(0, 8)) == (s.len() - 8) as u64 {
        Some(s.subrange(8, s.len() as int))
    } else {
        None
    }
}

proof fn lemma_frame_roundtrip(p: Seq<u8>)
    ensures
        spec_frame(p).len() == 8 + p.len(),
        spec_parse_frame(spec_frame(p)) == Some(p),
{
    lemma_auto_spec_u64_to_from_le_bytes();
    let s = spec_frame(p);
    assert(s.subrange(0, 8) =~= spec_u64_to_le_bytes(p.len() as u64));
    assert(s.subrange(8, s.len() as int) =~= p);
}

/// What a whole read of the result pipe means, for the child's direction.
pub open spec fn spec_parse_child_frame(s: Seq<u8>) -> WireRecord<Result<(), ChildErrorV>> {
    if s.len() == 0 {
        WireRecord::Absent
    } else {
        match spec_parse_frame(s) {
            Some(p) => match spec_decode_child_report(p) {
                Some(r) => WireRecord::Present(r),
                None => WireRecord::Corrupt,
            },
            None => WireRecord::Corrupt,
        }
    }
}

/// What a whole read of the result pipe means, for the supervisor's
/// direction.
pub open spec fn spec_parse_supervisor_frame(s: Seq<u8>) -> WireRecord<
    Result<RunInfo<()>, ErrorV>,
> {
    if s.len() == 0 {
        WireRecord::Absent
    } else {
        match spec_parse_frame(s) {
            Some(p) => match spec_decode_supervisor_report(p) {
                Some(r) => WireRecord::Present(r),
                None => WireRecord::Corrupt,
            },
            None => WireRecord::Corrupt,
        }
    }
}

/// Round trip of the child's record: a framed report read back is exactly
/// the report that was written.
pub proof fn lemma_child_report_roundtrip(r: Result<(), ChildErrorV>)
    ensures
        spec_parse_child_frame(spec_frame(spec_encode_child_report(r))) == WireRecord::Present(r),
{
    lemma_child_report_payload_roundtrip(r);
    lemma_frame_roundtrip(spec_encode_child_report(r));
}

/// Round trip of the supervisor's record: the run info and errors consumed
/// by the caller are exactly the ones the supervisor serialized.
pub proof fn lemma_supervisor_report_roundtrip(r: Result<RunInfo<()>, ErrorV>)
    ensures
        spec_parse_supervisor_frame(spec_frame(spec_encode_supervisor_report(r)))
            == WireRecord::Present(r),
{
    lemma_supervisor_report_payload_roundtrip(r);
    lemma_frame_roundtrip(spec_encode_supervisor_report(r));
}

/// Two supervisor reports with bit-identical frames carry the same result:
/// the wire image determines the run info.
pub proof fn lemma_supervisor_report_identical(
    a: Result<RunInfo<()>, ErrorV>,
    b: Result<RunInfo<()>, ErrorV>,
)
    requires
        spec_frame(spec_encode_supervisor_report(a)) == spec_frame(
            spec_encode_supervisor_report(b),
        ),
    ensures
        a == b,
{
    lemma_supervisor_report_roundtrip(a);
    lemma_supervisor_report_roundtrip(b);
}

/// Encodes and frames the child's report, ready to be written to the pipe.
pub fn encode_child_report(r: &Result<(), ChildError>) -> (out: Vec<u8>)
    ensures
        out@ == spec_frame(spec_encode_child_report(spec_child_report_view(*r))),
{
    let mut payload: Vec<u8> = Vec::new();
    match r {
        Ok(_) => {
            payload.push(0);
        },
        Err(e) => {
            payload.push(1);
            let mut eb = encode_child_error(e);
            payload.append(&mut eb);
        },
    }
    proof {
        assert(payload@ =~= spec_encode_child_report(spec_child_report_view(*r)));
    }
    frame_payload(payload)
}

/// Encodes and frames the supervisor's report.
pub fn encode_supervisor_report(r: &Result<RunInfo<()>, Error>) -> (out: Vec<u8>)
    ensures
        out@ == spec_frame(spec_encode_supervisor_report(spec_supervisor_report_view(*r))),
{
    let mut payload: Vec<u8> = Vec::new();
    match r {
        Ok(info) => {
            payload.push(0);
            let mut ib = encode_run_info(info);
            payload.append(&mut ib);
        },
        Err(e) => {
            payload.push(1);
            let mut eb = encode_error(e);
            payload.append(&mut eb);
        },
    }
    proof {
        assert(payload@ =~= spec_encode_supervisor_report(spec_supervisor_report_view(*r)));
    }
    frame_payload(payload)
}

fn frame_payload(payload: Vec<u8>) -> (out: Vec<u8>)
    ensures
        out@ == spec_frame(payload@),
{
    let mut out = u64_to_le_bytes(payload.len() as u64);
    let mut p = payload;
    out.append(&mut p);
    proof {
        assert(out@ =~= spec_frame(out@.subrange(8, out@.len() as int)));
        assert(out@.subrange(8, out@.len() as int) =~= spec_frame(payload@).subrange(
            8,
            spec_frame(payload@).len() as int,
        ));
        assert(out@ =~= spec_frame(payload@));
    }
    out
}

fn parse_frame<'a>(bytes: &'a [u8]) -> (r: Option<&'a [u8]>)
    ensures
        match r {
            Some(p) => spec_parse_frame(bytes@) == Some(p@),
            None => spec_parse_frame(bytes@) is None,
        },
{
    if bytes.len() < 8 {
        return None;
    }
    let n: u64 = u64_from_le_bytes(slice_subrange(bytes, 0, 8));
    if n != (bytes.len() - 8) as u64 {
        return None;
    }
    Some(slice_subrange(bytes, 8, bytes.len()))
}

/// Reads back the child's record from everything the pipe held.
pub fn decode_child_report(bytes: &[u8]) -> (r: WireRecord<Result<(), ChildError>>)
    ensures
        match r {
            WireRecord::Absent => spec_parse_child_frame(bytes@) == WireRecord::<
                Result<(), ChildErrorV>,
            >::Absent,
            WireRecord::Corrupt => spec_parse_child_frame(bytes@) == WireRecord::<
                Result<(), ChildErrorV>,
            >::Corrupt,
            WireRecord::Present(t) => spec_parse_child_frame(bytes@) == WireRecord::Present(
                spec_child_report_view(t),
            ),
        },
{
    if bytes.len() == 0 {
        return WireRecord::Absent;
    }
    let payload = match parse_frame(bytes) {
        Some(p) => p,
        None => {
            return WireRecord::Corrupt;
        },
    };
    if payload.len() < 1 {
        return WireRecord::Corrupt;
    }
    let tag: u8 = payload[0];
    if tag == 0 {
        if payload.len() == 1 {
            WireRecord::Present(Ok(()))
        } else {
            WireRecord::Corrupt
        }
    } else if tag == 1 {
        match decode_child_error(slice_subrange(payload, 1, payload.len())) {
            Some(e) => WireRecord::Present(Err(e)),
            None => WireRecord::Corrupt,
        }
    } else {
        WireRecord::Corrupt
    }
}

/// Reads back the supervisor's record from everything the pipe held.
pub fn decode_supervisor_report(bytes: &[u8]) -> (r: WireRecord<Result<RunInfo<()>, Error>>)
    ensures
        match r {
            WireRecord::Absent => spec_parse_supervisor_frame(bytes@) == WireRecord::<
                Result<RunInfo<()>, ErrorV>,
            >::Absent,
            WireRecord::Corrupt => spec_parse_supervisor_frame(bytes@) == WireRecord::<
                Result<RunInfo<()>, ErrorV>,
            >::Corrupt,
            WireRecord::Present(t) => spec_parse_supervisor_frame(bytes@) == WireRecord::Present(
                spec_supervisor_report_view(t),
            ),
        },
{
    if bytes.len() == 0 {
        return WireRecord::Absent;
    }
    let payload = match parse_frame(bytes) {
        Some(p) => p,
        None => {
            return WireRecord::Corrupt;
        },
    };
    if payload.len() < 1 {
        return WireRecord::Corrupt;
    }
    let tag: u8 = payload[0];
    if tag == 0 {
        match decode_run_info(slice_subrange(payload, 1, payload.len())) {
            Some(info) => WireRecord::Present(Ok(info)),
            None => WireRecord::Corrupt,
        }
    } else if tag == 1 {
        match decode_error(slice_subrange(payload, 1, payload.len())) {
            Some(e) => WireRecord::Present(Err(e)),
            None => WireRecord::Corrupt,
        }
    } else {
        WireRecord::Corrupt
    }
}

} // verus!
