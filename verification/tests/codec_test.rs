use ia_sandbox::codec::{
    decode_child_report, decode_run_info, decode_supervisor_report, encode_child_report,
    encode_run_info, encode_supervisor_report, WireRecord,
};
use ia_sandbox::config::{SpaceUsage, TimeSpan};
use ia_sandbox::errors::{CgroupError, ChildError, Error, FFIError};
use ia_sandbox::pipeline::WaitStatus;
use ia_sandbox::run_info::{RunInfo, RunUsage, Verdict};
use ia_sandbox::JailHandle;

fn sample_usage() -> RunUsage {
    RunUsage::new(
        TimeSpan::from_millis(321),
        TimeSpan::from_millis(123),
        SpaceUsage::from_kibibytes(4096),
    )
}

fn roundtrip_supervisor(report: Result<RunInfo<()>, Error>) -> Result<RunInfo<()>, Error> {
    let bytes = encode_supervisor_report(&report);
    match decode_supervisor_report(&bytes) {
        WireRecord::Present(r) => r,
        other => panic!("expected a complete record, got {:?}", other),
    }
}

#[test]
fn supervisor_report_roundtrips_every_verdict() {
    let verdicts: Vec<Verdict<()>> = vec![
        Verdict::Success(()),
        Verdict::NonZeroExit(23),
        Verdict::NonZeroExit(-1),
        Verdict::KilledBySignal(11),
        Verdict::WallTimeExceeded,
        Verdict::TimeExceeded,
        Verdict::MemoryExceeded,
    ];
    for verdict in verdicts {
        let report = Ok(RunInfo::new(verdict.clone(), sample_usage()));
        let back = roundtrip_supervisor(report).unwrap();
        assert_eq!(back.verdict, verdict);
        assert_eq!(back.usage, sample_usage());
    }
}

#[test]
fn supervisor_report_roundtrips_every_error() {
    let ffi_errors = vec![
        FFIError::CloneError { errno: 11 },
        FFIError::MountError { errno: 13 },
        FFIError::PivotRootError { errno: 22 },
        FFIError::UidGidMapError { errno: 1 },
        FFIError::RedirectError { errno: 2 },
        FFIError::ExecError { path: b"/bin/missing".to_vec(), errno: 2 },
        FFIError::WaitError { errno: 10 },
        FFIError::SignalHandlerError { errno: 22 },
    ];
    for e in ffi_errors {
        let report = Err(Error::ChildError(ChildError::FFIError(e.clone())));
        let back = roundtrip_supervisor(report).unwrap_err();
        assert_eq!(back, Error::ChildError(ChildError::FFIError(e)));
    }
    let cgroup_errors = vec![
        CgroupError::ControllerUnavailable,
        CgroupError::WriteError { file: b"pids.max".to_vec() },
        CgroupError::ReadError { file: b"cpuacct.usage".to_vec() },
        CgroupError::LeafBusy,
    ];
    for e in cgroup_errors {
        let report = Err(Error::ChildError(ChildError::CgroupError(e.clone())));
        let back = roundtrip_supervisor(report).unwrap_err();
        assert_eq!(back, Error::ChildError(ChildError::CgroupError(e)));
    }
    for e in [Error::SupervisorProcessDiedError, Error::SerializationError] {
        let back = roundtrip_supervisor(Err(e.clone())).unwrap_err();
        assert_eq!(back, e);
    }
}

#[test]
fn child_report_roundtrips() {
    let ok: Result<(), ChildError> = Ok(());
    let bytes = encode_child_report(&ok);
    assert_eq!(decode_child_report(&bytes), WireRecord::Present(Ok(())));

    let err: Result<(), ChildError> = Err(ChildError::FFIError(FFIError::ExecError {
        path: b"./missing".to_vec(),
        errno: 2,
    }));
    let bytes = encode_child_report(&err);
    match decode_child_report(&bytes) {
        WireRecord::Present(Err(ChildError::FFIError(FFIError::ExecError { path, errno }))) => {
            assert_eq!(path, b"./missing".to_vec());
            assert_eq!(errno, 2);
        }
        other => panic!("expected the exec error back, got {:?}", other),
    }
}

#[test]
fn run_info_record_is_identical_across_a_roundtrip() {
    let info = RunInfo::new(Verdict::NonZeroExit(42), sample_usage());
    let bytes = encode_run_info(&info);
    let again = encode_run_info(&decode_run_info(&bytes).unwrap());
    assert_eq!(bytes, again);
}

#[test]
fn empty_pipe_means_the_supervisor_died() {
    let r = JailHandle::new(1).wait(WaitStatus::Exited(0), &[]);
    assert_eq!(r.unwrap_err(), Error::SupervisorProcessDiedError);
}

#[test]
fn torn_record_is_a_serialization_error() {
    let report = Ok(RunInfo::new(Verdict::Success(()), sample_usage()));
    let mut bytes = encode_supervisor_report(&report);
    bytes.pop();
    let r = JailHandle::new(1).wait(WaitStatus::Exited(0), &bytes);
    assert_eq!(r.unwrap_err(), Error::SerializationError);

    let r = JailHandle::new(1).wait(WaitStatus::Exited(0), &[7, 7, 7]);
    assert_eq!(r.unwrap_err(), Error::SerializationError);
}

#[test]
fn supervisor_nonzero_exit_hides_no_verdict() {
    let report = Ok(RunInfo::new(Verdict::Success(()), sample_usage()));
    let bytes = encode_supervisor_report(&report);
    let r = JailHandle::new(1).wait(WaitStatus::Signaled(9), &bytes);
    assert_eq!(r.unwrap_err(), Error::SupervisorProcessDiedError);
    let r = JailHandle::new(1).wait(WaitStatus::Exited(3), &bytes);
    assert_eq!(r.unwrap_err(), Error::SupervisorProcessDiedError);
}
