//! The structured outcome of a run: a verdict over the success branch
//! together with the measured resource usage, and the rule that upgrades a
//! raw wait verdict with what the cgroup counters show.

use vstd::prelude::*;
use crate::config::{Limits, SpaceUsage, TimeSpan};

verus! {

/// The signal the kernel's out-of-memory killer delivers.
pub const SIGKILL: i32 = 9;

/// The signal a failed allocation typically ends in.
pub const SIGSEGV: i32 = 11;

/// Resources measured for one run.
#[derive(Debug, PartialEq, Eq, Structural, Copy, Clone)]
pub struct RunUsage {
    pub wall_time: TimeSpan,
    pub user_time: TimeSpan,
    pub memory: SpaceUsage,
}

impl RunUsage {
    pub fn new(wall_time: TimeSpan, user_time: TimeSpan, memory: SpaceUsage) -> (r: RunUsage)
        ensures
            r == (RunUsage { wall_time, user_time, memory }),
    {
        RunUsage { wall_time, user_time, memory }
    }

    pub fn wall_time(&self) -> (r: TimeSpan)
        ensures
            r == self.wall_time,
    {
        self.wall_time
    }

    pub fn user_time(&self) -> (r: TimeSpan)
        ensures
            r == self.user_time,
    {
        self.user_time
    }

    pub fn memory(&self) -> (r: SpaceUsage)
        ensures
            r == self.memory,
    {
        self.memory
    }
}

impl Default for RunUsage {
    /// Zero usage, for runs whose counters were never read.
    fn default() -> (r: RunUsage)
        ensures
            r.wall_time.nanos == 0,
            r.user_time.nanos == 0,
            r.memory.0 == 0,
    {
        RunUsage {
            wall_time: TimeSpan { nanos: 0 },
            user_time: TimeSpan { nanos: 0 },
            memory: SpaceUsage(0),
        }
    }
}

/// The outcome classification of a completed run.
#[derive(Debug, PartialEq, Eq, Clone)]
pub enum Verdict<T> {
    Success(T),
    NonZeroExit(i32),
    KilledBySignal(i32),
    WallTimeExceeded,
    TimeExceeded,
    MemoryExceeded,
}

/// The measured memory high-water mark reached the configured limit.
pub open spec fn spec_memory_exceeded(usage: RunUsage, limits: Limits) -> bool {
    match limits.memory {
        Some(m) => usage.memory.0 >= m.0,
        None => false,
    }
}

/// The measured cpu time reached the configured limit.
pub open spec fn spec_time_exceeded(usage: RunUsage, limits: Limits) -> bool {
    match limits.user_time {
        Some(t) => usage.user_time.nanos >= t.nanos,
        None => false,
    }
}

/// Upgrades a raw wait verdict with what the cgroup counters show.
///
/// A child that died of SIGKILL or SIGSEGV while the memory counter stands at
/// the limit was killed for its memory use, so that verdict becomes
/// `MemoryExceeded`. Otherwise, a cpu-time counter at or past the limit makes
/// the verdict `TimeExceeded`, whatever the child's own exit looked like: the
/// limit is on accumulated usage, and a run that finishes cleanly past it is
/// still over time.
pub open spec fn spec_merge_verdict<T>(v: Verdict<T>, usage: RunUsage, limits: Limits) -> Verdict<
    T,
> {
    if (v matches Verdict::KilledBySignal(s) && (s == SIGKILL || s == SIGSEGV))
        && spec_memory_exceeded(usage, limits) {
        Verdict::MemoryExceeded
    } else if spec_time_exceeded(usage, limits) {
        Verdict::TimeExceeded
    } else {
        v
    }
}

/// A verdict together with the usage measured for the run.
#[derive(Debug, PartialEq, Eq, Clone)]
pub struct RunInfo<T> {
    pub verdict: Verdict<T>,
    pub usage: RunUsage,
}

impl<T> RunInfo<T> {
    pub fn new(verdict: Verdict<T>, usage: RunUsage) -> (r: RunInfo<T>)
        ensures
            r.verdict == verdict,
            r.usage == usage,
    {
        RunInfo { verdict, usage }
    }

    pub fn verdict(&self) -> (r: &Verdict<T>)
        ensures
            r == self.verdict,
    {
        &self.verdict
    }

    pub fn usage(&self) -> (r: RunUsage)
        ensures
            r == self.usage,
    {
        self.usage
    }

    /// The payload, on the success branch only.
    pub fn success(self) -> (r: Option<T>)
        ensures
            match self.verdict {
                Verdict::Success(t) => r == Some(t),
                _ => r is None,
            },
    {
        match self.verdict {
            Verdict::Success(t) => Some(t),
            _ => None,
        }
    }

    pub fn is_success(&self) -> (r: bool)
        ensures
            r == (self.verdict is Success),
    {
        match &self.verdict {
            Verdict::Success(_) => true,
            _ => false,
        }
    }

    /// The exit status a command-line front end maps this verdict to: zero
    /// on success, the exit value itself on a nonzero exit, the signal
    /// offset by 128 as shells do, and a distinct reserved value in the
    /// hundreds for each exceeded limit.
    pub fn exit_code(&self) -> (r: i32)
        requires
            self.verdict matches Verdict::KilledBySignal(s) ==> s + 128 <= i32::MAX,
        ensures
            match self.verdict {
                Verdict::Success(_) => r == 0,
                Verdict::NonZeroExit(c) => r == c,
                Verdict::KilledBySignal(s) => r == 128 + s,
                Verdict::WallTimeExceeded => r == 125,
                Verdict::TimeExceeded => r == 124,
                Verdict::MemoryExceeded => r == 123,
            },
    {
        match &self.verdict {
            Verdict::Success(_) => 0,
            Verdict::NonZeroExit(c) => *c,
            Verdict::KilledBySignal(s) => 128 + *s,
            Verdict::WallTimeExceeded => 125,
            Verdict::TimeExceeded => 124,
            Verdict::MemoryExceeded => 123,
        }
    }

    /// Applies a function over the success branch; every other verdict and
    /// the usage pass through unchanged.
    pub fn map<U, F: FnOnce(T) -> U>(self, f: F) -> (r: RunInfo<U>)
        requires
            forall|t: T| self.verdict == Verdict::Success(t) ==> f.requires((t,)),
        ensures
            r.usage == self.usage,
            match self.verdict {
                Verdict::Success(t) => r.verdict matches Verdict::Success(u) && f.ensures(
                    (t,),
                    u,
                ),
                Verdict::NonZeroExit(c) => r.verdict == Verdict::<U>::NonZeroExit(c),
                Verdict::KilledBySignal(s) => r.verdict == Verdict::<U>::KilledBySignal(s),
                Verdict::WallTimeExceeded => r.verdict == Verdict::<U>::WallTimeExceeded,
                Verdict::TimeExceeded => r.verdict == Verdict::<U>::TimeExceeded,
                Verdict::MemoryExceeded => r.verdict == Verdict::<U>::MemoryExceeded,
            },
    {
        let usage = self.usage;
        match self.verdict {
            Verdict::Success(t) => RunInfo { verdict: Verdict::Success(f(t)), usage },
            Verdict::NonZeroExit(c) => RunInfo { verdict: Verdict::NonZeroExit(c), usage },
            Verdict::KilledBySignal(s) => RunInfo { verdict: Verdict::KilledBySignal(s), usage },
            Verdict::WallTimeExceeded => RunInfo { verdict: Verdict::WallTimeExceeded, usage },
            Verdict::TimeExceeded => RunInfo { verdict: Verdict::TimeExceeded, usage },
            Verdict::MemoryExceeded => RunInfo { verdict: Verdict::MemoryExceeded, usage },
        }
    }

    /// Applies a fallible function over the success branch: its error wins,
    /// its value becomes the new success, and every other verdict passes
    /// through with the usage kept.
    pub fn and_then<U, E, F: FnOnce(T) -> Result<U, E>>(self, f: F) -> (r: Result<
        RunInfo<U>,
        E,
    >)
        requires
            forall|t: T| self.verdict == Verdict::Success(t) ==> f.requires((t,)),
        ensures
            match self.verdict {
                Verdict::Success(t) => match r {
                    Ok(info) => info.usage == self.usage && (info.verdict matches
                        Verdict::Success(u) && f.ensures((t,), Result::<U, E>::Ok(u))),
                    Err(e) => f.ensures((t,), Result::<U, E>::Err(e)),
                },
                Verdict::NonZeroExit(c) => r == Result::<RunInfo<U>, E>::Ok(
                    RunInfo::<U> { verdict: Verdict::NonZeroExit(c), usage: self.usage },
                ),
                Verdict::KilledBySignal(s) => r == Result::<RunInfo<U>, E>::Ok(
                    RunInfo::<U> { verdict: Verdict::KilledBySignal(s), usage: self.usage },
                ),
                Verdict::WallTimeExceeded => r == Result::<RunInfo<U>, E>::Ok(
                    RunInfo::<U> { verdict: Verdict::WallTimeExceeded, usage: self.usage },
                ),
                Verdict::TimeExceeded => r == Result::<RunInfo<U>, E>::Ok(
                    RunInfo::<U> { verdict: Verdict::TimeExceeded, usage: self.usage },
                ),
                Verdict::MemoryExceeded => r == Result::<RunInfo<U>, E>::Ok(
                    RunInfo::<U> { verdict: Verdict::MemoryExceeded, usage: self.usage },
                ),
            },
    {
        let usage = self.usage;
        match self.verdict {
            Verdict::Success(t) => match f(t) {
                Ok(u) => Ok(RunInfo { verdict: Verdict::Success(u), usage }),
                Err(e) => Err(e),
            },
            Verdict::NonZeroExit(c) => Ok(RunInfo { verdict: Verdict::NonZeroExit(c), usage }),
            Verdict::KilledBySignal(s) => Ok(
                RunInfo { verdict: Verdict::KilledBySignal(s), usage },
            ),
            Verdict::WallTimeExceeded => Ok(
                RunInfo { verdict: Verdict::WallTimeExceeded, usage },
            ),
            Verdict::TimeExceeded => Ok(RunInfo { verdict: Verdict::TimeExceeded, usage }),
            Verdict::MemoryExceeded => Ok(RunInfo { verdict: Verdict::MemoryExceeded, usage }),
        }
    }

    /// Installs the cgroup-measured usage, upgrading the verdict where the
    /// counters show a limit was reached.
    pub fn merge_usage(self, usage: RunUsage, limits: &Limits) -> (r: RunInfo<T>)
        ensures
            r.usage == usage,
            r.verdict == spec_merge_verdict(self.verdict, usage, *limits),
    {
        let memory_hit = match limits.memory {
            Some(m) => usage.memory.0 >= m.0,
            None => false,
        };
        let time_hit = match limits.user_time {
            Some(t) => usage.user_time.nanos >= t.nanos,
            None => false,
        };
        let killed_for_memory = match &self.verdict {
            Verdict::KilledBySignal(s) => (*s == SIGKILL || *s == SIGSEGV) && memory_hit,
            _ => false,
        };
        if killed_for_memory {
            RunInfo { verdict: Verdict::MemoryExceeded, usage }
        } else if time_hit {
            RunInfo { verdict: Verdict::TimeExceeded, usage }
        } else {
            RunInfo { verdict: self.verdict, usage }
        }
    }
}

} // verus!
