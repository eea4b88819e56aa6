use vstd::prelude::*;

use nix::errno::Errno;
use nix::sys::signal::Signal;
use nix::sys::wait::{waitpid, WaitPidFlag, WaitStatus};
use nix::unistd::Pid;

use crate::error::Error;
use crate::status::{
    ExitStatus, spec_continued, spec_core_flag, spec_exit_code, spec_exited, spec_signaled,
    spec_stop_signal, spec_stopped, spec_term_signal,
};

verus! {

/// A change of state of a child, as the wait facility reports it.
#[derive(Debug, Clone, Copy, PartialEq, Eq, Structural)]
pub enum WaitEvent {
    /// Exited normally with this code.
    Exited(i32),
    /// Killed by this signal; the flag says whether core was dumped.
    Signaled(i32, bool),
    /// Stopped by this signal.
    Stopped(i32),
    /// Stopped under a tracer for a system call.
    TraceStop,
    /// Continued after a stop.
    Continued,
    /// Nothing to report yet (only when polling).
    StillAlive,
}

impl WaitEvent {
    /// The values the wait facility can report for each kind of event.
    pub open spec fn well_formed(self) -> bool {
        match self {
            WaitEvent::Exited(c) => 0 <= c <= 0xff,
            WaitEvent::Signaled(s, _) => 0 < s < 0x7f,
            WaitEvent::Stopped(s) => 0 < s <= 0xff,
            _ => true,
        }
    }
}

/// The raw wait status that encodes an event (`StillAlive` has none and maps to zero).
pub open spec fn spec_raw_of(ev: WaitEvent) -> i32 {
    match ev {
        WaitEvent::Exited(c) => c << 8,
        WaitEvent::Signaled(s, core) => if core { s | 0x80 } else { s },
        WaitEvent::Stopped(s) => (s << 8) | 0x7f,
        WaitEvent::TraceStop => 0x857f,
        WaitEvent::Continued => 0xffff,
        WaitEvent::StillAlive => 0,
    }
}

/// Relies on nix::sys::wait::waitpid for the child `pid`, polling when `block` is false.
/// An interrupted call is made again. The decoded variants carry the exit code
/// (`WEXITSTATUS`, eight bits) or a signal number that nix's `Signal` round-trips.
/// An `Err` may come after the kernel already reaped the child: nix refuses to
/// decode a termination by a real-time signal (EINVAL). A ptrace event stop is
/// reported as a plain stop, without its event bits.
#[verifier::external_body]
fn wait_child(pid: i32, block: bool) -> (r: Result<WaitEvent, i32>)
    ensures
        r is Ok ==> r->Ok_0.well_formed(),
        block && r is Ok ==> r->Ok_0 != WaitEvent::StillAlive,
{
    let flags = if block { None } else { Some(WaitPidFlag::WNOHANG) };
    loop {
        return match waitpid(Pid::from_raw(pid), flags) {
            Ok(WaitStatus::Exited(_, c)) => Ok(WaitEvent::Exited(c)),
            Ok(WaitStatus::Signaled(_, s, core)) => Ok(WaitEvent::Signaled(s as i32, core)),
            Ok(WaitStatus::Stopped(_, s)) | Ok(WaitStatus::PtraceEvent(_, s, _)) => Ok(WaitEvent::Stopped(s as i32)),
            Ok(WaitStatus::PtraceSyscall(_)) => Ok(WaitEvent::TraceStop),
            Ok(WaitStatus::Continued(_)) => Ok(WaitEvent::Continued),
            Ok(WaitStatus::StillAlive) => Ok(WaitEvent::StillAlive),
            Err(Errno::EINTR) => continue,
            Err(e) => Err(e as i32),
        };
    }
}

/// Relies on nix::sys::signal::kill: sends SIGKILL to `pid`, or returns the errno.
#[verifier::external_body]
fn send_kill(pid: i32) -> (r: Result<(), i32>) {
    nix::sys::signal::kill(Pid::from_raw(pid), Signal::SIGKILL).map_err(|e| e as i32)
}

impl ExitStatus {
    /// The status word that a reported event stands for.
    pub fn from_event(ev: WaitEvent) -> (r: ExitStatus)
        requires
            ev.well_formed(),
            ev != WaitEvent::StillAlive,
        ensures
            r.0 == spec_raw_of(ev),
            ev matches WaitEvent::Exited(c) ==> spec_exited(r.0) && spec_exit_code(r.0) == c
                && !spec_signaled(r.0) && (r.0 == 0 <==> c == 0),
            ev matches WaitEvent::Signaled(s, core) ==> spec_signaled(r.0) && spec_term_signal(r.0)
                == s && spec_core_flag(r.0) == core && !spec_exited(r.0),
            ev matches WaitEvent::Stopped(s) ==> spec_stopped(r.0) && spec_stop_signal(r.0) == s,
            ev == WaitEvent::Continued ==> spec_continued(r.0),
    {
        proof {
            lemma_event_round_trip(ev);
        }
        match ev {
            WaitEvent::Exited(c) => ExitStatus(c << 8),
            WaitEvent::Signaled(s, core) => if core {
                ExitStatus(s | 0x80)
            } else {
                ExitStatus(s)
            },
            WaitEvent::Stopped(s) => ExitStatus((s << 8) | 0x7f),
            WaitEvent::TraceStop => ExitStatus(0x857f),
            WaitEvent::Continued => ExitStatus(0xffff),
            WaitEvent::StillAlive => ExitStatus(0),
        }
    }
}

/// Encoding an event as a raw status and decoding it gives the event back.
pub proof fn lemma_event_round_trip(ev: WaitEvent)
    requires
        ev.well_formed(),
    ensures
        ev matches WaitEvent::Exited(c) ==> spec_exited(spec_raw_of(ev)) && spec_exit_code(
            spec_raw_of(ev),
        ) == c && !spec_signaled(spec_raw_of(ev)) && (spec_raw_of(ev) == 0 <==> c == 0),
        ev matches WaitEvent::Signaled(s, core) ==> spec_signaled(spec_raw_of(ev))
            && spec_term_signal(spec_raw_of(ev)) == s && spec_core_flag(spec_raw_of(ev)) == core
            && !spec_exited(spec_raw_of(ev)),
        ev matches WaitEvent::Stopped(s) ==> spec_stopped(spec_raw_of(ev)) && spec_stop_signal(
            spec_raw_of(ev),
        ) == s,
        ev == WaitEvent::Continued ==> spec_continued(spec_raw_of(ev)),
{
    match ev {
        WaitEvent::Exited(c) => {
            assert(0 <= c <= 0xff ==> (c << 8) & 0x7f == 0 && ((c << 8) >> 8) & 0xff == c
                && ((c << 8) == 0 <==> c == 0)) by (bit_vector);
        },
        WaitEvent::Signaled(s, core) => {
            assert(0 < s < 0x7f ==> (s | 0x80) & 0x7f == s && (s | 0x80) & 0x80 != 0 && s & 0x7f
                == s && s & 0x80 == 0) by (bit_vector);
        },
        WaitEvent::Stopped(s) => {
            assert(0 < s <= 0xff ==> ((s << 8) | 0x7f) & 0xff == 0x7f && (((s << 8) | 0x7f) >> 8)
                & 0xff == s) by (bit_vector);
        },
        _ => {},
    }
}

/// A child that exits with code 0 leaves the zero status: a success, with code
/// `Some(0)` and no signal.
pub proof fn lemma_exit_zero_event()
    ensures
        spec_raw_of(WaitEvent::Exited(0)) == 0,
        spec_exited(spec_raw_of(WaitEvent::Exited(0))),
        spec_exit_code(spec_raw_of(WaitEvent::Exited(0))) == 0,
        !spec_signaled(spec_raw_of(WaitEvent::Exited(0))),
{
    lemma_event_round_trip(WaitEvent::Exited(0));
}

/// A child killed by signal `s` leaves a status with no exit code whose signal is `s`.
pub proof fn lemma_signal_event(s: i32, core: bool)
    requires
        0 < s < 0x7f,
    ensures
        !spec_exited(spec_raw_of(WaitEvent::Signaled(s, core))),
        spec_signaled(spec_raw_of(WaitEvent::Signaled(s, core))),
        spec_term_signal(spec_raw_of(WaitEvent::Signaled(s, core))) == s,
{
    lemma_event_round_trip(WaitEvent::Signaled(s, core));
}

/// What a poll reports: `None` while the child runs, else the status of the event.
pub fn poll_status(ev: WaitEvent) -> (r: Option<ExitStatus>)
    requires
        ev.well_formed(),
    ensures
        r is None <==> ev == WaitEvent::StillAlive,
        r matches Some(s) ==> s.0 == spec_raw_of(ev),
{
    match ev {
        WaitEvent::StillAlive => None,
        _ => Some(ExitStatus::from_event(ev)),
    }
}

/// A handle on a child process: its identifier and, once reaped, its cached status.
pub struct Process {
    pid: i32,
    status: Option<ExitStatus>,
}

impl Process {
    /// The child's identifier.
    pub closed spec fn spec_pid(&self) -> i32 {
        self.pid
    }

    /// The status observed by the first wait that saw termination, if any.
    pub closed spec fn spec_status(&self) -> Option<ExitStatus> {
        self.status
    }

    /// A handle on a running child with this identifier.
    pub fn new(pid: i32) -> (r: Process)
        requires
            pid > 0,
        ensures
            r.spec_pid() == pid,
            r.spec_status() is None,
    {
        Process { pid, status: None }
    }

    /// The child's identifier.
    pub fn id(&self) -> (r: u32)
        ensures
            r == self.spec_pid() as u32,
    {
        self.pid as u32
    }

    /// Sends SIGKILL to a child that has not been reaped; a reaped child is refused.
    pub fn kill(&mut self) -> (r: Result<(), Error>)
        ensures
            kill_post(*old(self), *final(self), r),
    {
        if self.status.is_some() {
            Err(Error::AlreadyExited)
        } else {
            match send_kill(self.pid) {
                Ok(()) => Ok(()),
                Err(e) => Err(Error::Os(e)),
            }
        }
    }

    /// Blocks until the child terminates and returns its status; later calls
    /// return the cached status without a system call.
    pub fn wait(&mut self) -> (r: Result<ExitStatus, Error>)
        ensures
            wait_post(*old(self), *final(self), r),
    {
        if let Some(status) = self.status {
            return Ok(status);
        }
        match wait_child(self.pid, true) {
            Ok(ev) => {
                let status = ExitStatus::from_event(ev);
                self.status = Some(status);
                Ok(status)
            },
            Err(e) => Err(Error::Os(e)),
        }
    }

    /// Polls the child once without blocking: `Ok(None)` while it runs.
    pub fn try_wait(&mut self) -> (r: Result<Option<ExitStatus>, Error>)
        ensures
            try_wait_post(*old(self), *final(self), r),
    {
        if let Some(status) = self.status {
            return Ok(Some(status));
        }
        match wait_child(self.pid, false) {
            Ok(ev) => {
                let polled = poll_status(ev);
                if polled.is_some() {
                    self.status = polled;
                }
                Ok(polled)
            },
            Err(e) => Err(Error::Os(e)),
        }
    }
}

/// What `kill` does: a reaped child is refused and nothing changes; otherwise
/// the signal goes out and the outcome is the system's.
pub open spec fn kill_post(pre: Process, post: Process, r: Result<(), Error>) -> bool {
    &&& post == pre
    &&& pre.spec_status() is Some ==> r == Err::<(), Error>(Error::AlreadyExited)
    &&& pre.spec_status() is None ==> (r is Ok || r matches Err(Error::Os(_)))
}

/// What `wait` does: a cached status is returned as is; otherwise the first
/// status observed is cached and returned, and a failure leaves the handle alone.
pub open spec fn wait_post(pre: Process, post: Process, r: Result<ExitStatus, Error>) -> bool {
    &&& post.spec_pid() == pre.spec_pid()
    &&& pre.spec_status() is Some ==> post == pre && r == Ok::<ExitStatus, Error>(
        pre.spec_status()->Some_0,
    )
    &&& pre.spec_status() is None ==> match r {
        Ok(s) => post.spec_status() == Some(s),
        Err(e) => post == pre && e is Os,
    }
}

/// What `try_wait` does: as `wait`, but a running child gives `Ok(None)` and no change.
pub open spec fn try_wait_post(
    pre: Process,
    post: Process,
    r: Result<Option<ExitStatus>, Error>,
) -> bool {
    &&& post.spec_pid() == pre.spec_pid()
    &&& pre.spec_status() is Some ==> post == pre && r == Ok::<Option<ExitStatus>, Error>(
        pre.spec_status(),
    )
    &&& pre.spec_status() is None ==> match r {
        Ok(Some(s)) => post.spec_status() == Some(s),
        Ok(None) => post == pre,
        Err(e) => post == pre && e is Os,
    }
}

/// Once a wait has returned a status, every later wait returns that same status
/// and leaves the handle as it is.
pub proof fn lemma_wait_idempotent(
    p0: Process,
    p1: Process,
    p2: Process,
    s: ExitStatus,
    r2: Result<ExitStatus, Error>,
)
    requires
        wait_post(p0, p1, Ok(s)),
        wait_post(p1, p2, r2),
    ensures
        r2 == Ok::<ExitStatus, Error>(s),
        p2 == p1,
{
}

/// Once a wait has returned a status, kill always fails with `AlreadyExited`.
pub proof fn lemma_kill_after_wait(
    p0: Process,
    p1: Process,
    p2: Process,
    s: ExitStatus,
    r: Result<(), Error>,
)
    requires
        wait_post(p0, p1, Ok(s)),
        kill_post(p1, p2, r),
    ensures
        r == Err::<(), Error>(Error::AlreadyExited),
        p2 == p1,
{
}

/// Once a poll has returned a status, kill always fails with `AlreadyExited`.
pub proof fn lemma_kill_after_try_wait(
    p0: Process,
    p1: Process,
    p2: Process,
    s: ExitStatus,
    r: Result<(), Error>,
)
    requires
        try_wait_post(p0, p1, Ok(Some(s))),
        kill_post(p1, p2, r),
    ensures
        r == Err::<(), Error>(Error::AlreadyExited),
{
}

} // verus!
