use vstd::prelude::*;

verus! {

/// Whether a raw wait status records a normal exit.
pub open spec fn spec_exited(raw: i32) -> bool {
    raw & 0x7f == 0
}

/// The exit code carried by a raw wait status.
pub open spec fn spec_exit_code(raw: i32) -> i32 {
    (raw >> 8) & 0xff
}

/// Whether a raw wait status records a termination by signal.
pub open spec fn spec_signaled(raw: i32) -> bool {
    raw & 0x7f != 0 && raw & 0x7f != 0x7f
}

/// The terminating signal carried by a raw wait status.
pub open spec fn spec_term_signal(raw: i32) -> i32 {
    raw & 0x7f
}

/// Whether a raw wait status records a core dump.
pub open spec fn spec_core_flag(raw: i32) -> bool {
    raw & 0x80 != 0
}

/// Whether a raw wait status records a stop.
pub open spec fn spec_stopped(raw: i32) -> bool {
    raw & 0xff == 0x7f
}

/// The stopping signal carried by a raw wait status.
pub open spec fn spec_stop_signal(raw: i32) -> i32 {
    (raw >> 8) & 0xff
}

/// Whether a raw wait status records a continuation.
pub open spec fn spec_continued(raw: i32) -> bool {
    raw == 0xffff
}

pub assume_specification[ libc::WIFEXITED ](status: libc::c_int) -> (r: bool)
    ensures
        r == spec_exited(status),
;

pub assume_specification[ libc::WEXITSTATUS ](status: libc::c_int) -> (r: libc::c_int)
    ensures
        r == spec_exit_code(status),
;

pub assume_specification[ libc::WIFSIGNALED ](status: libc::c_int) -> (r: bool)
    ensures
        r == spec_signaled(status),
;

pub assume_specification[ libc::WTERMSIG ](status: libc::c_int) -> (r: libc::c_int)
    ensures
        r == spec_term_signal(status),
;

pub assume_specification[ libc::WCOREDUMP ](status: libc::c_int) -> (r: bool)
    ensures
        r == spec_core_flag(status),
;

pub assume_specification[ libc::WIFSTOPPED ](status: libc::c_int) -> (r: bool)
    ensures
        r == spec_stopped(status),
;

pub assume_specification[ libc::WSTOPSIG ](status: libc::c_int) -> (r: libc::c_int)
    ensures
        r == spec_stop_signal(status),
;

pub assume_specification[ libc::WIFCONTINUED ](status: libc::c_int) -> (r: bool)
    ensures
        r == spec_continued(status),
;

/// The result of a process after it has terminated (or stopped, or continued):
/// a raw wait status word together with its decoding accessors.
#[derive(Debug, Clone, Copy, PartialEq, Eq, Structural)]
pub struct ExitStatus(pub i32);

/// A wait status that is not a success; it keeps the raw word.
#[derive(Debug, Clone, Copy, PartialEq, Eq, Structural)]
pub struct ExitStatusError(pub i32);

impl ExitStatus {
    /// Wraps a raw wait status.
    pub fn new(status: i32) -> (r: ExitStatus)
        ensures
            r.0 == status,
    {
        ExitStatus(status)
    }

    fn exited(&self) -> (r: bool)
        ensures
            r == spec_exited(self.0),
    {
        libc::WIFEXITED(self.0)
    }

    /// `Ok` exactly when the raw status is zero, that is a normal exit with code 0.
    pub fn exit_ok(&self) -> (r: Result<(), ExitStatusError>)
        ensures
            r is Ok <==> self.0 == 0,
            r is Err ==> r->Err_0 == ExitStatusError(self.0),
    {
        if self.0 == 0 {
            Ok(())
        } else {
            Err(ExitStatusError(self.0))
        }
    }

    /// Whether the process exited normally with code 0; a signal is no success.
    pub fn success(&self) -> (r: bool)
        ensures
            r == (self.0 == 0),
            r ==> spec_exited(self.0) && spec_exit_code(self.0) == 0 && !spec_signaled(self.0),
    {
        proof {
            lemma_success_is_zero(self.0);
        }
        self.exit_ok().is_ok()
    }

    /// The exit code, when the process exited normally; `None` after a signal.
    pub fn code(&self) -> (r: Option<i32>)
        ensures
            r == (if spec_exited(self.0) {
                Some(spec_exit_code(self.0))
            } else {
                None::<i32>
            }),
    {
        if self.exited() {
            Some(libc::WEXITSTATUS(self.0))
        } else {
            None
        }
    }

    /// The terminating signal, when the process was killed by one.
    pub fn signal(&self) -> (r: Option<i32>)
        ensures
            r == (if spec_signaled(self.0) {
                Some(spec_term_signal(self.0))
            } else {
                None::<i32>
            }),
    {
        if libc::WIFSIGNALED(self.0) {
            Some(libc::WTERMSIG(self.0))
        } else {
            None
        }
    }

    /// Whether the process was killed by a signal and dumped core.
    pub fn core_dumped(&self) -> (r: bool)
        ensures
            r == (spec_signaled(self.0) && spec_core_flag(self.0)),
    {
        libc::WIFSIGNALED(self.0) && libc::WCOREDUMP(self.0)
    }

    /// The stopping signal, when the status records a stop.
    pub fn stopped_signal(&self) -> (r: Option<i32>)
        ensures
            r == (if spec_stopped(self.0) {
                Some(spec_stop_signal(self.0))
            } else {
                None::<i32>
            }),
    {
        if libc::WIFSTOPPED(self.0) {
            Some(libc::WSTOPSIG(self.0))
        } else {
            None
        }
    }

    /// Whether the status records a continuation after a stop.
    pub fn continued(&self) -> (r: bool)
        ensures
            r == spec_continued(self.0),
    {
        libc::WIFCONTINUED(self.0)
    }

    /// The raw wait status.
    pub fn into_raw(&self) -> (r: i32)
        ensures
            r == self.0,
    {
        self.0
    }
}

impl From<i32> for ExitStatus {
    fn from(a: i32) -> (r: ExitStatus) {
        ExitStatus(a)
    }
}

impl vstd::std_specs::convert::FromSpecImpl<i32> for ExitStatus {
    open spec fn obeys_from_spec() -> bool {
        true
    }

    open spec fn from_spec(a: i32) -> ExitStatus {
        ExitStatus(a)
    }
}

impl From<ExitStatusError> for ExitStatus {
    fn from(e: ExitStatusError) -> (r: ExitStatus) {
        ExitStatus(e.0)
    }
}

impl vstd::std_specs::convert::FromSpecImpl<ExitStatusError> for ExitStatus {
    open spec fn obeys_from_spec() -> bool {
        true
    }

    open spec fn from_spec(e: ExitStatusError) -> ExitStatus {
        ExitStatus(e.0)
    }
}

/// A zero status records a normal exit with code 0 and no signal.
pub proof fn lemma_success_is_zero(raw: i32)
    ensures
        raw == 0 ==> spec_exited(raw) && spec_exit_code(raw) == 0 && !spec_signaled(raw),
{
    assert(raw == 0 ==> raw & 0x7f == 0 && (raw >> 8) & 0xff == 0) by (bit_vector);
}

/// A normal exit with code 0 is a success, with code `Some(0)` and no signal.
pub proof fn lemma_exit_zero_is_success(raw: i32)
    requires
        raw == 0,
    ensures
        spec_exited(raw),
        spec_exit_code(raw) == 0,
        !spec_signaled(raw),
{
    lemma_success_is_zero(raw);
}

/// The four classifications of a raw wait status exclude one another.
pub proof fn lemma_classes_exclusive(raw: i32)
    ensures
        !(spec_exited(raw) && spec_signaled(raw)),
        !(spec_exited(raw) && spec_stopped(raw)),
        !(spec_signaled(raw) && spec_stopped(raw)),
        spec_continued(raw) ==> !spec_exited(raw) && !spec_signaled(raw) && !spec_stopped(raw),
{
    assert(!(raw & 0x7f == 0 && raw & 0xff == 0x7f)) by (bit_vector);
    assert(raw & 0xff == 0x7f ==> raw & 0x7f == 0x7f) by (bit_vector);
    assert(raw == 0xffff ==> raw & 0x7f == 0x7f && raw & 0xff == 0xff) by (bit_vector);
}

} // verus!
