use vstd::prelude::*;

verus! {

/// Why launching, waiting on or signalling a child failed.
#[derive(Debug, Clone, Copy, PartialEq, Eq, Structural)]
pub enum Error {
    /// A program name, argument, directory or environment entry held a NUL byte.
    InvalidInput,
    /// The child was already reaped, so its identifier may belong to another process.
    AlreadyExited,
    /// The image could not be written whole into a descriptor.
    BrokenPipe,
    /// No fallback directory could hold a runnable copy of the image.
    FallbackExhausted,
    /// The child forked but could not start the image; it carries the child's errno.
    Exec(i32),
    /// A system call failed with this errno before or without a fork.
    Os(i32),
}

/// `EINVAL`.
pub const EINVAL: i32 = 22;

/// `ESRCH`.
pub const ESRCH: i32 = 3;

/// `EPIPE`.
pub const EPIPE: i32 = 32;

/// `ENOEXEC`.
pub const ENOEXEC: i32 = 8;

impl Error {
    /// The errno that stands for this error on the error-report channel.
    pub open spec fn spec_errno(self) -> i32 {
        match self {
            Error::InvalidInput => EINVAL,
            Error::AlreadyExited => ESRCH,
            Error::BrokenPipe => EPIPE,
            Error::FallbackExhausted => ENOEXEC,
            Error::Exec(e) => e,
            Error::Os(e) => e,
        }
    }

    /// The errno that stands for this error on the error-report channel.
    pub fn errno(&self) -> (r: i32)
        ensures
            r == self.spec_errno(),
    {
        match self {
            Error::InvalidInput => EINVAL,
            Error::AlreadyExited => ESRCH,
            Error::BrokenPipe => EPIPE,
            Error::FallbackExhausted => ENOEXEC,
            Error::Exec(e) => *e,
            Error::Os(e) => *e,
        }
    }
}

} // verus!
