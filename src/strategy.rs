use vstd::prelude::*;

use crate::error::Error;

verus! {

/// How many fallback directories the temporary-file tier tries.
pub const N_CANDIDATES: usize = 3;

/// The step the child takes next to replace its image.
#[derive(Debug, Clone, Copy, PartialEq, Eq, Structural)]
pub enum ExecStep {
    /// Tier one: an anonymous memory-backed descriptor.
    MemFd,
    /// Tier two: a short-lived file under fallback directory `i`.
    Candidate(usize),
    /// Tier two again under directory `i`, with a helper process that removes the file.
    Retry(usize),
    /// No step is left: the launch fails with this error.
    Give(Error),
}

/// How a step that returned went (a step that succeeds never returns).
#[derive(Debug, Clone, Copy, PartialEq, Eq, Structural)]
pub enum StepOutcome {
    /// No runnable descriptor could be made: creation failed or the kernel
    /// does not see it as executable.
    Unusable,
    /// The image went only partly into the descriptor.
    ShortWrite,
    /// Writing the image failed with this errno.
    WriteFailed(i32),
    /// The execute call failed with this errno.
    ExecFailed(i32),
}

/// The first step: tier one, unless the switch that disables it is set.
pub open spec fn spec_first_step(memfd_disabled: bool) -> ExecStep {
    if memfd_disabled {
        ExecStep::Candidate(0)
    } else {
        ExecStep::MemFd
    }
}

/// The step after fallback directory `i` is spent.
pub open spec fn spec_advance(i: usize) -> ExecStep {
    if i + 1 < N_CANDIDATES {
        ExecStep::Candidate((i + 1) as usize)
    } else {
        ExecStep::Give(Error::FallbackExhausted)
    }
}

/// The next step: a failed write ends the launch; otherwise tier one falls through
/// to the first directory, a failed execute in a directory is retried once there,
/// and a directory that still yields nothing passes to the next one.
pub open spec fn spec_next_step(step: ExecStep, out: StepOutcome) -> ExecStep {
    match step {
        ExecStep::Give(e) => ExecStep::Give(e),
        _ => match out {
            StepOutcome::ShortWrite => ExecStep::Give(Error::BrokenPipe),
            StepOutcome::WriteFailed(e) => ExecStep::Give(Error::Os(e)),
            _ => match step {
                ExecStep::MemFd => ExecStep::Candidate(0),
                ExecStep::Candidate(i) => if out is ExecFailed {
                    ExecStep::Retry(i)
                } else {
                    spec_advance(i)
                },
                ExecStep::Retry(i) => spec_advance(i),
                ExecStep::Give(e) => ExecStep::Give(e),
            },
        },
    }
}

/// Whether a step can be taken: a directory index names a directory.
pub open spec fn step_valid(step: ExecStep) -> bool {
    match step {
        ExecStep::Candidate(i) => i < N_CANDIDATES,
        ExecStep::Retry(i) => i < N_CANDIDATES,
        _ => true,
    }
}

/// How many steps at most remain after this one.
pub open spec fn step_rank(step: ExecStep) -> nat {
    match step {
        ExecStep::MemFd => (2 * N_CANDIDATES + 1) as nat,
        ExecStep::Candidate(i) => (2 * (N_CANDIDATES - i)) as nat,
        ExecStep::Retry(i) => (2 * (N_CANDIDATES - i) - 1) as nat,
        ExecStep::Give(_) => 0,
    }
}

/// The first step the child takes.
pub fn first_step(memfd_disabled: bool) -> (r: ExecStep)
    ensures
        r == spec_first_step(memfd_disabled),
        step_valid(r),
{
    if memfd_disabled {
        ExecStep::Candidate(0)
    } else {
        ExecStep::MemFd
    }
}

fn advance(i: usize) -> (r: ExecStep)
    requires
        i < N_CANDIDATES,
    ensures
        r == spec_advance(i),
{
    if i + 1 < N_CANDIDATES {
        ExecStep::Candidate(i + 1)
    } else {
        ExecStep::Give(Error::FallbackExhausted)
    }
}

/// The step that follows `step` once it returned with `out`.
pub fn next_step(step: ExecStep, out: StepOutcome) -> (r: ExecStep)
    requires
        step_valid(step),
    ensures
        r == spec_next_step(step, out),
        step_valid(r),
        !(step is Give) ==> step_rank(r) < step_rank(step),
{
    if let ExecStep::Give(e) = step {
        return ExecStep::Give(e);
    }
    match out {
        StepOutcome::ShortWrite => ExecStep::Give(Error::BrokenPipe),
        StepOutcome::WriteFailed(e) => ExecStep::Give(Error::Os(e)),
        _ => match step {
            ExecStep::MemFd => ExecStep::Candidate(0),
            ExecStep::Candidate(i) => {
                if let StepOutcome::ExecFailed(_) = out {
                    ExecStep::Retry(i)
                } else {
                    advance(i)
                }
            },
            ExecStep::Retry(i) => advance(i),
            ExecStep::Give(e) => ExecStep::Give(e),
        },
    }
}

/// What a write of a `len`-byte image gave: `None` when it went in whole.
pub fn write_outcome(res: Result<usize, i32>, len: usize) -> (r: Option<StepOutcome>)
    ensures
        r == (match res {
            Ok(n) => if n == len {
                None::<StepOutcome>
            } else {
                Some(StepOutcome::ShortWrite)
            },
            Err(e) => Some(StepOutcome::WriteFailed(e)),
        }),
{
    match res {
        Ok(n) => if n == len {
            None
        } else {
            Some(StepOutcome::ShortWrite)
        },
        Err(e) => Some(StepOutcome::WriteFailed(e)),
    }
}

/// Every step but the last brings the end nearer, so a child that takes step
/// after step stops after at most `2 * N_CANDIDATES + 1` of them, with one error.
pub proof fn lemma_steps_terminate(step: ExecStep, out: StepOutcome)
    requires
        step_valid(step),
        !(step is Give),
    ensures
        step_rank(spec_next_step(step, out)) < step_rank(step),
        step_rank(step) <= 2 * N_CANDIDATES + 1,
        step_valid(spec_next_step(step, out)),
{
}

/// Failures of tier one never surface: they lead to the first fallback directory.
pub proof fn lemma_memfd_falls_through(e: i32)
    ensures
        spec_next_step(ExecStep::MemFd, StepOutcome::Unusable) == ExecStep::Candidate(0),
        spec_next_step(ExecStep::MemFd, StepOutcome::ExecFailed(e)) == ExecStep::Candidate(0),
{
}

/// Fallback directory `i`: the system temporary directory, then `/dev/shm`,
/// then `.cache` under the user's home directory.
pub open spec fn spec_candidate_dir(i: usize, temp: Seq<u8>, home: Seq<u8>) -> Seq<u8> {
    if i == 0 {
        temp
    } else if i == 1 {
        seq![47u8, 100u8, 101u8, 118u8, 47u8, 115u8, 104u8, 109u8]
    } else {
        home + seq![47u8, 46u8, 99u8, 97u8, 99u8, 104u8, 101u8]
    }
}

/// Fallback directory `i`, given the temporary and home directories.
pub fn candidate_dir(i: usize, temp: &[u8], home: &[u8]) -> (r: Vec<u8>)
    requires
        i < N_CANDIDATES,
    ensures
        r@ == spec_candidate_dir(i, temp@, home@),
{
    if i == 0 {
        let mut r: Vec<u8> = Vec::new();
        append(&mut r, temp);
        assert(r@ =~= temp@);
        r
    } else if i == 1 {
        let r = vec![47u8, 100u8, 101u8, 118u8, 47u8, 115u8, 104u8, 109u8];
        assert(r@ =~= spec_candidate_dir(i, temp@, home@));
        r
    } else {
        let mut r: Vec<u8> = Vec::new();
        append(&mut r, home);
        let tail: [u8; 7] = [47u8, 46u8, 99u8, 97u8, 99u8, 104u8, 101u8];
        append(&mut r, tail.as_slice());
        assert(r@ =~= spec_candidate_dir(i, temp@, home@));
        r
    }
}

fn append(out: &mut Vec<u8>, s: &[u8])
    ensures
        final(out)@ == old(out)@ + s@,
{
    let mut i: usize = 0;
    while i < s.len()
        invariant
            i <= s@.len(),
            out@ == old(out)@ + s@.subrange(0, i as int),
        decreases s.len() - i,
    {
        out.push(s[i]);
        i = i + 1;
        assert(out@ =~= old(out)@ + s@.subrange(0, i as int));
    }
    assert(s@.subrange(0, s@.len() as int) =~= s@);
}

/// The decimal digits of `n`, most significant first.
pub open spec fn spec_decimal(n: nat) -> Seq<u8>
    decreases n,
{
    if n < 10 {
        seq![(48 + n) as u8]
    } else {
        spec_decimal(n / 10).push((48 + n % 10) as u8)
    }
}

/// Appends the decimal digits of `n` to `out`.
pub fn push_decimal(out: &mut Vec<u8>, n: u32)
    ensures
        final(out)@ == old(out)@ + spec_decimal(n as nat),
    decreases n,
{
    if n >= 10 {
        push_decimal(out, n / 10);
    }
    out.push((48 + n % 10) as u8);
    assert(final(out)@ =~= old(out)@ + spec_decimal(n as nat));
}

/// The per-user, per-process directory under a fallback directory: `DIR/mfdUIDPID`.
pub open spec fn spec_staging_dir(dir: Seq<u8>, uid: u32, pid: u32) -> Seq<u8> {
    dir + seq![47u8, 109u8, 102u8, 100u8] + spec_decimal(uid as nat) + spec_decimal(pid as nat)
}

/// The per-user, per-process directory under the fallback directory `dir`.
pub fn staging_dir(dir: &[u8], uid: u32, pid: u32) -> (r: Vec<u8>)
    ensures
        r@ == spec_staging_dir(dir@, uid, pid),
{
    let mut r: Vec<u8> = Vec::new();
    append(&mut r, dir);
    let mark: [u8; 4] = [47u8, 109u8, 102u8, 100u8];
    append(&mut r, mark.as_slice());
    assert(mark@ =~= seq![47u8, 109u8, 102u8, 100u8]);
    push_decimal(&mut r, uid);
    push_decimal(&mut r, pid);
    assert(r@ =~= spec_staging_dir(dir@, uid, pid));
    r
}

/// The path of the image inside a staging directory: `STAGING/NAME`.
pub fn staged_file(staging: &[u8], name: &[u8]) -> (r: Vec<u8>)
    ensures
        r@ == staging@ + seq![47u8] + name@,
{
    let mut r: Vec<u8> = Vec::new();
    append(&mut r, staging);
    r.push(47u8);
    append(&mut r, name);
    assert(r@ =~= staging@ + seq![47u8] + name@);
    r
}

} // verus!
