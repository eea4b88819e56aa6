use memfd_exec::process::{poll_status, WaitEvent};
use memfd_exec::{Error, ExitStatus, ExitStatusError, Process};

#[test]
fn zero_status_is_success() {
    let s = ExitStatus::new(0);
    assert!(s.success());
    assert_eq!(s.code(), Some(0));
    assert_eq!(s.signal(), None);
    assert!(s.exit_ok().is_ok());
    assert!(!s.core_dumped());
    assert_eq!(s.stopped_signal(), None);
    assert!(!s.continued());
}

#[test]
fn exit_code_seven() {
    let s = ExitStatus::new(7 << 8);
    assert!(!s.success());
    assert_eq!(s.code(), Some(7));
    assert_eq!(s.signal(), None);
    assert_eq!(s.exit_ok(), Err(ExitStatusError(0x700)));
    assert_eq!(s.into_raw(), 0x700);
}

#[test]
fn killed_by_signal() {
    let s = ExitStatus::new(9);
    assert!(!s.success());
    assert_eq!(s.code(), None);
    assert_eq!(s.signal(), Some(9));
    assert!(!s.core_dumped());
    let dumped = ExitStatus::new(11 | 0x80);
    assert_eq!(dumped.signal(), Some(11));
    assert!(dumped.core_dumped());
}

#[test]
fn stopped_and_continued() {
    let stopped = ExitStatus::new((19 << 8) | 0x7f);
    assert_eq!(stopped.stopped_signal(), Some(19));
    assert_eq!(stopped.code(), None);
    assert_eq!(stopped.signal(), None);
    let cont = ExitStatus::new(0xffff);
    assert!(cont.continued());
    assert_eq!(cont.code(), None);
    assert_eq!(cont.signal(), None);
}

#[test]
fn conversions_keep_the_raw_word() {
    assert_eq!(ExitStatus::from(0x300), ExitStatus::new(0x300));
    assert_eq!(ExitStatus::from(ExitStatusError(5)), ExitStatus::new(5));
}

#[test]
fn events_decode_back() {
    let e = ExitStatus::from_event(WaitEvent::Exited(7));
    assert_eq!(e.code(), Some(7));
    assert_eq!(e.signal(), None);
    let z = ExitStatus::from_event(WaitEvent::Exited(0));
    assert!(z.success());
    assert_eq!(z.code(), Some(0));
    assert_eq!(z.signal(), None);
    let k = ExitStatus::from_event(WaitEvent::Signaled(9, false));
    assert_eq!(k.code(), None);
    assert_eq!(k.signal(), Some(9));
    assert!(!k.core_dumped());
    let c = ExitStatus::from_event(WaitEvent::Signaled(6, true));
    assert_eq!(c.signal(), Some(6));
    assert!(c.core_dumped());
    let s = ExitStatus::from_event(WaitEvent::Stopped(19));
    assert_eq!(s.stopped_signal(), Some(19));
    assert!(ExitStatus::from_event(WaitEvent::Continued).continued());
}

#[test]
fn waiting_on_a_stranger_fails_with_its_errno() {
    // No child of this process has this identifier: waitpid reports ECHILD.
    let mut p = Process::new(i32::MAX);
    assert_eq!(p.id(), i32::MAX as u32);
    assert_eq!(p.wait(), Err(Error::Os(10)));
    assert_eq!(p.try_wait(), Err(Error::Os(10)));
}

#[test]
fn killing_a_missing_process_fails_with_its_errno() {
    // No process has this identifier: kill reports ESRCH.
    let mut p = Process::new(i32::MAX);
    assert_eq!(p.kill(), Err(Error::Os(3)));
}

#[test]
fn error_errnos() {
    assert_eq!(Error::InvalidInput.errno(), 22);
    assert_eq!(Error::AlreadyExited.errno(), 3);
    assert_eq!(Error::BrokenPipe.errno(), 32);
    assert_eq!(Error::FallbackExhausted.errno(), 8);
    assert_eq!(Error::Exec(13).errno(), 13);
    assert_eq!(Error::Os(2).errno(), 2);
}

#[test]
fn poll_reports_only_terminations() {
    assert_eq!(poll_status(WaitEvent::StillAlive), None);
    assert_eq!(poll_status(WaitEvent::Exited(7)), Some(ExitStatus::new(0x700)));
    assert_eq!(poll_status(WaitEvent::Exited(0)), Some(ExitStatus::new(0)));
    assert_eq!(poll_status(WaitEvent::Signaled(9, false)), Some(ExitStatus::new(9)));
    assert_eq!(poll_status(WaitEvent::Continued), Some(ExitStatus::new(0xffff)));
}
