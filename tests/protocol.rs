use memfd_exec::report::{channel_action, encode_report, ChannelAction, ChannelRead};
use memfd_exec::strategy::{
    candidate_dir, first_step, next_step, push_decimal, staged_file, staging_dir, write_outcome,
    ExecStep, StepOutcome,
};
use memfd_exec::Error;

#[test]
fn report_bytes() {
    assert_eq!(encode_report(13), [0, 0, 0, 13, b'N', b'O', b'E', b'X']);
    assert_eq!(encode_report(-1), [0xff, 0xff, 0xff, 0xff, b'N', b'O', b'E', b'X']);
    assert_eq!(encode_report(0x01020304), [1, 2, 3, 4, b'N', b'O', b'E', b'X']);
}

#[test]
fn report_round_trip() {
    for e in [0, 2, 13, 0x01020304, -5, i32::MAX, i32::MIN] {
        let buf = encode_report(e);
        assert_eq!(channel_action(ChannelRead::Bytes(8), &buf), ChannelAction::ReapAndFail(e));
    }
}

#[test]
fn channel_outcomes() {
    let buf = [0u8; 8];
    assert_eq!(channel_action(ChannelRead::Bytes(0), &buf), ChannelAction::Started);
    assert_eq!(channel_action(ChannelRead::Interrupted, &buf), ChannelAction::Retry);
    assert_eq!(channel_action(ChannelRead::Failed(5), &buf), ChannelAction::ReapAndAbort);
    assert_eq!(channel_action(ChannelRead::Bytes(4), &buf), ChannelAction::ReapAndAbort);
    // Eight bytes with a wrong footer break the protocol.
    assert_eq!(channel_action(ChannelRead::Bytes(8), &buf), ChannelAction::ReapAndAbort);
}

#[test]
fn tiers_in_order() {
    assert_eq!(first_step(false), ExecStep::MemFd);
    assert_eq!(first_step(true), ExecStep::Candidate(0));
    assert_eq!(next_step(ExecStep::MemFd, StepOutcome::Unusable), ExecStep::Candidate(0));
    assert_eq!(next_step(ExecStep::MemFd, StepOutcome::ExecFailed(13)), ExecStep::Candidate(0));
    assert_eq!(next_step(ExecStep::MemFd, StepOutcome::ShortWrite), ExecStep::Give(Error::BrokenPipe));
    assert_eq!(next_step(ExecStep::MemFd, StepOutcome::WriteFailed(28)), ExecStep::Give(Error::Os(28)));
    assert_eq!(next_step(ExecStep::Candidate(0), StepOutcome::ExecFailed(2)), ExecStep::Retry(0));
    assert_eq!(next_step(ExecStep::Candidate(0), StepOutcome::Unusable), ExecStep::Candidate(1));
    assert_eq!(next_step(ExecStep::Retry(1), StepOutcome::ExecFailed(2)), ExecStep::Candidate(2));
    assert_eq!(next_step(ExecStep::Retry(2), StepOutcome::Unusable), ExecStep::Give(Error::FallbackExhausted));
    assert_eq!(next_step(ExecStep::Candidate(2), StepOutcome::Unusable), ExecStep::Give(Error::FallbackExhausted));
    assert_eq!(next_step(ExecStep::Give(Error::BrokenPipe), StepOutcome::Unusable), ExecStep::Give(Error::BrokenPipe));
}

#[test]
fn every_run_of_steps_ends() {
    let mut step = first_step(false);
    let mut n = 0;
    while !matches!(step, ExecStep::Give(_)) {
        step = next_step(step, StepOutcome::ExecFailed(2));
        n += 1;
    }
    assert_eq!(step, ExecStep::Give(Error::FallbackExhausted));
    assert_eq!(n, 7);
}

#[test]
fn write_outcomes() {
    assert_eq!(write_outcome(Ok(10), 10), None);
    assert_eq!(write_outcome(Ok(3), 10), Some(StepOutcome::ShortWrite));
    assert_eq!(write_outcome(Err(28), 10), Some(StepOutcome::WriteFailed(28)));
}

#[test]
fn staging_paths() {
    let mut d = Vec::new();
    push_decimal(&mut d, 0);
    assert_eq!(d, b"0".to_vec());
    push_decimal(&mut d, 4294967295);
    assert_eq!(d, b"04294967295".to_vec());
    assert_eq!(staging_dir(b"/tmp", 1000, 4242), b"/tmp/mfd10004242".to_vec());
    assert_eq!(staged_file(b"/tmp/mfd10004242", b"cat"), b"/tmp/mfd10004242/cat".to_vec());
    assert_eq!(candidate_dir(0, b"/tmp", b"/home/u"), b"/tmp".to_vec());
    assert_eq!(candidate_dir(1, b"/tmp", b"/home/u"), b"/dev/shm".to_vec());
    assert_eq!(candidate_dir(2, b"/tmp", b"/home/u"), b"/home/u/.cache".to_vec());
}
