use memfd_exec::cstr::{construct_envp, contains_nul, os2c};
use memfd_exec::env::CommandEnv;
use memfd_exec::{Error, MemFdExecutable, Stdio};

fn pairs(v: &[(&str, &str)]) -> Vec<(Vec<u8>, Vec<u8>)> {
    v.iter().map(|(k, x)| (k.as_bytes().to_vec(), x.as_bytes().to_vec())).collect()
}

#[test]
fn c_strings_round_trip() {
    let mut saw = false;
    assert_eq!(os2c(b"hello", &mut saw), b"hello\0".to_vec());
    assert!(!saw);
    assert_eq!(os2c(b"", &mut saw), b"\0".to_vec());
    assert!(!saw);
    assert_eq!(os2c(b"a\0b", &mut saw), b"<string-with-nul>\0".to_vec());
    assert!(saw);
    assert!(contains_nul(b"x\0"));
    assert!(!contains_nul(b"x"));
}

#[test]
fn envp_entries() {
    let mut saw = false;
    let env = pairs(&[("A", "1"), ("B", "two")]);
    assert_eq!(construct_envp(&env, &mut saw), vec![b"A=1\0".to_vec(), b"B=two\0".to_vec()]);
    assert!(!saw);
    let bad = vec![(b"K".to_vec(), b"v\0".to_vec()), (b"C".to_vec(), b"3".to_vec())];
    assert_eq!(construct_envp(&bad, &mut saw), vec![b"C=3\0".to_vec()]);
    assert!(saw);
}

#[test]
fn environment_diff() {
    let inherited = pairs(&[("HOME", "/root"), ("PATH", "/bin"), ("TERM", "xterm")]);
    let mut env = CommandEnv::new();
    assert_eq!(env.capture_if_changed(&inherited), None);
    assert!(!env.have_changed_path());
    env.set(b"TERM", b"dumb");
    env.set(b"NEW", b"x");
    env.remove(b"HOME");
    env.set(b"NEW", b"y");
    assert!(!env.have_changed_path());
    let got = env.capture_if_changed(&inherited).unwrap();
    assert_eq!(got, pairs(&[("PATH", "/bin"), ("TERM", "dumb"), ("NEW", "y")]));
    env.set(b"PATH", b"/usr/bin");
    assert!(env.have_changed_path());
    env.clear();
    assert_eq!(env.capture_if_changed(&inherited), Some(vec![]));
    env.set(b"ONLY", b"1");
    assert_eq!(env.capture_if_changed(&inherited), Some(pairs(&[("ONLY", "1")])));
}

#[test]
fn builder_keeps_argument_zero() {
    let code = [0x7fu8, b'E', b'L', b'F'];
    let mut cmd = MemFdExecutable::new(b"cat", &code);
    assert_eq!(cmd.get_argv(), &vec![b"cat\0".to_vec()]);
    assert_eq!(cmd.get_program_cstr(), b"cat\0");
    assert_eq!(cmd.get_name(), b"cat");
    assert_eq!(cmd.get_code(), &code[..]);
    cmd.arg(b"-n");
    cmd.args(&vec![b"a".to_vec(), b"b".to_vec()]);
    assert_eq!(
        cmd.get_argv(),
        &vec![b"cat\0".to_vec(), b"-n\0".to_vec(), b"a\0".to_vec(), b"b\0".to_vec()]
    );
    cmd.set_program(b"/bin/cat");
    assert_eq!(cmd.get_argv()[0], b"/bin/cat\0".to_vec());
    assert_eq!(cmd.get_program_cstr(), b"/bin/cat\0");
    assert!(cmd.program_is_path());
    assert!(!cmd.saw_nul());
    assert_eq!(cmd.get_cwd(), &None);
    cmd.cwd(b"/tmp");
    assert_eq!(cmd.get_cwd(), &Some(b"/tmp\0".to_vec()));
    let inherited = pairs(&[("PATH", "/bin")]);
    assert_eq!(cmd.prepare_launch(&inherited), Ok(None));
}

#[test]
fn program_name_is_not_a_path() {
    let cmd = MemFdExecutable::new(b"nc", &[]);
    assert!(!cmd.program_is_path());
}

#[test]
fn nul_in_argument_refuses_launch() {
    let mut cmd = MemFdExecutable::new(b"prog", &[]);
    cmd.arg(b"bad\0arg");
    assert!(cmd.saw_nul());
    assert_eq!(cmd.get_argv()[1], b"<string-with-nul>\0".to_vec());
    assert_eq!(cmd.prepare_launch(&vec![]), Err(Error::InvalidInput));
}

#[test]
fn nul_in_environment_refuses_launch() {
    let mut cmd = MemFdExecutable::new(b"prog", &[]);
    cmd.env(b"KEY", b"va\0lue");
    assert!(!cmd.saw_nul());
    assert_eq!(cmd.prepare_launch(&vec![]), Err(Error::InvalidInput));
    assert!(cmd.saw_nul());
}

#[test]
fn changed_environment_is_handed_out() {
    let mut cmd = MemFdExecutable::new(b"prog", &[]);
    cmd.envs(&pairs(&[("A", "1"), ("B", "2")]));
    cmd.env_remove(b"HOME");
    assert!(!cmd.env_saw_path());
    let inherited = pairs(&[("HOME", "/root"), ("LANG", "C")]);
    assert_eq!(
        cmd.prepare_launch(&inherited),
        Ok(Some(vec![b"LANG=C\0".to_vec(), b"A=1\0".to_vec(), b"B=2\0".to_vec()]))
    );
    cmd.env_clear();
    assert!(cmd.env_saw_path());
    assert_eq!(cmd.prepare_launch(&inherited), Ok(Some(vec![])));
}

#[test]
fn stdio_defaults() {
    let mut cmd = MemFdExecutable::new(b"prog", &[]);
    assert_eq!(cmd.resolve_stdio(Stdio::Inherit, true), (Stdio::Inherit, Stdio::Inherit, Stdio::Inherit));
    assert_eq!(cmd.resolve_stdio(Stdio::Inherit, false), (Stdio::Null, Stdio::Inherit, Stdio::Inherit));
    cmd.stdin(Stdio::Piped);
    cmd.stdout(Stdio::Piped);
    cmd.stderr(Stdio::Null);
    assert_eq!(cmd.stdin, Some(Stdio::Piped));
    assert_eq!(cmd.resolve_stdio(Stdio::Inherit, false), (Stdio::Piped, Stdio::Piped, Stdio::Null));
}
