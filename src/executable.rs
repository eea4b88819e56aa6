use vstd::prelude::*;

use crate::cstr::{has_nul, spec_cstr, spec_envp, env_has_nul, os2c, construct_envp};
use crate::env::{
    CommandEnv, VarView, path_key, spec_captured, spec_set_all, spec_unchanged, spec_without,
};
use crate::error::Error;

verus! {

/// How one of the child's standard streams is set up.
#[derive(Debug, Clone, Copy, PartialEq, Eq, Structural)]
pub enum Stdio {
    /// The child shares this process's stream.
    Inherit,
    /// A pipe joins the child's stream to a handle in this process.
    Piped,
    /// The stream is connected to the null device.
    Null,
}

/// A request to run an executable image held in memory: its program name,
/// arguments, environment changes, working directory and standard streams.
/// It may be launched several times.
pub struct MemFdExecutable<'a> {
    code: &'a [u8],
    name: Vec<u8>,
    program: Vec<u8>,
    argv: Vec<Vec<u8>>,
    env: CommandEnv,
    cwd: Option<Vec<u8>>,
    /// The child's standard input; `None` takes the launch's default.
    pub stdin: Option<Stdio>,
    /// The child's standard output; `None` takes the launch's default.
    pub stdout: Option<Stdio>,
    /// The child's standard error; `None` takes the launch's default.
    pub stderr: Option<Stdio>,
    saw_nul: bool,
}

/// The NUL-terminated argument vector, as views.
pub open spec fn argv_view(argv: Seq<Vec<u8>>) -> Seq<Seq<u8>> {
    argv.map_values(|c: Vec<u8>| c@)
}

impl<'a> MemFdExecutable<'a> {
    /// The image to run.
    pub closed spec fn spec_code(&self) -> Seq<u8> {
        self.code@
    }

    /// The display name, given at construction.
    pub closed spec fn spec_name(&self) -> Seq<u8> {
        self.name@
    }

    /// The terminated program name, argument 0.
    pub closed spec fn spec_program(&self) -> Seq<u8> {
        self.program@
    }

    /// The terminated arguments, argument 0 first.
    pub closed spec fn spec_argv(&self) -> Seq<Seq<u8>> {
        argv_view(self.argv@)
    }

    /// The environment changes.
    pub closed spec fn spec_env(&self) -> CommandEnv {
        self.env
    }

    /// The terminated working directory, if one was set.
    pub closed spec fn spec_cwd(&self) -> Option<Seq<u8>> {
        match self.cwd {
            Some(c) => Some(c@),
            None => None,
        }
    }

    /// The standard input setting.
    pub closed spec fn spec_stdin(&self) -> Option<Stdio> {
        self.stdin
    }

    /// The standard output setting.
    pub closed spec fn spec_stdout(&self) -> Option<Stdio> {
        self.stdout
    }

    /// The standard error setting.
    pub closed spec fn spec_stderr(&self) -> Option<Stdio> {
        self.stderr
    }

    /// Whether some input held a NUL, which makes every launch fail.
    pub closed spec fn spec_saw_nul(&self) -> bool {
        self.saw_nul
    }

    /// Argument 0 is the program name.
    pub proof fn reveal_argv0_of(&self)
        requires
            self.wf(),
        ensures
            self.spec_argv().len() >= 1,
            self.spec_argv()[0] == self.spec_program(),
    {
    }

    /// Argument 0 is always there and is the program name; the environment is well formed.
    pub closed spec fn wf(&self) -> bool {
        &&& self.argv@.len() >= 1
        &&& self.argv@[0]@ == self.program@
        &&& self.env.wf()
    }

    /// A request for the image `code` under `name`, which is also argument 0.
    pub fn new(name: &[u8], code: &'a [u8]) -> (r: MemFdExecutable<'a>)
        ensures
            r.wf(),
            r.spec_code() == code@,
            r.spec_name() == name@,
            r.spec_program() == spec_cstr(name@),
            r.spec_argv() == seq![spec_cstr(name@)],
            r.spec_saw_nul() == has_nul(name@),
            spec_unchanged(r.spec_env()),
            !r.spec_env().spec_saw_path(),
            r.spec_cwd() is None,
            r.spec_stdin() is None && r.spec_stdout() is None && r.spec_stderr() is None,
    {
        let mut saw_nul = false;
        let name_cstr = os2c(name, &mut saw_nul);
        let program = os2c(name, &mut saw_nul);
        let mut name_bytes: Vec<u8> = Vec::new();
        let mut i: usize = 0;
        while i < name.len()
            invariant
                i <= name@.len(),
                name_bytes@ == name@.subrange(0, i as int),
            decreases name.len() - i,
        {
            name_bytes.push(name[i]);
            i = i + 1;
            assert(name_bytes@ =~= name@.subrange(0, i as int));
        }
        assert(name@.subrange(0, name@.len() as int) =~= name@);
        let mut argv: Vec<Vec<u8>> = Vec::new();
        argv.push(name_cstr);
        let r = MemFdExecutable {
            code,
            name: name_bytes,
            program,
            argv,
            env: CommandEnv::new(),
            cwd: None,
            stdin: None,
            stdout: None,
            stderr: None,
            saw_nul,
        };
        assert(r.spec_argv() =~= seq![spec_cstr(name@)]);
        r
    }

    /// Adds an argument after those already given.
    pub fn arg(&mut self, arg: &[u8])
        requires
            old(self).wf(),
        ensures
            final(self).wf(),
            final(self).spec_argv() == old(self).spec_argv().push(spec_cstr(arg@)),
            final(self).spec_saw_nul() == (old(self).spec_saw_nul() || has_nul(arg@)),
            final(self).spec_program() == old(self).spec_program(),
            final(self).spec_env() == old(self).spec_env(),
            final(self).spec_cwd() == old(self).spec_cwd(),
            final(self).spec_code() == old(self).spec_code(),
            final(self).spec_name() == old(self).spec_name(),
            final(self).spec_stdin() == old(self).spec_stdin(),
            final(self).spec_stdout() == old(self).spec_stdout(),
            final(self).spec_stderr() == old(self).spec_stderr(),
    {
        let c = os2c(arg, &mut self.saw_nul);
        self.argv.push(c);
        assert(self.spec_argv() =~= old(self).spec_argv().push(spec_cstr(arg@)));
    }

    /// Adds several arguments, in order.
    pub fn args(&mut self, args: &Vec<Vec<u8>>)
        requires
            old(self).wf(),
        ensures
            final(self).wf(),
            final(self).spec_argv() == old(self).spec_argv() + args@.map_values(
                |a: Vec<u8>| spec_cstr(a@),
            ),
            final(self).spec_saw_nul() == (old(self).spec_saw_nul() || exists|i: int|
                0 <= i < args@.len() && has_nul(#[trigger] args@[i]@)),
            final(self).spec_program() == old(self).spec_program(),
            final(self).spec_env() == old(self).spec_env(),
            final(self).spec_cwd() == old(self).spec_cwd(),
            final(self).spec_code() == old(self).spec_code(),
            final(self).spec_name() == old(self).spec_name(),
            final(self).spec_stdin() == old(self).spec_stdin(),
            final(self).spec_stdout() == old(self).spec_stdout(),
            final(self).spec_stderr() == old(self).spec_stderr(),
    {
        let ghost start = self.spec_argv();
        let ghost nul0 = self.spec_saw_nul();
        let mut i: usize = 0;
        while i < args.len()
            invariant
                i <= args@.len(),
                self.wf(),
                self.spec_argv() == start + args@.subrange(0, i as int).map_values(
                    |a: Vec<u8>| spec_cstr(a@),
                ),
                self.spec_saw_nul() == (nul0 || exists|j: int|
                    0 <= j < i && has_nul(#[trigger] args@[j]@)),
                self.spec_program() == old(self).spec_program(),
                self.spec_env() == old(self).spec_env(),
                self.spec_cwd() == old(self).spec_cwd(),
                self.spec_code() == old(self).spec_code(),
                self.spec_name() == old(self).spec_name(),
                self.spec_stdin() == old(self).spec_stdin(),
                self.spec_stdout() == old(self).spec_stdout(),
                self.spec_stderr() == old(self).spec_stderr(),
            decreases args.len() - i,
        {
            self.arg(args[i].as_slice());
            i = i + 1;
            assert(args@.subrange(0, i as int).map_values(|a: Vec<u8>| spec_cstr(a@))
                =~= args@.subrange(0, i - 1 as int).map_values(|a: Vec<u8>| spec_cstr(a@)).push(
                spec_cstr(args@[i - 1]@),
            ));
        }
        assert(args@.subrange(0, args@.len() as int) =~= args@);
    }

    /// Sets the variable `key` to `val` in the child's environment.
    pub fn env(&mut self, key: &[u8], val: &[u8])
        requires
            old(self).wf(),
        ensures
            final(self).wf(),
            final(self).spec_env().spec_vars() == spec_without(
                old(self).spec_env().spec_vars(),
                key@,
            ).push((key@, Some(val@))),
            final(self).spec_env().spec_clear() == old(self).spec_env().spec_clear(),
            final(self).spec_env().spec_saw_path() == (old(self).spec_env().spec_saw_path()
                || key@ == path_key()),
            final(self).spec_argv() == old(self).spec_argv(),
            final(self).spec_saw_nul() == old(self).spec_saw_nul(),
            final(self).spec_program() == old(self).spec_program(),
            final(self).spec_cwd() == old(self).spec_cwd(),
            final(self).spec_code() == old(self).spec_code(),
            final(self).spec_stdin() == old(self).spec_stdin(),
            final(self).spec_stdout() == old(self).spec_stdout(),
            final(self).spec_stderr() == old(self).spec_stderr(),
            final(self).spec_name() == old(self).spec_name(),
    {
        self.env.set(key, val);
    }

    /// Sets several variables, in order.
    pub fn envs(&mut self, vars: &Vec<(Vec<u8>, Vec<u8>)>)
        requires
            old(self).wf(),
        ensures
            final(self).wf(),
            final(self).spec_env().spec_vars() == spec_set_all(
                old(self).spec_env().spec_vars(),
                vars@,
            ),
            final(self).spec_env().spec_clear() == old(self).spec_env().spec_clear(),
            final(self).spec_env().spec_saw_path() == (old(self).spec_env().spec_saw_path()
                || exists|i: int| 0 <= i < vars@.len() && (#[trigger] vars@[i]).0@ == path_key()),
            final(self).spec_argv() == old(self).spec_argv(),
            final(self).spec_saw_nul() == old(self).spec_saw_nul(),
            final(self).spec_program() == old(self).spec_program(),
            final(self).spec_cwd() == old(self).spec_cwd(),
            final(self).spec_code() == old(self).spec_code(),
            final(self).spec_stdin() == old(self).spec_stdin(),
            final(self).spec_stdout() == old(self).spec_stdout(),
            final(self).spec_stderr() == old(self).spec_stderr(),
            final(self).spec_name() == old(self).spec_name(),
    {
        let mut i: usize = 0;
        while i < vars.len()
            invariant
                i <= vars@.len(),
                self.wf(),
                self.spec_env().spec_vars() == spec_set_all(
                    old(self).spec_env().spec_vars(),
                    vars@.subrange(0, i as int),
                ),
                self.spec_env().spec_clear() == old(self).spec_env().spec_clear(),
                self.spec_env().spec_saw_path() == (old(self).spec_env().spec_saw_path()
                    || exists|j: int| 0 <= j < i && (#[trigger] vars@[j]).0@ == path_key()),
                self.spec_argv() == old(self).spec_argv(),
                self.spec_saw_nul() == old(self).spec_saw_nul(),
                self.spec_program() == old(self).spec_program(),
                self.spec_cwd() == old(self).spec_cwd(),
                self.spec_code() == old(self).spec_code(),
                self.spec_stdin() == old(self).spec_stdin(),
                self.spec_stdout() == old(self).spec_stdout(),
                self.spec_stderr() == old(self).spec_stderr(),
                self.spec_name() == old(self).spec_name(),
            decreases vars.len() - i,
        {
            self.env(vars[i].0.as_slice(), vars[i].1.as_slice());
            assert(vars@.subrange(0, i + 1 as int).drop_last() =~= vars@.subrange(0, i as int));
            i = i + 1;
        }
        assert(vars@.subrange(0, vars@.len() as int) =~= vars@);
    }

    /// Removes the variable `key` from the child's environment.
    pub fn env_remove(&mut self, key: &[u8])
        requires
            old(self).wf(),
        ensures
            final(self).wf(),
            final(self).spec_env().spec_vars() == if old(self).spec_env().spec_clear() {
                spec_without(old(self).spec_env().spec_vars(), key@)
            } else {
                spec_without(old(self).spec_env().spec_vars(), key@).push(
                    (key@, None::<Seq<u8>>),
                )
            },
            final(self).spec_env().spec_clear() == old(self).spec_env().spec_clear(),
            final(self).spec_env().spec_saw_path() == (old(self).spec_env().spec_saw_path()
                || key@ == path_key()),
            final(self).spec_argv() == old(self).spec_argv(),
            final(self).spec_saw_nul() == old(self).spec_saw_nul(),
            final(self).spec_program() == old(self).spec_program(),
            final(self).spec_cwd() == old(self).spec_cwd(),
            final(self).spec_code() == old(self).spec_code(),
            final(self).spec_stdin() == old(self).spec_stdin(),
            final(self).spec_stdout() == old(self).spec_stdout(),
            final(self).spec_stderr() == old(self).spec_stderr(),
            final(self).spec_name() == old(self).spec_name(),
    {
        self.env.remove(key);
    }

    /// Passes no inherited variable on to the child.
    pub fn env_clear(&mut self)
        requires
            old(self).wf(),
        ensures
            final(self).wf(),
            final(self).spec_env().spec_clear(),
            final(self).spec_env().spec_saw_path(),
            final(self).spec_env().spec_vars() == Seq::<VarView>::empty(),
            final(self).spec_argv() == old(self).spec_argv(),
            final(self).spec_saw_nul() == old(self).spec_saw_nul(),
            final(self).spec_program() == old(self).spec_program(),
            final(self).spec_cwd() == old(self).spec_cwd(),
            final(self).spec_code() == old(self).spec_code(),
            final(self).spec_stdin() == old(self).spec_stdin(),
            final(self).spec_stdout() == old(self).spec_stdout(),
            final(self).spec_stderr() == old(self).spec_stderr(),
            final(self).spec_name() == old(self).spec_name(),
    {
        self.env.clear();
    }

    /// Sets the child's working directory.
    pub fn cwd(&mut self, dir: &[u8])
        requires
            old(self).wf(),
        ensures
            final(self).wf(),
            final(self).spec_cwd() == Some(spec_cstr(dir@)),
            final(self).spec_saw_nul() == (old(self).spec_saw_nul() || has_nul(dir@)),
            final(self).spec_argv() == old(self).spec_argv(),
            final(self).spec_program() == old(self).spec_program(),
            final(self).spec_env() == old(self).spec_env(),
            final(self).spec_code() == old(self).spec_code(),
            final(self).spec_stdin() == old(self).spec_stdin(),
            final(self).spec_stdout() == old(self).spec_stdout(),
            final(self).spec_stderr() == old(self).spec_stderr(),
            final(self).spec_name() == old(self).spec_name(),
    {
        let c = os2c(dir, &mut self.saw_nul);
        self.cwd = Some(c);
    }

    /// Sets up the child's standard input.
    pub fn stdin(&mut self, cfg: Stdio)
        ensures
            final(self).spec_stdin() == Some(cfg),
            final(self).spec_stdout() == old(self).spec_stdout(),
            final(self).spec_stderr() == old(self).spec_stderr(),
            old(self).wf() ==> final(self).wf(),
            final(self).spec_argv() == old(self).spec_argv(),
            final(self).spec_saw_nul() == old(self).spec_saw_nul(),
            final(self).spec_program() == old(self).spec_program(),
            final(self).spec_env() == old(self).spec_env(),
            final(self).spec_cwd() == old(self).spec_cwd(),
            final(self).spec_code() == old(self).spec_code(),
            final(self).spec_name() == old(self).spec_name(),
    {
        self.stdin = Some(cfg);
    }

    /// Sets up the child's standard output.
    pub fn stdout(&mut self, cfg: Stdio)
        ensures
            final(self).spec_stdout() == Some(cfg),
            final(self).spec_stdin() == old(self).spec_stdin(),
            final(self).spec_stderr() == old(self).spec_stderr(),
            old(self).wf() ==> final(self).wf(),
            final(self).spec_argv() == old(self).spec_argv(),
            final(self).spec_saw_nul() == old(self).spec_saw_nul(),
            final(self).spec_program() == old(self).spec_program(),
            final(self).spec_env() == old(self).spec_env(),
            final(self).spec_cwd() == old(self).spec_cwd(),
            final(self).spec_code() == old(self).spec_code(),
            final(self).spec_name() == old(self).spec_name(),
    {
        self.stdout = Some(cfg);
    }

    /// Sets up the child's standard error.
    pub fn stderr(&mut self, cfg: Stdio)
        ensures
            final(self).spec_stderr() == Some(cfg),
            final(self).spec_stdin() == old(self).spec_stdin(),
            final(self).spec_stdout() == old(self).spec_stdout(),
            old(self).wf() ==> final(self).wf(),
            final(self).spec_argv() == old(self).spec_argv(),
            final(self).spec_saw_nul() == old(self).spec_saw_nul(),
            final(self).spec_program() == old(self).spec_program(),
            final(self).spec_env() == old(self).spec_env(),
            final(self).spec_cwd() == old(self).spec_cwd(),
            final(self).spec_code() == old(self).spec_code(),
            final(self).spec_name() == old(self).spec_name(),
    {
        self.stderr = Some(cfg);
    }

    /// Renames the program: argument 0 becomes `program`.
    pub fn set_program(&mut self, program: &[u8])
        requires
            old(self).wf(),
        ensures
            final(self).wf(),
            final(self).spec_program() == spec_cstr(program@),
            final(self).spec_argv() == old(self).spec_argv().update(0, spec_cstr(program@)),
            final(self).spec_saw_nul() == (old(self).spec_saw_nul() || has_nul(program@)),
            final(self).spec_env() == old(self).spec_env(),
            final(self).spec_cwd() == old(self).spec_cwd(),
            final(self).spec_code() == old(self).spec_code(),
            final(self).spec_name() == old(self).spec_name(),
            final(self).spec_stdin() == old(self).spec_stdin(),
            final(self).spec_stdout() == old(self).spec_stdout(),
            final(self).spec_stderr() == old(self).spec_stderr(),
    {
        let arg = os2c(program, &mut self.saw_nul);
        let again = os2c(program, &mut self.saw_nul);
        self.argv.set(0, arg);
        self.program = again;
        assert(self.spec_argv() =~= old(self).spec_argv().update(0, spec_cstr(program@)));
    }

    /// Whether some input held a NUL.
    pub fn saw_nul(&self) -> (r: bool)
        ensures
            r == self.spec_saw_nul(),
    {
        self.saw_nul
    }

    /// The working directory set for the child, terminated.
    pub fn get_cwd(&self) -> (r: &Option<Vec<u8>>)
        ensures
            match *r {
                Some(c) => self.spec_cwd() == Some(c@),
                None => self.spec_cwd() is None,
            },
    {
        &self.cwd
    }

    /// The program name, argument 0, terminated.
    pub fn get_program_cstr(&self) -> (r: &[u8])
        ensures
            r@ == self.spec_program(),
    {
        self.program.as_slice()
    }

    /// The terminated argument vector, argument 0 first.
    pub fn get_argv(&self) -> (r: &Vec<Vec<u8>>)
        ensures
            argv_view(r@) == self.spec_argv(),
    {
        &self.argv
    }

    /// The display name.
    pub fn get_name(&self) -> (r: &[u8])
        ensures
            r@ == self.spec_name(),
    {
        self.name.as_slice()
    }

    /// The image to run.
    pub fn get_code(&self) -> (r: &'a [u8])
        ensures
            r@ == self.spec_code(),
    {
        self.code
    }

    /// Whether the environment changes may have changed `PATH`.
    pub fn env_saw_path(&self) -> (r: bool)
        ensures
            r == (self.spec_env().spec_saw_path() || self.spec_env().spec_clear()),
    {
        self.env.have_changed_path()
    }

    /// Whether the program name holds a `/`, so names a path.
    pub fn program_is_path(&self) -> (r: bool)
        ensures
            r == exists|i: int| 0 <= i < self.spec_program().len() && self.spec_program()[i] == 47u8,
    {
        let mut i: usize = 0;
        while i < self.program.len()
            invariant
                i <= self.program@.len(),
                forall|j: int| 0 <= j < i ==> self.program@[j] != 47u8,
            decreases self.program.len() - i,
        {
            if self.program[i] == 47u8 {
                assert(self.spec_program()[i as int] == 47u8);
                return true;
            }
            i = i + 1;
        }
        false
    }

    /// The exec-time environment, given this process's own: `None` when the child
    /// inherits it unchanged. An entry that holds a NUL is left out and raises the flag.
    pub fn capture_env(&mut self, inherited: &Vec<(Vec<u8>, Vec<u8>)>) -> (r: Option<Vec<Vec<u8>>>)
        requires
            old(self).wf(),
        ensures
            final(self).wf(),
            r is None <==> spec_unchanged(old(self).spec_env()),
            r is Some ==> argv_view(r->Some_0@) == spec_envp(
                spec_captured(old(self).spec_env(), inherited@),
            ),
            final(self).spec_saw_nul() == (old(self).spec_saw_nul() || (!spec_unchanged(
                old(self).spec_env(),
            ) && env_has_nul(spec_captured(old(self).spec_env(), inherited@)))),
            final(self).spec_argv() == old(self).spec_argv(),
            final(self).spec_program() == old(self).spec_program(),
            final(self).spec_env() == old(self).spec_env(),
            final(self).spec_cwd() == old(self).spec_cwd(),
            final(self).spec_code() == old(self).spec_code(),
            final(self).spec_name() == old(self).spec_name(),
            final(self).spec_stdin() == old(self).spec_stdin(),
            final(self).spec_stdout() == old(self).spec_stdout(),
            final(self).spec_stderr() == old(self).spec_stderr(),
    {
        match self.env.capture_if_changed(inherited) {
            Some(env) => Some(construct_envp(&env, &mut self.saw_nul)),
            None => None,
        }
    }

    /// Everything a launch needs before it forks: the exec-time environment, or
    /// `InvalidInput` when any input held a NUL; then nothing is launched.
    pub fn prepare_launch(&mut self, inherited: &Vec<(Vec<u8>, Vec<u8>)>) -> (r: Result<
        Option<Vec<Vec<u8>>>,
        Error,
    >)
        requires
            old(self).wf(),
        ensures
            final(self).wf(),
            prepare_post(*old(self), *final(self), inherited@, r),
            final(self).spec_argv() == old(self).spec_argv(),
            final(self).spec_program() == old(self).spec_program(),
            final(self).spec_env() == old(self).spec_env(),
            final(self).spec_cwd() == old(self).spec_cwd(),
            final(self).spec_code() == old(self).spec_code(),
            final(self).spec_stdin() == old(self).spec_stdin(),
            final(self).spec_stdout() == old(self).spec_stdout(),
            final(self).spec_stderr() == old(self).spec_stderr(),
            final(self).spec_name() == old(self).spec_name(),
    {
        let envp = self.capture_env(inherited);
        if self.saw_nul {
            Err(Error::InvalidInput)
        } else {
            Ok(envp)
        }
    }

    /// The modes of stdin, stdout and stderr for a launch whose default is
    /// `default`; stdin falls back to the null device when the launch needs none.
    pub fn resolve_stdio(&self, default: Stdio, needs_stdin: bool) -> (r: (Stdio, Stdio, Stdio))
        ensures
            r.0 == (match self.spec_stdin() {
                Some(s) => s,
                None => if needs_stdin {
                    default
                } else {
                    Stdio::Null
                },
            }),
            r.1 == (match self.spec_stdout() {
                Some(s) => s,
                None => default,
            }),
            r.2 == (match self.spec_stderr() {
                Some(s) => s,
                None => default,
            }),
    {
        let default_stdin = if needs_stdin {
            default
        } else {
            Stdio::Null
        };
        let stdin = match self.stdin {
            Some(s) => s,
            None => default_stdin,
        };
        let stdout = match self.stdout {
            Some(s) => s,
            None => default,
        };
        let stderr = match self.stderr {
            Some(s) => s,
            None => default,
        };
        (stdin, stdout, stderr)
    }
}

/// What the pre-fork step of a launch does: it fails with `InvalidInput`
/// exactly when some input, or an entry of the environment the child would get,
/// held a NUL; else it hands out that environment (`None` to inherit).
pub open spec fn prepare_post(
    pre: MemFdExecutable,
    post: MemFdExecutable,
    inherited: Seq<(Vec<u8>, Vec<u8>)>,
    r: Result<Option<Vec<Vec<u8>>>, Error>,
) -> bool {
    &&& post.spec_saw_nul() == (pre.spec_saw_nul() || (!spec_unchanged(pre.spec_env())
        && env_has_nul(spec_captured(pre.spec_env(), inherited))))
    &&& (r is Err <==> post.spec_saw_nul())
    &&& r is Err ==> r->Err_0 == Error::InvalidInput
    &&& r matches Ok(envp) ==> (envp is None <==> spec_unchanged(pre.spec_env()))
    &&& r matches Ok(Some(envp)) ==> argv_view(envp@) == spec_envp(
        spec_captured(pre.spec_env(), inherited),
    )
}

/// An argument that holds a NUL makes the next launch fail with `InvalidInput`
/// before anything is forked.
pub proof fn lemma_nul_argument_refused(
    p0: MemFdExecutable,
    p1: MemFdExecutable,
    p2: MemFdExecutable,
    a: Seq<u8>,
    inherited: Seq<(Vec<u8>, Vec<u8>)>,
    r: Result<Option<Vec<Vec<u8>>>, Error>,
)
    requires
        has_nul(a),
        p1.spec_saw_nul() == (p0.spec_saw_nul() || has_nul(a)),
        prepare_post(p1, p2, inherited, r),
    ensures
        r == Err::<Option<Vec<Vec<u8>>>, Error>(Error::InvalidInput),
{
}

/// An entry of the child's environment that holds a NUL makes the launch fail
/// with `InvalidInput` before anything is forked.
pub proof fn lemma_nul_environment_refused(
    pre: MemFdExecutable,
    post: MemFdExecutable,
    inherited: Seq<(Vec<u8>, Vec<u8>)>,
    r: Result<Option<Vec<Vec<u8>>>, Error>,
)
    requires
        !spec_unchanged(pre.spec_env()),
        env_has_nul(spec_captured(pre.spec_env(), inherited)),
        prepare_post(pre, post, inherited, r),
    ensures
        r == Err::<Option<Vec<Vec<u8>>>, Error>(Error::InvalidInput),
{
}

/// Without a NUL anywhere, the launch goes ahead, and argument 0 the child sees
/// is the program name, byte for byte, then a NUL.
pub proof fn lemma_clean_request_launches(
    pre: MemFdExecutable,
    post: MemFdExecutable,
    name: Seq<u8>,
    inherited: Seq<(Vec<u8>, Vec<u8>)>,
    r: Result<Option<Vec<Vec<u8>>>, Error>,
)
    requires
        pre.wf(),
        !pre.spec_saw_nul(),
        !has_nul(name),
        pre.spec_program() == spec_cstr(name),
        spec_unchanged(pre.spec_env()) || !env_has_nul(spec_captured(pre.spec_env(), inherited)),
        prepare_post(pre, post, inherited, r),
        post.spec_argv() == pre.spec_argv(),
    ensures
        r is Ok,
        post.spec_argv()[0] == name.push(0u8),
{
    pre.reveal_argv0_of();
}

} // verus!
