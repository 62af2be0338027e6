//! A plain description of a process to run, and what running it reported.

use vstd::prelude::*;
use vstd::string::*;

use crate::error::{fails_with, Error};

verus! {

/// Where a child process's standard stream goes.
#[derive(Clone, Copy, Debug, PartialEq, Eq)]
pub enum Stdio {
    Inherit,
    Null,
    Piped,
}

/// A process invocation: the program, its arguments in order, and the
/// standard streams that were set explicitly (`None` keeps the default of the
/// way the process is run).
#[derive(Debug, PartialEq, Eq)]
pub struct CommandSpec {
    pub program: String,
    pub args: Vec<String>,
    pub stdout: Option<Stdio>,
    pub stderr: Option<Stdio>,
}

/// The mathematical value of a [`CommandSpec`].
#[verifier::ext_equal]
pub struct CommandView {
    pub program: Seq<char>,
    pub args: Seq<Seq<char>>,
    pub stdout: Option<Stdio>,
    pub stderr: Option<Stdio>,
}

impl View for CommandSpec {
    type V = CommandView;

    open spec fn view(&self) -> CommandView {
        CommandView {
            program: self.program@,
            args: self.args.deep_view(),
            stdout: self.stdout,
            stderr: self.stderr,
        }
    }
}

/// A command with the given program and arguments and no stream set.
pub open spec fn command(program: Seq<char>, args: Seq<Seq<char>>) -> CommandView {
    CommandView { program, args, stdout: None, stderr: None }
}

impl CommandView {
    pub open spec fn with_stdout(self, s: Stdio) -> CommandView {
        CommandView { stdout: Some(s), ..self }
    }

    pub open spec fn with_stderr(self, s: Stdio) -> CommandView {
        CommandView { stderr: Some(s), ..self }
    }
}

impl CommandSpec {
    /// `Command::new(program)`.
    pub fn new(program: &str) -> (r: CommandSpec)
        ensures
            r@ == command(program@, Seq::empty()),
    {
        let r = CommandSpec { program: String::from_str(program), args: Vec::new(), stdout: None, stderr: None };
        proof {
            assert(r.args.deep_view() =~= Seq::<Seq<char>>::empty());
        }
        r
    }

    /// `Command::arg`: appends one argument.
    pub fn arg(&mut self, a: &str)
        ensures
            final(self)@ == (CommandView { args: old(self)@.args.push(a@), ..old(self)@ }),
    {
        self.args.push(String::from_str(a));
        proof {
            assert(self.args.deep_view() =~= old(self).args.deep_view().push(a@));
        }
    }

    /// `Command::args`: appends the arguments in order.
    pub fn args(&mut self, a: &Vec<String>)
        ensures
            final(self)@ == (CommandView { args: old(self)@.args + a.deep_view(), ..old(self)@ }),
    {
        let mut i: usize = 0;
        while i < a.len()
            invariant
                i <= a.len(),
                self@ == (CommandView {
                    args: old(self)@.args + a.deep_view().take(i as int),
                    ..old(self)@
                }),
            decreases a.len() - i,
        {
            self.arg(a[i].as_str());
            i = i + 1;
            proof {
                assert(a.deep_view().take(i as int) =~= a.deep_view().take(i - 1).push(a[i - 1]@));
                assert(old(self)@.args + a.deep_view().take(i as int) =~= (old(self)@.args
                    + a.deep_view().take(i - 1)).push(a[i - 1]@));
            }
        }
        proof {
            assert(a.deep_view().take(a.len() as int) =~= a.deep_view());
        }
    }

    /// `Command::stdout`.
    pub fn set_stdout(&mut self, s: Stdio)
        ensures
            final(self)@ == old(self)@.with_stdout(s),
    {
        self.stdout = Some(s);
    }

    /// `Command::stderr`.
    pub fn set_stderr(&mut self, s: Stdio)
        ensures
            final(self)@ == old(self)@.with_stderr(s),
    {
        self.stderr = Some(s);
    }
}

/// What a finished process reported: whether its exit status was success,
/// and what it wrote to its standard output.
#[derive(Debug, PartialEq, Eq)]
pub struct ProcessOutput {
    pub success: bool,
    pub stdout: Vec<u8>,
}

/// The check that follows running a command for its output: the output is
/// handed back when the process exited successfully, and an error carrying
/// `msg` is given when it did not.
pub fn error_for_status(output: ProcessOutput, msg: &str) -> (r: Result<ProcessOutput, Error>)
    ensures
        output.success ==> r == Ok::<ProcessOutput, Error>(output),
        !output.success ==> fails_with(r, msg@),
{
    if output.success {
        Ok(output)
    } else {
        Err(Error::message(msg))
    }
}

} // verus!
