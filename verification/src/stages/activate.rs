//! Activating a built system.

use vstd::prelude::*;
use vstd::string::*;

use crate::path::{join, join_path};
use crate::error::{fails_with, Error};
use crate::util::{
    command, error_for_status, sudo_cmd, sudo_cmd_as, sudo_view, CommandSpec, CommandView, ProcessOutput, Stdio,
};

verus! {

/// `darwin-rebuild` inside the system at `out`.
pub open spec fn darwin_rebuild(out: Seq<char>) -> Seq<char> {
    join(join(join(out, "sw"@), "bin"@), "darwin-rebuild"@)
}

/// The file whose presence means the system still activates per user.
pub open spec fn activate_user_marker(out: Seq<char>) -> Seq<char> {
    join(out, "activate-user"@)
}

/// `darwin-rebuild activate`: as root when the system has no per-user
/// activation, else as the current user; both streams shown.
pub open spec fn activate_view(out: Seq<char>, has_activate_user: bool, is_root: bool) -> CommandView {
    let base = if has_activate_user {
        command(darwin_rebuild(out), Seq::empty())
    } else {
        sudo_view(darwin_rebuild(out), is_root)
    };
    CommandView { args: base.args.push("activate"@), ..base }.with_stdout(Stdio::Inherit).with_stderr(Stdio::Inherit)
}

pub open spec fn activate_failure() -> Seq<char> {
    "failed to activate"@
}

/// How the activation went, from what `darwin-rebuild` reported (see
/// [`error_for_status`]).
pub fn activate_status(output: ProcessOutput) -> (r: Result<(), Error>)
    ensures
        !output.success ==> fails_with(r, activate_failure()),
        output.success ==> r is Ok,
{
    match error_for_status(output, "failed to activate") {
        Ok(_) => Ok(()),
        Err(e) => Err(e),
    }
}

pub fn activate_marker(out: &str) -> (r: String)
    ensures
        r@ == activate_user_marker(out@),
{
    join_path(out, "activate-user")
}

fn darwin_rebuild_path(out: &str) -> (r: String)
    ensures
        r@ == darwin_rebuild(out@),
{
    let sw = join_path(out, "sw");
    let bin = join_path(sw.as_str(), "bin");
    join_path(bin.as_str(), "darwin-rebuild")
}

fn finish_activate(c: &mut CommandSpec)
    ensures
        final(c)@ == (CommandView { args: old(c)@.args.push("activate"@), ..old(c)@ }).with_stdout(Stdio::Inherit).with_stderr(Stdio::Inherit),
{
    c.arg("activate");
    c.set_stdout(Stdio::Inherit);
    c.set_stderr(Stdio::Inherit);
}

/// The activation command, given whether the per-user activation file
/// exists and whether the process is root.
pub fn activate_command_as(out: &str, has_activate_user: bool, is_root: bool) -> (r: CommandSpec)
    ensures
        r@ == activate_view(out@, has_activate_user, is_root),
{
    let dr = darwin_rebuild_path(out);
    let mut c = if has_activate_user {
        CommandSpec::new(dr.as_str())
    } else {
        sudo_cmd_as(dr.as_str(), is_root)
    };
    finish_activate(&mut c);
    c
}

/// The activation command, given whether the per-user activation file exists.
pub fn activate(out: &str, has_activate_user: bool) -> (r: CommandSpec)
    ensures
        r@ == activate_view(out@, has_activate_user, true) || r@ == activate_view(out@, has_activate_user, false),
{
    let dr = darwin_rebuild_path(out);
    let mut c = if has_activate_user {
        CommandSpec::new(dr.as_str())
    } else {
        sudo_cmd(dr.as_str())
    };
    finish_activate(&mut c);
    c
}

/// The per-user activation of the system at `out`: its `activate-user`
/// script, run as the current user with both streams shown.
pub open spec fn activate_user_view(out: Seq<char>) -> CommandView {
    command(activate_user_marker(out), Seq::empty()).with_stdout(Stdio::Inherit).with_stderr(Stdio::Inherit)
}

pub open spec fn activate_user_failure() -> Seq<char> {
    "failed to activate user"@
}

/// How the user activation went, from what `activate-user` reported (see
/// [`error_for_status`]).
pub fn activate_user_status(output: ProcessOutput) -> (r: Result<(), Error>)
    ensures
        !output.success ==> fails_with(r, activate_user_failure()),
        output.success ==> r is Ok,
{
    match error_for_status(output, "failed to activate user") {
        Ok(_) => Ok(()),
        Err(e) => Err(e),
    }
}

pub fn activate_user_command(out: &str) -> (r: CommandSpec)
    ensures
        r@ == activate_user_view(out@),
{
    let script = activate_marker(out);
    let mut c = CommandSpec::new(script.as_str());
    c.set_stdout(Stdio::Inherit);
    c.set_stderr(Stdio::Inherit);
    c
}

} // verus!
