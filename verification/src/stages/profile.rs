//! Pointing a Nix profile at a system.

use vstd::prelude::*;
use vstd::string::*;

use crate::error::{fails_with, Error};
use crate::util::{error_for_status, sudo_cmd, sudo_cmd_as, sudo_view, CommandSpec, CommandView, ProcessOutput, Stdio};

verus! {

/// `nix-env -p <profile> --set <out>`, run as root, with standard error shown.
pub open spec fn profile_view(profile: Seq<char>, out: Seq<char>, is_root: bool) -> CommandView {
    let base = sudo_view("nix-env"@, is_root);
    CommandView { args: base.args + seq!["-p"@, profile, "--set"@, out], ..base }.with_stderr(Stdio::Inherit)
}

pub open spec fn profile_failure() -> Seq<char> {
    "failed to set system with nix-env"@
}

/// How setting the profile went, from what `nix-env` reported (see
/// [`error_for_status`]).
pub fn profile_status(output: ProcessOutput) -> (r: Result<(), Error>)
    ensures
        !output.success ==> fails_with(r, profile_failure()),
        output.success ==> r is Ok,
{
    match error_for_status(output, "failed to set system with nix-env") {
        Ok(_) => Ok(()),
        Err(e) => Err(e),
    }
}

fn profile_args(c: &mut CommandSpec, profile: &str, out: &str)
    ensures
        final(c)@ == (CommandView { args: old(c)@.args + seq!["-p"@, profile@, "--set"@, out@], ..old(c)@ }).with_stderr(Stdio::Inherit),
{
    c.arg("-p");
    c.arg(profile);
    c.arg("--set");
    c.arg(out);
    c.set_stderr(Stdio::Inherit);
    proof {
        assert(c@.args =~= old(c)@.args + seq!["-p"@, profile@, "--set"@, out@]);
    }
}

/// The command that sets `profile` to `out`, given whether the process is root.
pub fn profile_command_as(profile: &str, out: &str, is_root: bool) -> (r: CommandSpec)
    ensures
        r@ == profile_view(profile@, out@, is_root),
{
    let mut c = sudo_cmd_as("nix-env", is_root);
    profile_args(&mut c, profile, out);
    c
}

/// The command that sets the profile at `profile_path` to `out`.
pub fn profile(profile_path: &str, out: &str) -> (r: CommandSpec)
    ensures
        r@ == profile_view(profile_path@, out@, true) || r@ == profile_view(profile_path@, out@, false),
{
    let mut c = sudo_cmd("nix-env");
    profile_args(&mut c, profile_path, out);
    c
}

} // verus!
