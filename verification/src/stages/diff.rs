//! Showing what changes between the running system and a new one.

use vstd::prelude::*;
use vstd::string::*;

use crate::error::{fails_with, Error};
use crate::util::{command, error_for_status, CommandSpec, CommandView, ProcessOutput, Stdio};

verus! {

/// The running system.
pub open spec fn current_system() -> Seq<char> {
    "/run/current-system"@
}

/// `nvd diff /run/current-system <out>`, both streams shown.
pub open spec fn nvd_view(out: Seq<char>) -> CommandView {
    command("nvd"@, seq!["diff"@, current_system(), out]).with_stdout(Stdio::Inherit).with_stderr(Stdio::Inherit)
}

pub open spec fn nvd_failure() -> Seq<char> {
    "failed to diff with nvd"@
}

/// How the diff went, from what `nvd` reported (see [`error_for_status`]).
pub fn nvd_status(output: ProcessOutput) -> (r: Result<(), Error>)
    ensures
        !output.success ==> fails_with(r, nvd_failure()),
        output.success ==> r is Ok,
{
    match error_for_status(output, "failed to diff with nvd") {
        Ok(_) => Ok(()),
        Err(e) => Err(e),
    }
}

/// The diff of the running system against `out`; there is nothing to run
/// when no system is running yet.
pub fn nvd(out: &str, current_exists: bool) -> (r: Option<CommandSpec>)
    ensures
        current_exists ==> (r matches Some(c) && c@ == nvd_view(out@)),
        !current_exists ==> r is None,
{
    if !current_exists {
        return None;
    }
    let mut c = CommandSpec::new("nvd");
    c.arg("diff");
    c.arg("/run/current-system");
    c.arg(out);
    c.set_stdout(Stdio::Inherit);
    c.set_stderr(Stdio::Inherit);
    proof {
        assert(c@.args =~= seq!["diff"@, current_system(), out@]);
    }
    Some(c)
}

} // verus!
