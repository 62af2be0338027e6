//! Building a nix-darwin system with `nix build` (or `nom build`).

use vstd::prelude::*;
use vstd::string::*;

use crate::cli::{BuildRequest, BuildRequestView};
use crate::error::{fails_with, Error};
use crate::path::{join, join_path};
use crate::util::{command, CommandSpec, ProcessOutput, Stdio};

verus! {

/// The `outputs` record of one entry of `nix build --json`.
#[derive(Debug, PartialEq, Eq)]
pub struct NixOutputsData {
    pub out: String,
}

/// One entry of `nix build --json`.
#[derive(Debug, PartialEq, Eq)]
pub struct NixTopLevelData {
    pub outputs: NixOutputsData,
}

/// The installable that names the system of configuration `attr` in flake `url`.
pub open spec fn flake_ref(url: Seq<char>, attr: Seq<char>) -> Seq<char> {
    url + "#"@ + attr + ".system"@
}

/// The fixed flags of every build: JSON output, no `result` link, and the
/// experimental features that flakes need.
pub open spec fn build_flags() -> Seq<Seq<char>> {
    seq![
        "build"@,
        "--json"@,
        "--no-link"@,
        "--extra-experimental-features"@,
        "nix-command"@,
        "--extra-experimental-features"@,
        "flakes"@,
    ]
}

/// The arguments of a build: the fixed flags, the extra flags, `--`, and
/// the installable.
pub open spec fn build_args(req: BuildRequestView) -> Seq<Seq<char>> {
    build_flags() + req.extra_build_flags + seq!["--"@, flake_ref(req.flake_url, req.flake_attr)]
}

/// The command that builds the requested system, with standard error shown.
pub fn build_command(req: &BuildRequest) -> (r: CommandSpec)
    ensures
        r@ == command(req.program@, build_args(req@)).with_stderr(Stdio::Inherit),
{
    let mut c = CommandSpec::new(req.program.as_str());
    c.arg("build");
    c.arg("--json");
    c.arg("--no-link");
    c.arg("--extra-experimental-features");
    c.arg("nix-command");
    c.arg("--extra-experimental-features");
    c.arg("flakes");
    proof {
        assert(c@.args =~= build_flags());
    }
    c.args(&req.extra_build_flags);
    let mut installable = String::from_str(req.flake_url.as_str());
    installable.append("#");
    installable.append(req.flake_attr.as_str());
    installable.append(".system");
    c.arg("--");
    c.arg(installable.as_str());
    c.set_stderr(Stdio::Inherit);
    proof {
        assert(c@.args =~= build_args(req@));
    }
    c
}

/// The store path in the first entry of a `nix build --json` report.
pub open spec fn first_out(data: Seq<NixTopLevelData>) -> Option<Seq<char>> {
    if data.len() > 0 {
        Some(data[0].outputs.out@)
    } else {
        None
    }
}

/// The store path a build produced, from what the build process reported
/// and its output read as JSON. A failed process, a JSON error and an
/// empty report are errors, in that order; the first two carry `msg`.
pub fn build_outcome(output: &ProcessOutput, data: Result<Vec<NixTopLevelData>, Error>, msg: &str) -> (r: Result<String, Error>)
    ensures
        !output.success ==> fails_with(r, msg@),
        output.success ==> match data {
            Err(e) => r == Err::<String, Error>(e),
            Ok(d) => match first_out(d@) {
                Some(o) => (r matches Ok(s) && s@ == o),
                None => fails_with(r, msg@),
            },
        },
{
    if !output.success {
        return Err(Error::message(msg));
    }
    let d = data?;
    if d.len() == 0 {
        return Err(Error::message(msg));
    }
    Ok(d[0].outputs.out.clone())
}

pub open spec fn build_failure() -> Seq<char> {
    "failed to build system with nix"@
}

/// The store path of a system build (see [`build_outcome`]).
pub fn build_result(output: &ProcessOutput, data: Result<Vec<NixTopLevelData>, Error>) -> (r: Result<String, Error>)
    ensures
        !output.success ==> fails_with(r, build_failure()),
        output.success ==> match data {
            Err(e) => r == Err::<String, Error>(e),
            Ok(d) => match first_out(d@) {
                Some(o) => (r matches Ok(s) && s@ == o),
                None => fails_with(r, build_failure()),
            },
        },
{
    build_outcome(output, data, "failed to build system with nix")
}

/// Where `morlana build` links the result: `result` in the working directory.
pub fn result_link(cwd: &str) -> (r: String)
    ensures
        r@ == join(cwd@, "result"@),
{
    join_path(cwd, "result")
}

} // verus!
