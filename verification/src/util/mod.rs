//! Helpers shared by the stages and subcommands.

use vstd::prelude::*;
use vstd::string::*;

use vstd::utf8::{decode_utf8, valid_utf8};

use crate::error::{fails_with, Error, ErrorView};
use crate::path::{join, join_path, split_colon, split_colon_str};
use crate::text::{trim, trim_str};

pub mod command_ext;
pub mod log;

pub use command_ext::{error_for_status, CommandSpec, CommandView, ProcessOutput, Stdio, command};

verus! {

/// The files that a `PATH` lookup for `exe_name` tries, in order: `exe_name`
/// joined onto each `:`-separated piece of `path_var`.
pub open spec fn path_candidates(path_var: Seq<char>, exe_name: Seq<char>) -> Seq<Seq<char>> {
    split_colon(path_var).map_values(|d: Seq<char>| join(d, exe_name))
}

/// The candidates of a `PATH` lookup, to be probed in order.
pub fn search_path(path_var: &str, exe_name: &str) -> (r: Vec<String>)
    ensures
        r.deep_view() == path_candidates(path_var@, exe_name@),
{
    let dirs = split_colon_str(path_var);
    let mut r: Vec<String> = Vec::new();
    let mut i: usize = 0;
    while i < dirs.len()
        invariant
            i <= dirs.len(),
            dirs.deep_view() == split_colon(path_var@),
            r.deep_view() == path_candidates(path_var@, exe_name@).take(i as int),
        decreases dirs.len() - i,
    {
        let c = join_path(dirs[i].as_str(), exe_name);
        let ghost old_r = r.deep_view();
        r.push(c);
        i = i + 1;
        proof {
            let pc = path_candidates(path_var@, exe_name@);
            assert(dirs.deep_view()[i - 1] == dirs[i - 1]@);
            assert(pc[i - 1] == join(dirs[i - 1]@, exe_name@));
            assert(r.deep_view() =~= old_r.push(pc[i - 1]));
            assert(pc.take(i as int) =~= pc.take(i - 1).push(pc[i - 1]));
        }
    }
    proof {
        assert(path_candidates(path_var@, exe_name@).take(i as int) =~= path_candidates(path_var@, exe_name@));
    }
    r
}

/// Index of the first candidate that is a file, or -1 when none is.
pub open spec fn first_file(is_file: Seq<bool>) -> int
    decreases is_file.len(),
{
    if is_file.len() == 0 {
        -1
    } else if is_file[0] {
        0
    } else {
        let r = first_file(is_file.drop_first());
        if r < 0 { -1 } else { r + 1 }
    }
}

pub proof fn lemma_first_file(is_file: Seq<bool>)
    ensures
        -1 <= first_file(is_file) < is_file.len(),
        first_file(is_file) >= 0 ==> is_file[first_file(is_file)],
        forall|k: int| 0 <= k < is_file.len() && (first_file(is_file) < 0 || k < first_file(is_file)) ==> !is_file[k],
    decreases is_file.len(),
{
    if is_file.len() > 0 && !is_file[0] {
        let t = is_file.drop_first();
        lemma_first_file(t);
        assert forall|k: int| 0 <= k < is_file.len() && (first_file(is_file) < 0 || k < first_file(is_file)) implies !is_file[k] by {
            if k > 0 {
                assert(is_file[k] == t[k - 1]);
            }
        }
    }
}

/// The text held by an optional owned string.
pub open spec fn string_opt_view(o: Option<String>) -> Option<Seq<char>> {
    match o {
        Some(s) => Some(s@),
        None => None,
    }
}

/// The text held by an optional string.
pub open spec fn str_opt_view(o: Option<&str>) -> Option<Seq<char>> {
    match o {
        Some(s) => Some(s@),
        None => None,
    }
}

/// What a `PATH` lookup finds: the first candidate that is a file.
pub open spec fn which_spec(path_var: Option<Seq<char>>, exe_name: Seq<char>, is_file: Seq<bool>) -> Option<Seq<char>> {
    match path_var {
        None => None,
        Some(p) => {
            let k = first_file(is_file);
            if k < 0 { None } else { Some(path_candidates(p, exe_name)[k]) }
        },
    }
}

/// The length the probe results of a `PATH` lookup must have.
pub open spec fn probes_match(path_var: Option<Seq<char>>, exe_name: Seq<char>, is_file: Seq<bool>) -> bool {
    path_var matches Some(p) ==> is_file.len() == path_candidates(p, exe_name).len()
}

/// Looks `exe_name` up on `path_var` (the value of `PATH`, if set). `is_file`
/// tells, for each candidate of [`search_path`] in order, whether it is a file;
/// the first one that is, is the answer.
pub fn which(path_var: Option<&str>, exe_name: &str, is_file: &Vec<bool>) -> (r: Option<String>)
    requires
        probes_match(str_opt_view(path_var), exe_name@, is_file@),
    ensures
        string_opt_view(r) == which_spec(str_opt_view(path_var), exe_name@, is_file@),
{
    match path_var {
        None => None,
        Some(p) => {
            let cands = search_path(p, exe_name);
            let mut i: usize = 0;
            while i < is_file.len() && !is_file[i]
                invariant
                    i <= is_file.len(),
                    forall|k: int| 0 <= k < i ==> !is_file@[k],
                decreases is_file.len() - i,
            {
                i = i + 1;
            }
            proof {
                lemma_first_file(is_file@);
            }
            if i < is_file.len() {
                proof {
                    assert(cands.deep_view()[i as int] == cands[i as int]@);
                }
                Some(cands[i].clone())
            } else {
                None
            }
        },
    }
}

/// Whether `nom` (nix-output-monitor) is on `PATH`.
pub fn nom_available(path_var: Option<&str>, is_file: &Vec<bool>) -> (r: bool)
    requires
        probes_match(str_opt_view(path_var), "nom"@, is_file@),
    ensures
        r == which_spec(str_opt_view(path_var), "nom"@, is_file@) is Some,
{
    which(path_var, "nom", is_file).is_some()
}

/// Whether `nvd` is on `PATH`.
pub fn nvd_available(path_var: Option<&str>, is_file: &Vec<bool>) -> (r: bool)
    requires
        probes_match(str_opt_view(path_var), "nvd"@, is_file@),
    ensures
        r == which_spec(str_opt_view(path_var), "nvd"@, is_file@) is Some,
{
    which(path_var, "nvd", is_file).is_some()
}

} // verus!

verus! {

/// `nix::unistd::Uid::effective().is_root()`: whether the process runs with
/// effective user id 0. The answer depends on how the process was started,
/// so nothing is stated of it.
#[verifier::external_body]
fn effective_uid_is_root() -> bool {
    nix::unistd::Uid::effective().is_root()
}

/// `String::from_utf8`: it succeeds exactly on valid UTF-8, with the text
/// the bytes encode. On failure it gives std's description of the error,
/// whose wording is not stated here.
#[verifier::external_body]
fn string_from_utf8(bytes: Vec<u8>) -> (r: Result<String, String>)
    ensures
        r is Ok <==> valid_utf8(bytes@),
        r matches Ok(s) ==> s@ == decode_utf8(bytes@),
{
    String::from_utf8(bytes).map_err(|e| e.to_string())
}

/// `program` run as root: directly when already root, else through
/// `sudo -H`.
pub open spec fn sudo_view(program: Seq<char>, is_root: bool) -> CommandView {
    if is_root {
        command(program, Seq::empty())
    } else {
        command("sudo"@, seq!["-H"@, program])
    }
}

/// The command that runs `program` as root, given whether the process
/// already is root.
pub fn sudo_cmd_as(program: &str, is_root: bool) -> (r: CommandSpec)
    ensures
        r@ == sudo_view(program@, is_root),
{
    if is_root {
        return CommandSpec::new(program);
    }
    let mut c = CommandSpec::new("sudo");
    c.arg("-H");
    c.arg(program);
    proof {
        assert(c@.args =~= seq!["-H"@, program@]);
    }
    c
}

/// The command that runs `program` as root: plain when the process is root,
/// through `sudo -H` otherwise.
pub fn sudo_cmd(program: &str) -> (r: CommandSpec)
    ensures
        r@ == sudo_view(program@, true) || r@ == sudo_view(program@, false),
{
    sudo_cmd_as(program, effective_uid_is_root())
}

/// `scutil --get LocalHostName`, with standard error shown.
pub fn hostname_command() -> (r: CommandSpec)
    ensures
        r@ == command("scutil"@, seq!["--get"@, "LocalHostName"@]).with_stderr(Stdio::Inherit),
{
    let mut c = CommandSpec::new("scutil");
    c.arg("--get");
    c.arg("LocalHostName");
    c.set_stderr(Stdio::Inherit);
    proof {
        assert(c@.args =~= seq!["--get"@, "LocalHostName"@]);
    }
    c
}

pub open spec fn hostname_failure() -> Seq<char> {
    "failed to obtain hostname from scutil"@
}

/// The host name from what `scutil` reported: the status check of
/// [`error_for_status`], then the output read as UTF-8 and trimmed.
pub fn hostname(output: ProcessOutput) -> (r: Result<String, Error>)
    ensures
        !output.success ==> fails_with(r, hostname_failure()),
        output.success && valid_utf8(output.stdout@) ==> (r matches Ok(h) && h@ == trim(decode_utf8(output.stdout@))),
        output.success && !valid_utf8(output.stdout@) ==> r matches Err(Error::Parse(_)),
{
    let out = error_for_status(output, "failed to obtain hostname from scutil")?;
    match string_from_utf8(out.stdout) {
        Ok(s) => Ok(trim_str(s.as_str())),
        Err(e) => Err(Error::Parse(e)),
    }
}

/// The `--json` record of `nix flake metadata` that matters here.
#[derive(Debug, PartialEq, Eq)]
pub struct NixFlakeMetadata {
    pub resolved_url: String,
}

/// `nix flake metadata --json`, with standard error shown.
pub fn default_flake_command() -> (r: CommandSpec)
    ensures
        r@ == command("nix"@, seq!["flake"@, "metadata"@, "--json"@]).with_stderr(Stdio::Inherit),
{
    let mut c = CommandSpec::new("nix");
    c.arg("flake");
    c.arg("metadata");
    c.arg("--json");
    c.set_stderr(Stdio::Inherit);
    proof {
        assert(c@.args =~= seq!["flake"@, "metadata"@, "--json"@]);
    }
    c
}

pub open spec fn default_flake_failure() -> Seq<char> {
    "failed to obtain flake metadata"@
}

/// The resolved URL of the default flake, from what `nix flake metadata`
/// reported and its output read as JSON: the status check comes first.
pub fn default_flake(output: ProcessOutput, metadata: Result<NixFlakeMetadata, Error>) -> (r: Result<String, Error>)
    ensures
        !output.success ==> fails_with(r, default_flake_failure()),
        output.success ==> match metadata {
            Ok(m) => (r matches Ok(u) && u@ == m.resolved_url@),
            Err(e) => r == Err::<String, Error>(e),
        },
{
    let _ = error_for_status(output, "failed to obtain flake metadata")?;
    let m = metadata?;
    Ok(m.resolved_url)
}

/// What a file system operation reported.
#[derive(Debug, PartialEq, Eq)]
pub enum FsOutcome {
    /// It succeeded.
    Done,
    /// The path did not exist.
    NotFound,
    /// It failed otherwise, with this description.
    Failed(String),
}

/// The result of removing a file that may be missing: only a failure other
/// than a missing file is an error.
pub fn safe_remove_file(outcome: FsOutcome) -> (r: Result<(), Error>)
    ensures
        outcome is Failed ==> (r matches Err(e) && e@ == ErrorView::Io(outcome->Failed_0@)),
        !(outcome is Failed) ==> r is Ok,
{
    match outcome {
        FsOutcome::Failed(m) => Err(Error::Io(m)),
        _ => Ok(()),
    }
}

pub open spec fn no_state_home_message() -> Seq<char> {
    "could not obtain XDG_STATE_HOME from home directory"@
}

/// The user's state directory: `$XDG_STATE_HOME` when set, else
/// `.local/state` under the home directory.
pub fn state_home(xdg_state_home: Option<String>, home: Option<String>) -> (r: Result<String, Error>)
    ensures
        match xdg_state_home {
            Some(x) => r matches Ok(s) && s@ == x@,
            None => match home {
                Some(h) => r matches Ok(s) && s@ == join(h@, ".local/state"@),
                None => fails_with(r, no_state_home_message()),
            },
        },
{
    match xdg_state_home {
        Some(x) => Ok(x),
        None => match home {
            Some(h) => Ok(join_path(h.as_str(), ".local/state")),
            None => Err(Error::message("could not obtain XDG_STATE_HOME from home directory")),
        },
    }
}

/// The argument list that re-runs the program as root:
/// `sudo -H [env RUST_BACKTRACE=<value>] <args...>`.
pub open spec fn reexec_argv_spec(args: Seq<Seq<char>>, rust_backtrace: Option<Seq<char>>) -> Seq<Seq<char>> {
    let head = seq!["sudo"@, "-H"@];
    let env = match rust_backtrace {
        Some(v) => seq!["env"@, "RUST_BACKTRACE="@ + v],
        None => Seq::empty(),
    };
    head + env + args
}

pub fn reexec_argv(args: &Vec<String>, rust_backtrace: Option<&str>) -> (r: Vec<String>)
    ensures
        r.deep_view() == reexec_argv_spec(args.deep_view(), str_opt_view(rust_backtrace)),
{
    let mut r: Vec<String> = Vec::new();
    r.push(String::from_str("sudo"));
    r.push(String::from_str("-H"));
    let ghost mut prefix: Seq<Seq<char>> = seq!["sudo"@, "-H"@];
    proof {
        assert(r.deep_view() =~= prefix);
    }
    match rust_backtrace {
        Some(v) => {
            r.push(String::from_str("env"));
            let mut e = String::from_str("RUST_BACKTRACE=");
            e.append(v);
            r.push(e);
            proof {
                prefix = prefix + seq!["env"@, "RUST_BACKTRACE="@ + v@];
                assert(r.deep_view() =~= prefix);
            }
        },
        None => {
            proof {
                prefix = prefix + Seq::<Seq<char>>::empty();
                assert(r.deep_view() =~= prefix);
            }
        },
    }
    let mut i: usize = 0;
    while i < args.len()
        invariant
            i <= args.len(),
            prefix == reexec_argv_spec(Seq::empty(), str_opt_view(rust_backtrace)),
            r.deep_view() == prefix + args.deep_view().take(i as int),
        decreases args.len() - i,
    {
        let ghost before = r.deep_view();
        r.push(args[i].clone());
        i = i + 1;
        proof {
            assert(r.deep_view() =~= before.push(args[i - 1]@));
            assert(args.deep_view().take(i as int) =~= args.deep_view().take(i - 1).push(args[i - 1]@));
        }
    }
    proof {
        assert(args.deep_view().take(i as int) =~= args.deep_view());
        assert(reexec_argv_spec(args.deep_view(), str_opt_view(rust_backtrace)) =~= prefix + args.deep_view());
    }
    r
}

/// Makes sure the process runs as root: when it does not, the argument list
/// to execute instead (through `sudo`) is given back; when it does, nothing.
pub fn ensure_root(args: &Vec<String>, rust_backtrace: Option<&str>) -> (r: Option<Vec<String>>)
    ensures
        r matches Some(v) ==> v.deep_view() == reexec_argv_spec(args.deep_view(), str_opt_view(rust_backtrace)),
{
    ensure_root_as(args, rust_backtrace, effective_uid_is_root())
}

/// What [`ensure_root`] does once it knows whether the process runs as root:
/// nothing when it does, else the argument list that re-runs it through
/// `sudo`.
pub fn ensure_root_as(args: &Vec<String>, rust_backtrace: Option<&str>, is_root: bool) -> (r: Option<Vec<String>>)
    ensures
        is_root ==> r is None,
        !is_root ==> (r matches Some(v) && v.deep_view() == reexec_argv_spec(
            args.deep_view(),
            str_opt_view(rust_backtrace),
        )),
{
    if is_root {
        None
    } else {
        Some(reexec_argv(args, rust_backtrace))
    }
}

} // verus!
