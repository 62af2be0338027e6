//! `morlana wipe-history`: delete old generations of the system and user profiles.

use vstd::prelude::*;
use vstd::string::*;

use crate::error::{fails_with, Error};
use crate::util::log::{segment, segments_view, Segment, Style};
use crate::util::{command, error_for_status, sudo_cmd, sudo_cmd_as, sudo_view, CommandSpec, CommandView, ProcessOutput};
use crate::path::{join, join_path};

use super::{
    fail, finish, finish_err, finish_ok, Action, ActionView, Cli, Command, Event, EventView, Progress, ProgressView, Stage, WipeRequest, opt_string_view,
};


verus! {

/// Delete old versions of nix-darwin and Home Manager profiles.
#[derive(Debug, PartialEq, Eq)]
pub struct WipeHistoryCommand {
    /// Delete versions older than the specified age (passed to `nix profile wipe-history`)
    pub older_than: Option<String>,
}

impl WipeHistoryCommand {
    /// The wipe of `profile`, with or without `sudo`.
    pub open spec fn wipe(&self, profile: Seq<char>, sudo: bool) -> ActionView {
        ActionView::Wipe(profile, sudo, opt_string_view(self.older_than))
    }

    fn wipe_exec(&self, profile: String, sudo: bool) -> (r: Action)
        ensures
            r@ == self.wipe(profile@, sudo),
    {
        let older_than = match &self.older_than {
            Some(o) => Some(o.clone()),
            None => None,
        };
        Action::Wipe(WipeRequest { profile, sudo, older_than })
    }
}

impl Command for WipeHistoryCommand {
    open spec fn uses(&self, stage: Stage) -> bool {
        match stage {
            Stage::Start | Stage::WipeDefault | Stage::WipeSystem | Stage::WipeRoot | Stage::StateHome
            | Stage::WipeUser | Stage::WipeHomeManager => true,
            _ => false,
        }
    }

    open spec fn next(&self, p: ProgressView, e: EventView) -> (ProgressView, ActionView) {
        match (p.stage, e) {
            (Stage::Start, _) => (p.at(Stage::WipeDefault), self.wipe("/nix/var/nix/profiles/default"@, true)),
            (Stage::WipeDefault, EventView::Done) =>
                (p.at(Stage::WipeSystem), self.wipe("/nix/var/nix/profiles/system"@, true)),
            (Stage::WipeSystem, EventView::Done) =>
                (p.at(Stage::WipeRoot), self.wipe("/nix/var/nix/profiles/per-user/root/profile"@, true)),
            (Stage::WipeRoot, EventView::Done) => (p.at(Stage::StateHome), ActionView::StateHome),
            (Stage::StateHome, EventView::Text(home)) => (
                ProgressView { stage: Stage::WipeUser, state_home: home, ..p },
                self.wipe(join(home, "nix/profiles/profile"@), false),
            ),
            (Stage::WipeUser, EventView::Done) =>
                (p.at(Stage::WipeHomeManager), self.wipe(join(p.state_home, "nix/profiles/home-manager"@), false)),
            (Stage::WipeHomeManager, EventView::Done) => (p.at(Stage::Finished), finish_ok()),
            (_, EventView::Failed(err)) => (p.at(Stage::Finished), finish_err(err)),
            _ => (p.at(Stage::Finished), finish_ok()),
        }
    }

    fn action(&self, global_options: &Cli, progress: Progress, event: Event) -> (r: (Progress, Action)) {
        let p = progress;
        match p.stage {
            Stage::Start => (p.at(Stage::WipeDefault), self.wipe_exec(String::from_str("/nix/var/nix/profiles/default"), true)),
            Stage::WipeDefault => match event {
                Event::Done => (p.at(Stage::WipeSystem), self.wipe_exec(String::from_str("/nix/var/nix/profiles/system"), true)),
                Event::Failed(e) => fail(p, e),
                _ => fail(p, Error::message("")),
            },
            Stage::WipeSystem => match event {
                Event::Done => (
                    p.at(Stage::WipeRoot),
                    self.wipe_exec(String::from_str("/nix/var/nix/profiles/per-user/root/profile"), true),
                ),
                Event::Failed(e) => fail(p, e),
                _ => fail(p, Error::message("")),
            },
            Stage::WipeRoot => match event {
                Event::Done => (p.at(Stage::StateHome), Action::StateHome),
                Event::Failed(e) => fail(p, e),
                _ => fail(p, Error::message("")),
            },
            Stage::StateHome => match event {
                Event::Text(home) => {
                    let profile = join_path(home.as_str(), "nix/profiles/profile");
                    let a = self.wipe_exec(profile, false);
                    (Progress { stage: Stage::WipeUser, state_home: home, ..p }, a)
                },
                Event::Failed(e) => fail(p, e),
                _ => fail(p, Error::message("")),
            },
            Stage::WipeUser => match event {
                Event::Done => {
                    let profile = join_path(p.state_home.as_str(), "nix/profiles/home-manager");
                    (p.at(Stage::WipeHomeManager), self.wipe_exec(profile, false))
                },
                Event::Failed(e) => fail(p, e),
                _ => fail(p, Error::message("")),
            },
            Stage::WipeHomeManager => match event {
                Event::Done => finish(p),
                Event::Failed(e) => fail(p, e),
                _ => fail(p, Error::message("")),
            },
            _ => fail(p, Error::message("")),
        }
    }
}

} // verus!

verus! {

/// The tail of a wipe: the profile, and the age limit when there is one.
pub open spec fn wipe_tail(profile: Seq<char>, older_than: Option<Seq<char>>) -> Seq<Seq<char>> {
    seq!["profile"@, "wipe-history"@, "--profile"@, profile] + match older_than {
        Some(o) => seq!["--older-than"@, o],
        None => Seq::empty(),
    }
}

/// `nix profile wipe-history --profile <profile> [--older-than <age>]`,
/// through [`sudo_view`] when `sudo` is set.
pub open spec fn wipe_view(profile: Seq<char>, sudo: bool, older_than: Option<Seq<char>>, is_root: bool) -> CommandView {
    let base = if sudo { sudo_view("nix"@, is_root) } else { command("nix"@, Seq::empty()) };
    CommandView { args: base.args + wipe_tail(profile, older_than), ..base }
}

pub open spec fn wipe_failure() -> Seq<char> {
    "failed to execute `nix profile wipe-history`"@
}

/// How a wipe went, from what `nix profile wipe-history` reported (see
/// [`error_for_status`]).
pub fn wipe_status(output: ProcessOutput) -> (r: Result<(), Error>)
    ensures
        !output.success ==> fails_with(r, wipe_failure()),
        output.success ==> r is Ok,
{
    match error_for_status(output, "failed to execute `nix profile wipe-history`") {
        Ok(_) => Ok(()),
        Err(e) => Err(e),
    }
}

fn wipe_args(c: &mut CommandSpec, req: &WipeRequest)
    ensures
        final(c)@ == (CommandView { args: old(c)@.args + wipe_tail(req.profile@, opt_string_view(req.older_than)), ..old(c)@ }),
{
    c.arg("profile");
    c.arg("wipe-history");
    c.arg("--profile");
    c.arg(req.profile.as_str());
    match &req.older_than {
        Some(o) => {
            c.arg("--older-than");
            c.arg(o.as_str());
        },
        None => {},
    }
    proof {
        assert(c@.args =~= old(c)@.args + wipe_tail(req.profile@, opt_string_view(req.older_than)));
    }
}

/// The wipe command, given whether the process is root.
pub fn wipe_command_as(req: &WipeRequest, is_root: bool) -> (r: CommandSpec)
    ensures
        r@ == wipe_view(req.profile@, req.sudo, opt_string_view(req.older_than), is_root),
{
    let mut c = if req.sudo { sudo_cmd_as("nix", is_root) } else { CommandSpec::new("nix") };
    wipe_args(&mut c, req);
    c
}

/// The wipe command.
pub fn wipe_command(req: &WipeRequest) -> (r: CommandSpec)
    ensures
        r@ == wipe_view(req.profile@, req.sudo, opt_string_view(req.older_than), true)
            || r@ == wipe_view(req.profile@, req.sudo, opt_string_view(req.older_than), false),
{
    let mut c = if req.sudo { sudo_cmd("nix") } else { CommandSpec::new("nix") };
    wipe_args(&mut c, req);
    c
}

/// The line after a wipe: `wiped history for <profile>`, the profile green.
pub fn wiped_line(profile: &str) -> (r: Vec<Segment>)
    ensures
        segments_view(r@) == seq![("wiped history for "@, Style::Plain), (profile@, Style::Green)],
{
    let r = vec![segment("wiped history for ", Style::Plain), segment(profile, Style::Green)];
    proof {
        assert(segments_view(r@) =~= seq![("wiped history for "@, Style::Plain), (profile@, Style::Green)]);
    }
    r
}

} // verus!
