//! `morlana init`: bootstrap a nix-darwin system from a fresh flake.

use vstd::prelude::*;
use vstd::string::*;

use crate::error::Error;
use crate::util::log::Level;

use super::{
    built_line, built_line_of, default_attr, default_attr_of, fail, finish, finish_err, finish_ok, log_line, log_plain, Action, ActionView, BuildRequest, BuildRequestView, Cli, Command, Event, EventView, Progress, ProgressView, Stage,
};


verus! {

/// Initialize a basic bootstrapped system.
#[derive(Debug, PartialEq, Eq)]
pub struct InitCommand {
    /// Use the default choice for confirmation prompts
    pub no_confirm: bool,
}

/// The system profile that `init` sets.
pub open spec fn system_profile() -> Seq<char> {
    "/nix/var/nix/profiles/system"@
}

impl InitCommand {
    /// After the warning about an existing installation.
    pub open spec fn after_warning(&self, p: ProgressView) -> (ProgressView, ActionView) {
        if self.no_confirm {
            (p.at(Stage::Bootstrap), ActionView::Bootstrap)
        } else {
            (p.at(Stage::Confirm), ActionView::Confirm("are you sure you want to reinitialize your installation?"@, false))
        }
    }
}

impl Command for InitCommand {
    open spec fn uses(&self, stage: Stage) -> bool {
        match stage {
            Stage::Start | Stage::NixLookup | Stage::NixMissingReported | Stage::InstalledCheck
            | Stage::InstalledReported | Stage::Confirm | Stage::Bootstrap | Stage::Hostname
            | Stage::BuildAnnounced | Stage::Build | Stage::BuildReported | Stage::ProfileAnnounced
            | Stage::Profile | Stage::ActivateAnnounced | Stage::Activate => true,
            _ => false,
        }
    }

    open spec fn next(&self, p: ProgressView, e: EventView) -> (ProgressView, ActionView) {
        match (p.stage, e) {
            (Stage::Start, _) => (p.at(Stage::NixLookup), ActionView::Which("nix"@)),
            (Stage::NixLookup, EventView::Flag(false)) => (
                p.at(Stage::NixMissingReported),
                log_plain(Level::Error, "Nix is not installed! You need to install Nix first."@),
            ),
            (Stage::NixLookup, EventView::Flag(true)) =>
                (p.at(Stage::InstalledCheck), ActionView::PathExists("/run/current-system"@)),
            (Stage::NixMissingReported, _) => (p.at(Stage::Finished), finish_ok()),
            (Stage::InstalledCheck, EventView::Flag(true)) => (
                p.at(Stage::InstalledReported),
                log_plain(Level::Warn, "nix-darwin seems to already be installed!"@),
            ),
            (Stage::InstalledCheck, EventView::Flag(false)) => (p.at(Stage::Bootstrap), ActionView::Bootstrap),
            (Stage::InstalledReported, _) => self.after_warning(p),
            (Stage::Confirm, EventView::Flag(true)) => (p.at(Stage::Bootstrap), ActionView::Bootstrap),
            (Stage::Confirm, EventView::Flag(false)) => (p.at(Stage::Finished), finish_ok()),
            (Stage::Bootstrap, EventView::Text(dir)) =>
                (ProgressView { stage: Stage::Hostname, flake_url: dir, ..p }, ActionView::Hostname),
            (Stage::Hostname, EventView::Text(host)) => (
                ProgressView { stage: Stage::BuildAnnounced, flake_attr: default_attr(host), ..p },
                log_plain(Level::Info, "building bootstrap system"@),
            ),
            (Stage::BuildAnnounced, _) => (
                p.at(Stage::Build),
                ActionView::Build(BuildRequestView {
                    program: "nix"@,
                    flake_url: p.flake_url,
                    flake_attr: p.flake_attr,
                    extra_build_flags: Seq::empty(),
                    out_link: false,
                }),
            ),
            (Stage::Build, EventView::Text(out)) =>
                (ProgressView { stage: Stage::BuildReported, out, ..p }, built_line(out)),
            (Stage::BuildReported, _) =>
                (p.at(Stage::ProfileAnnounced), log_plain(Level::Info, "configuring profile"@)),
            (Stage::ProfileAnnounced, _) => (p.at(Stage::Profile), ActionView::Profile(system_profile(), p.out)),
            (Stage::Profile, EventView::Done) =>
                (p.at(Stage::ActivateAnnounced), log_plain(Level::Info, "activating"@)),
            (Stage::ActivateAnnounced, _) => (p.at(Stage::Activate), ActionView::Activate(p.out)),
            (Stage::Activate, EventView::Done) => (p.at(Stage::Finished), finish_ok()),
            (_, EventView::Failed(err)) => (p.at(Stage::Finished), finish_err(err)),
            _ => (p.at(Stage::Finished), finish_ok()),
        }
    }

    fn action(&self, global_options: &Cli, progress: Progress, event: Event) -> (r: (Progress, Action)) {
        let p = progress;
        match p.stage {
            Stage::Start => (p.at(Stage::NixLookup), Action::Which(String::from_str("nix"))),
            Stage::NixLookup => match event {
                Event::Flag(false) => (
                    p.at(Stage::NixMissingReported),
                    log_line(Level::Error, "Nix is not installed! You need to install Nix first."),
                ),
                Event::Flag(true) =>
                    (p.at(Stage::InstalledCheck), Action::PathExists(String::from_str("/run/current-system"))),
                _ => fail(p, Error::message("")),
            },
            Stage::NixMissingReported => finish(p),
            Stage::InstalledCheck => match event {
                Event::Flag(true) => (
                    p.at(Stage::InstalledReported),
                    log_line(Level::Warn, "nix-darwin seems to already be installed!"),
                ),
                Event::Flag(false) => (p.at(Stage::Bootstrap), Action::Bootstrap),
                _ => fail(p, Error::message("")),
            },
            Stage::InstalledReported => {
                if self.no_confirm {
                    (p.at(Stage::Bootstrap), Action::Bootstrap)
                } else {
                    (
                        p.at(Stage::Confirm),
                        Action::Confirm(String::from_str("are you sure you want to reinitialize your installation?"), false),
                    )
                }
            },
            Stage::Confirm => match event {
                Event::Flag(true) => (p.at(Stage::Bootstrap), Action::Bootstrap),
                Event::Flag(false) => finish(p),
                Event::Failed(e) => fail(p, e),
                _ => fail(p, Error::message("")),
            },
            Stage::Bootstrap => match event {
                Event::Text(dir) => (Progress { stage: Stage::Hostname, flake_url: dir, ..p }, Action::Hostname),
                Event::Failed(e) => fail(p, e),
                _ => fail(p, Error::message("")),
            },
            Stage::Hostname => match event {
                Event::Text(host) => {
                    let attr = default_attr_of(host.as_str());
                    (
                        Progress { stage: Stage::BuildAnnounced, flake_attr: attr, ..p },
                        log_line(Level::Info, "building bootstrap system"),
                    )
                },
                Event::Failed(e) => fail(p, e),
                _ => fail(p, Error::message("")),
            },
            Stage::BuildAnnounced => {
                let req = BuildRequest {
                    program: String::from_str("nix"),
                    flake_url: p.flake_url.clone(),
                    flake_attr: p.flake_attr.clone(),
                    extra_build_flags: Vec::new(),
                    out_link: false,
                };
                proof {
                    assert(req.extra_build_flags.deep_view() =~= Seq::<Seq<char>>::empty());
                }
                (p.at(Stage::Build), Action::Build(req))
            },
            Stage::Build => match event {
                Event::Text(out) => {
                    let line = built_line_of(out.as_str());
                    (Progress { stage: Stage::BuildReported, out, ..p }, line)
                },
                Event::Failed(e) => fail(p, e),
                _ => fail(p, Error::message("")),
            },
            Stage::BuildReported => (p.at(Stage::ProfileAnnounced), log_line(Level::Info, "configuring profile")),
            Stage::ProfileAnnounced => {
                let out = p.out.clone();
                (p.at(Stage::Profile), Action::Profile(String::from_str("/nix/var/nix/profiles/system"), out))
            },
            Stage::Profile => match event {
                Event::Done => (p.at(Stage::ActivateAnnounced), log_line(Level::Info, "activating")),
                Event::Failed(e) => fail(p, e),
                _ => fail(p, Error::message("")),
            },
            Stage::ActivateAnnounced => {
                let out = p.out.clone();
                (p.at(Stage::Activate), Action::Activate(out))
            },
            Stage::Activate => match event {
                Event::Done => finish(p),
                Event::Failed(e) => fail(p, e),
                _ => fail(p, Error::message("")),
            },
            _ => fail(p, Error::message("")),
        }
    }
}

} // verus!
