//! `morlana switch`: build a configuration, show the difference, and switch to it.

use vstd::prelude::*;
use vstd::string::*;

use crate::error::Error;
use crate::util::log::Level;

use super::{
    build_program, build_program_name, building_line, building_line_of, built_line, built_line_of, default_attr, default_attr_of, fail, finish, finish_err, finish_ok, log_line, log_plain, Action, ActionView, BuildRequest, BuildRequestView, Cli, Command, Event, EventView, Progress, ProgressView, Stage,
};

verus! {

/// The default system profile.
pub fn default_profile() -> (r: String)
    ensures
        r@ == "/nix/var/nix/profiles/system"@,
{
    String::from_str("/nix/var/nix/profiles/system")
}

/// Switch to a nix-darwin configuration.
#[derive(Debug, PartialEq, Eq)]
pub struct SwitchCommand {
    /// Path to a flake
    pub flake: Option<String>,
    /// Flake attribute that contains a nix-darwin configuration [defaults to `darwinConfigurations.<hostname>`]
    pub attr: Option<String>,
    /// System profile location
    pub profile: String,
    /// Use nix-output-monitor [defaults to true if `nom` is in PATH]
    pub nom: Option<bool>,
    /// Whether to use nvd [defaults to true if `nvd` is in PATH]
    pub nvd: Option<bool>,
    /// Extra build flags to pass to Nix
    pub extra_build_flags: Vec<String>,
    /// Use the default choice for confirmation prompts
    pub no_confirm: bool,
}

impl SwitchCommand {
    /// With the build program known: take the flake or ask for the default one.
    pub open spec fn after_program(&self, p: ProgressView) -> (ProgressView, ActionView) {
        match self.flake {
            Some(f) => self.after_flake(ProgressView { flake_url: f@, ..p }),
            None => (p.at(Stage::DefaultFlake), ActionView::DefaultFlake),
        }
    }

    /// With the flake known: take the attribute or ask for the host name.
    pub open spec fn after_flake(&self, p: ProgressView) -> (ProgressView, ActionView) {
        match self.attr {
            Some(a) => (ProgressView { stage: Stage::BuildAnnounced, flake_attr: a@, ..p }, building_line(p.program)),
            None => (p.at(Stage::Hostname), ActionView::Hostname),
        }
    }

    /// With the system built: decide whether to diff it.
    pub open spec fn after_build(&self, p: ProgressView) -> (ProgressView, ActionView) {
        match self.nvd {
            Some(true) => (p.at(Stage::Diff), ActionView::Diff(p.out)),
            Some(false) => self.before_switch(p),
            None => (p.at(Stage::NvdLookup), ActionView::Which("nvd"@)),
        }
    }

    /// Before switching: ask for confirmation unless told not to.
    pub open spec fn before_switch(&self, p: ProgressView) -> (ProgressView, ActionView) {
        if self.no_confirm {
            (p.at(Stage::ProfileAnnounced), log_plain(Level::Info, "configuring profile"@))
        } else {
            (p.at(Stage::Confirm), ActionView::Confirm("switch to configuration?"@, false))
        }
    }

    fn after_program_exec(&self, p: Progress) -> (r: (Progress, Action))
        ensures
            (r.0@, r.1@) == self.after_program(p@),
    {
        match &self.flake {
            Some(f) => self.after_flake_exec(Progress { flake_url: f.clone(), ..p }),
            None => (p.at(Stage::DefaultFlake), Action::DefaultFlake),
        }
    }

    fn after_flake_exec(&self, p: Progress) -> (r: (Progress, Action))
        ensures
            (r.0@, r.1@) == self.after_flake(p@),
    {
        match &self.attr {
            Some(a) => {
                let line = building_line_of(p.program.as_str());
                (Progress { stage: Stage::BuildAnnounced, flake_attr: a.clone(), ..p }, line)
            },
            None => (p.at(Stage::Hostname), Action::Hostname),
        }
    }

    fn before_switch_exec(&self, p: Progress) -> (r: (Progress, Action))
        ensures
            (r.0@, r.1@) == self.before_switch(p@),
    {
        if self.no_confirm {
            (p.at(Stage::ProfileAnnounced), log_line(Level::Info, "configuring profile"))
        } else {
            (p.at(Stage::Confirm), Action::Confirm(String::from_str("switch to configuration?"), false))
        }
    }

    fn after_build_exec(&self, p: Progress) -> (r: (Progress, Action))
        ensures
            (r.0@, r.1@) == self.after_build(p@),
    {
        match self.nvd {
            Some(true) => {
                let out = p.out.clone();
                (p.at(Stage::Diff), Action::Diff(out))
            },
            Some(false) => self.before_switch_exec(p),
            None => (p.at(Stage::NvdLookup), Action::Which(String::from_str("nvd"))),
        }
    }
}

impl Command for SwitchCommand {
    open spec fn uses(&self, stage: Stage) -> bool {
        match stage {
            Stage::Start | Stage::NomLookup | Stage::DefaultFlake | Stage::Hostname
            | Stage::BuildAnnounced | Stage::Build | Stage::BuildReported | Stage::NvdLookup
            | Stage::Diff | Stage::Confirm | Stage::ProfileAnnounced | Stage::Profile
            | Stage::ActivateAnnounced | Stage::Activate => true,
            _ => false,
        }
    }

    open spec fn next(&self, p: ProgressView, e: EventView) -> (ProgressView, ActionView) {
        match (p.stage, e) {
            (Stage::Start, _) => match self.nom {
                Some(b) => self.after_program(ProgressView { program: build_program(b), ..p }),
                None => (p.at(Stage::NomLookup), ActionView::Which("nom"@)),
            },
            (Stage::NomLookup, EventView::Flag(b)) =>
                self.after_program(ProgressView { program: build_program(b), ..p }),
            (Stage::DefaultFlake, EventView::Text(url)) => self.after_flake(ProgressView { flake_url: url, ..p }),
            (Stage::Hostname, EventView::Text(host)) =>
                (ProgressView { stage: Stage::BuildAnnounced, flake_attr: default_attr(host), ..p }, building_line(p.program)),
            (Stage::BuildAnnounced, _) => (
                p.at(Stage::Build),
                ActionView::Build(BuildRequestView {
                    program: p.program,
                    flake_url: p.flake_url,
                    flake_attr: p.flake_attr,
                    extra_build_flags: self.extra_build_flags.deep_view(),
                    out_link: false,
                }),
            ),
            (Stage::Build, EventView::Text(out)) =>
                (ProgressView { stage: Stage::BuildReported, out, ..p }, built_line(out)),
            (Stage::BuildReported, _) => self.after_build(p),
            (Stage::NvdLookup, EventView::Flag(true)) => (p.at(Stage::Diff), ActionView::Diff(p.out)),
            (Stage::NvdLookup, EventView::Flag(false)) => self.before_switch(p),
            (Stage::Diff, EventView::Done) => self.before_switch(p),
            (Stage::Confirm, EventView::Flag(true)) =>
                (p.at(Stage::ProfileAnnounced), log_plain(Level::Info, "configuring profile"@)),
            (Stage::Confirm, EventView::Flag(false)) => (p.at(Stage::Finished), finish_ok()),
            (Stage::ProfileAnnounced, _) => (p.at(Stage::Profile), ActionView::Profile(self.profile@, p.out)),
            (Stage::Profile, EventView::Done) =>
                (p.at(Stage::ActivateAnnounced), log_plain(Level::Info, "activating"@)),
            (Stage::ActivateAnnounced, _) => (p.at(Stage::Activate), ActionView::Activate(p.out)),
            (Stage::Activate, EventView::Done) => (p.at(Stage::Finished), finish_ok()),
            (_, EventView::Failed(err)) => (p.at(Stage::Finished), finish_err(err)),
            _ => (p.at(Stage::Finished), finish_ok()),
        }
    }

    fn action(&self, global_options: &Cli, progress: Progress, event: Event) -> (r: (Progress, Action)) {
        let p = progress;
        match p.stage {
            Stage::Start => match self.nom {
                Some(b) => {
                    let p = Progress { program: String::from_str(build_program_name(b)), ..p };
                    self.after_program_exec(p)
                },
                None => (p.at(Stage::NomLookup), Action::Which(String::from_str("nom"))),
            },
            Stage::NomLookup => match event {
                Event::Flag(b) => {
                    let p = Progress { program: String::from_str(build_program_name(b)), ..p };
                    self.after_program_exec(p)
                },
                _ => fail(p, Error::message("")),
            },
            Stage::DefaultFlake => match event {
                Event::Text(url) => self.after_flake_exec(Progress { flake_url: url, ..p }),
                Event::Failed(e) => fail(p, e),
                _ => fail(p, Error::message("")),
            },
            Stage::Hostname => match event {
                Event::Text(host) => {
                    let attr = default_attr_of(host.as_str());
                    let line = building_line_of(p.program.as_str());
                    (Progress { stage: Stage::BuildAnnounced, flake_attr: attr, ..p }, line)
                },
                Event::Failed(e) => fail(p, e),
                _ => fail(p, Error::message("")),
            },
            Stage::BuildAnnounced => {
                let req = BuildRequest {
                    program: p.program.clone(),
                    flake_url: p.flake_url.clone(),
                    flake_attr: p.flake_attr.clone(),
                    extra_build_flags: self.extra_build_flags.clone(),
                    out_link: false,
                };
                proof {
                    assert(req.extra_build_flags.deep_view() =~= self.extra_build_flags.deep_view());
                }
                (p.at(Stage::Build), Action::Build(req))
            },
            Stage::Build => match event {
                Event::Text(out) => {
                    let line = built_line_of(out.as_str());
                    (Progress { stage: Stage::BuildReported, out, ..p }, line)
                },
                Event::Failed(e) => fail(p, e),
                _ => fail(p, Error::message("")),
            },
            Stage::BuildReported => self.after_build_exec(p),
            Stage::NvdLookup => match event {
                Event::Flag(true) => {
                    let out = p.out.clone();
                    (p.at(Stage::Diff), Action::Diff(out))
                },
                Event::Flag(false) => self.before_switch_exec(p),
                _ => fail(p, Error::message("")),
            },
            Stage::Diff => match event {
                Event::Done => self.before_switch_exec(p),
                Event::Failed(e) => fail(p, e),
                _ => fail(p, Error::message("")),
            },
            Stage::Confirm => match event {
                Event::Flag(true) => (p.at(Stage::ProfileAnnounced), log_line(Level::Info, "configuring profile")),
                Event::Flag(false) => finish(p),
                Event::Failed(e) => fail(p, e),
                _ => fail(p, Error::message("")),
            },
            Stage::ProfileAnnounced => {
                let prof = self.profile.clone();
                let out = p.out.clone();
                (p.at(Stage::Profile), Action::Profile(prof, out))
            },
            Stage::Profile => match event {
                Event::Done => (p.at(Stage::ActivateAnnounced), log_line(Level::Info, "activating")),
                Event::Failed(e) => fail(p, e),
                _ => fail(p, Error::message("")),
            },
            Stage::ActivateAnnounced => {
                let out = p.out.clone();
                (p.at(Stage::Activate), Action::Activate(out))
            },
            Stage::Activate => match event {
                Event::Done => finish(p),
                Event::Failed(e) => fail(p, e),
                _ => fail(p, Error::message("")),
            },
            _ => fail(p, Error::message("")),
        }
    }
}

} // verus!
