//! `morlana build`: build a configuration and link it as `./result`.

use vstd::prelude::*;
use vstd::string::*;

use crate::error::{Error, ErrorView};

use super::{
    build_program, build_program_name, building_line, building_line_of, built_line, built_line_of, default_attr, default_attr_of, fail, finish, finish_err, finish_ok, Action, ActionView, BuildRequest, BuildRequestView, Cli, Command, Event, EventView, Progress, ProgressView, Stage,
};


verus! {

/// The message when no flake attribute was given and none could be derived.
pub open spec fn no_attr_message() -> Seq<char> {
    "no attribute was provided and one could not be inferred!"@
}

/// Build a nix-darwin configuration.
#[derive(Debug, PartialEq, Eq)]
pub struct BuildCommand {
    /// Path to a flake
    pub flake: Option<String>,
    /// Flake attribute that contains a nix-darwin configuration [defaults to `darwinConfigurations.<hostname>`]
    pub attr: Option<String>,
    /// Use nix-output-monitor [defaults to true if `nom` is in PATH]
    pub nom: Option<bool>,
    /// Extra build flags to pass to Nix
    pub extra_build_flags: Vec<String>,
}

impl BuildCommand {
    /// With the build program known: take the flake or ask for the default one.
    pub open spec fn after_program(&self, p: ProgressView) -> (ProgressView, ActionView) {
        match self.flake {
            Some(f) => self.after_flake(ProgressView { flake_url: f@, ..p }),
            None => (p.at(Stage::DefaultFlake), ActionView::DefaultFlake),
        }
    }

    /// With the flake known: take the attribute or ask for the host name.
    pub open spec fn after_flake(&self, p: ProgressView) -> (ProgressView, ActionView) {
        match self.attr {
            Some(a) => (ProgressView { stage: Stage::BuildAnnounced, flake_attr: a@, ..p }, building_line(p.program)),
            None => (p.at(Stage::Hostname), ActionView::Hostname),
        }
    }

    fn after_flake_exec(&self, p: Progress) -> (r: (Progress, Action))
        ensures
            (r.0@, r.1@) == self.after_flake(p@),
    {
        match &self.attr {
            Some(a) => {
                let line = building_line_of(p.program.as_str());
                (Progress { stage: Stage::BuildAnnounced, flake_attr: a.clone(), ..p }, line)
            },
            None => (p.at(Stage::Hostname), Action::Hostname),
        }
    }

    fn after_program_exec(&self, p: Progress) -> (r: (Progress, Action))
        ensures
            (r.0@, r.1@) == self.after_program(p@),
    {
        match &self.flake {
            Some(f) => self.after_flake_exec(Progress { flake_url: f.clone(), ..p }),
            None => (p.at(Stage::DefaultFlake), Action::DefaultFlake),
        }
    }
}

impl Command for BuildCommand {
    open spec fn uses(&self, stage: Stage) -> bool {
        match stage {
            Stage::Start | Stage::NomLookup | Stage::DefaultFlake | Stage::Hostname
            | Stage::BuildAnnounced | Stage::Build | Stage::BuildReported => true,
            _ => false,
        }
    }

    open spec fn next(&self, p: ProgressView, e: EventView) -> (ProgressView, ActionView) {
        match (p.stage, e) {
            (Stage::Start, _) => match self.nom {
                Some(b) => self.after_program(ProgressView { program: build_program(b), ..p }),
                None => (p.at(Stage::NomLookup), ActionView::Which("nom"@)),
            },
            (Stage::NomLookup, EventView::Flag(b)) =>
                self.after_program(ProgressView { program: build_program(b), ..p }),
            (Stage::DefaultFlake, EventView::Text(url)) => self.after_flake(ProgressView { flake_url: url, ..p }),
            (Stage::Hostname, EventView::Text(host)) =>
                (ProgressView { stage: Stage::BuildAnnounced, flake_attr: default_attr(host), ..p }, building_line(p.program)),
            (Stage::Hostname, EventView::Failed(_)) =>
                (p.at(Stage::Finished), finish_err(ErrorView::Message(no_attr_message()))),
            (Stage::BuildAnnounced, _) => (
                p.at(Stage::Build),
                ActionView::Build(BuildRequestView {
                    program: p.program,
                    flake_url: p.flake_url,
                    flake_attr: p.flake_attr,
                    extra_build_flags: self.extra_build_flags.deep_view(),
                    out_link: true,
                }),
            ),
            (Stage::Build, EventView::Text(out)) =>
                (ProgressView { stage: Stage::BuildReported, out, ..p }, built_line(out)),
            (Stage::BuildReported, _) => (p.at(Stage::Finished), finish_ok()),
            (_, EventView::Failed(err)) => (p.at(Stage::Finished), finish_err(err)),
            _ => (p.at(Stage::Finished), finish_ok()),
        }
    }

    fn action(&self, global_options: &Cli, progress: Progress, event: Event) -> (r: (Progress, Action)) {
        let p = progress;
        match p.stage {
            Stage::Start => match self.nom {
                Some(b) => {
                    let p = Progress { program: String::from_str(build_program_name(b)), ..p };
                    self.after_program_exec(p)
                },
                None => (p.at(Stage::NomLookup), Action::Which(String::from_str("nom"))),
            },
            Stage::NomLookup => match event {
                Event::Flag(b) => {
                    let p = Progress { program: String::from_str(build_program_name(b)), ..p };
                    self.after_program_exec(p)
                },
                _ => fail(p, Error::message("")),
            },
            Stage::DefaultFlake => match event {
                Event::Text(url) => self.after_flake_exec(Progress { flake_url: url, ..p }),
                Event::Failed(e) => fail(p, e),
                _ => fail(p, Error::message("")),
            },
            Stage::Hostname => match event {
                Event::Text(host) => {
                    let attr = default_attr_of(host.as_str());
                    let line = building_line_of(p.program.as_str());
                    (Progress { stage: Stage::BuildAnnounced, flake_attr: attr, ..p }, line)
                },
                Event::Failed(_) => fail(p, Error::message("no attribute was provided and one could not be inferred!")),
                _ => fail(p, Error::message("")),
            },
            Stage::BuildAnnounced => {
                let req = BuildRequest {
                    program: p.program.clone(),
                    flake_url: p.flake_url.clone(),
                    flake_attr: p.flake_attr.clone(),
                    extra_build_flags: self.extra_build_flags.clone(),
                    out_link: true,
                };
                proof {
                    assert(req.extra_build_flags.deep_view() =~= self.extra_build_flags.deep_view());
                }
                (p.at(Stage::Build), Action::Build(req))
            },
            Stage::Build => match event {
                Event::Text(out) => {
                    let line = built_line_of(out.as_str());
                    (Progress { stage: Stage::BuildReported, out, ..p }, line)
                },
                Event::Failed(e) => fail(p, e),
                _ => fail(p, Error::message("")),
            },
            Stage::BuildReported => finish(p),
            _ => fail(p, Error::message("")),
        }
    }
}

} // verus!
