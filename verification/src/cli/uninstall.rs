//! `morlana uninstall`: remove nix-darwin and restore what it replaced.

use vstd::prelude::*;
use vstd::string::*;

use crate::error::{Error, ErrorView};
use crate::util::log::{plain_line, segment, segments_view, Level, Segment, Style};
use crate::util::{command, CommandSpec, CommandView, FsOutcome, ProcessOutput, Stdio};
use crate::error::fails_with;
use crate::stages::bootstrap::{host_platform, host_platform_of};
use crate::stages::build_stage::{build_outcome, first_out, NixTopLevelData};
use crate::text::{replace_all, replace_str};
use crate::path::{restore_target, restore_target_of};

use super::{
    built_line, built_line_of, fail, finish, finish_err, finish_ok, log_dimmed, log_line, log_line_dimmed, log_plain, progress_wf, answers, Action, ActionView, Cli, Command, Event, EventView, Progress, ProgressView, Stage,
};


verus! {

/// Remove nix-darwin from the system.
#[derive(Debug, PartialEq, Eq)]
pub struct UninstallCommand {
    /// Use the default choice for confirmation prompts
    pub no_confirm: bool,
}

/// Where launchd expects the Nix daemon's definition.
pub open spec fn nix_daemon_plist() -> Seq<char> {
    "/Library/LaunchDaemons/org.nixos.nix-daemon.plist"@
}

/// Where the certificate bundle belongs.
pub open spec fn ca_bundle() -> Seq<char> {
    "/etc/ssl/certs/ca-certificates.crt"@
}

/// The first position at or after `i` that holds a file nix-darwin moved
/// aside, or the length of `files` when there is none.
pub open spec fn next_saved(files: Seq<Seq<char>>, i: int) -> int
    decreases files.len() - i,
{
    if i < 0 || i >= files.len() {
        files.len() as int
    } else if restore_target(files[i]) is Some {
        i
    } else {
        next_saved(files, i + 1)
    }
}

/// The search of [`next_saved`] stops at a file that nix-darwin moved aside,
/// or at the end, and passes over only files it did not.
pub proof fn lemma_next_saved(files: Seq<Seq<char>>, i: int)
    requires
        0 <= i <= files.len(),
    ensures
        i <= next_saved(files, i) <= files.len(),
        next_saved(files, i) < files.len() ==> restore_target(files[next_saved(files, i)]) is Some,
        forall|y: int| i <= y < next_saved(files, i) ==> restore_target(#[trigger] files[y]) is None,
    decreases files.len() - i,
{
    if i < files.len() && restore_target(files[i]) is None {
        lemma_next_saved(files, i + 1);
    }
}

fn next_saved_exec(files: &Vec<String>, from: usize) -> (r: usize)
    requires
        from <= files.len(),
    ensures
        r as int == next_saved(files.deep_view(), from as int),
{
    let mut j = from;
    while j < files.len() && restore_target_of(files[j].as_str()).is_none()
        invariant
            from <= j <= files.len(),
            next_saved(files.deep_view(), from as int) == next_saved(files.deep_view(), j as int),
        decreases files.len() - j,
    {
        proof {
            assert(files.deep_view()[j as int] == files[j as int]@);
        }
        j = j + 1;
    }
    proof {
        if j < files.len() {
            assert(files.deep_view()[j as int] == files[j as int]@);
        }
    }
    j
}

/// The stages of `uninstall` up to the removal of residual files.
pub open spec fn preparing(s: Stage) -> bool {
    match s {
        Stage::Start | Stage::Root | Stage::BuildAnnounced | Stage::Build | Stage::BuildReported
        | Stage::Confirm | Stage::BlankLine | Stage::ProfileAnnounced | Stage::Profile
        | Stage::ActivateUserAnnounced | Stage::ActivateUser | Stage::ActivateAnnounced
        | Stage::Activate | Stage::ResidualAnnounced | Stage::RemoveApps
        | Stage::RemoveStatic => true,
        _ => false,
    }
}

/// The stages of `uninstall` that restore the files under `/etc`.
pub open spec fn restoring_etc(s: Stage) -> bool {
    match s {
        Stage::EtcAnnounced | Stage::ListEtc | Stage::EtcTargetCheck | Stage::EtcRename
        | Stage::EtcRenamedReported => true,
        _ => false,
    }
}

/// The stages of `uninstall` that restore the Nix daemon.
pub open spec fn restoring_daemon(s: Stage) -> bool {
    match s {
        Stage::StoreCheck | Stage::DaemonCheck | Stage::DaemonAnnounced | Stage::RemovePlist
        | Stage::Unload | Stage::CopyDaemon | Stage::LoadDaemon
        | Stage::DaemonMissingReported => true,
        _ => false,
    }
}

/// The stages of `uninstall` from the certificate bundle on.
pub open spec fn finishing(s: Stage) -> bool {
    match s {
        Stage::CaCheck | Stage::CaAnnounced | Stage::LinkCa | Stage::CaMissingReported
        | Stage::SymlinkAnnounced | Stage::SymlinkCheck | Stage::RemoveSymlink
        | Stage::DoneReported => true,
        _ => false,
    }
}

impl UninstallCommand {
    /// Goes on through the files under `/etc` from position `i`: to the next
    /// one nix-darwin moved aside, whose original place is checked, or, past
    /// the last, to the Nix daemon.
    pub open spec fn seek_saved(p: ProgressView, i: int) -> (ProgressView, ActionView) {
        let j = next_saved(p.files, i);
        if j >= p.files.len() {
            (p.at(Stage::StoreCheck), ActionView::PathIsDir("/nix/store"@))
        } else {
            (ProgressView { stage: Stage::EtcTargetCheck, index: j, ..p }, ActionView::PathExists(restore_target(p.files[j])->0))
        }
    }

    fn target_of(from: &String) -> (r: String)
        requires
            restore_target(from@) is Some,
        ensures
            r@ == restore_target(from@)->0,
    {
        match restore_target_of(from.as_str()) {
            Some(t) => t,
            None => String::new(),
        }
    }

    fn seek_saved_exec(p: Progress, from: usize) -> (r: (Progress, Action))
        requires
            from <= p.files.len(),
        ensures
            (r.0@, r.1@) == Self::seek_saved(p@, from as int),
            progress_wf(r.0@),
    {
        let j = next_saved_exec(&p.files, from);
        proof {
            lemma_next_saved(p@.files, from as int);
        }
        if j < p.files.len() {
            proof {
                assert(p.files.deep_view()[j as int] == p.files[j as int]@);
            }
            let to = Self::target_of(&p.files[j]);
            (Progress { stage: Stage::EtcTargetCheck, index: j, ..p }, Action::PathExists(to))
        } else {
            (p.at(Stage::StoreCheck), Action::PathIsDir(String::from_str("/nix/store")))
        }
    }

    /// Once the user agreed (or was not asked).
    pub open spec fn proceed(p: ProgressView) -> (ProgressView, ActionView) {
        (p.at(Stage::BlankLine), ActionView::BlankLine)
    }

    /// The check of the certificate bundle.
    pub open spec fn check_ca(p: ProgressView) -> (ProgressView, ActionView) {
        (p.at(Stage::CaCheck), ActionView::PathExists(ca_bundle()))
    }

    /// The removal of the `/run/current-system` symlink.
    pub open spec fn announce_symlink(p: ProgressView) -> (ProgressView, ActionView) {
        (p.at(Stage::SymlinkAnnounced), log_plain(Level::Info, "removing /run/current-system symlink"@))
    }

    /// The last line.
    pub open spec fn report_done(p: ProgressView) -> (ProgressView, ActionView) {
        (p.at(Stage::DoneReported), log_plain(Level::Success, "nix-darwin has been uninstalled!"@))
    }

    fn proceed_exec(p: Progress) -> (r: (Progress, Action))
        ensures
            (r.0@, r.1@) == Self::proceed(p@),
    {
        (p.at(Stage::BlankLine), Action::BlankLine)
    }

    fn check_ca_exec(p: Progress) -> (r: (Progress, Action))
        ensures
            (r.0@, r.1@) == Self::check_ca(p@),
    {
        (p.at(Stage::CaCheck), Action::PathExists(String::from_str("/etc/ssl/certs/ca-certificates.crt")))
    }

    fn announce_symlink_exec(p: Progress) -> (r: (Progress, Action))
        ensures
            (r.0@, r.1@) == Self::announce_symlink(p@),
    {
        (p.at(Stage::SymlinkAnnounced), log_line(Level::Info, "removing /run/current-system symlink"))
    }

    fn report_done_exec(p: Progress) -> (r: (Progress, Action))
        ensures
            (r.0@, r.1@) == Self::report_done(p@),
    {
        (p.at(Stage::DoneReported), log_line(Level::Success, "nix-darwin has been uninstalled!"))
    }
}

impl Command for UninstallCommand {
    open spec fn uses(&self, stage: Stage) -> bool {
        preparing(stage) || restoring_etc(stage) || restoring_daemon(stage) || finishing(stage)
    }

    open spec fn next(&self, p: ProgressView, e: EventView) -> (ProgressView, ActionView) {
        match (p.stage, e) {
            (Stage::Start, _) => (p.at(Stage::Root), ActionView::EnsureRoot),
            (Stage::Root, _) => (p.at(Stage::BuildAnnounced), log_plain(Level::Info, "building uninstall system"@)),
            (Stage::BuildAnnounced, _) => (p.at(Stage::Build), ActionView::BuildUninstallSystem),
            (Stage::Build, EventView::Text(out)) =>
                (ProgressView { stage: Stage::BuildReported, out, ..p }, built_line(out)),
            (Stage::BuildReported, _) => if self.no_confirm {
                Self::proceed(p)
            } else {
                (p.at(Stage::Confirm), ActionView::Confirm("are you sure you want to uninstall nix-darwin?"@, false))
            },
            (Stage::Confirm, EventView::Flag(true)) => Self::proceed(p),
            (Stage::Confirm, EventView::Flag(false)) => (p.at(Stage::Finished), finish_ok()),
            (Stage::BlankLine, _) =>
                (p.at(Stage::ProfileAnnounced), log_plain(Level::Info, "configuring uninstall profile"@)),
            (Stage::ProfileAnnounced, _) =>
                (p.at(Stage::Profile), ActionView::Profile("/nix/var/nix/profiles/system"@, p.out)),
            (Stage::Profile, EventView::Done) => (
                p.at(Stage::ActivateUserAnnounced),
                log_dimmed(Level::Info, "activating uninstall "@, "(activate-user)"@),
            ),
            (Stage::ActivateUserAnnounced, _) => (p.at(Stage::ActivateUser), ActionView::ActivateUser(p.out)),
            (Stage::ActivateUser, EventView::Done) => (
                p.at(Stage::ActivateAnnounced),
                log_dimmed(Level::Info, "activating uninstall "@, "(activate)"@),
            ),
            (Stage::ActivateAnnounced, _) => (p.at(Stage::Activate), ActionView::Activate(p.out)),
            (Stage::Activate, EventView::Done) =>
                (p.at(Stage::ResidualAnnounced), log_plain(Level::Info, "removing residual files"@)),
            (Stage::ResidualAnnounced, _) =>
                (p.at(Stage::RemoveApps), ActionView::RemoveFile("/Applications/Nix Apps"@)),
            (Stage::RemoveApps, EventView::Done) => (p.at(Stage::RemoveStatic), ActionView::RemoveFile("/etc/static"@)),
            (Stage::RemoveStatic, EventView::Done) =>
                (p.at(Stage::EtcAnnounced), log_plain(Level::Info, "restoring /etc files before nix-darwin"@)),
            (Stage::EtcAnnounced, _) => (p.at(Stage::ListEtc), ActionView::ListFiles("/etc"@)),
            (Stage::ListEtc, EventView::List(files)) => Self::seek_saved(ProgressView { files, ..p }, 0),
            (Stage::EtcTargetCheck, EventView::Flag(true)) => Self::seek_saved(p, p.index + 1),
            (Stage::EtcTargetCheck, EventView::Flag(false)) => {
                let from = p.files[p.index];
                (p.at(Stage::EtcRename), ActionView::Rename(from, restore_target(from)->0))
            },
            (Stage::EtcRename, EventView::Done) => {
                let from = p.files[p.index];
                (p.at(Stage::EtcRenamedReported), ActionView::Log(Level::Warn, restored_line(from, restore_target(from)->0)))
            },
            (Stage::EtcRenamedReported, _) => Self::seek_saved(p, p.index + 1),
            (Stage::StoreCheck, EventView::Flag(true)) =>
                (p.at(Stage::DaemonCheck), ActionView::PathExists(nix_daemon_plist())),
            (Stage::StoreCheck, EventView::Flag(false)) => Self::check_ca(p),
            (Stage::DaemonCheck, EventView::Flag(true)) => Self::check_ca(p),
            (Stage::DaemonCheck, EventView::Flag(false)) =>
                (p.at(Stage::DaemonAnnounced), log_plain(Level::Info, "restoring nix daemon into launchctl"@)),
            (Stage::DaemonAnnounced, _) => (p.at(Stage::RemovePlist), ActionView::RemoveFile(nix_daemon_plist())),
            (Stage::RemovePlist, EventView::Done) => (p.at(Stage::Unload), ActionView::Run(launchctl_remove_view())),
            (Stage::Unload, EventView::Flag(_)) =>
                (p.at(Stage::CopyDaemon), ActionView::CopyFile(daemon_source(), nix_daemon_plist())),
            (Stage::CopyDaemon, EventView::Flag(true)) =>
                (p.at(Stage::LoadDaemon), ActionView::Run(launchctl_load_view(nix_daemon_plist()))),
            (Stage::CopyDaemon, EventView::Flag(false)) => (
                p.at(Stage::DaemonMissingReported),
                log_plain(Level::Warn, "could not restore nix daemon from nix-installer install!"@),
            ),
            (Stage::LoadDaemon, EventView::Flag(true)) => Self::check_ca(p),
            (Stage::LoadDaemon, EventView::Flag(false)) =>
                (p.at(Stage::Finished), finish_err(ErrorView::Message(load_failure()))),
            (Stage::DaemonMissingReported, _) => Self::check_ca(p),
            (Stage::CaCheck, EventView::Flag(true)) => Self::announce_symlink(p),
            (Stage::CaCheck, EventView::Flag(false)) =>
                (p.at(Stage::CaAnnounced), log_plain(Level::Info, "restoring certificate authority bundle"@)),
            (Stage::CaAnnounced, _) => (p.at(Stage::LinkCa), ActionView::Symlink(ca_source(), ca_bundle())),
            (Stage::LinkCa, EventView::Flag(true)) => Self::announce_symlink(p),
            (Stage::LinkCa, EventView::Flag(false)) => (
                p.at(Stage::CaMissingReported),
                log_plain(Level::Warn, "could not restore CA bundle from nix-installer install!"@),
            ),
            (Stage::CaMissingReported, _) => Self::announce_symlink(p),
            (Stage::SymlinkAnnounced, _) =>
                (p.at(Stage::SymlinkCheck), ActionView::PathIsSymlink("/run/current-system"@)),
            (Stage::SymlinkCheck, EventView::Flag(true)) =>
                (p.at(Stage::RemoveSymlink), ActionView::RemoveFile("/run/current-system"@)),
            (Stage::SymlinkCheck, EventView::Flag(false)) => Self::report_done(p),
            (Stage::RemoveSymlink, EventView::Done) => Self::report_done(p),
            (Stage::DoneReported, _) => (p.at(Stage::Finished), finish_ok()),
            (_, EventView::Failed(err)) => (p.at(Stage::Finished), finish_err(err)),
            _ => (p.at(Stage::Finished), finish_ok()),
        }
    }

    fn action(&self, global_options: &Cli, progress: Progress, event: Event) -> (r: (Progress, Action)) {
        let p = progress;
        match p.stage {
            Stage::Start | Stage::Root | Stage::BuildAnnounced | Stage::Build | Stage::BuildReported
            | Stage::Confirm | Stage::BlankLine | Stage::ProfileAnnounced | Stage::Profile
            | Stage::ActivateUserAnnounced | Stage::ActivateUser | Stage::ActivateAnnounced
            | Stage::Activate | Stage::ResidualAnnounced | Stage::RemoveApps
            | Stage::RemoveStatic => {
                self.step_prepare(p, event)
            },
            Stage::EtcAnnounced | Stage::ListEtc | Stage::EtcTargetCheck | Stage::EtcRename
            | Stage::EtcRenamedReported => {
                self.step_etc(p, event)
            },
            Stage::StoreCheck | Stage::DaemonCheck | Stage::DaemonAnnounced | Stage::RemovePlist
            | Stage::Unload | Stage::CopyDaemon | Stage::LoadDaemon
            | Stage::DaemonMissingReported => {
                self.step_daemon(p, event)
            },
            Stage::CaCheck | Stage::CaAnnounced | Stage::LinkCa | Stage::CaMissingReported
            | Stage::SymlinkAnnounced | Stage::SymlinkCheck | Stage::RemoveSymlink
            | Stage::DoneReported => {
                self.step_finish(p, event)
            },
            _ => fail(p, Error::message("")),
        }
    }
}

impl UninstallCommand {
    /// The steps up to the removal of residual files.
    fn step_prepare(&self, p: Progress, event: Event) -> (r: (Progress, Action))
        requires
            self.uses(p.stage),
            answers(p.stage, event@),
            progress_wf(p@),
            preparing(p.stage),
        ensures
            (r.0@, r.1@) == self.next(p@, event@),
            progress_wf(r.0@),
            r.1 is Finish <==> r.0.stage == Stage::Finished,
            r.0.stage == Stage::Finished || self.uses(r.0.stage),
    {
        proof {
            assert(p@.files.len() == p.files.len());
        }
        match p.stage {
            Stage::Start => (p.at(Stage::Root), Action::EnsureRoot),
            Stage::Root => (p.at(Stage::BuildAnnounced), log_line(Level::Info, "building uninstall system")),
            Stage::BuildAnnounced => (p.at(Stage::Build), Action::BuildUninstallSystem),
            Stage::Build => match event {
                Event::Text(out) => {
                    let line = built_line_of(out.as_str());
                    (Progress { stage: Stage::BuildReported, out, ..p }, line)
                },
                Event::Failed(e) => fail(p, e),
                _ => fail(p, Error::message("")),
            },
            Stage::BuildReported => {
                if self.no_confirm {
                    Self::proceed_exec(p)
                } else {
                    (
                        p.at(Stage::Confirm),
                        Action::Confirm(String::from_str("are you sure you want to uninstall nix-darwin?"), false),
                    )
                }
            },
            Stage::Confirm => match event {
                Event::Flag(true) => Self::proceed_exec(p),
                Event::Flag(false) => finish(p),
                Event::Failed(e) => fail(p, e),
                _ => fail(p, Error::message("")),
            },
            Stage::BlankLine => (p.at(Stage::ProfileAnnounced), log_line(Level::Info, "configuring uninstall profile")),
            Stage::ProfileAnnounced => {
                let out = p.out.clone();
                (p.at(Stage::Profile), Action::Profile(String::from_str("/nix/var/nix/profiles/system"), out))
            },
            Stage::Profile => match event {
                Event::Done => (
                    p.at(Stage::ActivateUserAnnounced),
                    log_line_dimmed(Level::Info, "activating uninstall ", "(activate-user)"),
                ),
                Event::Failed(e) => fail(p, e),
                _ => fail(p, Error::message("")),
            },
            Stage::ActivateUserAnnounced => {
                let out = p.out.clone();
                (p.at(Stage::ActivateUser), Action::ActivateUser(out))
            },
            Stage::ActivateUser => match event {
                Event::Done => (
                    p.at(Stage::ActivateAnnounced),
                    log_line_dimmed(Level::Info, "activating uninstall ", "(activate)"),
                ),
                Event::Failed(e) => fail(p, e),
                _ => fail(p, Error::message("")),
            },
            Stage::ActivateAnnounced => {
                let out = p.out.clone();
                (p.at(Stage::Activate), Action::Activate(out))
            },
            Stage::Activate => match event {
                Event::Done => (p.at(Stage::ResidualAnnounced), log_line(Level::Info, "removing residual files")),
                Event::Failed(e) => fail(p, e),
                _ => fail(p, Error::message("")),
            },
            Stage::ResidualAnnounced =>
                (p.at(Stage::RemoveApps), Action::RemoveFile(String::from_str("/Applications/Nix Apps"))),
            Stage::RemoveApps => match event {
                Event::Done => (p.at(Stage::RemoveStatic), Action::RemoveFile(String::from_str("/etc/static"))),
                Event::Failed(e) => fail(p, e),
                _ => fail(p, Error::message("")),
            },
            Stage::RemoveStatic => match event {
                Event::Done => (p.at(Stage::EtcAnnounced), log_line(Level::Info, "restoring /etc files before nix-darwin")),
                Event::Failed(e) => fail(p, e),
                _ => fail(p, Error::message("")),
            },
            _ => fail(p, Error::message("")),
        }
    }

    /// The steps that put back the files under `/etc` that nix-darwin moved aside.
    fn step_etc(&self, p: Progress, event: Event) -> (r: (Progress, Action))
        requires
            self.uses(p.stage),
            answers(p.stage, event@),
            progress_wf(p@),
            restoring_etc(p.stage),
        ensures
            (r.0@, r.1@) == self.next(p@, event@),
            progress_wf(r.0@),
            r.1 is Finish <==> r.0.stage == Stage::Finished,
            r.0.stage == Stage::Finished || self.uses(r.0.stage),
    {
        proof {
            assert(p@.files.len() == p.files.len());
        }
        match p.stage {
            Stage::EtcAnnounced => (p.at(Stage::ListEtc), Action::ListFiles(String::from_str("/etc"))),
            Stage::ListEtc => match event {
                Event::List(files) => Self::seek_saved_exec(Progress { files, ..p }, 0),
                _ => fail(p, Error::message("")),
            },
            Stage::EtcTargetCheck => match event {
                Event::Flag(true) => {
                    let next = p.index + 1;
                    Self::seek_saved_exec(p, next)
                },
                Event::Flag(false) => {
                    let from = p.files[p.index].clone();
                    let to = Self::target_of(&from);
                    (p.at(Stage::EtcRename), Action::Rename(from, to))
                },
                _ => fail(p, Error::message("")),
            },
            Stage::EtcRename => match event {
                Event::Done => {
                    let from = p.files[p.index].clone();
                    let to = Self::target_of(&from);
                    let line = restored_line_of(from.as_str(), to.as_str());
                    (p.at(Stage::EtcRenamedReported), Action::Log(Level::Warn, line))
                },
                Event::Failed(e) => fail(p, e),
                _ => fail(p, Error::message("")),
            },
            Stage::EtcRenamedReported => {
                let next = p.index + 1;
                Self::seek_saved_exec(p, next)
            },
            _ => fail(p, Error::message("")),
        }
    }

    /// The steps that give the Nix daemon back to launchd.
    fn step_daemon(&self, p: Progress, event: Event) -> (r: (Progress, Action))
        requires
            self.uses(p.stage),
            answers(p.stage, event@),
            progress_wf(p@),
            restoring_daemon(p.stage),
        ensures
            (r.0@, r.1@) == self.next(p@, event@),
            progress_wf(r.0@),
            r.1 is Finish <==> r.0.stage == Stage::Finished,
            r.0.stage == Stage::Finished || self.uses(r.0.stage),
    {
        proof {
            assert(p@.files.len() == p.files.len());
        }
        match p.stage {
            Stage::StoreCheck => match event {
                Event::Flag(true) => (
                    p.at(Stage::DaemonCheck),
                    Action::PathExists(String::from_str("/Library/LaunchDaemons/org.nixos.nix-daemon.plist")),
                ),
                Event::Flag(false) => Self::check_ca_exec(p),
                _ => fail(p, Error::message("")),
            },
            Stage::DaemonCheck => match event {
                Event::Flag(true) => Self::check_ca_exec(p),
                Event::Flag(false) => (p.at(Stage::DaemonAnnounced), log_line(Level::Info, "restoring nix daemon into launchctl")),
                _ => fail(p, Error::message("")),
            },
            Stage::DaemonAnnounced => (
                p.at(Stage::RemovePlist),
                Action::RemoveFile(String::from_str("/Library/LaunchDaemons/org.nixos.nix-daemon.plist")),
            ),
            Stage::RemovePlist => match event {
                Event::Done => (p.at(Stage::Unload), Action::Run(launchctl_remove_command())),
                Event::Failed(e) => fail(p, e),
                _ => fail(p, Error::message("")),
            },
            Stage::Unload => match event {
                Event::Flag(_) => (
                    p.at(Stage::CopyDaemon),
                    Action::CopyFile(
                        String::from_str(daemon_source_path()),
                        String::from_str("/Library/LaunchDaemons/org.nixos.nix-daemon.plist"),
                    ),
                ),
                Event::Failed(e) => fail(p, e),
                _ => fail(p, Error::message("")),
            },
            Stage::CopyDaemon => match event {
                Event::Flag(true) => (
                    p.at(Stage::LoadDaemon),
                    Action::Run(launchctl_load_command("/Library/LaunchDaemons/org.nixos.nix-daemon.plist")),
                ),
                Event::Flag(false) => (
                    p.at(Stage::DaemonMissingReported),
                    log_line(Level::Warn, "could not restore nix daemon from nix-installer install!"),
                ),
                Event::Failed(e) => fail(p, e),
                _ => fail(p, Error::message("")),
            },
            Stage::LoadDaemon => match event {
                Event::Flag(true) => Self::check_ca_exec(p),
                Event::Flag(false) => fail(p, Error::message("failed to load `org.nixos.nix-daemon` into launchctl")),
                Event::Failed(e) => fail(p, e),
                _ => fail(p, Error::message("")),
            },
            Stage::DaemonMissingReported => Self::check_ca_exec(p),
            _ => fail(p, Error::message("")),
        }
    }

    /// The steps from the certificate bundle on.
    fn step_finish(&self, p: Progress, event: Event) -> (r: (Progress, Action))
        requires
            self.uses(p.stage),
            answers(p.stage, event@),
            progress_wf(p@),
            finishing(p.stage),
        ensures
            (r.0@, r.1@) == self.next(p@, event@),
            progress_wf(r.0@),
            r.1 is Finish <==> r.0.stage == Stage::Finished,
            r.0.stage == Stage::Finished || self.uses(r.0.stage),
    {
        proof {
            assert(p@.files.len() == p.files.len());
        }
        match p.stage {
            Stage::CaCheck => match event {
                Event::Flag(true) => Self::announce_symlink_exec(p),
                Event::Flag(false) => (p.at(Stage::CaAnnounced), log_line(Level::Info, "restoring certificate authority bundle")),
                _ => fail(p, Error::message("")),
            },
            Stage::CaAnnounced => (
                p.at(Stage::LinkCa),
                Action::Symlink(String::from_str(ca_source_path()), String::from_str("/etc/ssl/certs/ca-certificates.crt")),
            ),
            Stage::LinkCa => match event {
                Event::Flag(true) => Self::announce_symlink_exec(p),
                Event::Flag(false) => (
                    p.at(Stage::CaMissingReported),
                    log_line(Level::Warn, "could not restore CA bundle from nix-installer install!"),
                ),
                Event::Failed(e) => fail(p, e),
                _ => fail(p, Error::message("")),
            },
            Stage::CaMissingReported => Self::announce_symlink_exec(p),
            Stage::SymlinkAnnounced =>
                (p.at(Stage::SymlinkCheck), Action::PathIsSymlink(String::from_str("/run/current-system"))),
            Stage::SymlinkCheck => match event {
                Event::Flag(true) => (p.at(Stage::RemoveSymlink), Action::RemoveFile(String::from_str("/run/current-system"))),
                Event::Flag(false) => Self::report_done_exec(p),
                _ => fail(p, Error::message("")),
            },
            Stage::RemoveSymlink => match event {
                Event::Done => Self::report_done_exec(p),
                Event::Failed(e) => fail(p, e),
                _ => fail(p, Error::message("")),
            },
            Stage::DoneReported => finish(p),
            _ => fail(p, Error::message("")),
        }
    }
}

} // verus!

verus! {

/// The expression of the uninstaller system for architecture `arch`: the
/// template with `<HOST_PLATFORM>` filled in.
pub open spec fn uninstall_expr(template: Seq<char>, arch: Seq<char>) -> Seq<char> {
    replace_all(template, "<HOST_PLATFORM>"@, host_platform(arch))
}

pub fn uninstall_expr_of(template: &str, arch: &str) -> (r: String)
    ensures
        r@ == uninstall_expr(template@, arch@),
{
    let platform = host_platform_of(arch);
    proof {
        reveal_strlit("<HOST_PLATFORM>");
    }
    replace_str(template, "<HOST_PLATFORM>", platform.as_str())
}

/// The arguments of the uninstaller build.
pub open spec fn uninstall_build_args(expr: Seq<char>) -> Seq<Seq<char>> {
    seq![
        "build"@,
        "--impure"@,
        "--json"@,
        "--no-link"@,
        "--extra-experimental-features"@,
        "nix-command"@,
        "--extra-experimental-features"@,
        "flakes"@,
        "--expr"@,
        expr,
    ]
}

/// `nix build` of the uninstaller expression, with standard error shown.
pub fn build_uninstall_command(expr: &str) -> (r: CommandSpec)
    ensures
        r@ == command("nix"@, uninstall_build_args(expr@)).with_stderr(Stdio::Inherit),
{
    let mut c = CommandSpec::new("nix");
    c.arg("build");
    c.arg("--impure");
    c.arg("--json");
    c.arg("--no-link");
    c.arg("--extra-experimental-features");
    c.arg("nix-command");
    c.arg("--extra-experimental-features");
    c.arg("flakes");
    c.arg("--expr");
    c.arg(expr);
    c.set_stderr(Stdio::Inherit);
    proof {
        assert(c@.args =~= uninstall_build_args(expr@));
    }
    c
}

pub open spec fn uninstall_build_failure() -> Seq<char> {
    "failed to build uninstall system with nix"@
}

/// The store path of the uninstaller, from what its build reported.
pub fn build_uninstall_result(output: &ProcessOutput, data: Result<Vec<NixTopLevelData>, Error>) -> (r: Result<String, Error>)
    ensures
        !output.success ==> fails_with(r, uninstall_build_failure()),
        output.success ==> match data {
            Err(e) => r == Err::<String, Error>(e),
            Ok(d) => match first_out(d@) {
                Some(o) => (r matches Ok(s) && s@ == o),
                None => fails_with(r, uninstall_build_failure()),
            },
        },
{
    build_outcome(output, data, "failed to build uninstall system with nix")
}

/// The warning that shows a restored `/etc` file: `<from> => <to>`, the
/// arrow dimmed.
pub open spec fn restored_line(from: Seq<char>, to: Seq<char>) -> Seq<(Seq<char>, Style)> {
    seq![(from, Style::Plain), (" "@, Style::Plain), ("=>"@, Style::Dimmed), (" "@, Style::Plain), (to, Style::Plain)]
}

pub fn restored_line_of(from: &str, to: &str) -> (r: Vec<Segment>)
    ensures
        segments_view(r@) == restored_line(from@, to@),
{
    let r = vec![
        segment(from, Style::Plain),
        segment(" ", Style::Plain),
        segment("=>", Style::Dimmed),
        segment(" ", Style::Plain),
        segment(to, Style::Plain),
    ];
    proof {
        assert(segments_view(r@) =~= restored_line(from@, to@));
    }
    r
}

/// Where the Nix installer keeps the daemon's launchd definition.
pub open spec fn daemon_source() -> Seq<char> {
    "/nix/var/nix/profiles/default/Library/LaunchDaemons/org.nixos.nix-daemon.plist"@
}

pub fn daemon_source_path() -> (r: &'static str)
    ensures
        r@ == daemon_source(),
{
    "/nix/var/nix/profiles/default/Library/LaunchDaemons/org.nixos.nix-daemon.plist"
}

/// `launchctl remove org.nixos.nix-daemon`, its output discarded.
pub open spec fn launchctl_remove_view() -> CommandView {
    command("launchctl"@, seq!["remove"@, "org.nixos.nix-daemon"@]).with_stdout(Stdio::Null)
}

/// `launchctl load -w <plist>`, its output discarded.
pub open spec fn launchctl_load_view(plist: Seq<char>) -> CommandView {
    command("launchctl"@, seq!["load"@, "-w"@, plist]).with_stdout(Stdio::Null)
}

pub fn launchctl_remove_command() -> (r: CommandSpec)
    ensures
        r@ == launchctl_remove_view(),
{
    let mut c = CommandSpec::new("launchctl");
    c.arg("remove");
    c.arg("org.nixos.nix-daemon");
    c.set_stdout(Stdio::Null);
    proof {
        assert(c@.args =~= seq!["remove"@, "org.nixos.nix-daemon"@]);
    }
    c
}

pub fn launchctl_load_command(plist: &str) -> (r: CommandSpec)
    ensures
        r@ == launchctl_load_view(plist@),
{
    let mut c = CommandSpec::new("launchctl");
    c.arg("load");
    c.arg("-w");
    c.arg(plist);
    c.set_stdout(Stdio::Null);
    proof {
        assert(c@.args =~= seq!["load"@, "-w"@, plist@]);
    }
    c
}

pub open spec fn load_failure() -> Seq<char> {
    "failed to load `org.nixos.nix-daemon` into launchctl"@
}


/// Where the Nix installer keeps the certificate bundle.
pub open spec fn ca_source() -> Seq<char> {
    "/nix/var/nix/profiles/default/etc/ssl/certs/ca-bundle.crt"@
}

pub fn ca_source_path() -> (r: &'static str)
    ensures
        r@ == ca_source(),
{
    "/nix/var/nix/profiles/default/etc/ssl/certs/ca-bundle.crt"
}

/// How copying or linking a file from the Nix installer went: `Ok(true)`
/// when it was done, `Ok(false)` when the installer's file is missing (only
/// a warning), and an error for any other failure.
pub fn restore_step(outcome: FsOutcome) -> (r: Result<bool, Error>)
    ensures
        outcome is Done ==> r == Ok::<bool, Error>(true),
        outcome is NotFound ==> r == Ok::<bool, Error>(false),
        outcome is Failed ==> (r matches Err(e) && e@ == ErrorView::Io(outcome->Failed_0@)),
{
    match outcome {
        FsOutcome::Done => Ok(true),
        FsOutcome::NotFound => Ok(false),
        FsOutcome::Failed(m) => Err(Error::Io(m)),
    }
}



} // verus!
