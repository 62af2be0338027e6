//! The subcommands, each as a step function: given how far it has got and
//! what the last thing it asked for gave back, it decides what to ask for
//! next. The binary performs each [`Action`] and answers with an [`Event`]
//! until the command asks to [`Action::Finish`].

use vstd::prelude::*;
use vstd::string::*;

use crate::error::{Error, ErrorView};
use crate::util::log::{segments_view, Level, Segment, Style};
use crate::util::{CommandSpec, CommandView};

pub mod build_cmd;
pub mod completions;
pub mod guarantees;
pub mod init;
pub mod switch;
pub mod uninstall;
pub mod wipe_history;

pub use build_cmd::BuildCommand;
pub use completions::{CompletionCommand, Shell};
pub use init::InitCommand;
pub use switch::SwitchCommand;
pub use uninstall::UninstallCommand;
pub use wipe_history::WipeHistoryCommand;

verus! {

/// The parsed command line.
pub struct Cli {
    pub command: Commands,
}

/// The subcommands.
pub enum Commands {
    /// Switch to a nix-darwin configuration
    Switch(SwitchCommand),
    /// Build a nix-darwin configuration
    Build(BuildCommand),
    /// Initialize a basic bootstrapped system
    Init(InitCommand),
    /// Do not go gentle into that good night
    Uninstall(UninstallCommand),
    /// Delete old versions of nix-darwin and Home Manager profiles
    WipeHistory(WipeHistoryCommand),
    /// Generate completions
    Completions(CompletionCommand),
}

/// A request to build a nix-darwin system.
#[derive(Debug, PartialEq, Eq)]
pub struct BuildRequest {
    pub program: String,
    pub flake_url: String,
    pub flake_attr: String,
    pub extra_build_flags: Vec<String>,
    pub out_link: bool,
}

pub struct BuildRequestView {
    pub program: Seq<char>,
    pub flake_url: Seq<char>,
    pub flake_attr: Seq<char>,
    pub extra_build_flags: Seq<Seq<char>>,
    pub out_link: bool,
}

impl View for BuildRequest {
    type V = BuildRequestView;

    open spec fn view(&self) -> BuildRequestView {
        BuildRequestView {
            program: self.program@,
            flake_url: self.flake_url@,
            flake_attr: self.flake_attr@,
            extra_build_flags: self.extra_build_flags.deep_view(),
            out_link: self.out_link,
        }
    }
}

/// A request to wipe the history of a Nix profile.
#[derive(Debug, PartialEq, Eq)]
pub struct WipeRequest {
    pub profile: String,
    pub sudo: bool,
    pub older_than: Option<String>,
}

/// What a subcommand asks for next.
#[derive(Debug, PartialEq, Eq)]
pub enum Action {
    /// Print a log line (answered by `Done`).
    Log(Level, Vec<Segment>),
    /// Print an empty line on standard error (answered by `Done`).
    BlankLine,
    /// Is this program on `PATH`? (answered by `Flag`)
    Which(String),
    /// The host's local name (answered by `Text` or `Failed`).
    Hostname,
    /// The resolved URL of the flake in the working directory (`Text` or `Failed`).
    DefaultFlake,
    /// Build a system; the answer is its store path (`Text` or `Failed`).
    Build(BuildRequest),
    /// Show what changes from the running system to this one (`Done` or `Failed`).
    Diff(String),
    /// Ask a yes/no question with a default (`Flag` or `Failed`).
    Confirm(String, bool),
    /// Point the profile (first) at the system (second) (`Done` or `Failed`).
    Profile(String, String),
    /// Activate the system (`Done` or `Failed`).
    Activate(String),
    /// Run the user activation of the system (`Done` or `Failed`).
    ActivateUser(String),
    /// Does this path exist? (`Flag`)
    PathExists(String),
    /// Is this path a directory? (`Flag`)
    PathIsDir(String),
    /// Is this path a symbolic link? (`Flag`)
    PathIsSymlink(String),
    /// Write the bootstrap flake; the answer is its directory (`Text` or `Failed`).
    Bootstrap,
    /// Build the uninstaller system; the answer is its store path (`Text` or `Failed`).
    BuildUninstallSystem,
    /// Remove a file; a missing one is fine (`Done` or `Failed`).
    RemoveFile(String),
    /// Every regular file under this directory (answered by `List`).
    ListFiles(String),
    /// Rename a file (first) to a path (second) (`Done` or `Failed`).
    Rename(String, String),
    /// Run a process; the answer tells whether it exited successfully
    /// (`Flag` or `Failed`).
    Run(CommandSpec),
    /// Copy a file (first) to a path (second); the answer tells whether the
    /// source was there (`Flag` or `Failed`).
    CopyFile(String, String),
    /// Make a symbolic link to a target (first) at a path (second); the
    /// answer tells whether the target was there (`Flag` or `Failed`).
    Symlink(String, String),
    /// Make sure the process runs as root (answered by `Done`).
    EnsureRoot,
    /// Wipe the history of a profile (`Done` or `Failed`).
    Wipe(WipeRequest),
    /// The user's state directory (`Text` or `Failed`).
    StateHome,
    /// Print the completion script for this shell (answered by `Done`).
    PrintCompletions(Shell),
    /// The command is over, with this result.
    Finish(Result<(), Error>),
}

/// The mathematical value of an [`Action`].
pub enum ActionView {
    Log(Level, Seq<(Seq<char>, Style)>),
    BlankLine,
    Which(Seq<char>),
    Hostname,
    DefaultFlake,
    Build(BuildRequestView),
    Diff(Seq<char>),
    Confirm(Seq<char>, bool),
    Profile(Seq<char>, Seq<char>),
    Activate(Seq<char>),
    ActivateUser(Seq<char>),
    PathExists(Seq<char>),
    PathIsDir(Seq<char>),
    PathIsSymlink(Seq<char>),
    Bootstrap,
    BuildUninstallSystem,
    RemoveFile(Seq<char>),
    ListFiles(Seq<char>),
    Rename(Seq<char>, Seq<char>),
    Run(CommandView),
    CopyFile(Seq<char>, Seq<char>),
    Symlink(Seq<char>, Seq<char>),
    EnsureRoot,
    Wipe(Seq<char>, bool, Option<Seq<char>>),
    StateHome,
    PrintCompletions(Shell),
    Finish(Result<(), ErrorView>),
}

pub open spec fn opt_string_view(o: Option<String>) -> Option<Seq<char>> {
    match o {
        Some(s) => Some(s@),
        None => None,
    }
}

pub open spec fn result_view(r: Result<(), Error>) -> Result<(), ErrorView> {
    match r {
        Ok(()) => Ok(()),
        Err(e) => Err(e@),
    }
}

impl View for Action {
    type V = ActionView;

    open spec fn view(&self) -> ActionView {
        match self {
            Action::Log(l, m) => ActionView::Log(*l, segments_view(m@)),
            Action::BlankLine => ActionView::BlankLine,
            Action::Which(s) => ActionView::Which(s@),
            Action::Hostname => ActionView::Hostname,
            Action::DefaultFlake => ActionView::DefaultFlake,
            Action::Build(b) => ActionView::Build(b@),
            Action::Diff(s) => ActionView::Diff(s@),
            Action::Confirm(s, d) => ActionView::Confirm(s@, *d),
            Action::Profile(p, o) => ActionView::Profile(p@, o@),
            Action::Activate(s) => ActionView::Activate(s@),
            Action::ActivateUser(s) => ActionView::ActivateUser(s@),
            Action::PathExists(s) => ActionView::PathExists(s@),
            Action::PathIsDir(s) => ActionView::PathIsDir(s@),
            Action::PathIsSymlink(s) => ActionView::PathIsSymlink(s@),
            Action::Bootstrap => ActionView::Bootstrap,
            Action::BuildUninstallSystem => ActionView::BuildUninstallSystem,
            Action::RemoveFile(s) => ActionView::RemoveFile(s@),
            Action::ListFiles(d) => ActionView::ListFiles(d@),
            Action::Rename(a, b) => ActionView::Rename(a@, b@),
            Action::Run(c) => ActionView::Run(c@),
            Action::CopyFile(a, b) => ActionView::CopyFile(a@, b@),
            Action::Symlink(a, b) => ActionView::Symlink(a@, b@),
            Action::EnsureRoot => ActionView::EnsureRoot,
            Action::Wipe(w) => ActionView::Wipe(w.profile@, w.sudo, opt_string_view(w.older_than)),
            Action::StateHome => ActionView::StateHome,
            Action::PrintCompletions(s) => ActionView::PrintCompletions(*s),
            Action::Finish(r) => ActionView::Finish(result_view(*r)),
        }
    }
}

/// The answer to an [`Action`].
#[derive(Debug, PartialEq, Eq)]
pub enum Event {
    /// The action was carried out.
    Done,
    /// The answer to a yes/no question.
    Flag(bool),
    /// A value the action produced.
    Text(String),
    /// The paths the action listed.
    List(Vec<String>),
    /// The action failed.
    Failed(Error),
}

pub enum EventView {
    Done,
    Flag(bool),
    Text(Seq<char>),
    List(Seq<Seq<char>>),
    Failed(ErrorView),
}

impl View for Event {
    type V = EventView;

    open spec fn view(&self) -> EventView {
        match self {
            Event::Done => EventView::Done,
            Event::Flag(b) => EventView::Flag(*b),
            Event::Text(s) => EventView::Text(s@),
            Event::List(v) => EventView::List(v.deep_view()),
            Event::Failed(e) => EventView::Failed(e@),
        }
    }
}

/// What a subcommand is waiting for.
#[derive(Clone, Copy, Debug, PartialEq, Eq)]
pub enum Stage {
    /// Nothing asked yet.
    Start,
    /// Waiting for the answer to the lookup of `nom` on `PATH`.
    NomLookup,
    /// Waiting for the answer to the lookup of `nvd` on `PATH`.
    NvdLookup,
    /// Waiting for the answer to the lookup of `nix` on `PATH`.
    NixLookup,
    /// Waiting for the default flake URL.
    DefaultFlake,
    /// Waiting for the host name.
    Hostname,
    /// Waiting for the log line that announces the build.
    BuildAnnounced,
    /// Waiting for the build.
    Build,
    /// Waiting for the log line that shows the built system.
    BuildReported,
    /// Waiting for the diff.
    Diff,
    /// Waiting for the answer to the confirmation prompt.
    Confirm,
    /// Waiting for the log line that announces the profile.
    ProfileAnnounced,
    /// Waiting for the profile to be set.
    Profile,
    /// Waiting for the log line that announces the user activation.
    ActivateUserAnnounced,
    /// Waiting for the user activation.
    ActivateUser,
    /// Waiting for the log line that announces the activation.
    ActivateAnnounced,
    /// Waiting for the activation.
    Activate,
    /// Waiting for the error line that says Nix is missing.
    NixMissingReported,
    /// Waiting for the check of an existing installation.
    InstalledCheck,
    /// Waiting for the warning that nix-darwin is already installed.
    InstalledReported,
    /// Waiting for the bootstrap flake to be written.
    Bootstrap,
    /// Waiting for the switch to root.
    Root,
    /// Waiting for the blank line before the uninstallation proper.
    BlankLine,
    /// Waiting for the log line that announces the removal of residual files.
    ResidualAnnounced,
    /// Waiting for `/Applications/Nix Apps` to be removed.
    RemoveApps,
    /// Waiting for `/etc/static` to be removed.
    RemoveStatic,
    /// Waiting for the log line that announces the restoration of `/etc`.
    EtcAnnounced,
    /// Waiting for the list of files under `/etc`.
    ListEtc,
    /// Waiting for the check that a saved file's original place is free.
    EtcTargetCheck,
    /// Waiting for a saved file to be moved back.
    EtcRename,
    /// Waiting for the warning that shows a restored file.
    EtcRenamedReported,
    /// Waiting for the check that `/nix/store` is a directory.
    StoreCheck,
    /// Waiting for the check that the daemon's launchd file exists.
    DaemonCheck,
    /// Waiting for the log line that announces the daemon's restoration.
    DaemonAnnounced,
    /// Waiting for the old launchd file of the daemon to be removed.
    RemovePlist,
    /// Waiting for the daemon to be removed from launchd.
    Unload,
    /// Waiting for the installer's launchd file to be copied.
    CopyDaemon,
    /// Waiting for the daemon to be loaded into launchd.
    LoadDaemon,
    /// Waiting for the warning that the installer's daemon is missing.
    DaemonMissingReported,
    /// Waiting for the check that the certificate bundle exists.
    CaCheck,
    /// Waiting for the log line that announces the bundle's restoration.
    CaAnnounced,
    /// Waiting for the bundle to be linked.
    LinkCa,
    /// Waiting for the warning that the installer's bundle is missing.
    CaMissingReported,
    /// Waiting for the log line that announces the symlink's removal.
    SymlinkAnnounced,
    /// Waiting for the check that `/run/current-system` is a symlink.
    SymlinkCheck,
    /// Waiting for `/run/current-system` to be removed.
    RemoveSymlink,
    /// Waiting for the final log line.
    DoneReported,
    /// Waiting for the wipe of the default profile.
    WipeDefault,
    /// Waiting for the wipe of the system profile.
    WipeSystem,
    /// Waiting for the wipe of root's profile.
    WipeRoot,
    /// Waiting for the state directory.
    StateHome,
    /// Waiting for the wipe of the user's profile.
    WipeUser,
    /// Waiting for the wipe of the Home Manager profile.
    WipeHomeManager,
    /// Waiting for the completion script to be printed.
    Completions,
    /// The command is over.
    Finished,
}

/// How far a subcommand has got, and what it has learnt so far.
#[derive(Debug, PartialEq, Eq)]
pub struct Progress {
    pub stage: Stage,
    /// The program that builds (`nom` or `nix`).
    pub program: String,
    pub flake_url: String,
    pub flake_attr: String,
    /// The store path of the built system.
    pub out: String,
    /// The user's state directory.
    pub state_home: String,
    /// Paths being gone through.
    pub files: Vec<String>,
    /// The position in `files`.
    pub index: usize,
}

pub struct ProgressView {
    pub stage: Stage,
    pub program: Seq<char>,
    pub flake_url: Seq<char>,
    pub flake_attr: Seq<char>,
    pub out: Seq<char>,
    pub state_home: Seq<char>,
    pub files: Seq<Seq<char>>,
    pub index: int,
}

impl View for Progress {
    type V = ProgressView;

    open spec fn view(&self) -> ProgressView {
        ProgressView {
            stage: self.stage,
            program: self.program@,
            flake_url: self.flake_url@,
            flake_attr: self.flake_attr@,
            out: self.out@,
            state_home: self.state_home@,
            files: self.files.deep_view(),
            index: self.index as int,
        }
    }
}

impl ProgressView {
    pub open spec fn at(self, stage: Stage) -> ProgressView {
        ProgressView { stage, ..self }
    }
}

/// The progress before anything has happened.
pub open spec fn initial_progress() -> ProgressView {
    ProgressView {
        stage: Stage::Start,
        program: Seq::empty(),
        flake_url: Seq::empty(),
        flake_attr: Seq::empty(),
        out: Seq::empty(),
        state_home: Seq::empty(),
        files: Seq::empty(),
        index: 0,
    }
}

impl Progress {
    /// Nothing has happened yet.
    pub fn new() -> (r: Progress)
        ensures
            r@ == initial_progress(),
    {
        let r = Progress {
            stage: Stage::Start,
            program: String::new(),
            flake_url: String::new(),
            flake_attr: String::new(),
            out: String::new(),
            state_home: String::new(),
            files: Vec::new(),
            index: 0,
        };
        proof {
            assert(r.files.deep_view() =~= Seq::<Seq<char>>::empty());
        }
        r
    }

    /// The same progress, now at `stage`.
    pub fn at(self, stage: Stage) -> (r: Progress)
        ensures
            r@ == self@.at(stage),
    {
        Progress { stage, ..self }
    }
}

/// The answer `e` is the kind of answer the stage waits for.
pub open spec fn answers(stage: Stage, e: EventView) -> bool {
    match stage {
        Stage::Start => e is Done,
        Stage::Finished => false,
        Stage::ListEtc => e is List,
        Stage::NomLookup | Stage::NvdLookup | Stage::NixLookup | Stage::InstalledCheck
        | Stage::StoreCheck | Stage::DaemonCheck | Stage::CaCheck | Stage::SymlinkCheck
        | Stage::EtcTargetCheck => e is Flag,
        Stage::Confirm | Stage::Unload | Stage::CopyDaemon | Stage::LoadDaemon | Stage::LinkCa =>
            e is Flag || e is Failed,
        Stage::DefaultFlake | Stage::Hostname | Stage::Build | Stage::Bootstrap | Stage::StateHome =>
            e is Text || e is Failed,
        Stage::Diff | Stage::Profile | Stage::ActivateUser | Stage::Activate | Stage::RemoveApps
        | Stage::RemoveStatic | Stage::EtcRename | Stage::RemovePlist | Stage::RemoveSymlink | Stage::WipeDefault | Stage::WipeSystem | Stage::WipeRoot
        | Stage::WipeUser | Stage::WipeHomeManager => e is Done || e is Failed,
        _ => e is Done,
    }
}

impl Stage {
    /// Whether `e` is the kind of answer this stage waits for.
    pub fn accepts(self, e: &Event) -> (r: bool)
        ensures
            r == answers(self, e@),
    {
        match self {
            Stage::Start => matches!(e, Event::Done),
            Stage::Finished => false,
            Stage::ListEtc => matches!(e, Event::List(_)),
            Stage::NomLookup | Stage::NvdLookup | Stage::NixLookup | Stage::InstalledCheck
            | Stage::StoreCheck | Stage::DaemonCheck | Stage::CaCheck | Stage::SymlinkCheck
            | Stage::EtcTargetCheck => matches!(e, Event::Flag(_)),
            Stage::Confirm | Stage::Unload | Stage::CopyDaemon | Stage::LoadDaemon | Stage::LinkCa =>
                matches!(e, Event::Flag(_) | Event::Failed(_)),
            Stage::DefaultFlake | Stage::Hostname | Stage::Build | Stage::Bootstrap | Stage::StateHome =>
                matches!(e, Event::Text(_) | Event::Failed(_)),
            Stage::Diff | Stage::Profile | Stage::ActivateUser | Stage::Activate | Stage::RemoveApps
            | Stage::RemoveStatic | Stage::EtcRename | Stage::RemovePlist | Stage::RemoveSymlink
            | Stage::WipeDefault | Stage::WipeSystem | Stage::WipeRoot | Stage::WipeUser
            | Stage::WipeHomeManager => matches!(e, Event::Done | Event::Failed(_)),
            _ => matches!(e, Event::Done),
        }
    }
}

/// What the progress records is consistent: while going through the files
/// under `/etc`, the position points at a file that nix-darwin moved aside.
pub open spec fn progress_wf(p: ProgressView) -> bool {
    (p.stage == Stage::EtcTargetCheck || p.stage == Stage::EtcRename || p.stage == Stage::EtcRenamedReported)
        ==> (0 <= p.index < p.files.len() && crate::path::restore_target(p.files[p.index]) is Some)
}

/// A subcommand, as a step function.
pub trait Command {
    /// The stages this subcommand passes through.
    spec fn uses(&self, stage: Stage) -> bool;

    /// The next progress and action after answer `e` at progress `p`.
    spec fn next(&self, p: ProgressView, e: EventView) -> (ProgressView, ActionView);

    /// One step: from where the command is and the answer to its last
    /// action, where it goes and what it asks for. The first step starts
    /// from [`Progress::new`] with the answer `Event::Done`.
    fn action(&self, global_options: &Cli, progress: Progress, event: Event) -> (r: (Progress, Action))
        requires
            self.uses(progress.stage),
            answers(progress.stage, event@),
            progress_wf(progress@),
        ensures
            (r.0@, r.1@) == self.next(progress@, event@),
            progress_wf(r.0@),
            r.1 is Finish <==> r.0.stage == Stage::Finished,
            r.0.stage == Stage::Finished || self.uses(r.0.stage),
    ;
}

} // verus!

verus! {

/// The attribute of the nix-darwin configuration of host `host`.
pub open spec fn default_attr(host: Seq<char>) -> Seq<char> {
    "darwinConfigurations."@ + host
}

/// `(s)`.
pub open spec fn parenthesized(s: Seq<char>) -> Seq<char> {
    "("@ + s + ")"@
}

/// The program that builds: `nom` when nix-output-monitor is used, else `nix`.
pub open spec fn build_program(nom: bool) -> Seq<char> {
    if nom { "nom"@ } else { "nix"@ }
}

/// A log line of one plain piece.
pub open spec fn log_plain(level: Level, text: Seq<char>) -> ActionView {
    ActionView::Log(level, seq![(text, Style::Plain)])
}

/// A log line of a plain piece and a dimmed one.
pub open spec fn log_dimmed(level: Level, text: Seq<char>, dim: Seq<char>) -> ActionView {
    ActionView::Log(level, seq![(text, Style::Plain), (dim, Style::Dimmed)])
}

/// The line that announces a build with `program`.
pub open spec fn building_line(program: Seq<char>) -> ActionView {
    log_dimmed(Level::Info, "building system "@, parenthesized(program))
}

/// The line that shows a built system at `out`.
pub open spec fn built_line(out: Seq<char>) -> ActionView {
    ActionView::Log(Level::Success, seq![(out, Style::Dimmed)])
}

/// The end of a command, successful.
pub open spec fn finish_ok() -> ActionView {
    ActionView::Finish(Ok(()))
}

/// The end of a command, with error `e`.
pub open spec fn finish_err(e: ErrorView) -> ActionView {
    ActionView::Finish(Err(e))
}

pub fn default_attr_of(host: &str) -> (r: String)
    ensures
        r@ == default_attr(host@),
{
    let mut r = String::from_str("darwinConfigurations.");
    r.append(host);
    r
}

pub fn parenthesize(s: &str) -> (r: String)
    ensures
        r@ == parenthesized(s@),
{
    let mut r = String::from_str("(");
    r.append(s);
    r.append(")");
    r
}

pub fn build_program_name(nom: bool) -> (r: &'static str)
    ensures
        r@ == build_program(nom),
{
    if nom { "nom" } else { "nix" }
}

pub fn log_line(level: Level, text: &str) -> (r: Action)
    ensures
        r@ == log_plain(level, text@),
{
    Action::Log(level, crate::util::log::plain_line(text))
}

pub fn log_line_dimmed(level: Level, text: &str, dim: &str) -> (r: Action)
    ensures
        r@ == log_dimmed(level, text@, dim@),
{
    Action::Log(level, crate::util::log::plain_then_dimmed(text, dim))
}

pub fn building_line_of(program: &str) -> (r: Action)
    ensures
        r@ == building_line(program@),
{
    let p = parenthesize(program);
    log_line_dimmed(Level::Info, "building system ", p.as_str())
}

pub fn built_line_of(out: &str) -> (r: Action)
    ensures
        r@ == built_line(out@),
{
    Action::Log(Level::Success, crate::util::log::styled_line(out, Style::Dimmed))
}

/// Ends the command successfully.
pub fn finish(p: Progress) -> (r: (Progress, Action))
    ensures
        r.0@ == p@.at(Stage::Finished),
        r.1@ == finish_ok(),
{
    (p.at(Stage::Finished), Action::Finish(Ok(())))
}

/// Ends the command with error `e`.
pub fn fail(p: Progress, e: Error) -> (r: (Progress, Action))
    ensures
        r.0@ == p@.at(Stage::Finished),
        r.1@ == finish_err(e@),
{
    (p.at(Stage::Finished), Action::Finish(Err(e)))
}

} // verus!

verus! {

impl Command for Commands {
    open spec fn uses(&self, stage: Stage) -> bool {
        match self {
            Commands::Switch(c) => c.uses(stage),
            Commands::Build(c) => c.uses(stage),
            Commands::Init(c) => c.uses(stage),
            Commands::Uninstall(c) => c.uses(stage),
            Commands::WipeHistory(c) => c.uses(stage),
            Commands::Completions(c) => c.uses(stage),
        }
    }

    open spec fn next(&self, p: ProgressView, e: EventView) -> (ProgressView, ActionView) {
        match self {
            Commands::Switch(c) => c.next(p, e),
            Commands::Build(c) => c.next(p, e),
            Commands::Init(c) => c.next(p, e),
            Commands::Uninstall(c) => c.next(p, e),
            Commands::WipeHistory(c) => c.next(p, e),
            Commands::Completions(c) => c.next(p, e),
        }
    }

    fn action(&self, global_options: &Cli, progress: Progress, event: Event) -> (r: (Progress, Action)) {
        match self {
            Commands::Switch(c) => c.action(global_options, progress, event),
            Commands::Build(c) => c.action(global_options, progress, event),
            Commands::Init(c) => c.action(global_options, progress, event),
            Commands::Uninstall(c) => c.action(global_options, progress, event),
            Commands::WipeHistory(c) => c.action(global_options, progress, event),
            Commands::Completions(c) => c.action(global_options, progress, event),
        }
    }
}

} // verus!

verus! {

/// The actions a command asks for, from progress `p`, when its actions are
/// answered by `es` in turn; it stops at the end of the answers, when the
/// command finishes, or at an answer of the wrong kind.
pub open spec fn run<C: Command>(c: &C, p: ProgressView, es: Seq<EventView>) -> Seq<ActionView>
    decreases es.len(),
{
    if es.len() == 0 || p.stage == Stage::Finished || !c.uses(p.stage) || !answers(p.stage, es[0]) {
        Seq::empty()
    } else {
        seq![c.next(p, es[0]).1] + run(c, c.next(p, es[0]).0, es.drop_first())
    }
}

/// The progress after each step of [`run`].
pub open spec fn run_states<C: Command>(c: &C, p: ProgressView, es: Seq<EventView>) -> Seq<ProgressView>
    decreases es.len(),
{
    if es.len() == 0 || p.stage == Stage::Finished || !c.uses(p.stage) || !answers(p.stage, es[0]) {
        Seq::empty()
    } else {
        seq![c.next(p, es[0]).0] + run_states(c, c.next(p, es[0]).0, es.drop_first())
    }
}

/// The progress before step `k` of [`run`].
pub open spec fn state_before<C: Command>(c: &C, p: ProgressView, es: Seq<EventView>, k: int) -> ProgressView {
    if k == 0 {
        p
    } else {
        run_states(c, p, es)[k - 1]
    }
}

} // verus!
