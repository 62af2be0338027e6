use morlana::cli::switch::default_profile;
use morlana::cli::uninstall::{
    build_uninstall_command, build_uninstall_result, launchctl_load_command, launchctl_remove_command, restore_step,
    restored_line_of, uninstall_expr_of,
};
use morlana::cli::wipe_history::{wipe_command, wipe_command_as, wiped_line};
use morlana::cli::{
    Action, BuildCommand, BuildRequest, Cli, Command, Commands, CompletionCommand, Event, InitCommand, Progress,
    Shell, Stage, SwitchCommand, UninstallCommand, WipeHistoryCommand, WipeRequest,
};
use morlana::error::Error;
use morlana::util::log::{Level, Segment, Style};
use morlana::util::{CommandSpec, FsOutcome, ProcessOutput, Stdio};
use morlana::stages::build_stage::{NixOutputsData, NixTopLevelData};

fn s(x: &str) -> String {
    x.to_string()
}

fn strings(v: &[&str]) -> Vec<String> {
    v.iter().map(|x| x.to_string()).collect()
}

fn seg(text: &str, style: Style) -> Segment {
    Segment { text: s(text), style }
}

fn log(level: Level, text: &str) -> Action {
    Action::Log(level, vec![seg(text, Style::Plain)])
}

fn log_dim(level: Level, text: &str, dim: &str) -> Action {
    Action::Log(level, vec![seg(text, Style::Plain), seg(dim, Style::Dimmed)])
}

fn restored(from: &str, to: &str) -> Action {
    Action::Log(
        Level::Warn,
        vec![
            seg(from, Style::Plain),
            seg(" ", Style::Plain),
            seg("=>", Style::Dimmed),
            seg(" ", Style::Plain),
            seg(to, Style::Plain),
        ],
    )
}

fn built(out: &str) -> Action {
    Action::Log(Level::Success, vec![seg(out, Style::Dimmed)])
}

fn drive(cmd: &Commands, answers: Vec<Event>) -> Vec<Action> {
    let global = Cli { command: Commands::Completions(CompletionCommand { shell: Shell::Zsh }) };
    let mut p = Progress::new();
    let mut ev = Event::Done;
    let mut answers = answers.into_iter();
    let mut out = Vec::new();
    loop {
        let (next, a) = cmd.action(&global, p, ev);
        let finished = matches!(a, Action::Finish(_));
        assert_eq!(finished, next.stage == Stage::Finished);
        out.push(a);
        if finished {
            break;
        }
        p = next;
        match answers.next() {
            Some(e) => ev = e,
            None => break,
        }
    }
    out
}

fn switch_cmd(no_confirm: bool) -> SwitchCommand {
    SwitchCommand {
        flake: None,
        attr: None,
        profile: default_profile(),
        nom: None,
        nvd: None,
        extra_build_flags: vec![],
        no_confirm,
    }
}

#[test]
fn default_profile_is_system_profile() {
    assert_eq!(default_profile(), "/nix/var/nix/profiles/system");
}

#[test]
fn switch_full_run() {
    let c = Commands::Switch(switch_cmd(false));
    let actions = drive(
        &c,
        vec![
            Event::Flag(true),
            Event::Text(s("path:/Users/me/flake")),
            Event::Text(s("mac")),
            Event::Done,
            Event::Text(s("/nix/store/sys")),
            Event::Done,
            Event::Flag(true),
            Event::Done,
            Event::Flag(true),
            Event::Done,
            Event::Done,
            Event::Done,
            Event::Done,
        ],
    );
    assert_eq!(
        actions,
        vec![
            Action::Which(s("nom")),
            Action::DefaultFlake,
            Action::Hostname,
            log_dim(Level::Info, "building system ", "(nom)"),
            Action::Build(BuildRequest {
                program: s("nom"),
                flake_url: s("path:/Users/me/flake"),
                flake_attr: s("darwinConfigurations.mac"),
                extra_build_flags: vec![],
                out_link: false,
            }),
            built("/nix/store/sys"),
            Action::Which(s("nvd")),
            Action::Diff(s("/nix/store/sys")),
            Action::Confirm(s("switch to configuration?"), false),
            log(Level::Info, "configuring profile"),
            Action::Profile(s("/nix/var/nix/profiles/system"), s("/nix/store/sys")),
            log(Level::Info, "activating"),
            Action::Activate(s("/nix/store/sys")),
            Action::Finish(Ok(())),
        ]
    );
}

#[test]
fn switch_with_options_skips_lookups() {
    let c = Commands::Switch(SwitchCommand {
        flake: Some(s(".")),
        attr: Some(s("darwinConfigurations.work")),
        profile: s("/tmp/profile"),
        nom: Some(false),
        nvd: Some(false),
        extra_build_flags: strings(&["-L"]),
        no_confirm: true,
    });
    let actions = drive(
        &c,
        vec![
            Event::Done,
            Event::Text(s("/nix/store/w")),
            Event::Done,
            Event::Done,
            Event::Done,
            Event::Done,
            Event::Done,
        ],
    );
    assert_eq!(
        actions,
        vec![
            log_dim(Level::Info, "building system ", "(nix)"),
            Action::Build(BuildRequest {
                program: s("nix"),
                flake_url: s("."),
                flake_attr: s("darwinConfigurations.work"),
                extra_build_flags: strings(&["-L"]),
                out_link: false,
            }),
            built("/nix/store/w"),
            log(Level::Info, "configuring profile"),
            Action::Profile(s("/tmp/profile"), s("/nix/store/w")),
            log(Level::Info, "activating"),
            Action::Activate(s("/nix/store/w")),
            Action::Finish(Ok(())),
        ]
    );
}

#[test]
fn switch_declined_changes_nothing() {
    let mut c = switch_cmd(false);
    c.nom = Some(true);
    c.nvd = Some(false);
    let actions = drive(
        &Commands::Switch(c),
        vec![
            Event::Text(s("f")),
            Event::Text(s("h")),
            Event::Done,
            Event::Text(s("/nix/store/o")),
            Event::Done,
            Event::Flag(false),
        ],
    );
    assert_eq!(actions.last(), Some(&Action::Finish(Ok(()))));
    assert!(actions.iter().all(|a| !matches!(a, Action::Profile(..) | Action::Activate(_))));
    assert!(actions.contains(&Action::Confirm(s("switch to configuration?"), false)));
}

#[test]
fn switch_hostname_failure_propagates() {
    let mut c = switch_cmd(true);
    c.nom = Some(false);
    c.flake = Some(s("."));
    c.attr = None;
    let e = Error::Message(s("failed to obtain hostname from scutil"));
    let actions = drive(&Commands::Switch(c), vec![Event::Failed(e.clone())]);
    assert_eq!(actions, vec![Action::Hostname, Action::Finish(Err(e))]);
}

#[test]
fn build_links_result_and_infers_attr() {
    let c = Commands::Build(BuildCommand { flake: Some(s(".")), attr: None, nom: Some(false), extra_build_flags: vec![] });
    let actions = drive(&c, vec![Event::Text(s("mac")), Event::Done, Event::Text(s("/nix/store/b")), Event::Done]);
    assert_eq!(
        actions,
        vec![
            Action::Hostname,
            log_dim(Level::Info, "building system ", "(nix)"),
            Action::Build(BuildRequest {
                program: s("nix"),
                flake_url: s("."),
                flake_attr: s("darwinConfigurations.mac"),
                extra_build_flags: vec![],
                out_link: true,
            }),
            built("/nix/store/b"),
            Action::Finish(Ok(())),
        ]
    );
}

#[test]
fn build_without_attr_or_hostname_fails() {
    let c = Commands::Build(BuildCommand { flake: Some(s(".")), attr: None, nom: Some(true), extra_build_flags: vec![] });
    let actions = drive(&c, vec![Event::Failed(Error::Io(s("scutil missing")))]);
    assert_eq!(
        actions,
        vec![
            Action::Hostname,
            Action::Finish(Err(Error::Message(s("no attribute was provided and one could not be inferred!")))),
        ]
    );
}

#[test]
fn build_with_attr_does_not_ask_hostname() {
    let c = Commands::Build(BuildCommand { flake: None, attr: Some(s("a")), nom: None, extra_build_flags: vec![] });
    let actions = drive(&c, vec![Event::Flag(false), Event::Text(s("u"))]);
    assert_eq!(actions, vec![Action::Which(s("nom")), Action::DefaultFlake, log_dim(Level::Info, "building system ", "(nix)")]);
}

#[test]
fn init_without_nix_stops() {
    let c = Commands::Init(InitCommand { no_confirm: false });
    let actions = drive(&c, vec![Event::Flag(false), Event::Done]);
    assert_eq!(
        actions,
        vec![
            Action::Which(s("nix")),
            log(Level::Error, "Nix is not installed! You need to install Nix first."),
            Action::Finish(Ok(())),
        ]
    );
}

#[test]
fn init_fresh_install_run() {
    let c = Commands::Init(InitCommand { no_confirm: false });
    let actions = drive(
        &c,
        vec![
            Event::Flag(true),
            Event::Flag(false),
            Event::Text(s("/Users/me/flake")),
            Event::Text(s("mac")),
            Event::Done,
            Event::Text(s("/nix/store/boot")),
            Event::Done,
            Event::Done,
            Event::Done,
            Event::Done,
            Event::Done,
        ],
    );
    assert_eq!(
        actions,
        vec![
            Action::Which(s("nix")),
            Action::PathExists(s("/run/current-system")),
            Action::Bootstrap,
            Action::Hostname,
            log(Level::Info, "building bootstrap system"),
            Action::Build(BuildRequest {
                program: s("nix"),
                flake_url: s("/Users/me/flake"),
                flake_attr: s("darwinConfigurations.mac"),
                extra_build_flags: vec![],
                out_link: false,
            }),
            built("/nix/store/boot"),
            log(Level::Info, "configuring profile"),
            Action::Profile(s("/nix/var/nix/profiles/system"), s("/nix/store/boot")),
            log(Level::Info, "activating"),
            Action::Activate(s("/nix/store/boot")),
            Action::Finish(Ok(())),
        ]
    );
}

#[test]
fn init_reinstall_asks() {
    let c = Commands::Init(InitCommand { no_confirm: false });
    let actions = drive(&c, vec![Event::Flag(true), Event::Flag(true), Event::Done, Event::Flag(false)]);
    assert_eq!(
        actions,
        vec![
            Action::Which(s("nix")),
            Action::PathExists(s("/run/current-system")),
            log(Level::Warn, "nix-darwin seems to already be installed!"),
            Action::Confirm(s("are you sure you want to reinitialize your installation?"), false),
            Action::Finish(Ok(())),
        ]
    );
}

#[test]
fn uninstall_full_run() {
    let c = Commands::Uninstall(UninstallCommand { no_confirm: true });
    let actions = drive(
        &c,
        vec![
            Event::Done,
            Event::Done,
            Event::Text(s("/nix/store/un")),
            Event::Done,
            Event::Done,
            Event::Done,
            Event::Done,
            Event::Done,
            Event::Done,
            Event::Done,
            Event::Done,
            Event::Done,
            Event::Done,
            Event::Done,
            Event::Done,
            Event::List(strings(&[
                "/etc/bashrc.before-nix-darwin",
                "/etc/hosts",
                "/etc/zshrc.before-nix-darwin",
                "/etc/nix/nix.conf.before-nix-darwin",
            ])),
            Event::Flag(false),
            Event::Done,
            Event::Done,
            Event::Flag(true),
            Event::Flag(false),
            Event::Done,
            Event::Done,
            Event::Flag(true),
            Event::Flag(false),
            Event::Done,
            Event::Done,
            Event::Flag(false),
            Event::Flag(true),
            Event::Flag(true),
            Event::Flag(false),
            Event::Done,
            Event::Flag(false),
            Event::Done,
            Event::Done,
            Event::Flag(true),
            Event::Done,
            Event::Done,
        ],
    );
    assert_eq!(
        actions,
        vec![
            Action::EnsureRoot,
            log(Level::Info, "building uninstall system"),
            Action::BuildUninstallSystem,
            built("/nix/store/un"),
            Action::BlankLine,
            log(Level::Info, "configuring uninstall profile"),
            Action::Profile(s("/nix/var/nix/profiles/system"), s("/nix/store/un")),
            log_dim(Level::Info, "activating uninstall ", "(activate-user)"),
            Action::ActivateUser(s("/nix/store/un")),
            log_dim(Level::Info, "activating uninstall ", "(activate)"),
            Action::Activate(s("/nix/store/un")),
            log(Level::Info, "removing residual files"),
            Action::RemoveFile(s("/Applications/Nix Apps")),
            Action::RemoveFile(s("/etc/static")),
            log(Level::Info, "restoring /etc files before nix-darwin"),
            Action::ListFiles(s("/etc")),
            Action::PathExists(s("/etc/bashrc")),
            Action::Rename(s("/etc/bashrc.before-nix-darwin"), s("/etc/bashrc")),
            restored("/etc/bashrc.before-nix-darwin", "/etc/bashrc"),
            Action::PathExists(s("/etc/zshrc")),
            Action::PathExists(s("/etc/nix/nix.conf")),
            Action::Rename(s("/etc/nix/nix.conf.before-nix-darwin"), s("/etc/nix/nix.conf")),
            restored("/etc/nix/nix.conf.before-nix-darwin", "/etc/nix/nix.conf"),
            Action::PathIsDir(s("/nix/store")),
            Action::PathExists(s("/Library/LaunchDaemons/org.nixos.nix-daemon.plist")),
            log(Level::Info, "restoring nix daemon into launchctl"),
            Action::RemoveFile(s("/Library/LaunchDaemons/org.nixos.nix-daemon.plist")),
            Action::Run(launchctl_remove_command()),
            Action::CopyFile(
                s("/nix/var/nix/profiles/default/Library/LaunchDaemons/org.nixos.nix-daemon.plist"),
                s("/Library/LaunchDaemons/org.nixos.nix-daemon.plist"),
            ),
            Action::Run(launchctl_load_command("/Library/LaunchDaemons/org.nixos.nix-daemon.plist")),
            Action::PathExists(s("/etc/ssl/certs/ca-certificates.crt")),
            log(Level::Info, "restoring certificate authority bundle"),
            Action::Symlink(
                s("/nix/var/nix/profiles/default/etc/ssl/certs/ca-bundle.crt"),
                s("/etc/ssl/certs/ca-certificates.crt"),
            ),
            log(Level::Warn, "could not restore CA bundle from nix-installer install!"),
            log(Level::Info, "removing /run/current-system symlink"),
            Action::PathIsSymlink(s("/run/current-system")),
            Action::RemoveFile(s("/run/current-system")),
            log(Level::Success, "nix-darwin has been uninstalled!"),
            Action::Finish(Ok(())),
        ]
    );
    // At most the fixed steps, and three more for each listed file.
    assert!(actions.len() <= 34 + 3 * 4);
}

#[test]
fn uninstall_declined_after_building() {
    let c = Commands::Uninstall(UninstallCommand { no_confirm: false });
    let actions = drive(&c, vec![Event::Done, Event::Done, Event::Text(s("/nix/store/un")), Event::Done, Event::Flag(false)]);
    assert_eq!(
        actions,
        vec![
            Action::EnsureRoot,
            log(Level::Info, "building uninstall system"),
            Action::BuildUninstallSystem,
            built("/nix/store/un"),
            Action::Confirm(s("are you sure you want to uninstall nix-darwin?"), false),
            Action::Finish(Ok(())),
        ]
    );
}

#[test]
fn uninstall_skips_present_daemon_and_bundle() {
    let c = Commands::Uninstall(UninstallCommand { no_confirm: true });
    let mut answers = vec![Event::Done, Event::Done, Event::Text(s("/o"))];
    answers.extend((0..12).map(|_| Event::Done));
    answers.push(Event::List(vec![]));
    answers.extend([Event::Flag(false), Event::Flag(true), Event::Done, Event::Flag(false), Event::Done]);
    let actions = drive(&c, answers);
    let n = actions.len();
    assert_eq!(
        &actions[n - 6..],
        &[
            Action::PathIsDir(s("/nix/store")),
            Action::PathExists(s("/etc/ssl/certs/ca-certificates.crt")),
            log(Level::Info, "removing /run/current-system symlink"),
            Action::PathIsSymlink(s("/run/current-system")),
            log(Level::Success, "nix-darwin has been uninstalled!"),
            Action::Finish(Ok(())),
        ][..]
    );
}

#[test]
fn uninstall_daemon_load_failure() {
    let c = Commands::Uninstall(UninstallCommand { no_confirm: true });
    let mut answers = vec![Event::Done, Event::Done, Event::Text(s("/o"))];
    answers.extend((0..12).map(|_| Event::Done));
    answers.push(Event::List(vec![]));
    answers.extend([Event::Flag(true), Event::Flag(false), Event::Done, Event::Done, Event::Flag(false), Event::Flag(true)]);
    answers.push(Event::Flag(false));
    let actions = drive(&c, answers);
    assert_eq!(
        actions.last(),
        Some(&Action::Finish(Err(Error::Message(s("failed to load `org.nixos.nix-daemon` into launchctl")))))
    );
}

#[test]
fn uninstall_daemon_missing_is_a_warning() {
    let c = Commands::Uninstall(UninstallCommand { no_confirm: true });
    let mut answers = vec![Event::Done, Event::Done, Event::Text(s("/o"))];
    answers.extend((0..12).map(|_| Event::Done));
    answers.push(Event::List(vec![]));
    answers.extend([Event::Flag(true), Event::Flag(false), Event::Done, Event::Done, Event::Flag(true), Event::Flag(false)]);
    answers.push(Event::Done);
    let actions = drive(&c, answers);
    let n = actions.len();
    assert_eq!(
        &actions[n - 2..],
        &[
            log(Level::Warn, "could not restore nix daemon from nix-installer install!"),
            Action::PathExists(s("/etc/ssl/certs/ca-certificates.crt")),
        ][..]
    );
}

#[test]
fn wipe_history_run() {
    let c = Commands::WipeHistory(WipeHistoryCommand { older_than: Some(s("30d")) });
    let actions = drive(
        &c,
        vec![Event::Done, Event::Done, Event::Done, Event::Text(s("/Users/me/.local/state")), Event::Done, Event::Done],
    );
    let wipe = |p: &str, sudo: bool| Action::Wipe(WipeRequest { profile: s(p), sudo, older_than: Some(s("30d")) });
    assert_eq!(
        actions,
        vec![
            wipe("/nix/var/nix/profiles/default", true),
            wipe("/nix/var/nix/profiles/system", true),
            wipe("/nix/var/nix/profiles/per-user/root/profile", true),
            Action::StateHome,
            wipe("/Users/me/.local/state/nix/profiles/profile", false),
            wipe("/Users/me/.local/state/nix/profiles/home-manager", false),
            Action::Finish(Ok(())),
        ]
    );
}

#[test]
fn wipe_history_stops_on_failure() {
    let c = Commands::WipeHistory(WipeHistoryCommand { older_than: None });
    let e = Error::Message(s("failed to execute `nix profile wipe-history`"));
    let actions = drive(&c, vec![Event::Failed(e.clone())]);
    assert_eq!(actions.len(), 2);
    assert_eq!(actions[1], Action::Finish(Err(e)));
}

#[test]
fn completions_run() {
    let c = Commands::Completions(CompletionCommand { shell: Shell::Fish });
    assert_eq!(drive(&c, vec![Event::Done]), vec![Action::PrintCompletions(Shell::Fish), Action::Finish(Ok(()))]);
}

#[test]
fn wipe_commands() {
    let req = WipeRequest { profile: s("/p"), sudo: true, older_than: Some(s("7d")) };
    assert_eq!(
        wipe_command_as(&req, false),
        CommandSpec {
            program: s("sudo"),
            args: strings(&["-H", "nix", "profile", "wipe-history", "--profile", "/p", "--older-than", "7d"]),
            stdout: None,
            stderr: None,
        }
    );
    let user = WipeRequest { profile: s("/q"), sudo: false, older_than: None };
    assert_eq!(
        wipe_command(&user),
        CommandSpec { program: s("nix"), args: strings(&["profile", "wipe-history", "--profile", "/q"]), stdout: None, stderr: None }
    );
    assert_eq!(wiped_line("/q"), vec![seg("wiped history for ", Style::Plain), seg("/q", Style::Green)]);
}

#[test]
fn uninstaller_build() {
    assert_eq!(uninstall_expr_of("{ system = \"<HOST_PLATFORM>\"; }", "aarch64"), "{ system = \"aarch64-darwin\"; }");
    let c = build_uninstall_command("EXPR");
    assert_eq!(c.program, "nix");
    assert_eq!(
        c.args,
        strings(&[
            "build",
            "--impure",
            "--json",
            "--no-link",
            "--extra-experimental-features",
            "nix-command",
            "--extra-experimental-features",
            "flakes",
            "--expr",
            "EXPR"
        ])
    );
    assert_eq!(c.stderr, Some(Stdio::Inherit));
    let ok = ProcessOutput { success: true, stdout: vec![] };
    let data = vec![NixTopLevelData { outputs: NixOutputsData { out: s("/nix/store/u") } }];
    assert_eq!(build_uninstall_result(&ok, Ok(data)), Ok(s("/nix/store/u")));
    assert_eq!(
        build_uninstall_result(&ok, Ok(vec![])),
        Err(Error::Message(s("failed to build uninstall system with nix")))
    );
}

#[test]
fn restore_helpers() {
    assert_eq!(
        restored_line_of("/etc/a.before-nix-darwin", "/etc/a"),
        vec![
            seg("/etc/a.before-nix-darwin", Style::Plain),
            seg(" ", Style::Plain),
            seg("=>", Style::Dimmed),
            seg(" ", Style::Plain),
            seg("/etc/a", Style::Plain),
        ]
    );
    assert_eq!(restore_step(FsOutcome::Done), Ok(true));
    assert_eq!(restore_step(FsOutcome::NotFound), Ok(false));
    assert_eq!(restore_step(FsOutcome::Failed(s("busy"))), Err(Error::Io(s("busy"))));
    assert_eq!(launchctl_remove_command().args, strings(&["remove", "org.nixos.nix-daemon"]));
    assert_eq!(launchctl_remove_command().stdout, Some(Stdio::Null));
    assert_eq!(launchctl_load_command("/L/p.plist").args, strings(&["load", "-w", "/L/p.plist"]));
}

#[test]
fn uninstall_etc_rename_failure_ends_the_command() {
    let c = Commands::Uninstall(UninstallCommand { no_confirm: true });
    let mut answers = vec![Event::Done, Event::Done, Event::Text(s("/o"))];
    answers.extend((0..12).map(|_| Event::Done));
    answers.push(Event::List(strings(&["/etc/zshenv.before-nix-darwin"])));
    answers.push(Event::Flag(false));
    let e = Error::Io(s("permission denied"));
    answers.push(Event::Failed(e.clone()));
    let actions = drive(&c, answers);
    let n = actions.len();
    assert_eq!(
        &actions[n - 4..],
        &[
            Action::ListFiles(s("/etc")),
            Action::PathExists(s("/etc/zshenv")),
            Action::Rename(s("/etc/zshenv.before-nix-darwin"), s("/etc/zshenv")),
            Action::Finish(Err(e)),
        ][..]
    );
}

#[test]
fn uninstall_etc_without_saved_files() {
    let c = Commands::Uninstall(UninstallCommand { no_confirm: true });
    let mut answers = vec![Event::Done, Event::Done, Event::Text(s("/o"))];
    answers.extend((0..12).map(|_| Event::Done));
    answers.push(Event::List(strings(&["/etc/hosts", "/etc/before-nix-darwin", "/etc/x.before-nix-darwin.bak"])));
    let actions = drive(&c, answers);
    let n = actions.len();
    assert_eq!(&actions[n - 2..], &[Action::ListFiles(s("/etc")), Action::PathIsDir(s("/nix/store"))][..]);
}

#[test]
fn stages_accept_their_answers() {
    assert!(Stage::Start.accepts(&Event::Done));
    assert!(!Stage::Finished.accepts(&Event::Done));
    assert!(Stage::ListEtc.accepts(&Event::List(vec![])));
    assert!(!Stage::ListEtc.accepts(&Event::Done));
    assert!(Stage::Build.accepts(&Event::Text(s("/nix/store/x"))));
    assert!(Stage::Build.accepts(&Event::Failed(Error::Message(s("e")))));
    assert!(!Stage::StoreCheck.accepts(&Event::Failed(Error::Message(s("e")))));
    assert!(Stage::Confirm.accepts(&Event::Flag(false)));
}

#[test]
fn wipe_status_check() {
    assert_eq!(
        morlana::cli::wipe_history::wipe_status(ProcessOutput { success: false, stdout: vec![] }),
        Err(Error::Message(s("failed to execute `nix profile wipe-history`")))
    );
    assert_eq!(morlana::cli::wipe_history::wipe_status(ProcessOutput { success: true, stdout: vec![] }), Ok(()));
}

#[test]
fn switch_with_attr_does_not_ask_hostname() {
    let mut c = switch_cmd(true);
    c.nom = Some(true);
    c.nvd = Some(false);
    c.attr = Some(s("darwinConfigurations.work"));
    let actions = drive(&Commands::Switch(c), vec![Event::Text(s("path:/f")), Event::Done]);
    assert_eq!(
        actions,
        vec![
            Action::DefaultFlake,
            log_dim(Level::Info, "building system ", "(nom)"),
            Action::Build(BuildRequest {
                program: s("nom"),
                flake_url: s("path:/f"),
                flake_attr: s("darwinConfigurations.work"),
                extra_build_flags: vec![],
                out_link: false,
            }),
        ]
    );
}
