use morlana::error::Error;
use morlana::util::log::{confirm_answer, confirm_prompt, Segment, Style};
use morlana::util::{
    default_flake, default_flake_command, ensure_root, ensure_root_as, error_for_status, hostname, hostname_command,
    nom_available, nvd_available, reexec_argv, safe_remove_file, search_path, state_home, sudo_cmd,
    sudo_cmd_as, which, CommandSpec, FsOutcome, NixFlakeMetadata, ProcessOutput, Stdio,
};

fn strings(v: &[&str]) -> Vec<String> {
    v.iter().map(|s| s.to_string()).collect()
}

fn cmd(program: &str, args: &[&str], stdout: Option<Stdio>, stderr: Option<Stdio>) -> CommandSpec {
    CommandSpec { program: program.to_string(), args: strings(args), stdout, stderr }
}

#[test]
fn search_path_tries_each_directory_in_order() {
    assert_eq!(search_path("/bin:/usr/bin/", "nom"), vec!["/bin/nom", "/usr/bin/nom"]);
    assert_eq!(search_path("", "nom"), vec!["nom"]);
}

#[test]
fn which_gives_first_file() {
    let path = Some("/a:/b:/c");
    assert_eq!(which(path, "nvd", &vec![false, true, true]), Some("/b/nvd".to_string()));
    assert_eq!(which(path, "nvd", &vec![false, false, false]), None);
    assert_eq!(which(None, "nvd", &vec![]), None);
}

#[test]
fn nom_and_nvd_availability() {
    assert!(nom_available(Some("/x:/y"), &vec![false, true]));
    assert!(!nom_available(Some("/x:/y"), &vec![false, false]));
    assert!(!nvd_available(None, &vec![]));
    assert!(nvd_available(Some("/run/current-system/sw/bin"), &vec![true]));
}

#[test]
fn error_for_status_errs_on_failure() {
    let ok = ProcessOutput { success: true, stdout: b"x".to_vec() };
    assert_eq!(error_for_status(ok, "failed"), Ok(ProcessOutput { success: true, stdout: b"x".to_vec() }));
    let bad = ProcessOutput { success: false, stdout: b"y".to_vec() };
    assert_eq!(error_for_status(bad, "failed"), Err(Error::Message("failed".to_string())));
}

#[test]
fn sudo_command_forms() {
    assert_eq!(sudo_cmd_as("nix-env", true), cmd("nix-env", &[], None, None));
    assert_eq!(sudo_cmd_as("nix-env", false), cmd("sudo", &["-H", "nix-env"], None, None));
}

#[test]
fn sudo_cmd_is_one_of_the_two_forms() {
    let c = sudo_cmd("nix");
    assert!(c == cmd("nix", &[], None, None) || c == cmd("sudo", &["-H", "nix"], None, None));
}

#[test]
fn hostname_command_and_parse() {
    assert_eq!(hostname_command(), cmd("scutil", &["--get", "LocalHostName"], None, Some(Stdio::Inherit)));
    let out = ProcessOutput { success: true, stdout: b"  my-mac\n".to_vec() };
    assert_eq!(hostname(out), Ok("my-mac".to_string()));
}

#[test]
fn hostname_status_check_comes_first() {
    let out = ProcessOutput { success: false, stdout: b"my-mac\n".to_vec() };
    assert_eq!(hostname(out), Err(Error::Message("failed to obtain hostname from scutil".to_string())));
}

#[test]
fn hostname_rejects_invalid_utf8() {
    let out = ProcessOutput { success: true, stdout: vec![0x66, 0xff, 0x0a] };
    assert!(matches!(hostname(out), Err(Error::Parse(_))));
}

#[test]
fn hostname_decodes_multibyte() {
    let out = ProcessOutput { success: true, stdout: "Café-Mac\n".as_bytes().to_vec() };
    assert_eq!(hostname(out), Ok("Café-Mac".to_string()));
}

#[test]
fn default_flake_reads_resolved_url() {
    assert_eq!(default_flake_command(), cmd("nix", &["flake", "metadata", "--json"], None, Some(Stdio::Inherit)));
    let out = ProcessOutput { success: true, stdout: vec![] };
    let meta = Ok(NixFlakeMetadata { resolved_url: "path:/Users/me/flake".to_string() });
    assert_eq!(default_flake(out, meta), Ok("path:/Users/me/flake".to_string()));
}

#[test]
fn default_flake_errors() {
    let bad = ProcessOutput { success: false, stdout: vec![] };
    assert_eq!(
        default_flake(bad, Ok(NixFlakeMetadata { resolved_url: "u".to_string() })),
        Err(Error::Message("failed to obtain flake metadata".to_string()))
    );
    let ok = ProcessOutput { success: true, stdout: vec![] };
    let e = Error::Parse("expected value".to_string());
    assert_eq!(default_flake(ok, Err(e.clone())), Err(e));
}

#[test]
fn safe_remove_file_ignores_missing() {
    assert_eq!(safe_remove_file(FsOutcome::Done), Ok(()));
    assert_eq!(safe_remove_file(FsOutcome::NotFound), Ok(()));
    assert_eq!(safe_remove_file(FsOutcome::Failed("denied".to_string())), Err(Error::Io("denied".to_string())));
}

#[test]
fn state_home_prefers_xdg() {
    assert_eq!(state_home(Some("/x/state".to_string()), Some("/home/me".to_string())), Ok("/x/state".to_string()));
    assert_eq!(state_home(None, Some("/home/me".to_string())), Ok("/home/me/.local/state".to_string()));
    assert_eq!(
        state_home(None, None),
        Err(Error::Message("could not obtain XDG_STATE_HOME from home directory".to_string()))
    );
}

#[test]
fn reexec_argv_prefixes_sudo() {
    let args = strings(&["morlana", "uninstall"]);
    assert_eq!(reexec_argv(&args, None), strings(&["sudo", "-H", "morlana", "uninstall"]));
    assert_eq!(
        reexec_argv(&args, Some("1")),
        strings(&["sudo", "-H", "env", "RUST_BACKTRACE=1", "morlana", "uninstall"])
    );
}

#[test]
fn ensure_root_gives_argv_or_nothing() {
    let args = strings(&["morlana", "uninstall"]);
    match ensure_root(&args, None) {
        None => {}
        Some(v) => assert_eq!(v, strings(&["sudo", "-H", "morlana", "uninstall"])),
    }
}

#[test]
fn confirm_answers() {
    assert_eq!(confirm_answer("\n", false), Some(false));
    assert_eq!(confirm_answer("", true), Some(true));
    assert_eq!(confirm_answer(" y\n", false), Some(true));
    assert_eq!(confirm_answer("Y", false), Some(true));
    assert_eq!(confirm_answer("n\n", true), Some(false));
    assert_eq!(confirm_answer("N", true), Some(false));
    assert_eq!(confirm_answer("yes", true), None);
    assert_eq!(confirm_answer("x", true), None);
}

#[test]
fn confirm_answer_agrees_with_lowercase() {
    for s in ["y", "Y", "n", "N", "ÿ", "Ÿ", "k", "\u{212A}", "yy", ""] {
        let t = s.trim();
        let expected = if t.is_empty() {
            Some(false)
        } else if t.to_lowercase() == "y" {
            Some(true)
        } else if t.to_lowercase() == "n" {
            Some(false)
        } else {
            None
        };
        assert_eq!(confirm_answer(s, false), expected, "{s:?}");
    }
}

#[test]
fn confirm_prompt_hint() {
    assert_eq!(
        confirm_prompt("switch to configuration?", false),
        vec![
            Segment { text: "switch to configuration?".to_string(), style: Style::Plain },
            Segment { text: "[y/N]".to_string(), style: Style::Dimmed },
        ]
    );
    assert_eq!(confirm_prompt("go?", true)[1].text, "[Y/n]");
}

#[test]
fn ensure_root_as_reexecs_only_when_not_root() {
    let args = strings(&["morlana", "wipe-history"]);
    assert_eq!(ensure_root_as(&args, Some("1"), true), None);
    assert_eq!(
        ensure_root_as(&args, Some("1"), false),
        Some(strings(&["sudo", "-H", "env", "RUST_BACKTRACE=1", "morlana", "wipe-history"]))
    );
}
