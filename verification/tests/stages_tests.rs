use morlana::cli::BuildRequest;
use morlana::error::Error;
use morlana::stages::activate::{activate, activate_command_as, activate_marker, activate_user_command};
use morlana::stages::bootstrap::{
    bootstrap_dir, check_bootstrap_dir, fill_flake_template, flake_file, flake_for, gen_flake_template,
    host_platform_of, Username,
};
use morlana::stages::build_stage::{build_command, build_result, result_link, NixOutputsData, NixTopLevelData};
use morlana::stages::diff::nvd;
use morlana::stages::profile::{profile, profile_command_as};
use morlana::util::{CommandSpec, ProcessOutput, Stdio};

fn strings(v: &[&str]) -> Vec<String> {
    v.iter().map(|s| s.to_string()).collect()
}

fn cmd(program: &str, args: &[&str], stdout: Option<Stdio>, stderr: Option<Stdio>) -> CommandSpec {
    CommandSpec { program: program.to_string(), args: strings(args), stdout, stderr }
}

fn entry(out: &str) -> NixTopLevelData {
    NixTopLevelData { outputs: NixOutputsData { out: out.to_string() } }
}

#[test]
fn build_command_arguments() {
    let req = BuildRequest {
        program: "nom".to_string(),
        flake_url: "/Users/me/flake".to_string(),
        flake_attr: "darwinConfigurations.mac".to_string(),
        extra_build_flags: strings(&["--show-trace"]),
        out_link: false,
    };
    assert_eq!(
        build_command(&req),
        cmd(
            "nom",
            &[
                "build",
                "--json",
                "--no-link",
                "--extra-experimental-features",
                "nix-command",
                "--extra-experimental-features",
                "flakes",
                "--show-trace",
                "--",
                "/Users/me/flake#darwinConfigurations.mac.system",
            ],
            None,
            Some(Stdio::Inherit),
        )
    );
}

#[test]
fn build_result_takes_first_output() {
    let ok = ProcessOutput { success: true, stdout: vec![] };
    assert_eq!(
        build_result(&ok, Ok(vec![entry("/nix/store/abc-darwin-system"), entry("/nix/store/other")])),
        Ok("/nix/store/abc-darwin-system".to_string())
    );
}

#[test]
fn build_result_errors() {
    let ok = ProcessOutput { success: true, stdout: vec![] };
    let failed = ProcessOutput { success: false, stdout: vec![] };
    let msg = Err(Error::Message("failed to build system with nix".to_string()));
    assert_eq!(build_result(&failed, Ok(vec![entry("/nix/store/x")])), msg);
    assert_eq!(build_result(&ok, Ok(vec![])), msg);
    let e = Error::Parse("EOF while parsing".to_string());
    assert_eq!(build_result(&ok, Err(e.clone())), Err(e));
}

#[test]
fn result_link_in_working_directory() {
    assert_eq!(result_link("/Users/me/flake"), "/Users/me/flake/result");
}

#[test]
fn profile_command_forms() {
    assert_eq!(
        profile_command_as("/nix/var/nix/profiles/system", "/nix/store/s", false),
        cmd("sudo", &["-H", "nix-env", "-p", "/nix/var/nix/profiles/system", "--set", "/nix/store/s"], None, Some(Stdio::Inherit))
    );
    assert_eq!(
        profile_command_as("/p", "/o", true),
        cmd("nix-env", &["-p", "/p", "--set", "/o"], None, Some(Stdio::Inherit))
    );
    let c = profile("/p", "/o");
    assert!(c.program == "sudo" || c.program == "nix-env");
    assert_eq!(&c.args[c.args.len() - 4..], &strings(&["-p", "/p", "--set", "/o"])[..]);
}

#[test]
fn activate_command_forms() {
    assert_eq!(activate_marker("/nix/store/s"), "/nix/store/s/activate-user");
    assert_eq!(
        activate_command_as("/nix/store/s", false, false),
        cmd(
            "sudo",
            &["-H", "/nix/store/s/sw/bin/darwin-rebuild", "activate"],
            Some(Stdio::Inherit),
            Some(Stdio::Inherit)
        )
    );
    assert_eq!(
        activate_command_as("/nix/store/s", true, false),
        cmd("/nix/store/s/sw/bin/darwin-rebuild", &["activate"], Some(Stdio::Inherit), Some(Stdio::Inherit))
    );
    assert_eq!(
        activate("/nix/store/s", true),
        cmd("/nix/store/s/sw/bin/darwin-rebuild", &["activate"], Some(Stdio::Inherit), Some(Stdio::Inherit))
    );
    assert_eq!(
        activate_user_command("/nix/store/u"),
        cmd("/nix/store/u/activate-user", &[], Some(Stdio::Inherit), Some(Stdio::Inherit))
    );
}

#[test]
fn nvd_diff_against_running_system() {
    assert_eq!(
        nvd("/nix/store/new", true),
        Some(cmd("nvd", &["diff", "/run/current-system", "/nix/store/new"], Some(Stdio::Inherit), Some(Stdio::Inherit)))
    );
    assert_eq!(nvd("/nix/store/new", false), None);
}

#[test]
fn flake_template_fill() {
    let t = "{ hostname = \"HOSTNAME\"; system = \"<HOST_PLATFORM>\"; user = \"<USER>\"; host2 = \"HOSTNAME\"; }";
    assert_eq!(
        fill_flake_template(t, "mac", "aarch64-darwin", "me"),
        "{ hostname = \"mac\"; system = \"aarch64-darwin\"; user = \"me\"; host2 = \"mac\"; }"
    );
    assert_eq!(host_platform_of("x86_64"), "x86_64-darwin");
}

#[test]
fn flake_for_each_username_result() {
    let t = "HOSTNAME <HOST_PLATFORM> <USER>";
    assert_eq!(flake_for(t, "mac", "aarch64", Username::Name("me".to_string())), Ok("mac aarch64-darwin me".to_string()));
    assert_eq!(
        flake_for(t, "mac", "aarch64", Username::Missing),
        Err(Error::Message("could not obtain current username".to_string()))
    );
    assert_eq!(
        flake_for(t, "mac", "aarch64", Username::NotUtf8("\"m\\xFF\"".to_string())),
        Err(Error::Message("current username \"m\\xFF\" is not UTF-8".to_string()))
    );
}

#[test]
fn gen_flake_template_fills_host_and_platform() {
    match gen_flake_template("HOSTNAME/<HOST_PLATFORM>/<USER>", "mac", "aarch64") {
        Ok(text) => {
            assert!(text.starts_with("mac/aarch64-darwin/"));
            assert!(!text.contains("<USER>"));
        }
        Err(Error::Message(m)) => assert!(m.starts_with("c")),
        Err(e) => panic!("unexpected error {e:?}"),
    }
}

#[test]
fn bootstrap_directory() {
    assert_eq!(bootstrap_dir(Some("/Users/me".to_string())), Ok("/Users/me/flake".to_string()));
    assert_eq!(bootstrap_dir(None), Err(Error::Message("could not locate home directory".to_string())));
    assert_eq!(check_bootstrap_dir(false), Ok(()));
    assert_eq!(
        check_bootstrap_dir(true),
        Err(Error::Message("bootstrap directory `~/flake` exists already".to_string()))
    );
    assert_eq!(flake_file("/Users/me/flake"), "/Users/me/flake/flake.nix");
}

#[test]
fn stage_status_checks_follow_error_for_status() {
    let ok = || ProcessOutput { success: true, stdout: vec![] };
    let failed = || ProcessOutput { success: false, stdout: b"x".to_vec() };
    assert_eq!(morlana::stages::profile::profile_status(failed()), Err(Error::Message("failed to set system with nix-env".to_string())));
    assert_eq!(morlana::stages::profile::profile_status(ok()), Ok(()));
    assert_eq!(morlana::stages::activate::activate_status(failed()), Err(Error::Message("failed to activate".to_string())));
    assert_eq!(morlana::stages::activate::activate_status(ok()), Ok(()));
    assert_eq!(morlana::stages::activate::activate_user_status(failed()), Err(Error::Message("failed to activate user".to_string())));
    assert_eq!(morlana::stages::activate::activate_user_status(ok()), Ok(()));
    assert_eq!(morlana::stages::diff::nvd_status(failed()), Err(Error::Message("failed to diff with nvd".to_string())));
    assert_eq!(morlana::stages::diff::nvd_status(ok()), Ok(()));
}
