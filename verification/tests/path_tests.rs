use morlana::path::{join_path, restore_target_of, split_colon_str};
use std::path::Path;

#[test]
fn join_appends_with_separator() {
    assert_eq!(join_path("/home/me", "flake"), "/home/me/flake");
    assert_eq!(join_path("/home/me/", "flake"), "/home/me/flake");
    assert_eq!(join_path("", "nom"), "nom");
}

#[test]
fn join_with_absolute_replaces() {
    assert_eq!(join_path("/home/me", "/etc/x"), "/etc/x");
}

#[test]
fn join_matches_std_on_samples() {
    let cases = [("/a", "b"), ("/a/", "b/c"), ("", "x"), ("rel", ""), ("/", "x"), ("a", "/b")];
    for (base, rel) in cases {
        let expected = Path::new(base).join(rel);
        assert_eq!(join_path(base, rel), expected.to_str().unwrap());
    }
}

#[test]
fn split_keeps_empty_pieces() {
    assert_eq!(split_colon_str("/bin:/usr/bin"), vec!["/bin", "/usr/bin"]);
    assert_eq!(split_colon_str(""), vec![""]);
    assert_eq!(split_colon_str(":a::"), vec!["", "a", "", ""]);
}

#[test]
fn restore_target_strips_saved_suffix() {
    assert_eq!(restore_target_of("/etc/bashrc.before-nix-darwin"), Some("/etc/bashrc".to_string()));
    assert_eq!(restore_target_of("/etc/zsh/zshrc.before-nix-darwin"), Some("/etc/zsh/zshrc".to_string()));
}

#[test]
fn restore_target_ignores_other_files() {
    assert_eq!(restore_target_of("/etc/bashrc"), None);
    assert_eq!(restore_target_of("/etc/x.before-nix-darwin/y"), None);
}

#[test]
fn restore_target_of_bare_suffix() {
    assert_eq!(restore_target_of("/etc/.before-nix-darwin"), Some("/etc/".to_string()));
    assert_eq!(restore_target_of("x.before-nix-darwin"), Some("x".to_string()));
}

#[test]
fn restore_undoes_move_example() {
    let moved = format!("{}{}{}", "/etc/ssl/", "cert.pem", ".before-nix-darwin");
    assert_eq!(restore_target_of(&moved), Some("/etc/ssl/cert.pem".to_string()));
}
