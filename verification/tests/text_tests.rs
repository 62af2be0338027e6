use morlana::text::{chars_of, is_whitespace_char, replace_str, strip_suffix_str, trim_str};

#[test]
fn trim_removes_surrounding_whitespace() {
    assert_eq!(trim_str("  my-mac\n"), "my-mac");
    assert_eq!(trim_str("\t a b \r\n"), "a b");
}

#[test]
fn trim_keeps_inner_and_handles_empty() {
    assert_eq!(trim_str(""), "");
    assert_eq!(trim_str("   "), "");
    assert_eq!(trim_str("x"), "x");
}

#[test]
fn trim_handles_unicode_whitespace() {
    assert_eq!(trim_str("\u{3000}host\u{00A0}"), "host");
    assert_eq!(trim_str("\u{2003}a\u{200B}"), "a\u{200B}");
}

#[test]
fn trim_matches_std_on_samples() {
    for s in ["", " a ", "\n\nb\n", "\u{85}c\u{2029}", "no-space", " \u{1680} d e \u{205F}"] {
        assert_eq!(trim_str(s), s.trim());
    }
}

#[test]
fn whitespace_class_matches_std() {
    for u in 0u32..0x3100 {
        if let Some(c) = char::from_u32(u) {
            assert_eq!(is_whitespace_char(c), c.is_whitespace(), "char {u:#x}");
        }
    }
}

#[test]
fn replace_replaces_every_occurrence() {
    assert_eq!(replace_str("a-HOSTNAME-b-HOSTNAME", "HOSTNAME", "mac"), "a-mac-b-mac");
    assert_eq!(replace_str("nothing here", "HOSTNAME", "mac"), "nothing here");
}

#[test]
fn replace_is_non_overlapping_left_to_right() {
    assert_eq!(replace_str("aaa", "aa", "b"), "ba");
    assert_eq!(replace_str("aaaa", "aa", "b"), "bb");
}

#[test]
fn replace_matches_std_on_samples() {
    let cases = [
        ("<HOST_PLATFORM>", "<HOST_PLATFORM>", "aarch64-darwin"),
        ("x<USER>y<USER>", "<USER>", ""),
        ("abcabc", "bc", "XYZ"),
        ("ééé", "é", "e"),
        ("", "a", "b"),
    ];
    for (s, from, to) in cases {
        assert_eq!(replace_str(s, from, to), s.replace(from, to));
    }
}

#[test]
fn strip_suffix_matches_std() {
    assert_eq!(strip_suffix_str("bashrc.before-nix-darwin", ".before-nix-darwin"), Some("bashrc".to_string()));
    assert_eq!(strip_suffix_str("bashrc", ".before-nix-darwin"), None);
    assert_eq!(strip_suffix_str("abc", ""), Some("abc".to_string()));
    assert_eq!(strip_suffix_str("", "x"), None);
}

#[test]
fn chars_of_lists_chars() {
    assert_eq!(chars_of("aé"), vec!['a', 'é']);
}
