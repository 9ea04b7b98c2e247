use rust_executor::{
    compiler_args, contains_text, health_report, is_blank, new_workspace_name, workspace_dir_name,
    ARTIFACT_FILE_NAME, SOURCE_FILE_NAME,
};

#[test]
fn blank_matches_std_whitespace() {
    for u in 0u32..0x3100 {
        if let Some(c) = char::from_u32(u) {
            let s = c.to_string();
            assert_eq!(is_blank(&s), c.is_whitespace(), "char {:?}", c);
        }
    }
    assert!(is_blank(""));
    assert!(!is_blank("  a  "));
}

#[test]
fn substring_search_edges() {
    assert!(contains_text("abc", ""));
    assert!(contains_text("", ""));
    assert!(!contains_text("", "a"));
    assert!(!contains_text("ab", "abc"));
    assert!(contains_text("abc", "abc"));
    assert!(contains_text("xxabcx", "abc"));
    assert!(contains_text("aab", "ab"));
    assert!(!contains_text("acb", "ab"));
    assert!(contains_text("héllo wörld", "ö"));
}

#[test]
fn workspace_names_carry_the_prefix() {
    assert_eq!(workspace_dir_name("abc"), "rust-exec-abc");
    assert_eq!(workspace_dir_name(""), "rust-exec-");
}

#[test]
fn fresh_workspace_names_are_uuid_based_and_distinct() {
    let a = new_workspace_name();
    let b = new_workspace_name();
    assert_ne!(a, b);
    for name in [&a, &b] {
        assert_eq!(name.len(), 46);
        assert!(name.starts_with("rust-exec-"));
        let id = &name["rust-exec-".len()..];
        assert_eq!(id.as_bytes()[14], b'4');
        assert!(matches!(id.as_bytes()[19], b'8' | b'9' | b'a' | b'b'));
        for (i, c) in id.chars().enumerate() {
            if i == 8 || i == 13 || i == 18 || i == 23 {
                assert_eq!(c, '-');
            } else {
                assert!(c.is_ascii_digit() || ('a'..='f').contains(&c));
            }
        }
    }
}

#[test]
fn compiler_gets_source_and_output_paths() {
    let args = compiler_args("/tmp/w/main.rs", "/tmp/w/program");
    assert_eq!(args, vec!["/tmp/w/main.rs".to_string(), "-o".to_string(), "/tmp/w/program".to_string()]);
    assert_eq!(SOURCE_FILE_NAME, "main.rs");
    assert_eq!(ARTIFACT_FILE_NAME, "program");
}

#[test]
fn health_reports_ok() {
    let h = health_report();
    assert_eq!(h.status, "ok");
    assert_eq!(h.service, "rust-executor");
}
