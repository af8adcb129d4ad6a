use repox::naming::{local_name, local_repo_path};
use repox::repo_list::parse_repo_list;
use repox::resolver::resolve;
use repox::text::{same_text, trim};

#[test]
fn missing_copy_is_cloned_instead_of_pulled() {
    let r = resolve("pull", false);
    assert_eq!(r.command, "clone");
    assert!(!r.skip);
}

#[test]
fn missing_copy_of_any_command_is_cloned() {
    for cmd in ["fetch", "status", "log", ""] {
        let r = resolve(cmd, false);
        assert_eq!(r.command, "clone");
        assert!(!r.skip);
    }
}

#[test]
fn present_clone_is_skipped() {
    let r = resolve("clone", true);
    assert!(r.skip);
}

#[test]
fn missing_clone_runs_clone() {
    let r = resolve("clone", false);
    assert_eq!(r.command, "clone");
    assert!(!r.skip);
}

#[test]
fn present_copy_runs_requested_command() {
    let r = resolve("fetch", true);
    assert_eq!(r.command, "fetch");
    assert!(!r.skip);
    let r = resolve("status", true);
    assert_eq!(r.command, "status");
    assert!(!r.skip);
}

#[test]
fn local_name_of_url_with_suffix() {
    assert_eq!(local_name("https://example.com/org/foo.git"), "foo");
}

#[test]
fn local_name_strips_repeated_suffix() {
    assert_eq!(local_name("https://example.com/org/foo.git.git"), "foo");
}

#[test]
fn local_name_without_suffix_or_slash() {
    assert_eq!(local_name("org/bar"), "bar");
    assert_eq!(local_name("baz"), "baz");
    assert_eq!(local_name(""), "");
    assert_eq!(local_name(".git"), "");
}

#[test]
fn local_name_after_trailing_slash_is_empty() {
    assert_eq!(local_name("org/"), "");
}

#[test]
fn local_name_of_non_ascii() {
    assert_eq!(local_name("git@host:ōrg/näme.git"), "näme");
}

#[test]
fn local_path_joins_dev_dir_and_name() {
    assert_eq!(
        local_repo_path("/home/me/dev/github", "https://example.com/org/foo.git"),
        "/home/me/dev/github/foo"
    );
}

#[test]
fn repo_list_example() {
    let text = "https://example.com/org/foo.git\n# comment\n\n";
    let repos = parse_repo_list(text);
    assert_eq!(repos, vec!["https://example.com/org/foo.git".to_string()]);
    assert_eq!(local_name(&repos[0]), "foo");
}

#[test]
fn repo_list_trims_and_keeps_order() {
    let text = "  a/one.git  \r\n\t# skipped\n   \nb/two\r\nc/three";
    let repos = parse_repo_list(text);
    assert_eq!(repos, vec!["a/one.git", "b/two", "c/three"]);
}

#[test]
fn repo_list_empty_text() {
    assert!(parse_repo_list("").is_empty());
    assert!(parse_repo_list("\n\n# only\n").is_empty());
}

#[test]
fn repo_list_hash_inside_a_line_is_kept() {
    assert_eq!(parse_repo_list("a#b\n"), vec!["a#b"]);
}

#[test]
fn trim_removes_unicode_space() {
    assert_eq!(trim("\u{3000} x y \u{85}\n"), "x y");
    assert_eq!(trim("   "), "");
    assert_eq!(trim(""), "");
}

#[test]
fn same_text_compares_characters() {
    assert!(same_text("clone", "clone"));
    assert!(!same_text("clone", "clones"));
    assert!(!same_text("clone", "Clone"));
    assert!(same_text("", ""));
}
