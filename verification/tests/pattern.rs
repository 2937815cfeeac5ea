use ava::pattern::{generate_pattern, matches_rule, matches_single, split_subcommands};

#[test]
fn test_matches_rule_trailing_wildcard() {
    assert!(matches_rule("ls *", "ls"));
    assert!(matches_rule("ls *", "ls -la"));
    assert!(matches_rule("ls *", "ls -la /tmp"));
    assert!(!matches_rule("ls *", "rm foo"));
}

#[test]
fn test_matches_rule_exact() {
    assert!(matches_rule("git status", "git status"));
    assert!(!matches_rule("git status", "git status -v"));
    assert!(!matches_rule("git status", "git"));
}

#[test]
fn test_matches_rule_cargo_test() {
    assert!(matches_rule("cargo test *", "cargo test"));
    assert!(matches_rule("cargo test *", "cargo test -- --nocapture"));
}

#[test]
fn test_matches_rule_pipe() {
    assert!(matches_rule("ls *", "ls -la | ls /tmp"));
    assert!(!matches_rule("ls *", "ls -la | rm foo"));
}

#[test]
fn test_matches_rule_chain() {
    assert!(matches_rule("cargo *", "cargo fmt && cargo test"));
    assert!(!matches_rule("cargo *", "cargo fmt && rm foo"));
}

#[test]
fn test_generate_pattern() {
    assert_eq!(generate_pattern("ls -la /tmp"), "ls *");
    assert_eq!(generate_pattern("cargo test -- --nocapture"), "cargo *");
}

#[test]
fn trailing_wildcard_ignores_what_follows() {
    assert!(matches_rule("git commit *", "git commit"));
    assert!(matches_rule("git commit *", "git commit -m message --amend"));
    assert!(!matches_rule("git commit *", "git"));
    assert!(!matches_rule("git commit *", "git push origin"));
}

#[test]
fn middle_wildcard_takes_exactly_one_token() {
    assert!(matches_single("git * origin", "git push origin"));
    assert!(matches_single("git * origin", "git pull origin"));
    assert!(!matches_single("git * origin", "git origin"));
    assert!(!matches_single("git * origin", "git push --force origin"));
    assert!(!matches_single("git * *", "git"));
    assert!(matches_single("git * *", "git push"));
}

#[test]
fn pattern_without_wildcard_needs_the_same_tokens() {
    assert!(matches_single("git   status", "  git status  "));
    assert!(matches_single("git\tstatus", "git\u{a0}status"));
    assert!(!matches_single("git status", "git  statuses"));
    assert!(!matches_single("git status now", "git status"));
}

#[test]
fn empty_pattern_matches_only_an_empty_command() {
    assert!(matches_single("", ""));
    assert!(matches_single("  ", " \t "));
    assert!(!matches_single("", "ls"));
    assert!(!matches_rule("", "ls"));
    assert!(matches_single("*", ""));
}

#[test]
fn command_is_split_at_every_separator() {
    assert_eq!(split_subcommands("a | b || c && d ; e"), vec!["a ", " b ", " c ", " d ", " e"]);
    assert_eq!(split_subcommands("ls"), vec!["ls"]);
    assert_eq!(split_subcommands("ls;"), vec!["ls"]);
    assert_eq!(split_subcommands("ls; "), vec!["ls", " "]);
    assert_eq!(split_subcommands(";ls"), vec!["", "ls"]);
    assert_eq!(split_subcommands("|||"), vec!["", ""]);
    assert_eq!(split_subcommands("a & b"), vec!["a & b"]);
    assert_eq!(split_subcommands("a &&& b"), vec!["a ", "& b"]);
    assert_eq!(split_subcommands("caf\u{e9}|x"), vec!["caf\u{e9}", "x"]);
    assert_eq!(split_subcommands(""), vec![""]);
    assert_eq!(split_subcommands("   "), vec!["   "]);
}

#[test]
fn every_sub_command_has_to_match() {
    assert!(matches_rule("ls *", "ls; ls -la || ls /tmp"));
    assert!(!matches_rule("ls *", "ls; rm -rf . || ls /tmp"));
    assert!(!matches_rule("ls *", "ls && "));
    assert!(matches_rule("ls *", "ls &&"));
    assert!(!matches_rule("git status", ""));
    assert!(!matches_rule("git status", "   "));
    assert!(!matches_rule("ls *", ""));
    assert!(matches_rule("*", ""));
    assert!(matches_rule("", ""));
}

#[test]
fn generated_pattern_matches_its_command() {
    for command in ["ls -la /tmp", "cargo", "  git   status ", "", "   ", "* x"] {
        assert!(matches_rule(&generate_pattern(command), command), "{}", command);
    }
    assert_eq!(generate_pattern(""), " *");
    assert_eq!(generate_pattern("  git   status "), "git *");
    assert!(!matches_rule(&generate_pattern("ls -la | rm foo"), "ls -la | rm foo"));
}
