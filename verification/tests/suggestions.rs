use cargo_tidy_lints::get_lints::warn_suggestions;
use cargo_tidy_lints::lint_item::{Applicability, IdSpan, LintItem};
use cargo_tidy_lints::text::{str_contains, str_eq};

fn lint(id: &str, level: &str) -> LintItem {
    LintItem {
        id: id.to_string(),
        id_span: IdSpan::default(),
        group: "style".to_string(),
        level: level.to_string(),
        docs: String::new(),
        version: String::new(),
        applicability: Applicability::default(),
    }
}

#[test]
fn warn_suggestions_skip_mentioned_and_non_allow_lints() {
    let catalog = vec![lint("foo", "allow"), lint("bar", "allow"), lint("baz", "warn")];
    let manifest_text = "[lints.clippy]\nfoo = \"warn\"\n";
    let lines = warn_suggestions(&catalog, manifest_text);
    assert_eq!(lines, vec!["bar = \"warn\"\n".to_string()]);
}

#[test]
fn warn_suggestions_of_an_empty_manifest_keep_every_allow_lint() {
    let catalog = vec![lint("foo", "allow"), lint("bar", "deny")];
    let lines = warn_suggestions(&catalog, "");
    assert_eq!(lines, vec!["foo = \"warn\"\n".to_string()]);
}

#[test]
fn str_contains_finds_substrings_only() {
    assert!(str_contains("hello world", "lo wo"));
    assert!(str_contains("hello", "hello"));
    assert!(str_contains("hello", ""));
    assert!(!str_contains("hello", "world"));
    assert!(!str_contains("he", "hello"));
}

#[test]
fn str_eq_compares_character_sequences() {
    assert!(str_eq("abc", "abc"));
    assert!(str_eq("", ""));
    assert!(!str_eq("abc", "abd"));
    assert!(!str_eq("abc", "ab"));
}
