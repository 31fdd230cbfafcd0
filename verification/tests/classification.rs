use cargo_tidy_lints::cargo::{CargoManifest, CrateLints, LintSetting, WorkspaceLints};
use cargo_tidy_lints::lint_item::{Applicability, IdSpan, LintItem};
use cargo_tidy_lints::sorting_lints::tidy_lint;

fn lint(id: &str, group: &str, level: &str) -> LintItem {
    LintItem {
        id: id.to_string(),
        id_span: IdSpan::default(),
        group: group.to_string(),
        level: level.to_string(),
        docs: String::new(),
        version: String::new(),
        applicability: Applicability::default(),
    }
}

fn setting(key: &str, level: &str) -> LintSetting {
    LintSetting {
        key: key.to_string(),
        level: level.to_string(),
    }
}

#[test]
fn workspace_contains_by_id_or_group() {
    let manifest = CargoManifest {
        workspace: Some(WorkspaceLints {
            clippy: vec![setting("foo", "warn"), setting("nursery", "deny")],
        }),
        package: false,
        lints: None,
    };
    assert!(manifest.workspace_contains_lint(&lint("foo", "style", "allow")));
    assert!(manifest.workspace_contains_lint(&lint("other", "nursery", "allow")));
    assert!(!manifest.workspace_contains_lint(&lint("other", "style", "allow")));
}

#[test]
fn missing_workspace_scope_contains_nothing() {
    let manifest = CargoManifest {
        workspace: None,
        package: true,
        lints: None,
    };
    assert!(!manifest.workspace_contains_lint(&lint("foo", "style", "allow")));
    assert!(!manifest.workspace_group_duplicate(&lint("foo", "style", "allow")));
    assert!(!manifest.workspace_lint_deprecated(&lint("foo", "deprecated", "allow")));
}

#[test]
fn deprecated_needs_id_key_and_deprecated_group() {
    let manifest = CargoManifest {
        workspace: Some(WorkspaceLints {
            clippy: vec![setting("old_lint", "allow")],
        }),
        package: false,
        lints: None,
    };
    assert!(manifest.workspace_lint_deprecated(&lint("old_lint", "deprecated", "allow")));
    assert!(!manifest.workspace_lint_deprecated(&lint("old_lint", "style", "allow")));
    assert!(!manifest.workspace_lint_deprecated(&lint("new_lint", "deprecated", "allow")));
}

#[test]
fn duplicate_needs_both_id_and_group_keys() {
    let both = CargoManifest {
        workspace: Some(WorkspaceLints {
            clippy: vec![setting("foo", "warn"), setting("bar", "warn")],
        }),
        package: false,
        lints: None,
    };
    let only_id = CargoManifest {
        workspace: Some(WorkspaceLints {
            clippy: vec![setting("foo", "warn")],
        }),
        package: false,
        lints: None,
    };
    let only_group = CargoManifest {
        workspace: Some(WorkspaceLints {
            clippy: vec![setting("bar", "warn")],
        }),
        package: false,
        lints: None,
    };
    let record = lint("foo", "bar", "deny");
    assert!(both.workspace_group_duplicate(&record));
    assert!(!only_id.workspace_group_duplicate(&record));
    assert!(!only_group.workspace_group_duplicate(&record));
}

#[test]
fn member_scope_reads_its_own_mapping_without_inheritance() {
    let manifest = CargoManifest {
        workspace: Some(WorkspaceLints {
            clippy: vec![setting("ws_only", "warn")],
        }),
        package: true,
        lints: Some(CrateLints {
            inherits_workspace: false,
            clippy: vec![setting("member_only", "warn")],
        }),
    };
    assert!(manifest.crate_contains_lint(&lint("member_only", "style", "allow")));
    assert!(!manifest.crate_contains_lint(&lint("ws_only", "style", "allow")));
}

#[test]
fn inheriting_member_scope_matches_workspace_classification() {
    let manifest = CargoManifest {
        workspace: Some(WorkspaceLints {
            clippy: vec![setting("foo", "warn"), setting("bar", "warn"), setting("old", "allow")],
        }),
        package: true,
        lints: Some(CrateLints {
            inherits_workspace: true,
            clippy: vec![setting("shadowed", "warn")],
        }),
    };
    let records = vec![
        lint("foo", "bar", "deny"),
        lint("old", "deprecated", "allow"),
        lint("shadowed", "style", "warn"),
        lint("unrelated", "style", "allow"),
    ];
    for record in &records {
        assert_eq!(
            manifest.crate_contains_lint(record),
            manifest.workspace_contains_lint(record)
        );
        assert_eq!(
            manifest.crate_group_duplicate(record),
            manifest.workspace_group_duplicate(record)
        );
        assert_eq!(
            manifest.crate_lint_deprecated(record),
            manifest.workspace_lint_deprecated(record)
        );
    }
    let ws = manifest.tidy_workspace(&records, false);
    let member = manifest.tidy_crate(&records, false);
    assert_eq!(ws, member);
}

#[test]
fn crate_inherit_reads_the_lints_table() {
    let inheriting = CargoManifest {
        workspace: None,
        package: true,
        lints: Some(CrateLints {
            inherits_workspace: true,
            clippy: vec![],
        }),
    };
    let own = CargoManifest {
        workspace: None,
        package: true,
        lints: Some(CrateLints {
            inherits_workspace: false,
            clippy: vec![],
        }),
    };
    let absent = CargoManifest {
        workspace: None,
        package: true,
        lints: None,
    };
    assert!(inheriting.crate_inherit());
    assert!(!own.crate_inherit());
    assert!(!absent.crate_inherit());
}

#[test]
fn single_allow_record_lands_only_in_allow_reports() {
    let manifest = CargoManifest {
        workspace: Some(WorkspaceLints { clippy: vec![] }),
        package: true,
        lints: Some(CrateLints {
            inherits_workspace: false,
            clippy: vec![],
        }),
    };
    let catalog = vec![lint("foo", "bar", "allow")];
    let outcome = tidy_lint(&manifest, &catalog, false);

    let ws = outcome.workspace.expect("workspace scope declared");
    assert_eq!(ws.allow.len(), 1);
    assert!(ws.allow[0].contains("foo"));
    assert!(ws.unnecessary.is_empty());
    assert!(ws.duplicate.is_empty());
    assert!(ws.deprecated.is_empty());

    let member = outcome.crate_report.expect("package declared without inheritance");
    assert_eq!(member.allow.len(), 1);
    assert!(member.allow[0].contains("foo"));
    assert!(member.unnecessary.is_empty());
    assert!(member.duplicate.is_empty());
    assert!(member.deprecated.is_empty());
}

#[test]
fn configured_deny_record_is_unnecessary_and_duplicate() {
    let mapping = vec![setting("foo", "warn"), setting("bar", "warn")];
    let manifest = CargoManifest {
        workspace: Some(WorkspaceLints { clippy: mapping.clone() }),
        package: true,
        lints: Some(CrateLints {
            inherits_workspace: false,
            clippy: mapping,
        }),
    };
    let catalog = vec![lint("foo", "bar", "deny")];
    let outcome = tidy_lint(&manifest, &catalog, false);

    let ws = outcome.workspace.expect("workspace scope declared");
    assert_eq!(ws.unnecessary.len(), 1);
    assert!(ws.unnecessary[0].contains("foo"));
    assert_eq!(ws.duplicate.len(), 1);
    assert!(ws.duplicate[0].contains("foo"));
    assert!(ws.allow.is_empty());
    assert!(ws.deprecated.is_empty());

    let member = outcome.crate_report.expect("package declared without inheritance");
    assert_eq!(member.unnecessary.len(), 1);
    assert!(member.unnecessary[0].contains("foo"));
    assert_eq!(member.duplicate.len(), 1);
    assert!(member.duplicate[0].contains("foo"));
}

#[test]
fn tidy_lint_skips_scopes_that_take_no_part() {
    let no_workspace = CargoManifest {
        workspace: None,
        package: true,
        lints: Some(CrateLints {
            inherits_workspace: false,
            clippy: vec![],
        }),
    };
    let outcome = tidy_lint(&no_workspace, &vec![lint("foo", "bar", "allow")], false);
    assert!(outcome.workspace.is_none());
    assert!(outcome.crate_report.is_some());

    let inheriting = CargoManifest {
        workspace: Some(WorkspaceLints { clippy: vec![] }),
        package: true,
        lints: Some(CrateLints {
            inherits_workspace: true,
            clippy: vec![],
        }),
    };
    let outcome = tidy_lint(&inheriting, &vec![lint("foo", "bar", "allow")], false);
    assert!(outcome.workspace.is_some());
    assert!(outcome.crate_report.is_none());
}
