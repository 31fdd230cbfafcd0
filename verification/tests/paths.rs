use std::path::Path;

use cargo_tidy_lints::output::Output;
use cargo_tidy_lints::project_path::{join_dir, parent_of, WorkspaceDir};

fn demo_dir() -> WorkspaceDir {
    WorkspaceDir::new(
        "/work/demo/Cargo.toml".to_string(),
        "/work/demo/member/Cargo.toml".to_string(),
    )
}

#[test]
fn test_root() {
    let dir = demo_dir();
    let res = dir.workspace_root();
    println!("{res}");
    assert_eq!(res, "/work/demo");
    assert_eq!(dir.crate_root(), "/work/demo/member");
}

#[test]
fn test_get_dir() {
    let dir = demo_dir();
    let a = dir.workspace_manifest_path();
    let cargo = Path::new(a).file_name().unwrap();
    assert_eq!(cargo, "Cargo.toml");

    let a = dir.crate_manifest_path();
    let cargo = Path::new(a).file_name().unwrap();
    assert_eq!(cargo, "Cargo.toml");
}

#[test]
fn parent_of_handles_short_paths() {
    assert_eq!(parent_of("Cargo.toml"), "");
    assert_eq!(parent_of("/Cargo.toml"), "/");
    assert_eq!(parent_of("a/Cargo.toml"), "a");
}

#[test]
fn join_dir_inserts_a_single_separator() {
    assert_eq!(join_dir("/work/demo", "target/out.toml"), "/work/demo/target/out.toml");
    assert_eq!(join_dir("/", "target/out.toml"), "/target/out.toml");
    assert_eq!(join_dir("", "target/out.toml"), "target/out.toml");
}

#[test]
fn workspace_report_paths_sit_under_the_workspace_target() {
    let dir = demo_dir();
    assert_eq!(
        Output::worksapce_allow_path(&dir),
        "/work/demo/target/workspace_allow.toml"
    );
    assert_eq!(
        Output::worksapce_deprecated_path(&dir),
        "/work/demo/target/workspace_deprecated.toml"
    );
    assert_eq!(
        Output::workspace_unnecessary_path(&dir),
        "/work/demo/target/workspace_unnecessary.toml"
    );
    assert_eq!(
        Output::workspace_duplicate_path(&dir),
        "/work/demo/target/workspace_duplicate.toml"
    );
}

#[test]
fn crate_report_paths_sit_under_the_member_target() {
    let dir = demo_dir();
    assert_eq!(
        Output::crate_allow_path(&dir),
        "/work/demo/member/target/crate_allow.toml"
    );
    assert_eq!(
        Output::crate_unnecessary_path(&dir),
        "/work/demo/member/target/crate_unnecessary.toml"
    );
    assert_eq!(
        Output::crate_duplicate_path(&dir),
        "/work/demo/member/target/crate_duplicate.toml"
    );
    // The deprecated file of the member scope sits under the workspace
    // target directory.
    assert_eq!(
        Output::crate_deprecated_path(&dir),
        "/work/demo/target/crate_deprecated.toml"
    );
}
