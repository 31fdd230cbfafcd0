use vstd::prelude::*;

use crate::project_path::{join_dir, join_path, parent_dir, WorkspaceDir};

verus! {

/// Names the category files that a report run writes, under a scope root's
/// `target` directory.
#[derive(Clone, Debug, Default, PartialEq, Eq, PartialOrd, Ord)]
pub struct Output;

impl Output {
    pub fn worksapce_allow_path(dir: &WorkspaceDir) -> (r: String)
        ensures
            r@ == join_path(
                parent_dir(dir.workspace_manifest@),
                "target/workspace_allow.toml"@,
            ),
    {
        join_dir(dir.workspace_root().as_str(), "target/workspace_allow.toml")
    }

    pub fn worksapce_deprecated_path(dir: &WorkspaceDir) -> (r: String)
        ensures
            r@ == join_path(
                parent_dir(dir.workspace_manifest@),
                "target/workspace_deprecated.toml"@,
            ),
    {
        join_dir(dir.workspace_root().as_str(), "target/workspace_deprecated.toml")
    }

    pub fn workspace_unnecessary_path(dir: &WorkspaceDir) -> (r: String)
        ensures
            r@ == join_path(
                parent_dir(dir.workspace_manifest@),
                "target/workspace_unnecessary.toml"@,
            ),
    {
        join_dir(dir.workspace_root().as_str(), "target/workspace_unnecessary.toml")
    }

    pub fn workspace_duplicate_path(dir: &WorkspaceDir) -> (r: String)
        ensures
            r@ == join_path(
                parent_dir(dir.workspace_manifest@),
                "target/workspace_duplicate.toml"@,
            ),
    {
        join_dir(dir.workspace_root().as_str(), "target/workspace_duplicate.toml")
    }

    pub fn crate_allow_path(dir: &WorkspaceDir) -> (r: String)
        ensures
            r@ == join_path(parent_dir(dir.crate_manifest@), "target/crate_allow.toml"@),
    {
        join_dir(dir.crate_root().as_str(), "target/crate_allow.toml")
    }

    pub fn crate_deprecated_path(dir: &WorkspaceDir) -> (r: String)
        ensures
            r@ == join_path(
                parent_dir(dir.workspace_manifest@),
                "target/crate_deprecated.toml"@,
            ),
    {
        join_dir(dir.workspace_root().as_str(), "target/crate_deprecated.toml")
    }

    pub fn crate_unnecessary_path(dir: &WorkspaceDir) -> (r: String)
        ensures
            r@ == join_path(parent_dir(dir.crate_manifest@), "target/crate_unnecessary.toml"@),
    {
        join_dir(dir.crate_root().as_str(), "target/crate_unnecessary.toml")
    }

    pub fn crate_duplicate_path(dir: &WorkspaceDir) -> (r: String)
        ensures
            r@ == join_path(parent_dir(dir.crate_manifest@), "target/crate_duplicate.toml"@),
    {
        join_dir(dir.crate_root().as_str(), "target/crate_duplicate.toml")
    }
}

} // verus!
