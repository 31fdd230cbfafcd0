use vstd::prelude::*;

use crate::cargo::{
    crate_allow_lines, crate_deprecated_lines, crate_duplicate_lines, crate_unnecessary_lines,
    workspace_allow_lines, workspace_deprecated_lines, workspace_duplicate_lines,
    workspace_unnecessary_lines, CargoManifest, TidyReport,
};
use crate::lint_item::LintItem;

verus! {

/// The outcome of one full classification run: a report for each scope that
/// took part in it.
#[derive(Clone, Debug, PartialEq, Eq)]
pub struct TidyOutcome {
    pub workspace: Option<TidyReport>,
    pub crate_report: Option<TidyReport>,
}

/// Classifies the whole catalog against `manifest`: the workspace scope is
/// reported on when the manifest declares one, and the member scope when the
/// manifest declares a package that does not inherit the workspace
/// configuration.
pub fn tidy_lint(manifest: &CargoManifest, lints: &Vec<LintItem>, with_docs: bool) -> (r:
    TidyOutcome)
    ensures
        r.workspace is Some <==> manifest.is_workspace_spec(),
        r.crate_report is Some <==> (manifest.is_crate_spec() && !manifest.crate_inherit_spec()),
        (r.workspace matches Some(rep) ==> rep.allow.deep_view() == workspace_allow_lines(
            *manifest,
            lints@,
            with_docs,
        ) && rep.unnecessary.deep_view() == workspace_unnecessary_lines(
            *manifest,
            lints@,
            with_docs,
        ) && rep.duplicate.deep_view() == workspace_duplicate_lines(*manifest, lints@, with_docs)
            && rep.deprecated.deep_view() == workspace_deprecated_lines(
            *manifest,
            lints@,
            with_docs,
        )),
        (r.crate_report matches Some(rep) ==> rep.allow.deep_view() == crate_allow_lines(
            *manifest,
            lints@,
            with_docs,
        ) && rep.unnecessary.deep_view() == crate_unnecessary_lines(*manifest, lints@, with_docs)
            && rep.duplicate.deep_view() == crate_duplicate_lines(*manifest, lints@, with_docs)
            && rep.deprecated.deep_view() == crate_deprecated_lines(*manifest, lints@, with_docs)),
{
    let workspace = if manifest.is_workspace() {
        Some(manifest.tidy_workspace(lints, with_docs))
    } else {
        None
    };
    let crate_report = if manifest.is_crate() && !manifest.crate_inherit() {
        Some(manifest.tidy_crate(lints, with_docs))
    } else {
        None
    };
    TidyOutcome { workspace, crate_report }
}

} // verus!
