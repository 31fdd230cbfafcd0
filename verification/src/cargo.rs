use vstd::prelude::*;

use crate::lint_item::{
    lemma_selected_lines_congruence, lemma_selected_lines_skips_unselected, selected_lines,
    LintItem,
};
use crate::text::str_eq;

verus! {

/// One entry of a scope's lint table: a rule or group name, and the level
/// configured for it.
#[derive(Clone, Debug, PartialEq, Eq)]
pub struct LintSetting {
    pub key: String,
    pub level: String,
}

/// The clippy lint table of the workspace-level scope.
#[derive(Clone, Debug, PartialEq, Eq)]
pub struct WorkspaceLints {
    pub clippy: Vec<LintSetting>,
}

/// The member-level `[lints]` table: whether it defers to the workspace
/// scope, and its own clippy lint table otherwise.
#[derive(Clone, Debug, PartialEq, Eq)]
pub struct CrateLints {
    pub inherits_workspace: bool,
    pub clippy: Vec<LintSetting>,
}

/// What the classifier reads of a project manifest: whether it declares a
/// workspace and a package, and the lint configuration of either scope.
/// Each scope's mapping is the clippy lint table alone; that table is the
/// one source of truth for every membership check.
#[derive(Clone, Debug, PartialEq, Eq)]
pub struct CargoManifest {
    pub workspace: Option<WorkspaceLints>,
    pub package: bool,
    pub lints: Option<CrateLints>,
}

/// Whether a lint table has an entry under the key `k`.
pub open spec fn settings_contain(settings: Seq<LintSetting>, k: Seq<char>) -> bool {
    exists|i: int| 0 <= i < settings.len() && #[trigger] settings[i].key@ == k
}

fn vec_settings_contain(settings: &Vec<LintSetting>, k: &str) -> (r: bool)
    ensures
        r == settings_contain(settings@, k@),
{
    let n = settings.len();
    let mut i: usize = 0;
    while i < n
        invariant
            n == settings@.len(),
            i <= n,
            forall|j: int| 0 <= j < i ==> #[trigger] settings@[j].key@ != k@,
        decreases n - i,
    {
        if str_eq(settings[i].key.as_str(), k) {
            return true;
        }
        i += 1;
    }
    false
}

impl CargoManifest {
    pub open spec fn is_workspace_spec(self) -> bool {
        self.workspace is Some
    }

    pub open spec fn is_crate_spec(self) -> bool {
        self.package
    }

    /// The workspace scope's mapping; an absent scope reads as empty.
    pub open spec fn workspace_clippy(self) -> Seq<LintSetting> {
        match self.workspace {
            Some(w) => w.clippy@,
            None => Seq::empty(),
        }
    }

    /// The member scope's own mapping; an absent `[lints]` table reads as
    /// empty.
    pub open spec fn crate_clippy(self) -> Seq<LintSetting> {
        match self.lints {
            Some(l) => l.clippy@,
            None => Seq::empty(),
        }
    }

    pub open spec fn crate_inherit_spec(self) -> bool {
        match self.lints {
            Some(l) => l.inherits_workspace,
            None => false,
        }
    }

    /// The workspace scope's mapping contains the rule's id or its group.
    pub open spec fn workspace_contains_lint_spec(self, lint: LintItem) -> bool {
        settings_contain(self.workspace_clippy(), lint.id@) || settings_contain(
            self.workspace_clippy(),
            lint.group@,
        )
    }

    /// The workspace scope's mapping contains the rule's id while the rule's
    /// group is the literal tag `deprecated`.
    pub open spec fn workspace_lint_deprecated_spec(self, lint: LintItem) -> bool {
        settings_contain(self.workspace_clippy(), lint.id@) && lint.group@ == "deprecated"@
    }

    /// The workspace scope's mapping contains both the rule's group and its
    /// id as separate keys.
    pub open spec fn workspace_group_duplicate_spec(self, lint: LintItem) -> bool {
        settings_contain(self.workspace_clippy(), lint.group@) && settings_contain(
            self.workspace_clippy(),
            lint.id@,
        )
    }

    /// The member-scope membership check: with `inherits_workspace` the
    /// workspace scope decides; otherwise the member's own mapping does.
    pub open spec fn crate_contains_lint_spec(self, lint: LintItem) -> bool {
        self.lints is Some && if self.crate_inherit_spec() {
            self.workspace_contains_lint_spec(lint)
        } else {
            settings_contain(self.crate_clippy(), lint.id@) || settings_contain(
                self.crate_clippy(),
                lint.group@,
            )
        }
    }

    /// The member-scope deprecation check, resolved through inheritance the
    /// same way as membership.
    pub open spec fn crate_lint_deprecated_spec(self, lint: LintItem) -> bool {
        self.lints is Some && if self.crate_inherit_spec() {
            self.workspace_lint_deprecated_spec(lint)
        } else {
            settings_contain(self.crate_clippy(), lint.id@) && lint.group@ == "deprecated"@
        }
    }

    /// The member-scope duplicate check, resolved through inheritance the
    /// same way as membership.
    pub open spec fn crate_group_duplicate_spec(self, lint: LintItem) -> bool {
        self.lints is Some && if self.crate_inherit_spec() {
            self.workspace_group_duplicate_spec(lint)
        } else {
            settings_contain(self.crate_clippy(), lint.group@) && settings_contain(
                self.crate_clippy(),
                lint.id@,
            )
        }
    }

    pub fn is_workspace(&self) -> (r: bool)
        ensures
            r == self.is_workspace_spec(),
    {
        self.workspace.is_some()
    }

    pub fn is_crate(&self) -> (r: bool)
        ensures
            r == self.is_crate_spec(),
    {
        self.package
    }

    /// Whether the member scope defers its lint configuration to the
    /// workspace scope.
    pub fn crate_inherit(&self) -> (r: bool)
        ensures
            r == self.crate_inherit_spec(),
    {
        match &self.lints {
            Some(l) => l.inherits_workspace,
            None => false,
        }
    }

    pub fn workspace_contains_lint(&self, lint: &LintItem) -> (r: bool)
        ensures
            r == self.workspace_contains_lint_spec(*lint),
    {
        match &self.workspace {
            Some(w) => vec_settings_contain(&w.clippy, lint.id()) || vec_settings_contain(
                &w.clippy,
                lint.group(),
            ),
            None => false,
        }
    }

    pub fn workspace_lint_deprecated(&self, lint: &LintItem) -> (r: bool)
        ensures
            r == self.workspace_lint_deprecated_spec(*lint),
    {
        match &self.workspace {
            Some(w) => vec_settings_contain(&w.clippy, lint.id()) && str_eq(
                lint.group(),
                "deprecated",
            ),
            None => false,
        }
    }

    /// A lint that its group's entry already covers, set again by its id.
    pub fn workspace_group_duplicate(&self, lint: &LintItem) -> (r: bool)
        ensures
            r == self.workspace_group_duplicate_spec(*lint),
    {
        match &self.workspace {
            Some(w) => vec_settings_contain(&w.clippy, lint.group()) && vec_settings_contain(
                &w.clippy,
                lint.id(),
            ),
            None => false,
        }
    }

    pub fn crate_contains_lint(&self, lint: &LintItem) -> (r: bool)
        ensures
            r == self.crate_contains_lint_spec(*lint),
    {
        match &self.lints {
            Some(l) => {
                if l.inherits_workspace {
                    self.workspace_contains_lint(lint)
                } else {
                    vec_settings_contain(&l.clippy, lint.id()) || vec_settings_contain(
                        &l.clippy,
                        lint.group(),
                    )
                }
            },
            None => false,
        }
    }

    pub fn crate_lint_deprecated(&self, lint: &LintItem) -> (r: bool)
        ensures
            r == self.crate_lint_deprecated_spec(*lint),
    {
        match &self.lints {
            Some(l) => {
                if l.inherits_workspace {
                    self.workspace_lint_deprecated(lint)
                } else {
                    vec_settings_contain(&l.clippy, lint.id()) && str_eq(
                        lint.group(),
                        "deprecated",
                    )
                }
            },
            None => false,
        }
    }

    /// A lint that its group's entry already covers, set again by its id.
    pub fn crate_group_duplicate(&self, lint: &LintItem) -> (r: bool)
        ensures
            r == self.crate_group_duplicate_spec(*lint),
    {
        match &self.lints {
            Some(l) => {
                if l.inherits_workspace {
                    self.workspace_group_duplicate(lint)
                } else {
                    vec_settings_contain(&l.clippy, lint.group()) && vec_settings_contain(
                        &l.clippy,
                        lint.id(),
                    )
                }
            },
            None => false,
        }
    }
}

/// One report-generation run's output: the lines of the four category
/// reports of a single scope.
#[derive(Clone, Debug, PartialEq, Eq)]
pub struct TidyReport {
    pub allow: Vec<String>,
    pub unnecessary: Vec<String>,
    pub duplicate: Vec<String>,
    pub deprecated: Vec<String>,
}

pub open spec fn show_line(with_docs: bool) -> spec_fn(LintItem) -> Seq<char> {
    |l: LintItem| l.show_spec(with_docs)
}

/// Selected for the allow report: allowed by default and nowhere in the
/// scope's mapping.
pub open spec fn workspace_allow_selected(m: CargoManifest) -> spec_fn(LintItem) -> bool {
    |l: LintItem| l.is_allow_spec() && !m.workspace_contains_lint_spec(l)
}

/// Selected for the unnecessary report: not at level allow, yet configured.
pub open spec fn workspace_unnecessary_selected(m: CargoManifest) -> spec_fn(LintItem) -> bool {
    |l: LintItem| !l.is_allow_spec() && m.workspace_contains_lint_spec(l)
}

pub open spec fn workspace_duplicate_selected(m: CargoManifest) -> spec_fn(LintItem) -> bool {
    |l: LintItem| m.workspace_group_duplicate_spec(l)
}

pub open spec fn workspace_deprecated_selected(m: CargoManifest) -> spec_fn(LintItem) -> bool {
    |l: LintItem| m.workspace_lint_deprecated_spec(l)
}

pub open spec fn crate_allow_selected(m: CargoManifest) -> spec_fn(LintItem) -> bool {
    |l: LintItem| l.is_allow_spec() && !m.crate_contains_lint_spec(l)
}

pub open spec fn crate_unnecessary_selected(m: CargoManifest) -> spec_fn(LintItem) -> bool {
    |l: LintItem| !l.is_allow_spec() && m.crate_contains_lint_spec(l)
}

pub open spec fn crate_duplicate_selected(m: CargoManifest) -> spec_fn(LintItem) -> bool {
    |l: LintItem| m.crate_group_duplicate_spec(l)
}

pub open spec fn crate_deprecated_selected(m: CargoManifest) -> spec_fn(LintItem) -> bool {
    |l: LintItem| m.crate_lint_deprecated_spec(l)
}

pub open spec fn workspace_allow_lines(
    m: CargoManifest,
    lints: Seq<LintItem>,
    with_docs: bool,
) -> Seq<Seq<char>> {
    selected_lines(lints, workspace_allow_selected(m), show_line(with_docs))
}

pub open spec fn workspace_unnecessary_lines(
    m: CargoManifest,
    lints: Seq<LintItem>,
    with_docs: bool,
) -> Seq<Seq<char>> {
    selected_lines(lints, workspace_unnecessary_selected(m), show_line(with_docs))
}

pub open spec fn workspace_duplicate_lines(
    m: CargoManifest,
    lints: Seq<LintItem>,
    with_docs: bool,
) -> Seq<Seq<char>> {
    selected_lines(lints, workspace_duplicate_selected(m), show_line(with_docs))
}

pub open spec fn workspace_deprecated_lines(
    m: CargoManifest,
    lints: Seq<LintItem>,
    with_docs: bool,
) -> Seq<Seq<char>> {
    selected_lines(lints, workspace_deprecated_selected(m), show_line(with_docs))
}

pub open spec fn crate_allow_lines(
    m: CargoManifest,
    lints: Seq<LintItem>,
    with_docs: bool,
) -> Seq<Seq<char>> {
    selected_lines(lints, crate_allow_selected(m), show_line(with_docs))
}

pub open spec fn crate_unnecessary_lines(
    m: CargoManifest,
    lints: Seq<LintItem>,
    with_docs: bool,
) -> Seq<Seq<char>> {
    selected_lines(lints, crate_unnecessary_selected(m), show_line(with_docs))
}

pub open spec fn crate_duplicate_lines(
    m: CargoManifest,
    lints: Seq<LintItem>,
    with_docs: bool,
) -> Seq<Seq<char>> {
    selected_lines(lints, crate_duplicate_selected(m), show_line(with_docs))
}

pub open spec fn crate_deprecated_lines(
    m: CargoManifest,
    lints: Seq<LintItem>,
    with_docs: bool,
) -> Seq<Seq<char>> {
    selected_lines(lints, crate_deprecated_selected(m), show_line(with_docs))
}

impl CargoManifest {
    /// Classifies every catalog record against the workspace scope and
    /// collects the four category reports.
    pub fn tidy_workspace(&self, lints: &Vec<LintItem>, with_docs: bool) -> (r: TidyReport)
        ensures
            r.allow.deep_view() == workspace_allow_lines(*self, lints@, with_docs),
            r.unnecessary.deep_view() == workspace_unnecessary_lines(*self, lints@, with_docs),
            r.duplicate.deep_view() == workspace_duplicate_lines(*self, lints@, with_docs),
            r.deprecated.deep_view() == workspace_deprecated_lines(*self, lints@, with_docs),
    {
        let mut allow: Vec<String> = Vec::new();
        let mut unnecessary: Vec<String> = Vec::new();
        let mut duplicate: Vec<String> = Vec::new();
        let mut deprecated: Vec<String> = Vec::new();
        let n = lints.len();
        let mut k: usize = 0;
        proof {
            assert(lints@.take(0) =~= Seq::<LintItem>::empty());
        }
        while k < n
            invariant
                n == lints@.len(),
                k <= n,
                allow.deep_view() == workspace_allow_lines(*self, lints@.take(k as int), with_docs),
                unnecessary.deep_view() == workspace_unnecessary_lines(
                    *self,
                    lints@.take(k as int),
                    with_docs,
                ),
                duplicate.deep_view() == workspace_duplicate_lines(
                    *self,
                    lints@.take(k as int),
                    with_docs,
                ),
                deprecated.deep_view() == workspace_deprecated_lines(
                    *self,
                    lints@.take(k as int),
                    with_docs,
                ),
            decreases n - k,
        {
            let lint = &lints[k];
            let line = lint.show(with_docs);
            let is_allow = lint.is_allow();
            let contained = self.workspace_contains_lint(lint);
            let dup = self.workspace_group_duplicate(lint);
            let dep = self.workspace_lint_deprecated(lint);
            let ghost a0 = allow.deep_view();
            let ghost u0 = unnecessary.deep_view();
            let ghost d0 = duplicate.deep_view();
            let ghost p0 = deprecated.deep_view();
            if is_allow && !contained {
                allow.push(line.clone());
                proof {
                    assert(allow.deep_view() =~= a0.push(line@));
                }
            }
            if !is_allow && contained {
                unnecessary.push(line.clone());
                proof {
                    assert(unnecessary.deep_view() =~= u0.push(line@));
                }
            }
            if dup {
                duplicate.push(line.clone());
                proof {
                    assert(duplicate.deep_view() =~= d0.push(line@));
                }
            }
            if dep {
                deprecated.push(line.clone());
                proof {
                    assert(deprecated.deep_view() =~= p0.push(line@));
                }
            }
            proof {
                assert(lints@.take(k as int + 1).drop_last() =~= lints@.take(k as int));
                assert(lints@.take(k as int + 1).last() == lints@[k as int]);
            }
            k += 1;
        }
        proof {
            assert(lints@.take(n as int) =~= lints@);
        }
        TidyReport { allow, unnecessary, duplicate, deprecated }
    }

    /// Classifies every catalog record against the member scope, resolving
    /// inheritance, and collects the four category reports.
    pub fn tidy_crate(&self, lints: &Vec<LintItem>, with_docs: bool) -> (r: TidyReport)
        ensures
            r.allow.deep_view() == crate_allow_lines(*self, lints@, with_docs),
            r.unnecessary.deep_view() == crate_unnecessary_lines(*self, lints@, with_docs),
            r.duplicate.deep_view() == crate_duplicate_lines(*self, lints@, with_docs),
            r.deprecated.deep_view() == crate_deprecated_lines(*self, lints@, with_docs),
    {
        let mut allow: Vec<String> = Vec::new();
        let mut unnecessary: Vec<String> = Vec::new();
        let mut duplicate: Vec<String> = Vec::new();
        let mut deprecated: Vec<String> = Vec::new();
        let n = lints.len();
        let mut k: usize = 0;
        proof {
            assert(lints@.take(0) =~= Seq::<LintItem>::empty());
        }
        while k < n
            invariant
                n == lints@.len(),
                k <= n,
                allow.deep_view() == crate_allow_lines(*self, lints@.take(k as int), with_docs),
                unnecessary.deep_view() == crate_unnecessary_lines(
                    *self,
                    lints@.take(k as int),
                    with_docs,
                ),
                duplicate.deep_view() == crate_duplicate_lines(
                    *self,
                    lints@.take(k as int),
                    with_docs,
                ),
                deprecated.deep_view() == crate_deprecated_lines(
                    *self,
                    lints@.take(k as int),
                    with_docs,
                ),
            decreases n - k,
        {
            let lint = &lints[k];
            let line = lint.show(with_docs);
            let is_allow = lint.is_allow();
            let contained = self.crate_contains_lint(lint);
            let dup = self.crate_group_duplicate(lint);
            let dep = self.crate_lint_deprecated(lint);
            let ghost a0 = allow.deep_view();
            let ghost u0 = unnecessary.deep_view();
            let ghost d0 = duplicate.deep_view();
            let ghost p0 = deprecated.deep_view();
            if is_allow && !contained {
                allow.push(line.clone());
                proof {
                    assert(allow.deep_view() =~= a0.push(line@));
                }
            }
            if !is_allow && contained {
                unnecessary.push(line.clone());
                proof {
                    assert(unnecessary.deep_view() =~= u0.push(line@));
                }
            }
            if dup {
                duplicate.push(line.clone());
                proof {
                    assert(duplicate.deep_view() =~= d0.push(line@));
                }
            }
            if dep {
                deprecated.push(line.clone());
                proof {
                    assert(deprecated.deep_view() =~= p0.push(line@));
                }
            }
            proof {
                assert(lints@.take(k as int + 1).drop_last() =~= lints@.take(k as int));
                assert(lints@.take(k as int + 1).last() == lints@[k as int]);
            }
            k += 1;
        }
        proof {
            assert(lints@.take(n as int) =~= lints@);
        }
        TidyReport { allow, unnecessary, duplicate, deprecated }
    }
}

/// Law: a lint whose level is `allow` that a scope's mapping contains is
/// excluded from that scope's allow report: the report reads the same as if
/// the record were not in the catalog.
pub proof fn lemma_allow_present_excluded(
    m: CargoManifest,
    lints: Seq<LintItem>,
    with_docs: bool,
    i: int,
)
    requires
        0 <= i < lints.len(),
        lints[i].is_allow_spec(),
    ensures
        m.workspace_contains_lint_spec(lints[i]) ==> workspace_allow_lines(m, lints, with_docs)
            == workspace_allow_lines(m, lints.remove(i), with_docs),
        m.crate_contains_lint_spec(lints[i]) ==> crate_allow_lines(m, lints, with_docs)
            == crate_allow_lines(m, lints.remove(i), with_docs),
{
    if m.workspace_contains_lint_spec(lints[i]) {
        lemma_selected_lines_skips_unselected(
            lints,
            workspace_allow_selected(m),
            show_line(with_docs),
            i,
        );
    }
    if m.crate_contains_lint_spec(lints[i]) {
        lemma_selected_lines_skips_unselected(
            lints,
            crate_allow_selected(m),
            show_line(with_docs),
            i,
        );
    }
}

/// Law: a lint whose level is not `allow` that a scope's mapping does not
/// contain is excluded from that scope's unnecessary report.
pub proof fn lemma_absent_not_unnecessary(
    m: CargoManifest,
    lints: Seq<LintItem>,
    with_docs: bool,
    i: int,
)
    requires
        0 <= i < lints.len(),
        !lints[i].is_allow_spec(),
    ensures
        !m.workspace_contains_lint_spec(lints[i]) ==> workspace_unnecessary_lines(
            m,
            lints,
            with_docs,
        ) == workspace_unnecessary_lines(m, lints.remove(i), with_docs),
        !m.crate_contains_lint_spec(lints[i]) ==> crate_unnecessary_lines(m, lints, with_docs)
            == crate_unnecessary_lines(m, lints.remove(i), with_docs),
{
    if !m.workspace_contains_lint_spec(lints[i]) {
        lemma_selected_lines_skips_unselected(
            lints,
            workspace_unnecessary_selected(m),
            show_line(with_docs),
            i,
        );
    }
    if !m.crate_contains_lint_spec(lints[i]) {
        lemma_selected_lines_skips_unselected(
            lints,
            crate_unnecessary_selected(m),
            show_line(with_docs),
            i,
        );
    }
}

/// Law: the duplicate check asks for the rule's id and its group as keys of
/// the same mapping, symmetrically; without either key it is false.
pub proof fn lemma_duplicate_requires_both(m: CargoManifest, lint: LintItem)
    ensures
        m.workspace_group_duplicate_spec(lint) == (settings_contain(
            m.workspace_clippy(),
            lint.id@,
        ) && settings_contain(m.workspace_clippy(), lint.group@)),
        !settings_contain(m.workspace_clippy(), lint.id@) || !settings_contain(
            m.workspace_clippy(),
            lint.group@,
        ) ==> !m.workspace_group_duplicate_spec(lint),
        m.lints is Some && !m.crate_inherit_spec() ==> m.crate_group_duplicate_spec(lint) == (
        settings_contain(m.crate_clippy(), lint.id@) && settings_contain(
            m.crate_clippy(),
            lint.group@,
        )),
        !m.crate_inherit_spec() && (!settings_contain(m.crate_clippy(), lint.id@)
            || !settings_contain(m.crate_clippy(), lint.group@)) ==> !m.crate_group_duplicate_spec(
            lint,
        ),
{
}

/// Law: a member scope that inherits the workspace configuration classifies
/// every record exactly as the workspace scope does.
pub proof fn lemma_inherit_matches_workspace(m: CargoManifest, lint: LintItem)
    requires
        m.lints is Some,
        m.crate_inherit_spec(),
    ensures
        m.crate_contains_lint_spec(lint) == m.workspace_contains_lint_spec(lint),
        m.crate_group_duplicate_spec(lint) == m.workspace_group_duplicate_spec(lint),
        m.crate_lint_deprecated_spec(lint) == m.workspace_lint_deprecated_spec(lint),
{
}

/// Law: under inheritance the member scope's four reports read exactly as
/// the workspace scope's reports of the same catalog.
pub proof fn lemma_inherit_reports_match(m: CargoManifest, lints: Seq<LintItem>, with_docs: bool)
    requires
        m.lints is Some,
        m.crate_inherit_spec(),
    ensures
        crate_allow_lines(m, lints, with_docs) == workspace_allow_lines(m, lints, with_docs),
        crate_unnecessary_lines(m, lints, with_docs) == workspace_unnecessary_lines(
            m,
            lints,
            with_docs,
        ),
        crate_duplicate_lines(m, lints, with_docs) == workspace_duplicate_lines(
            m,
            lints,
            with_docs,
        ),
        crate_deprecated_lines(m, lints, with_docs) == workspace_deprecated_lines(
            m,
            lints,
            with_docs,
        ),
{
    assert forall|l: LintItem| #[trigger] crate_allow_selected(m)(l) == workspace_allow_selected(
        m,
    )(l) by {
        lemma_inherit_matches_workspace(m, l);
    }
    assert forall|l: LintItem| #[trigger] crate_unnecessary_selected(m)(l)
        == workspace_unnecessary_selected(m)(l) by {
        lemma_inherit_matches_workspace(m, l);
    }
    assert forall|l: LintItem| #[trigger] crate_duplicate_selected(m)(l)
        == workspace_duplicate_selected(m)(l) by {
        lemma_inherit_matches_workspace(m, l);
    }
    assert forall|l: LintItem| #[trigger] crate_deprecated_selected(m)(l)
        == workspace_deprecated_selected(m)(l) by {
        lemma_inherit_matches_workspace(m, l);
    }
    lemma_selected_lines_congruence(
        lints,
        crate_allow_selected(m),
        workspace_allow_selected(m),
        show_line(with_docs),
    );
    lemma_selected_lines_congruence(
        lints,
        crate_unnecessary_selected(m),
        workspace_unnecessary_selected(m),
        show_line(with_docs),
    );
    lemma_selected_lines_congruence(
        lints,
        crate_duplicate_selected(m),
        workspace_duplicate_selected(m),
        show_line(with_docs),
    );
    lemma_selected_lines_congruence(
        lints,
        crate_deprecated_selected(m),
        workspace_deprecated_selected(m),
        show_line(with_docs),
    );
}

} // verus!
