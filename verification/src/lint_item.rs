use vstd::prelude::*;
use vstd::string::*;

use crate::text::str_eq;

verus! {

/// How mechanically a suggested fix for a lint can be applied.
#[derive(Clone, Debug, Default, PartialEq, Eq)]
pub struct Applicability {
    pub is_multi_part_suggestion: bool,
    pub applicability: String,
}

/// Where a lint is declared in its source tree.
#[derive(Clone, Debug, Default, PartialEq, Eq)]
pub struct IdSpan {
    pub path: String,
    pub line: i64,
}

/// One record of the lint catalog: a rule identifier, the group it belongs
/// to, its default severity level, and descriptive metadata.
#[derive(Clone, Debug, Default, PartialEq, Eq)]
pub struct LintItem {
    pub id: String,
    pub id_span: IdSpan,
    pub group: String,
    pub level: String,
    pub docs: String,
    pub version: String,
    pub applicability: Applicability,
}

/// Index of the first newline in `s` at or after `i`, or `s.len()` if there
/// is none.
pub open spec fn next_newline(s: Seq<char>, i: int) -> int
    decreases s.len() - i,
{
    if i < 0 || i >= s.len() {
        s.len() as int
    } else if s[i] == '\n' {
        i
    } else {
        next_newline(s, i + 1)
    }
}

pub proof fn lemma_next_newline(s: Seq<char>, i: int)
    requires
        0 <= i <= s.len(),
    ensures
        i <= next_newline(s, i) <= s.len(),
        next_newline(s, i) < s.len() ==> s[next_newline(s, i)] == '\n',
        forall|k: int| i <= k < next_newline(s, i) ==> s[k] != '\n',
    decreases s.len() - i,
{
    if i < s.len() && s[i] != '\n' {
        lemma_next_newline(s, i + 1);
    }
}

/// A position with no newline before it (from `i` on) that holds a newline,
/// or ends the text, is exactly `next_newline(s, i)`.
pub proof fn lemma_next_newline_at(s: Seq<char>, i: int, j: int)
    requires
        0 <= i <= j <= s.len(),
        forall|k: int| i <= k < j ==> s[k] != '\n',
        j == s.len() || s[j] == '\n',
    ensures
        next_newline(s, i) == j,
    decreases j - i,
{
    if i < j {
        lemma_next_newline_at(s, i + 1, j);
    }
}

/// The end of the line that starts at `i` and is closed by the newline at
/// `j`: a carriage return directly before that newline is not part of the
/// line, and a final line without a newline keeps all its characters.
pub open spec fn line_end(s: Seq<char>, i: int, j: int) -> int {
    if j < s.len() && i < j && s[j - 1] == '\r' {
        j - 1
    } else {
        j
    }
}

/// The doc-comment block for the part of `s` that starts at `i`: every line
/// with `"# "` in front and a newline after it.
pub open spec fn doc_block_from(s: Seq<char>, i: int) -> Seq<char>
    decreases s.len() - i,
    via doc_block_from_decreases
{
    if i < 0 || i >= s.len() {
        Seq::empty()
    } else {
        let j = next_newline(s, i);
        let line = "# "@ + s.subrange(i, line_end(s, i, j)) + "\n"@;
        if j >= s.len() {
            line
        } else {
            line + doc_block_from(s, j + 1)
        }
    }
}

#[via_fn]
proof fn doc_block_from_decreases(s: Seq<char>, i: int) {
    if 0 <= i < s.len() {
        lemma_next_newline(s, i);
    }
}

/// Renders `docs` as a block of `# `-prefixed comment lines.
fn doc_comment_block(docs: &str) -> (r: String)
    ensures
        r@ == doc_block_from(docs@, 0),
{
    let n = docs.unicode_len();
    let mut r = String::new();
    let mut i: usize = 0;
    proof {
        assert(r@ + doc_block_from(docs@, 0) =~= doc_block_from(docs@, 0));
    }
    while i < n
        invariant
            n == docs@.len(),
            i <= n,
            r@ + doc_block_from(docs@, i as int) == doc_block_from(docs@, 0),
        decreases n - i,
    {
        let mut j: usize = i;
        while j < n && docs.get_char(j) != '\n'
            invariant
                n == docs@.len(),
                i <= j <= n,
                forall|k: int| i <= k < j ==> docs@[k] != '\n',
            decreases n - j,
        {
            j += 1;
        }
        let e = if j < n && j > i && docs.get_char(j - 1) == '\r' {
            j - 1
        } else {
            j
        };
        let ghost r0 = r@;
        let ghost line_seq = "# "@ + docs@.subrange(i as int, e as int) + "\n"@;
        proof {
            lemma_next_newline_at(docs@, i as int, j as int);
            assert(e as int == line_end(docs@, i as int, j as int));
        }
        r.append("# ");
        let line = docs.substring_char(i, e);
        r.append(line);
        r.append("\n");
        proof {
            assert(r@ =~= r0 + line_seq);
        }
        let next: usize = if j < n {
            j + 1
        } else {
            n
        };
        proof {
            if j < n {
                assert(doc_block_from(docs@, i as int) == line_seq + doc_block_from(
                    docs@,
                    next as int,
                ));
            } else {
                assert(doc_block_from(docs@, i as int) == line_seq);
                assert(doc_block_from(docs@, next as int) =~= Seq::<char>::empty());
                assert(line_seq + doc_block_from(docs@, next as int) =~= line_seq);
            }
            assert((r0 + line_seq) + doc_block_from(docs@, next as int) =~= r0 + (line_seq
                + doc_block_from(docs@, next as int)));
        }
        i = next;
    }
    proof {
        assert(doc_block_from(docs@, i as int) =~= Seq::<char>::empty());
        assert(r@ + Seq::<char>::empty() =~= r@);
    }
    r
}

impl LintItem {
    /// The report line for this lint: the rule id and its level in
    /// `key = "value"` form, a trailing comment with version, applicability
    /// and group, and, on request, the docs as `# ` comment lines.
    pub open spec fn show_spec(self, with_docs: bool) -> Seq<char> {
        let head = self.id@ + " = \""@ + self.level@ + "\" # version: "@ + self.version@
            + ", applicability: "@ + self.applicability.applicability@ + ", group: "@ + self.group@
            + "\n"@;
        if with_docs {
            head + doc_block_from(self.docs@, 0)
        } else {
            head
        }
    }

    pub fn show(&self, with_docs: bool) -> (r: String)
        ensures
            r@ == self.show_spec(with_docs),
    {
        let mut r = String::new();
        r.append(self.id.as_str());
        r.append(" = \"");
        r.append(self.level.as_str());
        r.append("\" # version: ");
        r.append(self.version.as_str());
        r.append(", applicability: ");
        r.append(self.applicability.applicability.as_str());
        r.append(", group: ");
        r.append(self.group.as_str());
        r.append("\n");
        if with_docs {
            let block = doc_comment_block(self.docs.as_str());
            r.append(block.as_str());
        }
        r
    }

    pub open spec fn is_allow_spec(self) -> bool {
        self.level@ == "allow"@
    }

    pub open spec fn is_warn_spec(self) -> bool {
        self.level@ == "warn"@
    }

    pub open spec fn is_deny_spec(self) -> bool {
        self.level@ == "deny"@
    }

    pub fn is_allow(&self) -> (r: bool)
        ensures
            r == self.is_allow_spec(),
    {
        str_eq(self.level.as_str(), "allow")
    }

    pub fn is_warn(&self) -> (r: bool)
        ensures
            r == self.is_warn_spec(),
    {
        str_eq(self.level.as_str(), "warn")
    }

    pub fn is_deny(&self) -> (r: bool)
        ensures
            r == self.is_deny_spec(),
    {
        str_eq(self.level.as_str(), "deny")
    }

    pub fn id(&self) -> (r: &str)
        ensures
            r@ == self.id@,
    {
        self.id.as_str()
    }

    pub fn level(&self) -> (r: &str)
        ensures
            r@ == self.level@,
    {
        self.level.as_str()
    }

    pub fn version(&self) -> (r: &str)
        ensures
            r@ == self.version@,
    {
        self.version.as_str()
    }

    pub fn docs(&self) -> (r: &str)
        ensures
            r@ == self.docs@,
    {
        self.docs.as_str()
    }

    pub fn group(&self) -> (r: &str)
        ensures
            r@ == self.group@,
    {
        self.group.as_str()
    }

    pub fn id_span(&self) -> (r: &IdSpan)
        ensures
            *r == self.id_span,
    {
        &self.id_span
    }

    pub fn applicability(&self) -> (r: &Applicability)
        ensures
            *r == self.applicability,
    {
        &self.applicability
    }
}

/// The lines of one report: `f` applied to each element of `lints` that the
/// selection predicate `p` holds of, in catalog order.
pub open spec fn selected_lines(
    lints: Seq<LintItem>,
    p: spec_fn(LintItem) -> bool,
    f: spec_fn(LintItem) -> Seq<char>,
) -> Seq<Seq<char>>
    decreases lints.len(),
{
    if lints.len() == 0 {
        Seq::empty()
    } else {
        let rest = selected_lines(lints.drop_last(), p, f);
        if p(lints.last()) {
            rest.push(f(lints.last()))
        } else {
            rest
        }
    }
}

/// A record that the selection predicate rejects contributes nothing: the
/// report reads the same as if the record were not in the catalog at all.
pub proof fn lemma_selected_lines_skips_unselected(
    lints: Seq<LintItem>,
    p: spec_fn(LintItem) -> bool,
    f: spec_fn(LintItem) -> Seq<char>,
    i: int,
)
    requires
        0 <= i < lints.len(),
        !p(lints[i]),
    ensures
        selected_lines(lints, p, f) == selected_lines(lints.remove(i), p, f),
    decreases lints.len(),
{
    if i == lints.len() - 1 {
        assert(lints.remove(i) =~= lints.drop_last());
    } else {
        lemma_selected_lines_skips_unselected(lints.drop_last(), p, f, i);
        assert(lints.remove(i).drop_last() =~= lints.drop_last().remove(i));
        assert(lints.remove(i).last() == lints.last());
    }
}

/// Two selection predicates that agree on every record select the same
/// report lines.
pub proof fn lemma_selected_lines_congruence(
    lints: Seq<LintItem>,
    p1: spec_fn(LintItem) -> bool,
    p2: spec_fn(LintItem) -> bool,
    f: spec_fn(LintItem) -> Seq<char>,
)
    requires
        forall|l: LintItem| #[trigger] p1(l) == p2(l),
    ensures
        selected_lines(lints, p1, f) == selected_lines(lints, p2, f),
    decreases lints.len(),
{
    if lints.len() > 0 {
        lemma_selected_lines_congruence(lints.drop_last(), p1, p2, f);
    }
}

impl Applicability {
    pub fn is_multi_part_suggestion(&self) -> (r: bool)
        ensures
            r == self.is_multi_part_suggestion,
    {
        self.is_multi_part_suggestion
    }

    pub fn applicability(&self) -> (r: &str)
        ensures
            r@ == self.applicability@,
    {
        self.applicability.as_str()
    }
}

} // verus!
