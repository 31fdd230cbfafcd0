use vstd::prelude::*;
use vstd::string::*;

verus! {

/// Index of the last path separator in `s`, or -1 when there is none.
pub open spec fn last_slash(s: Seq<char>) -> int
    decreases s.len(),
{
    if s.len() == 0 {
        -1
    } else if s[s.len() - 1] == '/' {
        s.len() - 1
    } else {
        last_slash(s.drop_last())
    }
}

/// A position with no separator after it whose left neighbour is a
/// separator, or the start of the path, pins down `last_slash`.
pub proof fn lemma_last_slash_at(s: Seq<char>, i: int)
    requires
        0 <= i <= s.len(),
        forall|k: int| i <= k < s.len() ==> s[k] != '/',
        i == 0 || s[i - 1] == '/',
    ensures
        last_slash(s) == i - 1,
    decreases s.len() - i,
{
    if i < s.len() {
        lemma_last_slash_at(s.drop_last(), i);
    }
}

/// The directory that holds what the path `s` names: the part before the
/// last separator, `/` alone when that separator leads the path, and empty
/// when the path has no separator at all.
pub open spec fn parent_dir(s: Seq<char>) -> Seq<char> {
    let i = last_slash(s);
    if i < 0 {
        Seq::empty()
    } else if i == 0 {
        "/"@
    } else {
        s.subrange(0, i)
    }
}

/// Joins a relative path onto a base directory with a single separator; an
/// empty base leaves the relative path as it is.
pub open spec fn join_path(base: Seq<char>, rel: Seq<char>) -> Seq<char> {
    if base.len() == 0 {
        rel
    } else if base[base.len() - 1] == '/' {
        base + rel
    } else {
        base + "/"@ + rel
    }
}

/// Computes the parent directory of a path, as `parent_dir` states it.
pub fn parent_of(path: &str) -> (r: String)
    ensures
        r@ == parent_dir(path@),
{
    let n = path.unicode_len();
    let mut i: usize = n;
    while i > 0 && path.get_char(i - 1) != '/'
        invariant
            n == path@.len(),
            i <= n,
            forall|k: int| i <= k < n ==> path@[k] != '/',
        decreases i,
    {
        i -= 1;
    }
    proof {
        lemma_last_slash_at(path@, i as int);
    }
    if i == 0 {
        String::new()
    } else if i == 1 {
        "/".to_owned()
    } else {
        let sub = path.substring_char(0, i - 1);
        sub.to_owned()
    }
}

/// Joins a relative path onto a base directory, as `join_path` states it.
pub fn join_dir(base: &str, rel: &str) -> (r: String)
    ensures
        r@ == join_path(base@, rel@),
{
    let n = base.unicode_len();
    let mut r = String::new();
    if n == 0 {
        r.append(rel);
        proof {
            assert(r@ =~= rel@);
        }
        return r;
    }
    r.append(base);
    if base.get_char(n - 1) != '/' {
        r.append("/");
    }
    r.append(rel);
    proof {
        assert(r@ =~= join_path(base@, rel@));
    }
    r
}

/// The two manifest locations of a project, resolved once at startup and
/// handed in as plain paths.
#[derive(Clone, Debug, Default, PartialEq, Eq)]
pub struct WorkspaceDir {
    pub workspace_manifest: String,
    pub crate_manifest: String,
}

impl WorkspaceDir {
    pub fn new(workspace_manifest: String, crate_manifest: String) -> (r: Self)
        ensures
            r.workspace_manifest == workspace_manifest,
            r.crate_manifest == crate_manifest,
    {
        WorkspaceDir { workspace_manifest, crate_manifest }
    }

    pub fn workspace_manifest_path(&self) -> (r: &str)
        ensures
            r@ == self.workspace_manifest@,
    {
        self.workspace_manifest.as_str()
    }

    pub fn crate_manifest_path(&self) -> (r: &str)
        ensures
            r@ == self.crate_manifest@,
    {
        self.crate_manifest.as_str()
    }

    /// The directory that holds the workspace manifest.
    pub fn workspace_root(&self) -> (r: String)
        ensures
            r@ == parent_dir(self.workspace_manifest@),
    {
        parent_of(self.workspace_manifest.as_str())
    }

    /// The directory that holds the member crate's manifest.
    pub fn crate_root(&self) -> (r: String)
        ensures
            r@ == parent_dir(self.crate_manifest@),
    {
        parent_of(self.crate_manifest.as_str())
    }
}

} // verus!
