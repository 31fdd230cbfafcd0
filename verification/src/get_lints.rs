use vstd::prelude::*;
use vstd::string::*;

use crate::lint_item::{selected_lines, LintItem};
use crate::text::{contains_seq, str_contains};

verus! {

/// The `key = "warn"` line that proposes enabling a lint.
pub open spec fn warn_line(l: LintItem) -> Seq<char> {
    l.id@ + " = \"warn\"\n"@
}

pub open spec fn warn_line_fn() -> spec_fn(LintItem) -> Seq<char> {
    |l: LintItem| warn_line(l)
}

/// Selected for a warn suggestion: allowed by default, with an id that the
/// manifest text nowhere mentions.
pub open spec fn warn_selected(manifest_text: Seq<char>) -> spec_fn(LintItem) -> bool {
    |l: LintItem| l.is_allow_spec() && !contains_seq(manifest_text, l.id@)
}

pub open spec fn warn_lines(lints: Seq<LintItem>, manifest_text: Seq<char>) -> Seq<Seq<char>> {
    selected_lines(lints, warn_selected(manifest_text), warn_line_fn())
}

/// One `key = "warn"` line for every allowed-by-default lint whose id the
/// manifest text does not mention, in catalog order.
pub fn warn_suggestions(lints: &Vec<LintItem>, manifest_text: &str) -> (r: Vec<String>)
    ensures
        r.deep_view() == warn_lines(lints@, manifest_text@),
{
    let mut r: Vec<String> = Vec::new();
    let n = lints.len();
    let mut k: usize = 0;
    proof {
        assert(lints@.take(0) =~= Seq::<LintItem>::empty());
    }
    while k < n
        invariant
            n == lints@.len(),
            k <= n,
            r.deep_view() == warn_lines(lints@.take(k as int), manifest_text@),
        decreases n - k,
    {
        let lint = &lints[k];
        let ghost r0 = r.deep_view();
        if lint.is_allow() && !str_contains(manifest_text, lint.id()) {
            let mut line = String::new();
            line.append(lint.id());
            line.append(" = \"warn\"\n");
            proof {
                assert(line@ =~= warn_line(lints@[k as int]));
            }
            r.push(line);
            proof {
                assert(r.deep_view() =~= r0.push(warn_line(lints@[k as int])));
            }
        }
        proof {
            assert(lints@.take(k as int + 1).drop_last() =~= lints@.take(k as int));
            assert(lints@.take(k as int + 1).last() == lints@[k as int]);
        }
        k += 1;
    }
    proof {
        assert(lints@.take(n as int) =~= lints@);
    }
    r
}

} // verus!
