//! The report as Markdown.

use crate::report::analyzer::{Summary, TestResults};
use crate::text::{nat_digits, push_u64};
use crate::{Error, Fallible};
use vstd::prelude::*;

verus! {

/// One line of the list: a label, a number, and the end of the line.
pub open spec fn item(label: Seq<char>, n: nat) -> Seq<char> {
    label + nat_digits(n) + "\n"@
}

/// The Markdown text for a summary: a title, a heading, and one line for
/// the total and for the count of each comparison.
pub open spec fn spec_markdown_report(s: Summary) -> Seq<char> {
    "# Crater Experiment Report\n\n## Summary\n\n"@ + item("- Total crates: "@, s.total as nat) + item(
        "- Regressions: "@,
        s.regressed as nat,
    ) + item("- Fixes: "@, s.fixed as nat) + item("- Broken: "@, s.broken as nat) + item(
        "- Same build failures: "@,
        s.same_build_fail as nat,
    ) + item("- Same test failures: "@, s.same_test_fail as nat) + item(
        "- Same test passes: "@,
        s.same_test_pass as nat,
    ) + item("- Skipped: "@, s.skipped as nat) + item(
        "- Same test skipped: "@,
        s.same_test_skipped as nat,
    ) + item("- Unknown: "@, s.unknown as nat) + item("- Errors: "@, s.errors as nat) + item(
        "- Prepare failures: "@,
        s.prepare_fail as nat,
    ) + item("- Spurious regressions: "@, s.spurious_regressed as nat) + item(
        "- Spurious fixes: "@,
        s.spurious_fixed as nat,
    )
}

fn push_item(out: &mut String, label: &str, n: usize)
    ensures
        final(out)@ == old(out)@ + item(label@, n as nat),
{
    out.append(label);
    push_u64(out, n as u64);
    out.append("\n");
    assert(final(out)@ =~= old(out)@ + item(label@, n as nat));
}

/// The report as Markdown.
pub fn generate_markdown_report(results: &TestResults) -> (r: Fallible<String>)
    ensures
        r is Ok,
        r.unwrap()@ == spec_markdown_report(results.summary),
{
    let s = &results.summary;
    let mut out = "# Crater Experiment Report\n\n## Summary\n\n".to_owned();
    push_item(&mut out, "- Total crates: ", s.total);
    push_item(&mut out, "- Regressions: ", s.regressed);
    push_item(&mut out, "- Fixes: ", s.fixed);
    push_item(&mut out, "- Broken: ", s.broken);
    push_item(&mut out, "- Same build failures: ", s.same_build_fail);
    push_item(&mut out, "- Same test failures: ", s.same_test_fail);
    push_item(&mut out, "- Same test passes: ", s.same_test_pass);
    push_item(&mut out, "- Skipped: ", s.skipped);
    push_item(&mut out, "- Same test skipped: ", s.same_test_skipped);
    push_item(&mut out, "- Unknown: ", s.unknown);
    push_item(&mut out, "- Errors: ", s.errors);
    push_item(&mut out, "- Prepare failures: ", s.prepare_fail);
    push_item(&mut out, "- Spurious regressions: ", s.spurious_regressed);
    push_item(&mut out, "- Spurious fixes: ", s.spurious_fixed);
    Ok(out)
}

} // verus!
