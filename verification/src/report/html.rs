//! The report as a page.

use crate::report::analyzer::{Summary, TestResults};
use crate::text::{nat_digits, push_u64};
use crate::{Error, Fallible};
use vstd::prelude::*;

verus! {

/// The page for a summary: a title and a heading, then the number of
/// packages and the counts that a summary shows by themselves:
/// regressions and fixes, and the spurious ones of each.
pub open spec fn spec_html_report(s: Summary) -> Seq<char> {
    "<!DOCTYPE html>\n<html>\n<head>\n    <title>Crater Report</title>\n</head>\n<body>\n    <h1>Crater Experiment Report</h1>\n    <p>Total crates: "@
        + nat_digits(s.total as nat) + "</p>\n    <p>Regressions: "@ + nat_digits(s.regressed as nat)
        + "</p>\n    <p>Fixes: "@ + nat_digits(s.fixed as nat) + "</p>\n    <p>Spurious regressions: "@
        + nat_digits(s.spurious_regressed as nat) + "</p>\n    <p>Spurious fixes: "@ + nat_digits(
        s.spurious_fixed as nat,
    ) + "</p>\n</body>\n</html>"@
}

/// The report as a page.
pub fn generate_html_report(results: &TestResults) -> (r: Fallible<String>)
    ensures
        r is Ok,
        r.unwrap()@ == spec_html_report(results.summary),
{
    let mut out =
        "<!DOCTYPE html>\n<html>\n<head>\n    <title>Crater Report</title>\n</head>\n<body>\n    <h1>Crater Experiment Report</h1>\n    <p>Total crates: ".to_owned();
    push_u64(&mut out, results.summary.total as u64);
    out.append("</p>\n    <p>Regressions: ");
    push_u64(&mut out, results.summary.regressed as u64);
    out.append("</p>\n    <p>Fixes: ");
    push_u64(&mut out, results.summary.fixed as u64);
    out.append("</p>\n    <p>Spurious regressions: ");
    push_u64(&mut out, results.summary.spurious_regressed as u64);
    out.append("</p>\n    <p>Spurious fixes: ");
    push_u64(&mut out, results.summary.spurious_fixed as u64);
    out.append("</p>\n</body>\n</html>");
    Ok(out)
}

} // verus!
