//! What a failed step comes to: the reason read from its message.

use crate::results::{BrokenReason, FailureReason, FailureReasonView, TestResult, TestResultView};
use crate::text::{contains, contains_sub};
use vstd::prelude::*;

verus! {

/// The place where the logs of a run are kept.
pub struct LogStorage;

/// What went wrong while a package was prepared.
pub struct PrepareError;

/// The reason that a message gives for a failure. The first line that
/// fits decides; a message that fits none gives no reason.
pub open spec fn spec_failure_reason(m: Seq<char>) -> FailureReasonView {
    if contains_sub(m, "out of memory"@) || contains_sub(m, "OOM"@) {
        FailureReasonView::OOM
    } else if contains_sub(m, "no space"@) || contains_sub(m, "disk full"@) {
        FailureReasonView::NoSpace
    } else if contains_sub(m, "timeout"@) || contains_sub(m, "timed out"@) {
        FailureReasonView::Timeout
    } else if contains_sub(m, "internal compiler error"@) || contains_sub(m, "ICE"@)
        || contains_sub(m, "thread 'rustc' panicked"@) {
        FailureReasonView::ICE
    } else if contains_sub(m, "network"@) || contains_sub(m, "connection"@) {
        FailureReasonView::NetworkAccess
    } else if contains_sub(m, "docker"@) || contains_sub(m, "container"@) {
        FailureReasonView::Docker
    } else {
        FailureReasonView::Unknown
    }
}

/// The reason that a message gives for a failure.
pub fn failure_reason(message: &str) -> (r: FailureReason)
    ensures
        r@ == spec_failure_reason(message@),
{
    if contains(message, "out of memory") || contains(message, "OOM") {
        FailureReason::OOM
    } else if contains(message, "no space") || contains(message, "disk full") {
        FailureReason::NoSpace
    } else if contains(message, "timeout") || contains(message, "timed out") {
        FailureReason::Timeout
    } else if contains(message, "internal compiler error") || contains(message, "ICE") || contains(
        message,
        "thread 'rustc' panicked",
    ) {
        FailureReason::ICE
    } else if contains(message, "network") || contains(message, "connection") {
        FailureReason::NetworkAccess
    } else if contains(message, "docker") || contains(message, "container") {
        FailureReason::Docker
    } else {
        FailureReason::Unknown
    }
}

/// Why a message says that the package itself is broken, where it says
/// so. The first line that fits decides.
pub open spec fn spec_detect_broken(m: Seq<char>) -> Option<BrokenReason> {
    if contains_sub(m, "Cargo.toml"@) && contains_sub(m, "parse"@) {
        Some(BrokenReason::CargoToml)
    } else if contains_sub(m, "yanked"@) {
        Some(BrokenReason::Yanked)
    } else if contains_sub(m, "missing"@) && contains_sub(m, "dependencies"@) {
        Some(BrokenReason::MissingDependencies)
    } else if contains_sub(m, "git"@) && contains_sub(m, "not found"@) {
        Some(BrokenReason::MissingGitRepository)
    } else {
        None
    }
}

/// Why a message says that the package itself is broken, where it says
/// so.
pub fn detect_broken(message: &str) -> (r: Option<BrokenReason>)
    ensures
        r == spec_detect_broken(message@),
{
    if contains(message, "Cargo.toml") && contains(message, "parse") {
        Some(BrokenReason::CargoToml)
    } else if contains(message, "yanked") {
        Some(BrokenReason::Yanked)
    } else if contains(message, "missing") && contains(message, "dependencies") {
        Some(BrokenReason::MissingDependencies)
    } else if contains(message, "git") && contains(message, "not found") {
        Some(BrokenReason::MissingGitRepository)
    } else {
        None
    }
}

/// The outcome of a step that failed with a message: a broken package
/// where the message says so, a failed build with its reason where not.
pub open spec fn spec_outcome_of_error(m: Seq<char>) -> TestResultView {
    match spec_detect_broken(m) {
        Some(reason) => TestResultView::BrokenCrate(reason),
        None => TestResultView::BuildFail(spec_failure_reason(m)),
    }
}

/// The outcome of a step that failed with a message.
pub fn outcome_of_error(message: &str) -> (r: TestResult)
    ensures
        r@ == spec_outcome_of_error(message@),
{
    match detect_broken(message) {
        Some(reason) => TestResult::BrokenCrate(reason),
        None => TestResult::BuildFail(failure_reason(message)),
    }
}

} // verus!
