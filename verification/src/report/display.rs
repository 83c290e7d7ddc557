//! How outcomes are shown on a terminal.

use crate::results::{TestResult, TestResultView};
use crate::text::concat3;
use vstd::prelude::*;

verus! {

/// A colour of the terminal.
#[derive(Debug, Clone, Copy, PartialEq, Eq, Structural)]
pub enum Color {
    Red,
    Green,
    Yellow,
    Blue,
    Magenta,
    Cyan,
    Reset,
}

impl Color {
    /// The escape sequence that switches the terminal to the colour.
    pub open spec fn spec_ansi(self) -> Seq<char> {
        match self {
            Color::Red => "\x1b[31m"@,
            Color::Green => "\x1b[32m"@,
            Color::Yellow => "\x1b[33m"@,
            Color::Blue => "\x1b[34m"@,
            Color::Magenta => "\x1b[35m"@,
            Color::Cyan => "\x1b[36m"@,
            Color::Reset => "\x1b[0m"@,
        }
    }

    pub fn to_ansi(&self) -> (r: &'static str)
        ensures
            r@ == self.spec_ansi(),
    {
        match self {
            Color::Red => "\x1b[31m",
            Color::Green => "\x1b[32m",
            Color::Yellow => "\x1b[33m",
            Color::Blue => "\x1b[34m",
            Color::Magenta => "\x1b[35m",
            Color::Cyan => "\x1b[36m",
            Color::Reset => "\x1b[0m",
        }
    }
}

impl TestResultView {
    /// The colour in which the outcome is shown.
    pub open spec fn color(self) -> Color {
        match self {
            TestResultView::TestPass => Color::Green,
            TestResultView::TestSkipped => Color::Yellow,
            TestResultView::Skipped => Color::Yellow,
            TestResultView::BuildFail(_) => Color::Red,
            TestResultView::TestFail(_) => Color::Red,
            TestResultView::PrepareFail(_) => Color::Magenta,
            TestResultView::BrokenCrate(_) => Color::Magenta,
            TestResultView::Error => Color::Red,
        }
    }

    /// The short name of the outcome.
    pub open spec fn name(self) -> Seq<char> {
        match self {
            TestResultView::TestPass => "test-pass"@,
            TestResultView::TestSkipped => "test-skipped"@,
            TestResultView::Skipped => "skipped"@,
            TestResultView::BuildFail(_) => "build-fail"@,
            TestResultView::TestFail(_) => "test-fail"@,
            TestResultView::PrepareFail(_) => "prepare-fail"@,
            TestResultView::BrokenCrate(_) => "broken"@,
            TestResultView::Error => "error"@,
        }
    }

    /// The outcome as it is printed: its short name, set in its colour
    /// where colours are wanted.
    pub open spec fn formatted(self, use_color: bool) -> Seq<char> {
        if use_color {
            self.color().spec_ansi() + self.name() + Color::Reset.spec_ansi()
        } else {
            self.name()
        }
    }
}

/// What has a colour on the terminal.
pub trait ResultColor {
    fn color(&self) -> Color;
}

impl ResultColor for TestResult {
    fn color(&self) -> (r: Color)
        ensures
            r == self@.color(),
    {
        match self {
            TestResult::TestPass => Color::Green,
            TestResult::TestSkipped => Color::Yellow,
            TestResult::Skipped => Color::Yellow,
            TestResult::BuildFail(_) => Color::Red,
            TestResult::TestFail(_) => Color::Red,
            TestResult::PrepareFail(_) => Color::Magenta,
            TestResult::BrokenCrate(_) => Color::Magenta,
            TestResult::Error => Color::Red,
        }
    }
}

/// What has a short name.
pub trait ResultName {
    fn name(&self) -> &'static str;
}

impl ResultName for TestResult {
    fn name(&self) -> (r: &'static str)
        ensures
            r@ == self@.name(),
    {
        match self {
            TestResult::TestPass => "test-pass",
            TestResult::TestSkipped => "test-skipped",
            TestResult::Skipped => "skipped",
            TestResult::BuildFail(_) => "build-fail",
            TestResult::TestFail(_) => "test-fail",
            TestResult::PrepareFail(_) => "prepare-fail",
            TestResult::BrokenCrate(_) => "broken",
            TestResult::Error => "error",
        }
    }
}

/// The outcome as it is printed.
pub fn format_result(result: &TestResult, use_color: bool) -> (r: String)
    ensures
        r@ == result@.formatted(use_color),
{
    if use_color {
        concat3(result.color().to_ansi(), result.name(), Color::Reset.to_ansi())
    } else {
        result.name().to_owned()
    }
}

} // verus!
