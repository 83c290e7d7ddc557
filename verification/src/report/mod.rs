//! The report: how the two toolchains compare, package by package.

pub mod analyzer;
pub mod archives;
pub mod display;
pub mod html;
pub mod markdown;

pub use crate::report::analyzer::TestResults;
pub use crate::report::display::{Color, ResultColor, ResultName};
use crate::crates::{Crate, CrateView};
use crate::model::opt_view;
use crate::results::{TestResult, TestResultView};
use crate::text::str_eq;
use crate::Error;
use vstd::prelude::*;

verus! {

/// How the outcomes of the two toolchains compare for one package.
#[derive(Debug, PartialEq, Eq, Hash, Clone, Copy, Structural)]
pub enum Comparison {
    /// Passed with the first toolchain, failed with the second.
    Regressed,
    /// Failed with the first toolchain, passed with the second.
    Fixed,
    Skipped,
    Unknown,
    Error,
    Broken,
    PrepareFail,
    SameBuildFail,
    SameTestFail,
    SameTestSkipped,
    SameTestPass,
    SpuriousRegressed,
    SpuriousFixed,
}

impl Comparison {
    /// The name of the value.
    pub open spec fn spec_str(self) -> Seq<char> {
        match self {
            Comparison::Regressed => "regressed"@,
            Comparison::Fixed => "fixed"@,
            Comparison::Skipped => "skipped"@,
            Comparison::Unknown => "unknown"@,
            Comparison::Error => "error"@,
            Comparison::Broken => "broken"@,
            Comparison::PrepareFail => "prepare-fail"@,
            Comparison::SameBuildFail => "build-fail"@,
            Comparison::SameTestFail => "test-fail"@,
            Comparison::SameTestSkipped => "test-skipped"@,
            Comparison::SameTestPass => "test-pass"@,
            Comparison::SpuriousRegressed => "spurious-regressed"@,
            Comparison::SpuriousFixed => "spurious-fixed"@,
        }
    }

    /// The value that a name stands for.
    pub open spec fn spec_parse(s: Seq<char>) -> Option<Comparison> {
        if s == "regressed"@ {
            Some(Comparison::Regressed)
        } else if s == "fixed"@ {
            Some(Comparison::Fixed)
        } else if s == "skipped"@ {
            Some(Comparison::Skipped)
        } else if s == "unknown"@ {
            Some(Comparison::Unknown)
        } else if s == "error"@ {
            Some(Comparison::Error)
        } else if s == "broken"@ {
            Some(Comparison::Broken)
        } else if s == "prepare-fail"@ {
            Some(Comparison::PrepareFail)
        } else if s == "build-fail"@ {
            Some(Comparison::SameBuildFail)
        } else if s == "test-fail"@ {
            Some(Comparison::SameTestFail)
        } else if s == "test-skipped"@ {
            Some(Comparison::SameTestSkipped)
        } else if s == "test-pass"@ {
            Some(Comparison::SameTestPass)
        } else if s == "spurious-regressed"@ {
            Some(Comparison::SpuriousRegressed)
        } else if s == "spurious-fixed"@ {
            Some(Comparison::SpuriousFixed)
        } else {
            None
        }
    }

    pub fn to_str(&self) -> (r: &'static str)
        ensures
            r@ == self.spec_str(),
    {
        match self {
            Comparison::Regressed => "regressed",
            Comparison::Fixed => "fixed",
            Comparison::Skipped => "skipped",
            Comparison::Unknown => "unknown",
            Comparison::Error => "error",
            Comparison::Broken => "broken",
            Comparison::PrepareFail => "prepare-fail",
            Comparison::SameBuildFail => "build-fail",
            Comparison::SameTestFail => "test-fail",
            Comparison::SameTestSkipped => "test-skipped",
            Comparison::SameTestPass => "test-pass",
            Comparison::SpuriousRegressed => "spurious-regressed",
            Comparison::SpuriousFixed => "spurious-fixed",
        }
    }

    pub fn to_string(&self) -> (r: String)
        ensures
            r@ == self.spec_str(),
    {
        self.to_str().to_owned()
    }

    /// Parses a name; `BadRequest` where the string is none.
    pub fn from_str(s: &str) -> (r: Result<Comparison, Error>)
        ensures
            match Self::spec_parse(s@) {
                Some(v) => r == Ok::<Comparison, Error>(v),
                None => r == Err::<Comparison, Error>(Error::BadRequest),
            },
    {
        if str_eq(s, "regressed") {
            Ok(Comparison::Regressed)
        } else if str_eq(s, "fixed") {
            Ok(Comparison::Fixed)
        } else if str_eq(s, "skipped") {
            Ok(Comparison::Skipped)
        } else if str_eq(s, "unknown") {
            Ok(Comparison::Unknown)
        } else if str_eq(s, "error") {
            Ok(Comparison::Error)
        } else if str_eq(s, "broken") {
            Ok(Comparison::Broken)
        } else if str_eq(s, "prepare-fail") {
            Ok(Comparison::PrepareFail)
        } else if str_eq(s, "build-fail") {
            Ok(Comparison::SameBuildFail)
        } else if str_eq(s, "test-fail") {
            Ok(Comparison::SameTestFail)
        } else if str_eq(s, "test-skipped") {
            Ok(Comparison::SameTestSkipped)
        } else if str_eq(s, "test-pass") {
            Ok(Comparison::SameTestPass)
        } else if str_eq(s, "spurious-regressed") {
            Ok(Comparison::SpuriousRegressed)
        } else if str_eq(s, "spurious-fixed") {
            Ok(Comparison::SpuriousFixed)
        } else {
            Err(Error::BadRequest)
        }
    }

    /// Parsing the name of a value gives the value back.
    pub proof fn lemma_parse_str(v: Comparison)
        ensures
            Self::spec_parse(v.spec_str()) == Some(v),
    {
        reveal_strlit("regressed");
        reveal_strlit("fixed");
        reveal_strlit("skipped");
        reveal_strlit("unknown");
        reveal_strlit("error");
        reveal_strlit("broken");
        reveal_strlit("prepare-fail");
        reveal_strlit("build-fail");
        reveal_strlit("test-fail");
        reveal_strlit("test-skipped");
        reveal_strlit("test-pass");
        reveal_strlit("spurious-regressed");
        reveal_strlit("spurious-fixed");
        assert("regressed"@.len() == 9);
        assert("fixed"@.len() == 5);
        assert("skipped"@.len() == 7);
        assert("unknown"@.len() == 7);
        assert("error"@.len() == 5);
        assert("broken"@.len() == 6);
        assert("prepare-fail"@.len() == 12);
        assert("build-fail"@.len() == 10);
        assert("test-fail"@.len() == 9);
        assert("test-skipped"@.len() == 12);
        assert("test-pass"@.len() == 9);
        assert("spurious-regressed"@.len() == 18);
        assert("spurious-fixed"@.len() == 14);
        assert("regressed"@[0] != "test-fail"@[0]);
        assert("regressed"@[0] != "test-pass"@[0]);
        assert("fixed"@[0] != "error"@[0]);
        assert("skipped"@[0] != "unknown"@[0]);
        assert("prepare-fail"@[0] != "test-skipped"@[0]);
        assert("test-fail"@[5] != "test-pass"@[5]);
    }
}

impl std::str::FromStr for Comparison {
    type Err = Error;

    fn from_str(s: &str) -> (r: Result<Comparison, Error>)
        ensures
            match Comparison::spec_parse(s@) {
                Some(v) => r == Ok::<Comparison, Error>(v),
                None => r == Err::<Comparison, Error>(Error::BadRequest),
            },
    {
        Comparison::from_str(s)
    }
}

impl Comparison {
    /// Whether the comparison is one that the summary shows by itself: a
    /// change between the two toolchains.
    pub open spec fn spec_show_in_summary(self) -> bool {
        self == Comparison::Regressed || self == Comparison::Fixed || self
            == Comparison::SpuriousRegressed || self == Comparison::SpuriousFixed
    }

    pub fn show_in_summary(&self) -> (r: bool)
        ensures
            r == self.spec_show_in_summary(),
    {
        match self {
            Comparison::Regressed => true,
            Comparison::Fixed => true,
            Comparison::SpuriousRegressed => true,
            Comparison::SpuriousFixed => true,
            _ => false,
        }
    }
}

/// The outcome of one run, with the place of its log.
#[derive(Debug, PartialEq, Eq)]
pub struct RunResult {
    pub result: TestResult,
    pub log: String,
}

pub struct RunResultView {
    pub result: TestResultView,
    pub log: Seq<char>,
}

impl View for RunResult {
    type V = RunResultView;

    open spec fn view(&self) -> RunResultView {
        RunResultView { result: self.result@, log: self.log@ }
    }
}

impl Clone for RunResult {
    fn clone(&self) -> (r: Self)
        ensures
            r@ == self@,
    {
        RunResult { result: self.result.clone(), log: self.log.clone() }
    }
}

/// What the report says of one package.
#[derive(Debug, PartialEq, Eq)]
pub struct CrateResult {
    pub name: String,
    pub url: String,
    pub krate: Crate,
    pub status: Option<String>,
    pub res: Comparison,
    /// The run with the first toolchain and the run with the second.
    pub runs: [Option<RunResult>; 2],
}

pub struct CrateResultView {
    pub name: Seq<char>,
    pub url: Seq<char>,
    pub krate: CrateView,
    pub status: Option<Seq<char>>,
    pub res: Comparison,
    pub runs: Seq<Option<RunResultView>>,
}

impl View for CrateResult {
    type V = CrateResultView;

    open spec fn view(&self) -> CrateResultView {
        CrateResultView {
            name: self.name@,
            url: self.url@,
            krate: self.krate@,
            status: opt_view(self.status),
            res: self.res,
            runs: Seq::new(2, |i: int| opt_view(self.runs@[i])),
        }
    }
}

/// The results of an experiment before they are sorted into the report.
#[derive(Debug)]
pub struct RawTestResults {
    pub crates: Vec<CrateResult>,
}

/// Where the results of an experiment are read from.
pub trait ReadResults {
    fn load_all_results(&self, ex: &crate::experiments::Experiment) -> crate::Fallible<
        RawTestResults,
    >;
}

/// A file of a report: where it goes, and what it holds.
#[derive(Debug, PartialEq, Eq)]
pub struct ReportFile {
    pub path: String,
    pub content: String,
}

pub struct ReportFileView {
    pub path: Seq<char>,
    pub content: Seq<char>,
}

impl View for ReportFile {
    type V = ReportFileView;

    open spec fn view(&self) -> ReportFileView {
        ReportFileView { path: self.path@, content: self.content@ }
    }
}

/// The files of the report on `summary`: the page, the Markdown text and
/// the summary as JSON.
pub open spec fn spec_report_files(summary: crate::report::analyzer::Summary) -> Seq<ReportFileView> {
    seq![
        ReportFileView {
            path: "index.html"@,
            content: crate::report::html::spec_html_report(summary),
        },
        ReportFileView {
            path: "report.md"@,
            content: crate::report::markdown::spec_markdown_report(summary),
        },
        ReportFileView { path: "summary.json"@, content: summary.json_pretty() },
    ]
}

/// The files of the report on the results of an experiment. Writing them
/// is left to whoever asks for them.
pub fn gen(
    ex: &crate::experiments::Experiment,
    results: &TestResults,
    config: &crate::config::Config,
) -> (r: crate::Fallible<Vec<ReportFile>>)
    ensures
        r is Ok,
        crate::model::views(r.unwrap()@) == spec_report_files(results.summary),
{
    let html = match crate::report::html::generate_html_report(results) {
        Ok(t) => t,
        Err(e) => {
            return Err(e);
        },
    };
    let markdown = match crate::report::markdown::generate_markdown_report(results) {
        Ok(t) => t,
        Err(e) => {
            return Err(e);
        },
    };
    let mut files: Vec<ReportFile> = Vec::new();
    files.push(ReportFile { path: "index.html".to_owned(), content: html });
    files.push(ReportFile { path: "report.md".to_owned(), content: markdown });
    files.push(
        ReportFile { path: "summary.json".to_owned(), content: results.summary.to_json_pretty() },
    );
    assert(crate::model::views(files@) =~= spec_report_files(results.summary));
    Ok(files)
}

} // verus!
