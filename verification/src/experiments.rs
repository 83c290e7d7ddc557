//! Experiments: one job each, two toolchains against a selection of
//! packages, with a life that runs from queued to completed.

use crate::model::{clone_opt_string, clone_strings, opt_view, views};
use crate::text::{
    concat2, from_chars, has_prefix, nat_digits, parse_u32, parse_uint, str_eq, strip_prefix,
    to_chars, u64_to_string,
};
use crate::time::Timestamp;
use crate::toolchain::{Toolchain, ToolchainView};
use crate::Error;
use vstd::prelude::*;

verus! {

/// A reference to an issue of an outside tracker. Nothing here reads it; it
/// is stored and handed back as it came.
#[derive(Debug, PartialEq, Eq)]
pub struct PlatformIssue {
    /// The tracker: `github`, `gitcode`, `gitlab` and the like.
    pub platform: String,
    pub api_url: String,
    pub html_url: String,
    /// The number or name of the issue in its tracker.
    pub identifier: String,
}

pub struct PlatformIssueView {
    pub platform: Seq<char>,
    pub api_url: Seq<char>,
    pub html_url: Seq<char>,
    pub identifier: Seq<char>,
}

impl View for PlatformIssue {
    type V = PlatformIssueView;

    open spec fn view(&self) -> PlatformIssueView {
        PlatformIssueView {
            platform: self.platform@,
            api_url: self.api_url@,
            html_url: self.html_url@,
            identifier: self.identifier@,
        }
    }
}

impl Clone for PlatformIssue {
    fn clone(&self) -> (r: Self)
        ensures
            r@ == self@,
    {
        PlatformIssue {
            platform: self.platform.clone(),
            api_url: self.api_url.clone(),
            html_url: self.html_url.clone(),
            identifier: self.identifier.clone(),
        }
    }
}

/// An owned copy of an optional issue reference.
pub fn clone_opt_issue(issue: &Option<PlatformIssue>) -> (r: Option<PlatformIssue>)
    ensures
        opt_view(r) == opt_view(*issue),
{
    match issue {
        Some(i) => Some(i.clone()),
        None => None,
    }
}

/// Where an experiment stands in its life.
#[derive(Debug, PartialEq, Eq, Hash, Clone, Copy, Structural)]
pub enum Status {
    /// Defined, not started.
    Queued,
    /// Started; results are coming in.
    Running,
    /// All results are in; the report is due.
    NeedsReport,
    /// The report is being written.
    GeneratingReport,
    /// Ended without a report, or aborted.
    ReportFailed,
    /// Ended, with its report.
    Completed,
}

impl Status {
    /// The name of the value.
    pub open spec fn spec_str(self) -> Seq<char> {
        match self {
            Status::Queued => "queued"@,
            Status::Running => "running"@,
            Status::NeedsReport => "needs-report"@,
            Status::GeneratingReport => "generating-report"@,
            Status::ReportFailed => "report-failed"@,
            Status::Completed => "completed"@,
        }
    }

    /// The value that a name stands for.
    pub open spec fn spec_parse(s: Seq<char>) -> Option<Status> {
        if s == "queued"@ {
            Some(Status::Queued)
        } else if s == "running"@ {
            Some(Status::Running)
        } else if s == "needs-report"@ {
            Some(Status::NeedsReport)
        } else if s == "generating-report"@ {
            Some(Status::GeneratingReport)
        } else if s == "report-failed"@ {
            Some(Status::ReportFailed)
        } else if s == "completed"@ {
            Some(Status::Completed)
        } else {
            None
        }
    }

    pub fn to_str(&self) -> (r: &'static str)
        ensures
            r@ == self.spec_str(),
    {
        match self {
            Status::Queued => "queued",
            Status::Running => "running",
            Status::NeedsReport => "needs-report",
            Status::GeneratingReport => "generating-report",
            Status::ReportFailed => "report-failed",
            Status::Completed => "completed",
        }
    }

    pub fn to_string(&self) -> (r: String)
        ensures
            r@ == self.spec_str(),
    {
        self.to_str().to_owned()
    }

    /// Parses a name; `BadRequest` where the string is none.
    pub fn from_str(s: &str) -> (r: Result<Status, Error>)
        ensures
            match Self::spec_parse(s@) {
                Some(v) => r == Ok::<Status, Error>(v),
                None => r == Err::<Status, Error>(Error::BadRequest),
            },
    {
        if str_eq(s, "queued") {
            Ok(Status::Queued)
        } else if str_eq(s, "running") {
            Ok(Status::Running)
        } else if str_eq(s, "needs-report") {
            Ok(Status::NeedsReport)
        } else if str_eq(s, "generating-report") {
            Ok(Status::GeneratingReport)
        } else if str_eq(s, "report-failed") {
            Ok(Status::ReportFailed)
        } else if str_eq(s, "completed") {
            Ok(Status::Completed)
        } else {
            Err(Error::BadRequest)
        }
    }

    /// Parsing the name of a value gives the value back.
    pub proof fn lemma_parse_str(v: Status)
        ensures
            Self::spec_parse(v.spec_str()) == Some(v),
    {
        reveal_strlit("queued");
        reveal_strlit("running");
        reveal_strlit("needs-report");
        reveal_strlit("generating-report");
        reveal_strlit("report-failed");
        reveal_strlit("completed");
        assert("queued"@.len() == 6);
        assert("running"@.len() == 7);
        assert("needs-report"@.len() == 12);
        assert("generating-report"@.len() == 17);
        assert("report-failed"@.len() == 13);
        assert("completed"@.len() == 9);
    }
}

impl std::str::FromStr for Status {
    type Err = Error;

    fn from_str(s: &str) -> (r: Result<Status, Error>)
        ensures
            match Status::spec_parse(s@) {
                Some(v) => r == Ok::<Status, Error>(v),
                None => r == Err::<Status, Error>(Error::BadRequest),
            },
    {
        Status::from_str(s)
    }
}

/// What is done with each package.
#[derive(Debug, PartialEq, Eq, Hash, Clone, Copy, Structural)]
pub enum Mode {
    BuildAndTest,
    BuildOnly,
    CheckOnly,
    Clippy,
    Rustdoc,
    UnstableFeatures,
    Fix,
}

impl Mode {
    /// The name of the value.
    pub open spec fn spec_str(self) -> Seq<char> {
        match self {
            Mode::BuildAndTest => "build-and-test"@,
            Mode::BuildOnly => "build-only"@,
            Mode::CheckOnly => "check-only"@,
            Mode::Clippy => "clippy"@,
            Mode::Rustdoc => "rustdoc"@,
            Mode::UnstableFeatures => "unstable-features"@,
            Mode::Fix => "fix"@,
        }
    }

    /// The value that a name stands for.
    pub open spec fn spec_parse(s: Seq<char>) -> Option<Mode> {
        if s == "build-and-test"@ {
            Some(Mode::BuildAndTest)
        } else if s == "build-only"@ {
            Some(Mode::BuildOnly)
        } else if s == "check-only"@ {
            Some(Mode::CheckOnly)
        } else if s == "clippy"@ {
            Some(Mode::Clippy)
        } else if s == "rustdoc"@ {
            Some(Mode::Rustdoc)
        } else if s == "unstable-features"@ {
            Some(Mode::UnstableFeatures)
        } else if s == "fix"@ {
            Some(Mode::Fix)
        } else {
            None
        }
    }

    pub fn to_str(&self) -> (r: &'static str)
        ensures
            r@ == self.spec_str(),
    {
        match self {
            Mode::BuildAndTest => "build-and-test",
            Mode::BuildOnly => "build-only",
            Mode::CheckOnly => "check-only",
            Mode::Clippy => "clippy",
            Mode::Rustdoc => "rustdoc",
            Mode::UnstableFeatures => "unstable-features",
            Mode::Fix => "fix",
        }
    }

    pub fn to_string(&self) -> (r: String)
        ensures
            r@ == self.spec_str(),
    {
        self.to_str().to_owned()
    }

    /// Parses a name; `BadRequest` where the string is none.
    pub fn from_str(s: &str) -> (r: Result<Mode, Error>)
        ensures
            match Self::spec_parse(s@) {
                Some(v) => r == Ok::<Mode, Error>(v),
                None => r == Err::<Mode, Error>(Error::BadRequest),
            },
    {
        if str_eq(s, "build-and-test") {
            Ok(Mode::BuildAndTest)
        } else if str_eq(s, "build-only") {
            Ok(Mode::BuildOnly)
        } else if str_eq(s, "check-only") {
            Ok(Mode::CheckOnly)
        } else if str_eq(s, "clippy") {
            Ok(Mode::Clippy)
        } else if str_eq(s, "rustdoc") {
            Ok(Mode::Rustdoc)
        } else if str_eq(s, "unstable-features") {
            Ok(Mode::UnstableFeatures)
        } else if str_eq(s, "fix") {
            Ok(Mode::Fix)
        } else {
            Err(Error::BadRequest)
        }
    }

    /// Parsing the name of a value gives the value back.
    pub proof fn lemma_parse_str(v: Mode)
        ensures
            Self::spec_parse(v.spec_str()) == Some(v),
    {
        reveal_strlit("build-and-test");
        reveal_strlit("build-only");
        reveal_strlit("check-only");
        reveal_strlit("clippy");
        reveal_strlit("rustdoc");
        reveal_strlit("unstable-features");
        reveal_strlit("fix");
        assert("build-and-test"@.len() == 14);
        assert("build-only"@.len() == 10);
        assert("check-only"@.len() == 10);
        assert("clippy"@.len() == 6);
        assert("rustdoc"@.len() == 7);
        assert("unstable-features"@.len() == 17);
        assert("fix"@.len() == 3);
        assert("build-only"@[0] != "check-only"@[0]);
    }
}

impl std::str::FromStr for Mode {
    type Err = Error;

    fn from_str(s: &str) -> (r: Result<Mode, Error>)
        ensures
            match Mode::spec_parse(s@) {
                Some(v) => r == Ok::<Mode, Error>(v),
                None => r == Err::<Mode, Error>(Error::BadRequest),
            },
    {
        Mode::from_str(s)
    }
}

/// The level at which lints are capped.
#[derive(Debug, PartialEq, Eq, Hash, Clone, Copy, Structural)]
pub enum CapLints {
    Allow,
    Warn,
    Deny,
    Forbid,
}

impl CapLints {
    /// The name of the value.
    pub open spec fn spec_str(self) -> Seq<char> {
        match self {
            CapLints::Allow => "allow"@,
            CapLints::Warn => "warn"@,
            CapLints::Deny => "deny"@,
            CapLints::Forbid => "forbid"@,
        }
    }

    /// The value that a name stands for.
    pub open spec fn spec_parse(s: Seq<char>) -> Option<CapLints> {
        if s == "allow"@ {
            Some(CapLints::Allow)
        } else if s == "warn"@ {
            Some(CapLints::Warn)
        } else if s == "deny"@ {
            Some(CapLints::Deny)
        } else if s == "forbid"@ {
            Some(CapLints::Forbid)
        } else {
            None
        }
    }

    pub fn to_str(&self) -> (r: &'static str)
        ensures
            r@ == self.spec_str(),
    {
        match self {
            CapLints::Allow => "allow",
            CapLints::Warn => "warn",
            CapLints::Deny => "deny",
            CapLints::Forbid => "forbid",
        }
    }

    pub fn to_string(&self) -> (r: String)
        ensures
            r@ == self.spec_str(),
    {
        self.to_str().to_owned()
    }

    /// Parses a name; `BadRequest` where the string is none.
    pub fn from_str(s: &str) -> (r: Result<CapLints, Error>)
        ensures
            match Self::spec_parse(s@) {
                Some(v) => r == Ok::<CapLints, Error>(v),
                None => r == Err::<CapLints, Error>(Error::BadRequest),
            },
    {
        if str_eq(s, "allow") {
            Ok(CapLints::Allow)
        } else if str_eq(s, "warn") {
            Ok(CapLints::Warn)
        } else if str_eq(s, "deny") {
            Ok(CapLints::Deny)
        } else if str_eq(s, "forbid") {
            Ok(CapLints::Forbid)
        } else {
            Err(Error::BadRequest)
        }
    }

    /// Parsing the name of a value gives the value back.
    pub proof fn lemma_parse_str(v: CapLints)
        ensures
            Self::spec_parse(v.spec_str()) == Some(v),
    {
        reveal_strlit("allow");
        reveal_strlit("warn");
        reveal_strlit("deny");
        reveal_strlit("forbid");
        assert("allow"@.len() == 5);
        assert("warn"@.len() == 4);
        assert("deny"@.len() == 4);
        assert("forbid"@.len() == 6);
        assert("warn"@[0] != "deny"@[0]);
    }
}

impl std::str::FromStr for CapLints {
    type Err = Error;

    fn from_str(s: &str) -> (r: Result<CapLints, Error>)
        ensures
            match CapLints::spec_parse(s@) {
                Some(v) => r == Ok::<CapLints, Error>(v),
                None => r == Err::<CapLints, Error>(Error::BadRequest),
            },
    {
        CapLints::from_str(s)
    }
}

/// Which packages an experiment tests.
#[derive(PartialEq, Eq, Debug)]
pub enum CrateSelect {
    /// Every known package.
    Full,
    /// The demonstration list.
    Demo,
    /// The given number of most used packages.
    Top(u32),
    /// The packages found locally.
    Local,
    /// The list for dry runs.
    Dummy,
    /// The given number of packages, drawn at random.
    Random(u32),
    /// The packages named here.
    List(Vec<String>),
}

pub enum CrateSelectView {
    Full,
    Demo,
    Top(u32),
    Local,
    Dummy,
    Random(u32),
    List(Seq<Seq<char>>),
}

impl View for CrateSelect {
    type V = CrateSelectView;

    open spec fn view(&self) -> CrateSelectView {
        match *self {
            CrateSelect::Full => CrateSelectView::Full,
            CrateSelect::Demo => CrateSelectView::Demo,
            CrateSelect::Top(n) => CrateSelectView::Top(n),
            CrateSelect::Local => CrateSelectView::Local,
            CrateSelect::Dummy => CrateSelectView::Dummy,
            CrateSelect::Random(n) => CrateSelectView::Random(n),
            CrateSelect::List(names) => CrateSelectView::List(views(names@)),
        }
    }
}

impl Clone for CrateSelect {
    fn clone(&self) -> (r: Self)
        ensures
            r@ == self@,
    {
        match self {
            CrateSelect::Full => CrateSelect::Full,
            CrateSelect::Demo => CrateSelect::Demo,
            CrateSelect::Top(n) => CrateSelect::Top(*n),
            CrateSelect::Local => CrateSelect::Local,
            CrateSelect::Dummy => CrateSelect::Dummy,
            CrateSelect::Random(n) => CrateSelect::Random(*n),
            CrateSelect::List(names) => CrateSelect::List(clone_strings(names)),
        }
    }
}

impl CrateSelectView {
    /// The string form. An explicit list is written `list`, without its
    /// names.
    pub open spec fn text(self) -> Seq<char> {
        match self {
            CrateSelectView::Full => "full"@,
            CrateSelectView::Demo => "demo"@,
            CrateSelectView::Top(n) => "top-"@ + nat_digits(n as nat),
            CrateSelectView::Local => "local"@,
            CrateSelectView::Dummy => "dummy"@,
            CrateSelectView::Random(n) => "random-"@ + nat_digits(n as nat),
            CrateSelectView::List(_) => "list"@,
        }
    }
}

/// What a selection parses to: one of the four plain names, or `top-` or
/// `random-` followed by a count that fits in 32 bits.
pub open spec fn spec_parse_select(s: Seq<char>) -> Option<CrateSelectView> {
    if s == "full"@ {
        Some(CrateSelectView::Full)
    } else if s == "demo"@ {
        Some(CrateSelectView::Demo)
    } else if s == "local"@ {
        Some(CrateSelectView::Local)
    } else if s == "dummy"@ {
        Some(CrateSelectView::Dummy)
    } else if has_prefix(s, "top-"@) {
        match parse_uint(s.skip(4), u32::MAX as nat) {
            Some(n) => Some(CrateSelectView::Top(n as u32)),
            None => None,
        }
    } else if has_prefix(s, "random-"@) {
        match parse_uint(s.skip(7), u32::MAX as nat) {
            Some(n) => Some(CrateSelectView::Random(n as u32)),
            None => None,
        }
    } else {
        None
    }
}

impl CrateSelect {
    /// The string form.
    pub fn to_string(&self) -> (r: String)
        ensures
            r@ == self@.text(),
    {
        match self {
            CrateSelect::Full => "full".to_owned(),
            CrateSelect::Demo => "demo".to_owned(),
            CrateSelect::Top(count) => {
                let n = u64_to_string(*count as u64);
                concat2("top-", n.as_str())
            },
            CrateSelect::Local => "local".to_owned(),
            CrateSelect::Dummy => "dummy".to_owned(),
            CrateSelect::Random(count) => {
                let n = u64_to_string(*count as u64);
                concat2("random-", n.as_str())
            },
            CrateSelect::List(_) => "list".to_owned(),
        }
    }

    /// Parses a selection; `BadRequest` where the string is none.
    pub fn from_str(input: &str) -> (r: Result<CrateSelect, Error>)
        ensures
            match spec_parse_select(input@) {
                Some(v) => r is Ok && r.unwrap()@ == v,
                None => r == Err::<CrateSelect, Error>(Error::BadRequest),
            },
    {
        proof {
            reveal_strlit("top-");
            reveal_strlit("random-");
        }
        if str_eq(input, "full") {
            Ok(CrateSelect::Full)
        } else if str_eq(input, "demo") {
            Ok(CrateSelect::Demo)
        } else if str_eq(input, "local") {
            Ok(CrateSelect::Local)
        } else if str_eq(input, "dummy") {
            Ok(CrateSelect::Dummy)
        } else {
            let cs = to_chars(input);
            if let Some(n) = strip_prefix(&cs, "top-") {
                assert(cs@.skip(4) =~= cs@.subrange(n as int, cs@.len() as int));
                match parse_u32(&cs, n, cs.len()) {
                    Some(count) => Ok(CrateSelect::Top(count)),
                    None => Err(Error::BadRequest),
                }
            } else if let Some(n) = strip_prefix(&cs, "random-") {
                assert(cs@.skip(7) =~= cs@.subrange(n as int, cs@.len() as int));
                match parse_u32(&cs, n, cs.len()) {
                    Some(count) => Ok(CrateSelect::Random(count)),
                    None => Err(Error::BadRequest),
                }
            } else {
                Err(Error::BadRequest)
            }
        }
    }
}

impl CrateSelectView {
    /// The form in which a selection is kept on disk: an explicit list as
    /// the JSON list of its names, every other selection as its string
    /// form.
    pub open spec fn stored(self) -> Seq<char> {
        match self {
            CrateSelectView::List(names) => crate::utils::json::list_text(names),
            _ => self.text(),
        }
    }
}

/// The selection that a text kept on disk stands for: a text that starts
/// with a square bracket is the JSON list of the names of an explicit
/// list, every other text is a string form.
pub open spec fn parse_stored_select(s: Seq<char>) -> Option<CrateSelectView> {
    if s.len() > 0 && s[0] == '[' {
        match crate::utils::json::parse_list_text(s) {
            Some(names) => Some(CrateSelectView::List(names)),
            None => None,
        }
    } else {
        spec_parse_select(s)
    }
}

impl CrateSelect {
    /// The form in which the selection is kept on disk.
    pub fn to_stored(&self) -> (r: String)
        ensures
            r@ == self@.stored(),
    {
        match self {
            CrateSelect::List(names) => crate::utils::json::to_json_list(names),
            _ => self.to_string(),
        }
    }

    /// The selection that a text kept on disk stands for; `BadRequest`
    /// where it stands for none.
    pub fn from_stored(text: &str) -> (r: Result<CrateSelect, Error>)
        ensures
            match parse_stored_select(text@) {
                Some(v) => r is Ok && r.unwrap()@ == v,
                None => r == Err::<CrateSelect, Error>(Error::BadRequest),
            },
    {
        let cs = to_chars(text);
        if cs.len() > 0 && cs[0] == '[' {
            match crate::utils::json::from_json_list(text) {
                Some(names) => Ok(CrateSelect::List(names)),
                None => Err(Error::BadRequest),
            }
        } else {
            CrateSelect::from_str(text)
        }
    }
}

impl std::str::FromStr for CrateSelect {
    type Err = Error;

    fn from_str(s: &str) -> (r: Result<CrateSelect, Error>)
        ensures
            match spec_parse_select(s@) {
                Some(v) => r is Ok && r.unwrap()@ == v,
                None => r == Err::<CrateSelect, Error>(Error::BadRequest),
            },
    {
        CrateSelect::from_str(s)
    }
}

/// Who runs an experiment.
#[derive(PartialEq, Eq, Debug)]
pub enum Assignee {
    /// The worker of that name.
    Agent(String),
    /// Any worker that asks for work.
    Distributed,
    /// The command line of this machine.
    CLI,
}

pub enum AssigneeView {
    Agent(Seq<char>),
    Distributed,
    CLI,
}

impl View for Assignee {
    type V = AssigneeView;

    open spec fn view(&self) -> AssigneeView {
        match *self {
            Assignee::Agent(name) => AssigneeView::Agent(name@),
            Assignee::Distributed => AssigneeView::Distributed,
            Assignee::CLI => AssigneeView::CLI,
        }
    }
}

impl Clone for Assignee {
    fn clone(&self) -> (r: Self)
        ensures
            r@ == self@,
    {
        match self {
            Assignee::Agent(name) => Assignee::Agent(name.clone()),
            Assignee::Distributed => Assignee::Distributed,
            Assignee::CLI => Assignee::CLI,
        }
    }
}

impl AssigneeView {
    /// The string form: the worker's name, or `distributed`, or `cli`.
    pub open spec fn text(self) -> Seq<char> {
        match self {
            AssigneeView::Agent(name) => name,
            AssigneeView::Distributed => "distributed"@,
            AssigneeView::CLI => "cli"@,
        }
    }

    /// What a string stands for: `distributed` and `cli` are themselves,
    /// anything else is the name of a worker.
    pub open spec fn parse(s: Seq<char>) -> AssigneeView {
        if s == "distributed"@ {
            AssigneeView::Distributed
        } else if s == "cli"@ {
            AssigneeView::CLI
        } else {
            AssigneeView::Agent(s)
        }
    }
}

impl Assignee {
    /// The string form.
    pub fn to_string(&self) -> (r: String)
        ensures
            r@ == self@.text(),
    {
        match self {
            Assignee::Agent(name) => name.clone(),
            Assignee::Distributed => "distributed".to_owned(),
            Assignee::CLI => "cli".to_owned(),
        }
    }

    /// Parses an assignee. Every string is one.
    pub fn from_str(input: &str) -> (r: Result<Assignee, Error>)
        ensures
            r is Ok,
            r.unwrap()@ == AssigneeView::parse(input@),
    {
        if str_eq(input, "distributed") {
            Ok(Assignee::Distributed)
        } else if str_eq(input, "cli") {
            Ok(Assignee::CLI)
        } else {
            Ok(Assignee::Agent(input.to_owned()))
        }
    }
}

impl std::str::FromStr for Assignee {
    type Err = Error;

    fn from_str(s: &str) -> (r: Result<Assignee, Error>)
        ensures
            r is Ok,
            r.unwrap()@ == AssigneeView::parse(s@),
    {
        Assignee::from_str(s)
    }
}

/// An owned copy of an optional assignee.
pub fn clone_opt_assignee(a: &Option<Assignee>) -> (r: Option<Assignee>)
    ensures
        opt_view(r) == opt_view(*a),
{
    match a {
        Some(x) => Some(x.clone()),
        None => None,
    }
}

/// One job: two toolchains against a selection of packages.
#[derive(Debug, PartialEq, Eq)]
pub struct Experiment {
    pub name: String,
    /// The two toolchains that are compared: the start and the end.
    pub toolchains: [Toolchain; 2],
    pub mode: Mode,
    pub cap_lints: CapLints,
    /// Higher is more urgent.
    pub priority: i32,
    pub created_at: Timestamp,
    pub started_at: Option<Timestamp>,
    pub completed_at: Option<Timestamp>,
    pub platform_issue: Option<PlatformIssue>,
    pub status: Status,
    pub assigned_to: Option<Assignee>,
    pub report_url: Option<String>,
    pub ignore_blacklist: bool,
    pub requirement: Option<String>,
}

pub struct ExperimentView {
    pub name: Seq<char>,
    pub toolchains: Seq<ToolchainView>,
    pub mode: Mode,
    pub cap_lints: CapLints,
    pub priority: i32,
    pub created_at: Timestamp,
    pub started_at: Option<Timestamp>,
    pub completed_at: Option<Timestamp>,
    pub platform_issue: Option<PlatformIssueView>,
    pub status: Status,
    pub assigned_to: Option<AssigneeView>,
    pub report_url: Option<Seq<char>>,
    pub ignore_blacklist: bool,
    pub requirement: Option<Seq<char>>,
}

impl View for Experiment {
    type V = ExperimentView;

    open spec fn view(&self) -> ExperimentView {
        ExperimentView {
            name: self.name@,
            toolchains: views(self.toolchains@),
            mode: self.mode,
            cap_lints: self.cap_lints,
            priority: self.priority,
            created_at: self.created_at,
            started_at: self.started_at,
            completed_at: self.completed_at,
            platform_issue: opt_view(self.platform_issue),
            status: self.status,
            assigned_to: opt_view(self.assigned_to),
            report_url: opt_view(self.report_url),
            ignore_blacklist: self.ignore_blacklist,
            requirement: opt_view(self.requirement),
        }
    }
}

impl Clone for Experiment {
    fn clone(&self) -> (r: Self)
        ensures
            r@ == self@,
    {
        let toolchains = [self.toolchains[0].clone(), self.toolchains[1].clone()];
        assert(views(toolchains@) =~= views(self.toolchains@));
        Experiment {
            name: self.name.clone(),
            toolchains,
            mode: self.mode,
            cap_lints: self.cap_lints,
            priority: self.priority,
            created_at: self.created_at,
            started_at: self.started_at,
            completed_at: self.completed_at,
            platform_issue: clone_opt_issue(&self.platform_issue),
            status: self.status,
            assigned_to: clone_opt_assignee(&self.assigned_to),
            report_url: clone_opt_string(&self.report_url),
            ignore_blacklist: self.ignore_blacklist,
            requirement: clone_opt_string(&self.requirement),
        }
    }
}

impl ExperimentView {
    /// What holds of every experiment in every state of its life: it has a
    /// name and two toolchains; it has a start time exactly when it has left
    /// the queue, and an end time exactly when it has ended; and its times
    /// follow each other.
    pub open spec fn lifecycle_ok(self) -> bool {
        &&& self.name.len() > 0
        &&& self.toolchains.len() == 2
        &&& (self.started_at is Some <==> self.status != Status::Queued)
        &&& (self.completed_at is Some <==> (self.status == Status::Completed || self.status
            == Status::ReportFailed))
        &&& (self.started_at is Some ==> self.started_at.unwrap().total_nanos()
            >= self.created_at.total_nanos())
        &&& (self.completed_at is Some && self.started_at is Some
            ==> self.completed_at.unwrap().total_nanos() >= self.started_at.unwrap().total_nanos())
    }

    /// The whole seconds it ran, where it has both started and ended.
    pub open spec fn duration(self) -> Option<int> {
        match (self.started_at, self.completed_at) {
            (Some(started), Some(completed)) => Some(completed.spec_seconds_since(started)),
            _ => None,
        }
    }
}

/// A queued experiment has neither started nor ended.
pub proof fn lemma_queued_has_no_times(e: ExperimentView)
    requires
        e.lifecycle_ok(),
        e.status == Status::Queued,
    ensures
        e.started_at is None,
        e.completed_at is None,
{
}

/// A completed experiment has both started and ended.
pub proof fn lemma_completed_has_times(e: ExperimentView)
    requires
        e.lifecycle_ok(),
        e.status == Status::Completed,
    ensures
        e.started_at is Some,
        e.completed_at is Some,
{
}

impl Experiment {
    /// The whole seconds the experiment ran, where it has both started and
    /// ended.
    pub fn duration(&self) -> (r: Option<i64>)
        ensures
            match self@.duration() {
                Some(d) => r == Some(d as i64),
                None => r is None,
            },
    {
        match (self.started_at, self.completed_at) {
            (Some(started), Some(completed)) => Some(completed.seconds_since(&started)),
            _ => None,
        }
    }
}

/// An experiment as a row of text, the form in which it is kept on disk.
/// All times are RFC 3339 texts.
#[derive(Debug, PartialEq, Eq)]
pub struct ExperimentDBRecord {
    pub name: String,
    pub mode: String,
    pub cap_lints: String,
    pub toolchain_start: Option<String>,
    pub toolchain_end: Option<String>,
    pub priority: i32,
    pub created_at: String,
    pub started_at: Option<String>,
    pub completed_at: Option<String>,
    pub platform_issue: Option<String>,
    pub platform_issue_url: Option<String>,
    pub platform_issue_identifier: Option<String>,
    pub status: String,
    pub assigned_to: Option<String>,
    pub report_url: Option<String>,
    pub ignore_blacklist: bool,
    pub requirement: Option<String>,
}

pub struct ExperimentDBRecordView {
    pub name: Seq<char>,
    pub mode: Seq<char>,
    pub cap_lints: Seq<char>,
    pub toolchain_start: Option<Seq<char>>,
    pub toolchain_end: Option<Seq<char>>,
    pub priority: i32,
    pub created_at: Seq<char>,
    pub started_at: Option<Seq<char>>,
    pub completed_at: Option<Seq<char>>,
    pub platform_issue: Option<Seq<char>>,
    pub platform_issue_url: Option<Seq<char>>,
    pub platform_issue_identifier: Option<Seq<char>>,
    pub status: Seq<char>,
    pub assigned_to: Option<Seq<char>>,
    pub report_url: Option<Seq<char>>,
    pub ignore_blacklist: bool,
    pub requirement: Option<Seq<char>>,
}

impl View for ExperimentDBRecord {
    type V = ExperimentDBRecordView;

    open spec fn view(&self) -> ExperimentDBRecordView {
        ExperimentDBRecordView {
            name: self.name@,
            mode: self.mode@,
            cap_lints: self.cap_lints@,
            toolchain_start: opt_view(self.toolchain_start),
            toolchain_end: opt_view(self.toolchain_end),
            priority: self.priority,
            created_at: self.created_at@,
            started_at: opt_view(self.started_at),
            completed_at: opt_view(self.completed_at),
            platform_issue: opt_view(self.platform_issue),
            platform_issue_url: opt_view(self.platform_issue_url),
            platform_issue_identifier: opt_view(self.platform_issue_identifier),
            status: self.status@,
            assigned_to: opt_view(self.assigned_to),
            report_url: opt_view(self.report_url),
            ignore_blacklist: self.ignore_blacklist,
            requirement: opt_view(self.requirement),
        }
    }
}

/// What an optional time parses to: no text is no time; a text must parse.
pub open spec fn parse_opt_time(s: Option<Seq<char>>) -> Option<Option<Timestamp>> {
    match s {
        None => Some(None),
        Some(text) => match Timestamp::spec_parse(text) {
            Some(t) => Some(Some(t)),
            None => None,
        },
    }
}

/// The two toolchains of a row: where both are given, both must parse;
/// where one is missing, they are the released compilers `stable` and
/// `beta`.
pub open spec fn parse_toolchains(start: Option<Seq<char>>, end: Option<Seq<char>>) -> Option<
    Seq<ToolchainView>,
> {
    match (start, end) {
        (Some(a), Some(b)) => match (
            crate::toolchain::spec_parse(a),
            crate::toolchain::spec_parse(b),
        ) {
            (Some(x), Some(y)) => Some(seq![ToolchainView::plain(x), ToolchainView::plain(y)]),
            _ => None,
        },
        _ => Some(
            seq![
                ToolchainView::plain(crate::toolchain::RustwideToolchainView::Dist("stable"@)),
                ToolchainView::plain(crate::toolchain::RustwideToolchainView::Dist("beta"@)),
            ],
        ),
    }
}

/// The issue of a row: there is one where the tracker, the address and the
/// identifier are all given; the one address stands for both addresses of
/// the issue.
pub open spec fn parse_issue(
    platform: Option<Seq<char>>,
    url: Option<Seq<char>>,
    identifier: Option<Seq<char>>,
) -> Option<PlatformIssueView> {
    match (platform, url, identifier) {
        (Some(p), Some(u), Some(i)) => Some(
            PlatformIssueView { platform: p, api_url: u, html_url: u, identifier: i },
        ),
        _ => None,
    }
}

impl ExperimentDBRecordView {
    /// The experiment that a row stands for, where every part of the row
    /// parses.
    pub open spec fn parse(self) -> Option<ExperimentView> {
        match (
            Mode::spec_parse(self.mode),
            CapLints::spec_parse(self.cap_lints),
            Status::spec_parse(self.status),
            Timestamp::spec_parse(self.created_at),
            parse_opt_time(self.started_at),
            parse_opt_time(self.completed_at),
            parse_toolchains(self.toolchain_start, self.toolchain_end),
        ) {
            (
                Some(mode),
                Some(cap_lints),
                Some(status),
                Some(created_at),
                Some(started_at),
                Some(completed_at),
                Some(toolchains),
            ) => Some(
                ExperimentView {
                    name: self.name,
                    toolchains,
                    mode,
                    cap_lints,
                    priority: self.priority,
                    created_at,
                    started_at,
                    completed_at,
                    platform_issue: parse_issue(
                        self.platform_issue,
                        self.platform_issue_url,
                        self.platform_issue_identifier,
                    ),
                    status,
                    assigned_to: match self.assigned_to {
                        Some(a) => Some(AssigneeView::parse(a)),
                        None => None,
                    },
                    report_url: self.report_url,
                    ignore_blacklist: self.ignore_blacklist,
                    requirement: self.requirement,
                },
            ),
            _ => None,
        }
    }
}

pub(crate) fn parse_time_field(s: &Option<String>) -> (r: Result<Option<Timestamp>, Error>)
    ensures
        match parse_opt_time(opt_view(*s)) {
            Some(t) => r == Ok::<Option<Timestamp>, Error>(t),
            None => r is Err,
        },
{
    match s {
        None => Ok(None),
        Some(text) => match Timestamp::parse_from_rfc3339(text.as_str()) {
            Ok(t) => Ok(Some(t)),
            Err(e) => Err(e),
        },
    }
}

pub(crate) fn parse_toolchain_fields(start: &Option<String>, end: &Option<String>) -> (r: Result<
    [Toolchain; 2],
    Error,
>)
    ensures
        match parse_toolchains(opt_view(*start), opt_view(*end)) {
            Some(t) => r is Ok && views(r.unwrap()@) == t,
            None => r is Err,
        },
{
    match (start, end) {
        (Some(a), Some(b)) => {
            let x = match Toolchain::from_str(a.as_str()) {
                Ok(x) => x,
                Err(e) => {
                    return Err(e);
                },
            };
            let y = match Toolchain::from_str(b.as_str()) {
                Ok(y) => y,
                Err(e) => {
                    return Err(e);
                },
            };
            let r = [x, y];
            assert(views(r@) =~= seq![x@, y@]);
            Ok(r)
        },
        _ => {
            let x = Toolchain::plain(crate::toolchain::RustwideToolchain::Dist("stable".to_owned()));
            let y = Toolchain::plain(crate::toolchain::RustwideToolchain::Dist("beta".to_owned()));
            let r = [x, y];
            assert(views(r@) =~= seq![x@, y@]);
            Ok(r)
        },
    }
}

pub(crate) fn parse_issue_fields(
    platform: &Option<String>,
    url: &Option<String>,
    identifier: &Option<String>,
) -> (r: Option<PlatformIssue>)
    ensures
        opt_view(r) == parse_issue(opt_view(*platform), opt_view(*url), opt_view(*identifier)),
{
    match (platform, url, identifier) {
        (Some(p), Some(u), Some(i)) => Some(
            PlatformIssue {
                platform: p.clone(),
                api_url: u.clone(),
                html_url: u.clone(),
                identifier: i.clone(),
            },
        ),
        _ => None,
    }
}

/// The text of an optional time: no time is no text; a time must have a
/// text.
pub open spec fn opt_time_text(t: Option<Timestamp>) -> Option<Option<Seq<char>>> {
    match t {
        None => Some(None),
        Some(t) => match crate::time::rfc3339_text(t.spec_secs(), t.spec_nanos()) {
            Some(text) => Some(Some(text)),
            None => None,
        },
    }
}

impl ExperimentView {
    /// The row that stands for the experiment, where each of its times has
    /// a text. Of the issue, the tracker, the address shown to people and
    /// the identifier are kept.
    pub open spec fn record(self) -> Option<ExperimentDBRecordView> {
        match (
            crate::time::rfc3339_text(self.created_at.spec_secs(), self.created_at.spec_nanos()),
            opt_time_text(self.started_at),
            opt_time_text(self.completed_at),
        ) {
            (Some(created_at), Some(started_at), Some(completed_at)) => Some(
                ExperimentDBRecordView {
                    name: self.name,
                    mode: self.mode.spec_str(),
                    cap_lints: self.cap_lints.spec_str(),
                    toolchain_start: Some(self.toolchains[0].text()),
                    toolchain_end: Some(self.toolchains[1].text()),
                    priority: self.priority,
                    created_at,
                    started_at,
                    completed_at,
                    platform_issue: match self.platform_issue {
                        Some(i) => Some(i.platform),
                        None => None,
                    },
                    platform_issue_url: match self.platform_issue {
                        Some(i) => Some(i.html_url),
                        None => None,
                    },
                    platform_issue_identifier: match self.platform_issue {
                        Some(i) => Some(i.identifier),
                        None => None,
                    },
                    status: self.status.spec_str(),
                    assigned_to: match self.assigned_to {
                        Some(a) => Some(a.text()),
                        None => None,
                    },
                    report_url: self.report_url,
                    ignore_blacklist: self.ignore_blacklist,
                    requirement: self.requirement,
                },
            ),
            _ => None,
        }
    }
}

pub(crate) fn time_field(t: &Option<Timestamp>) -> (r: Result<Option<String>, Error>)
    ensures
        match opt_time_text(*t) {
            Some(text) => r is Ok && opt_view(r.unwrap()) == text,
            None => r is Err,
        },
{
    match t {
        None => Ok(None),
        Some(t) => match t.to_rfc3339() {
            Some(text) => Ok(Some(text)),
            None => Err(Error::Internal),
        },
    }
}

impl Experiment {
    /// The row that stands for the experiment; `Internal` where one of its
    /// times has no text.
    pub fn to_record(&self) -> (r: Result<ExperimentDBRecord, Error>)
        ensures
            match self@.record() {
                Some(rec) => r is Ok && r.unwrap()@ == rec,
                None => r == Err::<ExperimentDBRecord, Error>(Error::Internal),
            },
    {
        let created_at = match self.created_at.to_rfc3339() {
            Some(t) => t,
            None => {
                return Err(Error::Internal);
            },
        };
        let started_at = match time_field(&self.started_at) {
            Ok(t) => t,
            Err(_) => {
                return Err(Error::Internal);
            },
        };
        let completed_at = match time_field(&self.completed_at) {
            Ok(t) => t,
            Err(_) => {
                return Err(Error::Internal);
            },
        };
        let (platform_issue, platform_issue_url, platform_issue_identifier) =
            match &self.platform_issue {
            Some(i) => (Some(i.platform.clone()), Some(i.html_url.clone()), Some(i.identifier.clone())),
            None => (None, None, None),
        };
        Ok(
            ExperimentDBRecord {
                name: self.name.clone(),
                mode: self.mode.to_string(),
                cap_lints: self.cap_lints.to_string(),
                toolchain_start: Some(self.toolchains[0].to_string()),
                toolchain_end: Some(self.toolchains[1].to_string()),
                priority: self.priority,
                created_at,
                started_at,
                completed_at,
                platform_issue,
                platform_issue_url,
                platform_issue_identifier,
                status: self.status.to_string(),
                assigned_to: match &self.assigned_to {
                    Some(a) => Some(a.to_string()),
                    None => None,
                },
                report_url: clone_opt_string(&self.report_url),
                ignore_blacklist: self.ignore_blacklist,
                requirement: clone_opt_string(&self.requirement),
            },
        )
    }

    /// Whether the experiment is one that can stand in a store: what holds
    /// of every experiment in every state of its life holds of it.
    pub fn is_consistent(&self) -> (r: bool)
        ensures
            r == self@.lifecycle_ok(),
    {
        let started_ok = match self.started_at {
            Some(s) => self.status != Status::Queued && !s.is_before(&self.created_at),
            None => self.status == Status::Queued,
        };
        let ended = self.status == Status::Completed || self.status == Status::ReportFailed;
        let completed_ok = match self.completed_at {
            Some(c) => ended && match self.started_at {
                Some(s) => !c.is_before(&s),
                None => true,
            },
            None => !ended,
        };
        assert(views(self.toolchains@).len() == 2);
        self.name.as_str().unicode_len() > 0 && started_ok && completed_ok
    }
}

} // verus!
