//! What testing one package with one toolchain came to, and the log of it.

pub mod db;
pub mod json;

use crate::model::views;
use crate::text::str_eq;
use crate::Error;
use vstd::prelude::*;
use vstd::slice::slice_to_vec;

pub use crate::results::db::{DatabaseDB, ProgressData};

verus! {

/// The code of a compiler diagnostic, such as `E0308`.
#[derive(Debug, PartialEq, Eq, Hash)]
pub struct DiagnosticCode(pub String);

impl View for DiagnosticCode {
    type V = Seq<char>;

    open spec fn view(&self) -> Seq<char> {
        self.0@
    }
}

impl Clone for DiagnosticCode {
    fn clone(&self) -> (r: Self)
        ensures
            r@ == self@,
    {
        DiagnosticCode(self.0.clone())
    }
}

impl DiagnosticCode {
    pub fn new(code: &str) -> (r: Self)
        ensures
            r@ == code@,
    {
        DiagnosticCode(code.to_owned())
    }
}

/// Why a package cannot be tested at all.
#[derive(Debug, PartialEq, Eq, Hash, Clone, Copy, Structural)]
pub enum BrokenReason {
    Unknown,
    /// Its manifest does not parse.
    CargoToml,
    /// It was withdrawn from the registry.
    Yanked,
    MissingDependencies,
    MissingGitRepository,
}

impl BrokenReason {
    /// The name of the value.
    pub open spec fn spec_str(self) -> Seq<char> {
        match self {
            BrokenReason::Unknown => "unknown"@,
            BrokenReason::CargoToml => "cargo-toml"@,
            BrokenReason::Yanked => "yanked"@,
            BrokenReason::MissingDependencies => "missing-dependencies"@,
            BrokenReason::MissingGitRepository => "missing-git-repository"@,
        }
    }

    /// The value that a name stands for.
    pub open spec fn spec_parse(s: Seq<char>) -> Option<BrokenReason> {
        if s == "unknown"@ {
            Some(BrokenReason::Unknown)
        } else if s == "cargo-toml"@ {
            Some(BrokenReason::CargoToml)
        } else if s == "yanked"@ {
            Some(BrokenReason::Yanked)
        } else if s == "missing-dependencies"@ {
            Some(BrokenReason::MissingDependencies)
        } else if s == "missing-git-repository"@ {
            Some(BrokenReason::MissingGitRepository)
        } else {
            None
        }
    }

    pub fn to_str(&self) -> (r: &'static str)
        ensures
            r@ == self.spec_str(),
    {
        match self {
            BrokenReason::Unknown => "unknown",
            BrokenReason::CargoToml => "cargo-toml",
            BrokenReason::Yanked => "yanked",
            BrokenReason::MissingDependencies => "missing-dependencies",
            BrokenReason::MissingGitRepository => "missing-git-repository",
        }
    }

    pub fn to_string(&self) -> (r: String)
        ensures
            r@ == self.spec_str(),
    {
        self.to_str().to_owned()
    }

    /// Parses a name; `BadRequest` where the string is none.
    pub fn from_str(s: &str) -> (r: Result<BrokenReason, Error>)
        ensures
            match Self::spec_parse(s@) {
                Some(v) => r == Ok::<BrokenReason, Error>(v),
                None => r == Err::<BrokenReason, Error>(Error::BadRequest),
            },
    {
        if str_eq(s, "unknown") {
            Ok(BrokenReason::Unknown)
        } else if str_eq(s, "cargo-toml") {
            Ok(BrokenReason::CargoToml)
        } else if str_eq(s, "yanked") {
            Ok(BrokenReason::Yanked)
        } else if str_eq(s, "missing-dependencies") {
            Ok(BrokenReason::MissingDependencies)
        } else if str_eq(s, "missing-git-repository") {
            Ok(BrokenReason::MissingGitRepository)
        } else {
            Err(Error::BadRequest)
        }
    }

    /// Parsing the name of a value gives the value back.
    pub proof fn lemma_parse_str(v: BrokenReason)
        ensures
            Self::spec_parse(v.spec_str()) == Some(v),
    {
        reveal_strlit("unknown");
        reveal_strlit("cargo-toml");
        reveal_strlit("yanked");
        reveal_strlit("missing-dependencies");
        reveal_strlit("missing-git-repository");
        assert("unknown"@.len() == 7);
        assert("cargo-toml"@.len() == 10);
        assert("yanked"@.len() == 6);
        assert("missing-dependencies"@.len() == 20);
        assert("missing-git-repository"@.len() == 22);
    }
}

impl std::str::FromStr for BrokenReason {
    type Err = Error;

    fn from_str(s: &str) -> (r: Result<BrokenReason, Error>)
        ensures
            match BrokenReason::spec_parse(s@) {
                Some(v) => r == Ok::<BrokenReason, Error>(v),
                None => r == Err::<BrokenReason, Error>(Error::BadRequest),
            },
    {
        BrokenReason::from_str(s)
    }
}


/// Why a step failed.
#[derive(Debug, PartialEq, Eq, Hash)]
pub enum FailureReason {
    Unknown,
    /// Out of memory.
    OOM,
    NoSpace,
    Timeout,
    /// The compiler itself crashed.
    ICE,
    NetworkAccess,
    /// The sandbox failed.
    Docker,
    CompilerDiagnosticChange,
    /// The compiler reported these diagnostics.
    CompilerError(Vec<DiagnosticCode>),
    /// The packages with these identifiers, on which this one depends,
    /// failed.
    DependsOn(Vec<String>),
}

pub enum FailureReasonView {
    Unknown,
    OOM,
    NoSpace,
    Timeout,
    ICE,
    NetworkAccess,
    Docker,
    CompilerDiagnosticChange,
    CompilerError(Seq<Seq<char>>),
    DependsOn(Seq<Seq<char>>),
}

impl View for FailureReason {
    type V = FailureReasonView;

    open spec fn view(&self) -> FailureReasonView {
        match *self {
            FailureReason::Unknown => FailureReasonView::Unknown,
            FailureReason::OOM => FailureReasonView::OOM,
            FailureReason::NoSpace => FailureReasonView::NoSpace,
            FailureReason::Timeout => FailureReasonView::Timeout,
            FailureReason::ICE => FailureReasonView::ICE,
            FailureReason::NetworkAccess => FailureReasonView::NetworkAccess,
            FailureReason::Docker => FailureReasonView::Docker,
            FailureReason::CompilerDiagnosticChange => FailureReasonView::CompilerDiagnosticChange,
            FailureReason::CompilerError(codes) => FailureReasonView::CompilerError(views(codes@)),
            FailureReason::DependsOn(crates) => FailureReasonView::DependsOn(views(crates@)),
        }
    }
}

impl Clone for FailureReason {
    fn clone(&self) -> (r: Self)
        ensures
            r@ == self@,
    {
        match self {
            FailureReason::Unknown => FailureReason::Unknown,
            FailureReason::OOM => FailureReason::OOM,
            FailureReason::NoSpace => FailureReason::NoSpace,
            FailureReason::Timeout => FailureReason::Timeout,
            FailureReason::ICE => FailureReason::ICE,
            FailureReason::NetworkAccess => FailureReason::NetworkAccess,
            FailureReason::Docker => FailureReason::Docker,
            FailureReason::CompilerDiagnosticChange => FailureReason::CompilerDiagnosticChange,
            FailureReason::CompilerError(codes) => {
                let copy = codes.clone();
                assert(views(copy@) =~= views(codes@)) by {
                    assert forall|i: int| 0 <= i < copy@.len() implies copy@[i]@ == codes@[i]@ by {
                        assert(cloned::<DiagnosticCode>(codes@[i], copy@[i]));
                    }
                }
                FailureReason::CompilerError(copy)
            },
            FailureReason::DependsOn(crates) => FailureReason::DependsOn(
                crate::model::clone_strings(crates),
            ),
        }
    }
}

/// What testing one package with one toolchain came to.
#[derive(Debug, PartialEq, Eq, Hash)]
pub enum TestResult {
    BrokenCrate(BrokenReason),
    PrepareFail(FailureReason),
    BuildFail(FailureReason),
    TestFail(FailureReason),
    TestSkipped,
    TestPass,
    Skipped,
    Error,
}

pub enum TestResultView {
    BrokenCrate(BrokenReason),
    PrepareFail(FailureReasonView),
    BuildFail(FailureReasonView),
    TestFail(FailureReasonView),
    TestSkipped,
    TestPass,
    Skipped,
    Error,
}

impl View for TestResult {
    type V = TestResultView;

    open spec fn view(&self) -> TestResultView {
        match *self {
            TestResult::BrokenCrate(r) => TestResultView::BrokenCrate(r),
            TestResult::PrepareFail(r) => TestResultView::PrepareFail(r@),
            TestResult::BuildFail(r) => TestResultView::BuildFail(r@),
            TestResult::TestFail(r) => TestResultView::TestFail(r@),
            TestResult::TestSkipped => TestResultView::TestSkipped,
            TestResult::TestPass => TestResultView::TestPass,
            TestResult::Skipped => TestResultView::Skipped,
            TestResult::Error => TestResultView::Error,
        }
    }
}

impl Clone for TestResult {
    fn clone(&self) -> (r: Self)
        ensures
            r@ == self@,
    {
        match self {
            TestResult::BrokenCrate(r) => TestResult::BrokenCrate(*r),
            TestResult::PrepareFail(r) => TestResult::PrepareFail(r.clone()),
            TestResult::BuildFail(r) => TestResult::BuildFail(r.clone()),
            TestResult::TestFail(r) => TestResult::TestFail(r.clone()),
            TestResult::TestSkipped => TestResult::TestSkipped,
            TestResult::TestPass => TestResult::TestPass,
            TestResult::Skipped => TestResult::Skipped,
            TestResult::Error => TestResult::Error,
        }
    }
}

impl TestResultView {
    /// The build or the tests failed.
    pub open spec fn is_failure(self) -> bool {
        self is BuildFail || self is TestFail
    }

    /// The tests passed.
    pub open spec fn is_success(self) -> bool {
        self is TestPass
    }
}

impl TestResult {
    pub fn is_failure(&self) -> (r: bool)
        ensures
            r == self@.is_failure(),
    {
        match self {
            TestResult::BuildFail(_) => true,
            TestResult::TestFail(_) => true,
            _ => false,
        }
    }

    pub fn is_success(&self) -> (r: bool)
        ensures
            r == self@.is_success(),
    {
        match self {
            TestResult::TestPass => true,
            _ => false,
        }
    }
}

/// How the bytes of a log are encoded.
#[derive(Debug, Clone, Copy, PartialEq, Eq, Structural)]
pub enum EncodingType {
    Plain,
    Gzip,
}

impl EncodingType {
    /// The tag of the encoding.
    pub open spec fn spec_str(self) -> Seq<char> {
        match self {
            EncodingType::Plain => "plain"@,
            EncodingType::Gzip => "gzip"@,
        }
    }

    pub fn to_str(&self) -> (r: &'static str)
        ensures
            r@ == self.spec_str(),
    {
        match self {
            EncodingType::Plain => "plain",
            EncodingType::Gzip => "gzip",
        }
    }
}

/// A log as it is stored: its bytes, and how they are encoded.
#[derive(Debug, PartialEq, Eq)]
pub enum EncodedLog {
    Plain(Vec<u8>),
    Gzip(Vec<u8>),
}

pub enum EncodedLogView {
    Plain(Seq<u8>),
    Gzip(Seq<u8>),
}

impl View for EncodedLog {
    type V = EncodedLogView;

    open spec fn view(&self) -> EncodedLogView {
        match *self {
            EncodedLog::Plain(data) => EncodedLogView::Plain(data@),
            EncodedLog::Gzip(data) => EncodedLogView::Gzip(data@),
        }
    }
}

impl Clone for EncodedLog {
    fn clone(&self) -> (r: Self)
        ensures
            r@ == self@,
    {
        match self {
            EncodedLog::Plain(data) => EncodedLog::Plain(slice_to_vec(data.as_slice())),
            EncodedLog::Gzip(data) => EncodedLog::Gzip(slice_to_vec(data.as_slice())),
        }
    }
}

impl EncodedLogView {
    /// The stored bytes.
    pub open spec fn bytes(self) -> Seq<u8> {
        match self {
            EncodedLogView::Plain(data) => data,
            EncodedLogView::Gzip(data) => data,
        }
    }

    /// The encoding of the stored bytes.
    pub open spec fn encoding_type(self) -> EncodingType {
        match self {
            EncodedLogView::Plain(_) => EncodingType::Plain,
            EncodedLogView::Gzip(_) => EncodingType::Gzip,
        }
    }

    /// The text of the log, where the bytes decode: plain bytes read as
    /// UTF-8, what is no UTF-8 replaced; compressed bytes inflated first.
    pub open spec fn text(self) -> Option<Seq<char>> {
        match self {
            EncodedLogView::Plain(data) => Some(utf8_lossy_text(data)),
            EncodedLogView::Gzip(data) => match gzip_inflated(data) {
                Some(bytes) => Some(utf8_lossy_text(bytes)),
                None => None,
            },
        }
    }
}

impl EncodedLog {
    pub fn to_bytes(&self) -> (r: &[u8])
        ensures
            r@ == self@.bytes(),
    {
        match self {
            EncodedLog::Plain(data) => data.as_slice(),
            EncodedLog::Gzip(data) => data.as_slice(),
        }
    }

    pub fn encoding_type(&self) -> (r: EncodingType)
        ensures
            r == self@.encoding_type(),
    {
        match self {
            EncodedLog::Plain(_) => EncodingType::Plain,
            EncodedLog::Gzip(_) => EncodingType::Gzip,
        }
    }

    pub fn from_plain_slice(data: &[u8]) -> (r: Self)
        ensures
            r@ == EncodedLogView::Plain(data@),
    {
        EncodedLog::Plain(slice_to_vec(data))
    }

    pub fn from_plain(data: Vec<u8>) -> (r: Self)
        ensures
            r@ == EncodedLogView::Plain(data@),
    {
        EncodedLog::Plain(data)
    }

    pub fn from_gzip(data: Vec<u8>) -> (r: Self)
        ensures
            r@ == EncodedLogView::Gzip(data@),
    {
        EncodedLog::Gzip(data)
    }

    /// The text of the log; `Internal` where compressed bytes do not
    /// inflate.
    pub fn decode(&self) -> (r: Result<String, Error>)
        ensures
            match self@.text() {
                Some(t) => r is Ok && r.unwrap()@ == t,
                None => r == Err::<String, Error>(Error::Internal),
            },
    {
        match self {
            EncodedLog::Plain(data) => Ok(utf8_lossy(data.as_slice())),
            EncodedLog::Gzip(data) => match gunzip(data.as_slice()) {
                Some(bytes) => Ok(utf8_lossy(bytes.as_slice())),
                None => Err(Error::Internal),
            },
        }
    }
}

/// An owned copy of an optional log.
pub fn clone_opt_log(log: &Option<EncodedLog>) -> (r: Option<EncodedLog>)
    ensures
        crate::model::opt_view(r) == crate::model::opt_view(*log),
{
    match log {
        Some(l) => Some(l.clone()),
        None => None,
    }
}

/// The text that `String::from_utf8_lossy` reads from bytes: the bytes as
/// UTF-8, each run that is no UTF-8 replaced by U+FFFD.
pub uninterp spec fn utf8_lossy_text(bytes: Seq<u8>) -> Seq<char>;

/// Reads bytes as UTF-8 text. Trusted: the result is what
/// `String::from_utf8_lossy` gives for the bytes, a function of the bytes
/// alone.
#[verifier::external_body]
fn utf8_lossy(bytes: &[u8]) -> (r: String)
    ensures
        r@ == utf8_lossy_text(bytes@),
{
    String::from_utf8_lossy(bytes).into_owned()
}

/// The bytes that `flate2` inflates from the first member of a gzip stream,
/// or nothing where the bytes are no such stream.
pub uninterp spec fn gzip_inflated(data: Seq<u8>) -> Option<Seq<u8>>;

/// Inflates a gzip stream. Trusted: the result is what reading a
/// `flate2::read::GzDecoder` over the bytes to its end gives, a function of
/// the bytes alone; a read error gives nothing.
#[verifier::external_body]
fn gunzip(data: &[u8]) -> (r: Option<Vec<u8>>)
    ensures
        crate::model::opt_view(r) == gzip_inflated(data@),
{
    let mut decoder = flate2::read::GzDecoder::new(data);
    let mut out = Vec::new();
    match std::io::Read::read_to_end(&mut decoder, &mut out) {
        Ok(_) => Some(out),
        Err(_) => None,
    }
}

} // verus!
