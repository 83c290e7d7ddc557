//! Outcomes as JSON text, the form in which they are kept on disk. An
//! outcome without a reason is its name as a string; an outcome with a
//! reason is an object with the name of the outcome as its one key. A
//! reason is written in the same way.

use crate::model::views;
use crate::results::{
    BrokenReason, DiagnosticCode, FailureReason, FailureReasonView, TestResult, TestResultView,
};
use crate::text::{push_char, str_eq, to_chars};
use crate::utils::json::{
    lemma_read_list, lemma_read_quoted, list_text, parse_list, parse_quoted, push_list,
    push_quoted, quoted, read_list, read_quoted,
};
use crate::Error;
use vstd::prelude::*;

verus! {

impl FailureReasonView {
    /// The name of the reason.
    pub open spec fn name(self) -> Seq<char> {
        match self {
            FailureReasonView::Unknown => "unknown"@,
            FailureReasonView::OOM => "o-o-m"@,
            FailureReasonView::NoSpace => "no-space"@,
            FailureReasonView::Timeout => "timeout"@,
            FailureReasonView::ICE => "i-c-e"@,
            FailureReasonView::NetworkAccess => "network-access"@,
            FailureReasonView::Docker => "docker"@,
            FailureReasonView::CompilerDiagnosticChange => "compiler-diagnostic-change"@,
            FailureReasonView::CompilerError(_) => "compiler-error"@,
            FailureReasonView::DependsOn(_) => "depends-on"@,
        }
    }

    /// The reason as JSON text: its name where it holds nothing, an object
    /// with its name as key and a list of strings as value where it holds
    /// codes or packages.
    pub open spec fn json(self) -> Seq<char> {
        match self {
            FailureReasonView::CompilerError(codes) => seq!['{'] + quoted(self.name()) + seq![':']
                + list_text(codes) + seq!['}'],
            FailureReasonView::DependsOn(ids) => seq!['{'] + quoted(self.name()) + seq![':']
                + list_text(ids) + seq!['}'],
            _ => quoted(self.name()),
        }
    }
}

/// The reason without content that a name stands for.
pub open spec fn simple_reason(name: Seq<char>) -> Option<FailureReasonView> {
    if name == "unknown"@ {
        Some(FailureReasonView::Unknown)
    } else if name == "o-o-m"@ {
        Some(FailureReasonView::OOM)
    } else if name == "no-space"@ {
        Some(FailureReasonView::NoSpace)
    } else if name == "timeout"@ {
        Some(FailureReasonView::Timeout)
    } else if name == "i-c-e"@ {
        Some(FailureReasonView::ICE)
    } else if name == "network-access"@ {
        Some(FailureReasonView::NetworkAccess)
    } else if name == "docker"@ {
        Some(FailureReasonView::Docker)
    } else if name == "compiler-diagnostic-change"@ {
        Some(FailureReasonView::CompilerDiagnosticChange)
    } else {
        None
    }
}

/// The reason with the list `items` that a key stands for.
pub open spec fn list_reason(key: Seq<char>, items: Seq<Seq<char>>) -> Option<FailureReasonView> {
    if key == "compiler-error"@ {
        Some(FailureReasonView::CompilerError(items))
    } else if key == "depends-on"@ {
        Some(FailureReasonView::DependsOn(items))
    } else {
        None
    }
}

/// What the JSON text of a reason at the front of `t` reads as, and what
/// follows it.
pub open spec fn read_reason(t: Seq<char>) -> Option<(FailureReasonView, Seq<char>)> {
    if t.len() > 0 && t[0] == '"' {
        match read_quoted(t) {
            Some((name, rest)) => match simple_reason(name) {
                Some(r) => Some((r, rest)),
                None => None,
            },
            None => None,
        }
    } else if t.len() > 0 && t[0] == '{' {
        match read_quoted(t.skip(1)) {
            Some((key, rest)) => if rest.len() > 0 && rest[0] == ':' {
                match read_list(rest.skip(1)) {
                    Some((items, after)) => if after.len() > 0 && after[0] == '}' {
                        match list_reason(key, items) {
                            Some(r) => Some((r, after.skip(1))),
                            None => None,
                        }
                    } else {
                        None
                    },
                    None => None,
                }
            } else {
                None
            },
            None => None,
        }
    } else {
        None
    }
}

impl TestResultView {
    /// The name of the outcome in JSON.
    pub open spec fn json_name(self) -> Seq<char> {
        match self {
            TestResultView::BrokenCrate(_) => "broken-crate"@,
            TestResultView::PrepareFail(_) => "prepare-fail"@,
            TestResultView::BuildFail(_) => "build-fail"@,
            TestResultView::TestFail(_) => "test-fail"@,
            TestResultView::TestSkipped => "test-skipped"@,
            TestResultView::TestPass => "test-pass"@,
            TestResultView::Skipped => "skipped"@,
            TestResultView::Error => "error"@,
        }
    }

    /// The outcome as JSON text.
    pub open spec fn json(self) -> Seq<char> {
        match self {
            TestResultView::BrokenCrate(b) => seq!['{'] + quoted(self.json_name()) + seq![':']
                + quoted(b.spec_str()) + seq!['}'],
            TestResultView::PrepareFail(r) => seq!['{'] + quoted(self.json_name()) + seq![':']
                + r.json() + seq!['}'],
            TestResultView::BuildFail(r) => seq!['{'] + quoted(self.json_name()) + seq![':']
                + r.json() + seq!['}'],
            TestResultView::TestFail(r) => seq!['{'] + quoted(self.json_name()) + seq![':']
                + r.json() + seq!['}'],
            _ => quoted(self.json_name()),
        }
    }
}

/// The outcome without a reason that a name stands for.
pub open spec fn simple_result(name: Seq<char>) -> Option<TestResultView> {
    if name == "test-skipped"@ {
        Some(TestResultView::TestSkipped)
    } else if name == "test-pass"@ {
        Some(TestResultView::TestPass)
    } else if name == "skipped"@ {
        Some(TestResultView::Skipped)
    } else if name == "error"@ {
        Some(TestResultView::Error)
    } else {
        None
    }
}

/// The outcome with the reason `r` that a key stands for.
pub open spec fn failed_result(key: Seq<char>, r: FailureReasonView) -> Option<TestResultView> {
    if key == "prepare-fail"@ {
        Some(TestResultView::PrepareFail(r))
    } else if key == "build-fail"@ {
        Some(TestResultView::BuildFail(r))
    } else if key == "test-fail"@ {
        Some(TestResultView::TestFail(r))
    } else {
        None
    }
}

/// What the value of an object with the key `key` reads as, where the
/// object ends behind it and nothing follows.
pub open spec fn read_value(key: Seq<char>, t: Seq<char>) -> Option<TestResultView> {
    if key == "broken-crate"@ {
        match read_quoted(t) {
            Some((name, rest)) => if rest == seq!['}'] {
                match BrokenReason::spec_parse(name) {
                    Some(b) => Some(TestResultView::BrokenCrate(b)),
                    None => None,
                }
            } else {
                None
            },
            None => None,
        }
    } else {
        match read_reason(t) {
            Some((r, rest)) => if rest == seq!['}'] {
                failed_result(key, r)
            } else {
                None
            },
            None => None,
        }
    }
}

/// The outcome that a JSON text stands for. The text is read in the one
/// form in which outcomes are written: nothing stands between its parts,
/// and nothing follows it.
pub open spec fn parse_result(t: Seq<char>) -> Option<TestResultView> {
    if t.len() > 0 && t[0] == '"' {
        match read_quoted(t) {
            Some((name, rest)) => if rest.len() == 0 {
                simple_result(name)
            } else {
                None
            },
            None => None,
        }
    } else if t.len() > 0 && t[0] == '{' {
        match read_quoted(t.skip(1)) {
            Some((key, rest)) => if rest.len() > 0 && rest[0] == ':' {
                read_value(key, rest.skip(1))
            } else {
                None
            },
            None => None,
        }
    } else {
        None
    }
}

proof fn reveal_names()
    ensures
        "unknown"@.len() == 7,
        "o-o-m"@.len() == 5,
        "no-space"@.len() == 8,
        "timeout"@.len() == 7,
        "i-c-e"@.len() == 5,
        "network-access"@.len() == 14,
        "docker"@.len() == 6,
        "compiler-diagnostic-change"@.len() == 26,
        "compiler-error"@.len() == 14,
        "depends-on"@.len() == 10,
        "broken-crate"@.len() == 12,
        "prepare-fail"@.len() == 12,
        "build-fail"@.len() == 10,
        "test-fail"@.len() == 9,
        "test-skipped"@.len() == 12,
        "test-pass"@.len() == 9,
        "skipped"@.len() == 7,
        "error"@.len() == 5,
        "unknown"@[0] != "timeout"@[0],
        "o-o-m"@[0] != "i-c-e"@[0],
        "network-access"@[0] != "compiler-error"@[0],
        "broken-crate"@[0] != "prepare-fail"@[0],
        "broken-crate"@[0] != "test-skipped"@[0],
        "prepare-fail"@[0] != "test-skipped"@[0],
        "build-fail"@[0] != "depends-on"@[0],
        "test-fail"@[5] != "test-pass"@[5],
        "unknown"@[0] != "skipped"@[0],
        "timeout"@[0] != "skipped"@[0],
        "o-o-m"@[0] != "error"@[0],
        "i-c-e"@[0] != "error"@[0],
{
    reveal_strlit("unknown");
    reveal_strlit("o-o-m");
    reveal_strlit("no-space");
    reveal_strlit("timeout");
    reveal_strlit("i-c-e");
    reveal_strlit("network-access");
    reveal_strlit("docker");
    reveal_strlit("compiler-diagnostic-change");
    reveal_strlit("compiler-error");
    reveal_strlit("depends-on");
    reveal_strlit("broken-crate");
    reveal_strlit("prepare-fail");
    reveal_strlit("build-fail");
    reveal_strlit("test-fail");
    reveal_strlit("test-skipped");
    reveal_strlit("test-pass");
    reveal_strlit("skipped");
    reveal_strlit("error");
}

/// The JSON text of a reason reads as the reason.
pub proof fn lemma_read_reason(r: FailureReasonView, tail: Seq<char>)
    ensures
        read_reason(r.json() + tail) == Some((r, tail)),
{
    reveal_names();
    let t = r.json() + tail;
    match r {
        FailureReasonView::CompilerError(items) => {
            lemma_read_object(r.name(), list_text(items), tail);
            lemma_read_list(items, seq!['}'] + tail);
            assert((seq!['}'] + tail).skip(1) =~= tail);
            assert(list_text(items) + seq!['}'] + tail =~= list_text(items) + (seq!['}'] + tail));
        },
        FailureReasonView::DependsOn(items) => {
            lemma_read_object(r.name(), list_text(items), tail);
            lemma_read_list(items, seq!['}'] + tail);
            assert((seq!['}'] + tail).skip(1) =~= tail);
            assert(list_text(items) + seq!['}'] + tail =~= list_text(items) + (seq!['}'] + tail));
        },
        _ => {
            lemma_read_quoted(r.name(), tail);
        },
    }
}

/// An object with one key reads as its key, a colon, and what stands
/// behind the colon.
proof fn lemma_read_object(key: Seq<char>, value: Seq<char>, tail: Seq<char>)
    ensures
        ({
            let t = seq!['{'] + quoted(key) + seq![':'] + value + seq!['}'] + tail;
            &&& t.len() > 0
            &&& t[0] == '{'
            &&& read_quoted(t.skip(1)) == Some((key, seq![':'] + value + seq!['}'] + tail))
            &&& (seq![':'] + value + seq!['}'] + tail)[0] == ':'
            &&& (seq![':'] + value + seq!['}'] + tail).skip(1) == value + seq!['}'] + tail
        }),
{
    let t = seq!['{'] + quoted(key) + seq![':'] + value + seq!['}'] + tail;
    let rest = seq![':'] + value + seq!['}'] + tail;
    assert(t.skip(1) =~= quoted(key) + rest);
    lemma_read_quoted(key, rest);
    assert(rest.skip(1) =~= value + seq!['}'] + tail);
}

/// Reading the JSON text of an outcome gives the outcome back.
pub proof fn lemma_parse_json(v: TestResultView)
    ensures
        parse_result(v.json()) == Some(v),
{
    reveal_names();
    let t = v.json();
    let empty = Seq::<char>::empty();
    match v {
        TestResultView::BrokenCrate(b) => {
            lemma_read_object(v.json_name(), quoted(b.spec_str()), empty);
            assert(t =~= seq!['{'] + quoted(v.json_name()) + seq![':'] + quoted(b.spec_str())
                + seq!['}'] + empty);
            lemma_read_quoted(b.spec_str(), seq!['}']);
            assert(quoted(b.spec_str()) + seq!['}'] + empty =~= quoted(b.spec_str()) + seq!['}']);
            BrokenReason::lemma_parse_str(b);
        },
        TestResultView::PrepareFail(r) => {
            lemma_read_object(v.json_name(), r.json(), empty);
            assert(t =~= seq!['{'] + quoted(v.json_name()) + seq![':'] + r.json() + seq!['}']
                + empty);
            lemma_read_reason(r, seq!['}']);
            assert(r.json() + seq!['}'] + empty =~= r.json() + seq!['}']);
        },
        TestResultView::BuildFail(r) => {
            lemma_read_object(v.json_name(), r.json(), empty);
            assert(t =~= seq!['{'] + quoted(v.json_name()) + seq![':'] + r.json() + seq!['}']
                + empty);
            lemma_read_reason(r, seq!['}']);
            assert(r.json() + seq!['}'] + empty =~= r.json() + seq!['}']);
        },
        TestResultView::TestFail(r) => {
            lemma_read_object(v.json_name(), r.json(), empty);
            assert(t =~= seq!['{'] + quoted(v.json_name()) + seq![':'] + r.json() + seq!['}']
                + empty);
            lemma_read_reason(r, seq!['}']);
            assert(r.json() + seq!['}'] + empty =~= r.json() + seq!['}']);
        },
        _ => {
            lemma_read_quoted(v.json_name(), empty);
            assert(t =~= quoted(v.json_name()) + empty);
        },
    }
}

impl FailureReason {
    fn name(&self) -> (r: &'static str)
        ensures
            r@ == self@.name(),
    {
        match self {
            FailureReason::Unknown => "unknown",
            FailureReason::OOM => "o-o-m",
            FailureReason::NoSpace => "no-space",
            FailureReason::Timeout => "timeout",
            FailureReason::ICE => "i-c-e",
            FailureReason::NetworkAccess => "network-access",
            FailureReason::Docker => "docker",
            FailureReason::CompilerDiagnosticChange => "compiler-diagnostic-change",
            FailureReason::CompilerError(_) => "compiler-error",
            FailureReason::DependsOn(_) => "depends-on",
        }
    }

    /// Appends the reason as JSON text to `out`.
    pub fn push_json(&self, out: &mut String)
        ensures
            final(out)@ == old(out)@ + self@.json(),
    {
        match self {
            FailureReason::CompilerError(codes) => {
                let names = code_names(codes);
                push_char(out, '{');
                push_quoted(out, self.name());
                push_char(out, ':');
                push_list(out, &names);
                push_char(out, '}');
                assert(final(out)@ =~= old(out)@ + self@.json());
            },
            FailureReason::DependsOn(ids) => {
                push_char(out, '{');
                push_quoted(out, self.name());
                push_char(out, ':');
                push_list(out, ids);
                push_char(out, '}');
                assert(final(out)@ =~= old(out)@ + self@.json());
            },
            _ => {
                push_quoted(out, self.name());
            },
        }
    }
}

fn code_names(codes: &Vec<DiagnosticCode>) -> (r: Vec<String>)
    ensures
        views(r@) == views(codes@),
{
    let mut out: Vec<String> = Vec::new();
    let mut i: usize = 0;
    while i < codes.len()
        invariant
            0 <= i <= codes.len(),
            out@.len() == i,
            forall|j: int| 0 <= j < i ==> out@[j]@ == codes@[j]@,
        decreases codes.len() - i,
    {
        out.push(codes[i].0.clone());
        i += 1;
    }
    assert(views(out@) =~= views(codes@));
    out
}

fn codes_of(names: Vec<String>) -> (r: Vec<DiagnosticCode>)
    ensures
        views(r@) == views(names@),
{
    let mut out: Vec<DiagnosticCode> = Vec::new();
    let mut i: usize = 0;
    while i < names.len()
        invariant
            0 <= i <= names.len(),
            out@.len() == i,
            forall|j: int| 0 <= j < i ==> out@[j]@ == names@[j]@,
        decreases names.len() - i,
    {
        out.push(DiagnosticCode(names[i].clone()));
        i += 1;
    }
    assert(views(out@) =~= views(names@));
    out
}

fn simple_reason_of(name: &str) -> (r: Option<FailureReason>)
    ensures
        crate::model::opt_view(r) == simple_reason(name@),
{
    if str_eq(name, "unknown") {
        Some(FailureReason::Unknown)
    } else if str_eq(name, "o-o-m") {
        Some(FailureReason::OOM)
    } else if str_eq(name, "no-space") {
        Some(FailureReason::NoSpace)
    } else if str_eq(name, "timeout") {
        Some(FailureReason::Timeout)
    } else if str_eq(name, "i-c-e") {
        Some(FailureReason::ICE)
    } else if str_eq(name, "network-access") {
        Some(FailureReason::NetworkAccess)
    } else if str_eq(name, "docker") {
        Some(FailureReason::Docker)
    } else if str_eq(name, "compiler-diagnostic-change") {
        Some(FailureReason::CompilerDiagnosticChange)
    } else {
        None
    }
}

/// Reads the JSON text of a reason that starts at `chars[from]`: the
/// reason, and the index behind it.
fn parse_reason(chars: &Vec<char>, from: usize) -> (r: Option<(FailureReason, usize)>)
    requires
        from <= chars.len(),
    ensures
        match read_reason(chars@.skip(from as int)) {
            Some((v, rest)) => r is Some && r.unwrap().0@ == v && from < r.unwrap().1 <= chars.len()
                && rest == chars@.skip(r.unwrap().1 as int),
            None => r is None,
        },
{
    let ghost t = chars@.skip(from as int);
    if from >= chars.len() {
        return None;
    }
    assert(t[0] == chars@[from as int]);
    if chars[from] == '"' {
        let (name, i) = match parse_quoted(chars, from) {
            Some(x) => x,
            None => {
                return None;
            },
        };
        match simple_reason_of(name.as_str()) {
            Some(r) => Some((r, i)),
            None => None,
        }
    } else if chars[from] == '{' {
        assert(t.skip(1) =~= chars@.skip(from + 1));
        let (key, i) = match parse_quoted(chars, from + 1) {
            Some(x) => x,
            None => {
                return None;
            },
        };
        let ghost rest = chars@.skip(i as int);
        if i >= chars.len() || chars[i] != ':' {
            proof {
                if i < chars.len() {
                    assert(rest[0] == chars@[i as int]);
                }
            }
            return None;
        }
        proof {
            assert(rest[0] == chars@[i as int]);
            assert(rest.skip(1) =~= chars@.skip(i + 1));
        }
        let (items, j) = match parse_list(chars, i + 1) {
            Some(x) => x,
            None => {
                return None;
            },
        };
        let ghost after = chars@.skip(j as int);
        if j >= chars.len() || chars[j] != '}' {
            proof {
                if j < chars.len() {
                    assert(after[0] == chars@[j as int]);
                }
            }
            return None;
        }
        proof {
            assert(after[0] == chars@[j as int]);
            assert(after.skip(1) =~= chars@.skip(j + 1));
        }
        if str_eq(key.as_str(), "compiler-error") {
            Some((FailureReason::CompilerError(codes_of(items)), j + 1))
        } else if str_eq(key.as_str(), "depends-on") {
            Some((FailureReason::DependsOn(items), j + 1))
        } else {
            None
        }
    } else {
        None
    }
}

impl TestResult {
    fn json_name(&self) -> (r: &'static str)
        ensures
            r@ == self@.json_name(),
    {
        match self {
            TestResult::BrokenCrate(_) => "broken-crate",
            TestResult::PrepareFail(_) => "prepare-fail",
            TestResult::BuildFail(_) => "build-fail",
            TestResult::TestFail(_) => "test-fail",
            TestResult::TestSkipped => "test-skipped",
            TestResult::TestPass => "test-pass",
            TestResult::Skipped => "skipped",
            TestResult::Error => "error",
        }
    }

    /// The outcome as JSON text.
    pub fn to_json(&self) -> (r: String)
        ensures
            r@ == self@.json(),
    {
        let mut out = String::new();
        match self {
            TestResult::BrokenCrate(b) => {
                push_char(&mut out, '{');
                push_quoted(&mut out, self.json_name());
                push_char(&mut out, ':');
                push_quoted(&mut out, b.to_str());
                push_char(&mut out, '}');
            },
            TestResult::PrepareFail(r) => {
                push_char(&mut out, '{');
                push_quoted(&mut out, self.json_name());
                push_char(&mut out, ':');
                r.push_json(&mut out);
                push_char(&mut out, '}');
            },
            TestResult::BuildFail(r) => {
                push_char(&mut out, '{');
                push_quoted(&mut out, self.json_name());
                push_char(&mut out, ':');
                r.push_json(&mut out);
                push_char(&mut out, '}');
            },
            TestResult::TestFail(r) => {
                push_char(&mut out, '{');
                push_quoted(&mut out, self.json_name());
                push_char(&mut out, ':');
                r.push_json(&mut out);
                push_char(&mut out, '}');
            },
            _ => {
                push_quoted(&mut out, self.json_name());
            },
        }
        assert(out@ =~= self@.json());
        out
    }

    /// The outcome that a JSON text stands for; `BadRequest` where the
    /// text stands for none.
    pub fn from_json(text: &str) -> (r: Result<TestResult, Error>)
        ensures
            match parse_result(text@) {
                Some(v) => r is Ok && r.unwrap()@ == v,
                None => r == Err::<TestResult, Error>(Error::BadRequest),
            },
    {
        let cs = to_chars(text);
        let ghost t = cs@;
        assert(cs@.skip(0) =~= cs@);
        if cs.len() == 0 {
            return Err(Error::BadRequest);
        }
        if cs[0] == '"' {
            let (name, i) = match parse_quoted(&cs, 0) {
                Some(x) => x,
                None => {
                    return Err(Error::BadRequest);
                },
            };
            if i != cs.len() {
                return Err(Error::BadRequest);
            }
            let n = name.as_str();
            if str_eq(n, "test-skipped") {
                Ok(TestResult::TestSkipped)
            } else if str_eq(n, "test-pass") {
                Ok(TestResult::TestPass)
            } else if str_eq(n, "skipped") {
                Ok(TestResult::Skipped)
            } else if str_eq(n, "error") {
                Ok(TestResult::Error)
            } else {
                Err(Error::BadRequest)
            }
        } else if cs[0] == '{' {
            let (key, i) = match parse_quoted(&cs, 1) {
                Some(x) => x,
                None => {
                    return Err(Error::BadRequest);
                },
            };
            let ghost rest = cs@.skip(i as int);
            if i >= cs.len() || cs[i] != ':' {
                proof {
                    if i < cs.len() {
                        assert(rest[0] == cs@[i as int]);
                    }
                }
                return Err(Error::BadRequest);
            }
            proof {
                assert(rest[0] == cs@[i as int]);
                assert(rest.skip(1) =~= cs@.skip(i + 1));
            }
            let k = key.as_str();
            if str_eq(k, "broken-crate") {
                let (name, j) = match parse_quoted(&cs, i + 1) {
                    Some(x) => x,
                    None => {
                        return Err(Error::BadRequest);
                    },
                };
                if !closes(&cs, j) {
                    return Err(Error::BadRequest);
                }
                match BrokenReason::from_str(name.as_str()) {
                    Ok(b) => Ok(TestResult::BrokenCrate(b)),
                    Err(e) => Err(e),
                }
            } else {
                let (reason, j) = match parse_reason(&cs, i + 1) {
                    Some(x) => x,
                    None => {
                        return Err(Error::BadRequest);
                    },
                };
                if !closes(&cs, j) {
                    return Err(Error::BadRequest);
                }
                if str_eq(k, "prepare-fail") {
                    Ok(TestResult::PrepareFail(reason))
                } else if str_eq(k, "build-fail") {
                    Ok(TestResult::BuildFail(reason))
                } else if str_eq(k, "test-fail") {
                    Ok(TestResult::TestFail(reason))
                } else {
                    Err(Error::BadRequest)
                }
            }
        } else {
            Err(Error::BadRequest)
        }
    }
}

/// Whether what stands from `chars[at]` on is the brace that ends an
/// object, and nothing else.
fn closes(chars: &Vec<char>, at: usize) -> (r: bool)
    requires
        at <= chars.len(),
    ensures
        r == (chars@.skip(at as int) == seq!['}']),
{
    let ghost rest = chars@.skip(at as int);
    if chars.len() - at == 1 && chars[at] == '}' {
        assert(rest =~= seq!['}']);
        true
    } else {
        proof {
            if rest.len() == 1 {
                assert(rest[0] == chars@[at as int]);
                assert(seq!['}'][0] == '}');
            }
        }
        false
    }
}

} // verus!
