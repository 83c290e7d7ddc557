use crater_ohos::results::{BrokenReason, DiagnosticCode, FailureReason, TestResult};
use crater_ohos::text::to_chars;
use crater_ohos::utils::json::{parse_list, parse_quoted, push_list, push_quoted};
use crater_ohos::Error;

fn quoted(s: &str) -> String {
    let mut out = String::new();
    push_quoted(&mut out, s);
    out
}

#[test]
fn strings_are_written_as_serde_json_writes_them() {
    let all_controls: String = (0u8..0x20).map(|b| b as char).collect();
    for s in [
        "",
        "plain",
        "with \"quotes\" and \\ backslash",
        "line\nbreak\ttab\rreturn",
        "\u{8}\u{c}\u{0}\u{1f}\u{7f}",
        "é 漢字 🦀 /",
        all_controls.as_str(),
    ] {
        let text = quoted(s);
        assert_eq!(text, serde_json::to_string(s).unwrap(), "{:?}", s);
        let cs = to_chars(&text);
        assert_eq!(parse_quoted(&cs, 0), Some((s.to_string(), cs.len())), "{:?}", s);
        assert_eq!(serde_json::from_str::<String>(&text).unwrap(), s);
    }
}

#[test]
fn strings_read_with_what_follows() {
    let cs = to_chars("x\"a\\/b\\u0041\\u00e9\"rest");
    assert_eq!(parse_quoted(&cs, 1), Some(("a/bA\u{e9}".to_string(), 19)));
    for bad in [
        "",
        "a",
        "\"open",
        "\"bad \\x escape\"",
        "\"raw \n newline\"",
        "\"\\u12\"",
        "\"\\u0141\"",
        "\"\\u00g1\"",
        "\"\\",
        "\"\\u00",
    ] {
        let cs = to_chars(bad);
        assert_eq!(parse_quoted(&cs, 0), None, "{:?}", bad);
    }
}

#[test]
fn lists_are_written_as_serde_json_writes_them() {
    for items in [
        vec![],
        vec!["build".to_string()],
        vec!["build".to_string(), "test".to_string()],
        vec!["a,b".to_string(), "]".to_string(), "\"".to_string(), String::new()],
    ] {
        let mut text = String::new();
        push_list(&mut text, &items);
        assert_eq!(text, serde_json::to_string(&items).unwrap());
        let cs = to_chars(&text);
        assert_eq!(parse_list(&cs, 0), Some((items.clone(), cs.len())));
    }
    for bad in ["", "[", "[]x", "[,]", "[\"a\",]", "[\"a\" ,\"b\"]", "[\"a\"", "\"a\"", "[1]"] {
        let cs = to_chars(bad);
        let r = parse_list(&cs, 0);
        if bad == "[]x" {
            assert_eq!(r, Some((vec![], 2)));
        } else {
            assert_eq!(r, None, "{:?}", bad);
        }
    }
}

#[test]
fn outcome_json_exact_texts() {
    let cases: Vec<(TestResult, &str)> = vec![
        (TestResult::TestPass, "\"test-pass\""),
        (TestResult::TestSkipped, "\"test-skipped\""),
        (TestResult::Skipped, "\"skipped\""),
        (TestResult::Error, "\"error\""),
        (TestResult::BrokenCrate(BrokenReason::CargoToml), "{\"broken-crate\":\"cargo-toml\"}"),
        (
            TestResult::BrokenCrate(BrokenReason::MissingGitRepository),
            "{\"broken-crate\":\"missing-git-repository\"}",
        ),
        (TestResult::BuildFail(FailureReason::Timeout), "{\"build-fail\":\"timeout\"}"),
        (TestResult::BuildFail(FailureReason::OOM), "{\"build-fail\":\"o-o-m\"}"),
        (TestResult::TestFail(FailureReason::ICE), "{\"test-fail\":\"i-c-e\"}"),
        (
            TestResult::PrepareFail(FailureReason::CompilerDiagnosticChange),
            "{\"prepare-fail\":\"compiler-diagnostic-change\"}",
        ),
        (
            TestResult::BuildFail(FailureReason::CompilerError(vec![
                DiagnosticCode::new("E0308"),
                DiagnosticCode::new("E0599"),
            ])),
            "{\"build-fail\":{\"compiler-error\":[\"E0308\",\"E0599\"]}}",
        ),
        (
            TestResult::TestFail(FailureReason::DependsOn(vec!["reg:serde-1.0.0".to_string()])),
            "{\"test-fail\":{\"depends-on\":[\"reg:serde-1.0.0\"]}}",
        ),
        (
            TestResult::BuildFail(FailureReason::DependsOn(vec![])),
            "{\"build-fail\":{\"depends-on\":[]}}",
        ),
    ];
    for (outcome, text) in cases {
        assert_eq!(outcome.to_json(), text);
        assert_eq!(TestResult::from_json(text), Ok(outcome.clone()));
        assert_eq!(TestResult::from_json(&outcome.to_json()), Ok(outcome));
    }
}

#[test]
fn outcome_json_round_trip_all_reasons() {
    let reasons = || {
        vec![
            FailureReason::Unknown,
            FailureReason::OOM,
            FailureReason::NoSpace,
            FailureReason::Timeout,
            FailureReason::ICE,
            FailureReason::NetworkAccess,
            FailureReason::Docker,
            FailureReason::CompilerDiagnosticChange,
            FailureReason::CompilerError(vec![DiagnosticCode::new("E\"0\\1\n")]),
            FailureReason::DependsOn(vec!["gh:a/b".to_string(), "local:ü".to_string()]),
        ]
    };
    let mut all = vec![
        TestResult::TestPass,
        TestResult::TestSkipped,
        TestResult::Skipped,
        TestResult::Error,
    ];
    for b in [
        BrokenReason::Unknown,
        BrokenReason::CargoToml,
        BrokenReason::Yanked,
        BrokenReason::MissingDependencies,
        BrokenReason::MissingGitRepository,
    ] {
        all.push(TestResult::BrokenCrate(b));
    }
    for r in reasons() {
        all.push(TestResult::PrepareFail(r));
    }
    for r in reasons() {
        all.push(TestResult::BuildFail(r));
    }
    for r in reasons() {
        all.push(TestResult::TestFail(r));
    }
    assert_eq!(all.len(), 39);
    for outcome in all {
        let text = outcome.to_json();
        // A JSON reader takes the text, and finds the shape of a tagged
        // value: a name alone, or one member under the name.
        let value: serde_json::Value = serde_json::from_str(&text).unwrap();
        assert!(value.is_string() || value.as_object().map(|o| o.len()) == Some(1), "{}", text);
        assert_eq!(serde_json::to_string(&value).unwrap(), text);
        assert_eq!(TestResult::from_json(&text), Ok(outcome));
    }
}

#[test]
fn outcome_json_rejects_other_texts() {
    for bad in [
        "",
        "test-pass",
        "\"test-pass\" ",
        " \"test-pass\"",
        "\"TestPass\"",
        "\"build-fail\"",
        "\"timeout\"",
        "{\"test-pass\":\"unknown\"}",
        "{\"build-fail\":\"cargo-toml\"}",
        "{\"broken-crate\":\"timeout\"}",
        "{\"build-fail\":\"timeout\"}}",
        "{\"build-fail\":\"timeout\"",
        "{\"build-fail\": \"timeout\"}",
        "{\"build-fail\":{\"compiler-error\":\"E0308\"}}",
        "{\"build-fail\":{\"timeout\":[]}}",
        "{\"build-fail\":{\"depends-on\":[]}",
        "{\"broken-crate\":{\"depends-on\":[]}}",
        "null",
        "{}",
    ] {
        assert_eq!(TestResult::from_json(bad), Err(Error::BadRequest), "{:?}", bad);
    }
}
