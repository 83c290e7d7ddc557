use crater_ohos::crates::{Crate, RegistryCrate};
use crater_ohos::report::analyzer::{compare_results, Categories, Summary};
use crater_ohos::report::display::format_result;
use crater_ohos::report::html::generate_html_report;
use crater_ohos::report::markdown::generate_markdown_report;
use crater_ohos::report::{
    Color, Comparison, CrateResult, RawTestResults, ResultColor, ResultName, TestResults,
};
use crater_ohos::results::{BrokenReason, FailureReason, TestResult};

#[test]
fn test_comparison_display() {
    assert_eq!(Comparison::Regressed.to_string(), "regressed");
    assert_eq!(Comparison::Fixed.to_string(), "fixed");
    assert_eq!(Comparison::SameTestPass.to_string(), "test-pass");
}

#[test]
fn test_comparison() {
    assert!(Comparison::Regressed.show_in_summary());
    assert!(Comparison::Fixed.show_in_summary());
    assert!(!Comparison::SameTestPass.show_in_summary());
    assert!(!Comparison::Skipped.show_in_summary());
    assert!(Comparison::SpuriousRegressed.show_in_summary());
    assert!(Comparison::SpuriousFixed.show_in_summary());
}

#[test]
fn test_crate_result_serialization() {
    let result = CrateResult {
        name: "test".to_string(),
        url: "https://example.com".to_string(),
        krate: Crate::Registry(RegistryCrate::new("test", "1.0.0")),
        status: None,
        res: Comparison::SameTestPass,
        runs: [None, None],
    };
    assert_eq!(result.name, "test");
    assert_eq!(result.res, Comparison::SameTestPass);
}

#[test]
fn test_color_ansi() {
    assert_eq!(Color::Red.to_ansi(), "\x1b[31m");
    assert_eq!(Color::Green.to_ansi(), "\x1b[32m");
    assert_eq!(Color::Reset.to_ansi(), "\x1b[0m");
}

#[test]
fn test_result_colors() {
    assert_eq!(TestResult::TestPass.color(), Color::Green);
    assert_eq!(TestResult::TestSkipped.color(), Color::Yellow);
    assert_eq!(
        TestResult::BuildFail(FailureReason::Unknown).color(),
        Color::Red
    );
    assert_eq!(
        TestResult::TestFail(FailureReason::Timeout).color(),
        Color::Red
    );
}

#[test]
fn test_result_names() {
    assert_eq!(TestResult::TestPass.name(), "test-pass");
    assert_eq!(TestResult::TestSkipped.name(), "test-skipped");
    assert_eq!(
        TestResult::BuildFail(FailureReason::Unknown).name(),
        "build-fail"
    );
}

#[test]
fn test_format_result_no_color() {
    let result = TestResult::TestPass;
    assert_eq!(format_result(&result, false), "test-pass");
}

#[test]
fn test_format_result_with_color() {
    let result = TestResult::TestPass;
    let formatted = format_result(&result, true);
    assert!(formatted.contains("test-pass"));
    assert!(formatted.contains("\x1b["));
    assert_eq!(formatted, "\x1b[32mtest-pass\x1b[0m");
}

#[test]
fn test_compare_results_both_pass() {
    let result = compare_results(&Some(TestResult::TestPass), &Some(TestResult::TestPass));
    assert_eq!(result, Comparison::SameTestPass);
}

#[test]
fn test_compare_results_regressed() {
    let result = compare_results(
        &Some(TestResult::TestPass),
        &Some(TestResult::BuildFail(FailureReason::Unknown)),
    );
    assert_eq!(result, Comparison::Regressed);
}

#[test]
fn test_compare_results_fixed() {
    let result = compare_results(
        &Some(TestResult::BuildFail(FailureReason::Unknown)),
        &Some(TestResult::TestPass),
    );
    assert_eq!(result, Comparison::Fixed);
}

#[test]
fn test_compare_results_same_build_fail() {
    let result = compare_results(
        &Some(TestResult::BuildFail(FailureReason::Unknown)),
        &Some(TestResult::BuildFail(FailureReason::Timeout)),
    );
    assert_eq!(result, Comparison::SameBuildFail);
}

#[test]
fn test_compare_results_skipped() {
    let result = compare_results(&None, &None);
    assert_eq!(result, Comparison::Skipped);
}

fn crate_result(name: &str, res: Comparison) -> CrateResult {
    CrateResult {
        name: name.to_string(),
        url: "".to_string(),
        krate: Crate::Registry(RegistryCrate::new(name, "1.0.0")),
        status: None,
        res,
        runs: [None, None],
    }
}

#[test]
fn test_summary_counts() {
    let raw = RawTestResults {
        crates: vec![
            CrateResult {
                name: "crate1".to_string(),
                url: "".to_string(),
                krate: Crate::Registry(RegistryCrate::new("test", "1.0.0")),
                status: None,
                res: Comparison::Regressed,
                runs: [None, None],
            },
            CrateResult {
                name: "crate2".to_string(),
                url: "".to_string(),
                krate: Crate::Registry(RegistryCrate::new("test2", "1.0.0")),
                status: None,
                res: Comparison::Fixed,
                runs: [None, None],
            },
        ],
    };

    let results = TestResults::from_raw(raw);
    assert_eq!(results.summary.total, 2);
    assert_eq!(results.summary.regressed, 1);
    assert_eq!(results.summary.fixed, 1);
}

fn sample_results() -> TestResults {
    TestResults {
        categories: Categories::new(),
        summary: Summary {
            total: 100,
            regressed: 5,
            fixed: 3,
            broken: 2,
            same_build_fail: 10,
            same_test_fail: 5,
            same_test_pass: 70,
            same_test_skipped: 3,
            skipped: 2,
            unknown: 0,
            errors: 0,
            prepare_fail: 0,
            spurious_regressed: 0,
            spurious_fixed: 0,
        },
    }
}

fn full_summary() -> TestResults {
    TestResults {
        categories: Categories::new(),
        summary: Summary {
            total: 91,
            regressed: 1,
            fixed: 2,
            broken: 3,
            same_build_fail: 4,
            same_test_fail: 5,
            same_test_pass: 6,
            same_test_skipped: 7,
            skipped: 8,
            unknown: 9,
            errors: 10,
            prepare_fail: 11,
            spurious_regressed: 12,
            spurious_fixed: 13,
        },
    }
}

#[test]
fn test_generate_html_report() {
    let results = sample_results();
    let html = generate_html_report(&results).unwrap();
    assert!(html.contains("Total crates: 100"));
    assert!(html.contains("Regressions: 5"));
    assert!(html.contains("Fixes: 3"));
}

#[test]
fn test_generate_markdown_report() {
    let results = sample_results();
    let markdown = generate_markdown_report(&results).unwrap();
    assert!(markdown.contains("# Crater Experiment Report"));
    assert!(markdown.contains("Total crates: 100"));
    assert!(markdown.contains("Regressions: 5"));
    assert!(markdown.contains("Fixes: 3"));
}

#[test]
fn markdown_report_exact_text() {
    let markdown = generate_markdown_report(&sample_results()).unwrap();
    assert_eq!(
        markdown,
        "# Crater Experiment Report\n\n## Summary\n\n- Total crates: 100\n- Regressions: 5\n- Fixes: 3\n- Broken: 2\n- Same build failures: 10\n- Same test failures: 5\n- Same test passes: 70\n- Skipped: 2\n- Same test skipped: 3\n- Unknown: 0\n- Errors: 0\n- Prepare failures: 0\n- Spurious regressions: 0\n- Spurious fixes: 0\n"
    );
    assert_eq!(
        generate_markdown_report(&full_summary()).unwrap(),
        "# Crater Experiment Report\n\n## Summary\n\n- Total crates: 91\n- Regressions: 1\n- Fixes: 2\n- Broken: 3\n- Same build failures: 4\n- Same test failures: 5\n- Same test passes: 6\n- Skipped: 8\n- Same test skipped: 7\n- Unknown: 9\n- Errors: 10\n- Prepare failures: 11\n- Spurious regressions: 12\n- Spurious fixes: 13\n"
    );
}

#[test]
fn html_report_exact_text() {
    assert_eq!(
        generate_html_report(&full_summary()).unwrap(),
        "<!DOCTYPE html>\n<html>\n<head>\n    <title>Crater Report</title>\n</head>\n<body>\n    <h1>Crater Experiment Report</h1>\n    <p>Total crates: 91</p>\n    <p>Regressions: 1</p>\n    <p>Fixes: 2</p>\n    <p>Spurious regressions: 12</p>\n    <p>Spurious fixes: 13</p>\n</body>\n</html>"
    );
}

#[test]
fn summary_json_is_read_by_a_json_reader() {
    let summary = full_summary().summary;
    let text = summary.to_json_pretty();
    let parsed: serde_json::Value = serde_json::from_str(&text).unwrap();
    let object = parsed.as_object().unwrap();
    assert_eq!(object.len(), 14);
    let expected: Vec<(&str, u64)> = vec![
        ("total", 91),
        ("regressed", 1),
        ("fixed", 2),
        ("broken", 3),
        ("same_build_fail", 4),
        ("same_test_fail", 5),
        ("same_test_pass", 6),
        ("same_test_skipped", 7),
        ("skipped", 8),
        ("unknown", 9),
        ("errors", 10),
        ("prepare_fail", 11),
        ("spurious_regressed", 12),
        ("spurious_fixed", 13),
    ];
    for (name, n) in expected {
        assert_eq!(parsed[name].as_u64(), Some(n), "{}", name);
    }
}

#[test]
fn every_comparison_is_counted() {
    let all = [
        Comparison::Regressed,
        Comparison::Fixed,
        Comparison::Skipped,
        Comparison::Unknown,
        Comparison::Error,
        Comparison::Broken,
        Comparison::PrepareFail,
        Comparison::SameBuildFail,
        Comparison::SameTestFail,
        Comparison::SameTestSkipped,
        Comparison::SameTestPass,
        Comparison::SpuriousRegressed,
        Comparison::SpuriousFixed,
    ];
    let one = TestResults::from_raw(RawTestResults {
        crates: vec![crate_result("p", Comparison::PrepareFail)],
    });
    assert_eq!(one.summary.total, 1);
    assert_eq!(one.summary.prepare_fail, 1);
    assert_eq!(counts(&one.summary).iter().sum::<usize>(), 1);

    // One result more of each comparison than of the one before it.
    let mut crates = Vec::new();
    for (k, c) in all.iter().enumerate() {
        for j in 0..=k {
            crates.push(crate_result(&format!("c{}x{}", k, j), *c));
        }
    }
    let results = TestResults::from_raw(RawTestResults { crates });
    let s = results.summary;
    assert_eq!(s.total, 91);
    assert_eq!(s.regressed, 1);
    assert_eq!(s.fixed, 2);
    assert_eq!(s.skipped, 3);
    assert_eq!(s.unknown, 4);
    assert_eq!(s.errors, 5);
    assert_eq!(s.broken, 6);
    assert_eq!(s.prepare_fail, 7);
    assert_eq!(s.same_build_fail, 8);
    assert_eq!(s.same_test_fail, 9);
    assert_eq!(s.same_test_skipped, 10);
    assert_eq!(s.same_test_pass, 11);
    assert_eq!(s.spurious_regressed, 12);
    assert_eq!(s.spurious_fixed, 13);
    assert_eq!(counts(&s).iter().sum::<usize>(), s.total);
    for (k, c) in all.iter().enumerate() {
        assert_eq!(results.categories.get(c).unwrap().len(), k + 1);
    }
}

fn counts(s: &Summary) -> Vec<usize> {
    vec![
        s.regressed,
        s.fixed,
        s.broken,
        s.same_build_fail,
        s.same_test_fail,
        s.same_test_pass,
        s.same_test_skipped,
        s.skipped,
        s.unknown,
        s.errors,
        s.prepare_fail,
        s.spurious_regressed,
        s.spurious_fixed,
    ]
}

#[test]
fn comparison_table_rows() {
    type C = Comparison;
    type T = TestResult;
    let unknown = || FailureReason::Unknown;
    let rows: Vec<(Option<T>, Option<T>, C)> = vec![
        (None, Some(T::TestPass), C::Unknown),
        (Some(T::TestPass), None, C::Unknown),
        (Some(T::TestFail(unknown())), Some(T::TestFail(FailureReason::OOM)), C::SameTestFail),
        (Some(T::TestSkipped), Some(T::TestSkipped), C::SameTestSkipped),
        (Some(T::BrokenCrate(BrokenReason::Yanked)), Some(T::TestPass), C::Broken),
        (Some(T::Error), Some(T::BrokenCrate(BrokenReason::Unknown)), C::Broken),
        (Some(T::PrepareFail(unknown())), Some(T::Error), C::PrepareFail),
        (Some(T::TestPass), Some(T::PrepareFail(unknown())), C::PrepareFail),
        (Some(T::Error), Some(T::TestPass), C::Error),
        (Some(T::Skipped), Some(T::Error), C::Error),
        (Some(T::TestPass), Some(T::TestFail(unknown())), C::Regressed),
        (Some(T::TestFail(unknown())), Some(T::TestPass), C::Fixed),
        (Some(T::Skipped), Some(T::TestPass), C::Skipped),
        (Some(T::BuildFail(unknown())), Some(T::Skipped), C::Skipped),
        (Some(T::BuildFail(unknown())), Some(T::TestFail(unknown())), C::Unknown),
        (Some(T::TestSkipped), Some(T::TestPass), C::Unknown),
        (Some(T::TestPass), Some(T::TestSkipped), C::Unknown),
    ];
    for (start, end, expected) in rows {
        assert_eq!(compare_results(&start, &end), expected, "{:?} {:?}", start, end);
    }
}

#[test]
fn categories_keep_order_and_counts() {
    let raw = RawTestResults {
        crates: vec![
            crate_result("a", Comparison::Regressed),
            crate_result("b", Comparison::SameTestPass),
            crate_result("c", Comparison::Regressed),
            crate_result("d", Comparison::PrepareFail),
            crate_result("e", Comparison::Error),
        ],
    };
    let results = TestResults::from_raw(raw);
    assert_eq!(results.total(), 5);
    let regressed = results.get_category(&Comparison::Regressed).unwrap();
    assert_eq!(regressed.len(), 2);
    assert_eq!(regressed[0].name, "a");
    assert_eq!(regressed[1].name, "c");
    assert!(results.get_category(&Comparison::Fixed).is_none());
    assert_eq!(results.get_category(&Comparison::PrepareFail).unwrap().len(), 1);
    assert_eq!(results.summary.regressed, 2);
    assert_eq!(results.summary.same_test_pass, 1);
    assert_eq!(results.summary.errors, 1);
    assert_eq!(results.summary.fixed, 0);
    let empty = TestResults::from_raw(RawTestResults { crates: vec![] });
    assert_eq!(empty.summary, Summary::new());
}

#[test]
fn comparison_names_round_trip() {
    for c in [
        Comparison::Regressed,
        Comparison::Fixed,
        Comparison::Skipped,
        Comparison::Unknown,
        Comparison::Error,
        Comparison::Broken,
        Comparison::PrepareFail,
        Comparison::SameBuildFail,
        Comparison::SameTestFail,
        Comparison::SameTestSkipped,
        Comparison::SameTestPass,
        Comparison::SpuriousRegressed,
        Comparison::SpuriousFixed,
    ] {
        assert_eq!(Comparison::from_str(c.to_str()), Ok(c));
    }
}

#[test]
fn test_create_archive() {
    let result = crater_ohos::report::archives::create_archive("work/source", "work/output.tar.gz");
    assert!(result.is_ok());
}

#[test]
fn test_extract_archive() {
    let result = crater_ohos::report::archives::extract_archive("work/archive.tar.gz", "work/dest");
    assert!(result.is_ok());
}
