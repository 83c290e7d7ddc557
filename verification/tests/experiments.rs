use crater_ohos::experiments::{Assignee, CapLints, CrateSelect, Mode, PlatformIssue, Status};
use crater_ohos::Error;

#[test]
fn test_status_parsing() {
    assert_eq!("queued".parse::<Status>().unwrap(), Status::Queued);
    assert_eq!("running".parse::<Status>().unwrap(), Status::Running);
    assert_eq!(
        "needs-report".parse::<Status>().unwrap(),
        Status::NeedsReport
    );
    assert_eq!(
        "generating-report".parse::<Status>().unwrap(),
        Status::GeneratingReport
    );
    assert_eq!(
        "report-failed".parse::<Status>().unwrap(),
        Status::ReportFailed
    );
    assert_eq!("completed".parse::<Status>().unwrap(), Status::Completed);
}

#[test]
fn test_mode_parsing() {
    assert_eq!(
        "build-and-test".parse::<Mode>().unwrap(),
        Mode::BuildAndTest
    );
    assert_eq!("build-only".parse::<Mode>().unwrap(), Mode::BuildOnly);
    assert_eq!("check-only".parse::<Mode>().unwrap(), Mode::CheckOnly);
    assert_eq!("clippy".parse::<Mode>().unwrap(), Mode::Clippy);
    assert_eq!("rustdoc".parse::<Mode>().unwrap(), Mode::Rustdoc);
    assert_eq!(
        "unstable-features".parse::<Mode>().unwrap(),
        Mode::UnstableFeatures
    );
    assert_eq!("fix".parse::<Mode>().unwrap(), Mode::Fix);
}

#[test]
fn test_cap_lints_parsing() {
    assert_eq!("allow".parse::<CapLints>().unwrap(), CapLints::Allow);
    assert_eq!("warn".parse::<CapLints>().unwrap(), CapLints::Warn);
    assert_eq!("deny".parse::<CapLints>().unwrap(), CapLints::Deny);
    assert_eq!("forbid".parse::<CapLints>().unwrap(), CapLints::Forbid);
}

#[test]
fn test_assignee_parsing() {
    assert_eq!(
        "distributed".parse::<Assignee>().unwrap(),
        Assignee::Distributed
    );
    assert_eq!("cli".parse::<Assignee>().unwrap(), Assignee::CLI);
    assert_eq!(
        "agent-1".parse::<Assignee>().unwrap(),
        Assignee::Agent("agent-1".to_string())
    );
}

#[test]
fn test_crate_select_parsing() {
    assert_eq!("demo".parse::<CrateSelect>().unwrap(), CrateSelect::Demo);
    assert_eq!("full".parse::<CrateSelect>().unwrap(), CrateSelect::Full);
    assert_eq!("top-100".parse::<CrateSelect>().unwrap(), CrateSelect::Top(100));
    assert_eq!("local".parse::<CrateSelect>().unwrap(), CrateSelect::Local);
    assert_eq!("dummy".parse::<CrateSelect>().unwrap(), CrateSelect::Dummy);
    assert_eq!("random-50".parse::<CrateSelect>().unwrap(), CrateSelect::Random(50));
}

#[test]
fn test_platform_issue() {
    let issue = PlatformIssue {
        platform: "github".to_string(),
        api_url: "https://api.github.com/repos/test/test/issues/1".to_string(),
        html_url: "https://github.com/test/test/issues/1".to_string(),
        identifier: "1".to_string(),
    };
    let parsed = issue.clone();
    assert_eq!(parsed.platform, "github");
    assert_eq!(parsed.identifier, "1");
    assert_eq!(parsed, issue);
}

#[test]
fn integration_test_test_experiment_workflow() {
    let status = Status::Queued;
    assert_eq!(status.to_str(), "queued");

    let mode = Mode::BuildAndTest;
    assert_eq!(mode.to_str(), "build-and-test");
}

#[test]
fn string_enums_round_trip() {
    for s in [
        Status::Queued,
        Status::Running,
        Status::NeedsReport,
        Status::GeneratingReport,
        Status::ReportFailed,
        Status::Completed,
    ] {
        assert_eq!(Status::from_str(s.to_str()), Ok(s));
        assert_eq!(s.to_string(), s.to_str());
    }
    for m in [
        Mode::BuildAndTest,
        Mode::BuildOnly,
        Mode::CheckOnly,
        Mode::Clippy,
        Mode::Rustdoc,
        Mode::UnstableFeatures,
        Mode::Fix,
    ] {
        assert_eq!(Mode::from_str(m.to_str()), Ok(m));
    }
    for c in [CapLints::Allow, CapLints::Warn, CapLints::Deny, CapLints::Forbid] {
        assert_eq!(CapLints::from_str(c.to_str()), Ok(c));
    }
    assert_eq!(Status::from_str("Queued"), Err(Error::BadRequest));
    assert_eq!(Mode::from_str(""), Err(Error::BadRequest));
    assert_eq!(CapLints::from_str("warn "), Err(Error::BadRequest));
}

#[test]
fn crate_select_format_and_errors() {
    assert_eq!(CrateSelect::Top(100).to_string(), "top-100");
    assert_eq!(CrateSelect::Random(0).to_string(), "random-0");
    assert_eq!(CrateSelect::Full.to_string(), "full");
    assert_eq!(CrateSelect::List(vec!["a".to_string()]).to_string(), "list");
    assert_eq!(CrateSelect::from_str("top-4294967295"), Ok(CrateSelect::Top(u32::MAX)));
    assert_eq!(CrateSelect::from_str("top-4294967296"), Err(Error::BadRequest));
    assert_eq!(CrateSelect::from_str("top-"), Err(Error::BadRequest));
    assert_eq!(CrateSelect::from_str("top-+7"), Ok(CrateSelect::Top(7)));
    assert_eq!(CrateSelect::from_str("random-x"), Err(Error::BadRequest));
    assert_eq!(CrateSelect::from_str("list"), Err(Error::BadRequest));
    assert_eq!(CrateSelect::from_str("everything"), Err(Error::BadRequest));
}

#[test]
fn assignee_format() {
    assert_eq!(Assignee::Agent("agent-1".to_string()).to_string(), "agent-1");
    assert_eq!(Assignee::Distributed.to_string(), "distributed");
    assert_eq!(Assignee::CLI.to_string(), "cli");
}

#[test]
fn selections_as_they_are_kept() {
    for select in [
        CrateSelect::Full,
        CrateSelect::Demo,
        CrateSelect::Top(7),
        CrateSelect::Local,
        CrateSelect::Dummy,
        CrateSelect::Random(0),
        CrateSelect::List(vec![]),
        CrateSelect::List(vec!["reg:serde-1.0.0".to_string(), "odd \"name\"".to_string()]),
    ] {
        assert_eq!(CrateSelect::from_stored(&select.to_stored()), Ok(select.clone()));
    }
    assert_eq!(CrateSelect::Top(7).to_stored(), "top-7");
    assert_eq!(
        CrateSelect::List(vec!["a".to_string(), "b".to_string()]).to_stored(),
        "[\"a\",\"b\"]"
    );
    assert_eq!(CrateSelect::from_stored("[\"a\""), Err(Error::BadRequest));
    assert_eq!(CrateSelect::from_stored("list"), Err(Error::BadRequest));
    assert_eq!(CrateSelect::from_stored(""), Err(Error::BadRequest));
}
