use crater_ohos::toolchain::{CratePatch, RustwideToolchain, Toolchain};
use crater_ohos::Error;

#[test]
fn test_rustwide_toolchain_parsing() {
    assert_eq!(
        "stable".parse::<RustwideToolchain>().unwrap(),
        RustwideToolchain::Dist("stable".to_string())
    );
    assert_eq!(
        "beta".parse::<RustwideToolchain>().unwrap(),
        RustwideToolchain::Dist("beta".to_string())
    );
    assert_eq!(
        "nightly".parse::<RustwideToolchain>().unwrap(),
        RustwideToolchain::Dist("nightly".to_string())
    );
    assert_eq!(
        "master".parse::<RustwideToolchain>().unwrap(),
        RustwideToolchain::Master { sha: None }
    );
    assert_eq!(
        "master#abc123".parse::<RustwideToolchain>().unwrap(),
        RustwideToolchain::Master {
            sha: Some("abc123".to_string())
        }
    );
    assert_eq!(
        "try#abc123".parse::<RustwideToolchain>().unwrap(),
        RustwideToolchain::Try {
            sha: "abc123".to_string()
        }
    );
    assert_eq!(
        "ci#abc123".parse::<RustwideToolchain>().unwrap(),
        RustwideToolchain::CI {
            sha: "abc123".to_string(),
            alt: false
        }
    );
    assert_eq!(
        "ci-alt#abc123".parse::<RustwideToolchain>().unwrap(),
        RustwideToolchain::CI {
            sha: "abc123".to_string(),
            alt: true
        }
    );
}

#[test]
fn test_toolchain_display() {
    let tc = Toolchain {
        source: RustwideToolchain::Dist("stable".to_string()),
        target: None,
        rustflags: None,
        rustdocflags: None,
        cargoflags: None,
        ci_try: false,
        patches: vec![],
    };
    assert_eq!(tc.to_string(), "stable");

    let tc = Toolchain {
        source: RustwideToolchain::Dist("stable".to_string()),
        target: Some("x86_64-unknown-linux-gnu".to_string()),
        rustflags: None,
        rustdocflags: None,
        cargoflags: None,
        ci_try: false,
        patches: vec![],
    };
    assert_eq!(tc.to_string(), "stable (target: x86_64-unknown-linux-gnu)");
}

#[test]
fn rustwide_toolchain_round_trip() {
    let all = vec![
        RustwideToolchain::Dist("stable".to_string()),
        RustwideToolchain::Dist("1.70.0".to_string()),
        RustwideToolchain::Master { sha: None },
        RustwideToolchain::Master { sha: Some("abc#def".to_string()) },
        RustwideToolchain::Try { sha: "0123".to_string() },
        RustwideToolchain::CI { sha: "0123".to_string(), alt: false },
        RustwideToolchain::CI { sha: String::new(), alt: true },
    ];
    for t in all {
        assert_eq!(RustwideToolchain::from_str(&t.to_string()), Ok(t.clone()));
    }
}

#[test]
fn rustwide_toolchain_does_not_round_trip_everywhere() {
    // A released compiler called `master` reads back as the main branch.
    let t = RustwideToolchain::Dist("master".to_string());
    assert_eq!(
        RustwideToolchain::from_str(&t.to_string()),
        Ok(RustwideToolchain::Master { sha: None })
    );
    // A released compiler with `#` in its name reads back as a kind and a commit.
    let t = RustwideToolchain::Dist("try#1".to_string());
    assert_eq!(
        RustwideToolchain::from_str(&t.to_string()),
        Ok(RustwideToolchain::Try { sha: "1".to_string() })
    );
    let t = RustwideToolchain::Dist("nightly#1".to_string());
    assert_eq!(RustwideToolchain::from_str(&t.to_string()), Err(Error::BadRequest));
}

#[test]
fn toolchain_parse_and_format() {
    let tc = Toolchain::from_str("ci-alt#abc").unwrap();
    assert_eq!(
        tc.source,
        RustwideToolchain::CI { sha: "abc".to_string(), alt: true }
    );
    assert_eq!(tc.target, None);
    assert!(!tc.ci_try);
    assert!(tc.patches.is_empty());
    assert_eq!(Toolchain::from_str(&tc.to_string()), Ok(tc.clone()));
    assert_eq!(Toolchain::from_str("what#abc"), Err(Error::BadRequest));
    assert_eq!(tc.to_path_component(), "ci-alt#abc");

    let with_target = Toolchain {
        target: Some("aarch64-unknown-linux-ohos".to_string()),
        patches: vec![CratePatch {
            name: "libc".to_string(),
            repo: "https://example.com/libc".to_string(),
            branch: "ohos".to_string(),
        }],
        ..Toolchain::from_str("beta").unwrap()
    };
    assert_eq!(with_target.to_path_component(), "beta--aarch64-unknown-linux-ohos");
    assert_eq!(with_target.clone(), with_target);
}
