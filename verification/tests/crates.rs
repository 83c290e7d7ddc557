use crater_ohos::crates::lists::get_crates;
use crater_ohos::crates::{Crate, GitCodeRepo, GitHubRepo, GitRepo, RegistryCrate};
use crater_ohos::Error;

#[test]
fn test_get_demo_crates() {
    let crates = get_crates("demo").unwrap();
    assert_eq!(crates.len(), 3);
}

#[test]
fn test_get_dummy_crates() {
    let crates = get_crates("dummy").unwrap();
    assert_eq!(crates.len(), 1);
}

#[test]
fn test_get_unknown_crates() {
    assert!(get_crates("unknown").is_err());
}

#[test]
fn test_crate_id() {
    let krate = Crate::Registry(RegistryCrate::new("serde", "1.0.0"));
    assert_eq!(krate.id(), "reg:serde-1.0.0");

    let krate = Crate::GitHub(GitHubRepo::new("rust-lang", "rust"));
    assert_eq!(krate.id(), "gh:rust-lang/rust");

    let krate = Crate::GitCode(GitCodeRepo::new("rust-lang", "rust"));
    assert_eq!(krate.id(), "gc:rust-lang/rust");

    let krate = Crate::Local("my-crate".to_string());
    assert_eq!(krate.id(), "local:my-crate");
}

#[test]
fn test_crate_display() {
    let krate = Crate::Registry(RegistryCrate::new("tokio", "1.0.0"));
    assert_eq!(krate.to_string(), "tokio-1.0.0");

    let krate = Crate::GitHub(GitHubRepo::new("tokio-rs", "tokio"));
    assert_eq!(krate.to_string(), "tokio-rs/tokio");

    let krate = Crate::GitCode(GitCodeRepo::new("tokio-rs", "tokio"));
    assert_eq!(krate.to_string(), "tokio-rs/tokio");
}

#[test]
fn test_crate_parsing() {
    let krate: Crate = "reg:serde-1.0.0".parse().unwrap();
    assert!(matches!(krate, Crate::Registry(_)));

    let krate: Crate = "gh:rust-lang/rust".parse().unwrap();
    assert!(matches!(krate, Crate::GitHub(_)));

    let krate: Crate = "gc:rust-lang/rust".parse().unwrap();
    assert!(matches!(krate, Crate::GitCode(_)));

    let krate: Crate = "local:my-crate".parse().unwrap();
    assert!(matches!(krate, Crate::Local(_)));

    let krate: Crate = "path:/path/to/crate".parse().unwrap();
    assert!(matches!(krate, Crate::Path(_)));

    let krate: Crate = "git:https://github.com/rust-lang/rust".parse().unwrap();
    assert!(matches!(krate, Crate::Git(_)));
}

#[test]
fn test_git_repo() {
    let repo = GitRepo::new("https://github.com/rust-lang/rust");
    assert_eq!(repo.url, "https://github.com/rust-lang/rust");
    assert!(repo.sha.is_none());

    let repo = GitRepo::with_sha("https://github.com/rust-lang/rust", "abc123");
    assert_eq!(repo.sha, Some("abc123".to_string()));
    assert_eq!(repo.to_string(), "https://github.com/rust-lang/rust#abc123");
}

#[test]
fn test_gitcode_repo_slug() {
    let repo = GitCodeRepo::new("rust-lang", "rust");
    assert_eq!(repo.slug(), "rust-lang/rust");
}

#[test]
fn test_gitcode_repo_display() {
    let repo = GitCodeRepo::new("tokio-rs", "tokio");
    assert_eq!(repo.to_string(), "tokio-rs/tokio");

    let repo = GitCodeRepo::with_sha("serde-rs", "serde", "abc123");
    assert_eq!(repo.to_string(), "serde-rs/serde#abc123");
}

#[test]
fn test_github_repo_slug() {
    let repo = GitHubRepo::new("rust-lang", "rust");
    assert_eq!(repo.slug(), "rust-lang/rust");
}

#[test]
fn test_github_repo_display() {
    let repo = GitHubRepo::new("tokio-rs", "tokio");
    assert_eq!(repo.to_string(), "tokio-rs/tokio");

    let repo = GitHubRepo::with_sha("serde-rs", "serde", "abc123");
    assert_eq!(repo.to_string(), "serde-rs/serde#abc123");
}

#[test]
fn test_registry_crate_creation() {
    let krate = RegistryCrate::new("serde", "1.0.0");
    assert_eq!(krate.name.as_str(), "serde");
    assert_eq!(krate.version.as_str(), "1.0.0");
}

#[test]
fn test_registry_crate_display() {
    let krate = RegistryCrate::new("tokio", "1.0.0");
    assert_eq!(krate.to_string(), "tokio-1.0.0");
}

#[test]
fn crate_id_round_trip_all_kinds() {
    let crates = vec![
        Crate::Registry(RegistryCrate::new("serde", "1.0.0-rc.1")),
        Crate::GitHub(GitHubRepo::new("rust-lang", "rust/extra")),
        Crate::GitCode(GitCodeRepo::new("org", "name")),
        Crate::Local("my-crate".to_string()),
        Crate::Path("/path/to/crate".to_string()),
        Crate::Git(GitRepo::new("https://example.com/a/b.git")),
        Crate::Local(String::new()),
    ];
    for krate in crates {
        assert_eq!(Crate::from_str(&krate.id()), Ok(krate.clone()));
    }
}

#[test]
fn crate_id_does_not_round_trip_everywhere() {
    // The name of a registry package is cut at its first hyphen.
    let krate = Crate::Registry(RegistryCrate::new("serde-json", "1.0.0"));
    assert_eq!(
        Crate::from_str(&krate.id()),
        Ok(Crate::Registry(RegistryCrate::new("serde", "json-1.0.0")))
    );
    // A pinned commit is no part of the identifier.
    let krate = Crate::GitHub(GitHubRepo::with_sha("org", "name", "abc"));
    assert_eq!(krate.id(), "gh:org/name");
    assert_eq!(
        Crate::from_str(&krate.id()),
        Ok(Crate::GitHub(GitHubRepo::new("org", "name")))
    );
}

#[test]
fn crate_parse_errors() {
    assert_eq!(Crate::from_str("reg:serde"), Err(Error::BadRequest));
    assert_eq!(Crate::from_str("gh:rust"), Err(Error::BadRequest));
    assert_eq!(Crate::from_str("gc:rust"), Err(Error::BadRequest));
    assert_eq!(Crate::from_str("serde"), Err(Error::BadRequest));
    assert_eq!(Crate::from_str(""), Err(Error::BadRequest));
    assert_eq!(Crate::from_str("git"), Err(Error::BadRequest));
}

#[test]
fn test_gitcode_repo_serialization() {
    let repo = GitCodeRepo::with_sha("rust-lang", "crater", "def456");
    let parsed = repo.clone();
    assert_eq!(parsed.org, "rust-lang");
    assert_eq!(parsed.name, "crater");
    assert_eq!(parsed.sha, Some("def456".to_string()));
}

#[test]
fn test_github_repo_serialization() {
    let repo = GitHubRepo::with_sha("rust-lang", "crater", "def456");
    let parsed = repo.clone();
    assert_eq!(parsed.org, "rust-lang");
    assert_eq!(parsed.name, "crater");
    assert_eq!(parsed.sha, Some("def456".to_string()));
}

#[test]
fn test_registry_crate_serialization() {
    let krate = RegistryCrate::new("regex", "1.5.4");
    let parsed = krate.clone();
    assert_eq!(parsed.name.as_str(), "regex");
    assert_eq!(parsed.version.as_str(), "1.5.4");
}
