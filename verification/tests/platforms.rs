use crater_ohos::platforms::gitcode::GitCodeAdapter;
use crater_ohos::platforms::gitee::GiteeAdapter;
use crater_ohos::platforms::github::{signature_matches, GitHubAdapter};
use crater_ohos::platforms::gitlab::GitLabAdapter;
use crater_ohos::platforms::{
    AnyAdapter, PlatformAdapter, PlatformConfig, PlatformFactory, PlatformType,
};
use crater_ohos::utils::hex;
use hmac::{Hmac, Mac};
use sha2::Sha256;

fn config(base: &str, secret: Option<&str>) -> PlatformConfig {
    PlatformConfig {
        api_base_url: base.to_string(),
        token: None,
        webhook_secret: secret.map(|s| s.to_string()),
    }
}

#[test]
fn test_platform_type_serialization() {
    assert_eq!(PlatformType::GitHub.as_str(), "github");
    assert_eq!(PlatformType::Gitee.as_str(), "gitee");
    assert_eq!(PlatformType::GitLab.as_str(), "gitlab");
    assert_eq!(PlatformType::GitCode.as_str(), "gitcode");
}

#[test]
fn test_platform_factory() {
    let config = PlatformConfig {
        api_base_url: "https://api.github.com".to_string(),
        token: None,
        webhook_secret: None,
    };
    let adapter = PlatformFactory::create(PlatformType::GitHub, config);
    assert_eq!(adapter.platform_type(), PlatformType::GitHub);
}

#[test]
fn test_github_issue_url_generation() {
    let config = PlatformConfig {
        api_base_url: "https://api.github.com".to_string(),
        token: None,
        webhook_secret: None,
    };
    let adapter = GitHubAdapter::new(config);
    let issue = adapter.get_issue("rust-lang/rust", "12345").unwrap();
    assert_eq!(issue.platform, "github");
    assert!(issue.html_url.contains("github.com"));
    assert_eq!(issue.api_url, "https://api.github.com/repos/rust-lang/rust/issues/12345");
    assert_eq!(issue.html_url, "https://github.com/rust-lang/rust/issues/12345");
    assert_eq!(issue.identifier, "12345");
}

#[test]
fn test_gitcode_issue_url_generation() {
    let config = PlatformConfig {
        api_base_url: "https://gitcode.com/api/v4".to_string(),
        token: None,
        webhook_secret: None,
    };
    let adapter = GitCodeAdapter::new(config);
    let issue = adapter.get_issue("gitcode-org/project", "1").unwrap();
    assert_eq!(issue.platform, "gitcode");
    assert!(issue.html_url.contains("gitcode.com"));
    assert_eq!(issue.api_url, "https://gitcode.com/api/v4/projects/gitcode-org/project/issues/1");
    assert_eq!(issue.html_url, "https://gitcode.com/gitcode-org/project/-/issues/1");
}

#[test]
fn test_gitcode_webhook_verification() {
    let config = PlatformConfig {
        api_base_url: "https://gitcode.com/api/v4".to_string(),
        token: None,
        webhook_secret: Some("test-secret".to_string()),
    };
    let adapter = GitCodeAdapter::new(config);
    assert!(adapter.verify_webhook_signature(b"test", "test-secret"));
    assert!(!adapter.verify_webhook_signature(b"test", "wrong-secret"));
}

#[test]
fn test_gitee_issue_url_generation() {
    let config = PlatformConfig {
        api_base_url: "https://gitee.com/api/v5".to_string(),
        token: None,
        webhook_secret: None,
    };
    let adapter = GiteeAdapter::new(config);
    let issue = adapter.get_issue("openharmony/rust", "1").unwrap();
    assert_eq!(issue.platform, "gitee");
    assert!(issue.html_url.contains("gitee.com"));
    assert_eq!(issue.api_url, "https://gitee.com/api/v5/repos/openharmony/rust/issues/1");
}

#[test]
fn test_gitlab_issue_url_generation() {
    let config = PlatformConfig {
        api_base_url: "https://gitlab.com/api/v4".to_string(),
        token: None,
        webhook_secret: None,
    };
    let adapter = GitLabAdapter::new(config);
    let issue = adapter.get_issue("gitlab-org/gitlab", "1").unwrap();
    assert_eq!(issue.platform, "gitlab");
    assert!(issue.html_url.contains("gitlab.com"));
    assert_eq!(issue.html_url, "https://gitlab.com/gitlab-org/gitlab/-/issues/1");
}

#[test]
fn test_webhook_signature_verification() {
    let config = PlatformConfig {
        api_base_url: "https://api.github.com".to_string(),
        token: None,
        webhook_secret: Some("test-secret".to_string()),
    };
    let adapter = GitHubAdapter::new(config);

    let payload = b"test payload";
    let mut mac = Hmac::<Sha256>::new_from_slice(b"test-secret").unwrap();
    mac.update(payload);
    let signature = format!("sha256={}", hex::encode(&mac.finalize().into_bytes()));

    assert!(adapter.verify_webhook_signature(payload, &signature));
    assert!(!adapter.verify_webhook_signature(payload, "invalid"));
}

#[test]
fn github_signature_known_value() {
    // HMAC-SHA256 with key "key" of "The quick brown fox jumps over the lazy dog".
    let adapter = GitHubAdapter::new(config("https://api.github.com", Some("key")));
    let payload = b"The quick brown fox jumps over the lazy dog";
    let good = "sha256=f7bc83f430538424b13298e6aa6fb143ef4d59a14946175997479dbc2d1a3cd8";
    assert!(adapter.verify_webhook_signature(payload, good));
    // Not the payload itself, not the bare digest, not another payload.
    assert!(!adapter.verify_webhook_signature(payload, "The quick brown fox jumps over the lazy dog"));
    assert!(!adapter.verify_webhook_signature(
        payload,
        "f7bc83f430538424b13298e6aa6fb143ef4d59a14946175997479dbc2d1a3cd8"
    ));
    assert!(!adapter.verify_webhook_signature(b"other", good));
    assert!(!adapter.verify_webhook_signature(payload, &good.to_uppercase()));
    // Without a secret nothing verifies.
    let open = GitHubAdapter::new(config("https://api.github.com", None));
    assert!(!open.verify_webhook_signature(payload, good));
}

#[test]
fn signature_text_of_a_tag() {
    assert!(signature_matches(Some(vec![0xab, 0x01]), "sha256=ab01"));
    assert!(!signature_matches(Some(vec![0xab, 0x01]), "sha256=AB01"));
    assert!(!signature_matches(Some(vec![0xab, 0x01]), "ab01"));
    assert!(!signature_matches(None, "sha256="));
    assert!(signature_matches(Some(vec![]), "sha256="));
}

#[test]
fn shared_secret_adapters() {
    for adapter in [
        AnyAdapter::Gitee(GiteeAdapter::new(config("https://gitee.com/api/v5", Some("s3cret")))),
        AnyAdapter::GitLab(GitLabAdapter::new(config("https://gitlab.com/api/v4", Some("s3cret")))),
        AnyAdapter::GitCode(GitCodeAdapter::new(config("https://gitcode.com/api/v4", Some("s3cret")))),
    ] {
        assert!(adapter.verify_webhook_signature(b"anything", "s3cret"));
        assert!(!adapter.verify_webhook_signature(b"anything", "s3cre"));
        assert!(!adapter.verify_webhook_signature(b"anything", "s3cret "));
        assert!(!adapter.verify_webhook_signature(b"anything", "S3cret"));
        assert!(!adapter.verify_webhook_signature(b"anything", ""));
    }
    let none = GiteeAdapter::new(config("https://gitee.com/api/v5", None));
    assert!(!none.verify_webhook_signature(b"x", ""));
}

#[test]
fn factory_choices() {
    let c = || config("https://example.com/api/v4", None);
    assert_eq!(PlatformFactory::create(PlatformType::Gitee, c()).platform_type(), PlatformType::Gitee);
    assert_eq!(PlatformFactory::create(PlatformType::GitLab, c()).platform_type(), PlatformType::GitLab);
    // GitCode is spoken to as GitLab is; an unknown tracker as GitHub is.
    assert_eq!(PlatformFactory::create(PlatformType::GitCode, c()).platform_type(), PlatformType::GitLab);
    assert_eq!(
        PlatformFactory::create(PlatformType::Custom("forge".to_string()), c()).platform_type(),
        PlatformType::GitHub
    );
    assert_eq!(PlatformType::Custom("forge".to_string()).as_str(), "forge");
    assert_eq!(GitCodeAdapter::new(c()).platform_type(), PlatformType::GitCode);
}

#[test]
fn gitlab_html_address_drops_every_api_part() {
    let adapter = GitLabAdapter::new(config("https://x/api/v4/api/v4y", None));
    let issue = adapter.get_issue("a/b", "7").unwrap();
    assert_eq!(issue.html_url, "https://xy/a/b/-/issues/7");
    assert_eq!(issue.api_url, "https://x/api/v4/api/v4y/projects/a/b/issues/7");
}
