//! The trackers that experiments are asked for on: what each is called,
//! how a reference to one of its issues is made, and how it signs what it
//! sends.

pub mod gitcode;
pub mod gitee;
pub mod github;
pub mod gitlab;

use crate::experiments::{PlatformIssue, PlatformIssueView};
use crate::model::{clone_opt_string, opt_view};
use crate::platforms::gitcode::GitCodeAdapter;
use crate::platforms::gitee::GiteeAdapter;
use crate::platforms::github::GitHubAdapter;
use crate::platforms::gitlab::GitLabAdapter;
use crate::{Error, Fallible};
use vstd::prelude::*;

verus! {

/// A tracker.
#[derive(Debug, PartialEq, Eq, Hash)]
pub enum PlatformType {
    GitHub,
    Gitee,
    GitLab,
    GitCode,
    /// A tracker that is none of the others, by its tag.
    Custom(String),
}

pub enum PlatformTypeView {
    GitHub,
    Gitee,
    GitLab,
    GitCode,
    Custom(Seq<char>),
}

impl View for PlatformType {
    type V = PlatformTypeView;

    open spec fn view(&self) -> PlatformTypeView {
        match *self {
            PlatformType::GitHub => PlatformTypeView::GitHub,
            PlatformType::Gitee => PlatformTypeView::Gitee,
            PlatformType::GitLab => PlatformTypeView::GitLab,
            PlatformType::GitCode => PlatformTypeView::GitCode,
            PlatformType::Custom(s) => PlatformTypeView::Custom(s@),
        }
    }
}

impl Clone for PlatformType {
    fn clone(&self) -> (r: Self)
        ensures
            r@ == self@,
    {
        match self {
            PlatformType::GitHub => PlatformType::GitHub,
            PlatformType::Gitee => PlatformType::Gitee,
            PlatformType::GitLab => PlatformType::GitLab,
            PlatformType::GitCode => PlatformType::GitCode,
            PlatformType::Custom(s) => PlatformType::Custom(s.clone()),
        }
    }
}

impl PlatformTypeView {
    /// The tag of the tracker.
    pub open spec fn tag(self) -> Seq<char> {
        match self {
            PlatformTypeView::GitHub => "github"@,
            PlatformTypeView::Gitee => "gitee"@,
            PlatformTypeView::GitLab => "gitlab"@,
            PlatformTypeView::GitCode => "gitcode"@,
            PlatformTypeView::Custom(s) => s,
        }
    }
}

impl PlatformType {
    /// The tag of the tracker.
    pub fn as_str(&self) -> (r: &str)
        ensures
            r@ == self@.tag(),
    {
        match self {
            PlatformType::GitHub => "github",
            PlatformType::Gitee => "gitee",
            PlatformType::GitLab => "gitlab",
            PlatformType::GitCode => "gitcode",
            PlatformType::Custom(s) => s.as_str(),
        }
    }
}

/// A user of a tracker.
#[derive(Debug, PartialEq, Eq)]
pub struct PlatformUser {
    pub id: String,
    pub username: String,
    pub display_name: Option<String>,
    pub email: Option<String>,
    pub avatar_url: Option<String>,
}

/// A repository of a tracker.
#[derive(Debug, PartialEq, Eq)]
pub struct PlatformRepo {
    pub id: String,
    pub owner: String,
    pub name: String,
    pub full_name: String,
    pub clone_url: String,
    pub default_branch: String,
}

/// A comment on an issue of a tracker.
#[derive(Debug, PartialEq, Eq)]
pub struct PlatformComment {
    pub id: String,
    pub body: String,
    pub author: PlatformUser,
    pub created_at: String,
}

/// How a tracker is reached, and the secret it shares with this service.
#[derive(Debug, PartialEq, Eq)]
pub struct PlatformConfig {
    pub api_base_url: String,
    pub token: Option<String>,
    pub webhook_secret: Option<String>,
}

pub struct PlatformConfigView {
    pub api_base_url: Seq<char>,
    pub token: Option<Seq<char>>,
    pub webhook_secret: Option<Seq<char>>,
}

impl View for PlatformConfig {
    type V = PlatformConfigView;

    open spec fn view(&self) -> PlatformConfigView {
        PlatformConfigView {
            api_base_url: self.api_base_url@,
            token: opt_view(self.token),
            webhook_secret: opt_view(self.webhook_secret),
        }
    }
}

impl Clone for PlatformConfig {
    fn clone(&self) -> (r: Self)
        ensures
            r@ == self@,
    {
        PlatformConfig {
            api_base_url: self.api_base_url.clone(),
            token: clone_opt_string(&self.token),
            webhook_secret: clone_opt_string(&self.webhook_secret),
        }
    }
}

/// What this service asks of a tracker: its name, a reference to one of
/// its issues, made without asking the tracker, and whether a signature
/// that came with a payload is the tracker's.
pub trait PlatformAdapter {
    fn platform_type(&self) -> PlatformType;

    fn get_issue(&self, repo: &str, number: &str) -> Fallible<PlatformIssue>;

    fn verify_webhook_signature(&self, payload: &[u8], signature: &str) -> bool;
}

/// Whether `signature` is the shared secret itself. Without a secret,
/// nothing is.
pub open spec fn is_shared_secret(secret: Option<Seq<char>>, signature: Seq<char>) -> bool {
    match secret {
        Some(s) => signature == s,
        None => false,
    }
}

/// Whether `signature` is the shared secret itself, found without giving
/// away where the two differ.
pub fn check_shared_secret(secret: &Option<String>, signature: &str) -> (r: bool)
    ensures
        r == is_shared_secret(opt_view(*secret), signature@),
{
    match secret {
        Some(s) => crate::text::constant_time_str_eq(signature, s.as_str()),
        None => false,
    }
}

/// The reference to issue `number` of `repo` on a tracker of the GitLab
/// kind reached at `base`: the address for programs under the base
/// address, the address for people under the base address without its
/// `/api/v4`.
pub open spec fn gitlab_style_issue(
    platform: Seq<char>,
    base: Seq<char>,
    repo: Seq<char>,
    number: Seq<char>,
) -> PlatformIssueView {
    PlatformIssueView {
        platform,
        api_url: base + "/projects/"@ + repo + "/issues/"@ + number,
        html_url: crate::text::without_all(base, "/api/v4"@) + "/"@ + repo + "/-/issues/"@ + number,
        identifier: number,
    }
}

/// The reference to an issue on a tracker of the GitLab kind.
pub fn make_gitlab_style_issue(platform: &str, base: &str, repo: &str, number: &str) -> (r:
    PlatformIssue)
    ensures
        r@ == gitlab_style_issue(platform@, base@, repo@, number@),
{
    let mut api_url = base.to_owned();
    api_url.append("/projects/");
    api_url.append(repo);
    api_url.append("/issues/");
    api_url.append(number);
    let mut html_url = crate::text::remove_all(base, "/api/v4");
    html_url.append("/");
    html_url.append(repo);
    html_url.append("/-/issues/");
    html_url.append(number);
    PlatformIssue {
        platform: platform.to_owned(),
        api_url,
        html_url,
        identifier: number.to_owned(),
    }
}

/// The reference to issue `number` of `repo` on a tracker with fixed
/// addresses.
pub open spec fn fixed_issue(
    platform: Seq<char>,
    api_prefix: Seq<char>,
    html_prefix: Seq<char>,
    repo: Seq<char>,
    number: Seq<char>,
) -> PlatformIssueView {
    PlatformIssueView {
        platform,
        api_url: api_prefix + repo + "/issues/"@ + number,
        html_url: html_prefix + repo + "/issues/"@ + number,
        identifier: number,
    }
}

/// The reference to an issue on a tracker with fixed addresses.
pub fn make_fixed_issue(
    platform: &str,
    api_prefix: &str,
    html_prefix: &str,
    repo: &str,
    number: &str,
) -> (r: PlatformIssue)
    ensures
        r@ == fixed_issue(platform@, api_prefix@, html_prefix@, repo@, number@),
{
    let mut api_url = api_prefix.to_owned();
    api_url.append(repo);
    api_url.append("/issues/");
    api_url.append(number);
    let mut html_url = html_prefix.to_owned();
    html_url.append(repo);
    html_url.append("/issues/");
    html_url.append(number);
    PlatformIssue {
        platform: platform.to_owned(),
        api_url,
        html_url,
        identifier: number.to_owned(),
    }
}

/// One of the trackers that this service knows.
pub enum AnyAdapter {
    GitHub(GitHubAdapter),
    Gitee(GiteeAdapter),
    GitLab(GitLabAdapter),
    GitCode(GitCodeAdapter),
}

impl AnyAdapter {
    /// The tracker that the adapter speaks to.
    pub open spec fn spec_platform_type(&self) -> PlatformTypeView {
        match *self {
            AnyAdapter::GitHub(_) => PlatformTypeView::GitHub,
            AnyAdapter::Gitee(_) => PlatformTypeView::Gitee,
            AnyAdapter::GitLab(_) => PlatformTypeView::GitLab,
            AnyAdapter::GitCode(_) => PlatformTypeView::GitCode,
        }
    }

    /// The settings of the adapter.
    pub open spec fn config(&self) -> PlatformConfig {
        match *self {
            AnyAdapter::GitHub(a) => a.config(),
            AnyAdapter::Gitee(a) => a.config(),
            AnyAdapter::GitLab(a) => a.config(),
            AnyAdapter::GitCode(a) => a.config(),
        }
    }

    /// The reference that the adapter makes to issue `number` of `repo`.
    pub open spec fn spec_issue(&self, repo: Seq<char>, number: Seq<char>) -> PlatformIssueView {
        match *self {
            AnyAdapter::GitHub(_) => fixed_issue(
                "github"@,
                "https://api.github.com/repos/"@,
                "https://github.com/"@,
                repo,
                number,
            ),
            AnyAdapter::Gitee(_) => fixed_issue(
                "gitee"@,
                "https://gitee.com/api/v5/repos/"@,
                "https://gitee.com/"@,
                repo,
                number,
            ),
            AnyAdapter::GitLab(a) => gitlab_style_issue(
                "gitlab"@,
                a.config().api_base_url@,
                repo,
                number,
            ),
            AnyAdapter::GitCode(a) => gitlab_style_issue(
                "gitcode"@,
                a.config().api_base_url@,
                repo,
                number,
            ),
        }
    }

    /// Whether the adapter takes `signature` for the tracker's signature
    /// of `payload`: GitHub signs the payload with the shared secret, the
    /// others send the shared secret itself.
    pub open spec fn spec_verifies(&self, payload: Seq<u8>, signature: Seq<char>) -> bool {
        match *self {
            AnyAdapter::GitHub(a) => crate::platforms::github::is_github_signature(
                opt_view(a.config().webhook_secret),
                payload,
                signature,
            ),
            _ => is_shared_secret(opt_view(self.config().webhook_secret), signature),
        }
    }
}

impl PlatformAdapter for AnyAdapter {
    fn platform_type(&self) -> (r: PlatformType)
        ensures
            r@ == self.spec_platform_type(),
    {
        match self {
            AnyAdapter::GitHub(a) => a.platform_type(),
            AnyAdapter::Gitee(a) => a.platform_type(),
            AnyAdapter::GitLab(a) => a.platform_type(),
            AnyAdapter::GitCode(a) => a.platform_type(),
        }
    }

    fn get_issue(&self, repo: &str, number: &str) -> (r: Fallible<PlatformIssue>)
        ensures
            r is Ok,
            r.unwrap()@ == self.spec_issue(repo@, number@),
    {
        match self {
            AnyAdapter::GitHub(a) => a.get_issue(repo, number),
            AnyAdapter::Gitee(a) => a.get_issue(repo, number),
            AnyAdapter::GitLab(a) => a.get_issue(repo, number),
            AnyAdapter::GitCode(a) => a.get_issue(repo, number),
        }
    }

    fn verify_webhook_signature(&self, payload: &[u8], signature: &str) -> (r: bool)
        ensures
            r == self.spec_verifies(payload@, signature@),
    {
        match self {
            AnyAdapter::GitHub(a) => a.verify_webhook_signature(payload, signature),
            AnyAdapter::Gitee(a) => a.verify_webhook_signature(payload, signature),
            AnyAdapter::GitLab(a) => a.verify_webhook_signature(payload, signature),
            AnyAdapter::GitCode(a) => a.verify_webhook_signature(payload, signature),
        }
    }
}

/// Makes the adapter for a tracker.
pub struct PlatformFactory;

impl PlatformFactory {
    /// The adapter for `platform_type`. GitCode is spoken to as GitLab is;
    /// a tracker that is none of the four is spoken to as GitHub is.
    pub fn create(platform_type: PlatformType, config: PlatformConfig) -> (r: AnyAdapter)
        ensures
            match platform_type {
                PlatformType::GitHub => r matches AnyAdapter::GitHub(a) && a.config() == config,
                PlatformType::Gitee => r matches AnyAdapter::Gitee(a) && a.config() == config,
                PlatformType::GitLab => r matches AnyAdapter::GitLab(a) && a.config() == config,
                PlatformType::GitCode => r matches AnyAdapter::GitLab(a) && a.config() == config,
                PlatformType::Custom(_) => r matches AnyAdapter::GitHub(a) && a.config() == config,
            },
    {
        match platform_type {
            PlatformType::GitHub => AnyAdapter::GitHub(GitHubAdapter::new(config)),
            PlatformType::Gitee => AnyAdapter::Gitee(GiteeAdapter::new(config)),
            PlatformType::GitLab => AnyAdapter::GitLab(GitLabAdapter::new(config)),
            PlatformType::GitCode => AnyAdapter::GitLab(GitLabAdapter::new(config)),
            _ => AnyAdapter::GitHub(GitHubAdapter::new(config)),
        }
    }
}

} // verus!
