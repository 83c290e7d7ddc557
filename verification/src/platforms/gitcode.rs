//! GitCode: spoken to as GitLab is.

use crate::experiments::{PlatformIssue, PlatformIssueView};
use crate::model::opt_view;
use crate::platforms::{
    check_shared_secret, gitlab_style_issue, is_shared_secret, make_gitlab_style_issue,
    PlatformAdapter, PlatformConfig, PlatformType, PlatformTypeView,
};
use crate::{Error, Fallible};
use vstd::prelude::*;

verus! {

/// The adapter for GitCode.
pub struct GitCodeAdapter {
    config: PlatformConfig,
}

impl GitCodeAdapter {
    pub closed spec fn config(&self) -> PlatformConfig {
        self.config
    }

    pub fn new(config: PlatformConfig) -> (r: Self)
        ensures
            r.config() == config,
    {
        GitCodeAdapter { config }
    }
}

impl PlatformAdapter for GitCodeAdapter {
    fn platform_type(&self) -> (r: PlatformType)
        ensures
            r@ == PlatformTypeView::GitCode,
    {
        PlatformType::GitCode
    }

    /// The reference to issue `number` of `repo`.
    fn get_issue(&self, repo: &str, number: &str) -> (r: Fallible<PlatformIssue>)
        ensures
            r is Ok,
            r.unwrap()@ == gitlab_style_issue(
                "gitcode"@,
                self.config().api_base_url@,
                repo@,
                number@,
            ),
    {
        Ok(make_gitlab_style_issue("gitcode", self.config.api_base_url.as_str(), repo, number))
    }

    /// Whether `signature` is the shared secret.
    fn verify_webhook_signature(&self, payload: &[u8], signature: &str) -> (r: bool)
        ensures
            r == is_shared_secret(opt_view(self.config().webhook_secret), signature@),
    {
        check_shared_secret(&self.config.webhook_secret, signature)
    }
}

} // verus!
