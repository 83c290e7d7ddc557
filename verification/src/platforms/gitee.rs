//! Gitee.

use crate::experiments::{PlatformIssue, PlatformIssueView};
use crate::model::opt_view;
use crate::platforms::{
    check_shared_secret, fixed_issue, is_shared_secret, make_fixed_issue, PlatformAdapter,
    PlatformConfig, PlatformType, PlatformTypeView,
};
use crate::{Error, Fallible};
use vstd::prelude::*;

verus! {

/// The adapter for Gitee.
pub struct GiteeAdapter {
    config: PlatformConfig,
}

impl GiteeAdapter {
    pub closed spec fn config(&self) -> PlatformConfig {
        self.config
    }

    pub fn new(config: PlatformConfig) -> (r: Self)
        ensures
            r.config() == config,
    {
        GiteeAdapter { config }
    }
}

impl PlatformAdapter for GiteeAdapter {
    fn platform_type(&self) -> (r: PlatformType)
        ensures
            r@ == PlatformTypeView::Gitee,
    {
        PlatformType::Gitee
    }

    /// The reference to issue `number` of `repo`.
    fn get_issue(&self, repo: &str, number: &str) -> (r: Fallible<PlatformIssue>)
        ensures
            r is Ok,
            r.unwrap()@ == fixed_issue(
                "gitee"@,
                "https://gitee.com/api/v5/repos/"@,
                "https://gitee.com/"@,
                repo@,
                number@,
            ),
    {
        Ok(
            make_fixed_issue(
                "gitee",
                "https://gitee.com/api/v5/repos/",
                "https://gitee.com/",
                repo,
                number,
            ),
        )
    }

    /// Whether `signature` is the shared secret.
    fn verify_webhook_signature(&self, payload: &[u8], signature: &str) -> (r: bool)
        ensures
            r == is_shared_secret(opt_view(self.config().webhook_secret), signature@),
    {
        check_shared_secret(&self.config.webhook_secret, signature)
    }
}

} // verus!
