//! The settings of the service.

use crate::model::{clone_opt_string, clone_strings, opt_view, views};
use crate::utils::size::Size;
use vstd::prelude::*;

verus! {

/// The packages of the demonstration list, by where they come from.
#[derive(Debug, PartialEq, Eq)]
pub struct DemoCrates {
    pub crates: Vec<String>,
    pub github_repos: Vec<String>,
    pub local_crates: Vec<String>,
}

impl Default for DemoCrates {
    fn default() -> (r: Self)
        ensures
            r.crates@.len() == 0,
            r.github_repos@.len() == 0,
            r.local_crates@.len() == 0,
    {
        DemoCrates { crates: Vec::new(), github_repos: Vec::new(), local_crates: Vec::new() }
    }
}

impl Clone for DemoCrates {
    fn clone(&self) -> (r: Self)
        ensures
            views(r.crates@) == views(self.crates@),
            views(r.github_repos@) == views(self.github_repos@),
            views(r.local_crates@) == views(self.local_crates@),
    {
        DemoCrates {
            crates: clone_strings(&self.crates),
            github_repos: clone_strings(&self.github_repos),
            local_crates: clone_strings(&self.local_crates),
        }
    }
}

/// The limits of the sandbox in which packages are built.
#[derive(Debug, Clone, Copy, PartialEq, Eq, Structural)]
pub struct SandboxConfig {
    pub memory_limit: Size,
    pub build_log_max_size: Size,
    pub build_log_max_lines: u64,
}

/// Who may use the service.
#[derive(Debug, PartialEq, Eq)]
pub struct ACL {
    pub allowed_users: Vec<String>,
}

impl Clone for ACL {
    fn clone(&self) -> (r: Self)
        ensures
            views(r.allowed_users@) == views(self.allowed_users@),
    {
        ACL { allowed_users: clone_strings(&self.allowed_users) }
    }
}

/// How notices are sent. A setting that is not given has its default.
#[derive(Debug, Clone, Copy, PartialEq, Eq, Structural)]
pub struct CallbackConfig {
    /// The seconds to wait for an answer to one attempt.
    pub timeout_secs: Option<u64>,
    /// The number of attempts made after the first has failed.
    pub retry_count: Option<u32>,
}

/// The seconds to wait for an answer where none are set.
pub const DEFAULT_TIMEOUT_SECS: u64 = 30;

/// The number of further attempts where none is set.
pub const DEFAULT_RETRY_COUNT: u32 = 3;

impl CallbackConfig {
    pub fn timeout_secs(&self) -> (r: u64)
        ensures
            r == (match self.timeout_secs {
                Some(t) => t,
                None => DEFAULT_TIMEOUT_SECS,
            }),
    {
        match self.timeout_secs {
            Some(t) => t,
            None => DEFAULT_TIMEOUT_SECS,
        }
    }

    pub fn retry_count(&self) -> (r: u32)
        ensures
            r == (match self.retry_count {
                Some(c) => c,
                None => DEFAULT_RETRY_COUNT,
            }),
    {
        match self.retry_count {
            Some(c) => c,
            None => DEFAULT_RETRY_COUNT,
        }
    }
}

impl Default for CallbackConfig {
    fn default() -> (r: Self)
        ensures
            r == (CallbackConfig { timeout_secs: None, retry_count: None }),
    {
        CallbackConfig { timeout_secs: None, retry_count: None }
    }
}

/// The settings of the server.
#[derive(Debug, PartialEq, Eq)]
pub struct ServerConfig {
    pub acl: ACL,
    pub callback: CallbackConfig,
}

/// How one tracker is reached.
#[derive(Debug, PartialEq, Eq)]
pub struct PlatformInstanceConfig {
    pub api_base_url: String,
    pub token: Option<String>,
    pub webhook_secret: Option<String>,
}

impl Clone for PlatformInstanceConfig {
    fn clone(&self) -> (r: Self)
        ensures
            r.api_base_url@ == self.api_base_url@,
            opt_view(r.token) == opt_view(self.token),
            opt_view(r.webhook_secret) == opt_view(self.webhook_secret),
    {
        PlatformInstanceConfig {
            api_base_url: self.api_base_url.clone(),
            token: clone_opt_string(&self.token),
            webhook_secret: clone_opt_string(&self.webhook_secret),
        }
    }
}

/// How each tracker is reached, for those that are set up.
#[derive(Debug, PartialEq, Eq)]
pub struct PlatformsConfig {
    pub github: Option<PlatformInstanceConfig>,
    pub gitee: Option<PlatformInstanceConfig>,
    pub gitlab: Option<PlatformInstanceConfig>,
    pub gitcode: Option<PlatformInstanceConfig>,
}

impl Default for PlatformsConfig {
    fn default() -> (r: Self)
        ensures
            r.github is None,
            r.gitee is None,
            r.gitlab is None,
            r.gitcode is None,
    {
        PlatformsConfig { github: None, gitee: None, gitlab: None, gitcode: None }
    }
}

/// All settings.
#[derive(Debug, PartialEq, Eq)]
pub struct Config {
    pub demo_crates: DemoCrates,
    pub sandbox: SandboxConfig,
    pub server: ServerConfig,
    pub platforms: PlatformsConfig,
}

} // verus!
