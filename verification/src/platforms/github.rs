//! GitHub.

use crate::experiments::{PlatformIssue, PlatformIssueView};
use crate::model::opt_view;
use crate::platforms::{
    fixed_issue, make_fixed_issue, PlatformAdapter, PlatformConfig, PlatformType, PlatformTypeView,
};
use crate::text::constant_time_str_eq;
use crate::utils::hex::{encode_into, spec_encode};
use crate::{Error, Fallible};
use hmac::Mac;
use vstd::prelude::*;
use vstd::string::StringSliceAdditionalSpecFns;

verus! {

/// The adapter for GitHub.
pub struct GitHubAdapter {
    config: PlatformConfig,
}

/// The code with which HMAC-SHA256 authenticates `message` under `key`,
/// as the crates `hmac` and `sha2` compute it, or nothing where `hmac`
/// refuses the key.
pub uninterp spec fn hmac_sha256_tag(key: Seq<u8>, message: Seq<u8>) -> Option<Seq<u8>>;

/// Authenticates a message with HMAC-SHA256. Trusted: the result is the
/// code that `hmac::Hmac<sha2::Sha256>` made from the key gives for the
/// message, a function of the key and the message alone. There is always
/// one, of 32 bytes: `new_from_slice` takes a key of any length, and the
/// output of SHA-256 has that size.
#[verifier::external_body]
fn hmac_sha256(key: &[u8], message: &[u8]) -> (r: Option<Vec<u8>>)
    ensures
        opt_view(r) == hmac_sha256_tag(key@, message@),
        r is Some,
        r.unwrap()@.len() == 32,
{
    match hmac::Hmac::<sha2::Sha256>::new_from_slice(key) {
        Ok(mut mac) => {
            mac.update(message);
            Some(mac.finalize().into_bytes().to_vec())
        },
        Err(_) => None,
    }
}

/// The signature that GitHub puts on `payload` under `secret`: the name
/// of the scheme, then the authentication code in hexadecimal.
pub open spec fn github_signature(secret: Seq<char>, payload: Seq<u8>) -> Option<Seq<char>> {
    match hmac_sha256_tag(vstd::utf8::encode_utf8(secret), payload) {
        Some(tag) => Some("sha256="@ + spec_encode(tag)),
        None => None,
    }
}

/// Whether `signature` is the signature that GitHub puts on `payload`
/// under `secret`. Without a secret, nothing is.
pub open spec fn is_github_signature(
    secret: Option<Seq<char>>,
    payload: Seq<u8>,
    signature: Seq<char>,
) -> bool {
    match secret {
        Some(s) => github_signature(s, payload) == Some(signature),
        None => false,
    }
}

/// Whether `signature` is the text that stands for the authentication
/// code `tag`, where there is one.
pub fn signature_matches(tag: Option<Vec<u8>>, signature: &str) -> (r: bool)
    ensures
        r == (match tag {
            Some(t) => signature@ == "sha256="@ + spec_encode(t@),
            None => false,
        }),
{
    match tag {
        Some(t) => {
            let mut expected = "sha256=".to_owned();
            encode_into(&mut expected, t.as_slice());
            constant_time_str_eq(signature, expected.as_str())
        },
        None => false,
    }
}

impl GitHubAdapter {
    pub closed spec fn config(&self) -> PlatformConfig {
        self.config
    }

    pub fn new(config: PlatformConfig) -> (r: Self)
        ensures
            r.config() == config,
    {
        GitHubAdapter { config }
    }
}

impl PlatformAdapter for GitHubAdapter {
    fn platform_type(&self) -> (r: PlatformType)
        ensures
            r@ == PlatformTypeView::GitHub,
    {
        PlatformType::GitHub
    }

    /// The reference to issue `number` of `repo`.
    fn get_issue(&self, repo: &str, number: &str) -> (r: Fallible<PlatformIssue>)
        ensures
            r is Ok,
            r.unwrap()@ == fixed_issue(
                "github"@,
                "https://api.github.com/repos/"@,
                "https://github.com/"@,
                repo@,
                number@,
            ),
    {
        Ok(
            make_fixed_issue(
                "github",
                "https://api.github.com/repos/",
                "https://github.com/",
                repo,
                number,
            ),
        )
    }

    /// Whether `signature` is the signature that GitHub puts on `payload`
    /// under the shared secret.
    fn verify_webhook_signature(&self, payload: &[u8], signature: &str) -> (r: bool)
        ensures
            r == is_github_signature(opt_view(self.config().webhook_secret), payload@, signature@),
    {
        match &self.config.webhook_secret {
            Some(secret) => signature_matches(hmac_sha256(secret.as_str().as_bytes(), payload), signature),
            None => false,
        }
    }
}

} // verus!
