//! Repositories hosted on GitCode.

use crate::model::{clone_opt_string, opt_view};
use crate::text::concat3;
use vstd::prelude::*;

verus! {

/// A repository: its organisation, its name, and a commit where one is
/// pinned.
#[derive(Debug, Eq, PartialEq, Hash)]
pub struct GitCodeRepo {
    pub org: String,
    pub name: String,
    pub sha: Option<String>,
}

pub struct GitCodeRepoView {
    pub org: Seq<char>,
    pub name: Seq<char>,
    pub sha: Option<Seq<char>>,
}

impl View for GitCodeRepo {
    type V = GitCodeRepoView;

    open spec fn view(&self) -> GitCodeRepoView {
        GitCodeRepoView { org: self.org@, name: self.name@, sha: opt_view(self.sha) }
    }
}

impl Clone for GitCodeRepo {
    fn clone(&self) -> (r: Self)
        ensures
            r@ == self@,
    {
        GitCodeRepo {
            org: self.org.clone(),
            name: self.name.clone(),
            sha: clone_opt_string(&self.sha),
        }
    }
}

impl GitCodeRepoView {
    /// Organisation, slash, name.
    pub open spec fn slug(self) -> Seq<char> {
        self.org + "/"@ + self.name
    }

    /// The string form: the slug, then `#` and the commit where one is
    /// pinned.
    pub open spec fn text(self) -> Seq<char> {
        match self.sha {
            Some(sha) => self.slug() + "#"@ + sha,
            None => self.slug(),
        }
    }
}

impl GitCodeRepo {
    pub fn slug(&self) -> (r: String)
        ensures
            r@ == self@.slug(),
    {
        concat3(self.org.as_str(), "/", self.name.as_str())
    }

    pub fn new(org: &str, name: &str) -> (r: Self)
        ensures
            r@ == (GitCodeRepoView { org: org@, name: name@, sha: None }),
    {
        GitCodeRepo { org: org.to_owned(), name: name.to_owned(), sha: None }
    }

    pub fn with_sha(org: &str, name: &str, sha: &str) -> (r: Self)
        ensures
            r@ == (GitCodeRepoView { org: org@, name: name@, sha: Some(sha@) }),
    {
        GitCodeRepo { org: org.to_owned(), name: name.to_owned(), sha: Some(sha.to_owned()) }
    }

    /// The string form.
    pub fn to_string(&self) -> (r: String)
        ensures
            r@ == self@.text(),
    {
        let mut s = self.slug();
        if let Some(sha) = &self.sha {
            s.append("#");
            s.append(sha.as_str());
        }
        s
    }
}

} // verus!
