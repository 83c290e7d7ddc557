//! The packages under test.

pub mod lists;
pub mod sources;

pub use crate::crates::sources::gitcode::{GitCodeRepo, GitCodeRepoView};
pub use crate::crates::sources::github::{GitHubRepo, GitHubRepoView};
pub use crate::crates::sources::registry::{RegistryCrate, RegistryCrateView};
use crate::model::{clone_opt_string, opt_view};
use crate::text::{
    concat2, find_char, first_index, from_chars, has_prefix, lemma_first_index,
    lemma_first_index_is, lemma_not_prefix, lemma_prefix_concat, strip_prefix, to_chars,
};
use crate::Error;
use vstd::prelude::*;

verus! {

/// A repository reached by its address, with a commit where one is pinned.
#[derive(Debug, Eq, PartialEq, Hash)]
pub struct GitRepo {
    pub url: String,
    pub sha: Option<String>,
}

pub struct GitRepoView {
    pub url: Seq<char>,
    pub sha: Option<Seq<char>>,
}

impl View for GitRepo {
    type V = GitRepoView;

    open spec fn view(&self) -> GitRepoView {
        GitRepoView { url: self.url@, sha: opt_view(self.sha) }
    }
}

impl Clone for GitRepo {
    fn clone(&self) -> (r: Self)
        ensures
            r@ == self@,
    {
        GitRepo { url: self.url.clone(), sha: clone_opt_string(&self.sha) }
    }
}

impl GitRepoView {
    /// The string form: the address, then `#` and the commit where one is
    /// pinned.
    pub open spec fn text(self) -> Seq<char> {
        match self.sha {
            Some(sha) => self.url + "#"@ + sha,
            None => self.url,
        }
    }
}

impl GitRepo {
    pub fn new(url: &str) -> (r: Self)
        ensures
            r@ == (GitRepoView { url: url@, sha: None }),
    {
        GitRepo { url: url.to_owned(), sha: None }
    }

    pub fn with_sha(url: &str, sha: &str) -> (r: Self)
        ensures
            r@ == (GitRepoView { url: url@, sha: Some(sha@) }),
    {
        GitRepo { url: url.to_owned(), sha: Some(sha.to_owned()) }
    }

    /// The string form.
    pub fn to_string(&self) -> (r: String)
        ensures
            r@ == self@.text(),
    {
        let mut s = self.url.clone();
        if let Some(sha) = &self.sha {
            s.append("#");
            s.append(sha.as_str());
        }
        s
    }
}

/// A package under test, by where it comes from.
#[derive(Debug, Eq, PartialEq, Hash)]
pub enum Crate {
    Registry(RegistryCrate),
    GitHub(GitHubRepo),
    GitCode(GitCodeRepo),
    Local(String),
    Path(String),
    Git(GitRepo),
}

pub enum CrateView {
    Registry(RegistryCrateView),
    GitHub(GitHubRepoView),
    GitCode(GitCodeRepoView),
    Local(Seq<char>),
    Path(Seq<char>),
    Git(GitRepoView),
}

impl View for Crate {
    type V = CrateView;

    open spec fn view(&self) -> CrateView {
        match *self {
            Crate::Registry(k) => CrateView::Registry(k@),
            Crate::GitHub(r) => CrateView::GitHub(r@),
            Crate::GitCode(r) => CrateView::GitCode(r@),
            Crate::Local(name) => CrateView::Local(name@),
            Crate::Path(path) => CrateView::Path(path@),
            Crate::Git(r) => CrateView::Git(r@),
        }
    }
}

impl Clone for Crate {
    fn clone(&self) -> (r: Self)
        ensures
            r@ == self@,
    {
        match self {
            Crate::Registry(k) => Crate::Registry(k.clone()),
            Crate::GitHub(r) => Crate::GitHub(r.clone()),
            Crate::GitCode(r) => Crate::GitCode(r.clone()),
            Crate::Local(name) => Crate::Local(name.clone()),
            Crate::Path(path) => Crate::Path(path.clone()),
            Crate::Git(r) => Crate::Git(r.clone()),
        }
    }
}

impl CrateView {
    /// The stable identifier of the package: a tag for where it comes from,
    /// then what names it there. A pinned commit is no part of it.
    pub open spec fn id(self) -> Seq<char> {
        match self {
            CrateView::Registry(k) => "reg:"@ + k.text(),
            CrateView::GitHub(r) => "gh:"@ + r.slug(),
            CrateView::GitCode(r) => "gc:"@ + r.slug(),
            CrateView::Local(name) => "local:"@ + name,
            CrateView::Path(path) => "path:"@ + path,
            CrateView::Git(r) => "git:"@ + r.url,
        }
    }

    /// The string form shown to people.
    pub open spec fn text(self) -> Seq<char> {
        match self {
            CrateView::Registry(k) => k.text(),
            CrateView::GitHub(r) => r.text(),
            CrateView::GitCode(r) => r.text(),
            CrateView::Local(name) => "local:"@ + name,
            CrateView::Path(path) => "path:"@ + path,
            CrateView::Git(r) => r.text(),
        }
    }

    /// Whether parsing the identifier gives the package back. It does not
    /// where the name of a registry package holds a hyphen, where the
    /// organisation of a hosted repository holds a slash, or where a commit
    /// is pinned.
    pub open spec fn reparses(self) -> bool {
        match self {
            CrateView::Registry(k) => first_index(k.name, '-') is None,
            CrateView::GitHub(r) => first_index(r.org, '/') is None && r.sha is None,
            CrateView::GitCode(r) => first_index(r.org, '/') is None && r.sha is None,
            CrateView::Local(_) => true,
            CrateView::Path(_) => true,
            CrateView::Git(r) => r.sha is None,
        }
    }
}

/// What an identifier parses to. The tag in front decides the kind; a
/// registry package splits at its first hyphen into name and version, a
/// hosted repository at its first slash into organisation and name.
pub open spec fn spec_parse(s: Seq<char>) -> Option<CrateView> {
    if has_prefix(s, "reg:"@) {
        let rest = s.skip(4);
        match first_index(rest, '-') {
            Some(i) => Some(
                CrateView::Registry(
                    RegistryCrateView { name: rest.subrange(0, i), version: rest.skip(i + 1) },
                ),
            ),
            None => None,
        }
    } else if has_prefix(s, "gh:"@) {
        let rest = s.skip(3);
        match first_index(rest, '/') {
            Some(i) => Some(
                CrateView::GitHub(
                    GitHubRepoView { org: rest.subrange(0, i), name: rest.skip(i + 1), sha: None },
                ),
            ),
            None => None,
        }
    } else if has_prefix(s, "gc:"@) {
        let rest = s.skip(3);
        match first_index(rest, '/') {
            Some(i) => Some(
                CrateView::GitCode(
                    GitCodeRepoView { org: rest.subrange(0, i), name: rest.skip(i + 1), sha: None },
                ),
            ),
            None => None,
        }
    } else if has_prefix(s, "local:"@) {
        Some(CrateView::Local(s.skip(6)))
    } else if has_prefix(s, "path:"@) {
        Some(CrateView::Path(s.skip(5)))
    } else if has_prefix(s, "git:"@) {
        Some(CrateView::Git(GitRepoView { url: s.skip(4), sha: None }))
    } else {
        None
    }
}

/// Splits `chars[from..]` at the first `c` in it.
fn split_once(chars: &Vec<char>, from: usize, c: char) -> (r: Option<(String, String)>)
    requires
        from <= chars.len(),
    ensures
        match first_index(chars@.skip(from as int), c) {
            Some(i) => r is Some && r.unwrap().0@ == chars@.skip(from as int).subrange(0, i)
                && r.unwrap().1@ == chars@.skip(from as int).skip(i + 1),
            None => r is None,
        },
{
    match find_char(chars, from, c) {
        Some(i) => {
            let a = from_chars(chars, from, i);
            let b = from_chars(chars, i + 1, chars.len());
            proof {
                let rest = chars@.skip(from as int);
                assert(rest.subrange(0, i - from) =~= chars@.subrange(from as int, i as int));
                assert(rest.skip(i - from + 1) =~= chars@.subrange(i + 1, chars@.len() as int));
            }
            Some((a, b))
        },
        None => None,
    }
}

fn rest_of(chars: &Vec<char>, from: usize) -> (r: String)
    requires
        from <= chars.len(),
    ensures
        r@ == chars@.skip(from as int),
{
    let r = from_chars(chars, from, chars.len());
    assert(chars@.skip(from as int) =~= chars@.subrange(from as int, chars@.len() as int));
    r
}

impl Crate {
    /// The stable identifier of the package.
    pub fn id(&self) -> (r: String)
        ensures
            r@ == self@.id(),
    {
        match self {
            Crate::Registry(krate) => {
                let t = krate.to_string();
                concat2("reg:", t.as_str())
            },
            Crate::GitHub(repo) => {
                let t = repo.slug();
                concat2("gh:", t.as_str())
            },
            Crate::GitCode(repo) => {
                let t = repo.slug();
                concat2("gc:", t.as_str())
            },
            Crate::Local(name) => concat2("local:", name.as_str()),
            Crate::Path(path) => concat2("path:", path.as_str()),
            Crate::Git(repo) => concat2("git:", repo.url.as_str()),
        }
    }

    /// The string form shown to people.
    pub fn to_string(&self) -> (r: String)
        ensures
            r@ == self@.text(),
    {
        match self {
            Crate::Registry(krate) => krate.to_string(),
            Crate::GitHub(repo) => repo.to_string(),
            Crate::GitCode(repo) => repo.to_string(),
            Crate::Local(name) => concat2("local:", name.as_str()),
            Crate::Path(path) => concat2("path:", path.as_str()),
            Crate::Git(repo) => repo.to_string(),
        }
    }

    /// Parses an identifier; `BadRequest` where the string is none.
    pub fn from_str(s: &str) -> (r: Result<Crate, Error>)
        ensures
            match spec_parse(s@) {
                Some(v) => r is Ok && r.unwrap()@ == v,
                None => r == Err::<Crate, Error>(Error::BadRequest),
            },
    {
        proof {
            reveal_strlit("reg:");
            reveal_strlit("gh:");
            reveal_strlit("gc:");
            reveal_strlit("local:");
            reveal_strlit("path:");
            reveal_strlit("git:");
        }
        let cs = to_chars(s);
        if let Some(n) = strip_prefix(&cs, "reg:") {
            match split_once(&cs, n, '-') {
                Some((name, version)) => Ok(Crate::Registry(RegistryCrate { name, version })),
                None => Err(Error::BadRequest),
            }
        } else if let Some(n) = strip_prefix(&cs, "gh:") {
            match split_once(&cs, n, '/') {
                Some((org, name)) => Ok(Crate::GitHub(GitHubRepo { org, name, sha: None })),
                None => Err(Error::BadRequest),
            }
        } else if let Some(n) = strip_prefix(&cs, "gc:") {
            match split_once(&cs, n, '/') {
                Some((org, name)) => Ok(Crate::GitCode(GitCodeRepo { org, name, sha: None })),
                None => Err(Error::BadRequest),
            }
        } else if let Some(n) = strip_prefix(&cs, "local:") {
            Ok(Crate::Local(rest_of(&cs, n)))
        } else if let Some(n) = strip_prefix(&cs, "path:") {
            Ok(Crate::Path(rest_of(&cs, n)))
        } else if let Some(n) = strip_prefix(&cs, "git:") {
            Ok(Crate::Git(GitRepo { url: rest_of(&cs, n), sha: None }))
        } else {
            Err(Error::BadRequest)
        }
    }
}

impl std::str::FromStr for Crate {
    type Err = Error;

    fn from_str(s: &str) -> (r: Result<Crate, Error>)
        ensures
            match spec_parse(s@) {
                Some(v) => r is Ok && r.unwrap()@ == v,
                None => r == Err::<Crate, Error>(Error::BadRequest),
            },
    {
        Crate::from_str(s)
    }
}

/// Two parts joined by a separator that the first part does not hold split
/// at that separator into the two parts.
proof fn lemma_split_joined(a: Seq<char>, c: char, b: Seq<char>)
    requires
        first_index(a, c) is None,
    ensures
        first_index(a + seq![c] + b, c) == Some(a.len() as int),
        (a + seq![c] + b).subrange(0, a.len() as int) == a,
        (a + seq![c] + b).skip(a.len() as int + 1) == b,
{
    let s = a + seq![c] + b;
    lemma_first_index(a, c);
    assert forall|j: int| 0 <= j < a.len() implies s[j] != c by {
        assert(s[j] == a[j]);
    }
    lemma_first_index_is(s, c, a.len() as int);
    assert(s.subrange(0, a.len() as int) =~= a);
    assert(s.skip(a.len() as int + 1) =~= b);
}

/// Parsing the identifier of a package gives the package back, for every
/// kind of package, unless the name of a registry package holds a hyphen,
/// the organisation of a hosted repository holds a slash, or a commit is
/// pinned.
pub proof fn lemma_parse_id(c: CrateView)
    requires
        c.reparses(),
    ensures
        spec_parse(c.id()) == Some(c),
{
    reveal_strlit("reg:");
    reveal_strlit("gh:");
    reveal_strlit("gc:");
    reveal_strlit("local:");
    reveal_strlit("path:");
    reveal_strlit("git:");
    reveal_strlit("-");
    reveal_strlit("/");
    let s = c.id();
    match c {
        CrateView::Registry(k) => {
            lemma_prefix_concat("reg:"@, k.text());
            assert(k.text() =~= k.name + seq!['-'] + k.version);
            lemma_split_joined(k.name, '-', k.version);
        },
        CrateView::GitHub(r) => {
            lemma_not_prefix(s, "reg:"@, 0);
            lemma_prefix_concat("gh:"@, r.slug());
            assert(r.slug() =~= r.org + seq!['/'] + r.name);
            lemma_split_joined(r.org, '/', r.name);
        },
        CrateView::GitCode(r) => {
            lemma_not_prefix(s, "reg:"@, 0);
            lemma_not_prefix(s, "gh:"@, 1);
            lemma_prefix_concat("gc:"@, r.slug());
            assert(r.slug() =~= r.org + seq!['/'] + r.name);
            lemma_split_joined(r.org, '/', r.name);
        },
        CrateView::Local(name) => {
            lemma_not_prefix(s, "reg:"@, 0);
            lemma_not_prefix(s, "gh:"@, 0);
            lemma_not_prefix(s, "gc:"@, 0);
            lemma_prefix_concat("local:"@, name);
        },
        CrateView::Path(path) => {
            lemma_not_prefix(s, "reg:"@, 0);
            lemma_not_prefix(s, "gh:"@, 0);
            lemma_not_prefix(s, "gc:"@, 0);
            lemma_not_prefix(s, "local:"@, 0);
            lemma_prefix_concat("path:"@, path);
        },
        CrateView::Git(r) => {
            lemma_not_prefix(s, "reg:"@, 0);
            lemma_not_prefix(s, "gh:"@, 1);
            lemma_not_prefix(s, "gc:"@, 1);
            lemma_not_prefix(s, "local:"@, 0);
            lemma_not_prefix(s, "path:"@, 0);
            lemma_prefix_concat("git:"@, r.url);
        },
    }
}

/// The identifier of every package stands for a package, if not always
/// for the same.
pub proof fn lemma_id_parses(c: CrateView)
    ensures
        spec_parse(c.id()) is Some,
{
    reveal_strlit("reg:");
    reveal_strlit("gh:");
    reveal_strlit("gc:");
    reveal_strlit("local:");
    reveal_strlit("path:");
    reveal_strlit("git:");
    reveal_strlit("-");
    reveal_strlit("/");
    let s = c.id();
    match c {
        CrateView::Registry(k) => {
            lemma_prefix_concat("reg:"@, k.text());
            lemma_first_index(k.text(), '-');
            assert(k.text()[k.name.len() as int] == '-');
        },
        CrateView::GitHub(r) => {
            lemma_not_prefix(s, "reg:"@, 0);
            lemma_prefix_concat("gh:"@, r.slug());
            lemma_first_index(r.slug(), '/');
            assert(r.slug()[r.org.len() as int] == '/');
        },
        CrateView::GitCode(r) => {
            lemma_not_prefix(s, "reg:"@, 0);
            lemma_not_prefix(s, "gh:"@, 1);
            lemma_prefix_concat("gc:"@, r.slug());
            lemma_first_index(r.slug(), '/');
            assert(r.slug()[r.org.len() as int] == '/');
        },
        CrateView::Local(name) => {
            lemma_not_prefix(s, "reg:"@, 0);
            lemma_not_prefix(s, "gh:"@, 0);
            lemma_not_prefix(s, "gc:"@, 0);
            lemma_prefix_concat("local:"@, name);
        },
        CrateView::Path(path) => {
            lemma_not_prefix(s, "reg:"@, 0);
            lemma_not_prefix(s, "gh:"@, 0);
            lemma_not_prefix(s, "gc:"@, 0);
            lemma_not_prefix(s, "local:"@, 0);
            lemma_prefix_concat("path:"@, path);
        },
        CrateView::Git(r) => {
            lemma_not_prefix(s, "reg:"@, 0);
            lemma_not_prefix(s, "gh:"@, 1);
            lemma_not_prefix(s, "gc:"@, 1);
            lemma_not_prefix(s, "local:"@, 0);
            lemma_not_prefix(s, "path:"@, 0);
            lemma_prefix_concat("git:"@, r.url);
        },
    }
}

} // verus!
