//! Compiler selections: which compiler to test with, and how.

use crate::model::{clone_opt_string, opt_view, views};
use crate::text::{
    find_char, first_index, from_chars, lemma_first_index_is, lemma_first_index_none, str_eq,
    to_chars,
};
use crate::Error;
use vstd::prelude::*;

verus! {

/// Where a compiler comes from.
#[derive(Debug, PartialEq, Eq, Hash)]
#[allow(inconsistent_fields)]
pub enum RustwideToolchain {
    /// A released compiler, by name.
    Dist(String),
    /// A build of the main branch, the latest or a given commit.
    Master { sha: Option<String> },
    /// A trial build of a given commit.
    Try { sha: String },
    /// A build of the continuous integration, regular or alternate.
    CI { sha: String, alt: bool },
}

#[allow(inconsistent_fields)]
pub enum RustwideToolchainView {
    Dist(Seq<char>),
    Master { sha: Option<Seq<char>> },
    Try { sha: Seq<char> },
    CI { sha: Seq<char>, alt: bool },
}

impl View for RustwideToolchain {
    type V = RustwideToolchainView;

    open spec fn view(&self) -> RustwideToolchainView {
        match *self {
            RustwideToolchain::Dist(name) => RustwideToolchainView::Dist(name@),
            RustwideToolchain::Master { sha } => RustwideToolchainView::Master { sha: opt_view(sha) },
            RustwideToolchain::Try { sha } => RustwideToolchainView::Try { sha: sha@ },
            RustwideToolchain::CI { sha, alt } => RustwideToolchainView::CI { sha: sha@, alt },
        }
    }
}

impl Clone for RustwideToolchain {
    fn clone(&self) -> (r: Self)
        ensures
            r@ == self@,
    {
        match self {
            RustwideToolchain::Dist(name) => RustwideToolchain::Dist(name.clone()),
            RustwideToolchain::Master { sha } => RustwideToolchain::Master {
                sha: clone_opt_string(sha),
            },
            RustwideToolchain::Try { sha } => RustwideToolchain::Try { sha: sha.clone() },
            RustwideToolchain::CI { sha, alt } => RustwideToolchain::CI {
                sha: sha.clone(),
                alt: *alt,
            },
        }
    }
}

impl RustwideToolchainView {
    /// The string form: a released compiler is its name; the others are a
    /// kind and, behind `#`, the commit.
    pub open spec fn text(self) -> Seq<char> {
        match self {
            RustwideToolchainView::Dist(name) => name,
            RustwideToolchainView::Master { sha: Some(sha) } => "master#"@ + sha,
            RustwideToolchainView::Master { sha: None } => "master"@,
            RustwideToolchainView::Try { sha } => "try#"@ + sha,
            RustwideToolchainView::CI { sha, alt: false } => "ci#"@ + sha,
            RustwideToolchainView::CI { sha, alt: true } => "ci-alt#"@ + sha,
        }
    }

    /// Whether parsing the string form gives the value back. It does not for
    /// a released compiler whose name holds `#` or is `master`.
    pub open spec fn reparses(self) -> bool {
        match self {
            RustwideToolchainView::Dist(name) => first_index(name, '#') is None && name
                != "master"@,
            _ => true,
        }
    }
}

/// What a string parses to. With a `#` in it, what stands before the first
/// one names the kind and what follows is the commit; without, `master` is
/// the main branch and anything else the name of a released compiler.
pub open spec fn spec_parse(s: Seq<char>) -> Option<RustwideToolchainView> {
    match first_index(s, '#') {
        Some(i) => {
            let kind = s.subrange(0, i);
            let sha = s.skip(i + 1);
            if kind == "master"@ {
                Some(RustwideToolchainView::Master { sha: Some(sha) })
            } else if kind == "try"@ {
                Some(RustwideToolchainView::Try { sha })
            } else if kind == "ci"@ {
                Some(RustwideToolchainView::CI { sha, alt: false })
            } else if kind == "ci-alt"@ {
                Some(RustwideToolchainView::CI { sha, alt: true })
            } else {
                None
            }
        },
        None => if s == "master"@ {
            Some(RustwideToolchainView::Master { sha: None })
        } else {
            Some(RustwideToolchainView::Dist(s))
        },
    }
}

/// What a string parses to as a selection: the plain selection of the
/// source that it parses to.
pub open spec fn spec_parse_toolchain(s: Seq<char>) -> Option<ToolchainView> {
    match spec_parse(s) {
        Some(source) => Some(ToolchainView::plain(source)),
        None => None,
    }
}

impl RustwideToolchain {
    /// The string form.
    pub fn to_string(&self) -> (r: String)
        ensures
            r@ == self@.text(),
    {
        match self {
            RustwideToolchain::Dist(name) => name.clone(),
            RustwideToolchain::Master { sha: Some(sha) } => {
                let mut s = "master#".to_owned();
                s.append(sha.as_str());
                s
            },
            RustwideToolchain::Master { sha: None } => "master".to_owned(),
            RustwideToolchain::Try { sha } => {
                let mut s = "try#".to_owned();
                s.append(sha.as_str());
                s
            },
            RustwideToolchain::CI { sha, alt } => {
                let mut s = if *alt {
                    "ci-alt#".to_owned()
                } else {
                    "ci#".to_owned()
                };
                s.append(sha.as_str());
                s
            },
        }
    }

    /// Parses the string form; `BadRequest` where the kind in front of `#`
    /// is not known.
    pub fn from_str(input: &str) -> (r: Result<RustwideToolchain, Error>)
        ensures
            match spec_parse(input@) {
                Some(v) => r is Ok && r.unwrap()@ == v,
                None => r == Err::<RustwideToolchain, Error>(Error::BadRequest),
            },
    {
        let cs = to_chars(input);
        assert(cs@.skip(0) =~= cs@);
        match find_char(&cs, 0, '#') {
            Some(i) => {
                let kind = from_chars(&cs, 0, i);
                let sha = from_chars(&cs, i + 1, cs.len());
                assert(cs@.skip(i + 1) =~= cs@.subrange(i + 1, cs@.len() as int));
                if str_eq(kind.as_str(), "master") {
                    Ok(RustwideToolchain::Master { sha: Some(sha) })
                } else if str_eq(kind.as_str(), "try") {
                    Ok(RustwideToolchain::Try { sha })
                } else if str_eq(kind.as_str(), "ci") {
                    Ok(RustwideToolchain::CI { sha, alt: false })
                } else if str_eq(kind.as_str(), "ci-alt") {
                    Ok(RustwideToolchain::CI { sha, alt: true })
                } else {
                    Err(Error::BadRequest)
                }
            },
            None => {
                if str_eq(input, "master") {
                    Ok(RustwideToolchain::Master { sha: None })
                } else {
                    Ok(RustwideToolchain::Dist(input.to_owned()))
                }
            },
        }
    }
}

impl std::str::FromStr for RustwideToolchain {
    type Err = Error;

    fn from_str(s: &str) -> (r: Result<RustwideToolchain, Error>)
        ensures
            match spec_parse(s@) {
                Some(v) => r is Ok && r.unwrap()@ == v,
                None => r == Err::<RustwideToolchain, Error>(Error::BadRequest),
            },
    {
        RustwideToolchain::from_str(s)
    }
}

/// The string form of a kind and a commit splits at the `#` that ends the
/// kind.
proof fn lemma_split_kind(kind: Seq<char>, sha: Seq<char>)
    requires
        first_index(kind, '#') is None,
    ensures
        first_index(kind + seq!['#'] + sha, '#') == Some(kind.len() as int),
        (kind + seq!['#'] + sha).subrange(0, kind.len() as int) == kind,
        (kind + seq!['#'] + sha).skip(kind.len() as int + 1) == sha,
{
    let s = kind + seq!['#'] + sha;
    crate::text::lemma_first_index(kind, '#');
    assert forall|j: int| 0 <= j < kind.len() implies s[j] != '#' by {
        assert(s[j] == kind[j]);
    }
    lemma_first_index_is(s, '#', kind.len() as int);
    assert(s.subrange(0, kind.len() as int) =~= kind);
    assert(s.skip(kind.len() as int + 1) =~= sha);
}

/// Parsing the string form of a compiler source gives the source back,
/// unless it is a released compiler whose name holds `#` or is `master`.
pub proof fn lemma_parse_text(t: RustwideToolchainView)
    requires
        t.reparses(),
    ensures
        spec_parse(t.text()) == Some(t),
{
    reveal_strlit("master#");
    reveal_strlit("master");
    reveal_strlit("try#");
    reveal_strlit("try");
    reveal_strlit("ci#");
    reveal_strlit("ci");
    reveal_strlit("ci-alt#");
    reveal_strlit("ci-alt");
    match t {
        RustwideToolchainView::Dist(name) => {},
        RustwideToolchainView::Master { sha: None } => {
            lemma_first_index_none("master"@, '#');
        },
        RustwideToolchainView::Master { sha: Some(sha) } => {
            lemma_first_index_none("master"@, '#');
            lemma_split_kind("master"@, sha);
            assert("master#"@ + sha =~= "master"@ + seq!['#'] + sha);
        },
        RustwideToolchainView::Try { sha } => {
            lemma_first_index_none("try"@, '#');
            lemma_split_kind("try"@, sha);
            assert("try#"@ + sha =~= "try"@ + seq!['#'] + sha);
            assert("try"@ != "master"@);
        },
        RustwideToolchainView::CI { sha, alt: false } => {
            lemma_first_index_none("ci"@, '#');
            lemma_split_kind("ci"@, sha);
            assert("ci#"@ + sha =~= "ci"@ + seq!['#'] + sha);
            assert("ci"@ != "master"@);
            assert("ci"@ != "try"@);
        },
        RustwideToolchainView::CI { sha, alt: true } => {
            lemma_first_index_none("ci-alt"@, '#');
            lemma_split_kind("ci-alt"@, sha);
            assert("ci-alt#"@ + sha =~= "ci-alt"@ + seq!['#'] + sha);
            assert("ci-alt"@ != "master"@) by {
                assert("ci-alt"@[0] != "master"@[0]);
            }
            assert("ci-alt"@ != "try"@);
            assert("ci-alt"@ != "ci"@);
        },
    }
}

/// A package whose source is replaced while testing with a toolchain.
#[derive(Debug, PartialEq, Eq, Hash)]
pub struct CratePatch {
    pub name: String,
    /// The address of the repository that holds the replacement.
    pub repo: String,
    pub branch: String,
}

pub struct CratePatchView {
    pub name: Seq<char>,
    pub repo: Seq<char>,
    pub branch: Seq<char>,
}

impl View for CratePatch {
    type V = CratePatchView;

    open spec fn view(&self) -> CratePatchView {
        CratePatchView { name: self.name@, repo: self.repo@, branch: self.branch@ }
    }
}

impl Clone for CratePatch {
    fn clone(&self) -> (r: Self)
        ensures
            r@ == self@,
    {
        CratePatch {
            name: self.name.clone(),
            repo: self.repo.clone(),
            branch: self.branch.clone(),
        }
    }
}

/// A compiler selection: the source of the compiler, the target it builds
/// for, extra flags for the tools, and packages to patch.
#[derive(Debug, PartialEq, Eq, Hash)]
pub struct Toolchain {
    pub source: RustwideToolchain,
    pub target: Option<String>,
    pub rustflags: Option<String>,
    pub rustdocflags: Option<String>,
    pub cargoflags: Option<String>,
    pub ci_try: bool,
    pub patches: Vec<CratePatch>,
}

pub struct ToolchainView {
    pub source: RustwideToolchainView,
    pub target: Option<Seq<char>>,
    pub rustflags: Option<Seq<char>>,
    pub rustdocflags: Option<Seq<char>>,
    pub cargoflags: Option<Seq<char>>,
    pub ci_try: bool,
    pub patches: Seq<CratePatchView>,
}

impl View for Toolchain {
    type V = ToolchainView;

    open spec fn view(&self) -> ToolchainView {
        ToolchainView {
            source: self.source@,
            target: opt_view(self.target),
            rustflags: opt_view(self.rustflags),
            rustdocflags: opt_view(self.rustdocflags),
            cargoflags: opt_view(self.cargoflags),
            ci_try: self.ci_try,
            patches: views(self.patches@),
        }
    }
}

impl Clone for Toolchain {
    fn clone(&self) -> (r: Self)
        ensures
            r@ == self@,
    {
        let patches = self.patches.clone();
        assert(views(patches@) =~= views(self.patches@)) by {
            assert forall|i: int| 0 <= i < patches@.len() implies patches@[i]@
                == self.patches@[i]@ by {
                assert(cloned::<CratePatch>(self.patches@[i], patches@[i]));
            }
        }
        Toolchain {
            source: self.source.clone(),
            target: clone_opt_string(&self.target),
            rustflags: clone_opt_string(&self.rustflags),
            rustdocflags: clone_opt_string(&self.rustdocflags),
            cargoflags: clone_opt_string(&self.cargoflags),
            ci_try: self.ci_try,
            patches,
        }
    }
}

impl ToolchainView {
    /// The plain selection of a source: no target, no flags, no patches.
    pub open spec fn plain(source: RustwideToolchainView) -> ToolchainView {
        ToolchainView {
            source,
            target: None,
            rustflags: None,
            rustdocflags: None,
            cargoflags: None,
            ci_try: false,
            patches: Seq::empty(),
        }
    }

    /// The string form: that of the source, followed by the target in
    /// brackets where there is one.
    pub open spec fn text(self) -> Seq<char> {
        match self.target {
            Some(target) => self.source.text() + " (target: "@ + target + ")"@,
            None => self.source.text(),
        }
    }

    /// The name of the selection inside a path: the source, then `--` and
    /// the target where there is one.
    pub open spec fn path_component(self) -> Seq<char> {
        match self.target {
            Some(target) => self.source.text() + "--"@ + target,
            None => self.source.text(),
        }
    }
}

impl Toolchain {
    /// The plain selection of a source: no target, no flags, no patches.
    pub fn plain(source: RustwideToolchain) -> (r: Toolchain)
        ensures
            r@ == ToolchainView::plain(source@),
    {
        let t = Toolchain {
            source,
            target: None,
            rustflags: None,
            rustdocflags: None,
            cargoflags: None,
            ci_try: false,
            patches: Vec::new(),
        };
        assert(t@.patches =~= Seq::empty());
        t
    }

    /// The name of the selection inside a path.
    pub fn to_path_component(&self) -> (r: String)
        ensures
            r@ == self@.path_component(),
    {
        let mut component = self.source.to_string();
        if let Some(target) = &self.target {
            component.append("--");
            component.append(target.as_str());
        }
        component
    }

    /// The string form.
    pub fn to_string(&self) -> (r: String)
        ensures
            r@ == self@.text(),
    {
        let mut s = self.source.to_string();
        if let Some(target) = &self.target {
            s.append(" (target: ");
            s.append(target.as_str());
            s.append(")");
        }
        s
    }

    /// Parses the string form of a source into the plain selection of that
    /// source; `BadRequest` where the source does not parse.
    pub fn from_str(input: &str) -> (r: Result<Toolchain, Error>)
        ensures
            match spec_parse_toolchain(input@) {
                Some(v) => r is Ok && r.unwrap()@ == v,
                None => r == Err::<Toolchain, Error>(Error::BadRequest),
            },
    {
        match RustwideToolchain::from_str(input) {
            Ok(source) => Ok(Toolchain::plain(source)),
            Err(e) => Err(e),
        }
    }
}

impl std::str::FromStr for Toolchain {
    type Err = Error;

    fn from_str(s: &str) -> (r: Result<Toolchain, Error>)
        ensures
            match spec_parse_toolchain(s@) {
                Some(v) => r is Ok && r.unwrap()@ == v,
                None => r == Err::<Toolchain, Error>(Error::BadRequest),
            },
    {
        Toolchain::from_str(s)
    }
}

impl ToolchainView {
    /// Whether parsing the string form gives the selection back. It does
    /// for a plain selection whose source parses back: the string form
    /// has no place for flags and patches, and a target in it is taken for
    /// a part of the name.
    pub open spec fn reparses(self) -> bool {
        self == ToolchainView::plain(self.source) && self.source.reparses()
    }
}

/// Parsing the string form of a selection gives the selection back, where
/// the selection is plain and its source parses back.
pub proof fn lemma_parse_plain_text(t: ToolchainView)
    requires
        t.reparses(),
    ensures
        spec_parse_toolchain(t.text()) == Some(t),
{
    lemma_parse_text(t.source);
}

} // verus!
