//! Packages published in the registry.

use crate::text::concat3;
use vstd::prelude::*;

verus! {

/// A package of the registry: a name and a version.
#[derive(Debug, Eq, PartialEq, Hash)]
pub struct RegistryCrate {
    pub name: String,
    pub version: String,
}

pub struct RegistryCrateView {
    pub name: Seq<char>,
    pub version: Seq<char>,
}

impl View for RegistryCrate {
    type V = RegistryCrateView;

    open spec fn view(&self) -> RegistryCrateView {
        RegistryCrateView { name: self.name@, version: self.version@ }
    }
}

impl Clone for RegistryCrate {
    fn clone(&self) -> (r: Self)
        ensures
            r@ == self@,
    {
        RegistryCrate { name: self.name.clone(), version: self.version.clone() }
    }
}

impl RegistryCrateView {
    /// The string form: name, hyphen, version.
    pub open spec fn text(self) -> Seq<char> {
        self.name + "-"@ + self.version
    }
}

impl RegistryCrate {
    pub fn new(name: &str, version: &str) -> (r: Self)
        ensures
            r@ == (RegistryCrateView { name: name@, version: version@ }),
    {
        RegistryCrate { name: name.to_owned(), version: version.to_owned() }
    }

    /// The string form.
    pub fn to_string(&self) -> (r: String)
        ensures
            r@ == self@.text(),
    {
        concat3(self.name.as_str(), "-", self.version.as_str())
    }
}

} // verus!
