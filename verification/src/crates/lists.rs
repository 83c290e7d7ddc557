//! Named lists of packages.

use crate::crates::sources::registry::RegistryCrate;
use crate::crates::{Crate, CrateView, RegistryCrateView};
use crate::model::views;
use crate::text::str_eq;
use crate::Error;
use vstd::prelude::*;

verus! {

/// The registry package `name` in version `version`.
pub open spec fn registry(name: Seq<char>, version: Seq<char>) -> CrateView {
    CrateView::Registry(RegistryCrateView { name, version })
}

/// The packages of the demonstration list.
pub open spec fn spec_demo_crates() -> Seq<CrateView> {
    seq![
        registry("serde"@, "1.0.0"@),
        registry("tokio"@, "1.0.0"@),
        registry("regex"@, "1.0.0"@),
    ]
}

/// The one package of the list used for dry runs.
pub open spec fn spec_dummy_crates() -> Seq<CrateView> {
    seq![registry("dummy"@, "0.1.0"@)]
}

/// The packages of the list called `list`, where there is one.
pub open spec fn spec_crates(list: Seq<char>) -> Option<Seq<CrateView>> {
    if list == "demo"@ {
        Some(spec_demo_crates())
    } else if list == "dummy"@ {
        Some(spec_dummy_crates())
    } else {
        None
    }
}

/// The packages of the list called `list`; `BadRequest` where no list has
/// that name.
pub fn get_crates(list: &str) -> (r: Result<Vec<Crate>, Error>)
    ensures
        match spec_crates(list@) {
            Some(crates) => r is Ok && views(r.unwrap()@) == crates,
            None => r == Err::<Vec<Crate>, Error>(Error::BadRequest),
        },
{
    if str_eq(list, "demo") {
        Ok(demo_crates())
    } else if str_eq(list, "dummy") {
        Ok(dummy_crates())
    } else {
        Err(Error::BadRequest)
    }
}

pub fn demo_crates() -> (r: Vec<Crate>)
    ensures
        views(r@) == spec_demo_crates(),
{
    let mut v: Vec<Crate> = Vec::new();
    v.push(Crate::Registry(RegistryCrate::new("serde", "1.0.0")));
    v.push(Crate::Registry(RegistryCrate::new("tokio", "1.0.0")));
    v.push(Crate::Registry(RegistryCrate::new("regex", "1.0.0")));
    assert(views(v@) =~= spec_demo_crates());
    v
}

pub fn dummy_crates() -> (r: Vec<Crate>)
    ensures
        views(r@) == spec_dummy_crates(),
{
    let mut v: Vec<Crate> = Vec::new();
    v.push(Crate::Registry(RegistryCrate::new("dummy", "0.1.0")));
    assert(views(v@) =~= spec_dummy_crates());
    v
}

} // verus!
