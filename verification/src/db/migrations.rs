//! The steps that bring a store to the current layout. Each step has a
//! name; a store records the names of the steps that were applied to it, and
//! a step that is recorded is never applied again.

use crate::db::experiments::{Database, DatabaseView};
use crate::model::views;
use crate::text::str_eq;
use crate::{Error, Fallible};
use vstd::prelude::*;

verus! {

/// The names of all steps, in the order in which they are applied.
pub open spec fn spec_names() -> Seq<Seq<char>> {
    seq![
        "create_experiments_table"@,
        "create_results_table"@,
        "create_shas_table"@,
        "create_saved_names_table"@,
        "create_experiment_crates_table"@,
        "create_experiment_metadata_table"@,
        "rename_github_issue_to_platform_issue"@,
        "create_agents_table"@,
        "create_api_tokens_table"@,
        "add_experiment_requirement"@,
        "add_experiment_crate_select"@,
    ]
}

/// The names of all steps, in the order in which they are applied.
pub fn names() -> (r: Vec<&'static str>)
    ensures
        views(r@) == spec_names(),
{
    let r = vec![
        "create_experiments_table",
        "create_results_table",
        "create_shas_table",
        "create_saved_names_table",
        "create_experiment_crates_table",
        "create_experiment_metadata_table",
        "rename_github_issue_to_platform_issue",
        "create_agents_table",
        "create_api_tokens_table",
        "add_experiment_requirement",
        "add_experiment_crate_select",
    ];
    assert(views(r@) =~= spec_names());
    r
}

/// No two steps share a name.
pub proof fn lemma_names_unique()
    ensures
        spec_names().no_duplicates(),
{
    reveal_strlit("create_experiments_table");
    reveal_strlit("create_results_table");
    reveal_strlit("create_shas_table");
    reveal_strlit("create_saved_names_table");
    reveal_strlit("create_experiment_crates_table");
    reveal_strlit("create_experiment_metadata_table");
    reveal_strlit("rename_github_issue_to_platform_issue");
    reveal_strlit("create_agents_table");
    reveal_strlit("create_api_tokens_table");
    reveal_strlit("add_experiment_requirement");
    reveal_strlit("add_experiment_crate_select");
    let n = spec_names();
    assert(n[0].len() == 24);
    assert(n[1].len() == 20);
    assert(n[2].len() == 17);
    assert(n[3].len() == 24);
    assert(n[4].len() == 30);
    assert(n[5].len() == 32);
    assert(n[6].len() == 37);
    assert(n[7].len() == 19);
    assert(n[8].len() == 23);
    assert(n[9].len() == 26);
    assert(n[10].len() == 27);
    assert(n[0][7] != n[3][7]);
}

/// The steps still to apply to a store that has `recorded` applied: the
/// steps that are not recorded, in their order.
pub open spec fn pending(recorded: Seq<Seq<char>>) -> Seq<Seq<char>> {
    spec_names().filter(|n: Seq<char>| !recorded.contains(n))
}

fn is_recorded(recorded: &Vec<String>, name: &str) -> (r: bool)
    ensures
        r == views(recorded@).contains(name@),
{
    let mut i: usize = 0;
    while i < recorded.len()
        invariant
            0 <= i <= recorded.len(),
            forall|j: int| 0 <= j < i ==> views(recorded@)[j] != name@,
        decreases recorded.len() - i,
    {
        if str_eq(recorded[i].as_str(), name) {
            assert(views(recorded@)[i as int] == name@);
            return true;
        }
        i += 1;
    }
    false
}

/// The steps still to apply to a store that has `recorded` applied.
pub fn plan(recorded: &Vec<String>) -> (r: Vec<&'static str>)
    ensures
        views(r@) == pending(views(recorded@)),
{
    let all = names();
    let ghost keep = |n: Seq<char>| !views(recorded@).contains(n);
    let mut out: Vec<&'static str> = Vec::new();
    let mut i: usize = 0;
    assert(spec_names().subrange(0, 0) =~= Seq::empty());
    proof {
        reveal(Seq::filter);
    }
    while i < all.len()
        invariant
            0 <= i <= all.len(),
            views(all@) == spec_names(),
            keep == |n: Seq<char>| !views(recorded@).contains(n),
            views(out@) == spec_names().subrange(0, i as int).filter(keep),
        decreases all.len() - i,
    {
        let ghost part = spec_names().subrange(0, i + 1);
        proof {
            reveal(Seq::filter);
            assert(part.drop_last() =~= spec_names().subrange(0, i as int));
            assert(part.last() == views(all@)[i as int]);
        }
        if !is_recorded(recorded, all[i]) {
            out.push(all[i]);
            assert(views(out@) =~= part.filter(keep));
        }
        i += 1;
    }
    assert(spec_names().subrange(0, spec_names().len() as int) =~= spec_names());
    out
}

/// Once the pending steps are recorded, no step is pending: applying the
/// steps again applies nothing.
pub proof fn lemma_nothing_pending_after(recorded: Seq<Seq<char>>)
    ensures
        pending(recorded + pending(recorded)) == Seq::<Seq<char>>::empty(),
{
    let after = recorded + pending(recorded);
    let keep_before = |n: Seq<char>| !recorded.contains(n);
    let keep_after = |n: Seq<char>| !after.contains(n);
    let left = spec_names().filter(keep_after);
    if left.len() > 0 {
        let n = left[0];
        crate::db::lemma_filter_member(spec_names(), keep_after, 0);
        let j = choose|j: int| 0 <= j < spec_names().len() && spec_names()[j] == n;
        if recorded.contains(n) {
            let k = choose|k: int| 0 <= k < recorded.len() && recorded[k] == n;
            assert(after[k] == n);
        } else {
            assert(keep_before(n));
            spec_names().lemma_filter_contains(keep_before, j);
            assert(pending(recorded).contains(n));
            let k = choose|k: int| 0 <= k < pending(recorded).len() && pending(recorded)[k] == n;
            assert(after[recorded.len() + k] == n);
        }
        assert(after.contains(n));
        assert(false);
    }
    assert(left =~= Seq::empty());
}

impl DatabaseView {
    /// The store with the pending steps applied.
    pub open spec fn migrated(self) -> DatabaseView {
        DatabaseView { migrations: self.migrations + pending(self.migrations), ..self }
    }
}

/// Applies the pending steps to the store, in their order, and records
/// them.
pub fn execute(db: &mut Database) -> (r: Fallible<()>)
    requires
        old(db)@.wf(),
    ensures
        r is Ok,
        final(db)@ == old(db)@.migrated(),
        final(db)@.wf(),
{
    let ghost before = db@;
    let steps = plan(&db.migrations);
    let mut i: usize = 0;
    while i < steps.len()
        invariant
            0 <= i <= steps.len(),
            views(steps@) == pending(before.migrations),
            db@ == (DatabaseView {
                migrations: before.migrations + pending(before.migrations).subrange(0, i as int),
                ..before
            }),
        decreases steps.len() - i,
    {
        let ghost cur = db@;
        db.migrations.push(steps[i].to_owned());
        proof {
            assert(views(steps@)[i as int] == steps@[i as int]@);
            assert(pending(before.migrations)[i as int] == steps@[i as int]@);
            assert(db@.migrations =~= cur.migrations.push(steps@[i as int]@));
            assert(db@.migrations =~= before.migrations + pending(before.migrations).subrange(
                0,
                i + 1,
            ));
            assert(db@.experiments =~= cur.experiments);
        }
        i += 1;
    }
    proof {
        assert(pending(before.migrations).subrange(0, steps@.len() as int) =~= pending(
            before.migrations,
        ));
        assert(db@.names() =~= before.names());
        assert(db@.agent_ids() =~= before.agent_ids());
        assert(db@.token_keys() =~= before.token_keys());
    }
    Ok(())
}

impl Database {
    /// A store in memory that holds nothing, brought to the current
    /// layout.
    pub fn temp() -> (r: Fallible<Database>)
        ensures
            r is Ok,
            r.unwrap()@ == DatabaseView::empty().migrated(),
            r.unwrap()@.wf(),
    {
        let mut db = Database::new();
        match execute(&mut db) {
            Ok(()) => Ok(db),
            Err(e) => Err(e),
        }
    }

    /// The names of the steps that were applied to the store, in order.
    pub fn applied_migrations(&self) -> (r: Vec<String>)
        ensures
            views(r@) == self@.migrations,
    {
        crate::model::clone_strings(&self.migrations)
    }
}

} // verus!
