//! Sorting the results of an experiment into the report.

use crate::model::{opt_view, views};
use crate::report::{Comparison, CrateResult, CrateResultView, RawTestResults};
use crate::results::{TestResult, TestResultView};
use vstd::prelude::*;

verus! {

/// How much a report holds.
#[derive(Debug, Clone, Copy)]
pub enum ReportConfig {
    Simple,
    Complete(ToolchainSelect),
}

/// Which of the two toolchains a complete report is about.
#[derive(Debug, Clone, Copy)]
pub enum ToolchainSelect {
    Start,
    End,
}

/// How many packages fell to each comparison.
#[derive(Debug, Clone, Copy, PartialEq, Eq, Structural)]
pub struct Summary {
    pub total: usize,
    pub regressed: usize,
    pub fixed: usize,
    pub broken: usize,
    pub same_build_fail: usize,
    pub same_test_fail: usize,
    pub same_test_pass: usize,
    pub same_test_skipped: usize,
    pub skipped: usize,
    pub unknown: usize,
    pub errors: usize,
    pub prepare_fail: usize,
    pub spurious_regressed: usize,
    pub spurious_fixed: usize,
}

/// The number of comparisons.
pub const COMPARISONS: usize = 13;

impl Comparison {
    /// The place of the comparison among all comparisons.
    pub open spec fn spec_index(self) -> int {
        match self {
            Comparison::Regressed => 0,
            Comparison::Fixed => 1,
            Comparison::Skipped => 2,
            Comparison::Unknown => 3,
            Comparison::Error => 4,
            Comparison::Broken => 5,
            Comparison::PrepareFail => 6,
            Comparison::SameBuildFail => 7,
            Comparison::SameTestFail => 8,
            Comparison::SameTestSkipped => 9,
            Comparison::SameTestPass => 10,
            Comparison::SpuriousRegressed => 11,
            Comparison::SpuriousFixed => 12,
        }
    }

    /// The place of the comparison among all comparisons.
    pub fn index(&self) -> (r: usize)
        ensures
            r == self.spec_index(),
            r < COMPARISONS,
    {
        match self {
            Comparison::Regressed => 0,
            Comparison::Fixed => 1,
            Comparison::Skipped => 2,
            Comparison::Unknown => 3,
            Comparison::Error => 4,
            Comparison::Broken => 5,
            Comparison::PrepareFail => 6,
            Comparison::SameBuildFail => 7,
            Comparison::SameTestFail => 8,
            Comparison::SameTestSkipped => 9,
            Comparison::SameTestPass => 10,
            Comparison::SpuriousRegressed => 11,
            Comparison::SpuriousFixed => 12,
        }
    }
}

/// The results with comparison `c` among `results`, in their order.
pub open spec fn with_comparison(results: Seq<CrateResultView>, c: Comparison) -> Seq<
    CrateResultView,
> {
    results.filter(|r: CrateResultView| r.res == c)
}

/// The summary of `results`: their number, and the number of those with
/// each comparison.
pub open spec fn summary_of(results: Seq<CrateResultView>) -> Summary {
    Summary {
        total: results.len() as usize,
        regressed: with_comparison(results, Comparison::Regressed).len() as usize,
        fixed: with_comparison(results, Comparison::Fixed).len() as usize,
        broken: with_comparison(results, Comparison::Broken).len() as usize,
        same_build_fail: with_comparison(results, Comparison::SameBuildFail).len() as usize,
        same_test_fail: with_comparison(results, Comparison::SameTestFail).len() as usize,
        same_test_pass: with_comparison(results, Comparison::SameTestPass).len() as usize,
        same_test_skipped: with_comparison(results, Comparison::SameTestSkipped).len() as usize,
        skipped: with_comparison(results, Comparison::Skipped).len() as usize,
        unknown: with_comparison(results, Comparison::Unknown).len() as usize,
        errors: with_comparison(results, Comparison::Error).len() as usize,
        prepare_fail: with_comparison(results, Comparison::PrepareFail).len() as usize,
        spurious_regressed: with_comparison(results, Comparison::SpuriousRegressed).len() as usize,
        spurious_fixed: with_comparison(results, Comparison::SpuriousFixed).len() as usize,
    }
}

/// The results of an experiment, sorted by comparison.
#[derive(Debug)]
pub struct Categories {
    buckets: Vec<Vec<CrateResult>>,
}

impl Categories {
    #[verifier::type_invariant]
    closed spec fn inv(&self) -> bool {
        self.buckets@.len() == COMPARISONS
    }

    /// The results with comparison `c`, in the order in which they came.
    pub closed spec fn bucket(&self, c: Comparison) -> Seq<CrateResultView> {
        views(self.buckets@[c.spec_index()]@)
    }

    /// No results.
    pub fn new() -> (r: Self)
        ensures
            forall|c: Comparison| r.bucket(c) == Seq::<CrateResultView>::empty(),
    {
        let mut buckets: Vec<Vec<CrateResult>> = Vec::new();
        let mut i: usize = 0;
        while i < COMPARISONS
            invariant
                0 <= i <= COMPARISONS,
                buckets@.len() == i,
                forall|k: int| 0 <= k < i ==> buckets@[k]@.len() == 0,
            decreases COMPARISONS - i,
        {
            buckets.push(Vec::new());
            i += 1;
        }
        assert forall|c: Comparison| views(buckets@[c.spec_index()]@) == Seq::<
            CrateResultView,
        >::empty() by {
            assert(views(buckets@[c.spec_index()]@) =~= Seq::<CrateResultView>::empty());
        }
        Categories { buckets }
    }

    /// The results with comparison `comparison`, where there are any.
    pub fn get(&self, comparison: &Comparison) -> (r: Option<&Vec<CrateResult>>)
        ensures
            match r {
                Some(v) => views(v@) == self.bucket(*comparison) && v@.len() > 0,
                None => self.bucket(*comparison).len() == 0,
            },
    {
        proof {
            use_type_invariant(self);
        }
        let b = &self.buckets[comparison.index()];
        if b.len() > 0 {
            Some(b)
        } else {
            None
        }
    }

    /// Adds a result behind the results with its comparison.
    pub fn add(&mut self, result: CrateResult)
        ensures
            final(self).bucket(result.res) == old(self).bucket(result.res).push(result@),
            forall|c: Comparison| c != result.res ==> final(self).bucket(c) == old(self).bucket(c),
    {
        proof {
            use_type_invariant(&*self);
        }
        let k = result.res.index();
        let ghost before = self.buckets@;
        let ghost rv = result@;
        let ghost res = result.res;
        let mut b: Vec<CrateResult> = Vec::new();
        std::mem::swap(&mut b, &mut self.buckets[k]);
        b.push(result);
        std::mem::swap(&mut b, &mut self.buckets[k]);
        proof {
            assert(views(self.buckets@[k as int]@) =~= views(before[k as int]@).push(rv));
            assert forall|c: Comparison| c != res implies views(
                self.buckets@[c.spec_index()]@,
            ) == views(before[c.spec_index()]@) by {
                assert(c.spec_index() != k);
            }
        }
    }
}

/// The results of an experiment, sorted into the report.
#[derive(Debug)]
pub struct TestResults {
    pub categories: Categories,
    pub summary: Summary,
}

impl Summary {
    /// A summary of nothing.
    pub fn new() -> (r: Self)
        ensures
            r == summary_of(Seq::empty()),
    {
        proof {
            reveal(Seq::filter);
        }
        Summary {
            total: 0,
            regressed: 0,
            fixed: 0,
            broken: 0,
            same_build_fail: 0,
            same_test_fail: 0,
            same_test_pass: 0,
            same_test_skipped: 0,
            skipped: 0,
            unknown: 0,
            errors: 0,
            prepare_fail: 0,
            spurious_regressed: 0,
            spurious_fixed: 0,
        }
    }

    /// The counts of all comparisons together.
    pub open spec fn classified(self) -> int {
        self.regressed + self.fixed + self.broken + self.same_build_fail + self.same_test_fail
            + self.same_test_pass + self.same_test_skipped + self.skipped + self.unknown
            + self.errors + self.prepare_fail + self.spurious_regressed + self.spurious_fixed
    }
}

/// The results with a comparison, after one more result has come.
pub proof fn lemma_with_comparison_push(results: Seq<CrateResultView>, x: CrateResultView, c: Comparison)
    ensures
        with_comparison(results.push(x), c) == if x.res == c {
            with_comparison(results, c).push(x)
        } else {
            with_comparison(results, c)
        },
        with_comparison(results, c).len() <= results.len(),
{
    reveal(Seq::filter);
    assert(results.push(x).drop_last() =~= results);
    results.lemma_filter_len(|r: CrateResultView| r.res == c);
}

/// The number of results with a comparison, after one more result has
/// come and before any has.
proof fn lemma_count_step(results: Seq<CrateResultView>, x: CrateResultView, c: Comparison)
    ensures
        with_comparison(results.push(x), c).len() == with_comparison(results, c).len() + if x.res
            == c {
            1int
        } else {
            0int
        },
        with_comparison(results, c).len() <= results.len(),
        with_comparison(Seq::empty(), c).len() == 0,
{
    lemma_with_comparison_push(results, x, c);
    Seq::<CrateResultView>::empty().lemma_filter_len(|r: CrateResultView| r.res == c);
}

/// The counts of all comparisons together, as numbers without bound.
pub open spec fn classified_of(results: Seq<CrateResultView>) -> nat {
    with_comparison(results, Comparison::Regressed).len() + with_comparison(
        results,
        Comparison::Fixed,
    ).len() + with_comparison(results, Comparison::Broken).len() + with_comparison(
        results,
        Comparison::SameBuildFail,
    ).len() + with_comparison(results, Comparison::SameTestFail).len() + with_comparison(
        results,
        Comparison::SameTestPass,
    ).len() + with_comparison(results, Comparison::SameTestSkipped).len() + with_comparison(
        results,
        Comparison::Skipped,
    ).len() + with_comparison(results, Comparison::Unknown).len() + with_comparison(
        results,
        Comparison::Error,
    ).len() + with_comparison(results, Comparison::PrepareFail).len() + with_comparison(
        results,
        Comparison::SpuriousRegressed,
    ).len() + with_comparison(results, Comparison::SpuriousFixed).len()
}

/// Calls the step for each comparison.
proof fn lemma_count_steps(results: Seq<CrateResultView>, x: CrateResultView)
    ensures
        classified_of(results.push(x)) == classified_of(results) + 1,
        classified_of(Seq::empty()) == 0,
        forall|c: Comparison| (#[trigger] with_comparison(results, c)).len() <= results.len(),
{
    lemma_count_step(results, x, Comparison::Regressed);
    lemma_count_step(results, x, Comparison::Fixed);
    lemma_count_step(results, x, Comparison::Broken);
    lemma_count_step(results, x, Comparison::SameBuildFail);
    lemma_count_step(results, x, Comparison::SameTestFail);
    lemma_count_step(results, x, Comparison::SameTestPass);
    lemma_count_step(results, x, Comparison::SameTestSkipped);
    lemma_count_step(results, x, Comparison::Skipped);
    lemma_count_step(results, x, Comparison::Unknown);
    lemma_count_step(results, x, Comparison::Error);
    lemma_count_step(results, x, Comparison::PrepareFail);
    lemma_count_step(results, x, Comparison::SpuriousRegressed);
    lemma_count_step(results, x, Comparison::SpuriousFixed);
    assert forall|c: Comparison| (#[trigger] with_comparison(results, c)).len()
        <= results.len() by {
        lemma_count_step(results, x, c);
    }
}

/// Every result has one comparison: the counts of all comparisons
/// together are the number of results.
pub proof fn lemma_classified_all(results: Seq<CrateResultView>)
    ensures
        classified_of(results) == results.len(),
    decreases results.len(),
{
    if results.len() == 0 {
        assert(results =~= Seq::empty());
        lemma_count_steps(results, arbitrary());
    } else {
        let front = results.drop_last();
        assert(front.push(results.last()) =~= results);
        lemma_classified_all(front);
        lemma_count_steps(front, results.last());
    }
}

/// Every result has one comparison: in the summary, the counts of all
/// comparisons together are the number of results, and so is the total.
pub proof fn lemma_counts_add_up(results: Seq<CrateResultView>)
    requires
        results.len() <= usize::MAX,
    ensures
        summary_of(results).total == results.len(),
        summary_of(results).classified() == results.len(),
{
    lemma_classified_all(results);
    lemma_count_steps(results, arbitrary());
}

/// A count, with one more where `hit` holds.
pub open spec fn plus_if(n: usize, hit: bool) -> usize {
    if hit {
        (n + 1) as usize
    } else {
        n
    }
}

/// One more in the count that belongs to a comparison.
fn counted(s: Summary, c: Comparison) -> (r: Summary)
    requires
        s.total < usize::MAX,
        s.regressed <= s.total,
        s.fixed <= s.total,
        s.broken <= s.total,
        s.same_build_fail <= s.total,
        s.same_test_fail <= s.total,
        s.same_test_pass <= s.total,
        s.same_test_skipped <= s.total,
        s.skipped <= s.total,
        s.unknown <= s.total,
        s.errors <= s.total,
        s.prepare_fail <= s.total,
        s.spurious_regressed <= s.total,
        s.spurious_fixed <= s.total,
    ensures
        r == (Summary {
            total: (s.total + 1) as usize,
            regressed: plus_if(s.regressed, c == Comparison::Regressed),
            fixed: plus_if(s.fixed, c == Comparison::Fixed),
            broken: plus_if(s.broken, c == Comparison::Broken),
            same_build_fail: plus_if(s.same_build_fail, c == Comparison::SameBuildFail),
            same_test_fail: plus_if(s.same_test_fail, c == Comparison::SameTestFail),
            same_test_pass: plus_if(s.same_test_pass, c == Comparison::SameTestPass),
            same_test_skipped: plus_if(s.same_test_skipped, c == Comparison::SameTestSkipped),
            skipped: plus_if(s.skipped, c == Comparison::Skipped),
            unknown: plus_if(s.unknown, c == Comparison::Unknown),
            errors: plus_if(s.errors, c == Comparison::Error),
            prepare_fail: plus_if(s.prepare_fail, c == Comparison::PrepareFail),
            spurious_regressed: plus_if(s.spurious_regressed, c == Comparison::SpuriousRegressed),
            spurious_fixed: plus_if(s.spurious_fixed, c == Comparison::SpuriousFixed),
        }),
{
    let mut r = s;
    r.total = r.total + 1;
    match c {
        Comparison::Regressed => {
            r.regressed = r.regressed + 1;
        },
        Comparison::Fixed => {
            r.fixed = r.fixed + 1;
        },
        Comparison::Broken => {
            r.broken = r.broken + 1;
        },
        Comparison::SameBuildFail => {
            r.same_build_fail = r.same_build_fail + 1;
        },
        Comparison::SameTestFail => {
            r.same_test_fail = r.same_test_fail + 1;
        },
        Comparison::SameTestPass => {
            r.same_test_pass = r.same_test_pass + 1;
        },
        Comparison::SameTestSkipped => {
            r.same_test_skipped = r.same_test_skipped + 1;
        },
        Comparison::Skipped => {
            r.skipped = r.skipped + 1;
        },
        Comparison::Unknown => {
            r.unknown = r.unknown + 1;
        },
        Comparison::Error => {
            r.errors = r.errors + 1;
        },
        Comparison::PrepareFail => {
            r.prepare_fail = r.prepare_fail + 1;
        },
        Comparison::SpuriousRegressed => {
            r.spurious_regressed = r.spurious_regressed + 1;
        },
        Comparison::SpuriousFixed => {
            r.spurious_fixed = r.spurious_fixed + 1;
        },
    }
    r
}

/// The items of `v`, last first.
pub fn reversed<T>(v: Vec<T>) -> (r: Vec<T>)
    ensures
        r@.len() == v@.len(),
        forall|k: int| 0 <= k < v@.len() ==> r@[k] == v@[v@.len() - 1 - k],
{
    let mut v = v;
    let ghost orig = v@;
    let n = v.len();
    let mut out: Vec<T> = Vec::new();
    let mut i: usize = 0;
    while i < n
        invariant
            0 <= i <= n,
            n == orig.len(),
            v@ == orig.subrange(0, n - i),
            out@.len() == i,
            forall|k: int| 0 <= k < i ==> out@[k] == orig[n - 1 - k],
        decreases n - i,
    {
        let x = v.pop().unwrap();
        out.push(x);
        i += 1;
        assert(v@ =~= orig.subrange(0, n - i));
    }
    out
}

impl TestResults {
    /// Sorts the results of an experiment by comparison, in the order in
    /// which they come, and counts them.
    pub fn from_raw(raw: RawTestResults) -> (r: Self)
        ensures
            forall|c: Comparison|
                r.categories.bucket(c) == with_comparison(views(raw.crates@), c),
            r.summary == summary_of(views(raw.crates@)),
            r.summary.total == raw.crates@.len(),
            r.summary.classified() == raw.crates@.len(),
    {
        let ghost all = views(raw.crates@);
        let mut categories = Categories::new();
        let mut summary = Summary::new();
        let n = raw.crates.len();
        // Taken from the end, so that each result can be moved; the list is
        // turned round first, so that they come in their order.
        let mut crates = reversed(raw.crates);
        let ghost rev = crates@;
        assert(rev.len() == n && forall|k: int| 0 <= k < n ==> rev[k] == raw.crates@[n - 1 - k]);
        let mut i: usize = 0;
        proof {
            reveal(Seq::filter);
            assert(all.subrange(0, 0) =~= Seq::empty());
            assert forall|c: Comparison| categories.bucket(c) == with_comparison(
                all.subrange(0, 0),
                c,
            ) by {}
        }
        while i < n
            invariant
                0 <= i <= n,
                n == all.len(),
                all == views(raw.crates@),
                crates@ == rev.subrange(0, n - i),
                rev.len() == n,
                forall|k: int| 0 <= k < n ==> rev[k] == raw.crates@[n - 1 - k],
                forall|c: Comparison|
                    categories.bucket(c) == with_comparison(all.subrange(0, i as int), c),
                summary == summary_of(all.subrange(0, i as int)),
            decreases n - i,
        {
            let ghost done = all.subrange(0, i as int);
            let x = crates.pop().unwrap();
            let ghost xv = x@;
            proof {
                assert(x == rev[n - i - 1]);
                assert(xv == all[i as int]);
                assert(all.subrange(0, i + 1) =~= done.push(xv));
                assert forall|c: Comparison| #![auto]
                    with_comparison(done.push(xv), c) == if xv.res == c {
                        with_comparison(done, c).push(xv)
                    } else {
                        with_comparison(done, c)
                    } && with_comparison(done, c).len() <= done.len() by {
                    lemma_with_comparison_push(done, xv, c);
                }
            }
            summary = counted(summary, x.res);
            categories.add(x);
            i += 1;
            proof {
                assert(crates@ =~= rev.subrange(0, n - i));
            }
        }
        assert(all.subrange(0, n as int) =~= all);
        proof {
            lemma_counts_add_up(all);
        }
        TestResults { categories, summary }
    }

    /// The results with comparison `comparison`, where there are any.
    pub fn get_category(&self, comparison: &Comparison) -> (r: Option<&Vec<CrateResult>>)
        ensures
            match r {
                Some(v) => views(v@) == self.categories.bucket(*comparison) && v@.len() > 0,
                None => self.categories.bucket(*comparison).len() == 0,
            },
    {
        self.categories.get(comparison)
    }

    /// The number of results.
    pub fn total(&self) -> (r: usize)
        ensures
            r == self.summary.total,
    {
        self.summary.total
    }
}

/// How two outcomes compare. The first line that fits decides.
pub open spec fn spec_compare(start: Option<TestResultView>, end: Option<TestResultView>) -> Comparison {
    match (start, end) {
        (None, None) => Comparison::Skipped,
        (None, Some(_)) => Comparison::Unknown,
        (Some(_), None) => Comparison::Unknown,
        (Some(s), Some(e)) => {
            if s is TestPass && e is TestPass {
                Comparison::SameTestPass
            } else if s is BuildFail && e is BuildFail {
                Comparison::SameBuildFail
            } else if s is TestFail && e is TestFail {
                Comparison::SameTestFail
            } else if s is TestSkipped && e is TestSkipped {
                Comparison::SameTestSkipped
            } else if s is BrokenCrate || e is BrokenCrate {
                Comparison::Broken
            } else if s is PrepareFail || e is PrepareFail {
                Comparison::PrepareFail
            } else if s is Error || e is Error {
                Comparison::Error
            } else if s is TestPass && (e is BuildFail || e is TestFail) {
                Comparison::Regressed
            } else if (s is BuildFail || s is TestFail) && e is TestPass {
                Comparison::Fixed
            } else if s is Skipped || e is Skipped {
                Comparison::Skipped
            } else {
                Comparison::Unknown
            }
        },
    }
}

/// How the outcome with the first toolchain and the outcome with the
/// second compare.
pub fn compare_results(start: &Option<TestResult>, end: &Option<TestResult>) -> (r: Comparison)
    ensures
        r == spec_compare(opt_view(*start), opt_view(*end)),
{
    match (start, end) {
        (None, None) => Comparison::Skipped,
        (None, Some(_)) => Comparison::Unknown,
        (Some(_), None) => Comparison::Unknown,
        (Some(s), Some(e)) => match (s, e) {
            (TestResult::TestPass, TestResult::TestPass) => Comparison::SameTestPass,
            (TestResult::BuildFail(_), TestResult::BuildFail(_)) => Comparison::SameBuildFail,
            (TestResult::TestFail(_), TestResult::TestFail(_)) => Comparison::SameTestFail,
            (TestResult::TestSkipped, TestResult::TestSkipped) => Comparison::SameTestSkipped,
            (TestResult::BrokenCrate(_), _) => Comparison::Broken,
            (_, TestResult::BrokenCrate(_)) => Comparison::Broken,
            (TestResult::PrepareFail(_), _) => Comparison::PrepareFail,
            (_, TestResult::PrepareFail(_)) => Comparison::PrepareFail,
            (TestResult::Error, _) => Comparison::Error,
            (_, TestResult::Error) => Comparison::Error,
            (TestResult::TestPass, TestResult::BuildFail(_)) => Comparison::Regressed,
            (TestResult::TestPass, TestResult::TestFail(_)) => Comparison::Regressed,
            (TestResult::BuildFail(_), TestResult::TestPass) => Comparison::Fixed,
            (TestResult::TestFail(_), TestResult::TestPass) => Comparison::Fixed,
            (TestResult::Skipped, _) => Comparison::Skipped,
            (_, TestResult::Skipped) => Comparison::Skipped,
            _ => Comparison::Unknown,
        },
    }
}

/// One line of the summary as JSON: two spaces, the name between quotes,
/// a colon, a space, and the number.
pub open spec fn json_line(name: Seq<char>, n: nat) -> Seq<char> {
    "  \""@ + name + "\": "@ + crate::text::nat_digits(n)
}

impl Summary {
    /// The summary as JSON text, one count on each line.
    pub open spec fn json_pretty(self) -> Seq<char> {
        "{\n"@ + json_line("total"@, self.total as nat) + ",\n"@ + json_line(
            "regressed"@,
            self.regressed as nat,
        ) + ",\n"@ + json_line("fixed"@, self.fixed as nat) + ",\n"@ + json_line(
            "broken"@,
            self.broken as nat,
        ) + ",\n"@ + json_line("same_build_fail"@, self.same_build_fail as nat) + ",\n"@
            + json_line("same_test_fail"@, self.same_test_fail as nat) + ",\n"@ + json_line(
            "same_test_pass"@,
            self.same_test_pass as nat,
        ) + ",\n"@ + json_line("same_test_skipped"@, self.same_test_skipped as nat) + ",\n"@
            + json_line("skipped"@, self.skipped as nat) + ",\n"@ + json_line(
            "unknown"@,
            self.unknown as nat,
        ) + ",\n"@ + json_line("errors"@, self.errors as nat) + ",\n"@ + json_line(
            "prepare_fail"@,
            self.prepare_fail as nat,
        ) + ",\n"@ + json_line("spurious_regressed"@, self.spurious_regressed as nat) + ",\n"@
            + json_line("spurious_fixed"@, self.spurious_fixed as nat) + "\n}"@
    }

    /// The summary as JSON text, one count on each line.
    pub fn to_json_pretty(&self) -> (r: String)
        ensures
            r@ == self.json_pretty(),
    {
        let mut out = "{\n".to_owned();
        push_json_line(&mut out, "total", self.total);
        out.append(",\n");
        push_json_line(&mut out, "regressed", self.regressed);
        out.append(",\n");
        push_json_line(&mut out, "fixed", self.fixed);
        out.append(",\n");
        push_json_line(&mut out, "broken", self.broken);
        out.append(",\n");
        push_json_line(&mut out, "same_build_fail", self.same_build_fail);
        out.append(",\n");
        push_json_line(&mut out, "same_test_fail", self.same_test_fail);
        out.append(",\n");
        push_json_line(&mut out, "same_test_pass", self.same_test_pass);
        out.append(",\n");
        push_json_line(&mut out, "same_test_skipped", self.same_test_skipped);
        out.append(",\n");
        push_json_line(&mut out, "skipped", self.skipped);
        out.append(",\n");
        push_json_line(&mut out, "unknown", self.unknown);
        out.append(",\n");
        push_json_line(&mut out, "errors", self.errors);
        out.append(",\n");
        push_json_line(&mut out, "prepare_fail", self.prepare_fail);
        out.append(",\n");
        push_json_line(&mut out, "spurious_regressed", self.spurious_regressed);
        out.append(",\n");
        push_json_line(&mut out, "spurious_fixed", self.spurious_fixed);
        out.append("\n}");
        out
    }
}

fn push_json_line(out: &mut String, name: &str, n: usize)
    ensures
        final(out)@ == old(out)@ + json_line(name@, n as nat),
{
    out.append("  \"");
    out.append(name);
    out.append("\": ");
    crate::text::push_u64(out, n as u64);
    assert(final(out)@ =~= old(out)@ + json_line(name@, n as nat));
}

} // verus!
