use vstd::prelude::*;
use crate::config::native_parser_enabled;
use crate::config::ConfigFile;
use crate::harness::{case_step, kind_of, CaseEvent, CaseState, Outcome, OutcomeKind};

verus! {

/// The paths of a run, as text.
pub open spec fn texts(v: Seq<String>) -> Seq<Seq<char>> {
    v.map_values(|s: String| s@)
}

/// The paths, in order, of the cases whose outcome is of kind `k`.
pub open spec fn paths_of_kind(paths: Seq<Seq<char>>, outcomes: Seq<Outcome>, k: OutcomeKind) -> Seq<Seq<char>>
    decreases paths.len(),
{
    if paths.len() == 0 {
        seq![]
    } else {
        let before = paths_of_kind(paths.drop_last(), outcomes.drop_last(), k);
        if kind_of(outcomes[paths.len() - 1]) == k {
            before.push(paths.last())
        } else {
            before
        }
    }
}

/// The outcomes of a run, gathered by kind, each list in the order of the cases.
#[derive(Clone, Debug)]
pub struct Report {
    pub passed: Vec<String>,
    pub failed: Vec<String>,
    pub skipped: Vec<String>,
}

impl Report {
    /// A report of no cases.
    pub fn new() -> (r: Report)
        ensures
            r.passed@.len() == 0,
            r.failed@.len() == 0,
            r.skipped@.len() == 0,
    {
        Report { passed: Vec::new(), failed: Vec::new(), skipped: Vec::new() }
    }

    /// Adds one case's path to the list of its outcome's kind.
    pub fn record(&mut self, path: String, outcome: &Outcome)
        ensures
            final(self).passed@ == if kind_of(*outcome) == OutcomeKind::Passed {
                old(self).passed@.push(path)
            } else {
                old(self).passed@
            },
            final(self).failed@ == if kind_of(*outcome) == OutcomeKind::Failed {
                old(self).failed@.push(path)
            } else {
                old(self).failed@
            },
            final(self).skipped@ == if kind_of(*outcome) == OutcomeKind::Skipped {
                old(self).skipped@.push(path)
            } else {
                old(self).skipped@
            },
    {
        match outcome.kind() {
            OutcomeKind::Passed => self.passed.push(path),
            OutcomeKind::Failed => self.failed.push(path),
            OutcomeKind::Skipped => self.skipped.push(path),
        }
    }

    /// The report of a run whose `i`-th case has path `paths[i]` and outcome
    /// `outcomes[i]`.
    pub fn tally(paths: &Vec<String>, outcomes: &Vec<Outcome>) -> (r: Report)
        requires
            paths.len() == outcomes.len(),
        ensures
            texts(r.passed@) == paths_of_kind(texts(paths@), outcomes@, OutcomeKind::Passed),
            texts(r.failed@) == paths_of_kind(texts(paths@), outcomes@, OutcomeKind::Failed),
            texts(r.skipped@) == paths_of_kind(texts(paths@), outcomes@, OutcomeKind::Skipped),
    {
        let mut r = Report::new();
        let mut i: usize = 0;
        assert(texts(r.passed@) =~= seq![]);
        assert(texts(r.failed@) =~= seq![]);
        assert(texts(r.skipped@) =~= seq![]);
        while i < paths.len()
            invariant
                i <= paths.len(),
                paths.len() == outcomes.len(),
                texts(r.passed@) == paths_of_kind(texts(paths@.take(i as int)), outcomes@.take(i as int), OutcomeKind::Passed),
                texts(r.failed@) == paths_of_kind(texts(paths@.take(i as int)), outcomes@.take(i as int), OutcomeKind::Failed),
                texts(r.skipped@) == paths_of_kind(texts(paths@.take(i as int)), outcomes@.take(i as int), OutcomeKind::Skipped),
            decreases paths.len() - i,
        {
            let ghost before = r;
            let p = paths[i].clone();
            r.record(p, &outcomes[i]);
            proof {
                let ps = texts(paths@.take(i + 1));
                let os = outcomes@.take(i + 1);
                assert(ps.drop_last() =~= texts(paths@.take(i as int)));
                assert(os.drop_last() =~= outcomes@.take(i as int));
                assert(ps.last() == paths@[i as int]@);
                assert(os[ps.len() - 1] == outcomes@[i as int]);
                assert(texts(before.passed@.push(p)) =~= texts(before.passed@).push(p@));
                assert(texts(before.failed@.push(p)) =~= texts(before.failed@).push(p@));
                assert(texts(before.skipped@.push(p)) =~= texts(before.skipped@).push(p@));
            }
            i += 1;
        }
        assert(paths@.take(i as int) =~= paths@);
        assert(outcomes@.take(i as int) =~= outcomes@);
        r
    }
}

/// Every case of a run is reported exactly once: the passed, failed and
/// skipped lists together hold one entry per case.
pub proof fn lemma_every_case_reported(paths: Seq<Seq<char>>, outcomes: Seq<Outcome>)
    requires
        paths.len() == outcomes.len(),
    ensures
        paths_of_kind(paths, outcomes, OutcomeKind::Passed).len()
            + paths_of_kind(paths, outcomes, OutcomeKind::Failed).len()
            + paths_of_kind(paths, outcomes, OutcomeKind::Skipped).len() == paths.len(),
    decreases paths.len(),
{
    if paths.len() > 0 {
        lemma_every_case_reported(paths.drop_last(), outcomes.drop_last());
    }
}

/// A case in a directory whose configuration disables the native parser is
/// skipped before the parser runs, and adds nothing to the passed or failed
/// lists of the run.
pub proof fn lemma_disabled_case_not_counted(
    cfg: ConfigFile,
    accept: bool,
    r: CaseState,
    paths: Seq<Seq<char>>,
    outcomes: Seq<Outcome>,
    path: Seq<char>,
)
    requires
        !native_parser_enabled(cfg),
        case_step(CaseState::ReadConfig, accept, CaseEvent::Config(cfg), r),
        paths.len() == outcomes.len(),
    ensures
        r == CaseState::Done(Outcome::Skipped),
        paths_of_kind(paths.push(path), outcomes.push(Outcome::Skipped), OutcomeKind::Passed)
            == paths_of_kind(paths, outcomes, OutcomeKind::Passed),
        paths_of_kind(paths.push(path), outcomes.push(Outcome::Skipped), OutcomeKind::Failed)
            == paths_of_kind(paths, outcomes, OutcomeKind::Failed),
{
    assert(paths.push(path).drop_last() =~= paths);
    assert(outcomes.push(Outcome::Skipped).drop_last() =~= outcomes);
}

} // verus!
