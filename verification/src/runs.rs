//! Which workflow runs are listed: of each workflow the newest run, and of
//! these only the ones that the two display switches let through.

use crate::model::deployment::Color;
use crate::model::workflow::WorkflowRun;
use crate::text::{equal, or_empty};
use vstd::prelude::*;

verus! {

/// Whether two runs belong to the same workflow.
pub open spec fn same_workflow(a: WorkflowRun, b: WorkflowRun) -> bool {
    a.workflow_id == b.workflow_id
}

/// Position `k` holds the newest run of its workflow: no run of that workflow
/// has a greater number, and none before it has the same.
pub open spec fn is_newest_run(runs: Seq<WorkflowRun>, k: int) -> bool {
    &&& 0 <= k < runs.len()
    &&& forall|j: int|
        0 <= j < runs.len() && #[trigger] same_workflow(runs[j], runs[k]) ==> runs[j].id
            < runs[k].id || (runs[j].id == runs[k].id && k <= j)
}

/// `run` is the newest run of its workflow among `runs`.
pub open spec fn is_newest_of(run: WorkflowRun, runs: Seq<WorkflowRun>) -> bool {
    exists|k: int| is_newest_run(runs, k) && runs[k] == run
}

/// `run` is the newest run of its workflow among `runs` and stands among the
/// first `upto` of them.
pub open spec fn is_newest_before(run: WorkflowRun, runs: Seq<WorkflowRun>, upto: int) -> bool {
    exists|k: int| 0 <= k < upto && is_newest_run(runs, k) && runs[k] == run
}

/// One of `listed` belongs to the workflow `workflow_id`.
pub open spec fn has_workflow(listed: Seq<WorkflowRun>, workflow_id: i64) -> bool {
    exists|m: int| 0 <= m < listed.len() && listed[m].workflow_id == workflow_id
}

/// The workflow ids rise along `listed`, so none occurs twice.
pub open spec fn by_rising_workflow(listed: Seq<WorkflowRun>) -> bool {
    forall|m: int, n: int|
        0 <= m < n < listed.len() ==> listed[m].workflow_id < listed[n].workflow_id
}

/// `newest` is what is kept of `runs`: for each workflow that has a run, its
/// newest run and no other, the workflows in rising order of their ids.
pub open spec fn lists_newest_runs(newest: Seq<WorkflowRun>, runs: Seq<WorkflowRun>) -> bool {
    &&& by_rising_workflow(newest)
    &&& forall|m: int| 0 <= m < newest.len() ==> is_newest_of(#[trigger] newest[m], runs)
    &&& forall|j: int| 0 <= j < runs.len() ==> has_workflow(newest, (#[trigger] runs[j]).workflow_id)
}

/// Whether position `k` holds the newest run of its workflow.
fn is_newest_of_its_workflow(runs: &Vec<WorkflowRun>, k: usize) -> (newest: bool)
    requires
        k < runs@.len(),
    ensures
        newest == is_newest_run(runs@, k as int),
{
    let mut j: usize = 0;
    while j < runs.len()
        invariant
            k < runs@.len(),
            j <= runs@.len(),
            forall|i: int|
                0 <= i < j && #[trigger] same_workflow(runs@[i], runs@[k as int]) ==> runs@[i].id
                    < runs@[k as int].id || (runs@[i].id == runs@[k as int].id && k <= i),
        decreases runs@.len() - j,
    {
        if runs[j].workflow_id == runs[k].workflow_id {
            let other: i64 = runs[j].id;
            let own: i64 = runs[k].id;
            if other > own || (other == own && j < k) {
                assert(same_workflow(runs@[j as int], runs@[k as int]));
                return false;
            }
        }
        j += 1;
    }
    true
}

/// Puts a run of a workflow not yet listed where its workflow id belongs.
/// Returns the place.
fn insert_by_workflow(listed: &mut Vec<WorkflowRun>, run: WorkflowRun) -> (at: Ghost<int>)
    requires
        by_rising_workflow(old(listed)@),
        !has_workflow(old(listed)@, run.workflow_id),
    ensures
        by_rising_workflow(final(listed)@),
        0 <= at@ <= old(listed)@.len(),
        final(listed)@ == old(listed)@.insert(at@, run),
{
    let mut p: usize = 0;
    while p < listed.len() && listed[p].workflow_id < run.workflow_id
        invariant
            p <= listed@.len(),
            forall|m: int| 0 <= m < p ==> listed@[m].workflow_id < run.workflow_id,
        decreases listed@.len() - p,
    {
        p += 1;
    }
    proof {
        let before = listed@;
        let after = before.insert(p as int, run);
        before.insert_ensures(p as int, run);
        assert forall|m: int, n: int| 0 <= m < n < after.len() implies after[m].workflow_id
            < after[n].workflow_id by {
            if p < before.len() {
                assert(before[p as int].workflow_id != run.workflow_id);
            }
            if n > p {
                assert(after[n] == before[n - 1]);
            }
            if m > p {
                assert(after[m] == before[m - 1]);
            }
        }
    }
    listed.insert(p, run);
    Ghost(p as int)
}

/// The position of the newest run of the workflow among the first `upto`;
/// -1 where none of them belongs to it.
spec fn run_champion(runs: Seq<WorkflowRun>, workflow_id: i64, upto: int) -> int
    decreases upto,
{
    if upto <= 0 {
        -1
    } else {
        let before = run_champion(runs, workflow_id, upto - 1);
        if runs[upto - 1].workflow_id == workflow_id && (before < 0 || runs[upto - 1].id
            > runs[before].id) {
            upto - 1
        } else {
            before
        }
    }
}

/// The champion of a workflow belongs to it, and no run of it among the first
/// `upto` beats it.
proof fn lemma_run_champion(runs: Seq<WorkflowRun>, workflow_id: i64, upto: int)
    requires
        0 <= upto <= runs.len(),
    ensures
        ({
            let c = run_champion(runs, workflow_id, upto);
            &&& -1 <= c < upto
            &&& c >= 0 ==> runs[c].workflow_id == workflow_id
            &&& forall|i: int|
                0 <= i < upto && runs[i].workflow_id == workflow_id ==> c >= 0 && (runs[i].id
                    < runs[c].id || (runs[i].id == runs[c].id && c <= i))
        }),
    decreases upto,
{
    if upto > 0 {
        lemma_run_champion(runs, workflow_id, upto - 1);
    }
}

/// Every workflow that has a run has a newest run.
pub proof fn lemma_newest_run_exists(runs: Seq<WorkflowRun>, j: int)
    requires
        0 <= j < runs.len(),
    ensures
        exists|k: int| is_newest_run(runs, k) && same_workflow(runs[k], runs[j]),
{
    let workflow_id = runs[j].workflow_id;
    lemma_run_champion(runs, workflow_id, runs.len() as int);
    let c = run_champion(runs, workflow_id, runs.len() as int);
    assert(is_newest_run(runs, c));
    assert(same_workflow(runs[c], runs[j]));
}

/// Two positions that both hold the newest run of one workflow are the same
/// position.
pub proof fn lemma_newest_run_unique(runs: Seq<WorkflowRun>, a: int, b: int)
    requires
        is_newest_run(runs, a),
        is_newest_run(runs, b),
        same_workflow(runs[a], runs[b]),
    ensures
        a == b,
{
    assert(same_workflow(runs[b], runs[a]));
}

/// What stands among the first `upto` stands among the first `upto + 1`.
proof fn lemma_newest_before_step(run: WorkflowRun, runs: Seq<WorkflowRun>, upto: int)
    requires
        is_newest_before(run, runs, upto),
    ensures
        is_newest_before(run, runs, upto + 1),
{
    let k = choose|k: int| 0 <= k < upto && is_newest_run(runs, k) && runs[k] == run;
    assert(0 <= k < upto + 1 && is_newest_run(runs, k) && runs[k] == run);
}

/// Keeps of the runs of a repository the newest run of each workflow, the
/// workflows in rising order of their ids.
pub fn newest_workflow_runs(runs: &Vec<WorkflowRun>) -> (newest: Vec<WorkflowRun>)
    ensures
        lists_newest_runs(newest@, runs@),
{
    let mut newest: Vec<WorkflowRun> = Vec::new();
    let mut i: usize = 0;
    while i < runs.len()
        invariant
            i <= runs@.len(),
            by_rising_workflow(newest@),
            forall|m: int|
                0 <= m < newest@.len() ==> is_newest_before(#[trigger] newest@[m], runs@, i as int),
            forall|k: int|
                0 <= k < i && #[trigger] is_newest_run(runs@, k) ==> has_workflow(
                    newest@,
                    runs@[k].workflow_id,
                ),
        decreases runs@.len() - i,
    {
        let ghost before = newest@;
        if is_newest_of_its_workflow(runs, i) {
            proof {
                if has_workflow(before, runs@[i as int].workflow_id) {
                    let m = choose|m: int|
                        0 <= m < before.len() && before[m].workflow_id == runs@[i as int].workflow_id;
                    assert(is_newest_before(before[m], runs@, i as int));
                    let k = choose|k: int|
                        0 <= k < i && is_newest_run(runs@, k) && runs@[k] == before[m];
                    assert(same_workflow(runs@[k], runs@[i as int]));
                    lemma_newest_run_unique(runs@, k, i as int);
                }
            }
            let run = runs[i].clone();
            let Ghost(at) = insert_by_workflow(&mut newest, run);
            proof {
                before.insert_ensures(at, run);
                assert forall|m: int| 0 <= m < newest@.len() implies is_newest_before(
                    #[trigger] newest@[m],
                    runs@,
                    i + 1,
                ) by {
                    if m < at {
                        assert(newest@[m] == before[m]);
                        lemma_newest_before_step(before[m], runs@, i as int);
                    } else if m == at {
                        assert(is_newest_run(runs@, i as int) && runs@[i as int] == newest@[m]);
                    } else {
                        assert(newest@[m] == before[m - 1]);
                        lemma_newest_before_step(before[m - 1], runs@, i as int);
                    }
                }
                assert forall|k: int|
                    0 <= k < i + 1 && #[trigger] is_newest_run(runs@, k) implies has_workflow(
                    newest@,
                    runs@[k].workflow_id,
                ) by {
                    if k == i {
                        assert(newest@[at].workflow_id == runs@[k].workflow_id);
                    } else {
                        let m = choose|m: int|
                            0 <= m < before.len() && before[m].workflow_id == runs@[k].workflow_id;
                        if m < at {
                            assert(newest@[m] == before[m]);
                        } else {
                            assert(newest@[m + 1] == before[m]);
                        }
                    }
                }
            }
        } else {
            proof {
                assert forall|m: int| 0 <= m < newest@.len() implies is_newest_before(
                    #[trigger] newest@[m],
                    runs@,
                    i + 1,
                ) by {
                    lemma_newest_before_step(newest@[m], runs@, i as int);
                }
            }
        }
        i += 1;
    }
    proof {
        assert forall|m: int| 0 <= m < newest@.len() implies is_newest_of(
            #[trigger] newest@[m],
            runs@,
        ) by {
            assert(is_newest_before(newest@[m], runs@, i as int));
            let k = choose|k: int|
                0 <= k < i && is_newest_run(runs@, k) && runs@[k] == newest@[m];
            assert(is_newest_run(runs@, k) && runs@[k] == newest@[m]);
        }
        assert forall|j: int| 0 <= j < runs@.len() implies has_workflow(
            newest@,
            (#[trigger] runs@[j]).workflow_id,
        ) by {
            lemma_newest_run_exists(runs@, j);
            let k = choose|k: int| is_newest_run(runs@, k) && same_workflow(runs@[k], runs@[j]);
            assert(has_workflow(newest@, runs@[k].workflow_id));
        }
    }
    newest
}

/// The event that a pull request gives to the runs it starts.
pub open spec fn pull_request_event() -> Seq<char> {
    "pull_request"@
}

/// The conclusion of a run that succeeded.
pub open spec fn success() -> Seq<char> {
    "success"@
}

/// The conclusion of a run that failed.
pub open spec fn failure() -> Seq<char> {
    "failure"@
}

/// The conclusion of a run as text, empty while the run has none.
pub open spec fn conclusion_text(run: WorkflowRun) -> Seq<char> {
    or_empty(run.conclusion)
}

/// Whether the two switches let a run through: a run that a pull request
/// started only with `show_pull_requests`, a run that succeeded only with
/// `show_successful`.
pub open spec fn is_shown(run: WorkflowRun, show_pull_requests: bool, show_successful: bool) -> bool {
    &&& run.event@ != pull_request_event() || show_pull_requests
    &&& conclusion_text(run) != success() || show_successful
}

/// The test that the two switches make, as a predicate on runs.
pub open spec fn shown_with(show_pull_requests: bool, show_successful: bool) -> spec_fn(
    WorkflowRun,
) -> bool {
    |run: WorkflowRun| is_shown(run, show_pull_requests, show_successful)
}

/// Whether a run is let through by the two switches.
pub fn is_run_shown(run: &WorkflowRun, show_pull_requests: bool, show_successful: bool) -> (shown:
    bool)
    ensures
        shown == is_shown(*run, show_pull_requests, show_successful),
{
    if !show_pull_requests && equal(run.event.as_str(), "pull_request") {
        return false;
    }
    if show_successful {
        return true;
    }
    match &run.conclusion {
        Some(conclusion) => !equal(conclusion.as_str(), "success"),
        None => {
            proof {
                reveal_strlit("success");
                assert("success"@.len() == 7);
            }
            true
        },
    }
}

/// The runs to list for one repository: the newest run of each workflow, in
/// rising order of the workflow ids, without those that the switches hide.
pub fn shown_runs(runs: &Vec<WorkflowRun>, show_pull_requests: bool, show_successful: bool) -> (shown:
    Vec<WorkflowRun>)
    ensures
        exists|newest: Seq<WorkflowRun>|
            lists_newest_runs(newest, runs@) && shown@ == newest.filter(
                shown_with(show_pull_requests, show_successful),
            ),
{
    let newest = newest_workflow_runs(runs);
    let ghost test = shown_with(show_pull_requests, show_successful);
    let mut shown: Vec<WorkflowRun> = Vec::new();
    let mut i: usize = 0;
    assert(newest@.take(0).filter(test) =~= Seq::<WorkflowRun>::empty()) by {
        newest@.take(0).lemma_filter_len(test);
    }
    while i < newest.len()
        invariant
            i <= newest@.len(),
            test == shown_with(show_pull_requests, show_successful),
            shown@ == newest@.take(i as int).filter(test),
        decreases newest@.len() - i,
    {
        proof {
            newest@.take(i as int).lemma_filter_push(newest@[i as int], test);
            assert(newest@.take(i as int).push(newest@[i as int]) =~= newest@.take(i + 1));
        }
        if is_run_shown(&newest[i], show_pull_requests, show_successful) {
            shown.push(newest[i].clone());
        }
        i += 1;
    }
    assert(newest@.take(newest@.len() as int) =~= newest@);
    shown
}

/// The colour that stands for a conclusion: green for success, red for
/// failure, gray for every other and for none.
pub open spec fn conclusion_shade(run: WorkflowRun) -> Color {
    if run.conclusion is Some && conclusion_text(run) == success() {
        Color::LightGreen
    } else if run.conclusion is Some && conclusion_text(run) == failure() {
        Color::LightRed
    } else {
        Color::LightGray
    }
}

/// The colour in which the conclusion of a run is shown.
pub fn conclusion_color(run: &WorkflowRun) -> (color: Color)
    ensures
        color == conclusion_shade(*run),
{
    match &run.conclusion {
        Some(conclusion) => {
            if equal(conclusion.as_str(), "success") {
                Color::LightGreen
            } else if equal(conclusion.as_str(), "failure") {
                Color::LightRed
            } else {
                Color::LightGray
            }
        },
        None => Color::LightGray,
    }
}

/// Of the runs that share a workflow, the one listed has the greatest number:
/// it is one of the runs, and no run of its workflow has a greater number.
pub proof fn law_listed_run_is_newest(
    runs: Seq<WorkflowRun>,
    newest: Seq<WorkflowRun>,
    m: int,
    j: int,
)
    requires
        lists_newest_runs(newest, runs),
        0 <= m < newest.len(),
        0 <= j < runs.len(),
        newest[m].workflow_id == runs[j].workflow_id,
    ensures
        runs.contains(newest[m]),
        newest[m].id >= runs[j].id,
{
    assert(is_newest_of(newest[m], runs));
    let k = choose|k: int| is_newest_run(runs, k) && runs[k] == newest[m];
    assert(same_workflow(runs[j], runs[k]));
}

/// Every workflow that has a run has exactly one run listed before the
/// switches are applied.
pub proof fn law_one_run_per_workflow(runs: Seq<WorkflowRun>, newest: Seq<WorkflowRun>, j: int)
    requires
        lists_newest_runs(newest, runs),
        0 <= j < runs.len(),
    ensures
        exists|m: int|
            0 <= m < newest.len() && newest[m].workflow_id == runs[j].workflow_id && forall|n: int|
                0 <= n < newest.len() && newest[n].workflow_id == runs[j].workflow_id ==> n == m,
{
    assert(has_workflow(newest, runs[j].workflow_id));
    let m = choose|m: int| 0 <= m < newest.len() && newest[m].workflow_id == runs[j].workflow_id;
    assert forall|n: int|
        0 <= n < newest.len() && newest[n].workflow_id == runs[j].workflow_id implies n == m by {
        if n < m {
            assert(newest[n].workflow_id < newest[m].workflow_id);
        } else if m < n {
            assert(newest[m].workflow_id < newest[n].workflow_id);
        }
    }
}

/// Two lists by rising workflow id that name the same workflows name them at
/// the same places.
proof fn lemma_same_workflows_same_length(a: Seq<WorkflowRun>, b: Seq<WorkflowRun>)
    requires
        by_rising_workflow(a),
        by_rising_workflow(b),
        forall|m: int| 0 <= m < a.len() ==> has_workflow(b, (#[trigger] a[m]).workflow_id),
        forall|m: int| 0 <= m < b.len() ==> has_workflow(a, (#[trigger] b[m]).workflow_id),
    ensures
        a.len() == b.len(),
        forall|m: int| 0 <= m < a.len() ==> (#[trigger] a[m]).workflow_id == b[m].workflow_id,
    decreases a.len(),
{
    if a.len() == 0 {
        if b.len() > 0 {
            assert(has_workflow(a, b[0].workflow_id));
        }
    } else {
        let top = a.last();
        assert(has_workflow(b, a[a.len() - 1].workflow_id));
        let at = choose|at: int| 0 <= at < b.len() && b[at].workflow_id == top.workflow_id;
        assert(has_workflow(a, b[b.len() - 1].workflow_id));
        let back = choose|back: int|
            0 <= back < a.len() && a[back].workflow_id == b.last().workflow_id;
        assert(at == b.len() - 1);
        let shorter_a = a.drop_last();
        let shorter_b = b.drop_last();
        assert forall|m: int| 0 <= m < shorter_a.len() implies has_workflow(
            shorter_b,
            (#[trigger] shorter_a[m]).workflow_id,
        ) by {
            assert(has_workflow(b, a[m].workflow_id));
            let n = choose|n: int| 0 <= n < b.len() && b[n].workflow_id == a[m].workflow_id;
            assert(shorter_b[n].workflow_id == a[m].workflow_id);
        }
        assert forall|m: int| 0 <= m < shorter_b.len() implies has_workflow(
            shorter_a,
            (#[trigger] shorter_b[m]).workflow_id,
        ) by {
            assert(has_workflow(a, b[m].workflow_id));
            let n = choose|n: int| 0 <= n < a.len() && a[n].workflow_id == b[m].workflow_id;
            assert(shorter_a[n].workflow_id == b[m].workflow_id);
        }
        lemma_same_workflows_same_length(shorter_a, shorter_b);
        assert forall|m: int| 0 <= m < a.len() implies (#[trigger] a[m]).workflow_id
            == b[m].workflow_id by {
            if m < a.len() - 1 {
                assert(shorter_a[m].workflow_id == shorter_b[m].workflow_id);
            }
        }
    }
}

/// The runs decide what is kept of them: two lists that both hold the newest
/// run of each workflow by rising workflow id are the same list.
pub proof fn law_newest_runs_are_determined(
    runs: Seq<WorkflowRun>,
    a: Seq<WorkflowRun>,
    b: Seq<WorkflowRun>,
)
    requires
        lists_newest_runs(a, runs),
        lists_newest_runs(b, runs),
    ensures
        a == b,
{
    assert forall|m: int| 0 <= m < a.len() implies has_workflow(
        b,
        (#[trigger] a[m]).workflow_id,
    ) by {
        assert(is_newest_of(a[m], runs));
        let k = choose|k: int| is_newest_run(runs, k) && runs[k] == a[m];
        assert(has_workflow(b, runs[k].workflow_id));
    }
    assert forall|m: int| 0 <= m < b.len() implies has_workflow(
        a,
        (#[trigger] b[m]).workflow_id,
    ) by {
        assert(is_newest_of(b[m], runs));
        let k = choose|k: int| is_newest_run(runs, k) && runs[k] == b[m];
        assert(has_workflow(a, runs[k].workflow_id));
    }
    lemma_same_workflows_same_length(a, b);
    assert forall|m: int| 0 <= m < a.len() implies a[m] == b[m] by {
        assert(is_newest_of(a[m], runs));
        assert(is_newest_of(b[m], runs));
        let k = choose|k: int| is_newest_run(runs, k) && runs[k] == a[m];
        let l = choose|l: int| is_newest_run(runs, l) && runs[l] == b[m];
        assert(same_workflow(runs[k], runs[l]));
        lemma_newest_run_unique(runs, k, l);
    }
    assert(a =~= b);
}

/// What the switches do: a run is in the list shown exactly if it is one of
/// the newest runs and the switches let it through. So a run that a pull
/// request started is left out while `show_pull_requests` is off, and a run
/// that succeeded while `show_successful` is off.
pub proof fn law_switches_hide_runs(
    newest: Seq<WorkflowRun>,
    show_pull_requests: bool,
    show_successful: bool,
    run: WorkflowRun,
)
    ensures
        newest.filter(shown_with(show_pull_requests, show_successful)).contains(run) <==> (
        newest.contains(run) && is_shown(run, show_pull_requests, show_successful)),
        run.event@ == pull_request_event() && !show_pull_requests ==> !newest.filter(
            shown_with(show_pull_requests, show_successful),
        ).contains(run),
        conclusion_text(run) == success() && !show_successful ==> !newest.filter(
            shown_with(show_pull_requests, show_successful),
        ).contains(run),
{
    let test = shown_with(show_pull_requests, show_successful);
    let shown = newest.filter(test);
    if shown.contains(run) {
        let at = choose|at: int| 0 <= at < shown.len() && shown[at] == run;
        newest.lemma_filter_pred(test, at);
        newest.lemma_filter_contains_rev(test, run);
    }
    if newest.contains(run) && is_shown(run, show_pull_requests, show_successful) {
        let at = choose|at: int| 0 <= at < newest.len() && newest[at] == run;
        newest.lemma_filter_contains(test, at);
    }
}

} // verus!
