//! The rules that keep the latest of each kind of record: the status with the
//! greatest number, the deployment with the greatest number of each
//! environment, the run with the greatest number of each workflow.

use crate::model::deployment::{Deployment, Status};
use crate::order::{sorted_newest_first, with_id};
use vstd::prelude::*;

verus! {

/// Position `k` holds the latest status: no status has a greater number, and
/// none before it has the same.
pub open spec fn is_latest_status(statuses: Seq<Status>, k: int) -> bool {
    &&& 0 <= k < statuses.len()
    &&& forall|j: int| 0 <= j < statuses.len() ==> statuses[j].id <= statuses[k].id
    &&& forall|j: int| 0 <= j < k ==> statuses[j].id < statuses[k].id
}

/// At most one position holds the latest status.
pub proof fn law_one_latest_status(statuses: Seq<Status>, a: int, b: int)
    requires
        is_latest_status(statuses, a),
        is_latest_status(statuses, b),
    ensures
        a == b,
{
}

/// The first to pass a test is the first of those that a filter keeps.
proof fn lemma_filter_first<A>(s: Seq<A>, p: spec_fn(A) -> bool, k: int)
    requires
        0 <= k < s.len(),
        p(s[k]),
        forall|j: int| 0 <= j < k ==> !p(s[j]),
    ensures
        s.filter(p).len() > 0,
        s.filter(p)[0] == s[k],
    decreases s.len(),
{
    let rest = s.drop_last();
    assert(s =~= rest.push(s.last()));
    rest.lemma_filter_push(s.last(), p);
    if k < s.len() - 1 {
        lemma_filter_first(rest, p, k);
    } else {
        assert(rest.all(|x: A| !p(x)));
        rest.lemma_all_neg_filter_empty(p);
    }
}

/// Where one passes a test, one is the first to pass it.
proof fn lemma_first_match<A>(s: Seq<A>, p: spec_fn(A) -> bool, i: int) -> (k: int)
    requires
        0 <= i < s.len(),
        p(s[i]),
    ensures
        0 <= k <= i,
        p(s[k]),
        forall|j: int| 0 <= j < k ==> !p(s[j]),
    decreases i,
{
    if exists|j: int| 0 <= j < i && p(s[j]) {
        let j = choose|j: int| 0 <= j < i && p(s[j]);
        lemma_first_match(s, p, j)
    } else {
        i
    }
}

/// What a stable sort by falling number puts first is the latest status of
/// what it was given.
proof fn lemma_first_of_sorted(given: Seq<Status>, sorted: Seq<Status>)
    requires
        sorted.len() == given.len(),
        given.len() > 0,
        forall|i: int, j: int| 0 <= i < j < sorted.len() ==> sorted[i].id >= sorted[j].id,
        forall|id: i64| #[trigger] sorted.filter(with_id(id)) == given.filter(with_id(id)),
    ensures
        exists|k: int| is_latest_status(given, k) && sorted[0] == given[k],
{
    let top = sorted[0].id;
    let p = with_id(top);
    lemma_filter_first(sorted, p, 0);
    let kept = given.filter(p);
    assert(kept == sorted.filter(p));
    assert(kept[0] == sorted[0]);
    assert(kept.contains(kept[0]));
    given.lemma_filter_contains_rev(p, kept[0]);
    let i = choose|i: int| 0 <= i < given.len() && given[i] == kept[0];
    let k = lemma_first_match(given, p, i);
    lemma_filter_first(given, p, k);
    assert(sorted[0] == given[k]);
    assert forall|j: int| 0 <= j < given.len() implies given[j].id <= given[k].id by {
        let q = with_id(given[j].id);
        given.lemma_filter_contains(q, j);
        assert(sorted.filter(q) == given.filter(q));
        sorted.lemma_filter_contains_rev(q, given[j]);
        let at = choose|at: int| 0 <= at < sorted.len() && sorted[at] == given[j];
        assert(sorted[at].id <= sorted[0].id);
    }
    assert forall|j: int| 0 <= j < k implies given[j].id < given[k].id by {
        assert(!p(given[j]));
    }
    assert(is_latest_status(given, k));
}

/// The latest of the statuses that the host returned for one deployment: the
/// one with the greatest number, and the first of these in the response
/// where several carry it. None where the response is empty.
pub fn latest_status(statuses: Vec<Status>) -> (latest: Option<Status>)
    ensures
        statuses@.len() == 0 ==> latest is None,
        statuses@.len() > 0 ==> latest is Some && exists|k: int|
            is_latest_status(statuses@, k) && latest->0 == statuses@[k],
{
    let ghost given = statuses@;
    let sorted = sorted_newest_first(statuses);
    if sorted.len() == 0 {
        return None;
    }
    let first = sorted[0].clone();
    proof {
        lemma_first_of_sorted(given, sorted@);
    }
    Some(first)
}

/// Whether two deployments went to the same environment.
pub open spec fn same_environment(a: Deployment, b: Deployment) -> bool {
    a.environment@ == b.environment@
}

/// Position `k` holds the latest deployment of its environment: no deployment
/// to that environment has a greater number, and none after it has the same.
pub open spec fn is_latest_deployment(deployments: Seq<Deployment>, k: int) -> bool {
    &&& 0 <= k < deployments.len()
    &&& forall|j: int|
        0 <= j < deployments.len() && #[trigger] same_environment(deployments[j], deployments[k])
            ==> deployments[j].id < deployments[k].id || (deployments[j].id == deployments[k].id
            && j <= k)
}

/// Of the first `upto` deployments those that are the latest of their
/// environment, in the order of the response.
pub open spec fn latest_deployments_upto(deployments: Seq<Deployment>, upto: int) -> Seq<
    Deployment,
>
    decreases upto,
{
    if upto <= 0 {
        Seq::empty()
    } else {
        let before = latest_deployments_upto(deployments, upto - 1);
        if is_latest_deployment(deployments, upto - 1) {
            before.push(deployments[upto - 1])
        } else {
            before
        }
    }
}

/// The deployments that are kept of a response: the latest of each
/// environment, in the order of the response.
pub open spec fn latest_deployments(deployments: Seq<Deployment>) -> Seq<Deployment> {
    latest_deployments_upto(deployments, deployments.len() as int)
}

/// The deployment that is shown for an environment: the first of those kept
/// that went to it.
pub open spec fn first_in_environment(kept: Seq<Deployment>, environment: Seq<char>) -> Option<
    Deployment,
>
    decreases kept.len(),
{
    if kept.len() == 0 {
        None
    } else if kept[0].environment@ == environment {
        Some(kept[0])
    } else {
        first_in_environment(kept.drop_first(), environment)
    }
}

/// Whether position `k` holds the latest deployment of its environment.
fn is_latest_of_its_environment(deployments: &Vec<Deployment>, k: usize) -> (latest: bool)
    requires
        k < deployments@.len(),
    ensures
        latest == is_latest_deployment(deployments@, k as int),
{
    let mut j: usize = 0;
    while j < deployments.len()
        invariant
            k < deployments@.len(),
            j <= deployments@.len(),
            forall|i: int|
                0 <= i < j && #[trigger] same_environment(deployments@[i], deployments@[k as int])
                    ==> deployments@[i].id < deployments@[k as int].id || (deployments@[i].id
                    == deployments@[k as int].id && i <= k),
        decreases deployments@.len() - j,
    {
        if deployments[j].environment == deployments[k].environment {
            let other: i64 = deployments[j].id;
            let own: i64 = deployments[k].id;
            if other > own || (other == own && j > k) {
                assert(same_environment(deployments@[j as int], deployments@[k as int]));
                return false;
            }
        }
        j += 1;
    }
    true
}

/// Keeps of a response the latest deployment of each environment.
pub fn latest_deployments_per_environment(response: &Vec<Deployment>) -> (latest: Vec<Deployment>)
    ensures
        latest@ == latest_deployments(response@),
{
    let mut latest: Vec<Deployment> = Vec::new();
    let mut i: usize = 0;
    while i < response.len()
        invariant
            i <= response@.len(),
            latest@ == latest_deployments_upto(response@, i as int),
        decreases response@.len() - i,
    {
        if is_latest_of_its_environment(response, i) {
            latest.push(response[i].clone());
        }
        i += 1;
    }
    latest
}

/// A deployment to another environment can be passed over in the search.
proof fn lemma_first_in_environment_step(kept: Seq<Deployment>, environment: Seq<char>, i: int)
    requires
        0 <= i < kept.len(),
        kept[i].environment@ != environment,
    ensures
        first_in_environment(kept.skip(i), environment) == first_in_environment(
            kept.skip(i + 1),
            environment,
        ),
{
    assert(kept.skip(i).drop_first() =~= kept.skip(i + 1));
}

/// The deployment that is shown for an environment, of those kept.
pub fn find_in_environment(kept: &Vec<Deployment>, environment: &str) -> (found: Option<
    Deployment,
>)
    ensures
        found == first_in_environment(kept@, environment@),
{
    let mut i: usize = 0;
    assert(kept@.skip(0) =~= kept@);
    while i < kept.len()
        invariant
            i <= kept@.len(),
            first_in_environment(kept@, environment@) == first_in_environment(
                kept@.skip(i as int),
                environment@,
            ),
        decreases kept@.len() - i,
    {
        if crate::text::equal(kept[i].environment.as_str(), environment) {
            return Some(kept[i].clone());
        }
        proof {
            lemma_first_in_environment_step(kept@, environment@, i as int);
        }
        i += 1;
    }
    None
}

/// What `first_in_environment` finds went to the environment asked for and is
/// one of those kept; it finds something whenever one of them went there.
pub proof fn lemma_first_in_environment(kept: Seq<Deployment>, environment: Seq<char>)
    ensures
        match first_in_environment(kept, environment) {
            Some(found) => found.environment@ == environment && kept.contains(found),
            None => forall|m: int| 0 <= m < kept.len() ==> kept[m].environment@ != environment,
        },
    decreases kept.len(),
{
    if kept.len() > 0 && kept[0].environment@ != environment {
        let rest = kept.drop_first();
        lemma_first_in_environment(rest, environment);
        match first_in_environment(rest, environment) {
            Some(found) => {
                let m = choose|m: int| 0 <= m < rest.len() && rest[m] == found;
                assert(kept[m + 1] == found);
            },
            None => {
                assert forall|m: int| 0 <= m < kept.len() implies kept[m].environment@
                    != environment by {
                    if m > 0 {
                        assert(rest[m - 1] == kept[m]);
                    }
                }
            },
        }
    }
}

/// Every deployment kept is the latest of its environment in the response.
pub proof fn lemma_kept_deployments_are_latest(deployments: Seq<Deployment>, upto: int, m: int)
    requires
        0 <= upto <= deployments.len(),
        0 <= m < latest_deployments_upto(deployments, upto).len(),
    ensures
        exists|k: int|
            0 <= k < upto && is_latest_deployment(deployments, k) && latest_deployments_upto(
                deployments,
                upto,
            )[m] == deployments[k],
    decreases upto,
{
    let before = latest_deployments_upto(deployments, upto - 1);
    if m < before.len() {
        lemma_kept_deployments_are_latest(deployments, upto - 1, m);
    } else {
        assert(is_latest_deployment(deployments, upto - 1));
    }
}

/// Every deployment that is the latest of its environment is kept.
pub proof fn lemma_latest_deployments_are_kept(deployments: Seq<Deployment>, upto: int, k: int)
    requires
        0 <= k < upto <= deployments.len(),
        is_latest_deployment(deployments, k),
    ensures
        latest_deployments_upto(deployments, upto).contains(deployments[k]),
    decreases upto,
{
    let before = latest_deployments_upto(deployments, upto - 1);
    let now = latest_deployments_upto(deployments, upto);
    if k == upto - 1 {
        assert(now[now.len() - 1] == deployments[k]);
    } else {
        lemma_latest_deployments_are_kept(deployments, upto - 1, k);
        let m = choose|m: int| 0 <= m < before.len() && before[m] == deployments[k];
        assert(now[m] == deployments[k]);
    }
}

/// The position of the latest deployment to `environment` among the first
/// `upto`; -1 where none of them went there.
spec fn deployment_champion(deployments: Seq<Deployment>, environment: Seq<char>, upto: int) -> int
    decreases upto,
{
    if upto <= 0 {
        -1
    } else {
        let before = deployment_champion(deployments, environment, upto - 1);
        if deployments[upto - 1].environment@ == environment && (before < 0 || deployments[upto
            - 1].id >= deployments[before].id) {
            upto - 1
        } else {
            before
        }
    }
}

/// The champion of an environment went there, and no deployment there among
/// the first `upto` beats it.
proof fn lemma_deployment_champion(
    deployments: Seq<Deployment>,
    environment: Seq<char>,
    upto: int,
)
    requires
        0 <= upto <= deployments.len(),
    ensures
        ({
            let c = deployment_champion(deployments, environment, upto);
            &&& -1 <= c < upto
            &&& c >= 0 ==> deployments[c].environment@ == environment
            &&& forall|i: int|
                0 <= i < upto && deployments[i].environment@ == environment ==> c >= 0 && (
                deployments[i].id < deployments[c].id || (deployments[i].id == deployments[c].id
                    && i <= c))
        }),
    decreases upto,
{
    if upto > 0 {
        lemma_deployment_champion(deployments, environment, upto - 1);
    }
}

/// Every environment of a response has a latest deployment.
pub proof fn lemma_latest_deployment_exists(deployments: Seq<Deployment>, j: int)
    requires
        0 <= j < deployments.len(),
    ensures
        exists|k: int|
            is_latest_deployment(deployments, k) && same_environment(
                deployments[k],
                deployments[j],
            ),
{
    let environment = deployments[j].environment@;
    lemma_deployment_champion(deployments, environment, deployments.len() as int);
    let c = deployment_champion(deployments, environment, deployments.len() as int);
    assert(is_latest_deployment(deployments, c));
    assert(same_environment(deployments[c], deployments[j]));
}

/// Of the deployments that share an environment, the one shown has the
/// greatest number: it is a deployment of the response, went to that
/// environment, and no deployment of the response to that environment has a
/// greater number.
pub proof fn law_shown_deployment_is_latest(response: Seq<Deployment>, j: int)
    requires
        0 <= j < response.len(),
    ensures
        ({
            let shown = first_in_environment(
                latest_deployments(response),
                response[j].environment@,
            );
            &&& shown is Some
            &&& response.contains(shown->0)
            &&& shown->0.environment@ == response[j].environment@
            &&& shown->0.id >= response[j].id
        }),
{
    let kept = latest_deployments(response);
    let environment = response[j].environment@;
    let n = response.len() as int;
    lemma_latest_deployment_exists(response, j);
    let k = choose|k: int|
        is_latest_deployment(response, k) && same_environment(response[k], response[j]);
    lemma_latest_deployments_are_kept(response, n, k);
    let at = choose|at: int| 0 <= at < kept.len() && kept[at] == response[k];
    lemma_first_in_environment(kept, environment);
    assert(kept[at].environment@ == environment);
    let shown = first_in_environment(kept, environment);
    let m = choose|m: int| 0 <= m < kept.len() && kept[m] == shown->0;
    lemma_kept_deployments_are_latest(response, n, m);
    let w = choose|w: int|
        0 <= w < n && is_latest_deployment(response, w) && kept[m] == response[w];
    assert(same_environment(response[j], response[w]));
}

/// No two of the deployments kept went to the same environment.
pub proof fn law_one_deployment_per_environment(response: Seq<Deployment>, m: int, n: int)
    requires
        0 <= m < n < latest_deployments(response).len(),
    ensures
        latest_deployments(response)[m].environment@ != latest_deployments(
            response,
        )[n].environment@,
{
    lemma_kept_in_order(response, response.len() as int, m, n);
    let (a, b) = choose|a: int, b: int|
        0 <= a < b < response.len() && is_latest_deployment(response, a) && is_latest_deployment(
            response,
            b,
        ) && latest_deployments(response)[m] == response[a] && latest_deployments(response)[n]
            == response[b];
    if response[a].environment@ == response[b].environment@ {
        assert(same_environment(response[b], response[a]));
        assert(same_environment(response[a], response[b]));
    }
}

/// The deployments kept stand in the order of the response: of two kept, the
/// one listed first stands first in the response.
proof fn lemma_kept_in_order(deployments: Seq<Deployment>, upto: int, m: int, n: int)
    requires
        0 <= upto <= deployments.len(),
        0 <= m < n < latest_deployments_upto(deployments, upto).len(),
    ensures
        exists|a: int, b: int|
            0 <= a < b < upto && is_latest_deployment(deployments, a) && is_latest_deployment(
                deployments,
                b,
            ) && latest_deployments_upto(deployments, upto)[m] == deployments[a]
                && latest_deployments_upto(deployments, upto)[n] == deployments[b],
    decreases upto,
{
    let before = latest_deployments_upto(deployments, upto - 1);
    if n < before.len() {
        lemma_kept_in_order(deployments, upto - 1, m, n);
    } else {
        lemma_kept_deployments_are_latest(deployments, upto - 1, m);
        let a = choose|a: int|
            0 <= a < upto - 1 && is_latest_deployment(deployments, a) && before[m]
                == deployments[a];
        assert(is_latest_deployment(deployments, upto - 1));
        assert(0 <= a < upto - 1 < upto && is_latest_deployment(deployments, a)
            && is_latest_deployment(deployments, upto - 1) && latest_deployments_upto(
            deployments,
            upto,
        )[m] == deployments[a] && latest_deployments_upto(deployments, upto)[n]
            == deployments[upto - 1]);
    }
}

} // verus!
