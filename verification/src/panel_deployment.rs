//! The deployments of the selected repositories: the environments they
//! deploy to, the latest deployment to each, and its latest status.

use crate::github::{environments_path, fresh_client, Client};
use crate::latest::{find_in_environment, first_in_environment, is_latest_status,
    latest_deployments, latest_deployments_per_environment, latest_status};
use crate::model::deployment::{Deployment, Status};
use crate::model::environment::Environment;
use crate::model::repository::Repository;
use crate::name_map::NameMap;
use crate::text::equal;
use std::collections::BTreeMap;
use vstd::prelude::*;

verus! {

/// Whether one of `list` carries the name `name`.
pub open spec fn has_name(list: Seq<Environment>, name: Seq<char>) -> bool {
    exists|k: int| 0 <= k < list.len() && list[k].name@ == name
}

/// No two of `list` carry the same name.
pub open spec fn names_distinct(list: Seq<Environment>) -> bool {
    forall|a: int, b: int| 0 <= a < b < list.len() ==> list[a].name@ != list[b].name@
}

/// The environment at place `at` of a response is new to `known`: neither
/// `known` nor the response before that place has one of its name.
pub open spec fn is_new_environment(
    known: Seq<Environment>,
    response: Seq<Environment>,
    at: int,
) -> bool {
    !has_name(known, response[at].name@) && !has_name(response.take(at), response[at].name@)
}

/// `known` with the new environments among the first `upto` of a response,
/// in the order of the response.
pub open spec fn merged_upto(known: Seq<Environment>, response: Seq<Environment>, upto: int) -> Seq<
    Environment,
>
    decreases upto,
{
    if upto <= 0 {
        known
    } else {
        let before = merged_upto(known, response, upto - 1);
        if is_new_environment(known, response, upto - 1) {
            before.push(response[upto - 1])
        } else {
            before
        }
    }
}

/// `known` with the new environments of a response.
pub open spec fn merged(known: Seq<Environment>, response: Seq<Environment>) -> Seq<Environment> {
    merged_upto(known, response, response.len() as int)
}

/// A list with one more environment has the names it had and the name of
/// that one.
proof fn lemma_has_name_push(list: Seq<Environment>, last: Environment, name: Seq<char>)
    ensures
        has_name(list.push(last), name) <==> has_name(list, name) || last.name@ == name,
{
    let longer = list.push(last);
    if has_name(longer, name) {
        let k = choose|k: int| 0 <= k < longer.len() && longer[k].name@ == name;
        if k < list.len() {
            assert(list[k].name@ == name);
        }
    }
    if has_name(list, name) {
        let k = choose|k: int| 0 <= k < list.len() && list[k].name@ == name;
        assert(longer[k].name@ == name);
    }
    if last.name@ == name {
        assert(longer[list.len() as int].name@ == name);
    }
}

/// Whether one of `list` carries the name `name`.
fn names_one(list: &Vec<Environment>, name: &str) -> (found: bool)
    ensures
        found == has_name(list@, name@),
{
    let mut k: usize = 0;
    while k < list.len()
        invariant
            k <= list@.len(),
            forall|i: int| 0 <= i < k ==> list@[i].name@ != name@,
        decreases list@.len() - k,
    {
        if equal(list[k].name.as_str(), name) {
            return true;
        }
        k += 1;
    }
    false
}

/// The environments seen so far, each name once.
pub struct KnownEnvironments {
    list: Vec<Environment>,
}

impl View for KnownEnvironments {
    type V = Seq<Environment>;

    closed spec fn view(&self) -> Seq<Environment> {
        self.list@
    }
}

impl KnownEnvironments {
    #[verifier::type_invariant]
    spec fn each_name_once(&self) -> bool {
        names_distinct(self@)
    }

    /// No environment yet.
    pub fn new() -> (known: Self)
        ensures
            known@ == Seq::<Environment>::empty(),
    {
        KnownEnvironments { list: Vec::new() }
    }

    /// Forgets every environment.
    pub fn clear(&mut self)
        ensures
            final(self)@ == Seq::<Environment>::empty(),
    {
        self.list = Vec::new();
    }

    /// The environments, in the order in which they were first seen. No two
    /// carry the same name.
    pub fn to_vec(&self) -> (list: Vec<Environment>)
        ensures
            list@ == self@,
            names_distinct(self@),
    {
        proof {
            use_type_invariant(self);
        }
        let list = self.list.clone();
        assert(list@ =~= self.list@);
        list
    }

    /// Adds the environments of a response whose names are new.
    pub fn merge(&mut self, response: &Vec<Environment>)
        ensures
            final(self)@ == merged(old(self)@, response@),
    {
        proof {
            use_type_invariant(&*self);
        }
        let ghost known = self@;
        let mut list: Vec<Environment> = Vec::new();
        std::mem::swap(&mut self.list, &mut list);
        let mut i: usize = 0;
        assert(response@.take(0) =~= Seq::<Environment>::empty());
        while i < response.len()
            invariant
                i <= response@.len(),
                list@ == merged_upto(known, response@, i as int),
                names_distinct(list@),
                forall|name: Seq<char>|
                    #![trigger has_name(list@, name)]
                    has_name(list@, name) <==> has_name(known, name) || has_name(
                        response@.take(i as int),
                        name,
                    ),
            decreases response@.len() - i,
        {
            let ghost before = list@;
            let ghost seen = response@.take(i as int);
            let ghost next = response@[i as int];
            assert(response@.take(i + 1) =~= seen.push(next));
            let known_name = names_one(&list, response[i].name.as_str());
            assert(known_name == !is_new_environment(known, response@, i as int));
            if !known_name {
                list.push(response[i].clone());
                proof {
                    assert forall|a: int, b: int| 0 <= a < b < list@.len() implies list@[a].name@
                        != list@[b].name@ by {
                        if b == before.len() {
                            assert(before[a].name@ != next.name@);
                        }
                    }
                    assert forall|name: Seq<char>|
                        #![trigger has_name(list@, name)]
                        has_name(list@, name) <==> has_name(known, name) || has_name(
                            seen.push(next),
                            name,
                        ) by {
                        assert(has_name(before, name) <==> has_name(known, name) || has_name(
                            seen,
                            name,
                        ));
                        lemma_has_name_push(before, next, name);
                        lemma_has_name_push(seen, next, name);
                    }
                }
            } else {
                proof {
                    assert forall|name: Seq<char>|
                        #![trigger has_name(list@, name)]
                        has_name(list@, name) <==> has_name(known, name) || has_name(
                            seen.push(next),
                            name,
                        ) by {
                        assert(has_name(before, name) <==> has_name(known, name) || has_name(
                            seen,
                            name,
                        ));
                        lemma_has_name_push(seen, next, name);
                    }
                }
            }
            i += 1;
        }
        self.list = list;
    }
}

/// One line of the board of an environment: a repository and the latest
/// status of its latest deployment there.
pub struct DeploymentRow {
    /// The name of the repository.
    pub repository: String,
    pub status: Status,
}

/// What to ask the host for one repository when the deployments are
/// refreshed.
pub struct DeploymentRequest {
    /// The name of the repository.
    pub repository: String,
    /// The path that lists its environments.
    pub environments_path: String,
    /// The address that lists its deployments.
    pub deployments_url: String,
}

/// What to ask the host for `repository`.
pub open spec fn is_request_for(request: DeploymentRequest, repository: Repository) -> bool {
    &&& request.repository@ == repository.name@
    &&& request.environments_path@ == "/repos/navikt/"@ + repository.name@ + "/environments"@
    &&& request.deployments_url@ == repository.deployments_url@
}

/// The views of the lists of deployments kept, in the order of the names.
spec fn groups(values: Seq<Vec<Deployment>>) -> Seq<Seq<Deployment>> {
    values.map_values(|list: Vec<Deployment>| list@)
}

/// Whether two panels keep the same deployments for the same repositories.
pub open spec fn same_deployments(a: DeploymentPanel, b: DeploymentPanel) -> bool {
    &&& a.stored_names() == b.stored_names()
    &&& forall|name: Seq<char>| a.kept_deployments(name) == b.kept_deployments(name)
}

/// Environments, deployments and statuses of the selected repositories.
pub struct DeploymentPanel {
    repositories: Vec<Repository>,
    deployments: NameMap<Vec<Deployment>>,
    statuses: BTreeMap<i64, Status>,
    environments: KnownEnvironments,
    client: Client,
}

impl DeploymentPanel {
    /// The repositories whose deployments are shown.
    pub closed spec fn repositories_view(&self) -> Seq<Repository> {
        self.repositories@
    }

    /// The environments, in the order in which they were first seen.
    pub closed spec fn environments_view(&self) -> Seq<Environment> {
        self.environments@
    }

    /// The names of the repositories that deployments are kept for, in rising
    /// order.
    pub closed spec fn stored_names(&self) -> Seq<Seq<char>> {
        self.deployments.names()
    }

    /// Whether deployments are kept for the repository `name`.
    #[verifier::inline]
    pub open spec fn has_deployments(&self, name: Seq<char>) -> bool {
        self.stored_names().contains(name)
    }

    /// The deployments kept for the repository `name`: none where nothing is
    /// kept for it.
    pub closed spec fn kept_deployments(&self, name: Seq<char>) -> Seq<Deployment> {
        if self.deployments.has(name) {
            self.deployments.value_of(name)@
        } else {
            Seq::empty()
        }
    }

    /// Nothing is kept for a repository that no deployments are kept for.
    pub proof fn lemma_nothing_kept(&self, name: Seq<char>)
        requires
            !self.has_deployments(name),
        ensures
            self.kept_deployments(name) == Seq::<Deployment>::empty(),
    {
    }

    /// All deployments kept, repository after repository by rising name.
    pub open spec fn all_kept(&self) -> Seq<Deployment> {
        self.stored_names().map_values(|name: Seq<char>| self.kept_deployments(name)).flatten()
    }

    /// The latest status of each deployment, by the deployment's number.
    pub closed spec fn statuses_view(&self) -> Map<i64, Status> {
        self.statuses@
    }

    /// What the panel knows of the rate limit.
    pub closed spec fn client(&self) -> Client {
        self.client
    }

    /// The status shown for a repository in an environment: the latest status
    /// of the deployment shown there, where both are known.
    pub open spec fn shown_status(&self, repository: Seq<char>, environment: Seq<char>) -> Option<
        Status,
    > {
        match first_in_environment(self.kept_deployments(repository), environment) {
            Some(deployment) => if self.statuses_view().contains_key(deployment.id) {
                Some(self.statuses_view()[deployment.id])
            } else {
                None
            },
            None => None,
        }
    }

    /// The line of a repository on the board of an environment, if it has one.
    pub open spec fn row_in(&self, environment: Seq<char>) -> spec_fn(Repository) -> Option<
        DeploymentRow,
    > {
        |repository: Repository|
            match self.shown_status(repository.name@, environment) {
                Some(status) => Some(DeploymentRow { repository: repository.name, status }),
                None => None,
            }
    }

    /// A panel that knows nothing yet.
    pub fn new() -> (panel: Self)
        ensures
            panel.repositories_view() == Seq::<Repository>::empty(),
            panel.environments_view() == Seq::<Environment>::empty(),
            panel.stored_names() == Seq::<Seq<char>>::empty(),
            forall|name: Seq<char>| panel.kept_deployments(name) == Seq::<Deployment>::empty(),
            panel.statuses_view() == Map::<i64, Status>::empty(),
            panel.client()@ == fresh_client(),
    {
        let panel = DeploymentPanel {
            repositories: Vec::new(),
            deployments: NameMap::new(),
            statuses: BTreeMap::new(),
            environments: KnownEnvironments::new(),
            client: Client::default(),
        };
        panel
    }

    /// Takes the repositories whose deployments are to be shown.
    pub fn set_repos(&mut self, repos: Vec<Repository>)
        ensures
            final(self).repositories_view() == repos@,
            final(self).environments_view() == old(self).environments_view(),
            same_deployments(*final(self), *old(self)),
            final(self).statuses_view() == old(self).statuses_view(),
            final(self).client() == old(self).client(),
    {
        self.repositories = repos;
    }

    /// What the panel knows of the rate limit.
    pub fn get_client(&self) -> (client: Client)
        ensures
            client == self.client(),
    {
        self.client
    }

    /// Takes what another part of the program knows of the rate limit.
    pub fn set_client(&mut self, client: Client)
        ensures
            final(self).client() == client,
            final(self).repositories_view() == old(self).repositories_view(),
            final(self).environments_view() == old(self).environments_view(),
            same_deployments(*final(self), *old(self)),
            final(self).statuses_view() == old(self).statuses_view(),
    {
        self.client = client;
    }

    /// The repositories whose deployments are shown.
    pub fn repositories(&self) -> (list: Vec<Repository>)
        ensures
            list@ == self.repositories_view(),
    {
        let list = self.repositories.clone();
        assert(list@ =~= self.repositories@);
        list
    }

    /// The environments, in the order in which they were first seen. No two
    /// carry the same name.
    pub fn environments(&self) -> (list: Vec<Environment>)
        ensures
            list@ == self.environments_view(),
            names_distinct(self.environments_view()),
    {
        self.environments.to_vec()
    }

    /// The deployment shown for a repository in an environment: the first of
    /// those kept for the repository that went to the environment.
    pub fn deployment(&self, repo: &str, env: &str) -> (found: Option<Deployment>)
        ensures
            found == first_in_environment(self.kept_deployments(repo@), env@),
    {
        match self.deployments.get(repo) {
            Some(kept) => find_in_environment(kept, env),
            None => None,
        }
    }

    /// The latest status known of a deployment.
    pub fn status(&self, deployment_id: i64) -> (found: Option<Status>)
        ensures
            found == (if self.statuses_view().contains_key(deployment_id) {
                Some(self.statuses_view()[deployment_id])
            } else {
                None
            }),
    {
        match self.statuses.get(&deployment_id) {
            Some(status) => Some(status.clone()),
            None => None,
        }
    }

    /// Forgets the deployments kept.
    pub fn clear_deployments(&mut self)
        ensures
            final(self).stored_names() == Seq::<Seq<char>>::empty(),
            forall|name: Seq<char>|
                final(self).kept_deployments(name) == Seq::<Deployment>::empty(),
            final(self).repositories_view() == old(self).repositories_view(),
            final(self).environments_view() == old(self).environments_view(),
            final(self).statuses_view() == old(self).statuses_view(),
            final(self).client() == old(self).client(),
    {
        self.deployments.clear();
    }

    /// Forgets the statuses.
    pub fn clear_deployment_statuses(&mut self)
        ensures
            final(self).statuses_view() == Map::<i64, Status>::empty(),
            final(self).repositories_view() == old(self).repositories_view(),
            final(self).environments_view() == old(self).environments_view(),
            same_deployments(*final(self), *old(self)),
            final(self).client() == old(self).client(),
    {
        self.statuses.clear();
    }

    /// Starts a refresh of the deployments: forgets environments and
    /// deployments and names what to ask the host for, repository by
    /// repository in their order.
    pub fn refresh_deployments(&mut self) -> (requests: Vec<DeploymentRequest>)
        ensures
            final(self).environments_view() == Seq::<Environment>::empty(),
            final(self).stored_names() == Seq::<Seq<char>>::empty(),
            forall|name: Seq<char>|
                final(self).kept_deployments(name) == Seq::<Deployment>::empty(),
            final(self).repositories_view() == old(self).repositories_view(),
            final(self).statuses_view() == old(self).statuses_view(),
            final(self).client() == old(self).client(),
            requests@.len() == old(self).repositories_view().len(),
            forall|i: int|
                0 <= i < requests@.len() ==> is_request_for(
                    #[trigger] requests@[i],
                    old(self).repositories_view()[i],
                ),
    {
        self.environments.clear();
        self.clear_deployments();
        let mut requests: Vec<DeploymentRequest> = Vec::new();
        let mut i: usize = 0;
        while i < self.repositories.len()
            invariant
                i <= self.repositories@.len(),
                requests@.len() == i,
                forall|k: int|
                    0 <= k < i ==> is_request_for(#[trigger] requests@[k], self.repositories@[k]),
            decreases self.repositories@.len() - i,
        {
            let repository = &self.repositories[i];
            requests.push(
                DeploymentRequest {
                    repository: repository.name.clone(),
                    environments_path: environments_path(repository.name.as_str()),
                    deployments_url: repository.deployments_url.clone(),
                },
            );
            i += 1;
        }
        requests
    }

    /// Takes the environments that the host lists for a repository: those
    /// whose names are new join the ones known.
    pub fn merge_environments(&mut self, response: &Vec<Environment>)
        ensures
            final(self).environments_view() == merged(old(self).environments_view(), response@),
            final(self).repositories_view() == old(self).repositories_view(),
            same_deployments(*final(self), *old(self)),
            final(self).statuses_view() == old(self).statuses_view(),
            final(self).client() == old(self).client(),
    {
        self.environments.merge(response);
    }

    /// Takes the deployments that the host lists for a repository: the latest
    /// of each environment is kept for it, in place of what was kept. What is
    /// kept for other repositories stays.
    pub fn set_deployments(&mut self, repository: String, response: &Vec<Deployment>)
        ensures
            final(self).has_deployments(repository@),
            final(self).kept_deployments(repository@) == latest_deployments(response@),
            forall|other: Seq<char>|
                other != repository@ ==> final(self).has_deployments(other) == old(self).has_deployments(other),
            forall|other: Seq<char>|
                other != repository@ ==> final(self).kept_deployments(other) == old(self).kept_deployments(other),
            old(self).has_deployments(repository@) ==> final(self).stored_names() == old(self).stored_names(),
            !old(self).has_deployments(repository@) ==> exists|at: int|
                0 <= at <= old(self).stored_names().len() && final(self).stored_names() == old(self).stored_names().insert(at, repository@),
            final(self).repositories_view() == old(self).repositories_view(),
            final(self).environments_view() == old(self).environments_view(),
            final(self).statuses_view() == old(self).statuses_view(),
            final(self).client() == old(self).client(),
    {
        let latest = latest_deployments_per_environment(response);
        let ghost names = self.deployments.names();
        let ghost values = self.deployments.values();
        self.deployments.insert(repository, latest);
        proof {
            if !names.contains(repository@) {
                let at = choose|at: int|
                    0 <= at <= names.len() && self.deployments.names() == names.insert(
                        at,
                        repository@,
                    ) && self.deployments.values() == values.insert(at, latest);
                assert(self.stored_names() == names.insert(at, repository@));
            }
        }
    }

    /// Starts a refresh of the statuses: forgets them and returns every
    /// deployment kept, repository after repository by rising name. The
    /// statuses of each are to be asked for at its `statuses_url`.
    pub fn refresh_statuses(&mut self) -> (deployments: Vec<Deployment>)
        ensures
            deployments@ == old(self).all_kept(),
            final(self).statuses_view() == Map::<i64, Status>::empty(),
            final(self).repositories_view() == old(self).repositories_view(),
            final(self).environments_view() == old(self).environments_view(),
            same_deployments(*final(self), *old(self)),
            final(self).client() == old(self).client(),
    {
        let ghost before = *self;
        self.statuses.clear();
        let count = self.deployments.len();
        let ghost lists = groups(self.deployments.values());
        proof {
            let by_name = before.stored_names().map_values(
                |name: Seq<char>| before.kept_deployments(name),
            );
            assert forall|i: int| 0 <= i < lists.len() implies lists[i] == by_name[i] by {
                self.deployments.lemma_value_at(i);
            }
            assert(lists =~= by_name);
        }
        let mut deployments: Vec<Deployment> = Vec::new();
        let mut i: usize = 0;
        assert(lists.take(0) =~= Seq::<Seq<Deployment>>::empty());
        while i < count
            invariant
                i <= count,
                count == self.deployments.values().len(),
                lists == groups(self.deployments.values()),
                deployments@ == lists.take(i as int).flatten(),
            decreases count - i,
        {
            let kept = self.deployments.value_at(i);
            let ghost before = deployments@;
            let mut k: usize = 0;
            while k < kept.len()
                invariant
                    k <= kept@.len(),
                    deployments@ == before + kept@.take(k as int),
                decreases kept@.len() - k,
            {
                deployments.push(kept[k].clone());
                assert(kept@.take(k + 1) =~= kept@.take(k as int).push(kept@[k as int]));
                k += 1;
            }
            proof {
                assert(kept@.take(kept@.len() as int) =~= kept@);
                assert(lists.take(i + 1) =~= lists.take(i as int).push(kept@));
                lists.take(i as int).lemma_flatten_push(kept@);
            }
            i += 1;
        }
        assert(lists.take(count as int) =~= lists);
        deployments
    }

    /// Takes the statuses that the host lists for a deployment: the latest of
    /// them becomes the status of the deployment. An empty list changes
    /// nothing.
    pub fn set_statuses(&mut self, deployment_id: i64, response: Vec<Status>)
        ensures
            response@.len() == 0 ==> final(self).statuses_view() == old(self).statuses_view(),
            response@.len() > 0 ==> exists|k: int|
                is_latest_status(response@, k) && final(self).statuses_view() == old(self).statuses_view().insert(deployment_id, response@[k]),
            final(self).repositories_view() == old(self).repositories_view(),
            final(self).environments_view() == old(self).environments_view(),
            same_deployments(*final(self), *old(self)),
            final(self).client() == old(self).client(),
    {
        match latest_status(response) {
            Some(status) => {
                self.statuses.insert(deployment_id, status);
            },
            None => {},
        }
    }

    /// The board of an environment: for each repository, in their order, that
    /// has a deployment shown there whose status is known, its name and that
    /// status.
    pub fn rows(&self, environment: &str) -> (rows: Vec<DeploymentRow>)
        ensures
            rows@ == self.repositories_view().filter_map(self.row_in(environment@)),
    {
        let ghost row = self.row_in(environment@);
        let mut rows: Vec<DeploymentRow> = Vec::new();
        let mut i: usize = 0;
        assert(self.repositories@.take(0).filter_map(row) =~= Seq::<DeploymentRow>::empty());
        while i < self.repositories.len()
            invariant
                i <= self.repositories@.len(),
                row == self.row_in(environment@),
                rows@ == self.repositories@.take(i as int).filter_map(row),
            decreases self.repositories@.len() - i,
        {
            proof {
                self.repositories@.lemma_filter_map_take_succ(row, i as int);
            }
            let repository = &self.repositories[i];
            match self.deployment(repository.name.as_str(), environment) {
                Some(deployment) => {
                    match self.status(deployment.id) {
                        Some(status) => {
                            rows.push(
                                DeploymentRow { repository: repository.name.clone(), status },
                            );
                        },
                        None => {},
                    }
                },
                None => {},
            }
            i += 1;
        }
        assert(self.repositories@.take(self.repositories@.len() as int) =~= self.repositories@);
        rows
    }
}

impl Default for DeploymentPanel {
    /// A panel that knows nothing yet.
    fn default() -> (made: Self)
        ensures
            made.repositories_view() == Seq::<Repository>::empty(),
            made.environments_view() == Seq::<Environment>::empty(),
            made.stored_names() == Seq::<Seq<char>>::empty(),
            forall|name: Seq<char>| made.kept_deployments(name) == Seq::<Deployment>::empty(),
            made.statuses_view() == Map::<i64, Status>::empty(),
            made.client()@ == fresh_client(),
    {
        DeploymentPanel::new()
    }
}

} // verus!
