//! The workflow runs of the selected repositories.

use crate::github::{fresh_client, workflow_runs_path, Client};
use crate::model::deployment::Color;
use crate::model::repository::Repository;
use crate::model::workflow::WorkflowRun;
use crate::name_map::{in_order, NameMap};
use crate::runs::{conclusion_color, conclusion_shade, conclusion_text, lists_newest_runs,
    shown_runs, shown_with};
use crate::table::TableUI;
use crate::text::{or_empty, text_or_empty};
use vstd::prelude::*;

verus! {

/// `shown` is what the table lists of the runs of one repository: the newest
/// run of each workflow, by rising workflow id, without the runs that the
/// switches hide.
pub open spec fn is_listing_of(
    shown: Seq<WorkflowRun>,
    runs: Seq<WorkflowRun>,
    show_pull_requests: bool,
    show_successful: bool,
) -> bool {
    exists|newest: Seq<WorkflowRun>|
        lists_newest_runs(newest, runs) && shown == newest.filter(
            shown_with(show_pull_requests, show_successful),
        )
}

/// The runs listed for one repository.
pub struct RepositoryRuns {
    /// The name of the repository.
    pub repository: String,
    /// Its runs, as the table lists them.
    pub runs: Vec<WorkflowRun>,
}

/// What to ask the host for one repository when the runs are refreshed.
pub struct RunsRequest {
    /// The name of the repository.
    pub repository: String,
    /// The path that lists its most recent runs.
    pub path: String,
}

/// What to ask the host for `repository`.
pub open spec fn is_runs_request_for(request: RunsRequest, repository: Repository) -> bool {
    &&& request.repository@ == repository.name@
    &&& request.path@ == "/repos/navikt/"@ + repository.name@ + "/actions/runs?per_page=15"@
}

/// One line of the table of workflow runs.
pub struct WorkflowRow {
    pub repository: String,
    pub conclusion: String,
    pub color: Color,
    pub workflow: String,
    pub page: String,
    pub event: String,
    pub attempts: i32,
    pub started_at: String,
}

/// The line that shows `run` of the repository `repository`.
pub fn row_of(repository: &str, run: &WorkflowRun) -> (row: WorkflowRow)
    ensures
        row.repository@ == repository@,
        row.conclusion@ == conclusion_text(*run),
        row.color == conclusion_shade(*run),
        row.workflow@ == or_empty(run.name),
        row.page@ == run.html_url@,
        row.event@ == run.event@,
        row.attempts == run.run_attempt,
        row.started_at@ == or_empty(run.run_started_at),
{
    WorkflowRow {
        repository: repository.to_owned(),
        conclusion: text_or_empty(&run.conclusion),
        color: conclusion_color(run),
        workflow: text_or_empty(&run.name),
        page: run.html_url.clone(),
        event: run.event.clone(),
        attempts: run.run_attempt,
        started_at: text_or_empty(&run.run_started_at),
    }
}

/// Whether two panels store the same runs for the same repositories.
pub open spec fn same_runs(a: WorkflowPanel, b: WorkflowPanel) -> bool {
    &&& a.stored_names() == b.stored_names()
    &&& forall|name: Seq<char>| a.runs_of(name) == b.runs_of(name)
}

/// The workflow runs of the selected repositories, as the host returned them
/// last, under the name of each repository.
pub struct WorkflowPanel {
    repositories: Vec<Repository>,
    workflow_runs: NameMap<Vec<WorkflowRun>>,
    client: Client,
}

impl WorkflowPanel {
    /// The repositories whose runs are asked for.
    pub closed spec fn repositories_view(&self) -> Seq<Repository> {
        self.repositories@
    }

    /// The names of the repositories that have runs stored, in rising order.
    pub closed spec fn stored_names(&self) -> Seq<Seq<char>> {
        self.workflow_runs.names()
    }

    /// Whether runs are stored for the repository `name`.
    #[verifier::inline]
    pub open spec fn has_runs(&self, name: Seq<char>) -> bool {
        self.stored_names().contains(name)
    }

    /// The runs stored for the repository `name`.
    pub closed spec fn runs_of(&self, name: Seq<char>) -> Seq<WorkflowRun> {
        self.workflow_runs.value_of(name)@
    }

    /// What the panel knows of the rate limit.
    pub closed spec fn client(&self) -> Client {
        self.client
    }

    /// A panel without repositories and without runs.
    pub fn new() -> (panel: Self)
        ensures
            panel.repositories_view() == Seq::<Repository>::empty(),
            panel.stored_names() == Seq::<Seq<char>>::empty(),
            panel.client()@ == fresh_client(),
    {
        WorkflowPanel {
            repositories: Vec::new(),
            workflow_runs: NameMap::new(),
            client: Client::default(),
        }
    }

    /// Takes the repositories whose runs are to be shown.
    pub fn set_repos(&mut self, repos: Vec<Repository>)
        ensures
            final(self).repositories_view() == repos@,
            same_runs(*final(self), *old(self)),
            final(self).client() == old(self).client(),
    {
        self.repositories = repos;
    }

    /// The repositories whose runs are asked for.
    pub fn repositories(&self) -> (list: Vec<Repository>)
        ensures
            list@ == self.repositories_view(),
    {
        let list = self.repositories.clone();
        assert(list@ =~= self.repositories@);
        list
    }

    /// What the panel knows of the rate limit.
    pub fn get_client(&self) -> (client: Client)
        ensures
            client == self.client(),
    {
        self.client
    }

    /// Takes what another part of the program knows of the rate limit.
    pub fn set_client(&mut self, client: Client)
        ensures
            final(self).client() == client,
            final(self).repositories_view() == old(self).repositories_view(),
            same_runs(*final(self), *old(self)),
    {
        self.client = client;
    }

    /// Starts a refresh: forgets the runs stored and names what to ask the
    /// host for, one request for each repository in their order.
    pub fn refresh(&mut self) -> (requests: Vec<RunsRequest>)
        ensures
            final(self).stored_names() == Seq::<Seq<char>>::empty(),
            final(self).repositories_view() == old(self).repositories_view(),
            final(self).client() == old(self).client(),
            requests@.len() == old(self).repositories_view().len(),
            forall|i: int|
                0 <= i < requests@.len() ==> is_runs_request_for(
                    #[trigger] requests@[i],
                    old(self).repositories_view()[i],
                ),
    {
        self.workflow_runs.clear();
        let mut requests: Vec<RunsRequest> = Vec::new();
        let mut i: usize = 0;
        while i < self.repositories.len()
            invariant
                i <= self.repositories@.len(),
                requests@.len() == i,
                forall|k: int|
                    0 <= k < i ==> is_runs_request_for(
                        #[trigger] requests@[k],
                        self.repositories@[k],
                    ),
            decreases self.repositories@.len() - i,
        {
            let repository = &self.repositories[i];
            requests.push(
                RunsRequest {
                    repository: repository.name.clone(),
                    path: workflow_runs_path(repository.name.as_str()),
                },
            );
            i += 1;
        }
        requests
    }

    /// Stores the runs that the host returned for a repository, in place of
    /// what was stored for it. What is stored for other repositories stays.
    pub fn set_workflow_runs(&mut self, repository: String, runs: Vec<WorkflowRun>)
        ensures
            final(self).has_runs(repository@),
            final(self).runs_of(repository@) == runs@,
            forall|other: Seq<char>|
                other != repository@ ==> final(self).has_runs(other) == old(self).has_runs(other),
            forall|other: Seq<char>|
                other != repository@ && old(self).has_runs(other) ==> final(self).runs_of(other)
                    == old(self).runs_of(other),
            old(self).has_runs(repository@) ==> final(self).stored_names() == old(self).stored_names(),
            !old(self).has_runs(repository@) ==> exists|at: int|
                0 <= at <= old(self).stored_names().len() && final(self).stored_names() == old(self).stored_names().insert(at, repository@),
            final(self).repositories_view() == old(self).repositories_view(),
            final(self).client() == old(self).client(),
    {
        let ghost names = self.workflow_runs.names();
        let ghost values = self.workflow_runs.values();
        self.workflow_runs.insert(repository, runs);
        proof {
            if !names.contains(repository@) {
                let at = choose|at: int|
                    0 <= at <= names.len() && self.workflow_runs.names() == names.insert(
                        at,
                        repository@,
                    ) && self.workflow_runs.values() == values.insert(at, runs);
                assert(self.stored_names() == names.insert(at, repository@));
            }
        }
    }

    /// What the table lists: for each repository that has runs stored, in
    /// rising order of the names, the newest run of each of its workflows
    /// that the switches of the table let through.
    pub fn listing(&self, table: &TableUI) -> (listing: Vec<RepositoryRuns>)
        ensures
            listing@.len() == self.stored_names().len(),
            in_order(self.stored_names()),
            forall|i: int|
                0 <= i < listing@.len() ==> {
                    &&& (#[trigger] listing@[i]).repository@ == self.stored_names()[i]
                    &&& self.has_runs(self.stored_names()[i])
                    &&& is_listing_of(
                        listing@[i].runs@,
                        self.runs_of(self.stored_names()[i]),
                        table.shows_pull_requests(),
                        table.shows_successful(),
                    )
                },
    {
        let show_pull_requests = table.is_show_pr();
        let show_successful = table.is_show_success();
        let count = self.workflow_runs.len();
        let mut listing: Vec<RepositoryRuns> = Vec::new();
        let mut i: usize = 0;
        while i < count
            invariant
                i <= count,
                count == self.workflow_runs.names().len(),
                count == self.workflow_runs.values().len(),
                in_order(self.workflow_runs.names()),
                show_pull_requests == table.shows_pull_requests(),
                show_successful == table.shows_successful(),
                listing@.len() == i,
                forall|k: int|
                    0 <= k < i ==> {
                        &&& (#[trigger] listing@[k]).repository@ == self.stored_names()[k]
                        &&& self.has_runs(self.stored_names()[k])
                        &&& is_listing_of(
                            listing@[k].runs@,
                            self.runs_of(self.stored_names()[k]),
                            show_pull_requests,
                            show_successful,
                        )
                    },
            decreases count - i,
        {
            let name = self.workflow_runs.name_at(i);
            let runs = self.workflow_runs.value_at(i);
            proof {
                let names = self.workflow_runs.names();
                assert(names[i as int] == name@);
                crate::name_map::lemma_in_order_distinct(
                    names,
                    names.index_of(name@),
                    i as int,
                );
            }
            let shown = shown_runs(runs, show_pull_requests, show_successful);
            listing.push(RepositoryRuns { repository: name.clone(), runs: shown });
            i += 1;
        }
        listing
    }
}

impl Default for WorkflowPanel {
    /// A panel without repositories and without runs.
    fn default() -> (made: Self)
        ensures
            made.repositories_view() == Seq::<Repository>::empty(),
            made.stored_names() == Seq::<Seq<char>>::empty(),
            made.client()@ == fresh_client(),
    {
        WorkflowPanel::new()
    }
}

} // verus!
