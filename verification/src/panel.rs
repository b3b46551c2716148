//! The four panels of the dashboard and which of them is in view.

use crate::github::{fresh_client, hours_between, Client, ClientView};
use crate::model::deployment::{Deployment, Status};
use crate::model::environment::Environment;
use crate::model::pull_request::PullRequest;
use crate::model::repository::{Repository, RepositoryView};
use crate::panel_deployment::{same_deployments, DeploymentPanel};
use crate::panel_pull_request::PullRequestsPanel;
use crate::panel_repository::{views, RepositoriesPanel};
use crate::panel_workflows::{same_runs, WorkflowPanel};
use crate::table::Tables;
use crate::text::{count_of, is_count};
use vstd::prelude::*;

verus! {

/// One of the four panels.
#[derive(Clone, Copy, Debug, PartialEq, Eq, Structural)]
pub enum PanelKind {
    Repositories,
    PullRequests,
    Deployments,
    WorkflowRuns,
}

/// The panel in view, with what is known of the rate limit.
#[derive(Clone, Copy, Debug)]
pub enum SelectedPanel {
    Repositories(Client),
    PullRequests(Client),
    Deployments(Client),
    WorkflowRuns(Client),
}

impl SelectedPanel {
    /// What is known of the rate limit.
    pub open spec fn client(self) -> Client {
        match self {
            SelectedPanel::Repositories(client) => client,
            SelectedPanel::PullRequests(client) => client,
            SelectedPanel::Deployments(client) => client,
            SelectedPanel::WorkflowRuns(client) => client,
        }
    }

    /// Which panel is in view.
    pub open spec fn kind(self) -> PanelKind {
        match self {
            SelectedPanel::Repositories(_) => PanelKind::Repositories,
            SelectedPanel::PullRequests(_) => PanelKind::PullRequests,
            SelectedPanel::Deployments(_) => PanelKind::Deployments,
            SelectedPanel::WorkflowRuns(_) => PanelKind::WorkflowRuns,
        }
    }

    /// The panel `kind` in view, with `client`.
    pub fn of(kind: PanelKind, client: Client) -> (selected: Self)
        ensures
            selected.kind() == kind,
            selected.client() == client,
    {
        match kind {
            PanelKind::Repositories => SelectedPanel::Repositories(client),
            PanelKind::PullRequests => SelectedPanel::PullRequests(client),
            PanelKind::Deployments => SelectedPanel::Deployments(client),
            PanelKind::WorkflowRuns => SelectedPanel::WorkflowRuns(client),
        }
    }

    /// What is known of the rate limit.
    pub fn get_client(&self) -> (client: Client)
        ensures
            client == self.client(),
    {
        match self {
            SelectedPanel::Repositories(client) => *client,
            SelectedPanel::PullRequests(client) => *client,
            SelectedPanel::Deployments(client) => *client,
            SelectedPanel::WorkflowRuns(client) => *client,
        }
    }

    /// Which panel is in view.
    pub fn get_kind(&self) -> (kind: PanelKind)
        ensures
            kind == self.kind(),
    {
        match self {
            SelectedPanel::Repositories(_) => PanelKind::Repositories,
            SelectedPanel::PullRequests(_) => PanelKind::PullRequests,
            SelectedPanel::Deployments(_) => PanelKind::Deployments,
            SelectedPanel::WorkflowRuns(_) => PanelKind::WorkflowRuns,
        }
    }
}

impl Default for SelectedPanel {
    /// The panel of the repositories, with a client that has heard nothing.
    fn default() -> (selected: Self)
        ensures
            selected.kind() == PanelKind::Repositories,
            selected.client()@ == fresh_client(),
    {
        SelectedPanel::Repositories(Client::default())
    }
}

/// The panel of pull requests after the selected repositories were handed to
/// it: it works on them and holds what it held.
pub open spec fn pull_requests_handed(
    after: PullRequestsPanel,
    before: PullRequestsPanel,
    selected: Seq<RepositoryView>,
) -> bool {
    &&& views(after.repositories_view()) == selected
    &&& after.pull_requests_view() == before.pull_requests_view()
    &&& after.client() == before.client()
}

/// The panel of deployments after the selected repositories were handed to
/// it: it works on them and holds what it held.
pub open spec fn deployments_handed(
    after: DeploymentPanel,
    before: DeploymentPanel,
    selected: Seq<RepositoryView>,
) -> bool {
    &&& views(after.repositories_view()) == selected
    &&& same_deployments(after, before)
    &&& after.environments_view() == before.environments_view()
    &&& after.statuses_view() == before.statuses_view()
    &&& after.client() == before.client()
}

/// The panel of workflow runs after the selected repositories were handed to
/// it: it works on them and holds what it held.
pub open spec fn workflows_handed(
    after: WorkflowPanel,
    before: WorkflowPanel,
    selected: Seq<RepositoryView>,
) -> bool {
    &&& views(after.repositories_view()) == selected
    &&& same_runs(after, before)
    &&& after.client() == before.client()
}

/// The four panels, the switches of their tables, and which panel is in
/// view.
pub struct Panels {
    pub selected: SelectedPanel,
    pub repositories: RepositoriesPanel,
    pub pull_requests: PullRequestsPanel,
    pub deployment: DeploymentPanel,
    pub workflow: WorkflowPanel,
    pub tables: Tables,
}

impl Panels {
    /// Whether every panel is empty, every switch is off and the panel of
    /// the repositories is in view, with a client that has heard nothing.
    pub open spec fn is_fresh(self) -> bool {
        &&& self.selected.kind() == PanelKind::Repositories
        &&& self.selected.client()@ == fresh_client()
        &&& self.repositories.selected() == Seq::<RepositoryView>::empty()
        &&& self.repositories.blacklist() == Seq::<RepositoryView>::empty()
        &&& self.repositories.archive() == Seq::<RepositoryView>::empty()
        &&& self.repositories.team() is None
        &&& self.repositories.team_name() == Seq::<char>::empty()
        &&& self.repositories.client()@ == fresh_client()
        &&& self.pull_requests.repositories_view() == Seq::<Repository>::empty()
        &&& self.pull_requests.pull_requests_view() == Seq::<PullRequest>::empty()
        &&& self.pull_requests.client()@ == fresh_client()
        &&& self.deployment.repositories_view() == Seq::<Repository>::empty()
        &&& self.deployment.environments_view() == Seq::<Environment>::empty()
        &&& self.deployment.stored_names() == Seq::<Seq<char>>::empty()
        &&& forall|name: Seq<char>|
            self.deployment.kept_deployments(name) == Seq::<Deployment>::empty()
        &&& self.deployment.statuses_view() == Map::<i64, Status>::empty()
        &&& self.deployment.client()@ == fresh_client()
        &&& self.workflow.repositories_view() == Seq::<Repository>::empty()
        &&& self.workflow.stored_names() == Seq::<Seq<char>>::empty()
        &&& self.workflow.client()@ == fresh_client()
        &&& !self.tables.workflow_runs_table().shows_pull_requests()
        &&& !self.tables.workflow_runs_table().shows_successful()
        &&& !self.tables.pull_requests_table().shows_pull_requests()
        &&& !self.tables.pull_requests_table().shows_successful()
    }

    /// Empty panels, the one of the repositories in view.
    pub fn new() -> (panels: Self)
        ensures
            panels.is_fresh(),
    {
        Panels {
            selected: SelectedPanel::default(),
            repositories: RepositoriesPanel::new(),
            pull_requests: PullRequestsPanel::new(),
            deployment: DeploymentPanel::new(),
            workflow: WorkflowPanel::new(),
            tables: Tables::new(),
        }
    }

    /// The number of requests that the host still accepts.
    pub fn rate_limit(&self) -> (remaining: usize)
        ensures
            remaining == self.selected.client()@.rate_limit,
    {
        self.selected.get_client().get_rate_limit()
    }

    /// The hours counted until the rate limit is reset.
    pub fn rate_limit_reset(&self) -> (hours: u64)
        ensures
            hours == self.selected.client()@.rate_limit_reset_in_hours,
    {
        self.selected.get_client().get_rate_reset()
    }

    /// Remembers the rate limit as the host writes it in the header of an
    /// answer. A text that is no count, or a count too large for the machine,
    /// changes nothing.
    pub fn record_rate_limit(&mut self, header: &str)
        ensures
            final(self).selected.kind() == old(self).selected.kind(),
            is_count(header@) && count_of(header@) <= usize::MAX ==> final(self).selected.client()@
                == (ClientView {
                rate_limit: count_of(header@) as usize,
                ..old(self).selected.client()@
            }),
            !(is_count(header@) && count_of(header@) <= usize::MAX) ==> final(self).selected.client()@
                == old(self).selected.client()@,
            final(self).repositories == old(self).repositories,
            final(self).pull_requests == old(self).pull_requests,
            final(self).deployment == old(self).deployment,
            final(self).workflow == old(self).workflow,
            final(self).tables == old(self).tables,
    {
        let kind = self.selected.get_kind();
        let mut client = self.selected.get_client();
        client.record_rate_limit(header);
        self.selected = SelectedPanel::of(kind, client);
    }

    /// Reads the clock and remembers the hours counted from the moment of
    /// reset that the host writes in the header of an answer. A text that is
    /// no count, or a count too large for the machine, changes nothing.
    pub fn record_rate_reset(&mut self, header: &str)
        ensures
            final(self).selected.kind() == old(self).selected.kind(),
            final(self).selected.client()@.rate_limit == old(self).selected.client()@.rate_limit,
            final(self).selected.client()@ == old(self).selected.client()@ || (is_count(header@)
                && count_of(header@) <= usize::MAX && exists|now: u64|
                final(self).selected.client()@.rate_limit_reset_in_hours == #[trigger] hours_between(
                    count_of(header@) as u64,
                    now,
                ) as u64),
            final(self).repositories == old(self).repositories,
            final(self).pull_requests == old(self).pull_requests,
            final(self).deployment == old(self).deployment,
            final(self).workflow == old(self).workflow,
            final(self).tables == old(self).tables,
    {
        let kind = self.selected.get_kind();
        let mut client = self.selected.get_client();
        client.record_reset_epoch(header);
        self.selected = SelectedPanel::of(kind, client);
    }

    /// Remembers the hours counted from the moment of reset that the host
    /// writes in the header of an answer to the moment `now` seconds after the
    /// start of 1970. A text that is no count, or a count too large for the
    /// machine, changes nothing.
    pub fn record_rate_reset_at(&mut self, header: &str, now: u64)
        ensures
            final(self).selected.kind() == old(self).selected.kind(),
            is_count(header@) && count_of(header@) <= usize::MAX ==> final(self).selected.client()@
                == (ClientView {
                rate_limit_reset_in_hours: hours_between(count_of(header@) as u64, now) as u64,
                ..old(self).selected.client()@
            }),
            !(is_count(header@) && count_of(header@) <= usize::MAX) ==> final(self).selected.client()@
                == old(self).selected.client()@,
            final(self).repositories == old(self).repositories,
            final(self).pull_requests == old(self).pull_requests,
            final(self).deployment == old(self).deployment,
            final(self).workflow == old(self).workflow,
            final(self).tables == old(self).tables,
    {
        let kind = self.selected.get_kind();
        let mut client = self.selected.get_client();
        client.record_reset_epoch_at(header, now);
        self.selected = SelectedPanel::of(kind, client);
    }

    /// Brings the panel `kind` into view. What is known of the rate limit
    /// goes with it.
    pub fn select(&mut self, kind: PanelKind)
        ensures
            final(self).selected.kind() == kind,
            final(self).selected.client() == old(self).selected.client(),
            final(self).repositories == old(self).repositories,
            final(self).pull_requests == old(self).pull_requests,
            final(self).deployment == old(self).deployment,
            final(self).workflow == old(self).workflow,
            final(self).tables == old(self).tables,
    {
        let client = self.selected.get_client();
        self.selected = SelectedPanel::of(kind, client);
    }

    /// Hands the selected repositories to the panel of pull requests, as is
    /// done each time before that panel is drawn.
    pub fn show_pull_requests(&mut self)
        ensures
            pull_requests_handed(
                final(self).pull_requests,
                old(self).pull_requests,
                old(self).repositories.selected(),
            ),
            final(self).selected == old(self).selected,
            final(self).repositories == old(self).repositories,
            final(self).deployment == old(self).deployment,
            final(self).workflow == old(self).workflow,
            final(self).tables == old(self).tables,
    {
        let selected = self.repositories.repositories();
        self.pull_requests.set_repos(selected);
    }

    /// Hands the selected repositories to the panel of deployments, as is
    /// done each time before that panel is drawn.
    pub fn show_deployments(&mut self)
        ensures
            deployments_handed(
                final(self).deployment,
                old(self).deployment,
                old(self).repositories.selected(),
            ),
            final(self).selected == old(self).selected,
            final(self).repositories == old(self).repositories,
            final(self).pull_requests == old(self).pull_requests,
            final(self).workflow == old(self).workflow,
            final(self).tables == old(self).tables,
    {
        let selected = self.repositories.repositories();
        self.deployment.set_repos(selected);
    }

    /// Hands the selected repositories to the panel of workflow runs, as is
    /// done each time before that panel is drawn.
    pub fn show_workflows(&mut self)
        ensures
            workflows_handed(
                final(self).workflow,
                old(self).workflow,
                old(self).repositories.selected(),
            ),
            final(self).selected == old(self).selected,
            final(self).repositories == old(self).repositories,
            final(self).pull_requests == old(self).pull_requests,
            final(self).deployment == old(self).deployment,
            final(self).tables == old(self).tables,
    {
        let selected = self.repositories.repositories();
        self.workflow.set_repos(selected);
    }
}

/// The dashboard: the token that the user entered, whether it is shown in
/// clear, and the panels.
pub struct Application {
    pub token: String,
    pub token_visible: bool,
    pub panels: Panels,
}

impl Application {
    /// A dashboard without a token, the token hidden, the panels empty.
    pub fn new() -> (application: Self)
        ensures
            application.token@ == Seq::<char>::empty(),
            !application.token_visible,
            application.panels.is_fresh(),
    {
        Application { token: String::new(), token_visible: false, panels: Panels::new() }
    }

    /// Shows the token if it was hidden and hides it if it was shown.
    pub fn toggle_token_visibility(&mut self)
        ensures
            final(self).token_visible == !old(self).token_visible,
            final(self).token == old(self).token,
            final(self).panels == old(self).panels,
    {
        self.token_visible = !self.token_visible;
    }

    /// Takes the token as the user typed it.
    pub fn set_token(&mut self, token: String)
        ensures
            final(self).token == token,
            final(self).token_visible == old(self).token_visible,
            final(self).panels == old(self).panels,
    {
        self.token = token;
    }

    /// Brings the panel `kind` into view and readies it: the selected
    /// repositories are handed to it. The other panels stay as they are.
    pub fn open(&mut self, kind: PanelKind)
        ensures
            final(self).panels.selected.kind() == kind,
            final(self).panels.selected.client() == old(self).panels.selected.client(),
            final(self).panels.repositories == old(self).panels.repositories,
            final(self).panels.tables == old(self).panels.tables,
            kind == PanelKind::PullRequests ==> pull_requests_handed(
                final(self).panels.pull_requests,
                old(self).panels.pull_requests,
                old(self).panels.repositories.selected(),
            ),
            kind != PanelKind::PullRequests ==> final(self).panels.pull_requests == old(self).panels.pull_requests,
            kind == PanelKind::Deployments ==> deployments_handed(
                final(self).panels.deployment,
                old(self).panels.deployment,
                old(self).panels.repositories.selected(),
            ),
            kind != PanelKind::Deployments ==> final(self).panels.deployment == old(self).panels.deployment,
            kind == PanelKind::WorkflowRuns ==> workflows_handed(
                final(self).panels.workflow,
                old(self).panels.workflow,
                old(self).panels.repositories.selected(),
            ),
            kind != PanelKind::WorkflowRuns ==> final(self).panels.workflow == old(self).panels.workflow,
            final(self).token == old(self).token,
            final(self).token_visible == old(self).token_visible,
    {
        self.panels.select(kind);
        match kind {
            PanelKind::Repositories => {},
            PanelKind::PullRequests => self.panels.show_pull_requests(),
            PanelKind::Deployments => self.panels.show_deployments(),
            PanelKind::WorkflowRuns => self.panels.show_workflows(),
        }
    }
}

impl Default for Panels {
    /// Empty panels, the one of the repositories in view.
    fn default() -> (made: Self)
        ensures
            made.is_fresh(),
    {
        Panels::new()
    }
}

impl Default for Application {
    /// A dashboard without a token, the token hidden, the panels empty.
    fn default() -> (made: Self)
        ensures
            made.token@ == Seq::<char>::empty(),
            !made.token_visible,
            made.panels.is_fresh(),
    {
        Application::new()
    }
}

} // verus!
