//! The two switches of a table: whether it shows what pull requests started
//! and whether it shows what succeeded.

use vstd::prelude::*;

verus! {

/// The switches of one table.
#[derive(Clone, Copy, Debug)]
pub struct TableUI {
    show_prs: bool,
    show_success: bool,
}

impl TableUI {
    /// Whether the table shows what pull requests started.
    pub closed spec fn shows_pull_requests(&self) -> bool {
        self.show_prs
    }

    /// Whether the table shows what succeeded.
    pub closed spec fn shows_successful(&self) -> bool {
        self.show_success
    }

    /// A table with both switches off.
    pub fn new() -> (table: Self)
        ensures
            !table.shows_pull_requests(),
            !table.shows_successful(),
    {
        TableUI { show_prs: false, show_success: false }
    }

    /// Whether the table shows what pull requests started.
    pub fn is_show_pr(&self) -> (on: bool)
        ensures
            on == self.shows_pull_requests(),
    {
        self.show_prs
    }

    /// Whether the table shows what succeeded.
    pub fn is_show_success(&self) -> (on: bool)
        ensures
            on == self.shows_successful(),
    {
        self.show_success
    }

    /// The same switches with the one for successes turned over.
    pub fn toggle_success(&self) -> (table: Self)
        ensures
            table.shows_successful() == !self.shows_successful(),
            table.shows_pull_requests() == self.shows_pull_requests(),
    {
        TableUI { show_prs: self.show_prs, show_success: !self.show_success }
    }

    /// The same switches with the one for pull requests turned over.
    pub fn toggle_prs(&self) -> (table: Self)
        ensures
            table.shows_pull_requests() == !self.shows_pull_requests(),
            table.shows_successful() == self.shows_successful(),
    {
        TableUI { show_prs: !self.show_prs, show_success: self.show_success }
    }
}

/// The switches of the tables of the dashboard.
#[derive(Clone, Copy, Debug)]
pub struct Tables {
    pull_requests: TableUI,
    workflow_runs: TableUI,
}

impl Tables {
    /// The switches of the table of pull requests.
    pub closed spec fn pull_requests_table(&self) -> TableUI {
        self.pull_requests
    }

    /// The switches of the table of workflow runs.
    pub closed spec fn workflow_runs_table(&self) -> TableUI {
        self.workflow_runs
    }

    /// Tables with every switch off.
    pub fn new() -> (tables: Self)
        ensures
            !tables.pull_requests_table().shows_pull_requests(),
            !tables.pull_requests_table().shows_successful(),
            !tables.workflow_runs_table().shows_pull_requests(),
            !tables.workflow_runs_table().shows_successful(),
    {
        Tables { pull_requests: TableUI::new(), workflow_runs: TableUI::new() }
    }

    /// The switches of the table of pull requests.
    pub fn pull_requests(&self) -> (table: TableUI)
        ensures
            table == self.pull_requests_table(),
    {
        self.pull_requests
    }

    /// The switches of the table of workflow runs.
    pub fn workflow_runs(&self) -> (table: TableUI)
        ensures
            table == self.workflow_runs_table(),
    {
        self.workflow_runs
    }

    /// Whether the table of workflow runs shows the runs that pull requests
    /// started.
    pub fn show_pull_requests_runs(&self) -> (on: bool)
        ensures
            on == self.workflow_runs_table().shows_pull_requests(),
    {
        self.workflow_runs.is_show_pr()
    }

    /// Whether the table of workflow runs shows the runs that succeeded.
    pub fn show_successful_runs(&self) -> (on: bool)
        ensures
            on == self.workflow_runs_table().shows_successful(),
    {
        self.workflow_runs.is_show_success()
    }

    /// The same tables, the switch for successful runs turned over.
    pub fn toggle_show_workflow_success(&self) -> (tables: Self)
        ensures
            tables.workflow_runs_table().shows_successful()
                == !self.workflow_runs_table().shows_successful(),
            tables.workflow_runs_table().shows_pull_requests()
                == self.workflow_runs_table().shows_pull_requests(),
            tables.pull_requests_table() == self.pull_requests_table(),
    {
        Tables {
            pull_requests: self.pull_requests,
            workflow_runs: self.workflow_runs.toggle_success(),
        }
    }

    /// The same tables, the switch for runs of pull requests turned over.
    pub fn toggle_show_workflow_pulls(&self) -> (tables: Self)
        ensures
            tables.workflow_runs_table().shows_pull_requests()
                == !self.workflow_runs_table().shows_pull_requests(),
            tables.workflow_runs_table().shows_successful()
                == self.workflow_runs_table().shows_successful(),
            tables.pull_requests_table() == self.pull_requests_table(),
    {
        Tables { pull_requests: self.pull_requests, workflow_runs: self.workflow_runs.toggle_prs() }
    }
}

impl Default for TableUI {
    /// A table with both switches off.
    fn default() -> (made: Self)
        ensures
            !made.shows_pull_requests(),
            !made.shows_successful(),
    {
        TableUI::new()
    }
}

impl Default for Tables {
    /// Tables with every switch off.
    fn default() -> (made: Self)
        ensures
            !made.pull_requests_table().shows_pull_requests(),
            !made.pull_requests_table().shows_successful(),
            !made.workflow_runs_table().shows_pull_requests(),
            !made.workflow_runs_table().shows_successful(),
    {
        Tables::new()
    }
}

} // verus!
