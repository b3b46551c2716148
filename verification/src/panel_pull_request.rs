//! The open pull requests of the selected repositories.

use crate::github::{fresh_client, Client};
use crate::model::pull_request;
use crate::model::repository::{number_placeholder, Repository};
use crate::text::{or_empty, text_or_empty, without_suffix};
use vstd::prelude::*;

verus! {

/// One line of the table of pull requests.
pub struct PullRequest {
    pub repo_name: String,
    pub url: String,
    pub html_url: String,
    pub title: String,
    pub user: String,
    pub updated_at: String,
}

impl PullRequest {
    /// The line for a pull request of the repository `repo`, with every field
    /// that the host left out empty.
    pub fn parse(repo: String, value: pull_request::PullRequest) -> (row: Self)
        ensures
            row.repo_name@ == repo@,
            row.url@ == value.url@,
            row.html_url@ == or_empty(value.html_url),
            row.title@ == or_empty(value.title),
            row.user@ == (match value.user {
                Some(user) => user.login@,
                None => Seq::<char>::empty(),
            }),
            row.updated_at@ == or_empty(value.updated_at),
    {
        let user = match &value.user {
            Some(user) => user.login.clone(),
            None => String::new(),
        };
        PullRequest {
            repo_name: repo,
            html_url: text_or_empty(&value.html_url),
            title: text_or_empty(&value.title),
            user,
            updated_at: text_or_empty(&value.updated_at),
            url: value.url,
        }
    }

    /// The line that shows a pull request, with `unknown` for every field
    /// that the host left out and the address in the API for a missing page.
    pub fn shown(value: &pull_request::PullRequest) -> (row: Self)
        ensures
            is_row_of(row, *value),
    {
        PullRequest {
            repo_name: value.repo(),
            url: value.url.clone(),
            html_url: value.html(),
            title: value.title(),
            user: value.user(),
            updated_at: value.updated_at(),
        }
    }
}

/// `row` is the line that shows `value`.
pub open spec fn is_row_of(row: PullRequest, value: pull_request::PullRequest) -> bool {
    &&& row.repo_name@ == value.head.repo.name@
    &&& row.url@ == value.url@
    &&& row.html_url@ == value.page()
    &&& row.title@ == value.title_text()
    &&& row.user@ == value.author()
    &&& row.updated_at@ == value.updated()
}

/// The open pull requests of the selected repositories, in the order in
/// which the host's answers arrived.
pub struct PullRequestsPanel {
    repositories: Vec<Repository>,
    pull_requests: Vec<pull_request::PullRequest>,
    client: Client,
}

impl PullRequestsPanel {
    /// The repositories whose pull requests are asked for.
    pub closed spec fn repositories_view(&self) -> Seq<Repository> {
        self.repositories@
    }

    /// The pull requests known.
    pub closed spec fn pull_requests_view(&self) -> Seq<pull_request::PullRequest> {
        self.pull_requests@
    }

    /// What the panel knows of the rate limit.
    pub closed spec fn client(&self) -> Client {
        self.client
    }

    /// A panel without repositories and without pull requests.
    pub fn new() -> (panel: Self)
        ensures
            panel.repositories_view() == Seq::<Repository>::empty(),
            panel.pull_requests_view() == Seq::<pull_request::PullRequest>::empty(),
            panel.client()@ == fresh_client(),
    {
        PullRequestsPanel {
            repositories: Vec::new(),
            pull_requests: Vec::new(),
            client: Client::default(),
        }
    }

    /// Takes the repositories whose pull requests are to be shown.
    pub fn set_repos(&mut self, repos: Vec<Repository>)
        ensures
            final(self).repositories_view() == repos@,
            final(self).pull_requests_view() == old(self).pull_requests_view(),
            final(self).client() == old(self).client(),
    {
        self.repositories = repos;
    }

    /// What the panel knows of the rate limit.
    pub fn get_client(&self) -> (client: Client)
        ensures
            client == self.client(),
    {
        self.client
    }

    /// Takes what another part of the program knows of the rate limit.
    pub fn set_client(&mut self, client: Client)
        ensures
            final(self).client() == client,
            final(self).repositories_view() == old(self).repositories_view(),
            final(self).pull_requests_view() == old(self).pull_requests_view(),
    {
        self.client = client;
    }

    /// Forgets the pull requests.
    pub fn clear_pull_requests(&mut self)
        ensures
            final(self).pull_requests_view() == Seq::<pull_request::PullRequest>::empty(),
            final(self).repositories_view() == old(self).repositories_view(),
            final(self).client() == old(self).client(),
    {
        self.pull_requests.clear();
    }

    /// The pull requests known.
    pub fn pull_requests(&self) -> (list: Vec<pull_request::PullRequest>)
        ensures
            list@ == self.pull_requests_view(),
    {
        let list = self.pull_requests.clone();
        assert(list@ =~= self.pull_requests@);
        list
    }

    /// The repositories whose pull requests are asked for.
    pub fn repositories(&self) -> (list: Vec<Repository>)
        ensures
            list@ == self.repositories_view(),
    {
        let list = self.repositories.clone();
        assert(list@ =~= self.repositories@);
        list
    }

    /// Starts a refresh: forgets the pull requests and names the addresses to
    /// ask the host for, one for each repository in their order.
    pub fn refresh(&mut self) -> (urls: Vec<String>)
        ensures
            final(self).pull_requests_view() == Seq::<pull_request::PullRequest>::empty(),
            final(self).repositories_view() == old(self).repositories_view(),
            final(self).client() == old(self).client(),
            urls@.len() == old(self).repositories_view().len(),
            forall|i: int|
                0 <= i < urls@.len() ==> (#[trigger] urls@[i])@ == without_suffix(
                    old(self).repositories_view()[i].pulls_url@,
                    number_placeholder(),
                ),
    {
        self.clear_pull_requests();
        let mut urls: Vec<String> = Vec::new();
        let mut i: usize = 0;
        while i < self.repositories.len()
            invariant
                i <= self.repositories@.len(),
                urls@.len() == i,
                forall|k: int|
                    0 <= k < i ==> (#[trigger] urls@[k])@ == without_suffix(
                        self.repositories@[k].pulls_url@,
                        number_placeholder(),
                    ),
            decreases self.repositories@.len() - i,
        {
            urls.push(self.repositories[i].pulls_url().to_owned());
            i += 1;
        }
        urls
    }

    /// Takes the pull requests that the host lists for a repository: they
    /// join the ones known, after them.
    pub fn add_pull_requests(&mut self, response: Vec<pull_request::PullRequest>)
        ensures
            final(self).pull_requests_view() == old(self).pull_requests_view() + response@,
            final(self).repositories_view() == old(self).repositories_view(),
            final(self).client() == old(self).client(),
    {
        let mut response = response;
        self.pull_requests.append(&mut response);
    }

    /// The lines of the table: one for each pull request known, in their
    /// order.
    pub fn rows(&self) -> (rows: Vec<PullRequest>)
        ensures
            rows@.len() == self.pull_requests_view().len(),
            forall|i: int|
                0 <= i < rows@.len() ==> is_row_of(#[trigger] rows@[i], self.pull_requests_view()[i]),
    {
        let mut rows: Vec<PullRequest> = Vec::new();
        let mut i: usize = 0;
        while i < self.pull_requests.len()
            invariant
                i <= self.pull_requests@.len(),
                rows@.len() == i,
                forall|k: int|
                    0 <= k < i ==> is_row_of(#[trigger] rows@[k], self.pull_requests@[k]),
            decreases self.pull_requests@.len() - i,
        {
            rows.push(PullRequest::shown(&self.pull_requests[i]));
            i += 1;
        }
        rows
    }
}

impl Default for PullRequestsPanel {
    /// A panel without repositories and without pull requests.
    fn default() -> (made: Self)
        ensures
            made.repositories_view() == Seq::<Repository>::empty(),
            made.pull_requests_view() == Seq::<pull_request::PullRequest>::empty(),
            made.client()@ == fresh_client(),
    {
        PullRequestsPanel::new()
    }
}

} // verus!
