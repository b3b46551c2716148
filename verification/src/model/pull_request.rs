//! Pull requests.

use crate::text::opt_view;
use vstd::prelude::*;
use vstd::string::*;

verus! {

/// The account that opened a pull request.
#[derive(Debug)]
pub struct User {
    pub login: String,
}

/// What a [`User`] holds, as plain values.
pub struct UserView {
    pub login: Seq<char>,
}

impl View for User {
    type V = UserView;

    open spec fn view(&self) -> UserView {
        UserView {
            login: self.login@,
        }
    }
}

impl Clone for User {
    fn clone(&self) -> (copy: Self)
        ensures
            copy == *self,
    {
        User {
            login: self.login.clone(),
        }
    }
}
/// The repository that a branch of a pull request lives in.
#[derive(Debug)]
pub struct Repo {
    pub id: i64,
    pub url: String,
    pub name: String,
}

/// What a [`Repo`] holds, as plain values.
pub struct RepoView {
    pub id: i64,
    pub url: Seq<char>,
    pub name: Seq<char>,
}

impl View for Repo {
    type V = RepoView;

    open spec fn view(&self) -> RepoView {
        RepoView {
            id: self.id,
            url: self.url@,
            name: self.name@,
        }
    }
}

impl Clone for Repo {
    fn clone(&self) -> (copy: Self)
        ensures
            copy == *self,
    {
        Repo {
            id: self.id,
            url: self.url.clone(),
            name: self.name.clone(),
        }
    }
}
/// The branch that a pull request wants merged.
#[derive(Debug)]
pub struct Head {
    pub reference: String,
    pub sha: String,
    pub repo: Repo,
}

/// What a [`Head`] holds, as plain values.
pub struct HeadView {
    pub reference: Seq<char>,
    pub sha: Seq<char>,
    pub repo: RepoView,
}

impl View for Head {
    type V = HeadView;

    open spec fn view(&self) -> HeadView {
        HeadView {
            reference: self.reference@,
            sha: self.sha@,
            repo: self.repo@,
        }
    }
}

impl Clone for Head {
    fn clone(&self) -> (copy: Self)
        ensures
            copy == *self,
    {
        Head {
            reference: self.reference.clone(),
            sha: self.sha.clone(),
            repo: self.repo.clone(),
        }
    }
}
/// The view of an optional user.
pub open spec fn opt_user_view(user: Option<User>) -> Option<UserView> {
    match user {
        Some(u) => Some(u@),
        None => None,
    }
}

/// An open pull request. The host may leave out any of the optional fields.
#[derive(Debug)]
pub struct PullRequest {
    pub id: i64,
    pub url: String,
    pub html_url: Option<String>,
    pub title: Option<String>,
    pub user: Option<User>,
    pub head: Head,
    pub updated_at: Option<String>,
}

/// What a [`PullRequest`] holds, as plain values.
pub struct PullRequestView {
    pub id: i64,
    pub url: Seq<char>,
    pub html_url: Option<Seq<char>>,
    pub title: Option<Seq<char>>,
    pub user: Option<UserView>,
    pub head: HeadView,
    pub updated_at: Option<Seq<char>>,
}

impl View for PullRequest {
    type V = PullRequestView;

    open spec fn view(&self) -> PullRequestView {
        PullRequestView {
            id: self.id,
            url: self.url@,
            html_url: opt_view(self.html_url),
            title: opt_view(self.title),
            user: opt_user_view(self.user),
            head: self.head@,
            updated_at: opt_view(self.updated_at),
        }
    }
}

impl Clone for PullRequest {
    fn clone(&self) -> (copy: Self)
        ensures
            copy == *self,
    {
        PullRequest {
            id: self.id,
            url: self.url.clone(),
            html_url: self.html_url.clone(),
            title: self.title.clone(),
            user: self.user.clone(),
            head: self.head.clone(),
            updated_at: self.updated_at.clone(),
        }
    }
}
/// The text shown where the host left a field out.
pub open spec fn unknown() -> Seq<char> {
    "unknown"@
}

impl PullRequest {
    /// The page to open for the pull request: its web page where the host
    /// gave one, else its address in the API.
    pub open spec fn page(self) -> Seq<char> {
        match self.html_url {
            Some(page) => page@,
            None => self.url@,
        }
    }

    /// The title, or `unknown`.
    pub open spec fn title_text(self) -> Seq<char> {
        match self.title {
            Some(title) => title@,
            None => unknown(),
        }
    }

    /// The login of the author, or `unknown`.
    pub open spec fn author(self) -> Seq<char> {
        match self.user {
            Some(user) => user.login@,
            None => unknown(),
        }
    }

    /// The time of the last update, or `unknown`.
    pub open spec fn updated(self) -> Seq<char> {
        match self.updated_at {
            Some(time) => time@,
            None => unknown(),
        }
    }

    /// The page to open for the pull request.
    pub fn html(&self) -> (text: String)
        ensures
            text@ == self.page(),
    {
        match &self.html_url {
            Some(page) => page.clone(),
            None => self.url.clone(),
        }
    }

    /// The title, or `unknown`.
    pub fn title(&self) -> (text: String)
        ensures
            text@ == self.title_text(),
    {
        match &self.title {
            Some(title) => title.clone(),
            None => String::from_str("unknown"),
        }
    }

    /// The login of the author, or `unknown`.
    pub fn user(&self) -> (text: String)
        ensures
            text@ == self.author(),
    {
        match &self.user {
            Some(user) => user.login.clone(),
            None => String::from_str("unknown"),
        }
    }

    /// The time of the last update, or `unknown`.
    pub fn updated_at(&self) -> (text: String)
        ensures
            text@ == self.updated(),
    {
        match &self.updated_at {
            Some(time) => time.clone(),
            None => String::from_str("unknown"),
        }
    }

    /// The name of the repository that the pull request comes from.
    pub fn repo(&self) -> (text: String)
        ensures
            text@ == self.head.repo.name@,
    {
        self.head.repo.name.clone()
    }
}

} // verus!
