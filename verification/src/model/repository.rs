//! Repositories.

use crate::text::{equal_opt, opt_view, strip_suffix, without_suffix};
use vstd::prelude::*;
use vstd::std_specs::cmp::PartialEqSpecImpl;

verus! {

/// A repository of the team. Two repositories are the same where all their
/// fields are.
#[derive(Debug)]
pub struct Repository {
    pub id: i64,
    pub name: String,
    pub full_name: String,
    pub html_url: String,
    /// Where the deployments of the repository are listed.
    pub deployments_url: String,
    pub releases_url: String,
    /// Where its pull requests are listed, as the host gives it: with a
    /// placeholder for a number at its end.
    pub pulls_url: String,
    pub description: Option<String>,
    pub archived: bool,
}

/// What a [`Repository`] holds, as plain values.
pub struct RepositoryView {
    pub id: i64,
    pub name: Seq<char>,
    pub full_name: Seq<char>,
    pub html_url: Seq<char>,
    pub deployments_url: Seq<char>,
    pub releases_url: Seq<char>,
    pub pulls_url: Seq<char>,
    pub description: Option<Seq<char>>,
    pub archived: bool,
}

impl View for Repository {
    type V = RepositoryView;

    open spec fn view(&self) -> RepositoryView {
        RepositoryView {
            id: self.id,
            name: self.name@,
            full_name: self.full_name@,
            html_url: self.html_url@,
            deployments_url: self.deployments_url@,
            releases_url: self.releases_url@,
            pulls_url: self.pulls_url@,
            description: opt_view(self.description),
            archived: self.archived,
        }
    }
}

impl Clone for Repository {
    fn clone(&self) -> (copy: Self)
        ensures
            copy == *self,
    {
        Repository {
            id: self.id,
            name: self.name.clone(),
            full_name: self.full_name.clone(),
            html_url: self.html_url.clone(),
            deployments_url: self.deployments_url.clone(),
            releases_url: self.releases_url.clone(),
            pulls_url: self.pulls_url.clone(),
            description: self.description.clone(),
            archived: self.archived,
        }
    }
}
impl PartialEq for Repository {
    fn eq(&self, other: &Self) -> (same: bool) {
        self.id == other.id && self.name == other.name && self.full_name == other.full_name
            && self.html_url == other.html_url && self.deployments_url == other.deployments_url
            && self.releases_url == other.releases_url && self.pulls_url == other.pulls_url
            && equal_opt(&self.description, &other.description) && self.archived == other.archived
    }
}

impl PartialEqSpecImpl for Repository {
    open spec fn obeys_eq_spec() -> bool {
        true
    }

    open spec fn eq_spec(&self, other: &Self) -> bool {
        self@ == other@
    }
}

impl Eq for Repository {

}

/// The placeholder that the host appends to the address of the pull requests.
pub open spec fn number_placeholder() -> Seq<char> {
    "{/number}"@
}

impl Repository {
    /// The address that lists the pull requests: `pulls_url` without the
    /// placeholder at its end.
    pub fn pulls_url(&self) -> (url: &str)
        ensures
            url@ == without_suffix(self.pulls_url@, number_placeholder()),
    {
        strip_suffix(self.pulls_url.as_str(), "{/number}")
    }
}

} // verus!
