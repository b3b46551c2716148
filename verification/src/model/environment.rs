//! Environments that a repository deploys to.

use vstd::prelude::*;

verus! {

/// A named target of deployments.
#[derive(Debug)]
pub struct Environment {
    pub url: String,
    pub id: i64,
    /// Environments are told apart by this name.
    pub name: String,
    pub html_url: String,
}

/// What a [`Environment`] holds, as plain values.
pub struct EnvironmentView {
    pub url: Seq<char>,
    pub id: i64,
    pub name: Seq<char>,
    pub html_url: Seq<char>,
}

impl View for Environment {
    type V = EnvironmentView;

    open spec fn view(&self) -> EnvironmentView {
        EnvironmentView {
            url: self.url@,
            id: self.id,
            name: self.name@,
            html_url: self.html_url@,
        }
    }
}

impl Clone for Environment {
    fn clone(&self) -> (copy: Self)
        ensures
            copy == *self,
    {
        Environment {
            url: self.url.clone(),
            id: self.id,
            name: self.name.clone(),
            html_url: self.html_url.clone(),
        }
    }
}
/// The page of environments that the host returns for one repository.
#[derive(Debug)]
pub struct Environments {
    pub total_count: i32,
    pub environments: Vec<Environment>,
}

} // verus!
