//! Teams.

use crate::text::{join, opt_view};
use vstd::prelude::*;

verus! {

/// A team of the organisation, which owns the repositories shown.
#[derive(Debug)]
pub struct Team {
    pub id: i64,
    pub name: String,
    pub slug: String,
    pub description: Option<String>,
    pub privacy: String,
    pub url: String,
    pub html_url: String,
    pub members_url: String,
    /// Where the team's repositories are listed.
    pub repositories_url: String,
    pub permission: String,
}

/// What a [`Team`] holds, as plain values.
pub struct TeamView {
    pub id: i64,
    pub name: Seq<char>,
    pub slug: Seq<char>,
    pub description: Option<Seq<char>>,
    pub privacy: Seq<char>,
    pub url: Seq<char>,
    pub html_url: Seq<char>,
    pub members_url: Seq<char>,
    pub repositories_url: Seq<char>,
    pub permission: Seq<char>,
}

impl View for Team {
    type V = TeamView;

    open spec fn view(&self) -> TeamView {
        TeamView {
            id: self.id,
            name: self.name@,
            slug: self.slug@,
            description: opt_view(self.description),
            privacy: self.privacy@,
            url: self.url@,
            html_url: self.html_url@,
            members_url: self.members_url@,
            repositories_url: self.repositories_url@,
            permission: self.permission@,
        }
    }
}

impl Clone for Team {
    fn clone(&self) -> (copy: Self)
        ensures
            copy == *self,
    {
        Team {
            id: self.id,
            name: self.name.clone(),
            slug: self.slug.clone(),
            description: self.description.clone(),
            privacy: self.privacy.clone(),
            url: self.url.clone(),
            html_url: self.html_url.clone(),
            members_url: self.members_url.clone(),
            repositories_url: self.repositories_url.clone(),
            permission: self.permission.clone(),
        }
    }
}
impl Team {
    /// The team as it is shown: its name, a line break, and its description
    /// where it has one.
    pub open spec fn display_text(self) -> Seq<char> {
        self.name@ + seq!['\n'] + match self.description {
            Some(text) => text@,
            None => Seq::empty(),
        }
    }

    /// The text that shows the team.
    pub fn to_string(&self) -> (text: String)
        ensures
            text@ == self.display_text(),
    {
        proof {
            reveal_strlit("\n");
            assert("\n"@ =~= seq!['\n']);
        }
        let first = join(self.name.as_str(), "\n");
        match &self.description {
            Some(description) => join(first.as_str(), description.as_str()),
            None => {
                assert(first@ + Seq::<char>::empty() =~= first@);
                first
            },
        }
    }
}

} // verus!
