//! The repositories of the chosen team: those selected for the other panels,
//! those the user has blacklisted, and those archived.

use crate::github::{fresh_client, members_url, repositories_url, team_path, Client};
use crate::model::repository::{Repository, RepositoryView};
use crate::model::team::Team;
use vstd::prelude::*;

verus! {

/// The views of a list of repositories.
pub open spec fn views(list: Seq<Repository>) -> Seq<RepositoryView> {
    list.map_values(|repo: Repository| repo@)
}

/// The test that every repository but `repo` passes.
pub open spec fn other_than(repo: RepositoryView) -> spec_fn(RepositoryView) -> bool {
    |other: RepositoryView| other != repo
}

/// `list` without every occurrence of `repo`.
pub open spec fn without(list: Seq<RepositoryView>, repo: RepositoryView) -> Seq<RepositoryView> {
    list.filter(other_than(repo))
}

/// `list` with `repo` in it: added at the end, unless it is there already.
pub open spec fn with_once(list: Seq<RepositoryView>, repo: RepositoryView) -> Seq<
    RepositoryView,
> {
    if list.contains(repo) {
        list
    } else {
        list.push(repo)
    }
}

/// The test for what is kept of the repositories that the host lists: those
/// that are not blacklisted and whose archive flag is `archived`.
pub open spec fn kept_with(blacklist: Seq<RepositoryView>, archived: bool) -> spec_fn(
    RepositoryView,
) -> bool {
    |repo: RepositoryView| !blacklist.contains(repo) && repo.archived == archived
}

/// The views of one more repository are the views so far and its view.
proof fn lemma_views_push(list: Seq<Repository>, upto: int)
    requires
        0 <= upto < list.len(),
    ensures
        views(list.take(upto + 1)) == views(list.take(upto)).push(list[upto]@),
{
    assert(views(list.take(upto + 1)) =~= views(list.take(upto)).push(list[upto]@));
}

/// A filter makes no duplicates.
proof fn lemma_filter_keeps_distinct<A>(list: Seq<A>, test: spec_fn(A) -> bool)
    requires
        list.no_duplicates(),
    ensures
        list.filter(test).no_duplicates(),
    decreases list.len(),
{
    if list.len() > 0 {
        let rest = list.drop_last();
        assert(list =~= rest.push(list.last()));
        rest.lemma_filter_push(list.last(), test);
        lemma_filter_keeps_distinct(rest, test);
        let kept = rest.filter(test);
        if kept.contains(list.last()) {
            rest.lemma_filter_contains_rev(test, list.last());
            let i = choose|i: int| 0 <= i < rest.len() && rest[i] == list.last();
            assert(list[i] == list[list.len() - 1]);
        }
    } else {
        list.lemma_filter_len(test);
    }
}

/// Whether `repo` is in `list`, compared field by field.
pub fn contains(list: &Vec<Repository>, repo: &Repository) -> (found: bool)
    ensures
        found == views(list@).contains(repo@),
{
    let mut i: usize = 0;
    while i < list.len()
        invariant
            i <= list@.len(),
            forall|k: int| 0 <= k < i ==> views(list@)[k] != repo@,
        decreases list@.len() - i,
    {
        if list[i] == *repo {
            assert(views(list@)[i as int] == repo@);
            return true;
        }
        i += 1;
    }
    false
}

/// `list` without every repository equal to `repo`.
fn remove_all(list: &Vec<Repository>, repo: &Repository) -> (rest: Vec<Repository>)
    ensures
        views(rest@) == without(views(list@), repo@),
{
    let ghost test = other_than(repo@);
    let mut rest: Vec<Repository> = Vec::new();
    let mut i: usize = 0;
    proof {
        views(list@.take(0)).lemma_filter_len(test);
    }
    while i < list.len()
        invariant
            i <= list@.len(),
            test == other_than(repo@),
            views(rest@) == views(list@.take(i as int)).filter(test),
        decreases list@.len() - i,
    {
        proof {
            lemma_views_push(list@, i as int);
            views(list@.take(i as int)).lemma_filter_push(list@[i as int]@, test);
        }
        if list[i] != *repo {
            let ghost before = rest@;
            rest.push(list[i].clone());
            assert(views(rest@) =~= views(before).push(list@[i as int]@));
        }
        i += 1;
    }
    assert(list@.take(list@.len() as int) =~= list@);
    rest
}

/// Those of `list` that are not blacklisted and whose archive flag is
/// `archived`.
fn keep(list: &Vec<Repository>, blacklisted: &Vec<Repository>, archived: bool) -> (kept: Vec<
    Repository,
>)
    ensures
        views(kept@) == views(list@).filter(kept_with(views(blacklisted@), archived)),
{
    let ghost test = kept_with(views(blacklisted@), archived);
    let mut kept: Vec<Repository> = Vec::new();
    let mut i: usize = 0;
    proof {
        views(list@.take(0)).lemma_filter_len(test);
    }
    while i < list.len()
        invariant
            i <= list@.len(),
            test == kept_with(views(blacklisted@), archived),
            views(kept@) == views(list@.take(i as int)).filter(test),
        decreases list@.len() - i,
    {
        proof {
            lemma_views_push(list@, i as int);
            views(list@.take(i as int)).lemma_filter_push(list@[i as int]@, test);
        }
        if list[i].archived == archived && !contains(blacklisted, &list[i]) {
            let ghost before = kept@;
            kept.push(list[i].clone());
            assert(views(kept@) =~= views(before).push(list@[i as int]@));
        }
        i += 1;
    }
    assert(list@.take(list@.len() as int) =~= list@);
    kept
}

/// `list` with `repo` at its end, unless `repo` is in it.
fn add_once(list: &Vec<Repository>, repo: Repository) -> (added: Vec<Repository>)
    ensures
        views(added@) == with_once(views(list@), repo@),
{
    let mut added = list.clone();
    assert(added@ =~= list@);
    if !contains(list, &repo) {
        added.push(repo);
        assert(views(added@) =~= views(list@).push(repo@));
    }
    added
}

/// The repositories of the team and what the user made of them.
pub struct RepositoriesPanel {
    repositories: Vec<Repository>,
    blacklisted: Vec<Repository>,
    archived: Vec<Repository>,
    team: Option<Team>,
    team_name: String,
    client: Client,
}

impl RepositoriesPanel {
    /// The repositories that the other panels show.
    pub closed spec fn selected(&self) -> Seq<RepositoryView> {
        views(self.repositories@)
    }

    /// The repositories that the user wants left out.
    pub closed spec fn blacklist(&self) -> Seq<RepositoryView> {
        views(self.blacklisted@)
    }

    /// The archived repositories of the team.
    pub closed spec fn archive(&self) -> Seq<RepositoryView> {
        views(self.archived@)
    }

    /// The team whose repositories are shown, once it is known.
    pub closed spec fn team(&self) -> Option<Team> {
        self.team
    }

    /// The name of the team as the user typed it.
    pub closed spec fn team_name(&self) -> Seq<char> {
        self.team_name@
    }

    /// What the panel knows of the rate limit.
    pub closed spec fn client(&self) -> Client {
        self.client
    }

    #[verifier::type_invariant]
    spec fn blacklist_is_a_set(&self) -> bool {
        self.blacklist().no_duplicates()
    }

    /// A panel without a team and without repositories.
    pub fn new() -> (panel: Self)
        ensures
            panel.selected() == Seq::<RepositoryView>::empty(),
            panel.blacklist() == Seq::<RepositoryView>::empty(),
            panel.archive() == Seq::<RepositoryView>::empty(),
            panel.team() is None,
            panel.team_name() == Seq::<char>::empty(),
            panel.client()@ == fresh_client(),
    {
        let panel = RepositoriesPanel {
            repositories: Vec::new(),
            blacklisted: Vec::new(),
            archived: Vec::new(),
            team: None,
            team_name: String::new(),
            client: Client::default(),
        };
        assert(panel.selected() =~= Seq::<RepositoryView>::empty());
        assert(panel.blacklist() =~= Seq::<RepositoryView>::empty());
        assert(panel.archive() =~= Seq::<RepositoryView>::empty());
        panel
    }

    /// The repositories that the other panels show.
    pub fn repositories(&self) -> (list: Vec<Repository>)
        ensures
            views(list@) == self.selected(),
    {
        let list = self.repositories.clone();
        assert(list@ =~= self.repositories@);
        list
    }

    /// The repositories that the other panels show.
    pub fn repos(&self) -> (list: Vec<Repository>)
        ensures
            views(list@) == self.selected(),
    {
        self.repositories()
    }

    /// The repositories that the user wants left out. None occurs twice.
    pub fn blacklisted_repositories(&self) -> (list: Vec<Repository>)
        ensures
            views(list@) == self.blacklist(),
            self.blacklist().no_duplicates(),
    {
        proof {
            use_type_invariant(self);
        }
        let list = self.blacklisted.clone();
        assert(list@ =~= self.blacklisted@);
        list
    }

    /// The archived repositories of the team.
    pub fn archived_repositories(&self) -> (list: Vec<Repository>)
        ensures
            views(list@) == self.archive(),
    {
        let list = self.archived.clone();
        assert(list@ =~= self.archived@);
        list
    }

    /// Takes a repository off the blacklist and selects it: it leaves the
    /// blacklist, and joins the selected ones unless it is among them.
    pub fn whitelist_repository(&mut self, repo: Repository)
        ensures
            final(self).blacklist() == without(old(self).blacklist(), repo@),
            final(self).selected() == with_once(old(self).selected(), repo@),
            final(self).archive() == old(self).archive(),
            final(self).team() == old(self).team(),
            final(self).team_name() == old(self).team_name(),
            final(self).client() == old(self).client(),
    {
        proof {
            use_type_invariant(&*self);
            lemma_filter_keeps_distinct(self.blacklist(), other_than(repo@));
        }
        let blacklisted = remove_all(&self.blacklisted, &repo);
        let repositories = add_once(&self.repositories, repo);
        self.blacklisted = blacklisted;
        self.repositories = repositories;
    }

    /// Blacklists a repository: it leaves the selected ones, and joins the
    /// blacklist unless it is on it.
    pub fn blacklist_repository(&mut self, repo: Repository)
        ensures
            final(self).selected() == without(old(self).selected(), repo@),
            final(self).blacklist() == with_once(old(self).blacklist(), repo@),
            final(self).archive() == old(self).archive(),
            final(self).team() == old(self).team(),
            final(self).team_name() == old(self).team_name(),
            final(self).client() == old(self).client(),
    {
        proof {
            use_type_invariant(&*self);
        }
        let repositories = remove_all(&self.repositories, &repo);
        let blacklisted = add_once(&self.blacklisted, repo);
        self.repositories = repositories;
        self.blacklisted = blacklisted;
    }

    /// Takes the name of a team as the user typed it.
    pub fn set_team_name(&mut self, team_name: String)
        ensures
            final(self).team_name() == team_name@,
            final(self).selected() == old(self).selected(),
            final(self).blacklist() == old(self).blacklist(),
            final(self).archive() == old(self).archive(),
            final(self).team() == old(self).team(),
            final(self).client() == old(self).client(),
    {
        proof {
            use_type_invariant(&*self);
        }
        self.team_name = team_name;
    }

    /// The name of the team as the user typed it.
    pub fn get_team_name(&self) -> (team_name: String)
        ensures
            team_name@ == self.team_name(),
    {
        self.team_name.clone()
    }

    /// What the panel knows of the rate limit.
    pub fn get_client(&self) -> (client: Client)
        ensures
            client == self.client(),
    {
        self.client
    }

    /// The path to ask the host for the team that the user named.
    pub fn team_request_path(&self) -> (path: String)
        ensures
            path@ == "/orgs/navikt/teams/"@ + self.team_name(),
    {
        team_path(self.team_name.as_str())
    }

    /// Takes the team that the host returned.
    pub fn set_team(&mut self, team: Team)
        ensures
            final(self).team() == Some(team),
            final(self).selected() == old(self).selected(),
            final(self).blacklist() == old(self).blacklist(),
            final(self).archive() == old(self).archive(),
            final(self).team_name() == old(self).team_name(),
            final(self).client() == old(self).client(),
    {
        proof {
            use_type_invariant(&*self);
        }
        self.team = Some(team);
    }

    /// The team whose repositories are shown, once it is known.
    pub fn selected_team(&self) -> (team: Option<Team>)
        ensures
            team == self.team(),
    {
        match &self.team {
            Some(team) => Some(team.clone()),
            None => None,
        }
    }

    /// The page that lists the members of the team; none while no team is
    /// known.
    pub fn members_page(&self) -> (url: Option<String>)
        ensures
            match self.team() {
                Some(team) => url is Some && url->0@ == "https://github.com/orgs/navikt/teams/"@
                    + team.name@ + "/members"@,
                None => url is None,
            },
    {
        match &self.team {
            Some(team) => Some(members_url(team.name.as_str())),
            None => None,
        }
    }

    /// The address to ask the host for the repositories of the team; none
    /// while no team is known.
    pub fn repositories_request_url(&self) -> (url: Option<String>)
        ensures
            match self.team() {
                Some(team) => url is Some && url->0@ == team.repositories_url@ + "?per_page=100"@,
                None => url is None,
            },
    {
        match &self.team {
            Some(team) => Some(repositories_url(team.repositories_url.as_str())),
            None => None,
        }
    }

    /// Takes the repositories that the host lists for the team. Those on the
    /// blacklist are dropped; of the others the archived ones are set apart
    /// and the rest selected, each list in the order of the host.
    pub fn set_fetched_repositories(&mut self, fetched: &Vec<Repository>)
        ensures
            final(self).selected() == views(fetched@).filter(
                kept_with(old(self).blacklist(), false),
            ),
            final(self).archive() == views(fetched@).filter(kept_with(old(self).blacklist(), true)),
            final(self).blacklist() == old(self).blacklist(),
            final(self).team() == old(self).team(),
            final(self).team_name() == old(self).team_name(),
            final(self).client() == old(self).client(),
    {
        proof {
            use_type_invariant(&*self);
        }
        let repositories = keep(fetched, &self.blacklisted, false);
        let archived = keep(fetched, &self.blacklisted, true);
        self.repositories = repositories;
        self.archived = archived;
    }

    /// Takes what another part of the program knows of the rate limit.
    pub fn set_client(&mut self, client: Client)
        ensures
            final(self).client() == client,
            final(self).selected() == old(self).selected(),
            final(self).blacklist() == old(self).blacklist(),
            final(self).archive() == old(self).archive(),
            final(self).team() == old(self).team(),
            final(self).team_name() == old(self).team_name(),
    {
        proof {
            use_type_invariant(&*self);
        }
        self.client = client;
    }
}

/// Blacklisting moves a repository: afterwards it is not selected, and it is
/// on the blacklist exactly once.
pub proof fn law_blacklist_moves(
    selected: Seq<RepositoryView>,
    blacklist: Seq<RepositoryView>,
    repo: RepositoryView,
)
    requires
        blacklist.no_duplicates(),
    ensures
        !without(selected, repo).contains(repo),
        with_once(blacklist, repo).contains(repo),
        with_once(blacklist, repo).no_duplicates(),
{
    let rest = without(selected, repo);
    if rest.contains(repo) {
        let i = choose|i: int| 0 <= i < rest.len() && rest[i] == repo;
        selected.lemma_filter_pred(other_than(repo), i);
    }
    let added = with_once(blacklist, repo);
    if !blacklist.contains(repo) {
        assert(added[added.len() - 1] == repo);
    }
}

/// Blacklisting leaves every other repository where it was: the other
/// selected ones stay selected in their order, and the blacklist changes by
/// the one repository at most.
pub proof fn law_blacklist_spares_others(
    selected: Seq<RepositoryView>,
    blacklist: Seq<RepositoryView>,
    repo: RepositoryView,
    other: RepositoryView,
)
    requires
        other != repo,
    ensures
        without(selected, repo).contains(other) == selected.contains(other),
        with_once(blacklist, repo).contains(other) == blacklist.contains(other),
{
    let test = other_than(repo);
    let rest = without(selected, repo);
    if rest.contains(other) {
        selected.lemma_filter_contains_rev(test, other);
    }
    if selected.contains(other) {
        let i = choose|i: int| 0 <= i < selected.len() && selected[i] == other;
        selected.lemma_filter_contains(test, i);
    }
    let added = with_once(blacklist, repo);
    if added.contains(other) && !blacklist.contains(repo) {
        let i = choose|i: int| 0 <= i < added.len() && added[i] == other;
        assert(blacklist[i] == other);
    }
    if blacklist.contains(other) {
        let i = choose|i: int| 0 <= i < blacklist.len() && blacklist[i] == other;
        assert(added[i] == other);
    }
}

/// Blacklisting a repository that is blacklisted changes nothing: a second
/// blacklisting leaves both lists as the first left them.
pub proof fn law_blacklist_idempotent(
    selected: Seq<RepositoryView>,
    blacklist: Seq<RepositoryView>,
    repo: RepositoryView,
)
    ensures
        without(without(selected, repo), repo) == without(selected, repo),
        with_once(with_once(blacklist, repo), repo) == with_once(blacklist, repo),
{
    let test = other_than(repo);
    let rest = without(selected, repo);
    lemma_filter_all(rest, selected, test);
    let added = with_once(blacklist, repo);
    if !blacklist.contains(repo) {
        assert(added[added.len() - 1] == repo);
    }
}

/// To filter twice by one test is to filter once.
proof fn lemma_filter_all<A>(kept: Seq<A>, list: Seq<A>, test: spec_fn(A) -> bool)
    requires
        kept == list.filter(test),
    ensures
        kept.filter(test) == kept,
{
    assert forall|i: int| 0 <= i < kept.len() implies test(kept[i]) by {
        list.lemma_filter_pred(test, i);
    }
    lemma_filter_of_passing(kept, test);
}

/// A filter keeps a list whose every element passes.
proof fn lemma_filter_of_passing<A>(list: Seq<A>, test: spec_fn(A) -> bool)
    requires
        forall|i: int| 0 <= i < list.len() ==> test(list[i]),
    ensures
        list.filter(test) == list,
    decreases list.len(),
{
    if list.len() > 0 {
        let rest = list.drop_last();
        assert(list =~= rest.push(list.last()));
        rest.lemma_filter_push(list.last(), test);
        lemma_filter_of_passing(rest, test);
    } else {
        list.lemma_filter_len(test);
        assert(list.filter(test) =~= list);
    }
}

/// Whitelisting reverses blacklisting: a repository that was blacklisted and
/// is whitelisted again is selected, is off the blacklist, and the blacklist
/// is what it was before, apart from that repository.
pub proof fn law_whitelist_reverses_blacklist(
    selected: Seq<RepositoryView>,
    blacklist: Seq<RepositoryView>,
    repo: RepositoryView,
)
    ensures
        with_once(without(selected, repo), repo).contains(repo),
        !without(with_once(blacklist, repo), repo).contains(repo),
        without(with_once(blacklist, repo), repo) == without(blacklist, repo),
        without(with_once(without(selected, repo), repo), repo) == without(selected, repo),
{
    let test = other_than(repo);
    let rest = without(selected, repo);
    let back = with_once(rest, repo);
    if !rest.contains(repo) {
        assert(back[back.len() - 1] == repo);
        rest.lemma_filter_push(repo, test);
    }
    lemma_filter_all(rest, selected, test);
    let added = with_once(blacklist, repo);
    if !blacklist.contains(repo) {
        blacklist.lemma_filter_push(repo, test);
    }
    let cleared = without(added, repo);
    if cleared.contains(repo) {
        let i = choose|i: int| 0 <= i < cleared.len() && cleared[i] == repo;
        added.lemma_filter_pred(test, i);
    }
}

impl Default for RepositoriesPanel {
    /// A panel without a team and without repositories.
    fn default() -> (made: Self)
        ensures
            made.selected() == Seq::<RepositoryView>::empty(),
            made.blacklist() == Seq::<RepositoryView>::empty(),
            made.archive() == Seq::<RepositoryView>::empty(),
            made.team() is None,
            made.team_name() == Seq::<char>::empty(),
            made.client()@ == fresh_client(),
    {
        RepositoriesPanel::new()
    }
}

} // verus!
