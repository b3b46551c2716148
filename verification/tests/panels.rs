use github_status::model::deployment::{Deployment, State, Status};
use github_status::model::environment::Environment;
use github_status::model::pull_request::{Head, Repo, User};
use github_status::model::repository::Repository;
use github_status::model::team::Team;
use github_status::model::workflow::WorkflowRun;
use github_status::name_map::NameMap;
use github_status::panel::{Application, PanelKind, Panels, SelectedPanel};
use github_status::panel_deployment::{DeploymentPanel, KnownEnvironments};
use github_status::panel_pull_request::{PullRequest, PullRequestsPanel};
use github_status::panel_repository::{contains, RepositoriesPanel};
use github_status::panel_workflows::{row_of, WorkflowPanel};
use github_status::table::{TableUI, Tables};

fn repository(id: i64, name: &str) -> Repository {
    Repository {
        id,
        name: String::from(name),
        full_name: format!("navikt/{}", name),
        html_url: format!("https://github.com/navikt/{}", name),
        deployments_url: format!("https://api.github.com/repos/navikt/{}/deployments", name),
        releases_url: String::new(),
        pulls_url: format!("https://api.github.com/repos/navikt/{}/pulls{{/number}}", name),
        description: None,
        archived: false,
    }
}

fn archived(id: i64, name: &str) -> Repository {
    let mut repo = repository(id, name);
    repo.archived = true;
    repo
}

fn names(list: &[Repository]) -> Vec<String> {
    list.iter().map(|r| r.name.clone()).collect()
}

fn team(name: &str) -> Team {
    Team {
        id: 1,
        name: String::from(name),
        slug: String::from(name),
        description: None,
        privacy: String::new(),
        url: String::new(),
        html_url: String::new(),
        members_url: String::new(),
        repositories_url: format!("https://api.github.com/teams/{}/repos", name),
        permission: String::new(),
    }
}

fn deployment(id: i64, environment: &str) -> Deployment {
    Deployment {
        url: String::new(),
        id,
        task: String::from("deploy"),
        environment: String::from(environment),
        created_at: String::new(),
        updated_at: String::new(),
        statuses_url: format!("https://api/deployments/{}/statuses", id),
    }
}

fn status(id: i64, state: State, description: &str) -> Status {
    Status { url: String::new(), id, state, description: String::from(description) }
}

fn environment(id: i64, name: &str) -> Environment {
    Environment { url: String::new(), id, name: String::from(name), html_url: String::new() }
}

fn run(id: i64, workflow_id: i64, event: &str, conclusion: Option<&str>) -> WorkflowRun {
    WorkflowRun {
        id,
        name: Some(format!("workflow {}", workflow_id)),
        run_attempt: 2,
        event: String::from(event),
        conclusion: conclusion.map(String::from),
        workflow_id,
        html_url: format!("https://github.com/runs/{}", id),
        run_started_at: Some(String::from("2023-05-01T10:00:00Z")),
        actor: None,
        triggering_actor: None,
        jobs_url: String::new(),
        logs_url: String::new(),
        check_suite_url: String::new(),
        artifacts_url: String::new(),
        cancel_url: String::new(),
        rerun_url: String::new(),
        workflow_url: String::new(),
        display_title: String::new(),
    }
}

fn pull(id: i64, repo: &str, title: Option<&str>) -> github_status::model::pull_request::PullRequest {
    github_status::model::pull_request::PullRequest {
        id,
        url: format!("https://api/pulls/{}", id),
        html_url: None,
        title: title.map(String::from),
        user: Some(User { login: String::from("octocat") }),
        head: Head {
            reference: String::from("branch"),
            sha: String::from("abc"),
            repo: Repo { id: 1, url: String::new(), name: String::from(repo) },
        },
        updated_at: None,
    }
}

#[test]
fn blacklisting_moves_a_repository() {
    let mut panel = RepositoriesPanel::new();
    panel.set_fetched_repositories(&vec![repository(1, "a"), repository(2, "b"), repository(3, "c")]);
    panel.blacklist_repository(repository(2, "b"));
    assert_eq!(names(&panel.repositories()), vec!["a", "c"]);
    assert_eq!(names(&panel.blacklisted_repositories()), vec!["b"]);
}

#[test]
fn blacklisting_twice_is_blacklisting_once() {
    let mut panel = RepositoriesPanel::new();
    panel.set_fetched_repositories(&vec![repository(1, "a"), repository(2, "b")]);
    panel.blacklist_repository(repository(2, "b"));
    panel.blacklist_repository(repository(2, "b"));
    panel.blacklist_repository(repository(2, "b"));
    assert_eq!(names(&panel.repositories()), vec!["a"]);
    assert_eq!(names(&panel.blacklisted_repositories()), vec!["b"]);
}

#[test]
fn whitelisting_reverses_blacklisting() {
    let mut panel = RepositoriesPanel::new();
    panel.set_fetched_repositories(&vec![repository(1, "a"), repository(2, "b"), repository(3, "c")]);
    panel.blacklist_repository(repository(1, "a"));
    panel.blacklist_repository(repository(2, "b"));
    panel.whitelist_repository(repository(1, "a"));
    assert_eq!(names(&panel.repositories()), vec!["c", "a"]);
    assert_eq!(names(&panel.blacklisted_repositories()), vec!["b"]);
    panel.whitelist_repository(repository(1, "a"));
    assert_eq!(names(&panel.repositories()), vec!["c", "a"]);
    assert_eq!(names(&panel.blacklisted_repositories()), vec!["b"]);
}

#[test]
fn repositories_are_compared_by_every_field() {
    let mut panel = RepositoriesPanel::new();
    panel.set_fetched_repositories(&vec![repository(1, "a"), repository(2, "a")]);
    panel.blacklist_repository(repository(2, "a"));
    let selected = panel.repositories();
    assert_eq!(selected.len(), 1);
    assert_eq!(selected[0].id, 1);
    assert!(contains(&panel.blacklisted_repositories(), &repository(2, "a")));
    assert!(!contains(&panel.blacklisted_repositories(), &repository(1, "a")));
}

#[test]
fn fetched_repositories_are_sorted_into_selected_and_archived() {
    let mut panel = RepositoriesPanel::new();
    panel.blacklist_repository(repository(2, "b"));
    panel.blacklist_repository(archived(5, "e"));
    panel.set_fetched_repositories(&vec![
        repository(1, "a"),
        repository(2, "b"),
        archived(3, "c"),
        repository(4, "d"),
        archived(5, "e"),
    ]);
    assert_eq!(names(&panel.repositories()), vec!["a", "d"]);
    assert_eq!(names(&panel.repos()), vec!["a", "d"]);
    assert_eq!(names(&panel.archived_repositories()), vec!["c"]);
    assert_eq!(names(&panel.blacklisted_repositories()), vec!["b", "e"]);
}

#[test]
fn team_decides_what_is_asked_for() {
    let mut panel = RepositoriesPanel::new();
    assert!(panel.selected_team().is_none());
    assert!(panel.repositories_request_url().is_none());
    assert!(panel.members_page().is_none());
    panel.set_team_name(String::from("aap"));
    assert_eq!(panel.team_request_path(), "/orgs/navikt/teams/aap");
    panel.set_team(team("aap"));
    assert_eq!(panel.selected_team().unwrap().name, "aap");
    assert_eq!(
        panel.repositories_request_url().unwrap(),
        "https://api.github.com/teams/aap/repos?per_page=100"
    );
    assert_eq!(panel.members_page().unwrap(), "https://github.com/orgs/navikt/teams/aap/members");
}

#[test]
fn deployments_are_kept_by_repository_and_environment() {
    let mut panel = DeploymentPanel::new();
    panel.set_repos(vec![repository(1, "a"), repository(2, "b")]);
    panel.set_deployments(
        String::from("a"),
        &vec![deployment(1, "prod"), deployment(5, "prod"), deployment(3, "dev")],
    );
    panel.set_deployments(String::from("b"), &vec![deployment(8, "dev"), deployment(9, "dev")]);
    assert_eq!(panel.deployment("a", "prod").unwrap().id, 5);
    assert_eq!(panel.deployment("a", "dev").unwrap().id, 3);
    assert_eq!(panel.deployment("b", "dev").unwrap().id, 9);
    assert!(panel.deployment("b", "prod").is_none());
    assert!(panel.deployment("c", "prod").is_none());
    panel.set_deployments(String::from("a"), &vec![deployment(2, "prod")]);
    assert_eq!(panel.deployment("a", "prod").unwrap().id, 2);
    assert!(panel.deployment("a", "dev").is_none());
    assert_eq!(panel.deployment("b", "dev").unwrap().id, 9);
    panel.clear_deployments();
    assert!(panel.deployment("a", "prod").is_none());
    assert!(panel.deployment("b", "dev").is_none());
}

#[test]
fn statuses_are_kept_by_deployment() {
    let mut panel = DeploymentPanel::new();
    panel.set_statuses(5, vec![status(1, State::Pending, "a"), status(3, State::Success, "b")]);
    panel.set_statuses(6, vec![status(9, State::Failure, "c")]);
    assert_eq!(panel.status(5).unwrap().id, 3);
    assert_eq!(panel.status(6).unwrap().id, 9);
    assert!(panel.status(7).is_none());
    panel.set_statuses(5, Vec::new());
    assert_eq!(panel.status(5).unwrap().id, 3);
    panel.set_statuses(5, vec![status(2, State::Error, "d")]);
    assert_eq!(panel.status(5).unwrap().id, 2);
    panel.clear_deployment_statuses();
    assert!(panel.status(5).is_none());
    assert!(panel.status(6).is_none());
}

#[test]
fn environments_are_known_once_by_name() {
    let mut panel = DeploymentPanel::new();
    panel.merge_environments(&vec![environment(1, "dev"), environment(2, "prod")]);
    panel.merge_environments(&vec![
        environment(3, "prod"),
        environment(4, "q1"),
        environment(5, "q1"),
        environment(6, "dev"),
    ]);
    let known = panel.environments();
    let listed: Vec<(i64, &str)> = known.iter().map(|e| (e.id, e.name.as_str())).collect();
    assert_eq!(listed, vec![(1, "dev"), (2, "prod"), (4, "q1")]);
}

#[test]
fn known_environments_can_be_cleared() {
    let mut known = KnownEnvironments::new();
    known.merge(&vec![environment(1, "dev")]);
    assert_eq!(known.to_vec().len(), 1);
    known.clear();
    assert!(known.to_vec().is_empty());
    known.merge(&vec![environment(2, "dev")]);
    assert_eq!(known.to_vec()[0].id, 2);
}

#[test]
fn refreshing_deployments_asks_for_every_repository() {
    let mut panel = DeploymentPanel::new();
    panel.set_repos(vec![repository(1, "b"), repository(2, "a")]);
    panel.merge_environments(&vec![environment(1, "dev")]);
    panel.set_deployments(String::from("a"), &vec![deployment(1, "dev")]);
    panel.set_statuses(1, vec![status(1, State::Success, "")]);
    let requests = panel.refresh_deployments();
    assert_eq!(requests.len(), 2);
    assert_eq!(requests[0].repository, "b");
    assert_eq!(requests[0].environments_path, "/repos/navikt/b/environments");
    assert_eq!(requests[0].deployments_url, "https://api.github.com/repos/navikt/b/deployments");
    assert_eq!(requests[1].repository, "a");
    assert_eq!(requests[1].environments_path, "/repos/navikt/a/environments");
    assert!(panel.environments().is_empty());
    assert!(panel.deployment("a", "dev").is_none());
    assert_eq!(panel.status(1).unwrap().id, 1);
    assert_eq!(names(&panel.repositories()), vec!["b", "a"]);
}

#[test]
fn refreshing_statuses_returns_every_deployment_kept() {
    let mut panel = DeploymentPanel::new();
    panel.set_deployments(String::from("b"), &vec![deployment(8, "dev"), deployment(7, "prod")]);
    panel.set_deployments(String::from("a"), &vec![deployment(1, "prod"), deployment(5, "prod")]);
    panel.set_statuses(8, vec![status(1, State::Success, "")]);
    let kept = panel.refresh_statuses();
    let ids: Vec<i64> = kept.iter().map(|d| d.id).collect();
    assert_eq!(ids, vec![5, 8, 7]);
    assert_eq!(kept[0].statuses_url, "https://api/deployments/5/statuses");
    assert!(panel.status(8).is_none());
    assert_eq!(panel.deployment("b", "dev").unwrap().id, 8);
}

#[test]
fn board_of_an_environment() {
    let mut panel = DeploymentPanel::new();
    panel.set_repos(vec![repository(1, "b"), repository(2, "a"), repository(3, "c")]);
    panel.set_deployments(String::from("a"), &vec![deployment(1, "prod"), deployment(5, "prod")]);
    panel.set_deployments(String::from("b"), &vec![deployment(8, "dev"), deployment(7, "prod")]);
    panel.set_deployments(String::from("c"), &vec![deployment(9, "prod")]);
    panel.set_statuses(5, vec![status(50, State::Success, "fine"), status(49, State::Error, "x")]);
    panel.set_statuses(7, vec![status(70, State::Failure, "broke")]);
    panel.set_statuses(1, vec![status(10, State::Pending, "old")]);
    let rows = panel.rows("prod");
    assert_eq!(rows.len(), 2);
    assert_eq!(rows[0].repository, "b");
    assert_eq!(rows[0].status.id, 70);
    assert_eq!(rows[0].status.description(), "broke");
    assert_eq!(rows[1].repository, "a");
    assert_eq!(rows[1].status.id, 50);
    assert_eq!(rows[1].status.description(), "");
    assert!(panel.rows("dev").is_empty());
    assert!(panel.rows("q1").is_empty());
}

#[test]
fn pull_requests_gather_in_order_of_arrival() {
    let mut panel = PullRequestsPanel::new();
    panel.set_repos(vec![repository(1, "a"), repository(2, "b")]);
    panel.add_pull_requests(vec![pull(1, "a", Some("one")), pull(2, "a", None)]);
    panel.add_pull_requests(Vec::new());
    panel.add_pull_requests(vec![pull(3, "b", Some("three"))]);
    let ids: Vec<i64> = panel.pull_requests().iter().map(|p| p.id).collect();
    assert_eq!(ids, vec![1, 2, 3]);
    let rows = panel.rows();
    assert_eq!(rows.len(), 3);
    assert_eq!(rows[0].repo_name, "a");
    assert_eq!(rows[0].title, "one");
    assert_eq!(rows[0].html_url, "https://api/pulls/1");
    assert_eq!(rows[0].user, "octocat");
    assert_eq!(rows[0].updated_at, "unknown");
    assert_eq!(rows[1].title, "unknown");
    assert_eq!(rows[2].repo_name, "b");
    let urls = panel.refresh();
    assert_eq!(
        urls,
        vec![
            "https://api.github.com/repos/navikt/a/pulls",
            "https://api.github.com/repos/navikt/b/pulls"
        ]
    );
    assert!(panel.pull_requests().is_empty());
    assert!(panel.rows().is_empty());
    assert_eq!(names(&panel.repositories()), vec!["a", "b"]);
    panel.add_pull_requests(vec![pull(4, "a", None)]);
    panel.clear_pull_requests();
    assert!(panel.pull_requests().is_empty());
}

#[test]
fn parsed_pull_request_has_empty_fields_where_the_host_has_none() {
    let row = PullRequest::parse(String::from("app"), pull(7, "fork", None));
    assert_eq!(row.repo_name, "app");
    assert_eq!(row.url, "https://api/pulls/7");
    assert_eq!(row.html_url, "");
    assert_eq!(row.title, "");
    assert_eq!(row.user, "octocat");
    assert_eq!(row.updated_at, "");
    let mut full = pull(8, "fork", Some("Title"));
    full.html_url = Some(String::from("page"));
    full.updated_at = Some(String::from("now"));
    full.user = None;
    let row = PullRequest::parse(String::from("app"), full);
    assert_eq!(row.html_url, "page");
    assert_eq!(row.title, "Title");
    assert_eq!(row.user, "");
    assert_eq!(row.updated_at, "now");
}

#[test]
fn workflow_runs_are_listed_by_repository_name() {
    let mut panel = WorkflowPanel::new();
    panel.set_repos(vec![repository(1, "b"), repository(2, "a")]);
    panel.set_workflow_runs(
        String::from("b"),
        vec![run(10, 1, "push", Some("failure")), run(11, 1, "push", Some("success"))],
    );
    panel.set_workflow_runs(
        String::from("a"),
        vec![
            run(20, 2, "pull_request", Some("failure")),
            run(21, 1, "push", Some("failure")),
            run(19, 1, "push", Some("success")),
        ],
    );
    let off = TableUI::new();
    let listing = panel.listing(&off);
    assert_eq!(listing.len(), 2);
    assert_eq!(listing[0].repository, "a");
    assert_eq!(listing[0].runs.iter().map(|r| r.id).collect::<Vec<i64>>(), vec![21]);
    assert_eq!(listing[1].repository, "b");
    assert!(listing[1].runs.is_empty());
    let all = off.toggle_prs().toggle_success();
    let listing = panel.listing(&all);
    assert_eq!(listing[0].runs.iter().map(|r| r.id).collect::<Vec<i64>>(), vec![21, 20]);
    assert_eq!(listing[1].runs.iter().map(|r| r.id).collect::<Vec<i64>>(), vec![11]);
    panel.set_workflow_runs(String::from("b"), vec![run(12, 3, "push", None)]);
    let listing = panel.listing(&off);
    assert_eq!(listing[1].runs.iter().map(|r| r.id).collect::<Vec<i64>>(), vec![12]);
    let requests = panel.refresh();
    assert_eq!(requests.len(), 2);
    assert_eq!(requests[0].repository, "b");
    assert_eq!(requests[0].path, "/repos/navikt/b/actions/runs?per_page=15");
    assert_eq!(requests[1].repository, "a");
    assert_eq!(requests[1].path, "/repos/navikt/a/actions/runs?per_page=15");
    assert!(panel.listing(&all).is_empty());
    assert_eq!(names(&panel.repositories()), vec!["b", "a"]);
}

#[test]
fn line_of_a_workflow_run() {
    let row = row_of("app", &run(5, 1, "push", Some("failure")));
    assert_eq!(row.repository, "app");
    assert_eq!(row.conclusion, "failure");
    assert_eq!(row.color, github_status::model::deployment::Color::LightRed);
    assert_eq!(row.workflow, "workflow 1");
    assert_eq!(row.page, "https://github.com/runs/5");
    assert_eq!(row.event, "push");
    assert_eq!(row.attempts, 2);
    assert_eq!(row.started_at, "2023-05-01T10:00:00Z");
    let mut bare = run(6, 1, "push", None);
    bare.name = None;
    bare.run_started_at = None;
    let row = row_of("app", &bare);
    assert_eq!(row.conclusion, "");
    assert_eq!(row.color, github_status::model::deployment::Color::LightGray);
    assert_eq!(row.workflow, "");
    assert_eq!(row.started_at, "");
}

#[test]
fn defaults_are_empty() {
    assert!(RepositoriesPanel::default().repositories().is_empty());
    assert!(DeploymentPanel::default().environments().is_empty());
    assert!(PullRequestsPanel::default().pull_requests().is_empty());
    assert!(WorkflowPanel::default().listing(&TableUI::default()).is_empty());
    assert!(!Tables::default().show_successful_runs());
    let application = Application::default();
    assert_eq!(application.token, "");
    assert_eq!(application.panels.rate_limit(), 5000);
    assert_eq!(Panels::default().selected.get_kind(), PanelKind::Repositories);
    let api = github_status::github::GitHubApi::default();
    assert_eq!(api.token, "");
    assert!(!api.token_visible);
}

#[test]
fn table_switches_toggle() {
    let table = TableUI::new();
    assert!(!table.is_show_pr());
    assert!(!table.is_show_success());
    assert!(table.toggle_prs().is_show_pr());
    assert!(!table.toggle_prs().is_show_success());
    assert!(table.toggle_success().is_show_success());
    assert!(!table.toggle_success().is_show_pr());
    assert!(!table.toggle_prs().toggle_prs().is_show_pr());
    let tables = Tables::new();
    assert!(!tables.show_pull_requests_runs());
    assert!(!tables.show_successful_runs());
    let tables = tables.toggle_show_workflow_pulls();
    assert!(tables.show_pull_requests_runs());
    assert!(!tables.show_successful_runs());
    assert!(tables.workflow_runs().is_show_pr());
    assert!(!tables.pull_requests().is_show_pr());
    let tables = tables.toggle_show_workflow_success();
    assert!(tables.show_pull_requests_runs());
    assert!(tables.show_successful_runs());
    let tables = tables.toggle_show_workflow_pulls();
    assert!(!tables.show_pull_requests_runs());
    assert!(tables.show_successful_runs());
    assert!(!tables.pull_requests().is_show_success());
}

#[test]
fn name_map_lists_by_rising_name_and_keeps_the_last_value() {
    let mut map: NameMap<i32> = NameMap::new();
    assert_eq!(map.len(), 0);
    assert!(map.get("a").is_none());
    for (name, value) in [("m", 1), ("b", 2), ("z", 3), ("a", 4), ("mm", 5), ("b", 6), ("", 7)] {
        map.insert(String::from(name), value);
    }
    assert_eq!(map.len(), 6);
    let listed: Vec<(&str, i32)> =
        (0..map.len()).map(|i| (map.name_at(i).as_str(), *map.value_at(i))).collect();
    assert_eq!(listed, vec![("", 7), ("a", 4), ("b", 6), ("m", 1), ("mm", 5), ("z", 3)]);
    assert_eq!(map.get("b"), Some(&6));
    assert_eq!(map.get("mm"), Some(&5));
    assert_eq!(map.get(""), Some(&7));
    assert!(map.get("c").is_none());
    assert!(map.get("zz").is_none());
    map.clear();
    assert_eq!(map.len(), 0);
    assert!(map.get("b").is_none());
}

#[test]
fn panels_start_empty_with_the_repositories_in_view() {
    let panels = Panels::new();
    assert_eq!(panels.selected.get_kind(), PanelKind::Repositories);
    assert_eq!(panels.rate_limit(), 5000);
    assert_eq!(panels.rate_limit_reset(), 24);
    assert!(panels.repositories.repositories().is_empty());
    assert!(panels.repositories.blacklisted_repositories().is_empty());
    assert!(panels.pull_requests.pull_requests().is_empty());
    assert!(panels.deployment.environments().is_empty());
    assert!(!panels.tables.show_pull_requests_runs());
    let selected = SelectedPanel::default();
    assert_eq!(selected.get_kind(), PanelKind::Repositories);
    assert_eq!(selected.get_client().get_rate_limit(), 5000);
}

#[test]
fn selecting_a_panel_takes_the_client_along() {
    let mut panels = Panels::new();
    let mut client = panels.selected.get_client();
    client.set_rate_limit(42);
    panels.selected = SelectedPanel::of(PanelKind::Repositories, client);
    for kind in [
        PanelKind::Deployments,
        PanelKind::PullRequests,
        PanelKind::WorkflowRuns,
        PanelKind::Repositories,
    ] {
        panels.select(kind);
        assert_eq!(panels.selected.get_kind(), kind);
        assert_eq!(panels.rate_limit(), 42);
        assert_eq!(panels.rate_limit_reset(), 24);
    }
}

#[test]
fn panels_remember_what_the_headers_of_an_answer_say() {
    let mut panels = Panels::new();
    panels.select(PanelKind::WorkflowRuns);
    panels.record_rate_limit("4321");
    assert_eq!(panels.rate_limit(), 4321);
    assert_eq!(panels.rate_limit_reset(), 24);
    assert_eq!(panels.selected.get_kind(), PanelKind::WorkflowRuns);
    panels.record_rate_limit("none");
    assert_eq!(panels.rate_limit(), 4321);
    panels.record_rate_reset("later");
    assert_eq!(panels.rate_limit_reset(), 24);
    panels.record_rate_reset("0");
    assert!(panels.rate_limit_reset() > 50 * 365 * 24);
    assert_eq!(panels.rate_limit(), 4321);
    assert_eq!(panels.selected.get_kind(), PanelKind::WorkflowRuns);
}

#[test]
fn panels_count_hours_from_a_header_and_a_moment() {
    let mut panels = Panels::new();
    panels.select(PanelKind::Deployments);
    panels.record_rate_limit("77");
    panels.record_rate_reset_at("36000", 3599);
    assert_eq!(panels.rate_limit_reset(), 10);
    assert_eq!(panels.rate_limit(), 77);
    assert_eq!(panels.selected.get_kind(), PanelKind::Deployments);
    panels.record_rate_reset_at("later", 0);
    assert_eq!(panels.rate_limit_reset(), 10);
}

#[test]
fn fresh_panels_share_a_fresh_client() {
    let panels = Panels::new();
    assert_eq!(panels.repositories.get_client().get_rate_limit(), 5000);
    assert_eq!(panels.pull_requests.get_client().get_rate_limit(), 5000);
    assert_eq!(panels.deployment.get_client().get_rate_reset(), 24);
    assert_eq!(panels.workflow.get_client().get_rate_reset(), 24);
    assert!(panels.deployment.deployment("a", "prod").is_none());
    assert!(panels.repositories.selected_team().is_none());
    assert_eq!(panels.repositories.get_team_name(), "");
}

#[test]
fn opening_a_panel_hands_it_the_selected_repositories() {
    let mut application = Application::new();
    assert_eq!(application.token, "");
    assert!(!application.token_visible);
    application.set_token(String::from("secret"));
    application.toggle_token_visibility();
    assert!(application.token_visible);
    assert_eq!(application.token, "secret");
    application
        .panels
        .repositories
        .set_fetched_repositories(&vec![repository(1, "a"), repository(2, "b")]);
    application.open(PanelKind::Deployments);
    assert_eq!(application.panels.selected.get_kind(), PanelKind::Deployments);
    assert_eq!(names(&application.panels.deployment.repositories()), vec!["a", "b"]);
    assert!(application.panels.workflow.repositories().is_empty());
    application.panels.repositories.blacklist_repository(repository(1, "a"));
    application.open(PanelKind::WorkflowRuns);
    assert_eq!(names(&application.panels.workflow.repositories()), vec!["b"]);
    assert_eq!(names(&application.panels.deployment.repositories()), vec!["a", "b"]);
    application.open(PanelKind::PullRequests);
    assert_eq!(names(&application.panels.pull_requests.repositories()), vec!["b"]);
    application.open(PanelKind::Repositories);
    assert_eq!(application.panels.selected.get_kind(), PanelKind::Repositories);
    application.panels.show_deployments();
    assert_eq!(names(&application.panels.deployment.repositories()), vec!["b"]);
}
