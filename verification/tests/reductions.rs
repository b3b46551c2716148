use github_status::latest::{
    find_in_environment, latest_deployments_per_environment, latest_status,
};
use github_status::model::deployment::{Color, Deployment, State, Status};
use github_status::model::workflow::WorkflowRun;
use github_status::order::newer_first;
use github_status::runs::{conclusion_color, is_run_shown, newest_workflow_runs, shown_runs};
use std::cmp::Ordering;

fn deployment(id: i64, environment: &str) -> Deployment {
    Deployment {
        url: format!("https://api/deployments/{}", id),
        id,
        task: String::from("deploy"),
        environment: String::from(environment),
        created_at: String::new(),
        updated_at: String::new(),
        statuses_url: format!("https://api/deployments/{}/statuses", id),
    }
}

fn status(id: i64, description: &str) -> Status {
    Status {
        url: String::new(),
        id,
        state: State::Pending,
        description: String::from(description),
    }
}

fn run(id: i64, workflow_id: i64, event: &str, conclusion: Option<&str>) -> WorkflowRun {
    WorkflowRun {
        id,
        name: Some(format!("workflow {}", workflow_id)),
        run_attempt: 1,
        event: String::from(event),
        conclusion: conclusion.map(String::from),
        workflow_id,
        html_url: format!("https://github.com/runs/{}", id),
        run_started_at: None,
        actor: None,
        triggering_actor: None,
        jobs_url: String::new(),
        logs_url: String::new(),
        check_suite_url: String::new(),
        artifacts_url: String::new(),
        cancel_url: String::new(),
        rerun_url: String::new(),
        workflow_url: String::new(),
        display_title: String::new(),
    }
}

fn ids_of_deployments(list: &[Deployment]) -> Vec<i64> {
    list.iter().map(|d| d.id).collect()
}

fn ids_of_runs(list: &[WorkflowRun]) -> Vec<i64> {
    list.iter().map(|r| r.id).collect()
}

#[test]
fn latest_deployment_of_each_environment() {
    let response = vec![deployment(1, "prod"), deployment(5, "prod"), deployment(3, "dev")];
    let kept = latest_deployments_per_environment(&response);
    assert_eq!(ids_of_deployments(&kept), vec![5, 3]);
    assert_eq!(find_in_environment(&kept, "prod").unwrap().id, 5);
    assert_eq!(find_in_environment(&kept, "dev").unwrap().id, 3);
    assert!(find_in_environment(&kept, "test").is_none());
}

#[test]
fn latest_deployment_where_environments_alternate() {
    let response = vec![
        deployment(1, "prod"),
        deployment(3, "dev"),
        deployment(5, "prod"),
        deployment(2, "dev"),
        deployment(4, "prod"),
    ];
    let kept = latest_deployments_per_environment(&response);
    assert_eq!(ids_of_deployments(&kept), vec![3, 5]);
    assert_eq!(find_in_environment(&kept, "prod").unwrap().id, 5);
    assert_eq!(find_in_environment(&kept, "dev").unwrap().id, 3);
}

#[test]
fn latest_deployment_of_equal_numbers_is_the_later_one() {
    let mut first = deployment(7, "prod");
    first.task = String::from("first");
    let mut second = deployment(7, "prod");
    second.task = String::from("second");
    let kept = latest_deployments_per_environment(&vec![first, second]);
    assert_eq!(kept.len(), 1);
    assert_eq!(kept[0].task, "second");
}

#[test]
fn latest_deployments_of_nothing() {
    assert!(latest_deployments_per_environment(&Vec::new()).is_empty());
    assert!(find_in_environment(&Vec::new(), "prod").is_none());
}

#[test]
fn the_deployment_shown_has_the_greatest_number_of_its_environment() {
    let environments = ["dev", "prod", "q1", "q2"];
    let mut response = Vec::new();
    let mut seed: i64 = 17;
    for _ in 0..60 {
        seed = (seed * 1103515245 + 12345) % 2147483648;
        let id = seed % 25 - 5;
        let environment = environments[(seed / 64 % 4) as usize];
        response.push(deployment(id, environment));
    }
    let kept = latest_deployments_per_environment(&response);
    for environment in environments {
        let greatest = response.iter().filter(|d| d.environment == environment).map(|d| d.id).max();
        let shown = find_in_environment(&kept, environment).map(|d| d.id);
        assert_eq!(shown, greatest);
        assert!(kept.iter().filter(|d| d.environment == environment).count() <= 1);
    }
}

#[test]
fn latest_status_has_the_greatest_number() {
    let response = vec![status(1, "a"), status(3, "b"), status(2, "c")];
    let latest = latest_status(response).unwrap();
    assert_eq!(latest.id, 3);
    assert_eq!(latest.description, "b");
}

#[test]
fn latest_status_of_equal_numbers_is_the_first() {
    let response = vec![status(2, "a"), status(9, "first"), status(9, "second"), status(4, "d")];
    let latest = latest_status(response).unwrap();
    assert_eq!(latest.id, 9);
    assert_eq!(latest.description, "first");
}

#[test]
fn latest_status_of_nothing() {
    assert!(latest_status(Vec::new()).is_none());
}

#[test]
fn latest_status_of_one() {
    assert_eq!(latest_status(vec![status(-4, "only")]).unwrap().id, -4);
}

#[test]
fn newer_statuses_sort_first() {
    assert_eq!(newer_first(&status(2, ""), &status(1, "")), Ordering::Less);
    assert_eq!(newer_first(&status(1, ""), &status(1, "")), Ordering::Equal);
    assert_eq!(newer_first(&status(1, ""), &status(2, "")), Ordering::Greater);
}

#[test]
fn newest_run_of_a_workflow_is_hidden_when_it_succeeded() {
    let runs = vec![run(10, 1, "push", Some("failure")), run(11, 1, "push", Some("success"))];
    let newest = newest_workflow_runs(&runs);
    assert_eq!(ids_of_runs(&newest), vec![11]);
    assert!(shown_runs(&runs, false, false).is_empty());
    assert!(shown_runs(&runs, true, false).is_empty());
    assert_eq!(ids_of_runs(&shown_runs(&runs, false, true)), vec![11]);
}

#[test]
fn newest_runs_come_by_rising_workflow() {
    let runs = vec![
        run(30, 7, "push", Some("failure")),
        run(12, 2, "push", Some("failure")),
        run(31, 7, "push", Some("failure")),
        run(5, -1, "push", None),
        run(11, 2, "push", Some("success")),
    ];
    assert_eq!(ids_of_runs(&newest_workflow_runs(&runs)), vec![5, 12, 31]);
    assert_eq!(ids_of_runs(&shown_runs(&runs, false, false)), vec![5, 12, 31]);
}

#[test]
fn newest_run_of_equal_numbers_is_the_first() {
    let mut first = run(4, 1, "push", None);
    first.display_title = String::from("first");
    let mut second = run(4, 1, "push", None);
    second.display_title = String::from("second");
    let newest = newest_workflow_runs(&vec![first, second]);
    assert_eq!(newest.len(), 1);
    assert_eq!(newest[0].display_title, "first");
}

#[test]
fn newest_run_may_have_a_number_below_one() {
    let runs = vec![run(-5, 1, "push", None), run(0, 2, "push", None)];
    assert_eq!(ids_of_runs(&newest_workflow_runs(&runs)), vec![-5, 0]);
}

#[test]
fn newest_runs_of_nothing() {
    assert!(newest_workflow_runs(&Vec::new()).is_empty());
    assert!(shown_runs(&Vec::new(), true, true).is_empty());
}

#[test]
fn the_run_listed_has_the_greatest_number_of_its_workflow() {
    let mut runs = Vec::new();
    let mut seed: i64 = 99;
    for _ in 0..80 {
        seed = (seed * 1103515245 + 12345) % 2147483648;
        runs.push(run(seed % 40, seed / 128 % 6, "push", None));
    }
    let newest = newest_workflow_runs(&runs);
    for pair in newest.windows(2) {
        assert!(pair[0].workflow_id < pair[1].workflow_id);
    }
    for workflow_id in 0..6 {
        let greatest = runs.iter().filter(|r| r.workflow_id == workflow_id).map(|r| r.id).max();
        let listed: Vec<i64> =
            newest.iter().filter(|r| r.workflow_id == workflow_id).map(|r| r.id).collect();
        match greatest {
            Some(id) => assert_eq!(listed, vec![id]),
            None => assert!(listed.is_empty()),
        }
    }
}

#[test]
fn switches_decide_what_is_shown() {
    let by_pull_request = run(1, 1, "pull_request", Some("failure"));
    let succeeded = run(2, 2, "push", Some("success"));
    let both = run(3, 3, "pull_request", Some("success"));
    let neither = run(4, 4, "push", Some("failure"));
    let running = run(5, 5, "schedule", None);
    let table = [
        // run, (pull requests off, successes off), (on, off), (off, on), (on, on)
        (&by_pull_request, false, true, false, true),
        (&succeeded, false, false, true, true),
        (&both, false, false, false, true),
        (&neither, true, true, true, true),
        (&running, true, true, true, true),
    ];
    for (run, off_off, on_off, off_on, on_on) in table {
        assert_eq!(is_run_shown(run, false, false), off_off);
        assert_eq!(is_run_shown(run, true, false), on_off);
        assert_eq!(is_run_shown(run, false, true), off_on);
        assert_eq!(is_run_shown(run, true, true), on_on);
    }
}

#[test]
fn shown_runs_leave_out_what_the_switches_hide() {
    let runs = vec![
        run(1, 1, "pull_request", Some("failure")),
        run(2, 2, "push", Some("success")),
        run(3, 3, "pull_request", Some("success")),
        run(4, 4, "push", Some("failure")),
    ];
    assert_eq!(ids_of_runs(&shown_runs(&runs, false, false)), vec![4]);
    assert_eq!(ids_of_runs(&shown_runs(&runs, true, false)), vec![1, 4]);
    assert_eq!(ids_of_runs(&shown_runs(&runs, false, true)), vec![2, 4]);
    assert_eq!(ids_of_runs(&shown_runs(&runs, true, true)), vec![1, 2, 3, 4]);
}

#[test]
fn conclusions_have_colours() {
    assert_eq!(conclusion_color(&run(1, 1, "push", Some("success"))), Color::LightGreen);
    assert_eq!(conclusion_color(&run(1, 1, "push", Some("failure"))), Color::LightRed);
    assert_eq!(conclusion_color(&run(1, 1, "push", Some("cancelled"))), Color::LightGray);
    assert_eq!(conclusion_color(&run(1, 1, "push", Some(""))), Color::LightGray);
    assert_eq!(conclusion_color(&run(1, 1, "push", None)), Color::LightGray);
}
