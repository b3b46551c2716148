//! Workflows and their runs.

use crate::text::opt_view;
use vstd::prelude::*;

verus! {

/// A workflow definition of a repository.
#[derive(Debug)]
pub struct Workflow {
    pub id: i64,
    pub node_id: String,
    pub name: String,
    pub path: String,
    pub state: String,
}

/// What a [`Workflow`] holds, as plain values.
pub struct WorkflowView {
    pub id: i64,
    pub node_id: Seq<char>,
    pub name: Seq<char>,
    pub path: Seq<char>,
    pub state: Seq<char>,
}

impl View for Workflow {
    type V = WorkflowView;

    open spec fn view(&self) -> WorkflowView {
        WorkflowView {
            id: self.id,
            node_id: self.node_id@,
            name: self.name@,
            path: self.path@,
            state: self.state@,
        }
    }
}

impl Clone for Workflow {
    fn clone(&self) -> (copy: Self)
        ensures
            copy == *self,
    {
        Workflow {
            id: self.id,
            node_id: self.node_id.clone(),
            name: self.name.clone(),
            path: self.path.clone(),
            state: self.state.clone(),
        }
    }
}
/// An account that started or restarted a run.
#[derive(Debug)]
pub struct Actor {
    pub name: Option<String>,
    pub email: Option<String>,
    pub login: String,
    pub id: i64,
    pub node_id: String,
    pub avatar_url: String,
    pub gravatar_id: String,
    pub url: String,
    pub html_url: String,
    pub actor_type: String,
}

/// What a [`Actor`] holds, as plain values.
pub struct ActorView {
    pub name: Option<Seq<char>>,
    pub email: Option<Seq<char>>,
    pub login: Seq<char>,
    pub id: i64,
    pub node_id: Seq<char>,
    pub avatar_url: Seq<char>,
    pub gravatar_id: Seq<char>,
    pub url: Seq<char>,
    pub html_url: Seq<char>,
    pub actor_type: Seq<char>,
}

impl View for Actor {
    type V = ActorView;

    open spec fn view(&self) -> ActorView {
        ActorView {
            name: opt_view(self.name),
            email: opt_view(self.email),
            login: self.login@,
            id: self.id,
            node_id: self.node_id@,
            avatar_url: self.avatar_url@,
            gravatar_id: self.gravatar_id@,
            url: self.url@,
            html_url: self.html_url@,
            actor_type: self.actor_type@,
        }
    }
}

impl Clone for Actor {
    fn clone(&self) -> (copy: Self)
        ensures
            copy == *self,
    {
        Actor {
            name: self.name.clone(),
            email: self.email.clone(),
            login: self.login.clone(),
            id: self.id,
            node_id: self.node_id.clone(),
            avatar_url: self.avatar_url.clone(),
            gravatar_id: self.gravatar_id.clone(),
            url: self.url.clone(),
            html_url: self.html_url.clone(),
            actor_type: self.actor_type.clone(),
        }
    }
}
/// The view of an optional actor.
pub open spec fn opt_actor_view(actor: Option<Actor>) -> Option<ActorView> {
    match actor {
        Some(a) => Some(a@),
        None => None,
    }
}

/// One execution of a workflow.
#[derive(Debug)]
pub struct WorkflowRun {
    /// Runs of one workflow are ordered by this number.
    pub id: i64,
    pub name: Option<String>,
    pub run_attempt: i32,
    /// What started the run, such as `push` or `pull_request`.
    pub event: String,
    /// How the run ended, such as `success` or `failure`; absent while it runs.
    pub conclusion: Option<String>,
    /// The workflow that the run belongs to.
    pub workflow_id: i64,
    pub html_url: String,
    pub run_started_at: Option<String>,
    pub actor: Option<Actor>,
    pub triggering_actor: Option<Actor>,
    pub jobs_url: String,
    pub logs_url: String,
    pub check_suite_url: String,
    pub artifacts_url: String,
    pub cancel_url: String,
    pub rerun_url: String,
    pub workflow_url: String,
    pub display_title: String,
}

/// What a [`WorkflowRun`] holds, as plain values.
pub struct WorkflowRunView {
    pub id: i64,
    pub name: Option<Seq<char>>,
    pub run_attempt: i32,
    pub event: Seq<char>,
    pub conclusion: Option<Seq<char>>,
    pub workflow_id: i64,
    pub html_url: Seq<char>,
    pub run_started_at: Option<Seq<char>>,
    pub actor: Option<ActorView>,
    pub triggering_actor: Option<ActorView>,
    pub jobs_url: Seq<char>,
    pub logs_url: Seq<char>,
    pub check_suite_url: Seq<char>,
    pub artifacts_url: Seq<char>,
    pub cancel_url: Seq<char>,
    pub rerun_url: Seq<char>,
    pub workflow_url: Seq<char>,
    pub display_title: Seq<char>,
}

impl View for WorkflowRun {
    type V = WorkflowRunView;

    open spec fn view(&self) -> WorkflowRunView {
        WorkflowRunView {
            id: self.id,
            name: opt_view(self.name),
            run_attempt: self.run_attempt,
            event: self.event@,
            conclusion: opt_view(self.conclusion),
            workflow_id: self.workflow_id,
            html_url: self.html_url@,
            run_started_at: opt_view(self.run_started_at),
            actor: opt_actor_view(self.actor),
            triggering_actor: opt_actor_view(self.triggering_actor),
            jobs_url: self.jobs_url@,
            logs_url: self.logs_url@,
            check_suite_url: self.check_suite_url@,
            artifacts_url: self.artifacts_url@,
            cancel_url: self.cancel_url@,
            rerun_url: self.rerun_url@,
            workflow_url: self.workflow_url@,
            display_title: self.display_title@,
        }
    }
}

impl Clone for WorkflowRun {
    fn clone(&self) -> (copy: Self)
        ensures
            copy == *self,
    {
        WorkflowRun {
            id: self.id,
            name: self.name.clone(),
            run_attempt: self.run_attempt,
            event: self.event.clone(),
            conclusion: self.conclusion.clone(),
            workflow_id: self.workflow_id,
            html_url: self.html_url.clone(),
            run_started_at: self.run_started_at.clone(),
            actor: self.actor.clone(),
            triggering_actor: self.triggering_actor.clone(),
            jobs_url: self.jobs_url.clone(),
            logs_url: self.logs_url.clone(),
            check_suite_url: self.check_suite_url.clone(),
            artifacts_url: self.artifacts_url.clone(),
            cancel_url: self.cancel_url.clone(),
            rerun_url: self.rerun_url.clone(),
            workflow_url: self.workflow_url.clone(),
            display_title: self.display_title.clone(),
        }
    }
}
/// The page of runs that the host returns for one repository.
#[derive(Debug)]
pub struct WorkflowRuns {
    pub total_count: i32,
    pub workflow_runs: Vec<WorkflowRun>,
}

} // verus!
