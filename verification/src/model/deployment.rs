//! Deployments and the statuses reported for them.

use vstd::prelude::*;
use vstd::string::*;

verus! {

/// A release of a repository to an environment.
#[derive(Debug)]
pub struct Deployment {
    pub url: String,
    /// Deployments to one environment are ordered by this number.
    pub id: i64,
    pub task: String,
    /// The name of the environment deployed to.
    pub environment: String,
    pub created_at: String,
    pub updated_at: String,
    /// Where the statuses of this deployment are listed.
    pub statuses_url: String,
}

/// What a [`Deployment`] holds, as plain values.
pub struct DeploymentView {
    pub url: Seq<char>,
    pub id: i64,
    pub task: Seq<char>,
    pub environment: Seq<char>,
    pub created_at: Seq<char>,
    pub updated_at: Seq<char>,
    pub statuses_url: Seq<char>,
}

impl View for Deployment {
    type V = DeploymentView;

    open spec fn view(&self) -> DeploymentView {
        DeploymentView {
            url: self.url@,
            id: self.id,
            task: self.task@,
            environment: self.environment@,
            created_at: self.created_at@,
            updated_at: self.updated_at@,
            statuses_url: self.statuses_url@,
        }
    }
}

impl Clone for Deployment {
    fn clone(&self) -> (copy: Self)
        ensures
            copy == *self,
    {
        Deployment {
            url: self.url.clone(),
            id: self.id,
            task: self.task.clone(),
            environment: self.environment.clone(),
            created_at: self.created_at.clone(),
            updated_at: self.updated_at.clone(),
            statuses_url: self.statuses_url.clone(),
        }
    }
}
/// The state that a status reports.
#[derive(Clone, Copy, Debug, PartialEq, Eq, Structural)]
pub enum State {
    Error,
    Failure,
    Inactive,
    Pending,
    Success,
    Queued,
    InProgress,
}

/// The colour in which a state is shown.
#[derive(Clone, Copy, Debug, PartialEq, Eq, Structural)]
pub enum Color {
    LightRed,
    LightGray,
    LightBlue,
    LightGreen,
}

impl State {
    /// The name under which the state is shown.
    pub open spec fn name(self) -> Seq<char> {
        match self {
            State::Error => "Error"@,
            State::Failure => "Failure"@,
            State::Inactive => "Inactive"@,
            State::Pending => "Pending"@,
            State::Success => "Success"@,
            State::Queued => "Queued"@,
            State::InProgress => "InProgress"@,
        }
    }

    /// The colour that stands for the state: red for what failed or is still
    /// under way, blue for what waits, green for success, gray for inactive.
    pub open spec fn shade(self) -> Color {
        match self {
            State::Error | State::Failure | State::InProgress => Color::LightRed,
            State::Inactive => Color::LightGray,
            State::Pending | State::Queued => Color::LightBlue,
            State::Success => Color::LightGreen,
        }
    }

    /// The state's name as a string.
    pub fn to_string(&self) -> (text: String)
        ensures
            text@ == self.name(),
    {
        match self {
            State::Error => String::from_str("Error"),
            State::Failure => String::from_str("Failure"),
            State::Inactive => String::from_str("Inactive"),
            State::Pending => String::from_str("Pending"),
            State::Success => String::from_str("Success"),
            State::Queued => String::from_str("Queued"),
            State::InProgress => String::from_str("InProgress"),
        }
    }
}

/// A state update attached to a deployment.
#[derive(Debug)]
pub struct Status {
    pub url: String,
    /// Statuses of one deployment are ordered by this number.
    pub id: i64,
    pub state: State,
    /// What the host says about the state.
    pub description: String,
}

/// What a [`Status`] holds, as plain values.
pub struct StatusView {
    pub url: Seq<char>,
    pub id: i64,
    pub state: State,
    pub description: Seq<char>,
}

impl View for Status {
    type V = StatusView;

    open spec fn view(&self) -> StatusView {
        StatusView {
            url: self.url@,
            id: self.id,
            state: self.state,
            description: self.description@,
        }
    }
}

impl Clone for Status {
    fn clone(&self) -> (copy: Self)
        ensures
            copy == *self,
    {
        Status {
            url: self.url.clone(),
            id: self.id,
            state: self.state,
            description: self.description.clone(),
        }
    }
}
impl Status {
    /// The description to show: none for a success, which needs no comment,
    /// and the host's own text for every other state.
    pub fn description(&self) -> (text: String)
        ensures
            self.state == State::Success ==> text@ == Seq::<char>::empty(),
            self.state != State::Success ==> text@ == self.description@,
    {
        match self.state {
            State::Success => String::new(),
            _ => self.description.clone(),
        }
    }

    /// The colour in which the status is shown.
    pub fn color(&self) -> (color: Color)
        ensures
            color == self.state.shade(),
    {
        match self.state {
            State::Error => Color::LightRed,
            State::Failure => Color::LightRed,
            State::Inactive => Color::LightGray,
            State::Pending => Color::LightBlue,
            State::Success => Color::LightGreen,
            State::Queued => Color::LightBlue,
            State::InProgress => Color::LightRed,
        }
    }
}

} // verus!
