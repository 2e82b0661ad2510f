//! Jobs, what triggered them, and the record that is kept of a finished job.

use vstd::prelude::*;
use vstd::string::*;

verus! {

/// The id of a job: unique among the jobs of one project.
pub type JobId = u64;

/// The cause of a job.
#[derive(Debug, PartialEq, Eq)]
pub enum Trigger {
    /// A webhook call made with the token of that name.
    Webhook { token: String },
    /// The command line.
    Cli,
    /// A chat command sent by that user.
    Telegram { username: String },
}

/// The view of a [`Trigger`].
pub enum TriggerView {
    Webhook { token: Seq<char> },
    Cli,
    Telegram { username: Seq<char> },
}

impl TriggerView {
    /// The kind name of the trigger, as scripts and records see it.
    pub open spec fn name(self) -> Seq<char> {
        match self {
            TriggerView::Webhook { .. } => "webhook"@,
            TriggerView::Cli => "cli"@,
            TriggerView::Telegram { .. } => "telegram"@,
        }
    }

    /// The trigger as a person reads it in a message.
    pub open spec fn description(self) -> Seq<char> {
        match self {
            TriggerView::Webhook { token } => "webhook ("@ + token + ")"@,
            TriggerView::Cli => "cli"@,
            TriggerView::Telegram { username } => "telegram user "@ + username,
        }
    }
}

impl View for Trigger {
    type V = TriggerView;

    open spec fn view(&self) -> TriggerView {
        match self {
            Trigger::Webhook { token } => TriggerView::Webhook { token: token@ },
            Trigger::Cli => TriggerView::Cli,
            Trigger::Telegram { username } => TriggerView::Telegram { username: username@ },
        }
    }
}

impl Clone for Trigger {
    fn clone(&self) -> (r: Self)
        ensures
            r@ == self@,
    {
        match self {
            Trigger::Webhook { token } => Trigger::Webhook { token: token.clone() },
            Trigger::Cli => Trigger::Cli,
            Trigger::Telegram { username } => Trigger::Telegram { username: username.clone() },
        }
    }
}

impl Trigger {
    /// The kind name of the trigger: `webhook`, `cli` or `telegram`.
    pub fn name(&self) -> (r: &'static str)
        ensures
            r@ == self@.name(),
    {
        match self {
            Trigger::Webhook { .. } => "webhook",
            Trigger::Cli => "cli",
            Trigger::Telegram { .. } => "telegram",
        }
    }

    /// The trigger as a person reads it in a message: `webhook (<token>)`,
    /// `cli` or `telegram user <username>`.
    pub fn description(&self) -> (r: String)
        ensures
            r@ == self@.description(),
    {
        match self {
            Trigger::Webhook { token } => {
                let r = String::from_str("webhook (").concat(token.as_str()).concat(")");
                assert(r@ =~= self@.description());
                r
            },
            Trigger::Cli => String::from_str("cli"),
            Trigger::Telegram { username } => {
                String::from_str("telegram user ").concat(username.as_str())
            },
        }
    }
}

/// Whether a job succeeded.
#[derive(Debug, Clone, Copy, PartialEq, Eq, Structural)]
pub enum Outcome {
    Failure,
    Success,
}

impl Outcome {
    /// `Success` for `true`, `Failure` for `false`.
    pub fn from_success(successful: bool) -> (r: Outcome)
        ensures
            r == if successful {
                Outcome::Success
            } else {
                Outcome::Failure
            },
    {
        if successful {
            Outcome::Success
        } else {
            Outcome::Failure
        }
    }

    /// Whether the outcome is `Success`.
    pub fn is_success(self) -> (r: bool)
        ensures
            r == (self == Outcome::Success),
    {
        match self {
            Outcome::Success => true,
            Outcome::Failure => false,
        }
    }
}

/// One request to run a project's scripts.
#[derive(Debug, PartialEq, Eq)]
pub struct Job {
    pub id: JobId,
    pub project: String,
    pub trigger: Trigger,
}

/// The view of a [`Job`].
pub struct JobView {
    pub id: JobId,
    pub project: Seq<char>,
    pub trigger: TriggerView,
}

impl View for Job {
    type V = JobView;

    open spec fn view(&self) -> JobView {
        JobView { id: self.id, project: self.project@, trigger: self.trigger@ }
    }
}

/// What is kept of a job once it has run.
#[derive(Debug, PartialEq, Eq)]
pub struct ArchivedJob {
    /// When the run began, in seconds since the Unix epoch.
    pub started_at: u64,
    pub successful: bool,
    pub trigger: Trigger,
}

/// The view of an [`ArchivedJob`].
pub struct ArchivedJobView {
    pub started_at: u64,
    pub successful: bool,
    pub trigger: TriggerView,
}

impl View for ArchivedJob {
    type V = ArchivedJobView;

    open spec fn view(&self) -> ArchivedJobView {
        ArchivedJobView {
            started_at: self.started_at,
            successful: self.successful,
            trigger: self.trigger@,
        }
    }
}

impl Clone for Job {
    fn clone(&self) -> (r: Self)
        ensures
            r@ == self@,
    {
        Job { id: self.id, project: self.project.clone(), trigger: self.trigger.clone() }
    }
}

impl Job {
    /// A job of `project` with the given id and trigger.
    pub fn new(id: JobId, project: String, trigger: Trigger) -> (r: Job)
        ensures
            r@ == (JobView { id, project: project@, trigger: trigger@ }),
    {
        Job { id, project, trigger }
    }

    /// The record of this job: when it started, how it ended and what
    /// triggered it.
    pub fn archive(&self, started_at: u64, successful: bool) -> (r: ArchivedJob)
        ensures
            r@ == (ArchivedJobView { started_at, successful, trigger: self@.trigger }),
    {
        ArchivedJob { trigger: self.trigger.clone(), started_at, successful }
    }
}

} // verus!
