//! The worker's loop: one job at a time, from receipt to report.
//!
//! Like the runner, the loop decides and does not act: [`step`] takes the
//! state of the loop and what has just happened and gives the next state and
//! what to do next.

use crate::config::Projects;
use vstd::prelude::*;
use vstd::string::*;

verus! {

/// How many jobs may wait between the intake and the worker. A producer that
/// finds the queue full waits until the worker has taken a job.
pub const CHANNEL_BOUND: usize = 8;

/// Where the loop stands.
#[derive(Debug, Clone, Copy, PartialEq, Eq, Structural)]
pub enum LoopState {
    /// No job is held; the next message is awaited.
    Waiting,
    /// A job is held and the hooks are being told that it starts.
    Announcing,
    /// The job is in the runner.
    Running,
    /// The job has left the runner and the hooks are being told how it ended.
    Reporting,
    /// The transport is closed. Nothing follows.
    Stopped,
}

/// What has just happened.
#[derive(Debug, Clone, Copy, PartialEq, Eq, Structural)]
pub enum LoopEvent {
    /// A job has arrived; `known` says whether its project is configured.
    JobReceived { known: bool },
    /// A connection has failed, or what it carried is not a message.
    ReceiveFailed,
    /// The transport is closed or canceled, or the sender is gone.
    Closed,
    /// The hooks have been told.
    HooksTold,
    /// The runner is done with the job.
    RunFinished,
}

/// What to do next.
#[derive(Debug, Clone, Copy, PartialEq, Eq, Structural)]
pub enum LoopAction {
    /// Wait for the next message.
    Receive,
    /// Log that the job's project does not exist, drop the job, and wait for
    /// the next message.
    SkipUnknown,
    /// Log the error of the connection, drop what it carried, and wait for
    /// the next message.
    SkipBroken,
    /// Tell the hooks that the job starts.
    BeforeJob,
    /// Hand the job to the runner.
    Run,
    /// Tell the hooks how the job ended.
    AfterJob,
    /// Leave the loop; this is a clean shutdown.
    Stop,
    /// The event does not belong to the state; nothing changes.
    Ignore,
}

/// The transition rule of the loop.
pub open spec fn step_spec(state: LoopState, event: LoopEvent) -> (LoopState, LoopAction) {
    match (state, event) {
        (LoopState::Waiting, LoopEvent::JobReceived { known }) => if known {
            (LoopState::Announcing, LoopAction::BeforeJob)
        } else {
            (LoopState::Waiting, LoopAction::SkipUnknown)
        },
        (LoopState::Waiting, LoopEvent::ReceiveFailed) => (
            LoopState::Waiting,
            LoopAction::SkipBroken,
        ),
        (LoopState::Waiting, LoopEvent::Closed) => (LoopState::Stopped, LoopAction::Stop),
        (LoopState::Announcing, LoopEvent::HooksTold) => (LoopState::Running, LoopAction::Run),
        (LoopState::Running, LoopEvent::RunFinished) => (
            LoopState::Reporting,
            LoopAction::AfterJob,
        ),
        (LoopState::Reporting, LoopEvent::HooksTold) => (LoopState::Waiting, LoopAction::Receive),
        _ => (state, LoopAction::Ignore),
    }
}

/// Applies the transition rule: the state after `event` and what to do next.
pub fn step(state: LoopState, event: LoopEvent) -> (r: (LoopState, LoopAction))
    ensures
        r == step_spec(state, event),
{
    match state {
        LoopState::Waiting => match event {
            LoopEvent::JobReceived { known } => {
                if known {
                    (LoopState::Announcing, LoopAction::BeforeJob)
                } else {
                    (LoopState::Waiting, LoopAction::SkipUnknown)
                }
            },
            LoopEvent::ReceiveFailed => (LoopState::Waiting, LoopAction::SkipBroken),
            LoopEvent::Closed => (LoopState::Stopped, LoopAction::Stop),
            _ => (state, LoopAction::Ignore),
        },
        LoopState::Announcing => match event {
            LoopEvent::HooksTold => (LoopState::Running, LoopAction::Run),
            _ => (state, LoopAction::Ignore),
        },
        LoopState::Running => match event {
            LoopEvent::RunFinished => (LoopState::Reporting, LoopAction::AfterJob),
            _ => (state, LoopAction::Ignore),
        },
        LoopState::Reporting => match event {
            LoopEvent::HooksTold => (LoopState::Waiting, LoopAction::Receive),
            _ => (state, LoopAction::Ignore),
        },
        LoopState::Stopped => (state, LoopAction::Ignore),
    }
}

/// The event that the arrival of a job for `project` is: the project is known
/// exactly when `projects` holds it.
pub fn received(projects: &Projects, project: &str) -> (r: LoopEvent)
    ensures
        r == (LoopEvent::JobReceived { known: projects@.contains_key(project@) }),
{
    LoopEvent::JobReceived { known: projects.contains(project) }
}

/// The line that is logged for a job whose project is not configured.
pub fn unknown_project_message(project: &str) -> (r: String)
    ensures
        r@ == "Project "@ + project@ + " does not exist"@,
{
    String::from_str("Project ").concat(project).concat(" does not exist")
}

/// The state of a loop that began waiting and has seen `events`.
pub open spec fn state_after(events: Seq<LoopEvent>) -> LoopState
    decreases events.len(),
{
    if events.len() == 0 {
        LoopState::Waiting
    } else {
        step_spec(state_after(events.drop_last()), events.last()).0
    }
}

/// What the loop asked for, event by event.
pub open spec fn actions_of(events: Seq<LoopEvent>) -> Seq<LoopAction>
    decreases events.len(),
{
    if events.len() == 0 {
        Seq::empty()
    } else {
        actions_of(events.drop_last()).push(
            step_spec(state_after(events.drop_last()), events.last()).1,
        )
    }
}

/// How many of `actions` are `wanted`.
pub open spec fn count(actions: Seq<LoopAction>, wanted: LoopAction) -> nat
    decreases actions.len(),
{
    if actions.len() == 0 {
        0
    } else {
        count(actions.drop_last(), wanted) + if actions.last() == wanted {
            1nat
        } else {
            0nat
        }
    }
}

/// At most one job is in the runner. A job enters the runner with `Run` and
/// has left it when `AfterJob` is asked for. At every moment, and whatever
/// the events are, the jobs that have entered are those that have left, and
/// one more exactly while the loop is in `Running`. So a second `Run` is not
/// asked for before the `AfterJob` of the first: the windows in which two
/// jobs run do not overlap.
pub proof fn law_one_job_at_a_time(events: Seq<LoopEvent>)
    ensures
        count(actions_of(events), LoopAction::Run) == count(
            actions_of(events),
            LoopAction::AfterJob,
        ) + if state_after(events) is Running {
            1nat
        } else {
            0nat
        },
    decreases events.len(),
{
    if events.len() > 0 {
        law_one_job_at_a_time(events.drop_last());
        assert(actions_of(events).drop_last() =~= actions_of(events.drop_last()));
    }
}

/// A job whose project is not configured never reaches the hooks or the
/// runner: it is skipped and the loop keeps waiting.
pub proof fn law_unknown_project_is_skipped(state: LoopState)
    ensures
        step_spec(LoopState::Waiting, LoopEvent::JobReceived { known: false }) == (
            LoopState::Waiting,
            LoopAction::SkipUnknown,
        ),
        step_spec(state, LoopEvent::JobReceived { known: false }).1 != LoopAction::Run,
        step_spec(state, LoopEvent::JobReceived { known: false }).1 != LoopAction::BeforeJob,
{
}

/// A broken connection does not end the loop: what it carried is dropped, no
/// job starts, and the loop keeps waiting.
pub proof fn law_broken_connection_is_skipped(state: LoopState)
    ensures
        step_spec(LoopState::Waiting, LoopEvent::ReceiveFailed) == (
            LoopState::Waiting,
            LoopAction::SkipBroken,
        ),
        step_spec(state, LoopEvent::ReceiveFailed).0 == state,
        step_spec(state, LoopEvent::ReceiveFailed).1 != LoopAction::Stop,
        step_spec(state, LoopEvent::ReceiveFailed).1 != LoopAction::Run,
{
}

/// A closed transport ends a waiting loop cleanly, and a stopped loop asks for
/// nothing more.
pub proof fn law_closed_stops(event: LoopEvent)
    ensures
        step_spec(LoopState::Waiting, LoopEvent::Closed) == (LoopState::Stopped, LoopAction::Stop),
        step_spec(LoopState::Stopped, event) == (LoopState::Stopped, LoopAction::Ignore),
{
}

} // verus!
