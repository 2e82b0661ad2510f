//! The life of one job: sandbox, scripts in order, record.
//!
//! The runner decides; it does not act. [`step`] takes the state of a run and
//! what has just happened and gives the next state and what to do next. The
//! program around it creates the sandbox, starts the processes and writes the
//! record, and reports back.

use crate::text::{i64_to_string, signed_decimal};
use vstd::prelude::*;
use vstd::string::*;

verus! {

/// Where a run stands.
#[derive(Debug, Clone, Copy, PartialEq, Eq, Structural)]
pub enum RunState {
    /// The job has entered the runner; its sandbox is being set up.
    Created,
    /// The script at `index` is running in the sandbox.
    Running { index: usize },
    /// Every script has run and none failed that was not allowed to; the
    /// record is being written.
    Succeeded,
    /// The run was given up: at the script `at`, or before the first script
    /// when the sandbox could not be set up (`None`). The record is being
    /// written.
    Aborted { at: Option<usize> },
    /// The record has been handed to the archive. Nothing follows.
    Archived { successful: bool },
}

/// What has just happened.
#[derive(Debug, Clone, Copy, PartialEq, Eq, Structural)]
pub enum RunEvent {
    /// The working directory and the log file exist.
    SandboxReady,
    /// The working directory or the log file could not be created.
    SandboxFailed,
    /// The running script has ended; `success` is false for a non-zero exit
    /// and for a command that could not be started.
    ScriptExited { success: bool },
    /// The archive has taken the record, or has failed to (`written` false).
    ArchiveFinished { written: bool },
}

/// What to do next.
#[derive(Debug, Clone, Copy, PartialEq, Eq, Structural)]
pub enum RunAction {
    /// Start the script at `index`.
    RunScript { index: usize },
    /// Write the record of the job, with this result.
    Archive { successful: bool },
    /// The run is over. `archived` is false when the record could not be
    /// written; the result stands all the same.
    Finish { successful: bool, archived: bool },
    /// The event does not belong to the state; nothing changes.
    Ignore,
}

/// What follows the end of the script at `index`, which either passed or was
/// allowed to fail: the next script, or the record when it was the last.
pub open spec fn advance(flags: Seq<bool>, index: usize) -> (RunState, RunAction) {
    if index + 1 < flags.len() {
        (
            RunState::Running { index: (index + 1) as usize },
            RunAction::RunScript { index: (index + 1) as usize },
        )
    } else {
        (RunState::Succeeded, RunAction::Archive { successful: true })
    }
}

/// The transition rule. `flags` holds, for each script of the project in
/// order, whether it is allowed to fail.
pub open spec fn step_spec(flags: Seq<bool>, state: RunState, event: RunEvent) -> (
    RunState,
    RunAction,
) {
    match (state, event) {
        (RunState::Created, RunEvent::SandboxReady) => {
            if flags.len() == 0 {
                (RunState::Succeeded, RunAction::Archive { successful: true })
            } else {
                (RunState::Running { index: 0 }, RunAction::RunScript { index: 0 })
            }
        },
        (RunState::Created, RunEvent::SandboxFailed) => {
            (RunState::Aborted { at: None }, RunAction::Archive { successful: false })
        },
        (RunState::Running { index }, RunEvent::ScriptExited { success }) => {
            if index >= flags.len() {
                (state, RunAction::Ignore)
            } else if success || flags[index as int] {
                advance(flags, index)
            } else {
                (RunState::Aborted { at: Some(index) }, RunAction::Archive { successful: false })
            }
        },
        (RunState::Succeeded, RunEvent::ArchiveFinished { written }) => {
            (
                RunState::Archived { successful: true },
                RunAction::Finish { successful: true, archived: written },
            )
        },
        (RunState::Aborted { .. }, RunEvent::ArchiveFinished { written }) => {
            (
                RunState::Archived { successful: false },
                RunAction::Finish { successful: false, archived: written },
            )
        },
        _ => (state, RunAction::Ignore),
    }
}

/// Applies the transition rule: the state after `event` and what to do next.
pub fn step(flags: &Vec<bool>, state: RunState, event: RunEvent) -> (r: (RunState, RunAction))
    ensures
        r == step_spec(flags@, state, event),
{
    match state {
        RunState::Created => match event {
            RunEvent::SandboxReady => {
                if flags.len() == 0 {
                    (RunState::Succeeded, RunAction::Archive { successful: true })
                } else {
                    (RunState::Running { index: 0 }, RunAction::RunScript { index: 0 })
                }
            },
            RunEvent::SandboxFailed => {
                (RunState::Aborted { at: None }, RunAction::Archive { successful: false })
            },
            _ => (state, RunAction::Ignore),
        },
        RunState::Running { index } => match event {
            RunEvent::ScriptExited { success } => {
                if index >= flags.len() {
                    (state, RunAction::Ignore)
                } else if success || flags[index] {
                    if index + 1 < flags.len() {
                        (
                            RunState::Running { index: index + 1 },
                            RunAction::RunScript { index: index + 1 },
                        )
                    } else {
                        (RunState::Succeeded, RunAction::Archive { successful: true })
                    }
                } else {
                    (
                        RunState::Aborted { at: Some(index) },
                        RunAction::Archive { successful: false },
                    )
                }
            },
            _ => (state, RunAction::Ignore),
        },
        RunState::Succeeded => match event {
            RunEvent::ArchiveFinished { written } => {
                (
                    RunState::Archived { successful: true },
                    RunAction::Finish { successful: true, archived: written },
                )
            },
            _ => (state, RunAction::Ignore),
        },
        RunState::Aborted { .. } => match event {
            RunEvent::ArchiveFinished { written } => {
                (
                    RunState::Archived { successful: false },
                    RunAction::Finish { successful: false, archived: written },
                )
            },
            _ => (state, RunAction::Ignore),
        },
        RunState::Archived { .. } => (state, RunAction::Ignore),
    }
}

/// The state of a run that began in `Created` and has seen `events`.
pub open spec fn state_after(flags: Seq<bool>, events: Seq<RunEvent>) -> RunState
    decreases events.len(),
{
    if events.len() == 0 {
        RunState::Created
    } else {
        step_spec(flags, state_after(flags, events.drop_last()), events.last()).0
    }
}

/// What the runner asked for, event by event, in a run that began in `Created`
/// and has seen `events`.
pub open spec fn actions_of(flags: Seq<bool>, events: Seq<RunEvent>) -> Seq<RunAction>
    decreases events.len(),
{
    if events.len() == 0 {
        Seq::empty()
    } else {
        actions_of(flags, events.drop_last()).push(
            step_spec(flags, state_after(flags, events.drop_last()), events.last()).1,
        )
    }
}

/// How many of `actions` ask for the record to be written.
pub open spec fn archive_requests(actions: Seq<RunAction>) -> nat
    decreases actions.len(),
{
    if actions.len() == 0 {
        0
    } else {
        archive_requests(actions.drop_last()) + if actions.last() is Archive {
            1nat
        } else {
            0nat
        }
    }
}

/// Whether the record of the run has been asked for: the run is past its
/// scripts.
pub open spec fn past_scripts(state: RunState) -> bool {
    state is Succeeded || state is Aborted || state is Archived
}

/// Exactly-once archiving. Whatever happens to a job that has entered the
/// runner, and in whatever order the events arrive, the record is asked for at
/// most once, and exactly once as soon as the run is past its scripts: after
/// success, after an abort, and after a sandbox that could not be set up. A
/// run that has reached `Archived` has therefore asked for exactly one record.
pub proof fn law_archived_exactly_once(flags: Seq<bool>, events: Seq<RunEvent>)
    ensures
        archive_requests(actions_of(flags, events)) == if past_scripts(
            state_after(flags, events),
        ) {
            1nat
        } else {
            0nat
        },
        state_after(flags, events) is Archived ==> archive_requests(actions_of(flags, events))
            == 1,
    decreases events.len(),
{
    if events.len() > 0 {
        law_archived_exactly_once(flags, events.drop_last());
        let before = actions_of(flags, events.drop_last());
        let all = actions_of(flags, events);
        assert(all.drop_last() =~= before);
    }
}

/// The record says how the run ended: it is asked for with `successful` true
/// from `Succeeded` only, and a finished run reports the same result.
pub proof fn law_record_matches_result(flags: Seq<bool>, events: Seq<RunEvent>, k: int)
    requires
        0 <= k < events.len(),
    ensures
        actions_of(flags, events)[k] matches RunAction::Archive { successful } ==> (successful
            <==> state_after(flags, events.take(k + 1)) is Succeeded),
        actions_of(flags, events)[k] matches RunAction::Finish { successful, .. } ==> state_after(
            flags,
            events.take(k + 1),
        ) == (RunState::Archived { successful }),
    decreases events.len(),
{
    lemma_actions_len(flags, events);
    if k == events.len() - 1 {
        assert(events.take(k + 1) =~= events);
    } else {
        law_record_matches_result(flags, events.drop_last(), k);
        assert(events.drop_last().take(k + 1) =~= events.take(k + 1));
        lemma_actions_len(flags, events.drop_last());
    }
}

/// One action per event.
pub proof fn lemma_actions_len(flags: Seq<bool>, events: Seq<RunEvent>)
    ensures
        actions_of(flags, events).len() == events.len(),
    decreases events.len(),
{
    if events.len() > 0 {
        lemma_actions_len(flags, events.drop_last());
    }
}

/// Whether `event` is an answer to what the run waits for in `state`: the end
/// of the sandbox's setup, the end of the running script, or the end of the
/// archiving. A run that is archived waits for nothing.
pub open spec fn answers(state: RunState, event: RunEvent) -> bool {
    match state {
        RunState::Created => event is SandboxReady || event is SandboxFailed,
        RunState::Running { .. } => event is ScriptExited,
        RunState::Succeeded => event is ArchiveFinished,
        RunState::Aborted { .. } => event is ArchiveFinished,
        RunState::Archived { .. } => false,
    }
}

/// Whether each of `events` answers what the run waited for when it came.
pub open spec fn all_answer(flags: Seq<bool>, events: Seq<RunEvent>) -> bool
    decreases events.len(),
{
    events.len() > 0 ==> all_answer(flags, events.drop_last()) && answers(
        state_after(flags, events.drop_last()),
        events.last(),
    )
}

/// How many answers a run in `state` can still take before it is archived, at
/// most.
pub open spec fn steps_left(flags: Seq<bool>, state: RunState) -> int {
    match state {
        RunState::Created => flags.len() as int + 2,
        RunState::Running { index } => flags.len() - index + 1,
        RunState::Succeeded => 1,
        RunState::Aborted { .. } => 1,
        RunState::Archived { .. } => 0,
    }
}

/// Every run ends archived. Each answer brings the run closer to its record:
/// a run over `n` scripts is archived after `n + 2` answers at the latest, one
/// for the sandbox, one for each script and one for the archive, and only a
/// run that is archived takes no further answer.
pub proof fn law_run_ends_archived(flags: Seq<bool>, events: Seq<RunEvent>)
    requires
        flags.len() <= usize::MAX,
        all_answer(flags, events),
    ensures
        state_after(flags, events) matches RunState::Running { index } ==> index < flags.len(),
        0 <= steps_left(flags, state_after(flags, events)) <= flags.len() + 2 - events.len(),
        steps_left(flags, state_after(flags, events)) == 0 <==> state_after(flags, events)
            is Archived,
        events.len() == flags.len() + 2 ==> state_after(flags, events) is Archived,
    decreases events.len(),
{
    if events.len() > 0 {
        law_run_ends_archived(flags, events.drop_last());
    }
}

/// Failure propagation, first half. A script that fails and is not allowed to
/// ends the scripts of the job: the run is aborted at that script and the next
/// thing asked for is the record of a failed job.
pub proof fn law_disallowed_failure_aborts(flags: Seq<bool>, index: usize)
    requires
        index < flags.len(),
        !flags[index as int],
    ensures
        step_spec(flags, RunState::Running { index }, RunEvent::ScriptExited { success: false })
            == (RunState::Aborted { at: Some(index) }, RunAction::Archive { successful: false }),
{
}

/// Failure propagation, second half. A script that fails and is allowed to
/// does not stop the job: what follows is what follows a script that passed.
pub proof fn law_allowed_failure_continues(flags: Seq<bool>, index: usize)
    requires
        index < flags.len(),
        flags[index as int],
    ensures
        step_spec(flags, RunState::Running { index }, RunEvent::ScriptExited { success: false })
            == step_spec(
            flags,
            RunState::Running { index },
            RunEvent::ScriptExited { success: true },
        ),
        index + 1 < flags.len() ==> step_spec(
            flags,
            RunState::Running { index },
            RunEvent::ScriptExited { success: false },
        ) == (
            RunState::Running { index: (index + 1) as usize },
            RunAction::RunScript { index: (index + 1) as usize },
        ),
{
}

/// Once a run is past its scripts, and so after every abort, no script is
/// started again, whatever events follow.
pub proof fn law_no_script_after_abort(
    flags: Seq<bool>,
    events: Seq<RunEvent>,
    more: Seq<RunEvent>,
    k: int,
)
    requires
        past_scripts(state_after(flags, events)),
        events.len() <= k < events.len() + more.len(),
    ensures
        past_scripts(state_after(flags, events + more)),
        !(actions_of(flags, events + more)[k] is RunScript),
    decreases more.len(),
{
    let all = events + more;
    assert(all.drop_last() =~= events + more.drop_last());
    if more.len() > 1 {
        law_no_script_after_abort(flags, events, more.drop_last(), events.len() as int);
    } else {
        assert(events + more.drop_last() =~= events);
    }
    lemma_actions_len(flags, all);
    lemma_actions_len(flags, all.drop_last());
    if k < all.len() - 1 {
        law_no_script_after_abort(flags, events, more.drop_last(), k);
    }
}

/// Whether every script either passes or is allowed to fail, where `exits`
/// holds for each script whether it passes.
pub open spec fn no_disallowed_failure(flags: Seq<bool>, exits: Seq<bool>) -> bool {
    forall|i: int| 0 <= i < flags.len() ==> exits[i] || flags[i]
}

/// The events of a run in which the sandbox is set up and the scripts end as
/// `exits` says, as far as `n` scripts.
pub open spec fn script_events(exits: Seq<bool>, n: nat) -> Seq<RunEvent>
    decreases n,
{
    if n == 0 {
        seq![RunEvent::SandboxReady]
    } else {
        script_events(exits, (n - 1) as nat).push(
            RunEvent::ScriptExited { success: exits[n - 1] },
        )
    }
}

/// The result of a job is the conjunction over its scripts: a run whose
/// sandbox is set up and whose scripts end as `exits` says succeeds if every
/// script passes or is allowed to fail, and is aborted otherwise.
pub proof fn law_success_is_conjunction(flags: Seq<bool>, exits: Seq<bool>)
    requires
        exits.len() == flags.len(),
        flags.len() <= usize::MAX,
    ensures
        no_disallowed_failure(flags, exits) <==> state_after(
            flags,
            script_events(exits, flags.len()),
        ) is Succeeded,
        !no_disallowed_failure(flags, exits) <==> state_after(
            flags,
            script_events(exits, flags.len()),
        ) is Aborted,
{
    lemma_script_run(flags, exits, flags.len());
}

/// The state after the sandbox is set up and the first `n` scripts have ended
/// as `exits` says.
proof fn lemma_script_run(flags: Seq<bool>, exits: Seq<bool>, n: nat)
    requires
        exits.len() == flags.len(),
        flags.len() <= usize::MAX,
        n <= flags.len(),
    ensures
        ({
            let state = state_after(flags, script_events(exits, n));
            let clean = forall|i: int| 0 <= i < n ==> exits[i] || flags[i];
            &&& clean && n < flags.len() ==> state == (RunState::Running { index: n as usize })
            &&& clean && n == flags.len() ==> state is Succeeded
            &&& !clean ==> state is Aborted
        }),
    decreases n,
{
    if n == 0 {
        let events = script_events(exits, 0);
        assert(events.drop_last() =~= Seq::<RunEvent>::empty());
        assert(state_after(flags, events.drop_last()) == RunState::Created);
    } else {
        let prev = script_events(exits, (n - 1) as nat);
        let events = script_events(exits, n);
        assert(events.drop_last() =~= prev);
        lemma_script_run(flags, exits, (n - 1) as nat);
        let clean_prev = forall|i: int| 0 <= i < n - 1 ==> exits[i] || flags[i];
        let clean = forall|i: int| 0 <= i < n ==> exits[i] || flags[i];
        if clean_prev {
            if exits[n - 1] || flags[n - 1] {
                assert(clean);
            } else {
                assert(!clean);
            }
        } else {
            assert(!clean);
        }
    }
}

/// The exit status that is written for a process that ended without one.
pub const UNKNOWN_EXIT_STATUS: i32 = -1;

/// Why a command failed.
#[derive(Debug, PartialEq, Eq)]
pub enum CommandError {
    /// The command ran and ended with a status that is not success; `None`
    /// when the process ended without a status.
    ExitStatus(Option<i32>),
    /// The command could not be run; the text says why.
    Io(String),
}

impl CommandError {
    /// The result of a command that has run and ended: success for an exit
    /// that the system calls a success, and else the failure with the exit
    /// status, if the process ended with one.
    pub fn from_status(success: bool, code: Option<i32>) -> (r: Result<(), CommandError>)
        ensures
            r == if success {
                Ok::<(), CommandError>(())
            } else {
                Err::<(), CommandError>(CommandError::ExitStatus(code))
            },
    {
        if success {
            Ok(())
        } else {
            Err(CommandError::ExitStatus(code))
        }
    }

    /// The error as a person reads it.
    pub open spec fn spec_description(&self) -> Seq<char> {
        match self {
            CommandError::ExitStatus(Some(code)) => "Command failed with exit status: "@
                + signed_decimal(*code as int),
            CommandError::ExitStatus(None) => "Command failed with exit status: "@
                + signed_decimal(-1),
            CommandError::Io(reason) => "Command failed: "@ + reason@,
        }
    }

    /// The error as a person reads it: the exit status, with `-1` for a
    /// process that ended without one, or the reason the command could not be
    /// run.
    pub fn description(&self) -> (r: String)
        ensures
            r@ == self.spec_description(),
    {
        match self {
            CommandError::ExitStatus(status) => {
                let code: i32 = match status {
                    Some(code) => *code,
                    None => UNKNOWN_EXIT_STATUS,
                };
                let digits = i64_to_string(code as i64);
                String::from_str("Command failed with exit status: ").concat(digits.as_str())
            },
            CommandError::Io(reason) => String::from_str("Command failed: ").concat(
                reason.as_str(),
            ),
        }
    }
}

/// Why a job failed.
#[derive(Debug, PartialEq, Eq)]
pub enum JobError {
    /// The sandbox could not be set up; the text says why.
    Context(String),
    /// A script failed that was not allowed to.
    Command(CommandError),
}

impl JobError {
    /// The error as a person reads it.
    pub open spec fn spec_description(&self) -> Seq<char> {
        match self {
            JobError::Context(reason) => "Unable to create context: "@ + reason@,
            JobError::Command(error) => error.spec_description(),
        }
    }

    /// The error as a person reads it.
    pub fn description(&self) -> (r: String)
        ensures
            r@ == self.spec_description(),
    {
        match self {
            JobError::Context(reason) => String::from_str("Unable to create context: ").concat(
                reason.as_str(),
            ),
            JobError::Command(error) => error.description(),
        }
    }
}

/// How a job ended.
pub type JobResult = Result<(), JobError>;

/// The message that is logged when the record of a job could not be written.
/// The result of the job is not changed by it.
pub fn archive_failure_message(reason: &str) -> (r: String)
    ensures
        r@ == "Unable to archive job: "@ + reason@,
{
    String::from_str("Unable to archive job: ").concat(reason)
}

/// A run in progress: the allow-failure flag of each script of its project, its
/// state, and the error that ended it if it was given up.
pub struct JobRun {
    flags: Vec<bool>,
    state: RunState,
    failure: Option<JobError>,
}

impl JobRun {
    #[verifier::type_invariant]
    spec fn failure_recorded(&self) -> bool {
        self.failure is Some <==> (self.state is Aborted || self.state == (RunState::Archived {
            successful: false,
        }))
    }

    /// For each script of the project in order, whether it is allowed to fail.
    pub closed spec fn spec_flags(&self) -> Seq<bool> {
        self.flags@
    }

    /// Where the run stands.
    pub closed spec fn spec_state(&self) -> RunState {
        self.state
    }

    /// The error that ended the run, if it was given up.
    pub closed spec fn spec_failure(&self) -> Option<JobError> {
        self.failure
    }

    /// The result of the run: success unless it was given up.
    pub open spec fn spec_result(&self) -> JobResult {
        match self.spec_failure() {
            Some(error) => Err(error),
            None => Ok(()),
        }
    }

    /// The run of a job that has just entered the runner, for a project whose
    /// scripts are allowed to fail as `flags` says. Its sandbox is to be set
    /// up next.
    pub fn new(flags: Vec<bool>) -> (r: JobRun)
        ensures
            r.spec_flags() == flags@,
            r.spec_state() == RunState::Created,
            r.spec_failure() is None,
    {
        JobRun { flags, state: RunState::Created, failure: None }
    }

    /// Where the run stands. A run holds an error exactly when it was given
    /// up.
    pub fn state(&self) -> (r: RunState)
        ensures
            r == self.spec_state(),
            self.spec_failure() is Some <==> (r is Aborted || r == (RunState::Archived {
                successful: false,
            })),
    {
        proof {
            use_type_invariant(self);
        }
        self.state
    }

    /// The sandbox is set up: the first script is started, or the record is
    /// written at once for a project without scripts.
    pub fn sandbox_ready(self) -> (r: (JobRun, RunAction))
        ensures
            (r.0.spec_state(), r.1) == step_spec(
                self.spec_flags(),
                self.spec_state(),
                RunEvent::SandboxReady,
            ),
            r.0.spec_flags() == self.spec_flags(),
            r.0.spec_failure() == self.spec_failure(),
    {
        proof {
            use_type_invariant(&self);
        }
        let (state, action) = step(&self.flags, self.state, RunEvent::SandboxReady);
        (JobRun { flags: self.flags, state, failure: self.failure }, action)
    }

    /// The sandbox could not be set up, for the reason given: the job has
    /// failed, and its record is written all the same.
    pub fn sandbox_failed(self, reason: String) -> (r: (JobRun, RunAction))
        ensures
            (r.0.spec_state(), r.1) == step_spec(
                self.spec_flags(),
                self.spec_state(),
                RunEvent::SandboxFailed,
            ),
            r.0.spec_flags() == self.spec_flags(),
            r.0.spec_failure() == if self.spec_state() is Created {
                Some(JobError::Context(reason))
            } else {
                self.spec_failure()
            },
    {
        proof {
            use_type_invariant(&self);
        }
        let (state, action) = step(&self.flags, self.state, RunEvent::SandboxFailed);
        match self.state {
            RunState::Created => (
                JobRun { flags: self.flags, state, failure: Some(JobError::Context(reason)) },
                action,
            ),
            _ => (JobRun { flags: self.flags, state, failure: self.failure }, action),
        }
    }

    /// The running script has ended as `result` says. A failure that is not
    /// allowed ends the run and becomes its error; after any other end the
    /// next script follows, or the record after the last one.
    pub fn script_exited(self, result: Result<(), CommandError>) -> (r: (JobRun, RunAction))
        ensures
            (r.0.spec_state(), r.1) == step_spec(
                self.spec_flags(),
                self.spec_state(),
                RunEvent::ScriptExited { success: result is Ok },
            ),
            r.0.spec_flags() == self.spec_flags(),
            r.0.spec_failure() == if self.spec_state() is Running && r.0.spec_state() is Aborted {
                Some(JobError::Command(result->Err_0))
            } else {
                self.spec_failure()
            },
    {
        proof {
            use_type_invariant(&self);
        }
        let success = result.is_ok();
        let (state, action) = step(&self.flags, self.state, RunEvent::ScriptExited { success });
        match (self.state, state, result) {
            (RunState::Running { .. }, RunState::Aborted { .. }, Err(error)) => (
                JobRun { flags: self.flags, state, failure: Some(JobError::Command(error)) },
                action,
            ),
            _ => (JobRun { flags: self.flags, state, failure: self.failure }, action),
        }
    }

    /// The archive has taken the record, or has failed to. Either way the run
    /// is over and its result stands.
    pub fn archive_finished(self, written: bool) -> (r: (JobRun, RunAction))
        ensures
            (r.0.spec_state(), r.1) == step_spec(
                self.spec_flags(),
                self.spec_state(),
                RunEvent::ArchiveFinished { written },
            ),
            r.0.spec_flags() == self.spec_flags(),
            r.0.spec_failure() == self.spec_failure(),
    {
        proof {
            use_type_invariant(&self);
        }
        let (state, action) = step(&self.flags, self.state, RunEvent::ArchiveFinished { written });
        (JobRun { flags: self.flags, state, failure: self.failure }, action)
    }

    /// Ends the run and gives its result: the error that ended it, or success.
    pub fn into_result(self) -> (r: JobResult)
        ensures
            r == self.spec_result(),
            r is Err <==> (self.spec_state() is Aborted || self.spec_state() == (
                RunState::Archived { successful: false }
            )),
    {
        proof {
            use_type_invariant(&self);
        }
        match self.failure {
            Some(error) => Err(error),
            None => Ok(()),
        }
    }
}

} // verus!
