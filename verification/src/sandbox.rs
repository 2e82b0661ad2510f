//! What a job's scripts run in: the environment they see, the log they write
//! to, and the line that announces each command in that log.

use crate::config::Project;
use crate::context::{job_log_file, job_log_path, Context};
use crate::job::Job;
use crate::table::Table;
use crate::text::{decimal, join, joined, u64_to_string, views};
use vstd::prelude::*;
use vstd::string::*;

verus! {

/// The prefix of the name of a job's working directory.
pub const SANDBOX_PREFIX: &'static str = "toby-job";

/// The variable that carries the job's id.
pub const JOB_ID_VARIABLE: &'static str = "TOBY_JOB_ID";

/// The variable that carries the kind name of the job's trigger.
pub const JOB_TRIGGER_VARIABLE: &'static str = "TOBY_JOB_TRIGGER";

/// The environment of a job's scripts: the project's variables, and over
/// them the job's id and the kind name of its trigger.
pub open spec fn job_environment(
    configured: Map<Seq<char>, Seq<char>>,
    id: u64,
    trigger_name: Seq<char>,
) -> Map<Seq<char>, Seq<char>> {
    configured.insert("TOBY_JOB_ID"@, decimal(id as nat)).insert(
        "TOBY_JOB_TRIGGER"@,
        trigger_name,
    )
}

/// The line written to the log before a command runs.
pub open spec fn invocation(command: Seq<Seq<char>>) -> Seq<char> {
    "[toby] Running command "@ + joined(command, " "@)
}

/// The line written to the log before `command` runs: the words of the
/// command after `[toby] Running command `, with one space between them.
pub fn invocation_line(command: &Vec<String>) -> (r: String)
    ensures
        r@ == invocation(views(command@)),
{
    let words = join(command, " ");
    String::from_str("[toby] Running command ").concat(words.as_str())
}

/// What one job runs in.
pub struct JobContext {
    environment: Table<String>,
    log_file: String,
}

impl JobContext {
    /// The variables that the scripts see.
    pub closed spec fn spec_environment(&self) -> Map<Seq<char>, Seq<char>> {
        self.environment.text()
    }

    /// The path of the job's log.
    pub closed spec fn spec_log_file(&self) -> Seq<char> {
        self.log_file@
    }

    /// Plans the sandbox of `job`: its environment is the project's, with the
    /// job's id and the kind name of its trigger added, and its log is the
    /// job's log file below the log directory.
    pub fn new(context: &Context, job: &Job, project: &Project) -> (r: JobContext)
        ensures
            r.spec_environment() == job_environment(
                project.spec_environment().text(),
                job.id,
                job@.trigger.name(),
            ),
            r.spec_log_file() == job_log_file(context@.log_path, job@.project, job.id),
    {
        let mut environment = project.environment().duplicate();
        environment.set(String::from_str(JOB_ID_VARIABLE), u64_to_string(job.id));
        environment.set(
            String::from_str(JOB_TRIGGER_VARIABLE),
            String::from_str(job.trigger.name()),
        );
        let log_file = job_log_path(context, job.project.as_str(), job.id);
        JobContext { environment, log_file }
    }

    /// The variables that the scripts see.
    pub fn environment(&self) -> (r: &Table<String>)
        ensures
            r.text() == self.spec_environment(),
    {
        &self.environment
    }

    /// The path of the job's log. The file is opened for appending.
    pub fn log_file(&self) -> (r: &str)
        ensures
            r@ == self.spec_log_file(),
    {
        self.log_file.as_str()
    }
}

} // verus!
