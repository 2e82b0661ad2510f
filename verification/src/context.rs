//! The directories the system works in, and the file names it derives from
//! them.
//!
//! Paths are kept as text. A name is appended to a directory as a path
//! component is appended on Unix: with one `/` between the two unless the
//! directory already ends in one, and an absolute name replaces the directory.

use crate::job::JobId;
use crate::text::{decimal, lemma_decimal_injective, u64_to_string};
use vstd::prelude::*;
use vstd::string::*;

verus! {

/// `base` with the path component `component` appended.
pub open spec fn pushed(base: Seq<char>, component: Seq<char>) -> Seq<char> {
    if component.len() > 0 && component[0] == '/' {
        component
    } else if base.len() > 0 && base.last() != '/' {
        base + seq!['/'] + component
    } else {
        base + component
    }
}

/// Appends the path component `component` to `base`.
pub fn push_component(base: &str, component: &str) -> (r: String)
    ensures
        r@ == pushed(base@, component@),
{
    proof {
        reveal_strlit("/");
    }
    if component.unicode_len() > 0 && component.get_char(0) == '/' {
        String::from_str(component)
    } else {
        let n = base.unicode_len();
        if n > 0 && base.get_char(n - 1) != '/' {
            let r = String::from_str(base).concat("/").concat(component);
            assert(r@ =~= base@ + seq!['/'] + component@);
            r
        } else {
            String::from_str(base).concat(component)
        }
    }
}

/// The three directories of an installation.
#[derive(Debug, PartialEq, Eq)]
pub struct Context {
    config_path: String,
    log_path: String,
    runtime_path: String,
}

/// The view of a [`Context`].
pub struct ContextView {
    pub config_path: Seq<char>,
    pub log_path: Seq<char>,
    pub runtime_path: Seq<char>,
}

impl View for Context {
    type V = ContextView;

    closed spec fn view(&self) -> ContextView {
        ContextView {
            config_path: self.config_path@,
            log_path: self.log_path@,
            runtime_path: self.runtime_path@,
        }
    }
}

impl Context {
    /// The context of these three directories.
    pub fn new(config_path: String, log_path: String, runtime_path: String) -> (r: Context)
        ensures
            r@ == (ContextView {
                config_path: config_path@,
                log_path: log_path@,
                runtime_path: runtime_path@,
            }),
    {
        Context { config_path, log_path, runtime_path }
    }

    /// The directory of the configuration files.
    pub fn config_path(&self) -> (r: &str)
        ensures
            r@ == self@.config_path,
    {
        self.config_path.as_str()
    }

    /// The directory of the job logs.
    pub fn log_path(&self) -> (r: &str)
        ensures
            r@ == self@.log_path,
    {
        self.log_path.as_str()
    }

    /// The directory of what the system keeps between runs: counters, job
    /// records and the socket.
    pub fn runtime_path(&self) -> (r: &str)
        ensures
            r@ == self@.runtime_path,
    {
        self.runtime_path.as_str()
    }
}

/// The file of the daemon's own settings: `toby.toml` in the configuration
/// directory.
pub fn find_config_file(context: &Context) -> (r: String)
    ensures
        r@ == pushed(context@.config_path, "toby.toml"@),
{
    push_component(context.config_path(), "toby.toml")
}

/// The file of the tokens: `tokens.toml` in the configuration directory.
pub fn find_tokens_file(context: &Context) -> (r: String)
    ensures
        r@ == pushed(context@.config_path, "tokens.toml"@),
{
    push_component(context.config_path(), "tokens.toml")
}

/// The directory of one project's files below `root`: `root/jobs/<project>`.
pub open spec fn project_dir(root: Seq<char>, project: Seq<char>) -> Seq<char> {
    pushed(pushed(root, "jobs"@), project)
}

fn project_directory(root: &str, project_name: &str) -> (r: String)
    ensures
        r@ == project_dir(root@, project_name@),
{
    let jobs = push_component(root, "jobs");
    push_component(jobs.as_str(), project_name)
}

/// The file that holds a project's next job id:
/// `<runtime>/jobs/<project>/next_id`.
pub fn get_job_id_path(context: &Context, project_name: &str) -> (r: String)
    ensures
        r@ == pushed(project_dir(context@.runtime_path, project_name@), "next_id"@),
{
    let dir = project_directory(context.runtime_path(), project_name);
    push_component(dir.as_str(), "next_id")
}

/// The log file of the job `id` of `project` below the log directory
/// `log_dir`: `log_dir/jobs/<project>-<id>.log`. The project and the id make
/// one file name, and `.log` is added at its end, whatever the name holds.
pub open spec fn job_log_file(log_dir: Seq<char>, project: Seq<char>, id: JobId) -> Seq<char> {
    pushed(pushed(log_dir, "jobs"@), project + "-"@ + decimal(id as nat)) + ".log"@
}

/// The record of the job `id` of `project` below the runtime directory
/// `runtime_dir`: `runtime_dir/jobs/<project>/<id>.toml`.
pub open spec fn job_archive_file(
    runtime_dir: Seq<char>,
    project: Seq<char>,
    id: JobId,
) -> Seq<char> {
    pushed(project_dir(runtime_dir, project), decimal(id as nat)) + ".toml"@
}

/// The log file of a job: `<log>/jobs/<project>-<id>.log`.
pub fn job_log_path(context: &Context, project_name: &str, job_id: JobId) -> (r: String)
    ensures
        r@ == job_log_file(context@.log_path, project_name@, job_id),
        r@ == pushed(
            pushed(context@.log_path, "jobs"@),
            project_name@ + "-"@ + decimal(job_id as nat),
        ) + ".log"@,
{
    let jobs = push_component(context.log_path(), "jobs");
    let id = u64_to_string(job_id);
    let name = String::from_str(project_name).concat("-").concat(id.as_str());
    push_component(jobs.as_str(), name.as_str()).concat(".log")
}

/// The record of a finished job: `<runtime>/jobs/<project>/<id>.toml`.
pub fn job_archive_path(context: &Context, project_name: &str, job_id: JobId) -> (r: String)
    ensures
        r@ == job_archive_file(context@.runtime_path, project_name@, job_id),
{
    let dir = project_directory(context.runtime_path(), project_name);
    let id = u64_to_string(job_id);
    push_component(dir.as_str(), id.as_str()).concat(".toml")
}

/// The file that holds the chat to notify: `<runtime>/telegram_chat_id`.
pub fn get_telegram_chat_id_path(context: &Context) -> (r: String)
    ensures
        r@ == pushed(context@.runtime_path, "telegram_chat_id"@),
{
    push_component(context.runtime_path(), "telegram_chat_id")
}

/// Whether `name` is one path component: not empty and without a `/`.
pub open spec fn is_component(name: Seq<char>) -> bool {
    name.len() > 0 && !name.contains('/')
}

/// `base`, ready for a component to be written after it: with a `/` at its
/// end, unless it is empty.
pub open spec fn with_separator(base: Seq<char>) -> Seq<char> {
    if base.len() > 0 && base.last() != '/' {
        base + seq!['/']
    } else {
        base
    }
}

/// A component that is not absolute is written after the base and its
/// separator.
proof fn lemma_pushed_relative(base: Seq<char>, component: Seq<char>)
    requires
        component.len() == 0 || component[0] != '/',
    ensures
        pushed(base, component) == with_separator(base) + component,
{
    assert(pushed(base, component) =~= with_separator(base) + component);
}

/// What stands after a common beginning is equal if the wholes are.
proof fn lemma_same_beginning(beginning: Seq<char>, first: Seq<char>, second: Seq<char>)
    requires
        beginning + first == beginning + second,
    ensures
        first == second,
{
    assert(first =~= (beginning + first).skip(beginning.len() as int));
    assert(second =~= (beginning + second).skip(beginning.len() as int));
}

/// What stands before a common end is equal if the wholes are.
proof fn lemma_same_end(first: Seq<char>, second: Seq<char>, end: Seq<char>)
    requires
        first + end == second + end,
    ensures
        first == second,
{
    assert((first + end).len() == first.len() + end.len());
    assert((second + end).len() == second.len() + end.len());
    assert(first =~= (first + end).take(first.len() as int));
    assert(second =~= (second + end).take(second.len() as int));
}

/// Projects have their own files. Two different projects have different
/// directories, and a file of one name lies at different paths in them: their
/// counters are two files, so that allocations for one project do not wait
/// for the lock of another. This holds of project names that are single path
/// components.
pub proof fn law_projects_have_their_own_files(
    root: Seq<char>,
    first: Seq<char>,
    second: Seq<char>,
    file: Seq<char>,
)
    requires
        is_component(first),
        is_component(second),
        first != second,
        file.len() == 0 || file[0] != '/',
    ensures
        project_dir(root, first) != project_dir(root, second),
        pushed(project_dir(root, first), file) != pushed(project_dir(root, second), file),
{
    let stem = with_separator(pushed(root, "jobs"@));
    let a = project_dir(root, first);
    let b = project_dir(root, second);
    assert(first[0] != '/') by {
        assert(first.contains(first[0]));
    }
    assert(second[0] != '/') by {
        assert(second.contains(second[0]));
    }
    lemma_pushed_relative(pushed(root, "jobs"@), first);
    lemma_pushed_relative(pushed(root, "jobs"@), second);
    if a == b {
        lemma_same_beginning(stem, first, second);
    }
    assert(a.last() != '/') by {
        assert(first.contains(first.last()));
        assert(a.last() == first.last());
    }
    assert(b.last() != '/') by {
        assert(second.contains(second.last()));
        assert(b.last() == second.last());
    }
    lemma_pushed_relative(a, file);
    lemma_pushed_relative(b, file);
    if pushed(a, file) == pushed(b, file) {
        assert(a + seq!['/'] + file =~= a + (seq!['/'] + file));
        assert(b + seq!['/'] + file =~= b + (seq!['/'] + file));
        lemma_same_end(a, b, seq!['/'] + file);
    }
}

/// Jobs have their own logs. Two jobs of one project, which differ in their
/// ids, write to different files, whatever the name of the project is.
pub proof fn law_jobs_have_their_own_logs(
    log_dir: Seq<char>,
    project: Seq<char>,
    first: JobId,
    second: JobId,
)
    requires
        first != second,
    ensures
        job_log_file(log_dir, project, first) != job_log_file(log_dir, project, second),
{
    let jobs = pushed(log_dir, "jobs"@);
    let head = project + "-"@;
    let a = head + decimal(first as nat);
    let b = head + decimal(second as nat);
    let beginning = if head[0] == '/' {
        head
    } else {
        with_separator(jobs) + head
    };
    assert("-"@.len() == 1) by {
        reveal_strlit("-");
    }
    assert(a[0] == head[0] && b[0] == head[0]);
    if head[0] != '/' {
        lemma_pushed_relative(jobs, a);
        lemma_pushed_relative(jobs, b);
    }
    assert(pushed(jobs, a) =~= beginning + decimal(first as nat));
    assert(pushed(jobs, b) =~= beginning + decimal(second as nat));
    if job_log_file(log_dir, project, first) == job_log_file(log_dir, project, second) {
        lemma_same_end(pushed(jobs, a), pushed(jobs, b), ".log"@);
        lemma_same_beginning(beginning, decimal(first as nat), decimal(second as nat));
        lemma_decimal_injective(first as nat, second as nat);
    }
}

} // verus!
