//! Notifications: what each channel is told before and after a job, whether
//! the log goes with it, and the fan-out to every registered hook.

use crate::config::{Config, SendLog};
use crate::context::{job_log_file, job_log_path, Context};
use crate::job::{Job, JobView};
use crate::runner::JobResult;
use crate::slack::PostMessageParams;
use crate::telegram::{SendDocumentParams, SendMessageParams};
use crate::text::{decimal, i64_to_string, signed_decimal, u64_to_string};
use vstd::prelude::*;
use vstd::string::*;

verus! {

/// The message that announces a job.
pub open spec fn started_text(job: JobView) -> Seq<char> {
    "⌛️ Job *#"@ + decimal(job.id as nat) + "* for project *"@ + job.project
        + "* triggered by "@ + job.trigger.description() + "..."@
}

/// The message that reports how a job of `project` ended. A failure is
/// reported with its error in a code block.
pub open spec fn finished_text(project: Seq<char>, result: JobResult) -> Seq<char> {
    match result {
        Ok(_) => "☀️ Job for project *"@ + project + "* completed successfully."@,
        Err(error) => "💔 Job for project *"@ + project + "* failed.\n```\n"@
            + error.spec_description() + "\n```"@,
    }
}

/// The message that announces `job`.
pub fn started_message(job: &Job) -> (r: String)
    ensures
        r@ == started_text(job@),
{
    let id = u64_to_string(job.id);
    let trigger = job.trigger.description();
    let r = String::from_str("⌛️ Job *#").concat(id.as_str()).concat("* for project *").concat(
        job.project.as_str(),
    ).concat("* triggered by ").concat(trigger.as_str()).concat("...");
    assert(r@ =~= started_text(job@));
    r
}

/// The message that reports how `job` ended.
pub fn finished_message(job: &Job, result: &JobResult) -> (r: String)
    ensures
        r@ == finished_text(job@.project, *result),
{
    match result {
        Ok(_) => {
            let r = String::from_str("☀️ Job for project *").concat(job.project.as_str()).concat(
                "* completed successfully.",
            );
            assert(r@ =~= finished_text(job@.project, *result));
            r
        },
        Err(error) => {
            let description = error.description();
            let r = String::from_str("💔 Job for project *").concat(job.project.as_str()).concat(
                "* failed.\n```\n",
            ).concat(description.as_str()).concat("\n```");
            assert(r@ =~= finished_text(job@.project, *result));
            r
        },
    }
}

/// A Markdown message for a Telegram chat.
#[derive(Debug, PartialEq, Eq)]
pub struct TelegramMessage {
    pub chat_id: String,
    pub text: String,
}

impl TelegramMessage {
    /// The parameters of the call that sends the message.
    pub fn params(&self) -> (r: SendMessageParams<'_, '_>)
        ensures
            r.chat_id@ == self.chat_id@,
            r.text@ == self.text@,
            r.parse_mode == Some(crate::telegram::ParseMode::Markdown),
            r.disable_web_page_preview is None,
            r.disable_notification is None,
            r.reply_to_message_id is None,
    {
        SendMessageParams::markdown(self.chat_id.as_str(), self.text.as_str())
    }
}

/// A message for a Slack channel.
#[derive(Debug, PartialEq, Eq)]
pub struct SlackMessage {
    pub channel: String,
    pub text: String,
}

impl SlackMessage {
    /// The parameters of the call that posts the message.
    pub fn params(&self) -> (r: PostMessageParams<'_, '_>)
        ensures
            r.channel@ == self.channel@,
            r.text@ == self.text@,
    {
        PostMessageParams { channel: self.channel.as_str(), text: self.text.as_str() }
    }
}

/// What the Telegram channel is sent after a job: the report, and the log
/// where the channel's policy asks for it.
#[derive(Debug, PartialEq, Eq)]
pub struct TelegramReport {
    pub message: TelegramMessage,
    pub document: Option<SendDocumentParams>,
}

/// The Telegram channel: the chat that is notified and when it gets the log.
#[derive(Debug, PartialEq, Eq)]
pub struct TelegramHook {
    chat_id: String,
    send_log: SendLog,
}

impl TelegramHook {
    /// The chat that is notified.
    pub closed spec fn spec_chat_id(&self) -> Seq<char> {
        self.chat_id@
    }

    /// When the chat gets the log.
    pub closed spec fn spec_send_log(&self) -> SendLog {
        self.send_log
    }

    /// The hook for the chat `chat_id` with the policy `send_log`.
    pub fn new(chat_id: String, send_log: SendLog) -> (r: TelegramHook)
        ensures
            r.spec_chat_id() == chat_id@,
            r.spec_send_log() == send_log,
    {
        TelegramHook { chat_id, send_log }
    }

    /// The hook that the configuration asks for: there is one when Telegram
    /// is configured and the chat to notify is known. It notifies that chat,
    /// with the configured log policy.
    pub fn from_config(config: &Config, chat_id: Option<i64>) -> (r: Option<TelegramHook>)
        ensures
            r is Some <==> config.main.telegram is Some && chat_id is Some,
            r matches Some(hook) ==> hook.spec_chat_id() == signed_decimal(chat_id->0 as int)
                && hook.spec_send_log() == config.main.telegram->0.send_log,
    {
        match (&config.main.telegram, chat_id) {
            (Some(telegram), Some(chat_id)) => Some(
                TelegramHook { chat_id: i64_to_string(chat_id), send_log: telegram.send_log },
            ),
            _ => None,
        }
    }

    /// What the chat is sent before `job` runs: the message that announces it.
    pub fn before_job(&self, job: &Job) -> (r: TelegramMessage)
        ensures
            r.chat_id@ == self.spec_chat_id(),
            r.text@ == started_text(job@),
    {
        TelegramMessage { chat_id: self.chat_id.clone(), text: started_message(job) }
    }

    /// What the chat is sent after `job` has run: the report of how it ended,
    /// and the job's log file exactly when the policy of the channel says that
    /// the log goes with a job that ended that way.
    pub fn after_job(&self, context: &Context, job: &Job, result: &JobResult) -> (r:
        TelegramReport)
        ensures
            r.message.chat_id@ == self.spec_chat_id(),
            r.message.text@ == finished_text(job@.project, *result),
            r.document is Some <==> self.spec_send_log().spec_should_send(result is Ok),
            r.document matches Some(document) ==> document.chat_id@ == self.spec_chat_id()
                && document.document@ == job_log_file(
                context@.log_path,
                job@.project,
                job.id,
            ),
    {
        let message = TelegramMessage {
            chat_id: self.chat_id.clone(),
            text: finished_message(job, result),
        };
        let document = if self.send_log.should_send(result.is_ok()) {
            Some(
                SendDocumentParams {
                    chat_id: self.chat_id.clone(),
                    document: job_log_path(context, job.project.as_str(), job.id),
                },
            )
        } else {
            None
        };
        TelegramReport { message, document }
    }
}

/// The log-attachment policy of `Failure`: the report of a job that succeeded
/// goes without the log, the report of a job that failed goes with it. The
/// other policies likewise: `Success` the other way round, `Always` with the
/// log after every job, `Never` after none.
pub proof fn law_log_attachment_policy(policy: SendLog, result: JobResult)
    ensures
        policy == SendLog::Failure ==> (policy.spec_should_send(result is Ok) <==> result is Err),
        policy == SendLog::Success ==> (policy.spec_should_send(result is Ok) <==> result is Ok),
        policy == SendLog::Always ==> policy.spec_should_send(result is Ok),
        policy == SendLog::Never ==> !policy.spec_should_send(result is Ok),
{
}

/// The Slack channel that is notified.
#[derive(Debug, PartialEq, Eq)]
pub struct SlackHook {
    channel: String,
}

impl SlackHook {
    /// The channel that is notified.
    pub closed spec fn spec_channel(&self) -> Seq<char> {
        self.channel@
    }

    /// The hook for `channel`.
    pub fn new(channel: String) -> (r: SlackHook)
        ensures
            r.spec_channel() == channel@,
    {
        SlackHook { channel }
    }

    /// The hook that the configuration asks for: there is one when Slack is
    /// configured, and it notifies the configured channel.
    pub fn from_config(config: &Config) -> (r: Option<SlackHook>)
        ensures
            r is Some <==> config.main.slack is Some,
            r matches Some(hook) ==> hook.spec_channel() == config.main.slack->0.channel@,
    {
        match &config.main.slack {
            Some(slack) => Some(SlackHook { channel: slack.channel.clone() }),
            None => None,
        }
    }

    /// What the channel is sent before `job` runs.
    pub fn before_job(&self, job: &Job) -> (r: SlackMessage)
        ensures
            r.channel@ == self.spec_channel(),
            r.text@ == started_text(job@),
    {
        SlackMessage { channel: self.channel.clone(), text: started_message(job) }
    }

    /// What the channel is sent after `job` has run.
    pub fn after_job(&self, job: &Job, result: &JobResult) -> (r: SlackMessage)
        ensures
            r.channel@ == self.spec_channel(),
            r.text@ == finished_text(job@.project, *result),
    {
        SlackMessage { channel: self.channel.clone(), text: finished_message(job, result) }
    }
}

/// One thing to send to one channel.
#[derive(Debug, PartialEq, Eq)]
pub enum Notification {
    /// A Markdown message for a Telegram chat.
    Telegram(TelegramMessage),
    /// A file for a Telegram chat.
    Document(SendDocumentParams),
    /// A message for a Slack channel.
    Slack(SlackMessage),
}

/// The view of a [`Notification`].
pub enum NotificationView {
    Telegram { chat_id: Seq<char>, text: Seq<char> },
    Document { chat_id: Seq<char>, path: Seq<char> },
    Slack { channel: Seq<char>, text: Seq<char> },
}

impl View for Notification {
    type V = NotificationView;

    open spec fn view(&self) -> NotificationView {
        match self {
            Notification::Telegram(message) => NotificationView::Telegram {
                chat_id: message.chat_id@,
                text: message.text@,
            },
            Notification::Document(document) => NotificationView::Document {
                chat_id: document.chat_id@,
                path: document.document@,
            },
            Notification::Slack(message) => NotificationView::Slack {
                channel: message.channel@,
                text: message.text@,
            },
        }
    }
}

/// The views of a vector of notifications, in order.
pub open spec fn notification_views(notifications: Seq<Notification>) -> Seq<NotificationView> {
    notifications.map_values(|n: Notification| n@)
}

/// The channels that are built in: Telegram and Slack, each there or not.
#[derive(Debug, PartialEq, Eq)]
pub struct Channels {
    pub telegram: Option<TelegramHook>,
    pub slack: Option<SlackHook>,
}

impl Channels {
    /// What is sent with `text`: a message to the Telegram chat, if there is
    /// one, and then a message to the Slack channel, if there is one.
    pub open spec fn messages(&self, text: Seq<char>) -> Seq<NotificationView> {
        (match self.telegram {
            Some(hook) => seq![
                NotificationView::Telegram { chat_id: hook.spec_chat_id(), text },
            ],
            None => Seq::<NotificationView>::empty(),
        }) + (match self.slack {
            Some(hook) => seq![NotificationView::Slack { channel: hook.spec_channel(), text }],
            None => Seq::<NotificationView>::empty(),
        })
    }

    /// What is sent after a job: the report to the Telegram chat, the log to
    /// that chat where its policy asks for it, and the report to the Slack
    /// channel.
    pub open spec fn reports(
        &self,
        log_file: Seq<char>,
        text: Seq<char>,
        successful: bool,
    ) -> Seq<NotificationView> {
        (match self.telegram {
            Some(hook) => seq![
                NotificationView::Telegram { chat_id: hook.spec_chat_id(), text },
            ] + (if hook.spec_send_log().spec_should_send(successful) {
                seq![NotificationView::Document { chat_id: hook.spec_chat_id(), path: log_file }]
            } else {
                Seq::<NotificationView>::empty()
            }),
            None => Seq::<NotificationView>::empty(),
        }) + (match self.slack {
            Some(hook) => seq![NotificationView::Slack { channel: hook.spec_channel(), text }],
            None => Seq::<NotificationView>::empty(),
        })
    }

    /// The channels that the configuration asks for; see
    /// [`TelegramHook::from_config`] and [`SlackHook::from_config`].
    pub fn from_config(config: &Config, telegram_chat_id: Option<i64>) -> (r: Channels)
        ensures
            r.telegram is Some <==> config.main.telegram is Some && telegram_chat_id is Some,
            r.telegram matches Some(hook) ==> hook.spec_chat_id() == signed_decimal(
                telegram_chat_id->0 as int,
            ) && hook.spec_send_log() == config.main.telegram->0.send_log,
            r.slack is Some <==> config.main.slack is Some,
            r.slack matches Some(hook) ==> hook.spec_channel() == config.main.slack->0.channel@,
    {
        Channels {
            telegram: TelegramHook::from_config(config, telegram_chat_id),
            slack: SlackHook::from_config(config),
        }
    }

    /// What is sent before `job` runs: the message that announces it, to
    /// every channel.
    pub fn before_job(&self, job: &Job) -> (r: Vec<Notification>)
        ensures
            notification_views(r@) == self.messages(started_text(job@)),
    {
        let mut out: Vec<Notification> = Vec::new();
        match &self.telegram {
            Some(hook) => {
                out.push(Notification::Telegram(hook.before_job(job)));
            },
            None => {},
        }
        match &self.slack {
            Some(hook) => {
                out.push(Notification::Slack(hook.before_job(job)));
            },
            None => {},
        }
        assert(notification_views(out@) =~= self.messages(started_text(job@)));
        out
    }

    /// What is sent after `job` has run: the report of how it ended, to every
    /// channel, and the job's log to the Telegram chat where its policy asks
    /// for it.
    pub fn after_job(&self, context: &Context, job: &Job, result: &JobResult) -> (r: Vec<
        Notification,
    >)
        ensures
            notification_views(r@) == self.reports(
                job_log_file(context@.log_path, job@.project, job.id),
                finished_text(job@.project, *result),
                result is Ok,
            ),
    {
        let mut out: Vec<Notification> = Vec::new();
        match &self.telegram {
            Some(hook) => {
                let report = hook.after_job(context, job, result);
                out.push(Notification::Telegram(report.message));
                match report.document {
                    Some(document) => {
                        out.push(Notification::Document(document));
                    },
                    None => {},
                }
            },
            None => {},
        }
        match &self.slack {
            Some(hook) => {
                out.push(Notification::Slack(hook.after_job(job, result)));
            },
            None => {},
        }
        assert(notification_views(out@) =~= self.reports(
            job_log_file(context@.log_path, job@.project, job.id),
            finished_text(job@.project, *result),
            result is Ok,
        ));
        out
    }
}

/// Why a hook could not deliver.
#[derive(Debug, PartialEq, Eq)]
pub struct NotificationError {
    /// The channel that failed, such as `telegram`.
    pub channel: String,
    /// What went wrong.
    pub reason: String,
}

impl NotificationError {
    /// The line that is logged for the failure.
    pub open spec fn spec_description(&self) -> Seq<char> {
        "Unable to send "@ + self.channel@ + " message: "@ + self.reason@
    }

    /// The line that is logged for the failure:
    /// `Unable to send <channel> message: <reason>`.
    pub fn description(&self) -> (r: String)
        ensures
            r@ == self.spec_description(),
    {
        let r = String::from_str("Unable to send ").concat(self.channel.as_str()).concat(
            " message: ",
        ).concat(self.reason.as_str());
        assert(r@ =~= self.spec_description());
        r
    }
}

/// An observer of jobs. It is told before a job runs and after it has run,
/// and says whether it could pass the news on.
pub trait Hook {
    fn before_job(&self, job: &Job) -> Result<(), NotificationError>;

    fn after_job(&self, job: &Job, result: &JobResult) -> Result<(), NotificationError>;
}

/// A boxed hook is the hook in the box: it passes both calls on and gives the
/// answer that it gets.
impl<H: Hook + ?Sized> Hook for Box<H> {
    fn before_job(&self, job: &Job) -> (answer: Result<(), NotificationError>)
        ensures
            call_ensures(H::before_job, (&**self, job), answer),
    {
        (**self).before_job(job)
    }

    fn after_job(&self, job: &Job, result: &JobResult) -> (answer: Result<(), NotificationError>)
        ensures
            call_ensures(H::after_job, (&**self, job, result), answer),
    {
        (**self).after_job(job, result)
    }
}

/// Where hooks are registered at startup.
pub trait Registry<H: Hook> {
    fn register_job_hook(&mut self, hook: H);
}

/// The hooks of a worker. Both calls go to every hook, in the order of
/// registration; a hook that fails does not keep the next one from being
/// told, and no failure is passed on to the caller as an error.
pub struct Hooks<H: Hook> {
    hooks: Vec<H>,
}

impl<H: Hook> Hooks<H> {
    /// The registered hooks, in the order of registration.
    pub closed spec fn spec_hooks(&self) -> Seq<H> {
        self.hooks@
    }

    /// The number of registered hooks.
    pub open spec fn spec_len(&self) -> nat {
        self.spec_hooks().len()
    }

    /// No hooks.
    pub fn new() -> (r: Hooks<H>)
        ensures
            r.spec_hooks() == Seq::<H>::empty(),
    {
        Hooks { hooks: Vec::new() }
    }

    /// The number of registered hooks.
    pub fn len(&self) -> (n: usize)
        ensures
            n == self.spec_len(),
    {
        self.hooks.len()
    }

    /// Registers `hook` behind the hooks that are already there.
    pub fn register(&mut self, hook: H)
        ensures
            final(self).spec_hooks() == old(self).spec_hooks().push(hook),
    {
        self.hooks.push(hook);
    }

    /// Tells every hook that `job` is about to run, in the order of
    /// registration. The answer at position `i` is an answer of the hook
    /// registered at position `i` to this call; a failure among them is kept
    /// as an answer and stops nothing.
    pub fn before_job(&self, job: &Job) -> (r: Vec<Result<(), NotificationError>>)
        ensures
            r.len() == self.spec_len(),
            forall|i: int|
                0 <= i < r.len() ==> call_ensures(
                    H::before_job,
                    (&self.spec_hooks()[i], job),
                    #[trigger] r[i],
                ),
    {
        let mut answers: Vec<Result<(), NotificationError>> = Vec::new();
        let mut i: usize = 0;
        while i < self.hooks.len()
            invariant
                i <= self.hooks.len(),
                answers.len() == i,
                forall|j: int|
                    0 <= j < i ==> call_ensures(
                        H::before_job,
                        (&self.hooks@[j], job),
                        #[trigger] answers[j],
                    ),
            decreases self.hooks.len() - i,
        {
            let answer = self.hooks[i].before_job(job);
            answers.push(answer);
            i = i + 1;
        }
        answers
    }

    /// Tells every hook how `job` ended, in the order of registration. The
    /// answer at position `i` is an answer of the hook registered at position
    /// `i` to this call; a failure among them is kept as an answer and stops
    /// nothing.
    pub fn after_job(&self, job: &Job, result: &JobResult) -> (r: Vec<
        Result<(), NotificationError>,
    >)
        ensures
            r.len() == self.spec_len(),
            forall|i: int|
                0 <= i < r.len() ==> call_ensures(
                    H::after_job,
                    (&self.spec_hooks()[i], job, result),
                    #[trigger] r[i],
                ),
    {
        let mut answers: Vec<Result<(), NotificationError>> = Vec::new();
        let mut i: usize = 0;
        while i < self.hooks.len()
            invariant
                i <= self.hooks.len(),
                answers.len() == i,
                forall|j: int|
                    0 <= j < i ==> call_ensures(
                        H::after_job,
                        (&self.hooks@[j], job, result),
                        #[trigger] answers[j],
                    ),
            decreases self.hooks.len() - i,
        {
            let answer = self.hooks[i].after_job(job, result);
            answers.push(answer);
            i = i + 1;
        }
        answers
    }
}

impl<H: Hook> Registry<H> for Hooks<H> {
    /// Registers `hook` behind the hooks that are already there.
    fn register_job_hook(&mut self, hook: H)
        ensures
            final(self).spec_hooks() == old(self).spec_hooks().push(hook),
    {
        self.register(hook);
    }
}

/// The reasons of the failures among `answers`, in order.
pub open spec fn failure_reasons(answers: Seq<Result<(), NotificationError>>) -> Seq<Seq<char>>
    decreases answers.len(),
{
    if answers.len() == 0 {
        Seq::empty()
    } else {
        match answers.last() {
            Ok(_) => failure_reasons(answers.drop_last()),
            Err(error) => failure_reasons(answers.drop_last()).push(error.spec_description()),
        }
    }
}

/// The lines to log for the answers of a fan-out: one for each hook that
/// failed, in order, and none for a hook that delivered.
pub fn failure_log(answers: &Vec<Result<(), NotificationError>>) -> (r: Vec<String>)
    ensures
        r@.map_values(|s: String| s@) == failure_reasons(answers@),
{
    let mut lines: Vec<String> = Vec::new();
    let mut i: usize = 0;
    assert(answers@.take(0) =~= Seq::empty());
    while i < answers.len()
        invariant
            i <= answers.len(),
            lines@.map_values(|s: String| s@) == failure_reasons(answers@.take(i as int)),
        decreases answers.len() - i,
    {
        let ghost before = answers@.take(i as int);
        let ghost after = answers@.take(i + 1);
        assert(after.drop_last() =~= before);
        assert(after.last() == answers@[i as int]);
        match &answers[i] {
            Ok(_) => {},
            Err(error) => {
                let line = error.description();
                let ghost old_lines = lines@.map_values(|s: String| s@);
                lines.push(line);
                assert(lines@.map_values(|s: String| s@) =~= old_lines.push(line@));
            },
        }
        i = i + 1;
    }
    assert(answers@.take(answers.len() as int) =~= answers@);
    lines
}

} // verus!
