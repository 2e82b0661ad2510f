use std::cell::{Cell, RefCell};
use std::rc::Rc;
use toby::config::{
    Config, MainConfig, Projects, SendLog, SlackConfig, TelegramConfig, Tokens,
};
use toby::context::Context;
use toby::hook::{
    failure_log, finished_message, started_message, Channels, Hook, Hooks, Notification,
    NotificationError, Registry, SlackHook, SlackMessage, TelegramHook, TelegramMessage,
};
use toby::job::{Job, Trigger};
use toby::runner::{CommandError, JobError, JobResult};
use toby::telegram::{ParseMode, SendDocumentParams};

fn context() -> Context {
    Context::new("/etc/toby".into(), "/var/log/toby".into(), "/var/lib/toby".into())
}

fn job() -> Job {
    Job::new(12, "dreams".into(), Trigger::Webhook { token: "travis".into() })
}

fn failed() -> JobResult {
    Err(JobError::Command(CommandError::ExitStatus(Some(2))))
}

#[test]
fn started_message_text() {
    assert_eq!(
        "⌛️ Job *#12* for project *dreams* triggered by webhook (travis)...",
        started_message(&job())
    );
    assert_eq!(
        "⌛️ Job *#1* for project *app* triggered by cli...",
        started_message(&Job::new(1, "app".into(), Trigger::Cli))
    );
    assert_eq!(
        "⌛️ Job *#2* for project *app* triggered by telegram user ada...",
        started_message(&Job::new(2, "app".into(), Trigger::Telegram { username: "ada".into() }))
    );
}

#[test]
fn finished_message_text() {
    assert_eq!(
        "☀️ Job for project *dreams* completed successfully.",
        finished_message(&job(), &Ok(()))
    );
    assert_eq!(
        "💔 Job for project *dreams* failed.\n```\nCommand failed with exit status: 2\n```",
        finished_message(&job(), &failed())
    );
    assert_eq!(
        "💔 Job for project *dreams* failed.\n```\nUnable to create context: disk full\n```",
        finished_message(&job(), &Err(JobError::Context("disk full".into())))
    );
}

#[test]
fn the_failure_policy_attaches_the_log_of_a_failed_job_only() {
    let hook = TelegramHook::new("42".into(), SendLog::Failure);

    let report = hook.after_job(&context(), &job(), &Ok(()));
    assert_eq!(None, report.document);
    assert_eq!("42", report.message.chat_id);
    assert_eq!("☀️ Job for project *dreams* completed successfully.", report.message.text);

    let report = hook.after_job(&context(), &job(), &failed());
    assert_eq!(
        Some(SendDocumentParams {
            chat_id: "42".into(),
            document: "/var/log/toby/jobs/dreams-12.log".into(),
        }),
        report.document
    );
    assert_eq!(
        "💔 Job for project *dreams* failed.\n```\nCommand failed with exit status: 2\n```",
        report.message.text
    );
}

#[test]
fn every_policy_decides_the_attachment() {
    let cases = [
        (SendLog::Never, false, false),
        (SendLog::Always, true, true),
        (SendLog::Success, true, false),
        (SendLog::Failure, false, true),
    ];
    for (policy, after_success, after_failure) in cases.iter() {
        let hook = TelegramHook::new("42".into(), *policy);
        assert_eq!(
            *after_success,
            hook.after_job(&context(), &job(), &Ok(())).document.is_some()
        );
        assert_eq!(
            *after_failure,
            hook.after_job(&context(), &job(), &failed()).document.is_some()
        );
    }
}

#[test]
fn telegram_messages_are_markdown() {
    let hook = TelegramHook::new("-100123".into(), SendLog::Never);
    let message = hook.before_job(&job());
    assert_eq!("-100123", message.chat_id);
    let params = message.params();
    assert_eq!("-100123", params.chat_id);
    assert_eq!(
        "⌛️ Job *#12* for project *dreams* triggered by webhook (travis)...",
        params.text
    );
    assert_eq!(Some(ParseMode::Markdown), params.parse_mode);
    assert_eq!(None, params.disable_notification);
    assert_eq!(None, params.disable_web_page_preview);
    assert_eq!(None, params.reply_to_message_id);
}

#[test]
fn slack_messages() {
    let hook = SlackHook::new("#deploys".into());
    let before = hook.before_job(&job());
    assert_eq!("#deploys", before.channel);
    assert_eq!(
        "⌛️ Job *#12* for project *dreams* triggered by webhook (travis)...",
        before.text
    );
    let after = hook.after_job(&job(), &Ok(()));
    let params = after.params();
    assert_eq!("#deploys", params.channel);
    assert_eq!("☀️ Job for project *dreams* completed successfully.", params.text);
}

fn config(telegram: Option<SendLog>, slack: bool) -> Config {
    Config::new(
        MainConfig {
            telegram: telegram
                .map(|send_log| TelegramConfig { token: "123:abc".into(), send_log }),
            slack: if slack {
                Some(SlackConfig { bot_token: "xoxb".into(), channel: "#deploys".into() })
            } else {
                None
            },
            ..MainConfig::default()
        },
        Tokens::new(),
        Projects::new(),
    )
}

#[test]
fn the_telegram_hook_needs_a_configuration_and_a_chat() {
    assert_eq!(None, TelegramHook::from_config(&config(None, false), Some(7)));
    assert_eq!(None, TelegramHook::from_config(&config(Some(SendLog::Always), false), None));
    assert_eq!(
        Some(TelegramHook::new("-7".into(), SendLog::Always)),
        TelegramHook::from_config(&config(Some(SendLog::Always), false), Some(-7))
    );
    assert_eq!(None, SlackHook::from_config(&config(None, false)));
    assert_eq!(
        Some(SlackHook::new("#deploys".into())),
        SlackHook::from_config(&config(None, true))
    );
}

#[test]
fn channels_tell_every_configured_channel() {
    let channels = Channels::from_config(&config(Some(SendLog::Failure), true), Some(42));
    let text = "⌛️ Job *#12* for project *dreams* triggered by webhook (travis)...";
    assert_eq!(
        vec![
            Notification::Telegram(TelegramMessage { chat_id: "42".into(), text: text.into() }),
            Notification::Slack(SlackMessage { channel: "#deploys".into(), text: text.into() }),
        ],
        channels.before_job(&job())
    );

    let text = "☀️ Job for project *dreams* completed successfully.";
    assert_eq!(
        vec![
            Notification::Telegram(TelegramMessage { chat_id: "42".into(), text: text.into() }),
            Notification::Slack(SlackMessage { channel: "#deploys".into(), text: text.into() }),
        ],
        channels.after_job(&context(), &job(), &Ok(()))
    );

    let text = "💔 Job for project *dreams* failed.\n```\nCommand failed with exit status: 2\n```";
    assert_eq!(
        vec![
            Notification::Telegram(TelegramMessage { chat_id: "42".into(), text: text.into() }),
            Notification::Document(SendDocumentParams {
                chat_id: "42".into(),
                document: "/var/log/toby/jobs/dreams-12.log".into(),
            }),
            Notification::Slack(SlackMessage { channel: "#deploys".into(), text: text.into() }),
        ],
        channels.after_job(&context(), &job(), &failed())
    );
}

#[test]
fn channels_without_configuration_tell_nobody() {
    let channels = Channels::from_config(&config(None, false), Some(42));
    assert!(channels.before_job(&job()).is_empty());
    assert!(channels.after_job(&context(), &job(), &failed()).is_empty());
}

struct Recorder<'a> {
    name: &'static str,
    fails: bool,
    calls: &'a RefCell<Vec<String>>,
}

impl<'a> Hook for Recorder<'a> {
    fn before_job(&self, job: &Job) -> Result<(), NotificationError> {
        self.calls.borrow_mut().push(format!("{} before {}", self.name, job.id));
        if self.fails {
            Err(NotificationError { channel: self.name.into(), reason: "it is down".into() })
        } else {
            Ok(())
        }
    }

    fn after_job(&self, job: &Job, result: &JobResult) -> Result<(), NotificationError> {
        self.calls.borrow_mut().push(format!("{} after {} {}", self.name, job.id, result.is_ok()));
        if self.fails {
            Err(NotificationError { channel: self.name.into(), reason: "it is down".into() })
        } else {
            Ok(())
        }
    }
}

#[test]
fn a_failing_hook_does_not_keep_the_others_from_being_told() {
    let calls = RefCell::new(Vec::new());
    let mut hooks = Hooks::new();
    assert_eq!(0, hooks.len());
    hooks.register(Recorder { name: "first", fails: false, calls: &calls });
    hooks.register_job_hook(Recorder { name: "second", fails: true, calls: &calls });
    hooks.register(Recorder { name: "third", fails: false, calls: &calls });
    assert_eq!(3, hooks.len());

    let answers = hooks.before_job(&job());
    assert_eq!(
        vec![
            Ok(()),
            Err(NotificationError { channel: "second".into(), reason: "it is down".into() }),
            Ok(()),
        ],
        answers
    );
    assert_eq!(
        vec!["Unable to send second message: it is down".to_string()],
        failure_log(&answers)
    );

    let answers = hooks.after_job(&job(), &failed());
    assert_eq!(3, answers.len());
    assert!(answers[0].is_ok() && answers[1].is_err() && answers[2].is_ok());

    assert_eq!(
        vec![
            "first before 12",
            "second before 12",
            "third before 12",
            "first after 12 false",
            "second after 12 false",
            "third after 12 false",
        ],
        *calls.borrow()
    );
}

#[test]
fn failure_log_has_one_line_for_each_failure() {
    assert!(failure_log(&Vec::new()).is_empty());
    assert!(failure_log(&vec![Ok(()), Ok(())]).is_empty());
    assert_eq!(
        vec![
            "Unable to send telegram message: a".to_string(),
            "Unable to send slack message: b".to_string(),
        ],
        failure_log(&vec![
            Err(NotificationError { channel: "telegram".into(), reason: "a".into() }),
            Ok(()),
            Err(NotificationError { channel: "slack".into(), reason: "b".into() }),
        ])
    );
}

struct Silent;

impl Hook for Silent {
    fn before_job(&self, _job: &Job) -> Result<(), NotificationError> {
        Ok(())
    }

    fn after_job(&self, _job: &Job, _result: &JobResult) -> Result<(), NotificationError> {
        Ok(())
    }
}

struct Counting {
    told: Rc<Cell<u32>>,
}

impl Hook for Counting {
    fn before_job(&self, _job: &Job) -> Result<(), NotificationError> {
        self.told.set(self.told.get() + 1);
        Ok(())
    }

    fn after_job(&self, job: &Job, _result: &JobResult) -> Result<(), NotificationError> {
        self.told.set(self.told.get() + 1);
        Err(NotificationError { channel: "counting".into(), reason: format!("job {} is lost", job.id) })
    }
}

#[test]
fn hooks_of_different_kinds_share_one_registry() {
    let told = Rc::new(Cell::new(0));
    let mut hooks: Hooks<Box<dyn Hook>> = Hooks::new();
    hooks.register(Box::new(Silent));
    hooks.register(Box::new(Counting { told: told.clone() }));

    assert_eq!(vec![Ok(()), Ok(())], hooks.before_job(&job()));
    let answers = hooks.after_job(&job(), &Ok(()));
    assert_eq!(
        vec![
            Ok(()),
            Err(NotificationError { channel: "counting".into(), reason: "job 12 is lost".into() }),
        ],
        answers
    );
    assert_eq!(
        "Unable to send counting message: job 12 is lost",
        answers[1].as_ref().unwrap_err().description()
    );
    assert_eq!(2, told.get());
}
