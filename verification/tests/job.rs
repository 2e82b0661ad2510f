use toby::job::{ArchivedJob, Job, Outcome, Trigger};

#[test]
fn trigger_names() {
    assert_eq!("webhook", Trigger::Webhook { token: "travis".into() }.name());
    assert_eq!("cli", Trigger::Cli.name());
    assert_eq!("telegram", Trigger::Telegram { username: "ada".into() }.name());
}

#[test]
fn trigger_descriptions() {
    assert_eq!("webhook (travis)", Trigger::Webhook { token: "travis".into() }.description());
    assert_eq!("cli", Trigger::Cli.description());
    assert_eq!("telegram user ada", Trigger::Telegram { username: "ada".into() }.description());
}

#[test]
fn archive_keeps_the_trigger() {
    let job = Job::new(7, "dreams".into(), Trigger::Webhook { token: "travis".into() });
    assert_eq!(
        ArchivedJob {
            started_at: 1530000000,
            successful: true,
            trigger: Trigger::Webhook { token: "travis".into() },
        },
        job.archive(1530000000, true)
    );
    assert_eq!(
        ArchivedJob { started_at: 0, successful: false, trigger: Trigger::Cli },
        Job::new(1, "dreams".into(), Trigger::Cli).archive(0, false)
    );
    // the job is not changed by it
    assert_eq!(7, job.id);
    assert_eq!("dreams", job.project);
}

#[test]
fn job_clone_is_equal() {
    let job = Job::new(3, "app".into(), Trigger::Telegram { username: "ada".into() });
    assert_eq!(job, job.clone());
}

#[test]
fn outcome_of_a_flag() {
    assert_eq!(Outcome::Success, Outcome::from_success(true));
    assert_eq!(Outcome::Failure, Outcome::from_success(false));
    assert!(Outcome::Success.is_success());
    assert!(!Outcome::Failure.is_success());
}
