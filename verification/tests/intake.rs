use toby::config::{
    Config, ListenConfig, MainConfig, Project, Projects, SendLog, TelegramConfig, Token, Tokens,
};
use toby::counter::AllocationError;
use toby::intake::{
    create_cli_job, create_job, deploy, job_response, parse_authorization_header,
    CreateJobResponse, DeployInput, DeployOutput, Status, ValidToken,
};
use toby::job::{Job, Trigger};
use toby::secret::{gen_secret, generate, TelegramWebhookToken};
use toby::table::Table;

#[test]
fn the_header_names_a_token_and_a_secret() {
    assert_eq!(Some(("travis", "s3cret")), parse_authorization_header("Token travis:s3cret"));
    assert_eq!(Some(("travis", "")), parse_authorization_header("Token travis:"));
    assert_eq!(Some(("", "s3cret")), parse_authorization_header("Token :s3cret"));
    // the secret ends at a second colon
    assert_eq!(Some(("travis", "s3")), parse_authorization_header("Token travis:s3:cret"));
    // any one character may stand after the word
    assert_eq!(Some(("travis", "x")), parse_authorization_header("Token=travis:x"));
    assert_eq!(Some(("é", "ü")), parse_authorization_header("Token é:ü"));
}

#[test]
fn other_headers_name_nothing() {
    assert_eq!(None, parse_authorization_header(""));
    assert_eq!(None, parse_authorization_header("Token"));
    assert_eq!(None, parse_authorization_header("Token "));
    assert_eq!(None, parse_authorization_header("Token travis"));
    assert_eq!(None, parse_authorization_header("Bearer travis:s3cret"));
    assert_eq!(None, parse_authorization_header("token travis:s3cret"));
    assert_eq!(None, parse_authorization_header("Toke travis:s3cret"));
}

fn config() -> Config {
    let mut token = Token::new("s1".into());
    token.grant("app".into());
    let mut tokens = Tokens::new();
    tokens.insert("travis".into(), token);
    let mut projects = Projects::new();
    projects.insert("app".into(), Project::new(Vec::new(), Table::new()));
    projects.insert("other".into(), Project::new(Vec::new(), Table::new()));
    Config::new(MainConfig::default(), tokens, projects)
}

#[test]
fn a_valid_token_has_shown_its_secret() {
    let config = config();
    let valid = ValidToken::from_header(&config.tokens, "Token travis:s1").unwrap();
    assert_eq!("travis", valid.token_name());
    assert_eq!("s1", valid.token().secret());

    assert!(ValidToken::from_header(&config.tokens, "Token travis:wrong").is_none());
    assert!(ValidToken::from_header(&config.tokens, "Token nobody:s1").is_none());
    assert!(ValidToken::from_header(&config.tokens, "Bearer travis:s1").is_none());
    assert!(ValidToken::from_request(&config, None).is_none());
    assert!(ValidToken::from_request(&config, Some("Token travis:s1")).is_some());
    assert!(ValidToken::from_request(&config, Some("Token travis:s2")).is_none());
}

#[test]
fn a_job_is_created_for_a_project_that_the_token_opens() {
    let config = config();
    let valid = ValidToken::from_header(&config.tokens, "Token travis:s1").unwrap();

    let ticket = create_job(&valid, &config.projects, "app").ok().unwrap();
    assert_eq!("app", ticket.project());
    let job = ticket.with_id(Ok(7)).unwrap();
    assert_eq!(Job::new(7, "app".into(), Trigger::Webhook { token: "travis".into() }), job);
    assert_eq!(Ok(CreateJobResponse { id: 7 }), job_response(&job, true));
    assert_eq!(Err(Status::InternalServerError), job_response(&job, false));
}

#[test]
fn a_job_is_forbidden_for_other_projects() {
    let config = config();
    let valid = ValidToken::from_header(&config.tokens, "Token travis:s1").unwrap();

    assert_eq!(Some(Status::Forbidden), create_job(&valid, &config.projects, "other").err());
    assert_eq!(Some(Status::Forbidden), create_job(&valid, &config.projects, "missing").err());
}

#[test]
fn no_id_is_made_up_when_the_allocator_fails() {
    let config = config();
    let ticket = create_cli_job(&config.projects, "app").ok().unwrap();
    assert_eq!(
        Err(Status::InternalServerError),
        ticket.with_id(Err(AllocationError::Io("locked".into())))
    );
    let ticket = create_cli_job(&config.projects, "app").ok().unwrap();
    assert_eq!(Err(Status::InternalServerError), ticket.with_id(Err(AllocationError::Exhausted)));
}

#[test]
fn a_cli_job_needs_the_project_only() {
    let config = config();
    let job = create_cli_job(&config.projects, "other").ok().unwrap().with_id(Ok(1)).unwrap();
    assert_eq!(Job::new(1, "other".into(), Trigger::Cli), job);
    assert_eq!(Some(Status::Forbidden), create_cli_job(&config.projects, "missing").err());
}

#[test]
fn deploy_scenario() {
    let config = config();
    let input = |token: &str, secret: &str| DeployInput { token: token.into(), secret: secret.into() };

    assert_eq!(Some(Status::Forbidden), deploy(&config, "app", &input("travis", "wrong")).err());
    assert_eq!(Some(Status::Forbidden), deploy(&config, "other", &input("travis", "s1")).err());
    assert_eq!(Some(Status::Forbidden), deploy(&config, "app", &input("nobody", "s1")).err());
    assert_eq!(Some(Status::Forbidden), deploy(&config, "missing", &input("travis", "s1")).err());

    let job = deploy(&config, "app", &input("travis", "s1")).ok().unwrap().with_id(Ok(3)).unwrap();
    assert_eq!(Job::new(3, "app".into(), Trigger::Webhook { token: "travis".into() }), job);
    assert_eq!(DeployOutput { queued: true }, DeployOutput::new());
}

fn is_url_safe(text: &str) -> bool {
    text.chars().all(|c| c.is_ascii_alphanumeric() || c == '_' || c == '-')
}

#[test]
fn secrets_are_url_safe_and_of_the_asked_length() {
    let secret = gen_secret();
    assert_eq!(21, secret.chars().count());
    assert!(is_url_safe(&secret));

    for len in [0usize, 1, 6, 48, 200].iter() {
        let secret = generate(*len);
        assert_eq!(*len, secret.chars().count());
        assert!(is_url_safe(&secret));
    }
    // not a constant
    assert_ne!(generate(48), generate(48));
}

#[test]
fn the_webhook_token_admits_itself_only() {
    let token = TelegramWebhookToken::new();
    assert_eq!(48, token.value().len());
    assert!(is_url_safe(token.value()));
    let own = token.value().to_string();
    assert!(token.admits(&own));
    assert!(!token.admits(""));
    assert!(!token.admits(&own[1..]));
    assert!(!token.admits(&format!("{}x", own)));

    assert_eq!(
        format!("https://toby.example.org:8629/hooks/telegram/{}", own),
        token.public_url("toby.example.org", 8629)
    );
}

#[test]
fn the_webhook_is_registered_where_telegram_and_a_name_are_configured() {
    let token = TelegramWebhookToken::new();
    let config = |telegram: bool, domain_name: Option<&str>| {
        Config::new(
            MainConfig {
                telegram: if telegram {
                    Some(TelegramConfig { token: "123:abc".into(), send_log: SendLog::Never })
                } else {
                    None
                },
                domain_name: domain_name.map(|name| name.to_string()),
                listen: ListenConfig { port: 8443, address: "0.0.0.0".into() },
                ..MainConfig::default()
            },
            Tokens::new(),
            Projects::new(),
        )
    };

    assert_eq!(None, token.registration(&config(false, None)));
    assert_eq!(None, token.registration(&config(true, None)));
    assert_eq!(None, token.registration(&config(false, Some("toby.example.org"))));
    assert_eq!(
        Some(format!("https://toby.example.org:8443/hooks/telegram/{}", token.value())),
        token.registration(&config(true, Some("toby.example.org")))
    );
}
