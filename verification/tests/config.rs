use toby::config::{
    authorize, Config, Forbidden, ListenConfig, MainConfig, Project, Projects, Script, SendLog,
    TlsConfig, Token, Tokens, DEFAULT_PORT,
};
use toby::table::Table;

fn project() -> Project {
    Project::new(Vec::new(), Table::new())
}

fn app_token() -> Token {
    let mut token = Token::new("s1".into());
    token.grant("app".into());
    token
}

#[test]
fn model_test_should_send_log() {
    assert_eq!(true, SendLog::Always.should_send(true));
    assert_eq!(true, SendLog::Always.should_send(false));
    assert_eq!(true, SendLog::Success.should_send(true));
    assert_eq!(false, SendLog::Success.should_send(false));
    assert_eq!(false, SendLog::Failure.should_send(true));
    assert_eq!(true, SendLog::Failure.should_send(false));
    assert_eq!(false, SendLog::Never.should_send(true));
    assert_eq!(false, SendLog::Never.should_send(false));
}

#[test]
fn config_test_should_send_log() {
    assert_eq!(true, SendLog::Always.should_send(true));
    assert_eq!(true, SendLog::Always.should_send(false));
    assert_eq!(true, SendLog::Success.should_send(true));
    assert_eq!(false, SendLog::Success.should_send(false));
    assert_eq!(false, SendLog::Failure.should_send(true));
    assert_eq!(true, SendLog::Failure.should_send(false));
    assert_eq!(false, SendLog::Never.should_send(true));
    assert_eq!(false, SendLog::Never.should_send(false));
}

#[test]
fn model_test_can_access() {
    let mut token = Token::new("foo_bar_baz".into());

    token.grant("test".into());

    assert_eq!(true, token.can_access("test"));
    assert_eq!(false, token.can_access("lorem_ipsum"));
}

#[test]
fn config_test_can_access() {
    let mut token = Token::new("foo_bar_baz".into());

    token.grant("test".into());

    assert_eq!(true, token.can_access("test"));
    assert_eq!(false, token.can_access("lorem_ipsum"));
}

fn config_with_travis() -> Config {
    let mut tokens = Tokens::new();
    tokens.insert("travis".into(), Token::new("foo".into()));
    Config::new(MainConfig::default(), tokens, Projects::new())
}

#[test]
fn model_test_get_token() {
    let config = config_with_travis();

    assert_eq!(Some(&Token::new("foo".into())), config.get_token("travis"))
}

#[test]
fn config_test_get_token() {
    let config = config_with_travis();

    assert_eq!(Some(&Token::new("foo".into())), config.get_token("travis"));
    assert_eq!(None, config.get_token("jenkins"));
}

#[test]
fn tokens_are_equal_when_secret_and_access_are() {
    let token = |secret: &str, access: &[&str]| {
        let mut token = Token::new(secret.into());
        for project in access.iter() {
            token.grant(project.to_string());
        }
        token
    };

    assert_eq!(token("s", &["a", "b"]), token("s", &["b", "a"]));
    assert_eq!(token("s", &["a", "a"]), token("s", &["a"]));
    assert_ne!(token("s", &["a"]), token("t", &["a"]));
    assert_ne!(token("s", &["a"]), token("s", &["a", "b"]));
    assert_ne!(token("s", &["a", "b"]), token("s", &["a"]));
    assert_ne!(token("s", &["a"]), token("s", &["b"]));
    assert_eq!(token("", &[]), token("", &[]));
}

#[test]
fn model_test_listen_config() {
    let config = Config::new(
        MainConfig {
            listen: ListenConfig { port: 1234, address: "172.16.16.16".into() },
            ..MainConfig::default()
        },
        Tokens::new(),
        Projects::new(),
    );

    assert_eq!(1234, config.port());
    assert_eq!("172.16.16.16", config.address());
}

#[test]
fn config_test_listen_config() {
    let config = Config::new(
        MainConfig {
            listen: ListenConfig { port: 1234, address: "172.16.16.16".into() },
            ..MainConfig::default()
        },
        Tokens::new(),
        Projects::new(),
    );

    assert_eq!(1234, config.port());
    assert_eq!("172.16.16.16", config.address());
}

#[test]
fn the_server_listens_on_every_address_by_default() {
    let config = Config::new(MainConfig::default(), Tokens::new(), Projects::new());

    assert_eq!(8629, config.port());
    assert_eq!(DEFAULT_PORT, config.port());
    assert_eq!("0.0.0.0", config.address());
    assert_eq!(None, config.main.domain_name);
}

#[test]
fn test_user_group() {
    let config = Config::new(
        MainConfig {
            user: String::from("user"),
            group: String::from("group"),
            ..MainConfig::default()
        },
        Tokens::new(),
        Projects::new(),
    );

    assert_eq!("user", config.user());
    assert_eq!("group", config.group());
}

#[test]
fn default_user_and_group_are_toby() {
    let config = Config::new(MainConfig::default(), Tokens::new(), Projects::new());

    assert_eq!("toby", config.user());
    assert_eq!("toby", config.group());
    assert!(config.tls().is_none());
}

#[test]
fn test_tls_config() {
    let config = Config::new(
        MainConfig {
            tls: Some(TlsConfig::new("cert.pem".into(), "key.pem".into())),
            ..MainConfig::default()
        },
        Tokens::new(),
        Projects::new(),
    );

    assert_eq!(Some("cert.pem"), config.tls().map(|tls| tls.certificate()));

    assert_eq!(Some("key.pem"), config.tls().map(|tls| tls.certificate_key()));
}

#[test]
fn send_log_defaults_to_never() {
    assert_eq!(SendLog::Never, SendLog::default());
}

#[test]
fn token_access_is_a_set() {
    let mut token = Token::new("s".into());
    token.grant("a".into());
    token.grant("b".into());
    token.grant("a".into());

    assert_eq!(2, token.access_len());
    assert_eq!("a", token.access_at(0));
    assert_eq!("b", token.access_at(1));
}

#[test]
fn script_needs_a_program() {
    assert!(Script::new(Vec::new(), false).is_none());

    let script = Script::new(vec!["systemctl".into(), "restart".into(), "dreams".into()], true)
        .unwrap();
    assert_eq!(3, script.command().len());
    assert_eq!("systemctl", script.command()[0]);
    assert!(script.allow_failure());
}

#[test]
fn authorization_scenario() {
    let mut projects = Projects::new();
    projects.insert("app".into(), project());
    let mut tokens = Tokens::new();
    tokens.insert("token".into(), app_token());

    assert_eq!(Some(Forbidden), authorize(&projects, &tokens, "app", "token", "wrong").err());
    assert_eq!(Some(Forbidden), authorize(&projects, &tokens, "other", "token", "s1").err());

    let token = authorize(&projects, &tokens, "app", "token", "s1").unwrap();
    assert_eq!("s1", token.secret());
    assert!(token.can_access("app"));
}

#[test]
fn authorization_rejects_each_failed_check() {
    let mut projects = Projects::new();
    projects.insert("app".into(), project());
    projects.insert("other".into(), project());
    let mut tokens = Tokens::new();
    tokens.insert("token".into(), app_token());

    // unknown project, although the token is right
    assert!(authorize(&projects, &tokens, "missing", "token", "s1").is_err());
    // unknown token
    assert!(authorize(&projects, &tokens, "app", "nobody", "s1").is_err());
    // wrong secret
    assert!(authorize(&projects, &tokens, "app", "token", "s2").is_err());
    assert!(authorize(&projects, &tokens, "app", "token", "").is_err());
    assert!(authorize(&projects, &tokens, "app", "token", "s1 ").is_err());
    // a project that exists, which the token does not open
    assert!(authorize(&projects, &tokens, "other", "token", "s1").is_err());
    // all four checks pass
    assert!(authorize(&projects, &tokens, "app", "token", "s1").is_ok());
}

#[test]
fn config_authorizes_like_the_free_function() {
    let mut projects = Projects::new();
    projects.insert("app".into(), project());
    let mut tokens = Tokens::new();
    tokens.insert("token".into(), app_token());
    let config = Config::new(MainConfig::default(), tokens, projects);

    assert!(config.authorize("app", "token", "s1").is_ok());
    assert_eq!(Some(Forbidden), config.authorize("app", "token", "wrong").err());
}

#[test]
fn a_later_token_replaces_an_earlier_one() {
    let mut tokens = Tokens::new();
    tokens.insert("ci".into(), Token::new("old".into()));
    tokens.insert("ci".into(), Token::new("new".into()));

    assert_eq!("new", tokens.get("ci").unwrap().secret());
}
