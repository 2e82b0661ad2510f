//! The configuration that the rest of the system reads: tokens, projects and
//! their scripts, the notification channels, and the rule that decides whether
//! a submission is accepted.

use crate::table::{NameSet, Table};
use crate::text::str_eq;
use vstd::prelude::*;
use vstd::std_specs::cmp::PartialEqSpecImpl;
use vstd::string::*;

verus! {

/// The port the server listens on when none is configured.
pub const DEFAULT_PORT: u16 = 8629;

/// When a channel gets the full log of a job attached to its last message.
#[derive(Debug, Clone, Copy, PartialEq, Eq, Structural)]
pub enum SendLog {
    Never,
    Always,
    Success,
    Failure,
}

impl SendLog {
    /// Whether the log is attached for a job that ended as `successful` says.
    pub open spec fn spec_should_send(self, successful: bool) -> bool {
        match self {
            SendLog::Never => false,
            SendLog::Always => true,
            SendLog::Success => successful,
            SendLog::Failure => !successful,
        }
    }

    /// Whether the log is attached for a job that ended as `successful` says:
    /// always for `Always`, never for `Never`, and for `Success` and `Failure`
    /// only after a job that ended that way.
    #[verifier::when_used_as_spec(spec_should_send)]
    pub fn should_send(self, successful: bool) -> (r: bool)
        ensures
            r == self.spec_should_send(successful),
    {
        match self {
            SendLog::Always => true,
            SendLog::Success => successful,
            SendLog::Failure => !successful,
            SendLog::Never => false,
        }
    }
}

impl Default for SendLog {
    fn default() -> (r: SendLog)
        ensures
            r == SendLog::Never,
    {
        SendLog::Never
    }
}

/// A credential: a secret and the projects it opens. Two tokens are equal
/// when they have the same secret and open the same projects.
#[derive(Debug)]
pub struct Token {
    secret: String,
    access: NameSet,
}

/// The view of a [`Token`].
pub struct TokenView {
    pub secret: Seq<char>,
    pub access: Set<Seq<char>>,
}

impl View for Token {
    type V = TokenView;

    closed spec fn view(&self) -> TokenView {
        TokenView { secret: self.secret@, access: self.access@ }
    }
}

impl PartialEq for Token {
    fn eq(&self, other: &Token) -> (r: bool) {
        let r = str_eq(self.secret.as_str(), other.secret.as_str()) && self.access == other.access;
        r
    }
}

impl PartialEqSpecImpl for Token {
    open spec fn obeys_eq_spec() -> bool {
        true
    }

    open spec fn eq_spec(&self, other: &Token) -> bool {
        self@ == other@
    }
}

impl Eq for Token {

}

impl Token {
    /// A token with the given secret and access to no project.
    pub fn new(secret: String) -> (r: Token)
        ensures
            r@ == (TokenView { secret: secret@, access: Set::empty() }),
    {
        Token { secret, access: NameSet::new() }
    }

    /// Gives the token access to `project`.
    pub fn grant(&mut self, project: String)
        ensures
            final(self)@ == (TokenView {
                secret: old(self)@.secret,
                access: old(self)@.access.insert(project@),
            }),
    {
        self.access.insert(project);
    }

    /// Whether the token opens `project`: whether that name is in its access
    /// set.
    pub fn can_access(&self, project: &str) -> (r: bool)
        ensures
            r == self@.access.contains(project@),
    {
        self.access.contains(project)
    }

    /// The secret that a caller must present with this token.
    pub fn secret(&self) -> (r: &str)
        ensures
            r@ == self@.secret,
    {
        self.secret.as_str()
    }

    /// The number of projects that the token opens.
    pub fn access_len(&self) -> (n: usize)
        ensures
            n == self.spec_access_len(),
    {
        self.access.len()
    }

    /// The number of projects that the token opens.
    pub closed spec fn spec_access_len(&self) -> nat {
        self.access.spec_len()
    }

    /// The project at position `i` of the access set.
    pub fn access_at(&self, i: usize) -> (r: &str)
        requires
            i < self.spec_access_len(),
        ensures
            self@.access.contains(r@),
    {
        self.access.name_at(i)
    }
}

/// One command of a project, with what happens when it fails.
#[derive(Debug)]
pub struct Script {
    command: Vec<String>,
    allow_failure: bool,
}

/// The view of a [`Script`].
pub struct ScriptView {
    /// The program and its arguments; never empty.
    pub command: Seq<Seq<char>>,
    /// Whether the job goes on after this command has failed.
    pub allow_failure: bool,
}

impl View for Script {
    type V = ScriptView;

    closed spec fn view(&self) -> ScriptView {
        ScriptView {
            command: self.command@.map_values(|s: String| s@),
            allow_failure: self.allow_failure,
        }
    }
}

impl Script {
    #[verifier::type_invariant]
    spec fn has_program(&self) -> bool {
        self.command.len() > 0
    }

    /// The script that runs `command`, or `None` for an empty command, which
    /// names no program.
    pub fn new(command: Vec<String>, allow_failure: bool) -> (r: Option<Script>)
        ensures
            r is Some <==> command.len() > 0,
            r matches Some(s) ==> s@ == (ScriptView {
                command: command@.map_values(|s: String| s@),
                allow_failure,
            }),
    {
        if command.len() == 0 {
            None
        } else {
            Some(Script { command, allow_failure })
        }
    }

    /// The program and its arguments. There is at least the program.
    pub fn command(&self) -> (r: &Vec<String>)
        ensures
            r@.map_values(|s: String| s@) == self@.command,
            r.len() > 0,
    {
        proof {
            use_type_invariant(self);
        }
        &self.command
    }

    /// Whether the job goes on after this command has failed.
    pub fn allow_failure(&self) -> (r: bool)
        ensures
            r == self@.allow_failure,
    {
        self.allow_failure
    }
}

/// A unit of deployment: its scripts, in the order in which they run, and the
/// environment they run in.
#[derive(Debug)]
pub struct Project {
    scripts: Vec<Script>,
    environment: Table<String>,
}

impl Project {
    /// A project with the given scripts and environment.
    pub fn new(scripts: Vec<Script>, environment: Table<String>) -> (r: Project)
        ensures
            r.spec_scripts() == scripts@,
            r.spec_environment() == environment,
    {
        Project { scripts, environment }
    }

    /// The scripts, in the order in which they run.
    pub closed spec fn spec_scripts(&self) -> Seq<Script> {
        self.scripts@
    }

    /// The configured environment.
    pub closed spec fn spec_environment(&self) -> Table<String> {
        self.environment
    }

    /// The allow-failure flag of each script, in order.
    pub open spec fn allow_failure_flags(&self) -> Seq<bool> {
        self.spec_scripts().map_values(|s: Script| s@.allow_failure)
    }

    /// For each script in order, whether it is allowed to fail: what the
    /// runner needs to know of the project.
    pub fn failure_flags(&self) -> (r: Vec<bool>)
        ensures
            r@ == self.allow_failure_flags(),
    {
        let mut flags: Vec<bool> = Vec::new();
        let mut i: usize = 0;
        while i < self.scripts.len()
            invariant
                i <= self.scripts.len(),
                flags@ == self.allow_failure_flags().take(i as int),
            decreases self.scripts.len() - i,
        {
            flags.push(self.scripts[i].allow_failure());
            assert(flags@ =~= self.allow_failure_flags().take(i + 1));
            i = i + 1;
        }
        assert(flags@ =~= self.allow_failure_flags());
        flags
    }

    /// The scripts, in the order in which they run.
    pub fn scripts(&self) -> (r: &Vec<Script>)
        ensures
            r@ == self.spec_scripts(),
    {
        &self.scripts
    }

    /// The configured environment.
    pub fn environment(&self) -> (r: &Table<String>)
        ensures
            *r == self.spec_environment(),
    {
        &self.environment
    }
}

/// The tokens of the configuration, by name.
#[derive(Debug)]
pub struct Tokens {
    table: Table<Token>,
}

impl View for Tokens {
    type V = Map<Seq<char>, Token>;

    closed spec fn view(&self) -> Map<Seq<char>, Token> {
        self.table@
    }
}

impl Tokens {
    /// No tokens.
    pub fn new() -> (r: Tokens)
        ensures
            r@ == Map::<Seq<char>, Token>::empty(),
    {
        Tokens { table: Table::new() }
    }

    /// Stores `token` under `name`, in place of an earlier token of that name.
    pub fn insert(&mut self, name: String, token: Token)
        ensures
            final(self)@ == old(self)@.insert(name@, token),
    {
        self.table.insert(name, token);
    }

    /// The token of that name, if there is one.
    pub fn get(&self, name: &str) -> (r: Option<&Token>)
        ensures
            match r {
                Some(t) => self@.contains_key(name@) && *t == self@[name@],
                None => !self@.contains_key(name@),
            },
    {
        self.table.get(name)
    }
}

/// The projects of the configuration, by name.
#[derive(Debug)]
pub struct Projects {
    table: Table<Project>,
}

impl View for Projects {
    type V = Map<Seq<char>, Project>;

    closed spec fn view(&self) -> Map<Seq<char>, Project> {
        self.table@
    }
}

impl Projects {
    /// No projects.
    pub fn new() -> (r: Projects)
        ensures
            r@ == Map::<Seq<char>, Project>::empty(),
    {
        Projects { table: Table::new() }
    }

    /// Stores `project` under `name`, in place of an earlier project of that
    /// name.
    pub fn insert(&mut self, name: String, project: Project)
        ensures
            final(self)@ == old(self)@.insert(name@, project),
    {
        self.table.insert(name, project);
    }

    /// The project of that name, if there is one.
    pub fn get(&self, name: &str) -> (r: Option<&Project>)
        ensures
            match r {
                Some(p) => self@.contains_key(name@) && *p == self@[name@],
                None => !self@.contains_key(name@),
            },
    {
        self.table.get(name)
    }

    /// Whether there is a project of that name.
    pub fn contains(&self, name: &str) -> (r: bool)
        ensures
            r == self@.contains_key(name@),
    {
        self.table.contains_key(name)
    }
}

/// The single answer to a submission that is not accepted. It does not say
/// which check failed.
#[derive(Debug, Clone, Copy, PartialEq, Eq, Structural)]
pub struct Forbidden;

/// Whether a submission for `project` made with the token `token` and with
/// `secret` is accepted: the project exists, the token exists, the secret is
/// the token's, and the token opens the project.
pub open spec fn authorized(
    projects: Map<Seq<char>, Project>,
    tokens: Map<Seq<char>, Token>,
    project: Seq<char>,
    token: Seq<char>,
    secret: Seq<char>,
) -> bool {
    &&& projects.contains_key(project)
    &&& tokens.contains_key(token)
    &&& tokens[token]@.secret == secret
    &&& tokens[token]@.access.contains(project)
}

/// Decides a submission: the token named `token_name`, if the submission is
/// accepted, and `Forbidden` in every other case.
pub fn authorize<'a>(
    projects: &Projects,
    tokens: &'a Tokens,
    project_name: &str,
    token_name: &str,
    secret: &str,
) -> (r: Result<&'a Token, Forbidden>)
    ensures
        r is Ok <==> authorized(projects@, tokens@, project_name@, token_name@, secret@),
        r matches Ok(t) ==> *t == tokens@[token_name@],
{
    if !projects.contains(project_name) {
        return Err(Forbidden);
    }
    match tokens.get(token_name) {
        Some(token) => {
            if str_eq(token.secret(), secret) && token.can_access(project_name) {
                Ok(token)
            } else {
                Err(Forbidden)
            }
        },
        None => Err(Forbidden),
    }
}

/// Each of the four checks rejects by itself: an unknown project, an unknown
/// token, a wrong secret, or a token without access to the project.
pub proof fn law_each_check_rejects(
    projects: Map<Seq<char>, Project>,
    tokens: Map<Seq<char>, Token>,
    project: Seq<char>,
    token: Seq<char>,
    secret: Seq<char>,
)
    ensures
        !projects.contains_key(project) ==> !authorized(projects, tokens, project, token, secret),
        !tokens.contains_key(token) ==> !authorized(projects, tokens, project, token, secret),
        tokens.contains_key(token) && tokens[token]@.secret != secret ==> !authorized(
            projects,
            tokens,
            project,
            token,
            secret,
        ),
        tokens.contains_key(token) && !tokens[token]@.access.contains(project) ==> !authorized(
            projects,
            tokens,
            project,
            token,
            secret,
        ),
        projects.contains_key(project) && tokens.contains_key(token) && tokens[token]@.secret
            == secret && tokens[token]@.access.contains(project) ==> authorized(
            projects,
            tokens,
            project,
            token,
            secret,
        ),
{
}

/// The certificate and key that the server presents.
#[derive(Debug, PartialEq, Eq)]
pub struct TlsConfig {
    certificate: String,
    certificate_key: String,
}

impl TlsConfig {
    /// The paths of a certificate and of its key.
    pub fn new(certificate: String, certificate_key: String) -> (r: TlsConfig)
        ensures
            r.spec_certificate() == certificate@,
            r.spec_certificate_key() == certificate_key@,
    {
        TlsConfig { certificate, certificate_key }
    }

    /// The path of the certificate.
    pub closed spec fn spec_certificate(&self) -> Seq<char> {
        self.certificate@
    }

    /// The path of the certificate's key.
    pub closed spec fn spec_certificate_key(&self) -> Seq<char> {
        self.certificate_key@
    }

    /// The path of the certificate.
    pub fn certificate(&self) -> (r: &str)
        ensures
            r@ == self.spec_certificate(),
    {
        self.certificate.as_str()
    }

    /// The path of the certificate's key.
    pub fn certificate_key(&self) -> (r: &str)
        ensures
            r@ == self.spec_certificate_key(),
    {
        self.certificate_key.as_str()
    }
}

/// Where the server listens.
#[derive(Debug, PartialEq, Eq)]
pub struct ListenConfig {
    pub port: u16,
    pub address: String,
}

impl Default for ListenConfig {
    fn default() -> (r: ListenConfig)
        ensures
            r.port == DEFAULT_PORT,
            r.address@ == "0.0.0.0"@,
    {
        ListenConfig { port: DEFAULT_PORT, address: String::from_str("0.0.0.0") }
    }
}

/// The Telegram channel: the bot's token and its log policy.
#[derive(Debug, PartialEq, Eq)]
pub struct TelegramConfig {
    pub token: String,
    pub send_log: SendLog,
}

/// The Slack channel: the bot's token and the channel it posts to.
#[derive(Debug, PartialEq, Eq)]
pub struct SlackConfig {
    pub bot_token: String,
    pub channel: String,
}

/// The settings of the daemon itself.
#[derive(Debug, PartialEq, Eq)]
pub struct MainConfig {
    /// The user the worker runs as.
    pub user: String,
    /// The group the worker runs as.
    pub group: String,
    /// The name under which the server is reached from outside, if it has
    /// one.
    pub domain_name: Option<String>,
    pub listen: ListenConfig,
    pub telegram: Option<TelegramConfig>,
    pub slack: Option<SlackConfig>,
    pub tls: Option<TlsConfig>,
}

impl Default for MainConfig {
    fn default() -> (r: MainConfig)
        ensures
            r.user@ == "toby"@,
            r.group@ == "toby"@,
            r.domain_name is None,
            r.listen.port == DEFAULT_PORT,
            r.listen.address@ == "0.0.0.0"@,
            r.telegram is None,
            r.slack is None,
            r.tls is None,
    {
        MainConfig {
            user: String::from_str("toby"),
            group: String::from_str("toby"),
            domain_name: None,
            listen: ListenConfig::default(),
            telegram: None,
            slack: None,
            tls: None,
        }
    }
}

/// The whole configuration: the daemon's settings, the tokens and the
/// projects. It is read once and not changed afterwards.
#[derive(Debug)]
pub struct Config {
    pub main: MainConfig,
    pub tokens: Tokens,
    pub projects: Projects,
}

impl Config {
    /// The configuration made of these three parts.
    pub fn new(main: MainConfig, tokens: Tokens, projects: Projects) -> (r: Config)
        ensures
            r.main == main,
            r.tokens == tokens,
            r.projects == projects,
    {
        Config { main, tokens, projects }
    }

    /// The user the worker runs as.
    pub fn user(&self) -> (r: &str)
        ensures
            r@ == self.main.user@,
    {
        self.main.user.as_str()
    }

    /// The group the worker runs as.
    pub fn group(&self) -> (r: &str)
        ensures
            r@ == self.main.group@,
    {
        self.main.group.as_str()
    }

    /// The token of that name, if there is one.
    pub fn get_token(&self, token: &str) -> (r: Option<&Token>)
        ensures
            match r {
                Some(t) => self.tokens@.contains_key(token@) && *t == self.tokens@[token@],
                None => !self.tokens@.contains_key(token@),
            },
    {
        self.tokens.get(token)
    }

    /// The port the server listens on.
    pub fn port(&self) -> (r: u16)
        ensures
            r == self.main.listen.port,
    {
        self.main.listen.port
    }

    /// The address the server listens on.
    pub fn address(&self) -> (r: &str)
        ensures
            r@ == self.main.listen.address@,
    {
        self.main.listen.address.as_str()
    }

    /// The certificate settings, if TLS is configured.
    pub fn tls(&self) -> (r: Option<&TlsConfig>)
        ensures
            match r {
                Some(t) => self.main.tls == Some(*t),
                None => self.main.tls is None,
            },
    {
        self.main.tls.as_ref()
    }

    /// Decides a submission against this configuration; see [`authorize`].
    pub fn authorize(&self, project_name: &str, token_name: &str, secret: &str) -> (r: Result<
        &Token,
        Forbidden,
    >)
        ensures
            r is Ok <==> authorized(
                self.projects@,
                self.tokens@,
                project_name@,
                token_name@,
                secret@,
            ),
            r matches Ok(t) ==> *t == self.tokens@[token_name@],
    {
        authorize(&self.projects, &self.tokens, project_name, token_name, secret)
    }
}

} // verus!
