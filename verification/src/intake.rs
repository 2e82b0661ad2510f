//! The intake side: who is asking, whether the job is accepted, and what the
//! caller is told.
//!
//! A submission passes three stages in this order. It is authorized, which
//! gives a ticket; the ticket gets an id from the allocator, which gives the
//! job; the job is handed to the worker, which gives the answer. An id is
//! asked for only with a ticket, so that a refused submission uses up no id.

use crate::config::{authorize, authorized, Config, Projects, Token, Tokens};
use crate::counter::AllocationError;
use crate::job::{Job, JobId, JobView, Trigger, TriggerView};
use crate::text::{find_char, position_of, str_eq};
use vstd::prelude::*;
use vstd::string::*;

verus! {

/// What a caller presents: the name of a token and a secret.
pub struct Credentials {
    pub name: Seq<char>,
    pub secret: Seq<char>,
}

/// The name and the secret in the value of an `Authorization` header.
///
/// The value is the word `Token`, one more character, and then
/// `<name>:<secret>`; the secret ends at a second colon if there is one.
pub open spec fn header_credentials(header: Seq<char>) -> Option<Credentials> {
    if header.len() > 6 && header.take(5) == "Token"@ {
        let value = header.skip(6);
        let colon = position_of(value, ':');
        if colon < value.len() {
            let rest = value.skip(colon as int + 1);
            Some(
                Credentials {
                    name: value.take(colon as int),
                    secret: rest.take(position_of(rest, ':') as int),
                },
            )
        } else {
            None
        }
    } else {
        None
    }
}

/// Takes the token's name and the secret out of the value of an
/// `Authorization` header such as `Token travis:s3cret`. `None` for a value
/// of another form.
pub fn parse_authorization_header(header_val: &str) -> (r: Option<(&str, &str)>)
    ensures
        match r {
            Some((name, secret)) => header_credentials(header_val@) == Some(
                Credentials { name: name@, secret: secret@ },
            ),
            None => header_credentials(header_val@) is None,
        },
{
    let n = header_val.unicode_len();
    if n <= 6 {
        return None;
    }
    let scheme = header_val.substring_char(0, 5);
    assert(scheme@ =~= header_val@.take(5));
    if !str_eq(scheme, "Token") {
        return None;
    }
    let value = header_val.substring_char(6, n);
    assert(value@ =~= header_val@.skip(6));
    let colon = match find_char(value, ':') {
        Some(colon) => colon,
        None => {
            return None;
        },
    };
    let m = value.unicode_len();
    let name = value.substring_char(0, colon);
    let rest = value.substring_char(colon + 1, m);
    assert(name@ =~= value@.take(colon as int));
    assert(rest@ =~= value@.skip(colon + 1));
    let secret = match find_char(rest, ':') {
        Some(end) => rest.substring_char(0, end),
        None => rest,
    };
    assert(secret@ =~= rest@.take(position_of(rest@, ':') as int));
    Some((name, secret))
}

/// A token whose secret the caller has shown, with the name it goes by.
pub struct ValidToken<'a> {
    token: &'a Token,
    name: &'a str,
}

impl<'a> ValidToken<'a> {
    /// The token.
    pub closed spec fn spec_token(&self) -> Token {
        *self.token
    }

    /// The name of the token.
    pub closed spec fn spec_name(&self) -> Seq<char> {
        self.name@
    }

    /// The name of the token.
    pub fn token_name(&self) -> (r: &'a str)
        ensures
            r@ == self.spec_name(),
    {
        self.name
    }

    /// The token.
    pub fn token(&self) -> (r: &'a Token)
        ensures
            *r == self.spec_token(),
    {
        self.token
    }

    /// Checks the value of an `Authorization` header against the tokens: the
    /// header names a token, the token exists, and the secret is the token's.
    /// Every other case is the one answer `None`.
    pub fn from_header(tokens: &'a Tokens, header_val: &'a str) -> (r: Option<ValidToken<'a>>)
        ensures
            match r {
                Some(valid) => {
                    &&& header_credentials(header_val@) is Some
                    &&& valid.spec_name() == header_credentials(header_val@)->0.name
                    &&& tokens@.contains_key(valid.spec_name())
                    &&& valid.spec_token() == tokens@[valid.spec_name()]
                    &&& valid.spec_token()@.secret == header_credentials(header_val@)->0.secret
                },
                None => header_credentials(header_val@) matches Some(c) ==> !tokens@.contains_key(
                    c.name,
                ) || tokens@[c.name]@.secret != c.secret,
            },
    {
        match parse_authorization_header(header_val) {
            Some((name, secret)) => match tokens.get(name) {
                Some(token) => {
                    if str_eq(token.secret(), secret) {
                        Some(ValidToken { token, name })
                    } else {
                        None
                    }
                },
                None => None,
            },
            None => None,
        }
    }

    /// Checks a request, which may have no `Authorization` header at all.
    pub fn from_request(config: &'a Config, header: Option<&'a str>) -> (r: Option<ValidToken<'a>>)
        ensures
            header is None ==> r is None,
            r matches Some(valid) ==> {
                &&& header matches Some(value)
                &&& header_credentials(value@) is Some
                &&& valid.spec_name() == header_credentials(value@)->0.name
                &&& config.tokens@.contains_key(valid.spec_name())
                &&& valid.spec_token() == config.tokens@[valid.spec_name()]
                &&& valid.spec_token()@.secret == header_credentials(value@)->0.secret
            },
            r is None ==> (header matches Some(value) ==> (header_credentials(value@) matches Some(
                c,
            ) ==> !config.tokens@.contains_key(c.name) || config.tokens@[c.name]@.secret
                != c.secret)),
    {
        match header {
            Some(value) => ValidToken::from_header(&config.tokens, value),
            None => None,
        }
    }
}

/// Why a submission got no job.
#[derive(Debug, Clone, Copy, PartialEq, Eq, Structural)]
pub enum Status {
    /// The submission is not accepted. Nothing says which check failed.
    Forbidden,
    /// The submission was accepted, but no id could be had or the worker
    /// could not be reached.
    InternalServerError,
}

/// An accepted submission that has no id yet.
pub struct JobTicket {
    project: String,
    trigger: Trigger,
}

impl JobTicket {
    /// The project of the submission.
    pub closed spec fn spec_project(&self) -> Seq<char> {
        self.project@
    }

    /// The trigger of the submission.
    pub closed spec fn spec_trigger(&self) -> TriggerView {
        self.trigger@
    }

    /// The project of the submission: the one whose counter gives the id.
    pub fn project(&self) -> (r: &str)
        ensures
            r@ == self.spec_project(),
    {
        self.project.as_str()
    }

    /// The job of this submission, with the id that the allocator gave. When
    /// the allocator failed there is no job: no id is made up in its place.
    pub fn with_id(self, id: Result<JobId, AllocationError>) -> (r: Result<Job, Status>)
        ensures
            match r {
                Ok(job) => id is Ok && job@ == (JobView {
                    id: id->Ok_0,
                    project: self.spec_project(),
                    trigger: self.spec_trigger(),
                }),
                Err(status) => id is Err && status == Status::InternalServerError,
            },
    {
        match id {
            Ok(id) => Ok(Job::new(id, self.project, self.trigger)),
            Err(_) => Err(Status::InternalServerError),
        }
    }
}

/// The answer to an accepted submission.
#[derive(Debug, Clone, Copy, PartialEq, Eq, Structural)]
pub struct CreateJobResponse {
    pub id: JobId,
}

impl CreateJobResponse {
    /// The answer for the job with this id.
    pub fn new(id: JobId) -> (r: CreateJobResponse)
        ensures
            r.id == id,
    {
        CreateJobResponse { id }
    }
}

/// First stage of a submission made with a valid token: the job is accepted
/// when the project exists and the token opens it, and is `Forbidden` else.
/// The job's trigger is the webhook with the token's name.
pub fn create_job(token: &ValidToken<'_>, projects: &Projects, project_name: &str) -> (r: Result<
    JobTicket,
    Status,
>)
    ensures
        r is Ok <==> projects@.contains_key(project_name@) && token.spec_token()@.access.contains(
            project_name@,
        ),
        r matches Ok(ticket) ==> ticket.spec_project() == project_name@ && ticket.spec_trigger()
            == (TriggerView::Webhook { token: token.spec_name() }),
        r matches Err(status) ==> status == Status::Forbidden,
{
    if projects.contains(project_name) && token.token().can_access(project_name) {
        Ok(
            JobTicket {
                project: String::from_str(project_name),
                trigger: Trigger::Webhook { token: String::from_str(token.token_name()) },
            },
        )
    } else {
        Err(Status::Forbidden)
    }
}

/// First stage of a submission from the command line, which needs no token:
/// the job is accepted when the project exists.
pub fn create_cli_job(projects: &Projects, project_name: &str) -> (r: Result<JobTicket, Status>)
    ensures
        r is Ok <==> projects@.contains_key(project_name@),
        r matches Ok(ticket) ==> ticket.spec_project() == project_name@ && ticket.spec_trigger()
            == TriggerView::Cli,
        r matches Err(status) ==> status == Status::Forbidden,
{
    if projects.contains(project_name) {
        Ok(JobTicket { project: String::from_str(project_name), trigger: Trigger::Cli })
    } else {
        Err(Status::Forbidden)
    }
}

/// Last stage of a submission: the answer, given whether the worker took the
/// job.
pub fn job_response(job: &Job, sent: bool) -> (r: Result<CreateJobResponse, Status>)
    ensures
        r == if sent {
            Ok::<CreateJobResponse, Status>(CreateJobResponse { id: job.id })
        } else {
            Err::<CreateJobResponse, Status>(Status::InternalServerError)
        },
{
    if sent {
        Ok(CreateJobResponse::new(job.id))
    } else {
        Err(Status::InternalServerError)
    }
}

/// What a deployment request carries besides the project: the name of a
/// token and its secret.
#[derive(Debug, PartialEq, Eq)]
pub struct DeployInput {
    pub token: String,
    pub secret: String,
}

/// The answer to an accepted deployment request.
#[derive(Debug, Clone, Copy, PartialEq, Eq, Structural)]
pub struct DeployOutput {
    pub queued: bool,
}

impl DeployOutput {
    /// The answer for a job that is in the queue.
    pub fn new() -> (r: DeployOutput)
        ensures
            r.queued,
    {
        DeployOutput { queued: true }
    }
}

/// First stage of a deployment request: the job is accepted exactly when the
/// project, the token and the secret pass [`authorize`], and is `Forbidden`
/// else. The job's trigger is the webhook with the token's name.
pub fn deploy(config: &Config, project_name: &str, input: &DeployInput) -> (r: Result<
    JobTicket,
    Status,
>)
    ensures
        r is Ok <==> authorized(
            config.projects@,
            config.tokens@,
            project_name@,
            input.token@,
            input.secret@,
        ),
        r matches Ok(ticket) ==> ticket.spec_project() == project_name@ && ticket.spec_trigger()
            == (TriggerView::Webhook { token: input.token@ }),
        r matches Err(status) ==> status == Status::Forbidden,
{
    match authorize(
        &config.projects,
        &config.tokens,
        project_name,
        input.token.as_str(),
        input.secret.as_str(),
    ) {
        Ok(_) => Ok(
            JobTicket {
                project: String::from_str(project_name),
                trigger: Trigger::Webhook { token: input.token.clone() },
            },
        ),
        Err(_) => Err(Status::Forbidden),
    }
}

} // verus!
