//! The part of the Telegram Bot API that the bot speaks: the shapes of what is
//! sent and received, how an answer is read, and how a command is taken out of
//! a message.

use crate::text::{
    find_char, i64_to_string, position_of, signed_decimal, str_eq, trim, trim_start_matches,
    trimmed, without_leading,
};
use vstd::prelude::*;
use vstd::string::*;

verus! {

/// How the text of a message is to be read.
#[derive(Debug, Clone, Copy, PartialEq, Eq, Structural)]
pub enum ParseMode {
    Markdown,
}

/// The kind of a chat.
#[derive(Debug, Clone, Copy, PartialEq, Eq, Structural)]
pub enum ChatType {
    Private,
    Group,
    Supergroup,
    Channel,
}

/// The parameters of `sendMessage`.
#[derive(Debug, Default, PartialEq, Eq)]
pub struct SendMessageParams<'a, 'b> {
    pub chat_id: &'a str,
    pub text: &'b str,
    pub parse_mode: Option<ParseMode>,
    pub disable_web_page_preview: Option<bool>,
    pub disable_notification: Option<bool>,
    pub reply_to_message_id: Option<i64>,
}

impl<'a, 'b> SendMessageParams<'a, 'b> {
    /// A Markdown message with this text for this chat, and nothing else set.
    pub fn markdown(chat_id: &'a str, text: &'b str) -> (r: SendMessageParams<'a, 'b>)
        ensures
            r.chat_id@ == chat_id@,
            r.text@ == text@,
            r.parse_mode == Some(ParseMode::Markdown),
            r.disable_web_page_preview is None,
            r.disable_notification is None,
            r.reply_to_message_id is None,
    {
        SendMessageParams {
            chat_id,
            text,
            parse_mode: Some(ParseMode::Markdown),
            disable_web_page_preview: None,
            disable_notification: None,
            reply_to_message_id: None,
        }
    }
}

/// The parameters of `sendDocument`: a file of this machine for a chat.
#[derive(Debug, PartialEq, Eq)]
pub struct SendDocumentParams {
    pub chat_id: String,
    /// The path of the file to send.
    pub document: String,
}

/// The parameters of `setWebhook`.
#[derive(Debug, Default, PartialEq, Eq)]
pub struct SetWebhookParams<'a, 'b> {
    pub url: &'a str,
    pub max_connections: Option<i64>,
    pub allowed_updates: Option<&'b [&'b str]>,
}

/// The parameters of `getUpdates`.
#[derive(Debug, Default, Clone, Copy, PartialEq, Eq, Structural)]
pub struct GetUpdatesParams {
    pub offset: Option<i64>,
    pub limit: Option<i64>,
    pub timeout: Option<i64>,
}

/// Something that happened in a chat of the bot.
#[derive(Debug)]
pub struct Update {
    pub update_id: i64,
    pub message: Option<Message>,
}

/// A message.
#[derive(Debug)]
pub struct Message {
    pub message_id: i64,
    pub chat: Chat,
    pub text: Option<String>,
    pub entities: Vec<MessageEntity>,
}

/// A chat.
#[derive(Debug)]
pub struct Chat {
    pub id: i64,
    pub chat_type: ChatType,
}

/// A user or a bot.
#[derive(Debug)]
pub struct User {
    pub id: i64,
    pub is_bot: bool,
    pub first_name: String,
    pub last_name: Option<String>,
    pub username: Option<String>,
}

/// A marked part of a message's text: `length` characters from `offset`.
#[derive(Debug)]
pub struct MessageEntity {
    pub entity_type: MessageEntityType,
    pub offset: usize,
    pub length: usize,
    pub url: Option<String>,
    pub user: Option<User>,
}

/// What a marked part of a message is.
#[derive(Debug, Clone, Copy, PartialEq, Eq, Structural)]
pub enum MessageEntityType {
    Mention,
    Hashtag,
    BotCommand,
    Url,
    Email,
    Bold,
    Italic,
    Code,
    Pre,
    TextLink,
    TextMention,
}

/// Why a call of the API failed.
#[derive(Debug, PartialEq, Eq)]
pub enum ApiError {
    /// The request did not get through; the text says why.
    Request(String),
    /// The API refused the call, with this code and description.
    Telegram(i64, String),
    /// The API refused the call without saying why, or accepted it without a
    /// result.
    Incomplete,
}

impl ApiError {
    /// The error as a person reads it.
    pub open spec fn spec_description(&self) -> Seq<char> {
        match self {
            ApiError::Request(reason) => "request error: "@ + reason@,
            ApiError::Telegram(code, description) => "telegram error ("@ + signed_decimal(
                *code as int,
            ) + "): "@ + description@,
            ApiError::Incomplete => "the telegram api returned an incomplete error"@,
        }
    }

    /// The error as a person reads it.
    pub fn description(&self) -> (r: String)
        ensures
            r@ == self.spec_description(),
    {
        match self {
            ApiError::Request(reason) => String::from_str("request error: ").concat(
                reason.as_str(),
            ),
            ApiError::Telegram(code, description) => {
                let digits = i64_to_string(*code);
                let r = String::from_str("telegram error (").concat(digits.as_str()).concat(
                    "): ",
                ).concat(description.as_str());
                assert(r@ =~= self.spec_description());
                r
            },
            ApiError::Incomplete => String::from_str(
                "the telegram api returned an incomplete error",
            ),
        }
    }
}

/// The envelope of every answer of the API.
#[derive(Debug)]
pub struct Response<T> {
    pub ok: bool,
    pub error_code: Option<i32>,
    pub description: Option<String>,
    pub result: Option<T>,
}

impl<T> Response<T> {
    /// What the answer means for the caller.
    pub open spec fn spec_into_result(self) -> Result<T, ApiError> {
        if self.ok {
            match self.result {
                Some(value) => Ok(value),
                None => Err(ApiError::Incomplete),
            }
        } else {
            match (self.error_code, self.description) {
                (Some(code), Some(description)) => Err(
                    ApiError::Telegram(code as i64, description),
                ),
                _ => Err(ApiError::Incomplete),
            }
        }
    }

    /// Reads the answer: the result of an accepted call, the code and the
    /// description of a refused one, and `Incomplete` where the answer lacks
    /// what it should hold.
    pub fn into_result(self) -> (r: Result<T, ApiError>)
        ensures
            r == self.spec_into_result(),
    {
        if self.ok {
            match self.result {
                Some(value) => Ok(value),
                None => Err(ApiError::Incomplete),
            }
        } else {
            match (self.error_code, self.description) {
                (Some(code), Some(description)) => Err(
                    ApiError::Telegram(code as i64, description),
                ),
                _ => Err(ApiError::Incomplete),
            }
        }
    }
}

/// The offset that makes the API forget `updates`: one more than the id of
/// the last of them. `None` when there is nothing to forget, or when there is
/// no id after the last.
pub fn next_offset(updates: &Vec<Update>) -> (r: Option<i64>)
    ensures
        r == if updates.len() > 0 && updates@.last().update_id < i64::MAX {
            Some((updates@.last().update_id + 1) as i64)
        } else {
            None
        },
{
    if updates.len() == 0 {
        None
    } else {
        let last = updates[updates.len() - 1].update_id;
        if last < i64::MAX {
            Some(last + 1)
        } else {
            None
        }
    }
}

/// The first entity that marks a bot command.
pub open spec fn command_entity(entities: Seq<MessageEntity>) -> Option<MessageEntity>
    decreases entities.len(),
{
    if entities.len() == 0 {
        None
    } else if entities[0].entity_type == MessageEntityType::BotCommand {
        Some(entities[0])
    } else {
        command_entity(entities.drop_first())
    }
}

/// The command and its parameters in `text`, for a command entity of `length`
/// characters at `offset`.
///
/// The command is everything up to the end of the entity, without leading
/// slashes and without what follows an `@`; the parameters are what stands
/// after the entity, without the white space around it. There is no command
/// when the entity is empty or reaches beyond the text.
pub open spec fn command_in(text: Seq<char>, offset: nat, length: nat) -> Option<
    (Seq<char>, Seq<char>),
> {
    if length == 0 || offset + length > text.len() {
        None
    } else {
        let head = without_leading(text.take((offset + length) as int), '/');
        Some(
            (
                head.take(position_of(head, '@') as int),
                trimmed(text.skip((offset + length) as int)),
            ),
        )
    }
}

impl Message {
    /// The bot command of the message and its parameters.
    pub open spec fn spec_bot_command(&self) -> Option<(Seq<char>, Seq<char>)> {
        match (self.text, command_entity(self.entities@)) {
            (Some(text), Some(entity)) => command_in(
                text@,
                entity.offset as nat,
                entity.length as nat,
            ),
            _ => None,
        }
    }

    fn first_command_entity(&self) -> (r: Option<&MessageEntity>)
        ensures
            match r {
                Some(e) => command_entity(self.entities@) == Some(*e),
                None => command_entity(self.entities@) is None,
            },
    {
        let mut i: usize = 0;
        assert(self.entities@.skip(0) =~= self.entities@);
        while i < self.entities.len()
            invariant
                i <= self.entities.len(),
                command_entity(self.entities@) == command_entity(self.entities@.skip(i as int)),
            decreases self.entities.len() - i,
        {
            let ghost rest = self.entities@.skip(i as int);
            assert(rest[0] == self.entities@[i as int]);
            assert(rest.drop_first() =~= self.entities@.skip(i + 1));
            if self.entities[i].entity_type == MessageEntityType::BotCommand {
                return Some(&self.entities[i]);
            }
            i = i + 1;
        }
        None
    }

    /// The bot command of the message, such as `deploy` in `/deploy@toby app`,
    /// and its parameters, there `app`. `None` for a message without text,
    /// without a command entity, or whose first command entity is empty or
    /// reaches beyond the text.
    pub fn bot_command(&self) -> (r: Option<(&str, &str)>)
        ensures
            match r {
                Some((command, params)) => self.spec_bot_command() == Some((command@, params@)),
                None => self.spec_bot_command() is None,
            },
    {
        let text = match &self.text {
            Some(text) => text.as_str(),
            None => {
                return None;
            },
        };
        let entity = match self.first_command_entity() {
            Some(entity) => entity,
            None => {
                return None;
            },
        };
        let n = text.unicode_len();
        if entity.length == 0 || entity.offset > n || entity.length > n - entity.offset {
            return None;
        }
        let end = entity.offset + entity.length;
        let head = trim_start_matches(text.substring_char(0, end), '/');
        let command = match find_char(head, '@') {
            Some(at) => head.substring_char(0, at),
            None => head,
        };
        let params = trim(text.substring_char(end, n));
        proof {
            assert(text@.subrange(0, end as int) =~= text@.take(end as int));
            assert(text@.subrange(end as int, n as int) =~= text@.skip(end as int));
            assert(head@.subrange(0, head@.len() as int) =~= head@);
            assert(command@ =~= head@.take(position_of(head@, '@') as int));
        }
        Some((command, params))
    }
}

/// What the setup does with a command that a chat sent.
#[derive(Debug, Clone, Copy, PartialEq, Eq, Structural)]
pub enum SetupStep {
    /// `/start`: every chat with a bot begins with it. Nothing happens.
    Ignore,
    /// `/auth` with the expected token: this chat is the one to notify.
    Authorize,
    /// Anything else: the sender is told that the command is not valid.
    Invalid,
}

/// What the setup does with `command` and its parameters, while it waits for
/// `/auth <token>`.
pub open spec fn spec_setup_step(command: Seq<char>, params: Seq<char>, token: Seq<char>) -> SetupStep {
    if command == "start"@ {
        SetupStep::Ignore
    } else if command == "auth"@ && params == token {
        SetupStep::Authorize
    } else {
        SetupStep::Invalid
    }
}

/// What the setup does with `command` and its parameters, while it waits for
/// `/auth <token>`.
pub fn setup_step(command: &str, params: &str, token: &str) -> (r: SetupStep)
    ensures
        r == spec_setup_step(command@, params@, token@),
{
    if str_eq(command, "start") {
        SetupStep::Ignore
    } else if str_eq(command, "auth") && str_eq(params, token) {
        SetupStep::Authorize
    } else {
        SetupStep::Invalid
    }
}

} // verus!
