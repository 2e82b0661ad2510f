use toby::slack;
use toby::telegram::{
    next_offset, setup_step, ApiError, Chat, ChatType, Message, MessageEntity, MessageEntityType,
    Response, SetupStep, Update,
};

fn entity(entity_type: MessageEntityType, offset: usize, length: usize) -> MessageEntity {
    MessageEntity { entity_type, offset, length, url: None, user: None }
}

fn message(text: Option<&str>, entities: Vec<MessageEntity>) -> Message {
    Message {
        message_id: 1,
        chat: Chat { id: 42, chat_type: ChatType::Private },
        text: text.map(|t| t.to_string()),
        entities,
    }
}

fn command(text: &str, offset: usize, length: usize) -> Message {
    message(Some(text), vec![entity(MessageEntityType::BotCommand, offset, length)])
}

#[test]
fn a_command_and_its_parameters() {
    assert_eq!(Some(("auth", "abc123")), command("/auth abc123", 0, 5).bot_command());
    assert_eq!(Some(("start", "")), command("/start", 0, 6).bot_command());
    assert_eq!(Some(("deploy", "app production")), command("/deploy   app production  ", 0, 7).bot_command());
}

#[test]
fn the_name_of_the_bot_is_cut_off() {
    assert_eq!(Some(("deploy", "app")), command("/deploy@toby_bot app", 0, 16).bot_command());
    assert_eq!(Some(("", "x")), command("/@toby x", 0, 6).bot_command());
}

#[test]
fn the_command_is_the_text_up_to_the_end_of_the_entity() {
    // the entity begins after some text: what stands before it stays
    assert_eq!(Some(("hi /auth", "abc")), command("hi /auth abc", 3, 5).bot_command());
    assert_eq!(Some(("auth", "abc")), command("//auth abc", 1, 5).bot_command());
}

#[test]
fn the_first_command_entity_counts() {
    let m = message(
        Some("#tag /auth abc /start"),
        vec![
            entity(MessageEntityType::Hashtag, 0, 4),
            entity(MessageEntityType::BotCommand, 5, 5),
            entity(MessageEntityType::BotCommand, 15, 6),
        ],
    );
    assert_eq!(Some(("#tag /auth", "abc /start")), m.bot_command());
}

#[test]
fn positions_count_characters() {
    assert_eq!(Some(("é /go", "né")), command("é /go né", 2, 3).bot_command());
}

#[test]
fn messages_without_a_command() {
    assert_eq!(None, message(None, vec![entity(MessageEntityType::BotCommand, 0, 5)]).bot_command());
    assert_eq!(None, message(Some("/auth abc"), Vec::new()).bot_command());
    assert_eq!(
        None,
        message(Some("/auth abc"), vec![entity(MessageEntityType::Mention, 0, 5)]).bot_command()
    );
    // an entity that reaches beyond the text
    assert_eq!(None, command("/auth", 0, 6).bot_command());
    assert_eq!(None, command("/auth", 9, 1).bot_command());
    assert_eq!(None, command("/auth", usize::MAX, 2).bot_command());
    assert_eq!(None, command("/auth", 1, usize::MAX).bot_command());
    // an empty entity
    assert_eq!(None, command("/auth", 0, 0).bot_command());
    // an entity that ends with the text
    assert_eq!(Some(("auth", "")), command("/auth", 0, 5).bot_command());
}

#[test]
fn an_accepted_call_gives_its_result() {
    let response = Response { ok: true, error_code: None, description: None, result: Some(7) };
    assert_eq!(Ok(7), response.into_result());
}

#[test]
fn a_refused_call_gives_its_error() {
    let response: Response<u8> = Response {
        ok: false,
        error_code: Some(401),
        description: Some("Unauthorized".into()),
        result: None,
    };
    assert_eq!(Err(ApiError::Telegram(401, "Unauthorized".into())), response.into_result());

    let response: Response<u8> =
        Response { ok: false, error_code: Some(401), description: None, result: Some(1) };
    assert_eq!(Err(ApiError::Incomplete), response.into_result());

    let response: Response<u8> =
        Response { ok: false, error_code: None, description: Some("x".into()), result: None };
    assert_eq!(Err(ApiError::Incomplete), response.into_result());

    let response: Response<u8> =
        Response { ok: true, error_code: None, description: None, result: None };
    assert_eq!(Err(ApiError::Incomplete), response.into_result());
}

#[test]
fn slack_answers() {
    assert_eq!(Ok(()), slack::Response { ok: true, error: None }.into_result());
    assert_eq!(Ok(()), slack::Response { ok: true, error: Some("ignored".into()) }.into_result());
    assert_eq!(
        Err(slack::ApiError::Slack("channel_not_found".into())),
        slack::Response { ok: false, error: Some("channel_not_found".into()) }.into_result()
    );
    assert_eq!(
        Err(slack::ApiError::Incomplete),
        slack::Response { ok: false, error: None }.into_result()
    );
}

#[test]
fn the_next_offset_follows_the_last_update() {
    let update = |update_id: i64| Update { update_id, message: None };
    assert_eq!(None, next_offset(&Vec::new()));
    assert_eq!(Some(8), next_offset(&vec![update(7)]));
    assert_eq!(Some(4), next_offset(&vec![update(9), update(3)]));
    assert_eq!(Some(0), next_offset(&vec![update(-1)]));
    assert_eq!(None, next_offset(&vec![update(i64::MAX)]));
}

#[test]
fn the_setup_waits_for_the_token() {
    assert_eq!(SetupStep::Ignore, setup_step("start", "", "abc123"));
    assert_eq!(SetupStep::Ignore, setup_step("start", "abc123", "abc123"));
    assert_eq!(SetupStep::Authorize, setup_step("auth", "abc123", "abc123"));
    assert_eq!(SetupStep::Invalid, setup_step("auth", "abc124", "abc123"));
    assert_eq!(SetupStep::Invalid, setup_step("auth", "", "abc123"));
    assert_eq!(SetupStep::Invalid, setup_step("deploy", "abc123", "abc123"));
    assert_eq!(SetupStep::Invalid, setup_step("", "abc123", "abc123"));
}

#[test]
fn api_errors_read_as_in_the_log() {
    assert_eq!("request error: timed out", ApiError::Request("timed out".into()).description());
    assert_eq!(
        "telegram error (401): Unauthorized",
        ApiError::Telegram(401, "Unauthorized".into()).description()
    );
    assert_eq!(
        "telegram error (-3): odd",
        ApiError::Telegram(-3, "odd".into()).description()
    );
    assert_eq!(
        "the telegram api returned an incomplete error",
        ApiError::Incomplete.description()
    );
    assert_eq!(
        "request error: timed out",
        slack::ApiError::Request("timed out".into()).description()
    );
    assert_eq!(
        "slack error: channel_not_found",
        slack::ApiError::Slack("channel_not_found".into()).description()
    );
    assert_eq!(
        "the slack api returned an incomplete error",
        slack::ApiError::Incomplete.description()
    );
}
