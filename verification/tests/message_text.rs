use tele::common::{ChatId, MessageId};
use tele::error::Error;
use tele::message::content::PollKind;
use tele::message::requests::{
    validate_correct_option_ids, validate_message_text, validate_optional_caption,
    validate_location_limits, validate_poll_country_codes, validate_poll_description,
    validate_poll_explanation,
    EditMessageTextRequest, SendMessageRequest, MAX_CAPTION_CHARS, MAX_MESSAGE_TEXT_CHARS,
    MAX_POLL_DESCRIPTION_CHARS, MAX_POLL_EXPLANATION_CHARS,
};

fn reason(result: Result<(), Error>) -> String {
    match result {
        Err(Error::InvalidRequest { reason }) => reason,
        Ok(()) => panic!("expected a refusal"),
    }
}

#[test]
fn validates_send_message_text_bounds() {
    assert!(SendMessageRequest::new(ChatId::from(1_i64), "hello".to_owned()).is_ok());
    assert!(SendMessageRequest::new(ChatId::from(1_i64), "hello\nworld\tagain".to_owned()).is_ok());

    for text in ["", "   ", "hello\u{0000}", "hello\u{0007}"] {
        assert!(matches!(
            SendMessageRequest::new(ChatId::from(1_i64), text.to_owned()),
            Err(Error::InvalidRequest { .. })
        ));
    }

    let too_long = "a".repeat(MAX_MESSAGE_TEXT_CHARS + 1);
    assert!(matches!(
        SendMessageRequest::new(ChatId::from(1_i64), too_long),
        Err(Error::InvalidRequest { .. })
    ));
}

#[test]
fn validates_edit_message_text_bounds() {
    assert!(
        EditMessageTextRequest::for_chat_message(ChatId::from(1_i64), MessageId(1), "hello".to_owned())
            .is_ok()
    );

    let too_long = "a".repeat(MAX_MESSAGE_TEXT_CHARS + 1);
    assert!(matches!(
        EditMessageTextRequest::for_chat_message(ChatId::from(1_i64), MessageId(1), too_long),
        Err(Error::InvalidRequest { .. })
    ));
}

#[test]
fn send_message_request_starts_without_options() {
    let request = SendMessageRequest::new(ChatId::from(7_i64), "hi".to_owned()).unwrap();
    assert_eq!(request.chat_id, ChatId::from(7_i64));
    assert_eq!(request.text, "hi");
    assert!(request.parse_mode.is_none());
    assert!(request.entities.is_none());
    assert!(request.business_connection_id.is_none());
    let request = request.business_connection_id("conn".to_owned());
    assert_eq!(request.business_connection_id.as_deref(), Some("conn"));
}

#[test]
fn send_message_reports_the_chat_id_before_the_text() {
    let err = SendMessageRequest::new(ChatId::from(0_i64), String::new()).unwrap_err();
    let Error::InvalidRequest { reason } = err;
    assert!(reason.contains("chat_id"));
}

#[test]
fn message_text_reasons_name_the_method() {
    assert_eq!(
        reason(validate_message_text("sendMessage", "  ")),
        "sendMessage requires non-empty text"
    );
    assert_eq!(
        reason(validate_message_text("editMessageText", &"b".repeat(MAX_MESSAGE_TEXT_CHARS + 1))),
        "editMessageText text exceeds 4096 characters"
    );
    assert_eq!(
        reason(validate_message_text("sendMessage", "a\u{0001}")),
        "sendMessage text must not contain non-whitespace control characters"
    );
    assert!(validate_message_text("sendMessage", &"c".repeat(MAX_MESSAGE_TEXT_CHARS)).is_ok());
}

#[test]
fn edit_message_text_for_inline_message() {
    let request =
        EditMessageTextRequest::for_inline_message("inline-1".to_owned(), "text".to_owned()).unwrap();
    assert_eq!(request.inline_message_id.as_deref(), Some("inline-1"));
    assert!(request.chat_id.is_none());
    assert!(request.message_id.is_none());
    assert!(EditMessageTextRequest::for_inline_message(" ".to_owned(), "text".to_owned()).is_err());
    assert!(
        EditMessageTextRequest::for_chat_message(ChatId::from(1_i64), MessageId(0), "x".to_owned())
            .is_err()
    );
}

#[test]
fn captions_are_bounded() {
    assert!(validate_optional_caption(None).is_ok());
    assert!(validate_optional_caption(Some("")).is_ok());
    assert!(validate_optional_caption(Some(&"a".repeat(MAX_CAPTION_CHARS))).is_ok());
    assert_eq!(
        reason(validate_optional_caption(Some(&"a".repeat(MAX_CAPTION_CHARS + 1)))),
        "caption exceeds 1024 characters"
    );
    assert_eq!(
        reason(validate_optional_caption(Some("x\u{0007}"))),
        "caption must not contain non-whitespace control characters"
    );
}

#[test]
fn quiz_correct_answers_are_checked() {
    let quiz = Some(PollKind::Quiz);
    assert!(validate_correct_option_ids(&quiz, &Some(vec![0, 2]), 3).is_ok());
    assert_eq!(
        reason(validate_correct_option_ids(&quiz, &Some(vec![2]), 2)),
        "correct_option_ids must point to existing poll options"
    );
    assert_eq!(
        reason(validate_correct_option_ids(&quiz, &Some(vec![1, 0]), 3)),
        "correct_option_ids must be strictly increasing"
    );
    assert_eq!(
        reason(validate_correct_option_ids(&quiz, &Some(vec![1, 1]), 3)),
        "correct_option_ids must be strictly increasing"
    );
    assert_eq!(
        reason(validate_correct_option_ids(&quiz, &None, 3)),
        "quiz polls require at least one correct_option_ids entry"
    );
    assert_eq!(
        reason(validate_correct_option_ids(&Some(PollKind::Regular), &Some(vec![0]), 3)),
        "correct_option_ids can only be used for quiz polls"
    );
    assert!(validate_correct_option_ids(&None, &None, 0).is_ok());
    assert!(validate_correct_option_ids(&None, &Some(vec![]), 2).is_ok());
}

#[test]
fn poll_explanations_are_bounded() {
    assert!(validate_poll_explanation(None).is_ok());
    assert!(validate_poll_explanation(Some("a\nb\nc")).is_ok());
    assert_eq!(
        reason(validate_poll_explanation(Some("a\nb\nc\nd"))),
        "poll explanation must contain at most 2 line feeds"
    );
    assert_eq!(
        reason(validate_poll_explanation(Some(&"e".repeat(MAX_POLL_EXPLANATION_CHARS + 1)))),
        "poll explanation exceeds 200 characters"
    );
    assert_eq!(
        reason(validate_poll_explanation(Some("bell\u{0007}"))),
        "poll explanation must not contain non-whitespace control characters"
    );
}

#[test]
fn poll_descriptions_are_bounded() {
    assert!(validate_poll_description(None).is_ok());
    assert!(validate_poll_description(Some(&"d".repeat(MAX_POLL_DESCRIPTION_CHARS))).is_ok());
    assert_eq!(
        reason(validate_poll_description(Some(&"d".repeat(MAX_POLL_DESCRIPTION_CHARS + 1)))),
        "poll description exceeds 1024 characters"
    );
    assert_eq!(
        reason(validate_poll_description(Some("\u{0000}"))),
        "poll description must not contain non-whitespace control characters"
    );
}

#[test]
fn poll_country_codes_are_two_uppercase_letters() {
    assert!(validate_poll_country_codes(&None).is_ok());
    assert!(validate_poll_country_codes(&Some(vec!["US".to_owned(), "DE".to_owned()])).is_ok());
    assert_eq!(
        reason(validate_poll_country_codes(&Some(vec!["usa".to_owned()]))),
        "poll country codes must be two uppercase ASCII letters"
    );
    assert_eq!(
        reason(validate_poll_country_codes(&Some(vec!["us".to_owned()]))),
        "poll country codes must be two uppercase ASCII letters"
    );
    let many: Vec<String> = (0..13).map(|_| "FR".to_owned()).collect();
    assert_eq!(
        reason(validate_poll_country_codes(&Some(many))),
        "sendPoll accepts at most 12 country codes"
    );
}

#[test]
fn location_limits_are_checked_in_order() {
    assert!(validate_location_limits(None, None, None).is_ok());
    assert!(validate_location_limits(Some(60), Some(1), Some(1)).is_ok());
    assert!(validate_location_limits(Some(86400), Some(360), Some(100000)).is_ok());
    assert!(validate_location_limits(Some(0x7FFF_FFFF), None, None).is_ok());
    assert_eq!(
        reason(validate_location_limits(Some(59), Some(0), None)),
        "live_period must be 60-86400 seconds or 2147483647"
    );
    assert_eq!(reason(validate_location_limits(None, Some(361), Some(0))), "heading must be 1-360 degrees");
    assert_eq!(
        reason(validate_location_limits(None, None, Some(100001))),
        "proximity_alert_radius must be 1-100000 meters"
    );
}
