use tele::common::{ChatId, MessageId};
use tele::error::Error;
use tele::message::requests::{
    ChatAction, CopyMessagesRequest, DeleteMessageRequest, DeleteMessagesRequest,
    EditMessageReplyMarkupRequest, EditMessageTextRequest, ForwardMessageRequest, SendChatActionRequest,
    SendContactRequest, SendDiceRequest, SendVideoNoteRequest, StopMessageLiveLocationRequest,
    StopPollRequest,
};

fn reason(result: Result<(), Error>) -> String {
    match result {
        Err(Error::InvalidRequest { reason }) => reason,
        Ok(()) => panic!("expected a refusal"),
    }
}

#[test]
fn validates_chat_id_on_message_requests() {
    let forward = ForwardMessageRequest::new(ChatId::from(0_i64), ChatId::from(1_i64), MessageId(1));
    assert!(matches!(forward.validate(), Err(Error::InvalidRequest { .. })));

    let forward = ForwardMessageRequest::new(ChatId::from(1_i64), ChatId::from(1_i64), MessageId(0));
    assert!(matches!(forward.validate(), Err(Error::InvalidRequest { .. })));

    assert!(matches!(
        CopyMessagesRequest::new(ChatId::from(1_i64), ChatId::from("channel"), vec![MessageId(1)]),
        Err(Error::InvalidRequest { .. })
    ));
    assert!(matches!(
        CopyMessagesRequest::new(ChatId::from(1_i64), ChatId::from(1_i64), vec![MessageId(0)]),
        Err(Error::InvalidRequest { .. })
    ));

    let delete = DeleteMessageRequest::new(ChatId::from("channel"), MessageId(1));
    assert!(matches!(delete.validate(), Err(Error::InvalidRequest { .. })));

    let delete = DeleteMessageRequest::new(ChatId::from(1_i64), MessageId(0));
    assert!(matches!(delete.validate(), Err(Error::InvalidRequest { .. })));

    let action = SendChatActionRequest::new(ChatId::from(0_i64), ChatAction::Typing);
    assert!(matches!(action.validate(), Err(Error::InvalidRequest { .. })));

    assert!(matches!(
        EditMessageTextRequest::for_chat_message(ChatId::from(0_i64), MessageId(1), "hello".to_owned()),
        Err(Error::InvalidRequest { .. })
    ));
    assert!(matches!(
        EditMessageTextRequest::for_chat_message(ChatId::from(1_i64), MessageId(0), "hello".to_owned()),
        Err(Error::InvalidRequest { .. })
    ));
    assert!(matches!(
        EditMessageTextRequest::for_inline_message("bad\nid".to_owned(), "hello".to_owned()),
        Err(Error::InvalidRequest { .. })
    ));

    assert!(DeleteMessageRequest::new(ChatId::from(1_i64), MessageId(1)).validate().is_ok());
    assert!(StopPollRequest::new(ChatId::from("@channel"), MessageId(3)).validate().is_ok());
}

#[test]
fn bulk_message_ids_are_checked_in_order() {
    let ids = |v: &[i64]| v.iter().map(|i| MessageId(*i)).collect::<Vec<_>>();

    let Err(Error::InvalidRequest { reason }) = DeleteMessagesRequest::new(ChatId::from(1_i64), Vec::new()) else {
        panic!("expected a refusal");
    };
    assert_eq!(reason, "deleteMessages requires at least one message id");

    let Err(Error::InvalidRequest { reason }) =
        DeleteMessagesRequest::new(ChatId::from(1_i64), ids(&(1..=101).collect::<Vec<_>>()))
    else {
        panic!("expected a refusal");
    };
    assert_eq!(reason, "deleteMessages accepts at most 100 message ids");

    let Err(Error::InvalidRequest { reason }) =
        DeleteMessagesRequest::new(ChatId::from(1_i64), ids(&[3, 1, 3]))
    else {
        panic!("expected a refusal");
    };
    assert_eq!(reason, "deleteMessages message ids must be unique");

    assert!(DeleteMessagesRequest::new(ChatId::from(1_i64), ids(&[3, 1, 2])).is_ok());

    let Err(Error::InvalidRequest { reason }) =
        CopyMessagesRequest::new(ChatId::from(1_i64), ChatId::from(2_i64), ids(&[3, 1, 2]))
    else {
        panic!("expected a refusal");
    };
    assert_eq!(reason, "copyMessages message ids must be strictly increasing");

    let Err(Error::InvalidRequest { reason }) =
        CopyMessagesRequest::new(ChatId::from(1_i64), ChatId::from(2_i64), ids(&[1, 0, 1]))
    else {
        panic!("expected a refusal");
    };
    assert_eq!(reason, "message_id must be greater than 0");

    let copy = CopyMessagesRequest::new(ChatId::from(1_i64), ChatId::from(2_i64), ids(&[1, 2, 9])).unwrap();
    assert_eq!(copy.message_ids, ids(&[1, 2, 9]));
    assert!(copy.validate().is_ok());
}

#[test]
fn edit_targets_need_exactly_one_form() {
    let both = EditMessageReplyMarkupRequest {
        chat_id: Some(ChatId::from(1_i64)),
        message_id: Some(MessageId(1)),
        inline_message_id: Some("inline-id".to_owned()),
        reply_markup: None,
    };
    assert_eq!(
        reason(both.validate()),
        "method accepts either chat_id with message_id or inline_message_id, not both"
    );

    let partial = StopMessageLiveLocationRequest {
        chat_id: Some(ChatId::from(1_i64)),
        message_id: None,
        inline_message_id: None,
        reply_markup: None,
    };
    assert_eq!(
        reason(partial.validate()),
        "method requires either chat_id with message_id or inline_message_id"
    );

    let bad_inline = StopMessageLiveLocationRequest {
        chat_id: None,
        message_id: None,
        inline_message_id: Some("bad\nid".to_owned()),
        reply_markup: None,
    };
    assert!(matches!(bad_inline.validate(), Err(Error::InvalidRequest { .. })));

    let inline = EditMessageReplyMarkupRequest {
        chat_id: None,
        message_id: None,
        inline_message_id: Some("inline-id".to_owned()),
        reply_markup: None,
    };
    assert!(inline.validate().is_ok());
}

#[test]
fn send_requests_check_their_options() {
    let mut contact = SendContactRequest::new(ChatId::from(1_i64), "+10000000000".to_owned(), "Alice".to_owned());
    assert!(contact.validate().is_ok());
    contact.first_name = " ".to_owned();
    assert_eq!(reason(contact.validate()), "first_name must not be empty");

    let mut dice = SendDiceRequest::new(ChatId::from(1_i64));
    assert!(dice.validate().is_ok());
    dice.message_thread_id = Some(0);
    assert_eq!(reason(dice.validate()), "message_thread_id must be greater than 0");

    let mut note = SendVideoNoteRequest::new(ChatId::from(1_i64), "video-note-file-id".to_owned());
    assert!(note.validate().is_ok());
    note.duration = Some(0);
    assert_eq!(reason(note.validate()), "duration must be greater than 0");

    let upload = SendVideoNoteRequest::for_upload(ChatId::from(1_i64));
    assert_eq!(reason(upload.validate()), "video_note is required");

    let mut thumb = SendVideoNoteRequest::new(ChatId::from(1_i64), "video-note-file-id".to_owned());
    thumb.thumbnail = Some("bad\nthumbnail".to_owned());
    assert_eq!(reason(thumb.validate()), "thumbnail must not contain control characters");
}
