use tele::common::{ChatId, MessageId};
use tele::error::Error;
use tele::message::requests::{
    CopyMessageRequest, EditMessageCaptionRequest, EditMessageTextRequest, InputMedia,
    InputMediaDocument, InputMediaGroupItem, InputMediaPhoto, InputMediaVideo, SendAudioRequest, SendDocumentRequest,
    SendMediaGroupRequest, SendMessageRequest, SendPhotoRequest, SendVideoRequest,
    SendVoiceRequest, MAX_CAPTION_CHARS,
};

fn reason(result: Result<(), Error>) -> String {
    match result {
        Err(Error::InvalidRequest { reason }) => reason,
        Ok(()) => panic!("expected a refusal"),
    }
}

#[test]
fn validates_mutated_message_text_on_send_path() {
    let mut request = SendMessageRequest::new(ChatId::from(1_i64), "hello".to_owned()).unwrap();
    request.text.clear();
    assert!(matches!(request.validate(), Err(Error::InvalidRequest { .. })));
}

#[test]
fn validates_media_requests() {
    let mut photo = SendPhotoRequest::new(ChatId::from(1_i64), "photo-file-id".to_owned());
    photo.caption = Some("a".repeat(MAX_CAPTION_CHARS + 1));
    assert_eq!(reason(photo.validate()), "caption exceeds 1024 characters");

    let empty_photo = SendPhotoRequest::new(ChatId::from(1_i64), String::new());
    assert_eq!(reason(empty_photo.validate()), "photo cannot be empty");
    assert_eq!(reason(SendPhotoRequest::for_upload(ChatId::from(1_i64)).validate()), "photo is required");

    let mut invalid_audio = SendAudioRequest::new(ChatId::from(1_i64), "audio-file-id".to_owned());
    invalid_audio.duration = Some(0);
    assert_eq!(reason(invalid_audio.validate()), "duration must be greater than 0");

    let mut invalid_video = SendVideoRequest::new(ChatId::from(1_i64), "video-file-id".to_owned());
    invalid_video.width = Some(0);
    assert_eq!(reason(invalid_video.validate()), "width must be greater than 0");

    let mut multiline_caption = SendPhotoRequest::new(ChatId::from(1_i64), "photo-file-id".to_owned());
    multiline_caption.caption = Some("hello\nworld".to_owned());
    assert!(multiline_caption.validate().is_ok());

    let mut voice = SendVoiceRequest::new(ChatId::from(0_i64), "voice".to_owned());
    assert_eq!(reason(voice.validate()), "chat_id cannot be 0");
    voice.chat_id = ChatId::from(1_i64);
    assert!(voice.validate().is_ok());

    let input_video = InputMediaVideo::new("video-file-id".to_owned()).thumbnail("thumb-file-id".to_owned());
    assert!(InputMedia::from(input_video).validate().is_ok());
    let invalid_input_document = InputMedia::from(
        InputMediaDocument::new("document-file-id".to_owned()).thumbnail("bad\nthumbnail".to_owned()),
    );
    assert_eq!(reason(invalid_input_document.validate()), "thumbnail must not contain control characters");

    let group = SendMediaGroupRequest::new(
        ChatId::from(1_i64),
        vec![
            InputMediaGroupItem::from(InputMediaPhoto::new("photo-file-id".to_owned())),
            InputMediaGroupItem::from(InputMediaVideo::new("video-file-id".to_owned())),
        ],
    )
    .unwrap();
    assert!(group.validate().is_ok());

    let invalid_group = SendMediaGroupRequest::new(
        ChatId::from(1_i64),
        vec![
            InputMediaGroupItem::from(InputMediaPhoto::new("photo-file-id".to_owned())),
            InputMediaGroupItem::from(InputMediaVideo::new("video-file-id".to_owned()).duration(0)),
        ],
    );
    assert!(matches!(invalid_group, Err(Error::InvalidRequest { reason }) if reason == "duration must be greater than 0"));

    let single = SendMediaGroupRequest::new(
        ChatId::from(1_i64),
        vec![InputMediaGroupItem::from(InputMediaPhoto::new("p".to_owned()))],
    );
    assert!(matches!(single, Err(Error::InvalidRequest { reason }) if reason == "sendMediaGroup requires at least 2 media items"));

    let upload_group = SendMediaGroupRequest::new(
        ChatId::from(1_i64),
        vec![
            InputMediaGroupItem::from(InputMediaPhoto::new("attach://photo0".to_owned())),
            InputMediaGroupItem::from(InputMediaPhoto::new("photo-file-id".to_owned())),
        ],
    )
    .unwrap();
    assert_eq!(
        reason(upload_group.validate()),
        "sendMediaGroup JSON requests cannot use attach:// media or thumbnail references; use send_media_group_upload"
    );
    assert!(upload_group.validate_upload(&["photo0".to_owned()]).is_ok());
    assert!(matches!(upload_group.validate_upload(&[]), Err(Error::InvalidRequest { .. })));
    assert!(matches!(
        upload_group.validate_upload(&["unused".to_owned()]),
        Err(Error::InvalidRequest { .. })
    ));

    let thumbnail_upload_group = SendMediaGroupRequest::new(
        ChatId::from(1_i64),
        vec![
            InputMediaGroupItem::from(InputMediaPhoto::new("photo-file-id".to_owned())),
            InputMediaGroupItem::from(
                InputMediaVideo::new("video-file-id".to_owned()).thumbnail("attach://thumb0".to_owned()),
            ),
        ],
    )
    .unwrap();
    assert!(matches!(thumbnail_upload_group.validate(), Err(Error::InvalidRequest { .. })));
    assert!(matches!(thumbnail_upload_group.validate_upload(&[]), Err(Error::InvalidRequest { .. })));
    assert!(thumbnail_upload_group.validate_upload(&["thumb0".to_owned()]).is_ok());

    let old_style_upload = SendPhotoRequest::new(ChatId::from(1_i64), "photo-file-id".to_owned());
    assert!(matches!(old_style_upload.validate_upload(), Err(Error::InvalidRequest { .. })));

    let mut document_upload = SendDocumentRequest::for_upload(ChatId::from(1_i64));
    document_upload.thumbnail = Some("attach://thumb0".to_owned());
    assert!(matches!(document_upload.validate_upload_parts(&[]), Err(Error::InvalidRequest { .. })));
    assert!(document_upload.validate_upload_parts(&["thumb0".to_owned()]).is_ok());
    assert!(matches!(
        document_upload.validate_upload_parts(&["extra".to_owned()]),
        Err(Error::InvalidRequest { .. })
    ));

    let mut too_many = group;
    while too_many.media.len() < 11 {
        too_many.media.push(InputMediaGroupItem::from(InputMediaPhoto::new("p".to_owned())));
    }
    assert_eq!(reason(too_many.validate()), "sendMediaGroup requires 2-10 media items");
}

#[test]
fn edits_and_copies_check_their_targets_and_captions() {
    let mut edit = EditMessageTextRequest::for_chat_message(ChatId::from(1_i64), MessageId(1), "hello".to_owned()).unwrap();
    assert!(edit.validate().is_ok());
    edit.message_id = None;
    assert_eq!(reason(edit.validate()), "method requires either chat_id with message_id or inline_message_id");

    let mut inline = EditMessageTextRequest::for_inline_message("inline-id".to_owned(), "hello".to_owned()).unwrap();
    inline.chat_id = Some(ChatId::from(1_i64));
    assert_eq!(
        reason(inline.validate()),
        "method accepts either chat_id with message_id or inline_message_id, not both"
    );

    let caption = EditMessageCaptionRequest {
        chat_id: None,
        message_id: None,
        inline_message_id: Some("bad\nid".to_owned()),
        caption: None,
        parse_mode: None,
        caption_entities: None,
        show_caption_above_media: None,
        reply_markup: None,
    };
    assert!(matches!(caption.validate(), Err(Error::InvalidRequest { .. })));
    let caption = EditMessageCaptionRequest {
        inline_message_id: Some("inline-id".to_owned()),
        caption: Some("bell\u{0007}".to_owned()),
        ..caption
    };
    assert_eq!(reason(caption.validate()), "caption must not contain non-whitespace control characters");

    let mut copy = CopyMessageRequest::new(ChatId::from(1_i64), ChatId::from(2_i64), MessageId(3));
    assert!(copy.validate().is_ok());
    copy.message_id = MessageId(0);
    assert!(matches!(copy.validate(), Err(Error::InvalidRequest { .. })));
}
