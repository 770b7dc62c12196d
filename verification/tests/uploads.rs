use tele::chat::ChatMemberStatus;
use tele::chat_member::ChatMemberPayload;
use tele::common::{ChatId, MessageId};
use tele::error::Error;
use tele::json::JsonValue;
use tele::message::requests::{
    EditMessageReplyMarkupRequest, InputMediaGroupItem, InputMediaPhoto, InputMediaVideo,
    SendAudioRequest, SendMediaGroupRequest, SendMessageRequest, SendPhotoRequest,
    SendVideoNoteRequest, SendVoiceRequest, StopPollRequest,
};
use tele::message::uploads::{validate_attach_upload_parts, validate_media_group_upload_parts};

fn reason(result: Result<(), Error>) -> String {
    match result {
        Err(Error::InvalidRequest { reason }) => reason,
        Ok(()) => panic!("expected a refusal"),
    }
}

fn names(list: &[&str]) -> Vec<String> {
    list.iter().map(|s| s.to_string()).collect()
}

#[test]
fn attach_parts_must_match_references() {
    let refs = vec![Some("attach://thumb0".to_owned())];
    assert_eq!(
        reason(validate_attach_upload_parts("sendDocument", &refs, &[])),
        "missing multipart file part for attach://thumb0"
    );
    assert!(validate_attach_upload_parts("sendDocument", &refs, &names(&["thumb0"])).is_ok());
    assert_eq!(
        reason(validate_attach_upload_parts("sendDocument", &refs, &names(&["thumb0", "extra"]))),
        "multipart file part `extra` is not referenced by attach://"
    );
    assert_eq!(
        reason(validate_attach_upload_parts("sendDocument", &refs, &names(&["extra"]))),
        "missing multipart file part for attach://thumb0"
    );
    assert_eq!(
        reason(validate_attach_upload_parts("sendDocument", &refs, &names(&["thumb0", "thumb0"]))),
        "duplicate multipart file field `thumb0`"
    );
}

#[test]
fn parts_without_references_are_refused() {
    let none: Vec<Option<String>> = vec![None, Some("file-id".to_owned())];
    assert!(validate_attach_upload_parts("sendAudio", &none, &[]).is_ok());
    assert_eq!(
        reason(validate_attach_upload_parts("sendAudio", &none, &names(&["thumb0"]))),
        "sendAudio upload has file parts that are not referenced by attach://"
    );
}

#[test]
fn the_least_mismatch_is_reported() {
    let refs = vec![Some("attach://b".to_owned()), Some("attach://a".to_owned())];
    assert_eq!(
        reason(validate_attach_upload_parts("sendVideo", &refs, &[names(&["c"])[0].clone()])),
        "missing multipart file part for attach://a"
    );
    let one = vec![Some("attach://a".to_owned())];
    assert_eq!(
        reason(validate_attach_upload_parts("sendVideo", &one, &names(&["z", "a", "m"]))),
        "multipart file part `m` is not referenced by attach://"
    );
    assert_eq!(
        reason(validate_attach_upload_parts("sendVideo", &one, &names(&["a", "x", "y", "x", "y"]))),
        "duplicate multipart file field `x`"
    );
}

fn upload_group() -> SendMediaGroupRequest {
    SendMediaGroupRequest::new(
        ChatId::from(1_i64),
        vec![
            InputMediaGroupItem::from(InputMediaPhoto::new("attach://photo0".to_owned())),
            InputMediaGroupItem::from(InputMediaVideo::new("video-file-id".to_owned())),
        ],
    )
    .unwrap()
}

#[test]
fn media_group_uploads_match_their_parts() {
    let group = upload_group();
    assert!(group.validate_upload(&names(&["photo0"])).is_ok());
    assert_eq!(
        reason(group.validate_upload(&[])),
        "sendMediaGroup upload requires at least one file part"
    );
    assert_eq!(
        reason(group.validate_upload(&names(&["unused"]))),
        "missing multipart file part for attach://photo0"
    );

    let thumbnails = SendMediaGroupRequest::new(
        ChatId::from(1_i64),
        vec![
            InputMediaGroupItem::from(InputMediaPhoto::new("photo-file-id".to_owned())),
            InputMediaGroupItem::from(
                InputMediaVideo::new("video-file-id".to_owned()).thumbnail("attach://thumb0".to_owned()),
            ),
        ],
    )
    .unwrap();
    assert!(thumbnails.validate().is_err());
    assert!(thumbnails.validate_upload(&names(&["thumb0"])).is_ok());

    let plain = SendMediaGroupRequest::new(
        ChatId::from(1_i64),
        vec![
            InputMediaGroupItem::from(InputMediaPhoto::new("a".to_owned())),
            InputMediaGroupItem::from(InputMediaPhoto::new("b".to_owned())),
        ],
    )
    .unwrap();
    assert_eq!(
        reason(validate_media_group_upload_parts(&plain.media, &names(&["photo0"]))),
        "sendMediaGroup upload requires at least one attach:// media or thumbnail reference"
    );
}

#[test]
fn requests_carry_reply_markup() {
    let markup = JsonValue::Object(vec![("inline_keyboard".to_owned(), JsonValue::Array(vec![]))]);
    let edit = EditMessageReplyMarkupRequest {
        chat_id: Some(ChatId::from(1_i64)),
        message_id: Some(MessageId(5)),
        inline_message_id: None,
        reply_markup: None,
    }
    .reply_markup(markup);
    assert!(matches!(&edit.reply_markup, Some(JsonValue::Object(entries)) if entries.len() == 1));
    assert!(edit.validate().is_ok());

    let stop = StopPollRequest::new(ChatId::from(1_i64), MessageId(5));
    assert!(stop.reply_markup.is_none());

    let send = SendMessageRequest::new(ChatId::from(1_i64), "hi".to_owned())
        .unwrap()
        .reply_parameters(JsonValue::Object(vec![("message_id".to_owned(), JsonValue::Int(3))]))
        .link_preview_options(JsonValue::Object(vec![("is_disabled".to_owned(), JsonValue::Bool(true))]));
    assert!(send.reply_parameters.is_some());
    assert!(send.link_preview_options.is_some());
    assert!(send.reply_markup.is_none());
    assert!(send.validate().is_ok());
}

#[test]
fn chat_member_status_picks_the_variant() {
    let value = JsonValue::Object(vec![
        ("status".to_owned(), JsonValue::Text("kicked".to_owned())),
        ("until_date".to_owned(), JsonValue::Int(0)),
    ]);
    match ChatMemberPayload::of_value(&value) {
        ChatMemberPayload::Known(ChatMemberStatus::Banned, JsonValue::Object(rest)) => {
            assert_eq!(rest.len(), 1);
            assert_eq!(rest[0].0, "until_date");
        }
        other => panic!("unexpected {other:?}"),
    }
    let odd = JsonValue::Object(vec![("status".to_owned(), JsonValue::Text("owner".to_owned()))]);
    assert!(matches!(ChatMemberPayload::of_value(&odd), ChatMemberPayload::Unknown(v) if v == odd));
    let untagged = JsonValue::Object(vec![]);
    assert!(matches!(ChatMemberPayload::of_value(&untagged), ChatMemberPayload::Unknown(_)));
}

#[test]
fn uploads_leave_the_file_field_out() {
    let photo = SendPhotoRequest::new(ChatId::from(1_i64), "photo-file-id".to_owned());
    assert_eq!(reason(photo.validate_upload()), "photo must be omitted for multipart upload requests");
    assert!(SendPhotoRequest::for_upload(ChatId::from(1_i64)).validate_upload().is_ok());

    let mut voice = SendVoiceRequest::for_upload(ChatId::from(1_i64));
    voice.duration = Some(0);
    assert_eq!(reason(voice.validate_upload()), "duration must be greater than 0");

    let mut audio = SendAudioRequest::for_upload(ChatId::from(1_i64));
    assert!(audio.validate_upload_parts(&[]).is_ok());
    assert_eq!(
        reason(audio.validate_upload_parts(&names(&["a"]))),
        "sendAudio upload has file parts that are not referenced by attach://"
    );
    audio.thumbnail = Some("attach://t".to_owned());
    assert!(audio.validate_upload_parts(&names(&["t"])).is_ok());

    let note = SendVideoNoteRequest::new(ChatId::from(1_i64), "note-id".to_owned());
    assert_eq!(
        reason(note.validate_upload_parts(&[])),
        "video_note must be omitted for multipart upload requests"
    );
}
