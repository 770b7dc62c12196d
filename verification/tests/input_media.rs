use tele::common::{ChatId, MessageId, ParseMode};
use tele::error::Error;
use tele::message::requests::{
    InputMedia, InputMediaAnimation, InputMediaAudio, InputMediaDocument, InputMediaGroupItem,
    InputMediaPhoto, InputMediaVideo, InputPollOption, validate_poll_option, CopyMessageRequest,
    SendAnimationRequest, SendAudioRequest, SendDocumentRequest, SendPhotoRequest,
    SendVideoRequest, SendVoiceRequest,
};

#[test]
fn input_media_builders_set_each_field() {
    let photo = InputMediaPhoto::new("photo-id".to_owned())
        .caption("look".to_owned())
        .parse_mode(ParseMode::Html)
        .has_spoiler(true);
    assert_eq!(photo.media, "photo-id");
    assert_eq!(photo.caption.as_deref(), Some("look"));
    assert_eq!(photo.parse_mode, Some(ParseMode::Html));
    assert_eq!(photo.has_spoiler, Some(true));
    assert!(photo.caption_entities.is_none());
    assert_eq!(photo.has_spoiler(false).has_spoiler, None);

    let video = InputMediaVideo::new("video-id".to_owned())
        .thumbnail("thumb".to_owned())
        .width(640)
        .height(480)
        .duration(12)
        .supports_streaming(true);
    assert_eq!(video.thumbnail.as_deref(), Some("thumb"));
    assert_eq!((video.width, video.height, video.duration), (Some(640), Some(480), Some(12)));
    assert_eq!(video.supports_streaming, Some(true));
    assert_eq!(video.has_spoiler, None);

    let audio = InputMediaAudio::new("audio-id".to_owned())
        .performer("band".to_owned())
        .title("song".to_owned());
    assert_eq!(audio.performer.as_deref(), Some("band"));
    assert_eq!(audio.title.as_deref(), Some("song"));

    let document = InputMediaDocument::new("doc-id".to_owned()).disable_content_type_detection(true);
    assert_eq!(document.disable_content_type_detection, Some(true));
    assert_eq!(
        InputMediaDocument::new("doc-id".to_owned())
            .disable_content_type_detection(false)
            .disable_content_type_detection,
        None
    );
}

#[test]
fn media_group_items_exclude_animations() {
    let item = InputMediaGroupItem::from_media(InputMedia::from(InputMediaPhoto::new("p".to_owned())))
        .expect("a photo can be grouped");
    assert!(matches!(item, InputMediaGroupItem::Photo(_)));
    let media = InputMedia::from(item);
    assert_eq!(media.media_type(), "photo");

    match InputMediaGroupItem::from_media(InputMedia::from(InputMediaAnimation::new("a".to_owned()))) {
        Err(Error::InvalidRequest { reason }) => {
            assert_eq!(reason, "sendMediaGroup does not support animation media")
        }
        Ok(_) => panic!("an animation cannot be grouped"),
    }

    assert_eq!(InputMedia::from(InputMediaAudio::new("x".to_owned())).media_type(), "audio");
    assert_eq!(
        InputMedia::from(InputMediaGroupItem::from(InputMediaDocument::new("d".to_owned()))).media_type(),
        "document"
    );
}

#[test]
fn poll_options_are_checked() {
    let option = InputPollOption::from("Yes".to_owned()).text_parse_mode(ParseMode::MarkdownV2);
    assert_eq!(option.text, "Yes");
    assert_eq!(option.text_parse_mode, Some(ParseMode::MarkdownV2));
    assert!(validate_poll_option(&option).is_ok());

    match validate_poll_option(&InputPollOption::new("  ".to_owned())) {
        Err(Error::InvalidRequest { reason }) => assert_eq!(reason, "poll option must not be empty"),
        Ok(()) => panic!("a blank option is refused"),
    }
    match validate_poll_option(&InputPollOption::new("x".repeat(101))) {
        Err(Error::InvalidRequest { reason }) => {
            assert_eq!(reason, "poll option exceeds 100 characters")
        }
        Ok(()) => panic!("a long option is refused"),
    }
    assert!(validate_poll_option(&InputPollOption::new("x".repeat(100))).is_ok());
}

#[test]
fn send_media_requests_start_without_options() {
    let photo = SendPhotoRequest::new(ChatId::from(1_i64), "photo-id".to_owned());
    assert_eq!(photo.photo.as_deref(), Some("photo-id"));
    assert!(photo.caption.is_none() && photo.has_spoiler.is_none());
    let upload = SendPhotoRequest::for_upload(ChatId::from(1_i64));
    assert!(upload.photo.is_none());

    let audio = SendAudioRequest::new(ChatId::from(2_i64), "audio-id".to_owned());
    assert_eq!(audio.audio.as_deref(), Some("audio-id"));
    assert!(SendAudioRequest::for_upload(ChatId::from(2_i64)).audio.is_none());

    let document = SendDocumentRequest::new(ChatId::from(3_i64), "doc".to_owned());
    assert_eq!(document.document.as_deref(), Some("doc"));
    let video = SendVideoRequest::new(ChatId::from(4_i64), "video".to_owned());
    assert_eq!(video.video.as_deref(), Some("video"));
    let animation = SendAnimationRequest::new(ChatId::from(5_i64), "gif".to_owned());
    assert_eq!(animation.animation.as_deref(), Some("gif"));
    let voice = SendVoiceRequest::new(ChatId::from(6_i64), "voice".to_owned());
    assert_eq!(voice.voice.as_deref(), Some("voice"));

    let copy = CopyMessageRequest::new(ChatId::from(7_i64), ChatId::from("@source"), MessageId(9));
    assert_eq!(copy.message_id, MessageId(9));
    assert_eq!(copy.from_chat_id, ChatId::Username("@source".to_owned()));
    assert!(copy.caption.is_none());
}
