use tele::chat_member::strip_tag;
use tele::gift::{RevenueWithdrawalState, RevenueWithdrawalStatePending, RevenueWithdrawalStateSucceeded};
use tele::json::{JsonMap, JsonValue};
use tele::message::common::{
    Chat, ChatType, MessageOrigin, MessageOriginChannel, MessageOriginChat, MessageOriginHiddenUser,
};
use tele::message::content::{poll_media_extra, poll_media_kind_of, unknown_poll_media_kind, PollMediaKind};
use tele::message::media::{PaidMedia, PaidMediaPreview};
use tele::message::service::{BackgroundFill, BackgroundFillSolid};
use tele::common::MessageId;

fn text(t: &str) -> JsonValue {
    JsonValue::Text(t.to_owned())
}

fn chat(kind: ChatType, title: Option<&str>, username: Option<&str>, first_name: Option<&str>) -> Chat {
    Chat {
        id: 1,
        kind,
        title: title.map(str::to_owned),
        username: username.map(str::to_owned),
        first_name: first_name.map(str::to_owned),
        last_name: None,
        is_forum: None,
        extra: JsonMap::new(),
    }
}

#[test]
fn chat_type_preserves_unknown_values() {
    let mut future = chat(ChatType::from_name("future_chat".to_owned()), Some("Official"), None, None);
    future.extra.insert(
        "future".to_owned(),
        JsonValue::Object(vec![("kept".to_owned(), JsonValue::Bool(true))]),
    );
    assert_eq!(future.kind, ChatType::Unknown("future_chat".to_owned()));
    assert_eq!(future.kind.as_str(), "future_chat");
    assert!(!future.is_private());
    assert!(!future.is_group_chat());
    assert!(future.extra.get("future").is_some());

    let group = chat(ChatType::Supergroup, None, None, None);
    assert!(group.is_supergroup() && group.is_group_chat() && !group.is_group() && !group.is_channel());
}

#[test]
fn origin_sender_name_falls_back_through_the_chat_names() {
    let channel = MessageOrigin::Channel(Box::new(MessageOriginChannel {
        date: 10,
        chat: chat(ChatType::Channel, None, Some("news"), Some("first")),
        message_id: MessageId(7),
        author_signature: Some("editor".to_owned()),
        extra: JsonMap::new(),
    }));
    assert_eq!(channel.sender_name(), Some("news"));
    assert_eq!(channel.kind(), Some("channel"));
    assert_eq!(channel.date(), Some(10));
    assert_eq!(channel.message_id(), Some(MessageId(7)));
    assert_eq!(channel.author_signature(), Some("editor"));
    assert!(channel.chat().is_some() && channel.user().is_none());

    let sender_chat = MessageOrigin::Chat(Box::new(MessageOriginChat {
        date: 11,
        sender_chat: chat(ChatType::Group, Some("Mods"), Some("mods"), None),
        author_signature: None,
        extra: JsonMap::new(),
    }));
    assert_eq!(sender_chat.sender_name(), Some("Mods"));
    assert_eq!(sender_chat.author_signature(), None);
    assert_eq!(sender_chat.message_id(), None);

    let hidden = MessageOrigin::HiddenUser(MessageOriginHiddenUser {
        date: 12,
        sender_user_name: "Anon".to_owned(),
        extra: JsonMap::new(),
    });
    assert_eq!(hidden.sender_name(), Some("Anon"));
    assert!(hidden.as_hidden_user_origin().is_some());

    let unknown = MessageOrigin::Unknown(JsonValue::Object(vec![
        ("type".to_owned(), text("future_origin")),
        ("date".to_owned(), JsonValue::Int(1)),
    ]));
    assert_eq!(unknown.kind(), Some("future_origin"));
    assert_eq!(unknown.date(), None);
    assert_eq!(unknown.sender_name(), None);
}

#[test]
fn poll_media_kind_follows_the_lookup_order() {
    let value = JsonValue::Object(vec![
        ("video".to_owned(), JsonValue::Object(Vec::new())),
        ("photo".to_owned(), JsonValue::Array(Vec::new())),
        ("future".to_owned(), text("kept")),
    ]);
    assert_eq!(poll_media_kind_of(&value), Some(PollMediaKind::Photo));
    assert_eq!(PollMediaKind::Photo.key(), "photo");
    if let JsonValue::Object(entries) = &value {
        let extra = poll_media_extra(entries, "photo");
        let keys: Vec<&str> = extra.iter().map(|(k, _)| k.as_str()).collect();
        assert_eq!(keys, vec!["video", "future"]);
    }
    assert_eq!(poll_media_kind_of(&text("photo")), None);
    let single = JsonValue::Object(vec![("mystery".to_owned(), JsonValue::Null)]);
    assert_eq!(poll_media_kind_of(&single), None);
    assert_eq!(unknown_poll_media_kind(&single), Some("mystery"));
    assert_eq!(unknown_poll_media_kind(&value), None);
}

#[test]
fn strip_tag_removes_only_the_tag() {
    let value = JsonValue::Object(vec![
        ("type".to_owned(), text("user")),
        ("date".to_owned(), JsonValue::Int(10)),
        ("type".to_owned(), text("again")),
    ]);
    assert_eq!(strip_tag(&value, "type"), JsonValue::Object(vec![("date".to_owned(), JsonValue::Int(10))]));
    assert_eq!(strip_tag(&text("x"), "type"), text("x"));
}

#[test]
fn tagged_payload_accessors_follow_the_variant() {
    let pending = RevenueWithdrawalState::Pending(RevenueWithdrawalStatePending { extra: JsonMap::new() });
    assert_eq!(pending.kind(), Some("pending"));
    assert!(pending.as_pending().is_some() && pending.as_failed().is_none());
    let succeeded = RevenueWithdrawalState::Succeeded(Box::new(RevenueWithdrawalStateSucceeded {
        date: 5,
        url: "https://example.com".to_owned(),
        extra: JsonMap::new(),
    }));
    assert_eq!(succeeded.into_succeeded().map(|s| s.date), Some(5));

    let preview = PaidMedia::Preview(PaidMediaPreview { width: Some(1), height: None, duration: None, extra: JsonMap::new() });
    assert!(preview.is_preview() && !preview.is_video());
    assert_eq!(preview.kind(), Some("preview"));

    let fill = BackgroundFill::Solid(BackgroundFillSolid { color: 255, extra: JsonMap::new() });
    assert_eq!(fill.kind(), Some("solid"));
    assert!(!fill.is_unknown());
    assert_eq!(fill.as_solid().map(|s| s.color), Some(255));
    let future = BackgroundFill::Unknown(JsonValue::Object(vec![("type".to_owned(), text("future_fill"))]));
    assert!(future.is_unknown());
    assert_eq!(future.kind(), Some("future_fill"));
}
