use tele::common::MessageId;
use tele::json::{JsonMap, JsonValue};
use tele::message::common::{Chat, ChatType};
use tele::message::metadata::MessageKind;
use tele::message::model::Message;
use tele::message::requests::EditMessageResult;
use tele::message::reply::{response_date, InaccessibleMessage, MaybeInaccessibleMessage};

fn message(message_id: i64, date: i64, chat: Chat) -> Message {
    Message {
        message_id: MessageId(message_id),
        from: None,
        sender_chat: None,
        sender_boost_count: None,
        chat: chat,
        date: date,
        guest_query_id: None,
        business_connection_id: None,
        author_signature: None,
        sender_business_bot: None,
        sender_tag: None,
        message_thread_id: None,
        direct_messages_topic: None,
        is_topic_message: false,
        forward_origin: None,
        is_automatic_forward: false,
        reply_to_message: None,
        external_reply: None,
        quote: None,
        reply_to_story: None,
        reply_to_checklist_task_id: None,
        reply_to_poll_option_id: None,
        via_bot: None,
        guest_bot_caller_user: None,
        guest_bot_caller_chat: None,
        edit_date: None,
        has_protected_content: false,
        is_from_offline: false,
        is_paid_post: false,
        media_group_id: None,
        paid_star_count: None,
        text: None,
        caption: None,
        entities: None,
        caption_entities: None,
        link_preview_options: None,
        suggested_post_info: None,
        effect_id: None,
        animation: None,
        audio: None,
        contact: None,
        dice: None,
        document: None,
        live_photo: None,
        paid_media: None,
        location: None,
        photo: None,
        sticker: None,
        story: None,
        venue: None,
        video: None,
        video_note: None,
        voice: None,
        poll: None,
        show_caption_above_media: false,
        has_media_spoiler: false,
        checklist: None,
        game: None,
        web_app_data: None,
        write_access_allowed: None,
        new_chat_members: None,
        left_chat_member: None,
        chat_owner_left: None,
        chat_owner_changed: None,
        new_chat_title: None,
        new_chat_photo: None,
        delete_chat_photo: false,
        group_chat_created: false,
        supergroup_chat_created: false,
        channel_chat_created: false,
        pinned_message: None,
        message_auto_delete_timer_changed: None,
        migrate_to_chat_id: None,
        migrate_from_chat_id: None,
        invoice: None,
        successful_payment: None,
        refunded_payment: None,
        gift: None,
        unique_gift: None,
        gift_upgrade_sent: None,
        users_shared: None,
        chat_shared: None,
        connected_website: None,
        proximity_alert_triggered: None,
        boost_added: None,
        chat_background_set: None,
        checklist_tasks_done: None,
        checklist_tasks_added: None,
        direct_message_price_changed: None,
        forum_topic_created: None,
        forum_topic_edited: None,
        forum_topic_closed: None,
        forum_topic_reopened: None,
        general_forum_topic_hidden: None,
        general_forum_topic_unhidden: None,
        giveaway_created: None,
        giveaway: None,
        giveaway_winners: None,
        giveaway_completed: None,
        managed_bot_created: None,
        paid_message_price_changed: None,
        poll_option_added: None,
        poll_option_deleted: None,
        suggested_post_approved: None,
        suggested_post_approval_failed: None,
        suggested_post_declined: None,
        suggested_post_paid: None,
        suggested_post_refunded: None,
        video_chat_scheduled: None,
        video_chat_started: None,
        video_chat_ended: None,
        video_chat_participants_invited: None,
        reply_markup: None,
        extra: JsonMap::new(),
    }
}

fn supergroup() -> Chat {
    Chat {
        id: -10010,
        kind: ChatType::Supergroup,
        title: Some("mods".to_owned()),
        username: None,
        first_name: None,
        last_name: None,
        is_forum: None,
        extra: JsonMap::new(),
    }
}

fn private_chat() -> Chat {
    Chat {
        id: 1,
        kind: ChatType::Private,
        title: None,
        username: None,
        first_name: None,
        last_name: None,
        is_forum: None,
        extra: JsonMap::new(),
    }
}

fn kept() -> JsonValue {
    JsonValue::Object(vec![("kept".to_owned(), JsonValue::Bool(true))])
}

fn lookup<'a>(entries: &'a [(String, JsonValue)], key: &str) -> Option<&'a JsonValue> {
    entries.iter().find(|(k, _)| k == key).map(|(_, v)| v)
}

fn inaccessible() -> InaccessibleMessage {
    let mut extra = JsonMap::new();
    extra.insert("future".to_owned(), kept());
    InaccessibleMessage { chat: supergroup(), message_id: MessageId(55), date: 0, extra }
}

#[test]
fn inaccessible_message_preserves_future_fields() {
    let message = MaybeInaccessibleMessage::Inaccessible(inaccessible());
    assert!(!message.is_accessible());
    assert!(message.is_inaccessible());
    assert!(message.as_accessible().is_none());
    assert_eq!(message.as_inaccessible().and_then(|m| m.extra.get("future")), Some(&kept()));
    assert_eq!(message.message_id(), MessageId(55));
    assert_eq!(message.date(), 0);
    assert_eq!(message.chat().id, -10010);

    let entries = message.as_inaccessible().unwrap().to_entries();
    let keys: Vec<&str> = entries.iter().map(|(k, _)| k.as_str()).collect();
    assert_eq!(keys, vec!["chat", "message_id", "date", "future"]);
    assert_eq!(
        lookup(&entries, "chat"),
        Some(&JsonValue::Object(vec![
            ("id".to_owned(), JsonValue::Int(-10010)),
            ("type".to_owned(), JsonValue::Text("supergroup".to_owned())),
            ("title".to_owned(), JsonValue::Text("mods".to_owned())),
        ]))
    );
    assert_eq!(lookup(&entries, "message_id"), Some(&JsonValue::Int(55)));
    assert_eq!(lookup(&entries, "date"), Some(&JsonValue::Int(0)));
    assert_eq!(
        message.into_inaccessible().and_then(|m| m.extra.get("future").map(JsonValue::copy)),
        Some(kept())
    );
}

#[test]
fn inaccessible_message_extra_cannot_override_reserved_fields() {
    let mut message = inaccessible();
    message.extra.insert(
        "chat".to_owned(),
        JsonValue::Object(vec![
            ("id".to_owned(), JsonValue::Int(1)),
            ("type".to_owned(), JsonValue::Text("private".to_owned())),
            ("first_name".to_owned(), JsonValue::Text("spoofed".to_owned())),
        ]),
    );
    message.extra.insert("message_id".to_owned(), JsonValue::Int(1));
    message.extra.insert("date".to_owned(), JsonValue::Int(123));
    message.extra.insert("another_future".to_owned(), JsonValue::Text("kept".to_owned()));

    let entries = message.to_entries();
    match lookup(&entries, "chat") {
        Some(JsonValue::Object(chat)) => {
            assert_eq!(lookup(chat, "id"), Some(&JsonValue::Int(-10010)));
            assert_eq!(lookup(chat, "type"), Some(&JsonValue::Text("supergroup".to_owned())));
        }
        other => panic!("unexpected chat entry {other:?}"),
    }
    assert_eq!(lookup(&entries, "message_id"), Some(&JsonValue::Int(55)));
    assert_eq!(lookup(&entries, "date"), Some(&JsonValue::Int(0)));
    assert_eq!(lookup(&entries, "future"), Some(&kept()));
    assert_eq!(lookup(&entries, "another_future"), Some(&JsonValue::Text("kept".to_owned())));
    assert_eq!(entries.iter().filter(|(k, _)| k == "chat" || k == "date" || k == "message_id").count(), 3);
}

#[test]
fn accessible_message_can_be_consumed() {
    let mut inner = message(56, 1700000000, private_chat());
    inner.text = Some("hello".to_owned());
    let message = MaybeInaccessibleMessage::Accessible(Box::new(inner));
    assert!(message.is_accessible());
    assert!(!message.is_inaccessible());
    assert!(message.as_inaccessible().is_none());
    assert_eq!(message.date(), 1700000000);
    assert_eq!(message.into_accessible().and_then(|m| m.text).as_deref(), Some("hello"));
}

#[test]
fn message_content_records_present_fields() {
    let mut msg = message(1, 10, private_chat());
    msg.text = Some("hi".to_owned());
    msg.delete_chat_photo = true;
    msg.extra.insert("passport_data".to_owned(), JsonValue::Null);
    let content = msg.content();
    assert!(content.text && content.delete_chat_photo && !content.caption && !content.poll);
    assert_eq!(content.extra_keys, vec!["passport_data".to_owned()]);
    assert_eq!(content.kind(), MessageKind::DeleteChatPhoto);
    assert!(content.has_kind(MessageKind::Text));
    assert!(content.has_kind(MessageKind::Unknown));
    assert_eq!(msg.chat().id, 1);
    assert!(msg.from_user().is_none() && msg.reply_to_message().is_none());
    assert!(!msg.is_automatic_forward());
}

#[test]
fn response_date_tells_inaccessible_messages_apart() {
    let object = |date: JsonValue| {
        JsonValue::Object(vec![
            ("message_id".to_owned(), JsonValue::Int(1)),
            ("date".to_owned(), date),
        ])
    };
    assert_eq!(response_date(&object(JsonValue::Int(0))), 0);
    assert_eq!(response_date(&object(JsonValue::Int(1700000000))), 1700000000);
    assert_eq!(response_date(&object(JsonValue::UInt(5))), 5);
    assert_eq!(response_date(&object(JsonValue::UInt(u64::MAX))), 0);
    assert_eq!(response_date(&object(JsonValue::Text("soon".to_owned()))), 0);
    assert_eq!(response_date(&JsonValue::Object(vec![])), 0);
    assert_eq!(response_date(&JsonValue::Null), 0);
}

#[test]
fn message_kinds_follow_present_fields() {
    let mut msg = message(2, 20, private_chat());
    msg.caption = Some("look".to_owned());
    msg.photo = Some(Vec::new());
    assert_eq!(msg.kind(), MessageKind::Photo);
    assert!(msg.has_kind(MessageKind::Caption));
    assert!(!msg.has_kind(MessageKind::Unknown));
    assert_eq!(msg.kinds(), vec![MessageKind::Photo, MessageKind::Caption]);

    let empty = message(3, 30, private_chat());
    assert_eq!(empty.kind(), MessageKind::Unknown);
    assert_eq!(empty.kinds(), vec![MessageKind::Unknown]);

    let mut with_passport = message(4, 40, private_chat());
    with_passport.text = Some("id".to_owned());
    with_passport.extra.insert("passport_data".to_owned(), JsonValue::Null);
    assert_eq!(with_passport.kind(), MessageKind::Text);
    assert_eq!(with_passport.kinds(), vec![MessageKind::Text, MessageKind::Unknown]);
}

#[test]
fn edit_message_result_helpers_cover_both_variants() {
    let mut edited = message(9, 90, private_chat());
    edited.text = Some("text".to_owned());
    let result = EditMessageResult::from(edited);
    assert_eq!(result.message().map(|message| message.message_id), Some(MessageId(9)));
    assert_eq!(result.success(), None);
    assert_eq!(result.into_message().map(|message| message.message_id), Some(MessageId(9)));

    let success = EditMessageResult::Success(true);
    assert!(success.message().is_none());
    assert_eq!(success.success(), Some(true));
}

#[test]
fn message_content_is_read_from_a_response() {
    let response = JsonValue::Object(vec![
        ("message_id".to_owned(), JsonValue::Int(1)),
        ("date".to_owned(), JsonValue::Int(5)),
        ("text".to_owned(), JsonValue::Text("hi".to_owned())),
        ("caption".to_owned(), JsonValue::Null),
        ("delete_chat_photo".to_owned(), JsonValue::Bool(true)),
        ("group_chat_created".to_owned(), JsonValue::Bool(false)),
        ("passport_data".to_owned(), JsonValue::Object(vec![])),
        ("future_field".to_owned(), JsonValue::Int(3)),
    ]);
    let content = tele::message::model::MessageContent::from_response(&response);
    assert!(content.text && !content.caption && content.delete_chat_photo && !content.group_chat_created);
    assert_eq!(content.extra_keys, vec!["passport_data".to_owned(), "future_field".to_owned()]);
    assert_eq!(content.kinds(), vec![MessageKind::DeleteChatPhoto, MessageKind::Text, MessageKind::Unknown]);

    let not_an_object = tele::message::model::MessageContent::from_response(&JsonValue::Null);
    assert!(!not_an_object.text && not_an_object.extra_keys.is_empty());
    assert_eq!(not_an_object.kind(), MessageKind::Unknown);
}
