use tele::chat::{ChatAdministratorRights, ChatPermissions};
use tele::chat_member::{
    chat_administrator_member_rights_len, chat_permissions_len,
    serialize_chat_administrator_member_rights, serialize_chat_permissions,
};
use tele::chat::validate_invite_link_options;
use tele::common::validate_chat_username;
use tele::bot::User;
use tele::common::UserId;
use tele::error::Error;
use tele::json::{str_less, JsonMap, JsonValue};
use tele::text::{validate_text_limit, TextLayout, TextPresence};

#[test]
fn extra_fields_are_written_in_key_order() {
    let mut extra = JsonMap::new();
    extra.insert("zeta".to_owned(), JsonValue::Int(1));
    extra.insert("alpha".to_owned(), JsonValue::Int(2));
    extra.insert("mid".to_owned(), JsonValue::Int(3));
    extra.insert("alpha".to_owned(), JsonValue::Int(4));
    let user = User {
        id: UserId(1),
        is_bot: false,
        first_name: "Ada".to_owned(),
        last_name: None,
        username: None,
        language_code: None,
        extra,
    };
    let entries = match user.to_json() {
        JsonValue::Object(entries) => entries,
        other => panic!("a user is written as an object, not {other:?}"),
    };
    let keys: Vec<&str> = entries.iter().map(|(k, _)| k.as_str()).collect();
    assert_eq!(keys, vec!["id", "is_bot", "first_name", "alpha", "mid", "zeta"]);
    assert_eq!(entries[3].1, JsonValue::Int(4));
}

#[test]
fn keys_compare_like_strings() {
    for (a, b) in [("a", "b"), ("", "a"), ("ab", "abc"), ("Z", "a"), ("a", "é"), ("é", "中")] {
        assert!(str_less(a, b), "{a} < {b}");
        assert!(!str_less(b, a), "{b} < {a}");
        assert_eq!(str_less(a, b), a < b);
    }
    assert!(!str_less("same", "same"));
}

#[test]
fn the_widest_limit_accepts_any_text() {
    assert!(validate_text_limit("name", "hello", TextPresence::Required, TextLayout::SingleLine, usize::MAX).is_ok());
    match validate_text_limit("name", "hello", TextPresence::Required, TextLayout::SingleLine, 4) {
        Err(Error::InvalidRequest { reason }) => assert_eq!(reason, "name must be at most 4 characters"),
        Ok(()) => panic!("five characters exceed a limit of four"),
    }
}

#[test]
fn permissions_and_rights_write_set_fields_in_order() {
    let permissions = ChatPermissions::new().with_send_polls(false).with_send_messages(true);
    let mut out = Vec::new();
    serialize_chat_permissions(&mut out, &permissions);
    let keys: Vec<&str> = out.iter().map(|(k, _)| k.as_str()).collect();
    assert_eq!(keys, vec!["can_send_messages", "can_send_polls"]);
    assert_eq!(out[1].1, JsonValue::Bool(false));
    assert_eq!(chat_permissions_len(&permissions), 2);

    let rights = ChatAdministratorRights {
        is_anonymous: Some(true),
        can_manage_chat: Some(true),
        can_delete_messages: None,
        can_manage_video_chats: None,
        can_restrict_members: None,
        can_promote_members: None,
        can_change_info: None,
        can_invite_users: None,
        can_post_stories: None,
        can_edit_stories: None,
        can_delete_stories: None,
        can_post_messages: None,
        can_edit_messages: None,
        can_pin_messages: None,
        can_manage_topics: Some(false),
    };
    let mut out = Vec::new();
    serialize_chat_administrator_member_rights(&mut out, &rights);
    let keys: Vec<&str> = out.iter().map(|(k, _)| k.as_str()).collect();
    assert_eq!(keys, vec!["can_manage_chat", "can_manage_topics"]);
    assert_eq!(chat_administrator_member_rights_len(&rights), 2);
}

#[test]
fn usernames_and_invite_options_are_checked() {
    assert!(validate_chat_username("@valid_name").is_ok());
    assert!(validate_chat_username("valid_name").is_err());
    assert!(validate_chat_username("@abcd").is_err());
    assert!(validate_chat_username(&format!("@{}", "a".repeat(33))).is_err());
    assert!(validate_chat_username("@bad-name").is_err());
    assert!(validate_invite_link_options(Some("mods"), Some(10), None).is_ok());
    assert!(validate_invite_link_options(None, Some(0), None).is_err());
    assert!(validate_invite_link_options(None, Some(10), Some(true)).is_err());
    assert!(validate_invite_link_options(Some(&"n".repeat(33)), None, None).is_err());
}
