use tele::bot::User;
use tele::chat::{ChatAdministratorCapability, ChatAdministratorRights, ChatMemberStatus, ChatPermissions};
use tele::chat_member::{
    chat_administrator_member_rights_len, chat_permissions_len, tagged_field, ChatMember,
    ChatMemberAdministrator, ChatMemberBanned, ChatMemberOwner, ChatMemberPayload,
    ChatMemberRestricted,
};
use tele::common::UserId;
use tele::json::{JsonMap, JsonValue};

fn user(id: i64, first_name: &str) -> User {
    User {
        id: UserId(id),
        is_bot: false,
        first_name: first_name.to_owned(),
        last_name: None,
        username: None,
        language_code: None,
        extra: JsonMap::new(),
    }
}

fn entries(value: &JsonValue) -> &Vec<(String, JsonValue)> {
    match value {
        JsonValue::Object(entries) => entries,
        _ => panic!("expected an object"),
    }
}

fn field<'a>(value: &'a JsonValue, key: &str) -> &'a JsonValue {
    let found: Vec<&JsonValue> = entries(value).iter().filter(|(k, _)| k == key).map(|(_, v)| v).collect();
    assert_eq!(found.len(), 1, "expected exactly one `{key}` entry");
    found[0]
}

fn text(value: &JsonValue) -> &str {
    match value {
        JsonValue::Text(t) => t.as_str(),
        _ => panic!("expected a string"),
    }
}

fn spoofed_user() -> JsonValue {
    JsonValue::Object(vec![
        ("id".to_owned(), JsonValue::Int(9)),
        ("is_bot".to_owned(), JsonValue::Bool(true)),
        ("first_name".to_owned(), JsonValue::Text("spoofed".to_owned())),
    ])
}

#[test]
fn chat_member_extra_cannot_override_reserved_fields() {
    let mut administrator = ChatMemberAdministrator {
        user: user(1, "mod"),
        can_be_edited: Some(true),
        is_anonymous: Some(true),
        custom_title: Some("Owner".to_owned()),
        rights: ChatAdministratorRights {
            can_manage_chat: Some(true),
            is_anonymous: Some(false),
            ..ChatAdministratorRights::default()
        },
        extra: JsonMap::new(),
    };
    administrator.extra.insert("status".to_owned(), JsonValue::Text("member".to_owned()));
    administrator.extra.insert("user".to_owned(), spoofed_user());
    administrator.extra.insert("is_anonymous".to_owned(), JsonValue::Bool(false));
    administrator.extra.insert("can_manage_chat".to_owned(), JsonValue::Bool(false));
    administrator.extra.insert("future_field".to_owned(), JsonValue::Text("kept".to_owned()));

    let admin_value = ChatMember::Administrator(administrator).to_json();
    assert_eq!(text(field(&admin_value, "status")), "administrator");
    assert_eq!(field(field(&admin_value, "user"), "id"), &JsonValue::Int(1));
    assert_eq!(text(field(field(&admin_value, "user"), "first_name")), "mod");
    assert_eq!(field(&admin_value, "is_anonymous"), &JsonValue::Bool(true));
    assert_eq!(field(&admin_value, "can_be_edited"), &JsonValue::Bool(true));
    assert_eq!(field(&admin_value, "can_manage_chat"), &JsonValue::Bool(true));
    assert_eq!(text(field(&admin_value, "future_field")), "kept");

    let mut restricted = ChatMemberRestricted {
        user: user(2, "member"),
        is_member: Some(true),
        permissions: ChatPermissions::new().with_send_messages(true),
        until_date: Some(1_700_000_000),
        extra: JsonMap::new(),
    };
    restricted.extra.insert("status".to_owned(), JsonValue::Text("administrator".to_owned()));
    restricted.extra.insert("user".to_owned(), spoofed_user());
    restricted.extra.insert("can_send_messages".to_owned(), JsonValue::Bool(false));
    restricted.extra.insert("until_date".to_owned(), JsonValue::Int(1));
    restricted.extra.insert("future_field".to_owned(), JsonValue::Text("kept".to_owned()));

    let restricted_value = ChatMember::Restricted(restricted).to_json();
    assert_eq!(text(field(&restricted_value, "status")), "restricted");
    assert_eq!(field(field(&restricted_value, "user"), "id"), &JsonValue::Int(2));
    assert_eq!(text(field(field(&restricted_value, "user"), "first_name")), "member");
    assert_eq!(field(&restricted_value, "can_send_messages"), &JsonValue::Bool(true));
    assert_eq!(field(&restricted_value, "until_date"), &JsonValue::Int(1_700_000_000));
    assert_eq!(text(field(&restricted_value, "future_field")), "kept");
}

#[test]
fn unknown_chat_member_status_is_preserved() {
    let input = JsonValue::Object(vec![
        ("status".to_owned(), JsonValue::Text("future_status".to_owned())),
        (
            "user".to_owned(),
            JsonValue::Object(vec![
                ("id".to_owned(), JsonValue::Int(2)),
                ("is_bot".to_owned(), JsonValue::Bool(false)),
                ("first_name".to_owned(), JsonValue::Text("future".to_owned())),
            ]),
        ),
        (
            "payload".to_owned(),
            JsonValue::Object(vec![("kept".to_owned(), JsonValue::Bool(true))]),
        ),
    ]);
    let member = match ChatMemberPayload::of_value(&input) {
        ChatMemberPayload::Unknown(whole) => ChatMember::Unknown(whole),
        ChatMemberPayload::Known(status, _) => panic!("unexpected known status {status:?}"),
    };

    assert_eq!(member.status_name(), Some("future_status"));
    assert_eq!(member.status(), Some(ChatMemberStatus::Unknown("future_status".to_owned())));
    assert!(member.user().is_none());
    assert!(!member.is_admin());
    assert!(!member.has_capability(ChatAdministratorCapability::ManageChat));
    assert_eq!(member.as_unknown_value(), Some(&input));
    assert_eq!(member.to_json(), input);
    assert_eq!(member.into_unknown_value(), Some(input));
}

#[test]
fn chat_member_accessors_follow_the_variant() {
    let owner = ChatMember::Owner(ChatMemberOwner {
        user: user(5, "boss"),
        is_anonymous: None,
        custom_title: Some("Chief".to_owned()),
        extra: JsonMap::new(),
    });
    assert_eq!(owner.status_name(), Some("creator"));
    assert_eq!(owner.status(), Some(ChatMemberStatus::Owner));
    assert!(owner.is_owner() && owner.is_admin());
    assert!(owner.has_capability(ChatAdministratorCapability::PromoteMembers));
    assert_eq!(owner.custom_title(), Some("Chief"));
    assert_eq!(owner.user().map(|u| u.id), Some(UserId(5)));
    assert!(owner.as_owner().is_some() && owner.as_banned().is_none());

    let admin = ChatMember::Administrator(ChatMemberAdministrator {
        user: user(6, "mod"),
        can_be_edited: None,
        is_anonymous: None,
        custom_title: None,
        rights: ChatAdministratorRights {
            can_pin_messages: Some(true),
            can_promote_members: Some(false),
            ..ChatAdministratorRights::default()
        },
        extra: JsonMap::new(),
    });
    assert!(admin.has_capability(ChatAdministratorCapability::PinMessages));
    assert!(!admin.has_capability(ChatAdministratorCapability::PromoteMembers));
    assert!(!admin.has_capability(ChatAdministratorCapability::ManageChat));
    assert!(admin.is_admin() && !admin.is_owner());
    assert_eq!(admin.administrator_rights().and_then(|r| r.can_pin_messages), Some(true));
    assert_eq!(admin.custom_title(), None);
    assert_eq!(admin.into_administrator().map(|a| a.user.first_name), Some("mod".to_owned()));

    let banned = ChatMember::Banned(ChatMemberBanned {
        user: user(7, "gone"),
        until_date: Some(42),
        extra: JsonMap::new(),
    });
    assert_eq!(banned.status_name(), Some("kicked"));
    assert_eq!(banned.status(), Some(ChatMemberStatus::Banned));
    assert_eq!(banned.until_date(), Some(42));
    assert!(!banned.is_admin());
    assert!(banned.permissions().is_none());
    let value = banned.to_json();
    let keys: Vec<&str> = entries(&value).iter().map(|(k, _)| k.as_str()).collect();
    assert_eq!(keys, vec!["status", "user", "until_date"]);
}

#[test]
fn anonymity_falls_back_to_the_rights_flag() {
    let admin = ChatMemberAdministrator {
        user: user(1, "mod"),
        can_be_edited: None,
        is_anonymous: None,
        custom_title: None,
        rights: ChatAdministratorRights {
            is_anonymous: Some(true),
            ..ChatAdministratorRights::default()
        },
        extra: JsonMap::new(),
    };
    let value = JsonValue::Object(admin.to_entries());
    assert_eq!(field(&value, "is_anonymous"), &JsonValue::Bool(true));
}

#[test]
fn permission_and_rights_counts_match_the_set_fields() {
    let permissions = ChatPermissions::new().with_send_messages(true).with_pin_messages(false);
    assert_eq!(chat_permissions_len(&permissions), 2);
    assert_eq!(chat_permissions_len(&ChatPermissions::allow_all()), 14);
    let rights = ChatAdministratorRights {
        is_anonymous: Some(true),
        can_manage_topics: Some(true),
        ..ChatAdministratorRights::default()
    };
    assert_eq!(chat_administrator_member_rights_len(&rights), 1);
}

#[test]
fn tagged_field_reads_string_fields_only() {
    let value = JsonValue::Object(vec![
        ("status".to_owned(), JsonValue::Int(3)),
        ("kind".to_owned(), JsonValue::Text("x".to_owned())),
    ]);
    assert_eq!(tagged_field(&value, "status"), None);
    assert_eq!(tagged_field(&value, "kind"), Some("x"));
    assert_eq!(tagged_field(&JsonValue::Null, "kind"), None);
}
