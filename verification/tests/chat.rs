use tele::chat::{
    BanChatMemberRequest, BanChatSenderChatRequest, ChatPermissions, CreateChatInviteLinkRequest,
    EditChatInviteLinkRequest, GetChatRequest, PinChatMessageRequest, RestrictChatMemberRequest,
    RevokeChatInviteLinkRequest, SetChatAdministratorCustomTitleRequest,
    SetChatDescriptionRequest, SetChatStickerSetRequest, SetChatTitleRequest,
    MAX_CHAT_DESCRIPTION_CHARS, MAX_CUSTOM_TITLE_CHARS, MAX_INVITE_LINK_NAME_CHARS,
};
use tele::common::{ChatId, MessageId, UserId};
use tele::error::Error;

#[test]
fn chat_permissions_presets_and_builders_work() {
    let denied = ChatPermissions::deny_all();
    assert_eq!(denied.can_send_messages, Some(false));
    assert_eq!(denied.can_manage_topics, Some(false));

    let allowed = ChatPermissions::allow_all();
    assert_eq!(allowed.can_send_messages, Some(true));
    assert_eq!(allowed.can_invite_users, Some(true));

    let custom = ChatPermissions::read_only()
        .with_send_messages(true)
        .with_add_web_page_previews(true);
    assert_eq!(custom.can_send_messages, Some(true));
    assert_eq!(custom.can_add_web_page_previews, Some(true));
    assert_eq!(custom.can_send_photos, Some(false));
}

#[test]
fn validates_chat_profile_requests() {
    let title = SetChatTitleRequest {
        chat_id: ChatId::from(1),
        title: "group".to_owned(),
    };
    assert!(title.validate().is_ok());

    let empty_title = SetChatTitleRequest {
        chat_id: ChatId::from(1),
        title: "   ".to_owned(),
    };
    assert!(matches!(
        empty_title.validate(),
        Err(Error::InvalidRequest { .. })
    ));

    let long_description = SetChatDescriptionRequest {
        chat_id: ChatId::from(1),
        description: Some("a".repeat(MAX_CHAT_DESCRIPTION_CHARS + 1)),
    };
    assert!(matches!(
        long_description.validate(),
        Err(Error::InvalidRequest { .. })
    ));

    let multiline_description = SetChatDescriptionRequest {
        chat_id: ChatId::from(1),
        description: Some("hello\nworld".to_owned()),
    };
    assert!(multiline_description.validate().is_ok());

    let multiline_title = SetChatTitleRequest {
        chat_id: ChatId::from(1),
        title: "hello\nworld".to_owned(),
    };
    assert!(matches!(
        multiline_title.validate(),
        Err(Error::InvalidRequest { .. })
    ));

    let custom_title = SetChatAdministratorCustomTitleRequest {
        chat_id: ChatId::from(1),
        user_id: UserId::from(2),
        custom_title: "a".repeat(MAX_CUSTOM_TITLE_CHARS + 1),
    };
    assert!(matches!(
        custom_title.validate(),
        Err(Error::InvalidRequest { .. })
    ));

    let sticker_set = SetChatStickerSetRequest {
        chat_id: ChatId::from(1),
        sticker_set_name: "bad\nname".to_owned(),
    };
    assert!(matches!(
        sticker_set.validate(),
        Err(Error::InvalidRequest { .. })
    ));
}

#[test]
fn validates_chat_id_on_chat_requests() {
    let get_chat = GetChatRequest {
        chat_id: ChatId::from(0),
    };
    assert!(matches!(
        get_chat.validate(),
        Err(Error::InvalidRequest { .. })
    ));

    let ban = BanChatMemberRequest::new(ChatId::from("channel"), UserId::from(2));
    assert!(matches!(ban.validate(), Err(Error::InvalidRequest { .. })));

    let invalid_user = BanChatMemberRequest::new(ChatId::from(1), UserId::from(0));
    assert!(matches!(
        invalid_user.validate(),
        Err(Error::InvalidRequest { .. })
    ));

    let invalid_ban_until_date =
        BanChatMemberRequest::new(ChatId::from(1), UserId::from(2)).until_date(-1);
    assert!(matches!(
        invalid_ban_until_date.validate(),
        Err(Error::InvalidRequest { .. })
    ));

    let invalid_restrict_until_date = RestrictChatMemberRequest::new(
        ChatId::from(1),
        UserId::from(2),
        ChatPermissions::deny_all(),
    )
    .until_date(-1);
    assert!(matches!(
        invalid_restrict_until_date.validate(),
        Err(Error::InvalidRequest { .. })
    ));

    let invalid_sender_chat = BanChatSenderChatRequest {
        chat_id: ChatId::from(1),
        sender_chat_id: 0,
    };
    assert!(matches!(
        invalid_sender_chat.validate(),
        Err(Error::InvalidRequest { .. })
    ));

    let invite = CreateChatInviteLinkRequest {
        chat_id: ChatId::from("channel"),
        name: None,
        expire_date: None,
        member_limit: None,
        creates_join_request: None,
    };
    assert!(matches!(
        invite.validate(),
        Err(Error::InvalidRequest { .. })
    ));

    let pin = PinChatMessageRequest {
        chat_id: ChatId::from("@channel"),
        message_id: MessageId::from(1),
        disable_notification: None,
    };
    assert!(pin.validate().is_ok());

    let invalid_pin = PinChatMessageRequest {
        chat_id: ChatId::from("@channel"),
        message_id: MessageId::from(0),
        disable_notification: None,
    };
    assert!(matches!(
        invalid_pin.validate(),
        Err(Error::InvalidRequest { .. })
    ));
}

#[test]
fn validates_chat_invite_link_requests() {
    let valid = CreateChatInviteLinkRequest {
        chat_id: ChatId::from(1),
        name: Some("mods".to_owned()),
        expire_date: None,
        member_limit: Some(10),
        creates_join_request: None,
    };
    assert!(valid.validate().is_ok());

    let invalid_limit = CreateChatInviteLinkRequest {
        member_limit: Some(0),
        ..valid.clone()
    };
    assert!(matches!(
        invalid_limit.validate(),
        Err(Error::InvalidRequest { .. })
    ));

    let invalid_expire_date = CreateChatInviteLinkRequest {
        expire_date: Some(-1),
        ..valid.clone()
    };
    assert!(matches!(
        invalid_expire_date.validate(),
        Err(Error::InvalidRequest { .. })
    ));

    let join_request_with_limit = CreateChatInviteLinkRequest {
        member_limit: Some(10),
        creates_join_request: Some(true),
        ..valid
    };
    assert!(matches!(
        join_request_with_limit.validate(),
        Err(Error::InvalidRequest { .. })
    ));

    let edit = EditChatInviteLinkRequest {
        chat_id: ChatId::from(1),
        invite_link: "".to_owned(),
        name: Some("a".repeat(MAX_INVITE_LINK_NAME_CHARS + 1)),
        expire_date: None,
        member_limit: None,
        creates_join_request: None,
    };
    assert!(matches!(edit.validate(), Err(Error::InvalidRequest { .. })));

    let revoke = RevokeChatInviteLinkRequest {
        chat_id: ChatId::from(1),
        invite_link: "https://t.me/+abc".to_owned(),
    };
    assert!(revoke.validate().is_ok());
}

#[test]
fn member_limit_reason_names_the_bound() {
    let request = CreateChatInviteLinkRequest {
        chat_id: ChatId::from(1),
        name: None,
        expire_date: None,
        member_limit: Some(100000),
        creates_join_request: None,
    };
    match request.validate() {
        Err(Error::InvalidRequest { reason }) => assert_eq!(reason, "member_limit must be 1-99999 users"),
        Ok(()) => panic!("a member limit above the bound is refused"),
    }
}
