use tele::message::metadata::{message_kind_at, MessageKind, KNOWN_MESSAGE_KIND_COUNT};
use tele::message::model::MessageContent;

fn message_for_kind(kind: MessageKind) -> MessageContent {
    let mut message = MessageContent::default();
    match kind {
        MessageKind::WriteAccessAllowed => message.write_access_allowed = true,
        MessageKind::WebAppData => message.web_app_data = true,
        MessageKind::ConnectedWebsite => message.connected_website = true,
        MessageKind::Poll => message.poll = true,
        MessageKind::PaidMedia => message.paid_media = true,
        MessageKind::Checklist => message.checklist = true,
        MessageKind::Game => message.game = true,
        MessageKind::Invoice => message.invoice = true,
        MessageKind::SuccessfulPayment => message.successful_payment = true,
        MessageKind::RefundedPayment => message.refunded_payment = true,
        MessageKind::Gift => message.gift = true,
        MessageKind::UniqueGift => message.unique_gift = true,
        MessageKind::GiftUpgradeSent => message.gift_upgrade_sent = true,
        MessageKind::NewChatMembers => message.new_chat_members = true,
        MessageKind::LeftChatMember => message.left_chat_member = true,
        MessageKind::ChatOwnerLeft => message.chat_owner_left = true,
        MessageKind::ChatOwnerChanged => message.chat_owner_changed = true,
        MessageKind::NewChatTitle => message.new_chat_title = true,
        MessageKind::NewChatPhoto => message.new_chat_photo = true,
        MessageKind::DeleteChatPhoto => message.delete_chat_photo = true,
        MessageKind::GroupChatCreated => message.group_chat_created = true,
        MessageKind::SupergroupChatCreated => message.supergroup_chat_created = true,
        MessageKind::ChannelChatCreated => message.channel_chat_created = true,
        MessageKind::PinnedMessage => message.pinned_message = true,
        MessageKind::MessageAutoDeleteTimerChanged => message.message_auto_delete_timer_changed = true,
        MessageKind::MigrateToChat => message.migrate_to_chat_id = true,
        MessageKind::MigrateFromChat => message.migrate_from_chat_id = true,
        MessageKind::UsersShared => message.users_shared = true,
        MessageKind::ChatShared => message.chat_shared = true,
        MessageKind::ProximityAlertTriggered => message.proximity_alert_triggered = true,
        MessageKind::BoostAdded => message.boost_added = true,
        MessageKind::ChatBackgroundSet => message.chat_background_set = true,
        MessageKind::ChecklistTasksDone => message.checklist_tasks_done = true,
        MessageKind::ChecklistTasksAdded => message.checklist_tasks_added = true,
        MessageKind::DirectMessagePriceChanged => message.direct_message_price_changed = true,
        MessageKind::ForumTopicCreated => message.forum_topic_created = true,
        MessageKind::ForumTopicEdited => message.forum_topic_edited = true,
        MessageKind::ForumTopicClosed => message.forum_topic_closed = true,
        MessageKind::ForumTopicReopened => message.forum_topic_reopened = true,
        MessageKind::GeneralForumTopicHidden => message.general_forum_topic_hidden = true,
        MessageKind::GeneralForumTopicUnhidden => message.general_forum_topic_unhidden = true,
        MessageKind::GiveawayCreated => message.giveaway_created = true,
        MessageKind::Giveaway => message.giveaway = true,
        MessageKind::GiveawayWinners => message.giveaway_winners = true,
        MessageKind::GiveawayCompleted => message.giveaway_completed = true,
        MessageKind::ManagedBotCreated => message.managed_bot_created = true,
        MessageKind::PaidMessagePriceChanged => message.paid_message_price_changed = true,
        MessageKind::PollOptionAdded => message.poll_option_added = true,
        MessageKind::PollOptionDeleted => message.poll_option_deleted = true,
        MessageKind::SuggestedPostApproved => message.suggested_post_approved = true,
        MessageKind::SuggestedPostApprovalFailed => message.suggested_post_approval_failed = true,
        MessageKind::SuggestedPostDeclined => message.suggested_post_declined = true,
        MessageKind::SuggestedPostPaid => message.suggested_post_paid = true,
        MessageKind::SuggestedPostRefunded => message.suggested_post_refunded = true,
        MessageKind::VideoChatScheduled => message.video_chat_scheduled = true,
        MessageKind::VideoChatStarted => message.video_chat_started = true,
        MessageKind::VideoChatEnded => message.video_chat_ended = true,
        MessageKind::VideoChatParticipantsInvited => message.video_chat_participants_invited = true,
        MessageKind::Animation => message.animation = true,
        MessageKind::Audio => message.audio = true,
        MessageKind::Contact => message.contact = true,
        MessageKind::Dice => message.dice = true,
        MessageKind::Document => message.document = true,
        MessageKind::LivePhoto => message.live_photo = true,
        MessageKind::Location => message.location = true,
        MessageKind::Photo => message.photo = true,
        MessageKind::Sticker => message.sticker = true,
        MessageKind::Story => message.story = true,
        MessageKind::Venue => message.venue = true,
        MessageKind::Video => message.video = true,
        MessageKind::VideoNote => message.video_note = true,
        MessageKind::Voice => message.voice = true,
        MessageKind::Text => message.text = true,
        MessageKind::Caption => message.caption = true,
        MessageKind::Unknown => message.extra_keys.push("passport_data".to_owned()),
    }
    message
}

fn known_kinds() -> Vec<MessageKind> {
    (0..KNOWN_MESSAGE_KIND_COUNT).map(message_kind_at).collect()
}

#[test]
fn message_kind_matrix_stays_in_sync() {
    for kind in known_kinds() {
        let message = message_for_kind(kind);
        assert!(message.has_kind(kind), "missing has_kind mapping for {kind:?}");
        assert!(message.kinds().contains(&kind), "missing kinds mapping for {kind:?}");
    }
}

#[test]
fn unknown_kind_matrix_stays_in_sync() {
    let message = message_for_kind(MessageKind::Unknown);
    assert_eq!(message.kind(), MessageKind::Unknown);
    assert!(message.has_kind(MessageKind::Unknown));
    assert_eq!(message.kinds(), vec![MessageKind::Unknown]);
}

#[test]
fn detects_primary_text_message_kind() {
    let mut message = MessageContent::default();
    message.text = true;
    assert_eq!(message.kind(), MessageKind::Text);
    assert_eq!(message.kinds(), vec![MessageKind::Text]);
    assert!(message.has_kind(MessageKind::Text));
}

#[test]
fn includes_secondary_caption_kind() {
    let mut message = MessageContent::default();
    message.photo = true;
    message.caption = true;
    assert_eq!(message.kind(), MessageKind::Photo);
    assert_eq!(message.kinds(), vec![MessageKind::Photo, MessageKind::Caption]);
    assert!(message.has_kind(MessageKind::Caption));
}

#[test]
fn marks_unmodeled_content_as_unknown() {
    let mut message = MessageContent::default();
    message.extra_keys.push("passport_data".to_owned());
    assert_eq!(message.kind(), MessageKind::Unknown);
    assert_eq!(message.kinds(), vec![MessageKind::Unknown]);
    assert!(message.has_kind(MessageKind::Unknown));
}

#[test]
fn keeps_unknown_alongside_modeled_kind() {
    let mut message = MessageContent::default();
    message.text = true;
    message.extra_keys.push("passport_data".to_owned());
    assert_eq!(message.kind(), MessageKind::Text);
    assert_eq!(message.kinds(), vec![MessageKind::Text, MessageKind::Unknown]);
    assert!(message.has_kind(MessageKind::Unknown));
}

#[test]
fn empty_message_is_unknown_and_other_extra_keys_do_not_count() {
    let mut message = MessageContent::default();
    assert_eq!(message.kinds(), vec![MessageKind::Unknown]);
    message.extra_keys.push("future_field".to_owned());
    message.venue = true;
    assert_eq!(message.kinds(), vec![MessageKind::Venue]);
    assert!(!message.has_kind(MessageKind::Unknown));
    assert_eq!(known_kinds().len(), 74);
    assert_eq!(message_kind_at(74), MessageKind::Unknown);
}
