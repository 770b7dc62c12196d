use vstd::prelude::*;

use crate::message::metadata::{
    kind_at, kind_index, lemma_kind_at_index, lemma_kind_index, message_kind_at, MessageKind,
    KNOWN_MESSAGE_KIND_COUNT,
};
use crate::text::str_eq;
use crate::bot::User;
use crate::gift::{GiftInfo, UniqueGiftInfo};
use crate::common::MessageId;
use crate::json::{
    first_entry, first_value, is_reserved, is_reserved_key, pairs_view, JsonMap, JsonValue, JsonView,
};
use crate::message::common::{Chat, MessageEntity, MessageOrigin, PhotoSize};
use crate::message::content::{Checklist, Contact, Dice, Game, Poll};
use crate::message::forum::{
    ForumTopicClosed, ForumTopicCreated, ForumTopicEdited, ForumTopicReopened,
    GeneralForumTopicHidden, GeneralForumTopicUnhidden,
};
use crate::message::media::{
    Animation, Audio, Document, PaidMediaInfo, Story, Video, VideoNote, Voice,
};
use crate::message::metadata::{
    SuggestedPostApprovalFailed, SuggestedPostApproved, SuggestedPostDeclined, SuggestedPostInfo,
    SuggestedPostPaid, SuggestedPostRefunded,
};
use crate::message::payments::{Invoice, RefundedPayment, SuccessfulPayment};
use crate::message::reply::{ExternalReplyInfo, MaybeInaccessibleMessage, TextQuote};
use crate::message::service::{
    ChatBackground, ChatBoostAdded, ChatOwnerChanged, ChatOwnerLeft, ChatShared,
    ChecklistTasksAdded, ChecklistTasksDone, DirectMessagePriceChanged, DirectMessagesTopic,
    Giveaway, GiveawayCompleted, GiveawayCreated, GiveawayWinners, ManagedBotCreated,
    MessageAutoDeleteTimerChanged, PaidMessagePriceChanged, PollOptionAdded, PollOptionDeleted,
    ProximityAlertTriggered, UsersShared, VideoChatEnded, VideoChatParticipantsInvited,
    VideoChatScheduled, VideoChatStarted, WriteAccessAllowed,
};

verus! {

/// The content fields a message carries, one flag per field that
/// `has_kind` reads, and the keys of the response fields that no typed field
/// holds.
#[derive(Clone, Debug, Default)]
pub struct MessageContent {
    pub write_access_allowed: bool,
    pub web_app_data: bool,
    pub connected_website: bool,
    pub poll: bool,
    pub paid_media: bool,
    pub checklist: bool,
    pub game: bool,
    pub invoice: bool,
    pub successful_payment: bool,
    pub refunded_payment: bool,
    pub gift: bool,
    pub unique_gift: bool,
    pub gift_upgrade_sent: bool,
    pub new_chat_members: bool,
    pub left_chat_member: bool,
    pub chat_owner_left: bool,
    pub chat_owner_changed: bool,
    pub new_chat_title: bool,
    pub new_chat_photo: bool,
    pub delete_chat_photo: bool,
    pub group_chat_created: bool,
    pub supergroup_chat_created: bool,
    pub channel_chat_created: bool,
    pub pinned_message: bool,
    pub message_auto_delete_timer_changed: bool,
    pub migrate_to_chat_id: bool,
    pub migrate_from_chat_id: bool,
    pub users_shared: bool,
    pub chat_shared: bool,
    pub proximity_alert_triggered: bool,
    pub boost_added: bool,
    pub chat_background_set: bool,
    pub checklist_tasks_done: bool,
    pub checklist_tasks_added: bool,
    pub direct_message_price_changed: bool,
    pub forum_topic_created: bool,
    pub forum_topic_edited: bool,
    pub forum_topic_closed: bool,
    pub forum_topic_reopened: bool,
    pub general_forum_topic_hidden: bool,
    pub general_forum_topic_unhidden: bool,
    pub giveaway_created: bool,
    pub giveaway: bool,
    pub giveaway_winners: bool,
    pub giveaway_completed: bool,
    pub managed_bot_created: bool,
    pub paid_message_price_changed: bool,
    pub poll_option_added: bool,
    pub poll_option_deleted: bool,
    pub suggested_post_approved: bool,
    pub suggested_post_approval_failed: bool,
    pub suggested_post_declined: bool,
    pub suggested_post_paid: bool,
    pub suggested_post_refunded: bool,
    pub video_chat_scheduled: bool,
    pub video_chat_started: bool,
    pub video_chat_ended: bool,
    pub video_chat_participants_invited: bool,
    pub animation: bool,
    pub audio: bool,
    pub contact: bool,
    pub dice: bool,
    pub document: bool,
    pub live_photo: bool,
    pub location: bool,
    pub photo: bool,
    pub sticker: bool,
    pub story: bool,
    pub venue: bool,
    pub video: bool,
    pub video_note: bool,
    pub voice: bool,
    pub text: bool,
    pub caption: bool,
    /// Keys of the response fields that no typed field holds.
    pub extra_keys: Vec<String>,
}

/// A key of a response field that holds message content this model does not type.
pub open spec fn is_unmodeled_message_content_key(key: Seq<char>) -> bool {
    key == "passport_data"@
}

fn is_unmodeled_message_content_key_exec(key: &str) -> (r: bool)
    ensures
        r == is_unmodeled_message_content_key(key@),
{
    str_eq(key, "passport_data")
}

impl MessageContent {
    /// The field that stands for `kind` is present.
    pub open spec fn has_kind_spec(&self, kind: MessageKind) -> bool {
        match kind {
            MessageKind::WriteAccessAllowed => self.write_access_allowed,
            MessageKind::WebAppData => self.web_app_data,
            MessageKind::ConnectedWebsite => self.connected_website,
            MessageKind::Poll => self.poll,
            MessageKind::PaidMedia => self.paid_media,
            MessageKind::Checklist => self.checklist,
            MessageKind::Game => self.game,
            MessageKind::Invoice => self.invoice,
            MessageKind::SuccessfulPayment => self.successful_payment,
            MessageKind::RefundedPayment => self.refunded_payment,
            MessageKind::Gift => self.gift,
            MessageKind::UniqueGift => self.unique_gift,
            MessageKind::GiftUpgradeSent => self.gift_upgrade_sent,
            MessageKind::NewChatMembers => self.new_chat_members,
            MessageKind::LeftChatMember => self.left_chat_member,
            MessageKind::ChatOwnerLeft => self.chat_owner_left,
            MessageKind::ChatOwnerChanged => self.chat_owner_changed,
            MessageKind::NewChatTitle => self.new_chat_title,
            MessageKind::NewChatPhoto => self.new_chat_photo,
            MessageKind::DeleteChatPhoto => self.delete_chat_photo,
            MessageKind::GroupChatCreated => self.group_chat_created,
            MessageKind::SupergroupChatCreated => self.supergroup_chat_created,
            MessageKind::ChannelChatCreated => self.channel_chat_created,
            MessageKind::PinnedMessage => self.pinned_message,
            MessageKind::MessageAutoDeleteTimerChanged => self.message_auto_delete_timer_changed,
            MessageKind::MigrateToChat => self.migrate_to_chat_id,
            MessageKind::MigrateFromChat => self.migrate_from_chat_id,
            MessageKind::UsersShared => self.users_shared,
            MessageKind::ChatShared => self.chat_shared,
            MessageKind::ProximityAlertTriggered => self.proximity_alert_triggered,
            MessageKind::BoostAdded => self.boost_added,
            MessageKind::ChatBackgroundSet => self.chat_background_set,
            MessageKind::ChecklistTasksDone => self.checklist_tasks_done,
            MessageKind::ChecklistTasksAdded => self.checklist_tasks_added,
            MessageKind::DirectMessagePriceChanged => self.direct_message_price_changed,
            MessageKind::ForumTopicCreated => self.forum_topic_created,
            MessageKind::ForumTopicEdited => self.forum_topic_edited,
            MessageKind::ForumTopicClosed => self.forum_topic_closed,
            MessageKind::ForumTopicReopened => self.forum_topic_reopened,
            MessageKind::GeneralForumTopicHidden => self.general_forum_topic_hidden,
            MessageKind::GeneralForumTopicUnhidden => self.general_forum_topic_unhidden,
            MessageKind::GiveawayCreated => self.giveaway_created,
            MessageKind::Giveaway => self.giveaway,
            MessageKind::GiveawayWinners => self.giveaway_winners,
            MessageKind::GiveawayCompleted => self.giveaway_completed,
            MessageKind::ManagedBotCreated => self.managed_bot_created,
            MessageKind::PaidMessagePriceChanged => self.paid_message_price_changed,
            MessageKind::PollOptionAdded => self.poll_option_added,
            MessageKind::PollOptionDeleted => self.poll_option_deleted,
            MessageKind::SuggestedPostApproved => self.suggested_post_approved,
            MessageKind::SuggestedPostApprovalFailed => self.suggested_post_approval_failed,
            MessageKind::SuggestedPostDeclined => self.suggested_post_declined,
            MessageKind::SuggestedPostPaid => self.suggested_post_paid,
            MessageKind::SuggestedPostRefunded => self.suggested_post_refunded,
            MessageKind::VideoChatScheduled => self.video_chat_scheduled,
            MessageKind::VideoChatStarted => self.video_chat_started,
            MessageKind::VideoChatEnded => self.video_chat_ended,
            MessageKind::VideoChatParticipantsInvited => self.video_chat_participants_invited,
            MessageKind::Animation => self.animation,
            MessageKind::Audio => self.audio,
            MessageKind::Contact => self.contact,
            MessageKind::Dice => self.dice,
            MessageKind::Document => self.document,
            MessageKind::LivePhoto => self.live_photo,
            MessageKind::Location => self.location,
            MessageKind::Photo => self.photo,
            MessageKind::Sticker => self.sticker,
            MessageKind::Story => self.story,
            MessageKind::Venue => self.venue,
            MessageKind::Video => self.video,
            MessageKind::VideoNote => self.video_note,
            MessageKind::Voice => self.voice,
            MessageKind::Text => self.text,
            MessageKind::Caption => self.caption,
            MessageKind::Unknown => self.has_unmodeled_content_spec() || !self.has_modeled_kind_spec(),
        }
    }

    /// Some typed content field is present.
    pub open spec fn has_modeled_kind_spec(&self) -> bool {
        ||| self.write_access_allowed
        ||| self.web_app_data
        ||| self.connected_website
        ||| self.poll
        ||| self.paid_media
        ||| self.checklist
        ||| self.game
        ||| self.invoice
        ||| self.successful_payment
        ||| self.refunded_payment
        ||| self.gift
        ||| self.unique_gift
        ||| self.gift_upgrade_sent
        ||| self.new_chat_members
        ||| self.left_chat_member
        ||| self.chat_owner_left
        ||| self.chat_owner_changed
        ||| self.new_chat_title
        ||| self.new_chat_photo
        ||| self.delete_chat_photo
        ||| self.group_chat_created
        ||| self.supergroup_chat_created
        ||| self.channel_chat_created
        ||| self.pinned_message
        ||| self.message_auto_delete_timer_changed
        ||| self.migrate_to_chat_id
        ||| self.migrate_from_chat_id
        ||| self.users_shared
        ||| self.chat_shared
        ||| self.proximity_alert_triggered
        ||| self.boost_added
        ||| self.chat_background_set
        ||| self.checklist_tasks_done
        ||| self.checklist_tasks_added
        ||| self.direct_message_price_changed
        ||| self.forum_topic_created
        ||| self.forum_topic_edited
        ||| self.forum_topic_closed
        ||| self.forum_topic_reopened
        ||| self.general_forum_topic_hidden
        ||| self.general_forum_topic_unhidden
        ||| self.giveaway_created
        ||| self.giveaway
        ||| self.giveaway_winners
        ||| self.giveaway_completed
        ||| self.managed_bot_created
        ||| self.paid_message_price_changed
        ||| self.poll_option_added
        ||| self.poll_option_deleted
        ||| self.suggested_post_approved
        ||| self.suggested_post_approval_failed
        ||| self.suggested_post_declined
        ||| self.suggested_post_paid
        ||| self.suggested_post_refunded
        ||| self.video_chat_scheduled
        ||| self.video_chat_started
        ||| self.video_chat_ended
        ||| self.video_chat_participants_invited
        ||| self.animation
        ||| self.audio
        ||| self.contact
        ||| self.dice
        ||| self.document
        ||| self.live_photo
        ||| self.location
        ||| self.photo
        ||| self.sticker
        ||| self.story
        ||| self.venue
        ||| self.video
        ||| self.video_note
        ||| self.voice
        ||| self.text
        ||| self.caption
    }

    /// The response holds content that no typed field models.
    pub open spec fn has_unmodeled_content_spec(&self) -> bool {
        exists|i: int|
            0 <= i < self.extra_keys@.len() && is_unmodeled_message_content_key(
                #[trigger] self.extra_keys@[i]@,
            )
    }

    /// The kinds present among the first `n` positions of the kind order, in that order.
    pub open spec fn kinds_upto(&self, n: nat) -> Seq<MessageKind>
        decreases n,
    {
        if n == 0 {
            Seq::empty()
        } else {
            let prev = self.kinds_upto((n - 1) as nat);
            if self.has_kind_spec(kind_at(n - 1)) {
                prev.push(kind_at(n - 1))
            } else {
                prev
            }
        }
    }

    /// Every kind the message has, in the fixed kind order, `Unknown` last.
    pub open spec fn kinds_spec(&self) -> Seq<MessageKind> {
        self.kinds_upto((KNOWN_MESSAGE_KIND_COUNT + 1) as nat)
    }

    /// The first known kind the message has, or `Unknown` when it has none.
    pub open spec fn kind_spec(&self) -> MessageKind {
        let known = self.kinds_upto(KNOWN_MESSAGE_KIND_COUNT as nat);
        if known.len() > 0 {
            known[0]
        } else {
            MessageKind::Unknown
        }
    }

    /// Whether a typed content field is present.
    pub fn has_modeled_kind(&self) -> (r: bool)
        ensures
            r == self.has_modeled_kind_spec(),
    {
        self.write_access_allowed
            || self.web_app_data
            || self.connected_website
            || self.poll
            || self.paid_media
            || self.checklist
            || self.game
            || self.invoice
            || self.successful_payment
            || self.refunded_payment
            || self.gift
            || self.unique_gift
            || self.gift_upgrade_sent
            || self.new_chat_members
            || self.left_chat_member
            || self.chat_owner_left
            || self.chat_owner_changed
            || self.new_chat_title
            || self.new_chat_photo
            || self.delete_chat_photo
            || self.group_chat_created
            || self.supergroup_chat_created
            || self.channel_chat_created
            || self.pinned_message
            || self.message_auto_delete_timer_changed
            || self.migrate_to_chat_id
            || self.migrate_from_chat_id
            || self.users_shared
            || self.chat_shared
            || self.proximity_alert_triggered
            || self.boost_added
            || self.chat_background_set
            || self.checklist_tasks_done
            || self.checklist_tasks_added
            || self.direct_message_price_changed
            || self.forum_topic_created
            || self.forum_topic_edited
            || self.forum_topic_closed
            || self.forum_topic_reopened
            || self.general_forum_topic_hidden
            || self.general_forum_topic_unhidden
            || self.giveaway_created
            || self.giveaway
            || self.giveaway_winners
            || self.giveaway_completed
            || self.managed_bot_created
            || self.paid_message_price_changed
            || self.poll_option_added
            || self.poll_option_deleted
            || self.suggested_post_approved
            || self.suggested_post_approval_failed
            || self.suggested_post_declined
            || self.suggested_post_paid
            || self.suggested_post_refunded
            || self.video_chat_scheduled
            || self.video_chat_started
            || self.video_chat_ended
            || self.video_chat_participants_invited
            || self.animation
            || self.audio
            || self.contact
            || self.dice
            || self.document
            || self.live_photo
            || self.location
            || self.photo
            || self.sticker
            || self.story
            || self.venue
            || self.video
            || self.video_note
            || self.voice
            || self.text
            || self.caption
    }

    /// Whether the response holds content that no typed field models.
    pub fn has_unmodeled_content(&self) -> (r: bool)
        ensures
            r == self.has_unmodeled_content_spec(),
    {
        let mut i: usize = 0;
        while i < self.extra_keys.len()
            invariant
                i <= self.extra_keys@.len(),
                forall|j: int|
                    0 <= j < i ==> !is_unmodeled_message_content_key(#[trigger] self.extra_keys@[j]@),
            decreases self.extra_keys@.len() - i,
        {
            if is_unmodeled_message_content_key_exec(self.extra_keys[i].as_str()) {
                assert(is_unmodeled_message_content_key(self.extra_keys@[i as int]@));
                return true;
            }
            i = i + 1;
        }
        false
    }

    /// Whether the message carries content of `kind`. `Unknown` holds when the
    /// response has content no typed field models, or no typed content at all.
    pub fn has_kind(&self, kind: MessageKind) -> (r: bool)
        ensures
            r == self.has_kind_spec(kind),
    {
        match kind {
            MessageKind::WriteAccessAllowed => self.write_access_allowed,
            MessageKind::WebAppData => self.web_app_data,
            MessageKind::ConnectedWebsite => self.connected_website,
            MessageKind::Poll => self.poll,
            MessageKind::PaidMedia => self.paid_media,
            MessageKind::Checklist => self.checklist,
            MessageKind::Game => self.game,
            MessageKind::Invoice => self.invoice,
            MessageKind::SuccessfulPayment => self.successful_payment,
            MessageKind::RefundedPayment => self.refunded_payment,
            MessageKind::Gift => self.gift,
            MessageKind::UniqueGift => self.unique_gift,
            MessageKind::GiftUpgradeSent => self.gift_upgrade_sent,
            MessageKind::NewChatMembers => self.new_chat_members,
            MessageKind::LeftChatMember => self.left_chat_member,
            MessageKind::ChatOwnerLeft => self.chat_owner_left,
            MessageKind::ChatOwnerChanged => self.chat_owner_changed,
            MessageKind::NewChatTitle => self.new_chat_title,
            MessageKind::NewChatPhoto => self.new_chat_photo,
            MessageKind::DeleteChatPhoto => self.delete_chat_photo,
            MessageKind::GroupChatCreated => self.group_chat_created,
            MessageKind::SupergroupChatCreated => self.supergroup_chat_created,
            MessageKind::ChannelChatCreated => self.channel_chat_created,
            MessageKind::PinnedMessage => self.pinned_message,
            MessageKind::MessageAutoDeleteTimerChanged => self.message_auto_delete_timer_changed,
            MessageKind::MigrateToChat => self.migrate_to_chat_id,
            MessageKind::MigrateFromChat => self.migrate_from_chat_id,
            MessageKind::UsersShared => self.users_shared,
            MessageKind::ChatShared => self.chat_shared,
            MessageKind::ProximityAlertTriggered => self.proximity_alert_triggered,
            MessageKind::BoostAdded => self.boost_added,
            MessageKind::ChatBackgroundSet => self.chat_background_set,
            MessageKind::ChecklistTasksDone => self.checklist_tasks_done,
            MessageKind::ChecklistTasksAdded => self.checklist_tasks_added,
            MessageKind::DirectMessagePriceChanged => self.direct_message_price_changed,
            MessageKind::ForumTopicCreated => self.forum_topic_created,
            MessageKind::ForumTopicEdited => self.forum_topic_edited,
            MessageKind::ForumTopicClosed => self.forum_topic_closed,
            MessageKind::ForumTopicReopened => self.forum_topic_reopened,
            MessageKind::GeneralForumTopicHidden => self.general_forum_topic_hidden,
            MessageKind::GeneralForumTopicUnhidden => self.general_forum_topic_unhidden,
            MessageKind::GiveawayCreated => self.giveaway_created,
            MessageKind::Giveaway => self.giveaway,
            MessageKind::GiveawayWinners => self.giveaway_winners,
            MessageKind::GiveawayCompleted => self.giveaway_completed,
            MessageKind::ManagedBotCreated => self.managed_bot_created,
            MessageKind::PaidMessagePriceChanged => self.paid_message_price_changed,
            MessageKind::PollOptionAdded => self.poll_option_added,
            MessageKind::PollOptionDeleted => self.poll_option_deleted,
            MessageKind::SuggestedPostApproved => self.suggested_post_approved,
            MessageKind::SuggestedPostApprovalFailed => self.suggested_post_approval_failed,
            MessageKind::SuggestedPostDeclined => self.suggested_post_declined,
            MessageKind::SuggestedPostPaid => self.suggested_post_paid,
            MessageKind::SuggestedPostRefunded => self.suggested_post_refunded,
            MessageKind::VideoChatScheduled => self.video_chat_scheduled,
            MessageKind::VideoChatStarted => self.video_chat_started,
            MessageKind::VideoChatEnded => self.video_chat_ended,
            MessageKind::VideoChatParticipantsInvited => self.video_chat_participants_invited,
            MessageKind::Animation => self.animation,
            MessageKind::Audio => self.audio,
            MessageKind::Contact => self.contact,
            MessageKind::Dice => self.dice,
            MessageKind::Document => self.document,
            MessageKind::LivePhoto => self.live_photo,
            MessageKind::Location => self.location,
            MessageKind::Photo => self.photo,
            MessageKind::Sticker => self.sticker,
            MessageKind::Story => self.story,
            MessageKind::Venue => self.venue,
            MessageKind::Video => self.video,
            MessageKind::VideoNote => self.video_note,
            MessageKind::Voice => self.voice,
            MessageKind::Text => self.text,
            MessageKind::Caption => self.caption,
            MessageKind::Unknown => self.has_unmodeled_content() || !self.has_modeled_kind(),
        }
    }

    /// The primary kind: the first known kind in the fixed order, or `Unknown`.
    pub fn kind(&self) -> (r: MessageKind)
        ensures
            r == self.kind_spec(),
    {
        let mut i: usize = 0;
        while i < KNOWN_MESSAGE_KIND_COUNT
            invariant
                i <= KNOWN_MESSAGE_KIND_COUNT,
                self.kinds_upto(i as nat).len() == 0,
            decreases KNOWN_MESSAGE_KIND_COUNT - i,
        {
            let kind = message_kind_at(i);
            if self.has_kind(kind) {
                assert(self.kinds_upto((i + 1) as nat) =~= seq![kind]);
                proof {
                    self.lemma_kinds_upto_prefix((i + 1) as nat, KNOWN_MESSAGE_KIND_COUNT as nat);
                    let known = self.kinds_upto(KNOWN_MESSAGE_KIND_COUNT as nat);
                    assert(known.subrange(0, 1)[0] == known[0]);
                }
                return kind;
            }
            i = i + 1;
        }
        MessageKind::Unknown
    }

    /// Every kind the message has, in the fixed kind order, `Unknown` last.
    pub fn kinds(&self) -> (r: Vec<MessageKind>)
        ensures
            r@ == self.kinds_spec(),
    {
        let mut out: Vec<MessageKind> = Vec::new();
        let mut i: usize = 0;
        while i < KNOWN_MESSAGE_KIND_COUNT + 1
            invariant
                i <= KNOWN_MESSAGE_KIND_COUNT + 1,
                out@ == self.kinds_upto(i as nat),
            decreases KNOWN_MESSAGE_KIND_COUNT + 1 - i,
        {
            let kind = message_kind_at(i);
            if self.has_kind(kind) {
                out.push(kind);
            }
            i = i + 1;
        }
        out
    }

    /// A shorter scan of the kind order is a prefix of a longer one.
    pub proof fn lemma_kinds_upto_prefix(&self, n: nat, m: nat)
        requires
            n <= m,
        ensures
            self.kinds_upto(n).len() <= self.kinds_upto(m).len(),
            self.kinds_upto(m).subrange(0, self.kinds_upto(n).len() as int) == self.kinds_upto(n),
        decreases m - n,
    {
        if n < m {
            self.lemma_kinds_upto_prefix(n, (m - 1) as nat);
            let a = self.kinds_upto(n);
            let b = self.kinds_upto((m - 1) as nat);
            let c = self.kinds_upto(m);
            assert(c.subrange(0, a.len() as int) =~= b.subrange(0, a.len() as int));
        } else {
            assert(self.kinds_upto(n).subrange(0, self.kinds_upto(n).len() as int) =~= self.kinds_upto(n));
        }
    }

    /// A scan of the kind order lists a kind exactly when the kind lies in the
    /// scanned part and the message has it.
    pub proof fn lemma_kinds_upto_contains(&self, n: nat, kind: MessageKind)
        ensures
            self.kinds_upto(n).contains(kind) == (kind_index(kind) < n && self.has_kind_spec(kind)),
        decreases n,
    {
        lemma_kind_index(kind);
        if n > 0 {
            self.lemma_kinds_upto_contains((n - 1) as nat, kind);
            if n - 1 <= KNOWN_MESSAGE_KIND_COUNT {
                lemma_kind_at_index(n - 1);
            }
            let prev = self.kinds_upto((n - 1) as nat);
            if self.has_kind_spec(kind_at(n - 1)) {
                assert(self.kinds_upto(n) == prev.push(kind_at(n - 1)));
                if kind == kind_at(n - 1) {
                    assert(self.kinds_upto(n)[prev.len() as int] == kind);
                } else {
                    if kind_index(kind) == n - 1 {
                        assert(kind_at(kind_index(kind)) == kind);
                    }
                    if self.kinds_upto(n).contains(kind) {
                        let j = choose|j: int| 0 <= j < self.kinds_upto(n).len() && self.kinds_upto(n)[j] == kind;
                        assert(j < prev.len());
                        assert(prev[j] == kind);
                    }
                    if prev.contains(kind) {
                        let j = choose|j: int| 0 <= j < prev.len() && prev[j] == kind;
                        assert(self.kinds_upto(n)[j] == kind);
                    }
                }
            } else {
                if kind_index(kind) == n - 1 {
                    assert(kind_at(kind_index(kind)) == kind);
                }
            }
        }
    }

    /// Where no known kind is present, the scan of the known kinds is empty, and
    /// conversely.
    pub proof fn lemma_known_scan_empty(&self, n: nat)
        requires
            n <= KNOWN_MESSAGE_KIND_COUNT,
        ensures
            (self.kinds_upto(n).len() == 0) == (forall|i: int| 0 <= i < n ==> !#[trigger] self.has_kind_spec(kind_at(i))),
        decreases n,
    {
        if n > 0 {
            self.lemma_known_scan_empty((n - 1) as nat);
            self.lemma_kinds_upto_prefix((n - 1) as nat, n);
        }
    }

    /// Where a typed content field is present, some known kind is.
    pub proof fn lemma_modeled_kind_has_known_kind(&self)
        requires
            self.has_modeled_kind_spec(),
        ensures
            (exists|i: int| 0 <= i < 74 && #[trigger] self.has_kind_spec(kind_at(i))),
    {
        reveal(kind_at);
        if self.write_access_allowed {
            assert(self.has_kind_spec(kind_at(0)));
        }
        if self.web_app_data {
            assert(self.has_kind_spec(kind_at(1)));
        }
        if self.connected_website {
            assert(self.has_kind_spec(kind_at(2)));
        }
        if self.poll {
            assert(self.has_kind_spec(kind_at(3)));
        }
        if self.paid_media {
            assert(self.has_kind_spec(kind_at(4)));
        }
        if self.checklist {
            assert(self.has_kind_spec(kind_at(5)));
        }
        if self.game {
            assert(self.has_kind_spec(kind_at(6)));
        }
        if self.invoice {
            assert(self.has_kind_spec(kind_at(7)));
        }
        if self.successful_payment {
            assert(self.has_kind_spec(kind_at(8)));
        }
        if self.refunded_payment {
            assert(self.has_kind_spec(kind_at(9)));
        }
        if self.gift {
            assert(self.has_kind_spec(kind_at(10)));
        }
        if self.unique_gift {
            assert(self.has_kind_spec(kind_at(11)));
        }
        if self.gift_upgrade_sent {
            assert(self.has_kind_spec(kind_at(12)));
        }
        if self.new_chat_members {
            assert(self.has_kind_spec(kind_at(13)));
        }
        if self.left_chat_member {
            assert(self.has_kind_spec(kind_at(14)));
        }
        if self.chat_owner_left {
            assert(self.has_kind_spec(kind_at(15)));
        }
        if self.chat_owner_changed {
            assert(self.has_kind_spec(kind_at(16)));
        }
        if self.new_chat_title {
            assert(self.has_kind_spec(kind_at(17)));
        }
        if self.new_chat_photo {
            assert(self.has_kind_spec(kind_at(18)));
        }
        if self.delete_chat_photo {
            assert(self.has_kind_spec(kind_at(19)));
        }
        if self.group_chat_created {
            assert(self.has_kind_spec(kind_at(20)));
        }
        if self.supergroup_chat_created {
            assert(self.has_kind_spec(kind_at(21)));
        }
        if self.channel_chat_created {
            assert(self.has_kind_spec(kind_at(22)));
        }
        if self.pinned_message {
            assert(self.has_kind_spec(kind_at(23)));
        }
        if self.message_auto_delete_timer_changed {
            assert(self.has_kind_spec(kind_at(24)));
        }
        if self.migrate_to_chat_id {
            assert(self.has_kind_spec(kind_at(25)));
        }
        if self.migrate_from_chat_id {
            assert(self.has_kind_spec(kind_at(26)));
        }
        if self.users_shared {
            assert(self.has_kind_spec(kind_at(27)));
        }
        if self.chat_shared {
            assert(self.has_kind_spec(kind_at(28)));
        }
        if self.proximity_alert_triggered {
            assert(self.has_kind_spec(kind_at(29)));
        }
        if self.boost_added {
            assert(self.has_kind_spec(kind_at(30)));
        }
        if self.chat_background_set {
            assert(self.has_kind_spec(kind_at(31)));
        }
        if self.checklist_tasks_done {
            assert(self.has_kind_spec(kind_at(32)));
        }
        if self.checklist_tasks_added {
            assert(self.has_kind_spec(kind_at(33)));
        }
        if self.direct_message_price_changed {
            assert(self.has_kind_spec(kind_at(34)));
        }
        if self.forum_topic_created {
            assert(self.has_kind_spec(kind_at(35)));
        }
        if self.forum_topic_edited {
            assert(self.has_kind_spec(kind_at(36)));
        }
        if self.forum_topic_closed {
            assert(self.has_kind_spec(kind_at(37)));
        }
        if self.forum_topic_reopened {
            assert(self.has_kind_spec(kind_at(38)));
        }
        if self.general_forum_topic_hidden {
            assert(self.has_kind_spec(kind_at(39)));
        }
        if self.general_forum_topic_unhidden {
            assert(self.has_kind_spec(kind_at(40)));
        }
        if self.giveaway_created {
            assert(self.has_kind_spec(kind_at(41)));
        }
        if self.giveaway {
            assert(self.has_kind_spec(kind_at(42)));
        }
        if self.giveaway_winners {
            assert(self.has_kind_spec(kind_at(43)));
        }
        if self.giveaway_completed {
            assert(self.has_kind_spec(kind_at(44)));
        }
        if self.managed_bot_created {
            assert(self.has_kind_spec(kind_at(45)));
        }
        if self.paid_message_price_changed {
            assert(self.has_kind_spec(kind_at(46)));
        }
        if self.poll_option_added {
            assert(self.has_kind_spec(kind_at(47)));
        }
        if self.poll_option_deleted {
            assert(self.has_kind_spec(kind_at(48)));
        }
        if self.suggested_post_approved {
            assert(self.has_kind_spec(kind_at(49)));
        }
        if self.suggested_post_approval_failed {
            assert(self.has_kind_spec(kind_at(50)));
        }
        if self.suggested_post_declined {
            assert(self.has_kind_spec(kind_at(51)));
        }
        if self.suggested_post_paid {
            assert(self.has_kind_spec(kind_at(52)));
        }
        if self.suggested_post_refunded {
            assert(self.has_kind_spec(kind_at(53)));
        }
        if self.video_chat_scheduled {
            assert(self.has_kind_spec(kind_at(54)));
        }
        if self.video_chat_started {
            assert(self.has_kind_spec(kind_at(55)));
        }
        if self.video_chat_ended {
            assert(self.has_kind_spec(kind_at(56)));
        }
        if self.video_chat_participants_invited {
            assert(self.has_kind_spec(kind_at(57)));
        }
        if self.animation {
            assert(self.has_kind_spec(kind_at(58)));
        }
        if self.audio {
            assert(self.has_kind_spec(kind_at(59)));
        }
        if self.contact {
            assert(self.has_kind_spec(kind_at(60)));
        }
        if self.dice {
            assert(self.has_kind_spec(kind_at(61)));
        }
        if self.document {
            assert(self.has_kind_spec(kind_at(62)));
        }
        if self.live_photo {
            assert(self.has_kind_spec(kind_at(63)));
        }
        if self.location {
            assert(self.has_kind_spec(kind_at(64)));
        }
        if self.photo {
            assert(self.has_kind_spec(kind_at(65)));
        }
        if self.sticker {
            assert(self.has_kind_spec(kind_at(66)));
        }
        if self.story {
            assert(self.has_kind_spec(kind_at(67)));
        }
        if self.venue {
            assert(self.has_kind_spec(kind_at(68)));
        }
        if self.video {
            assert(self.has_kind_spec(kind_at(69)));
        }
        if self.video_note {
            assert(self.has_kind_spec(kind_at(70)));
        }
        if self.voice {
            assert(self.has_kind_spec(kind_at(71)));
        }
        if self.text {
            assert(self.has_kind_spec(kind_at(72)));
        }
        if self.caption {
            assert(self.has_kind_spec(kind_at(73)));
        }
    }

    /// The field of a known kind is a typed content field.
    pub proof fn lemma_known_kind_is_modeled(&self, kind: MessageKind)
        requires
            !(kind is Unknown),
            self.has_kind_spec(kind),
        ensures
            self.has_modeled_kind_spec(),
    {
    }

    /// A typed content field is present exactly when some known kind is.
    pub proof fn lemma_modeled_kind_is_known_kind(&self)
        ensures
            self.has_modeled_kind_spec() == (exists|i: int| 0 <= i < 74 && #[trigger] self.has_kind_spec(kind_at(i))),
    {
        if self.has_modeled_kind_spec() {
            self.lemma_modeled_kind_has_known_kind();
        }
        assert forall|i: int| 0 <= i < 74 && #[trigger] self.has_kind_spec(kind_at(i)) implies self.has_modeled_kind_spec() by {
            lemma_kind_at_index(i);
            self.lemma_known_kind_is_modeled(kind_at(i));
        }
    }
}

/// Every message has at least one kind: `Unknown` stands in when no typed
/// content is present.
pub proof fn lemma_kinds_never_empty(message: MessageContent)
    ensures
        message.kinds_spec().len() > 0,
{
    message.lemma_kinds_upto_contains((KNOWN_MESSAGE_KIND_COUNT + 1) as nat, MessageKind::Unknown);
    message.lemma_modeled_kind_is_known_kind();
    if !message.has_kind_spec(MessageKind::Unknown) {
        let i = choose|i: int| 0 <= i < KNOWN_MESSAGE_KIND_COUNT && #[trigger] message.has_kind_spec(kind_at(i));
        lemma_kind_index(kind_at(i));
        message.lemma_kinds_upto_contains((KNOWN_MESSAGE_KIND_COUNT + 1) as nat, kind_at(i));
    }
}

/// The primary kind is the first of the listed kinds.
pub proof fn lemma_kind_is_first_of_kinds(message: MessageContent)
    ensures
        message.kind_spec() == message.kinds_spec()[0],
{
    let n = KNOWN_MESSAGE_KIND_COUNT as nat;
    message.lemma_kinds_upto_prefix(n, n + 1);
    lemma_kinds_never_empty(message);
    if message.kinds_upto(n).len() == 0 {
        lemma_kind_at_index(n as int);
        lemma_kind_index(kind_at(n as int));
        assert(kind_at(n as int) == MessageKind::Unknown);
        assert(message.has_kind_spec(kind_at(n as int)));
        assert(message.kinds_spec() == message.kinds_upto(n).push(kind_at(n as int)));
    } else {
        assert(message.kinds_spec().subrange(0, message.kinds_upto(n).len() as int)[0] == message.kinds_spec()[0]);
    }
}

/// A kind is listed by `kinds` exactly when `has_kind` holds for it.
pub proof fn lemma_kinds_lists_exactly_has_kind(message: MessageContent, kind: MessageKind)
    ensures
        message.kinds_spec().contains(kind) == message.has_kind_spec(kind),
{
    lemma_kind_index(kind);
    message.lemma_kinds_upto_contains((KNOWN_MESSAGE_KIND_COUNT + 1) as nat, kind);
}

/// The primary kind is `Unknown` exactly when no typed content is present.
pub proof fn lemma_kind_unknown_iff_no_modeled_kind(message: MessageContent)
    ensures
        (message.kind_spec() == MessageKind::Unknown) == !message.has_modeled_kind_spec(),
{
    let n = KNOWN_MESSAGE_KIND_COUNT as nat;
    message.lemma_modeled_kind_is_known_kind();
    message.lemma_known_scan_empty(n);
    if message.kinds_upto(n).len() > 0 {
        let k = message.kinds_upto(n)[0];
        assert(message.kinds_upto(n).contains(k));
        message.lemma_kinds_upto_contains(n, k);
        lemma_kind_index(k);
        assert(message.has_kind_spec(kind_at(kind_index(k))));
    }
}

/// Telegram message object. Objects of types this library does not model are
/// held as the JSON they were read as.
#[derive(Debug)]
pub struct Message {
    pub message_id: MessageId,
    pub from: Option<User>,
    pub sender_chat: Option<Chat>,
    pub sender_boost_count: Option<u32>,
    pub chat: Chat,
    pub date: i64,
    pub guest_query_id: Option<String>,
    pub business_connection_id: Option<String>,
    pub author_signature: Option<String>,
    pub sender_business_bot: Option<User>,
    pub sender_tag: Option<String>,
    pub message_thread_id: Option<i64>,
    pub direct_messages_topic: Option<DirectMessagesTopic>,
    pub is_topic_message: bool,
    pub forward_origin: Option<MessageOrigin>,
    pub is_automatic_forward: bool,
    pub reply_to_message: Option<Box<MaybeInaccessibleMessage>>,
    pub external_reply: Option<Box<ExternalReplyInfo>>,
    pub quote: Option<TextQuote>,
    pub reply_to_story: Option<Story>,
    pub reply_to_checklist_task_id: Option<i64>,
    pub reply_to_poll_option_id: Option<String>,
    pub via_bot: Option<User>,
    pub guest_bot_caller_user: Option<User>,
    pub guest_bot_caller_chat: Option<Chat>,
    pub edit_date: Option<i64>,
    pub has_protected_content: bool,
    pub is_from_offline: bool,
    pub is_paid_post: bool,
    pub media_group_id: Option<String>,
    pub paid_star_count: Option<u64>,
    pub text: Option<String>,
    pub caption: Option<String>,
    pub entities: Option<Vec<MessageEntity>>,
    pub caption_entities: Option<Vec<MessageEntity>>,
    pub link_preview_options: Option<JsonValue>,
    pub suggested_post_info: Option<Box<SuggestedPostInfo>>,
    pub effect_id: Option<String>,
    pub animation: Option<Animation>,
    pub audio: Option<Audio>,
    pub contact: Option<Contact>,
    pub dice: Option<Dice>,
    pub document: Option<Document>,
    pub live_photo: Option<JsonValue>,
    pub paid_media: Option<Box<PaidMediaInfo>>,
    pub location: Option<JsonValue>,
    pub photo: Option<Vec<PhotoSize>>,
    pub sticker: Option<JsonValue>,
    pub story: Option<Story>,
    pub venue: Option<JsonValue>,
    pub video: Option<Video>,
    pub video_note: Option<VideoNote>,
    pub voice: Option<Voice>,
    pub poll: Option<Box<Poll>>,
    pub show_caption_above_media: bool,
    pub has_media_spoiler: bool,
    pub checklist: Option<Box<Checklist>>,
    pub game: Option<Box<Game>>,
    pub web_app_data: Option<JsonValue>,
    pub write_access_allowed: Option<WriteAccessAllowed>,
    pub new_chat_members: Option<Vec<User>>,
    pub left_chat_member: Option<User>,
    pub chat_owner_left: Option<ChatOwnerLeft>,
    pub chat_owner_changed: Option<ChatOwnerChanged>,
    pub new_chat_title: Option<String>,
    pub new_chat_photo: Option<Vec<PhotoSize>>,
    pub delete_chat_photo: bool,
    pub group_chat_created: bool,
    pub supergroup_chat_created: bool,
    pub channel_chat_created: bool,
    pub pinned_message: Option<Box<MaybeInaccessibleMessage>>,
    pub message_auto_delete_timer_changed: Option<MessageAutoDeleteTimerChanged>,
    pub migrate_to_chat_id: Option<i64>,
    pub migrate_from_chat_id: Option<i64>,
    pub invoice: Option<Box<Invoice>>,
    pub successful_payment: Option<Box<SuccessfulPayment>>,
    pub refunded_payment: Option<Box<RefundedPayment>>,
    pub gift: Option<Box<GiftInfo>>,
    pub unique_gift: Option<Box<UniqueGiftInfo>>,
    pub gift_upgrade_sent: Option<Box<GiftInfo>>,
    pub users_shared: Option<UsersShared>,
    pub chat_shared: Option<ChatShared>,
    pub connected_website: Option<String>,
    pub proximity_alert_triggered: Option<Box<ProximityAlertTriggered>>,
    pub boost_added: Option<Box<ChatBoostAdded>>,
    pub chat_background_set: Option<Box<ChatBackground>>,
    pub checklist_tasks_done: Option<Box<ChecklistTasksDone>>,
    pub checklist_tasks_added: Option<Box<ChecklistTasksAdded>>,
    pub direct_message_price_changed: Option<Box<DirectMessagePriceChanged>>,
    pub forum_topic_created: Option<ForumTopicCreated>,
    pub forum_topic_edited: Option<ForumTopicEdited>,
    pub forum_topic_closed: Option<ForumTopicClosed>,
    pub forum_topic_reopened: Option<ForumTopicReopened>,
    pub general_forum_topic_hidden: Option<GeneralForumTopicHidden>,
    pub general_forum_topic_unhidden: Option<GeneralForumTopicUnhidden>,
    pub giveaway_created: Option<Box<GiveawayCreated>>,
    pub giveaway: Option<Box<Giveaway>>,
    pub giveaway_winners: Option<Box<GiveawayWinners>>,
    pub giveaway_completed: Option<Box<GiveawayCompleted>>,
    pub managed_bot_created: Option<Box<ManagedBotCreated>>,
    pub paid_message_price_changed: Option<Box<PaidMessagePriceChanged>>,
    pub poll_option_added: Option<Box<PollOptionAdded>>,
    pub poll_option_deleted: Option<Box<PollOptionDeleted>>,
    pub suggested_post_approved: Option<Box<SuggestedPostApproved>>,
    pub suggested_post_approval_failed: Option<Box<SuggestedPostApprovalFailed>>,
    pub suggested_post_declined: Option<Box<SuggestedPostDeclined>>,
    pub suggested_post_paid: Option<Box<SuggestedPostPaid>>,
    pub suggested_post_refunded: Option<Box<SuggestedPostRefunded>>,
    pub video_chat_scheduled: Option<VideoChatScheduled>,
    pub video_chat_started: Option<VideoChatStarted>,
    pub video_chat_ended: Option<VideoChatEnded>,
    pub video_chat_participants_invited: Option<VideoChatParticipantsInvited>,
    pub reply_markup: Option<JsonValue>,
    /// Fields of the response that this model does not name.
    pub extra: JsonMap,
}

impl Message {
    /// `content` records exactly which content fields of this message are
    /// present, and the keys of its fields that no typed field holds.
    pub open spec fn content_matches(&self, content: MessageContent) -> bool {
        &&& content.write_access_allowed == (self.write_access_allowed is Some)
        &&& content.web_app_data == (self.web_app_data is Some)
        &&& content.connected_website == (self.connected_website is Some)
        &&& content.poll == (self.poll is Some)
        &&& content.paid_media == (self.paid_media is Some)
        &&& content.checklist == (self.checklist is Some)
        &&& content.game == (self.game is Some)
        &&& content.invoice == (self.invoice is Some)
        &&& content.successful_payment == (self.successful_payment is Some)
        &&& content.refunded_payment == (self.refunded_payment is Some)
        &&& content.gift == (self.gift is Some)
        &&& content.unique_gift == (self.unique_gift is Some)
        &&& content.gift_upgrade_sent == (self.gift_upgrade_sent is Some)
        &&& content.new_chat_members == (self.new_chat_members is Some)
        &&& content.left_chat_member == (self.left_chat_member is Some)
        &&& content.chat_owner_left == (self.chat_owner_left is Some)
        &&& content.chat_owner_changed == (self.chat_owner_changed is Some)
        &&& content.new_chat_title == (self.new_chat_title is Some)
        &&& content.new_chat_photo == (self.new_chat_photo is Some)
        &&& content.delete_chat_photo == self.delete_chat_photo
        &&& content.group_chat_created == self.group_chat_created
        &&& content.supergroup_chat_created == self.supergroup_chat_created
        &&& content.channel_chat_created == self.channel_chat_created
        &&& content.pinned_message == (self.pinned_message is Some)
        &&& content.message_auto_delete_timer_changed == (self.message_auto_delete_timer_changed is Some)
        &&& content.migrate_to_chat_id == (self.migrate_to_chat_id is Some)
        &&& content.migrate_from_chat_id == (self.migrate_from_chat_id is Some)
        &&& content.users_shared == (self.users_shared is Some)
        &&& content.chat_shared == (self.chat_shared is Some)
        &&& content.proximity_alert_triggered == (self.proximity_alert_triggered is Some)
        &&& content.boost_added == (self.boost_added is Some)
        &&& content.chat_background_set == (self.chat_background_set is Some)
        &&& content.checklist_tasks_done == (self.checklist_tasks_done is Some)
        &&& content.checklist_tasks_added == (self.checklist_tasks_added is Some)
        &&& content.direct_message_price_changed == (self.direct_message_price_changed is Some)
        &&& content.forum_topic_created == (self.forum_topic_created is Some)
        &&& content.forum_topic_edited == (self.forum_topic_edited is Some)
        &&& content.forum_topic_closed == (self.forum_topic_closed is Some)
        &&& content.forum_topic_reopened == (self.forum_topic_reopened is Some)
        &&& content.general_forum_topic_hidden == (self.general_forum_topic_hidden is Some)
        &&& content.general_forum_topic_unhidden == (self.general_forum_topic_unhidden is Some)
        &&& content.giveaway_created == (self.giveaway_created is Some)
        &&& content.giveaway == (self.giveaway is Some)
        &&& content.giveaway_winners == (self.giveaway_winners is Some)
        &&& content.giveaway_completed == (self.giveaway_completed is Some)
        &&& content.managed_bot_created == (self.managed_bot_created is Some)
        &&& content.paid_message_price_changed == (self.paid_message_price_changed is Some)
        &&& content.poll_option_added == (self.poll_option_added is Some)
        &&& content.poll_option_deleted == (self.poll_option_deleted is Some)
        &&& content.suggested_post_approved == (self.suggested_post_approved is Some)
        &&& content.suggested_post_approval_failed == (self.suggested_post_approval_failed is Some)
        &&& content.suggested_post_declined == (self.suggested_post_declined is Some)
        &&& content.suggested_post_paid == (self.suggested_post_paid is Some)
        &&& content.suggested_post_refunded == (self.suggested_post_refunded is Some)
        &&& content.video_chat_scheduled == (self.video_chat_scheduled is Some)
        &&& content.video_chat_started == (self.video_chat_started is Some)
        &&& content.video_chat_ended == (self.video_chat_ended is Some)
        &&& content.video_chat_participants_invited == (self.video_chat_participants_invited is Some)
        &&& content.animation == (self.animation is Some)
        &&& content.audio == (self.audio is Some)
        &&& content.contact == (self.contact is Some)
        &&& content.dice == (self.dice is Some)
        &&& content.document == (self.document is Some)
        &&& content.live_photo == (self.live_photo is Some)
        &&& content.location == (self.location is Some)
        &&& content.photo == (self.photo is Some)
        &&& content.sticker == (self.sticker is Some)
        &&& content.story == (self.story is Some)
        &&& content.venue == (self.venue is Some)
        &&& content.video == (self.video is Some)
        &&& content.video_note == (self.video_note is Some)
        &&& content.voice == (self.voice is Some)
        &&& content.text == (self.text is Some)
        &&& content.caption == (self.caption is Some)
        &&& content.extra_keys@.len() == self.extra.pairs().len()
        &&& forall|i: int|
            0 <= i < content.extra_keys@.len() ==> #[trigger] content.extra_keys@[i]@
                == self.extra.pairs()[i].0@
    }

    /// Which content fields are present, as `has_kind` reads them.
    pub fn content(&self) -> (r: MessageContent)
        ensures
            self.content_matches(r),
    {
        let mut extra_keys: Vec<String> = Vec::new();
        let mut i: usize = 0;
        while i < self.extra.len()
            invariant
                i <= self.extra.pairs().len(),
                extra_keys@.len() == i,
                forall|j: int| 0 <= j < i ==> #[trigger] extra_keys@[j]@ == self.extra.pairs()[j].0@,
            decreases self.extra.pairs().len() - i,
        {
            extra_keys.push(self.extra.key_at(i).clone());
            i = i + 1;
        }
        MessageContent {
            write_access_allowed: self.write_access_allowed.is_some(),
            web_app_data: self.web_app_data.is_some(),
            connected_website: self.connected_website.is_some(),
            poll: self.poll.is_some(),
            paid_media: self.paid_media.is_some(),
            checklist: self.checklist.is_some(),
            game: self.game.is_some(),
            invoice: self.invoice.is_some(),
            successful_payment: self.successful_payment.is_some(),
            refunded_payment: self.refunded_payment.is_some(),
            gift: self.gift.is_some(),
            unique_gift: self.unique_gift.is_some(),
            gift_upgrade_sent: self.gift_upgrade_sent.is_some(),
            new_chat_members: self.new_chat_members.is_some(),
            left_chat_member: self.left_chat_member.is_some(),
            chat_owner_left: self.chat_owner_left.is_some(),
            chat_owner_changed: self.chat_owner_changed.is_some(),
            new_chat_title: self.new_chat_title.is_some(),
            new_chat_photo: self.new_chat_photo.is_some(),
            delete_chat_photo: self.delete_chat_photo,
            group_chat_created: self.group_chat_created,
            supergroup_chat_created: self.supergroup_chat_created,
            channel_chat_created: self.channel_chat_created,
            pinned_message: self.pinned_message.is_some(),
            message_auto_delete_timer_changed: self.message_auto_delete_timer_changed.is_some(),
            migrate_to_chat_id: self.migrate_to_chat_id.is_some(),
            migrate_from_chat_id: self.migrate_from_chat_id.is_some(),
            users_shared: self.users_shared.is_some(),
            chat_shared: self.chat_shared.is_some(),
            proximity_alert_triggered: self.proximity_alert_triggered.is_some(),
            boost_added: self.boost_added.is_some(),
            chat_background_set: self.chat_background_set.is_some(),
            checklist_tasks_done: self.checklist_tasks_done.is_some(),
            checklist_tasks_added: self.checklist_tasks_added.is_some(),
            direct_message_price_changed: self.direct_message_price_changed.is_some(),
            forum_topic_created: self.forum_topic_created.is_some(),
            forum_topic_edited: self.forum_topic_edited.is_some(),
            forum_topic_closed: self.forum_topic_closed.is_some(),
            forum_topic_reopened: self.forum_topic_reopened.is_some(),
            general_forum_topic_hidden: self.general_forum_topic_hidden.is_some(),
            general_forum_topic_unhidden: self.general_forum_topic_unhidden.is_some(),
            giveaway_created: self.giveaway_created.is_some(),
            giveaway: self.giveaway.is_some(),
            giveaway_winners: self.giveaway_winners.is_some(),
            giveaway_completed: self.giveaway_completed.is_some(),
            managed_bot_created: self.managed_bot_created.is_some(),
            paid_message_price_changed: self.paid_message_price_changed.is_some(),
            poll_option_added: self.poll_option_added.is_some(),
            poll_option_deleted: self.poll_option_deleted.is_some(),
            suggested_post_approved: self.suggested_post_approved.is_some(),
            suggested_post_approval_failed: self.suggested_post_approval_failed.is_some(),
            suggested_post_declined: self.suggested_post_declined.is_some(),
            suggested_post_paid: self.suggested_post_paid.is_some(),
            suggested_post_refunded: self.suggested_post_refunded.is_some(),
            video_chat_scheduled: self.video_chat_scheduled.is_some(),
            video_chat_started: self.video_chat_started.is_some(),
            video_chat_ended: self.video_chat_ended.is_some(),
            video_chat_participants_invited: self.video_chat_participants_invited.is_some(),
            animation: self.animation.is_some(),
            audio: self.audio.is_some(),
            contact: self.contact.is_some(),
            dice: self.dice.is_some(),
            document: self.document.is_some(),
            live_photo: self.live_photo.is_some(),
            location: self.location.is_some(),
            photo: self.photo.is_some(),
            sticker: self.sticker.is_some(),
            story: self.story.is_some(),
            venue: self.venue.is_some(),
            video: self.video.is_some(),
            video_note: self.video_note.is_some(),
            voice: self.voice.is_some(),
            text: self.text.is_some(),
            caption: self.caption.is_some(),
            extra_keys,
        }
    }

    pub fn chat(&self) -> (r: &Chat)
        ensures
            *r == self.chat,
    {
        &self.chat
    }

    pub fn from_user(&self) -> (r: Option<&User>)
        ensures
            match r {
                Some(v) => self.from matches Some(f) && *v == f,
                None => self.from is None,
            },
    {
        match &self.from {
            Some(v) => Some(v),
            None => None,
        }
    }

    pub fn sender_chat(&self) -> (r: Option<&Chat>)
        ensures
            match r {
                Some(v) => self.sender_chat matches Some(f) && *v == f,
                None => self.sender_chat is None,
            },
    {
        match &self.sender_chat {
            Some(v) => Some(v),
            None => None,
        }
    }

    pub fn reply_to_message(&self) -> (r: Option<&MaybeInaccessibleMessage>)
        ensures
            match r {
                Some(v) => self.reply_to_message matches Some(f) && *v == *f,
                None => self.reply_to_message is None,
            },
    {
        match &self.reply_to_message {
            Some(v) => Some(&**v),
            None => None,
        }
    }

    pub fn pinned_message(&self) -> (r: Option<&MaybeInaccessibleMessage>)
        ensures
            match r {
                Some(v) => self.pinned_message matches Some(f) && *v == *f,
                None => self.pinned_message is None,
            },
    {
        match &self.pinned_message {
            Some(v) => Some(&**v),
            None => None,
        }
    }

    pub fn web_app_data(&self) -> (r: Option<&JsonValue>)
        ensures
            match r {
                Some(v) => self.web_app_data matches Some(f) && *v == f,
                None => self.web_app_data is None,
            },
    {
        match &self.web_app_data {
            Some(v) => Some(v),
            None => None,
        }
    }

    pub fn write_access_allowed(&self) -> (r: Option<&WriteAccessAllowed>)
        ensures
            match r {
                Some(v) => self.write_access_allowed matches Some(f) && *v == f,
                None => self.write_access_allowed is None,
            },
    {
        match &self.write_access_allowed {
            Some(v) => Some(v),
            None => None,
        }
    }

    pub fn forward_origin(&self) -> (r: Option<&MessageOrigin>)
        ensures
            match r {
                Some(v) => self.forward_origin matches Some(f) && *v == f,
                None => self.forward_origin is None,
            },
    {
        match &self.forward_origin {
            Some(v) => Some(v),
            None => None,
        }
    }

    pub fn is_automatic_forward(&self) -> (r: bool)
        ensures
            r == self.is_automatic_forward,
    {
        self.is_automatic_forward
    }


    /// Whether the message carries content of `kind`: the field that stands for
    /// `kind` is present, or for `Unknown`, the message holds content no typed
    /// field models, or no typed content at all.
    pub fn has_kind(&self, kind: MessageKind) -> (r: bool)
        ensures
            forall|c: MessageContent| self.content_matches(c) ==> r == c.has_kind_spec(kind),
    {
        match kind {
            MessageKind::WriteAccessAllowed => self.write_access_allowed.is_some(),
            MessageKind::WebAppData => self.web_app_data.is_some(),
            MessageKind::ConnectedWebsite => self.connected_website.is_some(),
            MessageKind::Poll => self.poll.is_some(),
            MessageKind::PaidMedia => self.paid_media.is_some(),
            MessageKind::Checklist => self.checklist.is_some(),
            MessageKind::Game => self.game.is_some(),
            MessageKind::Invoice => self.invoice.is_some(),
            MessageKind::SuccessfulPayment => self.successful_payment.is_some(),
            MessageKind::RefundedPayment => self.refunded_payment.is_some(),
            MessageKind::Gift => self.gift.is_some(),
            MessageKind::UniqueGift => self.unique_gift.is_some(),
            MessageKind::GiftUpgradeSent => self.gift_upgrade_sent.is_some(),
            MessageKind::NewChatMembers => self.new_chat_members.is_some(),
            MessageKind::LeftChatMember => self.left_chat_member.is_some(),
            MessageKind::ChatOwnerLeft => self.chat_owner_left.is_some(),
            MessageKind::ChatOwnerChanged => self.chat_owner_changed.is_some(),
            MessageKind::NewChatTitle => self.new_chat_title.is_some(),
            MessageKind::NewChatPhoto => self.new_chat_photo.is_some(),
            MessageKind::DeleteChatPhoto => self.delete_chat_photo,
            MessageKind::GroupChatCreated => self.group_chat_created,
            MessageKind::SupergroupChatCreated => self.supergroup_chat_created,
            MessageKind::ChannelChatCreated => self.channel_chat_created,
            MessageKind::PinnedMessage => self.pinned_message.is_some(),
            MessageKind::MessageAutoDeleteTimerChanged => self.message_auto_delete_timer_changed.is_some(),
            MessageKind::MigrateToChat => self.migrate_to_chat_id.is_some(),
            MessageKind::MigrateFromChat => self.migrate_from_chat_id.is_some(),
            MessageKind::UsersShared => self.users_shared.is_some(),
            MessageKind::ChatShared => self.chat_shared.is_some(),
            MessageKind::ProximityAlertTriggered => self.proximity_alert_triggered.is_some(),
            MessageKind::BoostAdded => self.boost_added.is_some(),
            MessageKind::ChatBackgroundSet => self.chat_background_set.is_some(),
            MessageKind::ChecklistTasksDone => self.checklist_tasks_done.is_some(),
            MessageKind::ChecklistTasksAdded => self.checklist_tasks_added.is_some(),
            MessageKind::DirectMessagePriceChanged => self.direct_message_price_changed.is_some(),
            MessageKind::ForumTopicCreated => self.forum_topic_created.is_some(),
            MessageKind::ForumTopicEdited => self.forum_topic_edited.is_some(),
            MessageKind::ForumTopicClosed => self.forum_topic_closed.is_some(),
            MessageKind::ForumTopicReopened => self.forum_topic_reopened.is_some(),
            MessageKind::GeneralForumTopicHidden => self.general_forum_topic_hidden.is_some(),
            MessageKind::GeneralForumTopicUnhidden => self.general_forum_topic_unhidden.is_some(),
            MessageKind::GiveawayCreated => self.giveaway_created.is_some(),
            MessageKind::Giveaway => self.giveaway.is_some(),
            MessageKind::GiveawayWinners => self.giveaway_winners.is_some(),
            MessageKind::GiveawayCompleted => self.giveaway_completed.is_some(),
            MessageKind::ManagedBotCreated => self.managed_bot_created.is_some(),
            MessageKind::PaidMessagePriceChanged => self.paid_message_price_changed.is_some(),
            MessageKind::PollOptionAdded => self.poll_option_added.is_some(),
            MessageKind::PollOptionDeleted => self.poll_option_deleted.is_some(),
            MessageKind::SuggestedPostApproved => self.suggested_post_approved.is_some(),
            MessageKind::SuggestedPostApprovalFailed => self.suggested_post_approval_failed.is_some(),
            MessageKind::SuggestedPostDeclined => self.suggested_post_declined.is_some(),
            MessageKind::SuggestedPostPaid => self.suggested_post_paid.is_some(),
            MessageKind::SuggestedPostRefunded => self.suggested_post_refunded.is_some(),
            MessageKind::VideoChatScheduled => self.video_chat_scheduled.is_some(),
            MessageKind::VideoChatStarted => self.video_chat_started.is_some(),
            MessageKind::VideoChatEnded => self.video_chat_ended.is_some(),
            MessageKind::VideoChatParticipantsInvited => self.video_chat_participants_invited.is_some(),
            MessageKind::Animation => self.animation.is_some(),
            MessageKind::Audio => self.audio.is_some(),
            MessageKind::Contact => self.contact.is_some(),
            MessageKind::Dice => self.dice.is_some(),
            MessageKind::Document => self.document.is_some(),
            MessageKind::LivePhoto => self.live_photo.is_some(),
            MessageKind::Location => self.location.is_some(),
            MessageKind::Photo => self.photo.is_some(),
            MessageKind::Sticker => self.sticker.is_some(),
            MessageKind::Story => self.story.is_some(),
            MessageKind::Venue => self.venue.is_some(),
            MessageKind::Video => self.video.is_some(),
            MessageKind::VideoNote => self.video_note.is_some(),
            MessageKind::Voice => self.voice.is_some(),
            MessageKind::Text => self.text.is_some(),
            MessageKind::Caption => self.caption.is_some(),
            MessageKind::Unknown => {
                let content = self.content();
                proof {
                    assert forall|c: MessageContent| self.content_matches(c) implies c.has_kind_spec(
                        MessageKind::Unknown,
                    ) == content.has_kind_spec(MessageKind::Unknown) by {
                        lemma_matching_contents_agree_on_unknown(*self, c, content);
                    }
                }
                content.has_kind(MessageKind::Unknown)
            },
        }
    }

    /// The primary kind: the first known kind in the fixed order, or `Unknown`.
    pub fn kind(&self) -> (r: MessageKind)
        ensures
            forall|c: MessageContent| self.content_matches(c) ==> r == c.kind_spec(),
    {
        let mut i: usize = 0;
        while i < KNOWN_MESSAGE_KIND_COUNT
            invariant
                i <= KNOWN_MESSAGE_KIND_COUNT,
                forall|c: MessageContent| self.content_matches(c) ==> c.kinds_upto(i as nat).len() == 0,
            decreases KNOWN_MESSAGE_KIND_COUNT - i,
        {
            let kind = message_kind_at(i);
            if self.has_kind(kind) {
                proof {
                    assert forall|c: MessageContent| self.content_matches(c) implies kind == c.kind_spec() by {
                        assert(c.kinds_upto((i + 1) as nat) =~= seq![kind]);
                        c.lemma_kinds_upto_prefix((i + 1) as nat, KNOWN_MESSAGE_KIND_COUNT as nat);
                        let known = c.kinds_upto(KNOWN_MESSAGE_KIND_COUNT as nat);
                        assert(known.subrange(0, 1)[0] == known[0]);
                    }
                }
                return kind;
            }
            i = i + 1;
        }
        MessageKind::Unknown
    }

    /// Every kind the message has, in the fixed kind order, `Unknown` last.
    pub fn kinds(&self) -> (r: Vec<MessageKind>)
        ensures
            forall|c: MessageContent| self.content_matches(c) ==> r@ == c.kinds_spec(),
    {
        let mut out: Vec<MessageKind> = Vec::new();
        let mut i: usize = 0;
        while i < KNOWN_MESSAGE_KIND_COUNT + 1
            invariant
                i <= KNOWN_MESSAGE_KIND_COUNT + 1,
                forall|c: MessageContent| self.content_matches(c) ==> out@ == c.kinds_upto(i as nat),
            decreases KNOWN_MESSAGE_KIND_COUNT + 1 - i,
        {
            let kind = message_kind_at(i);
            if self.has_kind(kind) {
                out.push(kind);
            }
            i = i + 1;
        }
        out
    }
}

/// Contents with the same extra keys agree on whether unmodeled content is present.
proof fn lemma_same_keys_same_unmodeled(a: MessageContent, b: MessageContent)
    requires
        a.extra_keys@.len() == b.extra_keys@.len(),
        forall|i: int| 0 <= i < a.extra_keys@.len() ==> #[trigger] a.extra_keys@[i]@ == b.extra_keys@[i]@,
    ensures
        a.has_unmodeled_content_spec() == b.has_unmodeled_content_spec(),
{
    if a.has_unmodeled_content_spec() {
        let i = choose|i: int|
            0 <= i < a.extra_keys@.len() && is_unmodeled_message_content_key(#[trigger] a.extra_keys@[i]@);
        assert(is_unmodeled_message_content_key(b.extra_keys@[i]@));
    }
    if b.has_unmodeled_content_spec() {
        let i = choose|i: int|
            0 <= i < b.extra_keys@.len() && is_unmodeled_message_content_key(#[trigger] b.extra_keys@[i]@);
        assert(a.extra_keys@[i]@ == b.extra_keys@[i]@);
        assert(is_unmodeled_message_content_key(a.extra_keys@[i]@));
    }
}

/// Two contents record the same presence of every content field.
pub open spec fn same_flags(a: MessageContent, b: MessageContent) -> bool {
    &&& a.write_access_allowed == b.write_access_allowed
    &&& a.web_app_data == b.web_app_data
    &&& a.connected_website == b.connected_website
    &&& a.poll == b.poll
    &&& a.paid_media == b.paid_media
    &&& a.checklist == b.checklist
    &&& a.game == b.game
    &&& a.invoice == b.invoice
    &&& a.successful_payment == b.successful_payment
    &&& a.refunded_payment == b.refunded_payment
    &&& a.gift == b.gift
    &&& a.unique_gift == b.unique_gift
    &&& a.gift_upgrade_sent == b.gift_upgrade_sent
    &&& a.new_chat_members == b.new_chat_members
    &&& a.left_chat_member == b.left_chat_member
    &&& a.chat_owner_left == b.chat_owner_left
    &&& a.chat_owner_changed == b.chat_owner_changed
    &&& a.new_chat_title == b.new_chat_title
    &&& a.new_chat_photo == b.new_chat_photo
    &&& a.delete_chat_photo == b.delete_chat_photo
    &&& a.group_chat_created == b.group_chat_created
    &&& a.supergroup_chat_created == b.supergroup_chat_created
    &&& a.channel_chat_created == b.channel_chat_created
    &&& a.pinned_message == b.pinned_message
    &&& a.message_auto_delete_timer_changed == b.message_auto_delete_timer_changed
    &&& a.migrate_to_chat_id == b.migrate_to_chat_id
    &&& a.migrate_from_chat_id == b.migrate_from_chat_id
    &&& a.users_shared == b.users_shared
    &&& a.chat_shared == b.chat_shared
    &&& a.proximity_alert_triggered == b.proximity_alert_triggered
    &&& a.boost_added == b.boost_added
    &&& a.chat_background_set == b.chat_background_set
    &&& a.checklist_tasks_done == b.checklist_tasks_done
    &&& a.checklist_tasks_added == b.checklist_tasks_added
    &&& a.direct_message_price_changed == b.direct_message_price_changed
    &&& a.forum_topic_created == b.forum_topic_created
    &&& a.forum_topic_edited == b.forum_topic_edited
    &&& a.forum_topic_closed == b.forum_topic_closed
    &&& a.forum_topic_reopened == b.forum_topic_reopened
    &&& a.general_forum_topic_hidden == b.general_forum_topic_hidden
    &&& a.general_forum_topic_unhidden == b.general_forum_topic_unhidden
    &&& a.giveaway_created == b.giveaway_created
    &&& a.giveaway == b.giveaway
    &&& a.giveaway_winners == b.giveaway_winners
    &&& a.giveaway_completed == b.giveaway_completed
    &&& a.managed_bot_created == b.managed_bot_created
    &&& a.paid_message_price_changed == b.paid_message_price_changed
    &&& a.poll_option_added == b.poll_option_added
    &&& a.poll_option_deleted == b.poll_option_deleted
    &&& a.suggested_post_approved == b.suggested_post_approved
    &&& a.suggested_post_approval_failed == b.suggested_post_approval_failed
    &&& a.suggested_post_declined == b.suggested_post_declined
    &&& a.suggested_post_paid == b.suggested_post_paid
    &&& a.suggested_post_refunded == b.suggested_post_refunded
    &&& a.video_chat_scheduled == b.video_chat_scheduled
    &&& a.video_chat_started == b.video_chat_started
    &&& a.video_chat_ended == b.video_chat_ended
    &&& a.video_chat_participants_invited == b.video_chat_participants_invited
    &&& a.animation == b.animation
    &&& a.audio == b.audio
    &&& a.contact == b.contact
    &&& a.dice == b.dice
    &&& a.document == b.document
    &&& a.live_photo == b.live_photo
    &&& a.location == b.location
    &&& a.photo == b.photo
    &&& a.sticker == b.sticker
    &&& a.story == b.story
    &&& a.venue == b.venue
    &&& a.video == b.video
    &&& a.video_note == b.video_note
    &&& a.voice == b.voice
    &&& a.text == b.text
    &&& a.caption == b.caption
}

proof fn lemma_matching_contents_same_keys(message: Message, a: MessageContent, b: MessageContent)
    requires
        message.content_matches(a),
        message.content_matches(b),
    ensures
        a.extra_keys@.len() == b.extra_keys@.len(),
        forall|i: int| 0 <= i < a.extra_keys@.len() ==> #[trigger] a.extra_keys@[i]@ == b.extra_keys@[i]@,
{
    assert forall|i: int| 0 <= i < a.extra_keys@.len() implies #[trigger] a.extra_keys@[i]@
        == b.extra_keys@[i]@ by {
        assert(a.extra_keys@[i]@ == message.extra.pairs()[i].0@);
        assert(b.extra_keys@[i]@ == message.extra.pairs()[i].0@);
    }
}

proof fn lemma_matching_contents_same_flags(message: Message, a: MessageContent, b: MessageContent)
    requires
        message.content_matches(a),
        message.content_matches(b),
    ensures
        same_flags(a, b),
{
}

proof fn lemma_same_flags_same_modeled(a: MessageContent, b: MessageContent)
    requires
        same_flags(a, b),
    ensures
        a.has_modeled_kind_spec() == b.has_modeled_kind_spec(),
{
}

proof fn lemma_unknown_unfolds(a: MessageContent)
    ensures
        a.has_kind_spec(MessageKind::Unknown) == (a.has_unmodeled_content_spec() || !a.has_modeled_kind_spec()),
{
}

proof fn lemma_same_flags_same_unknown(a: MessageContent, b: MessageContent)
    requires
        same_flags(a, b),
        a.has_unmodeled_content_spec() == b.has_unmodeled_content_spec(),
    ensures
        a.has_kind_spec(MessageKind::Unknown) == b.has_kind_spec(MessageKind::Unknown),
{
    lemma_same_flags_same_modeled(a, b);
    lemma_unknown_unfolds(a);
    lemma_unknown_unfolds(b);
}

/// Two records of the same message's content agree on `Unknown`.
proof fn lemma_matching_contents_agree_on_unknown(message: Message, a: MessageContent, b: MessageContent)
    requires
        message.content_matches(a),
        message.content_matches(b),
    ensures
        a.has_kind_spec(MessageKind::Unknown) == b.has_kind_spec(MessageKind::Unknown),
{
    lemma_matching_contents_same_keys(message, a, b);
    lemma_same_keys_same_unmodeled(a, b);
    lemma_matching_contents_same_flags(message, a, b);
    lemma_same_flags_same_unknown(a, b);
}
/// The fields of a message that the typed model names; every other key of a
/// message response is an extra field.
pub open spec fn message_fields() -> Seq<&'static str> {
    seq!["message_id", "from", "sender_chat", "sender_boost_count", "chat", "date", "guest_query_id", "business_connection_id", "author_signature", "sender_business_bot", "sender_tag", "message_thread_id", "direct_messages_topic", "is_topic_message", "forward_origin", "is_automatic_forward", "reply_to_message", "external_reply", "quote", "reply_to_story", "reply_to_checklist_task_id", "reply_to_poll_option_id", "via_bot", "guest_bot_caller_user", "guest_bot_caller_chat", "edit_date", "has_protected_content", "is_from_offline", "is_paid_post", "media_group_id", "paid_star_count", "text", "caption", "entities", "caption_entities", "link_preview_options", "suggested_post_info", "effect_id", "animation", "audio", "contact", "dice", "document", "live_photo", "paid_media", "location", "photo", "sticker", "story", "venue", "video", "video_note", "voice", "poll", "show_caption_above_media", "has_media_spoiler", "checklist", "game", "web_app_data", "write_access_allowed", "new_chat_members", "left_chat_member", "chat_owner_left", "chat_owner_changed", "new_chat_title", "new_chat_photo", "delete_chat_photo", "group_chat_created", "supergroup_chat_created", "channel_chat_created", "pinned_message", "message_auto_delete_timer_changed", "migrate_to_chat_id", "migrate_from_chat_id", "invoice", "successful_payment", "refunded_payment", "gift", "unique_gift", "gift_upgrade_sent", "users_shared", "chat_shared", "connected_website", "proximity_alert_triggered", "boost_added", "chat_background_set", "checklist_tasks_done", "checklist_tasks_added", "direct_message_price_changed", "forum_topic_created", "forum_topic_edited", "forum_topic_closed", "forum_topic_reopened", "general_forum_topic_hidden", "general_forum_topic_unhidden", "giveaway_created", "giveaway", "giveaway_winners", "giveaway_completed", "managed_bot_created", "paid_message_price_changed", "poll_option_added", "poll_option_deleted", "suggested_post_approved", "suggested_post_approval_failed", "suggested_post_declined", "suggested_post_paid", "suggested_post_refunded", "video_chat_scheduled", "video_chat_started", "video_chat_ended", "video_chat_participants_invited", "reply_markup"]
}

fn message_fields_array() -> (r: [&'static str; 113])
    ensures
        r@ == message_fields(),
{
    let r = ["message_id", "from", "sender_chat", "sender_boost_count", "chat", "date", "guest_query_id", "business_connection_id", "author_signature", "sender_business_bot", "sender_tag", "message_thread_id", "direct_messages_topic", "is_topic_message", "forward_origin", "is_automatic_forward", "reply_to_message", "external_reply", "quote", "reply_to_story", "reply_to_checklist_task_id", "reply_to_poll_option_id", "via_bot", "guest_bot_caller_user", "guest_bot_caller_chat", "edit_date", "has_protected_content", "is_from_offline", "is_paid_post", "media_group_id", "paid_star_count", "text", "caption", "entities", "caption_entities", "link_preview_options", "suggested_post_info", "effect_id", "animation", "audio", "contact", "dice", "document", "live_photo", "paid_media", "location", "photo", "sticker", "story", "venue", "video", "video_note", "voice", "poll", "show_caption_above_media", "has_media_spoiler", "checklist", "game", "web_app_data", "write_access_allowed", "new_chat_members", "left_chat_member", "chat_owner_left", "chat_owner_changed", "new_chat_title", "new_chat_photo", "delete_chat_photo", "group_chat_created", "supergroup_chat_created", "channel_chat_created", "pinned_message", "message_auto_delete_timer_changed", "migrate_to_chat_id", "migrate_from_chat_id", "invoice", "successful_payment", "refunded_payment", "gift", "unique_gift", "gift_upgrade_sent", "users_shared", "chat_shared", "connected_website", "proximity_alert_triggered", "boost_added", "chat_background_set", "checklist_tasks_done", "checklist_tasks_added", "direct_message_price_changed", "forum_topic_created", "forum_topic_edited", "forum_topic_closed", "forum_topic_reopened", "general_forum_topic_hidden", "general_forum_topic_unhidden", "giveaway_created", "giveaway", "giveaway_winners", "giveaway_completed", "managed_bot_created", "paid_message_price_changed", "poll_option_added", "poll_option_deleted", "suggested_post_approved", "suggested_post_approval_failed", "suggested_post_declined", "suggested_post_paid", "suggested_post_refunded", "video_chat_scheduled", "video_chat_started", "video_chat_ended", "video_chat_participants_invited", "reply_markup"];
    assert(r@ =~= message_fields());
    r
}

/// The entries of an object response; a response of another shape has none.
pub open spec fn response_entries(value: JsonView) -> Seq<(Seq<char>, JsonView)> {
    match value {
        JsonView::Object(entries) => entries,
        _ => Seq::empty(),
    }
}

/// The response carries a non-null value under `key`.
pub open spec fn field_present(value: JsonView, key: Seq<char>) -> bool {
    match first_entry(response_entries(value), key) {
        Some(v) => v != JsonView::Null,
        None => false,
    }
}

/// The response carries `true` under `key`.
pub open spec fn field_set(value: JsonView, key: Seq<char>) -> bool {
    first_entry(response_entries(value), key) == Some(JsonView::Bool(true))
}

/// The keys among `entries` that no name of `reserved` takes, in order.
pub open spec fn unnamed_keys(entries: Seq<(Seq<char>, JsonView)>, reserved: Seq<&str>) -> Seq<Seq<char>>
    decreases entries.len(),
{
    if entries.len() == 0 {
        Seq::empty()
    } else {
        let rest = unnamed_keys(entries.drop_last(), reserved);
        if is_reserved(entries.last().0, reserved) {
            rest
        } else {
            rest.push(entries.last().0)
        }
    }
}

fn present(entries: &Vec<(String, JsonValue)>, key: &str) -> (r: bool)
    ensures
        r == match first_entry(pairs_view(entries@), key@) {
            Some(v) => v != JsonView::Null,
            None => false,
        },
{
    match first_value(entries, key) {
        Some(JsonValue::Null) => false,
        Some(_) => true,
        None => false,
    }
}

fn set(entries: &Vec<(String, JsonValue)>, key: &str) -> (r: bool)
    ensures
        r == (first_entry(pairs_view(entries@), key@) == Some(JsonView::Bool(true))),
{
    match first_value(entries, key) {
        Some(JsonValue::Bool(b)) => *b,
        _ => false,
    }
}

impl MessageContent {
    /// Which content fields a message response carries, read from its JSON:
    /// a field is present when its value is not null, a service flag when it is
    /// `true`, and every key that no typed field names is an extra key.
    pub fn from_response(value: &JsonValue) -> (r: MessageContent)
        ensures
            r.write_access_allowed == field_present(value.json(), "write_access_allowed"@),
            r.web_app_data == field_present(value.json(), "web_app_data"@),
            r.connected_website == field_present(value.json(), "connected_website"@),
            r.poll == field_present(value.json(), "poll"@),
            r.paid_media == field_present(value.json(), "paid_media"@),
            r.checklist == field_present(value.json(), "checklist"@),
            r.game == field_present(value.json(), "game"@),
            r.invoice == field_present(value.json(), "invoice"@),
            r.successful_payment == field_present(value.json(), "successful_payment"@),
            r.refunded_payment == field_present(value.json(), "refunded_payment"@),
            r.gift == field_present(value.json(), "gift"@),
            r.unique_gift == field_present(value.json(), "unique_gift"@),
            r.gift_upgrade_sent == field_present(value.json(), "gift_upgrade_sent"@),
            r.new_chat_members == field_present(value.json(), "new_chat_members"@),
            r.left_chat_member == field_present(value.json(), "left_chat_member"@),
            r.chat_owner_left == field_present(value.json(), "chat_owner_left"@),
            r.chat_owner_changed == field_present(value.json(), "chat_owner_changed"@),
            r.new_chat_title == field_present(value.json(), "new_chat_title"@),
            r.new_chat_photo == field_present(value.json(), "new_chat_photo"@),
            r.delete_chat_photo == field_set(value.json(), "delete_chat_photo"@),
            r.group_chat_created == field_set(value.json(), "group_chat_created"@),
            r.supergroup_chat_created == field_set(value.json(), "supergroup_chat_created"@),
            r.channel_chat_created == field_set(value.json(), "channel_chat_created"@),
            r.pinned_message == field_present(value.json(), "pinned_message"@),
            r.message_auto_delete_timer_changed == field_present(value.json(), "message_auto_delete_timer_changed"@),
            r.migrate_to_chat_id == field_present(value.json(), "migrate_to_chat_id"@),
            r.migrate_from_chat_id == field_present(value.json(), "migrate_from_chat_id"@),
            r.users_shared == field_present(value.json(), "users_shared"@),
            r.chat_shared == field_present(value.json(), "chat_shared"@),
            r.proximity_alert_triggered == field_present(value.json(), "proximity_alert_triggered"@),
            r.boost_added == field_present(value.json(), "boost_added"@),
            r.chat_background_set == field_present(value.json(), "chat_background_set"@),
            r.checklist_tasks_done == field_present(value.json(), "checklist_tasks_done"@),
            r.checklist_tasks_added == field_present(value.json(), "checklist_tasks_added"@),
            r.direct_message_price_changed == field_present(value.json(), "direct_message_price_changed"@),
            r.forum_topic_created == field_present(value.json(), "forum_topic_created"@),
            r.forum_topic_edited == field_present(value.json(), "forum_topic_edited"@),
            r.forum_topic_closed == field_present(value.json(), "forum_topic_closed"@),
            r.forum_topic_reopened == field_present(value.json(), "forum_topic_reopened"@),
            r.general_forum_topic_hidden == field_present(value.json(), "general_forum_topic_hidden"@),
            r.general_forum_topic_unhidden == field_present(value.json(), "general_forum_topic_unhidden"@),
            r.giveaway_created == field_present(value.json(), "giveaway_created"@),
            r.giveaway == field_present(value.json(), "giveaway"@),
            r.giveaway_winners == field_present(value.json(), "giveaway_winners"@),
            r.giveaway_completed == field_present(value.json(), "giveaway_completed"@),
            r.managed_bot_created == field_present(value.json(), "managed_bot_created"@),
            r.paid_message_price_changed == field_present(value.json(), "paid_message_price_changed"@),
            r.poll_option_added == field_present(value.json(), "poll_option_added"@),
            r.poll_option_deleted == field_present(value.json(), "poll_option_deleted"@),
            r.suggested_post_approved == field_present(value.json(), "suggested_post_approved"@),
            r.suggested_post_approval_failed == field_present(value.json(), "suggested_post_approval_failed"@),
            r.suggested_post_declined == field_present(value.json(), "suggested_post_declined"@),
            r.suggested_post_paid == field_present(value.json(), "suggested_post_paid"@),
            r.suggested_post_refunded == field_present(value.json(), "suggested_post_refunded"@),
            r.video_chat_scheduled == field_present(value.json(), "video_chat_scheduled"@),
            r.video_chat_started == field_present(value.json(), "video_chat_started"@),
            r.video_chat_ended == field_present(value.json(), "video_chat_ended"@),
            r.video_chat_participants_invited == field_present(value.json(), "video_chat_participants_invited"@),
            r.animation == field_present(value.json(), "animation"@),
            r.audio == field_present(value.json(), "audio"@),
            r.contact == field_present(value.json(), "contact"@),
            r.dice == field_present(value.json(), "dice"@),
            r.document == field_present(value.json(), "document"@),
            r.live_photo == field_present(value.json(), "live_photo"@),
            r.location == field_present(value.json(), "location"@),
            r.photo == field_present(value.json(), "photo"@),
            r.sticker == field_present(value.json(), "sticker"@),
            r.story == field_present(value.json(), "story"@),
            r.venue == field_present(value.json(), "venue"@),
            r.video == field_present(value.json(), "video"@),
            r.video_note == field_present(value.json(), "video_note"@),
            r.voice == field_present(value.json(), "voice"@),
            r.text == field_present(value.json(), "text"@),
            r.caption == field_present(value.json(), "caption"@),
            r.extra_keys@.len() == unnamed_keys(response_entries(value.json()), message_fields()).len(),
            forall|i: int| 0 <= i < r.extra_keys@.len() ==> #[trigger] r.extra_keys@[i]@
                == unnamed_keys(response_entries(value.json()), message_fields())[i],
    {
        let empty: Vec<(String, JsonValue)> = Vec::new();
        let entries = match value {
            JsonValue::Object(e) => e,
            _ => &empty,
        };
        assert(pairs_view(entries@) =~= response_entries(value.json()));
        let fields = message_fields_array();
        let ghost view = pairs_view(entries@);
        let mut extra_keys: Vec<String> = Vec::new();
        let mut i: usize = 0;
        while i < entries.len()
            invariant
                i <= entries@.len(),
                view == pairs_view(entries@),
                fields@ == message_fields(),
                extra_keys@.len() == unnamed_keys(view.take(i as int), message_fields()).len(),
                forall|j: int| 0 <= j < extra_keys@.len() ==> #[trigger] extra_keys@[j]@
                    == unnamed_keys(view.take(i as int), message_fields())[j],
            decreases entries@.len() - i,
        {
            assert(view.take(i + 1).drop_last() =~= view.take(i as int));
            assert(view.take(i + 1).last() == (entries@[i as int].0@, entries@[i as int].1.json()));
            if !is_reserved_key(entries[i].0.as_str(), &fields) {
                extra_keys.push(entries[i].0.clone());
            }
            i = i + 1;
        }
        assert(view.take(view.len() as int) =~= view);
        MessageContent {
            write_access_allowed: present(entries, "write_access_allowed"),
            web_app_data: present(entries, "web_app_data"),
            connected_website: present(entries, "connected_website"),
            poll: present(entries, "poll"),
            paid_media: present(entries, "paid_media"),
            checklist: present(entries, "checklist"),
            game: present(entries, "game"),
            invoice: present(entries, "invoice"),
            successful_payment: present(entries, "successful_payment"),
            refunded_payment: present(entries, "refunded_payment"),
            gift: present(entries, "gift"),
            unique_gift: present(entries, "unique_gift"),
            gift_upgrade_sent: present(entries, "gift_upgrade_sent"),
            new_chat_members: present(entries, "new_chat_members"),
            left_chat_member: present(entries, "left_chat_member"),
            chat_owner_left: present(entries, "chat_owner_left"),
            chat_owner_changed: present(entries, "chat_owner_changed"),
            new_chat_title: present(entries, "new_chat_title"),
            new_chat_photo: present(entries, "new_chat_photo"),
            delete_chat_photo: set(entries, "delete_chat_photo"),
            group_chat_created: set(entries, "group_chat_created"),
            supergroup_chat_created: set(entries, "supergroup_chat_created"),
            channel_chat_created: set(entries, "channel_chat_created"),
            pinned_message: present(entries, "pinned_message"),
            message_auto_delete_timer_changed: present(entries, "message_auto_delete_timer_changed"),
            migrate_to_chat_id: present(entries, "migrate_to_chat_id"),
            migrate_from_chat_id: present(entries, "migrate_from_chat_id"),
            users_shared: present(entries, "users_shared"),
            chat_shared: present(entries, "chat_shared"),
            proximity_alert_triggered: present(entries, "proximity_alert_triggered"),
            boost_added: present(entries, "boost_added"),
            chat_background_set: present(entries, "chat_background_set"),
            checklist_tasks_done: present(entries, "checklist_tasks_done"),
            checklist_tasks_added: present(entries, "checklist_tasks_added"),
            direct_message_price_changed: present(entries, "direct_message_price_changed"),
            forum_topic_created: present(entries, "forum_topic_created"),
            forum_topic_edited: present(entries, "forum_topic_edited"),
            forum_topic_closed: present(entries, "forum_topic_closed"),
            forum_topic_reopened: present(entries, "forum_topic_reopened"),
            general_forum_topic_hidden: present(entries, "general_forum_topic_hidden"),
            general_forum_topic_unhidden: present(entries, "general_forum_topic_unhidden"),
            giveaway_created: present(entries, "giveaway_created"),
            giveaway: present(entries, "giveaway"),
            giveaway_winners: present(entries, "giveaway_winners"),
            giveaway_completed: present(entries, "giveaway_completed"),
            managed_bot_created: present(entries, "managed_bot_created"),
            paid_message_price_changed: present(entries, "paid_message_price_changed"),
            poll_option_added: present(entries, "poll_option_added"),
            poll_option_deleted: present(entries, "poll_option_deleted"),
            suggested_post_approved: present(entries, "suggested_post_approved"),
            suggested_post_approval_failed: present(entries, "suggested_post_approval_failed"),
            suggested_post_declined: present(entries, "suggested_post_declined"),
            suggested_post_paid: present(entries, "suggested_post_paid"),
            suggested_post_refunded: present(entries, "suggested_post_refunded"),
            video_chat_scheduled: present(entries, "video_chat_scheduled"),
            video_chat_started: present(entries, "video_chat_started"),
            video_chat_ended: present(entries, "video_chat_ended"),
            video_chat_participants_invited: present(entries, "video_chat_participants_invited"),
            animation: present(entries, "animation"),
            audio: present(entries, "audio"),
            contact: present(entries, "contact"),
            dice: present(entries, "dice"),
            document: present(entries, "document"),
            live_photo: present(entries, "live_photo"),
            location: present(entries, "location"),
            photo: present(entries, "photo"),
            sticker: present(entries, "sticker"),
            story: present(entries, "story"),
            venue: present(entries, "venue"),
            video: present(entries, "video"),
            video_note: present(entries, "video_note"),
            voice: present(entries, "voice"),
            text: present(entries, "text"),
            caption: present(entries, "caption"),
            extra_keys,
        }
    }
}

impl MessageContent {
    /// This content with the field that stands for `kind` set as well; for
    /// `Unknown`, which no field stands for, the content unchanged.
    pub open spec fn with_kind(self, kind: MessageKind) -> MessageContent {
        match kind {
            MessageKind::WriteAccessAllowed => MessageContent { write_access_allowed: true, ..self },
            MessageKind::WebAppData => MessageContent { web_app_data: true, ..self },
            MessageKind::ConnectedWebsite => MessageContent { connected_website: true, ..self },
            MessageKind::Poll => MessageContent { poll: true, ..self },
            MessageKind::PaidMedia => MessageContent { paid_media: true, ..self },
            MessageKind::Checklist => MessageContent { checklist: true, ..self },
            MessageKind::Game => MessageContent { game: true, ..self },
            MessageKind::Invoice => MessageContent { invoice: true, ..self },
            MessageKind::SuccessfulPayment => MessageContent { successful_payment: true, ..self },
            MessageKind::RefundedPayment => MessageContent { refunded_payment: true, ..self },
            MessageKind::Gift => MessageContent { gift: true, ..self },
            MessageKind::UniqueGift => MessageContent { unique_gift: true, ..self },
            MessageKind::GiftUpgradeSent => MessageContent { gift_upgrade_sent: true, ..self },
            MessageKind::NewChatMembers => MessageContent { new_chat_members: true, ..self },
            MessageKind::LeftChatMember => MessageContent { left_chat_member: true, ..self },
            MessageKind::ChatOwnerLeft => MessageContent { chat_owner_left: true, ..self },
            MessageKind::ChatOwnerChanged => MessageContent { chat_owner_changed: true, ..self },
            MessageKind::NewChatTitle => MessageContent { new_chat_title: true, ..self },
            MessageKind::NewChatPhoto => MessageContent { new_chat_photo: true, ..self },
            MessageKind::DeleteChatPhoto => MessageContent { delete_chat_photo: true, ..self },
            MessageKind::GroupChatCreated => MessageContent { group_chat_created: true, ..self },
            MessageKind::SupergroupChatCreated => MessageContent { supergroup_chat_created: true, ..self },
            MessageKind::ChannelChatCreated => MessageContent { channel_chat_created: true, ..self },
            MessageKind::PinnedMessage => MessageContent { pinned_message: true, ..self },
            MessageKind::MessageAutoDeleteTimerChanged => MessageContent { message_auto_delete_timer_changed: true, ..self },
            MessageKind::MigrateToChat => MessageContent { migrate_to_chat_id: true, ..self },
            MessageKind::MigrateFromChat => MessageContent { migrate_from_chat_id: true, ..self },
            MessageKind::UsersShared => MessageContent { users_shared: true, ..self },
            MessageKind::ChatShared => MessageContent { chat_shared: true, ..self },
            MessageKind::ProximityAlertTriggered => MessageContent { proximity_alert_triggered: true, ..self },
            MessageKind::BoostAdded => MessageContent { boost_added: true, ..self },
            MessageKind::ChatBackgroundSet => MessageContent { chat_background_set: true, ..self },
            MessageKind::ChecklistTasksDone => MessageContent { checklist_tasks_done: true, ..self },
            MessageKind::ChecklistTasksAdded => MessageContent { checklist_tasks_added: true, ..self },
            MessageKind::DirectMessagePriceChanged => MessageContent { direct_message_price_changed: true, ..self },
            MessageKind::ForumTopicCreated => MessageContent { forum_topic_created: true, ..self },
            MessageKind::ForumTopicEdited => MessageContent { forum_topic_edited: true, ..self },
            MessageKind::ForumTopicClosed => MessageContent { forum_topic_closed: true, ..self },
            MessageKind::ForumTopicReopened => MessageContent { forum_topic_reopened: true, ..self },
            MessageKind::GeneralForumTopicHidden => MessageContent { general_forum_topic_hidden: true, ..self },
            MessageKind::GeneralForumTopicUnhidden => MessageContent { general_forum_topic_unhidden: true, ..self },
            MessageKind::GiveawayCreated => MessageContent { giveaway_created: true, ..self },
            MessageKind::Giveaway => MessageContent { giveaway: true, ..self },
            MessageKind::GiveawayWinners => MessageContent { giveaway_winners: true, ..self },
            MessageKind::GiveawayCompleted => MessageContent { giveaway_completed: true, ..self },
            MessageKind::ManagedBotCreated => MessageContent { managed_bot_created: true, ..self },
            MessageKind::PaidMessagePriceChanged => MessageContent { paid_message_price_changed: true, ..self },
            MessageKind::PollOptionAdded => MessageContent { poll_option_added: true, ..self },
            MessageKind::PollOptionDeleted => MessageContent { poll_option_deleted: true, ..self },
            MessageKind::SuggestedPostApproved => MessageContent { suggested_post_approved: true, ..self },
            MessageKind::SuggestedPostApprovalFailed => MessageContent { suggested_post_approval_failed: true, ..self },
            MessageKind::SuggestedPostDeclined => MessageContent { suggested_post_declined: true, ..self },
            MessageKind::SuggestedPostPaid => MessageContent { suggested_post_paid: true, ..self },
            MessageKind::SuggestedPostRefunded => MessageContent { suggested_post_refunded: true, ..self },
            MessageKind::VideoChatScheduled => MessageContent { video_chat_scheduled: true, ..self },
            MessageKind::VideoChatStarted => MessageContent { video_chat_started: true, ..self },
            MessageKind::VideoChatEnded => MessageContent { video_chat_ended: true, ..self },
            MessageKind::VideoChatParticipantsInvited => MessageContent { video_chat_participants_invited: true, ..self },
            MessageKind::Animation => MessageContent { animation: true, ..self },
            MessageKind::Audio => MessageContent { audio: true, ..self },
            MessageKind::Contact => MessageContent { contact: true, ..self },
            MessageKind::Dice => MessageContent { dice: true, ..self },
            MessageKind::Document => MessageContent { document: true, ..self },
            MessageKind::LivePhoto => MessageContent { live_photo: true, ..self },
            MessageKind::Location => MessageContent { location: true, ..self },
            MessageKind::Photo => MessageContent { photo: true, ..self },
            MessageKind::Sticker => MessageContent { sticker: true, ..self },
            MessageKind::Story => MessageContent { story: true, ..self },
            MessageKind::Venue => MessageContent { venue: true, ..self },
            MessageKind::Video => MessageContent { video: true, ..self },
            MessageKind::VideoNote => MessageContent { video_note: true, ..self },
            MessageKind::Voice => MessageContent { voice: true, ..self },
            MessageKind::Text => MessageContent { text: true, ..self },
            MessageKind::Caption => MessageContent { caption: true, ..self },
            MessageKind::Unknown => self,
        }
    }
}

/// Each known kind stands for a content field of its own: a content that
/// carries the field of one known kind and no other content has that kind and
/// no other, `Unknown` included. So no field counts for two kinds, and no kind
/// is read from a field other than its own.
pub proof fn lemma_single_field_has_only_its_kind(
    base: MessageContent,
    kind: MessageKind,
    other: MessageKind,
)
    requires
        !base.has_modeled_kind_spec(),
        !base.has_unmodeled_content_spec(),
        !(kind is Unknown),
    ensures
        base.with_kind(kind).has_kind_spec(other) == (other == kind),
{
    assert(base.with_kind(kind).extra_keys == base.extra_keys);
}

/// A content that carries the field of one known kind and no other content
/// lists that kind alone, and that kind is its kind.
pub proof fn lemma_single_field_kinds(base: MessageContent, kind: MessageKind)
    requires
        !base.has_modeled_kind_spec(),
        !base.has_unmodeled_content_spec(),
        !(kind is Unknown),
    ensures
        forall|other: MessageKind| #[trigger] base.with_kind(kind).kinds_spec().contains(other) == (other == kind),
        base.with_kind(kind).kind_spec() == kind,
{
    let c = base.with_kind(kind);
    assert forall|other: MessageKind| #[trigger] c.kinds_spec().contains(other) == (other == kind) by {
        lemma_single_field_has_only_its_kind(base, kind, other);
        c.lemma_kinds_upto_contains((KNOWN_MESSAGE_KIND_COUNT + 1) as nat, other);
        lemma_kind_index(other);
    }
    let known = c.kinds_upto(KNOWN_MESSAGE_KIND_COUNT as nat);
    lemma_single_field_has_only_its_kind(base, kind, kind);
    c.lemma_kinds_upto_contains(KNOWN_MESSAGE_KIND_COUNT as nat, kind);
    lemma_kind_index(kind);
    assert(known.contains(kind));
    let first = known[0];
    assert(known.contains(first));
    c.lemma_kinds_upto_contains(KNOWN_MESSAGE_KIND_COUNT as nat, first);
    lemma_single_field_has_only_its_kind(base, kind, first);
}

} // verus!
