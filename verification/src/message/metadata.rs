use vstd::prelude::*;

use crate::text::str_eq;
use crate::bot::{opt_text_entry, push_opt_text};
use crate::json::{
    append_extra_fields, is_reserved, keys_reserved, lemma_extra_never_overrides,
    lemma_keys_reserved_append, lemma_opt_json_entry_key, opt_int_entry, opt_json_entry,
    pairs_view, push_entry, push_object, push_opt_int, push_opt_json, visible_extra,
    JsonMap, JsonValue, JsonView,
};
use crate::message::payments::{star_amount_entries, StarAmount};

verus! {

/// State of a suggested post.
#[derive(Clone, Debug, PartialEq, Eq, Hash)]
pub enum SuggestedPostState {
    Pending,
    Approved,
    Declined,
    /// A name this model does not know, kept as received.
    Unknown(String),
}

/// The wire name of a `SuggestedPostState`.
pub open spec fn suggested_post_state_name(kind: SuggestedPostState) -> Seq<char> {
    match kind {
        SuggestedPostState::Pending => "pending"@,
        SuggestedPostState::Approved => "approved"@,
        SuggestedPostState::Declined => "declined"@,
        SuggestedPostState::Unknown(value) => value@,
    }
}

/// The `SuggestedPostState` that a wire name is read as.
pub open spec fn suggested_post_state_from_name(value: String) -> SuggestedPostState {
    if value@ == "pending"@ {
        SuggestedPostState::Pending
    } else if value@ == "approved"@ {
        SuggestedPostState::Approved
    } else if value@ == "declined"@ {
        SuggestedPostState::Declined
    } else {
        SuggestedPostState::Unknown(value)
    }
}

impl SuggestedPostState {
    pub fn as_str(&self) -> (r: &str)
        ensures
            r@ == suggested_post_state_name(*self),
    {
        match self {
            SuggestedPostState::Pending => "pending",
            SuggestedPostState::Approved => "approved",
            SuggestedPostState::Declined => "declined",
            SuggestedPostState::Unknown(value) => value.as_str(),
        }
    }

    /// Reads a wire name; a name this model does not know is kept as `Unknown`.
    pub fn from_name(value: String) -> (r: Self)
        ensures
            r == suggested_post_state_from_name(value),
    {
        if str_eq(value.as_str(), "pending") {
            SuggestedPostState::Pending
        } else if str_eq(value.as_str(), "approved") {
            SuggestedPostState::Approved
        } else if str_eq(value.as_str(), "declined") {
            SuggestedPostState::Declined
        } else {
            SuggestedPostState::Unknown(value)
        }
    }
}

/// Reading a wire name and writing it back gives the same text, known or not.
pub proof fn lemma_suggested_post_state_name_round_trip(value: String)
    ensures
        suggested_post_state_name(suggested_post_state_from_name(value)) == value@,
{
}

/// A known `SuggestedPostState` is read back from its own wire name.
pub proof fn lemma_suggested_post_state_known_round_trip(kind: SuggestedPostState, value: String)
    requires
        !(kind is Unknown),
        value@ == suggested_post_state_name(kind),
    ensures
        suggested_post_state_from_name(value) == kind,
{
    match kind {
        SuggestedPostState::Pending => {
            reveal_strlit("pending");
        },
        SuggestedPostState::Approved => {
            reveal_strlit("approved");
            reveal_strlit("pending");
            assert("approved"@.len() != "pending"@.len());
        },
        SuggestedPostState::Declined => {
            reveal_strlit("declined");
            reveal_strlit("pending");
            assert("declined"@.len() != "pending"@.len());
            reveal_strlit("approved");
            assert("declined"@[0] != "approved"@[0]);
        },
        SuggestedPostState::Unknown(_) => {},
    }
}
/// Why the payment for a suggested post was refunded.
#[derive(Clone, Debug, PartialEq, Eq, Hash)]
pub enum SuggestedPostRefundReason {
    PostDeleted,
    PaymentRefunded,
    /// A name this model does not know, kept as received.
    Unknown(String),
}

/// The wire name of a `SuggestedPostRefundReason`.
pub open spec fn suggested_post_refund_reason_name(kind: SuggestedPostRefundReason) -> Seq<char> {
    match kind {
        SuggestedPostRefundReason::PostDeleted => "post_deleted"@,
        SuggestedPostRefundReason::PaymentRefunded => "payment_refunded"@,
        SuggestedPostRefundReason::Unknown(value) => value@,
    }
}

/// The `SuggestedPostRefundReason` that a wire name is read as.
pub open spec fn suggested_post_refund_reason_from_name(value: String) -> SuggestedPostRefundReason {
    if value@ == "post_deleted"@ {
        SuggestedPostRefundReason::PostDeleted
    } else if value@ == "payment_refunded"@ {
        SuggestedPostRefundReason::PaymentRefunded
    } else {
        SuggestedPostRefundReason::Unknown(value)
    }
}

impl SuggestedPostRefundReason {
    pub fn as_str(&self) -> (r: &str)
        ensures
            r@ == suggested_post_refund_reason_name(*self),
    {
        match self {
            SuggestedPostRefundReason::PostDeleted => "post_deleted",
            SuggestedPostRefundReason::PaymentRefunded => "payment_refunded",
            SuggestedPostRefundReason::Unknown(value) => value.as_str(),
        }
    }

    /// Reads a wire name; a name this model does not know is kept as `Unknown`.
    pub fn from_name(value: String) -> (r: Self)
        ensures
            r == suggested_post_refund_reason_from_name(value),
    {
        if str_eq(value.as_str(), "post_deleted") {
            SuggestedPostRefundReason::PostDeleted
        } else if str_eq(value.as_str(), "payment_refunded") {
            SuggestedPostRefundReason::PaymentRefunded
        } else {
            SuggestedPostRefundReason::Unknown(value)
        }
    }
}

/// Reading a wire name and writing it back gives the same text, known or not.
pub proof fn lemma_suggested_post_refund_reason_name_round_trip(value: String)
    ensures
        suggested_post_refund_reason_name(suggested_post_refund_reason_from_name(value)) == value@,
{
}

/// A known `SuggestedPostRefundReason` is read back from its own wire name.
pub proof fn lemma_suggested_post_refund_reason_known_round_trip(kind: SuggestedPostRefundReason, value: String)
    requires
        !(kind is Unknown),
        value@ == suggested_post_refund_reason_name(kind),
    ensures
        suggested_post_refund_reason_from_name(value) == kind,
{
    match kind {
        SuggestedPostRefundReason::PostDeleted => {
            reveal_strlit("post_deleted");
        },
        SuggestedPostRefundReason::PaymentRefunded => {
            reveal_strlit("payment_refunded");
            reveal_strlit("post_deleted");
            assert("payment_refunded"@.len() != "post_deleted"@.len());
        },
        SuggestedPostRefundReason::Unknown(_) => {},
    }
}
/// The kinds of content a message can carry, in the order `MessageContent::kinds` lists them.
#[derive(Clone, Copy, Debug, PartialEq, Eq, Hash, PartialOrd, Ord, Structural)]
pub enum MessageKind {
    WriteAccessAllowed,
    WebAppData,
    ConnectedWebsite,
    Poll,
    PaidMedia,
    Checklist,
    Game,
    Invoice,
    SuccessfulPayment,
    RefundedPayment,
    Gift,
    UniqueGift,
    GiftUpgradeSent,
    NewChatMembers,
    LeftChatMember,
    ChatOwnerLeft,
    ChatOwnerChanged,
    NewChatTitle,
    NewChatPhoto,
    DeleteChatPhoto,
    GroupChatCreated,
    SupergroupChatCreated,
    ChannelChatCreated,
    PinnedMessage,
    MessageAutoDeleteTimerChanged,
    MigrateToChat,
    MigrateFromChat,
    UsersShared,
    ChatShared,
    ProximityAlertTriggered,
    BoostAdded,
    ChatBackgroundSet,
    ChecklistTasksDone,
    ChecklistTasksAdded,
    DirectMessagePriceChanged,
    ForumTopicCreated,
    ForumTopicEdited,
    ForumTopicClosed,
    ForumTopicReopened,
    GeneralForumTopicHidden,
    GeneralForumTopicUnhidden,
    GiveawayCreated,
    Giveaway,
    GiveawayWinners,
    GiveawayCompleted,
    ManagedBotCreated,
    PaidMessagePriceChanged,
    PollOptionAdded,
    PollOptionDeleted,
    SuggestedPostApproved,
    SuggestedPostApprovalFailed,
    SuggestedPostDeclined,
    SuggestedPostPaid,
    SuggestedPostRefunded,
    VideoChatScheduled,
    VideoChatStarted,
    VideoChatEnded,
    VideoChatParticipantsInvited,
    Animation,
    Audio,
    Contact,
    Dice,
    Document,
    LivePhoto,
    Location,
    Photo,
    Sticker,
    Story,
    Venue,
    Video,
    VideoNote,
    Voice,
    Text,
    Caption,
    Unknown,
}

/// Number of kinds other than `Unknown`.
pub const KNOWN_MESSAGE_KIND_COUNT: usize = 74;

/// The kind at position `i` of the fixed kind order; `Unknown` comes last.
#[verifier::opaque]
pub open spec fn kind_at(i: int) -> MessageKind {
    if i == 0 {
        MessageKind::WriteAccessAllowed
    } else if i == 1 {
        MessageKind::WebAppData
    } else if i == 2 {
        MessageKind::ConnectedWebsite
    } else if i == 3 {
        MessageKind::Poll
    } else if i == 4 {
        MessageKind::PaidMedia
    } else if i == 5 {
        MessageKind::Checklist
    } else if i == 6 {
        MessageKind::Game
    } else if i == 7 {
        MessageKind::Invoice
    } else if i == 8 {
        MessageKind::SuccessfulPayment
    } else if i == 9 {
        MessageKind::RefundedPayment
    } else if i == 10 {
        MessageKind::Gift
    } else if i == 11 {
        MessageKind::UniqueGift
    } else if i == 12 {
        MessageKind::GiftUpgradeSent
    } else if i == 13 {
        MessageKind::NewChatMembers
    } else if i == 14 {
        MessageKind::LeftChatMember
    } else if i == 15 {
        MessageKind::ChatOwnerLeft
    } else if i == 16 {
        MessageKind::ChatOwnerChanged
    } else if i == 17 {
        MessageKind::NewChatTitle
    } else if i == 18 {
        MessageKind::NewChatPhoto
    } else if i == 19 {
        MessageKind::DeleteChatPhoto
    } else if i == 20 {
        MessageKind::GroupChatCreated
    } else if i == 21 {
        MessageKind::SupergroupChatCreated
    } else if i == 22 {
        MessageKind::ChannelChatCreated
    } else if i == 23 {
        MessageKind::PinnedMessage
    } else if i == 24 {
        MessageKind::MessageAutoDeleteTimerChanged
    } else if i == 25 {
        MessageKind::MigrateToChat
    } else if i == 26 {
        MessageKind::MigrateFromChat
    } else if i == 27 {
        MessageKind::UsersShared
    } else if i == 28 {
        MessageKind::ChatShared
    } else if i == 29 {
        MessageKind::ProximityAlertTriggered
    } else if i == 30 {
        MessageKind::BoostAdded
    } else if i == 31 {
        MessageKind::ChatBackgroundSet
    } else if i == 32 {
        MessageKind::ChecklistTasksDone
    } else if i == 33 {
        MessageKind::ChecklistTasksAdded
    } else if i == 34 {
        MessageKind::DirectMessagePriceChanged
    } else if i == 35 {
        MessageKind::ForumTopicCreated
    } else if i == 36 {
        MessageKind::ForumTopicEdited
    } else if i == 37 {
        MessageKind::ForumTopicClosed
    } else if i == 38 {
        MessageKind::ForumTopicReopened
    } else if i == 39 {
        MessageKind::GeneralForumTopicHidden
    } else if i == 40 {
        MessageKind::GeneralForumTopicUnhidden
    } else if i == 41 {
        MessageKind::GiveawayCreated
    } else if i == 42 {
        MessageKind::Giveaway
    } else if i == 43 {
        MessageKind::GiveawayWinners
    } else if i == 44 {
        MessageKind::GiveawayCompleted
    } else if i == 45 {
        MessageKind::ManagedBotCreated
    } else if i == 46 {
        MessageKind::PaidMessagePriceChanged
    } else if i == 47 {
        MessageKind::PollOptionAdded
    } else if i == 48 {
        MessageKind::PollOptionDeleted
    } else if i == 49 {
        MessageKind::SuggestedPostApproved
    } else if i == 50 {
        MessageKind::SuggestedPostApprovalFailed
    } else if i == 51 {
        MessageKind::SuggestedPostDeclined
    } else if i == 52 {
        MessageKind::SuggestedPostPaid
    } else if i == 53 {
        MessageKind::SuggestedPostRefunded
    } else if i == 54 {
        MessageKind::VideoChatScheduled
    } else if i == 55 {
        MessageKind::VideoChatStarted
    } else if i == 56 {
        MessageKind::VideoChatEnded
    } else if i == 57 {
        MessageKind::VideoChatParticipantsInvited
    } else if i == 58 {
        MessageKind::Animation
    } else if i == 59 {
        MessageKind::Audio
    } else if i == 60 {
        MessageKind::Contact
    } else if i == 61 {
        MessageKind::Dice
    } else if i == 62 {
        MessageKind::Document
    } else if i == 63 {
        MessageKind::LivePhoto
    } else if i == 64 {
        MessageKind::Location
    } else if i == 65 {
        MessageKind::Photo
    } else if i == 66 {
        MessageKind::Sticker
    } else if i == 67 {
        MessageKind::Story
    } else if i == 68 {
        MessageKind::Venue
    } else if i == 69 {
        MessageKind::Video
    } else if i == 70 {
        MessageKind::VideoNote
    } else if i == 71 {
        MessageKind::Voice
    } else if i == 72 {
        MessageKind::Text
    } else if i == 73 {
        MessageKind::Caption
    } else {
        MessageKind::Unknown
    }
}

/// The position of a kind in the fixed kind order.
pub open spec fn kind_index(kind: MessageKind) -> int {
    match kind {
        MessageKind::WriteAccessAllowed => 0,
        MessageKind::WebAppData => 1,
        MessageKind::ConnectedWebsite => 2,
        MessageKind::Poll => 3,
        MessageKind::PaidMedia => 4,
        MessageKind::Checklist => 5,
        MessageKind::Game => 6,
        MessageKind::Invoice => 7,
        MessageKind::SuccessfulPayment => 8,
        MessageKind::RefundedPayment => 9,
        MessageKind::Gift => 10,
        MessageKind::UniqueGift => 11,
        MessageKind::GiftUpgradeSent => 12,
        MessageKind::NewChatMembers => 13,
        MessageKind::LeftChatMember => 14,
        MessageKind::ChatOwnerLeft => 15,
        MessageKind::ChatOwnerChanged => 16,
        MessageKind::NewChatTitle => 17,
        MessageKind::NewChatPhoto => 18,
        MessageKind::DeleteChatPhoto => 19,
        MessageKind::GroupChatCreated => 20,
        MessageKind::SupergroupChatCreated => 21,
        MessageKind::ChannelChatCreated => 22,
        MessageKind::PinnedMessage => 23,
        MessageKind::MessageAutoDeleteTimerChanged => 24,
        MessageKind::MigrateToChat => 25,
        MessageKind::MigrateFromChat => 26,
        MessageKind::UsersShared => 27,
        MessageKind::ChatShared => 28,
        MessageKind::ProximityAlertTriggered => 29,
        MessageKind::BoostAdded => 30,
        MessageKind::ChatBackgroundSet => 31,
        MessageKind::ChecklistTasksDone => 32,
        MessageKind::ChecklistTasksAdded => 33,
        MessageKind::DirectMessagePriceChanged => 34,
        MessageKind::ForumTopicCreated => 35,
        MessageKind::ForumTopicEdited => 36,
        MessageKind::ForumTopicClosed => 37,
        MessageKind::ForumTopicReopened => 38,
        MessageKind::GeneralForumTopicHidden => 39,
        MessageKind::GeneralForumTopicUnhidden => 40,
        MessageKind::GiveawayCreated => 41,
        MessageKind::Giveaway => 42,
        MessageKind::GiveawayWinners => 43,
        MessageKind::GiveawayCompleted => 44,
        MessageKind::ManagedBotCreated => 45,
        MessageKind::PaidMessagePriceChanged => 46,
        MessageKind::PollOptionAdded => 47,
        MessageKind::PollOptionDeleted => 48,
        MessageKind::SuggestedPostApproved => 49,
        MessageKind::SuggestedPostApprovalFailed => 50,
        MessageKind::SuggestedPostDeclined => 51,
        MessageKind::SuggestedPostPaid => 52,
        MessageKind::SuggestedPostRefunded => 53,
        MessageKind::VideoChatScheduled => 54,
        MessageKind::VideoChatStarted => 55,
        MessageKind::VideoChatEnded => 56,
        MessageKind::VideoChatParticipantsInvited => 57,
        MessageKind::Animation => 58,
        MessageKind::Audio => 59,
        MessageKind::Contact => 60,
        MessageKind::Dice => 61,
        MessageKind::Document => 62,
        MessageKind::LivePhoto => 63,
        MessageKind::Location => 64,
        MessageKind::Photo => 65,
        MessageKind::Sticker => 66,
        MessageKind::Story => 67,
        MessageKind::Venue => 68,
        MessageKind::Video => 69,
        MessageKind::VideoNote => 70,
        MessageKind::Voice => 71,
        MessageKind::Text => 72,
        MessageKind::Caption => 73,
        MessageKind::Unknown => 74,
    }
}

/// The kind at position `i` of the fixed kind order.
pub fn message_kind_at(i: usize) -> (r: MessageKind)
    ensures
        r == kind_at(i as int),
{
    proof {
        reveal(kind_at);
    }
    match i {
        0 => MessageKind::WriteAccessAllowed,
        1 => MessageKind::WebAppData,
        2 => MessageKind::ConnectedWebsite,
        3 => MessageKind::Poll,
        4 => MessageKind::PaidMedia,
        5 => MessageKind::Checklist,
        6 => MessageKind::Game,
        7 => MessageKind::Invoice,
        8 => MessageKind::SuccessfulPayment,
        9 => MessageKind::RefundedPayment,
        10 => MessageKind::Gift,
        11 => MessageKind::UniqueGift,
        12 => MessageKind::GiftUpgradeSent,
        13 => MessageKind::NewChatMembers,
        14 => MessageKind::LeftChatMember,
        15 => MessageKind::ChatOwnerLeft,
        16 => MessageKind::ChatOwnerChanged,
        17 => MessageKind::NewChatTitle,
        18 => MessageKind::NewChatPhoto,
        19 => MessageKind::DeleteChatPhoto,
        20 => MessageKind::GroupChatCreated,
        21 => MessageKind::SupergroupChatCreated,
        22 => MessageKind::ChannelChatCreated,
        23 => MessageKind::PinnedMessage,
        24 => MessageKind::MessageAutoDeleteTimerChanged,
        25 => MessageKind::MigrateToChat,
        26 => MessageKind::MigrateFromChat,
        27 => MessageKind::UsersShared,
        28 => MessageKind::ChatShared,
        29 => MessageKind::ProximityAlertTriggered,
        30 => MessageKind::BoostAdded,
        31 => MessageKind::ChatBackgroundSet,
        32 => MessageKind::ChecklistTasksDone,
        33 => MessageKind::ChecklistTasksAdded,
        34 => MessageKind::DirectMessagePriceChanged,
        35 => MessageKind::ForumTopicCreated,
        36 => MessageKind::ForumTopicEdited,
        37 => MessageKind::ForumTopicClosed,
        38 => MessageKind::ForumTopicReopened,
        39 => MessageKind::GeneralForumTopicHidden,
        40 => MessageKind::GeneralForumTopicUnhidden,
        41 => MessageKind::GiveawayCreated,
        42 => MessageKind::Giveaway,
        43 => MessageKind::GiveawayWinners,
        44 => MessageKind::GiveawayCompleted,
        45 => MessageKind::ManagedBotCreated,
        46 => MessageKind::PaidMessagePriceChanged,
        47 => MessageKind::PollOptionAdded,
        48 => MessageKind::PollOptionDeleted,
        49 => MessageKind::SuggestedPostApproved,
        50 => MessageKind::SuggestedPostApprovalFailed,
        51 => MessageKind::SuggestedPostDeclined,
        52 => MessageKind::SuggestedPostPaid,
        53 => MessageKind::SuggestedPostRefunded,
        54 => MessageKind::VideoChatScheduled,
        55 => MessageKind::VideoChatStarted,
        56 => MessageKind::VideoChatEnded,
        57 => MessageKind::VideoChatParticipantsInvited,
        58 => MessageKind::Animation,
        59 => MessageKind::Audio,
        60 => MessageKind::Contact,
        61 => MessageKind::Dice,
        62 => MessageKind::Document,
        63 => MessageKind::LivePhoto,
        64 => MessageKind::Location,
        65 => MessageKind::Photo,
        66 => MessageKind::Sticker,
        67 => MessageKind::Story,
        68 => MessageKind::Venue,
        69 => MessageKind::Video,
        70 => MessageKind::VideoNote,
        71 => MessageKind::Voice,
        72 => MessageKind::Text,
        73 => MessageKind::Caption,
        _ => MessageKind::Unknown,
    }
}

/// Every kind sits at its own position of the order.
pub proof fn lemma_kind_index(kind: MessageKind)
    ensures
        0 <= kind_index(kind) <= 74,
        kind_at(kind_index(kind)) == kind,
        (kind_index(kind) == 74) == (kind is Unknown),
{
    reveal(kind_at);
}

/// Each position of the order holds the kind whose position it is.
pub proof fn lemma_kind_at_index(i: int)
    requires
        0 <= i <= 74,
    ensures
        kind_index(kind_at(i)) == i,
{
    reveal(kind_at);
}

/// Two positions of the order hold the same kind only if they are equal.
pub proof fn lemma_kind_at_injective(i: int, j: int)
    requires
        0 <= i <= 74,
        0 <= j <= 74,
        kind_at(i) == kind_at(j),
    ensures
        i == j,
{
    lemma_kind_at_index(i);
    lemma_kind_at_index(j);
}

/// The price of a suggested post.
#[derive(Debug)]
pub struct SuggestedPostPrice {
    pub currency: String,
    pub amount: i64,
    /// Fields of the response that this model does not name.
    pub extra: JsonMap,
}

/// The keys that the typed fields of a `SuggestedPostPrice` occupy.
pub open spec fn suggested_post_price_reserved() -> Seq<&'static str> {
    seq!["currency", "amount"]
}

fn suggested_post_price_reserved_keys() -> (r: [&'static str; 2])
    ensures
        r@ == suggested_post_price_reserved(),
{
    let r = ["currency", "amount"];
    assert(r@ =~= suggested_post_price_reserved());
    r
}

/// The typed fields of a `SuggestedPostPrice`, in the order they are written.
pub open spec fn suggested_post_price_core_entries(m: SuggestedPostPrice) -> Seq<(Seq<char>, JsonView)> {
    seq![("currency"@, JsonView::Text(m.currency@))]
        + seq![("amount"@, JsonView::Int(m.amount))]
}

/// The entries of a serialized `SuggestedPostPrice`: its typed fields, then the extra
/// entries whose key no typed field uses.
pub open spec fn suggested_post_price_entries(m: SuggestedPostPrice) -> Seq<(Seq<char>, JsonView)> {
    suggested_post_price_core_entries(m) + visible_extra(m.extra.pairs(), suggested_post_price_reserved())
}

impl SuggestedPostPrice {
    /// The entries Telegram receives for this value.
    pub fn to_entries(&self) -> (r: Vec<(String, JsonValue)>)
        ensures
            pairs_view(r@) == suggested_post_price_entries(*self),
    {
        let mut out: Vec<(String, JsonValue)> = Vec::new();
        assert(pairs_view(out@) =~= Seq::<(Seq<char>, JsonView)>::empty());
        push_entry(&mut out, "currency", JsonValue::Text(self.currency.clone()));
        push_entry(&mut out, "amount", JsonValue::Int(self.amount));
        let reserved = suggested_post_price_reserved_keys();
        append_extra_fields(&mut out, &self.extra, &reserved);
        assert(pairs_view(out@) =~= suggested_post_price_entries(*self));
        out
    }
}

proof fn lemma_suggested_post_price_core_keys_reserved(m: SuggestedPostPrice)
    ensures
        keys_reserved(suggested_post_price_core_entries(m), suggested_post_price_reserved()),
{
    let r = suggested_post_price_reserved();
    assert(r[0]@ == "currency"@);
    assert(keys_reserved(seq![("currency"@, JsonView::Text(m.currency@))], r));
    assert(r[1]@ == "amount"@);
    assert(keys_reserved(seq![("amount"@, JsonView::Int(m.amount))], r));
    lemma_keys_reserved_append(seq![("currency"@, JsonView::Text(m.currency@))], seq![("amount"@, JsonView::Int(m.amount))], r);
}

/// In a serialized `SuggestedPostPrice`, the entries under its own keys are exactly its
/// typed fields, and every extra entry under another key is kept: an extra
/// field never replaces a typed one.
pub proof fn lemma_suggested_post_price_extra_cannot_override(m: SuggestedPostPrice)
    ensures
        forall|i: int|
            0 <= i < suggested_post_price_entries(m).len() ==> (is_reserved(
                #[trigger] suggested_post_price_entries(m)[i].0,
                suggested_post_price_reserved(),
            ) <==> i < suggested_post_price_core_entries(m).len()),
        forall|j: int|
            0 <= j < m.extra.pairs().len() && !is_reserved(#[trigger] m.extra.pairs()[j].0@, suggested_post_price_reserved())
                ==> suggested_post_price_entries(m).contains((m.extra.pairs()[j].0@, m.extra.pairs()[j].1.json())),
{
    lemma_suggested_post_price_core_keys_reserved(m);
    lemma_extra_never_overrides(suggested_post_price_core_entries(m), m.extra.pairs(), suggested_post_price_reserved());
}

/// Information about a suggested post.
#[derive(Debug)]
pub struct SuggestedPostInfo {
    pub state: SuggestedPostState,
    pub price: Option<SuggestedPostPrice>,
    pub send_date: Option<i64>,
    /// Fields of the response that this model does not name.
    pub extra: JsonMap,
}

/// The keys that the typed fields of a `SuggestedPostInfo` occupy.
pub open spec fn suggested_post_info_reserved() -> Seq<&'static str> {
    seq!["state", "price", "send_date"]
}

fn suggested_post_info_reserved_keys() -> (r: [&'static str; 3])
    ensures
        r@ == suggested_post_info_reserved(),
{
    let r = ["state", "price", "send_date"];
    assert(r@ =~= suggested_post_info_reserved());
    r
}

/// The typed fields of a `SuggestedPostInfo`, in the order they are written.
pub open spec fn suggested_post_info_core_entries(m: SuggestedPostInfo) -> Seq<(Seq<char>, JsonView)> {
    seq![("state"@, JsonView::Text(suggested_post_state_name(m.state)))]
        + match m.price { Some(v) => seq![("price"@, JsonView::Object(suggested_post_price_entries(v)))], None => Seq::empty() }
        + opt_int_entry("send_date"@, m.send_date)
}

/// The entries of a serialized `SuggestedPostInfo`: its typed fields, then the extra
/// entries whose key no typed field uses.
pub open spec fn suggested_post_info_entries(m: SuggestedPostInfo) -> Seq<(Seq<char>, JsonView)> {
    suggested_post_info_core_entries(m) + visible_extra(m.extra.pairs(), suggested_post_info_reserved())
}

impl SuggestedPostInfo {
    /// The entries Telegram receives for this value.
    pub fn to_entries(&self) -> (r: Vec<(String, JsonValue)>)
        ensures
            pairs_view(r@) == suggested_post_info_entries(*self),
    {
        let mut out: Vec<(String, JsonValue)> = Vec::new();
        assert(pairs_view(out@) =~= Seq::<(Seq<char>, JsonView)>::empty());
        push_entry(&mut out, "state", JsonValue::Text(self.state.as_str().to_owned()));
        if let Some(v) = &self.price { push_object(&mut out, "price", v.to_entries()); }
        push_opt_int(&mut out, "send_date", self.send_date);
        let reserved = suggested_post_info_reserved_keys();
        append_extra_fields(&mut out, &self.extra, &reserved);
        assert(pairs_view(out@) =~= suggested_post_info_entries(*self));
        out
    }
}

proof fn lemma_suggested_post_info_core_keys_reserved(m: SuggestedPostInfo)
    ensures
        keys_reserved(suggested_post_info_core_entries(m), suggested_post_info_reserved()),
{
    let r = suggested_post_info_reserved();
    assert(r[0]@ == "state"@);
    assert(keys_reserved(seq![("state"@, JsonView::Text(suggested_post_state_name(m.state)))], r));
    assert(r[1]@ == "price"@);
    assert(keys_reserved(match m.price { Some(v) => seq![("price"@, JsonView::Object(suggested_post_price_entries(v)))], None => Seq::empty() }, r));
    lemma_keys_reserved_append(seq![("state"@, JsonView::Text(suggested_post_state_name(m.state)))], match m.price { Some(v) => seq![("price"@, JsonView::Object(suggested_post_price_entries(v)))], None => Seq::empty() }, r);
    assert(r[2]@ == "send_date"@);
    assert(keys_reserved(opt_int_entry("send_date"@, m.send_date), r));
    lemma_keys_reserved_append(seq![("state"@, JsonView::Text(suggested_post_state_name(m.state)))] + match m.price { Some(v) => seq![("price"@, JsonView::Object(suggested_post_price_entries(v)))], None => Seq::empty() }, opt_int_entry("send_date"@, m.send_date), r);
}

/// In a serialized `SuggestedPostInfo`, the entries under its own keys are exactly its
/// typed fields, and every extra entry under another key is kept: an extra
/// field never replaces a typed one.
pub proof fn lemma_suggested_post_info_extra_cannot_override(m: SuggestedPostInfo)
    ensures
        forall|i: int|
            0 <= i < suggested_post_info_entries(m).len() ==> (is_reserved(
                #[trigger] suggested_post_info_entries(m)[i].0,
                suggested_post_info_reserved(),
            ) <==> i < suggested_post_info_core_entries(m).len()),
        forall|j: int|
            0 <= j < m.extra.pairs().len() && !is_reserved(#[trigger] m.extra.pairs()[j].0@, suggested_post_info_reserved())
                ==> suggested_post_info_entries(m).contains((m.extra.pairs()[j].0@, m.extra.pairs()[j].1.json())),
{
    lemma_suggested_post_info_core_keys_reserved(m);
    lemma_extra_never_overrides(suggested_post_info_core_entries(m), m.extra.pairs(), suggested_post_info_reserved());
}

/// A suggested post that was approved. The message it concerns, where
/// given, is held as the JSON it was read as.
#[derive(Debug)]
pub struct SuggestedPostApproved {
    pub suggested_post_message: Option<JsonValue>,
    pub price: Option<SuggestedPostPrice>,
    pub send_date: i64,
    /// Fields of the response that this model does not name.
    pub extra: JsonMap,
}

/// The keys that the typed fields of a `SuggestedPostApproved` occupy.
pub open spec fn suggested_post_approved_reserved() -> Seq<&'static str> {
    seq!["suggested_post_message", "price", "send_date"]
}

fn suggested_post_approved_reserved_keys() -> (r: [&'static str; 3])
    ensures
        r@ == suggested_post_approved_reserved(),
{
    let r = ["suggested_post_message", "price", "send_date"];
    assert(r@ =~= suggested_post_approved_reserved());
    r
}

/// The typed fields of a `SuggestedPostApproved`, in the order they are written.
pub open spec fn suggested_post_approved_core_entries(m: SuggestedPostApproved) -> Seq<(Seq<char>, JsonView)> {
    opt_json_entry("suggested_post_message"@, m.suggested_post_message)
        + match m.price { Some(v) => seq![("price"@, JsonView::Object(suggested_post_price_entries(v)))], None => Seq::empty() }
        + seq![("send_date"@, JsonView::Int(m.send_date))]
}

/// The entries of a serialized `SuggestedPostApproved`: its typed fields, then the extra
/// entries whose key no typed field uses.
pub open spec fn suggested_post_approved_entries(m: SuggestedPostApproved) -> Seq<(Seq<char>, JsonView)> {
    suggested_post_approved_core_entries(m) + visible_extra(m.extra.pairs(), suggested_post_approved_reserved())
}

impl SuggestedPostApproved {
    /// The entries Telegram receives for this value.
    pub fn to_entries(&self) -> (r: Vec<(String, JsonValue)>)
        ensures
            pairs_view(r@) == suggested_post_approved_entries(*self),
    {
        let mut out: Vec<(String, JsonValue)> = Vec::new();
        assert(pairs_view(out@) =~= Seq::<(Seq<char>, JsonView)>::empty());
        push_opt_json(&mut out, "suggested_post_message", &self.suggested_post_message);
        if let Some(v) = &self.price { push_object(&mut out, "price", v.to_entries()); }
        push_entry(&mut out, "send_date", JsonValue::Int(self.send_date));
        let reserved = suggested_post_approved_reserved_keys();
        append_extra_fields(&mut out, &self.extra, &reserved);
        assert(pairs_view(out@) =~= suggested_post_approved_entries(*self));
        out
    }
}

proof fn lemma_suggested_post_approved_core_keys_reserved(m: SuggestedPostApproved)
    ensures
        keys_reserved(suggested_post_approved_core_entries(m), suggested_post_approved_reserved()),
{
    let r = suggested_post_approved_reserved();
    assert(r[0]@ == "suggested_post_message"@);
    lemma_opt_json_entry_key("suggested_post_message"@, m.suggested_post_message, r);
    assert(r[1]@ == "price"@);
    assert(keys_reserved(match m.price { Some(v) => seq![("price"@, JsonView::Object(suggested_post_price_entries(v)))], None => Seq::empty() }, r));
    lemma_keys_reserved_append(opt_json_entry("suggested_post_message"@, m.suggested_post_message), match m.price { Some(v) => seq![("price"@, JsonView::Object(suggested_post_price_entries(v)))], None => Seq::empty() }, r);
    assert(r[2]@ == "send_date"@);
    assert(keys_reserved(seq![("send_date"@, JsonView::Int(m.send_date))], r));
    lemma_keys_reserved_append(opt_json_entry("suggested_post_message"@, m.suggested_post_message) + match m.price { Some(v) => seq![("price"@, JsonView::Object(suggested_post_price_entries(v)))], None => Seq::empty() }, seq![("send_date"@, JsonView::Int(m.send_date))], r);
}

/// In a serialized `SuggestedPostApproved`, the entries under its own keys are exactly its
/// typed fields, and every extra entry under another key is kept: an extra
/// field never replaces a typed one.
pub proof fn lemma_suggested_post_approved_extra_cannot_override(m: SuggestedPostApproved)
    ensures
        forall|i: int|
            0 <= i < suggested_post_approved_entries(m).len() ==> (is_reserved(
                #[trigger] suggested_post_approved_entries(m)[i].0,
                suggested_post_approved_reserved(),
            ) <==> i < suggested_post_approved_core_entries(m).len()),
        forall|j: int|
            0 <= j < m.extra.pairs().len() && !is_reserved(#[trigger] m.extra.pairs()[j].0@, suggested_post_approved_reserved())
                ==> suggested_post_approved_entries(m).contains((m.extra.pairs()[j].0@, m.extra.pairs()[j].1.json())),
{
    lemma_suggested_post_approved_core_keys_reserved(m);
    lemma_extra_never_overrides(suggested_post_approved_core_entries(m), m.extra.pairs(), suggested_post_approved_reserved());
}

/// A suggested post whose approval failed. The message it concerns, where
/// given, is held as the JSON it was read as.
#[derive(Debug)]
pub struct SuggestedPostApprovalFailed {
    pub suggested_post_message: Option<JsonValue>,
    pub price: SuggestedPostPrice,
    /// Fields of the response that this model does not name.
    pub extra: JsonMap,
}

/// The keys that the typed fields of a `SuggestedPostApprovalFailed` occupy.
pub open spec fn suggested_post_approval_failed_reserved() -> Seq<&'static str> {
    seq!["suggested_post_message", "price"]
}

fn suggested_post_approval_failed_reserved_keys() -> (r: [&'static str; 2])
    ensures
        r@ == suggested_post_approval_failed_reserved(),
{
    let r = ["suggested_post_message", "price"];
    assert(r@ =~= suggested_post_approval_failed_reserved());
    r
}

/// The typed fields of a `SuggestedPostApprovalFailed`, in the order they are written.
pub open spec fn suggested_post_approval_failed_core_entries(m: SuggestedPostApprovalFailed) -> Seq<(Seq<char>, JsonView)> {
    opt_json_entry("suggested_post_message"@, m.suggested_post_message)
        + seq![("price"@, JsonView::Object(suggested_post_price_entries(m.price)))]
}

/// The entries of a serialized `SuggestedPostApprovalFailed`: its typed fields, then the extra
/// entries whose key no typed field uses.
pub open spec fn suggested_post_approval_failed_entries(m: SuggestedPostApprovalFailed) -> Seq<(Seq<char>, JsonView)> {
    suggested_post_approval_failed_core_entries(m) + visible_extra(m.extra.pairs(), suggested_post_approval_failed_reserved())
}

impl SuggestedPostApprovalFailed {
    /// The entries Telegram receives for this value.
    pub fn to_entries(&self) -> (r: Vec<(String, JsonValue)>)
        ensures
            pairs_view(r@) == suggested_post_approval_failed_entries(*self),
    {
        let mut out: Vec<(String, JsonValue)> = Vec::new();
        assert(pairs_view(out@) =~= Seq::<(Seq<char>, JsonView)>::empty());
        push_opt_json(&mut out, "suggested_post_message", &self.suggested_post_message);
        push_object(&mut out, "price", self.price.to_entries());
        let reserved = suggested_post_approval_failed_reserved_keys();
        append_extra_fields(&mut out, &self.extra, &reserved);
        assert(pairs_view(out@) =~= suggested_post_approval_failed_entries(*self));
        out
    }
}

proof fn lemma_suggested_post_approval_failed_core_keys_reserved(m: SuggestedPostApprovalFailed)
    ensures
        keys_reserved(suggested_post_approval_failed_core_entries(m), suggested_post_approval_failed_reserved()),
{
    let r = suggested_post_approval_failed_reserved();
    assert(r[0]@ == "suggested_post_message"@);
    lemma_opt_json_entry_key("suggested_post_message"@, m.suggested_post_message, r);
    assert(r[1]@ == "price"@);
    assert(keys_reserved(seq![("price"@, JsonView::Object(suggested_post_price_entries(m.price)))], r));
    lemma_keys_reserved_append(opt_json_entry("suggested_post_message"@, m.suggested_post_message), seq![("price"@, JsonView::Object(suggested_post_price_entries(m.price)))], r);
}

/// In a serialized `SuggestedPostApprovalFailed`, the entries under its own keys are exactly its
/// typed fields, and every extra entry under another key is kept: an extra
/// field never replaces a typed one.
pub proof fn lemma_suggested_post_approval_failed_extra_cannot_override(m: SuggestedPostApprovalFailed)
    ensures
        forall|i: int|
            0 <= i < suggested_post_approval_failed_entries(m).len() ==> (is_reserved(
                #[trigger] suggested_post_approval_failed_entries(m)[i].0,
                suggested_post_approval_failed_reserved(),
            ) <==> i < suggested_post_approval_failed_core_entries(m).len()),
        forall|j: int|
            0 <= j < m.extra.pairs().len() && !is_reserved(#[trigger] m.extra.pairs()[j].0@, suggested_post_approval_failed_reserved())
                ==> suggested_post_approval_failed_entries(m).contains((m.extra.pairs()[j].0@, m.extra.pairs()[j].1.json())),
{
    lemma_suggested_post_approval_failed_core_keys_reserved(m);
    lemma_extra_never_overrides(suggested_post_approval_failed_core_entries(m), m.extra.pairs(), suggested_post_approval_failed_reserved());
}

/// A suggested post that was declined. The message it concerns, where
/// given, is held as the JSON it was read as.
#[derive(Debug)]
pub struct SuggestedPostDeclined {
    pub suggested_post_message: Option<JsonValue>,
    pub comment: Option<String>,
    /// Fields of the response that this model does not name.
    pub extra: JsonMap,
}

/// The keys that the typed fields of a `SuggestedPostDeclined` occupy.
pub open spec fn suggested_post_declined_reserved() -> Seq<&'static str> {
    seq!["suggested_post_message", "comment"]
}

fn suggested_post_declined_reserved_keys() -> (r: [&'static str; 2])
    ensures
        r@ == suggested_post_declined_reserved(),
{
    let r = ["suggested_post_message", "comment"];
    assert(r@ =~= suggested_post_declined_reserved());
    r
}

/// The typed fields of a `SuggestedPostDeclined`, in the order they are written.
pub open spec fn suggested_post_declined_core_entries(m: SuggestedPostDeclined) -> Seq<(Seq<char>, JsonView)> {
    opt_json_entry("suggested_post_message"@, m.suggested_post_message)
        + opt_text_entry("comment"@, m.comment)
}

/// The entries of a serialized `SuggestedPostDeclined`: its typed fields, then the extra
/// entries whose key no typed field uses.
pub open spec fn suggested_post_declined_entries(m: SuggestedPostDeclined) -> Seq<(Seq<char>, JsonView)> {
    suggested_post_declined_core_entries(m) + visible_extra(m.extra.pairs(), suggested_post_declined_reserved())
}

impl SuggestedPostDeclined {
    /// The entries Telegram receives for this value.
    pub fn to_entries(&self) -> (r: Vec<(String, JsonValue)>)
        ensures
            pairs_view(r@) == suggested_post_declined_entries(*self),
    {
        let mut out: Vec<(String, JsonValue)> = Vec::new();
        assert(pairs_view(out@) =~= Seq::<(Seq<char>, JsonView)>::empty());
        push_opt_json(&mut out, "suggested_post_message", &self.suggested_post_message);
        push_opt_text(&mut out, "comment", &self.comment);
        let reserved = suggested_post_declined_reserved_keys();
        append_extra_fields(&mut out, &self.extra, &reserved);
        assert(pairs_view(out@) =~= suggested_post_declined_entries(*self));
        out
    }
}

proof fn lemma_suggested_post_declined_core_keys_reserved(m: SuggestedPostDeclined)
    ensures
        keys_reserved(suggested_post_declined_core_entries(m), suggested_post_declined_reserved()),
{
    let r = suggested_post_declined_reserved();
    assert(r[0]@ == "suggested_post_message"@);
    lemma_opt_json_entry_key("suggested_post_message"@, m.suggested_post_message, r);
    assert(r[1]@ == "comment"@);
    assert(keys_reserved(opt_text_entry("comment"@, m.comment), r));
    lemma_keys_reserved_append(opt_json_entry("suggested_post_message"@, m.suggested_post_message), opt_text_entry("comment"@, m.comment), r);
}

/// In a serialized `SuggestedPostDeclined`, the entries under its own keys are exactly its
/// typed fields, and every extra entry under another key is kept: an extra
/// field never replaces a typed one.
pub proof fn lemma_suggested_post_declined_extra_cannot_override(m: SuggestedPostDeclined)
    ensures
        forall|i: int|
            0 <= i < suggested_post_declined_entries(m).len() ==> (is_reserved(
                #[trigger] suggested_post_declined_entries(m)[i].0,
                suggested_post_declined_reserved(),
            ) <==> i < suggested_post_declined_core_entries(m).len()),
        forall|j: int|
            0 <= j < m.extra.pairs().len() && !is_reserved(#[trigger] m.extra.pairs()[j].0@, suggested_post_declined_reserved())
                ==> suggested_post_declined_entries(m).contains((m.extra.pairs()[j].0@, m.extra.pairs()[j].1.json())),
{
    lemma_suggested_post_declined_core_keys_reserved(m);
    lemma_extra_never_overrides(suggested_post_declined_core_entries(m), m.extra.pairs(), suggested_post_declined_reserved());
}

/// Payment for a suggested post. The message it concerns, where
/// given, is held as the JSON it was read as.
#[derive(Debug)]
pub struct SuggestedPostPaid {
    pub suggested_post_message: Option<JsonValue>,
    pub currency: String,
    pub amount: Option<i64>,
    pub star_amount: Option<StarAmount>,
    /// Fields of the response that this model does not name.
    pub extra: JsonMap,
}

/// The keys that the typed fields of a `SuggestedPostPaid` occupy.
pub open spec fn suggested_post_paid_reserved() -> Seq<&'static str> {
    seq!["suggested_post_message", "currency", "amount", "star_amount"]
}

fn suggested_post_paid_reserved_keys() -> (r: [&'static str; 4])
    ensures
        r@ == suggested_post_paid_reserved(),
{
    let r = ["suggested_post_message", "currency", "amount", "star_amount"];
    assert(r@ =~= suggested_post_paid_reserved());
    r
}

/// The typed fields of a `SuggestedPostPaid`, in the order they are written.
pub open spec fn suggested_post_paid_core_entries(m: SuggestedPostPaid) -> Seq<(Seq<char>, JsonView)> {
    opt_json_entry("suggested_post_message"@, m.suggested_post_message)
        + seq![("currency"@, JsonView::Text(m.currency@))]
        + opt_int_entry("amount"@, m.amount)
        + match m.star_amount { Some(v) => seq![("star_amount"@, JsonView::Object(star_amount_entries(v)))], None => Seq::empty() }
}

/// The entries of a serialized `SuggestedPostPaid`: its typed fields, then the extra
/// entries whose key no typed field uses.
pub open spec fn suggested_post_paid_entries(m: SuggestedPostPaid) -> Seq<(Seq<char>, JsonView)> {
    suggested_post_paid_core_entries(m) + visible_extra(m.extra.pairs(), suggested_post_paid_reserved())
}

impl SuggestedPostPaid {
    /// The entries Telegram receives for this value.
    pub fn to_entries(&self) -> (r: Vec<(String, JsonValue)>)
        ensures
            pairs_view(r@) == suggested_post_paid_entries(*self),
    {
        let mut out: Vec<(String, JsonValue)> = Vec::new();
        assert(pairs_view(out@) =~= Seq::<(Seq<char>, JsonView)>::empty());
        push_opt_json(&mut out, "suggested_post_message", &self.suggested_post_message);
        push_entry(&mut out, "currency", JsonValue::Text(self.currency.clone()));
        push_opt_int(&mut out, "amount", self.amount);
        if let Some(v) = &self.star_amount { push_object(&mut out, "star_amount", v.to_entries()); }
        let reserved = suggested_post_paid_reserved_keys();
        append_extra_fields(&mut out, &self.extra, &reserved);
        assert(pairs_view(out@) =~= suggested_post_paid_entries(*self));
        out
    }
}

proof fn lemma_suggested_post_paid_core_keys_reserved(m: SuggestedPostPaid)
    ensures
        keys_reserved(suggested_post_paid_core_entries(m), suggested_post_paid_reserved()),
{
    let r = suggested_post_paid_reserved();
    assert(r[0]@ == "suggested_post_message"@);
    lemma_opt_json_entry_key("suggested_post_message"@, m.suggested_post_message, r);
    assert(r[1]@ == "currency"@);
    assert(keys_reserved(seq![("currency"@, JsonView::Text(m.currency@))], r));
    lemma_keys_reserved_append(opt_json_entry("suggested_post_message"@, m.suggested_post_message), seq![("currency"@, JsonView::Text(m.currency@))], r);
    assert(r[2]@ == "amount"@);
    assert(keys_reserved(opt_int_entry("amount"@, m.amount), r));
    lemma_keys_reserved_append(opt_json_entry("suggested_post_message"@, m.suggested_post_message) + seq![("currency"@, JsonView::Text(m.currency@))], opt_int_entry("amount"@, m.amount), r);
    assert(r[3]@ == "star_amount"@);
    assert(keys_reserved(match m.star_amount { Some(v) => seq![("star_amount"@, JsonView::Object(star_amount_entries(v)))], None => Seq::empty() }, r));
    lemma_keys_reserved_append(opt_json_entry("suggested_post_message"@, m.suggested_post_message) + seq![("currency"@, JsonView::Text(m.currency@))] + opt_int_entry("amount"@, m.amount), match m.star_amount { Some(v) => seq![("star_amount"@, JsonView::Object(star_amount_entries(v)))], None => Seq::empty() }, r);
}

/// In a serialized `SuggestedPostPaid`, the entries under its own keys are exactly its
/// typed fields, and every extra entry under another key is kept: an extra
/// field never replaces a typed one.
pub proof fn lemma_suggested_post_paid_extra_cannot_override(m: SuggestedPostPaid)
    ensures
        forall|i: int|
            0 <= i < suggested_post_paid_entries(m).len() ==> (is_reserved(
                #[trigger] suggested_post_paid_entries(m)[i].0,
                suggested_post_paid_reserved(),
            ) <==> i < suggested_post_paid_core_entries(m).len()),
        forall|j: int|
            0 <= j < m.extra.pairs().len() && !is_reserved(#[trigger] m.extra.pairs()[j].0@, suggested_post_paid_reserved())
                ==> suggested_post_paid_entries(m).contains((m.extra.pairs()[j].0@, m.extra.pairs()[j].1.json())),
{
    lemma_suggested_post_paid_core_keys_reserved(m);
    lemma_extra_never_overrides(suggested_post_paid_core_entries(m), m.extra.pairs(), suggested_post_paid_reserved());
}

/// Refund for a suggested post. The message it concerns, where
/// given, is held as the JSON it was read as.
#[derive(Debug)]
pub struct SuggestedPostRefunded {
    pub suggested_post_message: Option<JsonValue>,
    pub reason: SuggestedPostRefundReason,
    /// Fields of the response that this model does not name.
    pub extra: JsonMap,
}

/// The keys that the typed fields of a `SuggestedPostRefunded` occupy.
pub open spec fn suggested_post_refunded_reserved() -> Seq<&'static str> {
    seq!["suggested_post_message", "reason"]
}

fn suggested_post_refunded_reserved_keys() -> (r: [&'static str; 2])
    ensures
        r@ == suggested_post_refunded_reserved(),
{
    let r = ["suggested_post_message", "reason"];
    assert(r@ =~= suggested_post_refunded_reserved());
    r
}

/// The typed fields of a `SuggestedPostRefunded`, in the order they are written.
pub open spec fn suggested_post_refunded_core_entries(m: SuggestedPostRefunded) -> Seq<(Seq<char>, JsonView)> {
    opt_json_entry("suggested_post_message"@, m.suggested_post_message)
        + seq![("reason"@, JsonView::Text(suggested_post_refund_reason_name(m.reason)))]
}

/// The entries of a serialized `SuggestedPostRefunded`: its typed fields, then the extra
/// entries whose key no typed field uses.
pub open spec fn suggested_post_refunded_entries(m: SuggestedPostRefunded) -> Seq<(Seq<char>, JsonView)> {
    suggested_post_refunded_core_entries(m) + visible_extra(m.extra.pairs(), suggested_post_refunded_reserved())
}

impl SuggestedPostRefunded {
    /// The entries Telegram receives for this value.
    pub fn to_entries(&self) -> (r: Vec<(String, JsonValue)>)
        ensures
            pairs_view(r@) == suggested_post_refunded_entries(*self),
    {
        let mut out: Vec<(String, JsonValue)> = Vec::new();
        assert(pairs_view(out@) =~= Seq::<(Seq<char>, JsonView)>::empty());
        push_opt_json(&mut out, "suggested_post_message", &self.suggested_post_message);
        push_entry(&mut out, "reason", JsonValue::Text(self.reason.as_str().to_owned()));
        let reserved = suggested_post_refunded_reserved_keys();
        append_extra_fields(&mut out, &self.extra, &reserved);
        assert(pairs_view(out@) =~= suggested_post_refunded_entries(*self));
        out
    }
}

proof fn lemma_suggested_post_refunded_core_keys_reserved(m: SuggestedPostRefunded)
    ensures
        keys_reserved(suggested_post_refunded_core_entries(m), suggested_post_refunded_reserved()),
{
    let r = suggested_post_refunded_reserved();
    assert(r[0]@ == "suggested_post_message"@);
    lemma_opt_json_entry_key("suggested_post_message"@, m.suggested_post_message, r);
    assert(r[1]@ == "reason"@);
    assert(keys_reserved(seq![("reason"@, JsonView::Text(suggested_post_refund_reason_name(m.reason)))], r));
    lemma_keys_reserved_append(opt_json_entry("suggested_post_message"@, m.suggested_post_message), seq![("reason"@, JsonView::Text(suggested_post_refund_reason_name(m.reason)))], r);
}

/// In a serialized `SuggestedPostRefunded`, the entries under its own keys are exactly its
/// typed fields, and every extra entry under another key is kept: an extra
/// field never replaces a typed one.
pub proof fn lemma_suggested_post_refunded_extra_cannot_override(m: SuggestedPostRefunded)
    ensures
        forall|i: int|
            0 <= i < suggested_post_refunded_entries(m).len() ==> (is_reserved(
                #[trigger] suggested_post_refunded_entries(m)[i].0,
                suggested_post_refunded_reserved(),
            ) <==> i < suggested_post_refunded_core_entries(m).len()),
        forall|j: int|
            0 <= j < m.extra.pairs().len() && !is_reserved(#[trigger] m.extra.pairs()[j].0@, suggested_post_refunded_reserved())
                ==> suggested_post_refunded_entries(m).contains((m.extra.pairs()[j].0@, m.extra.pairs()[j].1.json())),
{
    lemma_suggested_post_refunded_core_keys_reserved(m);
    lemma_extra_never_overrides(suggested_post_refunded_core_entries(m), m.extra.pairs(), suggested_post_refunded_reserved());
}

} // verus!
