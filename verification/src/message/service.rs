use vstd::prelude::*;

use crate::chat_member::{tagged_field, tagged_field_spec};
use crate::json::{JsonMap, JsonValue};
use crate::bot::User;
use crate::common::{MessageId, UserId};
use crate::message::common::{Chat, MessageEntity, PhotoSize};
use crate::message::content::ChecklistTask;
use crate::message::media::Document;
use crate::message::model::Message;
use crate::message::reply::MaybeInaccessibleMessage;

verus! {

/// A background filled with one color.
#[derive(Debug)]
pub struct BackgroundFillSolid {
    pub color: u32,
    /// Fields of the response that this model does not name.
    pub extra: JsonMap,
}

/// A background filled with a gradient.
#[derive(Debug)]
pub struct BackgroundFillGradient {
    pub top_color: u32,
    pub bottom_color: u32,
    pub rotation_angle: u32,
    /// Fields of the response that this model does not name.
    pub extra: JsonMap,
}

/// A background filled with a freeform gradient.
#[derive(Debug)]
pub struct BackgroundFillFreeformGradient {
    pub colors: Vec<u32>,
    /// Fields of the response that this model does not name.
    pub extra: JsonMap,
}

/// How a chat background is filled, told apart by its `type` field.
#[derive(Debug)]
pub enum BackgroundFill {
    Solid(BackgroundFillSolid),
    Gradient(BackgroundFillGradient),
    FreeformGradient(BackgroundFillFreeformGradient),
    /// A value of a type this model does not know, kept as received.
    Unknown(JsonValue),
}

/// The `type` of a `BackgroundFill`: its variant's name, or for an unknown value the
/// `type` string it was read with.
pub open spec fn background_fill_kind(value: BackgroundFill) -> Option<Seq<char>> {
    match value {
        BackgroundFill::Solid(_) => Some("solid"@),
        BackgroundFill::Gradient(_) => Some("gradient"@),
        BackgroundFill::FreeformGradient(_) => Some("freeform_gradient"@),
        BackgroundFill::Unknown(v) => tagged_field_spec(v.json(), "type"@),
    }
}

impl BackgroundFill {
    pub fn kind(&self) -> (r: Option<&str>)
        ensures
            match r {
                Some(s) => background_fill_kind(*self) == Some(s@),
                None => background_fill_kind(*self) is None,
            },
    {
        match self {
            BackgroundFill::Solid(_) => Some("solid"),
            BackgroundFill::Gradient(_) => Some("gradient"),
            BackgroundFill::FreeformGradient(_) => Some("freeform_gradient"),
            BackgroundFill::Unknown(value) => tagged_field(value, "type"),
        }
    }

    pub fn is_unknown(&self) -> (r: bool)
        ensures
            r == (*self is Unknown),
    {
        matches!(self, BackgroundFill::Unknown(_))
    }

    pub fn as_solid(&self) -> (r: Option<&BackgroundFillSolid>)
        ensures
            r == match *self {
                BackgroundFill::Solid(v) => Some(&v),
                _ => None,
            },
    {
        match self {
            BackgroundFill::Solid(v) => Some(v),
            _ => None,
        }
    }

    pub fn as_gradient(&self) -> (r: Option<&BackgroundFillGradient>)
        ensures
            r == match *self {
                BackgroundFill::Gradient(v) => Some(&v),
                _ => None,
            },
    {
        match self {
            BackgroundFill::Gradient(v) => Some(v),
            _ => None,
        }
    }

    pub fn as_freeform_gradient(&self) -> (r: Option<&BackgroundFillFreeformGradient>)
        ensures
            r == match *self {
                BackgroundFill::FreeformGradient(v) => Some(&v),
                _ => None,
            },
    {
        match self {
            BackgroundFill::FreeformGradient(v) => Some(v),
            _ => None,
        }
    }

    pub fn as_unknown_value(&self) -> (r: Option<&JsonValue>)
        ensures
            r == match *self {
                BackgroundFill::Unknown(v) => Some(&v),
                _ => None,
            },
    {
        match self {
            BackgroundFill::Unknown(v) => Some(v),
            _ => None,
        }
    }

    pub fn into_unknown_value(self) -> (r: Option<JsonValue>)
        ensures
            r == match self {
                BackgroundFill::Unknown(v) => Some(v),
                _ => None,
            },
    {
        match self {
            BackgroundFill::Unknown(v) => Some(v),
            _ => None,
        }
    }
}

/// A background that is a fill.
#[derive(Debug)]
pub struct BackgroundTypeFill {
    pub fill: BackgroundFill,
    pub dark_theme_dimming: u32,
    /// Fields of the response that this model does not name.
    pub extra: JsonMap,
}

/// A background that is a wallpaper.
#[derive(Debug)]
pub struct BackgroundTypeWallpaper {
    pub document: Document,
    pub dark_theme_dimming: u32,
    pub is_blurred: bool,
    pub is_moving: bool,
    /// Fields of the response that this model does not name.
    pub extra: JsonMap,
}

/// A background that is a pattern over a fill.
#[derive(Debug)]
pub struct BackgroundTypePattern {
    pub document: Document,
    pub fill: BackgroundFill,
    pub intensity: u32,
    pub is_inverted: bool,
    pub is_moving: bool,
    /// Fields of the response that this model does not name.
    pub extra: JsonMap,
}

/// A background taken from a chat theme.
#[derive(Debug)]
pub struct BackgroundTypeChatTheme {
    pub theme_name: String,
    /// Fields of the response that this model does not name.
    pub extra: JsonMap,
}

/// The type of a chat background, told apart by its `type` field.
#[derive(Debug)]
pub enum BackgroundType {
    Fill(BackgroundTypeFill),
    Wallpaper(Box<BackgroundTypeWallpaper>),
    Pattern(Box<BackgroundTypePattern>),
    ChatTheme(BackgroundTypeChatTheme),
    /// A value of a type this model does not know, kept as received.
    Unknown(JsonValue),
}

/// The `type` of a `BackgroundType`: its variant's name, or for an unknown value the
/// `type` string it was read with.
pub open spec fn background_type_kind(value: BackgroundType) -> Option<Seq<char>> {
    match value {
        BackgroundType::Fill(_) => Some("fill"@),
        BackgroundType::Wallpaper(_) => Some("wallpaper"@),
        BackgroundType::Pattern(_) => Some("pattern"@),
        BackgroundType::ChatTheme(_) => Some("chat_theme"@),
        BackgroundType::Unknown(v) => tagged_field_spec(v.json(), "type"@),
    }
}

impl BackgroundType {
    pub fn kind(&self) -> (r: Option<&str>)
        ensures
            match r {
                Some(s) => background_type_kind(*self) == Some(s@),
                None => background_type_kind(*self) is None,
            },
    {
        match self {
            BackgroundType::Fill(_) => Some("fill"),
            BackgroundType::Wallpaper(_) => Some("wallpaper"),
            BackgroundType::Pattern(_) => Some("pattern"),
            BackgroundType::ChatTheme(_) => Some("chat_theme"),
            BackgroundType::Unknown(value) => tagged_field(value, "type"),
        }
    }

    pub fn is_unknown(&self) -> (r: bool)
        ensures
            r == (*self is Unknown),
    {
        matches!(self, BackgroundType::Unknown(_))
    }

    pub fn as_fill(&self) -> (r: Option<&BackgroundTypeFill>)
        ensures
            r == match *self {
                BackgroundType::Fill(v) => Some(&v),
                _ => None,
            },
    {
        match self {
            BackgroundType::Fill(v) => Some(v),
            _ => None,
        }
    }

    pub fn as_wallpaper(&self) -> (r: Option<&BackgroundTypeWallpaper>)
        ensures
            r == match *self {
                BackgroundType::Wallpaper(v) => Some(&*v),
                _ => None,
            },
    {
        match self {
            BackgroundType::Wallpaper(v) => Some(&**v),
            _ => None,
        }
    }

    pub fn as_pattern(&self) -> (r: Option<&BackgroundTypePattern>)
        ensures
            r == match *self {
                BackgroundType::Pattern(v) => Some(&*v),
                _ => None,
            },
    {
        match self {
            BackgroundType::Pattern(v) => Some(&**v),
            _ => None,
        }
    }

    pub fn as_chat_theme(&self) -> (r: Option<&BackgroundTypeChatTheme>)
        ensures
            r == match *self {
                BackgroundType::ChatTheme(v) => Some(&v),
                _ => None,
            },
    {
        match self {
            BackgroundType::ChatTheme(v) => Some(v),
            _ => None,
        }
    }

    pub fn as_unknown_value(&self) -> (r: Option<&JsonValue>)
        ensures
            r == match *self {
                BackgroundType::Unknown(v) => Some(&v),
                _ => None,
            },
    {
        match self {
            BackgroundType::Unknown(v) => Some(v),
            _ => None,
        }
    }

    pub fn into_unknown_value(self) -> (r: Option<JsonValue>)
        ensures
            r == match self {
                BackgroundType::Unknown(v) => Some(v),
                _ => None,
            },
    {
        match self {
            BackgroundType::Unknown(v) => Some(v),
            _ => None,
        }
    }
}

/// Service message: the chat background was set.
#[derive(Debug)]
pub struct ChatBackground {
    pub background_type: BackgroundType,
    /// Fields of the response that this model does not name.
    pub extra: JsonMap,
}
/// A topic of direct messages in a channel.
#[derive(Debug)]
pub struct DirectMessagesTopic {
    pub topic_id: i64,
    pub user: Option<User>,
    /// Fields of the response that this model does not name.
    pub extra: JsonMap,
}

/// Service message: tasks of a checklist were marked done or not done.
#[derive(Debug)]
pub struct ChecklistTasksDone {
    pub checklist_message: Option<Box<Message>>,
    pub marked_as_done_task_ids: Option<Vec<i64>>,
    pub marked_as_not_done_task_ids: Option<Vec<i64>>,
    /// Fields of the response that this model does not name.
    pub extra: JsonMap,
}

/// Service message: tasks were added to a checklist.
#[derive(Debug)]
pub struct ChecklistTasksAdded {
    pub checklist_message: Option<Box<Message>>,
    pub tasks: Vec<ChecklistTask>,
    /// Fields of the response that this model does not name.
    pub extra: JsonMap,
}

/// Service message: the owner of the chat left it.
#[derive(Debug)]
pub struct ChatOwnerLeft {
    pub new_owner: Option<User>,
    /// Fields of the response that this model does not name.
    pub extra: JsonMap,
}

/// Service message: the owner of the chat changed.
#[derive(Debug)]
pub struct ChatOwnerChanged {
    pub new_owner: User,
    /// Fields of the response that this model does not name.
    pub extra: JsonMap,
}

/// Service message: a user came near another in a live location.
#[derive(Debug)]
pub struct ProximityAlertTriggered {
    pub traveler: User,
    pub watcher: User,
    pub distance: u32,
    /// Fields of the response that this model does not name.
    pub extra: JsonMap,
}

/// Service message: a user boosted the chat.
#[derive(Debug)]
pub struct ChatBoostAdded {
    pub boost_count: u32,
    /// Fields of the response that this model does not name.
    pub extra: JsonMap,
}

/// Service message: a video chat was scheduled.
#[derive(Debug)]
pub struct VideoChatScheduled {
    pub start_date: i64,
    /// Fields of the response that this model does not name.
    pub extra: JsonMap,
}

/// Service message: a video chat started.
#[derive(Debug)]
pub struct VideoChatStarted {
    /// Fields of the response that this model does not name.
    pub extra: JsonMap,
}

/// Service message: a video chat ended.
#[derive(Debug)]
pub struct VideoChatEnded {
    pub duration: u32,
    /// Fields of the response that this model does not name.
    pub extra: JsonMap,
}

/// Service message: users were invited to a video chat.
#[derive(Debug)]
pub struct VideoChatParticipantsInvited {
    pub users: Vec<User>,
    /// Fields of the response that this model does not name.
    pub extra: JsonMap,
}

/// Service message: the price of paid messages changed.
#[derive(Debug)]
pub struct PaidMessagePriceChanged {
    pub paid_message_star_count: u64,
    /// Fields of the response that this model does not name.
    pub extra: JsonMap,
}

/// Service message: the price of direct messages changed.
#[derive(Debug)]
pub struct DirectMessagePriceChanged {
    pub are_direct_messages_enabled: bool,
    pub direct_message_star_count: Option<u64>,
    /// Fields of the response that this model does not name.
    pub extra: JsonMap,
}

/// Service message: a giveaway was created.
#[derive(Debug)]
pub struct GiveawayCreated {
    pub prize_star_count: Option<u64>,
    /// Fields of the response that this model does not name.
    pub extra: JsonMap,
}

/// A scheduled giveaway.
#[derive(Debug)]
pub struct Giveaway {
    pub chats: Vec<Chat>,
    pub winners_selection_date: i64,
    pub winner_count: u32,
    pub only_new_members: bool,
    pub has_public_winners: bool,
    pub prize_description: Option<String>,
    pub country_codes: Option<Vec<String>>,
    pub prize_star_count: Option<u64>,
    pub premium_subscription_month_count: Option<u32>,
    /// Fields of the response that this model does not name.
    pub extra: JsonMap,
}

/// The winners of a giveaway.
#[derive(Debug)]
pub struct GiveawayWinners {
    pub chat: Chat,
    pub giveaway_message_id: MessageId,
    pub winners_selection_date: i64,
    pub winner_count: u32,
    pub winners: Vec<User>,
    pub additional_chat_count: Option<u32>,
    pub prize_star_count: Option<u64>,
    pub premium_subscription_month_count: Option<u32>,
    pub unclaimed_prize_count: Option<u32>,
    pub only_new_members: bool,
    pub was_refunded: bool,
    pub prize_description: Option<String>,
    /// Fields of the response that this model does not name.
    pub extra: JsonMap,
}

/// Service message: a giveaway was completed.
#[derive(Debug)]
pub struct GiveawayCompleted {
    pub winner_count: u32,
    pub unclaimed_prize_count: Option<u32>,
    pub giveaway_message: Option<Box<Message>>,
    pub is_star_giveaway: bool,
    /// Fields of the response that this model does not name.
    pub extra: JsonMap,
}

/// Service message: a managed bot was created.
#[derive(Debug)]
pub struct ManagedBotCreated {
    pub bot: User,
    /// Fields of the response that this model does not name.
    pub extra: JsonMap,
}

/// Service message: an option was added to a poll.
#[derive(Debug)]
pub struct PollOptionAdded {
    pub poll_message: Option<Box<MaybeInaccessibleMessage>>,
    pub option_persistent_id: String,
    pub option_text: String,
    pub option_text_entities: Option<Vec<MessageEntity>>,
    /// Fields of the response that this model does not name.
    pub extra: JsonMap,
}

/// Service message: an option was removed from a poll.
#[derive(Debug)]
pub struct PollOptionDeleted {
    pub poll_message: Option<Box<MaybeInaccessibleMessage>>,
    pub option_persistent_id: String,
    pub option_text: String,
    pub option_text_entities: Option<Vec<MessageEntity>>,
    /// Fields of the response that this model does not name.
    pub extra: JsonMap,
}

/// Service message: the user allowed the bot to write to them.
#[derive(Debug)]
pub struct WriteAccessAllowed {
    pub from_request: Option<bool>,
    pub web_app_name: Option<String>,
    pub from_attachment_menu: Option<bool>,
    /// Fields of the response that this model does not name.
    pub extra: JsonMap,
}

/// Service message: the auto-delete timer of the chat changed.
#[derive(Debug)]
pub struct MessageAutoDeleteTimerChanged {
    pub message_auto_delete_time: u32,
    /// Fields of the response that this model does not name.
    pub extra: JsonMap,
}

/// A user shared with the bot.
#[derive(Debug)]
pub struct SharedUser {
    pub user_id: UserId,
    pub first_name: Option<String>,
    pub last_name: Option<String>,
    pub username: Option<String>,
    pub photo: Option<Vec<PhotoSize>>,
    /// Fields of the response that this model does not name.
    pub extra: JsonMap,
}

/// Service message: users were shared with the bot.
#[derive(Debug)]
pub struct UsersShared {
    pub request_id: i64,
    pub users: Vec<SharedUser>,
    /// Fields of the response that this model does not name.
    pub extra: JsonMap,
}

/// Service message: a chat was shared with the bot.
#[derive(Debug)]
pub struct ChatShared {
    pub request_id: i64,
    pub chat_id: i64,
    pub title: Option<String>,
    pub username: Option<String>,
    pub photo: Option<Vec<PhotoSize>>,
    /// Fields of the response that this model does not name.
    pub extra: JsonMap,
}

} // verus!
