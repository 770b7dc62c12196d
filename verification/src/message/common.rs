use vstd::prelude::*;

use crate::bot::{opt_text_entry, push_opt_text, user_core_entries, User};
use crate::chat_member::{tagged_field, tagged_field_spec};
use crate::common::MessageId;
use crate::json::{
    append_extra_fields, is_reserved, keys_reserved, lemma_extra_never_overrides,
    lemma_keys_reserved_append, lemma_opt_bool_entry_key, opt_bool_entry, opt_int_entry,
    pairs_view, push_entry, push_opt_bool, push_opt_int, visible_extra, JsonMap, JsonValue,
    JsonView,
};
use crate::text::str_eq;

verus! {

/// Telegram chat type.
#[derive(Clone, Debug, PartialEq, Eq, Hash)]
pub enum ChatType {
    Private,
    Group,
    Supergroup,
    Channel,
    /// A name this model does not know, kept as received.
    Unknown(String),
}

/// The wire name of a `ChatType`.
pub open spec fn chat_type_name(kind: ChatType) -> Seq<char> {
    match kind {
        ChatType::Private => "private"@,
        ChatType::Group => "group"@,
        ChatType::Supergroup => "supergroup"@,
        ChatType::Channel => "channel"@,
        ChatType::Unknown(value) => value@,
    }
}

/// The `ChatType` that a wire name is read as.
pub open spec fn chat_type_from_name(value: String) -> ChatType {
    if value@ == "private"@ {
        ChatType::Private
    } else if value@ == "group"@ {
        ChatType::Group
    } else if value@ == "supergroup"@ {
        ChatType::Supergroup
    } else if value@ == "channel"@ {
        ChatType::Channel
    } else {
        ChatType::Unknown(value)
    }
}

impl ChatType {
    pub fn as_str(&self) -> (r: &str)
        ensures
            r@ == chat_type_name(*self),
    {
        match self {
            ChatType::Private => "private",
            ChatType::Group => "group",
            ChatType::Supergroup => "supergroup",
            ChatType::Channel => "channel",
            ChatType::Unknown(value) => value.as_str(),
        }
    }

    /// Reads a wire name; a name this model does not know is kept as `Unknown`.
    pub fn from_name(value: String) -> (r: Self)
        ensures
            r == chat_type_from_name(value),
    {
        if str_eq(value.as_str(), "private") {
            ChatType::Private
        } else if str_eq(value.as_str(), "group") {
            ChatType::Group
        } else if str_eq(value.as_str(), "supergroup") {
            ChatType::Supergroup
        } else if str_eq(value.as_str(), "channel") {
            ChatType::Channel
        } else {
            ChatType::Unknown(value)
        }
    }
}

/// Reading a wire name and writing it back gives the same text, known or not.
pub proof fn lemma_chat_type_name_round_trip(value: String)
    ensures
        chat_type_name(chat_type_from_name(value)) == value@,
{
}

/// A known `ChatType` is read back from its own wire name.
pub proof fn lemma_chat_type_known_round_trip(kind: ChatType, value: String)
    requires
        !(kind is Unknown),
        value@ == chat_type_name(kind),
    ensures
        chat_type_from_name(value) == kind,
{
    match kind {
        ChatType::Private => {
            reveal_strlit("private");
        },
        ChatType::Group => {
            reveal_strlit("group");
            reveal_strlit("private");
            assert("group"@.len() != "private"@.len());
        },
        ChatType::Supergroup => {
            reveal_strlit("supergroup");
            reveal_strlit("private");
            assert("supergroup"@.len() != "private"@.len());
            reveal_strlit("group");
            assert("supergroup"@.len() != "group"@.len());
        },
        ChatType::Channel => {
            reveal_strlit("channel");
            reveal_strlit("private");
            assert("channel"@[0] != "private"@[0]);
            reveal_strlit("group");
            assert("channel"@.len() != "group"@.len());
            reveal_strlit("supergroup");
            assert("channel"@.len() != "supergroup"@.len());
        },
        ChatType::Unknown(_) => {},
    }
}
/// Telegram message entity kind.
#[derive(Clone, Debug, PartialEq, Eq, Hash)]
pub enum MessageEntityKind {
    Mention,
    Hashtag,
    Cashtag,
    BotCommand,
    Url,
    Email,
    PhoneNumber,
    Bold,
    Italic,
    Underline,
    Strikethrough,
    Spoiler,
    Blockquote,
    ExpandableBlockquote,
    Code,
    Pre,
    TextLink,
    TextMention,
    CustomEmoji,
    DateTime,
    /// A name this model does not know, kept as received.
    Unknown(String),
}

/// The wire name of a `MessageEntityKind`.
pub open spec fn message_entity_kind_name(kind: MessageEntityKind) -> Seq<char> {
    match kind {
        MessageEntityKind::Mention => "mention"@,
        MessageEntityKind::Hashtag => "hashtag"@,
        MessageEntityKind::Cashtag => "cashtag"@,
        MessageEntityKind::BotCommand => "bot_command"@,
        MessageEntityKind::Url => "url"@,
        MessageEntityKind::Email => "email"@,
        MessageEntityKind::PhoneNumber => "phone_number"@,
        MessageEntityKind::Bold => "bold"@,
        MessageEntityKind::Italic => "italic"@,
        MessageEntityKind::Underline => "underline"@,
        MessageEntityKind::Strikethrough => "strikethrough"@,
        MessageEntityKind::Spoiler => "spoiler"@,
        MessageEntityKind::Blockquote => "blockquote"@,
        MessageEntityKind::ExpandableBlockquote => "expandable_blockquote"@,
        MessageEntityKind::Code => "code"@,
        MessageEntityKind::Pre => "pre"@,
        MessageEntityKind::TextLink => "text_link"@,
        MessageEntityKind::TextMention => "text_mention"@,
        MessageEntityKind::CustomEmoji => "custom_emoji"@,
        MessageEntityKind::DateTime => "date_time"@,
        MessageEntityKind::Unknown(value) => value@,
    }
}

/// The `MessageEntityKind` that a wire name is read as.
pub open spec fn message_entity_kind_from_name(value: String) -> MessageEntityKind {
    if value@ == "mention"@ {
        MessageEntityKind::Mention
    } else if value@ == "hashtag"@ {
        MessageEntityKind::Hashtag
    } else if value@ == "cashtag"@ {
        MessageEntityKind::Cashtag
    } else if value@ == "bot_command"@ {
        MessageEntityKind::BotCommand
    } else if value@ == "url"@ {
        MessageEntityKind::Url
    } else if value@ == "email"@ {
        MessageEntityKind::Email
    } else if value@ == "phone_number"@ {
        MessageEntityKind::PhoneNumber
    } else if value@ == "bold"@ {
        MessageEntityKind::Bold
    } else if value@ == "italic"@ {
        MessageEntityKind::Italic
    } else if value@ == "underline"@ {
        MessageEntityKind::Underline
    } else if value@ == "strikethrough"@ {
        MessageEntityKind::Strikethrough
    } else if value@ == "spoiler"@ {
        MessageEntityKind::Spoiler
    } else if value@ == "blockquote"@ {
        MessageEntityKind::Blockquote
    } else if value@ == "expandable_blockquote"@ {
        MessageEntityKind::ExpandableBlockquote
    } else if value@ == "code"@ {
        MessageEntityKind::Code
    } else if value@ == "pre"@ {
        MessageEntityKind::Pre
    } else if value@ == "text_link"@ {
        MessageEntityKind::TextLink
    } else if value@ == "text_mention"@ {
        MessageEntityKind::TextMention
    } else if value@ == "custom_emoji"@ {
        MessageEntityKind::CustomEmoji
    } else if value@ == "date_time"@ {
        MessageEntityKind::DateTime
    } else {
        MessageEntityKind::Unknown(value)
    }
}

impl MessageEntityKind {
    pub fn as_str(&self) -> (r: &str)
        ensures
            r@ == message_entity_kind_name(*self),
    {
        match self {
            MessageEntityKind::Mention => "mention",
            MessageEntityKind::Hashtag => "hashtag",
            MessageEntityKind::Cashtag => "cashtag",
            MessageEntityKind::BotCommand => "bot_command",
            MessageEntityKind::Url => "url",
            MessageEntityKind::Email => "email",
            MessageEntityKind::PhoneNumber => "phone_number",
            MessageEntityKind::Bold => "bold",
            MessageEntityKind::Italic => "italic",
            MessageEntityKind::Underline => "underline",
            MessageEntityKind::Strikethrough => "strikethrough",
            MessageEntityKind::Spoiler => "spoiler",
            MessageEntityKind::Blockquote => "blockquote",
            MessageEntityKind::ExpandableBlockquote => "expandable_blockquote",
            MessageEntityKind::Code => "code",
            MessageEntityKind::Pre => "pre",
            MessageEntityKind::TextLink => "text_link",
            MessageEntityKind::TextMention => "text_mention",
            MessageEntityKind::CustomEmoji => "custom_emoji",
            MessageEntityKind::DateTime => "date_time",
            MessageEntityKind::Unknown(value) => value.as_str(),
        }
    }

    /// Reads a wire name; a name this model does not know is kept as `Unknown`.
    pub fn from_name(value: String) -> (r: Self)
        ensures
            r == message_entity_kind_from_name(value),
    {
        if str_eq(value.as_str(), "mention") {
            MessageEntityKind::Mention
        } else if str_eq(value.as_str(), "hashtag") {
            MessageEntityKind::Hashtag
        } else if str_eq(value.as_str(), "cashtag") {
            MessageEntityKind::Cashtag
        } else if str_eq(value.as_str(), "bot_command") {
            MessageEntityKind::BotCommand
        } else if str_eq(value.as_str(), "url") {
            MessageEntityKind::Url
        } else if str_eq(value.as_str(), "email") {
            MessageEntityKind::Email
        } else if str_eq(value.as_str(), "phone_number") {
            MessageEntityKind::PhoneNumber
        } else if str_eq(value.as_str(), "bold") {
            MessageEntityKind::Bold
        } else if str_eq(value.as_str(), "italic") {
            MessageEntityKind::Italic
        } else if str_eq(value.as_str(), "underline") {
            MessageEntityKind::Underline
        } else if str_eq(value.as_str(), "strikethrough") {
            MessageEntityKind::Strikethrough
        } else if str_eq(value.as_str(), "spoiler") {
            MessageEntityKind::Spoiler
        } else if str_eq(value.as_str(), "blockquote") {
            MessageEntityKind::Blockquote
        } else if str_eq(value.as_str(), "expandable_blockquote") {
            MessageEntityKind::ExpandableBlockquote
        } else if str_eq(value.as_str(), "code") {
            MessageEntityKind::Code
        } else if str_eq(value.as_str(), "pre") {
            MessageEntityKind::Pre
        } else if str_eq(value.as_str(), "text_link") {
            MessageEntityKind::TextLink
        } else if str_eq(value.as_str(), "text_mention") {
            MessageEntityKind::TextMention
        } else if str_eq(value.as_str(), "custom_emoji") {
            MessageEntityKind::CustomEmoji
        } else if str_eq(value.as_str(), "date_time") {
            MessageEntityKind::DateTime
        } else {
            MessageEntityKind::Unknown(value)
        }
    }
}

/// Reading a wire name and writing it back gives the same text, known or not.
pub proof fn lemma_message_entity_kind_name_round_trip(value: String)
    ensures
        message_entity_kind_name(message_entity_kind_from_name(value)) == value@,
{
}

/// A known `MessageEntityKind` is read back from its own wire name.
pub proof fn lemma_message_entity_kind_known_round_trip(kind: MessageEntityKind, value: String)
    requires
        !(kind is Unknown),
        value@ == message_entity_kind_name(kind),
    ensures
        message_entity_kind_from_name(value) == kind,
{
    match kind {
        MessageEntityKind::Mention => {
            reveal_strlit("mention");
        },
        MessageEntityKind::Hashtag => {
            reveal_strlit("hashtag");
            reveal_strlit("mention");
            assert("hashtag"@[0] != "mention"@[0]);
        },
        MessageEntityKind::Cashtag => {
            reveal_strlit("cashtag");
            reveal_strlit("mention");
            assert("cashtag"@[0] != "mention"@[0]);
            reveal_strlit("hashtag");
            assert("cashtag"@[0] != "hashtag"@[0]);
        },
        MessageEntityKind::BotCommand => {
            reveal_strlit("bot_command");
            reveal_strlit("mention");
            assert("bot_command"@.len() != "mention"@.len());
            reveal_strlit("hashtag");
            assert("bot_command"@.len() != "hashtag"@.len());
            reveal_strlit("cashtag");
            assert("bot_command"@.len() != "cashtag"@.len());
        },
        MessageEntityKind::Url => {
            reveal_strlit("url");
            reveal_strlit("mention");
            assert("url"@.len() != "mention"@.len());
            reveal_strlit("hashtag");
            assert("url"@.len() != "hashtag"@.len());
            reveal_strlit("cashtag");
            assert("url"@.len() != "cashtag"@.len());
            reveal_strlit("bot_command");
            assert("url"@.len() != "bot_command"@.len());
        },
        MessageEntityKind::Email => {
            reveal_strlit("email");
            reveal_strlit("mention");
            assert("email"@.len() != "mention"@.len());
            reveal_strlit("hashtag");
            assert("email"@.len() != "hashtag"@.len());
            reveal_strlit("cashtag");
            assert("email"@.len() != "cashtag"@.len());
            reveal_strlit("bot_command");
            assert("email"@.len() != "bot_command"@.len());
            reveal_strlit("url");
            assert("email"@.len() != "url"@.len());
        },
        MessageEntityKind::PhoneNumber => {
            reveal_strlit("phone_number");
            reveal_strlit("mention");
            assert("phone_number"@.len() != "mention"@.len());
            reveal_strlit("hashtag");
            assert("phone_number"@.len() != "hashtag"@.len());
            reveal_strlit("cashtag");
            assert("phone_number"@.len() != "cashtag"@.len());
            reveal_strlit("bot_command");
            assert("phone_number"@.len() != "bot_command"@.len());
            reveal_strlit("url");
            assert("phone_number"@.len() != "url"@.len());
            reveal_strlit("email");
            assert("phone_number"@.len() != "email"@.len());
        },
        MessageEntityKind::Bold => {
            reveal_strlit("bold");
            reveal_strlit("mention");
            assert("bold"@.len() != "mention"@.len());
            reveal_strlit("hashtag");
            assert("bold"@.len() != "hashtag"@.len());
            reveal_strlit("cashtag");
            assert("bold"@.len() != "cashtag"@.len());
            reveal_strlit("bot_command");
            assert("bold"@.len() != "bot_command"@.len());
            reveal_strlit("url");
            assert("bold"@.len() != "url"@.len());
            reveal_strlit("email");
            assert("bold"@.len() != "email"@.len());
            reveal_strlit("phone_number");
            assert("bold"@.len() != "phone_number"@.len());
        },
        MessageEntityKind::Italic => {
            reveal_strlit("italic");
            reveal_strlit("mention");
            assert("italic"@.len() != "mention"@.len());
            reveal_strlit("hashtag");
            assert("italic"@.len() != "hashtag"@.len());
            reveal_strlit("cashtag");
            assert("italic"@.len() != "cashtag"@.len());
            reveal_strlit("bot_command");
            assert("italic"@.len() != "bot_command"@.len());
            reveal_strlit("url");
            assert("italic"@.len() != "url"@.len());
            reveal_strlit("email");
            assert("italic"@.len() != "email"@.len());
            reveal_strlit("phone_number");
            assert("italic"@.len() != "phone_number"@.len());
            reveal_strlit("bold");
            assert("italic"@.len() != "bold"@.len());
        },
        MessageEntityKind::Underline => {
            reveal_strlit("underline");
            reveal_strlit("mention");
            assert("underline"@.len() != "mention"@.len());
            reveal_strlit("hashtag");
            assert("underline"@.len() != "hashtag"@.len());
            reveal_strlit("cashtag");
            assert("underline"@.len() != "cashtag"@.len());
            reveal_strlit("bot_command");
            assert("underline"@.len() != "bot_command"@.len());
            reveal_strlit("url");
            assert("underline"@.len() != "url"@.len());
            reveal_strlit("email");
            assert("underline"@.len() != "email"@.len());
            reveal_strlit("phone_number");
            assert("underline"@.len() != "phone_number"@.len());
            reveal_strlit("bold");
            assert("underline"@.len() != "bold"@.len());
            reveal_strlit("italic");
            assert("underline"@.len() != "italic"@.len());
        },
        MessageEntityKind::Strikethrough => {
            reveal_strlit("strikethrough");
            reveal_strlit("mention");
            assert("strikethrough"@.len() != "mention"@.len());
            reveal_strlit("hashtag");
            assert("strikethrough"@.len() != "hashtag"@.len());
            reveal_strlit("cashtag");
            assert("strikethrough"@.len() != "cashtag"@.len());
            reveal_strlit("bot_command");
            assert("strikethrough"@.len() != "bot_command"@.len());
            reveal_strlit("url");
            assert("strikethrough"@.len() != "url"@.len());
            reveal_strlit("email");
            assert("strikethrough"@.len() != "email"@.len());
            reveal_strlit("phone_number");
            assert("strikethrough"@.len() != "phone_number"@.len());
            reveal_strlit("bold");
            assert("strikethrough"@.len() != "bold"@.len());
            reveal_strlit("italic");
            assert("strikethrough"@.len() != "italic"@.len());
            reveal_strlit("underline");
            assert("strikethrough"@.len() != "underline"@.len());
        },
        MessageEntityKind::Spoiler => {
            reveal_strlit("spoiler");
            reveal_strlit("mention");
            assert("spoiler"@[0] != "mention"@[0]);
            reveal_strlit("hashtag");
            assert("spoiler"@[0] != "hashtag"@[0]);
            reveal_strlit("cashtag");
            assert("spoiler"@[0] != "cashtag"@[0]);
            reveal_strlit("bot_command");
            assert("spoiler"@.len() != "bot_command"@.len());
            reveal_strlit("url");
            assert("spoiler"@.len() != "url"@.len());
            reveal_strlit("email");
            assert("spoiler"@.len() != "email"@.len());
            reveal_strlit("phone_number");
            assert("spoiler"@.len() != "phone_number"@.len());
            reveal_strlit("bold");
            assert("spoiler"@.len() != "bold"@.len());
            reveal_strlit("italic");
            assert("spoiler"@.len() != "italic"@.len());
            reveal_strlit("underline");
            assert("spoiler"@.len() != "underline"@.len());
            reveal_strlit("strikethrough");
            assert("spoiler"@.len() != "strikethrough"@.len());
        },
        MessageEntityKind::Blockquote => {
            reveal_strlit("blockquote");
            reveal_strlit("mention");
            assert("blockquote"@.len() != "mention"@.len());
            reveal_strlit("hashtag");
            assert("blockquote"@.len() != "hashtag"@.len());
            reveal_strlit("cashtag");
            assert("blockquote"@.len() != "cashtag"@.len());
            reveal_strlit("bot_command");
            assert("blockquote"@.len() != "bot_command"@.len());
            reveal_strlit("url");
            assert("blockquote"@.len() != "url"@.len());
            reveal_strlit("email");
            assert("blockquote"@.len() != "email"@.len());
            reveal_strlit("phone_number");
            assert("blockquote"@.len() != "phone_number"@.len());
            reveal_strlit("bold");
            assert("blockquote"@.len() != "bold"@.len());
            reveal_strlit("italic");
            assert("blockquote"@.len() != "italic"@.len());
            reveal_strlit("underline");
            assert("blockquote"@.len() != "underline"@.len());
            reveal_strlit("strikethrough");
            assert("blockquote"@.len() != "strikethrough"@.len());
            reveal_strlit("spoiler");
            assert("blockquote"@.len() != "spoiler"@.len());
        },
        MessageEntityKind::ExpandableBlockquote => {
            reveal_strlit("expandable_blockquote");
            reveal_strlit("mention");
            assert("expandable_blockquote"@.len() != "mention"@.len());
            reveal_strlit("hashtag");
            assert("expandable_blockquote"@.len() != "hashtag"@.len());
            reveal_strlit("cashtag");
            assert("expandable_blockquote"@.len() != "cashtag"@.len());
            reveal_strlit("bot_command");
            assert("expandable_blockquote"@.len() != "bot_command"@.len());
            reveal_strlit("url");
            assert("expandable_blockquote"@.len() != "url"@.len());
            reveal_strlit("email");
            assert("expandable_blockquote"@.len() != "email"@.len());
            reveal_strlit("phone_number");
            assert("expandable_blockquote"@.len() != "phone_number"@.len());
            reveal_strlit("bold");
            assert("expandable_blockquote"@.len() != "bold"@.len());
            reveal_strlit("italic");
            assert("expandable_blockquote"@.len() != "italic"@.len());
            reveal_strlit("underline");
            assert("expandable_blockquote"@.len() != "underline"@.len());
            reveal_strlit("strikethrough");
            assert("expandable_blockquote"@.len() != "strikethrough"@.len());
            reveal_strlit("spoiler");
            assert("expandable_blockquote"@.len() != "spoiler"@.len());
            reveal_strlit("blockquote");
            assert("expandable_blockquote"@.len() != "blockquote"@.len());
        },
        MessageEntityKind::Code => {
            reveal_strlit("code");
            reveal_strlit("mention");
            assert("code"@.len() != "mention"@.len());
            reveal_strlit("hashtag");
            assert("code"@.len() != "hashtag"@.len());
            reveal_strlit("cashtag");
            assert("code"@.len() != "cashtag"@.len());
            reveal_strlit("bot_command");
            assert("code"@.len() != "bot_command"@.len());
            reveal_strlit("url");
            assert("code"@.len() != "url"@.len());
            reveal_strlit("email");
            assert("code"@.len() != "email"@.len());
            reveal_strlit("phone_number");
            assert("code"@.len() != "phone_number"@.len());
            reveal_strlit("bold");
            assert("code"@[0] != "bold"@[0]);
            reveal_strlit("italic");
            assert("code"@.len() != "italic"@.len());
            reveal_strlit("underline");
            assert("code"@.len() != "underline"@.len());
            reveal_strlit("strikethrough");
            assert("code"@.len() != "strikethrough"@.len());
            reveal_strlit("spoiler");
            assert("code"@.len() != "spoiler"@.len());
            reveal_strlit("blockquote");
            assert("code"@.len() != "blockquote"@.len());
            reveal_strlit("expandable_blockquote");
            assert("code"@.len() != "expandable_blockquote"@.len());
        },
        MessageEntityKind::Pre => {
            reveal_strlit("pre");
            reveal_strlit("mention");
            assert("pre"@.len() != "mention"@.len());
            reveal_strlit("hashtag");
            assert("pre"@.len() != "hashtag"@.len());
            reveal_strlit("cashtag");
            assert("pre"@.len() != "cashtag"@.len());
            reveal_strlit("bot_command");
            assert("pre"@.len() != "bot_command"@.len());
            reveal_strlit("url");
            assert("pre"@[0] != "url"@[0]);
            reveal_strlit("email");
            assert("pre"@.len() != "email"@.len());
            reveal_strlit("phone_number");
            assert("pre"@.len() != "phone_number"@.len());
            reveal_strlit("bold");
            assert("pre"@.len() != "bold"@.len());
            reveal_strlit("italic");
            assert("pre"@.len() != "italic"@.len());
            reveal_strlit("underline");
            assert("pre"@.len() != "underline"@.len());
            reveal_strlit("strikethrough");
            assert("pre"@.len() != "strikethrough"@.len());
            reveal_strlit("spoiler");
            assert("pre"@.len() != "spoiler"@.len());
            reveal_strlit("blockquote");
            assert("pre"@.len() != "blockquote"@.len());
            reveal_strlit("expandable_blockquote");
            assert("pre"@.len() != "expandable_blockquote"@.len());
            reveal_strlit("code");
            assert("pre"@.len() != "code"@.len());
        },
        MessageEntityKind::TextLink => {
            reveal_strlit("text_link");
            reveal_strlit("mention");
            assert("text_link"@.len() != "mention"@.len());
            reveal_strlit("hashtag");
            assert("text_link"@.len() != "hashtag"@.len());
            reveal_strlit("cashtag");
            assert("text_link"@.len() != "cashtag"@.len());
            reveal_strlit("bot_command");
            assert("text_link"@.len() != "bot_command"@.len());
            reveal_strlit("url");
            assert("text_link"@.len() != "url"@.len());
            reveal_strlit("email");
            assert("text_link"@.len() != "email"@.len());
            reveal_strlit("phone_number");
            assert("text_link"@.len() != "phone_number"@.len());
            reveal_strlit("bold");
            assert("text_link"@.len() != "bold"@.len());
            reveal_strlit("italic");
            assert("text_link"@.len() != "italic"@.len());
            reveal_strlit("underline");
            assert("text_link"@[0] != "underline"@[0]);
            reveal_strlit("strikethrough");
            assert("text_link"@.len() != "strikethrough"@.len());
            reveal_strlit("spoiler");
            assert("text_link"@.len() != "spoiler"@.len());
            reveal_strlit("blockquote");
            assert("text_link"@.len() != "blockquote"@.len());
            reveal_strlit("expandable_blockquote");
            assert("text_link"@.len() != "expandable_blockquote"@.len());
            reveal_strlit("code");
            assert("text_link"@.len() != "code"@.len());
            reveal_strlit("pre");
            assert("text_link"@.len() != "pre"@.len());
        },
        MessageEntityKind::TextMention => {
            reveal_strlit("text_mention");
            reveal_strlit("mention");
            assert("text_mention"@.len() != "mention"@.len());
            reveal_strlit("hashtag");
            assert("text_mention"@.len() != "hashtag"@.len());
            reveal_strlit("cashtag");
            assert("text_mention"@.len() != "cashtag"@.len());
            reveal_strlit("bot_command");
            assert("text_mention"@.len() != "bot_command"@.len());
            reveal_strlit("url");
            assert("text_mention"@.len() != "url"@.len());
            reveal_strlit("email");
            assert("text_mention"@.len() != "email"@.len());
            reveal_strlit("phone_number");
            assert("text_mention"@[0] != "phone_number"@[0]);
            reveal_strlit("bold");
            assert("text_mention"@.len() != "bold"@.len());
            reveal_strlit("italic");
            assert("text_mention"@.len() != "italic"@.len());
            reveal_strlit("underline");
            assert("text_mention"@.len() != "underline"@.len());
            reveal_strlit("strikethrough");
            assert("text_mention"@.len() != "strikethrough"@.len());
            reveal_strlit("spoiler");
            assert("text_mention"@.len() != "spoiler"@.len());
            reveal_strlit("blockquote");
            assert("text_mention"@.len() != "blockquote"@.len());
            reveal_strlit("expandable_blockquote");
            assert("text_mention"@.len() != "expandable_blockquote"@.len());
            reveal_strlit("code");
            assert("text_mention"@.len() != "code"@.len());
            reveal_strlit("pre");
            assert("text_mention"@.len() != "pre"@.len());
            reveal_strlit("text_link");
            assert("text_mention"@.len() != "text_link"@.len());
        },
        MessageEntityKind::CustomEmoji => {
            reveal_strlit("custom_emoji");
            reveal_strlit("mention");
            assert("custom_emoji"@.len() != "mention"@.len());
            reveal_strlit("hashtag");
            assert("custom_emoji"@.len() != "hashtag"@.len());
            reveal_strlit("cashtag");
            assert("custom_emoji"@.len() != "cashtag"@.len());
            reveal_strlit("bot_command");
            assert("custom_emoji"@.len() != "bot_command"@.len());
            reveal_strlit("url");
            assert("custom_emoji"@.len() != "url"@.len());
            reveal_strlit("email");
            assert("custom_emoji"@.len() != "email"@.len());
            reveal_strlit("phone_number");
            assert("custom_emoji"@[0] != "phone_number"@[0]);
            reveal_strlit("bold");
            assert("custom_emoji"@.len() != "bold"@.len());
            reveal_strlit("italic");
            assert("custom_emoji"@.len() != "italic"@.len());
            reveal_strlit("underline");
            assert("custom_emoji"@.len() != "underline"@.len());
            reveal_strlit("strikethrough");
            assert("custom_emoji"@.len() != "strikethrough"@.len());
            reveal_strlit("spoiler");
            assert("custom_emoji"@.len() != "spoiler"@.len());
            reveal_strlit("blockquote");
            assert("custom_emoji"@.len() != "blockquote"@.len());
            reveal_strlit("expandable_blockquote");
            assert("custom_emoji"@.len() != "expandable_blockquote"@.len());
            reveal_strlit("code");
            assert("custom_emoji"@.len() != "code"@.len());
            reveal_strlit("pre");
            assert("custom_emoji"@.len() != "pre"@.len());
            reveal_strlit("text_link");
            assert("custom_emoji"@.len() != "text_link"@.len());
            reveal_strlit("text_mention");
            assert("custom_emoji"@[0] != "text_mention"@[0]);
        },
        MessageEntityKind::DateTime => {
            reveal_strlit("date_time");
            reveal_strlit("mention");
            assert("date_time"@.len() != "mention"@.len());
            reveal_strlit("hashtag");
            assert("date_time"@.len() != "hashtag"@.len());
            reveal_strlit("cashtag");
            assert("date_time"@.len() != "cashtag"@.len());
            reveal_strlit("bot_command");
            assert("date_time"@.len() != "bot_command"@.len());
            reveal_strlit("url");
            assert("date_time"@.len() != "url"@.len());
            reveal_strlit("email");
            assert("date_time"@.len() != "email"@.len());
            reveal_strlit("phone_number");
            assert("date_time"@.len() != "phone_number"@.len());
            reveal_strlit("bold");
            assert("date_time"@.len() != "bold"@.len());
            reveal_strlit("italic");
            assert("date_time"@.len() != "italic"@.len());
            reveal_strlit("underline");
            assert("date_time"@[0] != "underline"@[0]);
            reveal_strlit("strikethrough");
            assert("date_time"@.len() != "strikethrough"@.len());
            reveal_strlit("spoiler");
            assert("date_time"@.len() != "spoiler"@.len());
            reveal_strlit("blockquote");
            assert("date_time"@.len() != "blockquote"@.len());
            reveal_strlit("expandable_blockquote");
            assert("date_time"@.len() != "expandable_blockquote"@.len());
            reveal_strlit("code");
            assert("date_time"@.len() != "code"@.len());
            reveal_strlit("pre");
            assert("date_time"@.len() != "pre"@.len());
            reveal_strlit("text_link");
            assert("date_time"@[0] != "text_link"@[0]);
            reveal_strlit("text_mention");
            assert("date_time"@.len() != "text_mention"@.len());
            reveal_strlit("custom_emoji");
            assert("date_time"@.len() != "custom_emoji"@.len());
        },
        MessageEntityKind::Unknown(_) => {},
    }
}

/// Telegram chat object.
#[derive(Debug)]
pub struct Chat {
    pub id: i64,
    pub kind: ChatType,
    pub title: Option<String>,
    pub username: Option<String>,
    pub first_name: Option<String>,
    pub last_name: Option<String>,
    pub is_forum: Option<bool>,
    /// Fields of the response that this model does not name.
    pub extra: JsonMap,
}

impl Chat {
    pub fn is_private(&self) -> (r: bool)
        ensures
            r == (self.kind is Private),
    {
        matches!(self.kind, ChatType::Private)
    }

    pub fn is_group(&self) -> (r: bool)
        ensures
            r == (self.kind is Group),
    {
        matches!(self.kind, ChatType::Group)
    }

    pub fn is_supergroup(&self) -> (r: bool)
        ensures
            r == (self.kind is Supergroup),
    {
        matches!(self.kind, ChatType::Supergroup)
    }

    pub fn is_channel(&self) -> (r: bool)
        ensures
            r == (self.kind is Channel),
    {
        matches!(self.kind, ChatType::Channel)
    }

    /// A group or a supergroup.
    pub fn is_group_chat(&self) -> (r: bool)
        ensures
            r == (self.kind is Group || self.kind is Supergroup),
    {
        self.is_group() || self.is_supergroup()
    }
}

/// The name a chat is shown by: its title, else its username, else its first name.
pub open spec fn chat_display_name(chat: Chat) -> Option<Seq<char>> {
    match chat.title {
        Some(t) => Some(t@),
        None => match chat.username {
            Some(u) => Some(u@),
            None => match chat.first_name {
                Some(f) => Some(f@),
                None => None,
            },
        },
    }
}

fn chat_display_name_exec(chat: &Chat) -> (r: Option<&str>)
    ensures
        match r {
            Some(s) => chat_display_name(*chat) == Some(s@),
            None => chat_display_name(*chat) is None,
        },
{
    match &chat.title {
        Some(t) => Some(t.as_str()),
        None => match &chat.username {
            Some(u) => Some(u.as_str()),
            None => match &chat.first_name {
                Some(f) => Some(f.as_str()),
                None => None,
            },
        },
    }
}

/// Telegram message entity.
#[derive(Debug)]
pub struct MessageEntity {
    pub kind: MessageEntityKind,
    pub offset: u32,
    pub length: u32,
    pub url: Option<String>,
    pub user: Option<User>,
    pub language: Option<String>,
    pub custom_emoji_id: Option<String>,
    pub unix_time: Option<i64>,
    pub date_time_format: Option<String>,
    /// Fields of the response that this model does not name; never sent back.
    pub extra: JsonMap,
}

/// The entries of a serialized message entity. A mentioned user is written
/// with its typed fields only, and neither the entity's nor the user's extra
/// fields are sent back.
pub open spec fn message_entity_entries(entity: MessageEntity) -> Seq<(Seq<char>, JsonView)> {
    seq![
        ("type"@, JsonView::Text(message_entity_kind_name(entity.kind))),
        ("offset"@, JsonView::UInt(entity.offset as u64)),
        ("length"@, JsonView::UInt(entity.length as u64)),
    ] + opt_text_entry("url"@, entity.url) + match entity.user {
        Some(u) => seq![("user"@, JsonView::Object(user_core_entries(u)))],
        None => Seq::empty(),
    } + opt_text_entry("language"@, entity.language) + opt_text_entry(
        "custom_emoji_id"@,
        entity.custom_emoji_id,
    ) + opt_int_entry("unix_time"@, entity.unix_time) + opt_text_entry(
        "date_time_format"@,
        entity.date_time_format,
    )
}

impl MessageEntity {
    /// The entries Telegram receives for this entity.
    pub fn to_entries(&self) -> (r: Vec<(String, JsonValue)>)
        ensures
            pairs_view(r@) == message_entity_entries(*self),
    {
        let mut out: Vec<(String, JsonValue)> = Vec::new();
        let kind = self.kind.as_str();
        out.push(("type".to_owned(), JsonValue::Text(kind.to_owned())));
        out.push(("offset".to_owned(), JsonValue::UInt(self.offset as u64)));
        out.push(("length".to_owned(), JsonValue::UInt(self.length as u64)));
        let ghost start = pairs_view(out@);
        assert(start =~= seq![
            ("type"@, JsonView::Text(message_entity_kind_name(self.kind))),
            ("offset"@, JsonView::UInt(self.offset as u64)),
            ("length"@, JsonView::UInt(self.length as u64)),
        ]);
        push_opt_text(&mut out, "url", &self.url);
        if let Some(u) = &self.user {
            let mut fields: Vec<(String, JsonValue)> = Vec::new();
            assert(pairs_view(fields@) =~= Seq::<(Seq<char>, JsonView)>::empty());
            u.push_core_entries(&mut fields);
            let ghost before = pairs_view(out@);
            let value = JsonValue::Object(fields);
            assert(value.json()->Object_0 =~= pairs_view(fields@));
            out.push(("user".to_owned(), value));
            assert(pairs_view(out@) =~= before + seq![("user"@, JsonView::Object(user_core_entries(*u)))]);
        }
        push_opt_text(&mut out, "language", &self.language);
        push_opt_text(&mut out, "custom_emoji_id", &self.custom_emoji_id);
        push_opt_int(&mut out, "unix_time", self.unix_time);
        push_opt_text(&mut out, "date_time_format", &self.date_time_format);
        assert(pairs_view(out@) =~= message_entity_entries(*self));
        out
    }
}

/// Telegram photo size object.
#[derive(Debug)]
pub struct PhotoSize {
    pub file_id: String,
    pub file_unique_id: String,
    pub width: u32,
    pub height: u32,
    pub file_size: Option<u64>,
    pub extra: JsonMap,
}

/// Telegram forwarded message origin sent by a user.
#[derive(Debug)]
pub struct MessageOriginUser {
    pub date: i64,
    pub sender_user: User,
    pub extra: JsonMap,
}

/// Telegram forwarded message origin sent by a hidden user.
#[derive(Debug)]
pub struct MessageOriginHiddenUser {
    pub date: i64,
    pub sender_user_name: String,
    pub extra: JsonMap,
}

/// Telegram forwarded message origin sent on behalf of a chat.
#[derive(Debug)]
pub struct MessageOriginChat {
    pub date: i64,
    pub sender_chat: Chat,
    pub author_signature: Option<String>,
    pub extra: JsonMap,
}

/// Telegram forwarded message origin sent from a channel.
#[derive(Debug)]
pub struct MessageOriginChannel {
    pub date: i64,
    pub chat: Chat,
    pub message_id: MessageId,
    pub author_signature: Option<String>,
    pub extra: JsonMap,
}

/// Telegram forwarded message origin, told apart by its `type` field.
#[derive(Debug)]
pub enum MessageOrigin {
    User(MessageOriginUser),
    HiddenUser(MessageOriginHiddenUser),
    Chat(Box<MessageOriginChat>),
    Channel(Box<MessageOriginChannel>),
    /// An origin of a type this model does not know, kept as received.
    Unknown(JsonValue),
}

/// The `type` of an origin: its variant's name, or for an unknown origin the
/// `type` string it was read with.
pub open spec fn origin_kind(origin: MessageOrigin) -> Option<Seq<char>> {
    match origin {
        MessageOrigin::User(_) => Some("user"@),
        MessageOrigin::HiddenUser(_) => Some("hidden_user"@),
        MessageOrigin::Chat(_) => Some("chat"@),
        MessageOrigin::Channel(_) => Some("channel"@),
        MessageOrigin::Unknown(value) => tagged_field_spec(value.json(), "type"@),
    }
}

/// The name of who sent the original message: the user's first name, the
/// hidden user's name, or the display name of the sending chat or channel.
pub open spec fn origin_sender_name(origin: MessageOrigin) -> Option<Seq<char>> {
    match origin {
        MessageOrigin::User(v) => Some(v.sender_user.first_name@),
        MessageOrigin::HiddenUser(v) => Some(v.sender_user_name@),
        MessageOrigin::Chat(v) => chat_display_name(v.sender_chat),
        MessageOrigin::Channel(v) => chat_display_name(v.chat),
        MessageOrigin::Unknown(_) => None,
    }
}

impl MessageOrigin {
    pub fn kind(&self) -> (r: Option<&str>)
        ensures
            match r {
                Some(s) => origin_kind(*self) == Some(s@),
                None => origin_kind(*self) is None,
            },
    {
        match self {
            MessageOrigin::User(_) => Some("user"),
            MessageOrigin::HiddenUser(_) => Some("hidden_user"),
            MessageOrigin::Chat(_) => Some("chat"),
            MessageOrigin::Channel(_) => Some("channel"),
            MessageOrigin::Unknown(value) => tagged_field(value, "type"),
        }
    }

    pub fn date(&self) -> (r: Option<i64>)
        ensures
            r == match *self {
                MessageOrigin::User(v) => Some(v.date),
                MessageOrigin::HiddenUser(v) => Some(v.date),
                MessageOrigin::Chat(v) => Some(v.date),
                MessageOrigin::Channel(v) => Some(v.date),
                MessageOrigin::Unknown(_) => None,
            },
    {
        match self {
            MessageOrigin::User(v) => Some(v.date),
            MessageOrigin::HiddenUser(v) => Some(v.date),
            MessageOrigin::Chat(v) => Some(v.date),
            MessageOrigin::Channel(v) => Some(v.date),
            MessageOrigin::Unknown(_) => None,
        }
    }

    pub fn as_user_origin(&self) -> (r: Option<&MessageOriginUser>)
        ensures
            r == match *self {
                MessageOrigin::User(v) => Some(&v),
                _ => None,
            },
    {
        match self {
            MessageOrigin::User(v) => Some(v),
            _ => None,
        }
    }

    pub fn into_user_origin(self) -> (r: Option<MessageOriginUser>)
        ensures
            r == match self {
                MessageOrigin::User(v) => Some(v),
                _ => None,
            },
    {
        match self {
            MessageOrigin::User(v) => Some(v),
            _ => None,
        }
    }

    pub fn as_hidden_user_origin(&self) -> (r: Option<&MessageOriginHiddenUser>)
        ensures
            r == match *self {
                MessageOrigin::HiddenUser(v) => Some(&v),
                _ => None,
            },
    {
        match self {
            MessageOrigin::HiddenUser(v) => Some(v),
            _ => None,
        }
    }

    pub fn into_hidden_user_origin(self) -> (r: Option<MessageOriginHiddenUser>)
        ensures
            r == match self {
                MessageOrigin::HiddenUser(v) => Some(v),
                _ => None,
            },
    {
        match self {
            MessageOrigin::HiddenUser(v) => Some(v),
            _ => None,
        }
    }

    pub fn as_chat_origin(&self) -> (r: Option<&MessageOriginChat>)
        ensures
            r == match *self {
                MessageOrigin::Chat(v) => Some(&*v),
                _ => None,
            },
    {
        match self {
            MessageOrigin::Chat(v) => Some(&**v),
            _ => None,
        }
    }

    pub fn into_chat_origin(self) -> (r: Option<MessageOriginChat>)
        ensures
            r == match self {
                MessageOrigin::Chat(v) => Some(*v),
                _ => None,
            },
    {
        match self {
            MessageOrigin::Chat(v) => Some(*v),
            _ => None,
        }
    }

    pub fn as_channel_origin(&self) -> (r: Option<&MessageOriginChannel>)
        ensures
            r == match *self {
                MessageOrigin::Channel(v) => Some(&*v),
                _ => None,
            },
    {
        match self {
            MessageOrigin::Channel(v) => Some(&**v),
            _ => None,
        }
    }

    pub fn into_channel_origin(self) -> (r: Option<MessageOriginChannel>)
        ensures
            r == match self {
                MessageOrigin::Channel(v) => Some(*v),
                _ => None,
            },
    {
        match self {
            MessageOrigin::Channel(v) => Some(*v),
            _ => None,
        }
    }

    pub fn as_unknown_value(&self) -> (r: Option<&JsonValue>)
        ensures
            r == match *self {
                MessageOrigin::Unknown(v) => Some(&v),
                _ => None,
            },
    {
        match self {
            MessageOrigin::Unknown(v) => Some(v),
            _ => None,
        }
    }

    pub fn into_unknown_value(self) -> (r: Option<JsonValue>)
        ensures
            r == match self {
                MessageOrigin::Unknown(v) => Some(v),
                _ => None,
            },
    {
        match self {
            MessageOrigin::Unknown(v) => Some(v),
            _ => None,
        }
    }

    pub fn user(&self) -> (r: Option<&User>)
        ensures
            r == match *self {
                MessageOrigin::User(v) => Some(&v.sender_user),
                _ => None,
            },
    {
        match self {
            MessageOrigin::User(v) => Some(&v.sender_user),
            _ => None,
        }
    }

    /// The chat a message was sent from on behalf of, or the channel it was posted in.
    pub fn chat(&self) -> (r: Option<&Chat>)
        ensures
            r == match *self {
                MessageOrigin::Chat(v) => Some(&v.sender_chat),
                MessageOrigin::Channel(v) => Some(&v.chat),
                _ => None,
            },
    {
        match self {
            MessageOrigin::Chat(v) => Some(&v.sender_chat),
            MessageOrigin::Channel(v) => Some(&v.chat),
            _ => None,
        }
    }

    pub fn author_signature(&self) -> (r: Option<&str>)
        ensures
            match r {
                Some(s) => match *self {
                    MessageOrigin::Chat(v) => v.author_signature matches Some(a) && a@ == s@,
                    MessageOrigin::Channel(v) => v.author_signature matches Some(a) && a@ == s@,
                    _ => false,
                },
                None => match *self {
                    MessageOrigin::Chat(v) => v.author_signature is None,
                    MessageOrigin::Channel(v) => v.author_signature is None,
                    _ => true,
                },
            },
    {
        let signature = match self {
            MessageOrigin::Chat(v) => &v.author_signature,
            MessageOrigin::Channel(v) => &v.author_signature,
            _ => {
                return None;
            },
        };
        match signature {
            Some(a) => Some(a.as_str()),
            None => None,
        }
    }

    pub fn sender_name(&self) -> (r: Option<&str>)
        ensures
            match r {
                Some(s) => origin_sender_name(*self) == Some(s@),
                None => origin_sender_name(*self) is None,
            },
    {
        match self {
            MessageOrigin::User(v) => Some(v.sender_user.first_name.as_str()),
            MessageOrigin::HiddenUser(v) => Some(v.sender_user_name.as_str()),
            MessageOrigin::Chat(v) => chat_display_name_exec(&v.sender_chat),
            MessageOrigin::Channel(v) => chat_display_name_exec(&v.chat),
            MessageOrigin::Unknown(_) => None,
        }
    }

    pub fn message_id(&self) -> (r: Option<MessageId>)
        ensures
            r == match *self {
                MessageOrigin::Channel(v) => Some(v.message_id),
                _ => None,
            },
    {
        match self {
            MessageOrigin::Channel(v) => Some(v.message_id),
            _ => None,
        }
    }
}

/// The JSON of a list of message entities.
pub open spec fn entities_json(entities: Seq<MessageEntity>) -> JsonView {
    JsonView::Array(
        Seq::new(entities.len(), |i: int| JsonView::Object(message_entity_entries(entities[i]))),
    )
}

/// The JSON Telegram receives for a list of message entities.
pub fn entities_to_json(entities: &Vec<MessageEntity>) -> (r: JsonValue)
    ensures
        r.json() == entities_json(entities@),
{
    let mut out: Vec<JsonValue> = Vec::new();
    let mut i: usize = 0;
    while i < entities.len()
        invariant
            i <= entities@.len(),
            out@.len() == i,
            forall|j: int|
                0 <= j < i ==> #[trigger] out@[j].json() == JsonView::Object(
                    message_entity_entries(entities@[j]),
                ),
        decreases entities@.len() - i,
    {
        let entries = entities[i].to_entries();
        let value = JsonValue::Object(entries);
        assert(value.json()->Object_0 =~= pairs_view(entries@));
        out.push(value);
        i = i + 1;
    }
    let ghost items = out@;
    let r = JsonValue::Array(out);
    assert(r.json()->Array_0 =~= entities_json(entities@)->Array_0) by {
        assert forall|j: int| 0 <= j < items.len() implies r.json()->Array_0[j] == entities_json(
            entities@,
        )->Array_0[j] by {
            assert(items[j].json() == JsonView::Object(message_entity_entries(entities@[j])));
        }
    }
    r
}

/// The keys that the typed fields of a `Chat` occupy.
pub open spec fn chat_reserved() -> Seq<&'static str> {
    seq!["id", "type", "title", "username", "first_name", "last_name", "is_forum"]
}

fn chat_reserved_keys() -> (r: [&'static str; 7])
    ensures
        r@ == chat_reserved(),
{
    let r = ["id", "type", "title", "username", "first_name", "last_name", "is_forum"];
    assert(r@ =~= chat_reserved());
    r
}

/// The typed fields of a `Chat`, in the order they are written.
pub open spec fn chat_core_entries(m: Chat) -> Seq<(Seq<char>, JsonView)> {
    seq![("id"@, JsonView::Int(m.id))]
        + seq![("type"@, JsonView::Text(chat_type_name(m.kind)))]
        + opt_text_entry("title"@, m.title)
        + opt_text_entry("username"@, m.username)
        + opt_text_entry("first_name"@, m.first_name)
        + opt_text_entry("last_name"@, m.last_name)
        + opt_bool_entry("is_forum"@, m.is_forum)
}

/// The entries of a serialized `Chat`: its typed fields, then the extra
/// entries whose key no typed field uses.
pub open spec fn chat_entries(m: Chat) -> Seq<(Seq<char>, JsonView)> {
    chat_core_entries(m) + visible_extra(m.extra.pairs(), chat_reserved())
}

impl Chat {
    /// The entries Telegram receives for this value.
    pub fn to_entries(&self) -> (r: Vec<(String, JsonValue)>)
        ensures
            pairs_view(r@) == chat_entries(*self),
    {
        let mut out: Vec<(String, JsonValue)> = Vec::new();
        assert(pairs_view(out@) =~= Seq::<(Seq<char>, JsonView)>::empty());
        push_entry(&mut out, "id", JsonValue::Int(self.id));
        push_entry(&mut out, "type", JsonValue::Text(self.kind.as_str().to_owned()));
        push_opt_text(&mut out, "title", &self.title);
        push_opt_text(&mut out, "username", &self.username);
        push_opt_text(&mut out, "first_name", &self.first_name);
        push_opt_text(&mut out, "last_name", &self.last_name);
        push_opt_bool(&mut out, "is_forum", self.is_forum);
        let reserved = chat_reserved_keys();
        append_extra_fields(&mut out, &self.extra, &reserved);
        assert(pairs_view(out@) =~= chat_entries(*self));
        out
    }
}

proof fn lemma_chat_core_keys_reserved(m: Chat)
    ensures
        keys_reserved(chat_core_entries(m), chat_reserved()),
{
    let r = chat_reserved();
    assert(r[0]@ == "id"@);
    assert(keys_reserved(seq![("id"@, JsonView::Int(m.id))], r));
    assert(r[1]@ == "type"@);
    assert(keys_reserved(seq![("type"@, JsonView::Text(chat_type_name(m.kind)))], r));
    lemma_keys_reserved_append(seq![("id"@, JsonView::Int(m.id))], seq![("type"@, JsonView::Text(chat_type_name(m.kind)))], r);
    assert(r[2]@ == "title"@);
    assert(keys_reserved(opt_text_entry("title"@, m.title), r));
    lemma_keys_reserved_append(seq![("id"@, JsonView::Int(m.id))] + seq![("type"@, JsonView::Text(chat_type_name(m.kind)))], opt_text_entry("title"@, m.title), r);
    assert(r[3]@ == "username"@);
    assert(keys_reserved(opt_text_entry("username"@, m.username), r));
    lemma_keys_reserved_append(seq![("id"@, JsonView::Int(m.id))] + seq![("type"@, JsonView::Text(chat_type_name(m.kind)))] + opt_text_entry("title"@, m.title), opt_text_entry("username"@, m.username), r);
    assert(r[4]@ == "first_name"@);
    assert(keys_reserved(opt_text_entry("first_name"@, m.first_name), r));
    lemma_keys_reserved_append(seq![("id"@, JsonView::Int(m.id))] + seq![("type"@, JsonView::Text(chat_type_name(m.kind)))] + opt_text_entry("title"@, m.title) + opt_text_entry("username"@, m.username), opt_text_entry("first_name"@, m.first_name), r);
    assert(r[5]@ == "last_name"@);
    assert(keys_reserved(opt_text_entry("last_name"@, m.last_name), r));
    lemma_keys_reserved_append(seq![("id"@, JsonView::Int(m.id))] + seq![("type"@, JsonView::Text(chat_type_name(m.kind)))] + opt_text_entry("title"@, m.title) + opt_text_entry("username"@, m.username) + opt_text_entry("first_name"@, m.first_name), opt_text_entry("last_name"@, m.last_name), r);
    assert(r[6]@ == "is_forum"@);
    lemma_opt_bool_entry_key("is_forum"@, m.is_forum, r);
    lemma_keys_reserved_append(seq![("id"@, JsonView::Int(m.id))] + seq![("type"@, JsonView::Text(chat_type_name(m.kind)))] + opt_text_entry("title"@, m.title) + opt_text_entry("username"@, m.username) + opt_text_entry("first_name"@, m.first_name) + opt_text_entry("last_name"@, m.last_name), opt_bool_entry("is_forum"@, m.is_forum), r);
}

/// In a serialized `Chat`, the entries under its own keys are exactly its
/// typed fields, and every extra entry under another key is kept: an extra
/// field never replaces a typed one.
pub proof fn lemma_chat_extra_cannot_override(m: Chat)
    ensures
        forall|i: int|
            0 <= i < chat_entries(m).len() ==> (is_reserved(
                #[trigger] chat_entries(m)[i].0,
                chat_reserved(),
            ) <==> i < chat_core_entries(m).len()),
        forall|j: int|
            0 <= j < m.extra.pairs().len() && !is_reserved(#[trigger] m.extra.pairs()[j].0@, chat_reserved())
                ==> chat_entries(m).contains((m.extra.pairs()[j].0@, m.extra.pairs()[j].1.json())),
{
    lemma_chat_core_keys_reserved(m);
    lemma_extra_never_overrides(chat_core_entries(m), m.extra.pairs(), chat_reserved());
}

} // verus!
