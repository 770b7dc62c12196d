use vstd::prelude::*;
use vstd::utf8::encode_utf8;

use crate::error::{fail, failure, Error};

verus! {

/// Telegram user id wrapper.
#[derive(Clone, Copy, Debug, PartialEq, Eq, Hash, PartialOrd, Ord, Structural)]
pub struct UserId(pub i64);

/// Telegram message id wrapper.
#[derive(Clone, Copy, Debug, PartialEq, Eq, Hash, PartialOrd, Ord, Structural)]
pub struct MessageId(pub i64);

/// Numeric Telegram chat id wrapper.
#[derive(Clone, Copy, Debug, PartialEq, Eq, Hash, PartialOrd, Ord, Structural)]
pub struct NumericChatId(pub i64);

impl From<i64> for NumericChatId {
    fn from(value: i64) -> (r: Self) {
        NumericChatId(value)
    }
}

impl vstd::std_specs::convert::FromSpecImpl<i64> for NumericChatId {
    open spec fn obeys_from_spec() -> bool {
        true
    }

    open spec fn from_spec(value: i64) -> Self {
        NumericChatId(value)
    }
}

impl From<i64> for UserId {
    fn from(value: i64) -> (r: Self) {
        UserId(value)
    }
}

impl vstd::std_specs::convert::FromSpecImpl<i64> for UserId {
    open spec fn obeys_from_spec() -> bool {
        true
    }

    open spec fn from_spec(value: i64) -> Self {
        UserId(value)
    }
}

impl From<i64> for MessageId {
    fn from(value: i64) -> (r: Self) {
        MessageId(value)
    }
}

impl vstd::std_specs::convert::FromSpecImpl<i64> for MessageId {
    open spec fn obeys_from_spec() -> bool {
        true
    }

    open spec fn from_spec(value: i64) -> Self {
        MessageId(value)
    }
}

/// Why a user id is refused: it must be positive.
pub open spec fn user_id_failure(id: UserId) -> Option<Seq<char>> {
    if id.0 <= 0 {
        Some("user_id must be greater than 0"@)
    } else {
        None
    }
}

/// Why a message id is refused: it must be positive.
pub open spec fn message_id_failure(id: MessageId) -> Option<Seq<char>> {
    if id.0 <= 0 {
        Some("message_id must be greater than 0"@)
    } else {
        None
    }
}

/// Why a numeric chat id is refused: it must not be zero.
pub open spec fn numeric_chat_id_failure(id: NumericChatId) -> Option<Seq<char>> {
    if id.0 == 0 {
        Some("chat_id cannot be 0"@)
    } else {
        None
    }
}

impl UserId {
    /// Validates that this is a concrete Telegram user id.
    pub fn validate(&self) -> (r: Result<(), Error>)
        ensures
            failure(r) == user_id_failure(*self),
    {
        if self.0 <= 0 {
            return fail("user_id must be greater than 0");
        }
        Ok(())
    }
}

impl MessageId {
    /// Validates that this is a concrete Telegram message id.
    pub fn validate(&self) -> (r: Result<(), Error>)
        ensures
            failure(r) == message_id_failure(*self),
    {
        if self.0 <= 0 {
            return fail("message_id must be greater than 0");
        }
        Ok(())
    }
}

impl NumericChatId {
    /// Validates that this is a concrete numeric Telegram chat id.
    pub fn validate(&self) -> (r: Result<(), Error>)
        ensures
            failure(r) == numeric_chat_id_failure(*self),
    {
        if self.0 == 0 {
            return fail("chat_id cannot be 0");
        }
        Ok(())
    }
}

/// Chat id can be numeric or @username string.
#[derive(Clone, Debug, PartialEq, Eq, Hash, PartialOrd, Ord)]
pub enum ChatId {
    /// Numeric chat id.
    Id(i64),
    /// Public channel username like `@my_channel`.
    Username(String),
}

/// The abstract value of a chat id.
pub enum ChatIdView {
    Id(i64),
    Username(Seq<char>),
}

impl View for ChatId {
    type V = ChatIdView;

    open spec fn view(&self) -> ChatIdView {
        match self {
            ChatId::Id(id) => ChatIdView::Id(*id),
            ChatId::Username(name) => ChatIdView::Username(name@),
        }
    }
}

impl From<i64> for ChatId {
    fn from(value: i64) -> (r: Self) {
        ChatId::Id(value)
    }
}

impl vstd::std_specs::convert::FromSpecImpl<i64> for ChatId {
    open spec fn obeys_from_spec() -> bool {
        true
    }

    open spec fn from_spec(value: i64) -> Self {
        ChatId::Id(value)
    }
}

impl From<String> for ChatId {
    fn from(value: String) -> (r: Self) {
        ChatId::Username(value)
    }
}

impl vstd::std_specs::convert::FromSpecImpl<String> for ChatId {
    open spec fn obeys_from_spec() -> bool {
        true
    }

    open spec fn from_spec(value: String) -> Self {
        ChatId::Username(value)
    }
}

impl<'a> From<&'a str> for ChatId {
    fn from(value: &'a str) -> (r: Self) {
        ChatId::Username(value.to_owned())
    }
}

impl<'a> vstd::std_specs::convert::FromSpecImpl<&'a str> for ChatId {
    /// The username is a fresh copy of the text; a copy equals the text by its
    /// view only, so no exact value is promised here: use [`ChatId::username`].
    open spec fn obeys_from_spec() -> bool {
        false
    }

    open spec fn from_spec(value: &'a str) -> Self {
        vstd::pervasive::arbitrary()
    }
}

impl ChatId {
    /// A username chat id holding a copy of `name`.
    pub fn username(name: &str) -> (r: ChatId)
        ensures
            r@ == ChatIdView::Username(name@),
    {
        ChatId::Username(name.to_owned())
    }

    /// Validates the local representation before sending it to Telegram.
    pub fn validate(&self) -> (r: Result<(), Error>)
        ensures
            failure(r) == chat_id_failure(self@),
    {
        match self {
            ChatId::Id(id) => {
                if *id == 0 {
                    fail("chat_id cannot be 0")
                } else {
                    Ok(())
                }
            },
            ChatId::Username(username) => validate_chat_username(username.as_str()),
        }
    }
}

/// Why a chat id is refused.
pub open spec fn chat_id_failure(id: ChatIdView) -> Option<Seq<char>> {
    match id {
        ChatIdView::Id(v) => if v == 0 {
            Some("chat_id cannot be 0"@)
        } else {
            None
        },
        ChatIdView::Username(name) => chat_username_failure(name),
    }
}

/// An ASCII letter, digit or `_`.
pub open spec fn is_username_byte(b: u8) -> bool {
    (0x30 <= b <= 0x39) || (0x41 <= b <= 0x5a) || (0x61 <= b <= 0x7a) || b == 0x5f
}

/// Why a `@username` chat id is refused. The handle after `@` is measured and
/// checked in UTF-8 bytes.
pub open spec fn chat_username_failure(name: Seq<char>) -> Option<Seq<char>> {
    let bytes = encode_utf8(name);
    let handle = bytes.skip(1);
    if bytes.len() == 0 || bytes[0] != 0x40u8 {
        Some("chat_id username must start with `@` when provided as a string"@)
    } else if handle.len() == 0 {
        Some("chat_id username cannot be empty"@)
    } else if !(5 <= handle.len() <= 32) {
        Some("chat_id username must be 5-32 ASCII characters after `@`"@)
    } else if !(forall|i: int| 0 <= i < handle.len() ==> is_username_byte(#[trigger] handle[i])) {
        Some("chat_id username may only contain ASCII letters, digits or `_` after `@`"@)
    } else {
        None
    }
}

fn is_username_byte_exec(b: u8) -> (r: bool)
    ensures
        r == is_username_byte(b),
{
    (0x30 <= b && b <= 0x39) || (0x41 <= b && b <= 0x5a) || (0x61 <= b && b <= 0x7a) || b == 0x5f
}

/// Checks a chat username: `@` followed by 5 to 32 ASCII letters, digits or `_`.
pub fn validate_chat_username(username: &str) -> (r: Result<(), Error>)
    ensures
        failure(r) == chat_username_failure(username@),
{
    let bytes = username.as_bytes();
    let ghost b = encode_utf8(username@);
    assert(bytes@ == b);
    let n = bytes.len();
    if n == 0 || bytes[0] != 0x40u8 {
        return fail("chat_id username must start with `@` when provided as a string");
    }
    let ghost handle = b.skip(1);
    assert(handle.len() == n - 1);
    if n - 1 == 0 {
        return fail("chat_id username cannot be empty");
    }
    if !(5 <= n - 1 && n - 1 <= 32) {
        return fail("chat_id username must be 5-32 ASCII characters after `@`");
    }
    let mut i: usize = 1;
    while i < n
        invariant
            1 <= i <= n,
            n == bytes@.len(),
            bytes@ == b,
            handle == b.skip(1),
            b[0] == 0x40u8,
            5 <= n - 1 <= 32,
            b == encode_utf8(username@),
            forall|j: int| 0 <= j < i - 1 ==> is_username_byte(#[trigger] handle[j]),
        decreases n - i,
    {
        assert(handle[i - 1] == bytes@[i as int]);
        if !is_username_byte_exec(bytes[i]) {
            assert(!is_username_byte(handle[i - 1]));
            return fail("chat_id username may only contain ASCII letters, digits or `_` after `@`");
        }
        assert(handle[i - 1] == bytes@[i as int]);
        i = i + 1;
    }
    Ok(())
}

/// Telegram parse mode.
#[derive(Clone, Copy, Debug, PartialEq, Eq, Structural)]
pub enum ParseMode {
    Markdown,
    MarkdownV2,
    Html,
}

impl ParseMode {
    /// The name Telegram uses for this mode.
    pub fn as_str(&self) -> (r: &'static str)
        ensures
            r@ == parse_mode_name(*self),
    {
        match self {
            ParseMode::Markdown => "Markdown",
            ParseMode::MarkdownV2 => "MarkdownV2",
            ParseMode::Html => "HTML",
        }
    }
}

pub open spec fn parse_mode_name(mode: ParseMode) -> Seq<char> {
    match mode {
        ParseMode::Markdown => "Markdown"@,
        ParseMode::MarkdownV2 => "MarkdownV2"@,
        ParseMode::Html => "HTML"@,
    }
}

/// Telegram API error parameters.
#[derive(Clone, Copy, Debug, Default, PartialEq, Eq)]
pub struct ResponseParameters {
    /// Group migration target chat id.
    pub migrate_to_chat_id: Option<i64>,
    /// Retry after N seconds.
    pub retry_after: Option<u64>,
}

} // verus!
