use vstd::prelude::*;

use crate::bot::User;
use crate::common::{chat_id_failure, message_id_failure, user_id_failure, ChatId, ChatIdView, MessageId, UserId};
use crate::error::{fail, failure, first_failure, Error};
use crate::text::{
    decimal, required_text_failure, text_limit_failure, validate_required_text,
    validate_text_limit, TextLayout, TextPresence,
};

verus! {

pub const MAX_CHAT_TITLE_CHARS: usize = 128;
pub const MAX_CHAT_DESCRIPTION_CHARS: usize = 255;
pub const MAX_CUSTOM_TITLE_CHARS: usize = 16;
pub const MAX_INVITE_LINK_NAME_CHARS: usize = 32;
pub const MAX_INVITE_LINK_MEMBER_LIMIT: u32 = 99999;
pub const MAX_STICKER_SET_NAME_CHARS: usize = 64;

/// Telegram chat permissions object.
#[derive(Clone, Copy, Debug, Default, PartialEq, Eq, Structural)]
pub struct ChatPermissions {
    pub can_send_messages: Option<bool>,
    pub can_send_audios: Option<bool>,
    pub can_send_documents: Option<bool>,
    pub can_send_photos: Option<bool>,
    pub can_send_videos: Option<bool>,
    pub can_send_video_notes: Option<bool>,
    pub can_send_voice_notes: Option<bool>,
    pub can_send_polls: Option<bool>,
    pub can_send_other_messages: Option<bool>,
    pub can_add_web_page_previews: Option<bool>,
    pub can_change_info: Option<bool>,
    pub can_invite_users: Option<bool>,
    pub can_pin_messages: Option<bool>,
    pub can_manage_topics: Option<bool>,
}

/// All permission fields set to `value`.
pub open spec fn uniform_permissions(value: Option<bool>) -> ChatPermissions {
    ChatPermissions {
        can_send_messages: value,
        can_send_audios: value,
        can_send_documents: value,
        can_send_photos: value,
        can_send_videos: value,
        can_send_video_notes: value,
        can_send_voice_notes: value,
        can_send_polls: value,
        can_send_other_messages: value,
        can_add_web_page_previews: value,
        can_change_info: value,
        can_invite_users: value,
        can_pin_messages: value,
        can_manage_topics: value,
    }
}

impl ChatPermissions {
    /// Permissions with no field set.
    pub fn new() -> (r: Self)
        ensures
            r == uniform_permissions(None),
    {
        ChatPermissions {
            can_send_messages: None,
            can_send_audios: None,
            can_send_documents: None,
            can_send_photos: None,
            can_send_videos: None,
            can_send_video_notes: None,
            can_send_voice_notes: None,
            can_send_polls: None,
            can_send_other_messages: None,
            can_add_web_page_previews: None,
            can_change_info: None,
            can_invite_users: None,
            can_pin_messages: None,
            can_manage_topics: None,
        }
    }

    /// Every permission granted.
    pub fn allow_all() -> (r: Self)
        ensures
            r == uniform_permissions(Some(true)),
    {
        ChatPermissions {
            can_send_messages: Some(true),
            can_send_audios: Some(true),
            can_send_documents: Some(true),
            can_send_photos: Some(true),
            can_send_videos: Some(true),
            can_send_video_notes: Some(true),
            can_send_voice_notes: Some(true),
            can_send_polls: Some(true),
            can_send_other_messages: Some(true),
            can_add_web_page_previews: Some(true),
            can_change_info: Some(true),
            can_invite_users: Some(true),
            can_pin_messages: Some(true),
            can_manage_topics: Some(true),
        }
    }

    /// Every permission denied.
    pub fn deny_all() -> (r: Self)
        ensures
            r == uniform_permissions(Some(false)),
    {
        ChatPermissions {
            can_send_messages: Some(false),
            can_send_audios: Some(false),
            can_send_documents: Some(false),
            can_send_photos: Some(false),
            can_send_videos: Some(false),
            can_send_video_notes: Some(false),
            can_send_voice_notes: Some(false),
            can_send_polls: Some(false),
            can_send_other_messages: Some(false),
            can_add_web_page_previews: Some(false),
            can_change_info: Some(false),
            can_invite_users: Some(false),
            can_pin_messages: Some(false),
            can_manage_topics: Some(false),
        }
    }

    /// Read-only chat: every permission denied.
    pub fn read_only() -> (r: Self)
        ensures
            r == uniform_permissions(Some(false)),
    {
        Self::deny_all()
    }

    pub fn with_send_messages(self, allowed: bool) -> (r: Self)
        ensures
            r == (ChatPermissions { can_send_messages: Some(allowed), ..self }),
    {
        let mut out = self;
        out.can_send_messages = Some(allowed);
        out
    }

    pub fn with_send_audios(self, allowed: bool) -> (r: Self)
        ensures
            r == (ChatPermissions { can_send_audios: Some(allowed), ..self }),
    {
        let mut out = self;
        out.can_send_audios = Some(allowed);
        out
    }

    pub fn with_send_documents(self, allowed: bool) -> (r: Self)
        ensures
            r == (ChatPermissions { can_send_documents: Some(allowed), ..self }),
    {
        let mut out = self;
        out.can_send_documents = Some(allowed);
        out
    }

    pub fn with_send_photos(self, allowed: bool) -> (r: Self)
        ensures
            r == (ChatPermissions { can_send_photos: Some(allowed), ..self }),
    {
        let mut out = self;
        out.can_send_photos = Some(allowed);
        out
    }

    pub fn with_send_videos(self, allowed: bool) -> (r: Self)
        ensures
            r == (ChatPermissions { can_send_videos: Some(allowed), ..self }),
    {
        let mut out = self;
        out.can_send_videos = Some(allowed);
        out
    }

    pub fn with_send_video_notes(self, allowed: bool) -> (r: Self)
        ensures
            r == (ChatPermissions { can_send_video_notes: Some(allowed), ..self }),
    {
        let mut out = self;
        out.can_send_video_notes = Some(allowed);
        out
    }

    pub fn with_send_voice_notes(self, allowed: bool) -> (r: Self)
        ensures
            r == (ChatPermissions { can_send_voice_notes: Some(allowed), ..self }),
    {
        let mut out = self;
        out.can_send_voice_notes = Some(allowed);
        out
    }

    pub fn with_send_polls(self, allowed: bool) -> (r: Self)
        ensures
            r == (ChatPermissions { can_send_polls: Some(allowed), ..self }),
    {
        let mut out = self;
        out.can_send_polls = Some(allowed);
        out
    }

    pub fn with_send_other_messages(self, allowed: bool) -> (r: Self)
        ensures
            r == (ChatPermissions { can_send_other_messages: Some(allowed), ..self }),
    {
        let mut out = self;
        out.can_send_other_messages = Some(allowed);
        out
    }

    pub fn with_add_web_page_previews(self, allowed: bool) -> (r: Self)
        ensures
            r == (ChatPermissions { can_add_web_page_previews: Some(allowed), ..self }),
    {
        let mut out = self;
        out.can_add_web_page_previews = Some(allowed);
        out
    }

    pub fn with_change_info(self, allowed: bool) -> (r: Self)
        ensures
            r == (ChatPermissions { can_change_info: Some(allowed), ..self }),
    {
        let mut out = self;
        out.can_change_info = Some(allowed);
        out
    }

    pub fn with_invite_users(self, allowed: bool) -> (r: Self)
        ensures
            r == (ChatPermissions { can_invite_users: Some(allowed), ..self }),
    {
        let mut out = self;
        out.can_invite_users = Some(allowed);
        out
    }

    pub fn with_pin_messages(self, allowed: bool) -> (r: Self)
        ensures
            r == (ChatPermissions { can_pin_messages: Some(allowed), ..self }),
    {
        let mut out = self;
        out.can_pin_messages = Some(allowed);
        out
    }

    pub fn with_manage_topics(self, allowed: bool) -> (r: Self)
        ensures
            r == (ChatPermissions { can_manage_topics: Some(allowed), ..self }),
    {
        let mut out = self;
        out.can_manage_topics = Some(allowed);
        out
    }
}

/// Telegram chat administrator rights object.
#[derive(Clone, Copy, Debug, Default, PartialEq, Eq, Structural)]
pub struct ChatAdministratorRights {
    pub is_anonymous: Option<bool>,
    pub can_manage_chat: Option<bool>,
    pub can_delete_messages: Option<bool>,
    pub can_manage_video_chats: Option<bool>,
    pub can_restrict_members: Option<bool>,
    pub can_promote_members: Option<bool>,
    pub can_change_info: Option<bool>,
    pub can_invite_users: Option<bool>,
    pub can_post_stories: Option<bool>,
    pub can_edit_stories: Option<bool>,
    pub can_delete_stories: Option<bool>,
    pub can_post_messages: Option<bool>,
    pub can_edit_messages: Option<bool>,
    pub can_pin_messages: Option<bool>,
    pub can_manage_topics: Option<bool>,
}

/// Administrative capabilities exposed by `getChatMember`.
#[derive(Clone, Copy, Debug, PartialEq, Eq, Hash, Structural)]
pub enum ChatAdministratorCapability {
    ManageChat,
    DeleteMessages,
    ManageVideoChats,
    RestrictMembers,
    PromoteMembers,
    ChangeInfo,
    InviteUsers,
    PostStories,
    EditStories,
    DeleteStories,
    PostMessages,
    EditMessages,
    PinMessages,
    ManageTopics,
}

/// The rights field that grants a capability.
pub open spec fn capability_field(rights: ChatAdministratorRights, capability: ChatAdministratorCapability) -> Option<bool> {
    match capability {
        ChatAdministratorCapability::ManageChat => rights.can_manage_chat,
        ChatAdministratorCapability::DeleteMessages => rights.can_delete_messages,
        ChatAdministratorCapability::ManageVideoChats => rights.can_manage_video_chats,
        ChatAdministratorCapability::RestrictMembers => rights.can_restrict_members,
        ChatAdministratorCapability::PromoteMembers => rights.can_promote_members,
        ChatAdministratorCapability::ChangeInfo => rights.can_change_info,
        ChatAdministratorCapability::InviteUsers => rights.can_invite_users,
        ChatAdministratorCapability::PostStories => rights.can_post_stories,
        ChatAdministratorCapability::EditStories => rights.can_edit_stories,
        ChatAdministratorCapability::DeleteStories => rights.can_delete_stories,
        ChatAdministratorCapability::PostMessages => rights.can_post_messages,
        ChatAdministratorCapability::EditMessages => rights.can_edit_messages,
        ChatAdministratorCapability::PinMessages => rights.can_pin_messages,
        ChatAdministratorCapability::ManageTopics => rights.can_manage_topics,
    }
}

/// A capability is held when its field is `Some(true)`.
pub open spec fn grants(rights: ChatAdministratorRights, capability: ChatAdministratorCapability) -> bool {
    capability_field(rights, capability) == Some(true)
}

fn flag(value: Option<bool>) -> (r: bool)
    ensures
        r == (value == Some(true)),
{
    match value {
        Some(v) => v,
        None => false,
    }
}

impl ChatAdministratorRights {
    pub fn has_capability(&self, capability: ChatAdministratorCapability) -> (r: bool)
        ensures
            r == grants(*self, capability),
    {
        match capability {
            ChatAdministratorCapability::ManageChat => flag(self.can_manage_chat),
            ChatAdministratorCapability::DeleteMessages => flag(self.can_delete_messages),
            ChatAdministratorCapability::ManageVideoChats => flag(self.can_manage_video_chats),
            ChatAdministratorCapability::RestrictMembers => flag(self.can_restrict_members),
            ChatAdministratorCapability::PromoteMembers => flag(self.can_promote_members),
            ChatAdministratorCapability::ChangeInfo => flag(self.can_change_info),
            ChatAdministratorCapability::InviteUsers => flag(self.can_invite_users),
            ChatAdministratorCapability::PostStories => flag(self.can_post_stories),
            ChatAdministratorCapability::EditStories => flag(self.can_edit_stories),
            ChatAdministratorCapability::DeleteStories => flag(self.can_delete_stories),
            ChatAdministratorCapability::PostMessages => flag(self.can_post_messages),
            ChatAdministratorCapability::EditMessages => flag(self.can_edit_messages),
            ChatAdministratorCapability::PinMessages => flag(self.can_pin_messages),
            ChatAdministratorCapability::ManageTopics => flag(self.can_manage_topics),
        }
    }
}

/// The name of a capability.
pub open spec fn capability_name(capability: ChatAdministratorCapability) -> Seq<char> {
    match capability {
        ChatAdministratorCapability::ManageChat => "manage_chat"@,
        ChatAdministratorCapability::DeleteMessages => "delete_messages"@,
        ChatAdministratorCapability::ManageVideoChats => "manage_video_chats"@,
        ChatAdministratorCapability::RestrictMembers => "restrict_members"@,
        ChatAdministratorCapability::PromoteMembers => "promote_members"@,
        ChatAdministratorCapability::ChangeInfo => "change_info"@,
        ChatAdministratorCapability::InviteUsers => "invite_users"@,
        ChatAdministratorCapability::PostStories => "post_stories"@,
        ChatAdministratorCapability::EditStories => "edit_stories"@,
        ChatAdministratorCapability::DeleteStories => "delete_stories"@,
        ChatAdministratorCapability::PostMessages => "post_messages"@,
        ChatAdministratorCapability::EditMessages => "edit_messages"@,
        ChatAdministratorCapability::PinMessages => "pin_messages"@,
        ChatAdministratorCapability::ManageTopics => "manage_topics"@,
    }
}

impl ChatAdministratorCapability {
    pub fn as_str(&self) -> (r: &'static str)
        ensures
            r@ == capability_name(*self),
    {
        match self {
            ChatAdministratorCapability::ManageChat => "manage_chat",
            ChatAdministratorCapability::DeleteMessages => "delete_messages",
            ChatAdministratorCapability::ManageVideoChats => "manage_video_chats",
            ChatAdministratorCapability::RestrictMembers => "restrict_members",
            ChatAdministratorCapability::PromoteMembers => "promote_members",
            ChatAdministratorCapability::ChangeInfo => "change_info",
            ChatAdministratorCapability::InviteUsers => "invite_users",
            ChatAdministratorCapability::PostStories => "post_stories",
            ChatAdministratorCapability::EditStories => "edit_stories",
            ChatAdministratorCapability::DeleteStories => "delete_stories",
            ChatAdministratorCapability::PostMessages => "post_messages",
            ChatAdministratorCapability::EditMessages => "edit_messages",
            ChatAdministratorCapability::PinMessages => "pin_messages",
            ChatAdministratorCapability::ManageTopics => "manage_topics",
        }
    }
}

} // verus!

verus! {

/// Strongly typed chat member status.
#[derive(Clone, Debug, PartialEq, Eq, Hash)]
pub enum ChatMemberStatus {
    Owner,
    Administrator,
    Member,
    Restricted,
    Left,
    Banned,
    Unknown(String),
}

/// The wire name of a status.
pub open spec fn status_name(status: ChatMemberStatus) -> Seq<char> {
    match status {
        ChatMemberStatus::Owner => "creator"@,
        ChatMemberStatus::Administrator => "administrator"@,
        ChatMemberStatus::Member => "member"@,
        ChatMemberStatus::Restricted => "restricted"@,
        ChatMemberStatus::Left => "left"@,
        ChatMemberStatus::Banned => "kicked"@,
        ChatMemberStatus::Unknown(value) => value@,
    }
}

/// The status a wire name denotes: known names map to their variant, any other
/// name is kept as `Unknown`.
pub open spec fn status_matches(name: Seq<char>, status: ChatMemberStatus) -> bool {
    if name == "creator"@ {
        status is Owner
    } else if name == "administrator"@ {
        status is Administrator
    } else if name == "member"@ {
        status is Member
    } else if name == "restricted"@ {
        status is Restricted
    } else if name == "left"@ {
        status is Left
    } else if name == "kicked"@ {
        status is Banned
    } else {
        status matches ChatMemberStatus::Unknown(v) && v@ == name
    }
}

impl ChatMemberStatus {
    pub fn as_str(&self) -> (r: &str)
        ensures
            r@ == status_name(*self),
    {
        match self {
            ChatMemberStatus::Owner => "creator",
            ChatMemberStatus::Administrator => "administrator",
            ChatMemberStatus::Member => "member",
            ChatMemberStatus::Restricted => "restricted",
            ChatMemberStatus::Left => "left",
            ChatMemberStatus::Banned => "kicked",
            ChatMemberStatus::Unknown(value) => value.as_str(),
        }
    }

    /// Parses a wire name.
    pub fn parse(value: &str) -> (r: Self)
        ensures
            status_matches(value@, r),
    {
        if crate::text::str_eq(value, "creator") {
            ChatMemberStatus::Owner
        } else if crate::text::str_eq(value, "administrator") {
            ChatMemberStatus::Administrator
        } else if crate::text::str_eq(value, "member") {
            ChatMemberStatus::Member
        } else if crate::text::str_eq(value, "restricted") {
            ChatMemberStatus::Restricted
        } else if crate::text::str_eq(value, "left") {
            ChatMemberStatus::Left
        } else if crate::text::str_eq(value, "kicked") {
            ChatMemberStatus::Banned
        } else {
            ChatMemberStatus::Unknown(value.to_owned())
        }
    }
}

impl<'a> From<&'a str> for ChatMemberStatus {
    fn from(value: &'a str) -> (r: Self) {
        Self::parse(value)
    }
}

impl<'a> vstd::std_specs::convert::FromSpecImpl<&'a str> for ChatMemberStatus {
    /// An unknown name is kept as a fresh copy, equal to the name by its view
    /// only, so no exact value is promised here: see [`ChatMemberStatus::parse`].
    open spec fn obeys_from_spec() -> bool {
        false
    }

    open spec fn from_spec(value: &'a str) -> Self {
        vstd::pervasive::arbitrary()
    }
}

#[derive(Clone, Debug)]
pub struct GetChatRequest {
    pub chat_id: ChatId,
}

/// Why a `GetChatRequest` is refused.
pub open spec fn get_chat_failure(r: GetChatRequest) -> Option<Seq<char>> {
    chat_id_failure(r.chat_id@)
}

impl GetChatRequest {
    pub fn validate(&self) -> (r: Result<(), Error>)
        ensures
            failure(r) == get_chat_failure(*self),
    {
        self.chat_id.validate()
    }
}

#[derive(Clone, Debug)]
pub struct GetChatAdministratorsRequest {
    pub chat_id: ChatId,
}

/// Why a `GetChatAdministratorsRequest` is refused.
pub open spec fn get_chat_administrators_failure(r: GetChatAdministratorsRequest) -> Option<Seq<char>> {
    chat_id_failure(r.chat_id@)
}

impl GetChatAdministratorsRequest {
    pub fn validate(&self) -> (r: Result<(), Error>)
        ensures
            failure(r) == get_chat_administrators_failure(*self),
    {
        self.chat_id.validate()
    }
}

#[derive(Clone, Debug)]
pub struct GetChatMemberCountRequest {
    pub chat_id: ChatId,
}

/// Why a `GetChatMemberCountRequest` is refused.
pub open spec fn get_chat_member_count_failure(r: GetChatMemberCountRequest) -> Option<Seq<char>> {
    chat_id_failure(r.chat_id@)
}

impl GetChatMemberCountRequest {
    pub fn new(chat_id: ChatId) -> (r: Self)
        ensures
            r.chat_id == chat_id,
    {
        GetChatMemberCountRequest { chat_id }
    }

    pub fn validate(&self) -> (r: Result<(), Error>)
        ensures
            failure(r) == get_chat_member_count_failure(*self),
    {
        self.chat_id.validate()
    }
}

#[derive(Clone, Debug)]
pub struct GetChatMemberRequest {
    pub chat_id: ChatId,
    pub user_id: UserId,
}

/// Why a `GetChatMemberRequest` is refused.
pub open spec fn get_chat_member_failure(r: GetChatMemberRequest) -> Option<Seq<char>> {
    first_failure(chat_id_failure(r.chat_id@), user_id_failure(r.user_id))
}

impl GetChatMemberRequest {
    pub fn validate(&self) -> (r: Result<(), Error>)
        ensures
            failure(r) == get_chat_member_failure(*self),
    {
        let res = self.chat_id.validate();
        if res.is_err() {
            return res;
        }
        self.user_id.validate()
    }
}

#[derive(Clone, Debug)]
pub struct LeaveChatRequest {
    pub chat_id: ChatId,
}

/// Why a `LeaveChatRequest` is refused.
pub open spec fn leave_chat_failure(r: LeaveChatRequest) -> Option<Seq<char>> {
    chat_id_failure(r.chat_id@)
}

impl LeaveChatRequest {
    pub fn validate(&self) -> (r: Result<(), Error>)
        ensures
            failure(r) == leave_chat_failure(*self),
    {
        self.chat_id.validate()
    }
}

#[derive(Clone, Debug)]
pub struct BanChatMemberRequest {
    pub chat_id: ChatId,
    pub user_id: UserId,
    pub until_date: Option<i64>,
    pub revoke_messages: Option<bool>,
}

/// Why a `BanChatMemberRequest` is refused.
pub open spec fn ban_chat_member_failure(r: BanChatMemberRequest) -> Option<Seq<char>> {
    first_failure(chat_id_failure(r.chat_id@), first_failure(user_id_failure(r.user_id), unix_timestamp_failure("until_date"@, r.until_date)))
}

impl BanChatMemberRequest {
    pub fn new(chat_id: ChatId, user_id: UserId) -> (r: Self)
        ensures
            r == (BanChatMemberRequest { chat_id, user_id, until_date: None, revoke_messages: None }),
    {
        BanChatMemberRequest { chat_id, user_id, until_date: None, revoke_messages: None }
    }

    pub fn until_date(self, until_date: i64) -> (r: Self)
        ensures
            r == (BanChatMemberRequest { until_date: Some(until_date), ..self }),
    {
        let mut out = self;
        out.until_date = Some(until_date);
        out
    }

    pub fn revoke_messages(self, revoke_messages: bool) -> (r: Self)
        ensures
            r == (BanChatMemberRequest { revoke_messages: Some(revoke_messages), ..self }),
    {
        let mut out = self;
        out.revoke_messages = Some(revoke_messages);
        out
    }

    pub fn with_until_date(self, until_date: Option<i64>) -> (r: Self)
        ensures
            r == (BanChatMemberRequest { until_date, ..self }),
    {
        let mut out = self;
        out.until_date = until_date;
        out
    }

    pub fn with_revoke_messages(self, revoke_messages: Option<bool>) -> (r: Self)
        ensures
            r == (BanChatMemberRequest { revoke_messages, ..self }),
    {
        let mut out = self;
        out.revoke_messages = revoke_messages;
        out
    }

    pub fn validate(&self) -> (r: Result<(), Error>)
        ensures
            failure(r) == ban_chat_member_failure(*self),
    {
        let res = self.chat_id.validate();
        if res.is_err() {
            return res;
        }
        let res = self.user_id.validate();
        if res.is_err() {
            return res;
        }
        validate_optional_unix_timestamp("until_date", self.until_date)
    }
}

#[derive(Clone, Debug)]
pub struct UnbanChatMemberRequest {
    pub chat_id: ChatId,
    pub user_id: UserId,
    pub only_if_banned: Option<bool>,
}

/// Why a `UnbanChatMemberRequest` is refused.
pub open spec fn unban_chat_member_failure(r: UnbanChatMemberRequest) -> Option<Seq<char>> {
    first_failure(chat_id_failure(r.chat_id@), user_id_failure(r.user_id))
}

impl UnbanChatMemberRequest {
    pub fn new(chat_id: ChatId, user_id: UserId) -> (r: Self)
        ensures
            r == (UnbanChatMemberRequest { chat_id, user_id, only_if_banned: None }),
    {
        UnbanChatMemberRequest { chat_id, user_id, only_if_banned: None }
    }

    pub fn only_if_banned(self, only_if_banned: bool) -> (r: Self)
        ensures
            r == (UnbanChatMemberRequest { only_if_banned: Some(only_if_banned), ..self }),
    {
        let mut out = self;
        out.only_if_banned = Some(only_if_banned);
        out
    }

    pub fn validate(&self) -> (r: Result<(), Error>)
        ensures
            failure(r) == unban_chat_member_failure(*self),
    {
        let res = self.chat_id.validate();
        if res.is_err() {
            return res;
        }
        self.user_id.validate()
    }
}

#[derive(Clone, Debug)]
pub struct RestrictChatMemberRequest {
    pub chat_id: ChatId,
    pub user_id: UserId,
    pub permissions: ChatPermissions,
    pub use_independent_chat_permissions: Option<bool>,
    pub until_date: Option<i64>,
}

/// Why a `RestrictChatMemberRequest` is refused.
pub open spec fn restrict_chat_member_failure(r: RestrictChatMemberRequest) -> Option<Seq<char>> {
    first_failure(chat_id_failure(r.chat_id@), first_failure(user_id_failure(r.user_id), unix_timestamp_failure("until_date"@, r.until_date)))
}

impl RestrictChatMemberRequest {
    pub fn new(chat_id: ChatId, user_id: UserId, permissions: ChatPermissions) -> (r: Self)
        ensures
            r == (RestrictChatMemberRequest {
                chat_id,
                user_id,
                permissions,
                use_independent_chat_permissions: None,
                until_date: None,
            }),
    {
        RestrictChatMemberRequest {
            chat_id,
            user_id,
            permissions,
            use_independent_chat_permissions: None,
            until_date: None,
        }
    }

    pub fn use_independent_chat_permissions(self, use_independent_chat_permissions: bool) -> (r: Self)
        ensures
            r == (RestrictChatMemberRequest {
                use_independent_chat_permissions: Some(use_independent_chat_permissions),
                ..self
            }),
    {
        let mut out = self;
        out.use_independent_chat_permissions = Some(use_independent_chat_permissions);
        out
    }

    pub fn until_date(self, until_date: i64) -> (r: Self)
        ensures
            r == (RestrictChatMemberRequest { until_date: Some(until_date), ..self }),
    {
        let mut out = self;
        out.until_date = Some(until_date);
        out
    }

    pub fn with_use_independent_chat_permissions(
        self,
        use_independent_chat_permissions: Option<bool>,
    ) -> (r: Self)
        ensures
            r == (RestrictChatMemberRequest { use_independent_chat_permissions, ..self }),
    {
        let mut out = self;
        out.use_independent_chat_permissions = use_independent_chat_permissions;
        out
    }

    pub fn with_until_date(self, until_date: Option<i64>) -> (r: Self)
        ensures
            r == (RestrictChatMemberRequest { until_date, ..self }),
    {
        let mut out = self;
        out.until_date = until_date;
        out
    }

    pub fn validate(&self) -> (r: Result<(), Error>)
        ensures
            failure(r) == restrict_chat_member_failure(*self),
    {
        let res = self.chat_id.validate();
        if res.is_err() {
            return res;
        }
        let res = self.user_id.validate();
        if res.is_err() {
            return res;
        }
        validate_optional_unix_timestamp("until_date", self.until_date)
    }
}

#[derive(Clone, Debug)]
pub struct PromoteChatMemberRequest {
    pub chat_id: ChatId,
    pub user_id: UserId,
    pub is_anonymous: Option<bool>,
    pub can_manage_chat: Option<bool>,
    pub can_delete_messages: Option<bool>,
    pub can_manage_video_chats: Option<bool>,
    pub can_restrict_members: Option<bool>,
    pub can_promote_members: Option<bool>,
    pub can_change_info: Option<bool>,
    pub can_invite_users: Option<bool>,
    pub can_post_stories: Option<bool>,
    pub can_edit_stories: Option<bool>,
    pub can_delete_stories: Option<bool>,
    pub can_post_messages: Option<bool>,
    pub can_edit_messages: Option<bool>,
    pub can_pin_messages: Option<bool>,
    pub can_manage_topics: Option<bool>,
}

/// Why a `PromoteChatMemberRequest` is refused.
pub open spec fn promote_chat_member_failure(r: PromoteChatMemberRequest) -> Option<Seq<char>> {
    first_failure(chat_id_failure(r.chat_id@), user_id_failure(r.user_id))
}

impl PromoteChatMemberRequest {
    pub fn validate(&self) -> (r: Result<(), Error>)
        ensures
            failure(r) == promote_chat_member_failure(*self),
    {
        let res = self.chat_id.validate();
        if res.is_err() {
            return res;
        }
        self.user_id.validate()
    }
}

#[derive(Clone, Debug)]
pub struct SetChatAdministratorCustomTitleRequest {
    pub chat_id: ChatId,
    pub user_id: UserId,
    pub custom_title: String,
}

/// Why a `SetChatAdministratorCustomTitleRequest` is refused.
pub open spec fn set_chat_administrator_custom_title_failure(r: SetChatAdministratorCustomTitleRequest) -> Option<Seq<char>> {
    first_failure(chat_id_failure(r.chat_id@), first_failure(user_id_failure(r.user_id), text_limit_failure("custom_title"@, r.custom_title@, TextPresence::AllowEmpty, TextLayout::SingleLine, MAX_CUSTOM_TITLE_CHARS)))
}

impl SetChatAdministratorCustomTitleRequest {
    pub fn validate(&self) -> (r: Result<(), Error>)
        ensures
            failure(r) == set_chat_administrator_custom_title_failure(*self),
    {
        let res = self.chat_id.validate();
        if res.is_err() {
            return res;
        }
        let res = self.user_id.validate();
        if res.is_err() {
            return res;
        }
        validate_text_limit("custom_title", self.custom_title.as_str(), TextPresence::AllowEmpty, TextLayout::SingleLine, MAX_CUSTOM_TITLE_CHARS)
    }
}

#[derive(Clone, Debug)]
pub struct BanChatSenderChatRequest {
    pub chat_id: ChatId,
    pub sender_chat_id: i64,
}

/// Why a `BanChatSenderChatRequest` is refused.
pub open spec fn ban_chat_sender_chat_failure(r: BanChatSenderChatRequest) -> Option<Seq<char>> {
    first_failure(chat_id_failure(r.chat_id@), sender_chat_failure(r.sender_chat_id))
}

impl BanChatSenderChatRequest {
    pub fn validate(&self) -> (r: Result<(), Error>)
        ensures
            failure(r) == ban_chat_sender_chat_failure(*self),
    {
        let res = self.chat_id.validate();
        if res.is_err() {
            return res;
        }
        validate_sender_chat(self.sender_chat_id)
    }
}

#[derive(Clone, Debug)]
pub struct UnbanChatSenderChatRequest {
    pub chat_id: ChatId,
    pub sender_chat_id: i64,
}

/// Why a `UnbanChatSenderChatRequest` is refused.
pub open spec fn unban_chat_sender_chat_failure(r: UnbanChatSenderChatRequest) -> Option<Seq<char>> {
    first_failure(chat_id_failure(r.chat_id@), sender_chat_failure(r.sender_chat_id))
}

impl UnbanChatSenderChatRequest {
    pub fn validate(&self) -> (r: Result<(), Error>)
        ensures
            failure(r) == unban_chat_sender_chat_failure(*self),
    {
        let res = self.chat_id.validate();
        if res.is_err() {
            return res;
        }
        validate_sender_chat(self.sender_chat_id)
    }
}

#[derive(Clone, Debug)]
pub struct SetChatPermissionsRequest {
    pub chat_id: ChatId,
    pub permissions: ChatPermissions,
    pub use_independent_chat_permissions: Option<bool>,
}

/// Why a `SetChatPermissionsRequest` is refused.
pub open spec fn set_chat_permissions_failure(r: SetChatPermissionsRequest) -> Option<Seq<char>> {
    chat_id_failure(r.chat_id@)
}

impl SetChatPermissionsRequest {
    pub fn new(chat_id: ChatId, permissions: ChatPermissions) -> (r: Self)
        ensures
            r == (SetChatPermissionsRequest { chat_id, permissions, use_independent_chat_permissions: None }),
    {
        SetChatPermissionsRequest { chat_id, permissions, use_independent_chat_permissions: None }
    }

    pub fn use_independent_chat_permissions(self, use_independent_chat_permissions: bool) -> (r: Self)
        ensures
            r == (SetChatPermissionsRequest {
                use_independent_chat_permissions: Some(use_independent_chat_permissions),
                ..self
            }),
    {
        let mut out = self;
        out.use_independent_chat_permissions = Some(use_independent_chat_permissions);
        out
    }

    pub fn validate(&self) -> (r: Result<(), Error>)
        ensures
            failure(r) == set_chat_permissions_failure(*self),
    {
        self.chat_id.validate()
    }
}

#[derive(Clone, Debug)]
pub struct ExportChatInviteLinkRequest {
    pub chat_id: ChatId,
}

/// Why a `ExportChatInviteLinkRequest` is refused.
pub open spec fn export_chat_invite_link_failure(r: ExportChatInviteLinkRequest) -> Option<Seq<char>> {
    chat_id_failure(r.chat_id@)
}

impl ExportChatInviteLinkRequest {
    pub fn validate(&self) -> (r: Result<(), Error>)
        ensures
            failure(r) == export_chat_invite_link_failure(*self),
    {
        self.chat_id.validate()
    }
}

#[derive(Clone, Debug)]
pub struct CreateChatInviteLinkRequest {
    pub chat_id: ChatId,
    pub name: Option<String>,
    pub expire_date: Option<i64>,
    pub member_limit: Option<u32>,
    pub creates_join_request: Option<bool>,
}

/// Why a `CreateChatInviteLinkRequest` is refused.
pub open spec fn create_chat_invite_link_failure(r: CreateChatInviteLinkRequest) -> Option<Seq<char>> {
    first_failure(chat_id_failure(r.chat_id@), first_failure(unix_timestamp_failure("expire_date"@, r.expire_date), invite_link_options_failure(opt_view(r.name), r.member_limit, r.creates_join_request)))
}

impl CreateChatInviteLinkRequest {
    pub fn validate(&self) -> (r: Result<(), Error>)
        ensures
            failure(r) == create_chat_invite_link_failure(*self),
    {
        let res = self.chat_id.validate();
        if res.is_err() {
            return res;
        }
        let res = validate_optional_unix_timestamp("expire_date", self.expire_date);
        if res.is_err() {
            return res;
        }
        validate_invite_link_options(opt_str(&self.name), self.member_limit, self.creates_join_request)
    }
}

#[derive(Clone, Debug)]
pub struct EditChatInviteLinkRequest {
    pub chat_id: ChatId,
    pub invite_link: String,
    pub name: Option<String>,
    pub expire_date: Option<i64>,
    pub member_limit: Option<u32>,
    pub creates_join_request: Option<bool>,
}

/// Why a `EditChatInviteLinkRequest` is refused.
pub open spec fn edit_chat_invite_link_failure(r: EditChatInviteLinkRequest) -> Option<Seq<char>> {
    first_failure(chat_id_failure(r.chat_id@), first_failure(required_text_failure("invite_link"@, r.invite_link@), first_failure(unix_timestamp_failure("expire_date"@, r.expire_date), invite_link_options_failure(opt_view(r.name), r.member_limit, r.creates_join_request))))
}

impl EditChatInviteLinkRequest {
    pub fn validate(&self) -> (r: Result<(), Error>)
        ensures
            failure(r) == edit_chat_invite_link_failure(*self),
    {
        let res = self.chat_id.validate();
        if res.is_err() {
            return res;
        }
        let res = validate_required_text("invite_link", self.invite_link.as_str());
        if res.is_err() {
            return res;
        }
        let res = validate_optional_unix_timestamp("expire_date", self.expire_date);
        if res.is_err() {
            return res;
        }
        validate_invite_link_options(opt_str(&self.name), self.member_limit, self.creates_join_request)
    }
}

#[derive(Clone, Debug)]
pub struct RevokeChatInviteLinkRequest {
    pub chat_id: ChatId,
    pub invite_link: String,
}

/// Why a `RevokeChatInviteLinkRequest` is refused.
pub open spec fn revoke_chat_invite_link_failure(r: RevokeChatInviteLinkRequest) -> Option<Seq<char>> {
    first_failure(chat_id_failure(r.chat_id@), required_text_failure("invite_link"@, r.invite_link@))
}

impl RevokeChatInviteLinkRequest {
    pub fn validate(&self) -> (r: Result<(), Error>)
        ensures
            failure(r) == revoke_chat_invite_link_failure(*self),
    {
        let res = self.chat_id.validate();
        if res.is_err() {
            return res;
        }
        validate_required_text("invite_link", self.invite_link.as_str())
    }
}

#[derive(Clone, Debug)]
pub struct SetChatTitleRequest {
    pub chat_id: ChatId,
    pub title: String,
}

/// Why a `SetChatTitleRequest` is refused.
pub open spec fn set_chat_title_failure(r: SetChatTitleRequest) -> Option<Seq<char>> {
    first_failure(chat_id_failure(r.chat_id@), text_limit_failure("title"@, r.title@, TextPresence::Required, TextLayout::SingleLine, MAX_CHAT_TITLE_CHARS))
}

impl SetChatTitleRequest {
    pub fn validate(&self) -> (r: Result<(), Error>)
        ensures
            failure(r) == set_chat_title_failure(*self),
    {
        let res = self.chat_id.validate();
        if res.is_err() {
            return res;
        }
        validate_text_limit("title", self.title.as_str(), TextPresence::Required, TextLayout::SingleLine, MAX_CHAT_TITLE_CHARS)
    }
}

#[derive(Clone, Debug)]
pub struct SetChatDescriptionRequest {
    pub chat_id: ChatId,
    pub description: Option<String>,
}

/// Why a `SetChatDescriptionRequest` is refused.
pub open spec fn set_chat_description_failure(r: SetChatDescriptionRequest) -> Option<Seq<char>> {
    first_failure(
        chat_id_failure(r.chat_id@),
        match r.description {
            None => None,
            Some(d) => text_limit_failure(
                "description"@,
                d@,
                TextPresence::AllowEmpty,
                TextLayout::MultiLine,
                MAX_CHAT_DESCRIPTION_CHARS,
            ),
        },
    )
}

impl SetChatDescriptionRequest {
    pub fn validate(&self) -> (r: Result<(), Error>)
        ensures
            failure(r) == set_chat_description_failure(*self),
    {
        let res = self.chat_id.validate();
        if res.is_err() {
            return res;
        }
        match &self.description {
            None => Ok(()),
            Some(d) => validate_text_limit(
                "description",
                d.as_str(),
                TextPresence::AllowEmpty,
                TextLayout::MultiLine,
                MAX_CHAT_DESCRIPTION_CHARS,
            ),
        }
    }
}

#[derive(Clone, Debug)]
pub struct PinChatMessageRequest {
    pub chat_id: ChatId,
    pub message_id: MessageId,
    pub disable_notification: Option<bool>,
}

/// Why a `PinChatMessageRequest` is refused.
pub open spec fn pin_chat_message_failure(r: PinChatMessageRequest) -> Option<Seq<char>> {
    first_failure(chat_id_failure(r.chat_id@), message_id_failure(r.message_id))
}

impl PinChatMessageRequest {
    pub fn validate(&self) -> (r: Result<(), Error>)
        ensures
            failure(r) == pin_chat_message_failure(*self),
    {
        let res = self.chat_id.validate();
        if res.is_err() {
            return res;
        }
        self.message_id.validate()
    }
}

#[derive(Clone, Debug)]
pub struct UnpinChatMessageRequest {
    pub chat_id: ChatId,
    pub message_id: Option<MessageId>,
}

/// Why an `UnpinChatMessageRequest` is refused.
pub open spec fn unpin_chat_message_failure(r: UnpinChatMessageRequest) -> Option<Seq<char>> {
    first_failure(
        chat_id_failure(r.chat_id@),
        match r.message_id {
            None => None,
            Some(id) => message_id_failure(id),
        },
    )
}

impl UnpinChatMessageRequest {
    pub fn validate(&self) -> (r: Result<(), Error>)
        ensures
            failure(r) == unpin_chat_message_failure(*self),
    {
        let res = self.chat_id.validate();
        if res.is_err() {
            return res;
        }
        match self.message_id {
            None => Ok(()),
            Some(id) => id.validate(),
        }
    }
}

#[derive(Clone, Debug)]
pub struct UnpinAllChatMessagesRequest {
    pub chat_id: ChatId,
}

/// Why a `UnpinAllChatMessagesRequest` is refused.
pub open spec fn unpin_all_chat_messages_failure(r: UnpinAllChatMessagesRequest) -> Option<Seq<char>> {
    chat_id_failure(r.chat_id@)
}

impl UnpinAllChatMessagesRequest {
    pub fn validate(&self) -> (r: Result<(), Error>)
        ensures
            failure(r) == unpin_all_chat_messages_failure(*self),
    {
        self.chat_id.validate()
    }
}

#[derive(Clone, Debug)]
pub struct DeleteChatPhotoRequest {
    pub chat_id: ChatId,
}

/// Why a `DeleteChatPhotoRequest` is refused.
pub open spec fn delete_chat_photo_failure(r: DeleteChatPhotoRequest) -> Option<Seq<char>> {
    chat_id_failure(r.chat_id@)
}

impl DeleteChatPhotoRequest {
    pub fn validate(&self) -> (r: Result<(), Error>)
        ensures
            failure(r) == delete_chat_photo_failure(*self),
    {
        self.chat_id.validate()
    }
}

#[derive(Clone, Debug)]
pub struct SetChatPhotoRequest {
    pub chat_id: ChatId,
}

/// Why a `SetChatPhotoRequest` is refused.
pub open spec fn set_chat_photo_failure(r: SetChatPhotoRequest) -> Option<Seq<char>> {
    chat_id_failure(r.chat_id@)
}

impl SetChatPhotoRequest {
    pub fn new(chat_id: ChatId) -> (r: Self)
        ensures
            r.chat_id == chat_id,
    {
        SetChatPhotoRequest { chat_id }
    }

    pub fn validate(&self) -> (r: Result<(), Error>)
        ensures
            failure(r) == set_chat_photo_failure(*self),
    {
        self.chat_id.validate()
    }
}

#[derive(Clone, Debug)]
pub struct SetChatStickerSetRequest {
    pub chat_id: ChatId,
    pub sticker_set_name: String,
}

/// Why a `SetChatStickerSetRequest` is refused.
pub open spec fn set_chat_sticker_set_failure(r: SetChatStickerSetRequest) -> Option<Seq<char>> {
    first_failure(chat_id_failure(r.chat_id@), text_limit_failure("sticker_set_name"@, r.sticker_set_name@, TextPresence::Required, TextLayout::SingleLine, MAX_STICKER_SET_NAME_CHARS))
}

impl SetChatStickerSetRequest {
    pub fn validate(&self) -> (r: Result<(), Error>)
        ensures
            failure(r) == set_chat_sticker_set_failure(*self),
    {
        let res = self.chat_id.validate();
        if res.is_err() {
            return res;
        }
        validate_text_limit("sticker_set_name", self.sticker_set_name.as_str(), TextPresence::Required, TextLayout::SingleLine, MAX_STICKER_SET_NAME_CHARS)
    }
}

#[derive(Clone, Debug)]
pub struct DeleteChatStickerSetRequest {
    pub chat_id: ChatId,
}

/// Why a `DeleteChatStickerSetRequest` is refused.
pub open spec fn delete_chat_sticker_set_failure(r: DeleteChatStickerSetRequest) -> Option<Seq<char>> {
    chat_id_failure(r.chat_id@)
}

impl DeleteChatStickerSetRequest {
    pub fn validate(&self) -> (r: Result<(), Error>)
        ensures
            failure(r) == delete_chat_sticker_set_failure(*self),
    {
        self.chat_id.validate()
    }
}

/// Why a sender chat id is refused: it is checked as a numeric chat id.
pub open spec fn sender_chat_failure(sender_chat_id: i64) -> Option<Seq<char>> {
    chat_id_failure(ChatIdView::Id(sender_chat_id))
}

fn validate_sender_chat(sender_chat_id: i64) -> (r: Result<(), Error>)
    ensures
        failure(r) == sender_chat_failure(sender_chat_id),
{
    ChatId::Id(sender_chat_id).validate()
}

/// Why an optional Unix timestamp is refused: it must not be negative.
pub open spec fn unix_timestamp_failure(field: Seq<char>, value: Option<i64>) -> Option<Seq<char>> {
    match value {
        Some(v) => if v < 0 {
            Some(field + " must not be negative"@)
        } else {
            None
        },
        None => None,
    }
}

pub fn validate_optional_unix_timestamp(field: &str, value: Option<i64>) -> (r: Result<(), Error>)
    ensures
        failure(r) == unix_timestamp_failure(field@, value),
{
    match value {
        Some(v) => if v < 0 {
            crate::text::fail2(field, " must not be negative")
        } else {
            Ok(())
        },
        None => Ok(()),
    }
}

/// The view of an optional text.
pub open spec fn opt_view(value: Option<String>) -> Option<Seq<char>> {
    match value {
        Some(s) => Some(s@),
        None => None,
    }
}

pub fn opt_str(value: &Option<String>) -> (r: Option<&str>)
    ensures
        match r {
            Some(s) => value.is_some() && s@ == value.unwrap()@,
            None => value.is_none(),
        },
{
    match value {
        Some(s) => Some(s.as_str()),
        None => None,
    }
}

/// Why invite link options are refused.
pub open spec fn invite_link_options_failure(
    name: Option<Seq<char>>,
    member_limit: Option<u32>,
    creates_join_request: Option<bool>,
) -> Option<Seq<char>> {
    let name_failure = match name {
        Some(n) => text_limit_failure(
            "name"@,
            n,
            TextPresence::AllowEmpty,
            TextLayout::SingleLine,
            MAX_INVITE_LINK_NAME_CHARS,
        ),
        None => None,
    };
    if name_failure is Some {
        name_failure
    } else if member_limit matches Some(limit) && !(1 <= limit <= MAX_INVITE_LINK_MEMBER_LIMIT) {
        Some("member_limit must be 1-"@ + decimal(MAX_INVITE_LINK_MEMBER_LIMIT as nat) + " users"@)
    } else if creates_join_request == Some(true) && member_limit is Some {
        Some("creates_join_request cannot be combined with member_limit"@)
    } else {
        None
    }
}

/// Checks the options an invite link is created or edited with.
pub fn validate_invite_link_options(
    name: Option<&str>,
    member_limit: Option<u32>,
    creates_join_request: Option<bool>,
) -> (r: Result<(), Error>)
    ensures
        failure(r) == invite_link_options_failure(
            match name {
                Some(n) => Some(n@),
                None => None,
            },
            member_limit,
            creates_join_request,
        ),
{
    if let Some(n) = name {
        let res = validate_text_limit(
            "name",
            n,
            TextPresence::AllowEmpty,
            TextLayout::SingleLine,
            MAX_INVITE_LINK_NAME_CHARS,
        );
        if res.is_err() {
            return res;
        }
    }
    if let Some(limit) = member_limit {
        if !(1 <= limit && limit <= MAX_INVITE_LINK_MEMBER_LIMIT) {
            let digits = crate::text::decimal_text(MAX_INVITE_LINK_MEMBER_LIMIT as usize);
            let head = crate::text::concat2("member_limit must be 1-", digits.as_str());
            let reason = crate::text::concat2(head.as_str(), " users");
            return Err(Error::InvalidRequest { reason });
        }
    }
    if creates_join_request == Some(true) && member_limit.is_some() {
        return fail("creates_join_request cannot be combined with member_limit");
    }
    Ok(())
}


/// Telegram chat invite link object.
#[derive(Debug)]
pub struct ChatInviteLink {
    pub invite_link: String,
    pub creator: User,
    pub creates_join_request: bool,
    pub is_primary: bool,
    pub is_revoked: bool,
    pub name: Option<String>,
    pub expire_date: Option<i64>,
    pub member_limit: Option<u32>,
    pub pending_join_request_count: Option<u32>,
}

} // verus!
