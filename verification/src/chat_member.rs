use vstd::prelude::*;

use crate::bot::{opt_text_entry, push_opt_text, user_entries, User};
use crate::chat::{
    grants, status_matches, ChatAdministratorCapability, ChatAdministratorRights, ChatMemberStatus,
    ChatPermissions,
};
use crate::json::{
    append_extra_fields, is_reserved, keys_reserved, lemma_extra_never_overrides,
    lemma_keys_reserved_append, lemma_opt_bool_entry_key, lemma_opt_bool_entry_len,
    opt_bool_entry, opt_int_entry, pairs_view, push_opt_bool,
    push_opt_int, visible_extra, JsonMap, JsonValue, JsonView,
};
use crate::text::str_eq;

verus! {

/// One for a set field, zero for an unset one.
fn present(value: Option<bool>) -> (r: usize)
    ensures
        r == (if value is Some { 1usize } else { 0usize }),
{
    if value.is_some() {
        1
    } else {
        0
    }
}


/// The entries of the permission fields that are set, in field order.
pub open spec fn chat_permission_entries(permissions: ChatPermissions) -> Seq<(Seq<char>, JsonView)> {
    opt_bool_entry("can_send_messages"@, permissions.can_send_messages)
        + opt_bool_entry("can_send_audios"@, permissions.can_send_audios)
        + opt_bool_entry("can_send_documents"@, permissions.can_send_documents)
        + opt_bool_entry("can_send_photos"@, permissions.can_send_photos)
        + opt_bool_entry("can_send_videos"@, permissions.can_send_videos)
        + opt_bool_entry("can_send_video_notes"@, permissions.can_send_video_notes)
        + opt_bool_entry("can_send_voice_notes"@, permissions.can_send_voice_notes)
        + opt_bool_entry("can_send_polls"@, permissions.can_send_polls)
        + opt_bool_entry("can_send_other_messages"@, permissions.can_send_other_messages)
        + opt_bool_entry("can_add_web_page_previews"@, permissions.can_add_web_page_previews)
        + opt_bool_entry("can_change_info"@, permissions.can_change_info)
        + opt_bool_entry("can_invite_users"@, permissions.can_invite_users)
        + opt_bool_entry("can_pin_messages"@, permissions.can_pin_messages)
        + opt_bool_entry("can_manage_topics"@, permissions.can_manage_topics)
}

/// Number of entries that `chat_permission_entries` holds.
pub fn chat_permissions_len(permissions: &ChatPermissions) -> (r: usize)
    ensures
        r == chat_permission_entries(*permissions).len(),
{
    proof { lemma_opt_bool_entry_len("can_send_messages"@, permissions.can_send_messages); }
    proof { lemma_opt_bool_entry_len("can_send_audios"@, permissions.can_send_audios); }
    proof { lemma_opt_bool_entry_len("can_send_documents"@, permissions.can_send_documents); }
    proof { lemma_opt_bool_entry_len("can_send_photos"@, permissions.can_send_photos); }
    proof { lemma_opt_bool_entry_len("can_send_videos"@, permissions.can_send_videos); }
    proof { lemma_opt_bool_entry_len("can_send_video_notes"@, permissions.can_send_video_notes); }
    proof { lemma_opt_bool_entry_len("can_send_voice_notes"@, permissions.can_send_voice_notes); }
    proof { lemma_opt_bool_entry_len("can_send_polls"@, permissions.can_send_polls); }
    proof { lemma_opt_bool_entry_len("can_send_other_messages"@, permissions.can_send_other_messages); }
    proof { lemma_opt_bool_entry_len("can_add_web_page_previews"@, permissions.can_add_web_page_previews); }
    proof { lemma_opt_bool_entry_len("can_change_info"@, permissions.can_change_info); }
    proof { lemma_opt_bool_entry_len("can_invite_users"@, permissions.can_invite_users); }
    proof { lemma_opt_bool_entry_len("can_pin_messages"@, permissions.can_pin_messages); }
    proof { lemma_opt_bool_entry_len("can_manage_topics"@, permissions.can_manage_topics); }
    present(permissions.can_send_messages)
        + present(permissions.can_send_audios)
        + present(permissions.can_send_documents)
        + present(permissions.can_send_photos)
        + present(permissions.can_send_videos)
        + present(permissions.can_send_video_notes)
        + present(permissions.can_send_voice_notes)
        + present(permissions.can_send_polls)
        + present(permissions.can_send_other_messages)
        + present(permissions.can_add_web_page_previews)
        + present(permissions.can_change_info)
        + present(permissions.can_invite_users)
        + present(permissions.can_pin_messages)
        + present(permissions.can_manage_topics)
}

/// Writes the permissions: one entry per field that is set, named after the
/// field, in field order (`chat_permission_entries`).
pub fn serialize_chat_permissions(out: &mut Vec<(String, JsonValue)>, permissions: &ChatPermissions)
    ensures
        pairs_view(final(out)@) == pairs_view(old(out)@) + chat_permission_entries(*permissions),
{
    let ghost start = pairs_view(out@);
    push_opt_bool(out, "can_send_messages", permissions.can_send_messages);
    push_opt_bool(out, "can_send_audios", permissions.can_send_audios);
    push_opt_bool(out, "can_send_documents", permissions.can_send_documents);
    push_opt_bool(out, "can_send_photos", permissions.can_send_photos);
    push_opt_bool(out, "can_send_videos", permissions.can_send_videos);
    push_opt_bool(out, "can_send_video_notes", permissions.can_send_video_notes);
    push_opt_bool(out, "can_send_voice_notes", permissions.can_send_voice_notes);
    push_opt_bool(out, "can_send_polls", permissions.can_send_polls);
    push_opt_bool(out, "can_send_other_messages", permissions.can_send_other_messages);
    push_opt_bool(out, "can_add_web_page_previews", permissions.can_add_web_page_previews);
    push_opt_bool(out, "can_change_info", permissions.can_change_info);
    push_opt_bool(out, "can_invite_users", permissions.can_invite_users);
    push_opt_bool(out, "can_pin_messages", permissions.can_pin_messages);
    push_opt_bool(out, "can_manage_topics", permissions.can_manage_topics);
    assert(pairs_view(out@) =~= start + chat_permission_entries(*permissions));
}

/// The entries of the administrator rights that are set, in field order; `is_anonymous` is not among them.
pub open spec fn administrator_member_rights_entries(rights: ChatAdministratorRights) -> Seq<(Seq<char>, JsonView)> {
    opt_bool_entry("can_manage_chat"@, rights.can_manage_chat)
        + opt_bool_entry("can_delete_messages"@, rights.can_delete_messages)
        + opt_bool_entry("can_manage_video_chats"@, rights.can_manage_video_chats)
        + opt_bool_entry("can_restrict_members"@, rights.can_restrict_members)
        + opt_bool_entry("can_promote_members"@, rights.can_promote_members)
        + opt_bool_entry("can_change_info"@, rights.can_change_info)
        + opt_bool_entry("can_invite_users"@, rights.can_invite_users)
        + opt_bool_entry("can_post_stories"@, rights.can_post_stories)
        + opt_bool_entry("can_edit_stories"@, rights.can_edit_stories)
        + opt_bool_entry("can_delete_stories"@, rights.can_delete_stories)
        + opt_bool_entry("can_post_messages"@, rights.can_post_messages)
        + opt_bool_entry("can_edit_messages"@, rights.can_edit_messages)
        + opt_bool_entry("can_pin_messages"@, rights.can_pin_messages)
        + opt_bool_entry("can_manage_topics"@, rights.can_manage_topics)
}

/// Number of entries that `administrator_member_rights_entries` holds.
pub fn chat_administrator_member_rights_len(rights: &ChatAdministratorRights) -> (r: usize)
    ensures
        r == administrator_member_rights_entries(*rights).len(),
{
    proof { lemma_opt_bool_entry_len("can_manage_chat"@, rights.can_manage_chat); }
    proof { lemma_opt_bool_entry_len("can_delete_messages"@, rights.can_delete_messages); }
    proof { lemma_opt_bool_entry_len("can_manage_video_chats"@, rights.can_manage_video_chats); }
    proof { lemma_opt_bool_entry_len("can_restrict_members"@, rights.can_restrict_members); }
    proof { lemma_opt_bool_entry_len("can_promote_members"@, rights.can_promote_members); }
    proof { lemma_opt_bool_entry_len("can_change_info"@, rights.can_change_info); }
    proof { lemma_opt_bool_entry_len("can_invite_users"@, rights.can_invite_users); }
    proof { lemma_opt_bool_entry_len("can_post_stories"@, rights.can_post_stories); }
    proof { lemma_opt_bool_entry_len("can_edit_stories"@, rights.can_edit_stories); }
    proof { lemma_opt_bool_entry_len("can_delete_stories"@, rights.can_delete_stories); }
    proof { lemma_opt_bool_entry_len("can_post_messages"@, rights.can_post_messages); }
    proof { lemma_opt_bool_entry_len("can_edit_messages"@, rights.can_edit_messages); }
    proof { lemma_opt_bool_entry_len("can_pin_messages"@, rights.can_pin_messages); }
    proof { lemma_opt_bool_entry_len("can_manage_topics"@, rights.can_manage_topics); }
    present(rights.can_manage_chat)
        + present(rights.can_delete_messages)
        + present(rights.can_manage_video_chats)
        + present(rights.can_restrict_members)
        + present(rights.can_promote_members)
        + present(rights.can_change_info)
        + present(rights.can_invite_users)
        + present(rights.can_post_stories)
        + present(rights.can_edit_stories)
        + present(rights.can_delete_stories)
        + present(rights.can_post_messages)
        + present(rights.can_edit_messages)
        + present(rights.can_pin_messages)
        + present(rights.can_manage_topics)
}

/// Writes the rights of an administrator member: one entry per `can_*` field
/// that is set, in field order, and none for `is_anonymous`
/// (`administrator_member_rights_entries`).
pub fn serialize_chat_administrator_member_rights(out: &mut Vec<(String, JsonValue)>, rights: &ChatAdministratorRights)
    ensures
        pairs_view(final(out)@) == pairs_view(old(out)@) + administrator_member_rights_entries(*rights),
{
    let ghost start = pairs_view(out@);
    push_opt_bool(out, "can_manage_chat", rights.can_manage_chat);
    push_opt_bool(out, "can_delete_messages", rights.can_delete_messages);
    push_opt_bool(out, "can_manage_video_chats", rights.can_manage_video_chats);
    push_opt_bool(out, "can_restrict_members", rights.can_restrict_members);
    push_opt_bool(out, "can_promote_members", rights.can_promote_members);
    push_opt_bool(out, "can_change_info", rights.can_change_info);
    push_opt_bool(out, "can_invite_users", rights.can_invite_users);
    push_opt_bool(out, "can_post_stories", rights.can_post_stories);
    push_opt_bool(out, "can_edit_stories", rights.can_edit_stories);
    push_opt_bool(out, "can_delete_stories", rights.can_delete_stories);
    push_opt_bool(out, "can_post_messages", rights.can_post_messages);
    push_opt_bool(out, "can_edit_messages", rights.can_edit_messages);
    push_opt_bool(out, "can_pin_messages", rights.can_pin_messages);
    push_opt_bool(out, "can_manage_topics", rights.can_manage_topics);
    assert(pairs_view(out@) =~= start + administrator_member_rights_entries(*rights));
}

/// The keys that the typed fields of a `owner` member occupy.
pub open spec fn owner_reserved() -> Seq<&'static str> {
    seq!["user", "is_anonymous", "custom_title"]
}

fn owner_reserved_keys() -> (r: [&'static str; 3])
    ensures
        r@ == owner_reserved(),
{
    let r = ["user", "is_anonymous", "custom_title"];
    assert(r@ =~= owner_reserved());
    r
}

/// The keys that the typed fields of a `administrator` member occupy.
pub open spec fn administrator_reserved() -> Seq<&'static str> {
    seq!["user", "can_be_edited", "is_anonymous", "custom_title", "can_manage_chat", "can_delete_messages", "can_manage_video_chats", "can_restrict_members", "can_promote_members", "can_change_info", "can_invite_users", "can_post_stories", "can_edit_stories", "can_delete_stories", "can_post_messages", "can_edit_messages", "can_pin_messages", "can_manage_topics"]
}

fn administrator_reserved_keys() -> (r: [&'static str; 18])
    ensures
        r@ == administrator_reserved(),
{
    let r = ["user", "can_be_edited", "is_anonymous", "custom_title", "can_manage_chat", "can_delete_messages", "can_manage_video_chats", "can_restrict_members", "can_promote_members", "can_change_info", "can_invite_users", "can_post_stories", "can_edit_stories", "can_delete_stories", "can_post_messages", "can_edit_messages", "can_pin_messages", "can_manage_topics"];
    assert(r@ =~= administrator_reserved());
    r
}

/// The keys that the typed fields of a `regular` member occupy.
pub open spec fn regular_reserved() -> Seq<&'static str> {
    seq!["user"]
}

fn regular_reserved_keys() -> (r: [&'static str; 1])
    ensures
        r@ == regular_reserved(),
{
    let r = ["user"];
    assert(r@ =~= regular_reserved());
    r
}

/// The keys that the typed fields of a `restricted` member occupy.
pub open spec fn restricted_reserved() -> Seq<&'static str> {
    seq!["user", "is_member", "until_date", "can_send_messages", "can_send_audios", "can_send_documents", "can_send_photos", "can_send_videos", "can_send_video_notes", "can_send_voice_notes", "can_send_polls", "can_send_other_messages", "can_add_web_page_previews", "can_change_info", "can_invite_users", "can_pin_messages", "can_manage_topics"]
}

fn restricted_reserved_keys() -> (r: [&'static str; 17])
    ensures
        r@ == restricted_reserved(),
{
    let r = ["user", "is_member", "until_date", "can_send_messages", "can_send_audios", "can_send_documents", "can_send_photos", "can_send_videos", "can_send_video_notes", "can_send_voice_notes", "can_send_polls", "can_send_other_messages", "can_add_web_page_previews", "can_change_info", "can_invite_users", "can_pin_messages", "can_manage_topics"];
    assert(r@ =~= restricted_reserved());
    r
}

/// The keys that the typed fields of a `left` member occupy.
pub open spec fn left_reserved() -> Seq<&'static str> {
    seq!["user"]
}

fn left_reserved_keys() -> (r: [&'static str; 1])
    ensures
        r@ == left_reserved(),
{
    let r = ["user"];
    assert(r@ =~= left_reserved());
    r
}

/// The keys that the typed fields of a `banned` member occupy.
pub open spec fn banned_reserved() -> Seq<&'static str> {
    seq!["user", "until_date"]
}

fn banned_reserved_keys() -> (r: [&'static str; 2])
    ensures
        r@ == banned_reserved(),
{
    let r = ["user", "until_date"];
    assert(r@ =~= banned_reserved());
    r
}
/// Telegram chat owner payload.
#[derive(Debug)]
pub struct ChatMemberOwner {
    pub user: User,
    pub is_anonymous: Option<bool>,
    pub custom_title: Option<String>,
    pub extra: JsonMap,
}

/// Telegram chat administrator payload.
#[derive(Debug)]
pub struct ChatMemberAdministrator {
    pub user: User,
    pub can_be_edited: Option<bool>,
    pub is_anonymous: Option<bool>,
    pub custom_title: Option<String>,
    pub rights: ChatAdministratorRights,
    pub extra: JsonMap,
}

/// Telegram regular member payload.
#[derive(Debug)]
pub struct ChatMemberRegular {
    pub user: User,
    pub extra: JsonMap,
}

/// Telegram restricted member payload.
#[derive(Debug)]
pub struct ChatMemberRestricted {
    pub user: User,
    pub is_member: Option<bool>,
    pub permissions: ChatPermissions,
    pub until_date: Option<i64>,
    pub extra: JsonMap,
}

/// Telegram left member payload.
#[derive(Debug)]
pub struct ChatMemberLeft {
    pub user: User,
    pub extra: JsonMap,
}

/// Telegram banned member payload.
#[derive(Debug)]
pub struct ChatMemberBanned {
    pub user: User,
    pub until_date: Option<i64>,
    pub extra: JsonMap,
}

/// The anonymity an administrator is written with: its own flag, or else the
/// flag among its rights.
pub open spec fn effective_is_anonymous(m: ChatMemberAdministrator) -> Option<bool> {
    match m.is_anonymous {
        Some(b) => Some(b),
        None => m.rights.is_anonymous,
    }
}

fn push_user(out: &mut Vec<(String, JsonValue)>, user: &User)
    ensures
        pairs_view(final(out)@) == pairs_view(old(out)@) + seq![
            ("user"@, JsonView::Object(user_entries(*user))),
        ],
{
    let ghost before = pairs_view(out@);
    let value = user.to_json();
    proof {
        let entries = value->Object_0;
        assert(value.json()->Object_0 =~= pairs_view(entries@));
    }
    out.push(("user".to_owned(), value));
    assert(pairs_view(out@) =~= before + seq![("user"@, JsonView::Object(user_entries(*user)))]);
}

impl ChatMemberOwner {
    /// The entries Telegram receives for this member.
    pub fn to_entries(&self) -> (r: Vec<(String, JsonValue)>)
        ensures
            pairs_view(r@) == owner_entries(*self),
    {
        let mut out: Vec<(String, JsonValue)> = Vec::new();
        assert(pairs_view(out@) =~= Seq::<(Seq<char>, JsonView)>::empty());
        push_user(&mut out, &self.user);
        push_opt_bool(&mut out, "is_anonymous", self.is_anonymous);
        push_opt_text(&mut out, "custom_title", &self.custom_title);
        let reserved = owner_reserved_keys();
        append_extra_fields(&mut out, &self.extra, &reserved);
        assert(pairs_view(out@) =~= owner_entries(*self));
        out
    }
}

impl ChatMemberAdministrator {
    /// The entries Telegram receives for this member.
    pub fn to_entries(&self) -> (r: Vec<(String, JsonValue)>)
        ensures
            pairs_view(r@) == administrator_entries(*self),
    {
        let mut out: Vec<(String, JsonValue)> = Vec::new();
        assert(pairs_view(out@) =~= Seq::<(Seq<char>, JsonView)>::empty());
        push_user(&mut out, &self.user);
        push_opt_bool(&mut out, "can_be_edited", self.can_be_edited);
        let is_anonymous = match self.is_anonymous {
            Some(b) => Some(b),
            None => self.rights.is_anonymous,
        };
        push_opt_bool(&mut out, "is_anonymous", is_anonymous);
        push_opt_text(&mut out, "custom_title", &self.custom_title);
        serialize_chat_administrator_member_rights(&mut out, &self.rights);
        let reserved = administrator_reserved_keys();
        append_extra_fields(&mut out, &self.extra, &reserved);
        assert(pairs_view(out@) =~= administrator_entries(*self));
        out
    }
}

impl ChatMemberRegular {
    /// The entries Telegram receives for this member.
    pub fn to_entries(&self) -> (r: Vec<(String, JsonValue)>)
        ensures
            pairs_view(r@) == regular_entries(*self),
    {
        let mut out: Vec<(String, JsonValue)> = Vec::new();
        assert(pairs_view(out@) =~= Seq::<(Seq<char>, JsonView)>::empty());
        push_user(&mut out, &self.user);
        let reserved = regular_reserved_keys();
        append_extra_fields(&mut out, &self.extra, &reserved);
        assert(pairs_view(out@) =~= regular_entries(*self));
        out
    }
}

impl ChatMemberRestricted {
    /// The entries Telegram receives for this member.
    pub fn to_entries(&self) -> (r: Vec<(String, JsonValue)>)
        ensures
            pairs_view(r@) == restricted_entries(*self),
    {
        let mut out: Vec<(String, JsonValue)> = Vec::new();
        assert(pairs_view(out@) =~= Seq::<(Seq<char>, JsonView)>::empty());
        push_user(&mut out, &self.user);
        push_opt_bool(&mut out, "is_member", self.is_member);
        serialize_chat_permissions(&mut out, &self.permissions);
        push_opt_int(&mut out, "until_date", self.until_date);
        let reserved = restricted_reserved_keys();
        append_extra_fields(&mut out, &self.extra, &reserved);
        assert(pairs_view(out@) =~= restricted_entries(*self));
        out
    }
}

impl ChatMemberLeft {
    /// The entries Telegram receives for this member.
    pub fn to_entries(&self) -> (r: Vec<(String, JsonValue)>)
        ensures
            pairs_view(r@) == left_entries(*self),
    {
        let mut out: Vec<(String, JsonValue)> = Vec::new();
        assert(pairs_view(out@) =~= Seq::<(Seq<char>, JsonView)>::empty());
        push_user(&mut out, &self.user);
        let reserved = left_reserved_keys();
        append_extra_fields(&mut out, &self.extra, &reserved);
        assert(pairs_view(out@) =~= left_entries(*self));
        out
    }
}

impl ChatMemberBanned {
    /// The entries Telegram receives for this member.
    pub fn to_entries(&self) -> (r: Vec<(String, JsonValue)>)
        ensures
            pairs_view(r@) == banned_entries(*self),
    {
        let mut out: Vec<(String, JsonValue)> = Vec::new();
        assert(pairs_view(out@) =~= Seq::<(Seq<char>, JsonView)>::empty());
        push_user(&mut out, &self.user);
        push_opt_int(&mut out, "until_date", self.until_date);
        let reserved = banned_reserved_keys();
        append_extra_fields(&mut out, &self.extra, &reserved);
        assert(pairs_view(out@) =~= banned_entries(*self));
        out
    }
}

/// Telegram chat member object, told apart by its `status` field.
#[derive(Debug)]
pub enum ChatMember {
    Owner(ChatMemberOwner),
    Administrator(ChatMemberAdministrator),
    Member(ChatMemberRegular),
    Restricted(ChatMemberRestricted),
    Left(ChatMemberLeft),
    Banned(ChatMemberBanned),
    /// A member with a status this model does not know, kept as received.
    Unknown(JsonValue),
}

/// The entries without any entry under `key`, in order.
pub open spec fn without_key(entries: Seq<(Seq<char>, JsonView)>, key: Seq<char>) -> Seq<
    (Seq<char>, JsonView),
>
    decreases entries.len(),
{
    if entries.len() == 0 {
        Seq::empty()
    } else {
        let rest = without_key(entries.drop_last(), key);
        if entries.last().0 == key {
            rest
        } else {
            rest.push(entries.last())
        }
    }
}

/// No entry left by `without_key` carries the key.
pub proof fn lemma_without_key_drops_key(entries: Seq<(Seq<char>, JsonView)>, key: Seq<char>)
    ensures
        forall|i: int|
            0 <= i < without_key(entries, key).len() ==> #[trigger] without_key(entries, key)[i].0
                != key,
    decreases entries.len(),
{
    if entries.len() > 0 {
        lemma_without_key_drops_key(entries.drop_last(), key);
        let rest = without_key(entries.drop_last(), key);
        let all = without_key(entries, key);
        assert forall|i: int| 0 <= i < all.len() implies #[trigger] all[i].0 != key by {
            if i < rest.len() {
                assert(all[i] == rest[i]);
            }
        }
    }
}

/// Copies the entries, leaving out those under `key`.
pub fn copy_without_key(entries: &Vec<(String, JsonValue)>, key: &str, out: &mut Vec<(String, JsonValue)>)
    ensures
        pairs_view(final(out)@) == pairs_view(old(out)@) + without_key(pairs_view(entries@), key@),
{
    let ghost start = pairs_view(out@);
    let mut i: usize = 0;
    while i < entries.len()
        invariant
            i <= entries@.len(),
            pairs_view(out@) == start + without_key(pairs_view(entries@.take(i as int)), key@),
        decreases entries@.len() - i,
    {
        let ghost taken = pairs_view(entries@.take(i as int));
        assert(pairs_view(entries@.take(i + 1)).drop_last() =~= taken);
        assert(pairs_view(entries@.take(i + 1)).last() == (entries@[i as int].0@, entries@[i as int].1.json()));
        if !str_eq(entries[i].0.as_str(), key) {
            let ghost before = out@;
            let value = entries[i].1.copy();
            out.push((entries[i].0.clone(), value));
            assert(pairs_view(out@) =~= pairs_view(before).push((entries@[i as int].0@, entries@[i as int].1.json())));
        }
        i = i + 1;
    }
    assert(entries@.take(entries@.len() as int) =~= entries@);
}

/// The `status` name a member variant is written with; `None` for an unknown member.
pub open spec fn member_tag(member: ChatMember) -> Option<Seq<char>> {
    match member {
        ChatMember::Owner(_) => Some("creator"@),
        ChatMember::Administrator(_) => Some("administrator"@),
        ChatMember::Member(_) => Some("member"@),
        ChatMember::Restricted(_) => Some("restricted"@),
        ChatMember::Left(_) => Some("left"@),
        ChatMember::Banned(_) => Some("kicked"@),
        ChatMember::Unknown(_) => None,
    }
}

/// The entries of the payload of a known member variant.
pub open spec fn member_payload_entries(member: ChatMember) -> Seq<(Seq<char>, JsonView)> {
    match member {
        ChatMember::Owner(m) => owner_entries(m),
        ChatMember::Administrator(m) => administrator_entries(m),
        ChatMember::Member(m) => regular_entries(m),
        ChatMember::Restricted(m) => restricted_entries(m),
        ChatMember::Left(m) => left_entries(m),
        ChatMember::Banned(m) => banned_entries(m),
        ChatMember::Unknown(_) => Seq::empty(),
    }
}

/// The JSON Telegram receives for a member: a known member is its payload
/// under its `status` tag, with any other `status` entry of the payload left
/// out; an unknown member is the value it was read from.
pub open spec fn chat_member_json(member: ChatMember) -> JsonView {
    match member {
        ChatMember::Unknown(value) => value.json(),
        _ => JsonView::Object(
            seq![("status"@, JsonView::Text(member_tag(member).unwrap()))] + without_key(
                member_payload_entries(member),
                "status"@,
            ),
        ),
    }
}

/// The text of the first entry under `field`, if that entry is a string.
pub open spec fn first_text_field(entries: Seq<(Seq<char>, JsonView)>, field: Seq<char>) -> Option<
    Seq<char>,
>
    decreases entries.len(),
{
    if entries.len() == 0 {
        None
    } else if entries[0].0 == field {
        match entries[0].1 {
            JsonView::Text(t) => Some(t),
            _ => None,
        }
    } else {
        first_text_field(entries.drop_first(), field)
    }
}

/// The text of a string field of a JSON object.
pub open spec fn tagged_field_spec(value: JsonView, field: Seq<char>) -> Option<Seq<char>> {
    match value {
        JsonView::Object(entries) => first_text_field(entries, field),
        _ => None,
    }
}

/// Reads a string field of a JSON object, such as the `status` tag.
pub fn tagged_field<'a>(value: &'a JsonValue, field: &str) -> (r: Option<&'a str>)
    ensures
        match r {
            Some(s) => tagged_field_spec(value.json(), field@) == Some(s@),
            None => tagged_field_spec(value.json(), field@) is None,
        },
{
    match value {
        JsonValue::Object(entries) => {
            let ghost view = pairs_view(entries@);
            assert(value.json() == JsonView::Object(view)) by {
                assert(value.json()->Object_0 =~= view);
            }
            let mut i: usize = 0;
            assert(view.skip(0) =~= view);
            while i < entries.len()
                invariant
                    i <= entries@.len(),
                    view == pairs_view(entries@),
                    value.json() == JsonView::Object(view),
                    first_text_field(view, field@) == first_text_field(view.skip(i as int), field@),
                decreases entries@.len() - i,
            {
                let ghost rest = view.skip(i as int);
                assert(rest[0] == (entries@[i as int].0@, entries@[i as int].1.json()));
                let entry = &entries[i];
                assert(*entry == entries@[i as int]);
                if str_eq(entry.0.as_str(), field) {
                    assert(rest[0].0 == field@);
                    match &entry.1 {
                        JsonValue::Text(t) => {
                            assert(rest[0].1 == JsonView::Text(t@));
                            return Some(t.as_str());
                        },
                        _ => {
                            assert(!(rest[0].1 is Text));
                            return None;
                        },
                    }
                }
                assert(rest.drop_first() =~= view.skip(i + 1));
                i = i + 1;
            }
            None
        },
        _ => None,
    }
}

/// The status name of a member: its tag, or for an unknown member the
/// `status` string it was read with.
pub open spec fn member_status_name(member: ChatMember) -> Option<Seq<char>> {
    match member {
        ChatMember::Unknown(value) => tagged_field_spec(value.json(), "status"@),
        _ => member_tag(member),
    }
}

impl ChatMember {
    /// The JSON Telegram receives for this member.
    pub fn to_json(&self) -> (r: JsonValue)
        ensures
            r.json() == chat_member_json(*self),
    {
        let (tag, payload) = match self {
            ChatMember::Owner(m) => ("creator", m.to_entries()),
            ChatMember::Administrator(m) => ("administrator", m.to_entries()),
            ChatMember::Member(m) => ("member", m.to_entries()),
            ChatMember::Restricted(m) => ("restricted", m.to_entries()),
            ChatMember::Left(m) => ("left", m.to_entries()),
            ChatMember::Banned(m) => ("kicked", m.to_entries()),
            ChatMember::Unknown(value) => {
                return value.copy();
            },
        };
        assert(pairs_view(payload@) == member_payload_entries(*self));
        assert(Some(tag@) == member_tag(*self));
        let mut out: Vec<(String, JsonValue)> = Vec::new();
        out.push(("status".to_owned(), JsonValue::Text(tag.to_owned())));
        assert(pairs_view(out@) =~= seq![("status"@, JsonView::Text(tag@))]);
        copy_without_key(&payload, "status", &mut out);
        let r = JsonValue::Object(out);
        assert(r.json()->Object_0 =~= pairs_view(out@));
        r
    }

    pub fn status_name(&self) -> (r: Option<&str>)
        ensures
            match r {
                Some(s) => member_status_name(*self) == Some(s@),
                None => member_status_name(*self) is None,
            },
    {
        match self {
            ChatMember::Owner(_) => Some("creator"),
            ChatMember::Administrator(_) => Some("administrator"),
            ChatMember::Member(_) => Some("member"),
            ChatMember::Restricted(_) => Some("restricted"),
            ChatMember::Left(_) => Some("left"),
            ChatMember::Banned(_) => Some("kicked"),
            ChatMember::Unknown(value) => tagged_field(value, "status"),
        }
    }

    /// The typed status of this member, read from its status name.
    pub fn status(&self) -> (r: Option<ChatMemberStatus>)
        ensures
            match r {
                Some(s) => member_status_name(*self) matches Some(name) && status_matches(name, s),
                None => member_status_name(*self) is None,
            },
    {
        match self.status_name() {
            Some(name) => Some(ChatMemberStatus::parse(name)),
            None => None,
        }
    }

    pub fn user(&self) -> (r: Option<&User>)
        ensures
            r == match *self {
                ChatMember::Owner(m) => Some(&m.user),
                ChatMember::Administrator(m) => Some(&m.user),
                ChatMember::Member(m) => Some(&m.user),
                ChatMember::Restricted(m) => Some(&m.user),
                ChatMember::Left(m) => Some(&m.user),
                ChatMember::Banned(m) => Some(&m.user),
                ChatMember::Unknown(_) => None,
            },
    {
        match self {
            ChatMember::Owner(m) => Some(&m.user),
            ChatMember::Administrator(m) => Some(&m.user),
            ChatMember::Member(m) => Some(&m.user),
            ChatMember::Restricted(m) => Some(&m.user),
            ChatMember::Left(m) => Some(&m.user),
            ChatMember::Banned(m) => Some(&m.user),
            ChatMember::Unknown(_) => None,
        }
    }
    pub fn as_owner(&self) -> (r: Option<&ChatMemberOwner>)
        ensures
            r == match *self {
                ChatMember::Owner(m) => Some(&m),
                _ => None,
            },
    {
        match self {
            ChatMember::Owner(m) => Some(m),
            _ => None,
        }
    }

    pub fn into_owner(self) -> (r: Option<ChatMemberOwner>)
        ensures
            r == match self {
                ChatMember::Owner(m) => Some(m),
                _ => None,
            },
    {
        match self {
            ChatMember::Owner(m) => Some(m),
            _ => None,
        }
    }

    pub fn as_administrator(&self) -> (r: Option<&ChatMemberAdministrator>)
        ensures
            r == match *self {
                ChatMember::Administrator(m) => Some(&m),
                _ => None,
            },
    {
        match self {
            ChatMember::Administrator(m) => Some(m),
            _ => None,
        }
    }

    pub fn into_administrator(self) -> (r: Option<ChatMemberAdministrator>)
        ensures
            r == match self {
                ChatMember::Administrator(m) => Some(m),
                _ => None,
            },
    {
        match self {
            ChatMember::Administrator(m) => Some(m),
            _ => None,
        }
    }

    pub fn as_member(&self) -> (r: Option<&ChatMemberRegular>)
        ensures
            r == match *self {
                ChatMember::Member(m) => Some(&m),
                _ => None,
            },
    {
        match self {
            ChatMember::Member(m) => Some(m),
            _ => None,
        }
    }

    pub fn into_member(self) -> (r: Option<ChatMemberRegular>)
        ensures
            r == match self {
                ChatMember::Member(m) => Some(m),
                _ => None,
            },
    {
        match self {
            ChatMember::Member(m) => Some(m),
            _ => None,
        }
    }

    pub fn as_restricted(&self) -> (r: Option<&ChatMemberRestricted>)
        ensures
            r == match *self {
                ChatMember::Restricted(m) => Some(&m),
                _ => None,
            },
    {
        match self {
            ChatMember::Restricted(m) => Some(m),
            _ => None,
        }
    }

    pub fn into_restricted(self) -> (r: Option<ChatMemberRestricted>)
        ensures
            r == match self {
                ChatMember::Restricted(m) => Some(m),
                _ => None,
            },
    {
        match self {
            ChatMember::Restricted(m) => Some(m),
            _ => None,
        }
    }

    pub fn as_left(&self) -> (r: Option<&ChatMemberLeft>)
        ensures
            r == match *self {
                ChatMember::Left(m) => Some(&m),
                _ => None,
            },
    {
        match self {
            ChatMember::Left(m) => Some(m),
            _ => None,
        }
    }

    pub fn into_left(self) -> (r: Option<ChatMemberLeft>)
        ensures
            r == match self {
                ChatMember::Left(m) => Some(m),
                _ => None,
            },
    {
        match self {
            ChatMember::Left(m) => Some(m),
            _ => None,
        }
    }

    pub fn as_banned(&self) -> (r: Option<&ChatMemberBanned>)
        ensures
            r == match *self {
                ChatMember::Banned(m) => Some(&m),
                _ => None,
            },
    {
        match self {
            ChatMember::Banned(m) => Some(m),
            _ => None,
        }
    }

    pub fn into_banned(self) -> (r: Option<ChatMemberBanned>)
        ensures
            r == match self {
                ChatMember::Banned(m) => Some(m),
                _ => None,
            },
    {
        match self {
            ChatMember::Banned(m) => Some(m),
            _ => None,
        }
    }

    pub fn as_unknown_value(&self) -> (r: Option<&JsonValue>)
        ensures
            r == match *self {
                ChatMember::Unknown(v) => Some(&v),
                _ => None,
            },
    {
        match self {
            ChatMember::Unknown(v) => Some(v),
            _ => None,
        }
    }

    pub fn into_unknown_value(self) -> (r: Option<JsonValue>)
        ensures
            r == match self {
                ChatMember::Unknown(v) => Some(v),
                _ => None,
            },
    {
        match self {
            ChatMember::Unknown(v) => Some(v),
            _ => None,
        }
    }

    /// The custom title of an owner or administrator.
    pub fn custom_title(&self) -> (r: Option<&str>)
        ensures
            match r {
                Some(s) => match *self {
                    ChatMember::Owner(m) => m.custom_title matches Some(t) && t@ == s@,
                    ChatMember::Administrator(m) => m.custom_title matches Some(t) && t@ == s@,
                    _ => false,
                },
                None => match *self {
                    ChatMember::Owner(m) => m.custom_title is None,
                    ChatMember::Administrator(m) => m.custom_title is None,
                    _ => true,
                },
            },
    {
        let title = match self {
            ChatMember::Owner(m) => &m.custom_title,
            ChatMember::Administrator(m) => &m.custom_title,
            _ => {
                return None;
            },
        };
        match title {
            Some(t) => Some(t.as_str()),
            None => None,
        }
    }

    pub fn administrator_rights(&self) -> (r: Option<&ChatAdministratorRights>)
        ensures
            r == match *self {
                ChatMember::Administrator(m) => Some(&m.rights),
                _ => None,
            },
    {
        match self {
            ChatMember::Administrator(m) => Some(&m.rights),
            _ => None,
        }
    }

    pub fn permissions(&self) -> (r: Option<&ChatPermissions>)
        ensures
            r == match *self {
                ChatMember::Restricted(m) => Some(&m.permissions),
                _ => None,
            },
    {
        match self {
            ChatMember::Restricted(m) => Some(&m.permissions),
            _ => None,
        }
    }

    /// The date until which a restricted or banned member stays so.
    pub fn until_date(&self) -> (r: Option<i64>)
        ensures
            r == match *self {
                ChatMember::Restricted(m) => m.until_date,
                ChatMember::Banned(m) => m.until_date,
                _ => None,
            },
    {
        match self {
            ChatMember::Restricted(m) => m.until_date,
            ChatMember::Banned(m) => m.until_date,
            _ => None,
        }
    }

    /// The response fields of a known member that no typed field holds.
    pub fn extra(&self) -> (r: Option<&JsonMap>)
        ensures
            r == match *self {
                ChatMember::Owner(m) => Some(&m.extra),
                ChatMember::Administrator(m) => Some(&m.extra),
                ChatMember::Member(m) => Some(&m.extra),
                ChatMember::Restricted(m) => Some(&m.extra),
                ChatMember::Left(m) => Some(&m.extra),
                ChatMember::Banned(m) => Some(&m.extra),
                ChatMember::Unknown(_) => None,
            },
    {
        match self {
            ChatMember::Owner(m) => Some(&m.extra),
            ChatMember::Administrator(m) => Some(&m.extra),
            ChatMember::Member(m) => Some(&m.extra),
            ChatMember::Restricted(m) => Some(&m.extra),
            ChatMember::Left(m) => Some(&m.extra),
            ChatMember::Banned(m) => Some(&m.extra),
            ChatMember::Unknown(_) => None,
        }
    }

    pub fn is_owner(&self) -> (r: bool)
        ensures
            r == (*self is Owner),
    {
        match self {
            ChatMember::Owner(_) => true,
            _ => false,
        }
    }

    pub fn is_admin(&self) -> (r: bool)
        ensures
            r == (*self is Owner || *self is Administrator),
    {
        match self {
            ChatMember::Owner(_) | ChatMember::Administrator(_) => true,
            _ => false,
        }
    }

    /// An owner holds every capability; an administrator those its rights
    /// grant; any other member none.
    pub fn has_capability(&self, capability: ChatAdministratorCapability) -> (r: bool)
        ensures
            r == match *self {
                ChatMember::Owner(_) => true,
                ChatMember::Administrator(m) => grants(m.rights, capability),
                _ => false,
            },
    {
        match self {
            ChatMember::Owner(_) => true,
            ChatMember::Administrator(m) => m.rights.has_capability(capability),
            _ => false,
        }
    }
}

/// In the JSON of a known member, the `status` tag comes first, names the
/// variant, and no other entry carries a `status` key: a payload can never
/// change the status it is sent with.
pub proof fn lemma_member_status_tag_wins(member: ChatMember)
    requires
        !(member is Unknown),
    ensures
        chat_member_json(member) matches JsonView::Object(entries) && entries[0] == (
            "status"@,
            JsonView::Text(member_tag(member).unwrap()),
        ) && forall|i: int| 1 <= i < entries.len() ==> #[trigger] entries[i].0 != "status"@,
{
    let payload = without_key(member_payload_entries(member), "status"@);
    lemma_without_key_drops_key(member_payload_entries(member), "status"@);
    let entries = seq![("status"@, JsonView::Text(member_tag(member).unwrap()))] + payload;
    assert forall|i: int| 1 <= i < entries.len() implies #[trigger] entries[i].0 != "status"@ by {
        assert(entries[i] == payload[i - 1]);
    }
}

/// An unknown member is written back exactly as it was read.
pub proof fn lemma_unknown_member_round_trip(value: JsonValue)
    ensures
        chat_member_json(ChatMember::Unknown(value)) == value.json(),
{
}

/// The status read back from a member's status name is the member's own
/// status, for every known variant.
pub proof fn lemma_member_status_matches_variant(member: ChatMember)
    requires
        !(member is Unknown),
    ensures
        member_status_name(member) matches Some(name) && status_matches(
            name,
            match member {
                ChatMember::Owner(_) => ChatMemberStatus::Owner,
                ChatMember::Administrator(_) => ChatMemberStatus::Administrator,
                ChatMember::Member(_) => ChatMemberStatus::Member,
                ChatMember::Restricted(_) => ChatMemberStatus::Restricted,
                ChatMember::Left(_) => ChatMemberStatus::Left,
                _ => ChatMemberStatus::Banned,
            },
        ),
{
    reveal_strlit("creator");
    reveal_strlit("administrator");
    reveal_strlit("member");
    reveal_strlit("restricted");
    reveal_strlit("left");
    reveal_strlit("kicked");
    assert("administrator"@.len() != "creator"@.len());
    assert("member"@.len() != "creator"@.len());
    assert("member"@.len() != "administrator"@.len());
    assert("restricted"@.len() != "creator"@.len());
    assert("restricted"@.len() != "administrator"@.len());
    assert("restricted"@.len() != "member"@.len());
    assert("left"@.len() != "creator"@.len());
    assert("left"@.len() != "administrator"@.len());
    assert("left"@.len() != "member"@.len());
    assert("left"@.len() != "restricted"@.len());
    assert("kicked"@.len() != "creator"@.len());
    assert("kicked"@.len() != "administrator"@.len());
    assert("kicked"@[0] != "member"@[0]);
    assert("kicked"@.len() != "restricted"@.len());
    assert("kicked"@.len() != "left"@.len());
}
/// The typed fields of a `owner` member, in the order they are written.
pub open spec fn owner_core_entries(m: ChatMemberOwner) -> Seq<(Seq<char>, JsonView)> {
    seq![("user"@, JsonView::Object(user_entries(m.user)))]
        + opt_bool_entry("is_anonymous"@, m.is_anonymous)
        + opt_text_entry("custom_title"@, m.custom_title)
}

/// The entries of a serialized `owner` member: its typed fields, then the extra
/// entries whose key no typed field uses.
pub open spec fn owner_entries(m: ChatMemberOwner) -> Seq<(Seq<char>, JsonView)> {
    owner_core_entries(m) + visible_extra(m.extra.pairs(), owner_reserved())
}

proof fn lemma_owner_core_keys_reserved(m: ChatMemberOwner)
    ensures
        keys_reserved(owner_core_entries(m), owner_reserved()),
{
    let r = owner_reserved();
    assert(r[0]@ == "user"@);
    assert(keys_reserved(seq![("user"@, JsonView::Object(user_entries(m.user)))], r));
    assert(r[1]@ == "is_anonymous"@);
    lemma_opt_bool_entry_key("is_anonymous"@, m.is_anonymous, r);
    lemma_keys_reserved_append(seq![("user"@, JsonView::Object(user_entries(m.user)))], opt_bool_entry("is_anonymous"@, m.is_anonymous), r);
    assert(r[2]@ == "custom_title"@);
    assert(keys_reserved(opt_text_entry("custom_title"@, m.custom_title), r));
    lemma_keys_reserved_append(seq![("user"@, JsonView::Object(user_entries(m.user)))] + opt_bool_entry("is_anonymous"@, m.is_anonymous), opt_text_entry("custom_title"@, m.custom_title), r);
}

/// In a serialized `owner` member, the entries under the member's own keys are
/// exactly its typed fields, and every extra entry under another key is kept:
/// an extra field never replaces a typed one.
pub proof fn lemma_owner_extra_cannot_override(m: ChatMemberOwner)
    ensures
        forall|i: int|
            0 <= i < owner_entries(m).len() ==> (is_reserved(
                #[trigger] owner_entries(m)[i].0,
                owner_reserved(),
            ) <==> i < owner_core_entries(m).len()),
        forall|j: int|
            0 <= j < m.extra.pairs().len() && !is_reserved(#[trigger] m.extra.pairs()[j].0@, owner_reserved())
                ==> owner_entries(m).contains((m.extra.pairs()[j].0@, m.extra.pairs()[j].1.json())),
{
    lemma_owner_core_keys_reserved(m);
    lemma_extra_never_overrides(owner_core_entries(m), m.extra.pairs(), owner_reserved());
}

/// The typed fields of a `administrator` member, in the order they are written.
pub open spec fn administrator_core_entries(m: ChatMemberAdministrator) -> Seq<(Seq<char>, JsonView)> {
    seq![("user"@, JsonView::Object(user_entries(m.user)))]
        + opt_bool_entry("can_be_edited"@, m.can_be_edited)
        + opt_bool_entry("is_anonymous"@, effective_is_anonymous(m))
        + opt_text_entry("custom_title"@, m.custom_title)
        + administrator_member_rights_entries(m.rights)
}

/// The entries of a serialized `administrator` member: its typed fields, then the extra
/// entries whose key no typed field uses.
pub open spec fn administrator_entries(m: ChatMemberAdministrator) -> Seq<(Seq<char>, JsonView)> {
    administrator_core_entries(m) + visible_extra(m.extra.pairs(), administrator_reserved())
}

proof fn lemma_administrator_core_keys_reserved(m: ChatMemberAdministrator)
    ensures
        keys_reserved(administrator_core_entries(m), administrator_reserved()),
{
    let r = administrator_reserved();
    assert(r[0]@ == "user"@);
    assert(keys_reserved(seq![("user"@, JsonView::Object(user_entries(m.user)))], r));
    assert(r[1]@ == "can_be_edited"@);
    lemma_opt_bool_entry_key("can_be_edited"@, m.can_be_edited, r);
    lemma_keys_reserved_append(seq![("user"@, JsonView::Object(user_entries(m.user)))], opt_bool_entry("can_be_edited"@, m.can_be_edited), r);
    assert(r[2]@ == "is_anonymous"@);
    lemma_opt_bool_entry_key("is_anonymous"@, effective_is_anonymous(m), r);
    lemma_keys_reserved_append(seq![("user"@, JsonView::Object(user_entries(m.user)))] + opt_bool_entry("can_be_edited"@, m.can_be_edited), opt_bool_entry("is_anonymous"@, effective_is_anonymous(m)), r);
    assert(r[3]@ == "custom_title"@);
    assert(keys_reserved(opt_text_entry("custom_title"@, m.custom_title), r));
    lemma_keys_reserved_append(seq![("user"@, JsonView::Object(user_entries(m.user)))] + opt_bool_entry("can_be_edited"@, m.can_be_edited) + opt_bool_entry("is_anonymous"@, effective_is_anonymous(m)), opt_text_entry("custom_title"@, m.custom_title), r);
    assert(r[4]@ == "can_manage_chat"@);
    lemma_opt_bool_entry_key("can_manage_chat"@, m.rights.can_manage_chat, r);
    assert(r[5]@ == "can_delete_messages"@);
    lemma_opt_bool_entry_key("can_delete_messages"@, m.rights.can_delete_messages, r);
    lemma_keys_reserved_append(opt_bool_entry("can_manage_chat"@, m.rights.can_manage_chat), opt_bool_entry("can_delete_messages"@, m.rights.can_delete_messages), r);
    assert(r[6]@ == "can_manage_video_chats"@);
    lemma_opt_bool_entry_key("can_manage_video_chats"@, m.rights.can_manage_video_chats, r);
    lemma_keys_reserved_append(opt_bool_entry("can_manage_chat"@, m.rights.can_manage_chat) + opt_bool_entry("can_delete_messages"@, m.rights.can_delete_messages), opt_bool_entry("can_manage_video_chats"@, m.rights.can_manage_video_chats), r);
    assert(r[7]@ == "can_restrict_members"@);
    lemma_opt_bool_entry_key("can_restrict_members"@, m.rights.can_restrict_members, r);
    lemma_keys_reserved_append(opt_bool_entry("can_manage_chat"@, m.rights.can_manage_chat) + opt_bool_entry("can_delete_messages"@, m.rights.can_delete_messages) + opt_bool_entry("can_manage_video_chats"@, m.rights.can_manage_video_chats), opt_bool_entry("can_restrict_members"@, m.rights.can_restrict_members), r);
    assert(r[8]@ == "can_promote_members"@);
    lemma_opt_bool_entry_key("can_promote_members"@, m.rights.can_promote_members, r);
    lemma_keys_reserved_append(opt_bool_entry("can_manage_chat"@, m.rights.can_manage_chat) + opt_bool_entry("can_delete_messages"@, m.rights.can_delete_messages) + opt_bool_entry("can_manage_video_chats"@, m.rights.can_manage_video_chats) + opt_bool_entry("can_restrict_members"@, m.rights.can_restrict_members), opt_bool_entry("can_promote_members"@, m.rights.can_promote_members), r);
    assert(r[9]@ == "can_change_info"@);
    lemma_opt_bool_entry_key("can_change_info"@, m.rights.can_change_info, r);
    lemma_keys_reserved_append(opt_bool_entry("can_manage_chat"@, m.rights.can_manage_chat) + opt_bool_entry("can_delete_messages"@, m.rights.can_delete_messages) + opt_bool_entry("can_manage_video_chats"@, m.rights.can_manage_video_chats) + opt_bool_entry("can_restrict_members"@, m.rights.can_restrict_members) + opt_bool_entry("can_promote_members"@, m.rights.can_promote_members), opt_bool_entry("can_change_info"@, m.rights.can_change_info), r);
    assert(r[10]@ == "can_invite_users"@);
    lemma_opt_bool_entry_key("can_invite_users"@, m.rights.can_invite_users, r);
    lemma_keys_reserved_append(opt_bool_entry("can_manage_chat"@, m.rights.can_manage_chat) + opt_bool_entry("can_delete_messages"@, m.rights.can_delete_messages) + opt_bool_entry("can_manage_video_chats"@, m.rights.can_manage_video_chats) + opt_bool_entry("can_restrict_members"@, m.rights.can_restrict_members) + opt_bool_entry("can_promote_members"@, m.rights.can_promote_members) + opt_bool_entry("can_change_info"@, m.rights.can_change_info), opt_bool_entry("can_invite_users"@, m.rights.can_invite_users), r);
    assert(r[11]@ == "can_post_stories"@);
    lemma_opt_bool_entry_key("can_post_stories"@, m.rights.can_post_stories, r);
    lemma_keys_reserved_append(opt_bool_entry("can_manage_chat"@, m.rights.can_manage_chat) + opt_bool_entry("can_delete_messages"@, m.rights.can_delete_messages) + opt_bool_entry("can_manage_video_chats"@, m.rights.can_manage_video_chats) + opt_bool_entry("can_restrict_members"@, m.rights.can_restrict_members) + opt_bool_entry("can_promote_members"@, m.rights.can_promote_members) + opt_bool_entry("can_change_info"@, m.rights.can_change_info) + opt_bool_entry("can_invite_users"@, m.rights.can_invite_users), opt_bool_entry("can_post_stories"@, m.rights.can_post_stories), r);
    assert(r[12]@ == "can_edit_stories"@);
    lemma_opt_bool_entry_key("can_edit_stories"@, m.rights.can_edit_stories, r);
    lemma_keys_reserved_append(opt_bool_entry("can_manage_chat"@, m.rights.can_manage_chat) + opt_bool_entry("can_delete_messages"@, m.rights.can_delete_messages) + opt_bool_entry("can_manage_video_chats"@, m.rights.can_manage_video_chats) + opt_bool_entry("can_restrict_members"@, m.rights.can_restrict_members) + opt_bool_entry("can_promote_members"@, m.rights.can_promote_members) + opt_bool_entry("can_change_info"@, m.rights.can_change_info) + opt_bool_entry("can_invite_users"@, m.rights.can_invite_users) + opt_bool_entry("can_post_stories"@, m.rights.can_post_stories), opt_bool_entry("can_edit_stories"@, m.rights.can_edit_stories), r);
    assert(r[13]@ == "can_delete_stories"@);
    lemma_opt_bool_entry_key("can_delete_stories"@, m.rights.can_delete_stories, r);
    lemma_keys_reserved_append(opt_bool_entry("can_manage_chat"@, m.rights.can_manage_chat) + opt_bool_entry("can_delete_messages"@, m.rights.can_delete_messages) + opt_bool_entry("can_manage_video_chats"@, m.rights.can_manage_video_chats) + opt_bool_entry("can_restrict_members"@, m.rights.can_restrict_members) + opt_bool_entry("can_promote_members"@, m.rights.can_promote_members) + opt_bool_entry("can_change_info"@, m.rights.can_change_info) + opt_bool_entry("can_invite_users"@, m.rights.can_invite_users) + opt_bool_entry("can_post_stories"@, m.rights.can_post_stories) + opt_bool_entry("can_edit_stories"@, m.rights.can_edit_stories), opt_bool_entry("can_delete_stories"@, m.rights.can_delete_stories), r);
    assert(r[14]@ == "can_post_messages"@);
    lemma_opt_bool_entry_key("can_post_messages"@, m.rights.can_post_messages, r);
    lemma_keys_reserved_append(opt_bool_entry("can_manage_chat"@, m.rights.can_manage_chat) + opt_bool_entry("can_delete_messages"@, m.rights.can_delete_messages) + opt_bool_entry("can_manage_video_chats"@, m.rights.can_manage_video_chats) + opt_bool_entry("can_restrict_members"@, m.rights.can_restrict_members) + opt_bool_entry("can_promote_members"@, m.rights.can_promote_members) + opt_bool_entry("can_change_info"@, m.rights.can_change_info) + opt_bool_entry("can_invite_users"@, m.rights.can_invite_users) + opt_bool_entry("can_post_stories"@, m.rights.can_post_stories) + opt_bool_entry("can_edit_stories"@, m.rights.can_edit_stories) + opt_bool_entry("can_delete_stories"@, m.rights.can_delete_stories), opt_bool_entry("can_post_messages"@, m.rights.can_post_messages), r);
    assert(r[15]@ == "can_edit_messages"@);
    lemma_opt_bool_entry_key("can_edit_messages"@, m.rights.can_edit_messages, r);
    lemma_keys_reserved_append(opt_bool_entry("can_manage_chat"@, m.rights.can_manage_chat) + opt_bool_entry("can_delete_messages"@, m.rights.can_delete_messages) + opt_bool_entry("can_manage_video_chats"@, m.rights.can_manage_video_chats) + opt_bool_entry("can_restrict_members"@, m.rights.can_restrict_members) + opt_bool_entry("can_promote_members"@, m.rights.can_promote_members) + opt_bool_entry("can_change_info"@, m.rights.can_change_info) + opt_bool_entry("can_invite_users"@, m.rights.can_invite_users) + opt_bool_entry("can_post_stories"@, m.rights.can_post_stories) + opt_bool_entry("can_edit_stories"@, m.rights.can_edit_stories) + opt_bool_entry("can_delete_stories"@, m.rights.can_delete_stories) + opt_bool_entry("can_post_messages"@, m.rights.can_post_messages), opt_bool_entry("can_edit_messages"@, m.rights.can_edit_messages), r);
    assert(r[16]@ == "can_pin_messages"@);
    lemma_opt_bool_entry_key("can_pin_messages"@, m.rights.can_pin_messages, r);
    lemma_keys_reserved_append(opt_bool_entry("can_manage_chat"@, m.rights.can_manage_chat) + opt_bool_entry("can_delete_messages"@, m.rights.can_delete_messages) + opt_bool_entry("can_manage_video_chats"@, m.rights.can_manage_video_chats) + opt_bool_entry("can_restrict_members"@, m.rights.can_restrict_members) + opt_bool_entry("can_promote_members"@, m.rights.can_promote_members) + opt_bool_entry("can_change_info"@, m.rights.can_change_info) + opt_bool_entry("can_invite_users"@, m.rights.can_invite_users) + opt_bool_entry("can_post_stories"@, m.rights.can_post_stories) + opt_bool_entry("can_edit_stories"@, m.rights.can_edit_stories) + opt_bool_entry("can_delete_stories"@, m.rights.can_delete_stories) + opt_bool_entry("can_post_messages"@, m.rights.can_post_messages) + opt_bool_entry("can_edit_messages"@, m.rights.can_edit_messages), opt_bool_entry("can_pin_messages"@, m.rights.can_pin_messages), r);
    assert(r[17]@ == "can_manage_topics"@);
    lemma_opt_bool_entry_key("can_manage_topics"@, m.rights.can_manage_topics, r);
    lemma_keys_reserved_append(opt_bool_entry("can_manage_chat"@, m.rights.can_manage_chat) + opt_bool_entry("can_delete_messages"@, m.rights.can_delete_messages) + opt_bool_entry("can_manage_video_chats"@, m.rights.can_manage_video_chats) + opt_bool_entry("can_restrict_members"@, m.rights.can_restrict_members) + opt_bool_entry("can_promote_members"@, m.rights.can_promote_members) + opt_bool_entry("can_change_info"@, m.rights.can_change_info) + opt_bool_entry("can_invite_users"@, m.rights.can_invite_users) + opt_bool_entry("can_post_stories"@, m.rights.can_post_stories) + opt_bool_entry("can_edit_stories"@, m.rights.can_edit_stories) + opt_bool_entry("can_delete_stories"@, m.rights.can_delete_stories) + opt_bool_entry("can_post_messages"@, m.rights.can_post_messages) + opt_bool_entry("can_edit_messages"@, m.rights.can_edit_messages) + opt_bool_entry("can_pin_messages"@, m.rights.can_pin_messages), opt_bool_entry("can_manage_topics"@, m.rights.can_manage_topics), r);
    assert(administrator_member_rights_entries(m.rights) == opt_bool_entry("can_manage_chat"@, m.rights.can_manage_chat) + opt_bool_entry("can_delete_messages"@, m.rights.can_delete_messages) + opt_bool_entry("can_manage_video_chats"@, m.rights.can_manage_video_chats) + opt_bool_entry("can_restrict_members"@, m.rights.can_restrict_members) + opt_bool_entry("can_promote_members"@, m.rights.can_promote_members) + opt_bool_entry("can_change_info"@, m.rights.can_change_info) + opt_bool_entry("can_invite_users"@, m.rights.can_invite_users) + opt_bool_entry("can_post_stories"@, m.rights.can_post_stories) + opt_bool_entry("can_edit_stories"@, m.rights.can_edit_stories) + opt_bool_entry("can_delete_stories"@, m.rights.can_delete_stories) + opt_bool_entry("can_post_messages"@, m.rights.can_post_messages) + opt_bool_entry("can_edit_messages"@, m.rights.can_edit_messages) + opt_bool_entry("can_pin_messages"@, m.rights.can_pin_messages) + opt_bool_entry("can_manage_topics"@, m.rights.can_manage_topics));
    lemma_keys_reserved_append(seq![("user"@, JsonView::Object(user_entries(m.user)))] + opt_bool_entry("can_be_edited"@, m.can_be_edited) + opt_bool_entry("is_anonymous"@, effective_is_anonymous(m)) + opt_text_entry("custom_title"@, m.custom_title), administrator_member_rights_entries(m.rights), r);
}

/// In a serialized `administrator` member, the entries under the member's own keys are
/// exactly its typed fields, and every extra entry under another key is kept:
/// an extra field never replaces a typed one.
pub proof fn lemma_administrator_extra_cannot_override(m: ChatMemberAdministrator)
    ensures
        forall|i: int|
            0 <= i < administrator_entries(m).len() ==> (is_reserved(
                #[trigger] administrator_entries(m)[i].0,
                administrator_reserved(),
            ) <==> i < administrator_core_entries(m).len()),
        forall|j: int|
            0 <= j < m.extra.pairs().len() && !is_reserved(#[trigger] m.extra.pairs()[j].0@, administrator_reserved())
                ==> administrator_entries(m).contains((m.extra.pairs()[j].0@, m.extra.pairs()[j].1.json())),
{
    lemma_administrator_core_keys_reserved(m);
    lemma_extra_never_overrides(administrator_core_entries(m), m.extra.pairs(), administrator_reserved());
}

/// The typed fields of a `regular` member, in the order they are written.
pub open spec fn regular_core_entries(m: ChatMemberRegular) -> Seq<(Seq<char>, JsonView)> {
    seq![("user"@, JsonView::Object(user_entries(m.user)))]
}

/// The entries of a serialized `regular` member: its typed fields, then the extra
/// entries whose key no typed field uses.
pub open spec fn regular_entries(m: ChatMemberRegular) -> Seq<(Seq<char>, JsonView)> {
    regular_core_entries(m) + visible_extra(m.extra.pairs(), regular_reserved())
}

proof fn lemma_regular_core_keys_reserved(m: ChatMemberRegular)
    ensures
        keys_reserved(regular_core_entries(m), regular_reserved()),
{
    let r = regular_reserved();
    assert(r[0]@ == "user"@);
    assert(keys_reserved(seq![("user"@, JsonView::Object(user_entries(m.user)))], r));
}

/// In a serialized `regular` member, the entries under the member's own keys are
/// exactly its typed fields, and every extra entry under another key is kept:
/// an extra field never replaces a typed one.
pub proof fn lemma_regular_extra_cannot_override(m: ChatMemberRegular)
    ensures
        forall|i: int|
            0 <= i < regular_entries(m).len() ==> (is_reserved(
                #[trigger] regular_entries(m)[i].0,
                regular_reserved(),
            ) <==> i < regular_core_entries(m).len()),
        forall|j: int|
            0 <= j < m.extra.pairs().len() && !is_reserved(#[trigger] m.extra.pairs()[j].0@, regular_reserved())
                ==> regular_entries(m).contains((m.extra.pairs()[j].0@, m.extra.pairs()[j].1.json())),
{
    lemma_regular_core_keys_reserved(m);
    lemma_extra_never_overrides(regular_core_entries(m), m.extra.pairs(), regular_reserved());
}

/// The typed fields of a `restricted` member, in the order they are written.
pub open spec fn restricted_core_entries(m: ChatMemberRestricted) -> Seq<(Seq<char>, JsonView)> {
    seq![("user"@, JsonView::Object(user_entries(m.user)))]
        + opt_bool_entry("is_member"@, m.is_member)
        + chat_permission_entries(m.permissions)
        + opt_int_entry("until_date"@, m.until_date)
}

/// The entries of a serialized `restricted` member: its typed fields, then the extra
/// entries whose key no typed field uses.
pub open spec fn restricted_entries(m: ChatMemberRestricted) -> Seq<(Seq<char>, JsonView)> {
    restricted_core_entries(m) + visible_extra(m.extra.pairs(), restricted_reserved())
}

proof fn lemma_restricted_core_keys_reserved(m: ChatMemberRestricted)
    ensures
        keys_reserved(restricted_core_entries(m), restricted_reserved()),
{
    let r = restricted_reserved();
    assert(r[0]@ == "user"@);
    assert(keys_reserved(seq![("user"@, JsonView::Object(user_entries(m.user)))], r));
    assert(r[1]@ == "is_member"@);
    lemma_opt_bool_entry_key("is_member"@, m.is_member, r);
    lemma_keys_reserved_append(seq![("user"@, JsonView::Object(user_entries(m.user)))], opt_bool_entry("is_member"@, m.is_member), r);
    assert(r[3]@ == "can_send_messages"@);
    lemma_opt_bool_entry_key("can_send_messages"@, m.permissions.can_send_messages, r);
    assert(r[4]@ == "can_send_audios"@);
    lemma_opt_bool_entry_key("can_send_audios"@, m.permissions.can_send_audios, r);
    lemma_keys_reserved_append(opt_bool_entry("can_send_messages"@, m.permissions.can_send_messages), opt_bool_entry("can_send_audios"@, m.permissions.can_send_audios), r);
    assert(r[5]@ == "can_send_documents"@);
    lemma_opt_bool_entry_key("can_send_documents"@, m.permissions.can_send_documents, r);
    lemma_keys_reserved_append(opt_bool_entry("can_send_messages"@, m.permissions.can_send_messages) + opt_bool_entry("can_send_audios"@, m.permissions.can_send_audios), opt_bool_entry("can_send_documents"@, m.permissions.can_send_documents), r);
    assert(r[6]@ == "can_send_photos"@);
    lemma_opt_bool_entry_key("can_send_photos"@, m.permissions.can_send_photos, r);
    lemma_keys_reserved_append(opt_bool_entry("can_send_messages"@, m.permissions.can_send_messages) + opt_bool_entry("can_send_audios"@, m.permissions.can_send_audios) + opt_bool_entry("can_send_documents"@, m.permissions.can_send_documents), opt_bool_entry("can_send_photos"@, m.permissions.can_send_photos), r);
    assert(r[7]@ == "can_send_videos"@);
    lemma_opt_bool_entry_key("can_send_videos"@, m.permissions.can_send_videos, r);
    lemma_keys_reserved_append(opt_bool_entry("can_send_messages"@, m.permissions.can_send_messages) + opt_bool_entry("can_send_audios"@, m.permissions.can_send_audios) + opt_bool_entry("can_send_documents"@, m.permissions.can_send_documents) + opt_bool_entry("can_send_photos"@, m.permissions.can_send_photos), opt_bool_entry("can_send_videos"@, m.permissions.can_send_videos), r);
    assert(r[8]@ == "can_send_video_notes"@);
    lemma_opt_bool_entry_key("can_send_video_notes"@, m.permissions.can_send_video_notes, r);
    lemma_keys_reserved_append(opt_bool_entry("can_send_messages"@, m.permissions.can_send_messages) + opt_bool_entry("can_send_audios"@, m.permissions.can_send_audios) + opt_bool_entry("can_send_documents"@, m.permissions.can_send_documents) + opt_bool_entry("can_send_photos"@, m.permissions.can_send_photos) + opt_bool_entry("can_send_videos"@, m.permissions.can_send_videos), opt_bool_entry("can_send_video_notes"@, m.permissions.can_send_video_notes), r);
    assert(r[9]@ == "can_send_voice_notes"@);
    lemma_opt_bool_entry_key("can_send_voice_notes"@, m.permissions.can_send_voice_notes, r);
    lemma_keys_reserved_append(opt_bool_entry("can_send_messages"@, m.permissions.can_send_messages) + opt_bool_entry("can_send_audios"@, m.permissions.can_send_audios) + opt_bool_entry("can_send_documents"@, m.permissions.can_send_documents) + opt_bool_entry("can_send_photos"@, m.permissions.can_send_photos) + opt_bool_entry("can_send_videos"@, m.permissions.can_send_videos) + opt_bool_entry("can_send_video_notes"@, m.permissions.can_send_video_notes), opt_bool_entry("can_send_voice_notes"@, m.permissions.can_send_voice_notes), r);
    assert(r[10]@ == "can_send_polls"@);
    lemma_opt_bool_entry_key("can_send_polls"@, m.permissions.can_send_polls, r);
    lemma_keys_reserved_append(opt_bool_entry("can_send_messages"@, m.permissions.can_send_messages) + opt_bool_entry("can_send_audios"@, m.permissions.can_send_audios) + opt_bool_entry("can_send_documents"@, m.permissions.can_send_documents) + opt_bool_entry("can_send_photos"@, m.permissions.can_send_photos) + opt_bool_entry("can_send_videos"@, m.permissions.can_send_videos) + opt_bool_entry("can_send_video_notes"@, m.permissions.can_send_video_notes) + opt_bool_entry("can_send_voice_notes"@, m.permissions.can_send_voice_notes), opt_bool_entry("can_send_polls"@, m.permissions.can_send_polls), r);
    assert(r[11]@ == "can_send_other_messages"@);
    lemma_opt_bool_entry_key("can_send_other_messages"@, m.permissions.can_send_other_messages, r);
    lemma_keys_reserved_append(opt_bool_entry("can_send_messages"@, m.permissions.can_send_messages) + opt_bool_entry("can_send_audios"@, m.permissions.can_send_audios) + opt_bool_entry("can_send_documents"@, m.permissions.can_send_documents) + opt_bool_entry("can_send_photos"@, m.permissions.can_send_photos) + opt_bool_entry("can_send_videos"@, m.permissions.can_send_videos) + opt_bool_entry("can_send_video_notes"@, m.permissions.can_send_video_notes) + opt_bool_entry("can_send_voice_notes"@, m.permissions.can_send_voice_notes) + opt_bool_entry("can_send_polls"@, m.permissions.can_send_polls), opt_bool_entry("can_send_other_messages"@, m.permissions.can_send_other_messages), r);
    assert(r[12]@ == "can_add_web_page_previews"@);
    lemma_opt_bool_entry_key("can_add_web_page_previews"@, m.permissions.can_add_web_page_previews, r);
    lemma_keys_reserved_append(opt_bool_entry("can_send_messages"@, m.permissions.can_send_messages) + opt_bool_entry("can_send_audios"@, m.permissions.can_send_audios) + opt_bool_entry("can_send_documents"@, m.permissions.can_send_documents) + opt_bool_entry("can_send_photos"@, m.permissions.can_send_photos) + opt_bool_entry("can_send_videos"@, m.permissions.can_send_videos) + opt_bool_entry("can_send_video_notes"@, m.permissions.can_send_video_notes) + opt_bool_entry("can_send_voice_notes"@, m.permissions.can_send_voice_notes) + opt_bool_entry("can_send_polls"@, m.permissions.can_send_polls) + opt_bool_entry("can_send_other_messages"@, m.permissions.can_send_other_messages), opt_bool_entry("can_add_web_page_previews"@, m.permissions.can_add_web_page_previews), r);
    assert(r[13]@ == "can_change_info"@);
    lemma_opt_bool_entry_key("can_change_info"@, m.permissions.can_change_info, r);
    lemma_keys_reserved_append(opt_bool_entry("can_send_messages"@, m.permissions.can_send_messages) + opt_bool_entry("can_send_audios"@, m.permissions.can_send_audios) + opt_bool_entry("can_send_documents"@, m.permissions.can_send_documents) + opt_bool_entry("can_send_photos"@, m.permissions.can_send_photos) + opt_bool_entry("can_send_videos"@, m.permissions.can_send_videos) + opt_bool_entry("can_send_video_notes"@, m.permissions.can_send_video_notes) + opt_bool_entry("can_send_voice_notes"@, m.permissions.can_send_voice_notes) + opt_bool_entry("can_send_polls"@, m.permissions.can_send_polls) + opt_bool_entry("can_send_other_messages"@, m.permissions.can_send_other_messages) + opt_bool_entry("can_add_web_page_previews"@, m.permissions.can_add_web_page_previews), opt_bool_entry("can_change_info"@, m.permissions.can_change_info), r);
    assert(r[14]@ == "can_invite_users"@);
    lemma_opt_bool_entry_key("can_invite_users"@, m.permissions.can_invite_users, r);
    lemma_keys_reserved_append(opt_bool_entry("can_send_messages"@, m.permissions.can_send_messages) + opt_bool_entry("can_send_audios"@, m.permissions.can_send_audios) + opt_bool_entry("can_send_documents"@, m.permissions.can_send_documents) + opt_bool_entry("can_send_photos"@, m.permissions.can_send_photos) + opt_bool_entry("can_send_videos"@, m.permissions.can_send_videos) + opt_bool_entry("can_send_video_notes"@, m.permissions.can_send_video_notes) + opt_bool_entry("can_send_voice_notes"@, m.permissions.can_send_voice_notes) + opt_bool_entry("can_send_polls"@, m.permissions.can_send_polls) + opt_bool_entry("can_send_other_messages"@, m.permissions.can_send_other_messages) + opt_bool_entry("can_add_web_page_previews"@, m.permissions.can_add_web_page_previews) + opt_bool_entry("can_change_info"@, m.permissions.can_change_info), opt_bool_entry("can_invite_users"@, m.permissions.can_invite_users), r);
    assert(r[15]@ == "can_pin_messages"@);
    lemma_opt_bool_entry_key("can_pin_messages"@, m.permissions.can_pin_messages, r);
    lemma_keys_reserved_append(opt_bool_entry("can_send_messages"@, m.permissions.can_send_messages) + opt_bool_entry("can_send_audios"@, m.permissions.can_send_audios) + opt_bool_entry("can_send_documents"@, m.permissions.can_send_documents) + opt_bool_entry("can_send_photos"@, m.permissions.can_send_photos) + opt_bool_entry("can_send_videos"@, m.permissions.can_send_videos) + opt_bool_entry("can_send_video_notes"@, m.permissions.can_send_video_notes) + opt_bool_entry("can_send_voice_notes"@, m.permissions.can_send_voice_notes) + opt_bool_entry("can_send_polls"@, m.permissions.can_send_polls) + opt_bool_entry("can_send_other_messages"@, m.permissions.can_send_other_messages) + opt_bool_entry("can_add_web_page_previews"@, m.permissions.can_add_web_page_previews) + opt_bool_entry("can_change_info"@, m.permissions.can_change_info) + opt_bool_entry("can_invite_users"@, m.permissions.can_invite_users), opt_bool_entry("can_pin_messages"@, m.permissions.can_pin_messages), r);
    assert(r[16]@ == "can_manage_topics"@);
    lemma_opt_bool_entry_key("can_manage_topics"@, m.permissions.can_manage_topics, r);
    lemma_keys_reserved_append(opt_bool_entry("can_send_messages"@, m.permissions.can_send_messages) + opt_bool_entry("can_send_audios"@, m.permissions.can_send_audios) + opt_bool_entry("can_send_documents"@, m.permissions.can_send_documents) + opt_bool_entry("can_send_photos"@, m.permissions.can_send_photos) + opt_bool_entry("can_send_videos"@, m.permissions.can_send_videos) + opt_bool_entry("can_send_video_notes"@, m.permissions.can_send_video_notes) + opt_bool_entry("can_send_voice_notes"@, m.permissions.can_send_voice_notes) + opt_bool_entry("can_send_polls"@, m.permissions.can_send_polls) + opt_bool_entry("can_send_other_messages"@, m.permissions.can_send_other_messages) + opt_bool_entry("can_add_web_page_previews"@, m.permissions.can_add_web_page_previews) + opt_bool_entry("can_change_info"@, m.permissions.can_change_info) + opt_bool_entry("can_invite_users"@, m.permissions.can_invite_users) + opt_bool_entry("can_pin_messages"@, m.permissions.can_pin_messages), opt_bool_entry("can_manage_topics"@, m.permissions.can_manage_topics), r);
    assert(chat_permission_entries(m.permissions) == opt_bool_entry("can_send_messages"@, m.permissions.can_send_messages) + opt_bool_entry("can_send_audios"@, m.permissions.can_send_audios) + opt_bool_entry("can_send_documents"@, m.permissions.can_send_documents) + opt_bool_entry("can_send_photos"@, m.permissions.can_send_photos) + opt_bool_entry("can_send_videos"@, m.permissions.can_send_videos) + opt_bool_entry("can_send_video_notes"@, m.permissions.can_send_video_notes) + opt_bool_entry("can_send_voice_notes"@, m.permissions.can_send_voice_notes) + opt_bool_entry("can_send_polls"@, m.permissions.can_send_polls) + opt_bool_entry("can_send_other_messages"@, m.permissions.can_send_other_messages) + opt_bool_entry("can_add_web_page_previews"@, m.permissions.can_add_web_page_previews) + opt_bool_entry("can_change_info"@, m.permissions.can_change_info) + opt_bool_entry("can_invite_users"@, m.permissions.can_invite_users) + opt_bool_entry("can_pin_messages"@, m.permissions.can_pin_messages) + opt_bool_entry("can_manage_topics"@, m.permissions.can_manage_topics));
    lemma_keys_reserved_append(seq![("user"@, JsonView::Object(user_entries(m.user)))] + opt_bool_entry("is_member"@, m.is_member), chat_permission_entries(m.permissions), r);
    assert(r[2]@ == "until_date"@);
    assert(keys_reserved(opt_int_entry("until_date"@, m.until_date), r));
    lemma_keys_reserved_append(seq![("user"@, JsonView::Object(user_entries(m.user)))] + opt_bool_entry("is_member"@, m.is_member) + chat_permission_entries(m.permissions), opt_int_entry("until_date"@, m.until_date), r);
}

/// In a serialized `restricted` member, the entries under the member's own keys are
/// exactly its typed fields, and every extra entry under another key is kept:
/// an extra field never replaces a typed one.
pub proof fn lemma_restricted_extra_cannot_override(m: ChatMemberRestricted)
    ensures
        forall|i: int|
            0 <= i < restricted_entries(m).len() ==> (is_reserved(
                #[trigger] restricted_entries(m)[i].0,
                restricted_reserved(),
            ) <==> i < restricted_core_entries(m).len()),
        forall|j: int|
            0 <= j < m.extra.pairs().len() && !is_reserved(#[trigger] m.extra.pairs()[j].0@, restricted_reserved())
                ==> restricted_entries(m).contains((m.extra.pairs()[j].0@, m.extra.pairs()[j].1.json())),
{
    lemma_restricted_core_keys_reserved(m);
    lemma_extra_never_overrides(restricted_core_entries(m), m.extra.pairs(), restricted_reserved());
}

/// The typed fields of a `left` member, in the order they are written.
pub open spec fn left_core_entries(m: ChatMemberLeft) -> Seq<(Seq<char>, JsonView)> {
    seq![("user"@, JsonView::Object(user_entries(m.user)))]
}

/// The entries of a serialized `left` member: its typed fields, then the extra
/// entries whose key no typed field uses.
pub open spec fn left_entries(m: ChatMemberLeft) -> Seq<(Seq<char>, JsonView)> {
    left_core_entries(m) + visible_extra(m.extra.pairs(), left_reserved())
}

proof fn lemma_left_core_keys_reserved(m: ChatMemberLeft)
    ensures
        keys_reserved(left_core_entries(m), left_reserved()),
{
    let r = left_reserved();
    assert(r[0]@ == "user"@);
    assert(keys_reserved(seq![("user"@, JsonView::Object(user_entries(m.user)))], r));
}

/// In a serialized `left` member, the entries under the member's own keys are
/// exactly its typed fields, and every extra entry under another key is kept:
/// an extra field never replaces a typed one.
pub proof fn lemma_left_extra_cannot_override(m: ChatMemberLeft)
    ensures
        forall|i: int|
            0 <= i < left_entries(m).len() ==> (is_reserved(
                #[trigger] left_entries(m)[i].0,
                left_reserved(),
            ) <==> i < left_core_entries(m).len()),
        forall|j: int|
            0 <= j < m.extra.pairs().len() && !is_reserved(#[trigger] m.extra.pairs()[j].0@, left_reserved())
                ==> left_entries(m).contains((m.extra.pairs()[j].0@, m.extra.pairs()[j].1.json())),
{
    lemma_left_core_keys_reserved(m);
    lemma_extra_never_overrides(left_core_entries(m), m.extra.pairs(), left_reserved());
}

/// The typed fields of a `banned` member, in the order they are written.
pub open spec fn banned_core_entries(m: ChatMemberBanned) -> Seq<(Seq<char>, JsonView)> {
    seq![("user"@, JsonView::Object(user_entries(m.user)))]
        + opt_int_entry("until_date"@, m.until_date)
}

/// The entries of a serialized `banned` member: its typed fields, then the extra
/// entries whose key no typed field uses.
pub open spec fn banned_entries(m: ChatMemberBanned) -> Seq<(Seq<char>, JsonView)> {
    banned_core_entries(m) + visible_extra(m.extra.pairs(), banned_reserved())
}

proof fn lemma_banned_core_keys_reserved(m: ChatMemberBanned)
    ensures
        keys_reserved(banned_core_entries(m), banned_reserved()),
{
    let r = banned_reserved();
    assert(r[0]@ == "user"@);
    assert(keys_reserved(seq![("user"@, JsonView::Object(user_entries(m.user)))], r));
    assert(r[1]@ == "until_date"@);
    assert(keys_reserved(opt_int_entry("until_date"@, m.until_date), r));
    lemma_keys_reserved_append(seq![("user"@, JsonView::Object(user_entries(m.user)))], opt_int_entry("until_date"@, m.until_date), r);
}

/// In a serialized `banned` member, the entries under the member's own keys are
/// exactly its typed fields, and every extra entry under another key is kept:
/// an extra field never replaces a typed one.
pub proof fn lemma_banned_extra_cannot_override(m: ChatMemberBanned)
    ensures
        forall|i: int|
            0 <= i < banned_entries(m).len() ==> (is_reserved(
                #[trigger] banned_entries(m)[i].0,
                banned_reserved(),
            ) <==> i < banned_core_entries(m).len()),
        forall|j: int|
            0 <= j < m.extra.pairs().len() && !is_reserved(#[trigger] m.extra.pairs()[j].0@, banned_reserved())
                ==> banned_entries(m).contains((m.extra.pairs()[j].0@, m.extra.pairs()[j].1.json())),
{
    lemma_banned_core_keys_reserved(m);
    lemma_extra_never_overrides(banned_core_entries(m), m.extra.pairs(), banned_reserved());
}

/// A value with its tag entry taken out: an object loses every entry under
/// `key`; any other value is left as it is.
pub open spec fn strip_tag_spec(value: JsonView, key: Seq<char>) -> JsonView {
    match value {
        JsonView::Object(entries) => JsonView::Object(without_key(entries, key)),
        _ => value,
    }
}

/// Takes the tag entry out of a tagged object before its payload is read.
pub fn strip_tag(value: &JsonValue, key: &str) -> (r: JsonValue)
    ensures
        r.json() == strip_tag_spec(value.json(), key@),
{
    match value {
        JsonValue::Object(entries) => {
            assert(value.json()->Object_0 =~= pairs_view(entries@));
            let mut out: Vec<(String, JsonValue)> = Vec::new();
            assert(pairs_view(out@) =~= Seq::<(Seq<char>, JsonView)>::empty());
            copy_without_key(entries, key, &mut out);
            assert(pairs_view(out@) =~= without_key(pairs_view(entries@), key@));
            let r = JsonValue::Object(out);
            assert(r.json()->Object_0 =~= pairs_view(out@));
            r
        },
        _ => value.copy(),
    }
}

/// What a chat member read from JSON is built from: a known status with the
/// fields that remain once the `status` tag is taken out, or, for a missing or
/// unknown status, the whole value as it came.
#[derive(Debug)]
pub enum ChatMemberPayload {
    Known(ChatMemberStatus, JsonValue),
    Unknown(JsonValue),
}

/// Whether a status is one of the six this model knows.
pub open spec fn is_known_status(status: ChatMemberStatus) -> bool {
    !(status is Unknown)
}

impl ChatMemberPayload {
    /// Picks the variant of a chat member from its `status` tag. A known status
    /// gets the value without the tag; anything else keeps the whole value.
    pub fn of_value(value: &JsonValue) -> (r: ChatMemberPayload)
        ensures
            match r {
                ChatMemberPayload::Known(status, payload) => {
                    &&& tagged_field_spec(value.json(), "status"@) matches Some(name)
                        && status_matches(name, status)
                    &&& is_known_status(status)
                    &&& payload.json() == strip_tag_spec(value.json(), "status"@)
                },
                ChatMemberPayload::Unknown(whole) => {
                    &&& whole.json() == value.json()
                    &&& forall|status: ChatMemberStatus|
                        #![trigger status_matches(tagged_field_spec(value.json(), "status"@)->0, status)]
                        tagged_field_spec(value.json(), "status"@) is Some
                            && status_matches(tagged_field_spec(value.json(), "status"@)->0, status)
                            ==> !is_known_status(status)
                },
            },
    {
        match tagged_field(value, "status") {
            Some(name) => {
                let status = ChatMemberStatus::parse(name);
                match status {
                    ChatMemberStatus::Unknown(_) => ChatMemberPayload::Unknown(value.copy()),
                    _ => ChatMemberPayload::Known(status, strip_tag(value, "status")),
                }
            },
            None => ChatMemberPayload::Unknown(value.copy()),
        }
    }
}

} // verus!
