use vstd::prelude::*;

use crate::bot::{opt_text_entry, push_opt_text};
use crate::json::{
    append_extra_fields, flag_entry, is_reserved, keys_reserved, lemma_extra_never_overrides,
    lemma_keys_reserved_append, pairs_view, push_entry, push_flag, visible_extra, JsonMap, JsonValue, JsonView,
};

verus! {

/// Telegram forum topic object.
#[derive(Debug)]
pub struct ForumTopic {
    pub message_thread_id: i64,
    pub name: String,
    pub icon_color: u32,
    pub icon_custom_emoji_id: Option<String>,
    /// Fields of the response that this model does not name.
    pub extra: JsonMap,
}

/// The keys that the typed fields of a `ForumTopic` occupy.
pub open spec fn forum_topic_reserved() -> Seq<&'static str> {
    seq!["message_thread_id", "name", "icon_color", "icon_custom_emoji_id"]
}

fn forum_topic_reserved_keys() -> (r: [&'static str; 4])
    ensures
        r@ == forum_topic_reserved(),
{
    let r = ["message_thread_id", "name", "icon_color", "icon_custom_emoji_id"];
    assert(r@ =~= forum_topic_reserved());
    r
}

/// The typed fields of a `ForumTopic`, in the order they are written.
pub open spec fn forum_topic_core_entries(m: ForumTopic) -> Seq<(Seq<char>, JsonView)> {
    seq![("message_thread_id"@, JsonView::Int(m.message_thread_id))]
        + seq![("name"@, JsonView::Text(m.name@))]
        + seq![("icon_color"@, JsonView::UInt(m.icon_color as u64))]
        + opt_text_entry("icon_custom_emoji_id"@, m.icon_custom_emoji_id)
}

/// The entries of a serialized `ForumTopic`: its typed fields, then the extra
/// entries whose key no typed field uses.
pub open spec fn forum_topic_entries(m: ForumTopic) -> Seq<(Seq<char>, JsonView)> {
    forum_topic_core_entries(m) + visible_extra(m.extra.pairs(), forum_topic_reserved())
}

impl ForumTopic {
    /// The entries Telegram receives for this value.
    pub fn to_entries(&self) -> (r: Vec<(String, JsonValue)>)
        ensures
            pairs_view(r@) == forum_topic_entries(*self),
    {
        let mut out: Vec<(String, JsonValue)> = Vec::new();
        assert(pairs_view(out@) =~= Seq::<(Seq<char>, JsonView)>::empty());
        push_entry(&mut out, "message_thread_id", JsonValue::Int(self.message_thread_id));
        push_entry(&mut out, "name", JsonValue::Text(self.name.clone()));
        push_entry(&mut out, "icon_color", JsonValue::UInt(self.icon_color as u64));
        push_opt_text(&mut out, "icon_custom_emoji_id", &self.icon_custom_emoji_id);
        let reserved = forum_topic_reserved_keys();
        append_extra_fields(&mut out, &self.extra, &reserved);
        assert(pairs_view(out@) =~= forum_topic_entries(*self));
        out
    }
}

proof fn lemma_forum_topic_core_keys_reserved(m: ForumTopic)
    ensures
        keys_reserved(forum_topic_core_entries(m), forum_topic_reserved()),
{
    let r = forum_topic_reserved();
    assert(r[0]@ == "message_thread_id"@);
    assert(keys_reserved(seq![("message_thread_id"@, JsonView::Int(m.message_thread_id))], r));
    assert(r[1]@ == "name"@);
    assert(keys_reserved(seq![("name"@, JsonView::Text(m.name@))], r));
    lemma_keys_reserved_append(seq![("message_thread_id"@, JsonView::Int(m.message_thread_id))], seq![("name"@, JsonView::Text(m.name@))], r);
    assert(r[2]@ == "icon_color"@);
    assert(keys_reserved(seq![("icon_color"@, JsonView::UInt(m.icon_color as u64))], r));
    lemma_keys_reserved_append(seq![("message_thread_id"@, JsonView::Int(m.message_thread_id))] + seq![("name"@, JsonView::Text(m.name@))], seq![("icon_color"@, JsonView::UInt(m.icon_color as u64))], r);
    assert(r[3]@ == "icon_custom_emoji_id"@);
    assert(keys_reserved(opt_text_entry("icon_custom_emoji_id"@, m.icon_custom_emoji_id), r));
    lemma_keys_reserved_append(seq![("message_thread_id"@, JsonView::Int(m.message_thread_id))] + seq![("name"@, JsonView::Text(m.name@))] + seq![("icon_color"@, JsonView::UInt(m.icon_color as u64))], opt_text_entry("icon_custom_emoji_id"@, m.icon_custom_emoji_id), r);
}

/// In a serialized `ForumTopic`, the entries under its own keys are exactly its
/// typed fields, and every extra entry under another key is kept: an extra
/// field never replaces a typed one.
pub proof fn lemma_forum_topic_extra_cannot_override(m: ForumTopic)
    ensures
        forall|i: int|
            0 <= i < forum_topic_entries(m).len() ==> (is_reserved(
                #[trigger] forum_topic_entries(m)[i].0,
                forum_topic_reserved(),
            ) <==> i < forum_topic_core_entries(m).len()),
        forall|j: int|
            0 <= j < m.extra.pairs().len() && !is_reserved(#[trigger] m.extra.pairs()[j].0@, forum_topic_reserved())
                ==> forum_topic_entries(m).contains((m.extra.pairs()[j].0@, m.extra.pairs()[j].1.json())),
{
    lemma_forum_topic_core_keys_reserved(m);
    lemma_extra_never_overrides(forum_topic_core_entries(m), m.extra.pairs(), forum_topic_reserved());
}

/// Service message: a forum topic was created.
#[derive(Debug)]
pub struct ForumTopicCreated {
    pub name: String,
    pub icon_color: u32,
    pub icon_custom_emoji_id: Option<String>,
    pub is_name_implicit: bool,
    /// Fields of the response that this model does not name.
    pub extra: JsonMap,
}

/// The keys that the typed fields of a `ForumTopicCreated` occupy.
pub open spec fn forum_topic_created_reserved() -> Seq<&'static str> {
    seq!["name", "icon_color", "icon_custom_emoji_id", "is_name_implicit"]
}

fn forum_topic_created_reserved_keys() -> (r: [&'static str; 4])
    ensures
        r@ == forum_topic_created_reserved(),
{
    let r = ["name", "icon_color", "icon_custom_emoji_id", "is_name_implicit"];
    assert(r@ =~= forum_topic_created_reserved());
    r
}

/// The typed fields of a `ForumTopicCreated`, in the order they are written.
pub open spec fn forum_topic_created_core_entries(m: ForumTopicCreated) -> Seq<(Seq<char>, JsonView)> {
    seq![("name"@, JsonView::Text(m.name@))]
        + seq![("icon_color"@, JsonView::UInt(m.icon_color as u64))]
        + opt_text_entry("icon_custom_emoji_id"@, m.icon_custom_emoji_id)
        + flag_entry("is_name_implicit"@, m.is_name_implicit)
}

/// The entries of a serialized `ForumTopicCreated`: its typed fields, then the extra
/// entries whose key no typed field uses.
pub open spec fn forum_topic_created_entries(m: ForumTopicCreated) -> Seq<(Seq<char>, JsonView)> {
    forum_topic_created_core_entries(m) + visible_extra(m.extra.pairs(), forum_topic_created_reserved())
}

impl ForumTopicCreated {
    /// The entries Telegram receives for this value.
    pub fn to_entries(&self) -> (r: Vec<(String, JsonValue)>)
        ensures
            pairs_view(r@) == forum_topic_created_entries(*self),
    {
        let mut out: Vec<(String, JsonValue)> = Vec::new();
        assert(pairs_view(out@) =~= Seq::<(Seq<char>, JsonView)>::empty());
        push_entry(&mut out, "name", JsonValue::Text(self.name.clone()));
        push_entry(&mut out, "icon_color", JsonValue::UInt(self.icon_color as u64));
        push_opt_text(&mut out, "icon_custom_emoji_id", &self.icon_custom_emoji_id);
        push_flag(&mut out, "is_name_implicit", self.is_name_implicit);
        let reserved = forum_topic_created_reserved_keys();
        append_extra_fields(&mut out, &self.extra, &reserved);
        assert(pairs_view(out@) =~= forum_topic_created_entries(*self));
        out
    }
}

proof fn lemma_forum_topic_created_core_keys_reserved(m: ForumTopicCreated)
    ensures
        keys_reserved(forum_topic_created_core_entries(m), forum_topic_created_reserved()),
{
    let r = forum_topic_created_reserved();
    assert(r[0]@ == "name"@);
    assert(keys_reserved(seq![("name"@, JsonView::Text(m.name@))], r));
    assert(r[1]@ == "icon_color"@);
    assert(keys_reserved(seq![("icon_color"@, JsonView::UInt(m.icon_color as u64))], r));
    lemma_keys_reserved_append(seq![("name"@, JsonView::Text(m.name@))], seq![("icon_color"@, JsonView::UInt(m.icon_color as u64))], r);
    assert(r[2]@ == "icon_custom_emoji_id"@);
    assert(keys_reserved(opt_text_entry("icon_custom_emoji_id"@, m.icon_custom_emoji_id), r));
    lemma_keys_reserved_append(seq![("name"@, JsonView::Text(m.name@))] + seq![("icon_color"@, JsonView::UInt(m.icon_color as u64))], opt_text_entry("icon_custom_emoji_id"@, m.icon_custom_emoji_id), r);
    assert(r[3]@ == "is_name_implicit"@);
    assert(keys_reserved(flag_entry("is_name_implicit"@, m.is_name_implicit), r));
    lemma_keys_reserved_append(seq![("name"@, JsonView::Text(m.name@))] + seq![("icon_color"@, JsonView::UInt(m.icon_color as u64))] + opt_text_entry("icon_custom_emoji_id"@, m.icon_custom_emoji_id), flag_entry("is_name_implicit"@, m.is_name_implicit), r);
}

/// In a serialized `ForumTopicCreated`, the entries under its own keys are exactly its
/// typed fields, and every extra entry under another key is kept: an extra
/// field never replaces a typed one.
pub proof fn lemma_forum_topic_created_extra_cannot_override(m: ForumTopicCreated)
    ensures
        forall|i: int|
            0 <= i < forum_topic_created_entries(m).len() ==> (is_reserved(
                #[trigger] forum_topic_created_entries(m)[i].0,
                forum_topic_created_reserved(),
            ) <==> i < forum_topic_created_core_entries(m).len()),
        forall|j: int|
            0 <= j < m.extra.pairs().len() && !is_reserved(#[trigger] m.extra.pairs()[j].0@, forum_topic_created_reserved())
                ==> forum_topic_created_entries(m).contains((m.extra.pairs()[j].0@, m.extra.pairs()[j].1.json())),
{
    lemma_forum_topic_created_core_keys_reserved(m);
    lemma_extra_never_overrides(forum_topic_created_core_entries(m), m.extra.pairs(), forum_topic_created_reserved());
}

/// Service message: a forum topic was edited.
#[derive(Debug)]
pub struct ForumTopicEdited {
    pub name: Option<String>,
    pub icon_custom_emoji_id: Option<String>,
    /// Fields of the response that this model does not name.
    pub extra: JsonMap,
}

/// The keys that the typed fields of a `ForumTopicEdited` occupy.
pub open spec fn forum_topic_edited_reserved() -> Seq<&'static str> {
    seq!["name", "icon_custom_emoji_id"]
}

fn forum_topic_edited_reserved_keys() -> (r: [&'static str; 2])
    ensures
        r@ == forum_topic_edited_reserved(),
{
    let r = ["name", "icon_custom_emoji_id"];
    assert(r@ =~= forum_topic_edited_reserved());
    r
}

/// The typed fields of a `ForumTopicEdited`, in the order they are written.
pub open spec fn forum_topic_edited_core_entries(m: ForumTopicEdited) -> Seq<(Seq<char>, JsonView)> {
    opt_text_entry("name"@, m.name)
        + opt_text_entry("icon_custom_emoji_id"@, m.icon_custom_emoji_id)
}

/// The entries of a serialized `ForumTopicEdited`: its typed fields, then the extra
/// entries whose key no typed field uses.
pub open spec fn forum_topic_edited_entries(m: ForumTopicEdited) -> Seq<(Seq<char>, JsonView)> {
    forum_topic_edited_core_entries(m) + visible_extra(m.extra.pairs(), forum_topic_edited_reserved())
}

impl ForumTopicEdited {
    /// The entries Telegram receives for this value.
    pub fn to_entries(&self) -> (r: Vec<(String, JsonValue)>)
        ensures
            pairs_view(r@) == forum_topic_edited_entries(*self),
    {
        let mut out: Vec<(String, JsonValue)> = Vec::new();
        assert(pairs_view(out@) =~= Seq::<(Seq<char>, JsonView)>::empty());
        push_opt_text(&mut out, "name", &self.name);
        push_opt_text(&mut out, "icon_custom_emoji_id", &self.icon_custom_emoji_id);
        let reserved = forum_topic_edited_reserved_keys();
        append_extra_fields(&mut out, &self.extra, &reserved);
        assert(pairs_view(out@) =~= forum_topic_edited_entries(*self));
        out
    }
}

proof fn lemma_forum_topic_edited_core_keys_reserved(m: ForumTopicEdited)
    ensures
        keys_reserved(forum_topic_edited_core_entries(m), forum_topic_edited_reserved()),
{
    let r = forum_topic_edited_reserved();
    assert(r[0]@ == "name"@);
    assert(keys_reserved(opt_text_entry("name"@, m.name), r));
    assert(r[1]@ == "icon_custom_emoji_id"@);
    assert(keys_reserved(opt_text_entry("icon_custom_emoji_id"@, m.icon_custom_emoji_id), r));
    lemma_keys_reserved_append(opt_text_entry("name"@, m.name), opt_text_entry("icon_custom_emoji_id"@, m.icon_custom_emoji_id), r);
}

/// In a serialized `ForumTopicEdited`, the entries under its own keys are exactly its
/// typed fields, and every extra entry under another key is kept: an extra
/// field never replaces a typed one.
pub proof fn lemma_forum_topic_edited_extra_cannot_override(m: ForumTopicEdited)
    ensures
        forall|i: int|
            0 <= i < forum_topic_edited_entries(m).len() ==> (is_reserved(
                #[trigger] forum_topic_edited_entries(m)[i].0,
                forum_topic_edited_reserved(),
            ) <==> i < forum_topic_edited_core_entries(m).len()),
        forall|j: int|
            0 <= j < m.extra.pairs().len() && !is_reserved(#[trigger] m.extra.pairs()[j].0@, forum_topic_edited_reserved())
                ==> forum_topic_edited_entries(m).contains((m.extra.pairs()[j].0@, m.extra.pairs()[j].1.json())),
{
    lemma_forum_topic_edited_core_keys_reserved(m);
    lemma_extra_never_overrides(forum_topic_edited_core_entries(m), m.extra.pairs(), forum_topic_edited_reserved());
}

/// Service message: a forum topic was closed.
#[derive(Debug)]
pub struct ForumTopicClosed {
    /// Fields of the response that this model does not name.
    pub extra: JsonMap,
}

/// The keys that the typed fields of a `ForumTopicClosed` occupy.
pub open spec fn forum_topic_closed_reserved() -> Seq<&'static str> {
    seq![]
}

fn forum_topic_closed_reserved_keys() -> (r: [&'static str; 0])
    ensures
        r@ == forum_topic_closed_reserved(),
{
    let r = [];
    assert(r@ =~= forum_topic_closed_reserved());
    r
}

/// The typed fields of a `ForumTopicClosed`, in the order they are written.
pub open spec fn forum_topic_closed_core_entries(m: ForumTopicClosed) -> Seq<(Seq<char>, JsonView)> {
    Seq::empty()
}

/// The entries of a serialized `ForumTopicClosed`: its typed fields, then the extra
/// entries whose key no typed field uses.
pub open spec fn forum_topic_closed_entries(m: ForumTopicClosed) -> Seq<(Seq<char>, JsonView)> {
    forum_topic_closed_core_entries(m) + visible_extra(m.extra.pairs(), forum_topic_closed_reserved())
}

impl ForumTopicClosed {
    /// The entries Telegram receives for this value.
    pub fn to_entries(&self) -> (r: Vec<(String, JsonValue)>)
        ensures
            pairs_view(r@) == forum_topic_closed_entries(*self),
    {
        let mut out: Vec<(String, JsonValue)> = Vec::new();
        assert(pairs_view(out@) =~= Seq::<(Seq<char>, JsonView)>::empty());
        let reserved = forum_topic_closed_reserved_keys();
        append_extra_fields(&mut out, &self.extra, &reserved);
        assert(pairs_view(out@) =~= forum_topic_closed_entries(*self));
        out
    }
}

proof fn lemma_forum_topic_closed_core_keys_reserved(m: ForumTopicClosed)
    ensures
        keys_reserved(forum_topic_closed_core_entries(m), forum_topic_closed_reserved()),
{
    let r = forum_topic_closed_reserved();
    assert(keys_reserved(forum_topic_closed_core_entries(m), r));
}

/// In a serialized `ForumTopicClosed`, the entries under its own keys are exactly its
/// typed fields, and every extra entry under another key is kept: an extra
/// field never replaces a typed one.
pub proof fn lemma_forum_topic_closed_extra_cannot_override(m: ForumTopicClosed)
    ensures
        forall|i: int|
            0 <= i < forum_topic_closed_entries(m).len() ==> (is_reserved(
                #[trigger] forum_topic_closed_entries(m)[i].0,
                forum_topic_closed_reserved(),
            ) <==> i < forum_topic_closed_core_entries(m).len()),
        forall|j: int|
            0 <= j < m.extra.pairs().len() && !is_reserved(#[trigger] m.extra.pairs()[j].0@, forum_topic_closed_reserved())
                ==> forum_topic_closed_entries(m).contains((m.extra.pairs()[j].0@, m.extra.pairs()[j].1.json())),
{
    lemma_forum_topic_closed_core_keys_reserved(m);
    lemma_extra_never_overrides(forum_topic_closed_core_entries(m), m.extra.pairs(), forum_topic_closed_reserved());
}

/// Service message: a forum topic was reopened.
#[derive(Debug)]
pub struct ForumTopicReopened {
    /// Fields of the response that this model does not name.
    pub extra: JsonMap,
}

/// The keys that the typed fields of a `ForumTopicReopened` occupy.
pub open spec fn forum_topic_reopened_reserved() -> Seq<&'static str> {
    seq![]
}

fn forum_topic_reopened_reserved_keys() -> (r: [&'static str; 0])
    ensures
        r@ == forum_topic_reopened_reserved(),
{
    let r = [];
    assert(r@ =~= forum_topic_reopened_reserved());
    r
}

/// The typed fields of a `ForumTopicReopened`, in the order they are written.
pub open spec fn forum_topic_reopened_core_entries(m: ForumTopicReopened) -> Seq<(Seq<char>, JsonView)> {
    Seq::empty()
}

/// The entries of a serialized `ForumTopicReopened`: its typed fields, then the extra
/// entries whose key no typed field uses.
pub open spec fn forum_topic_reopened_entries(m: ForumTopicReopened) -> Seq<(Seq<char>, JsonView)> {
    forum_topic_reopened_core_entries(m) + visible_extra(m.extra.pairs(), forum_topic_reopened_reserved())
}

impl ForumTopicReopened {
    /// The entries Telegram receives for this value.
    pub fn to_entries(&self) -> (r: Vec<(String, JsonValue)>)
        ensures
            pairs_view(r@) == forum_topic_reopened_entries(*self),
    {
        let mut out: Vec<(String, JsonValue)> = Vec::new();
        assert(pairs_view(out@) =~= Seq::<(Seq<char>, JsonView)>::empty());
        let reserved = forum_topic_reopened_reserved_keys();
        append_extra_fields(&mut out, &self.extra, &reserved);
        assert(pairs_view(out@) =~= forum_topic_reopened_entries(*self));
        out
    }
}

proof fn lemma_forum_topic_reopened_core_keys_reserved(m: ForumTopicReopened)
    ensures
        keys_reserved(forum_topic_reopened_core_entries(m), forum_topic_reopened_reserved()),
{
    let r = forum_topic_reopened_reserved();
    assert(keys_reserved(forum_topic_reopened_core_entries(m), r));
}

/// In a serialized `ForumTopicReopened`, the entries under its own keys are exactly its
/// typed fields, and every extra entry under another key is kept: an extra
/// field never replaces a typed one.
pub proof fn lemma_forum_topic_reopened_extra_cannot_override(m: ForumTopicReopened)
    ensures
        forall|i: int|
            0 <= i < forum_topic_reopened_entries(m).len() ==> (is_reserved(
                #[trigger] forum_topic_reopened_entries(m)[i].0,
                forum_topic_reopened_reserved(),
            ) <==> i < forum_topic_reopened_core_entries(m).len()),
        forall|j: int|
            0 <= j < m.extra.pairs().len() && !is_reserved(#[trigger] m.extra.pairs()[j].0@, forum_topic_reopened_reserved())
                ==> forum_topic_reopened_entries(m).contains((m.extra.pairs()[j].0@, m.extra.pairs()[j].1.json())),
{
    lemma_forum_topic_reopened_core_keys_reserved(m);
    lemma_extra_never_overrides(forum_topic_reopened_core_entries(m), m.extra.pairs(), forum_topic_reopened_reserved());
}

/// Service message: the General topic was hidden.
#[derive(Debug)]
pub struct GeneralForumTopicHidden {
    /// Fields of the response that this model does not name.
    pub extra: JsonMap,
}

/// The keys that the typed fields of a `GeneralForumTopicHidden` occupy.
pub open spec fn general_forum_topic_hidden_reserved() -> Seq<&'static str> {
    seq![]
}

fn general_forum_topic_hidden_reserved_keys() -> (r: [&'static str; 0])
    ensures
        r@ == general_forum_topic_hidden_reserved(),
{
    let r = [];
    assert(r@ =~= general_forum_topic_hidden_reserved());
    r
}

/// The typed fields of a `GeneralForumTopicHidden`, in the order they are written.
pub open spec fn general_forum_topic_hidden_core_entries(m: GeneralForumTopicHidden) -> Seq<(Seq<char>, JsonView)> {
    Seq::empty()
}

/// The entries of a serialized `GeneralForumTopicHidden`: its typed fields, then the extra
/// entries whose key no typed field uses.
pub open spec fn general_forum_topic_hidden_entries(m: GeneralForumTopicHidden) -> Seq<(Seq<char>, JsonView)> {
    general_forum_topic_hidden_core_entries(m) + visible_extra(m.extra.pairs(), general_forum_topic_hidden_reserved())
}

impl GeneralForumTopicHidden {
    /// The entries Telegram receives for this value.
    pub fn to_entries(&self) -> (r: Vec<(String, JsonValue)>)
        ensures
            pairs_view(r@) == general_forum_topic_hidden_entries(*self),
    {
        let mut out: Vec<(String, JsonValue)> = Vec::new();
        assert(pairs_view(out@) =~= Seq::<(Seq<char>, JsonView)>::empty());
        let reserved = general_forum_topic_hidden_reserved_keys();
        append_extra_fields(&mut out, &self.extra, &reserved);
        assert(pairs_view(out@) =~= general_forum_topic_hidden_entries(*self));
        out
    }
}

proof fn lemma_general_forum_topic_hidden_core_keys_reserved(m: GeneralForumTopicHidden)
    ensures
        keys_reserved(general_forum_topic_hidden_core_entries(m), general_forum_topic_hidden_reserved()),
{
    let r = general_forum_topic_hidden_reserved();
    assert(keys_reserved(general_forum_topic_hidden_core_entries(m), r));
}

/// In a serialized `GeneralForumTopicHidden`, the entries under its own keys are exactly its
/// typed fields, and every extra entry under another key is kept: an extra
/// field never replaces a typed one.
pub proof fn lemma_general_forum_topic_hidden_extra_cannot_override(m: GeneralForumTopicHidden)
    ensures
        forall|i: int|
            0 <= i < general_forum_topic_hidden_entries(m).len() ==> (is_reserved(
                #[trigger] general_forum_topic_hidden_entries(m)[i].0,
                general_forum_topic_hidden_reserved(),
            ) <==> i < general_forum_topic_hidden_core_entries(m).len()),
        forall|j: int|
            0 <= j < m.extra.pairs().len() && !is_reserved(#[trigger] m.extra.pairs()[j].0@, general_forum_topic_hidden_reserved())
                ==> general_forum_topic_hidden_entries(m).contains((m.extra.pairs()[j].0@, m.extra.pairs()[j].1.json())),
{
    lemma_general_forum_topic_hidden_core_keys_reserved(m);
    lemma_extra_never_overrides(general_forum_topic_hidden_core_entries(m), m.extra.pairs(), general_forum_topic_hidden_reserved());
}

/// Service message: the General topic was unhidden.
#[derive(Debug)]
pub struct GeneralForumTopicUnhidden {
    /// Fields of the response that this model does not name.
    pub extra: JsonMap,
}

/// The keys that the typed fields of a `GeneralForumTopicUnhidden` occupy.
pub open spec fn general_forum_topic_unhidden_reserved() -> Seq<&'static str> {
    seq![]
}

fn general_forum_topic_unhidden_reserved_keys() -> (r: [&'static str; 0])
    ensures
        r@ == general_forum_topic_unhidden_reserved(),
{
    let r = [];
    assert(r@ =~= general_forum_topic_unhidden_reserved());
    r
}

/// The typed fields of a `GeneralForumTopicUnhidden`, in the order they are written.
pub open spec fn general_forum_topic_unhidden_core_entries(m: GeneralForumTopicUnhidden) -> Seq<(Seq<char>, JsonView)> {
    Seq::empty()
}

/// The entries of a serialized `GeneralForumTopicUnhidden`: its typed fields, then the extra
/// entries whose key no typed field uses.
pub open spec fn general_forum_topic_unhidden_entries(m: GeneralForumTopicUnhidden) -> Seq<(Seq<char>, JsonView)> {
    general_forum_topic_unhidden_core_entries(m) + visible_extra(m.extra.pairs(), general_forum_topic_unhidden_reserved())
}

impl GeneralForumTopicUnhidden {
    /// The entries Telegram receives for this value.
    pub fn to_entries(&self) -> (r: Vec<(String, JsonValue)>)
        ensures
            pairs_view(r@) == general_forum_topic_unhidden_entries(*self),
    {
        let mut out: Vec<(String, JsonValue)> = Vec::new();
        assert(pairs_view(out@) =~= Seq::<(Seq<char>, JsonView)>::empty());
        let reserved = general_forum_topic_unhidden_reserved_keys();
        append_extra_fields(&mut out, &self.extra, &reserved);
        assert(pairs_view(out@) =~= general_forum_topic_unhidden_entries(*self));
        out
    }
}

proof fn lemma_general_forum_topic_unhidden_core_keys_reserved(m: GeneralForumTopicUnhidden)
    ensures
        keys_reserved(general_forum_topic_unhidden_core_entries(m), general_forum_topic_unhidden_reserved()),
{
    let r = general_forum_topic_unhidden_reserved();
    assert(keys_reserved(general_forum_topic_unhidden_core_entries(m), r));
}

/// In a serialized `GeneralForumTopicUnhidden`, the entries under its own keys are exactly its
/// typed fields, and every extra entry under another key is kept: an extra
/// field never replaces a typed one.
pub proof fn lemma_general_forum_topic_unhidden_extra_cannot_override(m: GeneralForumTopicUnhidden)
    ensures
        forall|i: int|
            0 <= i < general_forum_topic_unhidden_entries(m).len() ==> (is_reserved(
                #[trigger] general_forum_topic_unhidden_entries(m)[i].0,
                general_forum_topic_unhidden_reserved(),
            ) <==> i < general_forum_topic_unhidden_core_entries(m).len()),
        forall|j: int|
            0 <= j < m.extra.pairs().len() && !is_reserved(#[trigger] m.extra.pairs()[j].0@, general_forum_topic_unhidden_reserved())
                ==> general_forum_topic_unhidden_entries(m).contains((m.extra.pairs()[j].0@, m.extra.pairs()[j].1.json())),
{
    lemma_general_forum_topic_unhidden_core_keys_reserved(m);
    lemma_extra_never_overrides(general_forum_topic_unhidden_core_entries(m), m.extra.pairs(), general_forum_topic_unhidden_reserved());
}
} // verus!
