use vstd::prelude::*;

use crate::json::{
    append_extra_fields, first_entry, first_value, flag_entry, is_reserved, keys_reserved, lemma_extra_never_overrides,
    lemma_keys_reserved_append, lemma_opt_json_entry_key, opt_int_entry, opt_json_entry, pairs_view, push_entry, push_flag, push_object,
    push_opt_int, push_opt_json, visible_extra, JsonMap, JsonValue, JsonView,
};
use crate::common::MessageId;
use crate::message::common::{chat_entries, Chat};
use crate::message::model::Message;
use crate::text::str_eq;
use crate::message::common::{entities_json, entities_to_json, MessageEntity};
use crate::message::payments::{invoice_entries, Invoice};

verus! {

/// The quoted part of a message that a reply refers to.
#[derive(Debug)]
pub struct TextQuote {
    pub text: String,
    pub entities: Option<Vec<MessageEntity>>,
    pub position: u32,
    pub is_manual: bool,
    /// Fields of the response that this model does not name.
    pub extra: JsonMap,
}

/// The keys that the typed fields of a `TextQuote` occupy.
pub open spec fn text_quote_reserved() -> Seq<&'static str> {
    seq!["text", "entities", "position", "is_manual"]
}

fn text_quote_reserved_keys() -> (r: [&'static str; 4])
    ensures
        r@ == text_quote_reserved(),
{
    let r = ["text", "entities", "position", "is_manual"];
    assert(r@ =~= text_quote_reserved());
    r
}

/// The typed fields of a `TextQuote`, in the order they are written.
pub open spec fn text_quote_core_entries(m: TextQuote) -> Seq<(Seq<char>, JsonView)> {
    seq![("text"@, JsonView::Text(m.text@))]
        + match m.entities { Some(v) => seq![("entities"@, entities_json(v@))], None => Seq::empty() }
        + seq![("position"@, JsonView::UInt(m.position as u64))]
        + flag_entry("is_manual"@, m.is_manual)
}

/// The entries of a serialized `TextQuote`: its typed fields, then the extra
/// entries whose key no typed field uses.
pub open spec fn text_quote_entries(m: TextQuote) -> Seq<(Seq<char>, JsonView)> {
    text_quote_core_entries(m) + visible_extra(m.extra.pairs(), text_quote_reserved())
}

impl TextQuote {
    /// The entries Telegram receives for this value.
    pub fn to_entries(&self) -> (r: Vec<(String, JsonValue)>)
        ensures
            pairs_view(r@) == text_quote_entries(*self),
    {
        let mut out: Vec<(String, JsonValue)> = Vec::new();
        assert(pairs_view(out@) =~= Seq::<(Seq<char>, JsonView)>::empty());
        push_entry(&mut out, "text", JsonValue::Text(self.text.clone()));
        if let Some(v) = &self.entities { push_entry(&mut out, "entities", entities_to_json(v)); }
        push_entry(&mut out, "position", JsonValue::UInt(self.position as u64));
        push_flag(&mut out, "is_manual", self.is_manual);
        let reserved = text_quote_reserved_keys();
        append_extra_fields(&mut out, &self.extra, &reserved);
        assert(pairs_view(out@) =~= text_quote_entries(*self));
        out
    }
}

proof fn lemma_text_quote_core_keys_reserved(m: TextQuote)
    ensures
        keys_reserved(text_quote_core_entries(m), text_quote_reserved()),
{
    let r = text_quote_reserved();
    assert(r[0]@ == "text"@);
    assert(keys_reserved(seq![("text"@, JsonView::Text(m.text@))], r));
    assert(r[1]@ == "entities"@);
    assert(keys_reserved(match m.entities { Some(v) => seq![("entities"@, entities_json(v@))], None => Seq::empty() }, r));
    lemma_keys_reserved_append(seq![("text"@, JsonView::Text(m.text@))], match m.entities { Some(v) => seq![("entities"@, entities_json(v@))], None => Seq::empty() }, r);
    assert(r[2]@ == "position"@);
    assert(keys_reserved(seq![("position"@, JsonView::UInt(m.position as u64))], r));
    lemma_keys_reserved_append(seq![("text"@, JsonView::Text(m.text@))] + match m.entities { Some(v) => seq![("entities"@, entities_json(v@))], None => Seq::empty() }, seq![("position"@, JsonView::UInt(m.position as u64))], r);
    assert(r[3]@ == "is_manual"@);
    assert(keys_reserved(flag_entry("is_manual"@, m.is_manual), r));
    lemma_keys_reserved_append(seq![("text"@, JsonView::Text(m.text@))] + match m.entities { Some(v) => seq![("entities"@, entities_json(v@))], None => Seq::empty() } + seq![("position"@, JsonView::UInt(m.position as u64))], flag_entry("is_manual"@, m.is_manual), r);
}

/// In a serialized `TextQuote`, the entries under its own keys are exactly its
/// typed fields, and every extra entry under another key is kept: an extra
/// field never replaces a typed one.
pub proof fn lemma_text_quote_extra_cannot_override(m: TextQuote)
    ensures
        forall|i: int|
            0 <= i < text_quote_entries(m).len() ==> (is_reserved(
                #[trigger] text_quote_entries(m)[i].0,
                text_quote_reserved(),
            ) <==> i < text_quote_core_entries(m).len()),
        forall|j: int|
            0 <= j < m.extra.pairs().len() && !is_reserved(#[trigger] m.extra.pairs()[j].0@, text_quote_reserved())
                ==> text_quote_entries(m).contains((m.extra.pairs()[j].0@, m.extra.pairs()[j].1.json())),
{
    lemma_text_quote_core_keys_reserved(m);
    lemma_extra_never_overrides(text_quote_core_entries(m), m.extra.pairs(), text_quote_reserved());
}

/// A message that a reply refers to, from another chat or thread. Its chat
/// and invoice are typed; its other nested objects are held as the JSON they
/// are written as.
#[derive(Debug)]
pub struct ExternalReplyInfo {
    pub origin: JsonValue,
    pub chat: Option<Chat>,
    pub message_id: Option<MessageId>,
    pub link_preview_options: Option<JsonValue>,
    pub animation: Option<JsonValue>,
    pub audio: Option<JsonValue>,
    pub document: Option<JsonValue>,
    pub paid_media: Option<JsonValue>,
    pub photo: Option<JsonValue>,
    pub sticker: Option<JsonValue>,
    pub story: Option<JsonValue>,
    pub video: Option<JsonValue>,
    pub video_note: Option<JsonValue>,
    pub voice: Option<JsonValue>,
    pub has_media_spoiler: bool,
    pub checklist: Option<JsonValue>,
    pub contact: Option<JsonValue>,
    pub dice: Option<JsonValue>,
    pub game: Option<JsonValue>,
    pub giveaway: Option<JsonValue>,
    pub giveaway_winners: Option<JsonValue>,
    pub invoice: Option<Invoice>,
    pub location: Option<JsonValue>,
    pub poll: Option<JsonValue>,
    pub venue: Option<JsonValue>,
    /// Fields of the response that this model does not name.
    pub extra: JsonMap,
}

/// The keys that the typed fields of a `ExternalReplyInfo` occupy.
pub open spec fn external_reply_info_reserved() -> Seq<&'static str> {
    seq!["origin", "chat", "message_id", "link_preview_options", "animation", "audio", "document", "paid_media", "photo", "sticker", "story", "video", "video_note", "voice", "has_media_spoiler", "checklist", "contact", "dice", "game", "giveaway", "giveaway_winners", "invoice", "location", "poll", "venue"]
}

fn external_reply_info_reserved_keys() -> (r: [&'static str; 25])
    ensures
        r@ == external_reply_info_reserved(),
{
    let r = ["origin", "chat", "message_id", "link_preview_options", "animation", "audio", "document", "paid_media", "photo", "sticker", "story", "video", "video_note", "voice", "has_media_spoiler", "checklist", "contact", "dice", "game", "giveaway", "giveaway_winners", "invoice", "location", "poll", "venue"];
    assert(r@ =~= external_reply_info_reserved());
    r
}

/// The `head` part of the typed fields of a `ExternalReplyInfo`, in the order they are written.
pub open spec fn external_reply_info_head_entries(m: ExternalReplyInfo) -> Seq<(Seq<char>, JsonView)> {
    (seq![("origin"@, m.origin.json())])
        + (match m.chat { Some(v) => seq![("chat"@, JsonView::Object(chat_entries(v)))], None => Seq::empty() })
        + (opt_int_entry("message_id"@, match m.message_id { Some(id) => Some(id.0), None => None }))
        + (opt_json_entry("link_preview_options"@, m.link_preview_options))
}

fn push_external_reply_info_head(out: &mut Vec<(String, JsonValue)>, m: &ExternalReplyInfo)
    ensures
        pairs_view(final(out)@) == pairs_view(old(out)@) + external_reply_info_head_entries(*m),
{
    let ghost start = pairs_view(out@);
    push_entry(out, "origin", m.origin.copy());
    if let Some(v) = &m.chat {
        push_object(out, "chat", v.to_entries());
    }
    push_opt_int(out, "message_id", match m.message_id { Some(id) => Some(id.0), None => None });
    push_opt_json(out, "link_preview_options", &m.link_preview_options);
    assert(pairs_view(out@) =~= start + external_reply_info_head_entries(*m));
}

proof fn lemma_external_reply_info_head_keys_reserved(m: ExternalReplyInfo)
    ensures
        keys_reserved(external_reply_info_head_entries(m), external_reply_info_reserved()),
{
    let r = external_reply_info_reserved();
    assert(r[0]@ == "origin"@);
    assert(keys_reserved(seq![("origin"@, m.origin.json())], r));
    assert(r[1]@ == "chat"@);
    assert(keys_reserved(match m.chat { Some(v) => seq![("chat"@, JsonView::Object(chat_entries(v)))], None => Seq::empty() }, r));
    lemma_keys_reserved_append(seq![("origin"@, m.origin.json())], match m.chat { Some(v) => seq![("chat"@, JsonView::Object(chat_entries(v)))], None => Seq::empty() }, r);
    assert(r[2]@ == "message_id"@);
    assert(keys_reserved(opt_int_entry("message_id"@, match m.message_id { Some(id) => Some(id.0), None => None }), r));
    lemma_keys_reserved_append(seq![("origin"@, m.origin.json())] + match m.chat { Some(v) => seq![("chat"@, JsonView::Object(chat_entries(v)))], None => Seq::empty() }, opt_int_entry("message_id"@, match m.message_id { Some(id) => Some(id.0), None => None }), r);
    assert(r[3]@ == "link_preview_options"@);
    lemma_opt_json_entry_key("link_preview_options"@, m.link_preview_options, r);
    lemma_keys_reserved_append(seq![("origin"@, m.origin.json())] + match m.chat { Some(v) => seq![("chat"@, JsonView::Object(chat_entries(v)))], None => Seq::empty() } + opt_int_entry("message_id"@, match m.message_id { Some(id) => Some(id.0), None => None }), opt_json_entry("link_preview_options"@, m.link_preview_options), r);
}

/// The `media` part of the typed fields of a `ExternalReplyInfo`, in the order they are written.
pub open spec fn external_reply_info_media_entries(m: ExternalReplyInfo) -> Seq<(Seq<char>, JsonView)> {
    (opt_json_entry("animation"@, m.animation))
        + (opt_json_entry("audio"@, m.audio))
        + (opt_json_entry("document"@, m.document))
        + (opt_json_entry("paid_media"@, m.paid_media))
        + (opt_json_entry("photo"@, m.photo))
        + (opt_json_entry("sticker"@, m.sticker))
        + (opt_json_entry("story"@, m.story))
        + (opt_json_entry("video"@, m.video))
        + (opt_json_entry("video_note"@, m.video_note))
        + (opt_json_entry("voice"@, m.voice))
}

fn push_external_reply_info_media(out: &mut Vec<(String, JsonValue)>, m: &ExternalReplyInfo)
    ensures
        pairs_view(final(out)@) == pairs_view(old(out)@) + external_reply_info_media_entries(*m),
{
    let ghost start = pairs_view(out@);
    push_opt_json(out, "animation", &m.animation);
    push_opt_json(out, "audio", &m.audio);
    push_opt_json(out, "document", &m.document);
    push_opt_json(out, "paid_media", &m.paid_media);
    push_opt_json(out, "photo", &m.photo);
    push_opt_json(out, "sticker", &m.sticker);
    push_opt_json(out, "story", &m.story);
    push_opt_json(out, "video", &m.video);
    push_opt_json(out, "video_note", &m.video_note);
    push_opt_json(out, "voice", &m.voice);
    assert(pairs_view(out@) =~= start + external_reply_info_media_entries(*m));
}

proof fn lemma_external_reply_info_media_keys_reserved(m: ExternalReplyInfo)
    ensures
        keys_reserved(external_reply_info_media_entries(m), external_reply_info_reserved()),
{
    let r = external_reply_info_reserved();
    assert(r[4]@ == "animation"@);
    lemma_opt_json_entry_key("animation"@, m.animation, r);
    assert(r[5]@ == "audio"@);
    lemma_opt_json_entry_key("audio"@, m.audio, r);
    lemma_keys_reserved_append(opt_json_entry("animation"@, m.animation), opt_json_entry("audio"@, m.audio), r);
    assert(r[6]@ == "document"@);
    lemma_opt_json_entry_key("document"@, m.document, r);
    lemma_keys_reserved_append(opt_json_entry("animation"@, m.animation) + opt_json_entry("audio"@, m.audio), opt_json_entry("document"@, m.document), r);
    assert(r[7]@ == "paid_media"@);
    lemma_opt_json_entry_key("paid_media"@, m.paid_media, r);
    lemma_keys_reserved_append(opt_json_entry("animation"@, m.animation) + opt_json_entry("audio"@, m.audio) + opt_json_entry("document"@, m.document), opt_json_entry("paid_media"@, m.paid_media), r);
    assert(r[8]@ == "photo"@);
    lemma_opt_json_entry_key("photo"@, m.photo, r);
    lemma_keys_reserved_append(opt_json_entry("animation"@, m.animation) + opt_json_entry("audio"@, m.audio) + opt_json_entry("document"@, m.document) + opt_json_entry("paid_media"@, m.paid_media), opt_json_entry("photo"@, m.photo), r);
    assert(r[9]@ == "sticker"@);
    lemma_opt_json_entry_key("sticker"@, m.sticker, r);
    lemma_keys_reserved_append(opt_json_entry("animation"@, m.animation) + opt_json_entry("audio"@, m.audio) + opt_json_entry("document"@, m.document) + opt_json_entry("paid_media"@, m.paid_media) + opt_json_entry("photo"@, m.photo), opt_json_entry("sticker"@, m.sticker), r);
    assert(r[10]@ == "story"@);
    lemma_opt_json_entry_key("story"@, m.story, r);
    lemma_keys_reserved_append(opt_json_entry("animation"@, m.animation) + opt_json_entry("audio"@, m.audio) + opt_json_entry("document"@, m.document) + opt_json_entry("paid_media"@, m.paid_media) + opt_json_entry("photo"@, m.photo) + opt_json_entry("sticker"@, m.sticker), opt_json_entry("story"@, m.story), r);
    assert(r[11]@ == "video"@);
    lemma_opt_json_entry_key("video"@, m.video, r);
    lemma_keys_reserved_append(opt_json_entry("animation"@, m.animation) + opt_json_entry("audio"@, m.audio) + opt_json_entry("document"@, m.document) + opt_json_entry("paid_media"@, m.paid_media) + opt_json_entry("photo"@, m.photo) + opt_json_entry("sticker"@, m.sticker) + opt_json_entry("story"@, m.story), opt_json_entry("video"@, m.video), r);
    assert(r[12]@ == "video_note"@);
    lemma_opt_json_entry_key("video_note"@, m.video_note, r);
    lemma_keys_reserved_append(opt_json_entry("animation"@, m.animation) + opt_json_entry("audio"@, m.audio) + opt_json_entry("document"@, m.document) + opt_json_entry("paid_media"@, m.paid_media) + opt_json_entry("photo"@, m.photo) + opt_json_entry("sticker"@, m.sticker) + opt_json_entry("story"@, m.story) + opt_json_entry("video"@, m.video), opt_json_entry("video_note"@, m.video_note), r);
    assert(r[13]@ == "voice"@);
    lemma_opt_json_entry_key("voice"@, m.voice, r);
    lemma_keys_reserved_append(opt_json_entry("animation"@, m.animation) + opt_json_entry("audio"@, m.audio) + opt_json_entry("document"@, m.document) + opt_json_entry("paid_media"@, m.paid_media) + opt_json_entry("photo"@, m.photo) + opt_json_entry("sticker"@, m.sticker) + opt_json_entry("story"@, m.story) + opt_json_entry("video"@, m.video) + opt_json_entry("video_note"@, m.video_note), opt_json_entry("voice"@, m.voice), r);
}

/// The `content` part of the typed fields of a `ExternalReplyInfo`, in the order they are written.
pub open spec fn external_reply_info_content_entries(m: ExternalReplyInfo) -> Seq<(Seq<char>, JsonView)> {
    (flag_entry("has_media_spoiler"@, m.has_media_spoiler))
        + (opt_json_entry("checklist"@, m.checklist))
        + (opt_json_entry("contact"@, m.contact))
        + (opt_json_entry("dice"@, m.dice))
        + (opt_json_entry("game"@, m.game))
        + (opt_json_entry("giveaway"@, m.giveaway))
        + (opt_json_entry("giveaway_winners"@, m.giveaway_winners))
        + (match m.invoice { Some(v) => seq![("invoice"@, JsonView::Object(invoice_entries(v)))], None => Seq::empty() })
        + (opt_json_entry("location"@, m.location))
        + (opt_json_entry("poll"@, m.poll))
        + (opt_json_entry("venue"@, m.venue))
}

fn push_external_reply_info_content(out: &mut Vec<(String, JsonValue)>, m: &ExternalReplyInfo)
    ensures
        pairs_view(final(out)@) == pairs_view(old(out)@) + external_reply_info_content_entries(*m),
{
    let ghost start = pairs_view(out@);
    push_flag(out, "has_media_spoiler", m.has_media_spoiler);
    push_opt_json(out, "checklist", &m.checklist);
    push_opt_json(out, "contact", &m.contact);
    push_opt_json(out, "dice", &m.dice);
    push_opt_json(out, "game", &m.game);
    push_opt_json(out, "giveaway", &m.giveaway);
    push_opt_json(out, "giveaway_winners", &m.giveaway_winners);
    if let Some(v) = &m.invoice { push_object(out, "invoice", v.to_entries()); }
    push_opt_json(out, "location", &m.location);
    push_opt_json(out, "poll", &m.poll);
    push_opt_json(out, "venue", &m.venue);
    assert(pairs_view(out@) =~= start + external_reply_info_content_entries(*m));
}

proof fn lemma_external_reply_info_content_keys_reserved(m: ExternalReplyInfo)
    ensures
        keys_reserved(external_reply_info_content_entries(m), external_reply_info_reserved()),
{
    let r = external_reply_info_reserved();
    assert(r[14]@ == "has_media_spoiler"@);
    assert(keys_reserved(flag_entry("has_media_spoiler"@, m.has_media_spoiler), r));
    assert(r[15]@ == "checklist"@);
    lemma_opt_json_entry_key("checklist"@, m.checklist, r);
    lemma_keys_reserved_append(flag_entry("has_media_spoiler"@, m.has_media_spoiler), opt_json_entry("checklist"@, m.checklist), r);
    assert(r[16]@ == "contact"@);
    lemma_opt_json_entry_key("contact"@, m.contact, r);
    lemma_keys_reserved_append(flag_entry("has_media_spoiler"@, m.has_media_spoiler) + opt_json_entry("checklist"@, m.checklist), opt_json_entry("contact"@, m.contact), r);
    assert(r[17]@ == "dice"@);
    lemma_opt_json_entry_key("dice"@, m.dice, r);
    lemma_keys_reserved_append(flag_entry("has_media_spoiler"@, m.has_media_spoiler) + opt_json_entry("checklist"@, m.checklist) + opt_json_entry("contact"@, m.contact), opt_json_entry("dice"@, m.dice), r);
    assert(r[18]@ == "game"@);
    lemma_opt_json_entry_key("game"@, m.game, r);
    lemma_keys_reserved_append(flag_entry("has_media_spoiler"@, m.has_media_spoiler) + opt_json_entry("checklist"@, m.checklist) + opt_json_entry("contact"@, m.contact) + opt_json_entry("dice"@, m.dice), opt_json_entry("game"@, m.game), r);
    assert(r[19]@ == "giveaway"@);
    lemma_opt_json_entry_key("giveaway"@, m.giveaway, r);
    lemma_keys_reserved_append(flag_entry("has_media_spoiler"@, m.has_media_spoiler) + opt_json_entry("checklist"@, m.checklist) + opt_json_entry("contact"@, m.contact) + opt_json_entry("dice"@, m.dice) + opt_json_entry("game"@, m.game), opt_json_entry("giveaway"@, m.giveaway), r);
    assert(r[20]@ == "giveaway_winners"@);
    lemma_opt_json_entry_key("giveaway_winners"@, m.giveaway_winners, r);
    lemma_keys_reserved_append(flag_entry("has_media_spoiler"@, m.has_media_spoiler) + opt_json_entry("checklist"@, m.checklist) + opt_json_entry("contact"@, m.contact) + opt_json_entry("dice"@, m.dice) + opt_json_entry("game"@, m.game) + opt_json_entry("giveaway"@, m.giveaway), opt_json_entry("giveaway_winners"@, m.giveaway_winners), r);
    assert(r[21]@ == "invoice"@);
    assert(keys_reserved(match m.invoice { Some(v) => seq![("invoice"@, JsonView::Object(invoice_entries(v)))], None => Seq::empty() }, r));
    lemma_keys_reserved_append(flag_entry("has_media_spoiler"@, m.has_media_spoiler) + opt_json_entry("checklist"@, m.checklist) + opt_json_entry("contact"@, m.contact) + opt_json_entry("dice"@, m.dice) + opt_json_entry("game"@, m.game) + opt_json_entry("giveaway"@, m.giveaway) + opt_json_entry("giveaway_winners"@, m.giveaway_winners), match m.invoice { Some(v) => seq![("invoice"@, JsonView::Object(invoice_entries(v)))], None => Seq::empty() }, r);
    assert(r[22]@ == "location"@);
    lemma_opt_json_entry_key("location"@, m.location, r);
    lemma_keys_reserved_append(flag_entry("has_media_spoiler"@, m.has_media_spoiler) + opt_json_entry("checklist"@, m.checklist) + opt_json_entry("contact"@, m.contact) + opt_json_entry("dice"@, m.dice) + opt_json_entry("game"@, m.game) + opt_json_entry("giveaway"@, m.giveaway) + opt_json_entry("giveaway_winners"@, m.giveaway_winners) + match m.invoice { Some(v) => seq![("invoice"@, JsonView::Object(invoice_entries(v)))], None => Seq::empty() }, opt_json_entry("location"@, m.location), r);
    assert(r[23]@ == "poll"@);
    lemma_opt_json_entry_key("poll"@, m.poll, r);
    lemma_keys_reserved_append(flag_entry("has_media_spoiler"@, m.has_media_spoiler) + opt_json_entry("checklist"@, m.checklist) + opt_json_entry("contact"@, m.contact) + opt_json_entry("dice"@, m.dice) + opt_json_entry("game"@, m.game) + opt_json_entry("giveaway"@, m.giveaway) + opt_json_entry("giveaway_winners"@, m.giveaway_winners) + match m.invoice { Some(v) => seq![("invoice"@, JsonView::Object(invoice_entries(v)))], None => Seq::empty() } + opt_json_entry("location"@, m.location), opt_json_entry("poll"@, m.poll), r);
    assert(r[24]@ == "venue"@);
    lemma_opt_json_entry_key("venue"@, m.venue, r);
    lemma_keys_reserved_append(flag_entry("has_media_spoiler"@, m.has_media_spoiler) + opt_json_entry("checklist"@, m.checklist) + opt_json_entry("contact"@, m.contact) + opt_json_entry("dice"@, m.dice) + opt_json_entry("game"@, m.game) + opt_json_entry("giveaway"@, m.giveaway) + opt_json_entry("giveaway_winners"@, m.giveaway_winners) + match m.invoice { Some(v) => seq![("invoice"@, JsonView::Object(invoice_entries(v)))], None => Seq::empty() } + opt_json_entry("location"@, m.location) + opt_json_entry("poll"@, m.poll), opt_json_entry("venue"@, m.venue), r);
}

/// The typed fields of a `ExternalReplyInfo`, in the order they are written.
pub open spec fn external_reply_info_core_entries(m: ExternalReplyInfo) -> Seq<(Seq<char>, JsonView)> {
    external_reply_info_head_entries(m) + external_reply_info_media_entries(m) + external_reply_info_content_entries(m)
}

/// The entries of a serialized `ExternalReplyInfo`: its typed fields, then the extra
/// entries whose key no typed field uses.
pub open spec fn external_reply_info_entries(m: ExternalReplyInfo) -> Seq<(Seq<char>, JsonView)> {
    external_reply_info_core_entries(m) + visible_extra(m.extra.pairs(), external_reply_info_reserved())
}

impl ExternalReplyInfo {
    /// The entries Telegram receives for this value.
    pub fn to_entries(&self) -> (r: Vec<(String, JsonValue)>)
        ensures
            pairs_view(r@) == external_reply_info_entries(*self),
    {
        let mut out: Vec<(String, JsonValue)> = Vec::new();
        assert(pairs_view(out@) =~= Seq::<(Seq<char>, JsonView)>::empty());
        push_external_reply_info_head(&mut out, self);
        push_external_reply_info_media(&mut out, self);
        push_external_reply_info_content(&mut out, self);
        let reserved = external_reply_info_reserved_keys();
        append_extra_fields(&mut out, &self.extra, &reserved);
        assert(pairs_view(out@) =~= external_reply_info_entries(*self));
        out
    }
}

proof fn lemma_external_reply_info_core_keys_reserved(m: ExternalReplyInfo)
    ensures
        keys_reserved(external_reply_info_core_entries(m), external_reply_info_reserved()),
{
    lemma_external_reply_info_head_keys_reserved(m);
    lemma_external_reply_info_media_keys_reserved(m);
    lemma_keys_reserved_append(external_reply_info_head_entries(m), external_reply_info_media_entries(m), external_reply_info_reserved());
    lemma_external_reply_info_content_keys_reserved(m);
    lemma_keys_reserved_append(external_reply_info_head_entries(m) + external_reply_info_media_entries(m), external_reply_info_content_entries(m), external_reply_info_reserved());
}

/// In a serialized `ExternalReplyInfo`, the entries under its own keys are exactly its
/// typed fields, and every extra entry under another key is kept: an extra
/// field never replaces a typed one.
pub proof fn lemma_external_reply_info_extra_cannot_override(m: ExternalReplyInfo)
    ensures
        forall|i: int|
            0 <= i < external_reply_info_entries(m).len() ==> (is_reserved(
                #[trigger] external_reply_info_entries(m)[i].0,
                external_reply_info_reserved(),
            ) <==> i < external_reply_info_core_entries(m).len()),
        forall|j: int|
            0 <= j < m.extra.pairs().len() && !is_reserved(#[trigger] m.extra.pairs()[j].0@, external_reply_info_reserved())
                ==> external_reply_info_entries(m).contains((m.extra.pairs()[j].0@, m.extra.pairs()[j].1.json())),
{
    lemma_external_reply_info_core_keys_reserved(m);
    lemma_extra_never_overrides(external_reply_info_core_entries(m), m.extra.pairs(), external_reply_info_reserved());
}
/// A message the bot can no longer access: only its chat, id and a zero date
/// are known.
#[derive(Debug)]
pub struct InaccessibleMessage {
    pub chat: Chat,
    pub message_id: MessageId,
    pub date: i64,
    /// Fields of the response that this model does not name.
    pub extra: JsonMap,
}

/// The keys that the typed fields of a `InaccessibleMessage` occupy.
pub open spec fn inaccessible_message_reserved() -> Seq<&'static str> {
    seq!["chat", "message_id", "date"]
}

fn inaccessible_message_reserved_keys() -> (r: [&'static str; 3])
    ensures
        r@ == inaccessible_message_reserved(),
{
    let r = ["chat", "message_id", "date"];
    assert(r@ =~= inaccessible_message_reserved());
    r
}

/// The typed fields of a `InaccessibleMessage`, in the order they are written.
pub open spec fn inaccessible_message_core_entries(m: InaccessibleMessage) -> Seq<(Seq<char>, JsonView)> {
    seq![("chat"@, JsonView::Object(chat_entries(m.chat)))]
        + seq![("message_id"@, JsonView::Int(m.message_id.0))]
        + seq![("date"@, JsonView::Int(m.date))]
}

/// The entries of a serialized `InaccessibleMessage`: its typed fields, then the extra
/// entries whose key no typed field uses.
pub open spec fn inaccessible_message_entries(m: InaccessibleMessage) -> Seq<(Seq<char>, JsonView)> {
    inaccessible_message_core_entries(m) + visible_extra(m.extra.pairs(), inaccessible_message_reserved())
}

impl InaccessibleMessage {
    /// The entries Telegram receives for this value.
    pub fn to_entries(&self) -> (r: Vec<(String, JsonValue)>)
        ensures
            pairs_view(r@) == inaccessible_message_entries(*self),
    {
        let mut out: Vec<(String, JsonValue)> = Vec::new();
        assert(pairs_view(out@) =~= Seq::<(Seq<char>, JsonView)>::empty());
        push_object(&mut out, "chat", self.chat.to_entries());
        push_entry(&mut out, "message_id", JsonValue::Int(self.message_id.0));
        push_entry(&mut out, "date", JsonValue::Int(self.date));
        let reserved = inaccessible_message_reserved_keys();
        append_extra_fields(&mut out, &self.extra, &reserved);
        assert(pairs_view(out@) =~= inaccessible_message_entries(*self));
        out
    }
}

proof fn lemma_inaccessible_message_core_keys_reserved(m: InaccessibleMessage)
    ensures
        keys_reserved(inaccessible_message_core_entries(m), inaccessible_message_reserved()),
{
    let r = inaccessible_message_reserved();
    assert(r[0]@ == "chat"@);
    assert(keys_reserved(seq![("chat"@, JsonView::Object(chat_entries(m.chat)))], r));
    assert(r[1]@ == "message_id"@);
    assert(keys_reserved(seq![("message_id"@, JsonView::Int(m.message_id.0))], r));
    lemma_keys_reserved_append(seq![("chat"@, JsonView::Object(chat_entries(m.chat)))], seq![("message_id"@, JsonView::Int(m.message_id.0))], r);
    assert(r[2]@ == "date"@);
    assert(keys_reserved(seq![("date"@, JsonView::Int(m.date))], r));
    lemma_keys_reserved_append(seq![("chat"@, JsonView::Object(chat_entries(m.chat)))] + seq![("message_id"@, JsonView::Int(m.message_id.0))], seq![("date"@, JsonView::Int(m.date))], r);
}

/// In a serialized `InaccessibleMessage`, the entries under its own keys are exactly its
/// typed fields, and every extra entry under another key is kept: an extra
/// field never replaces a typed one.
pub proof fn lemma_inaccessible_message_extra_cannot_override(m: InaccessibleMessage)
    ensures
        forall|i: int|
            0 <= i < inaccessible_message_entries(m).len() ==> (is_reserved(
                #[trigger] inaccessible_message_entries(m)[i].0,
                inaccessible_message_reserved(),
            ) <==> i < inaccessible_message_core_entries(m).len()),
        forall|j: int|
            0 <= j < m.extra.pairs().len() && !is_reserved(#[trigger] m.extra.pairs()[j].0@, inaccessible_message_reserved())
                ==> inaccessible_message_entries(m).contains((m.extra.pairs()[j].0@, m.extra.pairs()[j].1.json())),
{
    lemma_inaccessible_message_core_keys_reserved(m);
    lemma_extra_never_overrides(inaccessible_message_core_entries(m), m.extra.pairs(), inaccessible_message_reserved());
}

/// A message that may no longer be accessible to the bot.
#[derive(Debug)]
pub enum MaybeInaccessibleMessage {
    Accessible(Box<Message>),
    Inaccessible(InaccessibleMessage),
}

/// The `date` a message response carries, as `MaybeInaccessibleMessage` reads
/// it: the first `date` entry when it is an integer that fits `i64`, else 0.
pub open spec fn response_date_spec(value: JsonView) -> i64 {
    match value {
        JsonView::Object(entries) => match first_entry(entries, "date"@) {
            Some(JsonView::Int(n)) => n,
            Some(JsonView::UInt(n)) => if n <= i64::MAX as u64 {
                n as i64
            } else {
                0
            },
            _ => 0,
        },
        _ => 0,
    }
}


/// Reads the `date` of a message response; a response whose date is 0 is an
/// inaccessible message.
pub fn response_date(value: &JsonValue) -> (r: i64)
    ensures
        r == response_date_spec(value.json()),
{
    match value {
        JsonValue::Object(entries) => {
            assert(value.json()->Object_0 =~= pairs_view(entries@));
            match first_value(entries, "date") {
                Some(JsonValue::Int(n)) => *n,
                Some(JsonValue::UInt(n)) => if *n <= i64::MAX as u64 {
                    *n as i64
                } else {
                    0
                },
                _ => 0,
            }
        },
        _ => 0,
    }
}

impl MaybeInaccessibleMessage {
    pub fn is_accessible(&self) -> (r: bool)
        ensures
            r == (*self is Accessible),
    {
        matches!(self, MaybeInaccessibleMessage::Accessible(_))
    }

    pub fn is_inaccessible(&self) -> (r: bool)
        ensures
            r == (*self is Inaccessible),
    {
        matches!(self, MaybeInaccessibleMessage::Inaccessible(_))
    }

    pub fn as_accessible(&self) -> (r: Option<&Message>)
        ensures
            r == match *self {
                MaybeInaccessibleMessage::Accessible(m) => Some(&*m),
                _ => None,
            },
    {
        match self {
            MaybeInaccessibleMessage::Accessible(m) => Some(&**m),
            MaybeInaccessibleMessage::Inaccessible(_) => None,
        }
    }

    pub fn into_accessible(self) -> (r: Option<Message>)
        ensures
            r == match self {
                MaybeInaccessibleMessage::Accessible(m) => Some(*m),
                _ => None,
            },
    {
        match self {
            MaybeInaccessibleMessage::Accessible(m) => Some(*m),
            MaybeInaccessibleMessage::Inaccessible(_) => None,
        }
    }

    pub fn as_inaccessible(&self) -> (r: Option<&InaccessibleMessage>)
        ensures
            r == match *self {
                MaybeInaccessibleMessage::Inaccessible(m) => Some(&m),
                _ => None,
            },
    {
        match self {
            MaybeInaccessibleMessage::Accessible(_) => None,
            MaybeInaccessibleMessage::Inaccessible(m) => Some(m),
        }
    }

    pub fn into_inaccessible(self) -> (r: Option<InaccessibleMessage>)
        ensures
            r == match self {
                MaybeInaccessibleMessage::Inaccessible(m) => Some(m),
                _ => None,
            },
    {
        match self {
            MaybeInaccessibleMessage::Accessible(_) => None,
            MaybeInaccessibleMessage::Inaccessible(m) => Some(m),
        }
    }

    pub fn accessible(&self) -> (r: Option<&Message>)
        ensures
            r == match *self {
                MaybeInaccessibleMessage::Accessible(m) => Some(&*m),
                _ => None,
            },
    {
        self.as_accessible()
    }

    pub fn inaccessible(&self) -> (r: Option<&InaccessibleMessage>)
        ensures
            r == match *self {
                MaybeInaccessibleMessage::Inaccessible(m) => Some(&m),
                _ => None,
            },
    {
        self.as_inaccessible()
    }

    pub fn chat(&self) -> (r: &Chat)
        ensures
            *r == match *self {
                MaybeInaccessibleMessage::Accessible(m) => m.chat,
                MaybeInaccessibleMessage::Inaccessible(m) => m.chat,
            },
    {
        match self {
            MaybeInaccessibleMessage::Accessible(m) => &m.chat,
            MaybeInaccessibleMessage::Inaccessible(m) => &m.chat,
        }
    }

    pub fn message_id(&self) -> (r: MessageId)
        ensures
            r == match *self {
                MaybeInaccessibleMessage::Accessible(m) => m.message_id,
                MaybeInaccessibleMessage::Inaccessible(m) => m.message_id,
            },
    {
        match self {
            MaybeInaccessibleMessage::Accessible(m) => m.message_id,
            MaybeInaccessibleMessage::Inaccessible(m) => m.message_id,
        }
    }

    pub fn date(&self) -> (r: i64)
        ensures
            r == match *self {
                MaybeInaccessibleMessage::Accessible(m) => m.date,
                MaybeInaccessibleMessage::Inaccessible(m) => m.date,
            },
    {
        match self {
            MaybeInaccessibleMessage::Accessible(m) => m.date,
            MaybeInaccessibleMessage::Inaccessible(m) => m.date,
        }
    }
}

} // verus!
