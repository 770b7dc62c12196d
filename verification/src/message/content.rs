use vstd::prelude::*;

use crate::chat_member::without_key;
use crate::json::{pairs_view, JsonMap, JsonValue, JsonView};
use crate::bot::User;
use crate::common::UserId;
use crate::message::common::{Chat, MessageEntity, PhotoSize};
use crate::message::media::{Animation, Audio, Document, Video};
use crate::text::str_eq;

verus! {

/// Telegram poll kind.
#[derive(Clone, Debug, PartialEq, Eq, Hash)]
pub enum PollKind {
    Regular,
    Quiz,
    /// A name this model does not know, kept as received.
    Unknown(String),
}

/// The wire name of a `PollKind`.
pub open spec fn poll_kind_name(kind: PollKind) -> Seq<char> {
    match kind {
        PollKind::Regular => "regular"@,
        PollKind::Quiz => "quiz"@,
        PollKind::Unknown(value) => value@,
    }
}

/// The `PollKind` that a wire name is read as.
pub open spec fn poll_kind_from_name(value: String) -> PollKind {
    if value@ == "regular"@ {
        PollKind::Regular
    } else if value@ == "quiz"@ {
        PollKind::Quiz
    } else {
        PollKind::Unknown(value)
    }
}

impl PollKind {
    pub fn as_str(&self) -> (r: &str)
        ensures
            r@ == poll_kind_name(*self),
    {
        match self {
            PollKind::Regular => "regular",
            PollKind::Quiz => "quiz",
            PollKind::Unknown(value) => value.as_str(),
        }
    }

    /// Reads a wire name; a name this model does not know is kept as `Unknown`.
    pub fn from_name(value: String) -> (r: Self)
        ensures
            r == poll_kind_from_name(value),
    {
        if str_eq(value.as_str(), "regular") {
            PollKind::Regular
        } else if str_eq(value.as_str(), "quiz") {
            PollKind::Quiz
        } else {
            PollKind::Unknown(value)
        }
    }
}

/// Reading a wire name and writing it back gives the same text, known or not.
pub proof fn lemma_poll_kind_name_round_trip(value: String)
    ensures
        poll_kind_name(poll_kind_from_name(value)) == value@,
{
}

/// A known `PollKind` is read back from its own wire name.
pub proof fn lemma_poll_kind_known_round_trip(kind: PollKind, value: String)
    requires
        !(kind is Unknown),
        value@ == poll_kind_name(kind),
    ensures
        poll_kind_from_name(value) == kind,
{
    match kind {
        PollKind::Regular => {
            reveal_strlit("regular");
        },
        PollKind::Quiz => {
            reveal_strlit("quiz");
            reveal_strlit("regular");
            assert("quiz"@.len() != "regular"@.len());
        },
        PollKind::Unknown(_) => {},
    }
}
/// Dice emoji.
#[derive(Clone, Copy, Debug, PartialEq, Eq, Structural)]
pub enum DiceEmoji {
    Dice,
    Darts,
    Basketball,
    Football,
    Bowling,
    SlotMachine,
}

/// The kinds of media a poll can embed, in the order a payload is looked for.
#[derive(Clone, Copy, Debug, PartialEq, Eq, Structural)]
pub enum PollMediaKind {
    Animation,
    Audio,
    Document,
    LivePhoto,
    Location,
    Photo,
    Sticker,
    Venue,
    Video,
}

/// The key under which a poll media object holds its payload.
pub open spec fn poll_media_key(kind: PollMediaKind) -> Seq<char> {
    match kind {
        PollMediaKind::Animation => "animation"@,
        PollMediaKind::Audio => "audio"@,
        PollMediaKind::Document => "document"@,
        PollMediaKind::LivePhoto => "live_photo"@,
        PollMediaKind::Location => "location"@,
        PollMediaKind::Photo => "photo"@,
        PollMediaKind::Sticker => "sticker"@,
        PollMediaKind::Venue => "venue"@,
        PollMediaKind::Video => "video"@,
    }
}

/// The kind at position `i` of the lookup order.
pub open spec fn poll_media_kind_at(i: int) -> PollMediaKind {
    if i == 0 {
        PollMediaKind::Animation
    } else if i == 1 {
        PollMediaKind::Audio
    } else if i == 2 {
        PollMediaKind::Document
    } else if i == 3 {
        PollMediaKind::LivePhoto
    } else if i == 4 {
        PollMediaKind::Location
    } else if i == 5 {
        PollMediaKind::Photo
    } else if i == 6 {
        PollMediaKind::Sticker
    } else if i == 7 {
        PollMediaKind::Venue
    } else {
        PollMediaKind::Video
    }
}

impl PollMediaKind {
    pub fn key(&self) -> (r: &'static str)
        ensures
            r@ == poll_media_key(*self),
    {
        match self {
            PollMediaKind::Animation => "animation",
            PollMediaKind::Audio => "audio",
            PollMediaKind::Document => "document",
            PollMediaKind::LivePhoto => "live_photo",
            PollMediaKind::Location => "location",
            PollMediaKind::Photo => "photo",
            PollMediaKind::Sticker => "sticker",
            PollMediaKind::Venue => "venue",
            PollMediaKind::Video => "video",
        }
    }
}

fn poll_media_kind_at_exec(i: usize) -> (r: PollMediaKind)
    requires
        i < 9,
    ensures
        r == poll_media_kind_at(i as int),
{
    match i {
        0 => PollMediaKind::Animation,
        1 => PollMediaKind::Audio,
        2 => PollMediaKind::Document,
        3 => PollMediaKind::LivePhoto,
        4 => PollMediaKind::Location,
        5 => PollMediaKind::Photo,
        6 => PollMediaKind::Sticker,
        7 => PollMediaKind::Venue,
        _ => PollMediaKind::Video,
    }
}

/// The object holds an entry under `key`.
pub open spec fn has_key(entries: Seq<(Seq<char>, JsonView)>, key: Seq<char>) -> bool {
    exists|i: int| 0 <= i < entries.len() && #[trigger] entries[i].0 == key
}

/// The first kind among the first `n` of the lookup order whose key the object holds.
pub open spec fn first_media_kind(entries: Seq<(Seq<char>, JsonView)>, n: nat) -> Option<PollMediaKind>
    decreases n,
{
    if n == 0 {
        None
    } else {
        match first_media_kind(entries, (n - 1) as nat) {
            Some(k) => Some(k),
            None => if has_key(entries, poll_media_key(poll_media_kind_at(n - 1))) {
                Some(poll_media_kind_at(n - 1))
            } else {
                None
            },
        }
    }
}

/// The kind of a poll media value: for an object, the first kind in the
/// lookup order whose key it holds; nothing for any other value.
pub open spec fn poll_media_kind_spec(value: JsonView) -> Option<PollMediaKind> {
    match value {
        JsonView::Object(entries) => first_media_kind(entries, 9),
        _ => None,
    }
}

fn object_has_key(entries: &Vec<(String, JsonValue)>, key: &str) -> (r: bool)
    ensures
        r == has_key(pairs_view(entries@), key@),
{
    let ghost view = pairs_view(entries@);
    let mut i: usize = 0;
    while i < entries.len()
        invariant
            i <= entries@.len(),
            view == pairs_view(entries@),
            forall|j: int| 0 <= j < i ==> view[j].0 != key@,
        decreases entries@.len() - i,
    {
        if str_eq(entries[i].0.as_str(), key) {
            assert(view[i as int].0 == key@);
            return true;
        }
        i = i + 1;
    }
    false
}

/// Picks the kind of a poll media value, the way a response is read: the first
/// media key in the lookup order that the object holds decides.
pub fn poll_media_kind_of(value: &JsonValue) -> (r: Option<PollMediaKind>)
    ensures
        r == poll_media_kind_spec(value.json()),
{
    match value {
        JsonValue::Object(entries) => {
            let ghost view = pairs_view(entries@);
            assert(value.json() == JsonView::Object(view)) by {
                assert(value.json()->Object_0 =~= view);
            }
            let mut i: usize = 0;
            while i < 9
                invariant
                    i <= 9,
                    view == pairs_view(entries@),
                    value.json() == JsonView::Object(view),
                    first_media_kind(view, i as nat) is None,
                decreases 9 - i,
            {
                let kind = poll_media_kind_at_exec(i);
                if object_has_key(entries, kind.key()) {
                    proof {
                        lemma_first_media_kind_stays(view, (i + 1) as nat, 9);
                    }
                    return Some(kind);
                }
                i = i + 1;
            }
            None
        },
        _ => None,
    }
}

/// Once a kind is found among the first `n`, a longer scan finds the same kind.
pub proof fn lemma_first_media_kind_stays(entries: Seq<(Seq<char>, JsonView)>, n: nat, m: nat)
    requires
        n <= m,
        first_media_kind(entries, n) is Some,
    ensures
        first_media_kind(entries, m) == first_media_kind(entries, n),
    decreases m - n,
{
    if n < m {
        lemma_first_media_kind_stays(entries, n, (m - 1) as nat);
    }
}

/// The entries of a poll media object other than its payload.
pub fn poll_media_extra(entries: &Vec<(String, JsonValue)>, media_key: &str) -> (r: Vec<(String, JsonValue)>)
    ensures
        pairs_view(r@) == without_key(pairs_view(entries@), media_key@),
{
    let mut out: Vec<(String, JsonValue)> = Vec::new();
    assert(pairs_view(out@) =~= Seq::<(Seq<char>, JsonView)>::empty());
    crate::chat_member::copy_without_key(entries, media_key, &mut out);
    assert(pairs_view(out@) =~= without_key(pairs_view(entries@), media_key@));
    out
}

/// The kind an unknown poll media object names: the key of its only entry.
pub open spec fn unknown_poll_media_kind_spec(value: JsonView) -> Option<Seq<char>> {
    match value {
        JsonView::Object(entries) => if entries.len() == 1 {
            Some(entries[0].0)
        } else {
            None
        },
        _ => None,
    }
}

/// The key of the only entry of an object, if it has exactly one.
pub fn unknown_poll_media_kind(value: &JsonValue) -> (r: Option<&str>)
    ensures
        match r {
            Some(s) => unknown_poll_media_kind_spec(value.json()) == Some(s@),
            None => unknown_poll_media_kind_spec(value.json()) is None,
        },
{
    match value {
        JsonValue::Object(entries) => {
            assert(value.json()->Object_0 =~= pairs_view(entries@));
            if entries.len() == 1 {
                Some(entries[0].0.as_str())
            } else {
                None
            }
        },
        _ => None,
    }
}

/// Media embedded in a poll description, quiz explanation or poll option. A
/// live photo, location, sticker or venue is held as the JSON it was read as.
#[derive(Debug)]
pub enum PollMedia {
    Animation { animation: Animation, extra: JsonMap },
    Audio { audio: Audio, extra: JsonMap },
    Document { document: Document, extra: JsonMap },
    LivePhoto { live_photo: JsonValue, extra: JsonMap },
    Location { location: JsonValue, extra: JsonMap },
    Photo { photo: Vec<PhotoSize>, extra: JsonMap },
    Sticker { sticker: JsonValue, extra: JsonMap },
    Venue { venue: JsonValue, extra: JsonMap },
    Video { video: Video, extra: JsonMap },
    /// Media of a kind this model does not know, kept as received.
    Unknown(JsonValue),
}

/// The kind of a poll media value: its variant's key, or for unknown media the
/// key of its only entry.
pub open spec fn poll_media_kind_name(media: PollMedia) -> Option<Seq<char>> {
    match media {
        PollMedia::Animation { .. } => Some("animation"@),
        PollMedia::Audio { .. } => Some("audio"@),
        PollMedia::Document { .. } => Some("document"@),
        PollMedia::LivePhoto { .. } => Some("live_photo"@),
        PollMedia::Location { .. } => Some("location"@),
        PollMedia::Photo { .. } => Some("photo"@),
        PollMedia::Sticker { .. } => Some("sticker"@),
        PollMedia::Venue { .. } => Some("venue"@),
        PollMedia::Video { .. } => Some("video"@),
        PollMedia::Unknown(v) => unknown_poll_media_kind_spec(v.json()),
    }
}

/// The fields of known poll media that this model does not name.
pub open spec fn poll_media_extra_map(media: PollMedia) -> Option<JsonMap> {
    match media {
        PollMedia::Animation { extra, .. } => Some(extra),
        PollMedia::Audio { extra, .. } => Some(extra),
        PollMedia::Document { extra, .. } => Some(extra),
        PollMedia::LivePhoto { extra, .. } => Some(extra),
        PollMedia::Location { extra, .. } => Some(extra),
        PollMedia::Photo { extra, .. } => Some(extra),
        PollMedia::Sticker { extra, .. } => Some(extra),
        PollMedia::Venue { extra, .. } => Some(extra),
        PollMedia::Video { extra, .. } => Some(extra),
        PollMedia::Unknown(_) => None,
    }
}

impl PollMedia {
    pub fn kind(&self) -> (r: Option<&str>)
        ensures
            match r {
                Some(s) => poll_media_kind_name(*self) == Some(s@),
                None => poll_media_kind_name(*self) is None,
            },
    {
        match self {
            PollMedia::Animation { .. } => Some("animation"),
            PollMedia::Audio { .. } => Some("audio"),
            PollMedia::Document { .. } => Some("document"),
            PollMedia::LivePhoto { .. } => Some("live_photo"),
            PollMedia::Location { .. } => Some("location"),
            PollMedia::Photo { .. } => Some("photo"),
            PollMedia::Sticker { .. } => Some("sticker"),
            PollMedia::Venue { .. } => Some("venue"),
            PollMedia::Video { .. } => Some("video"),
            PollMedia::Unknown(value) => unknown_poll_media_kind(value),
        }
    }

    pub fn is_unknown(&self) -> (r: bool)
        ensures
            r == (*self is Unknown),
    {
        matches!(self, PollMedia::Unknown(_))
    }

    pub fn as_animation(&self) -> (r: Option<&Animation>)
        ensures
            match r {
                Some(p) => *self matches PollMedia::Animation { animation: v, .. } && *p == v,
                None => !(*self is Animation),
            },
    {
        match self {
            PollMedia::Animation { animation, .. } => Some(animation),
            _ => None,
        }
    }

    pub fn as_audio(&self) -> (r: Option<&Audio>)
        ensures
            match r {
                Some(p) => *self matches PollMedia::Audio { audio: v, .. } && *p == v,
                None => !(*self is Audio),
            },
    {
        match self {
            PollMedia::Audio { audio, .. } => Some(audio),
            _ => None,
        }
    }

    pub fn as_document(&self) -> (r: Option<&Document>)
        ensures
            match r {
                Some(p) => *self matches PollMedia::Document { document: v, .. } && *p == v,
                None => !(*self is Document),
            },
    {
        match self {
            PollMedia::Document { document, .. } => Some(document),
            _ => None,
        }
    }

    pub fn as_live_photo(&self) -> (r: Option<&JsonValue>)
        ensures
            match r {
                Some(p) => *self matches PollMedia::LivePhoto { live_photo: v, .. } && *p == v,
                None => !(*self is LivePhoto),
            },
    {
        match self {
            PollMedia::LivePhoto { live_photo, .. } => Some(live_photo),
            _ => None,
        }
    }

    pub fn as_location(&self) -> (r: Option<&JsonValue>)
        ensures
            match r {
                Some(p) => *self matches PollMedia::Location { location: v, .. } && *p == v,
                None => !(*self is Location),
            },
    {
        match self {
            PollMedia::Location { location, .. } => Some(location),
            _ => None,
        }
    }

    pub fn as_photo(&self) -> (r: Option<&[PhotoSize]>)
        ensures
            match r {
                Some(p) => *self matches PollMedia::Photo { photo: v, .. } && p@ == v@,
                None => !(*self is Photo),
            },
    {
        match self {
            PollMedia::Photo { photo, .. } => Some(photo.as_slice()),
            _ => None,
        }
    }

    pub fn as_sticker(&self) -> (r: Option<&JsonValue>)
        ensures
            match r {
                Some(p) => *self matches PollMedia::Sticker { sticker: v, .. } && *p == v,
                None => !(*self is Sticker),
            },
    {
        match self {
            PollMedia::Sticker { sticker, .. } => Some(sticker),
            _ => None,
        }
    }

    pub fn as_venue(&self) -> (r: Option<&JsonValue>)
        ensures
            match r {
                Some(p) => *self matches PollMedia::Venue { venue: v, .. } && *p == v,
                None => !(*self is Venue),
            },
    {
        match self {
            PollMedia::Venue { venue, .. } => Some(venue),
            _ => None,
        }
    }

    pub fn as_video(&self) -> (r: Option<&Video>)
        ensures
            match r {
                Some(p) => *self matches PollMedia::Video { video: v, .. } && *p == v,
                None => !(*self is Video),
            },
    {
        match self {
            PollMedia::Video { video, .. } => Some(video),
            _ => None,
        }
    }

    pub fn as_unknown_value(&self) -> (r: Option<&JsonValue>)
        ensures
            r == match *self {
                PollMedia::Unknown(v) => Some(&v),
                _ => None,
            },
    {
        match self {
            PollMedia::Unknown(v) => Some(v),
            _ => None,
        }
    }

    pub fn extra(&self) -> (r: Option<&JsonMap>)
        ensures
            match r {
                Some(e) => poll_media_extra_map(*self) == Some(*e),
                None => poll_media_extra_map(*self) is None,
            },
    {
        match self {
            PollMedia::Animation { extra, .. } => Some(extra),
            PollMedia::Audio { extra, .. } => Some(extra),
            PollMedia::Document { extra, .. } => Some(extra),
            PollMedia::LivePhoto { extra, .. } => Some(extra),
            PollMedia::Location { extra, .. } => Some(extra),
            PollMedia::Photo { extra, .. } => Some(extra),
            PollMedia::Sticker { extra, .. } => Some(extra),
            PollMedia::Venue { extra, .. } => Some(extra),
            PollMedia::Video { extra, .. } => Some(extra),
            PollMedia::Unknown(_) => None,
        }
    }

    pub fn into_unknown_value(self) -> (r: Option<JsonValue>)
        ensures
            r == match self {
                PollMedia::Unknown(v) => Some(v),
                _ => None,
            },
    {
        match self {
            PollMedia::Unknown(v) => Some(v),
            _ => None,
        }
    }
}

/// Telegram poll option.
#[derive(Debug)]
pub struct PollOption {
    pub persistent_id: Option<String>,
    pub text: String,
    pub text_entities: Option<Vec<MessageEntity>>,
    pub media: Option<PollMedia>,
    pub voter_count: u64,
    pub added_by_user: Option<User>,
    pub added_by_chat: Option<Chat>,
    pub addition_date: Option<i64>,
    /// Fields of the response that this model does not name.
    pub extra: JsonMap,
}

/// Telegram poll object.
#[derive(Debug)]
pub struct Poll {
    pub id: String,
    pub question: String,
    pub question_entities: Option<Vec<MessageEntity>>,
    pub options: Vec<PollOption>,
    pub total_voter_count: u64,
    pub is_closed: bool,
    pub is_anonymous: bool,
    pub kind: PollKind,
    pub allows_multiple_answers: bool,
    pub correct_option_ids: Option<Vec<u32>>,
    pub explanation: Option<String>,
    pub explanation_entities: Option<Vec<MessageEntity>>,
    pub explanation_media: Option<PollMedia>,
    pub open_period: Option<u32>,
    pub close_date: Option<i64>,
    pub allows_revoting: Option<bool>,
    pub members_only: Option<bool>,
    pub country_codes: Option<Vec<String>>,
    pub description: Option<String>,
    pub description_entities: Option<Vec<MessageEntity>>,
    pub media: Option<PollMedia>,
    /// Fields of the response that this model does not name.
    pub extra: JsonMap,
}

/// Telegram phone contact object.
#[derive(Debug)]
pub struct Contact {
    pub phone_number: String,
    pub first_name: String,
    pub last_name: Option<String>,
    pub user_id: Option<UserId>,
    pub vcard: Option<String>,
    /// Fields of the response that this model does not name.
    pub extra: JsonMap,
}

/// Telegram animated dice object.
#[derive(Debug)]
pub struct Dice {
    pub emoji: DiceEmoji,
    pub value: u8,
    /// Fields of the response that this model does not name.
    pub extra: JsonMap,
}

/// Telegram checklist task.
#[derive(Debug)]
pub struct ChecklistTask {
    pub id: i64,
    pub text: String,
    pub text_entities: Option<Vec<MessageEntity>>,
    pub completed_by_user: Option<User>,
    pub completed_by_chat: Option<Chat>,
    pub completion_date: Option<i64>,
    /// Fields of the response that this model does not name.
    pub extra: JsonMap,
}

/// Telegram checklist payload.
#[derive(Debug)]
pub struct Checklist {
    pub title: String,
    pub title_entities: Option<Vec<MessageEntity>>,
    pub tasks: Vec<ChecklistTask>,
    pub others_can_add_tasks: bool,
    pub others_can_mark_tasks_as_done: bool,
    /// Fields of the response that this model does not name.
    pub extra: JsonMap,
}

/// Telegram game payload.
#[derive(Debug)]
pub struct Game {
    pub title: String,
    pub description: String,
    pub photo: Vec<PhotoSize>,
    pub text: Option<String>,
    pub text_entities: Option<Vec<MessageEntity>>,
    pub animation: Option<Animation>,
    /// Fields of the response that this model does not name.
    pub extra: JsonMap,
}

/// Telegram game high score entry.
#[derive(Debug)]
pub struct GameHighScore {
    pub position: i64,
    pub user: User,
    pub score: i64,
    /// Fields of the response that this model does not name.
    pub extra: JsonMap,
}

} // verus!
