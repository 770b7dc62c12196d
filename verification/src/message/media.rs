use vstd::prelude::*;

use crate::chat_member::{tagged_field, tagged_field_spec};
use crate::json::{JsonMap, JsonValue};
use crate::message::common::{Chat, PhotoSize};

verus! {

/// Telegram animation file object.
#[derive(Debug)]
pub struct Animation {
    pub file_id: String,
    pub file_unique_id: String,
    pub width: u32,
    pub height: u32,
    pub duration: u32,
    pub thumbnail: Option<PhotoSize>,
    pub file_name: Option<String>,
    pub mime_type: Option<String>,
    pub file_size: Option<u64>,
    /// Fields of the response that this model does not name.
    pub extra: JsonMap,
}

/// Telegram audio file object.
#[derive(Debug)]
pub struct Audio {
    pub file_id: String,
    pub file_unique_id: String,
    pub duration: u32,
    pub performer: Option<String>,
    pub title: Option<String>,
    pub file_name: Option<String>,
    pub mime_type: Option<String>,
    pub file_size: Option<u64>,
    pub thumbnail: Option<PhotoSize>,
    /// Fields of the response that this model does not name.
    pub extra: JsonMap,
}

/// Telegram generic document object.
#[derive(Debug)]
pub struct Document {
    pub file_id: String,
    pub file_unique_id: String,
    pub thumbnail: Option<PhotoSize>,
    pub file_name: Option<String>,
    pub mime_type: Option<String>,
    pub file_size: Option<u64>,
    /// Fields of the response that this model does not name.
    pub extra: JsonMap,
}

/// Telegram story object.
#[derive(Debug)]
pub struct Story {
    pub chat: Chat,
    pub id: i64,
    /// Fields of the response that this model does not name.
    pub extra: JsonMap,
}

/// Telegram video quality descriptor.
#[derive(Debug)]
pub struct VideoQuality {
    pub file_id: String,
    pub file_unique_id: String,
    pub width: u32,
    pub height: u32,
    pub codec: String,
    pub file_size: Option<u64>,
    /// Fields of the response that this model does not name.
    pub extra: JsonMap,
}

/// Telegram video object.
#[derive(Debug)]
pub struct Video {
    pub file_id: String,
    pub file_unique_id: String,
    pub width: u32,
    pub height: u32,
    pub duration: u32,
    pub thumbnail: Option<PhotoSize>,
    pub cover: Option<Vec<PhotoSize>>,
    pub start_timestamp: Option<u32>,
    pub qualities: Option<Vec<VideoQuality>>,
    pub file_name: Option<String>,
    pub mime_type: Option<String>,
    pub file_size: Option<u64>,
    /// Fields of the response that this model does not name.
    pub extra: JsonMap,
}

/// Telegram video note object.
#[derive(Debug)]
pub struct VideoNote {
    pub file_id: String,
    pub file_unique_id: String,
    pub length: u32,
    pub duration: u32,
    pub thumbnail: Option<PhotoSize>,
    pub file_size: Option<u64>,
    /// Fields of the response that this model does not name.
    pub extra: JsonMap,
}

/// Telegram voice note object.
#[derive(Debug)]
pub struct Voice {
    pub file_id: String,
    pub file_unique_id: String,
    pub duration: u32,
    pub mime_type: Option<String>,
    pub file_size: Option<u64>,
    /// Fields of the response that this model does not name.
    pub extra: JsonMap,
}

/// Telegram paid media preview payload.
#[derive(Debug)]
pub struct PaidMediaPreview {
    pub width: Option<u32>,
    pub height: Option<u32>,
    pub duration: Option<u32>,
    /// Fields of the response that this model does not name.
    pub extra: JsonMap,
}

/// Telegram paid media photo payload.
#[derive(Debug)]
pub struct PaidMediaPhoto {
    pub photo: Vec<PhotoSize>,
    /// Fields of the response that this model does not name.
    pub extra: JsonMap,
}

/// Telegram paid media video payload.
#[derive(Debug)]
pub struct PaidMediaVideo {
    pub video: Box<Video>,
    /// Fields of the response that this model does not name.
    pub extra: JsonMap,
}

/// Telegram paid media payload, told apart by its `type` field.
#[derive(Debug)]
pub enum PaidMedia {
    Preview(PaidMediaPreview),
    Photo(PaidMediaPhoto),
    Video(Box<PaidMediaVideo>),
    /// A value of a type this model does not know, kept as received.
    Unknown(JsonValue),
}

/// The `type` of a `PaidMedia`: its variant's name, or for an unknown value the
/// `type` string it was read with.
pub open spec fn paid_media_kind(value: PaidMedia) -> Option<Seq<char>> {
    match value {
        PaidMedia::Preview(_) => Some("preview"@),
        PaidMedia::Photo(_) => Some("photo"@),
        PaidMedia::Video(_) => Some("video"@),
        PaidMedia::Unknown(v) => tagged_field_spec(v.json(), "type"@),
    }
}

impl PaidMedia {
    pub fn kind(&self) -> (r: Option<&str>)
        ensures
            match r {
                Some(s) => paid_media_kind(*self) == Some(s@),
                None => paid_media_kind(*self) is None,
            },
    {
        match self {
            PaidMedia::Preview(_) => Some("preview"),
            PaidMedia::Photo(_) => Some("photo"),
            PaidMedia::Video(_) => Some("video"),
            PaidMedia::Unknown(value) => tagged_field(value, "type"),
        }
    }

    pub fn is_preview(&self) -> (r: bool)
        ensures
            r == (*self is Preview),
    {
        matches!(self, PaidMedia::Preview(_))
    }

    pub fn as_preview(&self) -> (r: Option<&PaidMediaPreview>)
        ensures
            r == match *self {
                PaidMedia::Preview(v) => Some(&v),
                _ => None,
            },
    {
        match self {
            PaidMedia::Preview(v) => Some(v),
            _ => None,
        }
    }

    pub fn into_preview(self) -> (r: Option<PaidMediaPreview>)
        ensures
            r == match self {
                PaidMedia::Preview(v) => Some(v),
                _ => None,
            },
    {
        match self {
            PaidMedia::Preview(v) => Some(v),
            _ => None,
        }
    }

    pub fn is_photo(&self) -> (r: bool)
        ensures
            r == (*self is Photo),
    {
        matches!(self, PaidMedia::Photo(_))
    }

    pub fn as_photo(&self) -> (r: Option<&PaidMediaPhoto>)
        ensures
            r == match *self {
                PaidMedia::Photo(v) => Some(&v),
                _ => None,
            },
    {
        match self {
            PaidMedia::Photo(v) => Some(v),
            _ => None,
        }
    }

    pub fn into_photo(self) -> (r: Option<PaidMediaPhoto>)
        ensures
            r == match self {
                PaidMedia::Photo(v) => Some(v),
                _ => None,
            },
    {
        match self {
            PaidMedia::Photo(v) => Some(v),
            _ => None,
        }
    }

    pub fn is_video(&self) -> (r: bool)
        ensures
            r == (*self is Video),
    {
        matches!(self, PaidMedia::Video(_))
    }

    pub fn as_video(&self) -> (r: Option<&PaidMediaVideo>)
        ensures
            r == match *self {
                PaidMedia::Video(v) => Some(&*v),
                _ => None,
            },
    {
        match self {
            PaidMedia::Video(v) => Some(&**v),
            _ => None,
        }
    }

    pub fn into_video(self) -> (r: Option<PaidMediaVideo>)
        ensures
            r == match self {
                PaidMedia::Video(v) => Some(*v),
                _ => None,
            },
    {
        match self {
            PaidMedia::Video(v) => Some(*v),
            _ => None,
        }
    }

    pub fn as_unknown_value(&self) -> (r: Option<&JsonValue>)
        ensures
            r == match *self {
                PaidMedia::Unknown(v) => Some(&v),
                _ => None,
            },
    {
        match self {
            PaidMedia::Unknown(v) => Some(v),
            _ => None,
        }
    }

    pub fn into_unknown_value(self) -> (r: Option<JsonValue>)
        ensures
            r == match self {
                PaidMedia::Unknown(v) => Some(v),
                _ => None,
            },
    {
        match self {
            PaidMedia::Unknown(v) => Some(v),
            _ => None,
        }
    }
}

/// Telegram paid media info.
#[derive(Debug)]
pub struct PaidMediaInfo {
    pub star_count: u64,
    pub paid_media: Vec<PaidMedia>,
    /// Fields of the response that this model does not name.
    pub extra: JsonMap,
}
} // verus!
