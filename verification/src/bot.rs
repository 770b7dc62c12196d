use vstd::prelude::*;

use crate::common::{user_id_failure, UserId};
use crate::error::{fail, failure, first_failure, Error};
use crate::json::{
    append_extra_fields, is_reserved, pairs_view, push_entry, visible_extra, JsonMap, JsonValue,
    JsonView,
};
use crate::message::common::PhotoSize;
use crate::message::media::Audio;

verus! {

pub const MAX_USER_PROFILE_PHOTOS_LIMIT: u8 = 100;

/// Telegram user object.
#[derive(Debug)]
pub struct User {
    pub id: UserId,
    pub is_bot: bool,
    pub first_name: String,
    pub last_name: Option<String>,
    pub username: Option<String>,
    pub language_code: Option<String>,
    /// Fields of the response that this model does not name.
    pub extra: JsonMap,
}

/// An entry for an optional text field: present only when the field is set.
pub open spec fn opt_text_entry(key: Seq<char>, value: Option<String>) -> Seq<(Seq<char>, JsonView)> {
    match value {
        Some(s) => seq![(key, JsonView::Text(s@))],
        None => Seq::empty(),
    }
}

/// The keys that a user's own fields occupy.
pub open spec fn user_reserved() -> Seq<&'static str> {
    seq!["id", "is_bot", "first_name", "last_name", "username", "language_code"]
}

/// The typed fields of a user, in order, without its extra entries.
pub open spec fn user_core_entries(user: User) -> Seq<(Seq<char>, JsonView)> {
    seq![
        ("id"@, JsonView::Int(user.id.0)),
        ("is_bot"@, JsonView::Bool(user.is_bot)),
        ("first_name"@, JsonView::Text(user.first_name@)),
    ] + opt_text_entry("last_name"@, user.last_name) + opt_text_entry("username"@, user.username)
        + opt_text_entry("language_code"@, user.language_code)
}

/// The entries of a serialized user: its typed fields, then the extra entries
/// whose key no typed field uses.
pub open spec fn user_entries(user: User) -> Seq<(Seq<char>, JsonView)> {
    user_core_entries(user) + visible_extra(user.extra.pairs(), user_reserved())
}

/// Appends an entry for an optional text field.
pub fn push_opt_text(out: &mut Vec<(String, JsonValue)>, key: &str, value: &Option<String>)
    ensures
        pairs_view(final(out)@) == pairs_view(old(out)@) + opt_text_entry(key@, *value),
{
    let ghost before = out@;
    match value {
        Some(s) => {
            out.push((key.to_owned(), JsonValue::Text(s.clone())));
            assert(pairs_view(out@) =~= pairs_view(before) + opt_text_entry(key@, *value));
        },
        None => {
            assert(pairs_view(out@) =~= pairs_view(before) + opt_text_entry(key@, *value));
        },
    }
}

fn user_reserved_keys() -> (r: [&'static str; 6])
    ensures
        r@ == user_reserved(),
{
    let r = ["id", "is_bot", "first_name", "last_name", "username", "language_code"];
    assert(r@ =~= user_reserved());
    r
}

impl User {
    /// Appends the typed fields of the user.
    pub fn push_core_entries(&self, out: &mut Vec<(String, JsonValue)>)
        ensures
            pairs_view(final(out)@) == pairs_view(old(out)@) + user_core_entries(*self),
    {
        let ghost start = pairs_view(out@);
        push_entry(out, "id", JsonValue::Int(self.id.0));
        push_entry(out, "is_bot", JsonValue::Bool(self.is_bot));
        push_entry(out, "first_name", JsonValue::Text(self.first_name.clone()));
        push_opt_text(out, "last_name", &self.last_name);
        push_opt_text(out, "username", &self.username);
        push_opt_text(out, "language_code", &self.language_code);
        assert(pairs_view(out@) =~= start + user_core_entries(*self));
    }

    /// The JSON object Telegram receives for this user. An extra entry never
    /// replaces a typed field: extra entries under the user's own keys are left
    /// out.
    pub fn to_json(&self) -> (r: JsonValue)
        ensures
            r matches JsonValue::Object(entries) && pairs_view(entries@) == user_entries(*self),
    {
        let mut out: Vec<(String, JsonValue)> = Vec::new();
        assert(pairs_view(out@) =~= Seq::<(Seq<char>, JsonView)>::empty());
        self.push_core_entries(&mut out);
        let reserved = user_reserved_keys();
        append_extra_fields(&mut out, &self.extra, &reserved);
        assert(pairs_view(out@) =~= user_entries(*self));
        JsonValue::Object(out)
    }
}

/// In a serialized user, the entries under the user's own keys are exactly its
/// typed fields, and every extra entry under another key is kept.
pub proof fn lemma_user_extra_cannot_override(user: User)
    ensures
        forall|i: int|
            0 <= i < user_entries(user).len() ==> (is_reserved(
                #[trigger] user_entries(user)[i].0,
                user_reserved(),
            ) <==> i < user_core_entries(user).len()),
        forall|j: int|
            0 <= j < user.extra.pairs().len() && !is_reserved(
                #[trigger] user.extra.pairs()[j].0@,
                user_reserved(),
            ) ==> user_entries(user).contains(
                (user.extra.pairs()[j].0@, user.extra.pairs()[j].1.json()),
            ),
{
    let core = user_core_entries(user);
    let extra = visible_extra(user.extra.pairs(), user_reserved());
    let all = user_entries(user);
    crate::json::lemma_visible_extra_not_reserved(user.extra.pairs(), user_reserved());
    let reserved = user_reserved();
    assert forall|i: int| 0 <= i < all.len() implies (is_reserved(#[trigger] all[i].0, reserved)
        <==> i < core.len()) by {
        if i < core.len() {
            assert(all[i] == core[i]);
            let k = core[i].0;
            let ghost n = if k == "id"@ { 0int } else if k == "is_bot"@ { 1 } else if k == "first_name"@ { 2 } else if k == "last_name"@ { 3 } else if k == "username"@ { 4 } else { 5 };
            assert(reserved[n]@ == k);
        } else {
            assert(all[i] == extra[i - core.len()]);
        }
    }
    assert forall|j: int|
        0 <= j < user.extra.pairs().len() && !is_reserved(#[trigger] user.extra.pairs()[j].0@, reserved)
        implies all.contains((user.extra.pairs()[j].0@, user.extra.pairs()[j].1.json())) by {
        crate::json::lemma_visible_extra_keeps_unreserved(user.extra.pairs(), reserved, j);
        let k = choose|k: int| 0 <= k < extra.len() && extra[k] == (user.extra.pairs()[j].0@, user.extra.pairs()[j].1.json());
        assert(all[core.len() + k] == extra[k]);
    }
}

/// Telegram user profile photos object.
#[derive(Debug)]
pub struct UserProfilePhotos {
    pub total_count: u64,
    pub photos: Vec<Vec<PhotoSize>>,
}

/// Telegram user profile audios object.
#[derive(Debug)]
pub struct UserProfileAudios {
    pub total_count: u64,
    pub audios: Vec<Audio>,
    /// Fields of the response that this model does not name.
    pub extra: JsonMap,
}

/// `getUserProfilePhotos` request.
#[derive(Clone, Copy, Debug)]
pub struct GetUserProfilePhotosRequest {
    pub user_id: UserId,
    pub offset: Option<u32>,
    pub limit: Option<u8>,
}

/// Why a `GetUserProfilePhotosRequest` is refused.
pub open spec fn get_user_profile_photos_failure(r: GetUserProfilePhotosRequest) -> Option<Seq<char>> {
    first_failure(
        user_id_failure(r.user_id),
        match r.limit {
            Some(limit) => if limit == 0 || limit > MAX_USER_PROFILE_PHOTOS_LIMIT {
                Some("getUserProfilePhotos limit must be 1-100"@)
            } else {
                None
            },
            None => None,
        },
    )
}

impl GetUserProfilePhotosRequest {
    pub fn new(user_id: UserId) -> (r: Self)
        ensures
            r == (GetUserProfilePhotosRequest { user_id, offset: None, limit: None }),
    {
        GetUserProfilePhotosRequest { user_id, offset: None, limit: None }
    }

    pub fn validate(&self) -> (r: Result<(), Error>)
        ensures
            failure(r) == get_user_profile_photos_failure(*self),
    {
        let res = self.user_id.validate();
        if res.is_err() {
            return res;
        }
        if let Some(limit) = self.limit {
            if limit == 0 || limit > MAX_USER_PROFILE_PHOTOS_LIMIT {
                return fail("getUserProfilePhotos limit must be 1-100");
            }
        }
        Ok(())
    }
}

} // verus!
