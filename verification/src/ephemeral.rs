use vstd::prelude::*;

use crate::common::{user_id_failure, UserId};
use crate::error::{fail, failure, first_failure, Error};
use crate::validation::{string_id, string_id_failure};

verus! {

/// Parameters of a message that only one user of a chat sees.
#[derive(Clone, Debug)]
pub struct EphemeralMessageParameters {
    pub receiver_user_id: UserId,
    pub callback_query_id: Option<String>,
    pub replace_callback_query_message: Option<bool>,
}

/// Why `EphemeralMessageParameters` are refused.
pub open spec fn ephemeral_message_failure(p: EphemeralMessageParameters) -> Option<Seq<char>> {
    first_failure(
        user_id_failure(p.receiver_user_id),
        first_failure(
            match p.callback_query_id {
                Some(id) => string_id_failure("callback_query_id"@, id@),
                None => None,
            },
            if p.replace_callback_query_message == Some(true) && p.callback_query_id is None {
                Some("replacing a callback message requires callback_query_id"@)
            } else {
                None
            },
        ),
    )
}

impl EphemeralMessageParameters {
    pub fn new(receiver_user_id: UserId) -> (r: Self)
        ensures
            r.receiver_user_id == receiver_user_id,
            r.callback_query_id is None,
            r.replace_callback_query_message is None,
    {
        EphemeralMessageParameters {
            receiver_user_id,
            callback_query_id: None,
            replace_callback_query_message: None,
        }
    }

    pub fn validate(&self) -> (r: Result<(), Error>)
        ensures
            failure(r) == ephemeral_message_failure(*self),
    {
        let res = self.receiver_user_id.validate();
        if res.is_err() {
            return res;
        }
        if let Some(id) = &self.callback_query_id {
            let res = string_id("callback_query_id", id.as_str());
            if res.is_err() {
                return res;
            }
        }
        if self.replace_callback_query_message == Some(true) && self.callback_query_id.is_none() {
            return fail("replacing a callback message requires callback_query_id");
        }
        Ok(())
    }
}

} // verus!
