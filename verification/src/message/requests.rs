use vstd::prelude::*;

use crate::common::{chat_id_failure, message_id_failure, ChatId, ChatIdView, MessageId};
use crate::error::{failure, first_failure, invalid_request, Error};
use crate::common::ParseMode;
use crate::error::fail;
use crate::message::common::MessageEntity;
use crate::message::content::{DiceEmoji, PollKind};
use crate::json::{JsonMap, JsonValue};
use crate::message::model::Message;
use crate::text::{
    concat2, fail2, has_control, has_display_control, is_blank, required_text_failure, scan_text,
    validate_required_text,
};
use crate::validation::{
    optional_positive_i64, optional_positive_i64_failure, optional_required_text,
    optional_required_text_failure, string_id, string_id_failure,
};

verus! {

pub const MAX_BULK_MESSAGE_IDS: usize = 100;

/// The view of an optional chat id.
pub open spec fn opt_chat_view(chat_id: Option<ChatId>) -> Option<ChatIdView> {
    match chat_id {
        Some(c) => Some(c@),
        None => None,
    }
}

/// Why the target of an edit is refused: the parts given must be valid, and
/// the message is named either by chat and message id or by inline id alone.
pub open spec fn edit_target_failure(
    chat_id: Option<ChatIdView>,
    message_id: Option<MessageId>,
    inline_message_id: Option<Seq<char>>,
) -> Option<Seq<char>> {
    let chat = match chat_id {
        Some(c) => chat_id_failure(c),
        None => None,
    };
    let message = match message_id {
        Some(m) => message_id_failure(m),
        None => None,
    };
    let inline = match inline_message_id {
        Some(s) => string_id_failure("inline_message_id"@, s),
        None => None,
    };
    let shape = if inline_message_id is Some {
        if chat_id is Some || message_id is Some {
            Some("method accepts either chat_id with message_id or inline_message_id, not both"@)
        } else {
            None
        }
    } else if chat_id is Some && message_id is Some {
        None
    } else {
        Some("method requires either chat_id with message_id or inline_message_id"@)
    };
    first_failure(chat, first_failure(message, first_failure(inline, shape)))
}

/// Checks which message an edit targets.
pub fn validate_edit_target(
    chat_id: &Option<ChatId>,
    message_id: Option<MessageId>,
    inline_message_id: &Option<String>,
) -> (r: Result<(), Error>)
    ensures
        failure(r) == edit_target_failure(
            opt_chat_view(*chat_id),
            message_id,
            match *inline_message_id {
                Some(s) => Some(s@),
                None => None,
            },
        ),
{
    if let Some(c) = chat_id {
        let res = c.validate();
        if res.is_err() {
            return res;
        }
    }
    if let Some(m) = message_id {
        let res = m.validate();
        if res.is_err() {
            return res;
        }
    }
    if let Some(s) = inline_message_id {
        let res = string_id("inline_message_id", s.as_str());
        if res.is_err() {
            return res;
        }
    }
    if inline_message_id.is_some() {
        if chat_id.is_some() || message_id.is_some() {
            return crate::error::fail(
                "method accepts either chat_id with message_id or inline_message_id, not both",
            );
        }
        return Ok(());
    }
    if chat_id.is_some() && message_id.is_some() {
        return Ok(());
    }
    crate::error::fail("method requires either chat_id with message_id or inline_message_id")
}

/// An earlier id of the list equals the id at `i`.
pub open spec fn repeats_earlier_id(ids: Seq<MessageId>, i: int) -> bool {
    exists|j: int| 0 <= j < i && #[trigger] ids[j] == ids[i]
}

/// Why the id at `i` is refused, given that all earlier ids passed.
pub open spec fn bulk_entry_failure(method: Seq<char>, ids: Seq<MessageId>, i: int) -> Option<
    Seq<char>,
> {
    first_failure(
        message_id_failure(ids[i]),
        if repeats_earlier_id(ids, i) {
            Some(method + " message ids must be unique"@)
        } else {
            None
        },
    )
}

/// The first refusal among the first `n` ids, in list order.
pub open spec fn bulk_prefix_failure(method: Seq<char>, ids: Seq<MessageId>, n: nat) -> Option<
    Seq<char>,
>
    decreases n,
{
    if n == 0 {
        None
    } else {
        first_failure(bulk_prefix_failure(method, ids, (n - 1) as nat), bulk_entry_failure(method, ids, n - 1))
    }
}

/// Why a list of message ids is refused: it must hold 1 to 100 valid ids, none twice.
pub open spec fn bulk_message_ids_failure(method: Seq<char>, ids: Seq<MessageId>) -> Option<
    Seq<char>,
> {
    if ids.len() == 0 {
        Some(method + " requires at least one message id"@)
    } else if ids.len() > MAX_BULK_MESSAGE_IDS {
        Some(method + " accepts at most 100 message ids"@)
    } else {
        bulk_prefix_failure(method, ids, ids.len())
    }
}

/// Each id is greater than every id before it.
pub open spec fn strictly_increasing(ids: Seq<MessageId>) -> bool {
    forall|a: int, b: int| 0 <= a < b < ids.len() ==> #[trigger] ids[a].0 < #[trigger] ids[b].0
}

/// Why a list of message ids that must also be in increasing order is refused.
pub open spec fn ordered_bulk_message_ids_failure(method: Seq<char>, ids: Seq<MessageId>) -> Option<
    Seq<char>,
> {
    first_failure(
        bulk_message_ids_failure(method, ids),
        if strictly_increasing(ids) {
            None
        } else {
            Some(method + " message ids must be strictly increasing"@)
        },
    )
}

/// Where the first `n` ids pass, no two of them are equal.
pub proof fn lemma_bulk_prefix_distinct(method: Seq<char>, ids: Seq<MessageId>, n: nat)
    requires
        n <= ids.len(),
        bulk_prefix_failure(method, ids, n) is None,
    ensures
        forall|a: int, b: int| 0 <= a < b < n ==> ids[a] != ids[b],
    decreases n,
{
    if n > 0 {
        lemma_bulk_prefix_distinct(method, ids, (n - 1) as nat);
        assert(!repeats_earlier_id(ids, n - 1));
        assert forall|a: int, b: int| 0 <= a < b < n implies ids[a] != ids[b] by {
            if b == n - 1 && ids[a] == ids[b] {
                assert(repeats_earlier_id(ids, n - 1));
            }
        }
    }
}

/// A list of message ids that the checks accept holds no id twice, and holds
/// between one and a hundred ids.
pub proof fn lemma_accepted_ids_distinct(method: Seq<char>, ids: Seq<MessageId>)
    requires
        bulk_message_ids_failure(method, ids) is None,
    ensures
        1 <= ids.len() <= MAX_BULK_MESSAGE_IDS,
        forall|a: int, b: int| 0 <= a < b < ids.len() ==> ids[a] != ids[b],
{
    lemma_bulk_prefix_distinct(method, ids, ids.len());
}

/// A list of ids in which some id comes twice is refused, whatever else it holds.
pub proof fn lemma_repeated_id_refused(method: Seq<char>, ids: Seq<MessageId>, a: int, b: int)
    requires
        0 <= a < b < ids.len(),
        ids[a] == ids[b],
    ensures
        bulk_message_ids_failure(method, ids) is Some,
{
    if ids.len() <= MAX_BULK_MESSAGE_IDS && bulk_message_ids_failure(method, ids) is None {
        lemma_accepted_ids_distinct(method, ids);
    }
}

/// Where the first `n` ids are valid and no two are equal, they pass.
pub proof fn lemma_bulk_prefix_passes(method: Seq<char>, ids: Seq<MessageId>, n: nat)
    requires
        n <= ids.len(),
        forall|i: int| 0 <= i < n ==> message_id_failure(#[trigger] ids[i]) is None,
        forall|a: int, b: int| 0 <= a < b < n ==> ids[a] != ids[b],
    ensures
        bulk_prefix_failure(method, ids, n) is None,
    decreases n,
{
    if n > 0 {
        lemma_bulk_prefix_passes(method, ids, (n - 1) as nat);
        assert(message_id_failure(ids[n - 1]) is None);
        assert(!repeats_earlier_id(ids, n - 1));
    }
}

/// A list of one to a hundred valid ids, no two equal, is accepted.
pub proof fn lemma_distinct_ids_accepted(method: Seq<char>, ids: Seq<MessageId>)
    requires
        1 <= ids.len() <= MAX_BULK_MESSAGE_IDS,
        forall|i: int| 0 <= i < ids.len() ==> message_id_failure(#[trigger] ids[i]) is None,
        forall|a: int, b: int| 0 <= a < b < ids.len() ==> ids[a] != ids[b],
    ensures
        bulk_message_ids_failure(method, ids) is None,
{
    lemma_bulk_prefix_passes(method, ids, ids.len());
}

/// Once a prefix of the list has failed, every longer prefix reports that failure.
pub proof fn lemma_bulk_prefix_failure_stays(method: Seq<char>, ids: Seq<MessageId>, n: nat, m: nat)
    requires
        n <= m,
        bulk_prefix_failure(method, ids, n) is Some,
    ensures
        bulk_prefix_failure(method, ids, m) == bulk_prefix_failure(method, ids, n),
    decreases m - n,
{
    if n < m {
        lemma_bulk_prefix_failure_stays(method, ids, n, (m - 1) as nat);
    }
}

fn has_earlier_id(ids: &[MessageId], i: usize) -> (r: bool)
    requires
        i < ids@.len(),
    ensures
        r == repeats_earlier_id(ids@, i as int),
{
    let mut j: usize = 0;
    while j < i
        invariant
            j <= i,
            i < ids@.len(),
            forall|k: int| 0 <= k < j ==> ids@[k] != ids@[i as int],
        decreases i - j,
    {
        if ids[j].0 == ids[i].0 {
            assert(ids@[j as int] == ids@[i as int]);
            return true;
        }
        j = j + 1;
    }
    false
}

/// Checks a list of message ids for a bulk method.
pub fn validate_bulk_message_ids(method: &str, ids: &[MessageId]) -> (r: Result<(), Error>)
    ensures
        failure(r) == bulk_message_ids_failure(method@, ids@),
{
    if ids.len() == 0 {
        return fail2(method, " requires at least one message id");
    }
    if ids.len() > MAX_BULK_MESSAGE_IDS {
        return fail2(method, " accepts at most 100 message ids");
    }
    let mut i: usize = 0;
    while i < ids.len()
        invariant
            i <= ids@.len(),
            0 < ids@.len() <= MAX_BULK_MESSAGE_IDS,
            bulk_prefix_failure(method@, ids@, i as nat) is None,
        decreases ids@.len() - i,
    {
        let res = ids[i].validate();
        if res.is_err() {
            assert(bulk_prefix_failure(method@, ids@, (i + 1) as nat) == failure(res));
            proof { lemma_bulk_prefix_failure_stays(method@, ids@, (i + 1) as nat, ids@.len()); }
            return res;
        }
        if has_earlier_id(ids, i) {
            let res = fail2(method, " message ids must be unique");
            assert(bulk_prefix_failure(method@, ids@, (i + 1) as nat) == failure(res));
            proof { lemma_bulk_prefix_failure_stays(method@, ids@, (i + 1) as nat, ids@.len()); }
            return res;
        }
        i = i + 1;
    }
    Ok(())
}

/// Checks a list of message ids that must also be in increasing order.
pub fn validate_ordered_bulk_message_ids(method: &str, ids: &[MessageId]) -> (r: Result<(), Error>)
    ensures
        failure(r) == ordered_bulk_message_ids_failure(method@, ids@),
{
    let res = validate_bulk_message_ids(method, ids);
    if res.is_err() {
        return res;
    }
    let mut k: usize = 1;
    while k < ids.len()
        invariant
            1 <= k <= ids@.len(),
            bulk_message_ids_failure(method@, ids@) is None,
            forall|a: int, b: int| 0 <= a < b < k ==> #[trigger] ids@[a].0 < #[trigger] ids@[b].0,
        decreases ids@.len() - k,
    {
        if ids[k].0 <= ids[k - 1].0 {
            assert(!strictly_increasing(ids@)) by {
                assert(!(ids@[k - 1].0 < ids@[k as int].0));
            }
            return fail2(method, " message ids must be strictly increasing");
        }
        assert forall|a: int, b: int| 0 <= a < b < k + 1 implies #[trigger] ids@[a].0
            < #[trigger] ids@[b].0 by {
            if b == k && a < k - 1 {
                assert(ids@[a].0 < ids@[k - 1].0);
            }
        }
        k = k + 1;
    }
    Ok(())
}

/// Why a file id, URL or `attach://` reference is refused.
pub open spec fn file_reference_failure(label: Seq<char>, value: Seq<char>) -> Option<Seq<char>> {
    if is_blank(value) {
        Some(label + " cannot be empty"@)
    } else if has_control(value) {
        Some(label + " must not contain control characters"@)
    } else {
        None
    }
}

/// Checks a file id, URL or `attach://` reference.
pub fn validate_file_reference(label: &str, value: &str) -> (r: Result<(), Error>)
    ensures
        failure(r) == file_reference_failure(label@, value@),
{
    let scan = scan_text(value);
    if scan.blank {
        return fail2(label, " cannot be empty");
    }
    if scan.control {
        return fail2(label, " must not contain control characters");
    }
    Ok(())
}

/// Why a file reference that must be given is refused.
pub open spec fn required_file_reference_failure(label: Seq<char>, value: Option<String>) -> Option<
    Seq<char>,
> {
    match value {
        Some(v) => file_reference_failure(label, v@),
        None => Some(label + " is required"@),
    }
}

/// Why a file reference that may be left out is refused.
pub open spec fn optional_file_reference_failure(label: Seq<char>, value: Option<String>) -> Option<
    Seq<char>,
> {
    match value {
        Some(v) => file_reference_failure(label, v@),
        None => None,
    }
}

fn validate_required_file_reference(label: &str, value: &Option<String>) -> (r: Result<(), Error>)
    ensures
        failure(r) == required_file_reference_failure(label@, *value),
{
    match value {
        Some(v) => validate_file_reference(label, v.as_str()),
        None => fail2(label, " is required"),
    }
}

pub(crate) fn validate_optional_file_reference(label: &str, value: &Option<String>) -> (r: Result<(), Error>)
    ensures
        failure(r) == optional_file_reference_failure(label@, *value),
{
    match value {
        Some(v) => validate_file_reference(label, v.as_str()),
        None => Ok(()),
    }
}

/// Why an optional count that must be positive is refused.
pub open spec fn positive_u32_failure(field: Seq<char>, value: Option<u32>) -> Option<Seq<char>> {
    if value == Some(0u32) {
        Some(field + " must be greater than 0"@)
    } else {
        None
    }
}

pub(crate) fn validate_positive_u32(field: &str, value: Option<u32>) -> (r: Result<(), Error>)
    ensures
        failure(r) == positive_u32_failure(field@, value),
{
    if value == Some(0u32) {
        return fail2(field, " must be greater than 0");
    }
    Ok(())
}

/// The checks on where a message goes and how it is sent that most send
/// requests share: the business connection, the chat, the thread, the direct
/// messages topic and the message effect.
pub open spec fn send_options_failure(
    business_connection_id: Option<String>,
    chat_id: ChatIdView,
    message_thread_id: Option<i64>,
    direct_messages_topic_id: Option<i64>,
    message_effect_id: Option<String>,
) -> Option<Seq<char>> {
    first_failure(
        optional_required_text_failure("business_connection_id"@, business_connection_id),
        first_failure(
            chat_id_failure(chat_id),
            first_failure(
                optional_positive_i64_failure("message_thread_id"@, message_thread_id),
                first_failure(
                    optional_positive_i64_failure(
                        "direct_messages_topic_id"@,
                        direct_messages_topic_id,
                    ),
                    optional_required_text_failure("message_effect_id"@, message_effect_id),
                ),
            ),
        ),
    )
}

/// Checks the options that most send requests share, in the order the requests check them.
pub fn validate_send_options(
    business_connection_id: &Option<String>,
    chat_id: &ChatId,
    message_thread_id: Option<i64>,
    direct_messages_topic_id: Option<i64>,
    message_effect_id: &Option<String>,
) -> (r: Result<(), Error>)
    ensures
        failure(r) == send_options_failure(
            *business_connection_id,
            chat_id@,
            message_thread_id,
            direct_messages_topic_id,
            *message_effect_id,
        ),
{
    let res = optional_required_text("business_connection_id", business_connection_id);
    if res.is_err() {
        return res;
    }
    let res = chat_id.validate();
    if res.is_err() {
        return res;
    }
    let res = optional_positive_i64("message_thread_id", message_thread_id);
    if res.is_err() {
        return res;
    }
    let res = optional_positive_i64("direct_messages_topic_id", direct_messages_topic_id);
    if res.is_err() {
        return res;
    }
    optional_required_text("message_effect_id", message_effect_id)
}

#[derive(Clone, Debug)]
pub struct CopyMessagesRequest {
    pub chat_id: ChatId,
    pub message_thread_id: Option<i64>,
    pub direct_messages_topic_id: Option<i64>,
    pub from_chat_id: ChatId,
    pub message_ids: Vec<MessageId>,
    pub disable_notification: Option<bool>,
    pub protect_content: Option<bool>,
    pub remove_caption: Option<bool>,
}

/// Why a `CopyMessagesRequest` is refused.
pub open spec fn copy_messages_failure(r: CopyMessagesRequest) -> Option<Seq<char>> {
    first_failure(
        chat_id_failure(r.chat_id@),
        first_failure(
            chat_id_failure(r.from_chat_id@),
            first_failure(
                optional_positive_i64_failure("message_thread_id"@, r.message_thread_id),
                first_failure(
                    optional_positive_i64_failure(
                        "direct_messages_topic_id"@,
                        r.direct_messages_topic_id,
                    ),
                    ordered_bulk_message_ids_failure("copyMessages"@, r.message_ids@),
                ),
            ),
        ),
    )
}

/// Why `CopyMessagesRequest::new` refuses its arguments.
pub open spec fn copy_messages_new_failure(
    chat_id: ChatIdView,
    from_chat_id: ChatIdView,
    message_ids: Seq<MessageId>,
) -> Option<Seq<char>> {
    first_failure(
        chat_id_failure(chat_id),
        first_failure(
            chat_id_failure(from_chat_id),
            ordered_bulk_message_ids_failure("copyMessages"@, message_ids),
        ),
    )
}

impl CopyMessagesRequest {
    pub fn new(chat_id: ChatId, from_chat_id: ChatId, message_ids: Vec<MessageId>) -> (r: Result<
        Self,
        Error,
    >)
        ensures
            copy_messages_new_failure(chat_id@, from_chat_id@, message_ids@) is None ==> (r matches Ok(
                req,
            ) && req.chat_id == chat_id && req.from_chat_id == from_chat_id && req.message_ids@
                == message_ids@ && req.message_thread_id is None && req.direct_messages_topic_id is None
                && req.disable_notification is None && req.protect_content is None
                && req.remove_caption is None),
            copy_messages_new_failure(chat_id@, from_chat_id@, message_ids@) matches Some(reason) ==> (
            r matches Err(Error::InvalidRequest { reason: e }) && e@ == reason),
    {
        if let Err(e) = chat_id.validate() {
            return Err(e);
        }
        if let Err(e) = from_chat_id.validate() {
            return Err(e);
        }
        if let Err(e) = validate_ordered_bulk_message_ids("copyMessages", message_ids.as_slice()) {
            return Err(e);
        }
        Ok(CopyMessagesRequest {
            chat_id,
            message_thread_id: None,
            direct_messages_topic_id: None,
            from_chat_id,
            message_ids,
            disable_notification: None,
            protect_content: None,
            remove_caption: None,
        })
    }

    pub fn validate(&self) -> (r: Result<(), Error>)
        ensures
            failure(r) == copy_messages_failure(*self),
    {
        let res = self.chat_id.validate();
        if res.is_err() {
            return res;
        }
        let res = self.from_chat_id.validate();
        if res.is_err() {
            return res;
        }
        let res = optional_positive_i64("message_thread_id", self.message_thread_id);
        if res.is_err() {
            return res;
        }
        let res = optional_positive_i64("direct_messages_topic_id", self.direct_messages_topic_id);
        if res.is_err() {
            return res;
        }
        validate_ordered_bulk_message_ids("copyMessages", self.message_ids.as_slice())
    }
}

#[derive(Clone, Debug)]
pub struct DeleteMessageRequest {
    pub chat_id: ChatId,
    pub message_id: MessageId,
}

/// Why a `DeleteMessageRequest` is refused.
pub open spec fn delete_message_failure(r: DeleteMessageRequest) -> Option<Seq<char>> {
    first_failure(chat_id_failure(r.chat_id@), message_id_failure(r.message_id))
}

impl DeleteMessageRequest {
    pub fn new(chat_id: ChatId, message_id: MessageId) -> (r: Self)
        ensures
            r.chat_id == chat_id,
            r.message_id == message_id,
    {
        DeleteMessageRequest { chat_id, message_id }
    }

    pub fn validate(&self) -> (r: Result<(), Error>)
        ensures
            failure(r) == delete_message_failure(*self),
    {
        let res = self.chat_id.validate();
        if res.is_err() {
            return res;
        }
        self.message_id.validate()
    }
}

#[derive(Clone, Debug)]
pub struct DeleteMessagesRequest {
    pub chat_id: ChatId,
    pub message_ids: Vec<MessageId>,
}

/// Why a `DeleteMessagesRequest` is refused.
pub open spec fn delete_messages_failure(chat_id: ChatIdView, message_ids: Seq<MessageId>) -> Option<
    Seq<char>,
> {
    first_failure(chat_id_failure(chat_id), bulk_message_ids_failure("deleteMessages"@, message_ids))
}

impl DeleteMessagesRequest {
    pub fn new(chat_id: ChatId, message_ids: Vec<MessageId>) -> (r: Result<Self, Error>)
        ensures
            delete_messages_failure(chat_id@, message_ids@) is None ==> (r matches Ok(req)
                && req.chat_id == chat_id && req.message_ids@ == message_ids@),
            delete_messages_failure(chat_id@, message_ids@) matches Some(reason) ==> (r matches Err(
                Error::InvalidRequest { reason: e },
            ) && e@ == reason),
    {
        if let Err(e) = chat_id.validate() {
            return Err(e);
        }
        if let Err(e) = validate_bulk_message_ids("deleteMessages", message_ids.as_slice()) {
            return Err(e);
        }
        Ok(DeleteMessagesRequest { chat_id, message_ids })
    }

    pub fn validate(&self) -> (r: Result<(), Error>)
        ensures
            failure(r) == delete_messages_failure(self.chat_id@, self.message_ids@),
    {
        let res = self.chat_id.validate();
        if res.is_err() {
            return res;
        }
        validate_bulk_message_ids("deleteMessages", self.message_ids.as_slice())
    }
}

#[derive(Debug)]
pub struct EditMessageReplyMarkupRequest {
    pub chat_id: Option<ChatId>,
    pub message_id: Option<MessageId>,
    pub inline_message_id: Option<String>,
    /// Reply markup, as JSON; its fields are not checked here.
    pub reply_markup: Option<JsonValue>,
}

impl EditMessageReplyMarkupRequest {
    pub fn validate(&self) -> (r: Result<(), Error>)
        ensures
            failure(r) == edit_target_failure(
                opt_chat_view(self.chat_id),
                self.message_id,
                match self.inline_message_id {
                    Some(s) => Some(s@),
                    None => None,
                },
            ),
    {
        validate_edit_target(&self.chat_id, self.message_id, &self.inline_message_id)
    }
}

#[derive(Debug)]
pub struct ForwardMessageRequest {
    pub chat_id: ChatId,
    pub message_thread_id: Option<i64>,
    pub direct_messages_topic_id: Option<i64>,
    pub from_chat_id: ChatId,
    pub video_start_timestamp: Option<u32>,
    pub disable_notification: Option<bool>,
    pub protect_content: Option<bool>,
    pub message_effect_id: Option<String>,
    pub message_id: MessageId,
    /// Suggested-post parameters, as JSON; their fields are not checked here.
    pub suggested_post_parameters: Option<JsonValue>,
}

/// Why a `ForwardMessageRequest` is refused.
pub open spec fn forward_message_failure(r: ForwardMessageRequest) -> Option<Seq<char>> {
    first_failure(
        chat_id_failure(r.chat_id@),
        first_failure(
            chat_id_failure(r.from_chat_id@),
            first_failure(
                message_id_failure(r.message_id),
                first_failure(
                    optional_positive_i64_failure("message_thread_id"@, r.message_thread_id),
                    first_failure(
                        optional_positive_i64_failure(
                            "direct_messages_topic_id"@,
                            r.direct_messages_topic_id,
                        ),
                        optional_required_text_failure("message_effect_id"@, r.message_effect_id),
                    ),
                ),
            ),
        ),
    )
}

impl ForwardMessageRequest {
    pub fn new(chat_id: ChatId, from_chat_id: ChatId, message_id: MessageId) -> (r: Self)
        ensures
            r.chat_id == chat_id,
            r.from_chat_id == from_chat_id,
            r.message_id == message_id,
            r.message_thread_id is None,
            r.direct_messages_topic_id is None,
            r.video_start_timestamp is None,
            r.disable_notification is None,
            r.protect_content is None,
            r.message_effect_id is None,
            r.suggested_post_parameters is None,
    {
        ForwardMessageRequest {
            chat_id,
            message_thread_id: None,
            direct_messages_topic_id: None,
            from_chat_id,
            video_start_timestamp: None,
            disable_notification: None,
            protect_content: None,
            message_effect_id: None,
            message_id,
            suggested_post_parameters: None,
        }
    }

    pub fn validate(&self) -> (r: Result<(), Error>)
        ensures
            failure(r) == forward_message_failure(*self),
    {
        let res = self.chat_id.validate();
        if res.is_err() {
            return res;
        }
        let res = self.from_chat_id.validate();
        if res.is_err() {
            return res;
        }
        let res = self.message_id.validate();
        if res.is_err() {
            return res;
        }
        let res = optional_positive_i64("message_thread_id", self.message_thread_id);
        if res.is_err() {
            return res;
        }
        let res = optional_positive_i64("direct_messages_topic_id", self.direct_messages_topic_id);
        if res.is_err() {
            return res;
        }
        optional_required_text("message_effect_id", &self.message_effect_id)
    }
}

/// What the bot shows it is doing.
#[derive(Clone, Copy, Debug, PartialEq, Eq, Structural)]
pub enum ChatAction {
    Typing,
    UploadPhoto,
    RecordVideo,
    UploadVideo,
    RecordVoice,
    UploadVoice,
    UploadDocument,
    ChooseSticker,
    FindLocation,
    RecordVideoNote,
    UploadVideoNote,
}

#[derive(Clone, Debug)]
pub struct SendChatActionRequest {
    pub chat_id: ChatId,
    pub business_connection_id: Option<String>,
    pub action: ChatAction,
    pub message_thread_id: Option<i64>,
}

/// Why a `SendChatActionRequest` is refused.
pub open spec fn send_chat_action_failure(r: SendChatActionRequest) -> Option<Seq<char>> {
    first_failure(
        optional_required_text_failure("business_connection_id"@, r.business_connection_id),
        first_failure(
            chat_id_failure(r.chat_id@),
            optional_positive_i64_failure("message_thread_id"@, r.message_thread_id),
        ),
    )
}

impl SendChatActionRequest {
    pub fn new(chat_id: ChatId, action: ChatAction) -> (r: Self)
        ensures
            r.chat_id == chat_id,
            r.action == action,
            r.business_connection_id is None,
            r.message_thread_id is None,
    {
        SendChatActionRequest { chat_id, business_connection_id: None, action, message_thread_id: None }
    }

    pub fn validate(&self) -> (r: Result<(), Error>)
        ensures
            failure(r) == send_chat_action_failure(*self),
    {
        let res = optional_required_text("business_connection_id", &self.business_connection_id);
        if res.is_err() {
            return res;
        }
        let res = self.chat_id.validate();
        if res.is_err() {
            return res;
        }
        optional_positive_i64("message_thread_id", self.message_thread_id)
    }
}

#[derive(Debug)]
pub struct SendContactRequest {
    pub chat_id: ChatId,
    pub business_connection_id: Option<String>,
    pub phone_number: String,
    pub first_name: String,
    pub last_name: Option<String>,
    pub vcard: Option<String>,
    pub disable_notification: Option<bool>,
    pub protect_content: Option<bool>,
    pub message_thread_id: Option<i64>,
    pub direct_messages_topic_id: Option<i64>,
    pub allow_paid_broadcast: Option<bool>,
    pub message_effect_id: Option<String>,
    /// Suggested-post parameters, as JSON; their fields are not checked here.
    pub suggested_post_parameters: Option<JsonValue>,
    /// Reply parameters, as JSON; their fields are not checked here.
    pub reply_parameters: Option<JsonValue>,
    /// Reply markup, as JSON; its fields are not checked here.
    pub reply_markup: Option<JsonValue>,
}

/// Why a `SendContactRequest` is refused.
pub open spec fn send_contact_failure(r: SendContactRequest) -> Option<Seq<char>> {
    first_failure(
        send_options_failure(
            r.business_connection_id,
            r.chat_id@,
            r.message_thread_id,
            r.direct_messages_topic_id,
            r.message_effect_id,
        ),
        first_failure(
            required_text_failure("phone_number"@, r.phone_number@),
            required_text_failure("first_name"@, r.first_name@),
        ),
    )
}

impl SendContactRequest {
    pub fn new(chat_id: ChatId, phone_number: String, first_name: String) -> (r: Self)
        ensures
            r.chat_id == chat_id,
            r.phone_number == phone_number,
            r.first_name == first_name,
            r.business_connection_id is None,
            r.last_name is None,
            r.vcard is None,
            r.disable_notification is None,
            r.protect_content is None,
            r.message_thread_id is None,
            r.direct_messages_topic_id is None,
            r.allow_paid_broadcast is None,
            r.message_effect_id is None,
            r.suggested_post_parameters is None,
            r.reply_parameters is None,
            r.reply_markup is None,
    {
        SendContactRequest {
            chat_id,
            business_connection_id: None,
            phone_number,
            first_name,
            last_name: None,
            vcard: None,
            disable_notification: None,
            protect_content: None,
            message_thread_id: None,
            direct_messages_topic_id: None,
            allow_paid_broadcast: None,
            message_effect_id: None,
            suggested_post_parameters: None,
            reply_parameters: None,
            reply_markup: None,
        }
    }

    pub fn validate(&self) -> (r: Result<(), Error>)
        ensures
            failure(r) == send_contact_failure(*self),
    {
        let res = validate_send_options(
            &self.business_connection_id,
            &self.chat_id,
            self.message_thread_id,
            self.direct_messages_topic_id,
            &self.message_effect_id,
        );
        if res.is_err() {
            return res;
        }
        let res = validate_required_text("phone_number", self.phone_number.as_str());
        if res.is_err() {
            return res;
        }
        validate_required_text("first_name", self.first_name.as_str())
    }
}

#[derive(Debug)]
pub struct SendDiceRequest {
    pub chat_id: ChatId,
    pub business_connection_id: Option<String>,
    pub emoji: Option<DiceEmoji>,
    pub disable_notification: Option<bool>,
    pub protect_content: Option<bool>,
    pub message_thread_id: Option<i64>,
    pub direct_messages_topic_id: Option<i64>,
    pub allow_paid_broadcast: Option<bool>,
    pub message_effect_id: Option<String>,
    /// Suggested-post parameters, as JSON; their fields are not checked here.
    pub suggested_post_parameters: Option<JsonValue>,
    /// Reply parameters, as JSON; their fields are not checked here.
    pub reply_parameters: Option<JsonValue>,
    /// Reply markup, as JSON; its fields are not checked here.
    pub reply_markup: Option<JsonValue>,
}

/// Why a `SendDiceRequest` is refused.
pub open spec fn send_dice_failure(r: SendDiceRequest) -> Option<Seq<char>> {
    send_options_failure(
        r.business_connection_id,
        r.chat_id@,
        r.message_thread_id,
        r.direct_messages_topic_id,
        r.message_effect_id,
    )
}

impl SendDiceRequest {
    pub fn new(chat_id: ChatId) -> (r: Self)
        ensures
            r.chat_id == chat_id,
            r.business_connection_id is None,
            r.emoji is None,
            r.disable_notification is None,
            r.protect_content is None,
            r.message_thread_id is None,
            r.direct_messages_topic_id is None,
            r.allow_paid_broadcast is None,
            r.message_effect_id is None,
            r.suggested_post_parameters is None,
            r.reply_parameters is None,
            r.reply_markup is None,
    {
        SendDiceRequest {
            chat_id,
            business_connection_id: None,
            emoji: None,
            disable_notification: None,
            protect_content: None,
            message_thread_id: None,
            direct_messages_topic_id: None,
            allow_paid_broadcast: None,
            message_effect_id: None,
            suggested_post_parameters: None,
            reply_parameters: None,
            reply_markup: None,
        }
    }

    pub fn validate(&self) -> (r: Result<(), Error>)
        ensures
            failure(r) == send_dice_failure(*self),
    {
        validate_send_options(
            &self.business_connection_id,
            &self.chat_id,
            self.message_thread_id,
            self.direct_messages_topic_id,
            &self.message_effect_id,
        )
    }
}

#[derive(Debug)]
pub struct SendVideoNoteRequest {
    pub chat_id: ChatId,
    pub business_connection_id: Option<String>,
    pub video_note: Option<String>,
    pub duration: Option<u32>,
    pub length: Option<u32>,
    pub thumbnail: Option<String>,
    pub disable_notification: Option<bool>,
    pub protect_content: Option<bool>,
    pub message_thread_id: Option<i64>,
    pub direct_messages_topic_id: Option<i64>,
    pub allow_paid_broadcast: Option<bool>,
    pub message_effect_id: Option<String>,
    /// Suggested-post parameters, as JSON; their fields are not checked here.
    pub suggested_post_parameters: Option<JsonValue>,
    /// Reply parameters, as JSON; their fields are not checked here.
    pub reply_parameters: Option<JsonValue>,
    /// Reply markup, as JSON; its fields are not checked here.
    pub reply_markup: Option<JsonValue>,
}

/// Why a `SendVideoNoteRequest` is refused.
pub open spec fn send_video_note_failure(r: SendVideoNoteRequest) -> Option<Seq<char>> {
    first_failure(
        send_options_failure(
            r.business_connection_id,
            r.chat_id@,
            r.message_thread_id,
            r.direct_messages_topic_id,
            r.message_effect_id,
        ),
        first_failure(
            required_file_reference_failure("video_note"@, r.video_note),
            first_failure(
                optional_file_reference_failure("thumbnail"@, r.thumbnail),
                first_failure(
                    positive_u32_failure("duration"@, r.duration),
                    positive_u32_failure("length"@, r.length),
                ),
            ),
        ),
    )
}

impl SendVideoNoteRequest {
    /// A request that sends a video note by file id or URL.
    pub fn new(chat_id: ChatId, video_note: String) -> (r: Self)
        ensures
            r == SendVideoNoteRequest::for_upload_spec(chat_id, Some(video_note)),
    {
        SendVideoNoteRequest {
            chat_id,
            business_connection_id: None,
            video_note: Some(video_note),
            duration: None,
            length: None,
            thumbnail: None,
            disable_notification: None,
            protect_content: None,
            message_thread_id: None,
            direct_messages_topic_id: None,
            allow_paid_broadcast: None,
            message_effect_id: None,
            suggested_post_parameters: None,
            reply_parameters: None,
            reply_markup: None,
        }
    }

    /// A request whose video note comes as an uploaded file part.
    pub fn for_upload(chat_id: ChatId) -> (r: Self)
        ensures
            r == SendVideoNoteRequest::for_upload_spec(chat_id, None),
    {
        SendVideoNoteRequest {
            chat_id,
            business_connection_id: None,
            video_note: None,
            duration: None,
            length: None,
            thumbnail: None,
            disable_notification: None,
            protect_content: None,
            message_thread_id: None,
            direct_messages_topic_id: None,
            allow_paid_broadcast: None,
            message_effect_id: None,
            suggested_post_parameters: None,
            reply_parameters: None,
            reply_markup: None,
        }
    }

    /// A request with every optional field left out.
    pub open spec fn for_upload_spec(chat_id: ChatId, video_note: Option<String>) -> Self {
        SendVideoNoteRequest {
            chat_id,
            business_connection_id: None,
            video_note,
            duration: None,
            length: None,
            thumbnail: None,
            disable_notification: None,
            protect_content: None,
            message_thread_id: None,
            direct_messages_topic_id: None,
            allow_paid_broadcast: None,
            message_effect_id: None,
            suggested_post_parameters: None,
            reply_parameters: None,
            reply_markup: None,
        }
    }

    pub fn validate(&self) -> (r: Result<(), Error>)
        ensures
            failure(r) == send_video_note_failure(*self),
    {
        let res = validate_send_options(
            &self.business_connection_id,
            &self.chat_id,
            self.message_thread_id,
            self.direct_messages_topic_id,
            &self.message_effect_id,
        );
        if res.is_err() {
            return res;
        }
        let res = validate_required_file_reference("video_note", &self.video_note);
        if res.is_err() {
            return res;
        }
        let res = validate_optional_file_reference("thumbnail", &self.thumbnail);
        if res.is_err() {
            return res;
        }
        let res = validate_positive_u32("duration", self.duration);
        if res.is_err() {
            return res;
        }
        validate_positive_u32("length", self.length)
    }
}

#[derive(Debug)]
pub struct StopMessageLiveLocationRequest {
    pub chat_id: Option<ChatId>,
    pub message_id: Option<MessageId>,
    pub inline_message_id: Option<String>,
    /// Reply markup, as JSON; its fields are not checked here.
    pub reply_markup: Option<JsonValue>,
}

impl StopMessageLiveLocationRequest {
    pub fn validate(&self) -> (r: Result<(), Error>)
        ensures
            failure(r) == edit_target_failure(
                opt_chat_view(self.chat_id),
                self.message_id,
                match self.inline_message_id {
                    Some(s) => Some(s@),
                    None => None,
                },
            ),
    {
        validate_edit_target(&self.chat_id, self.message_id, &self.inline_message_id)
    }
}

#[derive(Debug)]
pub struct StopPollRequest {
    pub chat_id: ChatId,
    pub message_id: MessageId,
    /// Reply markup, as JSON; its fields are not checked here.
    pub reply_markup: Option<JsonValue>,
}

/// Why a `StopPollRequest` is refused.
pub open spec fn stop_poll_failure(r: StopPollRequest) -> Option<Seq<char>> {
    first_failure(chat_id_failure(r.chat_id@), message_id_failure(r.message_id))
}

impl StopPollRequest {
    pub fn new(chat_id: ChatId, message_id: MessageId) -> (r: Self)
        ensures
            r.chat_id == chat_id,
            r.message_id == message_id,
            r.reply_markup is None,
    {
        StopPollRequest { chat_id, message_id, reply_markup: None }
    }

    pub fn validate(&self) -> (r: Result<(), Error>)
        ensures
            failure(r) == stop_poll_failure(*self),
    {
        let res = self.chat_id.validate();
        if res.is_err() {
            return res;
        }
        self.message_id.validate()
    }
}

pub const MAX_MESSAGE_TEXT_CHARS: usize = 4096;

pub const MAX_CAPTION_CHARS: usize = 1024;

pub const MAX_POLL_EXPLANATION_CHARS: usize = 200;

pub const MAX_POLL_EXPLANATION_LINE_FEEDS: usize = 2;

pub const MAX_POLL_DESCRIPTION_CHARS: usize = 1024;

pub const MAX_POLL_COUNTRY_CODES: usize = 12;

/// Why the text of a message is refused: it must not be blank, must hold at
/// most 4096 characters, and may hold no control character but line feed,
/// carriage return and tab.
pub open spec fn message_text_failure(method: Seq<char>, text: Seq<char>) -> Option<Seq<char>> {
    if is_blank(text) {
        Some(method + " requires non-empty text"@)
    } else if text.len() > MAX_MESSAGE_TEXT_CHARS {
        Some(method + " text exceeds 4096 characters"@)
    } else if has_display_control(text) {
        Some(method + " text must not contain non-whitespace control characters"@)
    } else {
        None
    }
}

/// A message text is accepted exactly when it is not blank, holds at most 4096
/// characters (counted as characters, not as the bytes that encode them) and
/// holds no control character but line feed, carriage return and tab. A text
/// that is not blank and holds more characters than that is refused for its
/// length.
pub proof fn lemma_message_text_accepted(method: Seq<char>, text: Seq<char>)
    ensures
        message_text_failure(method, text) is None <==> (!is_blank(text) && text.len() <= 4096
            && !has_display_control(text)),
        !is_blank(text) && text.len() > 4096 ==> message_text_failure(method, text) == Some(
            method + " text exceeds 4096 characters"@,
        ),
{
}

/// Checks the text of a message sent or edited by `method`.
pub fn validate_message_text(method: &str, text: &str) -> (r: Result<(), Error>)
    ensures
        failure(r) == message_text_failure(method@, text@),
{
    let scan = scan_text(text);
    if scan.blank {
        return fail2(method, " requires non-empty text");
    }
    if scan.chars > MAX_MESSAGE_TEXT_CHARS {
        return fail2(method, " text exceeds 4096 characters");
    }
    if scan.display_control {
        return fail2(method, " text must not contain non-whitespace control characters");
    }
    Ok(())
}

/// Why a caption is refused: at most 1024 characters, and no control character
/// but line feed, carriage return and tab.
pub open spec fn optional_caption_failure(caption: Option<Seq<char>>) -> Option<Seq<char>> {
    match caption {
        None => None,
        Some(c) => if c.len() > MAX_CAPTION_CHARS {
            Some("caption exceeds 1024 characters"@)
        } else if has_display_control(c) {
            Some("caption must not contain non-whitespace control characters"@)
        } else {
            None
        },
    }
}

/// Checks a caption where one is given.
pub fn validate_optional_caption(caption: Option<&str>) -> (r: Result<(), Error>)
    ensures
        failure(r) == optional_caption_failure(
            match caption {
                Some(c) => Some(c@),
                None => None,
            },
        ),
{
    let caption = match caption {
        Some(c) => c,
        None => {
            return Ok(());
        },
    };
    let scan = scan_text(caption);
    if scan.chars > MAX_CAPTION_CHARS {
        return fail("caption exceeds 1024 characters");
    }
    if scan.display_control {
        return fail("caption must not contain non-whitespace control characters");
    }
    Ok(())
}

/// Why the correct answer at position `i` of a quiz is refused, given that the
/// earlier ones passed: it must name an existing option and exceed the
/// answer before it.
pub open spec fn correct_option_entry_failure(ids: Seq<u8>, option_count: nat, i: int) -> Option<
    Seq<char>,
> {
    if ids[i] >= option_count {
        Some("correct_option_ids must point to existing poll options"@)
    } else if i > 0 && ids[i] <= ids[i - 1] {
        Some("correct_option_ids must be strictly increasing"@)
    } else {
        None
    }
}

/// The first refusal among the first `n` correct answers, in order.
pub open spec fn correct_option_prefix_failure(ids: Seq<u8>, option_count: nat, n: nat) -> Option<
    Seq<char>,
>
    decreases n,
{
    if n == 0 {
        None
    } else {
        first_failure(
            correct_option_prefix_failure(ids, option_count, (n - 1) as nat),
            correct_option_entry_failure(ids, option_count, n - 1),
        )
    }
}

/// Why the correct answers of a poll are refused: only a quiz names them, a
/// quiz names at least one, and they are existing options in increasing order.
pub open spec fn correct_option_ids_failure(
    is_quiz: bool,
    ids: Option<Seq<u8>>,
    option_count: nat,
) -> Option<Seq<char>> {
    let ids = match ids {
        Some(v) => v,
        None => Seq::empty(),
    };
    if !is_quiz && ids.len() > 0 {
        Some("correct_option_ids can only be used for quiz polls"@)
    } else if is_quiz && ids.len() == 0 {
        Some("quiz polls require at least one correct_option_ids entry"@)
    } else {
        correct_option_prefix_failure(ids, option_count, ids.len())
    }
}

/// Once a prefix of the answers has failed, every longer prefix reports that failure.
pub proof fn lemma_correct_option_failure_stays(ids: Seq<u8>, option_count: nat, n: nat, m: nat)
    requires
        n <= m,
        correct_option_prefix_failure(ids, option_count, n) is Some,
    ensures
        correct_option_prefix_failure(ids, option_count, m) == correct_option_prefix_failure(
            ids,
            option_count,
            n,
        ),
    decreases m - n,
{
    if n < m {
        lemma_correct_option_failure_stays(ids, option_count, n, (m - 1) as nat);
    }
}

/// Checks the correct answers of a poll against its kind and option count.
pub fn validate_correct_option_ids(
    kind: &Option<PollKind>,
    correct_option_ids: &Option<Vec<u8>>,
    option_count: usize,
) -> (r: Result<(), Error>)
    ensures
        failure(r) == correct_option_ids_failure(
            *kind matches Some(PollKind::Quiz),
            match *correct_option_ids {
                Some(v) => Some(v@),
                None => None,
            },
            option_count as nat,
        ),
{
    let is_quiz = matches!(kind, Some(PollKind::Quiz));
    let empty: Vec<u8> = Vec::new();
    let ids = match correct_option_ids {
        Some(v) => v,
        None => &empty,
    };
    if !is_quiz && ids.len() > 0 {
        return fail("correct_option_ids can only be used for quiz polls");
    }
    if is_quiz && ids.len() == 0 {
        return fail("quiz polls require at least one correct_option_ids entry");
    }
    let mut i: usize = 0;
    while i < ids.len()
        invariant
            i <= ids@.len(),
            correct_option_prefix_failure(ids@, option_count as nat, i as nat) is None,
            ids@ == match *correct_option_ids {
                Some(v) => v@,
                None => Seq::empty(),
            },
            is_quiz == (*kind matches Some(PollKind::Quiz)),
            !(!is_quiz && ids@.len() > 0),
            !(is_quiz && ids@.len() == 0),
        decreases ids@.len() - i,
    {
        if ids[i] as usize >= option_count {
            let res = fail("correct_option_ids must point to existing poll options");
            assert(correct_option_prefix_failure(ids@, option_count as nat, (i + 1) as nat) == failure(res));
            proof {
                lemma_correct_option_failure_stays(ids@, option_count as nat, (i + 1) as nat, ids@.len());
            }
            return res;
        }
        if i > 0 && ids[i] <= ids[i - 1] {
            let res = fail("correct_option_ids must be strictly increasing");
            assert(correct_option_prefix_failure(ids@, option_count as nat, (i + 1) as nat) == failure(res));
            proof {
                lemma_correct_option_failure_stays(ids@, option_count as nat, (i + 1) as nat, ids@.len());
            }
            return res;
        }
        i = i + 1;
    }
    Ok(())
}

/// How many times `c` occurs in the text.
pub open spec fn count_char(s: Seq<char>, c: char) -> nat
    decreases s.len(),
{
    if s.len() == 0 {
        0
    } else {
        count_char(s.drop_last(), c) + if s.last() == c {
            1nat
        } else {
            0nat
        }
    }
}

fn line_feed_count(text: &str) -> (r: usize)
    ensures
        r == count_char(text@, '\n') || (r == usize::MAX && count_char(text@, '\n') >= usize::MAX),
{
    let mut n: usize = 0;
    let mut i: usize = 0;
    for c in it: text.chars()
        invariant
            it.seq() == text@,
            n == count_char(text@.take(it.index() as int), '\n') || (n == usize::MAX && count_char(
                text@.take(it.index() as int),
                '\n',
            ) >= usize::MAX),
    {
        let ghost k = it.index();
        assert(text@.take(k + 1).drop_last() =~= text@.take(k as int));
        assert(text@.take(k + 1).last() == c);
        if c == '\n' && n < usize::MAX {
            n = n + 1;
        }
    }
    assert(text@.take(text@.len() as int) =~= text@);
    n
}

/// Why a quiz explanation is refused: at most 200 characters, at most two
/// line feeds, and no other control character but carriage return and tab.
pub open spec fn poll_explanation_failure(explanation: Option<Seq<char>>) -> Option<Seq<char>> {
    match explanation {
        None => None,
        Some(e) => if e.len() > MAX_POLL_EXPLANATION_CHARS {
            Some("poll explanation exceeds 200 characters"@)
        } else if count_char(e, '\n') > MAX_POLL_EXPLANATION_LINE_FEEDS {
            Some("poll explanation must contain at most 2 line feeds"@)
        } else if has_display_control(e) {
            Some("poll explanation must not contain non-whitespace control characters"@)
        } else {
            None
        },
    }
}

/// Checks a quiz explanation where one is given.
pub fn validate_poll_explanation(explanation: Option<&str>) -> (r: Result<(), Error>)
    ensures
        failure(r) == poll_explanation_failure(
            match explanation {
                Some(e) => Some(e@),
                None => None,
            },
        ),
{
    let explanation = match explanation {
        Some(e) => e,
        None => {
            return Ok(());
        },
    };
    let scan = scan_text(explanation);
    if scan.chars > MAX_POLL_EXPLANATION_CHARS {
        return fail("poll explanation exceeds 200 characters");
    }
    if line_feed_count(explanation) > MAX_POLL_EXPLANATION_LINE_FEEDS {
        return fail("poll explanation must contain at most 2 line feeds");
    }
    if scan.display_control {
        return fail("poll explanation must not contain non-whitespace control characters");
    }
    Ok(())
}

/// Why a poll description is refused: at most 1024 characters, and no control
/// character but line feed, carriage return and tab.
pub open spec fn poll_description_failure(description: Option<Seq<char>>) -> Option<Seq<char>> {
    match description {
        None => None,
        Some(d) => if d.len() > MAX_POLL_DESCRIPTION_CHARS {
            Some("poll description exceeds 1024 characters"@)
        } else if has_display_control(d) {
            Some("poll description must not contain non-whitespace control characters"@)
        } else {
            None
        },
    }
}

/// Checks a poll description where one is given.
pub fn validate_poll_description(description: Option<&str>) -> (r: Result<(), Error>)
    ensures
        failure(r) == poll_description_failure(
            match description {
                Some(d) => Some(d@),
                None => None,
            },
        ),
{
    let description = match description {
        Some(d) => d,
        None => {
            return Ok(());
        },
    };
    let scan = scan_text(description);
    if scan.chars > MAX_POLL_DESCRIPTION_CHARS {
        return fail("poll description exceeds 1024 characters");
    }
    if scan.display_control {
        return fail("poll description must not contain non-whitespace control characters");
    }
    Ok(())
}

/// Two uppercase ASCII letters.
pub open spec fn is_country_code(code: Seq<char>) -> bool {
    let bytes = vstd::utf8::encode_utf8(code);
    bytes.len() == 2 && (forall|i: int| 0 <= i < 2 ==> 0x41 <= #[trigger] bytes[i] <= 0x5a)
}

/// Why the country codes of a poll are refused: at most 12, each two
/// uppercase ASCII letters.
pub open spec fn poll_country_codes_failure(codes: Option<Seq<String>>) -> Option<Seq<char>> {
    match codes {
        None => None,
        Some(c) => if c.len() > MAX_POLL_COUNTRY_CODES {
            Some("sendPoll accepts at most 12 country codes"@)
        } else if exists|i: int| 0 <= i < c.len() && !is_country_code(#[trigger] c[i]@) {
            Some("poll country codes must be two uppercase ASCII letters"@)
        } else {
            None
        },
    }
}

fn check_country_code(code: &str) -> (r: bool)
    ensures
        r == is_country_code(code@),
{
    let bytes = code.as_bytes();
    proof {
        assert(bytes@ == vstd::utf8::encode_utf8(code@));
    }
    bytes.len() == 2 && 0x41 <= bytes[0] && bytes[0] <= 0x5a && 0x41 <= bytes[1] && bytes[1] <= 0x5a
}

/// Checks the country codes of a poll where they are given.
pub fn validate_poll_country_codes(country_codes: &Option<Vec<String>>) -> (r: Result<(), Error>)
    ensures
        failure(r) == poll_country_codes_failure(
            match *country_codes {
                Some(v) => Some(v@),
                None => None,
            },
        ),
{
    let codes = match country_codes {
        Some(v) => v,
        None => {
            return Ok(());
        },
    };
    if codes.len() > MAX_POLL_COUNTRY_CODES {
        return fail("sendPoll accepts at most 12 country codes");
    }
    let mut i: usize = 0;
    while i < codes.len()
        invariant
            i <= codes@.len(),
            codes@.len() <= MAX_POLL_COUNTRY_CODES,
            *country_codes matches Some(v) && v@ == codes@,
            forall|j: int| 0 <= j < i ==> is_country_code(#[trigger] codes@[j]@),
        decreases codes@.len() - i,
    {
        if !check_country_code(codes[i].as_str()) {
            assert(!is_country_code(codes@[i as int]@));
            return fail("poll country codes must be two uppercase ASCII letters");
        }
        i = i + 1;
    }
    Ok(())
}

/// `sendMessage` request.
#[derive(Debug)]
pub struct SendMessageRequest {
    pub business_connection_id: Option<String>,
    pub chat_id: ChatId,
    pub text: String,
    pub parse_mode: Option<ParseMode>,
    pub entities: Option<Vec<MessageEntity>>,
    pub disable_web_page_preview: Option<bool>,
    pub disable_notification: Option<bool>,
    pub protect_content: Option<bool>,
    pub message_thread_id: Option<i64>,
    pub direct_messages_topic_id: Option<i64>,
    pub allow_paid_broadcast: Option<bool>,
    pub message_effect_id: Option<String>,
    /// Suggested-post parameters, as JSON; their fields are not checked here.
    pub suggested_post_parameters: Option<JsonValue>,
    /// Reply parameters, as JSON; their fields are not checked here.
    pub reply_parameters: Option<JsonValue>,
    /// Reply markup, as JSON; its fields are not checked here.
    pub reply_markup: Option<JsonValue>,
    /// Link preview options, as JSON; their fields are not checked here.
    pub link_preview_options: Option<JsonValue>,
}

impl SendMessageRequest {
    /// A request for a checked chat id and text, with every option left out.
    pub fn new(chat_id: ChatId, text: String) -> (r: Result<Self, Error>)
        ensures
            first_failure(chat_id_failure(chat_id@), message_text_failure("sendMessage"@, text@))
                is None ==> (r matches Ok(req) && req.chat_id == chat_id && req.text == text
                && req.business_connection_id is None && req.parse_mode is None
                && req.entities is None && req.disable_web_page_preview is None
                && req.disable_notification is None && req.protect_content is None
                && req.message_thread_id is None && req.direct_messages_topic_id is None
                && req.allow_paid_broadcast is None && req.message_effect_id is None
                && req.suggested_post_parameters is None && req.reply_parameters is None
                && req.reply_markup is None && req.link_preview_options is None),
            first_failure(chat_id_failure(chat_id@), message_text_failure("sendMessage"@, text@))
                matches Some(reason) ==> (r matches Err(Error::InvalidRequest { reason: e })
                && e@ == reason),
    {
        if let Err(e) = chat_id.validate() {
            return Err(e);
        }
        if let Err(e) = validate_message_text("sendMessage", text.as_str()) {
            return Err(e);
        }
        Ok(SendMessageRequest {
            business_connection_id: None,
            chat_id,
            text,
            parse_mode: None,
            entities: None,
            disable_web_page_preview: None,
            disable_notification: None,
            protect_content: None,
            message_thread_id: None,
            direct_messages_topic_id: None,
            allow_paid_broadcast: None,
            message_effect_id: None,
            suggested_post_parameters: None,
            reply_parameters: None,
            reply_markup: None,
            link_preview_options: None,
        })
    }

    pub fn parse_mode(self, parse_mode: ParseMode) -> (r: Self)
        ensures
            r == (SendMessageRequest { parse_mode: Some(parse_mode), ..self }),
    {
        SendMessageRequest { parse_mode: Some(parse_mode), ..self }
    }

    pub fn entities(self, entities: Vec<MessageEntity>) -> (r: Self)
        ensures
            r == (SendMessageRequest { entities: Some(entities), ..self }),
    {
        SendMessageRequest { entities: Some(entities), ..self }
    }

    pub fn business_connection_id(self, business_connection_id: String) -> (r: Self)
        ensures
            r == (SendMessageRequest { business_connection_id: Some(business_connection_id), ..self }),
    {
        SendMessageRequest { business_connection_id: Some(business_connection_id), ..self }
    }
}

/// `editMessageText` request.
#[derive(Debug)]
pub struct EditMessageTextRequest {
    pub chat_id: Option<ChatId>,
    pub message_id: Option<MessageId>,
    pub inline_message_id: Option<String>,
    pub text: String,
    pub parse_mode: Option<ParseMode>,
    pub entities: Option<Vec<MessageEntity>>,
    /// Reply markup, as JSON; its fields are not checked here.
    pub reply_markup: Option<JsonValue>,
    /// Link preview options, as JSON; their fields are not checked here.
    pub link_preview_options: Option<JsonValue>,
}

impl EditMessageTextRequest {
    /// A request that edits a message named by chat and message id.
    pub fn for_chat_message(chat_id: ChatId, message_id: MessageId, text: String) -> (r: Result<
        Self,
        Error,
    >)
        ensures
            first_failure(
                chat_id_failure(chat_id@),
                first_failure(
                    message_id_failure(message_id),
                    message_text_failure("editMessageText"@, text@),
                ),
            ) is None ==> (r matches Ok(req) && req.chat_id == Some(chat_id) && req.message_id
                == Some(message_id) && req.inline_message_id is None && req.text == text
                && req.parse_mode is None && req.entities is None && req.reply_markup is None && req.link_preview_options is None),
            first_failure(
                chat_id_failure(chat_id@),
                first_failure(
                    message_id_failure(message_id),
                    message_text_failure("editMessageText"@, text@),
                ),
            ) matches Some(reason) ==> (r matches Err(Error::InvalidRequest { reason: e }) && e@
                == reason),
    {
        if let Err(e) = chat_id.validate() {
            return Err(e);
        }
        if let Err(e) = message_id.validate() {
            return Err(e);
        }
        if let Err(e) = validate_message_text("editMessageText", text.as_str()) {
            return Err(e);
        }
        Ok(EditMessageTextRequest {
            chat_id: Some(chat_id),
            message_id: Some(message_id),
            inline_message_id: None,
            text,
            parse_mode: None,
            entities: None,
            reply_markup: None,
            link_preview_options: None,
        })
    }

    /// A request that edits an inline message.
    pub fn for_inline_message(inline_message_id: String, text: String) -> (r: Result<Self, Error>)
        ensures
            first_failure(
                string_id_failure("inline_message_id"@, inline_message_id@),
                message_text_failure("editMessageText"@, text@),
            ) is None ==> (r matches Ok(req) && req.chat_id is None && req.message_id is None
                && req.inline_message_id == Some(inline_message_id) && req.text == text
                && req.parse_mode is None && req.entities is None && req.reply_markup is None && req.link_preview_options is None),
            first_failure(
                string_id_failure("inline_message_id"@, inline_message_id@),
                message_text_failure("editMessageText"@, text@),
            ) matches Some(reason) ==> (r matches Err(Error::InvalidRequest { reason: e }) && e@
                == reason),
    {
        if let Err(e) = string_id("inline_message_id", inline_message_id.as_str()) {
            return Err(e);
        }
        if let Err(e) = validate_message_text("editMessageText", text.as_str()) {
            return Err(e);
        }
        Ok(EditMessageTextRequest {
            chat_id: None,
            message_id: None,
            inline_message_id: Some(inline_message_id),
            text,
            parse_mode: None,
            entities: None,
            reply_markup: None,
            link_preview_options: None,
        })
    }
}


pub const MAX_POLL_OPTION_CHARS: usize = 100;

/// Answer option of a poll to be sent.
#[derive(Debug)]
pub struct InputPollOption {
    pub text: String,
    pub text_parse_mode: Option<ParseMode>,
    pub text_entities: Option<Vec<MessageEntity>>,
}

impl InputPollOption {
    /// An option with the given text and no formatting.
    pub fn new(text: String) -> (r: Self)
        ensures
            r.text == text,
            r.text_parse_mode is None,
            r.text_entities is None,
    {
        InputPollOption { text, text_parse_mode: None, text_entities: None }
    }

    pub fn text_parse_mode(self, parse_mode: ParseMode) -> (r: Self)
        ensures
            r == (InputPollOption { text_parse_mode: Some(parse_mode), ..self }),
    {
        InputPollOption { text_parse_mode: Some(parse_mode), ..self }
    }

    pub fn text_entities(self, entities: Vec<MessageEntity>) -> (r: Self)
        ensures
            r == (InputPollOption { text_entities: Some(entities), ..self }),
    {
        InputPollOption { text_entities: Some(entities), ..self }
    }
}

impl From<String> for InputPollOption {
    fn from(value: String) -> (r: Self) {
        InputPollOption::new(value)
    }
}

impl vstd::std_specs::convert::FromSpecImpl<String> for InputPollOption {
    open spec fn obeys_from_spec() -> bool {
        true
    }

    open spec fn from_spec(value: String) -> Self {
        InputPollOption { text: value, text_parse_mode: None, text_entities: None }
    }
}

/// Why the text of a poll option is refused: it must not be blank, may hold no
/// control character, and holds at most 100 characters.
pub open spec fn poll_option_failure(text: Seq<char>) -> Option<Seq<char>> {
    match required_text_failure("poll option"@, text) {
        Some(reason) => Some(reason),
        None => if text.len() > MAX_POLL_OPTION_CHARS {
            Some("poll option exceeds 100 characters"@)
        } else {
            None
        },
    }
}

/// Checks the text of a poll option.
pub fn validate_poll_option(option: &InputPollOption) -> (r: Result<(), Error>)
    ensures
        failure(r) == poll_option_failure(option.text@),
{
    if let Err(e) = validate_required_text("poll option", option.text.as_str()) {
        return Err(e);
    }
    let scan = scan_text(option.text.as_str());
    if scan.chars > MAX_POLL_OPTION_CHARS {
        return fail("poll option exceeds 100 characters");
    }
    Ok(())
}


/// What an edit returns: the edited message, or `true` for an inline message.
#[derive(Debug)]
pub enum EditMessageResult {
    Message(Box<Message>),
    Success(bool),
}

impl EditMessageResult {
    pub fn message(&self) -> (r: Option<&Message>)
        ensures
            r == match *self {
                EditMessageResult::Message(m) => Some(&*m),
                EditMessageResult::Success(_) => None,
            },
    {
        match self {
            EditMessageResult::Message(m) => Some(&**m),
            EditMessageResult::Success(_) => None,
        }
    }

    pub fn into_message(self) -> (r: Option<Message>)
        ensures
            r == match self {
                EditMessageResult::Message(m) => Some(*m),
                EditMessageResult::Success(_) => None,
            },
    {
        match self {
            EditMessageResult::Message(m) => Some(*m),
            EditMessageResult::Success(_) => None,
        }
    }

    pub fn success(&self) -> (r: Option<bool>)
        ensures
            r == match *self {
                EditMessageResult::Message(_) => None,
                EditMessageResult::Success(b) => Some(b),
            },
    {
        match self {
            EditMessageResult::Message(_) => None,
            EditMessageResult::Success(b) => Some(*b),
        }
    }
}

impl From<Message> for EditMessageResult {
    fn from(value: Message) -> (r: Self) {
        EditMessageResult::Message(Box::new(value))
    }
}

impl vstd::std_specs::convert::FromSpecImpl<Message> for EditMessageResult {
    open spec fn obeys_from_spec() -> bool {
        true
    }

    open spec fn from_spec(value: Message) -> Self {
        EditMessageResult::Message(Box::new(value))
    }
}

/// A photo to be sent in a media group.
#[derive(Debug)]
pub struct InputMediaPhoto {
    pub media: String,
    pub caption: Option<String>,
    pub parse_mode: Option<ParseMode>,
    pub caption_entities: Option<Vec<MessageEntity>>,
    pub has_spoiler: Option<bool>,
}

impl InputMediaPhoto {
    /// The media with every option left out.
    pub fn new(media: String) -> (r: Self)
        ensures
            r.media == media,
            r.caption is None,
            r.parse_mode is None,
            r.caption_entities is None,
            r.has_spoiler is None,
    {
        InputMediaPhoto {
            media,
            caption: None,
            parse_mode: None,
            caption_entities: None,
            has_spoiler: None,
        }
    }

    pub fn caption(self, caption: String) -> (r: Self)
        ensures
            r == (InputMediaPhoto { caption: Some(caption), ..self }),
    {
        InputMediaPhoto { caption: Some(caption), ..self }
    }

    pub fn parse_mode(self, parse_mode: ParseMode) -> (r: Self)
        ensures
            r == (InputMediaPhoto { parse_mode: Some(parse_mode), ..self }),
    {
        InputMediaPhoto { parse_mode: Some(parse_mode), ..self }
    }

    pub fn caption_entities(self, entities: Vec<MessageEntity>) -> (r: Self)
        ensures
            r == (InputMediaPhoto { caption_entities: Some(entities), ..self }),
    {
        InputMediaPhoto { caption_entities: Some(entities), ..self }
    }

    /// Sets `has_spoiler` to `true` when enabled, and leaves it out otherwise.
    pub fn has_spoiler(self, enabled: bool) -> (r: Self)
        ensures
            r == (InputMediaPhoto { has_spoiler: if enabled { Some(true) } else { None }, ..self }),
    {
        InputMediaPhoto { has_spoiler: if enabled { Some(true) } else { None }, ..self }
    }

}

/// A video to be sent in a media group.
#[derive(Debug)]
pub struct InputMediaVideo {
    pub media: String,
    pub thumbnail: Option<String>,
    pub caption: Option<String>,
    pub parse_mode: Option<ParseMode>,
    pub caption_entities: Option<Vec<MessageEntity>>,
    pub width: Option<u32>,
    pub height: Option<u32>,
    pub duration: Option<u32>,
    pub supports_streaming: Option<bool>,
    pub has_spoiler: Option<bool>,
}

impl InputMediaVideo {
    /// The media with every option left out.
    pub fn new(media: String) -> (r: Self)
        ensures
            r.media == media,
            r.thumbnail is None,
            r.caption is None,
            r.parse_mode is None,
            r.caption_entities is None,
            r.width is None,
            r.height is None,
            r.duration is None,
            r.supports_streaming is None,
            r.has_spoiler is None,
    {
        InputMediaVideo {
            media,
            thumbnail: None,
            caption: None,
            parse_mode: None,
            caption_entities: None,
            width: None,
            height: None,
            duration: None,
            supports_streaming: None,
            has_spoiler: None,
        }
    }

    pub fn thumbnail(self, thumbnail: String) -> (r: Self)
        ensures
            r == (InputMediaVideo { thumbnail: Some(thumbnail), ..self }),
    {
        InputMediaVideo { thumbnail: Some(thumbnail), ..self }
    }

    pub fn caption(self, caption: String) -> (r: Self)
        ensures
            r == (InputMediaVideo { caption: Some(caption), ..self }),
    {
        InputMediaVideo { caption: Some(caption), ..self }
    }

    pub fn parse_mode(self, parse_mode: ParseMode) -> (r: Self)
        ensures
            r == (InputMediaVideo { parse_mode: Some(parse_mode), ..self }),
    {
        InputMediaVideo { parse_mode: Some(parse_mode), ..self }
    }

    pub fn caption_entities(self, entities: Vec<MessageEntity>) -> (r: Self)
        ensures
            r == (InputMediaVideo { caption_entities: Some(entities), ..self }),
    {
        InputMediaVideo { caption_entities: Some(entities), ..self }
    }

    pub fn width(self, width: u32) -> (r: Self)
        ensures
            r == (InputMediaVideo { width: Some(width), ..self }),
    {
        InputMediaVideo { width: Some(width), ..self }
    }

    pub fn height(self, height: u32) -> (r: Self)
        ensures
            r == (InputMediaVideo { height: Some(height), ..self }),
    {
        InputMediaVideo { height: Some(height), ..self }
    }

    pub fn duration(self, duration: u32) -> (r: Self)
        ensures
            r == (InputMediaVideo { duration: Some(duration), ..self }),
    {
        InputMediaVideo { duration: Some(duration), ..self }
    }

    /// Sets `supports_streaming` to `true` when enabled, and leaves it out otherwise.
    pub fn supports_streaming(self, enabled: bool) -> (r: Self)
        ensures
            r == (InputMediaVideo { supports_streaming: if enabled { Some(true) } else { None }, ..self }),
    {
        InputMediaVideo { supports_streaming: if enabled { Some(true) } else { None }, ..self }
    }

    /// Sets `has_spoiler` to `true` when enabled, and leaves it out otherwise.
    pub fn has_spoiler(self, enabled: bool) -> (r: Self)
        ensures
            r == (InputMediaVideo { has_spoiler: if enabled { Some(true) } else { None }, ..self }),
    {
        InputMediaVideo { has_spoiler: if enabled { Some(true) } else { None }, ..self }
    }

}

/// An animation to be sent.
#[derive(Debug)]
pub struct InputMediaAnimation {
    pub media: String,
    pub thumbnail: Option<String>,
    pub caption: Option<String>,
    pub parse_mode: Option<ParseMode>,
    pub caption_entities: Option<Vec<MessageEntity>>,
    pub width: Option<u32>,
    pub height: Option<u32>,
    pub duration: Option<u32>,
    pub has_spoiler: Option<bool>,
}

impl InputMediaAnimation {
    /// The media with every option left out.
    pub fn new(media: String) -> (r: Self)
        ensures
            r.media == media,
            r.thumbnail is None,
            r.caption is None,
            r.parse_mode is None,
            r.caption_entities is None,
            r.width is None,
            r.height is None,
            r.duration is None,
            r.has_spoiler is None,
    {
        InputMediaAnimation {
            media,
            thumbnail: None,
            caption: None,
            parse_mode: None,
            caption_entities: None,
            width: None,
            height: None,
            duration: None,
            has_spoiler: None,
        }
    }

    pub fn thumbnail(self, thumbnail: String) -> (r: Self)
        ensures
            r == (InputMediaAnimation { thumbnail: Some(thumbnail), ..self }),
    {
        InputMediaAnimation { thumbnail: Some(thumbnail), ..self }
    }

    pub fn caption(self, caption: String) -> (r: Self)
        ensures
            r == (InputMediaAnimation { caption: Some(caption), ..self }),
    {
        InputMediaAnimation { caption: Some(caption), ..self }
    }

    pub fn parse_mode(self, parse_mode: ParseMode) -> (r: Self)
        ensures
            r == (InputMediaAnimation { parse_mode: Some(parse_mode), ..self }),
    {
        InputMediaAnimation { parse_mode: Some(parse_mode), ..self }
    }

    pub fn caption_entities(self, entities: Vec<MessageEntity>) -> (r: Self)
        ensures
            r == (InputMediaAnimation { caption_entities: Some(entities), ..self }),
    {
        InputMediaAnimation { caption_entities: Some(entities), ..self }
    }

    pub fn width(self, width: u32) -> (r: Self)
        ensures
            r == (InputMediaAnimation { width: Some(width), ..self }),
    {
        InputMediaAnimation { width: Some(width), ..self }
    }

    pub fn height(self, height: u32) -> (r: Self)
        ensures
            r == (InputMediaAnimation { height: Some(height), ..self }),
    {
        InputMediaAnimation { height: Some(height), ..self }
    }

    pub fn duration(self, duration: u32) -> (r: Self)
        ensures
            r == (InputMediaAnimation { duration: Some(duration), ..self }),
    {
        InputMediaAnimation { duration: Some(duration), ..self }
    }

    /// Sets `has_spoiler` to `true` when enabled, and leaves it out otherwise.
    pub fn has_spoiler(self, enabled: bool) -> (r: Self)
        ensures
            r == (InputMediaAnimation { has_spoiler: if enabled { Some(true) } else { None }, ..self }),
    {
        InputMediaAnimation { has_spoiler: if enabled { Some(true) } else { None }, ..self }
    }

}

/// An audio file to be sent in a media group.
#[derive(Debug)]
pub struct InputMediaAudio {
    pub media: String,
    pub thumbnail: Option<String>,
    pub caption: Option<String>,
    pub parse_mode: Option<ParseMode>,
    pub caption_entities: Option<Vec<MessageEntity>>,
    pub duration: Option<u32>,
    pub performer: Option<String>,
    pub title: Option<String>,
}

impl InputMediaAudio {
    /// The media with every option left out.
    pub fn new(media: String) -> (r: Self)
        ensures
            r.media == media,
            r.thumbnail is None,
            r.caption is None,
            r.parse_mode is None,
            r.caption_entities is None,
            r.duration is None,
            r.performer is None,
            r.title is None,
    {
        InputMediaAudio {
            media,
            thumbnail: None,
            caption: None,
            parse_mode: None,
            caption_entities: None,
            duration: None,
            performer: None,
            title: None,
        }
    }

    pub fn thumbnail(self, thumbnail: String) -> (r: Self)
        ensures
            r == (InputMediaAudio { thumbnail: Some(thumbnail), ..self }),
    {
        InputMediaAudio { thumbnail: Some(thumbnail), ..self }
    }

    pub fn caption(self, caption: String) -> (r: Self)
        ensures
            r == (InputMediaAudio { caption: Some(caption), ..self }),
    {
        InputMediaAudio { caption: Some(caption), ..self }
    }

    pub fn parse_mode(self, parse_mode: ParseMode) -> (r: Self)
        ensures
            r == (InputMediaAudio { parse_mode: Some(parse_mode), ..self }),
    {
        InputMediaAudio { parse_mode: Some(parse_mode), ..self }
    }

    pub fn caption_entities(self, entities: Vec<MessageEntity>) -> (r: Self)
        ensures
            r == (InputMediaAudio { caption_entities: Some(entities), ..self }),
    {
        InputMediaAudio { caption_entities: Some(entities), ..self }
    }

    pub fn duration(self, duration: u32) -> (r: Self)
        ensures
            r == (InputMediaAudio { duration: Some(duration), ..self }),
    {
        InputMediaAudio { duration: Some(duration), ..self }
    }

    pub fn performer(self, performer: String) -> (r: Self)
        ensures
            r == (InputMediaAudio { performer: Some(performer), ..self }),
    {
        InputMediaAudio { performer: Some(performer), ..self }
    }

    pub fn title(self, title: String) -> (r: Self)
        ensures
            r == (InputMediaAudio { title: Some(title), ..self }),
    {
        InputMediaAudio { title: Some(title), ..self }
    }

}

/// A document to be sent in a media group.
#[derive(Debug)]
pub struct InputMediaDocument {
    pub media: String,
    pub thumbnail: Option<String>,
    pub caption: Option<String>,
    pub parse_mode: Option<ParseMode>,
    pub caption_entities: Option<Vec<MessageEntity>>,
    pub disable_content_type_detection: Option<bool>,
}

impl InputMediaDocument {
    /// The media with every option left out.
    pub fn new(media: String) -> (r: Self)
        ensures
            r.media == media,
            r.thumbnail is None,
            r.caption is None,
            r.parse_mode is None,
            r.caption_entities is None,
            r.disable_content_type_detection is None,
    {
        InputMediaDocument {
            media,
            thumbnail: None,
            caption: None,
            parse_mode: None,
            caption_entities: None,
            disable_content_type_detection: None,
        }
    }

    pub fn thumbnail(self, thumbnail: String) -> (r: Self)
        ensures
            r == (InputMediaDocument { thumbnail: Some(thumbnail), ..self }),
    {
        InputMediaDocument { thumbnail: Some(thumbnail), ..self }
    }

    pub fn caption(self, caption: String) -> (r: Self)
        ensures
            r == (InputMediaDocument { caption: Some(caption), ..self }),
    {
        InputMediaDocument { caption: Some(caption), ..self }
    }

    pub fn parse_mode(self, parse_mode: ParseMode) -> (r: Self)
        ensures
            r == (InputMediaDocument { parse_mode: Some(parse_mode), ..self }),
    {
        InputMediaDocument { parse_mode: Some(parse_mode), ..self }
    }

    pub fn caption_entities(self, entities: Vec<MessageEntity>) -> (r: Self)
        ensures
            r == (InputMediaDocument { caption_entities: Some(entities), ..self }),
    {
        InputMediaDocument { caption_entities: Some(entities), ..self }
    }

    /// Sets `disable_content_type_detection` to `true` when enabled, and leaves it out otherwise.
    pub fn disable_content_type_detection(self, enabled: bool) -> (r: Self)
        ensures
            r == (InputMediaDocument { disable_content_type_detection: if enabled { Some(true) } else { None }, ..self }),
    {
        InputMediaDocument { disable_content_type_detection: if enabled { Some(true) } else { None }, ..self }
    }

}

/// Media to be sent, told apart by its `type`.
#[derive(Debug)]
pub enum InputMedia {
    Photo(Box<InputMediaPhoto>),
    Video(Box<InputMediaVideo>),
    Animation(Box<InputMediaAnimation>),
    Audio(Box<InputMediaAudio>),
    Document(Box<InputMediaDocument>),
}

/// The `type` an input media is sent with.
pub open spec fn input_media_type(media: InputMedia) -> Seq<char> {
    match media {
        InputMedia::Photo(_) => "photo"@,
        InputMedia::Video(_) => "video"@,
        InputMedia::Animation(_) => "animation"@,
        InputMedia::Audio(_) => "audio"@,
        InputMedia::Document(_) => "document"@,
    }
}

impl InputMedia {
    /// The `type` this media is sent with.
    pub fn media_type(&self) -> (r: &'static str)
        ensures
            r@ == input_media_type(*self),
    {
        match self {
            InputMedia::Photo(_) => "photo",
            InputMedia::Video(_) => "video",
            InputMedia::Animation(_) => "animation",
            InputMedia::Audio(_) => "audio",
            InputMedia::Document(_) => "document",
        }
    }
}

impl From<InputMediaPhoto> for InputMedia {
    fn from(value: InputMediaPhoto) -> (r: Self) {
        InputMedia::Photo(Box::new(value))
    }
}

impl vstd::std_specs::convert::FromSpecImpl<InputMediaPhoto> for InputMedia {
    open spec fn obeys_from_spec() -> bool {
        true
    }

    open spec fn from_spec(value: InputMediaPhoto) -> Self {
        InputMedia::Photo(Box::new(value))
    }
}

impl From<InputMediaVideo> for InputMedia {
    fn from(value: InputMediaVideo) -> (r: Self) {
        InputMedia::Video(Box::new(value))
    }
}

impl vstd::std_specs::convert::FromSpecImpl<InputMediaVideo> for InputMedia {
    open spec fn obeys_from_spec() -> bool {
        true
    }

    open spec fn from_spec(value: InputMediaVideo) -> Self {
        InputMedia::Video(Box::new(value))
    }
}

impl From<InputMediaAnimation> for InputMedia {
    fn from(value: InputMediaAnimation) -> (r: Self) {
        InputMedia::Animation(Box::new(value))
    }
}

impl vstd::std_specs::convert::FromSpecImpl<InputMediaAnimation> for InputMedia {
    open spec fn obeys_from_spec() -> bool {
        true
    }

    open spec fn from_spec(value: InputMediaAnimation) -> Self {
        InputMedia::Animation(Box::new(value))
    }
}

impl From<InputMediaAudio> for InputMedia {
    fn from(value: InputMediaAudio) -> (r: Self) {
        InputMedia::Audio(Box::new(value))
    }
}

impl vstd::std_specs::convert::FromSpecImpl<InputMediaAudio> for InputMedia {
    open spec fn obeys_from_spec() -> bool {
        true
    }

    open spec fn from_spec(value: InputMediaAudio) -> Self {
        InputMedia::Audio(Box::new(value))
    }
}

impl From<InputMediaDocument> for InputMedia {
    fn from(value: InputMediaDocument) -> (r: Self) {
        InputMedia::Document(Box::new(value))
    }
}

impl vstd::std_specs::convert::FromSpecImpl<InputMediaDocument> for InputMedia {
    open spec fn obeys_from_spec() -> bool {
        true
    }

    open spec fn from_spec(value: InputMediaDocument) -> Self {
        InputMedia::Document(Box::new(value))
    }
}

/// Media that can be sent in a media group: any input media but an animation.
#[derive(Debug)]
pub enum InputMediaGroupItem {
    Photo(Box<InputMediaPhoto>),
    Video(Box<InputMediaVideo>),
    Audio(Box<InputMediaAudio>),
    Document(Box<InputMediaDocument>),
}

impl From<InputMediaPhoto> for InputMediaGroupItem {
    fn from(value: InputMediaPhoto) -> (r: Self) {
        InputMediaGroupItem::Photo(Box::new(value))
    }
}

impl vstd::std_specs::convert::FromSpecImpl<InputMediaPhoto> for InputMediaGroupItem {
    open spec fn obeys_from_spec() -> bool {
        true
    }

    open spec fn from_spec(value: InputMediaPhoto) -> Self {
        InputMediaGroupItem::Photo(Box::new(value))
    }
}

impl From<InputMediaVideo> for InputMediaGroupItem {
    fn from(value: InputMediaVideo) -> (r: Self) {
        InputMediaGroupItem::Video(Box::new(value))
    }
}

impl vstd::std_specs::convert::FromSpecImpl<InputMediaVideo> for InputMediaGroupItem {
    open spec fn obeys_from_spec() -> bool {
        true
    }

    open spec fn from_spec(value: InputMediaVideo) -> Self {
        InputMediaGroupItem::Video(Box::new(value))
    }
}

impl From<InputMediaAudio> for InputMediaGroupItem {
    fn from(value: InputMediaAudio) -> (r: Self) {
        InputMediaGroupItem::Audio(Box::new(value))
    }
}

impl vstd::std_specs::convert::FromSpecImpl<InputMediaAudio> for InputMediaGroupItem {
    open spec fn obeys_from_spec() -> bool {
        true
    }

    open spec fn from_spec(value: InputMediaAudio) -> Self {
        InputMediaGroupItem::Audio(Box::new(value))
    }
}

impl From<InputMediaDocument> for InputMediaGroupItem {
    fn from(value: InputMediaDocument) -> (r: Self) {
        InputMediaGroupItem::Document(Box::new(value))
    }
}

impl vstd::std_specs::convert::FromSpecImpl<InputMediaDocument> for InputMediaGroupItem {
    open spec fn obeys_from_spec() -> bool {
        true
    }

    open spec fn from_spec(value: InputMediaDocument) -> Self {
        InputMediaGroupItem::Document(Box::new(value))
    }
}

/// The input media a media group item is sent as.
pub open spec fn group_item_media(item: InputMediaGroupItem) -> InputMedia {
    match item {
        InputMediaGroupItem::Photo(m) => InputMedia::Photo(m),
        InputMediaGroupItem::Video(m) => InputMedia::Video(m),
        InputMediaGroupItem::Audio(m) => InputMedia::Audio(m),
        InputMediaGroupItem::Document(m) => InputMedia::Document(m),
    }
}

impl From<InputMediaGroupItem> for InputMedia {
    fn from(value: InputMediaGroupItem) -> (r: Self) {
        match value {
            InputMediaGroupItem::Photo(m) => InputMedia::Photo(m),
            InputMediaGroupItem::Video(m) => InputMedia::Video(m),
            InputMediaGroupItem::Audio(m) => InputMedia::Audio(m),
            InputMediaGroupItem::Document(m) => InputMedia::Document(m),
        }
    }
}

impl vstd::std_specs::convert::FromSpecImpl<InputMediaGroupItem> for InputMedia {
    open spec fn obeys_from_spec() -> bool {
        true
    }

    open spec fn from_spec(value: InputMediaGroupItem) -> Self {
        group_item_media(value)
    }
}

impl InputMediaGroupItem {
    /// The group item for `media`; an animation cannot be sent in a media group.
    pub fn from_media(media: InputMedia) -> (r: Result<Self, Error>)
        ensures
            match media {
                InputMedia::Animation(_) => r matches Err(Error::InvalidRequest { reason })
                    && reason@ == "sendMediaGroup does not support animation media"@,
                _ => r matches Ok(item) && group_item_media(item) == media,
            },
    {
        match media {
            InputMedia::Photo(m) => Ok(InputMediaGroupItem::Photo(m)),
            InputMedia::Video(m) => Ok(InputMediaGroupItem::Video(m)),
            InputMedia::Audio(m) => Ok(InputMediaGroupItem::Audio(m)),
            InputMedia::Document(m) => Ok(InputMediaGroupItem::Document(m)),
            InputMedia::Animation(_) => Err(
                invalid_request("sendMediaGroup does not support animation media".to_owned()),
            ),
        }
    }
}

/// `sendPhoto` request.
#[derive(Debug)]
pub struct SendPhotoRequest {
    pub chat_id: ChatId,
    pub business_connection_id: Option<String>,
    pub photo: Option<String>,
    pub caption: Option<String>,
    pub parse_mode: Option<ParseMode>,
    pub caption_entities: Option<Vec<MessageEntity>>,
    pub has_spoiler: Option<bool>,
    pub disable_notification: Option<bool>,
    pub protect_content: Option<bool>,
    pub message_thread_id: Option<i64>,
    pub direct_messages_topic_id: Option<i64>,
    pub allow_paid_broadcast: Option<bool>,
    pub message_effect_id: Option<String>,
    /// Suggested-post parameters, as JSON; their fields are not checked here.
    pub suggested_post_parameters: Option<JsonValue>,
    /// Reply parameters, as JSON; their fields are not checked here.
    pub reply_parameters: Option<JsonValue>,
    /// Reply markup, as JSON; its fields are not checked here.
    pub reply_markup: Option<JsonValue>,
}

impl SendPhotoRequest {
    /// A request with the given required fields and every option left out.
    pub fn new(chat_id: ChatId, photo: String) -> (r: Self)
        ensures
            r.chat_id == chat_id,
            r.business_connection_id is None,
            r.photo == Some(photo),
            r.caption is None,
            r.parse_mode is None,
            r.caption_entities is None,
            r.has_spoiler is None,
            r.disable_notification is None,
            r.protect_content is None,
            r.message_thread_id is None,
            r.direct_messages_topic_id is None,
            r.allow_paid_broadcast is None,
            r.message_effect_id is None,
            r.suggested_post_parameters is None,
            r.reply_parameters is None,
            r.reply_markup is None,
    {
        SendPhotoRequest {
            chat_id,
            business_connection_id: None,
            photo: Some(photo),
            caption: None,
            parse_mode: None,
            caption_entities: None,
            has_spoiler: None,
            disable_notification: None,
            protect_content: None,
            message_thread_id: None,
            direct_messages_topic_id: None,
            allow_paid_broadcast: None,
            message_effect_id: None,
            suggested_post_parameters: None,
            reply_parameters: None,
            reply_markup: None,
        }
    }

    /// A request whose file is sent as an upload part, with every option left out.
    pub fn for_upload(chat_id: ChatId) -> (r: Self)
        ensures
            r.chat_id == chat_id,
            r.business_connection_id is None,
            r.photo is None,
            r.caption is None,
            r.parse_mode is None,
            r.caption_entities is None,
            r.has_spoiler is None,
            r.disable_notification is None,
            r.protect_content is None,
            r.message_thread_id is None,
            r.direct_messages_topic_id is None,
            r.allow_paid_broadcast is None,
            r.message_effect_id is None,
            r.suggested_post_parameters is None,
            r.reply_parameters is None,
            r.reply_markup is None,
    {
        SendPhotoRequest {
            chat_id,
            business_connection_id: None,
            photo: None,
            caption: None,
            parse_mode: None,
            caption_entities: None,
            has_spoiler: None,
            disable_notification: None,
            protect_content: None,
            message_thread_id: None,
            direct_messages_topic_id: None,
            allow_paid_broadcast: None,
            message_effect_id: None,
            suggested_post_parameters: None,
            reply_parameters: None,
            reply_markup: None,
        }
    }

}

/// `sendAudio` request.
#[derive(Debug)]
pub struct SendAudioRequest {
    pub chat_id: ChatId,
    pub business_connection_id: Option<String>,
    pub audio: Option<String>,
    pub caption: Option<String>,
    pub parse_mode: Option<ParseMode>,
    pub caption_entities: Option<Vec<MessageEntity>>,
    pub duration: Option<u32>,
    pub performer: Option<String>,
    pub title: Option<String>,
    pub thumbnail: Option<String>,
    pub disable_notification: Option<bool>,
    pub protect_content: Option<bool>,
    pub message_thread_id: Option<i64>,
    pub direct_messages_topic_id: Option<i64>,
    pub allow_paid_broadcast: Option<bool>,
    pub message_effect_id: Option<String>,
    /// Suggested-post parameters, as JSON; their fields are not checked here.
    pub suggested_post_parameters: Option<JsonValue>,
    /// Reply parameters, as JSON; their fields are not checked here.
    pub reply_parameters: Option<JsonValue>,
    /// Reply markup, as JSON; its fields are not checked here.
    pub reply_markup: Option<JsonValue>,
}

impl SendAudioRequest {
    /// A request with the given required fields and every option left out.
    pub fn new(chat_id: ChatId, audio: String) -> (r: Self)
        ensures
            r.chat_id == chat_id,
            r.business_connection_id is None,
            r.audio == Some(audio),
            r.caption is None,
            r.parse_mode is None,
            r.caption_entities is None,
            r.duration is None,
            r.performer is None,
            r.title is None,
            r.thumbnail is None,
            r.disable_notification is None,
            r.protect_content is None,
            r.message_thread_id is None,
            r.direct_messages_topic_id is None,
            r.allow_paid_broadcast is None,
            r.message_effect_id is None,
            r.suggested_post_parameters is None,
            r.reply_parameters is None,
            r.reply_markup is None,
    {
        SendAudioRequest {
            chat_id,
            business_connection_id: None,
            audio: Some(audio),
            caption: None,
            parse_mode: None,
            caption_entities: None,
            duration: None,
            performer: None,
            title: None,
            thumbnail: None,
            disable_notification: None,
            protect_content: None,
            message_thread_id: None,
            direct_messages_topic_id: None,
            allow_paid_broadcast: None,
            message_effect_id: None,
            suggested_post_parameters: None,
            reply_parameters: None,
            reply_markup: None,
        }
    }

    /// A request whose file is sent as an upload part, with every option left out.
    pub fn for_upload(chat_id: ChatId) -> (r: Self)
        ensures
            r.chat_id == chat_id,
            r.business_connection_id is None,
            r.audio is None,
            r.caption is None,
            r.parse_mode is None,
            r.caption_entities is None,
            r.duration is None,
            r.performer is None,
            r.title is None,
            r.thumbnail is None,
            r.disable_notification is None,
            r.protect_content is None,
            r.message_thread_id is None,
            r.direct_messages_topic_id is None,
            r.allow_paid_broadcast is None,
            r.message_effect_id is None,
            r.suggested_post_parameters is None,
            r.reply_parameters is None,
            r.reply_markup is None,
    {
        SendAudioRequest {
            chat_id,
            business_connection_id: None,
            audio: None,
            caption: None,
            parse_mode: None,
            caption_entities: None,
            duration: None,
            performer: None,
            title: None,
            thumbnail: None,
            disable_notification: None,
            protect_content: None,
            message_thread_id: None,
            direct_messages_topic_id: None,
            allow_paid_broadcast: None,
            message_effect_id: None,
            suggested_post_parameters: None,
            reply_parameters: None,
            reply_markup: None,
        }
    }

}

/// `sendDocument` request.
#[derive(Debug)]
pub struct SendDocumentRequest {
    pub chat_id: ChatId,
    pub business_connection_id: Option<String>,
    pub document: Option<String>,
    pub thumbnail: Option<String>,
    pub caption: Option<String>,
    pub parse_mode: Option<ParseMode>,
    pub caption_entities: Option<Vec<MessageEntity>>,
    pub disable_content_type_detection: Option<bool>,
    pub disable_notification: Option<bool>,
    pub protect_content: Option<bool>,
    pub message_thread_id: Option<i64>,
    pub direct_messages_topic_id: Option<i64>,
    pub allow_paid_broadcast: Option<bool>,
    pub message_effect_id: Option<String>,
    /// Suggested-post parameters, as JSON; their fields are not checked here.
    pub suggested_post_parameters: Option<JsonValue>,
    /// Reply parameters, as JSON; their fields are not checked here.
    pub reply_parameters: Option<JsonValue>,
    /// Reply markup, as JSON; its fields are not checked here.
    pub reply_markup: Option<JsonValue>,
}

impl SendDocumentRequest {
    /// A request with the given required fields and every option left out.
    pub fn new(chat_id: ChatId, document: String) -> (r: Self)
        ensures
            r.chat_id == chat_id,
            r.business_connection_id is None,
            r.document == Some(document),
            r.thumbnail is None,
            r.caption is None,
            r.parse_mode is None,
            r.caption_entities is None,
            r.disable_content_type_detection is None,
            r.disable_notification is None,
            r.protect_content is None,
            r.message_thread_id is None,
            r.direct_messages_topic_id is None,
            r.allow_paid_broadcast is None,
            r.message_effect_id is None,
            r.suggested_post_parameters is None,
            r.reply_parameters is None,
            r.reply_markup is None,
    {
        SendDocumentRequest {
            chat_id,
            business_connection_id: None,
            document: Some(document),
            thumbnail: None,
            caption: None,
            parse_mode: None,
            caption_entities: None,
            disable_content_type_detection: None,
            disable_notification: None,
            protect_content: None,
            message_thread_id: None,
            direct_messages_topic_id: None,
            allow_paid_broadcast: None,
            message_effect_id: None,
            suggested_post_parameters: None,
            reply_parameters: None,
            reply_markup: None,
        }
    }

    /// A request whose file is sent as an upload part, with every option left out.
    pub fn for_upload(chat_id: ChatId) -> (r: Self)
        ensures
            r.chat_id == chat_id,
            r.business_connection_id is None,
            r.document is None,
            r.thumbnail is None,
            r.caption is None,
            r.parse_mode is None,
            r.caption_entities is None,
            r.disable_content_type_detection is None,
            r.disable_notification is None,
            r.protect_content is None,
            r.message_thread_id is None,
            r.direct_messages_topic_id is None,
            r.allow_paid_broadcast is None,
            r.message_effect_id is None,
            r.suggested_post_parameters is None,
            r.reply_parameters is None,
            r.reply_markup is None,
    {
        SendDocumentRequest {
            chat_id,
            business_connection_id: None,
            document: None,
            thumbnail: None,
            caption: None,
            parse_mode: None,
            caption_entities: None,
            disable_content_type_detection: None,
            disable_notification: None,
            protect_content: None,
            message_thread_id: None,
            direct_messages_topic_id: None,
            allow_paid_broadcast: None,
            message_effect_id: None,
            suggested_post_parameters: None,
            reply_parameters: None,
            reply_markup: None,
        }
    }

}

/// `sendVideo` request.
#[derive(Debug)]
pub struct SendVideoRequest {
    pub chat_id: ChatId,
    pub business_connection_id: Option<String>,
    pub video: Option<String>,
    pub duration: Option<u32>,
    pub width: Option<u32>,
    pub height: Option<u32>,
    pub thumbnail: Option<String>,
    pub caption: Option<String>,
    pub parse_mode: Option<ParseMode>,
    pub caption_entities: Option<Vec<MessageEntity>>,
    pub supports_streaming: Option<bool>,
    pub has_spoiler: Option<bool>,
    pub disable_notification: Option<bool>,
    pub protect_content: Option<bool>,
    pub message_thread_id: Option<i64>,
    pub direct_messages_topic_id: Option<i64>,
    pub allow_paid_broadcast: Option<bool>,
    pub message_effect_id: Option<String>,
    /// Suggested-post parameters, as JSON; their fields are not checked here.
    pub suggested_post_parameters: Option<JsonValue>,
    /// Reply parameters, as JSON; their fields are not checked here.
    pub reply_parameters: Option<JsonValue>,
    /// Reply markup, as JSON; its fields are not checked here.
    pub reply_markup: Option<JsonValue>,
}

impl SendVideoRequest {
    /// A request with the given required fields and every option left out.
    pub fn new(chat_id: ChatId, video: String) -> (r: Self)
        ensures
            r.chat_id == chat_id,
            r.business_connection_id is None,
            r.video == Some(video),
            r.duration is None,
            r.width is None,
            r.height is None,
            r.thumbnail is None,
            r.caption is None,
            r.parse_mode is None,
            r.caption_entities is None,
            r.supports_streaming is None,
            r.has_spoiler is None,
            r.disable_notification is None,
            r.protect_content is None,
            r.message_thread_id is None,
            r.direct_messages_topic_id is None,
            r.allow_paid_broadcast is None,
            r.message_effect_id is None,
            r.suggested_post_parameters is None,
            r.reply_parameters is None,
            r.reply_markup is None,
    {
        SendVideoRequest {
            chat_id,
            business_connection_id: None,
            video: Some(video),
            duration: None,
            width: None,
            height: None,
            thumbnail: None,
            caption: None,
            parse_mode: None,
            caption_entities: None,
            supports_streaming: None,
            has_spoiler: None,
            disable_notification: None,
            protect_content: None,
            message_thread_id: None,
            direct_messages_topic_id: None,
            allow_paid_broadcast: None,
            message_effect_id: None,
            suggested_post_parameters: None,
            reply_parameters: None,
            reply_markup: None,
        }
    }

    /// A request whose file is sent as an upload part, with every option left out.
    pub fn for_upload(chat_id: ChatId) -> (r: Self)
        ensures
            r.chat_id == chat_id,
            r.business_connection_id is None,
            r.video is None,
            r.duration is None,
            r.width is None,
            r.height is None,
            r.thumbnail is None,
            r.caption is None,
            r.parse_mode is None,
            r.caption_entities is None,
            r.supports_streaming is None,
            r.has_spoiler is None,
            r.disable_notification is None,
            r.protect_content is None,
            r.message_thread_id is None,
            r.direct_messages_topic_id is None,
            r.allow_paid_broadcast is None,
            r.message_effect_id is None,
            r.suggested_post_parameters is None,
            r.reply_parameters is None,
            r.reply_markup is None,
    {
        SendVideoRequest {
            chat_id,
            business_connection_id: None,
            video: None,
            duration: None,
            width: None,
            height: None,
            thumbnail: None,
            caption: None,
            parse_mode: None,
            caption_entities: None,
            supports_streaming: None,
            has_spoiler: None,
            disable_notification: None,
            protect_content: None,
            message_thread_id: None,
            direct_messages_topic_id: None,
            allow_paid_broadcast: None,
            message_effect_id: None,
            suggested_post_parameters: None,
            reply_parameters: None,
            reply_markup: None,
        }
    }

}

/// `sendAnimation` request.
#[derive(Debug)]
pub struct SendAnimationRequest {
    pub chat_id: ChatId,
    pub business_connection_id: Option<String>,
    pub animation: Option<String>,
    pub duration: Option<u32>,
    pub width: Option<u32>,
    pub height: Option<u32>,
    pub thumbnail: Option<String>,
    pub caption: Option<String>,
    pub parse_mode: Option<ParseMode>,
    pub caption_entities: Option<Vec<MessageEntity>>,
    pub has_spoiler: Option<bool>,
    pub disable_notification: Option<bool>,
    pub protect_content: Option<bool>,
    pub message_thread_id: Option<i64>,
    pub direct_messages_topic_id: Option<i64>,
    pub allow_paid_broadcast: Option<bool>,
    pub message_effect_id: Option<String>,
    /// Suggested-post parameters, as JSON; their fields are not checked here.
    pub suggested_post_parameters: Option<JsonValue>,
    /// Reply parameters, as JSON; their fields are not checked here.
    pub reply_parameters: Option<JsonValue>,
    /// Reply markup, as JSON; its fields are not checked here.
    pub reply_markup: Option<JsonValue>,
}

impl SendAnimationRequest {
    /// A request with the given required fields and every option left out.
    pub fn new(chat_id: ChatId, animation: String) -> (r: Self)
        ensures
            r.chat_id == chat_id,
            r.business_connection_id is None,
            r.animation == Some(animation),
            r.duration is None,
            r.width is None,
            r.height is None,
            r.thumbnail is None,
            r.caption is None,
            r.parse_mode is None,
            r.caption_entities is None,
            r.has_spoiler is None,
            r.disable_notification is None,
            r.protect_content is None,
            r.message_thread_id is None,
            r.direct_messages_topic_id is None,
            r.allow_paid_broadcast is None,
            r.message_effect_id is None,
            r.suggested_post_parameters is None,
            r.reply_parameters is None,
            r.reply_markup is None,
    {
        SendAnimationRequest {
            chat_id,
            business_connection_id: None,
            animation: Some(animation),
            duration: None,
            width: None,
            height: None,
            thumbnail: None,
            caption: None,
            parse_mode: None,
            caption_entities: None,
            has_spoiler: None,
            disable_notification: None,
            protect_content: None,
            message_thread_id: None,
            direct_messages_topic_id: None,
            allow_paid_broadcast: None,
            message_effect_id: None,
            suggested_post_parameters: None,
            reply_parameters: None,
            reply_markup: None,
        }
    }

    /// A request whose file is sent as an upload part, with every option left out.
    pub fn for_upload(chat_id: ChatId) -> (r: Self)
        ensures
            r.chat_id == chat_id,
            r.business_connection_id is None,
            r.animation is None,
            r.duration is None,
            r.width is None,
            r.height is None,
            r.thumbnail is None,
            r.caption is None,
            r.parse_mode is None,
            r.caption_entities is None,
            r.has_spoiler is None,
            r.disable_notification is None,
            r.protect_content is None,
            r.message_thread_id is None,
            r.direct_messages_topic_id is None,
            r.allow_paid_broadcast is None,
            r.message_effect_id is None,
            r.suggested_post_parameters is None,
            r.reply_parameters is None,
            r.reply_markup is None,
    {
        SendAnimationRequest {
            chat_id,
            business_connection_id: None,
            animation: None,
            duration: None,
            width: None,
            height: None,
            thumbnail: None,
            caption: None,
            parse_mode: None,
            caption_entities: None,
            has_spoiler: None,
            disable_notification: None,
            protect_content: None,
            message_thread_id: None,
            direct_messages_topic_id: None,
            allow_paid_broadcast: None,
            message_effect_id: None,
            suggested_post_parameters: None,
            reply_parameters: None,
            reply_markup: None,
        }
    }

}

/// `sendVoice` request.
#[derive(Debug)]
pub struct SendVoiceRequest {
    pub chat_id: ChatId,
    pub business_connection_id: Option<String>,
    pub voice: Option<String>,
    pub caption: Option<String>,
    pub parse_mode: Option<ParseMode>,
    pub caption_entities: Option<Vec<MessageEntity>>,
    pub duration: Option<u32>,
    pub disable_notification: Option<bool>,
    pub protect_content: Option<bool>,
    pub message_thread_id: Option<i64>,
    pub direct_messages_topic_id: Option<i64>,
    pub allow_paid_broadcast: Option<bool>,
    pub message_effect_id: Option<String>,
    /// Suggested-post parameters, as JSON; their fields are not checked here.
    pub suggested_post_parameters: Option<JsonValue>,
    /// Reply parameters, as JSON; their fields are not checked here.
    pub reply_parameters: Option<JsonValue>,
    /// Reply markup, as JSON; its fields are not checked here.
    pub reply_markup: Option<JsonValue>,
}

impl SendVoiceRequest {
    /// A request with the given required fields and every option left out.
    pub fn new(chat_id: ChatId, voice: String) -> (r: Self)
        ensures
            r.chat_id == chat_id,
            r.business_connection_id is None,
            r.voice == Some(voice),
            r.caption is None,
            r.parse_mode is None,
            r.caption_entities is None,
            r.duration is None,
            r.disable_notification is None,
            r.protect_content is None,
            r.message_thread_id is None,
            r.direct_messages_topic_id is None,
            r.allow_paid_broadcast is None,
            r.message_effect_id is None,
            r.suggested_post_parameters is None,
            r.reply_parameters is None,
            r.reply_markup is None,
    {
        SendVoiceRequest {
            chat_id,
            business_connection_id: None,
            voice: Some(voice),
            caption: None,
            parse_mode: None,
            caption_entities: None,
            duration: None,
            disable_notification: None,
            protect_content: None,
            message_thread_id: None,
            direct_messages_topic_id: None,
            allow_paid_broadcast: None,
            message_effect_id: None,
            suggested_post_parameters: None,
            reply_parameters: None,
            reply_markup: None,
        }
    }

    /// A request whose file is sent as an upload part, with every option left out.
    pub fn for_upload(chat_id: ChatId) -> (r: Self)
        ensures
            r.chat_id == chat_id,
            r.business_connection_id is None,
            r.voice is None,
            r.caption is None,
            r.parse_mode is None,
            r.caption_entities is None,
            r.duration is None,
            r.disable_notification is None,
            r.protect_content is None,
            r.message_thread_id is None,
            r.direct_messages_topic_id is None,
            r.allow_paid_broadcast is None,
            r.message_effect_id is None,
            r.suggested_post_parameters is None,
            r.reply_parameters is None,
            r.reply_markup is None,
    {
        SendVoiceRequest {
            chat_id,
            business_connection_id: None,
            voice: None,
            caption: None,
            parse_mode: None,
            caption_entities: None,
            duration: None,
            disable_notification: None,
            protect_content: None,
            message_thread_id: None,
            direct_messages_topic_id: None,
            allow_paid_broadcast: None,
            message_effect_id: None,
            suggested_post_parameters: None,
            reply_parameters: None,
            reply_markup: None,
        }
    }

}

/// `copyMessage` request.
#[derive(Debug)]
pub struct CopyMessageRequest {
    pub chat_id: ChatId,
    pub message_thread_id: Option<i64>,
    pub direct_messages_topic_id: Option<i64>,
    pub from_chat_id: ChatId,
    pub message_id: MessageId,
    pub video_start_timestamp: Option<u32>,
    pub caption: Option<String>,
    pub parse_mode: Option<ParseMode>,
    pub caption_entities: Option<Vec<MessageEntity>>,
    pub show_caption_above_media: Option<bool>,
    pub disable_notification: Option<bool>,
    pub protect_content: Option<bool>,
    pub allow_paid_broadcast: Option<bool>,
    pub message_effect_id: Option<String>,
    /// Suggested-post parameters, as JSON; their fields are not checked here.
    pub suggested_post_parameters: Option<JsonValue>,
    /// Reply parameters, as JSON; their fields are not checked here.
    pub reply_parameters: Option<JsonValue>,
    /// Reply markup, as JSON; its fields are not checked here.
    pub reply_markup: Option<JsonValue>,
}

impl CopyMessageRequest {
    /// A request with the given required fields and every option left out.
    pub fn new(chat_id: ChatId, from_chat_id: ChatId, message_id: MessageId) -> (r: Self)
        ensures
            r.chat_id == chat_id,
            r.message_thread_id is None,
            r.direct_messages_topic_id is None,
            r.from_chat_id == from_chat_id,
            r.message_id == message_id,
            r.video_start_timestamp is None,
            r.caption is None,
            r.parse_mode is None,
            r.caption_entities is None,
            r.show_caption_above_media is None,
            r.disable_notification is None,
            r.protect_content is None,
            r.allow_paid_broadcast is None,
            r.message_effect_id is None,
            r.suggested_post_parameters is None,
            r.reply_parameters is None,
            r.reply_markup is None,
    {
        CopyMessageRequest {
            chat_id,
            message_thread_id: None,
            direct_messages_topic_id: None,
            from_chat_id,
            message_id,
            video_start_timestamp: None,
            caption: None,
            parse_mode: None,
            caption_entities: None,
            show_caption_above_media: None,
            disable_notification: None,
            protect_content: None,
            allow_paid_broadcast: None,
            message_effect_id: None,
            suggested_post_parameters: None,
            reply_parameters: None,
            reply_markup: None,
        }
    }

}

/// The id of a copied message.
#[derive(Debug)]
pub struct MessageIdObject {
    pub message_id: MessageId,
    /// Fields of the response that this model does not name.
    pub extra: JsonMap,
}

/// The inline message sent on behalf of a Web App.
#[derive(Debug)]
pub struct SentWebAppMessage {
    pub inline_message_id: String,
    /// Fields of the response that this model does not name.
    pub extra: JsonMap,
}


pub const MIN_LIVE_LOCATION_PERIOD_SECONDS: u32 = 60;

pub const MAX_LIVE_LOCATION_PERIOD_SECONDS: u32 = 86400;

/// A live period that keeps the location live until it is stopped.
pub const INDEFINITE_LIVE_LOCATION_PERIOD_SECONDS: u32 = 0x7FFF_FFFF;

pub const MIN_LOCATION_HEADING_DEGREES: u16 = 1;

pub const MAX_LOCATION_HEADING_DEGREES: u16 = 360;

pub const MIN_PROXIMITY_ALERT_RADIUS_METERS: u32 = 1;

pub const MAX_PROXIMITY_ALERT_RADIUS_METERS: u32 = 100000;

/// Why the whole-number options of a location are refused: a live period of
/// 60 to 86400 seconds or the indefinite period, a heading of 1 to 360 degrees,
/// and a proximity alert radius of 1 to 100000 meters, checked in that order.
pub open spec fn location_limits_failure(
    live_period: Option<u32>,
    heading: Option<u16>,
    proximity_alert_radius: Option<u32>,
) -> Option<Seq<char>> {
    if live_period matches Some(p) && p != INDEFINITE_LIVE_LOCATION_PERIOD_SECONDS && !(
    MIN_LIVE_LOCATION_PERIOD_SECONDS <= p <= MAX_LIVE_LOCATION_PERIOD_SECONDS) {
        Some("live_period must be 60-86400 seconds or 2147483647"@)
    } else if heading matches Some(h) && !(MIN_LOCATION_HEADING_DEGREES <= h
        <= MAX_LOCATION_HEADING_DEGREES) {
        Some("heading must be 1-360 degrees"@)
    } else if proximity_alert_radius matches Some(d) && !(MIN_PROXIMITY_ALERT_RADIUS_METERS <= d
        <= MAX_PROXIMITY_ALERT_RADIUS_METERS) {
        Some("proximity_alert_radius must be 1-100000 meters"@)
    } else {
        None
    }
}

/// Checks the whole-number options of a location sent or edited live.
pub fn validate_location_limits(
    live_period: Option<u32>,
    heading: Option<u16>,
    proximity_alert_radius: Option<u32>,
) -> (r: Result<(), Error>)
    ensures
        failure(r) == location_limits_failure(live_period, heading, proximity_alert_radius),
{
    if let Some(p) = live_period {
        if p != INDEFINITE_LIVE_LOCATION_PERIOD_SECONDS && !(MIN_LIVE_LOCATION_PERIOD_SECONDS <= p
            && p <= MAX_LIVE_LOCATION_PERIOD_SECONDS) {
            return fail("live_period must be 60-86400 seconds or 2147483647");
        }
    }
    if let Some(h) = heading {
        if !(MIN_LOCATION_HEADING_DEGREES <= h && h <= MAX_LOCATION_HEADING_DEGREES) {
            return fail("heading must be 1-360 degrees");
        }
    }
    if let Some(d) = proximity_alert_radius {
        if !(MIN_PROXIMITY_ALERT_RADIUS_METERS <= d && d <= MAX_PROXIMITY_ALERT_RADIUS_METERS) {
            return fail("proximity_alert_radius must be 1-100000 meters");
        }
    }
    Ok(())
}


pub const MIN_POLL_OPTIONS: usize = 1;

pub const MAX_POLL_OPTIONS: usize = 12;

pub const MAX_POLL_QUESTION_CHARS: usize = 300;

pub const MIN_POLL_OPEN_PERIOD_SECONDS: u32 = 5;

pub const MAX_POLL_OPEN_PERIOD_SECONDS: u32 = 2628000;

/// The first refusal among the texts of the first `n` poll options, in order.
pub open spec fn poll_options_prefix_failure(options: Seq<InputPollOption>, n: nat) -> Option<
    Seq<char>,
>
    decreases n,
{
    if n == 0 {
        None
    } else {
        first_failure(
            poll_options_prefix_failure(options, (n - 1) as nat),
            poll_option_failure(options[n - 1].text@),
        )
    }
}

/// Once a prefix of the options has failed, every longer prefix reports that failure.
pub proof fn lemma_poll_options_failure_stays(options: Seq<InputPollOption>, n: nat, m: nat)
    requires
        n <= m,
        poll_options_prefix_failure(options, n) is Some,
    ensures
        poll_options_prefix_failure(options, m) == poll_options_prefix_failure(options, n),
    decreases m - n,
{
    if n < m {
        lemma_poll_options_failure_stays(options, n, (m - 1) as nat);
    }
}

/// Why a poll is refused, with its checks in order: the question must not be
/// blank, must hold no control character and at most 300 characters; there
/// are 1 to 12 options, each valid; the correct answers fit the kind and the
/// options; `open_period` and `close_date` do not come together, the period is
/// 5 to 2628000 seconds and the date positive; the kind is a known one; and
/// the explanation, the description and the country codes are valid. The
/// formatting of the question, the options, the explanation and the
/// description (parse mode and entities) is not checked here.
pub open spec fn poll_failure(
    question: Seq<char>,
    options: Seq<InputPollOption>,
    kind: Option<PollKind>,
    correct_option_ids: Option<Seq<u8>>,
    open_period: Option<u32>,
    close_date: Option<i64>,
    explanation: Option<Seq<char>>,
    description: Option<Seq<char>>,
    country_codes: Option<Seq<String>>,
) -> Option<Seq<char>> {
    if required_text_failure("poll question"@, question) is Some {
        required_text_failure("poll question"@, question)
    } else if question.len() > MAX_POLL_QUESTION_CHARS {
        Some("poll question exceeds 300 characters"@)
    } else if !(MIN_POLL_OPTIONS <= options.len() <= MAX_POLL_OPTIONS) {
        Some("sendPoll requires 1-12 options"@)
    } else if poll_options_prefix_failure(options, options.len()) is Some {
        poll_options_prefix_failure(options, options.len())
    } else if correct_option_ids_failure(
        kind matches Some(PollKind::Quiz),
        correct_option_ids,
        options.len(),
    ) is Some {
        correct_option_ids_failure(kind matches Some(PollKind::Quiz), correct_option_ids, options.len())
    } else if open_period is Some && close_date is Some {
        Some("open_period cannot be combined with close_date"@)
    } else if open_period matches Some(p) && !(MIN_POLL_OPEN_PERIOD_SECONDS <= p
        <= MAX_POLL_OPEN_PERIOD_SECONDS) {
        Some("open_period must be 5-2628000 seconds"@)
    } else if close_date matches Some(d) && d <= 0 {
        Some("close_date must be a positive Unix timestamp"@)
    } else if kind is Some && kind->0 is Unknown {
        Some("unsupported poll type `"@ + (kind->0)->0@ + "`"@)
    } else if poll_explanation_failure(explanation) is Some {
        poll_explanation_failure(explanation)
    } else if poll_description_failure(description) is Some {
        poll_description_failure(description)
    } else {
        poll_country_codes_failure(country_codes)
    }
}

fn validate_poll_options(options: &[InputPollOption]) -> (r: Result<(), Error>)
    ensures
        failure(r) == poll_options_prefix_failure(options@, options@.len()),
{
    let mut i: usize = 0;
    while i < options.len()
        invariant
            i <= options@.len(),
            poll_options_prefix_failure(options@, i as nat) is None,
        decreases options@.len() - i,
    {
        let res = validate_poll_option(&options[i]);
        if res.is_err() {
            assert(poll_options_prefix_failure(options@, (i + 1) as nat) == failure(res));
            proof {
                lemma_poll_options_failure_stays(options@, (i + 1) as nat, options@.len());
            }
            return res;
        }
        i = i + 1;
    }
    Ok(())
}

/// Checks a poll: its question, options, correct answers, timing, kind,
/// explanation, description and country codes, in that order.
pub fn validate_poll(
    question: &str,
    options: &[InputPollOption],
    kind: &Option<PollKind>,
    correct_option_ids: &Option<Vec<u8>>,
    open_period: Option<u32>,
    close_date: Option<i64>,
    explanation: Option<&str>,
    description: Option<&str>,
    country_codes: &Option<Vec<String>>,
) -> (r: Result<(), Error>)
    ensures
        failure(r) == poll_failure(
            question@,
            options@,
            *kind,
            match *correct_option_ids {
                Some(v) => Some(v@),
                None => None,
            },
            open_period,
            close_date,
            match explanation {
                Some(e) => Some(e@),
                None => None,
            },
            match description {
                Some(d) => Some(d@),
                None => None,
            },
            match *country_codes {
                Some(v) => Some(v@),
                None => None,
            },
        ),
{
    let res = validate_required_text("poll question", question);
    if res.is_err() {
        return res;
    }
    let scan = scan_text(question);
    if scan.chars > MAX_POLL_QUESTION_CHARS {
        return fail("poll question exceeds 300 characters");
    }
    if !(MIN_POLL_OPTIONS <= options.len() && options.len() <= MAX_POLL_OPTIONS) {
        return fail("sendPoll requires 1-12 options");
    }
    let res = validate_poll_options(options);
    if res.is_err() {
        return res;
    }
    let res = validate_correct_option_ids(kind, correct_option_ids, options.len());
    if res.is_err() {
        return res;
    }
    if open_period.is_some() && close_date.is_some() {
        return fail("open_period cannot be combined with close_date");
    }
    if let Some(p) = open_period {
        if !(MIN_POLL_OPEN_PERIOD_SECONDS <= p && p <= MAX_POLL_OPEN_PERIOD_SECONDS) {
            return fail("open_period must be 5-2628000 seconds");
        }
    }
    if let Some(d) = close_date {
        if d <= 0 {
            return fail("close_date must be a positive Unix timestamp");
        }
    }
    if let Some(PollKind::Unknown(k)) = kind {
        let head = concat2("unsupported poll type `", k.as_str());
        let reason = concat2(head.as_str(), "`");
        return Err(Error::InvalidRequest { reason });
    }
    let res = validate_poll_explanation(explanation);
    if res.is_err() {
        return res;
    }
    let res = validate_poll_description(description);
    if res.is_err() {
        return res;
    }
    validate_poll_country_codes(country_codes)
}

/// `sendPoll` request.
#[derive(Debug)]
pub struct SendPollRequest {
    pub chat_id: ChatId,
    pub business_connection_id: Option<String>,
    pub question: String,
    pub question_parse_mode: Option<ParseMode>,
    pub question_entities: Option<Vec<MessageEntity>>,
    pub options: Vec<InputPollOption>,
    pub is_anonymous: Option<bool>,
    pub kind: Option<PollKind>,
    pub allows_multiple_answers: Option<bool>,
    pub country_codes: Option<Vec<String>>,
    pub correct_option_ids: Option<Vec<u8>>,
    pub explanation: Option<String>,
    pub explanation_parse_mode: Option<ParseMode>,
    pub explanation_entities: Option<Vec<MessageEntity>>,
    pub open_period: Option<u32>,
    pub close_date: Option<i64>,
    pub description: Option<String>,
    pub description_parse_mode: Option<ParseMode>,
    pub description_entities: Option<Vec<MessageEntity>>,
    pub is_closed: Option<bool>,
    pub disable_notification: Option<bool>,
    pub protect_content: Option<bool>,
    pub allow_paid_broadcast: Option<bool>,
    pub message_thread_id: Option<i64>,
    pub message_effect_id: Option<String>,
    /// Reply parameters, as JSON; their fields are not checked here.
    pub reply_parameters: Option<JsonValue>,
    /// Reply markup, as JSON; its fields are not checked here.
    pub reply_markup: Option<JsonValue>,
}

/// The view of an optional text.
pub open spec fn opt_text_view(value: Option<String>) -> Option<Seq<char>> {
    match value {
        Some(v) => Some(v@),
        None => None,
    }
}

/// Why a `SendPollRequest` is refused: its business connection, chat, thread
/// and message effect, then the poll itself.
pub open spec fn send_poll_failure(r: SendPollRequest) -> Option<Seq<char>> {
    first_failure(
        optional_required_text_failure("business_connection_id"@, r.business_connection_id),
        first_failure(
            chat_id_failure(r.chat_id@),
            first_failure(
                optional_positive_i64_failure("message_thread_id"@, r.message_thread_id),
                first_failure(
                    optional_required_text_failure("message_effect_id"@, r.message_effect_id),
                    poll_failure(
                        r.question@,
                        r.options@,
                        r.kind,
                        match r.correct_option_ids {
                            Some(v) => Some(v@),
                            None => None,
                        },
                        r.open_period,
                        r.close_date,
                        opt_text_view(r.explanation),
                        opt_text_view(r.description),
                        match r.country_codes {
                            Some(v) => Some(v@),
                            None => None,
                        },
                    ),
                ),
            ),
        ),
    )
}

impl SendPollRequest {
    /// A request for a checked chat id, question and options, with every other
    /// field left out.
    pub fn new(chat_id: ChatId, question: String, options: Vec<InputPollOption>) -> (r: Result<
        Self,
        Error,
    >)
        ensures
            first_failure(
                chat_id_failure(chat_id@),
                poll_failure(question@, options@, None, None, None, None, None, None, None),
            ) is None ==> (r matches Ok(req) && req.chat_id == chat_id && req.question == question
                && req.options == options && req.business_connection_id is None
                && req.question_parse_mode is None && req.question_entities is None
                && req.is_anonymous is None && req.kind is None
                && req.allows_multiple_answers is None && req.country_codes is None
                && req.correct_option_ids is None && req.explanation is None
                && req.explanation_parse_mode is None && req.explanation_entities is None
                && req.open_period is None && req.close_date is None && req.description is None
                && req.description_parse_mode is None && req.description_entities is None
                && req.is_closed is None && req.disable_notification is None
                && req.protect_content is None && req.allow_paid_broadcast is None
                && req.message_thread_id is None && req.message_effect_id is None && req.reply_parameters is None && req.reply_markup is None),
            first_failure(
                chat_id_failure(chat_id@),
                poll_failure(question@, options@, None, None, None, None, None, None, None),
            ) matches Some(reason) ==> (r matches Err(Error::InvalidRequest { reason: e }) && e@
                == reason),
    {
        if let Err(e) = chat_id.validate() {
            return Err(e);
        }
        let no_kind: Option<PollKind> = None;
        let no_ids: Option<Vec<u8>> = None;
        let no_codes: Option<Vec<String>> = None;
        if let Err(e) = validate_poll(
            question.as_str(),
            options.as_slice(),
            &no_kind,
            &no_ids,
            None,
            None,
            None,
            None,
            &no_codes,
        ) {
            return Err(e);
        }
        Ok(SendPollRequest {
            chat_id,
            business_connection_id: None,
            question,
            question_parse_mode: None,
            question_entities: None,
            options,
            is_anonymous: None,
            kind: None,
            allows_multiple_answers: None,
            country_codes: None,
            correct_option_ids: None,
            explanation: None,
            explanation_parse_mode: None,
            explanation_entities: None,
            open_period: None,
            close_date: None,
            description: None,
            description_parse_mode: None,
            description_entities: None,
            is_closed: None,
            disable_notification: None,
            protect_content: None,
            allow_paid_broadcast: None,
            message_thread_id: None,
            message_effect_id: None,
            reply_parameters: None,
            reply_markup: None,
        })
    }

    /// Checks the request as it stands.
    pub fn validate(&self) -> (r: Result<(), Error>)
        ensures
            failure(r) == send_poll_failure(*self),
    {
        let res = optional_required_text("business_connection_id", &self.business_connection_id);
        if res.is_err() {
            return res;
        }
        let res = self.chat_id.validate();
        if res.is_err() {
            return res;
        }
        let res = optional_positive_i64("message_thread_id", self.message_thread_id);
        if res.is_err() {
            return res;
        }
        let res = optional_required_text("message_effect_id", &self.message_effect_id);
        if res.is_err() {
            return res;
        }
        let explanation = match &self.explanation {
            Some(e) => Some(e.as_str()),
            None => None,
        };
        let description = match &self.description {
            Some(d) => Some(d.as_str()),
            None => None,
        };
        validate_poll(
            self.question.as_str(),
            self.options.as_slice(),
            &self.kind,
            &self.correct_option_ids,
            self.open_period,
            self.close_date,
            explanation,
            description,
            &self.country_codes,
        )
    }
}

/// The view of an optional text, as the caption checks read it.
pub open spec fn opt_caption_view(value: Option<String>) -> Option<Seq<char>> {
    match value {
        Some(v) => Some(v@),
        None => None,
    }
}

pub(crate) fn validate_caption(caption: &Option<String>) -> (r: Result<(), Error>)
    ensures
        failure(r) == optional_caption_failure(opt_caption_view(*caption)),
{
    match caption {
        Some(c) => validate_optional_caption(Some(c.as_str())),
        None => validate_optional_caption(None),
    }
}

/// Why a `SendPhotoRequest` is refused: its send options, its photo, its caption
/// and then its other media fields, in that order.
pub open spec fn send_photo_request_failure(r: SendPhotoRequest) -> Option<Seq<char>> {
    first_failure(
        send_options_failure(
            r.business_connection_id,
            r.chat_id@,
            r.message_thread_id,
            r.direct_messages_topic_id,
            r.message_effect_id,
        ),
        first_failure(
        required_file_reference_failure("photo"@, r.photo),
        optional_caption_failure(opt_caption_view(r.caption)),
    ),
    )
}

impl SendPhotoRequest {
    /// Checks the request as it stands.
    /// The formatting of the caption (parse mode and entities) is not checked here.
    pub fn validate(&self) -> (r: Result<(), Error>)
        ensures
            failure(r) == send_photo_request_failure(*self),
    {
        let res = validate_send_options(
            &self.business_connection_id,
            &self.chat_id,
            self.message_thread_id,
            self.direct_messages_topic_id,
            &self.message_effect_id,
        );
        if res.is_err() {
            return res;
        }
        let res = validate_required_file_reference("photo", &self.photo);
        if res.is_err() {
            return res;
        }
        validate_caption(&self.caption)
    }
}

/// Why a `SendAudioRequest` is refused: its send options, its audio, its caption
/// and then its other media fields, in that order.
pub open spec fn send_audio_request_failure(r: SendAudioRequest) -> Option<Seq<char>> {
    first_failure(
        send_options_failure(
            r.business_connection_id,
            r.chat_id@,
            r.message_thread_id,
            r.direct_messages_topic_id,
            r.message_effect_id,
        ),
        first_failure(
        required_file_reference_failure("audio"@, r.audio),
        first_failure(
        optional_caption_failure(opt_caption_view(r.caption)),
        first_failure(
        optional_file_reference_failure("thumbnail"@, r.thumbnail),
        positive_u32_failure("duration"@, r.duration),
    ),
    ),
    ),
    )
}

impl SendAudioRequest {
    /// Checks the request as it stands.
    /// The formatting of the caption (parse mode and entities) is not checked here.
    pub fn validate(&self) -> (r: Result<(), Error>)
        ensures
            failure(r) == send_audio_request_failure(*self),
    {
        let res = validate_send_options(
            &self.business_connection_id,
            &self.chat_id,
            self.message_thread_id,
            self.direct_messages_topic_id,
            &self.message_effect_id,
        );
        if res.is_err() {
            return res;
        }
        let res = validate_required_file_reference("audio", &self.audio);
        if res.is_err() {
            return res;
        }
        let res = validate_caption(&self.caption);
        if res.is_err() {
            return res;
        }
        let res = validate_optional_file_reference("thumbnail", &self.thumbnail);
        if res.is_err() {
            return res;
        }
        validate_positive_u32("duration", self.duration)
    }
}

/// Why a `SendDocumentRequest` is refused: its send options, its document, its caption
/// and then its other media fields, in that order.
pub open spec fn send_document_request_failure(r: SendDocumentRequest) -> Option<Seq<char>> {
    first_failure(
        send_options_failure(
            r.business_connection_id,
            r.chat_id@,
            r.message_thread_id,
            r.direct_messages_topic_id,
            r.message_effect_id,
        ),
        first_failure(
        required_file_reference_failure("document"@, r.document),
        first_failure(
        optional_caption_failure(opt_caption_view(r.caption)),
        optional_file_reference_failure("thumbnail"@, r.thumbnail),
    ),
    ),
    )
}

impl SendDocumentRequest {
    /// Checks the request as it stands.
    /// The formatting of the caption (parse mode and entities) is not checked here.
    pub fn validate(&self) -> (r: Result<(), Error>)
        ensures
            failure(r) == send_document_request_failure(*self),
    {
        let res = validate_send_options(
            &self.business_connection_id,
            &self.chat_id,
            self.message_thread_id,
            self.direct_messages_topic_id,
            &self.message_effect_id,
        );
        if res.is_err() {
            return res;
        }
        let res = validate_required_file_reference("document", &self.document);
        if res.is_err() {
            return res;
        }
        let res = validate_caption(&self.caption);
        if res.is_err() {
            return res;
        }
        validate_optional_file_reference("thumbnail", &self.thumbnail)
    }
}

/// Why a `SendVideoRequest` is refused: its send options, its video, its caption
/// and then its other media fields, in that order.
pub open spec fn send_video_request_failure(r: SendVideoRequest) -> Option<Seq<char>> {
    first_failure(
        send_options_failure(
            r.business_connection_id,
            r.chat_id@,
            r.message_thread_id,
            r.direct_messages_topic_id,
            r.message_effect_id,
        ),
        first_failure(
        required_file_reference_failure("video"@, r.video),
        first_failure(
        optional_caption_failure(opt_caption_view(r.caption)),
        first_failure(
        optional_file_reference_failure("thumbnail"@, r.thumbnail),
        first_failure(
        positive_u32_failure("duration"@, r.duration),
        first_failure(
        positive_u32_failure("width"@, r.width),
        positive_u32_failure("height"@, r.height),
    ),
    ),
    ),
    ),
    ),
    )
}

impl SendVideoRequest {
    /// Checks the request as it stands.
    /// The formatting of the caption (parse mode and entities) is not checked here.
    pub fn validate(&self) -> (r: Result<(), Error>)
        ensures
            failure(r) == send_video_request_failure(*self),
    {
        let res = validate_send_options(
            &self.business_connection_id,
            &self.chat_id,
            self.message_thread_id,
            self.direct_messages_topic_id,
            &self.message_effect_id,
        );
        if res.is_err() {
            return res;
        }
        let res = validate_required_file_reference("video", &self.video);
        if res.is_err() {
            return res;
        }
        let res = validate_caption(&self.caption);
        if res.is_err() {
            return res;
        }
        let res = validate_optional_file_reference("thumbnail", &self.thumbnail);
        if res.is_err() {
            return res;
        }
        let res = validate_positive_u32("duration", self.duration);
        if res.is_err() {
            return res;
        }
        let res = validate_positive_u32("width", self.width);
        if res.is_err() {
            return res;
        }
        validate_positive_u32("height", self.height)
    }
}

/// Why a `SendAnimationRequest` is refused: its send options, its animation, its caption
/// and then its other media fields, in that order.
pub open spec fn send_animation_request_failure(r: SendAnimationRequest) -> Option<Seq<char>> {
    first_failure(
        send_options_failure(
            r.business_connection_id,
            r.chat_id@,
            r.message_thread_id,
            r.direct_messages_topic_id,
            r.message_effect_id,
        ),
        first_failure(
        required_file_reference_failure("animation"@, r.animation),
        first_failure(
        optional_caption_failure(opt_caption_view(r.caption)),
        first_failure(
        optional_file_reference_failure("thumbnail"@, r.thumbnail),
        first_failure(
        positive_u32_failure("duration"@, r.duration),
        first_failure(
        positive_u32_failure("width"@, r.width),
        positive_u32_failure("height"@, r.height),
    ),
    ),
    ),
    ),
    ),
    )
}

impl SendAnimationRequest {
    /// Checks the request as it stands.
    /// The formatting of the caption (parse mode and entities) is not checked here.
    pub fn validate(&self) -> (r: Result<(), Error>)
        ensures
            failure(r) == send_animation_request_failure(*self),
    {
        let res = validate_send_options(
            &self.business_connection_id,
            &self.chat_id,
            self.message_thread_id,
            self.direct_messages_topic_id,
            &self.message_effect_id,
        );
        if res.is_err() {
            return res;
        }
        let res = validate_required_file_reference("animation", &self.animation);
        if res.is_err() {
            return res;
        }
        let res = validate_caption(&self.caption);
        if res.is_err() {
            return res;
        }
        let res = validate_optional_file_reference("thumbnail", &self.thumbnail);
        if res.is_err() {
            return res;
        }
        let res = validate_positive_u32("duration", self.duration);
        if res.is_err() {
            return res;
        }
        let res = validate_positive_u32("width", self.width);
        if res.is_err() {
            return res;
        }
        validate_positive_u32("height", self.height)
    }
}

/// Why a `SendVoiceRequest` is refused: its send options, its voice, its caption
/// and then its other media fields, in that order.
pub open spec fn send_voice_request_failure(r: SendVoiceRequest) -> Option<Seq<char>> {
    first_failure(
        send_options_failure(
            r.business_connection_id,
            r.chat_id@,
            r.message_thread_id,
            r.direct_messages_topic_id,
            r.message_effect_id,
        ),
        first_failure(
        required_file_reference_failure("voice"@, r.voice),
        first_failure(
        optional_caption_failure(opt_caption_view(r.caption)),
        positive_u32_failure("duration"@, r.duration),
    ),
    ),
    )
}

impl SendVoiceRequest {
    /// Checks the request as it stands.
    /// The formatting of the caption (parse mode and entities) is not checked here.
    pub fn validate(&self) -> (r: Result<(), Error>)
        ensures
            failure(r) == send_voice_request_failure(*self),
    {
        let res = validate_send_options(
            &self.business_connection_id,
            &self.chat_id,
            self.message_thread_id,
            self.direct_messages_topic_id,
            &self.message_effect_id,
        );
        if res.is_err() {
            return res;
        }
        let res = validate_required_file_reference("voice", &self.voice);
        if res.is_err() {
            return res;
        }
        let res = validate_caption(&self.caption);
        if res.is_err() {
            return res;
        }
        validate_positive_u32("duration", self.duration)
    }
}

/// Why a `CopyMessageRequest` is refused: its chats, message, thread, topic,
/// message effect and caption, in that order.
pub open spec fn copy_message_failure(r: CopyMessageRequest) -> Option<Seq<char>> {
    first_failure(
        chat_id_failure(r.chat_id@),
        first_failure(
            chat_id_failure(r.from_chat_id@),
            first_failure(
                message_id_failure(r.message_id),
                first_failure(
                    optional_positive_i64_failure("message_thread_id"@, r.message_thread_id),
                    first_failure(
                        optional_positive_i64_failure(
                            "direct_messages_topic_id"@,
                            r.direct_messages_topic_id,
                        ),
                        first_failure(
                            optional_required_text_failure("message_effect_id"@, r.message_effect_id),
                            optional_caption_failure(opt_caption_view(r.caption)),
                        ),
                    ),
                ),
            ),
        ),
    )
}

impl CopyMessageRequest {
    /// Checks the request as it stands.
    /// The formatting of the caption (parse mode and entities) is not checked here.
    pub fn validate(&self) -> (r: Result<(), Error>)
        ensures
            failure(r) == copy_message_failure(*self),
    {
        let res = self.chat_id.validate();
        if res.is_err() {
            return res;
        }
        let res = self.from_chat_id.validate();
        if res.is_err() {
            return res;
        }
        let res = self.message_id.validate();
        if res.is_err() {
            return res;
        }
        let res = optional_positive_i64("message_thread_id", self.message_thread_id);
        if res.is_err() {
            return res;
        }
        let res = optional_positive_i64("direct_messages_topic_id", self.direct_messages_topic_id);
        if res.is_err() {
            return res;
        }
        let res = optional_required_text("message_effect_id", &self.message_effect_id);
        if res.is_err() {
            return res;
        }
        validate_caption(&self.caption)
    }
}

/// Why a `SendMessageRequest` is refused: its send options, then its text.
pub open spec fn send_message_failure(r: SendMessageRequest) -> Option<Seq<char>> {
    first_failure(
        send_options_failure(
            r.business_connection_id,
            r.chat_id@,
            r.message_thread_id,
            r.direct_messages_topic_id,
            r.message_effect_id,
        ),
        message_text_failure("sendMessage"@, r.text@),
    )
}

impl SendMessageRequest {
    /// Checks the request as it stands.
    /// The formatting of the text (parse mode and entities) is not checked here.
    pub fn validate(&self) -> (r: Result<(), Error>)
        ensures
            failure(r) == send_message_failure(*self),
    {
        let res = validate_send_options(
            &self.business_connection_id,
            &self.chat_id,
            self.message_thread_id,
            self.direct_messages_topic_id,
            &self.message_effect_id,
        );
        if res.is_err() {
            return res;
        }
        validate_message_text("sendMessage", self.text.as_str())
    }
}

/// Why an `EditMessageTextRequest` is refused: its target, then its text.
pub open spec fn edit_message_text_failure(r: EditMessageTextRequest) -> Option<Seq<char>> {
    first_failure(
        edit_target_failure(
            opt_chat_view(r.chat_id),
            r.message_id,
            opt_caption_view(r.inline_message_id),
        ),
        message_text_failure("editMessageText"@, r.text@),
    )
}

impl EditMessageTextRequest {
    /// Checks the request as it stands.
    /// The formatting of the text (parse mode and entities) is not checked here.
    pub fn validate(&self) -> (r: Result<(), Error>)
        ensures
            failure(r) == edit_message_text_failure(*self),
    {
        let res = validate_edit_target(&self.chat_id, self.message_id, &self.inline_message_id);
        if res.is_err() {
            return res;
        }
        validate_message_text("editMessageText", self.text.as_str())
    }
}

/// `editMessageCaption` request.
#[derive(Debug)]
pub struct EditMessageCaptionRequest {
    pub chat_id: Option<ChatId>,
    pub message_id: Option<MessageId>,
    pub inline_message_id: Option<String>,
    pub caption: Option<String>,
    pub parse_mode: Option<ParseMode>,
    pub caption_entities: Option<Vec<MessageEntity>>,
    pub show_caption_above_media: Option<bool>,
    /// Reply markup, as JSON; its fields are not checked here.
    pub reply_markup: Option<JsonValue>,
}

/// Why an `EditMessageCaptionRequest` is refused: its target, then its caption.
pub open spec fn edit_message_caption_failure(r: EditMessageCaptionRequest) -> Option<Seq<char>> {
    first_failure(
        edit_target_failure(
            opt_chat_view(r.chat_id),
            r.message_id,
            opt_caption_view(r.inline_message_id),
        ),
        optional_caption_failure(opt_caption_view(r.caption)),
    )
}

impl EditMessageCaptionRequest {
    /// Checks the request as it stands.
    /// The formatting of the caption (parse mode and entities) is not checked here.
    pub fn validate(&self) -> (r: Result<(), Error>)
        ensures
            failure(r) == edit_message_caption_failure(*self),
    {
        let res = validate_edit_target(&self.chat_id, self.message_id, &self.inline_message_id);
        if res.is_err() {
            return res;
        }
        validate_caption(&self.caption)
    }
}


pub const MIN_MEDIA_GROUP_ITEMS: usize = 2;

pub const MAX_MEDIA_GROUP_ITEMS: usize = 10;

/// Why an input photo is refused: its media reference, then its caption.
pub open spec fn input_media_photo_failure(m: InputMediaPhoto) -> Option<Seq<char>> {
    first_failure(
        file_reference_failure("media"@, m.media@),
        optional_caption_failure(opt_caption_view(m.caption)),
    )
}

/// Why an input video is refused: its media and thumbnail references, its
/// caption, then its width, height and duration.
pub open spec fn input_media_video_failure(m: InputMediaVideo) -> Option<Seq<char>> {
    first_failure(
        file_reference_failure("media"@, m.media@),
        first_failure(
            optional_file_reference_failure("thumbnail"@, m.thumbnail),
            first_failure(
                optional_caption_failure(opt_caption_view(m.caption)),
                first_failure(
                    positive_u32_failure("width"@, m.width),
                    first_failure(
                        positive_u32_failure("height"@, m.height),
                        positive_u32_failure("duration"@, m.duration),
                    ),
                ),
            ),
        ),
    )
}

/// Why an input animation is refused: as a video.
pub open spec fn input_media_animation_failure(m: InputMediaAnimation) -> Option<Seq<char>> {
    first_failure(
        file_reference_failure("media"@, m.media@),
        first_failure(
            optional_file_reference_failure("thumbnail"@, m.thumbnail),
            first_failure(
                optional_caption_failure(opt_caption_view(m.caption)),
                first_failure(
                    positive_u32_failure("width"@, m.width),
                    first_failure(
                        positive_u32_failure("height"@, m.height),
                        positive_u32_failure("duration"@, m.duration),
                    ),
                ),
            ),
        ),
    )
}

/// Why an input audio file is refused: its references, caption and duration.
pub open spec fn input_media_audio_failure(m: InputMediaAudio) -> Option<Seq<char>> {
    first_failure(
        file_reference_failure("media"@, m.media@),
        first_failure(
            optional_file_reference_failure("thumbnail"@, m.thumbnail),
            first_failure(
                optional_caption_failure(opt_caption_view(m.caption)),
                positive_u32_failure("duration"@, m.duration),
            ),
        ),
    )
}

/// Why an input document is refused: its references, then its caption.
pub open spec fn input_media_document_failure(m: InputMediaDocument) -> Option<Seq<char>> {
    first_failure(
        file_reference_failure("media"@, m.media@),
        first_failure(
            optional_file_reference_failure("thumbnail"@, m.thumbnail),
            optional_caption_failure(opt_caption_view(m.caption)),
        ),
    )
}

/// Why an input media is refused.
pub open spec fn input_media_failure(m: InputMedia) -> Option<Seq<char>> {
    match m {
        InputMedia::Photo(p) => input_media_photo_failure(*p),
        InputMedia::Video(v) => input_media_video_failure(*v),
        InputMedia::Animation(a) => input_media_animation_failure(*a),
        InputMedia::Audio(a) => input_media_audio_failure(*a),
        InputMedia::Document(d) => input_media_document_failure(*d),
    }
}

fn validate_input_media_photo(m: &InputMediaPhoto) -> (r: Result<(), Error>)
    ensures
        failure(r) == input_media_photo_failure(*m),
{
    let res = validate_file_reference("media", m.media.as_str());
    if res.is_err() {
        return res;
    }
    validate_caption(&m.caption)
}

fn validate_input_media_video(m: &InputMediaVideo) -> (r: Result<(), Error>)
    ensures
        failure(r) == input_media_video_failure(*m),
{
    let res = validate_file_reference("media", m.media.as_str());
    if res.is_err() {
        return res;
    }
    let res = validate_optional_file_reference("thumbnail", &m.thumbnail);
    if res.is_err() {
        return res;
    }
    let res = validate_caption(&m.caption);
    if res.is_err() {
        return res;
    }
    let res = validate_positive_u32("width", m.width);
    if res.is_err() {
        return res;
    }
    let res = validate_positive_u32("height", m.height);
    if res.is_err() {
        return res;
    }
    validate_positive_u32("duration", m.duration)
}

fn validate_input_media_animation(m: &InputMediaAnimation) -> (r: Result<(), Error>)
    ensures
        failure(r) == input_media_animation_failure(*m),
{
    let res = validate_file_reference("media", m.media.as_str());
    if res.is_err() {
        return res;
    }
    let res = validate_optional_file_reference("thumbnail", &m.thumbnail);
    if res.is_err() {
        return res;
    }
    let res = validate_caption(&m.caption);
    if res.is_err() {
        return res;
    }
    let res = validate_positive_u32("width", m.width);
    if res.is_err() {
        return res;
    }
    let res = validate_positive_u32("height", m.height);
    if res.is_err() {
        return res;
    }
    validate_positive_u32("duration", m.duration)
}

fn validate_input_media_audio(m: &InputMediaAudio) -> (r: Result<(), Error>)
    ensures
        failure(r) == input_media_audio_failure(*m),
{
    let res = validate_file_reference("media", m.media.as_str());
    if res.is_err() {
        return res;
    }
    let res = validate_optional_file_reference("thumbnail", &m.thumbnail);
    if res.is_err() {
        return res;
    }
    let res = validate_caption(&m.caption);
    if res.is_err() {
        return res;
    }
    validate_positive_u32("duration", m.duration)
}

fn validate_input_media_document(m: &InputMediaDocument) -> (r: Result<(), Error>)
    ensures
        failure(r) == input_media_document_failure(*m),
{
    let res = validate_file_reference("media", m.media.as_str());
    if res.is_err() {
        return res;
    }
    let res = validate_optional_file_reference("thumbnail", &m.thumbnail);
    if res.is_err() {
        return res;
    }
    validate_caption(&m.caption)
}

impl InputMedia {
    /// Checks the media.
    /// The formatting of the caption (parse mode and entities) is not checked here.
    pub fn validate(&self) -> (r: Result<(), Error>)
        ensures
            failure(r) == input_media_failure(*self),
    {
        match self {
            InputMedia::Photo(p) => validate_input_media_photo(p),
            InputMedia::Video(v) => validate_input_media_video(v),
            InputMedia::Animation(a) => validate_input_media_animation(a),
            InputMedia::Audio(a) => validate_input_media_audio(a),
            InputMedia::Document(d) => validate_input_media_document(d),
        }
    }
}

/// Why an item of a media group is refused: as the media it is sent as.
pub open spec fn group_item_failure(item: InputMediaGroupItem) -> Option<Seq<char>> {
    input_media_failure(group_item_media(item))
}

impl InputMediaGroupItem {
    /// Checks the item.
    /// The formatting of the caption (parse mode and entities) is not checked here.
    pub fn validate(&self) -> (r: Result<(), Error>)
        ensures
            failure(r) == group_item_failure(*self),
    {
        match self {
            InputMediaGroupItem::Photo(p) => validate_input_media_photo(p),
            InputMediaGroupItem::Video(v) => validate_input_media_video(v),
            InputMediaGroupItem::Audio(a) => validate_input_media_audio(a),
            InputMediaGroupItem::Document(d) => validate_input_media_document(d),
        }
    }
}

/// The first refusal among the first `n` items of a media group, in order.
pub open spec fn group_items_prefix_failure(items: Seq<InputMediaGroupItem>, n: nat) -> Option<
    Seq<char>,
>
    decreases n,
{
    if n == 0 {
        None
    } else {
        first_failure(
            group_items_prefix_failure(items, (n - 1) as nat),
            group_item_failure(items[n - 1]),
        )
    }
}

/// Once a prefix of the items has failed, every longer prefix reports that failure.
pub proof fn lemma_group_items_failure_stays(items: Seq<InputMediaGroupItem>, n: nat, m: nat)
    requires
        n <= m,
        group_items_prefix_failure(items, n) is Some,
    ensures
        group_items_prefix_failure(items, m) == group_items_prefix_failure(items, n),
    decreases m - n,
{
    if n < m {
        lemma_group_items_failure_stays(items, n, (m - 1) as nat);
    }
}

/// Why the items of a media group are refused: there are 2 to 10, each valid.
pub open spec fn media_group_items_failure(items: Seq<InputMediaGroupItem>) -> Option<Seq<char>> {
    if !(MIN_MEDIA_GROUP_ITEMS <= items.len() <= MAX_MEDIA_GROUP_ITEMS) {
        Some("sendMediaGroup requires 2-10 media items"@)
    } else {
        group_items_prefix_failure(items, items.len())
    }
}

/// Checks the items of a media group: their number, then each item in order.
pub fn validate_media_group_items(items: &[InputMediaGroupItem]) -> (r: Result<(), Error>)
    ensures
        failure(r) == media_group_items_failure(items@),
{
    if !(MIN_MEDIA_GROUP_ITEMS <= items.len() && items.len() <= MAX_MEDIA_GROUP_ITEMS) {
        return fail("sendMediaGroup requires 2-10 media items");
    }
    let mut i: usize = 0;
    while i < items.len()
        invariant
            i <= items@.len(),
            MIN_MEDIA_GROUP_ITEMS <= items@.len() <= MAX_MEDIA_GROUP_ITEMS,
            group_items_prefix_failure(items@, i as nat) is None,
        decreases items@.len() - i,
    {
        let res = items[i].validate();
        if res.is_err() {
            assert(group_items_prefix_failure(items@, (i + 1) as nat) == failure(res));
            proof {
                lemma_group_items_failure_stays(items@, (i + 1) as nat, items@.len());
            }
            return res;
        }
        i = i + 1;
    }
    Ok(())
}

/// A reference to a part of a multipart upload: it starts with `attach://`.
pub open spec fn is_attach_reference(s: Seq<char>) -> bool {
    s.len() >= 9 && s.take(9) == seq!['a', 't', 't', 'a', 'c', 'h', ':', '/', '/']
}

/// Whether a reference starts with `attach://`.
pub fn has_attach_prefix(s: &str) -> (r: bool)
    ensures
        r == is_attach_reference(s@),
{
    let v = crate::json::chars_of(s);
    if v.len() < 9 {
        return false;
    }
    let r = v[0] == 'a' && v[1] == 't' && v[2] == 't' && v[3] == 'a' && v[4] == 'c' && v[5] == 'h'
        && v[6] == ':' && v[7] == '/' && v[8] == '/';
    assert(r == (v@.take(9) =~= seq!['a', 't', 't', 'a', 'c', 'h', ':', '/', '/']));
    r
}

/// The item names an upload part by its media or its thumbnail.
pub open spec fn item_uses_attach(item: InputMediaGroupItem) -> bool {
    match item {
        InputMediaGroupItem::Photo(p) => is_attach_reference(p.media@),
        InputMediaGroupItem::Video(v) => is_attach_reference(v.media@) || (v.thumbnail matches Some(
            t,
        ) && is_attach_reference(t@)),
        InputMediaGroupItem::Audio(a) => is_attach_reference(a.media@) || (a.thumbnail matches Some(
            t,
        ) && is_attach_reference(t@)),
        InputMediaGroupItem::Document(d) => is_attach_reference(d.media@) || (d.thumbnail matches Some(
            t,
        ) && is_attach_reference(t@)),
    }
}

fn optional_attach(t: &Option<String>) -> (r: bool)
    ensures
        r == (*t matches Some(s) && is_attach_reference(s@)),
{
    match t {
        Some(s) => has_attach_prefix(s.as_str()),
        None => false,
    }
}

fn uses_attach(item: &InputMediaGroupItem) -> (r: bool)
    ensures
        r == item_uses_attach(*item),
{
    match item {
        InputMediaGroupItem::Photo(p) => has_attach_prefix(p.media.as_str()),
        InputMediaGroupItem::Video(v) => has_attach_prefix(v.media.as_str()) || optional_attach(&v.thumbnail),
        InputMediaGroupItem::Audio(a) => has_attach_prefix(a.media.as_str()) || optional_attach(&a.thumbnail),
        InputMediaGroupItem::Document(d) => has_attach_prefix(d.media.as_str()) || optional_attach(&d.thumbnail),
    }
}

/// Why a media group sent as JSON is refused for naming upload parts.
pub open spec fn attach_references_failure(items: Seq<InputMediaGroupItem>) -> Option<Seq<char>> {
    if exists|i: int| 0 <= i < items.len() && item_uses_attach(#[trigger] items[i]) {
        Some("sendMediaGroup JSON requests cannot use attach:// media or thumbnail references; use send_media_group_upload"@)
    } else {
        None
    }
}

fn validate_no_attach_references(items: &[InputMediaGroupItem]) -> (r: Result<(), Error>)
    ensures
        failure(r) == attach_references_failure(items@),
{
    let mut i: usize = 0;
    while i < items.len()
        invariant
            i <= items@.len(),
            forall|j: int| 0 <= j < i ==> !item_uses_attach(#[trigger] items@[j]),
        decreases items@.len() - i,
    {
        if uses_attach(&items[i]) {
            assert(item_uses_attach(items@[i as int]));
            return fail(
                "sendMediaGroup JSON requests cannot use attach:// media or thumbnail references; use send_media_group_upload",
            );
        }
        i = i + 1;
    }
    Ok(())
}

/// `sendMediaGroup` request.
#[derive(Debug)]
pub struct SendMediaGroupRequest {
    pub chat_id: ChatId,
    pub business_connection_id: Option<String>,
    pub media: Vec<InputMediaGroupItem>,
    pub disable_notification: Option<bool>,
    pub protect_content: Option<bool>,
    pub message_thread_id: Option<i64>,
    pub direct_messages_topic_id: Option<i64>,
    pub allow_paid_broadcast: Option<bool>,
    pub message_effect_id: Option<String>,
    /// Reply parameters, as JSON; their fields are not checked here.
    pub reply_parameters: Option<JsonValue>,
}

/// Why a media group cannot be built for a chat: the chat, then at least two
/// items, then the items themselves.
pub open spec fn media_group_new_failure(chat_id: ChatIdView, media: Seq<InputMediaGroupItem>) -> Option<
    Seq<char>,
> {
    first_failure(
        chat_id_failure(chat_id),
        if media.len() < MIN_MEDIA_GROUP_ITEMS {
            Some("sendMediaGroup requires at least 2 media items"@)
        } else {
            media_group_items_failure(media)
        },
    )
}

/// Why a `SendMediaGroupRequest` sent as JSON is refused: its send options,
/// its items, then any `attach://` reference.
pub open spec fn send_media_group_failure(r: SendMediaGroupRequest) -> Option<Seq<char>> {
    first_failure(
        send_options_failure(
            r.business_connection_id,
            r.chat_id@,
            r.message_thread_id,
            r.direct_messages_topic_id,
            r.message_effect_id,
        ),
        first_failure(
            media_group_items_failure(r.media@),
            attach_references_failure(r.media@),
        ),
    )
}

impl SendMediaGroupRequest {
    /// A request for a checked chat and items, with every option left out.
    pub fn new(chat_id: ChatId, media: Vec<InputMediaGroupItem>) -> (r: Result<Self, Error>)
        ensures
            media_group_new_failure(chat_id@, media@) is None ==> (r matches Ok(req)
                && req.chat_id == chat_id && req.media == media
                && req.business_connection_id is None && req.disable_notification is None
                && req.protect_content is None && req.message_thread_id is None
                && req.direct_messages_topic_id is None && req.allow_paid_broadcast is None
                && req.message_effect_id is None && req.reply_parameters is None),
            media_group_new_failure(chat_id@, media@) matches Some(reason) ==> (r matches Err(
                Error::InvalidRequest { reason: e },
            ) && e@ == reason),
    {
        if let Err(e) = chat_id.validate() {
            return Err(e);
        }
        if media.len() < MIN_MEDIA_GROUP_ITEMS {
            return Err(invalid_request("sendMediaGroup requires at least 2 media items".to_owned()));
        }
        if let Err(e) = validate_media_group_items(media.as_slice()) {
            return Err(e);
        }
        Ok(SendMediaGroupRequest {
            chat_id,
            business_connection_id: None,
            media,
            disable_notification: None,
            protect_content: None,
            message_thread_id: None,
            direct_messages_topic_id: None,
            allow_paid_broadcast: None,
            message_effect_id: None,
            reply_parameters: None,
        })
    }

    /// Checks the request as it stands, as it is sent in JSON.
    /// The formatting of the captions (parse mode and entities) is not checked here.
    pub fn validate(&self) -> (r: Result<(), Error>)
        ensures
            failure(r) == send_media_group_failure(*self),
    {
        let res = validate_send_options(
            &self.business_connection_id,
            &self.chat_id,
            self.message_thread_id,
            self.direct_messages_topic_id,
            &self.message_effect_id,
        );
        if res.is_err() {
            return res;
        }
        let res = validate_media_group_items(self.media.as_slice());
        if res.is_err() {
            return res;
        }
        validate_no_attach_references(self.media.as_slice())
    }
}

/// Setters for the parts of a request that are carried as JSON.
impl SendMessageRequest {
    pub fn suggested_post_parameters(self, suggested_post_parameters: JsonValue) -> (r: Self)
        ensures
            r == (SendMessageRequest { suggested_post_parameters: Some(suggested_post_parameters), ..self }),
    {
        SendMessageRequest { suggested_post_parameters: Some(suggested_post_parameters), ..self }
    }

    pub fn reply_parameters(self, reply_parameters: JsonValue) -> (r: Self)
        ensures
            r == (SendMessageRequest { reply_parameters: Some(reply_parameters), ..self }),
    {
        SendMessageRequest { reply_parameters: Some(reply_parameters), ..self }
    }

    pub fn reply_markup(self, reply_markup: JsonValue) -> (r: Self)
        ensures
            r == (SendMessageRequest { reply_markup: Some(reply_markup), ..self }),
    {
        SendMessageRequest { reply_markup: Some(reply_markup), ..self }
    }

    pub fn link_preview_options(self, link_preview_options: JsonValue) -> (r: Self)
        ensures
            r == (SendMessageRequest { link_preview_options: Some(link_preview_options), ..self }),
    {
        SendMessageRequest { link_preview_options: Some(link_preview_options), ..self }
    }
}

impl ForwardMessageRequest {
    pub fn suggested_post_parameters(self, suggested_post_parameters: JsonValue) -> (r: Self)
        ensures
            r == (ForwardMessageRequest { suggested_post_parameters: Some(suggested_post_parameters), ..self }),
    {
        ForwardMessageRequest { suggested_post_parameters: Some(suggested_post_parameters), ..self }
    }
}

impl CopyMessageRequest {
    pub fn suggested_post_parameters(self, suggested_post_parameters: JsonValue) -> (r: Self)
        ensures
            r == (CopyMessageRequest { suggested_post_parameters: Some(suggested_post_parameters), ..self }),
    {
        CopyMessageRequest { suggested_post_parameters: Some(suggested_post_parameters), ..self }
    }

    pub fn reply_parameters(self, reply_parameters: JsonValue) -> (r: Self)
        ensures
            r == (CopyMessageRequest { reply_parameters: Some(reply_parameters), ..self }),
    {
        CopyMessageRequest { reply_parameters: Some(reply_parameters), ..self }
    }

    pub fn reply_markup(self, reply_markup: JsonValue) -> (r: Self)
        ensures
            r == (CopyMessageRequest { reply_markup: Some(reply_markup), ..self }),
    {
        CopyMessageRequest { reply_markup: Some(reply_markup), ..self }
    }
}

impl SendPhotoRequest {
    pub fn suggested_post_parameters(self, suggested_post_parameters: JsonValue) -> (r: Self)
        ensures
            r == (SendPhotoRequest { suggested_post_parameters: Some(suggested_post_parameters), ..self }),
    {
        SendPhotoRequest { suggested_post_parameters: Some(suggested_post_parameters), ..self }
    }

    pub fn reply_parameters(self, reply_parameters: JsonValue) -> (r: Self)
        ensures
            r == (SendPhotoRequest { reply_parameters: Some(reply_parameters), ..self }),
    {
        SendPhotoRequest { reply_parameters: Some(reply_parameters), ..self }
    }

    pub fn reply_markup(self, reply_markup: JsonValue) -> (r: Self)
        ensures
            r == (SendPhotoRequest { reply_markup: Some(reply_markup), ..self }),
    {
        SendPhotoRequest { reply_markup: Some(reply_markup), ..self }
    }
}

impl SendAudioRequest {
    pub fn suggested_post_parameters(self, suggested_post_parameters: JsonValue) -> (r: Self)
        ensures
            r == (SendAudioRequest { suggested_post_parameters: Some(suggested_post_parameters), ..self }),
    {
        SendAudioRequest { suggested_post_parameters: Some(suggested_post_parameters), ..self }
    }

    pub fn reply_parameters(self, reply_parameters: JsonValue) -> (r: Self)
        ensures
            r == (SendAudioRequest { reply_parameters: Some(reply_parameters), ..self }),
    {
        SendAudioRequest { reply_parameters: Some(reply_parameters), ..self }
    }

    pub fn reply_markup(self, reply_markup: JsonValue) -> (r: Self)
        ensures
            r == (SendAudioRequest { reply_markup: Some(reply_markup), ..self }),
    {
        SendAudioRequest { reply_markup: Some(reply_markup), ..self }
    }
}

impl SendDocumentRequest {
    pub fn suggested_post_parameters(self, suggested_post_parameters: JsonValue) -> (r: Self)
        ensures
            r == (SendDocumentRequest { suggested_post_parameters: Some(suggested_post_parameters), ..self }),
    {
        SendDocumentRequest { suggested_post_parameters: Some(suggested_post_parameters), ..self }
    }

    pub fn reply_parameters(self, reply_parameters: JsonValue) -> (r: Self)
        ensures
            r == (SendDocumentRequest { reply_parameters: Some(reply_parameters), ..self }),
    {
        SendDocumentRequest { reply_parameters: Some(reply_parameters), ..self }
    }

    pub fn reply_markup(self, reply_markup: JsonValue) -> (r: Self)
        ensures
            r == (SendDocumentRequest { reply_markup: Some(reply_markup), ..self }),
    {
        SendDocumentRequest { reply_markup: Some(reply_markup), ..self }
    }
}

impl SendVideoRequest {
    pub fn suggested_post_parameters(self, suggested_post_parameters: JsonValue) -> (r: Self)
        ensures
            r == (SendVideoRequest { suggested_post_parameters: Some(suggested_post_parameters), ..self }),
    {
        SendVideoRequest { suggested_post_parameters: Some(suggested_post_parameters), ..self }
    }

    pub fn reply_parameters(self, reply_parameters: JsonValue) -> (r: Self)
        ensures
            r == (SendVideoRequest { reply_parameters: Some(reply_parameters), ..self }),
    {
        SendVideoRequest { reply_parameters: Some(reply_parameters), ..self }
    }

    pub fn reply_markup(self, reply_markup: JsonValue) -> (r: Self)
        ensures
            r == (SendVideoRequest { reply_markup: Some(reply_markup), ..self }),
    {
        SendVideoRequest { reply_markup: Some(reply_markup), ..self }
    }
}

impl SendAnimationRequest {
    pub fn suggested_post_parameters(self, suggested_post_parameters: JsonValue) -> (r: Self)
        ensures
            r == (SendAnimationRequest { suggested_post_parameters: Some(suggested_post_parameters), ..self }),
    {
        SendAnimationRequest { suggested_post_parameters: Some(suggested_post_parameters), ..self }
    }

    pub fn reply_parameters(self, reply_parameters: JsonValue) -> (r: Self)
        ensures
            r == (SendAnimationRequest { reply_parameters: Some(reply_parameters), ..self }),
    {
        SendAnimationRequest { reply_parameters: Some(reply_parameters), ..self }
    }

    pub fn reply_markup(self, reply_markup: JsonValue) -> (r: Self)
        ensures
            r == (SendAnimationRequest { reply_markup: Some(reply_markup), ..self }),
    {
        SendAnimationRequest { reply_markup: Some(reply_markup), ..self }
    }
}

impl SendVoiceRequest {
    pub fn suggested_post_parameters(self, suggested_post_parameters: JsonValue) -> (r: Self)
        ensures
            r == (SendVoiceRequest { suggested_post_parameters: Some(suggested_post_parameters), ..self }),
    {
        SendVoiceRequest { suggested_post_parameters: Some(suggested_post_parameters), ..self }
    }

    pub fn reply_parameters(self, reply_parameters: JsonValue) -> (r: Self)
        ensures
            r == (SendVoiceRequest { reply_parameters: Some(reply_parameters), ..self }),
    {
        SendVoiceRequest { reply_parameters: Some(reply_parameters), ..self }
    }

    pub fn reply_markup(self, reply_markup: JsonValue) -> (r: Self)
        ensures
            r == (SendVoiceRequest { reply_markup: Some(reply_markup), ..self }),
    {
        SendVoiceRequest { reply_markup: Some(reply_markup), ..self }
    }
}

impl SendVideoNoteRequest {
    pub fn suggested_post_parameters(self, suggested_post_parameters: JsonValue) -> (r: Self)
        ensures
            r == (SendVideoNoteRequest { suggested_post_parameters: Some(suggested_post_parameters), ..self }),
    {
        SendVideoNoteRequest { suggested_post_parameters: Some(suggested_post_parameters), ..self }
    }

    pub fn reply_parameters(self, reply_parameters: JsonValue) -> (r: Self)
        ensures
            r == (SendVideoNoteRequest { reply_parameters: Some(reply_parameters), ..self }),
    {
        SendVideoNoteRequest { reply_parameters: Some(reply_parameters), ..self }
    }

    pub fn reply_markup(self, reply_markup: JsonValue) -> (r: Self)
        ensures
            r == (SendVideoNoteRequest { reply_markup: Some(reply_markup), ..self }),
    {
        SendVideoNoteRequest { reply_markup: Some(reply_markup), ..self }
    }
}

impl SendMediaGroupRequest {
    pub fn reply_parameters(self, reply_parameters: JsonValue) -> (r: Self)
        ensures
            r == (SendMediaGroupRequest { reply_parameters: Some(reply_parameters), ..self }),
    {
        SendMediaGroupRequest { reply_parameters: Some(reply_parameters), ..self }
    }
}

impl SendContactRequest {
    pub fn suggested_post_parameters(self, suggested_post_parameters: JsonValue) -> (r: Self)
        ensures
            r == (SendContactRequest { suggested_post_parameters: Some(suggested_post_parameters), ..self }),
    {
        SendContactRequest { suggested_post_parameters: Some(suggested_post_parameters), ..self }
    }

    pub fn reply_parameters(self, reply_parameters: JsonValue) -> (r: Self)
        ensures
            r == (SendContactRequest { reply_parameters: Some(reply_parameters), ..self }),
    {
        SendContactRequest { reply_parameters: Some(reply_parameters), ..self }
    }

    pub fn reply_markup(self, reply_markup: JsonValue) -> (r: Self)
        ensures
            r == (SendContactRequest { reply_markup: Some(reply_markup), ..self }),
    {
        SendContactRequest { reply_markup: Some(reply_markup), ..self }
    }
}

impl SendDiceRequest {
    pub fn suggested_post_parameters(self, suggested_post_parameters: JsonValue) -> (r: Self)
        ensures
            r == (SendDiceRequest { suggested_post_parameters: Some(suggested_post_parameters), ..self }),
    {
        SendDiceRequest { suggested_post_parameters: Some(suggested_post_parameters), ..self }
    }

    pub fn reply_parameters(self, reply_parameters: JsonValue) -> (r: Self)
        ensures
            r == (SendDiceRequest { reply_parameters: Some(reply_parameters), ..self }),
    {
        SendDiceRequest { reply_parameters: Some(reply_parameters), ..self }
    }

    pub fn reply_markup(self, reply_markup: JsonValue) -> (r: Self)
        ensures
            r == (SendDiceRequest { reply_markup: Some(reply_markup), ..self }),
    {
        SendDiceRequest { reply_markup: Some(reply_markup), ..self }
    }
}

impl SendPollRequest {
    pub fn reply_parameters(self, reply_parameters: JsonValue) -> (r: Self)
        ensures
            r == (SendPollRequest { reply_parameters: Some(reply_parameters), ..self }),
    {
        SendPollRequest { reply_parameters: Some(reply_parameters), ..self }
    }

    pub fn reply_markup(self, reply_markup: JsonValue) -> (r: Self)
        ensures
            r == (SendPollRequest { reply_markup: Some(reply_markup), ..self }),
    {
        SendPollRequest { reply_markup: Some(reply_markup), ..self }
    }
}

impl StopPollRequest {
    pub fn reply_markup(self, reply_markup: JsonValue) -> (r: Self)
        ensures
            r == (StopPollRequest { reply_markup: Some(reply_markup), ..self }),
    {
        StopPollRequest { reply_markup: Some(reply_markup), ..self }
    }
}

impl EditMessageTextRequest {
    pub fn reply_markup(self, reply_markup: JsonValue) -> (r: Self)
        ensures
            r == (EditMessageTextRequest { reply_markup: Some(reply_markup), ..self }),
    {
        EditMessageTextRequest { reply_markup: Some(reply_markup), ..self }
    }

    pub fn link_preview_options(self, link_preview_options: JsonValue) -> (r: Self)
        ensures
            r == (EditMessageTextRequest { link_preview_options: Some(link_preview_options), ..self }),
    {
        EditMessageTextRequest { link_preview_options: Some(link_preview_options), ..self }
    }
}

impl EditMessageCaptionRequest {
    pub fn reply_markup(self, reply_markup: JsonValue) -> (r: Self)
        ensures
            r == (EditMessageCaptionRequest { reply_markup: Some(reply_markup), ..self }),
    {
        EditMessageCaptionRequest { reply_markup: Some(reply_markup), ..self }
    }
}

impl EditMessageReplyMarkupRequest {
    pub fn reply_markup(self, reply_markup: JsonValue) -> (r: Self)
        ensures
            r == (EditMessageReplyMarkupRequest { reply_markup: Some(reply_markup), ..self }),
    {
        EditMessageReplyMarkupRequest { reply_markup: Some(reply_markup), ..self }
    }
}

impl StopMessageLiveLocationRequest {
    pub fn reply_markup(self, reply_markup: JsonValue) -> (r: Self)
        ensures
            r == (StopMessageLiveLocationRequest { reply_markup: Some(reply_markup), ..self }),
    {
        StopMessageLiveLocationRequest { reply_markup: Some(reply_markup), ..self }
    }
}

} // verus!
