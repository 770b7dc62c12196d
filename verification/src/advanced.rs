//! Typed requests for the less common Bot API methods: each names its
//! method and builds a request from its required fields.
use vstd::prelude::*;

use crate::chat::ChatAdministratorRights;
use crate::common::{ChatId, MessageId, UserId};
use crate::json::JsonValue;
use crate::message::common::MessageEntity;

verus! {

/// Request for `addStickerToSet`.
///
/// Objects of types this library does not model are held as the JSON they
/// are sent as.
#[derive(Debug)]
pub struct AdvancedAddStickerToSetRequest {
    pub user_id: UserId,
    pub name: String,
    pub sticker: JsonValue,
}

impl AdvancedAddStickerToSetRequest {
    /// The Bot API method this request calls.
    pub const METHOD: &'static str = "addStickerToSet";

    /// A request with the given required fields and every optional field left out.
    pub fn new(user_id: UserId, name: String, sticker: JsonValue) -> (r: Self)
        ensures
            r.user_id == user_id,
            r.name == name,
            r.sticker == sticker,
    {
        AdvancedAddStickerToSetRequest {
            user_id,
            name,
            sticker,
        }
    }
}

/// Request for `answerPreCheckoutQuery`.
#[derive(Clone, Debug)]
pub struct AdvancedAnswerPreCheckoutQueryRequest {
    pub pre_checkout_query_id: String,
    pub ok: bool,
    pub error_message: Option<String>,
}

impl AdvancedAnswerPreCheckoutQueryRequest {
    /// The Bot API method this request calls.
    pub const METHOD: &'static str = "answerPreCheckoutQuery";

    /// A request with the given required fields and every optional field left out.
    pub fn new(pre_checkout_query_id: String, ok: bool) -> (r: Self)
        ensures
            r.pre_checkout_query_id == pre_checkout_query_id,
            r.ok == ok,
            r.error_message is None,
    {
        AdvancedAnswerPreCheckoutQueryRequest {
            pre_checkout_query_id,
            ok,
            error_message: None,
        }
    }
}

/// Request for `answerShippingQuery`.
///
/// Objects of types this library does not model are held as the JSON they
/// are sent as.
#[derive(Debug)]
pub struct AdvancedAnswerShippingQueryRequest {
    pub shipping_query_id: String,
    pub ok: bool,
    pub shipping_options: Option<Vec<JsonValue>>,
    pub error_message: Option<String>,
}

impl AdvancedAnswerShippingQueryRequest {
    /// The Bot API method this request calls.
    pub const METHOD: &'static str = "answerShippingQuery";

    /// A request with the given required fields and every optional field left out.
    pub fn new(shipping_query_id: String, ok: bool) -> (r: Self)
        ensures
            r.shipping_query_id == shipping_query_id,
            r.ok == ok,
            r.shipping_options is None,
            r.error_message is None,
    {
        AdvancedAnswerShippingQueryRequest {
            shipping_query_id,
            ok,
            shipping_options: None,
            error_message: None,
        }
    }
}

/// Request for `answerWebAppQuery`.
///
/// Objects of types this library does not model are held as the JSON they
/// are sent as.
#[derive(Debug)]
pub struct AdvancedAnswerWebAppQueryRequest {
    pub web_app_query_id: String,
    pub result: JsonValue,
}

impl AdvancedAnswerWebAppQueryRequest {
    /// The Bot API method this request calls.
    pub const METHOD: &'static str = "answerWebAppQuery";

    /// A request with the given required fields and every optional field left out.
    pub fn new(web_app_query_id: String, result: JsonValue) -> (r: Self)
        ensures
            r.web_app_query_id == web_app_query_id,
            r.result == result,
    {
        AdvancedAnswerWebAppQueryRequest {
            web_app_query_id,
            result,
        }
    }
}

/// Request for `approveChatJoinRequest`.
#[derive(Clone, Debug)]
pub struct AdvancedApproveChatJoinRequest {
    pub chat_id: ChatId,
    pub user_id: UserId,
}

impl AdvancedApproveChatJoinRequest {
    /// The Bot API method this request calls.
    pub const METHOD: &'static str = "approveChatJoinRequest";

    /// A request with the given required fields and every optional field left out.
    pub fn new(chat_id: ChatId, user_id: UserId) -> (r: Self)
        ensures
            r.chat_id == chat_id,
            r.user_id == user_id,
    {
        AdvancedApproveChatJoinRequest {
            chat_id,
            user_id,
        }
    }
}

/// Request for `approveSuggestedPost`.
#[derive(Clone, Debug)]
pub struct AdvancedApproveSuggestedPostRequest {
    pub chat_id: i64,
    pub message_id: MessageId,
    pub send_date: Option<i64>,
}

impl AdvancedApproveSuggestedPostRequest {
    /// The Bot API method this request calls.
    pub const METHOD: &'static str = "approveSuggestedPost";

    /// A request with the given required fields and every optional field left out.
    pub fn new(chat_id: i64, message_id: MessageId) -> (r: Self)
        ensures
            r.chat_id == chat_id,
            r.message_id == message_id,
            r.send_date is None,
    {
        AdvancedApproveSuggestedPostRequest {
            chat_id,
            message_id,
            send_date: None,
        }
    }
}

/// Request for `closeForumTopic`.
#[derive(Clone, Debug)]
pub struct AdvancedCloseForumTopicRequest {
    pub chat_id: ChatId,
    pub message_thread_id: i64,
}

impl AdvancedCloseForumTopicRequest {
    /// The Bot API method this request calls.
    pub const METHOD: &'static str = "closeForumTopic";

    /// A request with the given required fields and every optional field left out.
    pub fn new(chat_id: ChatId, message_thread_id: i64) -> (r: Self)
        ensures
            r.chat_id == chat_id,
            r.message_thread_id == message_thread_id,
    {
        AdvancedCloseForumTopicRequest {
            chat_id,
            message_thread_id,
        }
    }
}

/// Request for `closeGeneralForumTopic`.
#[derive(Clone, Debug)]
pub struct AdvancedCloseGeneralForumTopicRequest {
    pub chat_id: ChatId,
}

impl AdvancedCloseGeneralForumTopicRequest {
    /// The Bot API method this request calls.
    pub const METHOD: &'static str = "closeGeneralForumTopic";

    /// A request with the given required fields and every optional field left out.
    pub fn new(chat_id: ChatId) -> (r: Self)
        ensures
            r.chat_id == chat_id,
    {
        AdvancedCloseGeneralForumTopicRequest {
            chat_id,
        }
    }
}

/// Request for `convertGiftToStars`.
#[derive(Clone, Debug)]
pub struct AdvancedConvertGiftToStarsRequest {
    pub business_connection_id: String,
    pub owned_gift_id: String,
}

impl AdvancedConvertGiftToStarsRequest {
    /// The Bot API method this request calls.
    pub const METHOD: &'static str = "convertGiftToStars";

    /// A request with the given required fields and every optional field left out.
    pub fn new(business_connection_id: String, owned_gift_id: String) -> (r: Self)
        ensures
            r.business_connection_id == business_connection_id,
            r.owned_gift_id == owned_gift_id,
    {
        AdvancedConvertGiftToStarsRequest {
            business_connection_id,
            owned_gift_id,
        }
    }
}

/// Request for `createChatSubscriptionInviteLink`.
#[derive(Clone, Debug)]
pub struct AdvancedCreateChatSubscriptionInviteLinkRequest {
    pub chat_id: ChatId,
    pub name: Option<String>,
    pub subscription_period: i64,
    pub subscription_price: i64,
}

impl AdvancedCreateChatSubscriptionInviteLinkRequest {
    /// The Bot API method this request calls.
    pub const METHOD: &'static str = "createChatSubscriptionInviteLink";

    /// A request with the given required fields and every optional field left out.
    pub fn new(chat_id: ChatId, subscription_period: i64, subscription_price: i64) -> (r: Self)
        ensures
            r.chat_id == chat_id,
            r.name is None,
            r.subscription_period == subscription_period,
            r.subscription_price == subscription_price,
    {
        AdvancedCreateChatSubscriptionInviteLinkRequest {
            chat_id,
            name: None,
            subscription_period,
            subscription_price,
        }
    }
}

/// Request for `createForumTopic`.
#[derive(Clone, Debug)]
pub struct AdvancedCreateForumTopicRequest {
    pub chat_id: ChatId,
    pub name: String,
    pub icon_color: Option<i64>,
    pub icon_custom_emoji_id: Option<String>,
}

impl AdvancedCreateForumTopicRequest {
    /// The Bot API method this request calls.
    pub const METHOD: &'static str = "createForumTopic";

    /// A request with the given required fields and every optional field left out.
    pub fn new(chat_id: ChatId, name: String) -> (r: Self)
        ensures
            r.chat_id == chat_id,
            r.name == name,
            r.icon_color is None,
            r.icon_custom_emoji_id is None,
    {
        AdvancedCreateForumTopicRequest {
            chat_id,
            name,
            icon_color: None,
            icon_custom_emoji_id: None,
        }
    }
}

/// Request for `createInvoiceLink`.
///
/// Objects of types this library does not model are held as the JSON they
/// are sent as.
#[derive(Debug)]
pub struct AdvancedCreateInvoiceLinkRequest {
    pub business_connection_id: Option<String>,
    pub title: String,
    pub description: String,
    pub payload: String,
    pub provider_token: Option<String>,
    pub currency: String,
    pub prices: Vec<JsonValue>,
    pub subscription_period: Option<i64>,
    pub max_tip_amount: Option<i64>,
    pub suggested_tip_amounts: Option<Vec<i64>>,
    pub provider_data: Option<String>,
    pub photo_url: Option<String>,
    pub photo_size: Option<i64>,
    pub photo_width: Option<i64>,
    pub photo_height: Option<i64>,
    pub need_name: Option<bool>,
    pub need_phone_number: Option<bool>,
    pub need_email: Option<bool>,
    pub need_shipping_address: Option<bool>,
    pub send_phone_number_to_provider: Option<bool>,
    pub send_email_to_provider: Option<bool>,
    pub is_flexible: Option<bool>,
}

impl AdvancedCreateInvoiceLinkRequest {
    /// The Bot API method this request calls.
    pub const METHOD: &'static str = "createInvoiceLink";

    /// A request with the given required fields and every optional field left out.
    pub fn new(title: String, description: String, payload: String, currency: String, prices: Vec<JsonValue>) -> (r: Self)
        ensures
            r.business_connection_id is None,
            r.title == title,
            r.description == description,
            r.payload == payload,
            r.provider_token is None,
            r.currency == currency,
            r.prices == prices,
            r.subscription_period is None,
            r.max_tip_amount is None,
            r.suggested_tip_amounts is None,
            r.provider_data is None,
            r.photo_url is None,
            r.photo_size is None,
            r.photo_width is None,
            r.photo_height is None,
            r.need_name is None,
            r.need_phone_number is None,
            r.need_email is None,
            r.need_shipping_address is None,
            r.send_phone_number_to_provider is None,
            r.send_email_to_provider is None,
            r.is_flexible is None,
    {
        AdvancedCreateInvoiceLinkRequest {
            business_connection_id: None,
            title,
            description,
            payload,
            provider_token: None,
            currency,
            prices,
            subscription_period: None,
            max_tip_amount: None,
            suggested_tip_amounts: None,
            provider_data: None,
            photo_url: None,
            photo_size: None,
            photo_width: None,
            photo_height: None,
            need_name: None,
            need_phone_number: None,
            need_email: None,
            need_shipping_address: None,
            send_phone_number_to_provider: None,
            send_email_to_provider: None,
            is_flexible: None,
        }
    }
}

/// Request for `createNewStickerSet`.
///
/// Objects of types this library does not model are held as the JSON they
/// are sent as.
#[derive(Debug)]
pub struct AdvancedCreateNewStickerSetRequest {
    pub user_id: UserId,
    pub name: String,
    pub title: String,
    pub stickers: Vec<JsonValue>,
    pub sticker_type: Option<String>,
    pub needs_repainting: Option<bool>,
}

impl AdvancedCreateNewStickerSetRequest {
    /// The Bot API method this request calls.
    pub const METHOD: &'static str = "createNewStickerSet";

    /// A request with the given required fields and every optional field left out.
    pub fn new(user_id: UserId, name: String, title: String, stickers: Vec<JsonValue>) -> (r: Self)
        ensures
            r.user_id == user_id,
            r.name == name,
            r.title == title,
            r.stickers == stickers,
            r.sticker_type is None,
            r.needs_repainting is None,
    {
        AdvancedCreateNewStickerSetRequest {
            user_id,
            name,
            title,
            stickers,
            sticker_type: None,
            needs_repainting: None,
        }
    }
}

/// Request for `declineChatJoinRequest`.
#[derive(Clone, Debug)]
pub struct AdvancedDeclineChatJoinRequest {
    pub chat_id: ChatId,
    pub user_id: UserId,
}

impl AdvancedDeclineChatJoinRequest {
    /// The Bot API method this request calls.
    pub const METHOD: &'static str = "declineChatJoinRequest";

    /// A request with the given required fields and every optional field left out.
    pub fn new(chat_id: ChatId, user_id: UserId) -> (r: Self)
        ensures
            r.chat_id == chat_id,
            r.user_id == user_id,
    {
        AdvancedDeclineChatJoinRequest {
            chat_id,
            user_id,
        }
    }
}

/// Request for `declineSuggestedPost`.
#[derive(Clone, Debug)]
pub struct AdvancedDeclineSuggestedPostRequest {
    pub chat_id: i64,
    pub message_id: MessageId,
    pub comment: Option<String>,
}

impl AdvancedDeclineSuggestedPostRequest {
    /// The Bot API method this request calls.
    pub const METHOD: &'static str = "declineSuggestedPost";

    /// A request with the given required fields and every optional field left out.
    pub fn new(chat_id: i64, message_id: MessageId) -> (r: Self)
        ensures
            r.chat_id == chat_id,
            r.message_id == message_id,
            r.comment is None,
    {
        AdvancedDeclineSuggestedPostRequest {
            chat_id,
            message_id,
            comment: None,
        }
    }
}

/// Request for `deleteBusinessMessages`.
#[derive(Clone, Debug)]
pub struct AdvancedDeleteBusinessMessagesRequest {
    pub business_connection_id: String,
    pub message_ids: Vec<MessageId>,
}

impl AdvancedDeleteBusinessMessagesRequest {
    /// The Bot API method this request calls.
    pub const METHOD: &'static str = "deleteBusinessMessages";

    /// A request with the given required fields and every optional field left out.
    pub fn new(business_connection_id: String, message_ids: Vec<MessageId>) -> (r: Self)
        ensures
            r.business_connection_id == business_connection_id,
            r.message_ids == message_ids,
    {
        AdvancedDeleteBusinessMessagesRequest {
            business_connection_id,
            message_ids,
        }
    }
}

/// Request for `deleteForumTopic`.
#[derive(Clone, Debug)]
pub struct AdvancedDeleteForumTopicRequest {
    pub chat_id: ChatId,
    pub message_thread_id: i64,
}

impl AdvancedDeleteForumTopicRequest {
    /// The Bot API method this request calls.
    pub const METHOD: &'static str = "deleteForumTopic";

    /// A request with the given required fields and every optional field left out.
    pub fn new(chat_id: ChatId, message_thread_id: i64) -> (r: Self)
        ensures
            r.chat_id == chat_id,
            r.message_thread_id == message_thread_id,
    {
        AdvancedDeleteForumTopicRequest {
            chat_id,
            message_thread_id,
        }
    }
}

/// Request for `deleteStickerFromSet`.
#[derive(Clone, Debug)]
pub struct AdvancedDeleteStickerFromSetRequest {
    pub sticker: String,
}

impl AdvancedDeleteStickerFromSetRequest {
    /// The Bot API method this request calls.
    pub const METHOD: &'static str = "deleteStickerFromSet";

    /// A request with the given required fields and every optional field left out.
    pub fn new(sticker: String) -> (r: Self)
        ensures
            r.sticker == sticker,
    {
        AdvancedDeleteStickerFromSetRequest {
            sticker,
        }
    }
}

/// Request for `deleteStickerSet`.
#[derive(Clone, Debug)]
pub struct AdvancedDeleteStickerSetRequest {
    pub name: String,
}

impl AdvancedDeleteStickerSetRequest {
    /// The Bot API method this request calls.
    pub const METHOD: &'static str = "deleteStickerSet";

    /// A request with the given required fields and every optional field left out.
    pub fn new(name: String) -> (r: Self)
        ensures
            r.name == name,
    {
        AdvancedDeleteStickerSetRequest {
            name,
        }
    }
}

/// Request for `deleteStory`.
#[derive(Clone, Debug)]
pub struct AdvancedDeleteStoryRequest {
    pub business_connection_id: String,
    pub story_id: i64,
}

impl AdvancedDeleteStoryRequest {
    /// The Bot API method this request calls.
    pub const METHOD: &'static str = "deleteStory";

    /// A request with the given required fields and every optional field left out.
    pub fn new(business_connection_id: String, story_id: i64) -> (r: Self)
        ensures
            r.business_connection_id == business_connection_id,
            r.story_id == story_id,
    {
        AdvancedDeleteStoryRequest {
            business_connection_id,
            story_id,
        }
    }
}

/// Request for `editChatSubscriptionInviteLink`.
#[derive(Clone, Debug)]
pub struct AdvancedEditChatSubscriptionInviteLinkRequest {
    pub chat_id: ChatId,
    pub invite_link: String,
    pub name: Option<String>,
}

impl AdvancedEditChatSubscriptionInviteLinkRequest {
    /// The Bot API method this request calls.
    pub const METHOD: &'static str = "editChatSubscriptionInviteLink";

    /// A request with the given required fields and every optional field left out.
    pub fn new(chat_id: ChatId, invite_link: String) -> (r: Self)
        ensures
            r.chat_id == chat_id,
            r.invite_link == invite_link,
            r.name is None,
    {
        AdvancedEditChatSubscriptionInviteLinkRequest {
            chat_id,
            invite_link,
            name: None,
        }
    }
}

/// Request for `editForumTopic`.
#[derive(Clone, Debug)]
pub struct AdvancedEditForumTopicRequest {
    pub chat_id: ChatId,
    pub message_thread_id: i64,
    pub name: Option<String>,
    pub icon_custom_emoji_id: Option<String>,
}

impl AdvancedEditForumTopicRequest {
    /// The Bot API method this request calls.
    pub const METHOD: &'static str = "editForumTopic";

    /// A request with the given required fields and every optional field left out.
    pub fn new(chat_id: ChatId, message_thread_id: i64) -> (r: Self)
        ensures
            r.chat_id == chat_id,
            r.message_thread_id == message_thread_id,
            r.name is None,
            r.icon_custom_emoji_id is None,
    {
        AdvancedEditForumTopicRequest {
            chat_id,
            message_thread_id,
            name: None,
            icon_custom_emoji_id: None,
        }
    }
}

/// Request for `editGeneralForumTopic`.
#[derive(Clone, Debug)]
pub struct AdvancedEditGeneralForumTopicRequest {
    pub chat_id: ChatId,
    pub name: String,
}

impl AdvancedEditGeneralForumTopicRequest {
    /// The Bot API method this request calls.
    pub const METHOD: &'static str = "editGeneralForumTopic";

    /// A request with the given required fields and every optional field left out.
    pub fn new(chat_id: ChatId, name: String) -> (r: Self)
        ensures
            r.chat_id == chat_id,
            r.name == name,
    {
        AdvancedEditGeneralForumTopicRequest {
            chat_id,
            name,
        }
    }
}

/// Request for `editMessageChecklist`.
///
/// Objects of types this library does not model are held as the JSON they
/// are sent as.
#[derive(Debug)]
pub struct AdvancedEditMessageChecklistRequest {
    pub business_connection_id: String,
    pub chat_id: i64,
    pub message_id: MessageId,
    pub checklist: JsonValue,
    pub reply_markup: Option<JsonValue>,
}

impl AdvancedEditMessageChecklistRequest {
    /// The Bot API method this request calls.
    pub const METHOD: &'static str = "editMessageChecklist";

    /// A request with the given required fields and every optional field left out.
    pub fn new(business_connection_id: String, chat_id: i64, message_id: MessageId, checklist: JsonValue) -> (r: Self)
        ensures
            r.business_connection_id == business_connection_id,
            r.chat_id == chat_id,
            r.message_id == message_id,
            r.checklist == checklist,
            r.reply_markup is None,
    {
        AdvancedEditMessageChecklistRequest {
            business_connection_id,
            chat_id,
            message_id,
            checklist,
            reply_markup: None,
        }
    }
}

/// Request for `editMessageMedia`.
///
/// Objects of types this library does not model are held as the JSON they
/// are sent as.
#[derive(Debug)]
pub struct AdvancedEditMessageMediaRequest {
    pub business_connection_id: Option<String>,
    pub chat_id: Option<ChatId>,
    pub message_id: Option<MessageId>,
    pub inline_message_id: Option<String>,
    pub media: JsonValue,
    pub reply_markup: Option<JsonValue>,
}

impl AdvancedEditMessageMediaRequest {
    /// The Bot API method this request calls.
    pub const METHOD: &'static str = "editMessageMedia";

    /// A request with the given required fields and every optional field left out.
    pub fn new(media: JsonValue) -> (r: Self)
        ensures
            r.business_connection_id is None,
            r.chat_id is None,
            r.message_id is None,
            r.inline_message_id is None,
            r.media == media,
            r.reply_markup is None,
    {
        AdvancedEditMessageMediaRequest {
            business_connection_id: None,
            chat_id: None,
            message_id: None,
            inline_message_id: None,
            media,
            reply_markup: None,
        }
    }
}

/// Request for `editStory`.
///
/// Objects of types this library does not model are held as the JSON they
/// are sent as.
#[derive(Debug)]
pub struct AdvancedEditStoryRequest {
    pub business_connection_id: String,
    pub story_id: i64,
    pub content: JsonValue,
    pub caption: Option<String>,
    pub parse_mode: Option<String>,
    pub caption_entities: Option<Vec<MessageEntity>>,
    pub areas: Option<Vec<JsonValue>>,
}

impl AdvancedEditStoryRequest {
    /// The Bot API method this request calls.
    pub const METHOD: &'static str = "editStory";

    /// A request with the given required fields and every optional field left out.
    pub fn new(business_connection_id: String, story_id: i64, content: JsonValue) -> (r: Self)
        ensures
            r.business_connection_id == business_connection_id,
            r.story_id == story_id,
            r.content == content,
            r.caption is None,
            r.parse_mode is None,
            r.caption_entities is None,
            r.areas is None,
    {
        AdvancedEditStoryRequest {
            business_connection_id,
            story_id,
            content,
            caption: None,
            parse_mode: None,
            caption_entities: None,
            areas: None,
        }
    }
}

/// Request for `editUserStarSubscription`.
#[derive(Clone, Debug)]
pub struct AdvancedEditUserStarSubscriptionRequest {
    pub user_id: UserId,
    pub telegram_payment_charge_id: String,
    pub is_canceled: bool,
}

impl AdvancedEditUserStarSubscriptionRequest {
    /// The Bot API method this request calls.
    pub const METHOD: &'static str = "editUserStarSubscription";

    /// A request with the given required fields and every optional field left out.
    pub fn new(user_id: UserId, telegram_payment_charge_id: String, is_canceled: bool) -> (r: Self)
        ensures
            r.user_id == user_id,
            r.telegram_payment_charge_id == telegram_payment_charge_id,
            r.is_canceled == is_canceled,
    {
        AdvancedEditUserStarSubscriptionRequest {
            user_id,
            telegram_payment_charge_id,
            is_canceled,
        }
    }
}

/// Request for `forwardMessages`.
#[derive(Clone, Debug)]
pub struct AdvancedForwardMessagesRequest {
    pub chat_id: ChatId,
    pub message_thread_id: Option<i64>,
    pub direct_messages_topic_id: Option<i64>,
    pub from_chat_id: ChatId,
    pub message_ids: Vec<MessageId>,
    pub disable_notification: Option<bool>,
    pub protect_content: Option<bool>,
}

impl AdvancedForwardMessagesRequest {
    /// The Bot API method this request calls.
    pub const METHOD: &'static str = "forwardMessages";

    /// A request with the given required fields and every optional field left out.
    pub fn new(chat_id: ChatId, from_chat_id: ChatId, message_ids: Vec<MessageId>) -> (r: Self)
        ensures
            r.chat_id == chat_id,
            r.message_thread_id is None,
            r.direct_messages_topic_id is None,
            r.from_chat_id == from_chat_id,
            r.message_ids == message_ids,
            r.disable_notification is None,
            r.protect_content is None,
    {
        AdvancedForwardMessagesRequest {
            chat_id,
            message_thread_id: None,
            direct_messages_topic_id: None,
            from_chat_id,
            message_ids,
            disable_notification: None,
            protect_content: None,
        }
    }
}

/// Request for `getAvailableGifts`.
#[derive(Clone, Debug, Default)]
pub struct AdvancedGetAvailableGiftsRequest {}

impl AdvancedGetAvailableGiftsRequest {
    /// The Bot API method this request calls.
    pub const METHOD: &'static str = "getAvailableGifts";

    /// A request with every optional field left out.
    pub fn new() -> (r: Self)
    {
        AdvancedGetAvailableGiftsRequest {}
    }
}

/// Request for `getBusinessAccountGifts`.
#[derive(Clone, Debug)]
pub struct AdvancedGetBusinessAccountGiftsRequest {
    pub business_connection_id: String,
    pub exclude_unsaved: Option<bool>,
    pub exclude_saved: Option<bool>,
    pub exclude_unlimited: Option<bool>,
    pub exclude_limited_upgradable: Option<bool>,
    pub exclude_limited_non_upgradable: Option<bool>,
    pub exclude_unique: Option<bool>,
    pub exclude_from_blockchain: Option<bool>,
    pub sort_by_price: Option<bool>,
    pub offset: Option<String>,
    pub limit: Option<i64>,
}

impl AdvancedGetBusinessAccountGiftsRequest {
    /// The Bot API method this request calls.
    pub const METHOD: &'static str = "getBusinessAccountGifts";

    /// A request with the given required fields and every optional field left out.
    pub fn new(business_connection_id: String) -> (r: Self)
        ensures
            r.business_connection_id == business_connection_id,
            r.exclude_unsaved is None,
            r.exclude_saved is None,
            r.exclude_unlimited is None,
            r.exclude_limited_upgradable is None,
            r.exclude_limited_non_upgradable is None,
            r.exclude_unique is None,
            r.exclude_from_blockchain is None,
            r.sort_by_price is None,
            r.offset is None,
            r.limit is None,
    {
        AdvancedGetBusinessAccountGiftsRequest {
            business_connection_id,
            exclude_unsaved: None,
            exclude_saved: None,
            exclude_unlimited: None,
            exclude_limited_upgradable: None,
            exclude_limited_non_upgradable: None,
            exclude_unique: None,
            exclude_from_blockchain: None,
            sort_by_price: None,
            offset: None,
            limit: None,
        }
    }
}

/// Request for `getBusinessAccountStarBalance`.
#[derive(Clone, Debug)]
pub struct AdvancedGetBusinessAccountStarBalanceRequest {
    pub business_connection_id: String,
}

impl AdvancedGetBusinessAccountStarBalanceRequest {
    /// The Bot API method this request calls.
    pub const METHOD: &'static str = "getBusinessAccountStarBalance";

    /// A request with the given required fields and every optional field left out.
    pub fn new(business_connection_id: String) -> (r: Self)
        ensures
            r.business_connection_id == business_connection_id,
    {
        AdvancedGetBusinessAccountStarBalanceRequest {
            business_connection_id,
        }
    }
}

/// Request for `getBusinessConnection`.
#[derive(Clone, Debug)]
pub struct AdvancedGetBusinessConnectionRequest {
    pub business_connection_id: String,
}

impl AdvancedGetBusinessConnectionRequest {
    /// The Bot API method this request calls.
    pub const METHOD: &'static str = "getBusinessConnection";

    /// A request with the given required fields and every optional field left out.
    pub fn new(business_connection_id: String) -> (r: Self)
        ensures
            r.business_connection_id == business_connection_id,
    {
        AdvancedGetBusinessConnectionRequest {
            business_connection_id,
        }
    }
}

/// Request for `getChatGifts`.
#[derive(Clone, Debug)]
pub struct AdvancedGetChatGiftsRequest {
    pub chat_id: ChatId,
    pub exclude_unsaved: Option<bool>,
    pub exclude_saved: Option<bool>,
    pub exclude_unlimited: Option<bool>,
    pub exclude_limited_upgradable: Option<bool>,
    pub exclude_limited_non_upgradable: Option<bool>,
    pub exclude_from_blockchain: Option<bool>,
    pub exclude_unique: Option<bool>,
    pub sort_by_price: Option<bool>,
    pub offset: Option<String>,
    pub limit: Option<i64>,
}

impl AdvancedGetChatGiftsRequest {
    /// The Bot API method this request calls.
    pub const METHOD: &'static str = "getChatGifts";

    /// A request with the given required fields and every optional field left out.
    pub fn new(chat_id: ChatId) -> (r: Self)
        ensures
            r.chat_id == chat_id,
            r.exclude_unsaved is None,
            r.exclude_saved is None,
            r.exclude_unlimited is None,
            r.exclude_limited_upgradable is None,
            r.exclude_limited_non_upgradable is None,
            r.exclude_from_blockchain is None,
            r.exclude_unique is None,
            r.sort_by_price is None,
            r.offset is None,
            r.limit is None,
    {
        AdvancedGetChatGiftsRequest {
            chat_id,
            exclude_unsaved: None,
            exclude_saved: None,
            exclude_unlimited: None,
            exclude_limited_upgradable: None,
            exclude_limited_non_upgradable: None,
            exclude_from_blockchain: None,
            exclude_unique: None,
            sort_by_price: None,
            offset: None,
            limit: None,
        }
    }
}

/// Request for `getChatMenuButton`.
#[derive(Clone, Debug, Default)]
pub struct AdvancedGetChatMenuButtonRequest {
    pub chat_id: Option<i64>,
}

impl AdvancedGetChatMenuButtonRequest {
    /// The Bot API method this request calls.
    pub const METHOD: &'static str = "getChatMenuButton";

    /// A request with every optional field left out.
    pub fn new() -> (r: Self)
        ensures
            r.chat_id is None,
    {
        AdvancedGetChatMenuButtonRequest {
            chat_id: None,
        }
    }
}

/// Request for `getCustomEmojiStickers`.
#[derive(Clone, Debug)]
pub struct AdvancedGetCustomEmojiStickersRequest {
    pub custom_emoji_ids: Vec<String>,
}

impl AdvancedGetCustomEmojiStickersRequest {
    /// The Bot API method this request calls.
    pub const METHOD: &'static str = "getCustomEmojiStickers";

    /// A request with the given required fields and every optional field left out.
    pub fn new(custom_emoji_ids: Vec<String>) -> (r: Self)
        ensures
            r.custom_emoji_ids == custom_emoji_ids,
    {
        AdvancedGetCustomEmojiStickersRequest {
            custom_emoji_ids,
        }
    }
}

/// Request for `getForumTopicIconStickers`.
#[derive(Clone, Debug, Default)]
pub struct AdvancedGetForumTopicIconStickersRequest {}

impl AdvancedGetForumTopicIconStickersRequest {
    /// The Bot API method this request calls.
    pub const METHOD: &'static str = "getForumTopicIconStickers";

    /// A request with every optional field left out.
    pub fn new() -> (r: Self)
    {
        AdvancedGetForumTopicIconStickersRequest {}
    }
}

/// Request for `getGameHighScores`.
#[derive(Clone, Debug)]
pub struct AdvancedGetGameHighScoresRequest {
    pub user_id: UserId,
    pub chat_id: Option<i64>,
    pub message_id: Option<MessageId>,
    pub inline_message_id: Option<String>,
}

impl AdvancedGetGameHighScoresRequest {
    /// The Bot API method this request calls.
    pub const METHOD: &'static str = "getGameHighScores";

    /// A request with the given required fields and every optional field left out.
    pub fn new(user_id: UserId) -> (r: Self)
        ensures
            r.user_id == user_id,
            r.chat_id is None,
            r.message_id is None,
            r.inline_message_id is None,
    {
        AdvancedGetGameHighScoresRequest {
            user_id,
            chat_id: None,
            message_id: None,
            inline_message_id: None,
        }
    }
}

/// Request for `getMyDefaultAdministratorRights`.
#[derive(Clone, Debug, Default)]
pub struct AdvancedGetMyDefaultAdministratorRightsRequest {
    pub for_channels: Option<bool>,
}

impl AdvancedGetMyDefaultAdministratorRightsRequest {
    /// The Bot API method this request calls.
    pub const METHOD: &'static str = "getMyDefaultAdministratorRights";

    /// A request with every optional field left out.
    pub fn new() -> (r: Self)
        ensures
            r.for_channels is None,
    {
        AdvancedGetMyDefaultAdministratorRightsRequest {
            for_channels: None,
        }
    }
}

/// Request for `getMyStarBalance`.
#[derive(Clone, Debug, Default)]
pub struct AdvancedGetMyStarBalanceRequest {}

impl AdvancedGetMyStarBalanceRequest {
    /// The Bot API method this request calls.
    pub const METHOD: &'static str = "getMyStarBalance";

    /// A request with every optional field left out.
    pub fn new() -> (r: Self)
    {
        AdvancedGetMyStarBalanceRequest {}
    }
}

/// Request for `getStarTransactions`.
#[derive(Clone, Debug, Default)]
pub struct AdvancedGetStarTransactionsRequest {
    pub offset: Option<i64>,
    pub limit: Option<i64>,
}

impl AdvancedGetStarTransactionsRequest {
    /// The Bot API method this request calls.
    pub const METHOD: &'static str = "getStarTransactions";

    /// A request with every optional field left out.
    pub fn new() -> (r: Self)
        ensures
            r.offset is None,
            r.limit is None,
    {
        AdvancedGetStarTransactionsRequest {
            offset: None,
            limit: None,
        }
    }
}

/// Request for `getStickerSet`.
#[derive(Clone, Debug)]
pub struct AdvancedGetStickerSetRequest {
    pub name: String,
}

impl AdvancedGetStickerSetRequest {
    /// The Bot API method this request calls.
    pub const METHOD: &'static str = "getStickerSet";

    /// A request with the given required fields and every optional field left out.
    pub fn new(name: String) -> (r: Self)
        ensures
            r.name == name,
    {
        AdvancedGetStickerSetRequest {
            name,
        }
    }
}

/// Request for `getUserChatBoosts`.
#[derive(Clone, Debug)]
pub struct AdvancedGetUserChatBoostsRequest {
    pub chat_id: ChatId,
    pub user_id: UserId,
}

impl AdvancedGetUserChatBoostsRequest {
    /// The Bot API method this request calls.
    pub const METHOD: &'static str = "getUserChatBoosts";

    /// A request with the given required fields and every optional field left out.
    pub fn new(chat_id: ChatId, user_id: UserId) -> (r: Self)
        ensures
            r.chat_id == chat_id,
            r.user_id == user_id,
    {
        AdvancedGetUserChatBoostsRequest {
            chat_id,
            user_id,
        }
    }
}

/// Request for `getUserGifts`.
#[derive(Clone, Debug)]
pub struct AdvancedGetUserGiftsRequest {
    pub user_id: UserId,
    pub exclude_unlimited: Option<bool>,
    pub exclude_limited_upgradable: Option<bool>,
    pub exclude_limited_non_upgradable: Option<bool>,
    pub exclude_from_blockchain: Option<bool>,
    pub exclude_unique: Option<bool>,
    pub sort_by_price: Option<bool>,
    pub offset: Option<String>,
    pub limit: Option<i64>,
}

impl AdvancedGetUserGiftsRequest {
    /// The Bot API method this request calls.
    pub const METHOD: &'static str = "getUserGifts";

    /// A request with the given required fields and every optional field left out.
    pub fn new(user_id: UserId) -> (r: Self)
        ensures
            r.user_id == user_id,
            r.exclude_unlimited is None,
            r.exclude_limited_upgradable is None,
            r.exclude_limited_non_upgradable is None,
            r.exclude_from_blockchain is None,
            r.exclude_unique is None,
            r.sort_by_price is None,
            r.offset is None,
            r.limit is None,
    {
        AdvancedGetUserGiftsRequest {
            user_id,
            exclude_unlimited: None,
            exclude_limited_upgradable: None,
            exclude_limited_non_upgradable: None,
            exclude_from_blockchain: None,
            exclude_unique: None,
            sort_by_price: None,
            offset: None,
            limit: None,
        }
    }
}

/// Request for `getUserProfileAudios`.
#[derive(Clone, Debug)]
pub struct AdvancedGetUserProfileAudiosRequest {
    pub user_id: UserId,
    pub offset: Option<i64>,
    pub limit: Option<i64>,
}

impl AdvancedGetUserProfileAudiosRequest {
    /// The Bot API method this request calls.
    pub const METHOD: &'static str = "getUserProfileAudios";

    /// A request with the given required fields and every optional field left out.
    pub fn new(user_id: UserId) -> (r: Self)
        ensures
            r.user_id == user_id,
            r.offset is None,
            r.limit is None,
    {
        AdvancedGetUserProfileAudiosRequest {
            user_id,
            offset: None,
            limit: None,
        }
    }
}

/// Request for `giftPremiumSubscription`.
#[derive(Debug)]
pub struct AdvancedGiftPremiumSubscriptionRequest {
    pub user_id: UserId,
    pub month_count: i64,
    pub star_count: i64,
    pub text: Option<String>,
    pub text_parse_mode: Option<String>,
    pub text_entities: Option<Vec<MessageEntity>>,
}

impl AdvancedGiftPremiumSubscriptionRequest {
    /// The Bot API method this request calls.
    pub const METHOD: &'static str = "giftPremiumSubscription";

    /// A request with the given required fields and every optional field left out.
    pub fn new(user_id: UserId, month_count: i64, star_count: i64) -> (r: Self)
        ensures
            r.user_id == user_id,
            r.month_count == month_count,
            r.star_count == star_count,
            r.text is None,
            r.text_parse_mode is None,
            r.text_entities is None,
    {
        AdvancedGiftPremiumSubscriptionRequest {
            user_id,
            month_count,
            star_count,
            text: None,
            text_parse_mode: None,
            text_entities: None,
        }
    }
}

/// Request for `hideGeneralForumTopic`.
#[derive(Clone, Debug)]
pub struct AdvancedHideGeneralForumTopicRequest {
    pub chat_id: ChatId,
}

impl AdvancedHideGeneralForumTopicRequest {
    /// The Bot API method this request calls.
    pub const METHOD: &'static str = "hideGeneralForumTopic";

    /// A request with the given required fields and every optional field left out.
    pub fn new(chat_id: ChatId) -> (r: Self)
        ensures
            r.chat_id == chat_id,
    {
        AdvancedHideGeneralForumTopicRequest {
            chat_id,
        }
    }
}

/// Request for `postStory`.
///
/// Objects of types this library does not model are held as the JSON they
/// are sent as.
#[derive(Debug)]
pub struct AdvancedPostStoryRequest {
    pub business_connection_id: String,
    pub content: JsonValue,
    pub active_period: i64,
    pub caption: Option<String>,
    pub parse_mode: Option<String>,
    pub caption_entities: Option<Vec<MessageEntity>>,
    pub areas: Option<Vec<JsonValue>>,
    pub post_to_chat_page: Option<bool>,
    pub protect_content: Option<bool>,
}

impl AdvancedPostStoryRequest {
    /// The Bot API method this request calls.
    pub const METHOD: &'static str = "postStory";

    /// A request with the given required fields and every optional field left out.
    pub fn new(business_connection_id: String, content: JsonValue, active_period: i64) -> (r: Self)
        ensures
            r.business_connection_id == business_connection_id,
            r.content == content,
            r.active_period == active_period,
            r.caption is None,
            r.parse_mode is None,
            r.caption_entities is None,
            r.areas is None,
            r.post_to_chat_page is None,
            r.protect_content is None,
    {
        AdvancedPostStoryRequest {
            business_connection_id,
            content,
            active_period,
            caption: None,
            parse_mode: None,
            caption_entities: None,
            areas: None,
            post_to_chat_page: None,
            protect_content: None,
        }
    }
}

/// Request for `readBusinessMessage`.
#[derive(Clone, Debug)]
pub struct AdvancedReadBusinessMessageRequest {
    pub business_connection_id: String,
    pub chat_id: i64,
    pub message_id: MessageId,
}

impl AdvancedReadBusinessMessageRequest {
    /// The Bot API method this request calls.
    pub const METHOD: &'static str = "readBusinessMessage";

    /// A request with the given required fields and every optional field left out.
    pub fn new(business_connection_id: String, chat_id: i64, message_id: MessageId) -> (r: Self)
        ensures
            r.business_connection_id == business_connection_id,
            r.chat_id == chat_id,
            r.message_id == message_id,
    {
        AdvancedReadBusinessMessageRequest {
            business_connection_id,
            chat_id,
            message_id,
        }
    }
}

/// Request for `refundStarPayment`.
#[derive(Clone, Debug)]
pub struct AdvancedRefundStarPaymentRequest {
    pub user_id: UserId,
    pub telegram_payment_charge_id: String,
}

impl AdvancedRefundStarPaymentRequest {
    /// The Bot API method this request calls.
    pub const METHOD: &'static str = "refundStarPayment";

    /// A request with the given required fields and every optional field left out.
    pub fn new(user_id: UserId, telegram_payment_charge_id: String) -> (r: Self)
        ensures
            r.user_id == user_id,
            r.telegram_payment_charge_id == telegram_payment_charge_id,
    {
        AdvancedRefundStarPaymentRequest {
            user_id,
            telegram_payment_charge_id,
        }
    }
}

/// Request for `removeBusinessAccountProfilePhoto`.
#[derive(Clone, Debug)]
pub struct AdvancedRemoveBusinessAccountProfilePhotoRequest {
    pub business_connection_id: String,
    pub is_public: Option<bool>,
}

impl AdvancedRemoveBusinessAccountProfilePhotoRequest {
    /// The Bot API method this request calls.
    pub const METHOD: &'static str = "removeBusinessAccountProfilePhoto";

    /// A request with the given required fields and every optional field left out.
    pub fn new(business_connection_id: String) -> (r: Self)
        ensures
            r.business_connection_id == business_connection_id,
            r.is_public is None,
    {
        AdvancedRemoveBusinessAccountProfilePhotoRequest {
            business_connection_id,
            is_public: None,
        }
    }
}

/// Request for `removeChatVerification`.
#[derive(Clone, Debug)]
pub struct AdvancedRemoveChatVerificationRequest {
    pub chat_id: ChatId,
}

impl AdvancedRemoveChatVerificationRequest {
    /// The Bot API method this request calls.
    pub const METHOD: &'static str = "removeChatVerification";

    /// A request with the given required fields and every optional field left out.
    pub fn new(chat_id: ChatId) -> (r: Self)
        ensures
            r.chat_id == chat_id,
    {
        AdvancedRemoveChatVerificationRequest {
            chat_id,
        }
    }
}

/// Request for `removeMyProfilePhoto`.
#[derive(Clone, Debug, Default)]
pub struct AdvancedRemoveMyProfilePhotoRequest {}

impl AdvancedRemoveMyProfilePhotoRequest {
    /// The Bot API method this request calls.
    pub const METHOD: &'static str = "removeMyProfilePhoto";

    /// A request with every optional field left out.
    pub fn new() -> (r: Self)
    {
        AdvancedRemoveMyProfilePhotoRequest {}
    }
}

/// Request for `removeUserVerification`.
#[derive(Clone, Debug)]
pub struct AdvancedRemoveUserVerificationRequest {
    pub user_id: UserId,
}

impl AdvancedRemoveUserVerificationRequest {
    /// The Bot API method this request calls.
    pub const METHOD: &'static str = "removeUserVerification";

    /// A request with the given required fields and every optional field left out.
    pub fn new(user_id: UserId) -> (r: Self)
        ensures
            r.user_id == user_id,
    {
        AdvancedRemoveUserVerificationRequest {
            user_id,
        }
    }
}

/// Request for `reopenForumTopic`.
#[derive(Clone, Debug)]
pub struct AdvancedReopenForumTopicRequest {
    pub chat_id: ChatId,
    pub message_thread_id: i64,
}

impl AdvancedReopenForumTopicRequest {
    /// The Bot API method this request calls.
    pub const METHOD: &'static str = "reopenForumTopic";

    /// A request with the given required fields and every optional field left out.
    pub fn new(chat_id: ChatId, message_thread_id: i64) -> (r: Self)
        ensures
            r.chat_id == chat_id,
            r.message_thread_id == message_thread_id,
    {
        AdvancedReopenForumTopicRequest {
            chat_id,
            message_thread_id,
        }
    }
}

/// Request for `reopenGeneralForumTopic`.
#[derive(Clone, Debug)]
pub struct AdvancedReopenGeneralForumTopicRequest {
    pub chat_id: ChatId,
}

impl AdvancedReopenGeneralForumTopicRequest {
    /// The Bot API method this request calls.
    pub const METHOD: &'static str = "reopenGeneralForumTopic";

    /// A request with the given required fields and every optional field left out.
    pub fn new(chat_id: ChatId) -> (r: Self)
        ensures
            r.chat_id == chat_id,
    {
        AdvancedReopenGeneralForumTopicRequest {
            chat_id,
        }
    }
}

/// Request for `replaceStickerInSet`.
///
/// Objects of types this library does not model are held as the JSON they
/// are sent as.
#[derive(Debug)]
pub struct AdvancedReplaceStickerInSetRequest {
    pub user_id: UserId,
    pub name: String,
    pub old_sticker: String,
    pub sticker: JsonValue,
}

impl AdvancedReplaceStickerInSetRequest {
    /// The Bot API method this request calls.
    pub const METHOD: &'static str = "replaceStickerInSet";

    /// A request with the given required fields and every optional field left out.
    pub fn new(user_id: UserId, name: String, old_sticker: String, sticker: JsonValue) -> (r: Self)
        ensures
            r.user_id == user_id,
            r.name == name,
            r.old_sticker == old_sticker,
            r.sticker == sticker,
    {
        AdvancedReplaceStickerInSetRequest {
            user_id,
            name,
            old_sticker,
            sticker,
        }
    }
}

/// Request for `repostStory`.
#[derive(Clone, Debug)]
pub struct AdvancedRepostStoryRequest {
    pub business_connection_id: String,
    pub from_chat_id: i64,
    pub from_story_id: i64,
    pub active_period: i64,
    pub post_to_chat_page: Option<bool>,
    pub protect_content: Option<bool>,
}

impl AdvancedRepostStoryRequest {
    /// The Bot API method this request calls.
    pub const METHOD: &'static str = "repostStory";

    /// A request with the given required fields and every optional field left out.
    pub fn new(business_connection_id: String, from_chat_id: i64, from_story_id: i64, active_period: i64) -> (r: Self)
        ensures
            r.business_connection_id == business_connection_id,
            r.from_chat_id == from_chat_id,
            r.from_story_id == from_story_id,
            r.active_period == active_period,
            r.post_to_chat_page is None,
            r.protect_content is None,
    {
        AdvancedRepostStoryRequest {
            business_connection_id,
            from_chat_id,
            from_story_id,
            active_period,
            post_to_chat_page: None,
            protect_content: None,
        }
    }
}

/// Request for `savePreparedInlineMessage`.
///
/// Objects of types this library does not model are held as the JSON they
/// are sent as.
#[derive(Debug)]
pub struct AdvancedSavePreparedInlineMessageRequest {
    pub user_id: UserId,
    pub result: JsonValue,
    pub allow_user_chats: Option<bool>,
    pub allow_bot_chats: Option<bool>,
    pub allow_group_chats: Option<bool>,
    pub allow_channel_chats: Option<bool>,
}

impl AdvancedSavePreparedInlineMessageRequest {
    /// The Bot API method this request calls.
    pub const METHOD: &'static str = "savePreparedInlineMessage";

    /// A request with the given required fields and every optional field left out.
    pub fn new(user_id: UserId, result: JsonValue) -> (r: Self)
        ensures
            r.user_id == user_id,
            r.result == result,
            r.allow_user_chats is None,
            r.allow_bot_chats is None,
            r.allow_group_chats is None,
            r.allow_channel_chats is None,
    {
        AdvancedSavePreparedInlineMessageRequest {
            user_id,
            result,
            allow_user_chats: None,
            allow_bot_chats: None,
            allow_group_chats: None,
            allow_channel_chats: None,
        }
    }
}

/// Request for `sendChecklist`.
///
/// Objects of types this library does not model are held as the JSON they
/// are sent as.
#[derive(Debug)]
pub struct AdvancedSendChecklistRequest {
    pub business_connection_id: String,
    pub chat_id: i64,
    pub checklist: JsonValue,
    pub disable_notification: Option<bool>,
    pub protect_content: Option<bool>,
    pub message_effect_id: Option<String>,
    pub reply_parameters: Option<JsonValue>,
    pub reply_markup: Option<JsonValue>,
}

impl AdvancedSendChecklistRequest {
    /// The Bot API method this request calls.
    pub const METHOD: &'static str = "sendChecklist";

    /// A request with the given required fields and every optional field left out.
    pub fn new(business_connection_id: String, chat_id: i64, checklist: JsonValue) -> (r: Self)
        ensures
            r.business_connection_id == business_connection_id,
            r.chat_id == chat_id,
            r.checklist == checklist,
            r.disable_notification is None,
            r.protect_content is None,
            r.message_effect_id is None,
            r.reply_parameters is None,
            r.reply_markup is None,
    {
        AdvancedSendChecklistRequest {
            business_connection_id,
            chat_id,
            checklist,
            disable_notification: None,
            protect_content: None,
            message_effect_id: None,
            reply_parameters: None,
            reply_markup: None,
        }
    }
}

/// Request for `sendGame`.
///
/// Objects of types this library does not model are held as the JSON they
/// are sent as.
#[derive(Debug)]
pub struct AdvancedSendGameRequest {
    pub business_connection_id: Option<String>,
    pub chat_id: i64,
    pub message_thread_id: Option<i64>,
    pub game_short_name: String,
    pub disable_notification: Option<bool>,
    pub protect_content: Option<bool>,
    pub allow_paid_broadcast: Option<bool>,
    pub message_effect_id: Option<String>,
    pub reply_parameters: Option<JsonValue>,
    pub reply_markup: Option<JsonValue>,
}

impl AdvancedSendGameRequest {
    /// The Bot API method this request calls.
    pub const METHOD: &'static str = "sendGame";

    /// A request with the given required fields and every optional field left out.
    pub fn new(chat_id: i64, game_short_name: String) -> (r: Self)
        ensures
            r.business_connection_id is None,
            r.chat_id == chat_id,
            r.message_thread_id is None,
            r.game_short_name == game_short_name,
            r.disable_notification is None,
            r.protect_content is None,
            r.allow_paid_broadcast is None,
            r.message_effect_id is None,
            r.reply_parameters is None,
            r.reply_markup is None,
    {
        AdvancedSendGameRequest {
            business_connection_id: None,
            chat_id,
            message_thread_id: None,
            game_short_name,
            disable_notification: None,
            protect_content: None,
            allow_paid_broadcast: None,
            message_effect_id: None,
            reply_parameters: None,
            reply_markup: None,
        }
    }
}

/// Request for `sendGift`.
#[derive(Debug)]
pub struct AdvancedSendGiftRequest {
    pub user_id: Option<UserId>,
    pub chat_id: Option<ChatId>,
    pub gift_id: String,
    pub pay_for_upgrade: Option<bool>,
    pub text: Option<String>,
    pub text_parse_mode: Option<String>,
    pub text_entities: Option<Vec<MessageEntity>>,
}

impl AdvancedSendGiftRequest {
    /// The Bot API method this request calls.
    pub const METHOD: &'static str = "sendGift";

    /// A request with the given required fields and every optional field left out.
    pub fn new(gift_id: String) -> (r: Self)
        ensures
            r.user_id is None,
            r.chat_id is None,
            r.gift_id == gift_id,
            r.pay_for_upgrade is None,
            r.text is None,
            r.text_parse_mode is None,
            r.text_entities is None,
    {
        AdvancedSendGiftRequest {
            user_id: None,
            chat_id: None,
            gift_id,
            pay_for_upgrade: None,
            text: None,
            text_parse_mode: None,
            text_entities: None,
        }
    }
}

/// Request for `sendInvoice`.
///
/// Objects of types this library does not model are held as the JSON they
/// are sent as.
#[derive(Debug)]
pub struct AdvancedSendInvoiceRequest {
    pub chat_id: ChatId,
    pub message_thread_id: Option<i64>,
    pub direct_messages_topic_id: Option<i64>,
    pub title: String,
    pub description: String,
    pub payload: String,
    pub provider_token: Option<String>,
    pub currency: String,
    pub prices: Vec<JsonValue>,
    pub max_tip_amount: Option<i64>,
    pub suggested_tip_amounts: Option<Vec<i64>>,
    pub start_parameter: Option<String>,
    pub provider_data: Option<String>,
    pub photo_url: Option<String>,
    pub photo_size: Option<i64>,
    pub photo_width: Option<i64>,
    pub photo_height: Option<i64>,
    pub need_name: Option<bool>,
    pub need_phone_number: Option<bool>,
    pub need_email: Option<bool>,
    pub need_shipping_address: Option<bool>,
    pub send_phone_number_to_provider: Option<bool>,
    pub send_email_to_provider: Option<bool>,
    pub is_flexible: Option<bool>,
    pub disable_notification: Option<bool>,
    pub protect_content: Option<bool>,
    pub allow_paid_broadcast: Option<bool>,
    pub message_effect_id: Option<String>,
    pub suggested_post_parameters: Option<JsonValue>,
    pub reply_parameters: Option<JsonValue>,
    pub reply_markup: Option<JsonValue>,
}

impl AdvancedSendInvoiceRequest {
    /// The Bot API method this request calls.
    pub const METHOD: &'static str = "sendInvoice";

    /// A request with the given required fields and every optional field left out.
    pub fn new(chat_id: ChatId, title: String, description: String, payload: String, currency: String, prices: Vec<JsonValue>) -> (r: Self)
        ensures
            r.chat_id == chat_id,
            r.message_thread_id is None,
            r.direct_messages_topic_id is None,
            r.title == title,
            r.description == description,
            r.payload == payload,
            r.provider_token is None,
            r.currency == currency,
            r.prices == prices,
            r.max_tip_amount is None,
            r.suggested_tip_amounts is None,
            r.start_parameter is None,
            r.provider_data is None,
            r.photo_url is None,
            r.photo_size is None,
            r.photo_width is None,
            r.photo_height is None,
            r.need_name is None,
            r.need_phone_number is None,
            r.need_email is None,
            r.need_shipping_address is None,
            r.send_phone_number_to_provider is None,
            r.send_email_to_provider is None,
            r.is_flexible is None,
            r.disable_notification is None,
            r.protect_content is None,
            r.allow_paid_broadcast is None,
            r.message_effect_id is None,
            r.suggested_post_parameters is None,
            r.reply_parameters is None,
            r.reply_markup is None,
    {
        AdvancedSendInvoiceRequest {
            chat_id,
            message_thread_id: None,
            direct_messages_topic_id: None,
            title,
            description,
            payload,
            provider_token: None,
            currency,
            prices,
            max_tip_amount: None,
            suggested_tip_amounts: None,
            start_parameter: None,
            provider_data: None,
            photo_url: None,
            photo_size: None,
            photo_width: None,
            photo_height: None,
            need_name: None,
            need_phone_number: None,
            need_email: None,
            need_shipping_address: None,
            send_phone_number_to_provider: None,
            send_email_to_provider: None,
            is_flexible: None,
            disable_notification: None,
            protect_content: None,
            allow_paid_broadcast: None,
            message_effect_id: None,
            suggested_post_parameters: None,
            reply_parameters: None,
            reply_markup: None,
        }
    }
}

/// Request for `sendMessageDraft`.
#[derive(Debug)]
pub struct AdvancedSendMessageDraftRequest {
    pub chat_id: i64,
    pub message_thread_id: Option<i64>,
    pub draft_id: i64,
    pub text: String,
    pub parse_mode: Option<String>,
    pub entities: Option<Vec<MessageEntity>>,
}

impl AdvancedSendMessageDraftRequest {
    /// The Bot API method this request calls.
    pub const METHOD: &'static str = "sendMessageDraft";

    /// A request with the given required fields and every optional field left out.
    pub fn new(chat_id: i64, draft_id: i64, text: String) -> (r: Self)
        ensures
            r.chat_id == chat_id,
            r.message_thread_id is None,
            r.draft_id == draft_id,
            r.text == text,
            r.parse_mode is None,
            r.entities is None,
    {
        AdvancedSendMessageDraftRequest {
            chat_id,
            message_thread_id: None,
            draft_id,
            text,
            parse_mode: None,
            entities: None,
        }
    }
}

/// Request for `sendPaidMedia`.
///
/// Objects of types this library does not model are held as the JSON they
/// are sent as.
#[derive(Debug)]
pub struct AdvancedSendPaidMediaRequest {
    pub business_connection_id: Option<String>,
    pub chat_id: ChatId,
    pub message_thread_id: Option<i64>,
    pub direct_messages_topic_id: Option<i64>,
    pub star_count: i64,
    pub media: Vec<JsonValue>,
    pub payload: Option<String>,
    pub caption: Option<String>,
    pub parse_mode: Option<String>,
    pub caption_entities: Option<Vec<MessageEntity>>,
    pub show_caption_above_media: Option<bool>,
    pub disable_notification: Option<bool>,
    pub protect_content: Option<bool>,
    pub allow_paid_broadcast: Option<bool>,
    pub suggested_post_parameters: Option<JsonValue>,
    pub reply_parameters: Option<JsonValue>,
    pub reply_markup: Option<JsonValue>,
}

impl AdvancedSendPaidMediaRequest {
    /// The Bot API method this request calls.
    pub const METHOD: &'static str = "sendPaidMedia";

    /// A request with the given required fields and every optional field left out.
    pub fn new(chat_id: ChatId, star_count: i64, media: Vec<JsonValue>) -> (r: Self)
        ensures
            r.business_connection_id is None,
            r.chat_id == chat_id,
            r.message_thread_id is None,
            r.direct_messages_topic_id is None,
            r.star_count == star_count,
            r.media == media,
            r.payload is None,
            r.caption is None,
            r.parse_mode is None,
            r.caption_entities is None,
            r.show_caption_above_media is None,
            r.disable_notification is None,
            r.protect_content is None,
            r.allow_paid_broadcast is None,
            r.suggested_post_parameters is None,
            r.reply_parameters is None,
            r.reply_markup is None,
    {
        AdvancedSendPaidMediaRequest {
            business_connection_id: None,
            chat_id,
            message_thread_id: None,
            direct_messages_topic_id: None,
            star_count,
            media,
            payload: None,
            caption: None,
            parse_mode: None,
            caption_entities: None,
            show_caption_above_media: None,
            disable_notification: None,
            protect_content: None,
            allow_paid_broadcast: None,
            suggested_post_parameters: None,
            reply_parameters: None,
            reply_markup: None,
        }
    }
}

/// Request for `sendSticker`.
///
/// Objects of types this library does not model are held as the JSON they
/// are sent as.
#[derive(Debug)]
pub struct AdvancedSendStickerRequest {
    pub business_connection_id: Option<String>,
    pub chat_id: ChatId,
    pub message_thread_id: Option<i64>,
    pub direct_messages_topic_id: Option<i64>,
    pub sticker: String,
    pub emoji: Option<String>,
    pub disable_notification: Option<bool>,
    pub protect_content: Option<bool>,
    pub allow_paid_broadcast: Option<bool>,
    pub message_effect_id: Option<String>,
    pub suggested_post_parameters: Option<JsonValue>,
    pub reply_parameters: Option<JsonValue>,
    pub reply_markup: Option<JsonValue>,
}

impl AdvancedSendStickerRequest {
    /// The Bot API method this request calls.
    pub const METHOD: &'static str = "sendSticker";

    /// A request with the given required fields and every optional field left out.
    pub fn new(chat_id: ChatId, sticker: String) -> (r: Self)
        ensures
            r.business_connection_id is None,
            r.chat_id == chat_id,
            r.message_thread_id is None,
            r.direct_messages_topic_id is None,
            r.sticker == sticker,
            r.emoji is None,
            r.disable_notification is None,
            r.protect_content is None,
            r.allow_paid_broadcast is None,
            r.message_effect_id is None,
            r.suggested_post_parameters is None,
            r.reply_parameters is None,
            r.reply_markup is None,
    {
        AdvancedSendStickerRequest {
            business_connection_id: None,
            chat_id,
            message_thread_id: None,
            direct_messages_topic_id: None,
            sticker,
            emoji: None,
            disable_notification: None,
            protect_content: None,
            allow_paid_broadcast: None,
            message_effect_id: None,
            suggested_post_parameters: None,
            reply_parameters: None,
            reply_markup: None,
        }
    }
}

/// Request for `setBusinessAccountBio`.
#[derive(Clone, Debug)]
pub struct AdvancedSetBusinessAccountBioRequest {
    pub business_connection_id: String,
    pub bio: Option<String>,
}

impl AdvancedSetBusinessAccountBioRequest {
    /// The Bot API method this request calls.
    pub const METHOD: &'static str = "setBusinessAccountBio";

    /// A request with the given required fields and every optional field left out.
    pub fn new(business_connection_id: String) -> (r: Self)
        ensures
            r.business_connection_id == business_connection_id,
            r.bio is None,
    {
        AdvancedSetBusinessAccountBioRequest {
            business_connection_id,
            bio: None,
        }
    }
}

/// Request for `setBusinessAccountGiftSettings`.
///
/// Objects of types this library does not model are held as the JSON they
/// are sent as.
#[derive(Debug)]
pub struct AdvancedSetBusinessAccountGiftSettingsRequest {
    pub business_connection_id: String,
    pub show_gift_button: bool,
    pub accepted_gift_types: JsonValue,
}

impl AdvancedSetBusinessAccountGiftSettingsRequest {
    /// The Bot API method this request calls.
    pub const METHOD: &'static str = "setBusinessAccountGiftSettings";

    /// A request with the given required fields and every optional field left out.
    pub fn new(business_connection_id: String, show_gift_button: bool, accepted_gift_types: JsonValue) -> (r: Self)
        ensures
            r.business_connection_id == business_connection_id,
            r.show_gift_button == show_gift_button,
            r.accepted_gift_types == accepted_gift_types,
    {
        AdvancedSetBusinessAccountGiftSettingsRequest {
            business_connection_id,
            show_gift_button,
            accepted_gift_types,
        }
    }
}

/// Request for `setBusinessAccountName`.
#[derive(Clone, Debug)]
pub struct AdvancedSetBusinessAccountNameRequest {
    pub business_connection_id: String,
    pub first_name: String,
    pub last_name: Option<String>,
}

impl AdvancedSetBusinessAccountNameRequest {
    /// The Bot API method this request calls.
    pub const METHOD: &'static str = "setBusinessAccountName";

    /// A request with the given required fields and every optional field left out.
    pub fn new(business_connection_id: String, first_name: String) -> (r: Self)
        ensures
            r.business_connection_id == business_connection_id,
            r.first_name == first_name,
            r.last_name is None,
    {
        AdvancedSetBusinessAccountNameRequest {
            business_connection_id,
            first_name,
            last_name: None,
        }
    }
}

/// Request for `setBusinessAccountProfilePhoto`.
#[derive(Clone, Debug)]
pub struct AdvancedSetBusinessAccountProfilePhotoRequest {
    pub business_connection_id: String,
    pub photo: String,
    pub is_public: Option<bool>,
}

impl AdvancedSetBusinessAccountProfilePhotoRequest {
    /// The Bot API method this request calls.
    pub const METHOD: &'static str = "setBusinessAccountProfilePhoto";

    /// A request with the given required fields and every optional field left out.
    pub fn new(business_connection_id: String, photo: String) -> (r: Self)
        ensures
            r.business_connection_id == business_connection_id,
            r.photo == photo,
            r.is_public is None,
    {
        AdvancedSetBusinessAccountProfilePhotoRequest {
            business_connection_id,
            photo,
            is_public: None,
        }
    }
}

/// Request for `setBusinessAccountUsername`.
#[derive(Clone, Debug)]
pub struct AdvancedSetBusinessAccountUsernameRequest {
    pub business_connection_id: String,
    pub username: Option<String>,
}

impl AdvancedSetBusinessAccountUsernameRequest {
    /// The Bot API method this request calls.
    pub const METHOD: &'static str = "setBusinessAccountUsername";

    /// A request with the given required fields and every optional field left out.
    pub fn new(business_connection_id: String) -> (r: Self)
        ensures
            r.business_connection_id == business_connection_id,
            r.username is None,
    {
        AdvancedSetBusinessAccountUsernameRequest {
            business_connection_id,
            username: None,
        }
    }
}

/// Request for `setChatMenuButton`.
///
/// Objects of types this library does not model are held as the JSON they
/// are sent as.
#[derive(Debug, Default)]
pub struct AdvancedSetChatMenuButtonRequest {
    pub chat_id: Option<i64>,
    pub menu_button: Option<JsonValue>,
}

impl AdvancedSetChatMenuButtonRequest {
    /// The Bot API method this request calls.
    pub const METHOD: &'static str = "setChatMenuButton";

    /// A request with every optional field left out.
    pub fn new() -> (r: Self)
        ensures
            r.chat_id is None,
            r.menu_button is None,
    {
        AdvancedSetChatMenuButtonRequest {
            chat_id: None,
            menu_button: None,
        }
    }
}

/// Request for `setChatPhoto`.
#[derive(Clone, Debug)]
pub struct AdvancedSetChatPhotoRequest {
    pub chat_id: ChatId,
    pub photo: String,
}

impl AdvancedSetChatPhotoRequest {
    /// The Bot API method this request calls.
    pub const METHOD: &'static str = "setChatPhoto";

    /// A request with the given required fields and every optional field left out.
    pub fn new(chat_id: ChatId, photo: String) -> (r: Self)
        ensures
            r.chat_id == chat_id,
            r.photo == photo,
    {
        AdvancedSetChatPhotoRequest {
            chat_id,
            photo,
        }
    }
}

/// Request for `setCustomEmojiStickerSetThumbnail`.
#[derive(Clone, Debug)]
pub struct AdvancedSetCustomEmojiStickerSetThumbnailRequest {
    pub name: String,
    pub custom_emoji_id: Option<String>,
}

impl AdvancedSetCustomEmojiStickerSetThumbnailRequest {
    /// The Bot API method this request calls.
    pub const METHOD: &'static str = "setCustomEmojiStickerSetThumbnail";

    /// A request with the given required fields and every optional field left out.
    pub fn new(name: String) -> (r: Self)
        ensures
            r.name == name,
            r.custom_emoji_id is None,
    {
        AdvancedSetCustomEmojiStickerSetThumbnailRequest {
            name,
            custom_emoji_id: None,
        }
    }
}

/// Request for `setGameScore`.
#[derive(Clone, Debug)]
pub struct AdvancedSetGameScoreRequest {
    pub user_id: UserId,
    pub score: i64,
    pub force: Option<bool>,
    pub disable_edit_message: Option<bool>,
    pub chat_id: Option<i64>,
    pub message_id: Option<MessageId>,
    pub inline_message_id: Option<String>,
}

impl AdvancedSetGameScoreRequest {
    /// The Bot API method this request calls.
    pub const METHOD: &'static str = "setGameScore";

    /// A request with the given required fields and every optional field left out.
    pub fn new(user_id: UserId, score: i64) -> (r: Self)
        ensures
            r.user_id == user_id,
            r.score == score,
            r.force is None,
            r.disable_edit_message is None,
            r.chat_id is None,
            r.message_id is None,
            r.inline_message_id is None,
    {
        AdvancedSetGameScoreRequest {
            user_id,
            score,
            force: None,
            disable_edit_message: None,
            chat_id: None,
            message_id: None,
            inline_message_id: None,
        }
    }
}

/// Request for `setMessageReaction`.
///
/// Objects of types this library does not model are held as the JSON they
/// are sent as.
#[derive(Debug)]
pub struct AdvancedSetMessageReactionRequest {
    pub chat_id: ChatId,
    pub message_id: MessageId,
    pub reaction: Option<Vec<JsonValue>>,
    pub is_big: Option<bool>,
}

impl AdvancedSetMessageReactionRequest {
    /// The Bot API method this request calls.
    pub const METHOD: &'static str = "setMessageReaction";

    /// A request with the given required fields and every optional field left out.
    pub fn new(chat_id: ChatId, message_id: MessageId) -> (r: Self)
        ensures
            r.chat_id == chat_id,
            r.message_id == message_id,
            r.reaction is None,
            r.is_big is None,
    {
        AdvancedSetMessageReactionRequest {
            chat_id,
            message_id,
            reaction: None,
            is_big: None,
        }
    }
}

/// Request for `setMyDefaultAdministratorRights`.
#[derive(Clone, Debug, Default)]
pub struct AdvancedSetMyDefaultAdministratorRightsRequest {
    pub rights: Option<ChatAdministratorRights>,
    pub for_channels: Option<bool>,
}

impl AdvancedSetMyDefaultAdministratorRightsRequest {
    /// The Bot API method this request calls.
    pub const METHOD: &'static str = "setMyDefaultAdministratorRights";

    /// A request with every optional field left out.
    pub fn new() -> (r: Self)
        ensures
            r.rights is None,
            r.for_channels is None,
    {
        AdvancedSetMyDefaultAdministratorRightsRequest {
            rights: None,
            for_channels: None,
        }
    }
}

/// Request for `setMyProfilePhoto`.
#[derive(Clone, Debug)]
pub struct AdvancedSetMyProfilePhotoRequest {
    pub photo: String,
}

impl AdvancedSetMyProfilePhotoRequest {
    /// The Bot API method this request calls.
    pub const METHOD: &'static str = "setMyProfilePhoto";

    /// A request with the given required fields and every optional field left out.
    pub fn new(photo: String) -> (r: Self)
        ensures
            r.photo == photo,
    {
        AdvancedSetMyProfilePhotoRequest {
            photo,
        }
    }
}

/// Request for `setPassportDataErrors`.
///
/// Objects of types this library does not model are held as the JSON they
/// are sent as.
#[derive(Debug)]
pub struct AdvancedSetPassportDataErrorsRequest {
    pub user_id: UserId,
    pub errors: Vec<JsonValue>,
}

impl AdvancedSetPassportDataErrorsRequest {
    /// The Bot API method this request calls.
    pub const METHOD: &'static str = "setPassportDataErrors";

    /// A request with the given required fields and every optional field left out.
    pub fn new(user_id: UserId, errors: Vec<JsonValue>) -> (r: Self)
        ensures
            r.user_id == user_id,
            r.errors == errors,
    {
        AdvancedSetPassportDataErrorsRequest {
            user_id,
            errors,
        }
    }
}

/// Request for `setStickerEmojiList`.
#[derive(Clone, Debug)]
pub struct AdvancedSetStickerEmojiListRequest {
    pub sticker: String,
    pub emoji_list: Vec<String>,
}

impl AdvancedSetStickerEmojiListRequest {
    /// The Bot API method this request calls.
    pub const METHOD: &'static str = "setStickerEmojiList";

    /// A request with the given required fields and every optional field left out.
    pub fn new(sticker: String, emoji_list: Vec<String>) -> (r: Self)
        ensures
            r.sticker == sticker,
            r.emoji_list == emoji_list,
    {
        AdvancedSetStickerEmojiListRequest {
            sticker,
            emoji_list,
        }
    }
}

/// Request for `setStickerKeywords`.
#[derive(Clone, Debug)]
pub struct AdvancedSetStickerKeywordsRequest {
    pub sticker: String,
    pub keywords: Option<Vec<String>>,
}

impl AdvancedSetStickerKeywordsRequest {
    /// The Bot API method this request calls.
    pub const METHOD: &'static str = "setStickerKeywords";

    /// A request with the given required fields and every optional field left out.
    pub fn new(sticker: String) -> (r: Self)
        ensures
            r.sticker == sticker,
            r.keywords is None,
    {
        AdvancedSetStickerKeywordsRequest {
            sticker,
            keywords: None,
        }
    }
}

/// Request for `setStickerMaskPosition`.
///
/// Objects of types this library does not model are held as the JSON they
/// are sent as.
#[derive(Debug)]
pub struct AdvancedSetStickerMaskPositionRequest {
    pub sticker: String,
    pub mask_position: Option<JsonValue>,
}

impl AdvancedSetStickerMaskPositionRequest {
    /// The Bot API method this request calls.
    pub const METHOD: &'static str = "setStickerMaskPosition";

    /// A request with the given required fields and every optional field left out.
    pub fn new(sticker: String) -> (r: Self)
        ensures
            r.sticker == sticker,
            r.mask_position is None,
    {
        AdvancedSetStickerMaskPositionRequest {
            sticker,
            mask_position: None,
        }
    }
}

/// Request for `setStickerPositionInSet`.
#[derive(Clone, Debug)]
pub struct AdvancedSetStickerPositionInSetRequest {
    pub sticker: String,
    pub position: i64,
}

impl AdvancedSetStickerPositionInSetRequest {
    /// The Bot API method this request calls.
    pub const METHOD: &'static str = "setStickerPositionInSet";

    /// A request with the given required fields and every optional field left out.
    pub fn new(sticker: String, position: i64) -> (r: Self)
        ensures
            r.sticker == sticker,
            r.position == position,
    {
        AdvancedSetStickerPositionInSetRequest {
            sticker,
            position,
        }
    }
}

/// Request for `setStickerSetThumbnail`.
#[derive(Clone, Debug)]
pub struct AdvancedSetStickerSetThumbnailRequest {
    pub name: String,
    pub user_id: UserId,
    pub thumbnail: Option<String>,
    pub format: String,
}

impl AdvancedSetStickerSetThumbnailRequest {
    /// The Bot API method this request calls.
    pub const METHOD: &'static str = "setStickerSetThumbnail";

    /// A request with the given required fields and every optional field left out.
    pub fn new(name: String, user_id: UserId, format: String) -> (r: Self)
        ensures
            r.name == name,
            r.user_id == user_id,
            r.thumbnail is None,
            r.format == format,
    {
        AdvancedSetStickerSetThumbnailRequest {
            name,
            user_id,
            thumbnail: None,
            format,
        }
    }
}

/// Request for `setStickerSetTitle`.
#[derive(Clone, Debug)]
pub struct AdvancedSetStickerSetTitleRequest {
    pub name: String,
    pub title: String,
}

impl AdvancedSetStickerSetTitleRequest {
    /// The Bot API method this request calls.
    pub const METHOD: &'static str = "setStickerSetTitle";

    /// A request with the given required fields and every optional field left out.
    pub fn new(name: String, title: String) -> (r: Self)
        ensures
            r.name == name,
            r.title == title,
    {
        AdvancedSetStickerSetTitleRequest {
            name,
            title,
        }
    }
}

/// Request for `setUserEmojiStatus`.
#[derive(Clone, Debug)]
pub struct AdvancedSetUserEmojiStatusRequest {
    pub user_id: UserId,
    pub emoji_status_custom_emoji_id: Option<String>,
    pub emoji_status_expiration_date: Option<i64>,
}

impl AdvancedSetUserEmojiStatusRequest {
    /// The Bot API method this request calls.
    pub const METHOD: &'static str = "setUserEmojiStatus";

    /// A request with the given required fields and every optional field left out.
    pub fn new(user_id: UserId) -> (r: Self)
        ensures
            r.user_id == user_id,
            r.emoji_status_custom_emoji_id is None,
            r.emoji_status_expiration_date is None,
    {
        AdvancedSetUserEmojiStatusRequest {
            user_id,
            emoji_status_custom_emoji_id: None,
            emoji_status_expiration_date: None,
        }
    }
}

/// Request for `transferBusinessAccountStars`.
#[derive(Clone, Debug)]
pub struct AdvancedTransferBusinessAccountStarsRequest {
    pub business_connection_id: String,
    pub star_count: i64,
}

impl AdvancedTransferBusinessAccountStarsRequest {
    /// The Bot API method this request calls.
    pub const METHOD: &'static str = "transferBusinessAccountStars";

    /// A request with the given required fields and every optional field left out.
    pub fn new(business_connection_id: String, star_count: i64) -> (r: Self)
        ensures
            r.business_connection_id == business_connection_id,
            r.star_count == star_count,
    {
        AdvancedTransferBusinessAccountStarsRequest {
            business_connection_id,
            star_count,
        }
    }
}

/// Request for `transferGift`.
#[derive(Clone, Debug)]
pub struct AdvancedTransferGiftRequest {
    pub business_connection_id: String,
    pub owned_gift_id: String,
    pub new_owner_chat_id: i64,
    pub star_count: Option<i64>,
}

impl AdvancedTransferGiftRequest {
    /// The Bot API method this request calls.
    pub const METHOD: &'static str = "transferGift";

    /// A request with the given required fields and every optional field left out.
    pub fn new(business_connection_id: String, owned_gift_id: String, new_owner_chat_id: i64) -> (r: Self)
        ensures
            r.business_connection_id == business_connection_id,
            r.owned_gift_id == owned_gift_id,
            r.new_owner_chat_id == new_owner_chat_id,
            r.star_count is None,
    {
        AdvancedTransferGiftRequest {
            business_connection_id,
            owned_gift_id,
            new_owner_chat_id,
            star_count: None,
        }
    }
}

/// Request for `unhideGeneralForumTopic`.
#[derive(Clone, Debug)]
pub struct AdvancedUnhideGeneralForumTopicRequest {
    pub chat_id: ChatId,
}

impl AdvancedUnhideGeneralForumTopicRequest {
    /// The Bot API method this request calls.
    pub const METHOD: &'static str = "unhideGeneralForumTopic";

    /// A request with the given required fields and every optional field left out.
    pub fn new(chat_id: ChatId) -> (r: Self)
        ensures
            r.chat_id == chat_id,
    {
        AdvancedUnhideGeneralForumTopicRequest {
            chat_id,
        }
    }
}

/// Request for `unpinAllForumTopicMessages`.
#[derive(Clone, Debug)]
pub struct AdvancedUnpinAllForumTopicMessagesRequest {
    pub chat_id: ChatId,
    pub message_thread_id: i64,
}

impl AdvancedUnpinAllForumTopicMessagesRequest {
    /// The Bot API method this request calls.
    pub const METHOD: &'static str = "unpinAllForumTopicMessages";

    /// A request with the given required fields and every optional field left out.
    pub fn new(chat_id: ChatId, message_thread_id: i64) -> (r: Self)
        ensures
            r.chat_id == chat_id,
            r.message_thread_id == message_thread_id,
    {
        AdvancedUnpinAllForumTopicMessagesRequest {
            chat_id,
            message_thread_id,
        }
    }
}

/// Request for `unpinAllGeneralForumTopicMessages`.
#[derive(Clone, Debug)]
pub struct AdvancedUnpinAllGeneralForumTopicMessagesRequest {
    pub chat_id: ChatId,
}

impl AdvancedUnpinAllGeneralForumTopicMessagesRequest {
    /// The Bot API method this request calls.
    pub const METHOD: &'static str = "unpinAllGeneralForumTopicMessages";

    /// A request with the given required fields and every optional field left out.
    pub fn new(chat_id: ChatId) -> (r: Self)
        ensures
            r.chat_id == chat_id,
    {
        AdvancedUnpinAllGeneralForumTopicMessagesRequest {
            chat_id,
        }
    }
}

/// Request for `upgradeGift`.
#[derive(Clone, Debug)]
pub struct AdvancedUpgradeGiftRequest {
    pub business_connection_id: String,
    pub owned_gift_id: String,
    pub keep_original_details: Option<bool>,
    pub star_count: Option<i64>,
}

impl AdvancedUpgradeGiftRequest {
    /// The Bot API method this request calls.
    pub const METHOD: &'static str = "upgradeGift";

    /// A request with the given required fields and every optional field left out.
    pub fn new(business_connection_id: String, owned_gift_id: String) -> (r: Self)
        ensures
            r.business_connection_id == business_connection_id,
            r.owned_gift_id == owned_gift_id,
            r.keep_original_details is None,
            r.star_count is None,
    {
        AdvancedUpgradeGiftRequest {
            business_connection_id,
            owned_gift_id,
            keep_original_details: None,
            star_count: None,
        }
    }
}

/// Request for `uploadStickerFile`.
#[derive(Clone, Debug)]
pub struct AdvancedUploadStickerFileRequest {
    pub user_id: UserId,
    pub sticker: String,
    pub sticker_format: String,
}

impl AdvancedUploadStickerFileRequest {
    /// The Bot API method this request calls.
    pub const METHOD: &'static str = "uploadStickerFile";

    /// A request with the given required fields and every optional field left out.
    pub fn new(user_id: UserId, sticker: String, sticker_format: String) -> (r: Self)
        ensures
            r.user_id == user_id,
            r.sticker == sticker,
            r.sticker_format == sticker_format,
    {
        AdvancedUploadStickerFileRequest {
            user_id,
            sticker,
            sticker_format,
        }
    }
}

/// Request for `verifyChat`.
#[derive(Clone, Debug)]
pub struct AdvancedVerifyChatRequest {
    pub chat_id: ChatId,
    pub custom_description: Option<String>,
}

impl AdvancedVerifyChatRequest {
    /// The Bot API method this request calls.
    pub const METHOD: &'static str = "verifyChat";

    /// A request with the given required fields and every optional field left out.
    pub fn new(chat_id: ChatId) -> (r: Self)
        ensures
            r.chat_id == chat_id,
            r.custom_description is None,
    {
        AdvancedVerifyChatRequest {
            chat_id,
            custom_description: None,
        }
    }
}

/// Request for `verifyUser`.
#[derive(Clone, Debug)]
pub struct AdvancedVerifyUserRequest {
    pub user_id: UserId,
    pub custom_description: Option<String>,
}

impl AdvancedVerifyUserRequest {
    /// The Bot API method this request calls.
    pub const METHOD: &'static str = "verifyUser";

    /// A request with the given required fields and every optional field left out.
    pub fn new(user_id: UserId) -> (r: Self)
        ensures
            r.user_id == user_id,
            r.custom_description is None,
    {
        AdvancedVerifyUserRequest {
            user_id,
            custom_description: None,
        }
    }
}
} // verus!
