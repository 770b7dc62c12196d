use tele::advanced::{
    AdvancedAddStickerToSetRequest, AdvancedSendInvoiceRequest,
    AdvancedApproveChatJoinRequest, AdvancedDeleteStoryRequest, AdvancedGetMyStarBalanceRequest,
    AdvancedGetStarTransactionsRequest, AdvancedSetCustomEmojiStickerSetThumbnailRequest,
};
use tele::common::{ChatId, UserId};
use tele::ephemeral::EphemeralMessageParameters;
use tele::error::Error;
use tele::json::JsonValue;

#[test]
fn advanced_requests_name_their_method() {
    let approve = AdvancedApproveChatJoinRequest::new(ChatId::from(5_i64), UserId(7));
    assert_eq!(approve.chat_id, ChatId::Id(5));
    assert_eq!(approve.user_id, UserId(7));
    assert_eq!(AdvancedApproveChatJoinRequest::METHOD, "approveChatJoinRequest");

    let delete = AdvancedDeleteStoryRequest::new("biz".to_owned(), 3);
    assert_eq!(delete.business_connection_id, "biz");
    assert_eq!(delete.story_id, 3);
    assert_eq!(AdvancedDeleteStoryRequest::METHOD, "deleteStory");

    let thumb = AdvancedSetCustomEmojiStickerSetThumbnailRequest::new("set".to_owned());
    assert_eq!(thumb.name, "set");
    assert!(thumb.custom_emoji_id.is_none());

    let _ = AdvancedGetMyStarBalanceRequest::new();
    let transactions = AdvancedGetStarTransactionsRequest::new();
    assert!(transactions.offset.is_none() && transactions.limit.is_none());
    assert_eq!(AdvancedGetStarTransactionsRequest::METHOD, "getStarTransactions");
}

#[test]
fn ephemeral_parameters_are_checked() {
    let params = EphemeralMessageParameters::new(UserId(1));
    assert!(params.validate().is_ok());

    let mut replace = EphemeralMessageParameters::new(UserId(1));
    replace.replace_callback_query_message = Some(true);
    let Err(Error::InvalidRequest { reason }) = replace.validate() else {
        panic!("expected a refusal");
    };
    assert_eq!(reason, "replacing a callback message requires callback_query_id");

    replace.callback_query_id = Some("cb-1".to_owned());
    assert!(replace.validate().is_ok());

    assert!(matches!(
        EphemeralMessageParameters::new(UserId(0)).validate(),
        Err(Error::InvalidRequest { .. })
    ));
}

#[test]
fn advanced_requests_hold_unmodeled_objects_as_json() {
    let price = JsonValue::Object(vec![
        ("label".to_owned(), JsonValue::Text("Total".to_owned())),
        ("amount".to_owned(), JsonValue::Int(100)),
    ]);
    let invoice = AdvancedSendInvoiceRequest::new(
        ChatId::from(9_i64),
        "Title".to_owned(),
        "Description".to_owned(),
        "payload".to_owned(),
        "XTR".to_owned(),
        vec![price],
    );
    assert_eq!(AdvancedSendInvoiceRequest::METHOD, "sendInvoice");
    assert_eq!(invoice.currency, "XTR");
    assert_eq!(invoice.prices.len(), 1);
    assert!(invoice.max_tip_amount.is_none() && invoice.reply_markup.is_none());

    let sticker = AdvancedAddStickerToSetRequest::new(
        UserId(3),
        "set".to_owned(),
        JsonValue::Object(vec![("sticker".to_owned(), JsonValue::Text("file".to_owned()))]),
    );
    assert_eq!(AdvancedAddStickerToSetRequest::METHOD, "addStickerToSet");
    assert_eq!(sticker.name, "set");
    assert!(matches!(sticker.sticker, JsonValue::Object(_)));
}
