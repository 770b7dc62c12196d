use tele::gift::{TransactionKind, UniqueGiftOrigin};
use tele::message::common::{ChatType, MessageEntityKind};
use tele::message::content::PollKind;
use tele::message::metadata::{SuggestedPostRefundReason, SuggestedPostState};

#[test]
fn string_enums_keep_unknown_values() {
    let origin = UniqueGiftOrigin::from_name("future_origin".to_owned());
    let transaction = TransactionKind::from_name("future_transaction".to_owned());

    assert_eq!(origin.as_str(), "future_origin");
    assert_eq!(transaction.as_str(), "future_transaction");
}

#[test]
fn chat_type_known_values_parse_from_strings() {
    assert_eq!(ChatType::from_name("supergroup".to_owned()), ChatType::Supergroup);
    assert_eq!(ChatType::from_name("private".to_owned()), ChatType::Private);
    assert_eq!(
        ChatType::from_name("future_chat".to_owned()),
        ChatType::Unknown("future_chat".to_owned())
    );
    assert_eq!(ChatType::Channel.as_str(), "channel");
}

#[test]
fn entity_and_poll_kinds_round_trip() {
    for name in ["bot_command", "date_time", "text_link", "expandable_blockquote", "mystery_entity"] {
        assert_eq!(MessageEntityKind::from_name(name.to_owned()).as_str(), name);
    }
    assert_eq!(MessageEntityKind::from_name("date_time".to_owned()), MessageEntityKind::DateTime);
    assert_eq!(PollKind::from_name("quiz".to_owned()), PollKind::Quiz);
    assert_eq!(PollKind::Regular.as_str(), "regular");
}

#[test]
fn suggested_post_names_round_trip() {
    assert_eq!(SuggestedPostState::from_name("approved".to_owned()), SuggestedPostState::Approved);
    assert_eq!(SuggestedPostState::Declined.as_str(), "declined");
    assert_eq!(
        SuggestedPostRefundReason::from_name("payment_refunded".to_owned()),
        SuggestedPostRefundReason::PaymentRefunded
    );
    assert_eq!(SuggestedPostRefundReason::PostDeleted.as_str(), "post_deleted");
    assert_eq!(UniqueGiftOrigin::from_name("gifted_upgrade".to_owned()), UniqueGiftOrigin::GiftedUpgrade);
    assert_eq!(TransactionKind::GiftPurchase.as_str(), "gift_purchase");
}
