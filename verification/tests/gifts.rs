use tele::bot::User;
use tele::common::UserId;
use tele::gift::{
    Gift, OwnedGift, UniqueGift, UniqueGiftBackdrop, UniqueGiftBackdropColors, UniqueGiftModel,
    UniqueGiftSymbol, OwnedGiftRegular, OwnedGiftUnique, RevenueWithdrawalState,
    RevenueWithdrawalStatePending, TransactionKind, TransactionPartner,
    TransactionPartnerFragment, TransactionPartnerOther, TransactionPartnerTelegramApi,
    TransactionPartnerUser,
};
use tele::json::{JsonMap, JsonValue};

fn sticker_payload() -> JsonValue {
    JsonValue::Object(vec![
        ("file_id".to_owned(), JsonValue::Text("sticker".to_owned())),
        ("file_unique_id".to_owned(), JsonValue::Text("sticker-unique".to_owned())),
        ("type".to_owned(), JsonValue::Text("regular".to_owned())),
    ])
}

fn gift_payload() -> Gift {
    Gift {
        id: "gift-1".to_owned(),
        sticker: sticker_payload(),
        star_count: 15,
        upgrade_star_count: None,
        is_premium: false,
        has_colors: false,
        total_count: None,
        remaining_count: None,
        personal_total_count: None,
        personal_remaining_count: None,
        background: None,
        unique_gift_variant_count: None,
        publisher_chat: None,
        extra: JsonMap::new(),
    }
}

fn unique_gift_payload() -> UniqueGift {
    UniqueGift {
        gift_id: "gift-2".to_owned(),
        base_name: "Base".to_owned(),
        name: "Base-1".to_owned(),
        number: 1,
        model: UniqueGiftModel {
            name: "model".to_owned(),
            sticker: sticker_payload(),
            rarity_per_mille: 10,
            rarity: None,
            extra: JsonMap::new(),
        },
        symbol: UniqueGiftSymbol {
            name: "symbol".to_owned(),
            sticker: sticker_payload(),
            rarity_per_mille: 20,
            extra: JsonMap::new(),
        },
        backdrop: UniqueGiftBackdrop {
            name: "backdrop".to_owned(),
            colors: UniqueGiftBackdropColors {
                center_color: 1,
                edge_color: 2,
                symbol_color: 3,
                text_color: 4,
                extra: JsonMap::new(),
            },
            rarity_per_mille: 30,
            extra: JsonMap::new(),
        },
        is_premium: false,
        is_burned: false,
        is_from_blockchain: false,
        colors: None,
        publisher_chat: None,
        extra: JsonMap::new(),
    }
}

fn regular_gift() -> OwnedGift {
    let mut extra = JsonMap::new();
    extra.insert("future".to_owned(), JsonValue::Text("kept".to_owned()));
    OwnedGift::Regular(Box::new(OwnedGiftRegular {
        gift: gift_payload(),
        owned_gift_id: None,
        sender_user: None,
        send_date: 1710000000,
        text: None,
        entities: None,
        is_private: false,
        is_saved: true,
        can_be_upgraded: false,
        was_refunded: false,
        convert_star_count: None,
        prepaid_upgrade_star_count: None,
        is_upgrade_separate: false,
        unique_gift_number: None,
        extra,
    }))
}

#[test]
fn owned_gift_regular_parses_tag_and_extra() {
    let gift = regular_gift();
    let regular = gift.as_regular().expect("expected regular owned gift");
    assert!(gift.is_regular());
    assert!(!gift.is_unique());
    assert_eq!(gift.kind(), Some("regular"));
    assert_eq!(regular.gift.id, "gift-1");
    assert_eq!(regular.extra.get("future"), Some(&JsonValue::Text("kept".to_owned())));
    let owned = gift.into_regular().expect("expected owned regular gift");
    assert_eq!(owned.gift.id, "gift-1");
}

#[test]
fn owned_gift_unknown_variant_is_preserved() {
    let input = JsonValue::Object(vec![
        ("type".to_owned(), JsonValue::Text("future_gift".to_owned())),
        (
            "payload".to_owned(),
            JsonValue::Object(vec![("id".to_owned(), JsonValue::Text("future".to_owned()))]),
        ),
    ]);
    let gift = OwnedGift::Unknown(input.copy());
    assert_eq!(gift.kind(), Some("future_gift"));
    assert!(matches!(gift, OwnedGift::Unknown(_)));
    assert_eq!(gift.as_unknown_value(), Some(&input));
    assert!(gift.as_regular().is_none() && gift.as_unique().is_none());
    assert_eq!(gift.into_unknown_value(), Some(input));
}

#[test]
fn owned_gift_unique_is_told_apart() {
    let gift = OwnedGift::Unique(Box::new(OwnedGiftUnique {
        gift: unique_gift_payload(),
        owned_gift_id: Some("owned".to_owned()),
        sender_user: None,
        send_date: 5,
        is_saved: false,
        can_be_transferred: true,
        transfer_star_count: Some(3),
        next_transfer_date: None,
        extra: JsonMap::new(),
    }));
    assert_eq!(gift.kind(), Some("unique"));
    assert!(gift.is_unique() && !gift.is_regular());
    assert!(gift.as_regular().is_none());
    assert_eq!(gift.as_unique().map(|u| u.send_date), Some(5));
    assert_eq!(gift.as_unique().map(|u| u.gift.backdrop.colors.text_color), Some(4));
    assert!(gift.into_unknown_value().is_none());
}

#[test]
fn transaction_partner_user_parses_tag_and_extra() {
    let mut extra = JsonMap::new();
    extra.insert("future".to_owned(), JsonValue::Int(42));
    let partner = TransactionPartner::User(Box::new(TransactionPartnerUser {
        transaction_type: TransactionKind::from_name("gift_purchase".to_owned()),
        user: User {
            id: UserId(7),
            is_bot: false,
            first_name: "Ada".to_owned(),
            last_name: None,
            username: None,
            language_code: None,
            extra: JsonMap::new(),
        },
        affiliate: None,
        invoice_payload: None,
        subscription_period: None,
        paid_media: None,
        paid_media_payload: None,
        gift: None,
        premium_subscription_duration: None,
        extra,
    }));

    let user = partner.as_user().expect("expected user transaction partner");
    assert_eq!(partner.kind(), Some("user"));
    assert_eq!(user.transaction_type, TransactionKind::GiftPurchase);
    assert_eq!(user.extra.get("future"), Some(&JsonValue::Int(42)));
    assert!(partner.as_chat().is_none() && partner.as_other().is_none());
    assert_eq!(
        partner.into_user().expect("expected owned user transaction partner").user.first_name,
        "Ada"
    );
}

#[test]
fn transaction_partner_variants_answer_only_their_own_accessor() {
    let fragment = TransactionPartner::Fragment(Box::new(TransactionPartnerFragment {
        withdrawal_state: Some(RevenueWithdrawalState::Pending(RevenueWithdrawalStatePending {
            extra: JsonMap::new(),
        })),
        extra: JsonMap::new(),
    }));
    assert_eq!(fragment.kind(), Some("fragment"));
    assert!(fragment.as_fragment().is_some() && fragment.as_user().is_none());
    assert!(fragment.as_telegram_api().is_none() && fragment.as_unknown_value().is_none());

    let api = TransactionPartner::TelegramApi(Box::new(TransactionPartnerTelegramApi {
        request_count: 12,
        extra: JsonMap::new(),
    }));
    assert_eq!(api.kind(), Some("telegram_api"));
    assert_eq!(api.as_telegram_api().map(|a| a.request_count), Some(12));
    assert_eq!(api.into_telegram_api().map(|a| a.request_count), Some(12));

    let other = TransactionPartner::Other(TransactionPartnerOther { extra: JsonMap::new() });
    assert_eq!(other.kind(), Some("other"));
    assert!(other.as_other().is_some() && other.as_telegram_ads().is_none());
    assert!(other.into_fragment().is_none());

    let unknown = TransactionPartner::Unknown(JsonValue::Object(vec![(
        "kind".to_owned(),
        JsonValue::Text("no type".to_owned()),
    )]));
    assert_eq!(unknown.kind(), None);
    assert!(unknown.as_unknown_value().is_some());
}
