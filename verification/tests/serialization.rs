use serde_json::Value;
use tele::bot::User;
use tele::common::{MessageId, UserId};
use tele::json::{JsonMap, JsonValue};
use tele::message::common::{MessageEntity, MessageEntityKind};
use tele::message::forum::{
    ForumTopic, ForumTopicClosed, ForumTopicCreated, ForumTopicEdited, GeneralForumTopicHidden,
};
use tele::message::metadata::{
    SuggestedPostApprovalFailed, SuggestedPostApproved, SuggestedPostDeclined, SuggestedPostInfo,
    SuggestedPostPaid, SuggestedPostPrice, SuggestedPostRefundReason, SuggestedPostRefunded,
    SuggestedPostState,
};
use tele::message::payments::{
    Invoice, OrderInfo, RefundedPayment, ShippingAddress, StarAmount, SuccessfulPayment,
};
use tele::message::reply::{ExternalReplyInfo, TextQuote};

fn to_serde(value: &JsonValue) -> Value {
    match value {
        JsonValue::Null => Value::Null,
        JsonValue::Bool(b) => Value::Bool(*b),
        JsonValue::Int(n) => Value::from(*n),
        JsonValue::UInt(n) => Value::from(*n),
        JsonValue::Number(text) => serde_json::from_str(text).unwrap(),
        JsonValue::Text(t) => Value::String(t.clone()),
        JsonValue::Array(items) => Value::Array(items.iter().map(to_serde).collect()),
        JsonValue::Object(entries) => {
            let mut map = serde_json::Map::new();
            for (k, v) in entries {
                map.insert(k.clone(), to_serde(v));
            }
            Value::Object(map)
        }
    }
}

fn object(entries: Vec<(String, JsonValue)>) -> Value {
    to_serde(&JsonValue::Object(entries))
}

fn text(t: &str) -> JsonValue {
    JsonValue::Text(t.to_owned())
}

fn kept() -> JsonValue {
    JsonValue::Object(vec![("kept".to_owned(), JsonValue::Bool(true))])
}

fn kept_value() -> Value {
    to_serde(&kept())
}

fn future_extra() -> JsonMap {
    let mut extra = JsonMap::new();
    extra.insert("future".to_owned(), kept());
    extra
}

fn user(id: i64, first_name: &str) -> User {
    User {
        id: UserId(id),
        is_bot: false,
        first_name: first_name.to_owned(),
        last_name: None,
        username: None,
        language_code: None,
        extra: JsonMap::new(),
    }
}

#[test]
fn user_extra_cannot_override_reserved_fields() {
    let mut user = User {
        id: UserId(42),
        is_bot: true,
        first_name: "Tele".to_owned(),
        last_name: Some("Bot".to_owned()),
        username: Some("telebot".to_owned()),
        language_code: Some("en".to_owned()),
        extra: JsonMap::new(),
    };
    user.extra.insert("id".to_owned(), JsonValue::Int(1));
    user.extra.insert("is_bot".to_owned(), JsonValue::Bool(false));
    user.extra.insert("first_name".to_owned(), text("Overridden"));
    user.extra.insert("language_code".to_owned(), text("zh"));
    user.extra.insert("future_field".to_owned(), text("kept"));

    let value = to_serde(&user.to_json());
    assert_eq!(value["id"], 42);
    assert_eq!(value["is_bot"], true);
    assert_eq!(value["first_name"], "Tele");
    assert_eq!(value["last_name"], "Bot");
    assert_eq!(value["username"], "telebot");
    assert_eq!(value["language_code"], "en");
    assert_eq!(value["future_field"], "kept");
}

#[test]
fn invoice_and_shipping_extra_cannot_override_reserved_fields() {
    let mut invoice = Invoice {
        title: "Invoice".to_owned(),
        description: "Description".to_owned(),
        start_parameter: "start".to_owned(),
        currency: "USD".to_owned(),
        total_amount: 1000,
        extra: future_extra(),
    };
    invoice.extra.insert("title".to_owned(), text("spoofed"));
    invoice.extra.insert("description".to_owned(), text("spoofed"));
    invoice.extra.insert("currency".to_owned(), text("EUR"));
    invoice.extra.insert("total_amount".to_owned(), JsonValue::Int(1));
    invoice.extra.insert("another_future".to_owned(), text("kept"));

    let invoice_value = object(invoice.to_entries());
    assert_eq!(invoice_value["title"], "Invoice");
    assert_eq!(invoice_value["description"], "Description");
    assert_eq!(invoice_value["currency"], "USD");
    assert_eq!(invoice_value["total_amount"], 1000);
    assert_eq!(invoice_value["future"], kept_value());
    assert_eq!(invoice_value["another_future"], "kept");

    let mut address = ShippingAddress {
        country_code: "US".to_owned(),
        state: "CA".to_owned(),
        city: "San Francisco".to_owned(),
        street_line1: "1 Market".to_owned(),
        street_line2: "Suite 1".to_owned(),
        post_code: "94105".to_owned(),
        extra: future_extra(),
    };
    address.extra.insert("country_code".to_owned(), text("CN"));
    address.extra.insert("city".to_owned(), text("spoofed"));
    address.extra.insert("post_code".to_owned(), text("00000"));
    address.extra.insert("another_future".to_owned(), text("kept"));

    let address_value = object(address.to_entries());
    assert_eq!(address_value["country_code"], "US");
    assert_eq!(address_value["city"], "San Francisco");
    assert_eq!(address_value["post_code"], "94105");
    assert_eq!(address_value["future"], kept_value());
    assert_eq!(address_value["another_future"], "kept");
}

#[test]
fn order_and_payment_extra_cannot_override_reserved_fields() {
    let mut order = OrderInfo {
        name: Some("Alice".to_owned()),
        phone_number: None,
        email: Some("alice@example.com".to_owned()),
        shipping_address: None,
        extra: future_extra(),
    };
    order.extra.insert("name".to_owned(), text("spoofed"));
    order.extra.insert("phone_number".to_owned(), text("spoofed"));
    order.extra.insert("another_future".to_owned(), text("kept"));

    let order_value = object(order.to_entries());
    assert_eq!(order_value["name"], "Alice");
    assert_eq!(order_value["email"], "alice@example.com");
    assert!(order_value.get("phone_number").is_none());
    assert_eq!(order_value["future"], kept_value());
    assert_eq!(order_value["another_future"], "kept");

    let mut payment = SuccessfulPayment {
        currency: "USD".to_owned(),
        total_amount: 1000,
        invoice_payload: "payload".to_owned(),
        subscription_expiration_date: None,
        is_recurring: false,
        is_first_recurring: false,
        shipping_option_id: None,
        order_info: None,
        telegram_payment_charge_id: "telegram-charge".to_owned(),
        provider_payment_charge_id: "provider-charge".to_owned(),
        extra: future_extra(),
    };
    payment.extra.insert("currency".to_owned(), text("EUR"));
    payment.extra.insert("total_amount".to_owned(), JsonValue::Int(1));
    payment.extra.insert("invoice_payload".to_owned(), text("spoofed"));
    payment.extra.insert("is_recurring".to_owned(), JsonValue::Bool(true));
    payment.extra.insert("telegram_payment_charge_id".to_owned(), text("spoofed"));
    payment.extra.insert("another_future".to_owned(), text("kept"));

    let payment_value = object(payment.to_entries());
    assert_eq!(payment_value["currency"], "USD");
    assert_eq!(payment_value["total_amount"], 1000);
    assert_eq!(payment_value["invoice_payload"], "payload");
    assert_eq!(payment_value["telegram_payment_charge_id"], "telegram-charge");
    assert!(payment_value.get("is_recurring").is_none());
    assert_eq!(payment_value["future"], kept_value());
    assert_eq!(payment_value["another_future"], "kept");
}

#[test]
fn refund_and_star_amount_extra_cannot_override_reserved_fields() {
    let mut refund = RefundedPayment {
        currency: "USD".to_owned(),
        total_amount: 1000,
        invoice_payload: "payload".to_owned(),
        telegram_payment_charge_id: "telegram-charge".to_owned(),
        provider_payment_charge_id: None,
        extra: future_extra(),
    };
    refund.extra.insert("currency".to_owned(), text("EUR"));
    refund.extra.insert("total_amount".to_owned(), JsonValue::Int(1));
    refund.extra.insert("provider_payment_charge_id".to_owned(), text("provider-charge"));
    refund.extra.insert("another_future".to_owned(), text("kept"));

    let refund_value = object(refund.to_entries());
    assert_eq!(refund_value["currency"], "USD");
    assert_eq!(refund_value["total_amount"], 1000);
    assert_eq!(refund_value["invoice_payload"], "payload");
    assert_eq!(refund_value["telegram_payment_charge_id"], "telegram-charge");
    assert!(refund_value.get("provider_payment_charge_id").is_none());
    assert_eq!(refund_value["future"], kept_value());
    assert_eq!(refund_value["another_future"], "kept");

    let mut amount = StarAmount { amount: 10, nanostar_amount: None, extra: future_extra() };
    amount.extra.insert("amount".to_owned(), JsonValue::Int(1));
    amount.extra.insert("nanostar_amount".to_owned(), JsonValue::Int(1));
    amount.extra.insert("another_future".to_owned(), text("kept"));

    let amount_value = object(amount.to_entries());
    assert_eq!(amount_value["amount"], 10);
    assert!(amount_value.get("nanostar_amount").is_none());
    assert_eq!(amount_value["future"], kept_value());
    assert_eq!(amount_value["another_future"], "kept");
}

#[test]
fn forum_topic_extra_cannot_override_reserved_fields() {
    let mut topic = ForumTopic {
        message_thread_id: 11,
        name: "Announcements".to_owned(),
        icon_color: 7322096,
        icon_custom_emoji_id: None,
        extra: future_extra(),
    };
    topic.extra.insert("message_thread_id".to_owned(), JsonValue::Int(1));
    topic.extra.insert("name".to_owned(), text("spoofed"));
    topic.extra.insert("icon_color".to_owned(), JsonValue::Int(0));
    topic.extra.insert("icon_custom_emoji_id".to_owned(), text("spoofed"));
    topic.extra.insert("another_future".to_owned(), text("kept"));

    let value = object(topic.to_entries());
    assert_eq!(value["message_thread_id"], 11);
    assert_eq!(value["name"], "Announcements");
    assert_eq!(value["icon_color"], 7322096);
    assert!(value.get("icon_custom_emoji_id").is_none());
    assert_eq!(value["future"], kept_value());
    assert_eq!(value["another_future"], "kept");
}

#[test]
fn forum_topic_event_extra_cannot_override_reserved_fields() {
    let mut created = ForumTopicCreated {
        name: "Announcements".to_owned(),
        icon_color: 7322096,
        icon_custom_emoji_id: None,
        is_name_implicit: false,
        extra: future_extra(),
    };
    created.extra.insert("name".to_owned(), text("spoofed"));
    created.extra.insert("icon_color".to_owned(), JsonValue::Int(0));
    created.extra.insert("is_name_implicit".to_owned(), JsonValue::Bool(true));
    created.extra.insert("another_future".to_owned(), text("kept"));

    let created_value = object(created.to_entries());
    assert_eq!(created_value["name"], "Announcements");
    assert_eq!(created_value["icon_color"], 7322096);
    assert!(created_value.get("is_name_implicit").is_none());
    assert_eq!(created_value["future"], kept_value());
    assert_eq!(created_value["another_future"], "kept");

    let mut edited = ForumTopicEdited {
        name: Some("Updated".to_owned()),
        icon_custom_emoji_id: None,
        extra: future_extra(),
    };
    edited.extra.insert("name".to_owned(), text("spoofed"));
    edited.extra.insert("icon_custom_emoji_id".to_owned(), text("spoofed"));
    edited.extra.insert("another_future".to_owned(), text("kept"));

    let edited_value = object(edited.to_entries());
    assert_eq!(edited_value["name"], "Updated");
    assert!(edited_value.get("icon_custom_emoji_id").is_none());
    assert_eq!(edited_value["future"], kept_value());
    assert_eq!(edited_value["another_future"], "kept");
}

#[test]
fn empty_forum_events_preserve_future_fields() {
    let closed = ForumTopicClosed { extra: future_extra() };
    assert_eq!(object(closed.to_entries()), object(vec![("future".to_owned(), kept())]));

    let hidden = GeneralForumTopicHidden { extra: future_extra() };
    assert_eq!(object(hidden.to_entries()), object(vec![("future".to_owned(), kept())]));
}

#[test]
fn suggested_post_price_and_info_extra_cannot_override_reserved_fields() {
    let mut price = SuggestedPostPrice { currency: "USD".to_owned(), amount: 1000, extra: future_extra() };
    price.extra.insert("currency".to_owned(), text("EUR"));
    price.extra.insert("amount".to_owned(), JsonValue::Int(1));
    price.extra.insert("another_future".to_owned(), text("kept"));

    let price_value = object(price.to_entries());
    assert_eq!(price_value["currency"], "USD");
    assert_eq!(price_value["amount"], 1000);
    assert_eq!(price_value["future"], kept_value());
    assert_eq!(price_value["another_future"], "kept");

    let mut info = SuggestedPostInfo {
        state: SuggestedPostState::from_name("approved".to_owned()),
        price: None,
        send_date: None,
        extra: future_extra(),
    };
    info.extra.insert("state".to_owned(), text("declined"));
    info.extra.insert(
        "price".to_owned(),
        JsonValue::Object(vec![("currency".to_owned(), text("EUR")), ("amount".to_owned(), JsonValue::Int(1))]),
    );
    info.extra.insert("send_date".to_owned(), JsonValue::Int(1));
    info.extra.insert("another_future".to_owned(), text("kept"));

    let info_value = object(info.to_entries());
    assert_eq!(info_value["state"], "approved");
    assert!(info_value.get("price").is_none());
    assert!(info_value.get("send_date").is_none());
    assert_eq!(info_value["future"], kept_value());
    assert_eq!(info_value["another_future"], "kept");
}

#[test]
fn text_quote_extra_cannot_override_reserved_fields() {
    let mut quote = TextQuote {
        text: "quoted".to_owned(),
        entities: None,
        position: 4,
        is_manual: false,
        extra: future_extra(),
    };
    quote.extra.insert("text".to_owned(), text("spoofed"));
    quote.extra.insert("position".to_owned(), JsonValue::Int(0));
    quote.extra.insert("is_manual".to_owned(), JsonValue::Bool(true));
    quote.extra.insert("entities".to_owned(), JsonValue::Array(Vec::new()));
    quote.extra.insert("another_future".to_owned(), text("kept"));

    let value = object(quote.to_entries());
    assert_eq!(value["text"], "quoted");
    assert_eq!(value["position"], 4);
    assert!(value.get("is_manual").is_none());
    assert!(value.get("entities").is_none());
    assert_eq!(value["future"], kept_value());
    assert_eq!(value["another_future"], "kept");
}

#[test]
fn external_reply_info_extra_cannot_override_reserved_fields() {
    let origin = JsonValue::Object(vec![
        ("type".to_owned(), text("user")),
        ("date".to_owned(), JsonValue::Int(10)),
        (
            "sender_user".to_owned(),
            JsonValue::Object(vec![
                ("id".to_owned(), JsonValue::Int(1)),
                ("is_bot".to_owned(), JsonValue::Bool(false)),
                ("first_name".to_owned(), text("Alice")),
            ]),
        ),
    ]);
    let mut reply = ExternalReplyInfo {
        origin,
        chat: None,
        message_id: Some(MessageId(55)),
        link_preview_options: None,
        animation: None,
        audio: None,
        document: None,
        paid_media: None,
        photo: None,
        sticker: None,
        story: None,
        video: None,
        video_note: None,
        voice: None,
        has_media_spoiler: false,
        checklist: None,
        contact: None,
        dice: None,
        game: None,
        giveaway: None,
        giveaway_winners: None,
        invoice: None,
        location: None,
        poll: None,
        venue: None,
        extra: future_extra(),
    };
    reply.extra.insert(
        "origin".to_owned(),
        JsonValue::Object(vec![
            ("type".to_owned(), text("hidden_user")),
            ("date".to_owned(), JsonValue::Int(1)),
            ("sender_user_name".to_owned(), text("spoofed")),
        ]),
    );
    reply.extra.insert("message_id".to_owned(), JsonValue::Int(1));
    reply.extra.insert("has_media_spoiler".to_owned(), JsonValue::Bool(true));
    reply.extra.insert("photo".to_owned(), JsonValue::Array(Vec::new()));
    reply.extra.insert("another_future".to_owned(), text("kept"));

    let value = object(reply.to_entries());
    assert_eq!(value["origin"]["type"], "user");
    assert_eq!(value["origin"]["date"], 10);
    assert_eq!(value["origin"]["sender_user"]["id"], 1);
    assert_eq!(value["message_id"], 55);
    assert!(value.get("has_media_spoiler").is_none());
    assert!(value.get("photo").is_none());
    assert_eq!(value["future"], kept_value());
    assert_eq!(value["another_future"], "kept");
}

#[test]
fn message_entity_response_extra_is_not_reserialized() {
    let mut entity = MessageEntity {
        kind: MessageEntityKind::from_name("text_link".to_owned()),
        offset: 3,
        length: 5,
        url: Some("https://example.com".to_owned()),
        user: None,
        language: None,
        custom_emoji_id: None,
        unix_time: None,
        date_time_format: None,
        extra: future_extra(),
    };
    assert_eq!(entity.kind, MessageEntityKind::TextLink);

    entity.extra.insert("type".to_owned(), text("bold"));
    entity.extra.insert("offset".to_owned(), JsonValue::Int(0));
    entity.extra.insert("length".to_owned(), JsonValue::Int(1));
    entity.extra.insert("url".to_owned(), text("https://example.com/overridden"));
    entity.extra.insert("another_future".to_owned(), text("kept"));

    let value = object(entity.to_entries());
    assert_eq!(value["type"], "text_link");
    assert_eq!(value["offset"], 3);
    assert_eq!(value["length"], 5);
    assert_eq!(value["url"], "https://example.com");
    assert!(value.get("future").is_none());
    assert!(value.get("another_future").is_none());
}

#[test]
fn message_entity_text_mention_serializes_user_without_response_extra() {
    let mut mentioned = user(42, "Alice");
    mentioned.extra.insert("future_user_field".to_owned(), text("response-only"));
    let entity = MessageEntity {
        kind: MessageEntityKind::from_name("text_mention".to_owned()),
        offset: 0,
        length: 5,
        url: None,
        user: Some(mentioned),
        language: None,
        custom_emoji_id: None,
        unix_time: None,
        date_time_format: None,
        extra: JsonMap::new(),
    };

    let value = object(entity.to_entries());
    assert_eq!(value["type"], "text_mention");
    assert_eq!(value["user"]["id"], 42);
    assert_eq!(value["user"]["first_name"], "Alice");
    assert!(value["user"].get("future_user_field").is_none());
}

#[test]
fn nested_objects_are_written_in_place() {
    let order = OrderInfo {
        name: None,
        phone_number: None,
        email: None,
        shipping_address: Some(ShippingAddress {
            country_code: "US".to_owned(),
            state: "CA".to_owned(),
            city: "SF".to_owned(),
            street_line1: "1".to_owned(),
            street_line2: "2".to_owned(),
            post_code: "3".to_owned(),
            extra: JsonMap::new(),
        }),
        extra: JsonMap::new(),
    };
    let entries = order.to_entries();
    assert_eq!(entries.len(), 1);
    let value = object(entries);
    assert_eq!(value["shipping_address"]["city"], "SF");

    let payment = SuccessfulPayment {
        currency: "USD".to_owned(),
        total_amount: 5,
        invoice_payload: "p".to_owned(),
        subscription_expiration_date: Some(9),
        is_recurring: true,
        is_first_recurring: false,
        shipping_option_id: None,
        order_info: Some(order),
        telegram_payment_charge_id: "t".to_owned(),
        provider_payment_charge_id: "p".to_owned(),
        extra: JsonMap::new(),
    };
    let keys: Vec<String> = payment.to_entries().into_iter().map(|(k, _)| k).collect();
    assert_eq!(
        keys,
        vec![
            "currency",
            "total_amount",
            "invoice_payload",
            "subscription_expiration_date",
            "is_recurring",
            "order_info",
            "telegram_payment_charge_id",
            "provider_payment_charge_id"
        ]
    );
}

fn message_ref() -> JsonValue {
    JsonValue::Object(vec![("message_id".to_owned(), JsonValue::Int(1))])
}

#[test]
fn suggested_post_lifecycle_extra_cannot_override_reserved_fields() {
    let mut approved = SuggestedPostApproved {
        suggested_post_message: None,
        price: None,
        send_date: 20,
        extra: future_extra(),
    };
    approved.extra.insert("send_date".to_owned(), JsonValue::Int(1));
    approved.extra.insert(
        "price".to_owned(),
        JsonValue::Object(vec![("currency".to_owned(), text("EUR")), ("amount".to_owned(), JsonValue::Int(1))]),
    );
    approved.extra.insert("another_future".to_owned(), text("kept"));

    let approved_value = object(approved.to_entries());
    assert_eq!(approved_value["send_date"], 20);
    assert!(approved_value.get("price").is_none());
    assert_eq!(approved_value["future"], kept_value());
    assert_eq!(approved_value["another_future"], "kept");

    let mut failed = SuggestedPostApprovalFailed {
        suggested_post_message: None,
        price: SuggestedPostPrice { currency: "USD".to_owned(), amount: 1000, extra: JsonMap::new() },
        extra: future_extra(),
    };
    failed.extra.insert(
        "price".to_owned(),
        JsonValue::Object(vec![("currency".to_owned(), text("EUR")), ("amount".to_owned(), JsonValue::Int(1))]),
    );
    failed.extra.insert("suggested_post_message".to_owned(), message_ref());
    failed.extra.insert("another_future".to_owned(), text("kept"));

    let failed_value = object(failed.to_entries());
    assert_eq!(failed_value["price"]["currency"], "USD");
    assert_eq!(failed_value["price"]["amount"], 1000);
    assert!(failed_value.get("suggested_post_message").is_none());
    assert_eq!(failed_value["future"], kept_value());
    assert_eq!(failed_value["another_future"], "kept");

    let mut declined = SuggestedPostDeclined {
        suggested_post_message: None,
        comment: Some("No".to_owned()),
        extra: future_extra(),
    };
    declined.extra.insert("comment".to_owned(), text("spoofed"));
    declined.extra.insert("suggested_post_message".to_owned(), message_ref());
    declined.extra.insert("another_future".to_owned(), text("kept"));

    let declined_value = object(declined.to_entries());
    assert_eq!(declined_value["comment"], "No");
    assert!(declined_value.get("suggested_post_message").is_none());
    assert_eq!(declined_value["future"], kept_value());
    assert_eq!(declined_value["another_future"], "kept");
}

#[test]
fn suggested_post_paid_and_refunded_extra_cannot_override_reserved_fields() {
    let mut paid = SuggestedPostPaid {
        suggested_post_message: None,
        currency: "USD".to_owned(),
        amount: Some(1000),
        star_amount: None,
        extra: future_extra(),
    };
    paid.extra.insert("currency".to_owned(), text("EUR"));
    paid.extra.insert("amount".to_owned(), JsonValue::Int(1));
    paid.extra.insert(
        "star_amount".to_owned(),
        JsonValue::Object(vec![("amount".to_owned(), JsonValue::Int(1))]),
    );
    paid.extra.insert("another_future".to_owned(), text("kept"));

    let paid_value = object(paid.to_entries());
    assert_eq!(paid_value["currency"], "USD");
    assert_eq!(paid_value["amount"], 1000);
    assert!(paid_value.get("star_amount").is_none());
    assert_eq!(paid_value["future"], kept_value());
    assert_eq!(paid_value["another_future"], "kept");

    let mut refunded = SuggestedPostRefunded {
        suggested_post_message: None,
        reason: SuggestedPostRefundReason::from_name("payment_refunded".to_owned()),
        extra: future_extra(),
    };
    refunded.extra.insert("reason".to_owned(), text("post_deleted"));
    refunded.extra.insert("suggested_post_message".to_owned(), message_ref());
    refunded.extra.insert("another_future".to_owned(), text("kept"));

    let refunded_value = object(refunded.to_entries());
    assert_eq!(refunded_value["reason"], "payment_refunded");
    assert!(refunded_value.get("suggested_post_message").is_none());
    assert_eq!(refunded_value["future"], kept_value());
    assert_eq!(refunded_value["another_future"], "kept");
}

#[test]
fn suggested_post_message_is_written_first_when_present() {
    let approved = SuggestedPostApproved {
        suggested_post_message: Some(message_ref()),
        price: Some(SuggestedPostPrice { currency: "XTR".to_owned(), amount: 5, extra: JsonMap::new() }),
        send_date: 30,
        extra: JsonMap::new(),
    };
    let entries = approved.to_entries();
    let keys: Vec<&str> = entries.iter().map(|(k, _)| k.as_str()).collect();
    assert_eq!(keys, vec!["suggested_post_message", "price", "send_date"]);
    let value = object(entries);
    assert_eq!(value["suggested_post_message"]["message_id"], 1);
    assert_eq!(value["price"]["amount"], 5);
}
