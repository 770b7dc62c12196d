use vstd::prelude::*;

use crate::chat_member::{tagged_field, tagged_field_spec};
use crate::json::{JsonMap, JsonValue};
use crate::text::str_eq;
use crate::bot::User;
use crate::message::common::{Chat, MessageEntity};
use crate::message::media::PaidMedia;

verus! {

/// Origin of a unique gift service message.
#[derive(Clone, Debug, PartialEq, Eq, Hash)]
pub enum UniqueGiftOrigin {
    Upgrade,
    Transfer,
    Resale,
    GiftedUpgrade,
    Offer,
    /// A name this model does not know, kept as received.
    Unknown(String),
}

/// The wire name of a `UniqueGiftOrigin`.
pub open spec fn unique_gift_origin_name(kind: UniqueGiftOrigin) -> Seq<char> {
    match kind {
        UniqueGiftOrigin::Upgrade => "upgrade"@,
        UniqueGiftOrigin::Transfer => "transfer"@,
        UniqueGiftOrigin::Resale => "resale"@,
        UniqueGiftOrigin::GiftedUpgrade => "gifted_upgrade"@,
        UniqueGiftOrigin::Offer => "offer"@,
        UniqueGiftOrigin::Unknown(value) => value@,
    }
}

/// The `UniqueGiftOrigin` that a wire name is read as.
pub open spec fn unique_gift_origin_from_name(value: String) -> UniqueGiftOrigin {
    if value@ == "upgrade"@ {
        UniqueGiftOrigin::Upgrade
    } else if value@ == "transfer"@ {
        UniqueGiftOrigin::Transfer
    } else if value@ == "resale"@ {
        UniqueGiftOrigin::Resale
    } else if value@ == "gifted_upgrade"@ {
        UniqueGiftOrigin::GiftedUpgrade
    } else if value@ == "offer"@ {
        UniqueGiftOrigin::Offer
    } else {
        UniqueGiftOrigin::Unknown(value)
    }
}

impl UniqueGiftOrigin {
    pub fn as_str(&self) -> (r: &str)
        ensures
            r@ == unique_gift_origin_name(*self),
    {
        match self {
            UniqueGiftOrigin::Upgrade => "upgrade",
            UniqueGiftOrigin::Transfer => "transfer",
            UniqueGiftOrigin::Resale => "resale",
            UniqueGiftOrigin::GiftedUpgrade => "gifted_upgrade",
            UniqueGiftOrigin::Offer => "offer",
            UniqueGiftOrigin::Unknown(value) => value.as_str(),
        }
    }

    /// Reads a wire name; a name this model does not know is kept as `Unknown`.
    pub fn from_name(value: String) -> (r: Self)
        ensures
            r == unique_gift_origin_from_name(value),
    {
        if str_eq(value.as_str(), "upgrade") {
            UniqueGiftOrigin::Upgrade
        } else if str_eq(value.as_str(), "transfer") {
            UniqueGiftOrigin::Transfer
        } else if str_eq(value.as_str(), "resale") {
            UniqueGiftOrigin::Resale
        } else if str_eq(value.as_str(), "gifted_upgrade") {
            UniqueGiftOrigin::GiftedUpgrade
        } else if str_eq(value.as_str(), "offer") {
            UniqueGiftOrigin::Offer
        } else {
            UniqueGiftOrigin::Unknown(value)
        }
    }
}

/// Reading a wire name and writing it back gives the same text, known or not.
pub proof fn lemma_unique_gift_origin_name_round_trip(value: String)
    ensures
        unique_gift_origin_name(unique_gift_origin_from_name(value)) == value@,
{
}

/// A known `UniqueGiftOrigin` is read back from its own wire name.
pub proof fn lemma_unique_gift_origin_known_round_trip(kind: UniqueGiftOrigin, value: String)
    requires
        !(kind is Unknown),
        value@ == unique_gift_origin_name(kind),
    ensures
        unique_gift_origin_from_name(value) == kind,
{
    match kind {
        UniqueGiftOrigin::Upgrade => {
            reveal_strlit("upgrade");
        },
        UniqueGiftOrigin::Transfer => {
            reveal_strlit("transfer");
            reveal_strlit("upgrade");
            assert("transfer"@.len() != "upgrade"@.len());
        },
        UniqueGiftOrigin::Resale => {
            reveal_strlit("resale");
            reveal_strlit("upgrade");
            assert("resale"@.len() != "upgrade"@.len());
            reveal_strlit("transfer");
            assert("resale"@.len() != "transfer"@.len());
        },
        UniqueGiftOrigin::GiftedUpgrade => {
            reveal_strlit("gifted_upgrade");
            reveal_strlit("upgrade");
            assert("gifted_upgrade"@.len() != "upgrade"@.len());
            reveal_strlit("transfer");
            assert("gifted_upgrade"@.len() != "transfer"@.len());
            reveal_strlit("resale");
            assert("gifted_upgrade"@.len() != "resale"@.len());
        },
        UniqueGiftOrigin::Offer => {
            reveal_strlit("offer");
            reveal_strlit("upgrade");
            assert("offer"@.len() != "upgrade"@.len());
            reveal_strlit("transfer");
            assert("offer"@.len() != "transfer"@.len());
            reveal_strlit("resale");
            assert("offer"@.len() != "resale"@.len());
            reveal_strlit("gifted_upgrade");
            assert("offer"@.len() != "gifted_upgrade"@.len());
        },
        UniqueGiftOrigin::Unknown(_) => {},
    }
}
/// Type of transaction with a user.
#[derive(Clone, Debug, PartialEq, Eq, Hash)]
pub enum TransactionKind {
    InvoicePayment,
    PaidMediaPayment,
    GiftPurchase,
    PremiumPurchase,
    BusinessAccountTransfer,
    /// A name this model does not know, kept as received.
    Unknown(String),
}

/// The wire name of a `TransactionKind`.
pub open spec fn transaction_kind_name(kind: TransactionKind) -> Seq<char> {
    match kind {
        TransactionKind::InvoicePayment => "invoice_payment"@,
        TransactionKind::PaidMediaPayment => "paid_media_payment"@,
        TransactionKind::GiftPurchase => "gift_purchase"@,
        TransactionKind::PremiumPurchase => "premium_purchase"@,
        TransactionKind::BusinessAccountTransfer => "business_account_transfer"@,
        TransactionKind::Unknown(value) => value@,
    }
}

/// The `TransactionKind` that a wire name is read as.
pub open spec fn transaction_kind_from_name(value: String) -> TransactionKind {
    if value@ == "invoice_payment"@ {
        TransactionKind::InvoicePayment
    } else if value@ == "paid_media_payment"@ {
        TransactionKind::PaidMediaPayment
    } else if value@ == "gift_purchase"@ {
        TransactionKind::GiftPurchase
    } else if value@ == "premium_purchase"@ {
        TransactionKind::PremiumPurchase
    } else if value@ == "business_account_transfer"@ {
        TransactionKind::BusinessAccountTransfer
    } else {
        TransactionKind::Unknown(value)
    }
}

impl TransactionKind {
    pub fn as_str(&self) -> (r: &str)
        ensures
            r@ == transaction_kind_name(*self),
    {
        match self {
            TransactionKind::InvoicePayment => "invoice_payment",
            TransactionKind::PaidMediaPayment => "paid_media_payment",
            TransactionKind::GiftPurchase => "gift_purchase",
            TransactionKind::PremiumPurchase => "premium_purchase",
            TransactionKind::BusinessAccountTransfer => "business_account_transfer",
            TransactionKind::Unknown(value) => value.as_str(),
        }
    }

    /// Reads a wire name; a name this model does not know is kept as `Unknown`.
    pub fn from_name(value: String) -> (r: Self)
        ensures
            r == transaction_kind_from_name(value),
    {
        if str_eq(value.as_str(), "invoice_payment") {
            TransactionKind::InvoicePayment
        } else if str_eq(value.as_str(), "paid_media_payment") {
            TransactionKind::PaidMediaPayment
        } else if str_eq(value.as_str(), "gift_purchase") {
            TransactionKind::GiftPurchase
        } else if str_eq(value.as_str(), "premium_purchase") {
            TransactionKind::PremiumPurchase
        } else if str_eq(value.as_str(), "business_account_transfer") {
            TransactionKind::BusinessAccountTransfer
        } else {
            TransactionKind::Unknown(value)
        }
    }
}

/// Reading a wire name and writing it back gives the same text, known or not.
pub proof fn lemma_transaction_kind_name_round_trip(value: String)
    ensures
        transaction_kind_name(transaction_kind_from_name(value)) == value@,
{
}

/// A known `TransactionKind` is read back from its own wire name.
pub proof fn lemma_transaction_kind_known_round_trip(kind: TransactionKind, value: String)
    requires
        !(kind is Unknown),
        value@ == transaction_kind_name(kind),
    ensures
        transaction_kind_from_name(value) == kind,
{
    match kind {
        TransactionKind::InvoicePayment => {
            reveal_strlit("invoice_payment");
        },
        TransactionKind::PaidMediaPayment => {
            reveal_strlit("paid_media_payment");
            reveal_strlit("invoice_payment");
            assert("paid_media_payment"@.len() != "invoice_payment"@.len());
        },
        TransactionKind::GiftPurchase => {
            reveal_strlit("gift_purchase");
            reveal_strlit("invoice_payment");
            assert("gift_purchase"@.len() != "invoice_payment"@.len());
            reveal_strlit("paid_media_payment");
            assert("gift_purchase"@.len() != "paid_media_payment"@.len());
        },
        TransactionKind::PremiumPurchase => {
            reveal_strlit("premium_purchase");
            reveal_strlit("invoice_payment");
            assert("premium_purchase"@.len() != "invoice_payment"@.len());
            reveal_strlit("paid_media_payment");
            assert("premium_purchase"@.len() != "paid_media_payment"@.len());
            reveal_strlit("gift_purchase");
            assert("premium_purchase"@.len() != "gift_purchase"@.len());
        },
        TransactionKind::BusinessAccountTransfer => {
            reveal_strlit("business_account_transfer");
            reveal_strlit("invoice_payment");
            assert("business_account_transfer"@.len() != "invoice_payment"@.len());
            reveal_strlit("paid_media_payment");
            assert("business_account_transfer"@.len() != "paid_media_payment"@.len());
            reveal_strlit("gift_purchase");
            assert("business_account_transfer"@.len() != "gift_purchase"@.len());
            reveal_strlit("premium_purchase");
            assert("business_account_transfer"@.len() != "premium_purchase"@.len());
        },
        TransactionKind::Unknown(_) => {},
    }
}
/// A withdrawal that is still in progress.
#[derive(Debug)]
pub struct RevenueWithdrawalStatePending {
    pub extra: JsonMap,
}

/// A withdrawal that went through.
#[derive(Debug)]
pub struct RevenueWithdrawalStateSucceeded {
    pub date: i64,
    pub url: String,
    pub extra: JsonMap,
}

/// A withdrawal that failed.
#[derive(Debug)]
pub struct RevenueWithdrawalStateFailed {
    pub extra: JsonMap,
}

/// State of a revenue withdrawal operation, told apart by its `type` field.
#[derive(Debug)]
pub enum RevenueWithdrawalState {
    Pending(RevenueWithdrawalStatePending),
    Succeeded(Box<RevenueWithdrawalStateSucceeded>),
    Failed(RevenueWithdrawalStateFailed),
    /// A state of a type this model does not know, kept as received.
    Unknown(JsonValue),
}

/// The `type` of a withdrawal state: its variant's name, or for an unknown
/// state the `type` string it was read with.
pub open spec fn withdrawal_state_kind(state: RevenueWithdrawalState) -> Option<Seq<char>> {
    match state {
        RevenueWithdrawalState::Pending(_) => Some("pending"@),
        RevenueWithdrawalState::Succeeded(_) => Some("succeeded"@),
        RevenueWithdrawalState::Failed(_) => Some("failed"@),
        RevenueWithdrawalState::Unknown(value) => tagged_field_spec(value.json(), "type"@),
    }
}

impl RevenueWithdrawalState {
    pub fn kind(&self) -> (r: Option<&str>)
        ensures
            match r {
                Some(s) => withdrawal_state_kind(*self) == Some(s@),
                None => withdrawal_state_kind(*self) is None,
            },
    {
        match self {
            RevenueWithdrawalState::Pending(_) => Some("pending"),
            RevenueWithdrawalState::Succeeded(_) => Some("succeeded"),
            RevenueWithdrawalState::Failed(_) => Some("failed"),
            RevenueWithdrawalState::Unknown(value) => tagged_field(value, "type"),
        }
    }

    pub fn as_pending(&self) -> (r: Option<&RevenueWithdrawalStatePending>)
        ensures
            r == match *self {
                RevenueWithdrawalState::Pending(v) => Some(&v),
                _ => None,
            },
    {
        match self {
            RevenueWithdrawalState::Pending(v) => Some(v),
            _ => None,
        }
    }

    pub fn into_pending(self) -> (r: Option<RevenueWithdrawalStatePending>)
        ensures
            r == match self {
                RevenueWithdrawalState::Pending(v) => Some(v),
                _ => None,
            },
    {
        match self {
            RevenueWithdrawalState::Pending(v) => Some(v),
            _ => None,
        }
    }

    pub fn as_succeeded(&self) -> (r: Option<&RevenueWithdrawalStateSucceeded>)
        ensures
            r == match *self {
                RevenueWithdrawalState::Succeeded(v) => Some(&*v),
                _ => None,
            },
    {
        match self {
            RevenueWithdrawalState::Succeeded(v) => Some(&**v),
            _ => None,
        }
    }

    pub fn into_succeeded(self) -> (r: Option<RevenueWithdrawalStateSucceeded>)
        ensures
            r == match self {
                RevenueWithdrawalState::Succeeded(v) => Some(*v),
                _ => None,
            },
    {
        match self {
            RevenueWithdrawalState::Succeeded(v) => Some(*v),
            _ => None,
        }
    }

    pub fn as_failed(&self) -> (r: Option<&RevenueWithdrawalStateFailed>)
        ensures
            r == match *self {
                RevenueWithdrawalState::Failed(v) => Some(&v),
                _ => None,
            },
    {
        match self {
            RevenueWithdrawalState::Failed(v) => Some(v),
            _ => None,
        }
    }

    pub fn into_failed(self) -> (r: Option<RevenueWithdrawalStateFailed>)
        ensures
            r == match self {
                RevenueWithdrawalState::Failed(v) => Some(v),
                _ => None,
            },
    {
        match self {
            RevenueWithdrawalState::Failed(v) => Some(v),
            _ => None,
        }
    }

    pub fn as_unknown_value(&self) -> (r: Option<&JsonValue>)
        ensures
            r == match *self {
                RevenueWithdrawalState::Unknown(v) => Some(&v),
                _ => None,
            },
    {
        match self {
            RevenueWithdrawalState::Unknown(v) => Some(v),
            _ => None,
        }
    }

    pub fn into_unknown_value(self) -> (r: Option<JsonValue>)
        ensures
            r == match self {
                RevenueWithdrawalState::Unknown(v) => Some(v),
                _ => None,
            },
    {
        match self {
            RevenueWithdrawalState::Unknown(v) => Some(v),
            _ => None,
        }
    }
}

/// Telegram gift background.
#[derive(Debug)]
pub struct GiftBackground {
    pub center_color: u32,
    pub edge_color: u32,
    pub text_color: u32,
    /// Fields of the response that this model does not name.
    pub extra: JsonMap,
}

/// Telegram gift that can be sent by the bot. The sticker is held as the JSON it was read as.
#[derive(Debug)]
pub struct Gift {
    pub id: String,
    pub sticker: JsonValue,
    pub star_count: i64,
    pub upgrade_star_count: Option<i64>,
    pub is_premium: bool,
    pub has_colors: bool,
    pub total_count: Option<i64>,
    pub remaining_count: Option<i64>,
    pub personal_total_count: Option<i64>,
    pub personal_remaining_count: Option<i64>,
    pub background: Option<GiftBackground>,
    pub unique_gift_variant_count: Option<i64>,
    pub publisher_chat: Option<Chat>,
    /// Fields of the response that this model does not name.
    pub extra: JsonMap,
}

/// Telegram list of gifts.
#[derive(Debug)]
pub struct Gifts {
    pub gifts: Vec<Gift>,
    /// Fields of the response that this model does not name.
    pub extra: JsonMap,
}

/// Model of a unique gift. The sticker is held as the JSON it was read as.
#[derive(Debug)]
pub struct UniqueGiftModel {
    pub name: String,
    pub sticker: JsonValue,
    pub rarity_per_mille: u32,
    pub rarity: Option<String>,
    /// Fields of the response that this model does not name.
    pub extra: JsonMap,
}

/// Symbol of a unique gift. The sticker is held as the JSON it was read as.
#[derive(Debug)]
pub struct UniqueGiftSymbol {
    pub name: String,
    pub sticker: JsonValue,
    pub rarity_per_mille: u32,
    /// Fields of the response that this model does not name.
    pub extra: JsonMap,
}

/// RGB color palette of a unique gift backdrop.
#[derive(Debug)]
pub struct UniqueGiftBackdropColors {
    pub center_color: u32,
    pub edge_color: u32,
    pub symbol_color: u32,
    pub text_color: u32,
    /// Fields of the response that this model does not name.
    pub extra: JsonMap,
}

/// Backdrop of a unique gift.
#[derive(Debug)]
pub struct UniqueGiftBackdrop {
    pub name: String,
    pub colors: UniqueGiftBackdropColors,
    pub rarity_per_mille: u32,
    /// Fields of the response that this model does not name.
    pub extra: JsonMap,
}

/// Chat appearance colors unlocked by a unique gift.
#[derive(Debug)]
pub struct UniqueGiftColors {
    pub model_custom_emoji_id: String,
    pub symbol_custom_emoji_id: String,
    pub light_theme_main_color: u32,
    pub light_theme_other_colors: Vec<u32>,
    pub dark_theme_main_color: u32,
    pub dark_theme_other_colors: Vec<u32>,
    /// Fields of the response that this model does not name.
    pub extra: JsonMap,
}

/// Telegram unique gift.
#[derive(Debug)]
pub struct UniqueGift {
    pub gift_id: String,
    pub base_name: String,
    pub name: String,
    pub number: i64,
    pub model: UniqueGiftModel,
    pub symbol: UniqueGiftSymbol,
    pub backdrop: UniqueGiftBackdrop,
    pub is_premium: bool,
    pub is_burned: bool,
    pub is_from_blockchain: bool,
    pub colors: Option<UniqueGiftColors>,
    pub publisher_chat: Option<Chat>,
    /// Fields of the response that this model does not name.
    pub extra: JsonMap,
}

/// Service message payload for a regular gift.
#[derive(Debug)]
pub struct GiftInfo {
    pub gift: Gift,
    pub owned_gift_id: Option<String>,
    pub convert_star_count: Option<i64>,
    pub prepaid_upgrade_star_count: Option<i64>,
    pub is_upgrade_separate: bool,
    pub can_be_upgraded: bool,
    pub text: Option<String>,
    pub entities: Option<Vec<MessageEntity>>,
    pub is_private: bool,
    pub unique_gift_number: Option<i64>,
    /// Fields of the response that this model does not name.
    pub extra: JsonMap,
}

/// Service message payload for a unique gift.
#[derive(Debug)]
pub struct UniqueGiftInfo {
    pub gift: UniqueGift,
    pub origin: UniqueGiftOrigin,
    pub last_resale_currency: Option<String>,
    pub last_resale_amount: Option<i64>,
    pub owned_gift_id: Option<String>,
    pub transfer_star_count: Option<i64>,
    pub next_transfer_date: Option<i64>,
    /// Fields of the response that this model does not name.
    pub extra: JsonMap,
}

/// The affiliate that received a commission from a transaction.
#[derive(Debug)]
pub struct AffiliateInfo {
    pub affiliate_user: Option<User>,
    pub affiliate_chat: Option<Chat>,
    pub commission_per_mille: i64,
    pub amount: i64,
    pub nanostar_amount: Option<i64>,
    /// Fields of the response that this model does not name.
    pub extra: JsonMap,
}

/// A Star transaction with a user.
#[derive(Debug)]
pub struct TransactionPartnerUser {
    pub transaction_type: TransactionKind,
    pub user: User,
    pub affiliate: Option<AffiliateInfo>,
    pub invoice_payload: Option<String>,
    pub subscription_period: Option<i64>,
    pub paid_media: Option<Vec<PaidMedia>>,
    pub paid_media_payload: Option<String>,
    pub gift: Option<Box<Gift>>,
    pub premium_subscription_duration: Option<i64>,
    /// Fields of the response that this model does not name.
    pub extra: JsonMap,
}

/// A Star transaction with a chat.
#[derive(Debug)]
pub struct TransactionPartnerChat {
    pub chat: Chat,
    pub gift: Option<Box<Gift>>,
    /// Fields of the response that this model does not name.
    pub extra: JsonMap,
}

/// A Star transaction with an affiliate program.
#[derive(Debug)]
pub struct TransactionPartnerAffiliateProgram {
    pub sponsor_user: Option<User>,
    pub commission_per_mille: i64,
    /// Fields of the response that this model does not name.
    pub extra: JsonMap,
}

/// A Star transaction with Fragment.
#[derive(Debug)]
pub struct TransactionPartnerFragment {
    pub withdrawal_state: Option<RevenueWithdrawalState>,
    /// Fields of the response that this model does not name.
    pub extra: JsonMap,
}

/// A Star transaction with Telegram Ads.
#[derive(Debug)]
pub struct TransactionPartnerTelegramAds {
    /// Fields of the response that this model does not name.
    pub extra: JsonMap,
}

/// A Star transaction for paid Bot API broadcasting.
#[derive(Debug)]
pub struct TransactionPartnerTelegramApi {
    pub request_count: i64,
    /// Fields of the response that this model does not name.
    pub extra: JsonMap,
}

/// A Star transaction with an unknown source or recipient.
#[derive(Debug)]
pub struct TransactionPartnerOther {
    /// Fields of the response that this model does not name.
    pub extra: JsonMap,
}

/// Source or recipient of a Star transaction, told apart by its `type` field.
#[derive(Debug)]
pub enum TransactionPartner {
    User(Box<TransactionPartnerUser>),
    Chat(Box<TransactionPartnerChat>),
    AffiliateProgram(Box<TransactionPartnerAffiliateProgram>),
    Fragment(Box<TransactionPartnerFragment>),
    TelegramAds(TransactionPartnerTelegramAds),
    TelegramApi(Box<TransactionPartnerTelegramApi>),
    Other(TransactionPartnerOther),
    /// A value of a type this model does not know, kept as received.
    Unknown(JsonValue),
}

/// The `type` of a `TransactionPartner`: its variant's name, or for an unknown value the
/// `type` string it was read with.
pub open spec fn transaction_partner_kind(value: TransactionPartner) -> Option<Seq<char>> {
    match value {
        TransactionPartner::User(_) => Some("user"@),
        TransactionPartner::Chat(_) => Some("chat"@),
        TransactionPartner::AffiliateProgram(_) => Some("affiliate_program"@),
        TransactionPartner::Fragment(_) => Some("fragment"@),
        TransactionPartner::TelegramAds(_) => Some("telegram_ads"@),
        TransactionPartner::TelegramApi(_) => Some("telegram_api"@),
        TransactionPartner::Other(_) => Some("other"@),
        TransactionPartner::Unknown(v) => tagged_field_spec(v.json(), "type"@),
    }
}

impl TransactionPartner {
    pub fn kind(&self) -> (r: Option<&str>)
        ensures
            match r {
                Some(s) => transaction_partner_kind(*self) == Some(s@),
                None => transaction_partner_kind(*self) is None,
            },
    {
        match self {
            TransactionPartner::User(_) => Some("user"),
            TransactionPartner::Chat(_) => Some("chat"),
            TransactionPartner::AffiliateProgram(_) => Some("affiliate_program"),
            TransactionPartner::Fragment(_) => Some("fragment"),
            TransactionPartner::TelegramAds(_) => Some("telegram_ads"),
            TransactionPartner::TelegramApi(_) => Some("telegram_api"),
            TransactionPartner::Other(_) => Some("other"),
            TransactionPartner::Unknown(value) => tagged_field(value, "type"),
        }
    }

    pub fn as_user(&self) -> (r: Option<&TransactionPartnerUser>)
        ensures
            r == match *self {
                TransactionPartner::User(v) => Some(&*v),
                _ => None,
            },
    {
        match self {
            TransactionPartner::User(v) => Some(&**v),
            _ => None,
        }
    }

    pub fn into_user(self) -> (r: Option<TransactionPartnerUser>)
        ensures
            r == match self {
                TransactionPartner::User(v) => Some(*v),
                _ => None,
            },
    {
        match self {
            TransactionPartner::User(v) => Some(*v),
            _ => None,
        }
    }

    pub fn as_chat(&self) -> (r: Option<&TransactionPartnerChat>)
        ensures
            r == match *self {
                TransactionPartner::Chat(v) => Some(&*v),
                _ => None,
            },
    {
        match self {
            TransactionPartner::Chat(v) => Some(&**v),
            _ => None,
        }
    }

    pub fn into_chat(self) -> (r: Option<TransactionPartnerChat>)
        ensures
            r == match self {
                TransactionPartner::Chat(v) => Some(*v),
                _ => None,
            },
    {
        match self {
            TransactionPartner::Chat(v) => Some(*v),
            _ => None,
        }
    }

    pub fn as_affiliate_program(&self) -> (r: Option<&TransactionPartnerAffiliateProgram>)
        ensures
            r == match *self {
                TransactionPartner::AffiliateProgram(v) => Some(&*v),
                _ => None,
            },
    {
        match self {
            TransactionPartner::AffiliateProgram(v) => Some(&**v),
            _ => None,
        }
    }

    pub fn into_affiliate_program(self) -> (r: Option<TransactionPartnerAffiliateProgram>)
        ensures
            r == match self {
                TransactionPartner::AffiliateProgram(v) => Some(*v),
                _ => None,
            },
    {
        match self {
            TransactionPartner::AffiliateProgram(v) => Some(*v),
            _ => None,
        }
    }

    pub fn as_fragment(&self) -> (r: Option<&TransactionPartnerFragment>)
        ensures
            r == match *self {
                TransactionPartner::Fragment(v) => Some(&*v),
                _ => None,
            },
    {
        match self {
            TransactionPartner::Fragment(v) => Some(&**v),
            _ => None,
        }
    }

    pub fn into_fragment(self) -> (r: Option<TransactionPartnerFragment>)
        ensures
            r == match self {
                TransactionPartner::Fragment(v) => Some(*v),
                _ => None,
            },
    {
        match self {
            TransactionPartner::Fragment(v) => Some(*v),
            _ => None,
        }
    }

    pub fn as_telegram_ads(&self) -> (r: Option<&TransactionPartnerTelegramAds>)
        ensures
            r == match *self {
                TransactionPartner::TelegramAds(v) => Some(&v),
                _ => None,
            },
    {
        match self {
            TransactionPartner::TelegramAds(v) => Some(v),
            _ => None,
        }
    }

    pub fn into_telegram_ads(self) -> (r: Option<TransactionPartnerTelegramAds>)
        ensures
            r == match self {
                TransactionPartner::TelegramAds(v) => Some(v),
                _ => None,
            },
    {
        match self {
            TransactionPartner::TelegramAds(v) => Some(v),
            _ => None,
        }
    }

    pub fn as_telegram_api(&self) -> (r: Option<&TransactionPartnerTelegramApi>)
        ensures
            r == match *self {
                TransactionPartner::TelegramApi(v) => Some(&*v),
                _ => None,
            },
    {
        match self {
            TransactionPartner::TelegramApi(v) => Some(&**v),
            _ => None,
        }
    }

    pub fn into_telegram_api(self) -> (r: Option<TransactionPartnerTelegramApi>)
        ensures
            r == match self {
                TransactionPartner::TelegramApi(v) => Some(*v),
                _ => None,
            },
    {
        match self {
            TransactionPartner::TelegramApi(v) => Some(*v),
            _ => None,
        }
    }

    pub fn as_other(&self) -> (r: Option<&TransactionPartnerOther>)
        ensures
            r == match *self {
                TransactionPartner::Other(v) => Some(&v),
                _ => None,
            },
    {
        match self {
            TransactionPartner::Other(v) => Some(v),
            _ => None,
        }
    }

    pub fn into_other(self) -> (r: Option<TransactionPartnerOther>)
        ensures
            r == match self {
                TransactionPartner::Other(v) => Some(v),
                _ => None,
            },
    {
        match self {
            TransactionPartner::Other(v) => Some(v),
            _ => None,
        }
    }

    pub fn as_unknown_value(&self) -> (r: Option<&JsonValue>)
        ensures
            r == match *self {
                TransactionPartner::Unknown(v) => Some(&v),
                _ => None,
            },
    {
        match self {
            TransactionPartner::Unknown(v) => Some(v),
            _ => None,
        }
    }

    pub fn into_unknown_value(self) -> (r: Option<JsonValue>)
        ensures
            r == match self {
                TransactionPartner::Unknown(v) => Some(v),
                _ => None,
            },
    {
        match self {
            TransactionPartner::Unknown(v) => Some(v),
            _ => None,
        }
    }
}

/// A Telegram Star transaction.
#[derive(Debug)]
pub struct StarTransaction {
    pub id: String,
    pub amount: i64,
    pub nanostar_amount: Option<i64>,
    pub date: i64,
    pub source: Option<TransactionPartner>,
    pub receiver: Option<TransactionPartner>,
    /// Fields of the response that this model does not name.
    pub extra: JsonMap,
}

/// A list of Telegram Star transactions.
#[derive(Debug)]
pub struct StarTransactions {
    pub transactions: Vec<StarTransaction>,
    /// Fields of the response that this model does not name.
    pub extra: JsonMap,
}

/// A regular gift owned by a user or a chat.
#[derive(Debug)]
pub struct OwnedGiftRegular {
    pub gift: Gift,
    pub owned_gift_id: Option<String>,
    pub sender_user: Option<User>,
    pub send_date: i64,
    pub text: Option<String>,
    pub entities: Option<Vec<MessageEntity>>,
    pub is_private: bool,
    pub is_saved: bool,
    pub can_be_upgraded: bool,
    pub was_refunded: bool,
    pub convert_star_count: Option<i64>,
    pub prepaid_upgrade_star_count: Option<i64>,
    pub is_upgrade_separate: bool,
    pub unique_gift_number: Option<i64>,
    /// Fields of the response that this model does not name.
    pub extra: JsonMap,
}

/// A unique gift owned by a user or a chat.
#[derive(Debug)]
pub struct OwnedGiftUnique {
    pub gift: UniqueGift,
    pub owned_gift_id: Option<String>,
    pub sender_user: Option<User>,
    pub send_date: i64,
    pub is_saved: bool,
    pub can_be_transferred: bool,
    pub transfer_star_count: Option<i64>,
    pub next_transfer_date: Option<i64>,
    /// Fields of the response that this model does not name.
    pub extra: JsonMap,
}

/// A gift owned by a user or a chat, told apart by its `type` field.
#[derive(Debug)]
pub enum OwnedGift {
    Regular(Box<OwnedGiftRegular>),
    Unique(Box<OwnedGiftUnique>),
    /// A value of a type this model does not know, kept as received.
    Unknown(JsonValue),
}

/// The `type` of a `OwnedGift`: its variant's name, or for an unknown value the
/// `type` string it was read with.
pub open spec fn owned_gift_kind(value: OwnedGift) -> Option<Seq<char>> {
    match value {
        OwnedGift::Regular(_) => Some("regular"@),
        OwnedGift::Unique(_) => Some("unique"@),
        OwnedGift::Unknown(v) => tagged_field_spec(v.json(), "type"@),
    }
}

impl OwnedGift {
    pub fn kind(&self) -> (r: Option<&str>)
        ensures
            match r {
                Some(s) => owned_gift_kind(*self) == Some(s@),
                None => owned_gift_kind(*self) is None,
            },
    {
        match self {
            OwnedGift::Regular(_) => Some("regular"),
            OwnedGift::Unique(_) => Some("unique"),
            OwnedGift::Unknown(value) => tagged_field(value, "type"),
        }
    }

    pub fn is_regular(&self) -> (r: bool)
        ensures
            r == (*self is Regular),
    {
        matches!(self, OwnedGift::Regular(_))
    }

    pub fn as_regular(&self) -> (r: Option<&OwnedGiftRegular>)
        ensures
            r == match *self {
                OwnedGift::Regular(v) => Some(&*v),
                _ => None,
            },
    {
        match self {
            OwnedGift::Regular(v) => Some(&**v),
            _ => None,
        }
    }

    pub fn into_regular(self) -> (r: Option<OwnedGiftRegular>)
        ensures
            r == match self {
                OwnedGift::Regular(v) => Some(*v),
                _ => None,
            },
    {
        match self {
            OwnedGift::Regular(v) => Some(*v),
            _ => None,
        }
    }

    pub fn is_unique(&self) -> (r: bool)
        ensures
            r == (*self is Unique),
    {
        matches!(self, OwnedGift::Unique(_))
    }

    pub fn as_unique(&self) -> (r: Option<&OwnedGiftUnique>)
        ensures
            r == match *self {
                OwnedGift::Unique(v) => Some(&*v),
                _ => None,
            },
    {
        match self {
            OwnedGift::Unique(v) => Some(&**v),
            _ => None,
        }
    }

    pub fn into_unique(self) -> (r: Option<OwnedGiftUnique>)
        ensures
            r == match self {
                OwnedGift::Unique(v) => Some(*v),
                _ => None,
            },
    {
        match self {
            OwnedGift::Unique(v) => Some(*v),
            _ => None,
        }
    }

    pub fn as_unknown_value(&self) -> (r: Option<&JsonValue>)
        ensures
            r == match *self {
                OwnedGift::Unknown(v) => Some(&v),
                _ => None,
            },
    {
        match self {
            OwnedGift::Unknown(v) => Some(v),
            _ => None,
        }
    }

    pub fn into_unknown_value(self) -> (r: Option<JsonValue>)
        ensures
            r == match self {
                OwnedGift::Unknown(v) => Some(v),
                _ => None,
            },
    {
        match self {
            OwnedGift::Unknown(v) => Some(v),
            _ => None,
        }
    }
}

/// A list of gifts owned by a user or a chat.
#[derive(Debug)]
pub struct OwnedGifts {
    pub total_count: u64,
    pub gifts: Vec<OwnedGift>,
    pub next_offset: Option<String>,
    /// Fields of the response that this model does not name.
    pub extra: JsonMap,
}

} // verus!
