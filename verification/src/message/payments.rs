use vstd::prelude::*;

use crate::bot::{opt_text_entry, push_opt_text};
use crate::json::{
    append_extra_fields, flag_entry, is_reserved, keys_reserved, lemma_extra_never_overrides,
    lemma_keys_reserved_append, opt_int_entry, pairs_view, push_entry, push_flag, push_object,
    push_opt_int, visible_extra, JsonMap, JsonValue, JsonView,
};

verus! {

/// Telegram invoice payload.
#[derive(Debug)]
pub struct Invoice {
    pub title: String,
    pub description: String,
    pub start_parameter: String,
    pub currency: String,
    pub total_amount: i64,
    /// Fields of the response that this model does not name.
    pub extra: JsonMap,
}

/// The keys that the typed fields of a `Invoice` occupy.
pub open spec fn invoice_reserved() -> Seq<&'static str> {
    seq!["title", "description", "start_parameter", "currency", "total_amount"]
}

fn invoice_reserved_keys() -> (r: [&'static str; 5])
    ensures
        r@ == invoice_reserved(),
{
    let r = ["title", "description", "start_parameter", "currency", "total_amount"];
    assert(r@ =~= invoice_reserved());
    r
}

/// The typed fields of a `Invoice`, in the order they are written.
pub open spec fn invoice_core_entries(m: Invoice) -> Seq<(Seq<char>, JsonView)> {
    seq![("title"@, JsonView::Text(m.title@))]
        + seq![("description"@, JsonView::Text(m.description@))]
        + seq![("start_parameter"@, JsonView::Text(m.start_parameter@))]
        + seq![("currency"@, JsonView::Text(m.currency@))]
        + seq![("total_amount"@, JsonView::Int(m.total_amount))]
}

/// The entries of a serialized `Invoice`: its typed fields, then the extra
/// entries whose key no typed field uses.
pub open spec fn invoice_entries(m: Invoice) -> Seq<(Seq<char>, JsonView)> {
    invoice_core_entries(m) + visible_extra(m.extra.pairs(), invoice_reserved())
}

impl Invoice {
    /// The entries Telegram receives for this value.
    pub fn to_entries(&self) -> (r: Vec<(String, JsonValue)>)
        ensures
            pairs_view(r@) == invoice_entries(*self),
    {
        let mut out: Vec<(String, JsonValue)> = Vec::new();
        assert(pairs_view(out@) =~= Seq::<(Seq<char>, JsonView)>::empty());
        push_entry(&mut out, "title", JsonValue::Text(self.title.clone()));
        push_entry(&mut out, "description", JsonValue::Text(self.description.clone()));
        push_entry(&mut out, "start_parameter", JsonValue::Text(self.start_parameter.clone()));
        push_entry(&mut out, "currency", JsonValue::Text(self.currency.clone()));
        push_entry(&mut out, "total_amount", JsonValue::Int(self.total_amount));
        let reserved = invoice_reserved_keys();
        append_extra_fields(&mut out, &self.extra, &reserved);
        assert(pairs_view(out@) =~= invoice_entries(*self));
        out
    }
}

proof fn lemma_invoice_core_keys_reserved(m: Invoice)
    ensures
        keys_reserved(invoice_core_entries(m), invoice_reserved()),
{
    let r = invoice_reserved();
    assert(r[0]@ == "title"@);
    assert(keys_reserved(seq![("title"@, JsonView::Text(m.title@))], r));
    assert(r[1]@ == "description"@);
    assert(keys_reserved(seq![("description"@, JsonView::Text(m.description@))], r));
    lemma_keys_reserved_append(seq![("title"@, JsonView::Text(m.title@))], seq![("description"@, JsonView::Text(m.description@))], r);
    assert(r[2]@ == "start_parameter"@);
    assert(keys_reserved(seq![("start_parameter"@, JsonView::Text(m.start_parameter@))], r));
    lemma_keys_reserved_append(seq![("title"@, JsonView::Text(m.title@))] + seq![("description"@, JsonView::Text(m.description@))], seq![("start_parameter"@, JsonView::Text(m.start_parameter@))], r);
    assert(r[3]@ == "currency"@);
    assert(keys_reserved(seq![("currency"@, JsonView::Text(m.currency@))], r));
    lemma_keys_reserved_append(seq![("title"@, JsonView::Text(m.title@))] + seq![("description"@, JsonView::Text(m.description@))] + seq![("start_parameter"@, JsonView::Text(m.start_parameter@))], seq![("currency"@, JsonView::Text(m.currency@))], r);
    assert(r[4]@ == "total_amount"@);
    assert(keys_reserved(seq![("total_amount"@, JsonView::Int(m.total_amount))], r));
    lemma_keys_reserved_append(seq![("title"@, JsonView::Text(m.title@))] + seq![("description"@, JsonView::Text(m.description@))] + seq![("start_parameter"@, JsonView::Text(m.start_parameter@))] + seq![("currency"@, JsonView::Text(m.currency@))], seq![("total_amount"@, JsonView::Int(m.total_amount))], r);
}

/// In a serialized `Invoice`, the entries under its own keys are exactly its
/// typed fields, and every extra entry under another key is kept: an extra
/// field never replaces a typed one.
pub proof fn lemma_invoice_extra_cannot_override(m: Invoice)
    ensures
        forall|i: int|
            0 <= i < invoice_entries(m).len() ==> (is_reserved(
                #[trigger] invoice_entries(m)[i].0,
                invoice_reserved(),
            ) <==> i < invoice_core_entries(m).len()),
        forall|j: int|
            0 <= j < m.extra.pairs().len() && !is_reserved(#[trigger] m.extra.pairs()[j].0@, invoice_reserved())
                ==> invoice_entries(m).contains((m.extra.pairs()[j].0@, m.extra.pairs()[j].1.json())),
{
    lemma_invoice_core_keys_reserved(m);
    lemma_extra_never_overrides(invoice_core_entries(m), m.extra.pairs(), invoice_reserved());
}

/// Telegram shipping address payload.
#[derive(Debug)]
pub struct ShippingAddress {
    pub country_code: String,
    pub state: String,
    pub city: String,
    pub street_line1: String,
    pub street_line2: String,
    pub post_code: String,
    /// Fields of the response that this model does not name.
    pub extra: JsonMap,
}

/// The keys that the typed fields of a `ShippingAddress` occupy.
pub open spec fn shipping_address_reserved() -> Seq<&'static str> {
    seq!["country_code", "state", "city", "street_line1", "street_line2", "post_code"]
}

fn shipping_address_reserved_keys() -> (r: [&'static str; 6])
    ensures
        r@ == shipping_address_reserved(),
{
    let r = ["country_code", "state", "city", "street_line1", "street_line2", "post_code"];
    assert(r@ =~= shipping_address_reserved());
    r
}

/// The typed fields of a `ShippingAddress`, in the order they are written.
pub open spec fn shipping_address_core_entries(m: ShippingAddress) -> Seq<(Seq<char>, JsonView)> {
    seq![("country_code"@, JsonView::Text(m.country_code@))]
        + seq![("state"@, JsonView::Text(m.state@))]
        + seq![("city"@, JsonView::Text(m.city@))]
        + seq![("street_line1"@, JsonView::Text(m.street_line1@))]
        + seq![("street_line2"@, JsonView::Text(m.street_line2@))]
        + seq![("post_code"@, JsonView::Text(m.post_code@))]
}

/// The entries of a serialized `ShippingAddress`: its typed fields, then the extra
/// entries whose key no typed field uses.
pub open spec fn shipping_address_entries(m: ShippingAddress) -> Seq<(Seq<char>, JsonView)> {
    shipping_address_core_entries(m) + visible_extra(m.extra.pairs(), shipping_address_reserved())
}

impl ShippingAddress {
    /// The entries Telegram receives for this value.
    pub fn to_entries(&self) -> (r: Vec<(String, JsonValue)>)
        ensures
            pairs_view(r@) == shipping_address_entries(*self),
    {
        let mut out: Vec<(String, JsonValue)> = Vec::new();
        assert(pairs_view(out@) =~= Seq::<(Seq<char>, JsonView)>::empty());
        push_entry(&mut out, "country_code", JsonValue::Text(self.country_code.clone()));
        push_entry(&mut out, "state", JsonValue::Text(self.state.clone()));
        push_entry(&mut out, "city", JsonValue::Text(self.city.clone()));
        push_entry(&mut out, "street_line1", JsonValue::Text(self.street_line1.clone()));
        push_entry(&mut out, "street_line2", JsonValue::Text(self.street_line2.clone()));
        push_entry(&mut out, "post_code", JsonValue::Text(self.post_code.clone()));
        let reserved = shipping_address_reserved_keys();
        append_extra_fields(&mut out, &self.extra, &reserved);
        assert(pairs_view(out@) =~= shipping_address_entries(*self));
        out
    }
}

proof fn lemma_shipping_address_core_keys_reserved(m: ShippingAddress)
    ensures
        keys_reserved(shipping_address_core_entries(m), shipping_address_reserved()),
{
    let r = shipping_address_reserved();
    assert(r[0]@ == "country_code"@);
    assert(keys_reserved(seq![("country_code"@, JsonView::Text(m.country_code@))], r));
    assert(r[1]@ == "state"@);
    assert(keys_reserved(seq![("state"@, JsonView::Text(m.state@))], r));
    lemma_keys_reserved_append(seq![("country_code"@, JsonView::Text(m.country_code@))], seq![("state"@, JsonView::Text(m.state@))], r);
    assert(r[2]@ == "city"@);
    assert(keys_reserved(seq![("city"@, JsonView::Text(m.city@))], r));
    lemma_keys_reserved_append(seq![("country_code"@, JsonView::Text(m.country_code@))] + seq![("state"@, JsonView::Text(m.state@))], seq![("city"@, JsonView::Text(m.city@))], r);
    assert(r[3]@ == "street_line1"@);
    assert(keys_reserved(seq![("street_line1"@, JsonView::Text(m.street_line1@))], r));
    lemma_keys_reserved_append(seq![("country_code"@, JsonView::Text(m.country_code@))] + seq![("state"@, JsonView::Text(m.state@))] + seq![("city"@, JsonView::Text(m.city@))], seq![("street_line1"@, JsonView::Text(m.street_line1@))], r);
    assert(r[4]@ == "street_line2"@);
    assert(keys_reserved(seq![("street_line2"@, JsonView::Text(m.street_line2@))], r));
    lemma_keys_reserved_append(seq![("country_code"@, JsonView::Text(m.country_code@))] + seq![("state"@, JsonView::Text(m.state@))] + seq![("city"@, JsonView::Text(m.city@))] + seq![("street_line1"@, JsonView::Text(m.street_line1@))], seq![("street_line2"@, JsonView::Text(m.street_line2@))], r);
    assert(r[5]@ == "post_code"@);
    assert(keys_reserved(seq![("post_code"@, JsonView::Text(m.post_code@))], r));
    lemma_keys_reserved_append(seq![("country_code"@, JsonView::Text(m.country_code@))] + seq![("state"@, JsonView::Text(m.state@))] + seq![("city"@, JsonView::Text(m.city@))] + seq![("street_line1"@, JsonView::Text(m.street_line1@))] + seq![("street_line2"@, JsonView::Text(m.street_line2@))], seq![("post_code"@, JsonView::Text(m.post_code@))], r);
}

/// In a serialized `ShippingAddress`, the entries under its own keys are exactly its
/// typed fields, and every extra entry under another key is kept: an extra
/// field never replaces a typed one.
pub proof fn lemma_shipping_address_extra_cannot_override(m: ShippingAddress)
    ensures
        forall|i: int|
            0 <= i < shipping_address_entries(m).len() ==> (is_reserved(
                #[trigger] shipping_address_entries(m)[i].0,
                shipping_address_reserved(),
            ) <==> i < shipping_address_core_entries(m).len()),
        forall|j: int|
            0 <= j < m.extra.pairs().len() && !is_reserved(#[trigger] m.extra.pairs()[j].0@, shipping_address_reserved())
                ==> shipping_address_entries(m).contains((m.extra.pairs()[j].0@, m.extra.pairs()[j].1.json())),
{
    lemma_shipping_address_core_keys_reserved(m);
    lemma_extra_never_overrides(shipping_address_core_entries(m), m.extra.pairs(), shipping_address_reserved());
}

/// Telegram order info payload.
#[derive(Debug)]
pub struct OrderInfo {
    pub name: Option<String>,
    pub phone_number: Option<String>,
    pub email: Option<String>,
    pub shipping_address: Option<ShippingAddress>,
    /// Fields of the response that this model does not name.
    pub extra: JsonMap,
}

/// The keys that the typed fields of a `OrderInfo` occupy.
pub open spec fn order_info_reserved() -> Seq<&'static str> {
    seq!["name", "phone_number", "email", "shipping_address"]
}

fn order_info_reserved_keys() -> (r: [&'static str; 4])
    ensures
        r@ == order_info_reserved(),
{
    let r = ["name", "phone_number", "email", "shipping_address"];
    assert(r@ =~= order_info_reserved());
    r
}

/// The typed fields of a `OrderInfo`, in the order they are written.
pub open spec fn order_info_core_entries(m: OrderInfo) -> Seq<(Seq<char>, JsonView)> {
    opt_text_entry("name"@, m.name)
        + opt_text_entry("phone_number"@, m.phone_number)
        + opt_text_entry("email"@, m.email)
        + match m.shipping_address { Some(v) => seq![("shipping_address"@, JsonView::Object(shipping_address_entries(v)))], None => Seq::empty() }
}

/// The entries of a serialized `OrderInfo`: its typed fields, then the extra
/// entries whose key no typed field uses.
pub open spec fn order_info_entries(m: OrderInfo) -> Seq<(Seq<char>, JsonView)> {
    order_info_core_entries(m) + visible_extra(m.extra.pairs(), order_info_reserved())
}

impl OrderInfo {
    /// The entries Telegram receives for this value.
    pub fn to_entries(&self) -> (r: Vec<(String, JsonValue)>)
        ensures
            pairs_view(r@) == order_info_entries(*self),
    {
        let mut out: Vec<(String, JsonValue)> = Vec::new();
        assert(pairs_view(out@) =~= Seq::<(Seq<char>, JsonView)>::empty());
        push_opt_text(&mut out, "name", &self.name);
        push_opt_text(&mut out, "phone_number", &self.phone_number);
        push_opt_text(&mut out, "email", &self.email);
        if let Some(v) = &self.shipping_address { push_object(&mut out, "shipping_address", v.to_entries()); }
        let reserved = order_info_reserved_keys();
        append_extra_fields(&mut out, &self.extra, &reserved);
        assert(pairs_view(out@) =~= order_info_entries(*self));
        out
    }
}

proof fn lemma_order_info_core_keys_reserved(m: OrderInfo)
    ensures
        keys_reserved(order_info_core_entries(m), order_info_reserved()),
{
    let r = order_info_reserved();
    assert(r[0]@ == "name"@);
    assert(keys_reserved(opt_text_entry("name"@, m.name), r));
    assert(r[1]@ == "phone_number"@);
    assert(keys_reserved(opt_text_entry("phone_number"@, m.phone_number), r));
    lemma_keys_reserved_append(opt_text_entry("name"@, m.name), opt_text_entry("phone_number"@, m.phone_number), r);
    assert(r[2]@ == "email"@);
    assert(keys_reserved(opt_text_entry("email"@, m.email), r));
    lemma_keys_reserved_append(opt_text_entry("name"@, m.name) + opt_text_entry("phone_number"@, m.phone_number), opt_text_entry("email"@, m.email), r);
    assert(r[3]@ == "shipping_address"@);
    assert(keys_reserved(match m.shipping_address { Some(v) => seq![("shipping_address"@, JsonView::Object(shipping_address_entries(v)))], None => Seq::empty() }, r));
    lemma_keys_reserved_append(opt_text_entry("name"@, m.name) + opt_text_entry("phone_number"@, m.phone_number) + opt_text_entry("email"@, m.email), match m.shipping_address { Some(v) => seq![("shipping_address"@, JsonView::Object(shipping_address_entries(v)))], None => Seq::empty() }, r);
}

/// In a serialized `OrderInfo`, the entries under its own keys are exactly its
/// typed fields, and every extra entry under another key is kept: an extra
/// field never replaces a typed one.
pub proof fn lemma_order_info_extra_cannot_override(m: OrderInfo)
    ensures
        forall|i: int|
            0 <= i < order_info_entries(m).len() ==> (is_reserved(
                #[trigger] order_info_entries(m)[i].0,
                order_info_reserved(),
            ) <==> i < order_info_core_entries(m).len()),
        forall|j: int|
            0 <= j < m.extra.pairs().len() && !is_reserved(#[trigger] m.extra.pairs()[j].0@, order_info_reserved())
                ==> order_info_entries(m).contains((m.extra.pairs()[j].0@, m.extra.pairs()[j].1.json())),
{
    lemma_order_info_core_keys_reserved(m);
    lemma_extra_never_overrides(order_info_core_entries(m), m.extra.pairs(), order_info_reserved());
}

/// Telegram successful payment payload.
#[derive(Debug)]
pub struct SuccessfulPayment {
    pub currency: String,
    pub total_amount: i64,
    pub invoice_payload: String,
    pub subscription_expiration_date: Option<i64>,
    pub is_recurring: bool,
    pub is_first_recurring: bool,
    pub shipping_option_id: Option<String>,
    pub order_info: Option<OrderInfo>,
    pub telegram_payment_charge_id: String,
    pub provider_payment_charge_id: String,
    /// Fields of the response that this model does not name.
    pub extra: JsonMap,
}

/// The keys that the typed fields of a `SuccessfulPayment` occupy.
pub open spec fn successful_payment_reserved() -> Seq<&'static str> {
    seq!["currency", "total_amount", "invoice_payload", "subscription_expiration_date", "is_recurring", "is_first_recurring", "shipping_option_id", "order_info", "telegram_payment_charge_id", "provider_payment_charge_id"]
}

fn successful_payment_reserved_keys() -> (r: [&'static str; 10])
    ensures
        r@ == successful_payment_reserved(),
{
    let r = ["currency", "total_amount", "invoice_payload", "subscription_expiration_date", "is_recurring", "is_first_recurring", "shipping_option_id", "order_info", "telegram_payment_charge_id", "provider_payment_charge_id"];
    assert(r@ =~= successful_payment_reserved());
    r
}

/// The typed fields of a `SuccessfulPayment`, in the order they are written.
pub open spec fn successful_payment_core_entries(m: SuccessfulPayment) -> Seq<(Seq<char>, JsonView)> {
    seq![("currency"@, JsonView::Text(m.currency@))]
        + seq![("total_amount"@, JsonView::Int(m.total_amount))]
        + seq![("invoice_payload"@, JsonView::Text(m.invoice_payload@))]
        + opt_int_entry("subscription_expiration_date"@, m.subscription_expiration_date)
        + flag_entry("is_recurring"@, m.is_recurring)
        + flag_entry("is_first_recurring"@, m.is_first_recurring)
        + opt_text_entry("shipping_option_id"@, m.shipping_option_id)
        + match m.order_info { Some(v) => seq![("order_info"@, JsonView::Object(order_info_entries(v)))], None => Seq::empty() }
        + seq![("telegram_payment_charge_id"@, JsonView::Text(m.telegram_payment_charge_id@))]
        + seq![("provider_payment_charge_id"@, JsonView::Text(m.provider_payment_charge_id@))]
}

/// The entries of a serialized `SuccessfulPayment`: its typed fields, then the extra
/// entries whose key no typed field uses.
pub open spec fn successful_payment_entries(m: SuccessfulPayment) -> Seq<(Seq<char>, JsonView)> {
    successful_payment_core_entries(m) + visible_extra(m.extra.pairs(), successful_payment_reserved())
}

impl SuccessfulPayment {
    /// The entries Telegram receives for this value.
    pub fn to_entries(&self) -> (r: Vec<(String, JsonValue)>)
        ensures
            pairs_view(r@) == successful_payment_entries(*self),
    {
        let mut out: Vec<(String, JsonValue)> = Vec::new();
        assert(pairs_view(out@) =~= Seq::<(Seq<char>, JsonView)>::empty());
        push_entry(&mut out, "currency", JsonValue::Text(self.currency.clone()));
        push_entry(&mut out, "total_amount", JsonValue::Int(self.total_amount));
        push_entry(&mut out, "invoice_payload", JsonValue::Text(self.invoice_payload.clone()));
        push_opt_int(&mut out, "subscription_expiration_date", self.subscription_expiration_date);
        push_flag(&mut out, "is_recurring", self.is_recurring);
        push_flag(&mut out, "is_first_recurring", self.is_first_recurring);
        push_opt_text(&mut out, "shipping_option_id", &self.shipping_option_id);
        if let Some(v) = &self.order_info { push_object(&mut out, "order_info", v.to_entries()); }
        push_entry(&mut out, "telegram_payment_charge_id", JsonValue::Text(self.telegram_payment_charge_id.clone()));
        push_entry(&mut out, "provider_payment_charge_id", JsonValue::Text(self.provider_payment_charge_id.clone()));
        let reserved = successful_payment_reserved_keys();
        append_extra_fields(&mut out, &self.extra, &reserved);
        assert(pairs_view(out@) =~= successful_payment_entries(*self));
        out
    }
}

proof fn lemma_successful_payment_core_keys_reserved(m: SuccessfulPayment)
    ensures
        keys_reserved(successful_payment_core_entries(m), successful_payment_reserved()),
{
    let r = successful_payment_reserved();
    assert(r[0]@ == "currency"@);
    assert(keys_reserved(seq![("currency"@, JsonView::Text(m.currency@))], r));
    assert(r[1]@ == "total_amount"@);
    assert(keys_reserved(seq![("total_amount"@, JsonView::Int(m.total_amount))], r));
    lemma_keys_reserved_append(seq![("currency"@, JsonView::Text(m.currency@))], seq![("total_amount"@, JsonView::Int(m.total_amount))], r);
    assert(r[2]@ == "invoice_payload"@);
    assert(keys_reserved(seq![("invoice_payload"@, JsonView::Text(m.invoice_payload@))], r));
    lemma_keys_reserved_append(seq![("currency"@, JsonView::Text(m.currency@))] + seq![("total_amount"@, JsonView::Int(m.total_amount))], seq![("invoice_payload"@, JsonView::Text(m.invoice_payload@))], r);
    assert(r[3]@ == "subscription_expiration_date"@);
    assert(keys_reserved(opt_int_entry("subscription_expiration_date"@, m.subscription_expiration_date), r));
    lemma_keys_reserved_append(seq![("currency"@, JsonView::Text(m.currency@))] + seq![("total_amount"@, JsonView::Int(m.total_amount))] + seq![("invoice_payload"@, JsonView::Text(m.invoice_payload@))], opt_int_entry("subscription_expiration_date"@, m.subscription_expiration_date), r);
    assert(r[4]@ == "is_recurring"@);
    assert(keys_reserved(flag_entry("is_recurring"@, m.is_recurring), r));
    lemma_keys_reserved_append(seq![("currency"@, JsonView::Text(m.currency@))] + seq![("total_amount"@, JsonView::Int(m.total_amount))] + seq![("invoice_payload"@, JsonView::Text(m.invoice_payload@))] + opt_int_entry("subscription_expiration_date"@, m.subscription_expiration_date), flag_entry("is_recurring"@, m.is_recurring), r);
    assert(r[5]@ == "is_first_recurring"@);
    assert(keys_reserved(flag_entry("is_first_recurring"@, m.is_first_recurring), r));
    lemma_keys_reserved_append(seq![("currency"@, JsonView::Text(m.currency@))] + seq![("total_amount"@, JsonView::Int(m.total_amount))] + seq![("invoice_payload"@, JsonView::Text(m.invoice_payload@))] + opt_int_entry("subscription_expiration_date"@, m.subscription_expiration_date) + flag_entry("is_recurring"@, m.is_recurring), flag_entry("is_first_recurring"@, m.is_first_recurring), r);
    assert(r[6]@ == "shipping_option_id"@);
    assert(keys_reserved(opt_text_entry("shipping_option_id"@, m.shipping_option_id), r));
    lemma_keys_reserved_append(seq![("currency"@, JsonView::Text(m.currency@))] + seq![("total_amount"@, JsonView::Int(m.total_amount))] + seq![("invoice_payload"@, JsonView::Text(m.invoice_payload@))] + opt_int_entry("subscription_expiration_date"@, m.subscription_expiration_date) + flag_entry("is_recurring"@, m.is_recurring) + flag_entry("is_first_recurring"@, m.is_first_recurring), opt_text_entry("shipping_option_id"@, m.shipping_option_id), r);
    assert(r[7]@ == "order_info"@);
    assert(keys_reserved(match m.order_info { Some(v) => seq![("order_info"@, JsonView::Object(order_info_entries(v)))], None => Seq::empty() }, r));
    lemma_keys_reserved_append(seq![("currency"@, JsonView::Text(m.currency@))] + seq![("total_amount"@, JsonView::Int(m.total_amount))] + seq![("invoice_payload"@, JsonView::Text(m.invoice_payload@))] + opt_int_entry("subscription_expiration_date"@, m.subscription_expiration_date) + flag_entry("is_recurring"@, m.is_recurring) + flag_entry("is_first_recurring"@, m.is_first_recurring) + opt_text_entry("shipping_option_id"@, m.shipping_option_id), match m.order_info { Some(v) => seq![("order_info"@, JsonView::Object(order_info_entries(v)))], None => Seq::empty() }, r);
    assert(r[8]@ == "telegram_payment_charge_id"@);
    assert(keys_reserved(seq![("telegram_payment_charge_id"@, JsonView::Text(m.telegram_payment_charge_id@))], r));
    lemma_keys_reserved_append(seq![("currency"@, JsonView::Text(m.currency@))] + seq![("total_amount"@, JsonView::Int(m.total_amount))] + seq![("invoice_payload"@, JsonView::Text(m.invoice_payload@))] + opt_int_entry("subscription_expiration_date"@, m.subscription_expiration_date) + flag_entry("is_recurring"@, m.is_recurring) + flag_entry("is_first_recurring"@, m.is_first_recurring) + opt_text_entry("shipping_option_id"@, m.shipping_option_id) + match m.order_info { Some(v) => seq![("order_info"@, JsonView::Object(order_info_entries(v)))], None => Seq::empty() }, seq![("telegram_payment_charge_id"@, JsonView::Text(m.telegram_payment_charge_id@))], r);
    assert(r[9]@ == "provider_payment_charge_id"@);
    assert(keys_reserved(seq![("provider_payment_charge_id"@, JsonView::Text(m.provider_payment_charge_id@))], r));
    lemma_keys_reserved_append(seq![("currency"@, JsonView::Text(m.currency@))] + seq![("total_amount"@, JsonView::Int(m.total_amount))] + seq![("invoice_payload"@, JsonView::Text(m.invoice_payload@))] + opt_int_entry("subscription_expiration_date"@, m.subscription_expiration_date) + flag_entry("is_recurring"@, m.is_recurring) + flag_entry("is_first_recurring"@, m.is_first_recurring) + opt_text_entry("shipping_option_id"@, m.shipping_option_id) + match m.order_info { Some(v) => seq![("order_info"@, JsonView::Object(order_info_entries(v)))], None => Seq::empty() } + seq![("telegram_payment_charge_id"@, JsonView::Text(m.telegram_payment_charge_id@))], seq![("provider_payment_charge_id"@, JsonView::Text(m.provider_payment_charge_id@))], r);
}

/// In a serialized `SuccessfulPayment`, the entries under its own keys are exactly its
/// typed fields, and every extra entry under another key is kept: an extra
/// field never replaces a typed one.
pub proof fn lemma_successful_payment_extra_cannot_override(m: SuccessfulPayment)
    ensures
        forall|i: int|
            0 <= i < successful_payment_entries(m).len() ==> (is_reserved(
                #[trigger] successful_payment_entries(m)[i].0,
                successful_payment_reserved(),
            ) <==> i < successful_payment_core_entries(m).len()),
        forall|j: int|
            0 <= j < m.extra.pairs().len() && !is_reserved(#[trigger] m.extra.pairs()[j].0@, successful_payment_reserved())
                ==> successful_payment_entries(m).contains((m.extra.pairs()[j].0@, m.extra.pairs()[j].1.json())),
{
    lemma_successful_payment_core_keys_reserved(m);
    lemma_extra_never_overrides(successful_payment_core_entries(m), m.extra.pairs(), successful_payment_reserved());
}

/// Telegram refunded payment payload.
#[derive(Debug)]
pub struct RefundedPayment {
    pub currency: String,
    pub total_amount: i64,
    pub invoice_payload: String,
    pub telegram_payment_charge_id: String,
    pub provider_payment_charge_id: Option<String>,
    /// Fields of the response that this model does not name.
    pub extra: JsonMap,
}

/// The keys that the typed fields of a `RefundedPayment` occupy.
pub open spec fn refunded_payment_reserved() -> Seq<&'static str> {
    seq!["currency", "total_amount", "invoice_payload", "telegram_payment_charge_id", "provider_payment_charge_id"]
}

fn refunded_payment_reserved_keys() -> (r: [&'static str; 5])
    ensures
        r@ == refunded_payment_reserved(),
{
    let r = ["currency", "total_amount", "invoice_payload", "telegram_payment_charge_id", "provider_payment_charge_id"];
    assert(r@ =~= refunded_payment_reserved());
    r
}

/// The typed fields of a `RefundedPayment`, in the order they are written.
pub open spec fn refunded_payment_core_entries(m: RefundedPayment) -> Seq<(Seq<char>, JsonView)> {
    seq![("currency"@, JsonView::Text(m.currency@))]
        + seq![("total_amount"@, JsonView::Int(m.total_amount))]
        + seq![("invoice_payload"@, JsonView::Text(m.invoice_payload@))]
        + seq![("telegram_payment_charge_id"@, JsonView::Text(m.telegram_payment_charge_id@))]
        + opt_text_entry("provider_payment_charge_id"@, m.provider_payment_charge_id)
}

/// The entries of a serialized `RefundedPayment`: its typed fields, then the extra
/// entries whose key no typed field uses.
pub open spec fn refunded_payment_entries(m: RefundedPayment) -> Seq<(Seq<char>, JsonView)> {
    refunded_payment_core_entries(m) + visible_extra(m.extra.pairs(), refunded_payment_reserved())
}

impl RefundedPayment {
    /// The entries Telegram receives for this value.
    pub fn to_entries(&self) -> (r: Vec<(String, JsonValue)>)
        ensures
            pairs_view(r@) == refunded_payment_entries(*self),
    {
        let mut out: Vec<(String, JsonValue)> = Vec::new();
        assert(pairs_view(out@) =~= Seq::<(Seq<char>, JsonView)>::empty());
        push_entry(&mut out, "currency", JsonValue::Text(self.currency.clone()));
        push_entry(&mut out, "total_amount", JsonValue::Int(self.total_amount));
        push_entry(&mut out, "invoice_payload", JsonValue::Text(self.invoice_payload.clone()));
        push_entry(&mut out, "telegram_payment_charge_id", JsonValue::Text(self.telegram_payment_charge_id.clone()));
        push_opt_text(&mut out, "provider_payment_charge_id", &self.provider_payment_charge_id);
        let reserved = refunded_payment_reserved_keys();
        append_extra_fields(&mut out, &self.extra, &reserved);
        assert(pairs_view(out@) =~= refunded_payment_entries(*self));
        out
    }
}

proof fn lemma_refunded_payment_core_keys_reserved(m: RefundedPayment)
    ensures
        keys_reserved(refunded_payment_core_entries(m), refunded_payment_reserved()),
{
    let r = refunded_payment_reserved();
    assert(r[0]@ == "currency"@);
    assert(keys_reserved(seq![("currency"@, JsonView::Text(m.currency@))], r));
    assert(r[1]@ == "total_amount"@);
    assert(keys_reserved(seq![("total_amount"@, JsonView::Int(m.total_amount))], r));
    lemma_keys_reserved_append(seq![("currency"@, JsonView::Text(m.currency@))], seq![("total_amount"@, JsonView::Int(m.total_amount))], r);
    assert(r[2]@ == "invoice_payload"@);
    assert(keys_reserved(seq![("invoice_payload"@, JsonView::Text(m.invoice_payload@))], r));
    lemma_keys_reserved_append(seq![("currency"@, JsonView::Text(m.currency@))] + seq![("total_amount"@, JsonView::Int(m.total_amount))], seq![("invoice_payload"@, JsonView::Text(m.invoice_payload@))], r);
    assert(r[3]@ == "telegram_payment_charge_id"@);
    assert(keys_reserved(seq![("telegram_payment_charge_id"@, JsonView::Text(m.telegram_payment_charge_id@))], r));
    lemma_keys_reserved_append(seq![("currency"@, JsonView::Text(m.currency@))] + seq![("total_amount"@, JsonView::Int(m.total_amount))] + seq![("invoice_payload"@, JsonView::Text(m.invoice_payload@))], seq![("telegram_payment_charge_id"@, JsonView::Text(m.telegram_payment_charge_id@))], r);
    assert(r[4]@ == "provider_payment_charge_id"@);
    assert(keys_reserved(opt_text_entry("provider_payment_charge_id"@, m.provider_payment_charge_id), r));
    lemma_keys_reserved_append(seq![("currency"@, JsonView::Text(m.currency@))] + seq![("total_amount"@, JsonView::Int(m.total_amount))] + seq![("invoice_payload"@, JsonView::Text(m.invoice_payload@))] + seq![("telegram_payment_charge_id"@, JsonView::Text(m.telegram_payment_charge_id@))], opt_text_entry("provider_payment_charge_id"@, m.provider_payment_charge_id), r);
}

/// In a serialized `RefundedPayment`, the entries under its own keys are exactly its
/// typed fields, and every extra entry under another key is kept: an extra
/// field never replaces a typed one.
pub proof fn lemma_refunded_payment_extra_cannot_override(m: RefundedPayment)
    ensures
        forall|i: int|
            0 <= i < refunded_payment_entries(m).len() ==> (is_reserved(
                #[trigger] refunded_payment_entries(m)[i].0,
                refunded_payment_reserved(),
            ) <==> i < refunded_payment_core_entries(m).len()),
        forall|j: int|
            0 <= j < m.extra.pairs().len() && !is_reserved(#[trigger] m.extra.pairs()[j].0@, refunded_payment_reserved())
                ==> refunded_payment_entries(m).contains((m.extra.pairs()[j].0@, m.extra.pairs()[j].1.json())),
{
    lemma_refunded_payment_core_keys_reserved(m);
    lemma_extra_never_overrides(refunded_payment_core_entries(m), m.extra.pairs(), refunded_payment_reserved());
}

/// Telegram amount of Stars.
#[derive(Debug)]
pub struct StarAmount {
    pub amount: i64,
    pub nanostar_amount: Option<i64>,
    /// Fields of the response that this model does not name.
    pub extra: JsonMap,
}

/// The keys that the typed fields of a `StarAmount` occupy.
pub open spec fn star_amount_reserved() -> Seq<&'static str> {
    seq!["amount", "nanostar_amount"]
}

fn star_amount_reserved_keys() -> (r: [&'static str; 2])
    ensures
        r@ == star_amount_reserved(),
{
    let r = ["amount", "nanostar_amount"];
    assert(r@ =~= star_amount_reserved());
    r
}

/// The typed fields of a `StarAmount`, in the order they are written.
pub open spec fn star_amount_core_entries(m: StarAmount) -> Seq<(Seq<char>, JsonView)> {
    seq![("amount"@, JsonView::Int(m.amount))]
        + opt_int_entry("nanostar_amount"@, m.nanostar_amount)
}

/// The entries of a serialized `StarAmount`: its typed fields, then the extra
/// entries whose key no typed field uses.
pub open spec fn star_amount_entries(m: StarAmount) -> Seq<(Seq<char>, JsonView)> {
    star_amount_core_entries(m) + visible_extra(m.extra.pairs(), star_amount_reserved())
}

impl StarAmount {
    /// The entries Telegram receives for this value.
    pub fn to_entries(&self) -> (r: Vec<(String, JsonValue)>)
        ensures
            pairs_view(r@) == star_amount_entries(*self),
    {
        let mut out: Vec<(String, JsonValue)> = Vec::new();
        assert(pairs_view(out@) =~= Seq::<(Seq<char>, JsonView)>::empty());
        push_entry(&mut out, "amount", JsonValue::Int(self.amount));
        push_opt_int(&mut out, "nanostar_amount", self.nanostar_amount);
        let reserved = star_amount_reserved_keys();
        append_extra_fields(&mut out, &self.extra, &reserved);
        assert(pairs_view(out@) =~= star_amount_entries(*self));
        out
    }
}

proof fn lemma_star_amount_core_keys_reserved(m: StarAmount)
    ensures
        keys_reserved(star_amount_core_entries(m), star_amount_reserved()),
{
    let r = star_amount_reserved();
    assert(r[0]@ == "amount"@);
    assert(keys_reserved(seq![("amount"@, JsonView::Int(m.amount))], r));
    assert(r[1]@ == "nanostar_amount"@);
    assert(keys_reserved(opt_int_entry("nanostar_amount"@, m.nanostar_amount), r));
    lemma_keys_reserved_append(seq![("amount"@, JsonView::Int(m.amount))], opt_int_entry("nanostar_amount"@, m.nanostar_amount), r);
}

/// In a serialized `StarAmount`, the entries under its own keys are exactly its
/// typed fields, and every extra entry under another key is kept: an extra
/// field never replaces a typed one.
pub proof fn lemma_star_amount_extra_cannot_override(m: StarAmount)
    ensures
        forall|i: int|
            0 <= i < star_amount_entries(m).len() ==> (is_reserved(
                #[trigger] star_amount_entries(m)[i].0,
                star_amount_reserved(),
            ) <==> i < star_amount_core_entries(m).len()),
        forall|j: int|
            0 <= j < m.extra.pairs().len() && !is_reserved(#[trigger] m.extra.pairs()[j].0@, star_amount_reserved())
                ==> star_amount_entries(m).contains((m.extra.pairs()[j].0@, m.extra.pairs()[j].1.json())),
{
    lemma_star_amount_core_keys_reserved(m);
    lemma_extra_never_overrides(star_amount_core_entries(m), m.extra.pairs(), star_amount_reserved());
}
} // verus!
