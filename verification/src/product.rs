//! Products and their pricing terms, as the store reports them.

use vstd::prelude::*;
use vstd::string::*;
use crate::json::{
    find_present, item_views, lemma_array_view, member_views, object_of, present, Json, JsonView,
    Member,
};
use crate::schema::{
    collect, fitting, i32_json, lemma_collect_error, lemma_collect_step, number_json,
    optional_field, optional_i32, optional_i32_json, optional_i32_of, optional_i32_value,
    optional_number, optional_number_json, optional_number_of, optional_number_value,
    optional_text, optional_text_json, optional_text_of, optional_text_value, optional_view,
    required, required_field, required_i32, required_i32_of, required_number, required_number_of,
    required_text, required_text_of, text_json, text_of, text_view, DecodeError, DecodeErrorView,
    ObjectBuilder,
};
use crate::text::{integer_text, is_number, is_number_literal, str_eq};

verus! {

/// The unit in which a pricing period is counted.
#[derive(Debug, Clone, Copy, PartialEq, Eq)]
pub enum IPeriodUnit {
    Minute,
    Hour,
    Day,
    Week,
    Month,
    Year,
}

/// How the price of an offer is paid.
#[derive(Debug, Clone, Copy, PartialEq, Eq)]
pub enum PaymentMode {
    PayAsYouGo,
    UpFront,
    FreeTrial,
}

/// The kind of a discount.
#[derive(Debug, Clone, Copy, PartialEq, Eq)]
pub enum DiscountType {
    Introductory,
    Subscription,
}

/// A discount offered on a product.
///
/// `price_micros` holds the literal of the number that was reported: see
/// [`Discount::wf`].
#[derive(Debug, Clone, PartialEq, Eq)]
pub struct Discount {
    pub id: String,
    /// The kind, written under the key `type`.
    pub kind: DiscountType,
    pub price: String,
    pub price_micros: String,
    pub period: i32,
    pub period_unit: IPeriodUnit,
    pub payment_mode: PaymentMode,
}

/// A product of the store.
///
/// `price_micros` and `intro_price_micros` hold the literal of the number
/// that was reported, and the five introductory-price fields are given
/// together or not at all: see [`Product::wf`].
#[derive(Debug, Clone, PartialEq, Eq)]
pub struct Product {
    pub id: String,
    pub title: String,
    pub description: String,
    pub price: String,
    pub price_micros: String,
    pub currency: String,
    pub country_code: Option<String>,
    pub currency_symbol: Option<String>,
    pub intro_price: Option<String>,
    pub intro_price_micros: Option<String>,
    pub intro_price_period: Option<i32>,
    pub intro_price_period_unit: Option<IPeriodUnit>,
    pub intro_price_payment_mode: Option<PaymentMode>,
    pub discounts: Option<Vec<Discount>>,
    pub group: Option<String>,
    pub billing_period: Option<i32>,
    pub billing_period_unit: Option<IPeriodUnit>,
}

/// The model of a [`Discount`].
pub struct DiscountView {
    pub id: Seq<char>,
    pub kind: DiscountType,
    pub price: Seq<char>,
    pub price_micros: Seq<char>,
    pub period: i32,
    pub period_unit: IPeriodUnit,
    pub payment_mode: PaymentMode,
}

/// The model of a [`Product`].
pub struct ProductView {
    pub id: Seq<char>,
    pub title: Seq<char>,
    pub description: Seq<char>,
    pub price: Seq<char>,
    pub price_micros: Seq<char>,
    pub currency: Seq<char>,
    pub country_code: Option<Seq<char>>,
    pub currency_symbol: Option<Seq<char>>,
    pub intro_price: Option<Seq<char>>,
    pub intro_price_micros: Option<Seq<char>>,
    pub intro_price_period: Option<i32>,
    pub intro_price_period_unit: Option<IPeriodUnit>,
    pub intro_price_payment_mode: Option<PaymentMode>,
    pub discounts: Option<Seq<DiscountView>>,
    pub group: Option<Seq<char>>,
    pub billing_period: Option<i32>,
    pub billing_period_unit: Option<IPeriodUnit>,
}

impl View for Discount {
    type V = DiscountView;

    open spec fn view(&self) -> DiscountView {
        DiscountView {
            id: self.id@,
            kind: self.kind,
            price: self.price@,
            price_micros: self.price_micros@,
            period: self.period,
            period_unit: self.period_unit,
            payment_mode: self.payment_mode,
        }
    }
}

/// The models of a list of discounts.
pub open spec fn discount_views(discounts: Seq<Discount>) -> Seq<DiscountView> {
    Seq::new(discounts.len(), |i: int| discounts[i]@)
}

/// The model of an optional list of discounts.
pub open spec fn optional_discount_views(discounts: Option<Vec<Discount>>) -> Option<
    Seq<DiscountView>,
> {
    match discounts {
        Some(list) => Some(discount_views(list@)),
        None => None,
    }
}

impl View for Product {
    type V = ProductView;

    open spec fn view(&self) -> ProductView {
        ProductView {
            id: self.id@,
            title: self.title@,
            description: self.description@,
            price: self.price@,
            price_micros: self.price_micros@,
            currency: self.currency@,
            country_code: text_view(self.country_code),
            currency_symbol: text_view(self.currency_symbol),
            intro_price: text_view(self.intro_price),
            intro_price_micros: text_view(self.intro_price_micros),
            intro_price_period: self.intro_price_period,
            intro_price_period_unit: self.intro_price_period_unit,
            intro_price_payment_mode: self.intro_price_payment_mode,
            discounts: optional_discount_views(self.discounts),
            group: text_view(self.group),
            billing_period: self.billing_period,
            billing_period_unit: self.billing_period_unit,
        }
    }
}

/// The models of a list of products.
pub open spec fn product_views(products: Seq<Product>) -> Seq<ProductView> {
    Seq::new(products.len(), |i: int| products[i]@)
}

/// The name that writes a period unit.
pub open spec fn period_unit_name(unit: IPeriodUnit) -> Seq<char> {
    match unit {
        IPeriodUnit::Minute => "Minute"@,
        IPeriodUnit::Hour => "Hour"@,
        IPeriodUnit::Day => "Day"@,
        IPeriodUnit::Week => "Week"@,
        IPeriodUnit::Month => "Month"@,
        IPeriodUnit::Year => "Year"@,
    }
}

/// The period unit that a name writes.
pub open spec fn period_unit_named(name: Seq<char>) -> Option<IPeriodUnit> {
    if name == "Minute"@ {
        Some(IPeriodUnit::Minute)
    } else if name == "Hour"@ {
        Some(IPeriodUnit::Hour)
    } else if name == "Day"@ {
        Some(IPeriodUnit::Day)
    } else if name == "Week"@ {
        Some(IPeriodUnit::Week)
    } else if name == "Month"@ {
        Some(IPeriodUnit::Month)
    } else if name == "Year"@ {
        Some(IPeriodUnit::Year)
    } else {
        None
    }
}

/// The name that writes a payment mode.
pub open spec fn payment_mode_name(mode: PaymentMode) -> Seq<char> {
    match mode {
        PaymentMode::PayAsYouGo => "PayAsYouGo"@,
        PaymentMode::UpFront => "UpFront"@,
        PaymentMode::FreeTrial => "FreeTrial"@,
    }
}

/// The payment mode that a name writes.
pub open spec fn payment_mode_named(name: Seq<char>) -> Option<PaymentMode> {
    if name == "PayAsYouGo"@ {
        Some(PaymentMode::PayAsYouGo)
    } else if name == "UpFront"@ {
        Some(PaymentMode::UpFront)
    } else if name == "FreeTrial"@ {
        Some(PaymentMode::FreeTrial)
    } else {
        None
    }
}

/// The name that writes a discount type.
pub open spec fn discount_type_name(kind: DiscountType) -> Seq<char> {
    match kind {
        DiscountType::Introductory => "Introductory"@,
        DiscountType::Subscription => "Subscription"@,
    }
}

/// The discount type that a name writes.
pub open spec fn discount_type_named(name: Seq<char>) -> Option<DiscountType> {
    if name == "Introductory"@ {
        Some(DiscountType::Introductory)
    } else if name == "Subscription"@ {
        Some(DiscountType::Subscription)
    } else {
        None
    }
}

/// The period unit that a document names.
pub open spec fn period_unit_from(json: JsonView) -> Option<IPeriodUnit> {
    match text_of(json) {
        Some(name) => period_unit_named(name),
        None => None,
    }
}

/// The payment mode that a document names.
pub open spec fn payment_mode_from(json: JsonView) -> Option<PaymentMode> {
    match text_of(json) {
        Some(name) => payment_mode_named(name),
        None => None,
    }
}

/// The discount type that a document names.
pub open spec fn discount_type_from(json: JsonView) -> Option<DiscountType> {
    match text_of(json) {
        Some(name) => discount_type_named(name),
        None => None,
    }
}

/// An optional period-unit field.
pub open spec fn optional_unit_of(members: Seq<(Seq<char>, JsonView)>, key: Seq<char>) -> Result<
    Option<IPeriodUnit>,
    DecodeErrorView,
> {
    let slot = present(members, key);
    optional_field(slot, if slot is Some { period_unit_from(slot->0) } else { None }, key)
}

/// A required period-unit field.
pub open spec fn required_unit_of(members: Seq<(Seq<char>, JsonView)>, key: Seq<char>) -> Result<
    IPeriodUnit,
    DecodeErrorView,
> {
    let slot = present(members, key);
    required_field(slot, if slot is Some { period_unit_from(slot->0) } else { None }, key)
}

/// An optional payment-mode field.
pub open spec fn optional_mode_of(members: Seq<(Seq<char>, JsonView)>, key: Seq<char>) -> Result<
    Option<PaymentMode>,
    DecodeErrorView,
> {
    let slot = present(members, key);
    optional_field(slot, if slot is Some { payment_mode_from(slot->0) } else { None }, key)
}

/// A required payment-mode field.
pub open spec fn required_mode_of(members: Seq<(Seq<char>, JsonView)>, key: Seq<char>) -> Result<
    PaymentMode,
    DecodeErrorView,
> {
    let slot = present(members, key);
    required_field(slot, if slot is Some { payment_mode_from(slot->0) } else { None }, key)
}

/// A required discount-type field.
pub open spec fn required_discount_type_of(
    members: Seq<(Seq<char>, JsonView)>,
    key: Seq<char>,
) -> Result<DiscountType, DecodeErrorView> {
    let slot = present(members, key);
    required_field(slot, if slot is Some { discount_type_from(slot->0) } else { None }, key)
}

impl DiscountView {
    /// The price in micro-units is held as a number literal.
    pub open spec fn wf(self) -> bool {
        is_number_literal(self.price_micros)
    }
}

/// The discount that the members of an object hold.
pub open spec fn discount_from(members: Seq<(Seq<char>, JsonView)>) -> Result<
    DiscountView,
    DecodeErrorView,
> {
    let id = required_text_of(members, "id"@);
    let kind = required_discount_type_of(members, "type"@);
    let price = required_text_of(members, "price"@);
    let price_micros = required_number_of(members, "priceMicros"@);
    let period = required_i32_of(members, "period"@);
    let period_unit = required_unit_of(members, "periodUnit"@);
    let payment_mode = required_mode_of(members, "paymentMode"@);
    if id is Err {
        Err(id->Err_0)
    } else if kind is Err {
        Err(kind->Err_0)
    } else if price is Err {
        Err(price->Err_0)
    } else if price_micros is Err {
        Err(price_micros->Err_0)
    } else if period is Err {
        Err(period->Err_0)
    } else if period_unit is Err {
        Err(period_unit->Err_0)
    } else if payment_mode is Err {
        Err(payment_mode->Err_0)
    } else {
        Ok(
            DiscountView {
                id: id->Ok_0,
                kind: kind->Ok_0,
                price: price->Ok_0,
                price_micros: price_micros->Ok_0,
                period: period->Ok_0,
                period_unit: period_unit->Ok_0,
                payment_mode: payment_mode->Ok_0,
            },
        )
    }
}

/// The discount that a document holds.
pub open spec fn discount_of(json: JsonView) -> Result<DiscountView, DecodeErrorView> {
    match json {
        JsonView::Object(members) => discount_from(members),
        _ => Err(DecodeErrorView::ExpectedObject),
    }
}

/// The discounts that the items of a list hold, or the first error among them.
pub open spec fn discounts_from(items: Seq<JsonView>) -> Result<Seq<DiscountView>, DecodeErrorView> {
    collect(Seq::new(items.len(), |i: int| discount_of(items[i])))
}

/// An optional field that lists discounts.
pub open spec fn optional_discounts_of(members: Seq<(Seq<char>, JsonView)>, key: Seq<char>) -> Result<
    Option<Seq<DiscountView>>,
    DecodeErrorView,
> {
    match present(members, key) {
        None => Ok(None),
        Some(JsonView::Array(items)) => match discounts_from(items) {
            Ok(discounts) => Ok(Some(discounts)),
            Err(e) => Err(e),
        },
        Some(_) => Err(DecodeErrorView::InvalidField(key)),
    }
}

/// The fields of a discount, in the order they are written.
pub open spec fn discount_fields(discount: DiscountView) -> Seq<(Seq<char>, Option<JsonView>)> {
    Seq::empty().push(("id"@, Some(JsonView::Str(discount.id)))).push(
        ("type"@, Some(JsonView::Str(discount_type_name(discount.kind)))),
    ).push(("price"@, Some(JsonView::Str(discount.price)))).push(
        ("priceMicros"@, Some(JsonView::Number(discount.price_micros))),
    ).push(("period"@, Some(JsonView::Number(integer_text(discount.period as int))))).push(
        ("periodUnit"@, Some(JsonView::Str(period_unit_name(discount.period_unit)))),
    ).push(("paymentMode"@, Some(JsonView::Str(payment_mode_name(discount.payment_mode)))))
}

/// The document that writes a discount.
pub open spec fn discount_json(discount: DiscountView) -> JsonView {
    JsonView::Object(object_of(discount_fields(discount)))
}

/// The documents that write a list of discounts.
pub open spec fn discount_jsons(discounts: Seq<DiscountView>) -> Seq<JsonView> {
    Seq::new(discounts.len(), |i: int| discount_json(discounts[i]))
}

/// An optional list of discounts as an optional JSON list.
pub open spec fn optional_discounts_value(discounts: Option<Seq<DiscountView>>) -> Option<JsonView> {
    match discounts {
        Some(list) => Some(JsonView::Array(discount_jsons(list))),
        None => None,
    }
}

/// An optional period unit as an optional JSON string.
pub open spec fn optional_unit_value(unit: Option<IPeriodUnit>) -> Option<JsonView> {
    match unit {
        Some(u) => Some(JsonView::Str(period_unit_name(u))),
        None => None,
    }
}

/// An optional payment mode as an optional JSON string.
pub open spec fn optional_mode_value(mode: Option<PaymentMode>) -> Option<JsonView> {
    match mode {
        Some(m) => Some(JsonView::Str(payment_mode_name(m))),
        None => None,
    }
}

/// The names of the period units are six different texts.
pub proof fn lemma_period_unit_names(unit: IPeriodUnit)
    ensures
        period_unit_named(period_unit_name(unit)) == Some(unit),
{
    reveal_strlit("Minute");
    reveal_strlit("Hour");
    reveal_strlit("Day");
    reveal_strlit("Week");
    reveal_strlit("Month");
    reveal_strlit("Year");
    assert("Minute"@.len() == 6);
    assert("Hour"@.len() == 4 && "Hour"@[0] == 'H');
    assert("Day"@.len() == 3);
    assert("Week"@.len() == 4 && "Week"@[0] == 'W');
    assert("Month"@.len() == 5);
    assert("Year"@.len() == 4 && "Year"@[0] == 'Y');
}

/// The names of the payment modes are three different texts.
pub proof fn lemma_payment_mode_names(mode: PaymentMode)
    ensures
        payment_mode_named(payment_mode_name(mode)) == Some(mode),
{
    reveal_strlit("PayAsYouGo");
    reveal_strlit("UpFront");
    reveal_strlit("FreeTrial");
    assert("PayAsYouGo"@.len() == 10);
    assert("UpFront"@.len() == 7);
    assert("FreeTrial"@.len() == 9);
}

/// The names of the discount types are two different texts.
pub proof fn lemma_discount_type_names(kind: DiscountType)
    ensures
        discount_type_named(discount_type_name(kind)) == Some(kind),
{
    reveal_strlit("Introductory");
    reveal_strlit("Subscription");
    assert("Introductory"@[0] == 'I');
    assert("Subscription"@[0] == 'S');
}

impl IPeriodUnit {
    /// The name that writes this unit.
    pub fn name(&self) -> (r: &'static str)
        ensures
            r@ == period_unit_name(*self),
    {
        match self {
            IPeriodUnit::Minute => "Minute",
            IPeriodUnit::Hour => "Hour",
            IPeriodUnit::Day => "Day",
            IPeriodUnit::Week => "Week",
            IPeriodUnit::Month => "Month",
            IPeriodUnit::Year => "Year",
        }
    }

    /// The unit that a name writes.
    pub fn from_name(name: &str) -> (r: Option<IPeriodUnit>)
        ensures
            r == period_unit_named(name@),
    {
        if str_eq(name, "Minute") {
            Some(IPeriodUnit::Minute)
        } else if str_eq(name, "Hour") {
            Some(IPeriodUnit::Hour)
        } else if str_eq(name, "Day") {
            Some(IPeriodUnit::Day)
        } else if str_eq(name, "Week") {
            Some(IPeriodUnit::Week)
        } else if str_eq(name, "Month") {
            Some(IPeriodUnit::Month)
        } else if str_eq(name, "Year") {
            Some(IPeriodUnit::Year)
        } else {
            None
        }
    }
}

impl PaymentMode {
    /// The name that writes this mode.
    pub fn name(&self) -> (r: &'static str)
        ensures
            r@ == payment_mode_name(*self),
    {
        match self {
            PaymentMode::PayAsYouGo => "PayAsYouGo",
            PaymentMode::UpFront => "UpFront",
            PaymentMode::FreeTrial => "FreeTrial",
        }
    }

    /// The mode that a name writes.
    pub fn from_name(name: &str) -> (r: Option<PaymentMode>)
        ensures
            r == payment_mode_named(name@),
    {
        if str_eq(name, "PayAsYouGo") {
            Some(PaymentMode::PayAsYouGo)
        } else if str_eq(name, "UpFront") {
            Some(PaymentMode::UpFront)
        } else if str_eq(name, "FreeTrial") {
            Some(PaymentMode::FreeTrial)
        } else {
            None
        }
    }
}

impl DiscountType {
    /// The name that writes this type.
    pub fn name(&self) -> (r: &'static str)
        ensures
            r@ == discount_type_name(*self),
    {
        match self {
            DiscountType::Introductory => "Introductory",
            DiscountType::Subscription => "Subscription",
        }
    }

    /// The type that a name writes.
    pub fn from_name(name: &str) -> (r: Option<DiscountType>)
        ensures
            r == discount_type_named(name@),
    {
        if str_eq(name, "Introductory") {
            Some(DiscountType::Introductory)
        } else if str_eq(name, "Subscription") {
            Some(DiscountType::Subscription)
        } else {
            None
        }
    }
}

/// Reads an optional period-unit field.
pub fn optional_unit(members: &Vec<Member>, key: &str) -> (r: Result<
    Option<IPeriodUnit>,
    DecodeError,
>)
    ensures
        match r {
            Ok(v) => optional_unit_of(member_views(members@), key@) == Ok::<
                Option<IPeriodUnit>,
                DecodeErrorView,
            >(v),
            Err(e) => optional_unit_of(member_views(members@), key@) == Err::<
                Option<IPeriodUnit>,
                DecodeErrorView,
            >(e@),
        },
{
    match find_present(members, key) {
        None => Ok(None),
        Some(Json::Str(name)) => fitting(IPeriodUnit::from_name(name.as_str()), key),
        Some(_) => Err(DecodeError::InvalidField(String::from_str(key))),
    }
}

/// Reads an optional payment-mode field.
pub fn optional_mode(members: &Vec<Member>, key: &str) -> (r: Result<
    Option<PaymentMode>,
    DecodeError,
>)
    ensures
        match r {
            Ok(v) => optional_mode_of(member_views(members@), key@) == Ok::<
                Option<PaymentMode>,
                DecodeErrorView,
            >(v),
            Err(e) => optional_mode_of(member_views(members@), key@) == Err::<
                Option<PaymentMode>,
                DecodeErrorView,
            >(e@),
        },
{
    match find_present(members, key) {
        None => Ok(None),
        Some(Json::Str(name)) => fitting(PaymentMode::from_name(name.as_str()), key),
        Some(_) => Err(DecodeError::InvalidField(String::from_str(key))),
    }
}

/// Reads a required discount-type field.
pub fn required_discount_type(members: &Vec<Member>, key: &str) -> (r: Result<
    DiscountType,
    DecodeError,
>)
    ensures
        match r {
            Ok(v) => required_discount_type_of(member_views(members@), key@) == Ok::<
                DiscountType,
                DecodeErrorView,
            >(v),
            Err(e) => required_discount_type_of(member_views(members@), key@) == Err::<
                DiscountType,
                DecodeErrorView,
            >(e@),
        },
{
    match find_present(members, key) {
        None => Err(DecodeError::MissingField(String::from_str(key))),
        Some(Json::Str(name)) => match DiscountType::from_name(name.as_str()) {
            Some(kind) => Ok(kind),
            None => Err(DecodeError::InvalidField(String::from_str(key))),
        },
        Some(_) => Err(DecodeError::InvalidField(String::from_str(key))),
    }
}

/// Reads a required period-unit field.
pub fn required_unit(members: &Vec<Member>, key: &str) -> (r: Result<IPeriodUnit, DecodeError>)
    ensures
        match r {
            Ok(v) => required_unit_of(member_views(members@), key@) == Ok::<
                IPeriodUnit,
                DecodeErrorView,
            >(v),
            Err(e) => required_unit_of(member_views(members@), key@) == Err::<
                IPeriodUnit,
                DecodeErrorView,
            >(e@),
        },
{
    required(optional_unit(members, key)?, key)
}

/// Reads a required payment-mode field.
pub fn required_mode(members: &Vec<Member>, key: &str) -> (r: Result<PaymentMode, DecodeError>)
    ensures
        match r {
            Ok(v) => required_mode_of(member_views(members@), key@) == Ok::<
                PaymentMode,
                DecodeErrorView,
            >(v),
            Err(e) => required_mode_of(member_views(members@), key@) == Err::<
                PaymentMode,
                DecodeErrorView,
            >(e@),
        },
{
    required(optional_mode(members, key)?, key)
}

impl Discount {
    /// The price in micro-units is held as a number literal.
    pub open spec fn wf(&self) -> bool {
        self@.wf()
    }

    /// Whether the price in micro-units is held as a number literal.
    pub fn is_wf(&self) -> (r: bool)
        ensures
            r == self.wf(),
    {
        is_number(self.price_micros.as_str())
    }

    /// Reads a discount from a document.
    pub fn decode(json: &Json) -> (r: Result<Discount, DecodeError>)
        ensures
            match r {
                Ok(discount) => discount_of(json@) == Ok::<DiscountView, DecodeErrorView>(
                    discount@,
                ) && discount.wf(),
                Err(e) => discount_of(json@) == Err::<DiscountView, DecodeErrorView>(e@),
            },
    {
        let members = match json.members() {
            Some(members) => members,
            None => {
                return Err(DecodeError::ExpectedObject);
            },
        };
        let id = required_text(members, "id")?;
        let kind = required_discount_type(members, "type")?;
        let price = required_text(members, "price")?;
        let price_micros = required_number(members, "priceMicros")?;
        let period = required_i32(members, "period")?;
        let period_unit = required_unit(members, "periodUnit")?;
        let payment_mode = required_mode(members, "paymentMode")?;
        Ok(Discount { id, kind, price, price_micros, period, period_unit, payment_mode })
    }

    /// Writes the discount as a document.
    pub fn encode(&self) -> (r: Json)
        requires
            self.wf(),
        ensures
            r@ == discount_json(self@),
    {
        let mut object = ObjectBuilder::new();
        object.put("id", Some(text_json(&self.id)));
        object.put("type", Some(Json::Str(String::from_str(self.kind.name()))));
        object.put("price", Some(text_json(&self.price)));
        object.put("priceMicros", Some(number_json(&self.price_micros)));
        object.put("period", Some(i32_json(self.period)));
        object.put("periodUnit", Some(Json::Str(String::from_str(self.period_unit.name()))));
        object.put("paymentMode", Some(Json::Str(String::from_str(self.payment_mode.name()))));
        object.finish()
    }
}

/// Reads the discounts that the items of a list hold.
pub fn decode_discounts(items: &Vec<Json>) -> (r: Result<Vec<Discount>, DecodeError>)
    ensures
        match r {
            Ok(discounts) => discounts_from(item_views(items@)) == Ok::<
                Seq<DiscountView>,
                DecodeErrorView,
            >(discount_views(discounts@)) && forall|i: int|
                0 <= i < discounts@.len() ==> (#[trigger] discounts@[i]).wf(),
            Err(e) => discounts_from(item_views(items@)) == Err::<
                Seq<DiscountView>,
                DecodeErrorView,
            >(e@),
        },
{
    let ghost shown = item_views(items@);
    let ghost results = Seq::new(shown.len(), |i: int| discount_of(shown[i]));
    let mut out: Vec<Discount> = Vec::new();
    let n: usize = items.len();
    let mut i: usize = 0;
    assert(results.subrange(0, 0) =~= Seq::<Result<DiscountView, DecodeErrorView>>::empty());
    assert(discount_views(out@) =~= Seq::<DiscountView>::empty());
    while i < n
        invariant
            i <= n,
            n == items@.len(),
            shown == item_views(items@),
            results == Seq::new(shown.len(), |k: int| discount_of(shown[k])),
            collect(results.subrange(0, i as int)) == Ok::<Seq<DiscountView>, DecodeErrorView>(
                discount_views(out@),
            ),
            forall|k: int| 0 <= k < out@.len() ==> (#[trigger] out@[k]).wf(),
        decreases n - i,
    {
        proof {
            lemma_collect_step(results, i as int);
            assert(results[i as int] == discount_of(items@[i as int]@));
        }
        let ghost before = discount_views(out@);
        match Discount::decode(&items[i]) {
            Ok(discount) => {
                let ghost added = discount@;
                out.push(discount);
                assert(discount_views(out@) =~= before.push(added));
            },
            Err(e) => {
                proof {
                    lemma_collect_error(results, i + 1);
                }
                return Err(e);
            },
        }
        i += 1;
    }
    assert(results.subrange(0, n as int) =~= results);
    Ok(out)
}

/// Writes a list of discounts as a JSON list.
pub fn encode_discounts(discounts: &Vec<Discount>) -> (r: Json)
    requires
        forall|i: int| 0 <= i < discounts@.len() ==> (#[trigger] discounts@[i]).wf(),
    ensures
        r@ == JsonView::Array(discount_jsons(discount_views(discounts@))),
{
    let mut items: Vec<Json> = Vec::new();
    let n: usize = discounts.len();
    let mut i: usize = 0;
    while i < n
        invariant
            i <= n,
            n == discounts@.len(),
            forall|k: int| 0 <= k < discounts@.len() ==> (#[trigger] discounts@[k]).wf(),
            items@.len() == i,
            forall|k: int| 0 <= k < i ==> (#[trigger] items@[k])@ == discount_json(discounts@[k]@),
        decreases n - i,
    {
        items.push(discounts[i].encode());
        i += 1;
    }
    proof {
        lemma_array_view(items);
        assert(item_views(items@) =~= discount_jsons(discount_views(discounts@)));
    }
    Json::Array(items)
}

impl ProductView {
    /// All five introductory-price fields are given.
    pub open spec fn intro_price_given(self) -> bool {
        &&& self.intro_price is Some
        &&& self.intro_price_micros is Some
        &&& self.intro_price_period is Some
        &&& self.intro_price_period_unit is Some
        &&& self.intro_price_payment_mode is Some
    }

    /// None of the five introductory-price fields is given.
    pub open spec fn intro_price_absent(self) -> bool {
        &&& self.intro_price is None
        &&& self.intro_price_micros is None
        &&& self.intro_price_period is None
        &&& self.intro_price_period_unit is None
        &&& self.intro_price_payment_mode is None
    }

    /// The introductory-price fields are given together or not at all.
    pub open spec fn intro_price_consistent(self) -> bool {
        self.intro_price_given() || self.intro_price_absent()
    }

    /// The introductory-price fields are given together or not at all,
    /// every number is held as a number literal, and every discount is
    /// well formed.
    pub open spec fn wf(self) -> bool {
        &&& self.intro_price_consistent()
        &&& is_number_literal(self.price_micros)
        &&& (self.intro_price_micros matches Some(literal) ==> is_number_literal(literal))
        &&& (self.discounts matches Some(discounts) ==> all_wf(discounts))
    }
}

/// The product that the members of an object hold.
pub open spec fn product_from(members: Seq<(Seq<char>, JsonView)>) -> Result<
    ProductView,
    DecodeErrorView,
> {
    let id = required_text_of(members, "id"@);
    let title = required_text_of(members, "title"@);
    let description = required_text_of(members, "description"@);
    let price = required_text_of(members, "price"@);
    let price_micros = required_number_of(members, "priceMicros"@);
    let currency = required_text_of(members, "currency"@);
    let country_code = optional_text_of(members, "countryCode"@);
    let currency_symbol = optional_text_of(members, "currencySymbol"@);
    let intro_price = optional_text_of(members, "introPrice"@);
    let intro_price_micros = optional_number_of(members, "introPriceMicros"@);
    let intro_price_period = optional_i32_of(members, "introPricePeriod"@);
    let intro_price_period_unit = optional_unit_of(members, "introPricePeriodUnit"@);
    let intro_price_payment_mode = optional_mode_of(members, "introPricePaymentMode"@);
    let discounts = optional_discounts_of(members, "discounts"@);
    let group = optional_text_of(members, "group"@);
    let billing_period = optional_i32_of(members, "billingPeriod"@);
    let billing_period_unit = optional_unit_of(members, "billingPeriodUnit"@);
    if id is Err {
        Err(id->Err_0)
    } else if title is Err {
        Err(title->Err_0)
    } else if description is Err {
        Err(description->Err_0)
    } else if price is Err {
        Err(price->Err_0)
    } else if price_micros is Err {
        Err(price_micros->Err_0)
    } else if currency is Err {
        Err(currency->Err_0)
    } else if country_code is Err {
        Err(country_code->Err_0)
    } else if currency_symbol is Err {
        Err(currency_symbol->Err_0)
    } else if intro_price is Err {
        Err(intro_price->Err_0)
    } else if intro_price_micros is Err {
        Err(intro_price_micros->Err_0)
    } else if intro_price_period is Err {
        Err(intro_price_period->Err_0)
    } else if intro_price_period_unit is Err {
        Err(intro_price_period_unit->Err_0)
    } else if intro_price_payment_mode is Err {
        Err(intro_price_payment_mode->Err_0)
    } else if discounts is Err {
        Err(discounts->Err_0)
    } else if group is Err {
        Err(group->Err_0)
    } else if billing_period is Err {
        Err(billing_period->Err_0)
    } else if billing_period_unit is Err {
        Err(billing_period_unit->Err_0)
    } else {
        let product = ProductView {
            id: id->Ok_0,
            title: title->Ok_0,
            description: description->Ok_0,
            price: price->Ok_0,
            price_micros: price_micros->Ok_0,
            currency: currency->Ok_0,
            country_code: country_code->Ok_0,
            currency_symbol: currency_symbol->Ok_0,
            intro_price: intro_price->Ok_0,
            intro_price_micros: intro_price_micros->Ok_0,
            intro_price_period: intro_price_period->Ok_0,
            intro_price_period_unit: intro_price_period_unit->Ok_0,
            intro_price_payment_mode: intro_price_payment_mode->Ok_0,
            discounts: discounts->Ok_0,
            group: group->Ok_0,
            billing_period: billing_period->Ok_0,
            billing_period_unit: billing_period_unit->Ok_0,
        };
        if product.intro_price_consistent() {
            Ok(product)
        } else {
            Err(DecodeErrorView::PartialIntroPrice)
        }
    }
}

/// The product that a document holds.
pub open spec fn product_of(json: JsonView) -> Result<ProductView, DecodeErrorView> {
    match json {
        JsonView::Object(members) => product_from(members),
        _ => Err(DecodeErrorView::ExpectedObject),
    }
}

/// The products that the items of a list hold, or the first error among them.
pub open spec fn products_from(items: Seq<JsonView>) -> Result<Seq<ProductView>, DecodeErrorView> {
    collect(Seq::new(items.len(), |i: int| product_of(items[i])))
}

/// The products that a document lists.
pub open spec fn products_of(json: JsonView) -> Result<Seq<ProductView>, DecodeErrorView> {
    match json {
        JsonView::Array(items) => products_from(items),
        _ => Err(DecodeErrorView::ExpectedArray),
    }
}

/// The fields of a product, in the order they are written.
pub open spec fn product_fields(product: ProductView) -> Seq<(Seq<char>, Option<JsonView>)> {
    Seq::empty().push(("id"@, Some(JsonView::Str(product.id)))).push(
        ("title"@, Some(JsonView::Str(product.title))),
    ).push(("description"@, Some(JsonView::Str(product.description)))).push(
        ("price"@, Some(JsonView::Str(product.price))),
    ).push(("priceMicros"@, Some(JsonView::Number(product.price_micros)))).push(
        ("currency"@, Some(JsonView::Str(product.currency))),
    ).push(("countryCode"@, optional_text_value(product.country_code))).push(
        ("currencySymbol"@, optional_text_value(product.currency_symbol)),
    ).push(("introPrice"@, optional_text_value(product.intro_price))).push(
        ("introPriceMicros"@, optional_number_value(product.intro_price_micros)),
    ).push(("introPricePeriod"@, optional_i32_value(product.intro_price_period))).push(
        ("introPricePeriodUnit"@, optional_unit_value(product.intro_price_period_unit)),
    ).push(("introPricePaymentMode"@, optional_mode_value(product.intro_price_payment_mode))).push(
        ("discounts"@, optional_discounts_value(product.discounts)),
    ).push(("group"@, optional_text_value(product.group))).push(
        ("billingPeriod"@, optional_i32_value(product.billing_period)),
    ).push(("billingPeriodUnit"@, optional_unit_value(product.billing_period_unit)))
}

/// The document that writes a product: an object of the fields that have a value.
pub open spec fn product_json(product: ProductView) -> JsonView {
    JsonView::Object(object_of(product_fields(product)))
}

/// The documents that write a list of products.
pub open spec fn product_jsons(products: Seq<ProductView>) -> Seq<JsonView> {
    Seq::new(products.len(), |i: int| product_json(products[i]))
}

/// Reads an optional field that lists discounts.
pub fn optional_discounts(members: &Vec<Member>, key: &str) -> (r: Result<
    Option<Vec<Discount>>,
    DecodeError,
>)
    ensures
        match r {
            Ok(v) => optional_discounts_of(member_views(members@), key@) == Ok::<
                Option<Seq<DiscountView>>,
                DecodeErrorView,
            >(optional_discount_views(v)) && (v matches Some(list) ==> forall|i: int|
                0 <= i < list@.len() ==> (#[trigger] list@[i]).wf()),
            Err(e) => optional_discounts_of(member_views(members@), key@) == Err::<
                Option<Seq<DiscountView>>,
                DecodeErrorView,
            >(e@),
        },
{
    match find_present(members, key) {
        None => Ok(None),
        Some(value) => match value.items() {
            Some(items) => {
                let discounts = decode_discounts(items)?;
                Ok(Some(discounts))
            },
            None => Err(DecodeError::InvalidField(String::from_str(key))),
        },
    }
}

/// An optional period unit as an optional JSON string.
pub fn optional_unit_json(unit: Option<IPeriodUnit>) -> (r: Option<Json>)
    ensures
        optional_view(r) == optional_unit_value(unit),
{
    match unit {
        Some(u) => Some(Json::Str(String::from_str(u.name()))),
        None => None,
    }
}

/// An optional payment mode as an optional JSON string.
pub fn optional_mode_json(mode: Option<PaymentMode>) -> (r: Option<Json>)
    ensures
        optional_view(r) == optional_mode_value(mode),
{
    match mode {
        Some(m) => Some(Json::Str(String::from_str(m.name()))),
        None => None,
    }
}

/// An optional list of discounts as an optional JSON list.
pub fn optional_discounts_json(discounts: &Option<Vec<Discount>>) -> (r: Option<Json>)
    requires
        *discounts matches Some(list) ==> forall|i: int|
            0 <= i < list@.len() ==> (#[trigger] list@[i]).wf(),
    ensures
        optional_view(r) == optional_discounts_value(optional_discount_views(*discounts)),
{
    match discounts {
        Some(list) => Some(encode_discounts(list)),
        None => None,
    }
}

/// Whether every discount of a list is well formed.
pub fn all_discounts_wf(discounts: &Vec<Discount>) -> (r: bool)
    ensures
        r == forall|i: int| 0 <= i < discounts@.len() ==> (#[trigger] discounts@[i]).wf(),
{
    let n: usize = discounts.len();
    let mut i: usize = 0;
    while i < n
        invariant
            i <= n,
            n == discounts@.len(),
            forall|k: int| 0 <= k < i ==> (#[trigger] discounts@[k]).wf(),
        decreases n - i,
    {
        if !discounts[i].is_wf() {
            return false;
        }
        i += 1;
    }
    true
}

/// Every model of a list of discounts is well formed.
pub open spec fn all_wf(discounts: Seq<DiscountView>) -> bool {
    forall|i: int| 0 <= i < discounts.len() ==> (#[trigger] discounts[i]).wf()
}

/// A list of discounts is well formed where each of its models is.
pub proof fn lemma_discounts_wf(discounts: Seq<Discount>)
    ensures
        all_wf(discount_views(discounts)) == (forall|i: int|
            0 <= i < discounts.len() ==> (#[trigger] discounts[i]).wf()),
{
    let shown = discount_views(discounts);
    if all_wf(shown) {
        assert forall|i: int| 0 <= i < discounts.len() implies (#[trigger] discounts[i]).wf() by {
            assert(shown[i].wf());
        }
    }
    if forall|i: int| 0 <= i < discounts.len() ==> (#[trigger] discounts[i]).wf() {
        assert forall|i: int| 0 <= i < shown.len() implies (#[trigger] shown[i]).wf() by {
            assert(discounts[i].wf());
        }
    }
}

impl Product {
    /// The introductory-price fields are given together or not at all,
    /// every number is held as a number literal, and every discount is
    /// well formed.
    pub open spec fn wf(&self) -> bool {
        self@.wf()
    }

    /// Whether the introductory-price fields are given together or not at all.
    pub fn intro_price_consistent(&self) -> (r: bool)
        ensures
            r == self@.intro_price_consistent(),
    {
        let given = self.intro_price.is_some();
        self.intro_price_micros.is_some() == given && self.intro_price_period.is_some() == given
            && self.intro_price_period_unit.is_some() == given
            && self.intro_price_payment_mode.is_some() == given
    }

    /// Whether the product is well formed.
    pub fn is_wf(&self) -> (r: bool)
        ensures
            r == self.wf(),
    {
        let micros = match &self.intro_price_micros {
            Some(literal) => is_number(literal.as_str()),
            None => true,
        };
        let discounts = match &self.discounts {
            Some(list) => {
                proof {
                    lemma_discounts_wf(list@);
                }
                all_discounts_wf(list)
            },
            None => true,
        };
        self.intro_price_consistent() && is_number(self.price_micros.as_str()) && micros
            && discounts
    }

    /// Reads a product from a document.
    pub fn decode(json: &Json) -> (r: Result<Product, DecodeError>)
        ensures
            match r {
                Ok(product) => product_of(json@) == Ok::<ProductView, DecodeErrorView>(product@)
                    && product.wf(),
                Err(e) => product_of(json@) == Err::<ProductView, DecodeErrorView>(e@),
            },
    {
        let members = match json.members() {
            Some(members) => members,
            None => {
                return Err(DecodeError::ExpectedObject);
            },
        };
        let id = required_text(members, "id")?;
        let title = required_text(members, "title")?;
        let description = required_text(members, "description")?;
        let price = required_text(members, "price")?;
        let price_micros = required_number(members, "priceMicros")?;
        let currency = required_text(members, "currency")?;
        let country_code = optional_text(members, "countryCode")?;
        let currency_symbol = optional_text(members, "currencySymbol")?;
        let intro_price = optional_text(members, "introPrice")?;
        let intro_price_micros = optional_number(members, "introPriceMicros")?;
        let intro_price_period = optional_i32(members, "introPricePeriod")?;
        let intro_price_period_unit = optional_unit(members, "introPricePeriodUnit")?;
        let intro_price_payment_mode = optional_mode(members, "introPricePaymentMode")?;
        let discounts = optional_discounts(members, "discounts")?;
        let group = optional_text(members, "group")?;
        let billing_period = optional_i32(members, "billingPeriod")?;
        let billing_period_unit = optional_unit(members, "billingPeriodUnit")?;
        let product = Product {
            id,
            title,
            description,
            price,
            price_micros,
            currency,
            country_code,
            currency_symbol,
            intro_price,
            intro_price_micros,
            intro_price_period,
            intro_price_period_unit,
            intro_price_payment_mode,
            discounts,
            group,
            billing_period,
            billing_period_unit,
        };
        proof {
            if product.discounts is Some {
                lemma_discounts_wf(product.discounts->0@);
            }
        }
        if product.intro_price_consistent() {
            Ok(product)
        } else {
            Err(DecodeError::PartialIntroPrice)
        }
    }

    /// Writes the product as a document; a field without a value is left out.
    pub fn encode(&self) -> (r: Json)
        requires
            self.wf(),
        ensures
            r@ == product_json(self@),
    {
        proof {
            if self.discounts is Some {
                lemma_discounts_wf(self.discounts->0@);
            }
        }
        let mut object = ObjectBuilder::new();
        object.put("id", Some(text_json(&self.id)));
        object.put("title", Some(text_json(&self.title)));
        object.put("description", Some(text_json(&self.description)));
        object.put("price", Some(text_json(&self.price)));
        object.put("priceMicros", Some(number_json(&self.price_micros)));
        object.put("currency", Some(text_json(&self.currency)));
        object.put("countryCode", optional_text_json(&self.country_code));
        object.put("currencySymbol", optional_text_json(&self.currency_symbol));
        object.put("introPrice", optional_text_json(&self.intro_price));
        object.put("introPriceMicros", optional_number_json(&self.intro_price_micros));
        object.put("introPricePeriod", optional_i32_json(self.intro_price_period));
        object.put("introPricePeriodUnit", optional_unit_json(self.intro_price_period_unit));
        object.put("introPricePaymentMode", optional_mode_json(self.intro_price_payment_mode));
        object.put("discounts", optional_discounts_json(&self.discounts));
        object.put("group", optional_text_json(&self.group));
        object.put("billingPeriod", optional_i32_json(self.billing_period));
        object.put("billingPeriodUnit", optional_unit_json(self.billing_period_unit));
        object.finish()
    }
}

/// Reads the products that a document lists.
pub fn decode_products(json: &Json) -> (r: Result<Vec<Product>, DecodeError>)
    ensures
        match r {
            Ok(products) => products_of(json@) == Ok::<Seq<ProductView>, DecodeErrorView>(
                product_views(products@),
            ) && forall|i: int| 0 <= i < products@.len() ==> (#[trigger] products@[i]).wf(),
            Err(e) => products_of(json@) == Err::<Seq<ProductView>, DecodeErrorView>(e@),
        },
{
    let items = match json.items() {
        Some(items) => items,
        None => {
            return Err(DecodeError::ExpectedArray);
        },
    };
    let ghost shown = item_views(items@);
    let ghost results = Seq::new(shown.len(), |i: int| product_of(shown[i]));
    let mut out: Vec<Product> = Vec::new();
    let n: usize = items.len();
    let mut i: usize = 0;
    assert(results.subrange(0, 0) =~= Seq::<Result<ProductView, DecodeErrorView>>::empty());
    assert(product_views(out@) =~= Seq::<ProductView>::empty());
    while i < n
        invariant
            i <= n,
            n == items@.len(),
            shown == item_views(items@),
            json@ == JsonView::Array(shown),
            results == Seq::new(shown.len(), |k: int| product_of(shown[k])),
            collect(results.subrange(0, i as int)) == Ok::<Seq<ProductView>, DecodeErrorView>(
                product_views(out@),
            ),
            forall|k: int| 0 <= k < out@.len() ==> (#[trigger] out@[k]).wf(),
        decreases n - i,
    {
        proof {
            lemma_collect_step(results, i as int);
            assert(results[i as int] == product_of(items@[i as int]@));
        }
        let ghost before = product_views(out@);
        match Product::decode(&items[i]) {
            Ok(product) => {
                let ghost added = product@;
                out.push(product);
                assert(product_views(out@) =~= before.push(added));
            },
            Err(e) => {
                proof {
                    lemma_collect_error(results, i + 1);
                }
                return Err(e);
            },
        }
        i += 1;
    }
    assert(results.subrange(0, n as int) =~= results);
    Ok(out)
}

/// Writes a list of products as a JSON list.
pub fn encode_products(products: &Vec<Product>) -> (r: Json)
    requires
        forall|i: int| 0 <= i < products@.len() ==> (#[trigger] products@[i]).wf(),
    ensures
        r@ == JsonView::Array(product_jsons(product_views(products@))),
{
    let mut items: Vec<Json> = Vec::new();
    let n: usize = products.len();
    let mut i: usize = 0;
    while i < n
        invariant
            i <= n,
            n == products@.len(),
            forall|k: int| 0 <= k < products@.len() ==> (#[trigger] products@[k]).wf(),
            items@.len() == i,
            forall|k: int| 0 <= k < i ==> (#[trigger] items@[k])@ == product_json(products@[k]@),
        decreases n - i,
    {
        items.push(products[i].encode());
        i += 1;
    }
    proof {
        lemma_array_view(items);
        assert(item_views(items@) =~= product_jsons(product_views(products@)));
    }
    Json::Array(items)
}

} // verus!
