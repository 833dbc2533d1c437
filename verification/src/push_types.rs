//! Push notifications of the trade channel: from a frame of the socket, a
//! command code and the bytes after it, to a typed event.

use vstd::prelude::*;

use crate::decimal::{decimal_read, Decimal};
use crate::envelope::{notification_of, Notification};
use crate::error::{Error, ErrorView};
use crate::json::{json_document, Json, MemberFault};
use crate::normalize::{
    absent_if_zero, decimal_of_wire, decimal_or_empty_of_wire, decimal_or_zero_of_wire, decode_decimal,
    decode_decimal_or_empty, decode_decimal_or_zero, decode_timestamp, decode_timestamp_or_zero,
    decode_trigger_status, number_of, seconds_of, timestamp_of_wire, timestamp_or_zero_of_wire,
    trigger_status_of_wire, WireFault,
};
use crate::text::str_eq;
use crate::timestamp::Timestamp;
use crate::trade::{OrderSide, OrderStatus, OrderTag, OrderType, TriggerStatus};

verus! {

/// The command code of a push notification.
pub const PUSH_NOTIFICATION: u8 = 18;

/// Topic type
#[derive(Debug, Copy, Clone, Hash, Eq, PartialEq)]
pub enum TopicType {
    /// Private notification for trade
    Private,
}

impl TopicType {
    /// The topic's name on the wire.
    pub open spec fn wire(self) -> Seq<char> {
        "private"@
    }

    /// The topic with the given name, letter for letter.
    pub open spec fn of_wire(name: Seq<char>) -> Option<TopicType> {
        if name == "private"@ {
            Some(TopicType::Private)
        } else {
            None
        }
    }

    /// The topic's name on the wire.
    pub fn as_str(&self) -> (r: &'static str)
        ensures
            r@ == self.wire(),
    {
        "private"
    }

    /// The topic with the given name.
    pub fn from_wire(name: &str) -> (r: Option<TopicType>)
        ensures
            r == TopicType::of_wire(name@),
    {
        if str_eq(name, "private") {
            Some(TopicType::Private)
        } else {
            None
        }
    }
}

/// Why a member of the payload cannot be read as its field.
#[derive(Debug, Clone, Copy, PartialEq, Eq)]
pub enum FieldCause {
    /// There is no such member.
    Missing,
    /// The member is neither a string nor, where the field is a time, a
    /// number.
    NotText,
    /// The member's text is not what the field's convention allows.
    Wire(WireFault),
}

/// A field of the payload that cannot be read, and why.
#[derive(Debug, Clone, Copy, PartialEq, Eq)]
pub struct FieldFault {
    /// The field's name
    pub name: &'static str,
    /// Why it cannot be read
    pub cause: FieldCause,
}

/// Why a document is no push event.
#[derive(Debug, Clone, Copy, PartialEq, Eq)]
pub enum EventFault {
    /// There is no member `event`, or it is no string.
    Event(MemberFault),
    /// The member `event` names no known event.
    UnknownEvent,
    /// There is no member `data`.
    Data,
    /// A field of the member `data` cannot be read.
    Field(FieldFault),
}

/// An [`EventFault`] with the name of its field as a sequence of
/// characters.
pub enum EventFaultView {
    Event(MemberFault),
    UnknownEvent,
    Data,
    Field(Seq<char>, FieldCause),
}

impl View for EventFault {
    type V = EventFaultView;

    open spec fn view(&self) -> EventFaultView {
        match *self {
            EventFault::Event(fault) => EventFaultView::Event(fault),
            EventFault::UnknownEvent => EventFaultView::UnknownEvent,
            EventFault::Data => EventFaultView::Data,
            EventFault::Field(fault) => EventFaultView::Field(fault.name@, fault.cause),
        }
    }
}

/// The text of a member that is a string.
pub open spec fn plain_text(value: Option<Json>) -> Result<Seq<char>, FieldCause> {
    match value {
        None => Err(FieldCause::Missing),
        Some(Json::Str(text)) => Ok(text@),
        Some(_) => Err(FieldCause::NotText),
    }
}

/// The text of a member that is a string or a number, as a time may be.
pub open spec fn scalar_text(value: Option<Json>) -> Result<Seq<char>, FieldCause> {
    match value {
        None => Err(FieldCause::Missing),
        Some(Json::Str(text)) => Ok(text@),
        Some(Json::Number(text)) => Ok(text@),
        Some(_) => Err(FieldCause::NotText),
    }
}

/// The text of a member that is a string or a number and need not be
/// there: the empty text where it is absent or `null`.
pub open spec fn optional_scalar_text(value: Option<Json>) -> Result<Seq<char>, FieldCause> {
    match value {
        None => Ok(Seq::empty()),
        Some(Json::Null) => Ok(Seq::empty()),
        Some(Json::Str(text)) => Ok(text@),
        Some(Json::Number(text)) => Ok(text@),
        Some(_) => Err(FieldCause::NotText),
    }
}

/// What a convention of the wire makes of a member's text.
pub open spec fn read_with<T>(
    text: Result<Seq<char>, FieldCause>,
    convention: spec_fn(Seq<char>) -> Result<T, WireFault>,
) -> Result<T, FieldCause> {
    match text {
        Err(cause) => Err(cause),
        Ok(wire) => match convention(wire) {
            Ok(value) => Ok(value),
            Err(fault) => Err(FieldCause::Wire(fault)),
        },
    }
}

/// The value of a word of a vocabulary, or the fault of a word outside it.
pub open spec fn known_word<T>(value: Option<T>) -> Result<T, WireFault> {
    match value {
        Some(value) => Ok(value),
        None => Err(WireFault::Word),
    }
}

/// A field that is a text: the member must be a string.
pub open spec fn text_field(data: Json, name: Seq<char>) -> Result<Seq<char>, FieldCause> {
    plain_text(data.member(name))
}

/// A field that is a decimal that must be there. A decimal is a string on
/// the wire, never a JSON number: a number would have gone through a
/// floating-point value on its way.
pub open spec fn decimal_field(data: Json, name: Seq<char>) -> Result<(i128, u32), FieldCause> {
    read_with(plain_text(data.member(name)), |wire: Seq<char>| decimal_of_wire(wire))
}

/// A field that is a decimal for which zero means absent.
pub open spec fn decimal_or_zero_field(data: Json, name: Seq<char>) -> Result<
    Option<(i128, u32)>,
    FieldCause,
> {
    read_with(plain_text(data.member(name)), |wire: Seq<char>| decimal_or_zero_of_wire(wire))
}

/// A field that is a decimal for which the empty text means absent.
pub open spec fn decimal_or_empty_field(data: Json, name: Seq<char>) -> Result<
    Option<(i128, u32)>,
    FieldCause,
> {
    read_with(plain_text(data.member(name)), |wire: Seq<char>| decimal_or_empty_of_wire(wire))
}

/// A field that is a time that must be there.
pub open spec fn timestamp_field(data: Json, name: Seq<char>) -> Result<i64, FieldCause> {
    read_with(scalar_text(data.member(name)), |wire: Seq<char>| timestamp_of_wire(wire))
}

/// A field that is a time for which zero means absent, as does a member
/// that is not there or is `null`.
pub open spec fn timestamp_or_zero_field(data: Json, name: Seq<char>) -> Result<
    Option<i64>,
    FieldCause,
> {
    read_with(
        optional_scalar_text(data.member(name)),
        |wire: Seq<char>| timestamp_or_zero_of_wire(wire),
    )
}

/// A field that is an order side.
pub open spec fn side_field(data: Json, name: Seq<char>) -> Result<OrderSide, FieldCause> {
    read_with(plain_text(data.member(name)), |wire: Seq<char>| known_word(OrderSide::of_wire(wire)))
}

/// A field that is an order type.
pub open spec fn order_type_field(data: Json, name: Seq<char>) -> Result<OrderType, FieldCause> {
    read_with(plain_text(data.member(name)), |wire: Seq<char>| known_word(OrderType::of_wire(wire)))
}

/// A field that is an order status.
pub open spec fn status_field(data: Json, name: Seq<char>) -> Result<OrderStatus, FieldCause> {
    read_with(
        plain_text(data.member(name)),
        |wire: Seq<char>| known_word(OrderStatus::of_wire(wire)),
    )
}

/// A field that is an order tag.
pub open spec fn tag_field(data: Json, name: Seq<char>) -> Result<OrderTag, FieldCause> {
    read_with(plain_text(data.member(name)), |wire: Seq<char>| known_word(OrderTag::of_wire(wire)))
}

/// A field that is a trigger status, with its word for absent.
pub open spec fn trigger_status_field(data: Json, name: Seq<char>) -> Result<
    Option<TriggerStatus>,
    FieldCause,
> {
    read_with(plain_text(data.member(name)), |wire: Seq<char>| trigger_status_of_wire(wire))
}

/// The text of the member `name` of `data`, which must be a string.
fn plain_member<'a>(data: &'a Json, name: &str) -> (r: Result<&'a str, FieldCause>)
    ensures
        match r {
            Ok(text) => plain_text(data.member(name@)) == Ok::<Seq<char>, FieldCause>(text@),
            Err(cause) => plain_text(data.member(name@)) == Err::<Seq<char>, FieldCause>(cause),
        },
{
    match data.get(name) {
        None => Err(FieldCause::Missing),
        Some(Json::Str(text)) => Ok(text.as_str()),
        Some(_) => Err(FieldCause::NotText),
    }
}

/// The text of the member `name` of `data`, which must be a string or a
/// number.
fn scalar_member<'a>(data: &'a Json, name: &str) -> (r: Result<&'a str, FieldCause>)
    ensures
        match r {
            Ok(text) => scalar_text(data.member(name@)) == Ok::<Seq<char>, FieldCause>(text@),
            Err(cause) => scalar_text(data.member(name@)) == Err::<Seq<char>, FieldCause>(cause),
        },
{
    match data.get(name) {
        None => Err(FieldCause::Missing),
        Some(Json::Str(text)) => Ok(text.as_str()),
        Some(Json::Number(text)) => Ok(text.as_str()),
        Some(_) => Err(FieldCause::NotText),
    }
}

/// The text of the member `name` of `data`, which must be a string or a
/// number if it is there.
fn optional_scalar_member<'a>(data: &'a Json, name: &str) -> (r: Result<&'a str, FieldCause>)
    ensures
        match r {
            Ok(text) => optional_scalar_text(data.member(name@)) == Ok::<Seq<char>, FieldCause>(
                text@,
            ),
            Err(cause) => optional_scalar_text(data.member(name@)) == Err::<Seq<char>, FieldCause>(
                cause,
            ),
        },
{
    proof {
        reveal_strlit("");
    }
    match data.get(name) {
        None => {
            assert(""@ =~= Seq::<char>::empty());
            Ok("")
        },
        Some(Json::Null) => {
            assert(""@ =~= Seq::<char>::empty());
            Ok("")
        },
        Some(Json::Str(text)) => Ok(text.as_str()),
        Some(Json::Number(text)) => Ok(text.as_str()),
        Some(_) => Err(FieldCause::NotText),
    }
}

/// Reads the member `name` of `data` as a text.
fn text_member(data: &Json, name: &str) -> (r: Result<String, FieldCause>)
    ensures
        match r {
            Ok(text) => text_field(*data, name@) == Ok::<Seq<char>, FieldCause>(text@),
            Err(cause) => text_field(*data, name@) == Err::<Seq<char>, FieldCause>(cause),
        },
{
    match plain_member(data, name) {
        Ok(text) => Ok(text.to_owned()),
        Err(cause) => Err(cause),
    }
}

/// Reads the member `name` of `data` as a decimal that must be there.
fn decimal_member(data: &Json, name: &str) -> (r: Result<Decimal, FieldCause>)
    ensures
        match r {
            Ok(d) => decimal_field(*data, name@) == Ok::<(i128, u32), FieldCause>(
                (d.spec_mantissa(), d.spec_scale()),
            ),
            Err(cause) => decimal_field(*data, name@) == Err::<(i128, u32), FieldCause>(cause),
        },
{
    match plain_member(data, name) {
        Err(cause) => Err(cause),
        Ok(wire) => match decode_decimal(wire) {
            Ok(value) => Ok(value),
            Err(fault) => Err(FieldCause::Wire(fault)),
        },
    }
}

/// Reads the member `name` of `data` as a decimal for which zero means
/// absent.
fn decimal_or_zero_member(data: &Json, name: &str) -> (r: Result<Option<Decimal>, FieldCause>)
    ensures
        match r {
            Ok(value) => decimal_or_zero_field(*data, name@) == Ok::<
                Option<(i128, u32)>,
                FieldCause,
            >(number_of(value)),
            Err(cause) => decimal_or_zero_field(*data, name@) == Err::<
                Option<(i128, u32)>,
                FieldCause,
            >(cause),
        },
{
    match plain_member(data, name) {
        Err(cause) => Err(cause),
        Ok(wire) => match decode_decimal_or_zero(wire) {
            Ok(value) => Ok(value),
            Err(fault) => Err(FieldCause::Wire(fault)),
        },
    }
}

/// Reads the member `name` of `data` as a decimal for which the empty text
/// means absent.
fn decimal_or_empty_member(data: &Json, name: &str) -> (r: Result<Option<Decimal>, FieldCause>)
    ensures
        match r {
            Ok(value) => decimal_or_empty_field(*data, name@) == Ok::<
                Option<(i128, u32)>,
                FieldCause,
            >(number_of(value)),
            Err(cause) => decimal_or_empty_field(*data, name@) == Err::<
                Option<(i128, u32)>,
                FieldCause,
            >(cause),
        },
{
    match plain_member(data, name) {
        Err(cause) => Err(cause),
        Ok(wire) => match decode_decimal_or_empty(wire) {
            Ok(value) => Ok(value),
            Err(fault) => Err(FieldCause::Wire(fault)),
        },
    }
}

/// Reads the member `name` of `data` as a time that must be there.
fn timestamp_member(data: &Json, name: &str) -> (r: Result<Timestamp, FieldCause>)
    ensures
        match r {
            Ok(time) => timestamp_field(*data, name@) == Ok::<i64, FieldCause>(time.seconds()),
            Err(cause) => timestamp_field(*data, name@) == Err::<i64, FieldCause>(cause),
        },
{
    match scalar_member(data, name) {
        Err(cause) => Err(cause),
        Ok(wire) => match decode_timestamp(wire) {
            Ok(value) => Ok(value),
            Err(fault) => Err(FieldCause::Wire(fault)),
        },
    }
}

/// Reads the member `name` of `data` as a time for which zero means absent.
fn timestamp_or_zero_member(data: &Json, name: &str) -> (r: Result<Option<Timestamp>, FieldCause>)
    ensures
        match r {
            Ok(value) => timestamp_or_zero_field(*data, name@) == Ok::<Option<i64>, FieldCause>(
                seconds_of(value),
            ),
            Err(cause) => timestamp_or_zero_field(*data, name@) == Err::<Option<i64>, FieldCause>(
                cause,
            ),
        },
{
    match optional_scalar_member(data, name) {
        Err(cause) => Err(cause),
        Ok(wire) => match decode_timestamp_or_zero(wire) {
            Ok(value) => Ok(value),
            Err(fault) => Err(FieldCause::Wire(fault)),
        },
    }
}

/// Reads the member `name` of `data` as an order side.
fn side_member(data: &Json, name: &str) -> (r: Result<OrderSide, FieldCause>)
    ensures
        r == side_field(*data, name@),
{
    match plain_member(data, name) {
        Err(cause) => Err(cause),
        Ok(wire) => match OrderSide::from_wire(wire) {
            Some(value) => Ok(value),
            None => Err(FieldCause::Wire(WireFault::Word)),
        },
    }
}

/// Reads the member `name` of `data` as an order type.
fn order_type_member(data: &Json, name: &str) -> (r: Result<OrderType, FieldCause>)
    ensures
        r == order_type_field(*data, name@),
{
    match plain_member(data, name) {
        Err(cause) => Err(cause),
        Ok(wire) => match OrderType::from_wire(wire) {
            Some(value) => Ok(value),
            None => Err(FieldCause::Wire(WireFault::Word)),
        },
    }
}

/// Reads the member `name` of `data` as an order status.
fn status_member(data: &Json, name: &str) -> (r: Result<OrderStatus, FieldCause>)
    ensures
        r == status_field(*data, name@),
{
    match plain_member(data, name) {
        Err(cause) => Err(cause),
        Ok(wire) => match OrderStatus::from_wire(wire) {
            Some(value) => Ok(value),
            None => Err(FieldCause::Wire(WireFault::Word)),
        },
    }
}

/// Reads the member `name` of `data` as an order tag.
fn tag_member(data: &Json, name: &str) -> (r: Result<OrderTag, FieldCause>)
    ensures
        r == tag_field(*data, name@),
{
    match plain_member(data, name) {
        Err(cause) => Err(cause),
        Ok(wire) => match OrderTag::from_wire(wire) {
            Some(value) => Ok(value),
            None => Err(FieldCause::Wire(WireFault::Word)),
        },
    }
}

/// Reads the member `name` of `data` as a trigger status.
fn trigger_status_member(data: &Json, name: &str) -> (r: Result<Option<TriggerStatus>, FieldCause>)
    ensures
        r == trigger_status_field(*data, name@),
{
    match plain_member(data, name) {
        Err(cause) => Err(cause),
        Ok(wire) => match decode_trigger_status(wire) {
            Ok(value) => Ok(value),
            Err(fault) => Err(FieldCause::Wire(fault)),
        },
    }
}

/// Order changed message
#[derive(Debug, Clone, PartialEq, Eq)]
pub struct PushOrderChanged {
    /// Order side
    pub side: OrderSide,
    /// Stock name
    pub stock_name: String,
    /// Submitted quantity
    pub submitted_quantity: Decimal,
    /// Order symbol
    pub symbol: String,
    /// Order type
    pub order_type: OrderType,
    /// Submitted price
    pub submitted_price: Decimal,
    /// Executed quantity
    pub executed_quantity: Decimal,
    /// Executed price
    pub executed_price: Option<Decimal>,
    /// Order ID
    pub order_id: String,
    /// Currency
    pub currency: String,
    /// Order status
    pub status: OrderStatus,
    /// Submitted time
    pub submitted_at: Timestamp,
    /// Last updated time
    pub updated_at: Timestamp,
    /// Order trigger price
    pub trigger_price: Option<Decimal>,
    /// Rejected message or remark
    pub msg: String,
    /// Order tag
    pub tag: OrderTag,
    /// Conditional order trigger status
    pub trigger_status: Option<TriggerStatus>,
    /// Conditional order trigger time
    pub trigger_at: Option<Timestamp>,
    /// Trailing amount
    pub trailing_amount: Option<Decimal>,
    /// Trailing percent
    pub trailing_percent: Option<Decimal>,
    /// Limit offset amount
    pub limit_offset: Option<Decimal>,
    /// Account no
    pub account_no: String,
    /// Last share
    pub last_share: Option<Decimal>,
    /// Last price
    pub last_price: Option<Decimal>,
    /// Remark message
    pub remark: String,
}

/// A [`PushOrderChanged`] with its strings as sequences of characters, its
/// decimals as mantissa and scale, and its times as seconds since the Unix
/// epoch.
pub struct PushOrderChangedView {
    pub side: OrderSide,
    pub stock_name: Seq<char>,
    pub submitted_quantity: (i128, u32),
    pub symbol: Seq<char>,
    pub order_type: OrderType,
    pub submitted_price: (i128, u32),
    pub executed_quantity: (i128, u32),
    pub executed_price: Option<(i128, u32)>,
    pub order_id: Seq<char>,
    pub currency: Seq<char>,
    pub status: OrderStatus,
    pub submitted_at: i64,
    pub updated_at: i64,
    pub trigger_price: Option<(i128, u32)>,
    pub msg: Seq<char>,
    pub tag: OrderTag,
    pub trigger_status: Option<TriggerStatus>,
    pub trigger_at: Option<i64>,
    pub trailing_amount: Option<(i128, u32)>,
    pub trailing_percent: Option<(i128, u32)>,
    pub limit_offset: Option<(i128, u32)>,
    pub account_no: Seq<char>,
    pub last_share: Option<(i128, u32)>,
    pub last_price: Option<(i128, u32)>,
    pub remark: Seq<char>,
}

impl View for PushOrderChanged {
    type V = PushOrderChangedView;

    open spec fn view(&self) -> PushOrderChangedView {
        PushOrderChangedView {
            side: self.side,
            stock_name: self.stock_name@,
            submitted_quantity: (self.submitted_quantity.spec_mantissa(), self.submitted_quantity.spec_scale()),
            symbol: self.symbol@,
            order_type: self.order_type,
            submitted_price: (self.submitted_price.spec_mantissa(), self.submitted_price.spec_scale()),
            executed_quantity: (self.executed_quantity.spec_mantissa(), self.executed_quantity.spec_scale()),
            executed_price: number_of(self.executed_price),
            order_id: self.order_id@,
            currency: self.currency@,
            status: self.status,
            submitted_at: self.submitted_at.seconds(),
            updated_at: self.updated_at.seconds(),
            trigger_price: number_of(self.trigger_price),
            msg: self.msg@,
            tag: self.tag,
            trigger_status: self.trigger_status,
            trigger_at: seconds_of(self.trigger_at),
            trailing_amount: number_of(self.trailing_amount),
            trailing_percent: number_of(self.trailing_percent),
            limit_offset: number_of(self.limit_offset),
            account_no: self.account_no@,
            last_share: number_of(self.last_share),
            last_price: number_of(self.last_price),
            remark: self.remark@,
        }
    }
}

/// The order change that the members of `data` stand for, each read by the
/// convention of its field; or the first field, in the order in which they
/// are declared, that cannot be read, and why.
pub open spec fn order_changed_of(data: Json) -> Result<PushOrderChangedView, (Seq<char>, FieldCause)> {
    if side_field(data, "side"@) is Err {
        Err(("side"@, side_field(data, "side"@)->Err_0))
    } else if text_field(data, "stock_name"@) is Err {
        Err(("stock_name"@, text_field(data, "stock_name"@)->Err_0))
    } else if decimal_field(data, "submitted_quantity"@) is Err {
        Err(("submitted_quantity"@, decimal_field(data, "submitted_quantity"@)->Err_0))
    } else if text_field(data, "symbol"@) is Err {
        Err(("symbol"@, text_field(data, "symbol"@)->Err_0))
    } else if order_type_field(data, "order_type"@) is Err {
        Err(("order_type"@, order_type_field(data, "order_type"@)->Err_0))
    } else if decimal_field(data, "submitted_price"@) is Err {
        Err(("submitted_price"@, decimal_field(data, "submitted_price"@)->Err_0))
    } else if decimal_field(data, "executed_quantity"@) is Err {
        Err(("executed_quantity"@, decimal_field(data, "executed_quantity"@)->Err_0))
    } else if decimal_or_zero_field(data, "executed_price"@) is Err {
        Err(("executed_price"@, decimal_or_zero_field(data, "executed_price"@)->Err_0))
    } else if text_field(data, "order_id"@) is Err {
        Err(("order_id"@, text_field(data, "order_id"@)->Err_0))
    } else if text_field(data, "currency"@) is Err {
        Err(("currency"@, text_field(data, "currency"@)->Err_0))
    } else if status_field(data, "status"@) is Err {
        Err(("status"@, status_field(data, "status"@)->Err_0))
    } else if timestamp_field(data, "submitted_at"@) is Err {
        Err(("submitted_at"@, timestamp_field(data, "submitted_at"@)->Err_0))
    } else if timestamp_field(data, "updated_at"@) is Err {
        Err(("updated_at"@, timestamp_field(data, "updated_at"@)->Err_0))
    } else if decimal_or_empty_field(data, "trigger_price"@) is Err {
        Err(("trigger_price"@, decimal_or_empty_field(data, "trigger_price"@)->Err_0))
    } else if text_field(data, "msg"@) is Err {
        Err(("msg"@, text_field(data, "msg"@)->Err_0))
    } else if tag_field(data, "tag"@) is Err {
        Err(("tag"@, tag_field(data, "tag"@)->Err_0))
    } else if trigger_status_field(data, "trigger_status"@) is Err {
        Err(("trigger_status"@, trigger_status_field(data, "trigger_status"@)->Err_0))
    } else if timestamp_or_zero_field(data, "trigger_at"@) is Err {
        Err(("trigger_at"@, timestamp_or_zero_field(data, "trigger_at"@)->Err_0))
    } else if decimal_or_empty_field(data, "trailing_amount"@) is Err {
        Err(("trailing_amount"@, decimal_or_empty_field(data, "trailing_amount"@)->Err_0))
    } else if decimal_or_empty_field(data, "trailing_percent"@) is Err {
        Err(("trailing_percent"@, decimal_or_empty_field(data, "trailing_percent"@)->Err_0))
    } else if decimal_or_empty_field(data, "limit_offset"@) is Err {
        Err(("limit_offset"@, decimal_or_empty_field(data, "limit_offset"@)->Err_0))
    } else if text_field(data, "account_no"@) is Err {
        Err(("account_no"@, text_field(data, "account_no"@)->Err_0))
    } else if decimal_or_empty_field(data, "last_share"@) is Err {
        Err(("last_share"@, decimal_or_empty_field(data, "last_share"@)->Err_0))
    } else if decimal_or_empty_field(data, "last_price"@) is Err {
        Err(("last_price"@, decimal_or_empty_field(data, "last_price"@)->Err_0))
    } else if text_field(data, "remark"@) is Err {
        Err(("remark"@, text_field(data, "remark"@)->Err_0))
    } else {
        Ok(
            PushOrderChangedView {
                side: side_field(data, "side"@)->Ok_0,
                stock_name: text_field(data, "stock_name"@)->Ok_0,
                submitted_quantity: decimal_field(data, "submitted_quantity"@)->Ok_0,
                symbol: text_field(data, "symbol"@)->Ok_0,
                order_type: order_type_field(data, "order_type"@)->Ok_0,
                submitted_price: decimal_field(data, "submitted_price"@)->Ok_0,
                executed_quantity: decimal_field(data, "executed_quantity"@)->Ok_0,
                executed_price: decimal_or_zero_field(data, "executed_price"@)->Ok_0,
                order_id: text_field(data, "order_id"@)->Ok_0,
                currency: text_field(data, "currency"@)->Ok_0,
                status: status_field(data, "status"@)->Ok_0,
                submitted_at: timestamp_field(data, "submitted_at"@)->Ok_0,
                updated_at: timestamp_field(data, "updated_at"@)->Ok_0,
                trigger_price: decimal_or_empty_field(data, "trigger_price"@)->Ok_0,
                msg: text_field(data, "msg"@)->Ok_0,
                tag: tag_field(data, "tag"@)->Ok_0,
                trigger_status: trigger_status_field(data, "trigger_status"@)->Ok_0,
                trigger_at: timestamp_or_zero_field(data, "trigger_at"@)->Ok_0,
                trailing_amount: decimal_or_empty_field(data, "trailing_amount"@)->Ok_0,
                trailing_percent: decimal_or_empty_field(data, "trailing_percent"@)->Ok_0,
                limit_offset: decimal_or_empty_field(data, "limit_offset"@)->Ok_0,
                account_no: text_field(data, "account_no"@)->Ok_0,
                last_share: decimal_or_empty_field(data, "last_share"@)->Ok_0,
                last_price: decimal_or_empty_field(data, "last_price"@)->Ok_0,
                remark: text_field(data, "remark"@)->Ok_0,
            },
        )
    }
}

impl PushOrderChanged {
    /// Reads an order change from the members of `data`.
    pub fn from_json(data: &Json) -> (r: Result<PushOrderChanged, FieldFault>)
        ensures
            match r {
                Ok(order) => order_changed_of(*data) == Ok::<
                    PushOrderChangedView,
                    (Seq<char>, FieldCause),
                >(order@),
                Err(fault) => order_changed_of(*data) == Err::<
                    PushOrderChangedView,
                    (Seq<char>, FieldCause),
                >((fault.name@, fault.cause)),
            },
    {
        let side = match side_member(data, "side") {
            Ok(value) => value,
            Err(cause) => {
                return Err(FieldFault { name: "side", cause });
            },
        };
        let stock_name = match text_member(data, "stock_name") {
            Ok(value) => value,
            Err(cause) => {
                return Err(FieldFault { name: "stock_name", cause });
            },
        };
        let submitted_quantity = match decimal_member(data, "submitted_quantity") {
            Ok(value) => value,
            Err(cause) => {
                return Err(FieldFault { name: "submitted_quantity", cause });
            },
        };
        let symbol = match text_member(data, "symbol") {
            Ok(value) => value,
            Err(cause) => {
                return Err(FieldFault { name: "symbol", cause });
            },
        };
        let order_type = match order_type_member(data, "order_type") {
            Ok(value) => value,
            Err(cause) => {
                return Err(FieldFault { name: "order_type", cause });
            },
        };
        let submitted_price = match decimal_member(data, "submitted_price") {
            Ok(value) => value,
            Err(cause) => {
                return Err(FieldFault { name: "submitted_price", cause });
            },
        };
        let executed_quantity = match decimal_member(data, "executed_quantity") {
            Ok(value) => value,
            Err(cause) => {
                return Err(FieldFault { name: "executed_quantity", cause });
            },
        };
        let executed_price = match decimal_or_zero_member(data, "executed_price") {
            Ok(value) => value,
            Err(cause) => {
                return Err(FieldFault { name: "executed_price", cause });
            },
        };
        let order_id = match text_member(data, "order_id") {
            Ok(value) => value,
            Err(cause) => {
                return Err(FieldFault { name: "order_id", cause });
            },
        };
        let currency = match text_member(data, "currency") {
            Ok(value) => value,
            Err(cause) => {
                return Err(FieldFault { name: "currency", cause });
            },
        };
        let status = match status_member(data, "status") {
            Ok(value) => value,
            Err(cause) => {
                return Err(FieldFault { name: "status", cause });
            },
        };
        let submitted_at = match timestamp_member(data, "submitted_at") {
            Ok(value) => value,
            Err(cause) => {
                return Err(FieldFault { name: "submitted_at", cause });
            },
        };
        let updated_at = match timestamp_member(data, "updated_at") {
            Ok(value) => value,
            Err(cause) => {
                return Err(FieldFault { name: "updated_at", cause });
            },
        };
        let trigger_price = match decimal_or_empty_member(data, "trigger_price") {
            Ok(value) => value,
            Err(cause) => {
                return Err(FieldFault { name: "trigger_price", cause });
            },
        };
        let msg = match text_member(data, "msg") {
            Ok(value) => value,
            Err(cause) => {
                return Err(FieldFault { name: "msg", cause });
            },
        };
        let tag = match tag_member(data, "tag") {
            Ok(value) => value,
            Err(cause) => {
                return Err(FieldFault { name: "tag", cause });
            },
        };
        let trigger_status = match trigger_status_member(data, "trigger_status") {
            Ok(value) => value,
            Err(cause) => {
                return Err(FieldFault { name: "trigger_status", cause });
            },
        };
        let trigger_at = match timestamp_or_zero_member(data, "trigger_at") {
            Ok(value) => value,
            Err(cause) => {
                return Err(FieldFault { name: "trigger_at", cause });
            },
        };
        let trailing_amount = match decimal_or_empty_member(data, "trailing_amount") {
            Ok(value) => value,
            Err(cause) => {
                return Err(FieldFault { name: "trailing_amount", cause });
            },
        };
        let trailing_percent = match decimal_or_empty_member(data, "trailing_percent") {
            Ok(value) => value,
            Err(cause) => {
                return Err(FieldFault { name: "trailing_percent", cause });
            },
        };
        let limit_offset = match decimal_or_empty_member(data, "limit_offset") {
            Ok(value) => value,
            Err(cause) => {
                return Err(FieldFault { name: "limit_offset", cause });
            },
        };
        let account_no = match text_member(data, "account_no") {
            Ok(value) => value,
            Err(cause) => {
                return Err(FieldFault { name: "account_no", cause });
            },
        };
        let last_share = match decimal_or_empty_member(data, "last_share") {
            Ok(value) => value,
            Err(cause) => {
                return Err(FieldFault { name: "last_share", cause });
            },
        };
        let last_price = match decimal_or_empty_member(data, "last_price") {
            Ok(value) => value,
            Err(cause) => {
                return Err(FieldFault { name: "last_price", cause });
            },
        };
        let remark = match text_member(data, "remark") {
            Ok(value) => value,
            Err(cause) => {
                return Err(FieldFault { name: "remark", cause });
            },
        };
        Ok(
            PushOrderChanged {
                side,
                stock_name,
                submitted_quantity,
                symbol,
                order_type,
                submitted_price,
                executed_quantity,
                executed_price,
                order_id,
                currency,
                status,
                submitted_at,
                updated_at,
                trigger_price,
                msg,
                tag,
                trigger_status,
                trigger_at,
                trailing_amount,
                trailing_percent,
                limit_offset,
                account_no,
                last_share,
                last_price,
                remark,
            },
        )
    }
}

/// Push event
#[derive(Debug, Clone, PartialEq, Eq)]
pub enum PushEvent {
    /// Order changed
    OrderChanged(PushOrderChanged),
}

/// A [`PushEvent`] with its strings as sequences of characters.
pub enum PushEventView {
    OrderChanged(PushOrderChangedView),
}

impl View for PushEvent {
    type V = PushEventView;

    open spec fn view(&self) -> PushEventView {
        match *self {
            PushEvent::OrderChanged(order) => PushEventView::OrderChanged(order@),
        }
    }
}

/// The event that a document stands for: the member `event` says which, the
/// member `data` holds its fields.
pub open spec fn event_of(document: Json) -> Result<PushEventView, EventFaultView> {
    match document.member_text("event"@) {
        Err(fault) => Err(EventFaultView::Event(fault)),
        Ok(event) => if event != "order_changed_lb"@ {
            Err(EventFaultView::UnknownEvent)
        } else {
            match document.member("data"@) {
                None => Err(EventFaultView::Data),
                Some(data) => match order_changed_of(data) {
                    Ok(order) => Ok(PushEventView::OrderChanged(order)),
                    Err((name, cause)) => Err(EventFaultView::Field(name, cause)),
                },
            }
        },
    }
}

/// Why a member of the payload cannot be read, in words.
pub open spec fn cause_text(cause: FieldCause) -> Seq<char> {
    match cause {
        FieldCause::Missing => "missing"@,
        FieldCause::NotText => "expected a string"@,
        FieldCause::Wire(WireFault::Decimal) => "invalid decimal"@,
        FieldCause::Wire(WireFault::Integer) => "invalid integer"@,
        FieldCause::Wire(WireFault::Time) => "timestamp out of range"@,
        FieldCause::Wire(WireFault::Word) => "unknown variant"@,
    }
}

/// Why a document is no push event, in words.
pub open spec fn event_fault_text(fault: EventFaultView) -> Seq<char> {
    match fault {
        EventFaultView::Event(MemberFault::Missing) => "missing field `event`"@,
        EventFaultView::Event(MemberFault::NotText) => "invalid type for `event`: expected a string"@,
        EventFaultView::UnknownEvent => "unknown variant of `event`, expected `order_changed_lb`"@,
        EventFaultView::Data => "missing field `data`"@,
        EventFaultView::Field(name, cause) => "field `"@ + name + "`: "@ + cause_text(cause),
    }
}

/// What becomes of a frame.
pub enum FrameOutcome {
    /// The command code is not that of a push notification.
    UnknownCommand(u8),
    /// The bytes are no envelope.
    NoEnvelope,
    /// The envelope's topic is not one that is listened to.
    Filtered,
    /// The envelope's payload is no JSON document; holds the reader's
    /// message.
    NoDocument(Seq<char>),
    /// The document is no event.
    NoEvent(EventFaultView),
    /// The event.
    Event(PushEventView),
}

/// What becomes of the frame with the given command code and bytes.
pub open spec fn frame_outcome(command_code: u8, data: Seq<u8>) -> FrameOutcome {
    if command_code != PUSH_NOTIFICATION {
        FrameOutcome::UnknownCommand(command_code)
    } else {
        match notification_of(data) {
            None => FrameOutcome::NoEnvelope,
            Some(notification) => if TopicType::of_wire(notification.topic) is None {
                FrameOutcome::Filtered
            } else {
                match json_document(notification.data) {
                    Err(message) => FrameOutcome::NoDocument(message),
                    Ok(document) => match event_of(document) {
                        Err(fault) => FrameOutcome::NoEvent(fault),
                        Ok(event) => FrameOutcome::Event(event),
                    },
                }
            },
        }
    }
}

impl FieldCause {
    /// Why the member cannot be read, in words.
    pub fn describe(&self) -> (r: &'static str)
        ensures
            r@ == cause_text(*self),
    {
        match self {
            FieldCause::Missing => "missing",
            FieldCause::NotText => "expected a string",
            FieldCause::Wire(WireFault::Decimal) => "invalid decimal",
            FieldCause::Wire(WireFault::Integer) => "invalid integer",
            FieldCause::Wire(WireFault::Time) => "timestamp out of range",
            FieldCause::Wire(WireFault::Word) => "unknown variant",
        }
    }
}

impl EventFault {
    /// Why the document is no push event, in words.
    pub fn describe(&self) -> (r: String)
        ensures
            r@ == event_fault_text(self@),
    {
        match self {
            EventFault::Event(MemberFault::Missing) => String::from_str("missing field `event`"),
            EventFault::Event(MemberFault::NotText) => String::from_str(
                "invalid type for `event`: expected a string",
            ),
            EventFault::UnknownEvent => String::from_str(
                "unknown variant of `event`, expected `order_changed_lb`",
            ),
            EventFault::Data => String::from_str("missing field `data`"),
            EventFault::Field(fault) => {
                let mut out = String::from_str("field `");
                out.append(fault.name);
                out.append("`: ");
                out.append(fault.cause.describe());
                out
            },
        }
    }
}

impl PushEvent {
    /// Reads an event from its document.
    pub fn from_json(document: &Json) -> (r: Result<PushEvent, EventFault>)
        ensures
            match r {
                Ok(event) => event_of(*document) == Ok::<PushEventView, EventFaultView>(event@),
                Err(fault) => event_of(*document) == Err::<PushEventView, EventFaultView>(fault@),
            },
    {
        let event = match document.get_str("event") {
            Ok(event) => event,
            Err(fault) => {
                return Err(EventFault::Event(fault));
            },
        };
        if !str_eq(event, "order_changed_lb") {
            return Err(EventFault::UnknownEvent);
        }
        let data = match document.get("data") {
            Some(data) => data,
            None => {
                return Err(EventFault::Data);
            },
        };
        match PushOrderChanged::from_json(data) {
            Ok(order) => Ok(PushEvent::OrderChanged(order)),
            Err(fault) => Err(EventFault::Field(fault)),
        }
    }

    /// Decodes the frame with the given command code and bytes. A frame
    /// with another command code is an error; so are bytes that are no
    /// envelope and a payload that is no event. An envelope with a topic
    /// that is not listened to gives no event and no error.
    pub fn parse(command_code: u8, data: &[u8]) -> (r: Result<Option<PushEvent>, Error>)
        ensures
            match frame_outcome(command_code, data@) {
                FrameOutcome::UnknownCommand(code) => r matches Err(e) && e@
                    == ErrorView::UnknownCommand(code),
                FrameOutcome::NoEnvelope => r matches Err(Error::DecodeProtobuf(_)),
                FrameOutcome::Filtered => r matches Ok(None),
                FrameOutcome::NoDocument(message) => r matches Err(e) && e@ == ErrorView::DecodeJSON(
                    message,
                ),
                FrameOutcome::NoEvent(fault) => r matches Err(e) && e@ == ErrorView::DecodeJSON(
                    event_fault_text(fault),
                ),
                FrameOutcome::Event(event) => r matches Ok(Some(decoded)) && decoded@ == event,
            },
    {
        if command_code == PUSH_NOTIFICATION {
            let notification = match Notification::decode(data) {
                Ok(notification) => notification,
                Err(e) => {
                    return Err(e);
                },
            };
            match TopicType::from_wire(notification.topic.as_str()) {
                Some(TopicType::Private) => {
                    let document = match Json::parse(notification.data.as_slice()) {
                        Ok(document) => document,
                        Err(message) => {
                            return Err(Error::DecodeJSON(message));
                        },
                    };
                    match PushEvent::from_json(&document) {
                        Ok(event) => Ok(Some(event)),
                        Err(fault) => Err(Error::DecodeJSON(fault.describe())),
                    }
                },
                None => Ok(None),
            }
        } else {
            Err(Error::UnknownCommand(command_code))
        }
    }
}

/// A frame with another command code than that of a push notification is
/// an unknown command, whatever its bytes.
pub proof fn lemma_other_command_is_unknown(command_code: u8, data: Seq<u8>)
    requires
        command_code != PUSH_NOTIFICATION,
    ensures
        frame_outcome(command_code, data) == FrameOutcome::UnknownCommand(command_code),
{
}

/// A push notification whose envelope decodes and whose topic is not one
/// that is listened to is filtered: it is no event and no error.
pub proof fn lemma_other_topic_is_filtered(data: Seq<u8>)
    ensures
        notification_of(data) matches Some(notification) && notification.topic != "private"@
            ==> frame_outcome(PUSH_NOTIFICATION, data) == FrameOutcome::Filtered,
{
}

/// A push notification of the private topic whose payload is a document
/// with the event `order_changed_lb` and with data of which every field can
/// be read is decoded: the event holds every field as its convention reads
/// it.
pub proof fn lemma_valid_frame_is_decoded(data: Seq<u8>, document: Json, payload: Json)
    ensures
        ({
            &&& notification_of(data) matches Some(notification)
            &&& notification.topic == "private"@
            &&& json_document(notification.data) == Ok::<Json, Seq<char>>(document)
            &&& document.member_text("event"@) == Ok::<Seq<char>, MemberFault>(
                "order_changed_lb"@,
            )
            &&& document.member("data"@) == Some(payload)
            &&& order_changed_of(payload) is Ok
        }) ==> frame_outcome(PUSH_NOTIFICATION, data) == FrameOutcome::Event(
            PushEventView::OrderChanged(order_changed_of(payload)->Ok_0),
        ),
{
}

/// In a decoded order change, the executed price is what the reader makes
/// of the member's text, with zero for absent, and the trigger price is
/// what it makes of the member's text, with the empty text for absent.
pub proof fn lemma_prices_of_a_decoded_order(payload: Json, executed: Seq<char>, trigger: Seq<char>)
    ensures
        ({
            &&& order_changed_of(payload) is Ok
            &&& plain_text(payload.member("executed_price"@)) == Ok::<Seq<char>, FieldCause>(
                executed,
            )
            &&& plain_text(payload.member("trigger_price"@)) == Ok::<Seq<char>, FieldCause>(
                trigger,
            )
        }) ==> {
            &&& decimal_read(executed) matches Some(number)
            &&& order_changed_of(payload)->Ok_0.executed_price == absent_if_zero(number)
            &&& order_changed_of(payload)->Ok_0.trigger_price == if trigger.len() == 0 {
                None
            } else {
                decimal_read(trigger)
            }
            &&& trigger.len() > 0 ==> decimal_read(trigger) is Some
        },
{
}

} // verus!
