//! The conventions of the wire for scalar fields, one conversion for each:
//! a decimal that must be there, a decimal for which zero means absent, a
//! decimal for which the empty text means absent, a timestamp in whole
//! seconds, a timestamp for which zero means absent, and a trigger status
//! for which a word of its own means absent. Which convention a field
//! follows is said where the field is declared, never guessed from its
//! value: a quantity of zero is a quantity.

use vstd::prelude::*;

use crate::decimal::{
    decimal_read, decimal_text, lemma_trailing_zeros_of_two_numbers, same_value, Decimal,
};
use crate::text::{int_text, integer_of_text, lemma_integer_round_trip, push_int, str_eq};
use crate::timestamp::{calendar_accepts, Timestamp};
use crate::trade::TriggerStatus;

verus! {

/// Calls `str::parse::<i64>`. The contract states the rule of the standard
/// library: an optional sign, then decimal digits and nothing else, at
/// least one, and a number within the 64 signed bits; any other text is an
/// error.
#[verifier::external_body]
fn read_integer(text: &str) -> (r: Option<i64>)
    ensures
        r == integer_of_text(text@),
{
    text.parse::<i64>().ok()
}

/// Why a value on the wire is rejected.
#[derive(Debug, Clone, Copy, PartialEq, Eq)]
pub enum WireFault {
    /// The text is no decimal number.
    Decimal,
    /// The text is no integer.
    Integer,
    /// The integer is a time that the calendar does not reach.
    Time,
    /// The word is not in the vocabulary.
    Word,
}

/// The word that stands for "no trigger status" on the wire.
pub open spec fn not_used() -> Seq<char> {
    "NOT_USED"@
}

/// A decimal that must be there.
pub open spec fn decimal_of_wire(wire: Seq<char>) -> Result<(i128, u32), WireFault> {
    match decimal_read(wire) {
        Some(number) => Ok(number),
        None => Err(WireFault::Decimal),
    }
}

/// Zero stands for "absent": any other number stands for itself.
pub open spec fn absent_if_zero(number: (i128, u32)) -> Option<(i128, u32)> {
    if number.0 == 0 {
        None
    } else {
        Some(number)
    }
}

/// "Absent" is written as zero: any number is written as itself.
pub open spec fn zero_if_absent(value: Option<(i128, u32)>) -> (i128, u32) {
    match value {
        Some(number) => number,
        None => (0, 0),
    }
}

/// A decimal for which zero on the wire means that there is none.
pub open spec fn decimal_or_zero_of_wire(wire: Seq<char>) -> Result<
    Option<(i128, u32)>,
    WireFault,
> {
    match decimal_read(wire) {
        Some(number) => Ok(absent_if_zero(number)),
        None => Err(WireFault::Decimal),
    }
}

/// A decimal for which the empty text on the wire means that there is none.
pub open spec fn decimal_or_empty_of_wire(wire: Seq<char>) -> Result<
    Option<(i128, u32)>,
    WireFault,
> {
    if wire.len() == 0 {
        Ok(None)
    } else {
        match decimal_read(wire) {
            Some(number) => Ok(Some(number)),
            None => Err(WireFault::Decimal),
        }
    }
}

/// A time in whole seconds since the Unix epoch.
pub open spec fn timestamp_of_wire(wire: Seq<char>) -> Result<i64, WireFault> {
    match integer_of_text(wire) {
        None => Err(WireFault::Integer),
        Some(seconds) => if calendar_accepts(seconds as int) {
            Ok(seconds)
        } else {
            Err(WireFault::Time)
        },
    }
}

/// A time for which the empty text or zero on the wire means that there is
/// none.
pub open spec fn timestamp_or_zero_of_wire(wire: Seq<char>) -> Result<Option<i64>, WireFault> {
    if wire.len() == 0 {
        Ok(None)
    } else {
        match integer_of_text(wire) {
            None => Err(WireFault::Integer),
            Some(seconds) => if seconds == 0 {
                Ok(None)
            } else if calendar_accepts(seconds as int) {
                Ok(Some(seconds))
            } else {
                Err(WireFault::Time)
            },
        }
    }
}

/// A trigger status for which a word of its own means that there is none.
pub open spec fn trigger_status_of_wire(wire: Seq<char>) -> Result<
    Option<TriggerStatus>,
    WireFault,
> {
    if wire == not_used() {
        Ok(None)
    } else {
        match TriggerStatus::of_wire(wire) {
            Some(status) => Ok(Some(status)),
            None => Err(WireFault::Word),
        }
    }
}

/// The mantissa and the scale of a decimal that may be absent.
pub open spec fn number_of(value: Option<Decimal>) -> Option<(i128, u32)> {
    match value {
        Some(d) => Some((d.spec_mantissa(), d.spec_scale())),
        None => None,
    }
}

/// The seconds of a time that may be absent.
pub open spec fn seconds_of(value: Option<Timestamp>) -> Option<i64> {
    match value {
        Some(t) => Some(t.seconds()),
        None => None,
    }
}

/// Zero stands for "absent": any other number stands for itself.
pub fn zero_to_absent(number: Decimal) -> (r: Option<Decimal>)
    ensures
        r == if number.spec_mantissa() == 0 {
            None
        } else {
            Some(number)
        },
        number_of(r) == absent_if_zero((number.spec_mantissa(), number.spec_scale())),
{
    if number.is_zero() {
        None
    } else {
        Some(number)
    }
}

/// "Absent" is written as zero: any number is written as itself.
pub fn absent_to_zero(value: Option<Decimal>) -> (r: Decimal)
    ensures
        match value {
            Some(number) => r == number,
            None => r.spec_mantissa() == 0 && r.spec_scale() == 0,
        },
        (r.spec_mantissa(), r.spec_scale()) == zero_if_absent(number_of(value)),
{
    match value {
        Some(number) => number,
        None => Decimal::zero(),
    }
}

/// Reads a decimal that must be there.
pub fn decode_decimal(wire: &str) -> (r: Result<Decimal, WireFault>)
    ensures
        match r {
            Ok(d) => decimal_of_wire(wire@) == Ok::<(i128, u32), WireFault>(
                (d.spec_mantissa(), d.spec_scale()),
            ),
            Err(fault) => decimal_of_wire(wire@) == Err::<(i128, u32), WireFault>(fault),
        },
{
    match Decimal::parse(wire) {
        Some(number) => Ok(number),
        None => Err(WireFault::Decimal),
    }
}

/// Writes a decimal that must be there.
pub fn encode_decimal(value: &Decimal) -> (r: String)
    ensures
        r@ == decimal_text(value.spec_mantissa(), value.spec_scale()),
{
    value.render()
}

/// Reads a decimal for which zero means absent.
pub fn decode_decimal_or_zero(wire: &str) -> (r: Result<Option<Decimal>, WireFault>)
    ensures
        match r {
            Ok(value) => decimal_or_zero_of_wire(wire@) == Ok::<Option<(i128, u32)>, WireFault>(
                number_of(value),
            ),
            Err(fault) => decimal_or_zero_of_wire(wire@) == Err::<Option<(i128, u32)>, WireFault>(
                fault,
            ),
        },
{
    match Decimal::parse(wire) {
        Some(number) => Ok(zero_to_absent(number)),
        None => Err(WireFault::Decimal),
    }
}

/// Writes a decimal for which zero means absent.
pub fn encode_decimal_or_zero(value: Option<Decimal>) -> (r: String)
    ensures
        r@ == match value {
            Some(d) => decimal_text(d.spec_mantissa(), d.spec_scale()),
            None => decimal_text(0, 0),
        },
{
    absent_to_zero(value).render()
}

/// Reads a decimal for which the empty text means absent.
pub fn decode_decimal_or_empty(wire: &str) -> (r: Result<Option<Decimal>, WireFault>)
    ensures
        match r {
            Ok(value) => decimal_or_empty_of_wire(wire@) == Ok::<Option<(i128, u32)>, WireFault>(
                number_of(value),
            ),
            Err(fault) => decimal_or_empty_of_wire(wire@) == Err::<Option<(i128, u32)>, WireFault>(
                fault,
            ),
        },
{
    if wire.is_empty() {
        Ok(None)
    } else {
        match Decimal::parse(wire) {
            Some(number) => Ok(Some(number)),
            None => Err(WireFault::Decimal),
        }
    }
}

/// Writes a decimal for which the empty text means absent.
pub fn encode_decimal_or_empty(value: Option<Decimal>) -> (r: String)
    ensures
        r@ == match value {
            Some(d) => decimal_text(d.spec_mantissa(), d.spec_scale()),
            None => Seq::<char>::empty(),
        },
{
    match value {
        Some(number) => number.render(),
        None => String::new(),
    }
}

/// Reads a time in whole seconds since the Unix epoch.
pub fn decode_timestamp(wire: &str) -> (r: Result<Timestamp, WireFault>)
    ensures
        match r {
            Ok(time) => timestamp_of_wire(wire@) == Ok::<i64, WireFault>(time.seconds()),
            Err(fault) => timestamp_of_wire(wire@) == Err::<i64, WireFault>(fault),
        },
{
    match read_integer(wire) {
        None => Err(WireFault::Integer),
        Some(seconds) => match Timestamp::from_unix_seconds(seconds) {
            Some(time) => Ok(time),
            None => Err(WireFault::Time),
        },
    }
}

/// Writes a time in whole seconds since the Unix epoch.
pub fn encode_timestamp(value: &Timestamp) -> (r: String)
    ensures
        r@ == int_text(value.seconds() as int),
{
    let mut out = String::new();
    push_int(&mut out, value.unix_seconds());
    out
}

/// Reads a time for which the empty text or zero means absent.
pub fn decode_timestamp_or_zero(wire: &str) -> (r: Result<Option<Timestamp>, WireFault>)
    ensures
        match r {
            Ok(value) => timestamp_or_zero_of_wire(wire@) == Ok::<Option<i64>, WireFault>(
                seconds_of(value),
            ),
            Err(fault) => timestamp_or_zero_of_wire(wire@) == Err::<Option<i64>, WireFault>(fault),
        },
{
    if wire.is_empty() {
        return Ok(None);
    }
    match read_integer(wire) {
        None => Err(WireFault::Integer),
        Some(seconds) => if seconds == 0 {
            Ok(None)
        } else {
            match Timestamp::from_unix_seconds(seconds) {
                Some(time) => Ok(Some(time)),
                None => Err(WireFault::Time),
            }
        },
    }
}

/// Writes a time for which zero means absent.
pub fn encode_timestamp_or_zero(value: Option<Timestamp>) -> (r: String)
    ensures
        r@ == match value {
            Some(time) => int_text(time.seconds() as int),
            None => int_text(0),
        },
{
    let mut out = String::new();
    match value {
        Some(time) => push_int(&mut out, time.unix_seconds()),
        None => push_int(&mut out, 0),
    }
    out
}

/// Reads a trigger status for which a word of its own means absent.
pub fn decode_trigger_status(wire: &str) -> (r: Result<Option<TriggerStatus>, WireFault>)
    ensures
        r == trigger_status_of_wire(wire@),
{
    if str_eq(wire, "NOT_USED") {
        Ok(None)
    } else {
        match TriggerStatus::from_wire(wire) {
            Some(status) => Ok(Some(status)),
            None => Err(WireFault::Word),
        }
    }
}

/// Writes a trigger status for which a word of its own means absent.
pub fn encode_trigger_status(value: Option<TriggerStatus>) -> (r: &'static str)
    ensures
        r@ == match value {
            Some(status) => status.wire(),
            None => not_used(),
        },
{
    match value {
        Some(status) => status.as_str(),
        None => "NOT_USED",
    }
}

/// With zero for absent, what is written for "absent" is read as "absent",
/// and every number but zero is read as itself. Zero is the one number that
/// does not come back: it is read as "absent".
pub proof fn lemma_zero_is_absent_round_trip(value: Option<(i128, u32)>)
    ensures
        absent_if_zero(zero_if_absent(None)) is None,
        value matches Some(number) && number.0 != 0 ==> absent_if_zero(zero_if_absent(value))
            == value,
        value matches Some(number) && number.0 == 0 ==> absent_if_zero(zero_if_absent(value))
            is None,
{
}

/// What the zero-is-absent convention makes of a text follows from what
/// the reader makes of it: no number is an error, zero is "absent", and
/// any other number is present as it was read. So where the reader makes
/// 1250 with scale 2 of a text, the field holds exactly that.
pub proof fn lemma_zero_is_absent_on_text(wire: Seq<char>, number: (i128, u32))
    ensures
        decimal_read(wire) is None ==> decimal_or_zero_of_wire(wire) == Err::<
            Option<(i128, u32)>,
            WireFault,
        >(WireFault::Decimal),
        decimal_read(wire) == Some(number) && number.0 == 0 ==> decimal_or_zero_of_wire(wire)
            == Ok::<Option<(i128, u32)>, WireFault>(None),
        decimal_read(wire) == Some(number) && number.0 != 0 ==> decimal_or_zero_of_wire(wire)
            == Ok::<Option<(i128, u32)>, WireFault>(Some(number)),
{
}

/// The round trip of the zero-is-absent convention through the text, given
/// that the reader reads back what the writer wrote: "absent" comes back as
/// "absent", and every number but zero as itself.
pub proof fn lemma_zero_is_absent_round_trip_through_text(value: Option<(i128, u32)>)
    ensures
        ({
            let written = zero_if_absent(value);
            decimal_read(decimal_text(written.0, written.1)) == Some(written)
        }) ==> decimal_or_zero_of_wire(
            decimal_text(zero_if_absent(value).0, zero_if_absent(value).1),
        ) == Ok::<Option<(i128, u32)>, WireFault>(
            match value {
                Some(number) if number.0 != 0 => Some(number),
                _ => None,
            },
        ),
{
}

/// What the empty-is-absent convention makes of a text follows from what
/// the reader makes of it: the empty text is "absent", and any other text
/// is the number read, with its trailing zeros, or an error. So where the
/// reader makes 31400 with scale 4 of a text, the field holds that, which
/// is the same number as 314 with scale 2.
pub proof fn lemma_empty_is_absent_on_text(wire: Seq<char>, number: (i128, u32))
    ensures
        wire.len() == 0 ==> decimal_or_empty_of_wire(wire) == Ok::<
            Option<(i128, u32)>,
            WireFault,
        >(None),
        wire.len() > 0 && decimal_read(wire) is None ==> decimal_or_empty_of_wire(wire) == Err::<
            Option<(i128, u32)>,
            WireFault,
        >(WireFault::Decimal),
        wire.len() > 0 && decimal_read(wire) == Some(number) ==> decimal_or_empty_of_wire(wire)
            == Ok::<Option<(i128, u32)>, WireFault>(Some(number)),
        same_value((31400, 4), (314, 2)),
{
    lemma_trailing_zeros_of_two_numbers();
}

/// With the empty text for absent, what is written for "absent" is read as
/// "absent".
pub proof fn lemma_empty_is_absent_round_trip()
    ensures
        decimal_or_empty_of_wire(Seq::<char>::empty()) == Ok::<Option<(i128, u32)>, WireFault>(
            None,
        ),
{
}

/// A time that is written and read again is the same, where it must be
/// there and where zero means absent. With zero for absent, the one time
/// that does not come back is the epoch itself: it is read as "absent".
pub proof fn lemma_timestamp_round_trip(seconds: i64)
    requires
        calendar_accepts(seconds as int),
    ensures
        timestamp_of_wire(int_text(seconds as int)) == Ok::<i64, WireFault>(seconds),
        timestamp_or_zero_of_wire(int_text(0)) == Ok::<Option<i64>, WireFault>(None),
        timestamp_or_zero_of_wire(int_text(seconds as int)) == Ok::<Option<i64>, WireFault>(
            if seconds == 0 {
                None
            } else {
                Some(seconds)
            },
        ),
{
    lemma_integer_round_trip(seconds);
    lemma_integer_round_trip(0);
    crate::text::lemma_digits_stand_for_their_number(0);
    if seconds < 0 {
        assert(int_text(seconds as int).len() > 0);
    } else {
        crate::text::lemma_digits_stand_for_their_number(seconds as nat);
    }
}

/// A trigger status that is written and read again is the same, absent or
/// not.
pub proof fn lemma_trigger_status_round_trip(value: Option<TriggerStatus>)
    ensures
        trigger_status_of_wire(
            match value {
                Some(status) => status.wire(),
                None => not_used(),
            },
        ) == Ok::<Option<TriggerStatus>, WireFault>(value),
{
    reveal_strlit("NOT_USED");
    reveal_strlit("DEACTIVE");
    reveal_strlit("ACTIVE");
    reveal_strlit("RELEASED");
    assert("NOT_USED"@.len() == 8 && "NOT_USED"@[0] == 'N');
    assert("DEACTIVE"@.len() == 8 && "DEACTIVE"@[0] == 'D');
    assert("ACTIVE"@.len() == 6);
    assert("RELEASED"@.len() == 8 && "RELEASED"@[0] == 'R');
}

} // verus!
