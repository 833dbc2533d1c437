//! Exact decimal numbers: an integer mantissa and the number of digits after
//! the decimal point, within the limits of `rust_decimal`, which reads and
//! writes their text.

use vstd::prelude::*;
use vstd::string::StringSliceAdditionalSpecFns;
use vstd::utf8::encode_utf8;

verus! {

/// The largest number of digits after the decimal point.
pub const MAX_SCALE: u32 = 28;

/// The largest mantissa: 96 bits, all set.
pub const MAX_MANTISSA: i128 = 0xFFFF_FFFF_FFFF_FFFF_FFFF_FFFF;

/// The longest text that is read as a decimal, in bytes. The longest text
/// that holds no more digits than a decimal can keep is half as long.
pub const MAX_TEXT: usize = 64;

/// The mantissa and the scale of what `rust_decimal::Decimal::from_str`
/// makes of a text; nothing where it reports an error.
pub uninterp spec fn decimal_of_text(text: Seq<char>) -> Option<(i128, u32)>;

/// What is read from a text: a text of more than `MAX_TEXT` bytes is no
/// decimal, any other is what `rust_decimal` makes of it.
pub open spec fn decimal_read(text: Seq<char>) -> Option<(i128, u32)> {
    if encode_utf8(text).len() > MAX_TEXT {
        None
    } else {
        decimal_of_text(text)
    }
}

/// The text that `rust_decimal::Decimal` displays for a mantissa and a
/// scale.
pub uninterp spec fn decimal_text(mantissa: i128, scale: u32) -> Seq<char>;

/// Whether a mantissa and a scale are within the limits.
pub open spec fn representable(mantissa: i128, scale: u32) -> bool {
    -MAX_MANTISSA <= mantissa <= MAX_MANTISSA && scale <= MAX_SCALE
}

/// Whether two pairs of mantissa and scale stand for the same number,
/// whatever their trailing zeros: `31400 / 10^4` is `314 / 10^2`.
pub open spec fn same_value(a: (i128, u32), b: (i128, u32)) -> bool {
    a.0 * pow10(b.1 as nat) == b.0 * pow10(a.1 as nat)
}

/// Ten to the power of `n`.
pub open spec fn pow10(n: nat) -> nat
    decreases n,
{
    if n == 0 {
        1
    } else {
        10 * pow10((n - 1) as nat)
    }
}

/// Calls `rust_decimal::Decimal::from_str` and hands back the mantissa and
/// the scale of the number read. The contract names them and says that they
/// are within the limits of the type: 96 bits and 28 digits. The text is
/// short: the outside function walks a long text by one call for each
/// byte.
#[verifier::external_body]
fn read_decimal(text: &str) -> (r: Option<(i128, u32)>)
    requires
        text.spec_bytes().len() <= MAX_TEXT,
    ensures
        r == decimal_of_text(text@),
        r matches Some((mantissa, scale)) ==> representable(mantissa, scale),
{
    text.parse::<rust_decimal::Decimal>().ok().map(|d| (d.mantissa(), d.scale()))
}

/// Displays the `rust_decimal::Decimal` that `from_i128_with_scale` makes
/// of a mantissa and a scale within the limits; the contract names the text
/// and claims nothing else of it.
#[verifier::external_body]
fn write_decimal(mantissa: i128, scale: u32) -> (r: String)
    requires
        representable(mantissa, scale),
    ensures
        r@ == decimal_text(mantissa, scale),
{
    rust_decimal::Decimal::from_i128_with_scale(mantissa, scale).to_string()
}

/// An exact decimal number, `mantissa / 10^scale`. Two values are equal
/// where mantissa and scale are: `3.1400` and `3.14` are the same number,
/// see [`Decimal::same_number`], but not the same value.
#[derive(Debug, Clone, Copy, PartialEq, Eq, Hash)]
pub struct Decimal {
    mantissa: i128,
    scale: u32,
}

impl Decimal {
    #[verifier::type_invariant]
    spec fn within_limits(self) -> bool {
        representable(self.mantissa, self.scale)
    }

    /// The integer that holds all the digits.
    pub closed spec fn spec_mantissa(&self) -> i128 {
        self.mantissa
    }

    /// The number of digits after the decimal point.
    pub closed spec fn spec_scale(&self) -> u32 {
        self.scale
    }

    /// Whether two values stand for the same number, whatever their
    /// trailing zeros.
    pub open spec fn same_number(self, other: Decimal) -> bool {
        same_value(
            (self.spec_mantissa(), self.spec_scale()),
            (other.spec_mantissa(), other.spec_scale()),
        )
    }

    /// The number `mantissa / 10^scale`, if it is within the limits.
    pub fn new(mantissa: i128, scale: u32) -> (r: Option<Decimal>)
        ensures
            r is Some <==> representable(mantissa, scale),
            r matches Some(d) ==> d.spec_mantissa() == mantissa && d.spec_scale() == scale,
    {
        if -MAX_MANTISSA <= mantissa && mantissa <= MAX_MANTISSA && scale <= MAX_SCALE {
            Some(Decimal { mantissa, scale })
        } else {
            None
        }
    }

    /// The number zero.
    pub fn zero() -> (r: Decimal)
        ensures
            r.spec_mantissa() == 0,
            r.spec_scale() == 0,
    {
        Decimal { mantissa: 0, scale: 0 }
    }

    /// The integer that holds all the digits.
    #[verifier::when_used_as_spec(spec_mantissa)]
    pub fn mantissa(&self) -> (r: i128)
        ensures
            r == self.spec_mantissa(),
            representable(r, self.spec_scale()),
    {
        proof {
            use_type_invariant(self);
        }
        self.mantissa
    }

    /// The number of digits after the decimal point.
    #[verifier::when_used_as_spec(spec_scale)]
    pub fn scale(&self) -> (r: u32)
        ensures
            r == self.spec_scale(),
            r <= MAX_SCALE,
    {
        proof {
            use_type_invariant(self);
        }
        self.scale
    }

    /// Whether the number is zero.
    pub fn is_zero(&self) -> (r: bool)
        ensures
            r == (self.spec_mantissa() == 0),
    {
        self.mantissa == 0
    }

    /// Whether two values stand for the same number, whatever their
    /// trailing zeros: `3.1400` is the same number as `3.14`.
    pub fn is_same_number(&self, other: &Decimal) -> (r: bool)
        ensures
            r == self.same_number(*other),
    {
        proof {
            use_type_invariant(self);
            use_type_invariant(other);
        }
        if self.scale >= other.scale {
            proof {
                lemma_same_number_by_shift(
                    self.mantissa as int,
                    self.scale as nat,
                    other.mantissa as int,
                    other.scale as nat,
                );
            }
            equals_shifted(self.mantissa, self.scale - other.scale, other.mantissa)
        } else {
            proof {
                lemma_same_number_by_shift(
                    other.mantissa as int,
                    other.scale as nat,
                    self.mantissa as int,
                    self.scale as nat,
                );
            }
            equals_shifted(other.mantissa, other.scale - self.scale, self.mantissa)
        }
    }

    /// Reads a number from its text. A text of more than `MAX_TEXT` bytes
    /// is not read.
    pub fn parse(text: &str) -> (r: Option<Decimal>)
        ensures
            match r {
                Some(d) => decimal_read(text@) == Some((d.spec_mantissa(), d.spec_scale())),
                None => decimal_read(text@) is None,
            },
    {
        if text.as_bytes().len() > MAX_TEXT {
            return None;
        }
        match read_decimal(text) {
            Some((mantissa, scale)) => Some(Decimal { mantissa, scale }),
            None => None,
        }
    }

    /// Writes the number as text.
    pub fn render(&self) -> (r: String)
        ensures
            r@ == decimal_text(self.spec_mantissa(), self.spec_scale()),
    {
        proof {
            use_type_invariant(self);
        }
        write_decimal(self.mantissa, self.scale)
    }
}

/// The magnitude of a mantissa.
fn magnitude(mantissa: i128) -> (r: u128)
    requires
        -MAX_MANTISSA <= mantissa <= MAX_MANTISSA,
    ensures
        r == if mantissa < 0 {
            -mantissa
        } else {
            mantissa as int
        },
{
    if mantissa < 0 {
        (-mantissa) as u128
    } else {
        mantissa as u128
    }
}

/// Whether `big` is `small` with `shift` zeros appended: `big == small *
/// 10^shift`.
fn equals_shifted(big: i128, shift: u32, small: i128) -> (r: bool)
    requires
        -MAX_MANTISSA <= big <= MAX_MANTISSA,
        -MAX_MANTISSA <= small <= MAX_MANTISSA,
    ensures
        r == (big == small * pow10(shift as nat)),
{
    proof {
        lemma_pow10_positive(shift as nat);
        lemma_shift_keeps_sign(small as int, pow10(shift as nat) as int);
    }
    if (big < 0) != (small < 0) {
        // Of two numbers with different signs, one is not zero.
        return big == 0 && small == 0;
    }
    let mut rest: u128 = magnitude(big);
    let target: u128 = magnitude(small);
    let mut taken: u32 = 0;
    assert(pow10(0) == 1);
    assert(rest * 1 == rest);
    while taken < shift
        invariant
            taken <= shift,
            (big < 0) == (small < 0),
            pow10(shift as nat) > 0,
            target == if small < 0 {
                -small
            } else {
                small as int
            },
            rest * pow10(taken as nat) == if big < 0 {
                -big
            } else {
                big as int
            },
        decreases shift - taken,
    {
        if rest % 10 != 0 {
            proof {
                lemma_not_a_multiple(
                    rest as int,
                    taken as nat,
                    target as int,
                    shift as nat,
                );
                lemma_magnitudes(big as int, small as int, pow10(shift as nat) as int);
            }
            return false;
        }
        proof {
            lemma_take_a_zero(rest as int, taken as nat);
        }
        rest = rest / 10;
        taken = taken + 1;
    }
    proof {
        lemma_cancel(rest as int, target as int, pow10(shift as nat) as int);
        lemma_magnitudes(big as int, small as int, pow10(shift as nat) as int);
    }
    rest == target
}

/// Ten to a sum is the product of the powers.
pub proof fn lemma_pow10_adds(a: nat, b: nat)
    ensures
        pow10(a + b) == pow10(a) * pow10(b),
    decreases a,
{
    if a == 0 {
        assert(pow10(0 + b) == 1 * pow10(b));
    } else {
        lemma_pow10_adds((a - 1) as nat, b);
        let x = pow10((a - 1) as nat) as int;
        let y = pow10(b) as int;
        assert(pow10(a + b) == 10 * pow10((a - 1 + b) as nat));
        assert(10 * (x * y) == (10 * x) * y) by (nonlinear_arith);
    }
}

/// A product with a positive number has the sign of the other factor.
proof fn lemma_shift_keeps_sign(m: int, p: int)
    requires
        p > 0,
    ensures
        (m * p < 0) == (m < 0),
        (m * p == 0) == (m == 0),
{
    assert((m * p < 0) == (m < 0) && (m * p == 0) == (m == 0)) by (nonlinear_arith)
        requires
            p > 0,
    ;
}

/// Two numbers of one sign are equal where their magnitudes are.
proof fn lemma_magnitudes(big: int, small: int, p: int)
    requires
        p > 0,
        (big < 0) == (small < 0),
    ensures
        (big == small * p) == ((if big < 0 {
            -big
        } else {
            big
        }) == (if small < 0 {
            -small
        } else {
            small
        }) * p),
{
    assert((-small) * p == -(small * p)) by (nonlinear_arith);
}

/// A product with a positive number can be cancelled.
proof fn lemma_cancel(a: int, b: int, p: int)
    requires
        p > 0,
    ensures
        (a * p == b * p) == (a == b),
{
    assert((a * p == b * p) == (a == b)) by (nonlinear_arith)
        requires
            p > 0,
    ;
}

/// A multiple of ten gives one zero to the power of ten beside it.
proof fn lemma_take_a_zero(rest: int, taken: nat)
    requires
        rest >= 0,
        rest % 10 == 0,
    ensures
        (rest / 10) * pow10(taken + 1) == rest * pow10(taken),
{
    let p = pow10(taken) as int;
    let q = rest / 10;
    assert(rest == q * 10);
    assert(pow10(taken + 1) == 10 * pow10(taken));
    assert(q * (10 * p) == (q * 10) * p) by (nonlinear_arith);
}

/// A number that ends in a digit other than zero, with `taken` zeros
/// appended, is no number with more than `taken` zeros appended.
proof fn lemma_not_a_multiple(rest: int, taken: nat, target: int, shift: nat)
    requires
        rest >= 0,
        rest % 10 != 0,
        taken < shift,
    ensures
        rest * pow10(taken) != target * pow10(shift),
{
    let p = pow10(taken) as int;
    let more = pow10((shift - taken - 1) as nat) as int;
    lemma_pow10_positive(taken);
    lemma_pow10_adds(taken, (shift - taken) as nat);
    assert(pow10((shift - taken) as nat) == 10 * more);
    assert(pow10(shift) == p * (10 * more));
    if rest * p == target * pow10(shift) {
        assert(target * (p * (10 * more)) == (target * more * 10) * p) by (nonlinear_arith);
        lemma_cancel(rest, target * more * 10, p);
        assert(rest == (target * more) * 10);
        assert(rest % 10 == 0);
    }
}

/// Two decimals are the same number where the mantissa of the one with the
/// larger scale is that of the other with the missing zeros appended.
proof fn lemma_same_number_by_shift(big: int, big_scale: nat, small: int, small_scale: nat)
    requires
        big_scale >= small_scale,
    ensures
        (big * pow10(small_scale) == small * pow10(big_scale)) == (big == small * pow10(
            (big_scale - small_scale) as nat,
        )),
        (small * pow10(big_scale) == big * pow10(small_scale)) == (big == small * pow10(
            (big_scale - small_scale) as nat,
        )),
{
    let p = pow10(small_scale) as int;
    let q = pow10((big_scale - small_scale) as nat) as int;
    lemma_pow10_positive(small_scale);
    lemma_pow10_adds(small_scale, (big_scale - small_scale) as nat);
    assert(pow10(big_scale) == p * q);
    assert(small * (p * q) == (small * q) * p) by (nonlinear_arith);
    lemma_cancel(big, small * q, p);
}

/// A number is the same number as itself, and being the same number goes
/// both ways.
pub proof fn lemma_same_number_symmetric(a: Decimal, b: Decimal)
    ensures
        a.same_number(a),
        a.same_number(b) == b.same_number(a),
{
}

/// A zero appended after the last digit does not change the number.
pub proof fn lemma_trailing_zero_keeps_the_number(a: Decimal, b: Decimal)
    requires
        b.spec_mantissa() == a.spec_mantissa() * 10,
        b.spec_scale() == a.spec_scale() + 1,
    ensures
        a.same_number(b),
        b.same_number(a),
{
    let m = a.spec_mantissa() as int;
    let p = pow10(a.spec_scale() as nat) as int;
    assert(pow10(b.spec_scale() as nat) == 10 * p);
    assert(m * (10 * p) == (m * 10) * p) by (nonlinear_arith);
}

/// The number 3.1400 is the number 3.14, and 12.50 is 12.5.
pub proof fn lemma_trailing_zeros_of_two_numbers()
    ensures
        same_value((31400, 4), (314, 2)),
        same_value((1250, 2), (125, 1)),
        !same_value((31400, 4), (315, 2)),
{
    reveal_with_fuel(pow10, 5);
}

/// Zero is the same number at every scale, and no other number is.
pub proof fn lemma_same_number_as_zero(a: Decimal, b: Decimal)
    requires
        a.spec_mantissa() == 0,
    ensures
        a.same_number(b) == (b.spec_mantissa() == 0),
{
    lemma_pow10_positive(a.spec_scale() as nat);
    lemma_pow10_positive(b.spec_scale() as nat);
    let p = pow10(a.spec_scale() as nat) as int;
    let m = b.spec_mantissa() as int;
    assert((m * p == 0) == (m == 0)) by (nonlinear_arith)
        requires
            p > 0,
    ;
    let z = a.spec_mantissa() as int;
    let q = pow10(b.spec_scale() as nat) as int;
    assert(z * q == 0) by (nonlinear_arith)
        requires
            z == 0,
    ;
}

/// A power of ten is positive.
pub proof fn lemma_pow10_positive(n: nat)
    ensures
        pow10(n) > 0,
    decreases n,
{
    if n > 0 {
        lemma_pow10_positive((n - 1) as nat);
    }
}

} // verus!
