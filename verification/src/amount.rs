//! Fixed-point decimal amounts.
//!
//! An [`Amount`] is a signed 96-bit mantissa together with a scale between 0
//! and 28: it stands for `mantissa / 10^scale`. Arithmetic on amounts is done
//! by `rust_decimal`, whose `Decimal` has exactly this range.

use rust_decimal::Decimal;
use vstd::prelude::*;

verus! {

/// Largest magnitude of a mantissa: `2^96 - 1`.
pub const MAX_MANTISSA: i128 = 0xFFFF_FFFF_FFFF_FFFF_FFFF_FFFF;

/// Largest scale: the number of digits after the decimal point.
pub const MAX_SCALE: u32 = 28;

/// The mathematical content of an [`Amount`]: the number `mantissa / 10^scale`
/// in the representation that carries exactly `scale` fractional digits.
pub struct Dec {
    pub mantissa: int,
    pub scale: int,
}

impl Dec {
    /// Whether the pair is in the range that an [`Amount`] can hold.
    pub open spec fn in_range(self) -> bool {
        &&& -MAX_MANTISSA <= self.mantissa <= MAX_MANTISSA
        &&& 0 <= self.scale <= MAX_SCALE
    }

    /// The sum of two decimals as `rust_decimal` computes it, `None` where the
    /// addition overflows.
    pub open spec fn plus(self, other: Dec) -> Option<Dec> {
        match decimal_sum(self.mantissa, self.scale, other.mantissa, other.scale) {
            Some((mantissa, scale)) => Some(Dec { mantissa, scale }),
            None => None,
        }
    }
}

/// The result of `Decimal::checked_add` on the decimals `a_mantissa / 10^a_scale`
/// and `b_mantissa / 10^b_scale`, as mantissa and scale; `None` where the
/// addition overflows.
pub uninterp spec fn decimal_sum(a_mantissa: int, a_scale: int, b_mantissa: int, b_scale: int) -> Option<(int, int)>;

/// A signed decimal amount of money.
///
/// Two amounts are equal where mantissa and scale are: `1.5` and `1.50` are
/// different amounts of the same value.
#[derive(Clone, Copy, Debug, PartialEq, Eq)]
pub struct Amount {
    mantissa: i128,
    scale: u32,
}

impl View for Amount {
    type V = Dec;

    closed spec fn view(&self) -> Dec {
        Dec { mantissa: self.mantissa as int, scale: self.scale as int }
    }
}

impl Amount {
    #[verifier::type_invariant]
    closed spec fn in_range(self) -> bool {
        self@.in_range()
    }

    /// The amount `mantissa / 10^scale`, or `None` where the mantissa needs
    /// more than 96 bits or the scale is above 28.
    pub fn new(mantissa: i128, scale: u32) -> (r: Option<Amount>)
        ensures
            r is Some <==> (Dec { mantissa: mantissa as int, scale: scale as int }).in_range(),
            r is Some ==> r->0@ == (Dec { mantissa: mantissa as int, scale: scale as int }),
    {
        if -MAX_MANTISSA <= mantissa && mantissa <= MAX_MANTISSA && scale <= MAX_SCALE {
            Some(Amount { mantissa, scale })
        } else {
            None
        }
    }

    /// The amount zero, with no fractional digits.
    pub fn zero() -> (r: Amount)
        ensures
            r@ == (Dec { mantissa: 0, scale: 0 }),
    {
        Amount { mantissa: 0, scale: 0 }
    }

    /// The signed integer that holds all digits of the amount.
    pub fn mantissa(&self) -> (m: i128)
        ensures
            m == self@.mantissa,
            -MAX_MANTISSA <= m <= MAX_MANTISSA,
    {
        proof {
            use_type_invariant(self);
        }
        self.mantissa
    }

    /// The number of digits after the decimal point.
    pub fn scale(&self) -> (s: u32)
        ensures
            s == self@.scale,
            s <= MAX_SCALE,
    {
        proof {
            use_type_invariant(self);
        }
        self.scale
    }

    /// The sum of two amounts, `None` where it overflows the 96-bit mantissa.
    pub fn checked_add(self, other: Amount) -> (r: Option<Amount>)
        ensures
            r is Some <==> self@.plus(other@) is Some,
            r is Some ==> Some(r->0@) == self@.plus(other@),
    {
        proof {
            use_type_invariant(self);
            use_type_invariant(other);
        }
        decimal_checked_add(self, other)
    }
}

/// `Decimal::checked_add` of `rust_decimal`, on two decimals built with
/// `Decimal::from_i128_with_scale` and read back with `mantissa` and `scale`.
///
/// The contract names the result: it is whatever `checked_add` computes from
/// the two mantissas and scales. The arguments are in range, so that building
/// the decimals does not panic; a `Decimal` always reads back in range.
#[verifier::external_body]
fn decimal_checked_add(a: Amount, b: Amount) -> (r: Option<Amount>)
    requires
        a@.in_range(),
        b@.in_range(),
    ensures
        match r {
            Some(sum) => decimal_sum(a@.mantissa, a@.scale, b@.mantissa, b@.scale) == Some(
                (sum@.mantissa, sum@.scale),
            ),
            None => decimal_sum(a@.mantissa, a@.scale, b@.mantissa, b@.scale) is None,
        },
{
    let x = Decimal::from_i128_with_scale(a.mantissa, a.scale);
    let y = Decimal::from_i128_with_scale(b.mantissa, b.scale);
    match x.checked_add(y) {
        Some(sum) => Some(Amount { mantissa: sum.mantissa(), scale: sum.scale() }),
        None => None,
    }
}

} // verus!
