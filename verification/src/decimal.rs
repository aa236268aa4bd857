//! Fixed-point decimal numbers, the representation of every monetary field of
//! the canonical model.

use vstd::prelude::*;

verus! {

/// Largest scale a decimal can carry: the number of digits after the point.
pub const MAX_SCALE: u32 = 28;

/// Largest magnitude of the unscaled integer: `2^96 - 1`.
pub const MAX_MANTISSA: i128 = 79_228_162_514_264_337_593_543_950_335;

/// Whether `mantissa` and `scale` describe a decimal: a signed 96-bit integer
/// with at most `MAX_SCALE` digits after the point.
pub open spec fn in_range(mantissa: int, scale: int) -> bool {
    &&& -(MAX_MANTISSA as int) <= mantissa <= MAX_MANTISSA as int
    &&& 0 <= scale <= MAX_SCALE as int
}

/// A fixed-point decimal: the number `mantissa / 10^scale`.
#[derive(Clone, Copy, Debug, PartialEq, Eq, Structural)]
pub struct Decimal {
    mantissa: i128,
    scale: u32,
}

impl Decimal {
    #[verifier::type_invariant]
    spec fn representable(self) -> bool {
        in_range(self.mantissa as int, self.scale as int)
    }

    /// The unscaled integer.
    pub closed spec fn unscaled(self) -> int {
        self.mantissa as int
    }

    /// The number of digits after the point.
    pub closed spec fn exponent(self) -> int {
        self.scale as int
    }

    /// The decimal `mantissa / 10^scale`, or `None` when the pair is out of range.
    pub fn try_new(mantissa: i128, scale: u32) -> (r: Option<Decimal>)
        ensures
            r is Some <==> in_range(mantissa as int, scale as int),
            r matches Some(d) ==> d.unscaled() == mantissa && d.exponent() == scale,
    {
        if scale <= MAX_SCALE && -MAX_MANTISSA <= mantissa && mantissa <= MAX_MANTISSA {
            Some(Decimal { mantissa, scale })
        } else {
            None
        }
    }

    /// The decimal zero, with no digits after the point.
    pub closed spec fn nought() -> Decimal {
        Decimal { mantissa: 0, scale: 0 }
    }

    /// The decimal zero, with no digits after the point.
    pub fn zero() -> (r: Decimal)
        ensures
            r == Decimal::nought(),
            r.unscaled() == 0,
            r.exponent() == 0,
    {
        Decimal { mantissa: 0, scale: 0 }
    }

    pub fn mantissa(&self) -> (r: i128)
        ensures
            r == self.unscaled(),
            in_range(r as int, self.exponent()),
    {
        proof {
            use_type_invariant(self);
        }
        self.mantissa
    }

    pub fn scale(&self) -> (r: u32)
        ensures
            r == self.exponent(),
            in_range(self.unscaled(), r as int),
    {
        proof {
            use_type_invariant(self);
        }
        self.scale
    }

    /// Whether the number is zero, whatever its scale.
    pub fn is_zero(&self) -> (r: bool)
        ensures
            r == (self.unscaled() == 0),
    {
        self.mantissa == 0
    }
}

/// A number as a vendor sent it, after the attempt to give it a fixed-point
/// form.
#[derive(Clone, Debug, PartialEq, Eq)]
pub enum RawNumber {
    /// The number is exactly zero.
    Zero,
    /// The number is not zero and this is its fixed-point form. The form
    /// itself is zero where the number is too small to show in it.
    Fixed(Decimal),
    /// The number has no fixed-point form; the text is how it prints.
    Unrepresentable(String),
}

impl RawNumber {
    /// The fixed-point form, where there is one.
    pub open spec fn fixed(self) -> Option<Decimal> {
        match self {
            RawNumber::Zero => Some(Decimal::nought()),
            RawNumber::Fixed(d) => Some(d),
            RawNumber::Unrepresentable(_) => None,
        }
    }

    pub fn to_decimal(&self) -> (r: Option<Decimal>)
        ensures
            r == self.fixed(),
    {
        match self {
            RawNumber::Zero => Some(Decimal::zero()),
            RawNumber::Fixed(d) => Some(*d),
            RawNumber::Unrepresentable(_) => None,
        }
    }

    pub fn is_zero(&self) -> (r: bool)
        ensures
            r == (self is Zero),
    {
        match self {
            RawNumber::Zero => true,
            _ => false,
        }
    }
}

/// The fixed-point form of an optional number: absent where the number is
/// absent or has no such form.
pub open spec fn fixed_or_absent(number: Option<RawNumber>) -> Option<Decimal> {
    match number {
        Some(n) => n.fixed(),
        None => None,
    }
}

/// Converts an optional number, dropping one without a fixed-point form.
pub fn decimal_or_absent(number: &Option<RawNumber>) -> (r: Option<Decimal>)
    ensures
        r == fixed_or_absent(*number),
{
    match number {
        Some(n) => n.to_decimal(),
        None => None,
    }
}

/// Two decimals with the same unscaled integer and the same scale are the same
/// decimal.
pub proof fn law_decimal_determined(a: Decimal, b: Decimal)
    requires
        a.unscaled() == b.unscaled(),
        a.exponent() == b.exponent(),
    ensures
        a == b,
{
}

} // verus!
