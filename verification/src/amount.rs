//! Fixed-point decimal amounts: a signed 96-bit mantissa and a scale of at
//! most 28 decimal places, the shape `rust_decimal::Decimal` stores.

use rust_decimal::Decimal;
use vstd::prelude::*;

verus! {

/// The largest mantissa, in absolute value: 2^96 - 1.
pub const MAX_MANTISSA: i128 = 79_228_162_514_264_337_593_543_950_335;

/// The largest scale: the number of decimal places of the finest amount.
pub const MAX_SCALE: u32 = 28;

/// Ten to the power `n`.
pub open spec fn pow10(n: nat) -> int
    decreases n,
{
    if n == 0 {
        1
    } else {
        10 * pow10((n - 1) as nat)
    }
}

/// Whether a mantissa and a scale are those of a decimal amount.
pub open spec fn parts_ok(mantissa: int, scale: int) -> bool {
    -(MAX_MANTISSA as int) <= mantissa <= MAX_MANTISSA as int && 0 <= scale <= MAX_SCALE as int
}

/// The decimal sum that `rust_decimal` forms of two amounts, each given by its
/// mantissa and scale: the mantissa and scale of the result, or `None` where
/// it reports an overflow.
pub uninterp spec fn decimal_sum(am: int, asc: int, bm: int, bsc: int) -> Option<(int, int)>;

/// The sum of two amounts by their parts: zero and an amount add up to that
/// amount, scale included; any other sum is the one `rust_decimal` forms.
pub open spec fn sum_parts(am: int, asc: int, bm: int, bsc: int) -> Option<(int, int)> {
    if am == 0 {
        Some((bm, bsc))
    } else if bm == 0 {
        Some((am, asc))
    } else {
        decimal_sum(am, asc, bm, bsc)
    }
}

/// The decimal difference that `rust_decimal` forms of two amounts, the first
/// less the second, or `None` where it reports an overflow.
pub uninterp spec fn decimal_difference(am: int, asc: int, bm: int, bsc: int) -> Option<(int, int)>;

/// A decimal amount: `mantissa / 10^scale`.
#[derive(Debug, Clone, Copy, PartialEq, Eq)]
pub struct Amount {
    pub mantissa: i128,
    pub scale: u32,
}

/// The amount with the given parts, where they are those of an amount.
pub open spec fn amount_of(parts: Option<(int, int)>) -> Option<Amount> {
    match parts {
        Some((m, s)) => if parts_ok(m, s) {
            Some(Amount { mantissa: m as i128, scale: s as u32 })
        } else {
            None
        },
        None => None,
    }
}

impl Amount {
    /// The mantissa is within 96 bits and the scale at most 28.
    pub open spec fn wf(self) -> bool {
        parts_ok(self.mantissa as int, self.scale as int)
    }

    /// The value in units of 10^-28, the finest step an amount can have:
    /// two well-formed amounts are numerically equal exactly when their
    /// units are.
    pub open spec fn units(self) -> int {
        self.mantissa * pow10((MAX_SCALE - self.scale) as nat)
    }

    /// The amount is zero or more.
    pub open spec fn is_nonneg(self) -> bool {
        self.mantissa >= 0
    }

    /// What `checked_add` returns of `self` and `other`.
    pub open spec fn sum_of(self, other: Amount) -> Option<Amount> {
        amount_of(
            sum_parts(
                self.mantissa as int,
                self.scale as int,
                other.mantissa as int,
                other.scale as int,
            ),
        )
    }

    /// What `checked_sub` returns of `self` and `other`.
    pub open spec fn difference_of(self, other: Amount) -> Option<Amount> {
        amount_of(
            decimal_difference(
                self.mantissa as int,
                self.scale as int,
                other.mantissa as int,
                other.scale as int,
            ),
        )
    }

    /// Zero, with scale 0.
    pub fn zero() -> (r: Amount)
        ensures
            r == (Amount { mantissa: 0, scale: 0 }),
            r.wf(),
            r.units() == 0,
    {
        Amount { mantissa: 0, scale: 0 }
    }

    /// The amount `mantissa / 10^scale`, where the mantissa fits in 96 bits
    /// and the scale is at most 28.
    pub fn new(mantissa: i128, scale: u32) -> (r: Option<Amount>)
        ensures
            r == amount_of(Some((mantissa as int, scale as int))),
            r is Some <==> parts_ok(mantissa as int, scale as int),
            r is Some ==> r.unwrap().wf() && r.unwrap().mantissa == mantissa && r.unwrap().scale
                == scale,
    {
        if mantissa >= -MAX_MANTISSA && mantissa <= MAX_MANTISSA && scale <= MAX_SCALE {
            Some(Amount { mantissa, scale })
        } else {
            None
        }
    }

    /// The amount that a computed mantissa and scale stand for, if any.
    pub fn from_parts(parts: Option<(i128, u32)>) -> (r: Option<Amount>)
        ensures
            r == amount_of(
                match parts {
                    Some(p) => Some((p.0 as int, p.1 as int)),
                    None => None,
                },
            ),
            r is Some ==> r.unwrap().wf(),
    {
        match parts {
            Some(p) => Amount::new(p.0, p.1),
            None => None,
        }
    }

    /// Whether the mantissa is within 96 bits and the scale at most 28.
    pub fn is_wf(&self) -> (r: bool)
        ensures
            r == self.wf(),
    {
        self.mantissa >= -MAX_MANTISSA && self.mantissa <= MAX_MANTISSA && self.scale <= MAX_SCALE
    }

    /// Whether the amount is zero or more.
    pub fn is_sign_positive(&self) -> (r: bool)
        ensures
            r == self.is_nonneg(),
    {
        self.mantissa >= 0
    }

    /// The decimal sum of two amounts, `None` where it cannot be represented.
    pub fn checked_add(&self, other: &Amount) -> (r: Option<Amount>)
        requires
            self.wf(),
            other.wf(),
        ensures
            r == self.sum_of(*other),
            r is Some ==> r.unwrap().wf(),
    {
        Amount::from_parts(decimal_checked_add(self, other))
    }

    /// The decimal difference of two amounts, `None` where it cannot be
    /// represented.
    pub fn checked_sub(&self, other: &Amount) -> (r: Option<Amount>)
        requires
            self.wf(),
            other.wf(),
        ensures
            r == self.difference_of(*other),
            r is Some ==> r.unwrap().wf(),
    {
        Amount::from_parts(decimal_checked_sub(self, other))
    }

    /// Whether `self` is numerically at least `other`.
    pub fn at_least(&self, other: &Amount) -> (r: bool)
        requires
            self.wf(),
            other.wf(),
        ensures
            r == (self.units() >= other.units()),
    {
        decimal_ge(self, other)
    }
}

/// Every power of ten is positive.
pub proof fn lemma_pow10_positive(n: nat)
    ensures
        pow10(n) > 0,
    decreases n,
{
    if n > 0 {
        lemma_pow10_positive((n - 1) as nat);
    }
}

/// An amount is zero or more exactly when its units are.
pub proof fn lemma_units_sign(a: Amount)
    requires
        a.wf(),
    ensures
        a.is_nonneg() <==> a.units() >= 0,
        a.mantissa == 0 <==> a.units() == 0,
{
    let p = pow10((MAX_SCALE - a.scale) as nat);
    lemma_pow10_positive((MAX_SCALE - a.scale) as nat);
    let m = a.mantissa as int;
    assert((m >= 0 <==> m * p >= 0) && (m == 0 <==> m * p == 0)) by (nonlinear_arith)
        requires
            p > 0,
    ;
}

/// `Decimal::checked_add` of rust_decimal, on two decimals built by
/// `Decimal::from_i128_with_scale`; the result is handed back as
/// `Decimal::mantissa` and `Decimal::scale` give it. Three claims are made:
/// where the first operand is zero the second comes back as it is; where only
/// the second is zero the first comes back as it is; and any other sum is the
/// one `decimal_sum` names. The construction does not panic because
/// both amounts are well-formed.
#[verifier::external_body]
fn decimal_checked_add(a: &Amount, b: &Amount) -> (r: Option<(i128, u32)>)
    requires
        a.wf(),
        b.wf(),
    ensures
        a.mantissa == 0 ==> r == Some((b.mantissa, b.scale)),
        a.mantissa != 0 && b.mantissa == 0 ==> r == Some((a.mantissa, a.scale)),
        a.mantissa != 0 && b.mantissa != 0 ==> match r {
            Some(p) => decimal_sum(
                a.mantissa as int,
                a.scale as int,
                b.mantissa as int,
                b.scale as int,
            ) == Some((p.0 as int, p.1 as int)),
            None => decimal_sum(
                a.mantissa as int,
                a.scale as int,
                b.mantissa as int,
                b.scale as int,
            ) is None,
        },
{
    let x = Decimal::from_i128_with_scale(a.mantissa, a.scale);
    let y = Decimal::from_i128_with_scale(b.mantissa, b.scale);
    match x.checked_add(y) {
        Some(d) => Some((d.mantissa(), d.scale())),
        None => None,
    }
}

/// `Decimal::checked_sub` of rust_decimal, on two decimals built by
/// `Decimal::from_i128_with_scale`; the result is handed back as
/// `Decimal::mantissa` and `Decimal::scale` give it. Nothing is claimed of the
/// difference but that it is the one `decimal_difference` names.
#[verifier::external_body]
fn decimal_checked_sub(a: &Amount, b: &Amount) -> (r: Option<(i128, u32)>)
    requires
        a.wf(),
        b.wf(),
    ensures
        match r {
            Some(p) => decimal_difference(
                a.mantissa as int,
                a.scale as int,
                b.mantissa as int,
                b.scale as int,
            ) == Some((p.0 as int, p.1 as int)),
            None => decimal_difference(
                a.mantissa as int,
                a.scale as int,
                b.mantissa as int,
                b.scale as int,
            ) is None,
        },
{
    let x = Decimal::from_i128_with_scale(a.mantissa, a.scale);
    let y = Decimal::from_i128_with_scale(b.mantissa, b.scale);
    match x.checked_sub(y) {
        Some(d) => Some((d.mantissa(), d.scale())),
        None => None,
    }
}

/// The operator `>=` that rust_decimal's `Decimal` has from its `PartialOrd`,
/// on two decimals built by `Decimal::from_i128_with_scale`. The claim is that
/// it orders decimals by their numeric value whatever their scales: zero and
/// the signs are told apart first, then both magnitudes are brought to one
/// scale, and an operand that leaves 96 bits on the way is the larger.
#[verifier::external_body]
fn decimal_ge(a: &Amount, b: &Amount) -> (r: bool)
    requires
        a.wf(),
        b.wf(),
    ensures
        r == (a.units() >= b.units()),
{
    let x = Decimal::from_i128_with_scale(a.mantissa, a.scale);
    let y = Decimal::from_i128_with_scale(b.mantissa, b.scale);
    x >= y
}

} // verus!
