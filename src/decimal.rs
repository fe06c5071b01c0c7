use vstd::prelude::*;

verus! {

/// Largest magnitude of a mantissa: 96 bits.
pub const MAX_MANTISSA: i128 = 0xFFFF_FFFF_FFFF_FFFF_FFFF_FFFF;

/// Largest number of digits after the decimal point.
pub const MAX_SCALE: u32 = 28;

/// A base-10 fixed-point number worth `mantissa / 10^scale`.
#[derive(Clone, Copy, Debug, PartialEq, Eq, Structural)]
pub struct Decimal {
    pub mantissa: i128,
    pub scale: u32,
}

/// Why a calculation produced no result.
#[derive(Clone, Copy, Debug, PartialEq, Eq, Structural)]
pub enum CalculationError {
    /// A divisor was zero (for instance a zero interest rate in the amortization factor).
    DivisionByZero,
    /// A result fell outside what a 96-bit mantissa can represent.
    Overflow,
}

impl CalculationError {
    pub fn message(&self) -> (r: String)
        ensures
            r@ == self.message_spec(),
    {
        match self {
            CalculationError::DivisionByZero => "division by zero".to_owned(),
            CalculationError::Overflow => "arithmetic overflow".to_owned(),
        }
    }

    pub open spec fn message_spec(&self) -> Seq<char> {
        match self {
            CalculationError::DivisionByZero => "division by zero"@,
            CalculationError::Overflow => "arithmetic overflow"@,
        }
    }
}

pub open spec fn pow10(n: nat) -> int
    decreases n,
{
    if n == 0 {
        1
    } else {
        10 * pow10((n - 1) as nat)
    }
}

impl Decimal {
    /// Mantissa within 96 bits and scale at most 28.
    pub open spec fn wf(self) -> bool {
        -MAX_MANTISSA <= self.mantissa <= MAX_MANTISSA && self.scale <= MAX_SCALE
    }

    /// `self < other` as numbers.
    pub open spec fn lt(self, other: Decimal) -> bool {
        self.mantissa * pow10(other.scale as nat) < other.mantissa * pow10(self.scale as nat)
    }

    /// `self <= other` as numbers.
    pub open spec fn le(self, other: Decimal) -> bool {
        !other.lt(self)
    }

    pub open spec fn is_zero(self) -> bool {
        self.mantissa == 0
    }

    /// The number `num / 10^scale`.
    pub fn new(num: i64, scale: u32) -> (r: Decimal)
        requires
            scale <= MAX_SCALE,
        ensures
            r == (Decimal { mantissa: num as i128, scale }),
            r.wf(),
    {
        Decimal { mantissa: num as i128, scale }
    }

    pub open spec fn from_int(n: int) -> Decimal {
        Decimal { mantissa: n as i128, scale: 0 }
    }

    /// The whole number `n`.
    pub fn from_u32(n: u32) -> (r: Decimal)
        ensures
            r == Decimal::from_int(n as int),
            r.wf(),
    {
        Decimal { mantissa: n as i128, scale: 0 }
    }

    pub fn zero() -> (r: Decimal)
        ensures
            r == Decimal::from_int(0),
            r.wf(),
    {
        Decimal { mantissa: 0, scale: 0 }
    }

    pub fn one() -> (r: Decimal)
        ensures
            r == Decimal::from_int(1),
            r.wf(),
    {
        Decimal { mantissa: 1, scale: 0 }
    }
}

/// What `rust_decimal::Decimal::checked_add` returns for two values.
pub uninterp spec fn decimal_sum(a: Decimal, b: Decimal) -> Option<Decimal>;

/// What `rust_decimal::Decimal::checked_sub` returns for two values.
pub uninterp spec fn decimal_difference(a: Decimal, b: Decimal) -> Option<Decimal>;

/// What `rust_decimal::Decimal::checked_mul` returns for two values.
pub uninterp spec fn decimal_product(a: Decimal, b: Decimal) -> Option<Decimal>;

/// What `rust_decimal::Decimal::checked_div` returns for two values.
pub uninterp spec fn decimal_quotient(a: Decimal, b: Decimal) -> Option<Decimal>;

/// What `rust_decimal::Decimal::round_dp` returns for a value and a number of places.
pub uninterp spec fn decimal_rounded(a: Decimal, dp: u32) -> Decimal;

/// Relies on `rust_decimal::Decimal::checked_add`: `None` on overflow, else a value
/// whose mantissa and scale are within range.
#[verifier::external_body]
fn checked_add(a: Decimal, b: Decimal) -> (r: Option<Decimal>)
    requires
        a.wf(),
        b.wf(),
    ensures
        r == decimal_sum(a, b),
        r matches Some(d) ==> d.wf(),
{
    let x = rust_decimal::Decimal::from_i128_with_scale(a.mantissa, a.scale);
    let y = rust_decimal::Decimal::from_i128_with_scale(b.mantissa, b.scale);
    match x.checked_add(y) {
        Some(d) => Some(Decimal { mantissa: d.mantissa(), scale: d.scale() }),
        None => None,
    }
}

/// Relies on `rust_decimal::Decimal::checked_sub`: `None` on overflow, else a value
/// whose mantissa and scale are within range.
#[verifier::external_body]
fn checked_sub(a: Decimal, b: Decimal) -> (r: Option<Decimal>)
    requires
        a.wf(),
        b.wf(),
    ensures
        r == decimal_difference(a, b),
        r matches Some(d) ==> d.wf(),
{
    let x = rust_decimal::Decimal::from_i128_with_scale(a.mantissa, a.scale);
    let y = rust_decimal::Decimal::from_i128_with_scale(b.mantissa, b.scale);
    match x.checked_sub(y) {
        Some(d) => Some(Decimal { mantissa: d.mantissa(), scale: d.scale() }),
        None => None,
    }
}

/// Relies on `rust_decimal::Decimal::checked_mul`: `None` on overflow, else a value
/// whose mantissa and scale are within range.
#[verifier::external_body]
fn checked_mul(a: Decimal, b: Decimal) -> (r: Option<Decimal>)
    requires
        a.wf(),
        b.wf(),
    ensures
        r == decimal_product(a, b),
        r matches Some(d) ==> d.wf(),
{
    let x = rust_decimal::Decimal::from_i128_with_scale(a.mantissa, a.scale);
    let y = rust_decimal::Decimal::from_i128_with_scale(b.mantissa, b.scale);
    match x.checked_mul(y) {
        Some(d) => Some(Decimal { mantissa: d.mantissa(), scale: d.scale() }),
        None => None,
    }
}

/// Relies on `rust_decimal::Decimal::checked_div`: `None` on a zero divisor or on
/// overflow, else a value whose mantissa and scale are within range.
#[verifier::external_body]
fn checked_div(a: Decimal, b: Decimal) -> (r: Option<Decimal>)
    requires
        a.wf(),
        b.wf(),
    ensures
        r == decimal_quotient(a, b),
        r matches Some(d) ==> d.wf(),
{
    let x = rust_decimal::Decimal::from_i128_with_scale(a.mantissa, a.scale);
    let y = rust_decimal::Decimal::from_i128_with_scale(b.mantissa, b.scale);
    match x.checked_div(y) {
        Some(d) => Some(Decimal { mantissa: d.mantissa(), scale: d.scale() }),
        None => None,
    }
}

/// Relies on `rust_decimal::Decimal::round_dp`: rounds half to even, never fails,
/// and keeps mantissa and scale within range.
#[verifier::external_body]
fn round_dp(a: Decimal, dp: u32) -> (r: Decimal)
    requires
        a.wf(),
    ensures
        r == decimal_rounded(a, dp),
        r.wf(),
{
    let d = rust_decimal::Decimal::from_i128_with_scale(a.mantissa, a.scale).round_dp(dp);
    Decimal { mantissa: d.mantissa(), scale: d.scale() }
}

/// Relies on `Ord for rust_decimal::Decimal`, which orders by numeric value.
#[verifier::external_body]
fn compare(a: Decimal, b: Decimal) -> (r: i8)
    requires
        a.wf(),
        b.wf(),
    ensures
        r == (if a.lt(b) {
            -1i8
        } else if b.lt(a) {
            1i8
        } else {
            0i8
        }),
{
    let x = rust_decimal::Decimal::from_i128_with_scale(a.mantissa, a.scale);
    let y = rust_decimal::Decimal::from_i128_with_scale(b.mantissa, b.scale);
    match x.cmp(&y) {
        std::cmp::Ordering::Less => -1,
        std::cmp::Ordering::Equal => 0,
        std::cmp::Ordering::Greater => 1,
    }
}

pub open spec fn lift(o: Option<Decimal>) -> Result<Decimal, CalculationError> {
    match o {
        Some(d) => Ok(d),
        None => Err(CalculationError::Overflow),
    }
}

/// `a + b`, or `Overflow`.
pub open spec fn sum(a: Decimal, b: Decimal) -> Result<Decimal, CalculationError> {
    lift(decimal_sum(a, b))
}

/// `a - b`, or `Overflow`.
pub open spec fn difference(a: Decimal, b: Decimal) -> Result<Decimal, CalculationError> {
    lift(decimal_difference(a, b))
}

/// `a * b`, or `Overflow`.
pub open spec fn product(a: Decimal, b: Decimal) -> Result<Decimal, CalculationError> {
    lift(decimal_product(a, b))
}

/// `a / b`, `DivisionByZero` where `b` is zero, or `Overflow`.
pub open spec fn quotient(a: Decimal, b: Decimal) -> Result<Decimal, CalculationError> {
    if b.is_zero() {
        Err(CalculationError::DivisionByZero)
    } else {
        lift(decimal_quotient(a, b))
    }
}

pub open spec fn rounded(a: Decimal, dp: u32) -> Decimal {
    decimal_rounded(a, dp)
}

impl Decimal {
    pub fn add(self, other: Decimal) -> (r: Result<Decimal, CalculationError>)
        requires
            self.wf(),
            other.wf(),
        ensures
            r == sum(self, other),
            r matches Ok(d) ==> d.wf(),
    {
        match checked_add(self, other) {
            Some(d) => Ok(d),
            None => Err(CalculationError::Overflow),
        }
    }

    pub fn sub(self, other: Decimal) -> (r: Result<Decimal, CalculationError>)
        requires
            self.wf(),
            other.wf(),
        ensures
            r == difference(self, other),
            r matches Ok(d) ==> d.wf(),
    {
        match checked_sub(self, other) {
            Some(d) => Ok(d),
            None => Err(CalculationError::Overflow),
        }
    }

    pub fn mul(self, other: Decimal) -> (r: Result<Decimal, CalculationError>)
        requires
            self.wf(),
            other.wf(),
        ensures
            r == product(self, other),
            r matches Ok(d) ==> d.wf(),
    {
        match checked_mul(self, other) {
            Some(d) => Ok(d),
            None => Err(CalculationError::Overflow),
        }
    }

    pub fn div(self, other: Decimal) -> (r: Result<Decimal, CalculationError>)
        requires
            self.wf(),
            other.wf(),
        ensures
            r == quotient(self, other),
            r matches Ok(d) ==> d.wf(),
    {
        if other.mantissa == 0 {
            return Err(CalculationError::DivisionByZero);
        }
        match checked_div(self, other) {
            Some(d) => Ok(d),
            None => Err(CalculationError::Overflow),
        }
    }

    /// Rounded to `dp` places, half to even.
    pub fn round_dp(self, dp: u32) -> (r: Decimal)
        requires
            self.wf(),
        ensures
            r == rounded(self, dp),
            r.wf(),
    {
        round_dp(self, dp)
    }

    /// `self < other` as numbers.
    pub fn less_than(self, other: Decimal) -> (r: bool)
        requires
            self.wf(),
            other.wf(),
        ensures
            r == self.lt(other),
    {
        compare(self, other) == -1
    }

    /// `self <= other` as numbers.
    pub fn at_most(self, other: Decimal) -> (r: bool)
        requires
            self.wf(),
            other.wf(),
        ensures
            r == self.le(other),
    {
        compare(self, other) != 1
    }
}

} // verus!
