use vstd::prelude::*;

use crate::date::Date;
use crate::decimal::{difference, product, quotient, rounded, sum, CalculationError, Decimal};

verus! {

/// `base` multiplied by itself: `1` for `n == 0`, `base` for `n == 1`, and each further
/// power the previous one times `base`.
pub open spec fn power_spec(base: Decimal, n: nat) -> Result<Decimal, CalculationError>
    decreases n,
{
    if n == 0 {
        Ok(Decimal::from_int(1))
    } else if n == 1 {
        Ok(base)
    } else {
        match power_spec(base, (n - 1) as nat) {
            Ok(p) => product(p, base),
            Err(e) => Err(e),
        }
    }
}

/// `rate * (1 + rate)^n / ((1 + rate)^n - 1)`, evaluated left to right.
pub open spec fn payment_factor_spec(rate: Decimal, n: nat) -> Result<Decimal, CalculationError> {
    match sum(Decimal::from_int(1), rate) {
        Err(e) => Err(e),
        Ok(base) => match power_spec(base, n) {
            Err(e) => Err(e),
            Ok(factor) => match product(rate, factor) {
                Err(e) => Err(e),
                Ok(numerator) => match difference(factor, Decimal::from_int(1)) {
                    Err(e) => Err(e),
                    Ok(denominator) => quotient(numerator, denominator),
                },
            },
        },
    }
}

/// Raising to a power never fails at exponent zero, and each exponent past one
/// multiplies the previous power by the base once more.
pub proof fn lemma_power_is_repeated_multiplication(base: Decimal, n: nat)
    ensures
        power_spec(base, 0) == Ok::<Decimal, CalculationError>(Decimal::from_int(1)),
        power_spec(base, 1) == Ok::<Decimal, CalculationError>(base),
        n >= 1 ==> power_spec(base, n + 1) == match power_spec(base, n) {
            Ok(p) => product(p, base),
            Err(e) => Err(e),
        },
{
}

proof fn lemma_power_error_persists(base: Decimal, m: nat, n: nat)
    requires
        1 <= m <= n,
        power_spec(base, m) is Err,
    ensures
        power_spec(base, n) == power_spec(base, m),
    decreases n - m,
{
    if n > m {
        lemma_power_error_persists(base, m, (n - 1) as nat);
    }
}

/// Arithmetic helpers for money and rates.
pub struct DecimalUtils;

impl DecimalUtils {
    /// Rounds to 2 decimal places, half to even.
    pub fn round_currency(value: Decimal) -> (r: Decimal)
        requires
            value.wf(),
        ensures
            r == rounded(value, 2),
            r.wf(),
    {
        value.round_dp(2)
    }

    /// Converts a percentage to a rate (5.5 becomes 0.055).
    pub fn percentage_to_rate(percentage: Decimal) -> (r: Result<Decimal, CalculationError>)
        requires
            percentage.wf(),
        ensures
            r == quotient(percentage, Decimal::from_int(100)),
            r matches Ok(d) ==> d.wf(),
    {
        percentage.div(Decimal::from_u32(100))
    }

    /// Converts an annual rate to a monthly one.
    pub fn annual_to_monthly_rate(annual_rate: Decimal) -> (r: Result<Decimal, CalculationError>)
        requires
            annual_rate.wf(),
        ensures
            r == quotient(annual_rate, Decimal::from_int(12)),
            r matches Ok(d) ==> d.wf(),
    {
        annual_rate.div(Decimal::from_u32(12))
    }

    /// Raises `base` to the power `exp` by repeated multiplication.
    pub fn power(base: Decimal, exp: i64) -> (r: Result<Decimal, CalculationError>)
        requires
            base.wf(),
            exp >= 0,
        ensures
            r == power_spec(base, exp as nat),
            r matches Ok(d) ==> d.wf(),
    {
        if exp == 0 {
            return Ok(Decimal::one());
        }
        let mut result = base;
        let mut i: i64 = 1;
        while i < exp
            invariant
                1 <= i <= exp,
                base.wf(),
                result.wf(),
                power_spec(base, i as nat) == Ok::<Decimal, CalculationError>(result),
            decreases exp - i,
        {
            match result.mul(base) {
                Ok(p) => result = p,
                Err(e) => {
                    proof {
                        lemma_power_error_persists(base, (i + 1) as nat, exp as nat);
                    }
                    return Err(e);
                },
            }
            i = i + 1;
        }
        Ok(result)
    }

    /// Whether `min <= value <= max`.
    pub fn is_within_range(value: Decimal, min: Decimal, max: Decimal) -> (r: bool)
        requires
            value.wf(),
            min.wf(),
            max.wf(),
        ensures
            r == (min.le(value) && value.le(max)),
    {
        min.at_most(value) && value.at_most(max)
    }

    /// The amortization factor `rate * (1 + rate)^n / ((1 + rate)^n - 1)`; a zero rate
    /// gives `DivisionByZero`.
    pub fn monthly_payment_factor(monthly_rate: Decimal, num_payments: u32) -> (r: Result<
        Decimal,
        CalculationError,
    >)
        requires
            monthly_rate.wf(),
        ensures
            r == payment_factor_spec(monthly_rate, num_payments as nat),
            r matches Ok(d) ==> d.wf(),
    {
        let base = Decimal::one().add(monthly_rate)?;
        let factor = DecimalUtils::power(base, num_payments as i64)?;
        let numerator = monthly_rate.mul(factor)?;
        let denominator = factor.sub(Decimal::one())?;
        numerator.div(denominator)
    }
}

pub open spec fn payment_date_spec(start: Date, index: int, is_biweekly: bool) -> Date {
    Date { days: (start.days + index * (if is_biweekly { 14int } else { 30int })) as i64 }
}

/// Date helpers for payment schedules.
pub struct DateUtils;

impl DateUtils {
    /// The due dates of `num_payments` payments, 14 or 30 days apart, from `start_date`.
    pub fn generate_payment_dates(start_date: Date, num_payments: u32, is_biweekly: bool) -> (r:
        Vec<Date>)
        requires
            start_date.wf(),
        ensures
            r@.len() == num_payments,
            forall|i: int|
                0 <= i < num_payments ==> #[trigger] r@[i] == payment_date_spec(
                    start_date,
                    i,
                    is_biweekly,
                ),
    {
        let interval: i64 = if is_biweekly {
            14
        } else {
            30
        };
        let mut dates: Vec<Date> = Vec::new();
        let mut i: u32 = 0;
        while i < num_payments
            invariant
                start_date.wf(),
                interval == (if is_biweekly { 14int } else { 30int }),
                i <= num_payments,
                dates@.len() == i,
                forall|j: int|
                    0 <= j < i ==> #[trigger] dates@[j] == payment_date_spec(
                        start_date,
                        j,
                        is_biweekly,
                    ),
            decreases num_payments - i,
        {
            assert(0 <= i * interval <= 30 * 0xFFFF_FFFF) by (nonlinear_arith)
                requires
                    i <= 0xFFFF_FFFF,
                    0 <= interval <= 30,
            ;
            dates.push(start_date.plus_days(i as i64 * interval));
            i = i + 1;
        }
        dates
    }

    /// The number of days from `date1` to `date2`.
    pub fn days_between_payments(date1: Date, date2: Date) -> (r: i64)
        requires
            date1.wf(),
            date2.wf(),
        ensures
            r == date2.days - date1.days,
    {
        date2.days - date1.days
    }

    /// The next due date: 14 days on for biweekly payments; else 30 days on, moved within
    /// that month to the current day of the month where that month has such a day and the
    /// landing day differs.
    pub open spec fn next_payment_date_spec(current_date: Date, is_biweekly: bool) -> Date {
        if is_biweekly {
            Date { days: (current_date.days + 14) as i64 }
        } else {
            let next = Date { days: (current_date.days + 30) as i64 };
            match (current_date.ymd_spec(), next.ymd_spec()) {
                (Some((_, _, day)), Some((year, month, next_day))) => if next_day != day {
                    match Date::from_ymd_spec(
                        year,
                        month,
                        if day < next_day {
                            day
                        } else {
                            next_day
                        },
                    ) {
                        Some(d) => d,
                        None => next,
                    }
                } else {
                    next
                },
                _ => next,
            }
        }
    }

    /// Returns the next payment date given a current date.
    pub fn next_payment_date(current_date: Date, is_biweekly: bool) -> (r: Date)
        requires
            current_date.wf(),
        ensures
            r == DateUtils::next_payment_date_spec(current_date, is_biweekly),
    {
        if is_biweekly {
            return current_date.plus_days(14);
        }
        let next = current_date.plus_days(30);
        match (current_date.ymd(), next.ymd()) {
            (Some((_, _, day)), Some((year, month, next_day))) => {
                if next_day != day {
                    let d = if day < next_day {
                        day
                    } else {
                        next_day
                    };
                    match Date::from_ymd(year, month, d) {
                        Some(moved) => moved,
                        None => next,
                    }
                } else {
                    next
                }
            },
            _ => next,
        }
    }

    /// Whether `date` is not before `today`.
    pub fn is_on_or_after(date: Date, today: Date) -> (r: bool)
        ensures
            r == (date.days >= today.days),
    {
        date.days >= today.days
    }

    /// Whether `date` is today or later, by the local calendar.
    pub fn is_valid_payment_date(date: Date) -> (r: bool)
        ensures
            exists|today: Date| today.wf() && r == (date.days >= today.days),
    {
        DateUtils::is_on_or_after(date, Date::today())
    }
}

} // verus!
