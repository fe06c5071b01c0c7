use vstd::prelude::*;

use crate::calculators::{computable, due_date, schedule_result, summary_of, MONTHLY_STEP_DAYS};
use crate::decimal::{difference, product, quotient, sum, CalculationError, Decimal};
use crate::input::MortgageInput;
use crate::models::{MortgageSchedule, MortgageSummary, PaymentScheduleEntry, RepaymentType, ScheduleModel};

verus! {

/// Lowest annual rate, in percent, that a period may draw.
pub const MIN_DRAWN_RATE: u32 = 1;

/// Highest annual rate, in percent, that a period may draw.
pub const MAX_DRAWN_RATE: u32 = 10;

/// Relies on `rand::thread_rng` and `Rng::gen_range` over `1..=10`: a uniformly drawn
/// whole percentage within those bounds.
#[verifier::external_body]
fn draw_annual_rate() -> (r: u32)
    ensures
        MIN_DRAWN_RATE <= r <= MAX_DRAWN_RATE,
{
    rand::Rng::gen_range(&mut rand::thread_rng(), 1..=10u32)
}

/// One drawn rate, in percent, for each month of the term.
pub open spec fn drawn_rates_fit(input: MortgageInput, rates: Seq<u32>) -> bool {
    &&& rates.len() == input.term_years * 12
    &&& forall|i: int| 0 <= i < rates.len() ==> MIN_DRAWN_RATE <= #[trigger] rates[i] <= MAX_DRAWN_RATE
}

/// Payment `number` at annual rate `rate_percent`: the payment is
/// `remaining * (r * (1 + r)) / ((1 + r) - 1)` with `r` the monthly rate. Gives the entry and
/// the balance, interest total and payment total after it.
pub open spec fn floating_step(
    input: MortgageInput,
    number: int,
    rate_percent: u32,
    remaining: Decimal,
    total_interest: Decimal,
    total_payments: Decimal,
) -> Result<(PaymentScheduleEntry, Decimal, Decimal, Decimal), CalculationError> {
    let annual = Decimal::from_int(rate_percent as int);
    match quotient(annual, Decimal::from_int(100)) {
        Err(e) => Err(e),
        Ok(a) => match quotient(a, Decimal::from_int(12)) {
            Err(e) => Err(e),
            Ok(rate) => match sum(Decimal::from_int(1), rate) {
                Err(e) => Err(e),
                Ok(growth) => match product(rate, growth) {
                    Err(e) => Err(e),
                    Ok(x) => match product(remaining, x) {
                        Err(e) => Err(e),
                        Ok(y) => match difference(growth, Decimal::from_int(1)) {
                            Err(e) => Err(e),
                            Ok(d) => match quotient(y, d) {
                                Err(e) => Err(e),
                                Ok(payment) => match product(remaining, rate) {
                                    Err(e) => Err(e),
                                    Ok(interest) => match difference(payment, interest) {
                                        Err(e) => Err(e),
                                        Ok(principal_component) => match sum(
                                            total_interest,
                                            interest,
                                        ) {
                                            Err(e) => Err(e),
                                            Ok(interest_after) => match sum(
                                                total_payments,
                                                payment,
                                            ) {
                                                Err(e) => Err(e),
                                                Ok(payments_after) => match difference(
                                                    remaining,
                                                    principal_component,
                                                ) {
                                                    Err(e) => Err(e),
                                                    Ok(remaining_after) => Ok(
                                                        (
                                                            PaymentScheduleEntry {
                                                                payment_date: due_date(
                                                                    input.start_date,
                                                                    number,
                                                                    MONTHLY_STEP_DAYS,
                                                                ),
                                                                payment_number: number as u32,
                                                                payment_amount: payment,
                                                                principal_component,
                                                                interest_component: interest,
                                                                remaining_principal: remaining_after,
                                                                current_rate: Some(annual),
                                                            },
                                                            remaining_after,
                                                            interest_after,
                                                            payments_after,
                                                        ),
                                                    ),
                                                },
                                            },
                                        },
                                    },
                                },
                            },
                        },
                    },
                },
            },
        },
    }
}

/// The first `k` payments at the given rates: entries, balance, interest total, payment total.
pub open spec fn floating_run(input: MortgageInput, rates: Seq<u32>, k: nat) -> Result<
    (Seq<PaymentScheduleEntry>, Decimal, Decimal, Decimal),
    CalculationError,
>
    decreases k,
{
    if k == 0 {
        Ok((Seq::empty(), input.principal, Decimal::from_int(0), Decimal::from_int(0)))
    } else {
        match floating_run(input, rates, (k - 1) as nat) {
            Err(e) => Err(e),
            Ok((entries, remaining, total_interest, total_payments)) => match floating_step(
                input,
                k as int,
                rates[k - 1],
                remaining,
                total_interest,
                total_payments,
            ) {
                Err(e) => Err(e),
                Ok((entry, remaining_after, interest_after, payments_after)) => Ok(
                    (entries.push(entry), remaining_after, interest_after, payments_after),
                ),
            },
        }
    }
}

proof fn lemma_floating_error_persists(input: MortgageInput, rates: Seq<u32>, m: nat, n: nat)
    requires
        m <= n,
        floating_run(input, rates, m) is Err,
    ensures
        floating_run(input, rates, n) == floating_run(input, rates, m),
    decreases n - m,
{
    if n > m {
        lemma_floating_error_persists(input, rates, m, (n - 1) as nat);
    }
}

/// The schedule at the given monthly rates; the monthly payment shown is the average payment.
pub open spec fn floating_schedule(input: MortgageInput, rates: Seq<u32>) -> Result<
    ScheduleModel,
    CalculationError,
> {
    match floating_run(input, rates, (input.term_years * 12) as nat) {
        Err(e) => Err(e),
        Ok((entries, _, total_interest, total_payments)) => match quotient(
            total_payments,
            Decimal::from_int(entries.len() as int),
        ) {
            Err(e) => Err(e),
            Ok(average) => Ok(
                ScheduleModel { monthly_payment: average, total_payments, total_interest, entries },
            ),
        },
    }
}

/// The APR that a floating-rate summary shows: 5.5.
pub open spec fn floating_apr() -> Decimal {
    Decimal { mantissa: 55, scale: 1 }
}

pub open spec fn floating_summary(input: MortgageInput, rates: Seq<u32>) -> Result<
    MortgageSummary,
    CalculationError,
> {
    match floating_schedule(input, rates) {
        Err(e) => Err(e),
        Ok(s) => Ok(
            summary_of(
                RepaymentType::FloatingRate,
                s,
                input.principal,
                floating_apr(),
                (input.term_years * 12) as u32,
            ),
        ),
    }
}

/// A rate drawn afresh each month.
pub struct FloatingRateCalculator;

impl FloatingRateCalculator {
    fn step_exec(
        input: &MortgageInput,
        number: u32,
        rate_percent: u32,
        remaining: Decimal,
        total_interest: Decimal,
        total_payments: Decimal,
    ) -> (r: Result<(PaymentScheduleEntry, Decimal, Decimal, Decimal), CalculationError>)
        requires
            computable(*input),
            1 <= number <= input.term_years * 12,
            remaining.wf(),
            total_interest.wf(),
            total_payments.wf(),
        ensures
            r == floating_step(
                *input,
                number as int,
                rate_percent,
                remaining,
                total_interest,
                total_payments,
            ),
            r matches Ok((_, a, b, c)) ==> a.wf() && b.wf() && c.wf(),
    {
        let annual = Decimal::from_u32(rate_percent);
        let a = annual.div(Decimal::from_u32(100))?;
        let rate = a.div(Decimal::from_u32(12))?;
        let growth = Decimal::one().add(rate)?;
        let x = rate.mul(growth)?;
        let y = remaining.mul(x)?;
        let d = growth.sub(Decimal::one())?;
        let payment = y.div(d)?;
        let interest = remaining.mul(rate)?;
        let principal_component = payment.sub(interest)?;
        let interest_after = total_interest.add(interest)?;
        let payments_after = total_payments.add(payment)?;
        let remaining_after = remaining.sub(principal_component)?;
        assert(0 <= (number - 1) * 30 <= 600 * 30) by (nonlinear_arith)
            requires
                1 <= number <= 600,
        ;
        let entry = PaymentScheduleEntry {
            payment_date: input.start_date.plus_days((number as i64 - 1) * MONTHLY_STEP_DAYS),
            payment_number: number,
            payment_amount: payment,
            principal_component,
            interest_component: interest,
            remaining_principal: remaining_after,
            current_rate: Some(annual),
        };
        Ok((entry, remaining_after, interest_after, payments_after))
    }

    /// The schedule at the given annual rates in percent, one per month.
    pub fn calculate_schedule_with_rates(input: &MortgageInput, rates: &Vec<u32>) -> (r: Result<
        MortgageSchedule,
        CalculationError,
    >)
        requires
            computable(*input),
            rates@.len() == input.term_years * 12,
        ensures
            schedule_result(r) == floating_schedule(*input, rates@),
    {
        let n = input.term_years * 12;
        let mut entries: Vec<PaymentScheduleEntry> = Vec::new();
        let mut remaining = input.principal;
        let mut total_interest = Decimal::zero();
        let mut total_payments = Decimal::zero();
        let mut number: u32 = 1;
        while number <= n
            invariant
                computable(*input),
                n == input.term_years * 12,
                rates@.len() == n,
                1 <= number <= n + 1,
                entries@.len() == number - 1,
                remaining.wf(),
                total_interest.wf(),
                total_payments.wf(),
                floating_run(*input, rates@, (number - 1) as nat) == Ok::<
                    (Seq<PaymentScheduleEntry>, Decimal, Decimal, Decimal),
                    CalculationError,
                >((entries@, remaining, total_interest, total_payments)),
            decreases n + 1 - number,
        {
            match FloatingRateCalculator::step_exec(
                input,
                number,
                rates[(number - 1) as usize],
                remaining,
                total_interest,
                total_payments,
            ) {
                Ok((entry, remaining_after, interest_after, payments_after)) => {
                    entries.push(entry);
                    remaining = remaining_after;
                    total_interest = interest_after;
                    total_payments = payments_after;
                },
                Err(e) => {
                    proof {
                        lemma_floating_error_persists(*input, rates@, number as nat, n as nat);
                    }
                    return Err(e);
                },
            }
            number = number + 1;
        }
        let count = Decimal::from_u32(entries.len() as u32);
        let average = total_payments.div(count)?;
        Ok(MortgageSchedule { monthly_payment: average, total_payments, total_interest, schedule: entries })
    }

    /// Draws one rate in [1, 10] percent for each month of the term.
    pub fn draw_rates(input: &MortgageInput) -> (r: Vec<u32>)
        requires
            computable(*input),
        ensures
            drawn_rates_fit(*input, r@),
    {
        let n = input.term_years * 12;
        let mut rates: Vec<u32> = Vec::new();
        while rates.len() < n as usize
            invariant
                n == input.term_years * 12,
                rates@.len() <= n,
                forall|i: int|
                    0 <= i < rates@.len() ==> MIN_DRAWN_RATE <= #[trigger] rates@[i] <= MAX_DRAWN_RATE,
            decreases n - rates@.len(),
        {
            rates.push(draw_annual_rate());
        }
        rates
    }

    /// The schedule at freshly drawn monthly rates.
    pub fn calculate_schedule(input: &MortgageInput) -> (r: Result<MortgageSchedule, CalculationError>)
        requires
            computable(*input),
        ensures
            exists|rates: Seq<u32>|
                drawn_rates_fit(*input, rates) && schedule_result(r) == floating_schedule(
                    *input,
                    rates,
                ),
    {
        let rates = FloatingRateCalculator::draw_rates(input);
        FloatingRateCalculator::calculate_schedule_with_rates(input, &rates)
    }

    /// The summary of a schedule at the given rates.
    pub fn calculate_summary_with_rates(input: &MortgageInput, rates: &Vec<u32>) -> (r: Result<
        MortgageSummary,
        CalculationError,
    >)
        requires
            computable(*input),
            rates@.len() == input.term_years * 12,
        ensures
            r == floating_summary(*input, rates@),
    {
        let s = FloatingRateCalculator::calculate_schedule_with_rates(input, rates)?;
        Ok(
            MortgageSummary::new(
                RepaymentType::FloatingRate,
                s.monthly_payment,
                s.total_payments,
                s.total_interest,
                input.principal,
                Decimal::new(55, 1),
                input.term_years * 12,
            ),
        )
    }

    /// The summary of a schedule at freshly drawn monthly rates.
    pub fn calculate_summary(input: &MortgageInput) -> (r: Result<MortgageSummary, CalculationError>)
        requires
            computable(*input),
        ensures
            exists|rates: Seq<u32>|
                drawn_rates_fit(*input, rates) && r == floating_summary(*input, rates),
    {
        let rates = FloatingRateCalculator::draw_rates(input);
        FloatingRateCalculator::calculate_summary_with_rates(input, &rates)
    }
}

} // verus!
