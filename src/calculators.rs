use vstd::prelude::*;

use crate::date::Date;
use crate::decimal::{difference, product, quotient, sum, CalculationError, Decimal};
use crate::input::MortgageInput;
use crate::models::{MortgageSchedule, MortgageSummary, PaymentScheduleEntry, RepaymentType, ScheduleModel};
use crate::utils::{power_spec, DecimalUtils};

verus! {

/// Days between two monthly payments.
pub const MONTHLY_STEP_DAYS: i64 = 30;

/// Days between two biweekly payments.
pub const BIWEEKLY_STEP_DAYS: i64 = 14;

/// A run of level payments against a balance that accrues interest each period.
#[derive(Clone, Copy, Debug, PartialEq, Eq, Structural)]
pub struct AmortizationPlan {
    /// Balance before the first payment
    pub principal: Decimal,
    /// Level payment of each period
    pub payment: Decimal,
    /// Interest rate of one period
    pub period_rate: Decimal,
    /// Number of payments
    pub count: u32,
    /// Due date of the first payment
    pub start_date: Date,
    /// Days between two payments
    pub step_days: i64,
    /// Rate shown on each entry
    pub reported_rate: Decimal,
    /// Amount added to the final payment and its principal component
    pub balloon: Option<Decimal>,
}

impl AmortizationPlan {
    pub open spec fn wf(self) -> bool {
        &&& self.principal.wf()
        &&& self.payment.wf()
        &&& self.period_rate.wf()
        &&& self.reported_rate.wf()
        &&& self.start_date.wf()
        &&& self.count <= 1300
        &&& 0 <= self.step_days <= 30
        &&& self.balloon matches Some(b) ==> b.wf()
    }
}

/// Due date of payment `number` (from 1).
pub open spec fn due_date(start: Date, number: int, step_days: i64) -> Date {
    Date { days: (start.days + (number - 1) * step_days) as i64 }
}

/// `x`, plus the balloon where there is one and this is the final payment.
pub open spec fn with_balloon(x: Decimal, balloon: Option<Decimal>, is_final: bool) -> Result<
    Decimal,
    CalculationError,
> {
    match balloon {
        Some(b) => if is_final {
            sum(x, b)
        } else {
            Ok(x)
        },
        None => Ok(x),
    }
}

/// Payment `number` of a plan, from the balance and interest total before it: the entry,
/// the balance after it and the interest total after it.
pub open spec fn amortization_step(
    p: AmortizationPlan,
    number: int,
    remaining: Decimal,
    total_interest: Decimal,
) -> Result<(PaymentScheduleEntry, Decimal, Decimal), CalculationError> {
    let is_final = number == p.count;
    match product(remaining, p.period_rate) {
        Err(e) => Err(e),
        Ok(interest) => match difference(p.payment, interest) {
            Err(e) => Err(e),
            Ok(base) => match with_balloon(base, p.balloon, is_final) {
                Err(e) => Err(e),
                Ok(principal_component) => match sum(total_interest, interest) {
                    Err(e) => Err(e),
                    Ok(interest_after) => match difference(remaining, principal_component) {
                        Err(e) => Err(e),
                        Ok(remaining_after) => match with_balloon(p.payment, p.balloon, is_final) {
                            Err(e) => Err(e),
                            Ok(amount) => Ok(
                                (
                                    PaymentScheduleEntry {
                                        payment_date: due_date(p.start_date, number, p.step_days),
                                        payment_number: number as u32,
                                        payment_amount: amount,
                                        principal_component,
                                        interest_component: interest,
                                        remaining_principal: remaining_after,
                                        current_rate: Some(p.reported_rate),
                                    },
                                    remaining_after,
                                    interest_after,
                                ),
                            ),
                        },
                    },
                },
            },
        },
    }
}

/// The first `k` payments of a plan: entries, balance after them, interest paid in them.
pub open spec fn amortized(p: AmortizationPlan, k: nat) -> Result<
    (Seq<PaymentScheduleEntry>, Decimal, Decimal),
    CalculationError,
>
    decreases k,
{
    if k == 0 {
        Ok((Seq::empty(), p.principal, Decimal::from_int(0)))
    } else {
        match amortized(p, (k - 1) as nat) {
            Err(e) => Err(e),
            Ok((entries, remaining, total_interest)) => match amortization_step(
                p,
                k as int,
                remaining,
                total_interest,
            ) {
                Err(e) => Err(e),
                Ok((entry, remaining_after, interest_after)) => Ok(
                    (entries.push(entry), remaining_after, interest_after),
                ),
            },
        }
    }
}

proof fn lemma_amortized_error_persists(p: AmortizationPlan, m: nat, n: nat)
    requires
        m <= n,
        amortized(p, m) is Err,
    ensures
        amortized(p, n) == amortized(p, m),
    decreases n - m,
{
    if n > m {
        lemma_amortized_error_persists(p, m, (n - 1) as nat);
    }
}

fn amortization_step_exec(
    p: &AmortizationPlan,
    number: u32,
    remaining: Decimal,
    total_interest: Decimal,
) -> (r: Result<(PaymentScheduleEntry, Decimal, Decimal), CalculationError>)
    requires
        p.wf(),
        1 <= number <= p.count,
        remaining.wf(),
        total_interest.wf(),
    ensures
        r == amortization_step(*p, number as int, remaining, total_interest),
        r matches Ok((_, a, b)) ==> a.wf() && b.wf(),
{
    let is_final = number == p.count;
    let interest = remaining.mul(p.period_rate)?;
    let mut principal_component = p.payment.sub(interest)?;
    let mut payment_amount = p.payment;
    if let Some(balloon) = p.balloon {
        if is_final {
            principal_component = principal_component.add(balloon)?;
        }
    }
    let interest_after = total_interest.add(interest)?;
    let remaining_after = remaining.sub(principal_component)?;
    if let Some(balloon) = p.balloon {
        if is_final {
            payment_amount = p.payment.add(balloon)?;
        }
    }
    assert(0 <= (number - 1) * p.step_days <= 1300 * 30) by (nonlinear_arith)
        requires
            1 <= number <= 1300,
            0 <= p.step_days <= 30,
    ;
    let entry = PaymentScheduleEntry {
        payment_date: p.start_date.plus_days((number as i64 - 1) * p.step_days),
        payment_number: number,
        payment_amount,
        principal_component,
        interest_component: interest,
        remaining_principal: remaining_after,
        current_rate: Some(p.reported_rate),
    };
    Ok((entry, remaining_after, interest_after))
}

/// Runs every payment of a plan.
pub fn amortize(p: &AmortizationPlan) -> (r: Result<
    (Vec<PaymentScheduleEntry>, Decimal, Decimal),
    CalculationError,
>)
    requires
        p.wf(),
    ensures
        match (r, amortized(*p, p.count as nat)) {
            (Ok((v, a, b)), Ok((s, a2, b2))) => v@ == s && a == a2 && b == b2 && a.wf() && b.wf(),
            (Err(e), Err(e2)) => e == e2,
            _ => false,
        },
{
    let mut entries: Vec<PaymentScheduleEntry> = Vec::new();
    let mut remaining = p.principal;
    let mut total_interest = Decimal::zero();
    let mut number: u32 = 1;
    while number <= p.count
        invariant
            p.wf(),
            1 <= number <= p.count + 1,
            remaining.wf(),
            total_interest.wf(),
            amortized(*p, (number - 1) as nat) == Ok::<
                (Seq<PaymentScheduleEntry>, Decimal, Decimal),
                CalculationError,
            >((entries@, remaining, total_interest)),
        decreases p.count + 1 - number,
    {
        match amortization_step_exec(p, number, remaining, total_interest) {
            Ok((entry, remaining_after, interest_after)) => {
                entries.push(entry);
                remaining = remaining_after;
                total_interest = interest_after;
            },
            Err(e) => {
                proof {
                    lemma_amortized_error_persists(*p, number as nat, p.count as nat);
                }
                return Err(e);
            },
        }
        number = number + 1;
    }
    Ok((entries, remaining, total_interest))
}

/// The level payment `amount * (rate * f) / (f - 1)` with `f = (1 + rate)^n`.
pub open spec fn level_payment(amount: Decimal, rate: Decimal, n: nat) -> Result<
    Decimal,
    CalculationError,
> {
    match sum(Decimal::from_int(1), rate) {
        Err(e) => Err(e),
        Ok(base) => match power_spec(base, n) {
            Err(e) => Err(e),
            Ok(factor) => match product(rate, factor) {
                Err(e) => Err(e),
                Ok(x) => match product(amount, x) {
                    Err(e) => Err(e),
                    Ok(y) => match difference(factor, Decimal::from_int(1)) {
                        Err(e) => Err(e),
                        Ok(d) => quotient(y, d),
                    },
                },
            },
        },
    }
}

fn level_payment_exec(amount: Decimal, rate: Decimal, n: u32) -> (r: Result<
    Decimal,
    CalculationError,
>)
    requires
        amount.wf(),
        rate.wf(),
    ensures
        r == level_payment(amount, rate, n as nat),
        r matches Ok(d) ==> d.wf(),
{
    let base = Decimal::one().add(rate)?;
    let factor = DecimalUtils::power(base, n as i64)?;
    let x = rate.mul(factor)?;
    let y = amount.mul(x)?;
    let d = factor.sub(Decimal::one())?;
    y.div(d)
}

/// The view of a calculator's result.
pub open spec fn schedule_result(r: Result<MortgageSchedule, CalculationError>) -> Result<
    ScheduleModel,
    CalculationError,
> {
    match r {
        Ok(s) => Ok(s@),
        Err(e) => Err(e),
    }
}

/// Inputs that a calculator accepts: representable values and a term of 1 to 50 years.
pub open spec fn computable(input: MortgageInput) -> bool {
    input.wf() && 1 <= input.term_years <= 50
}

pub open spec fn monthly_rate_of(input: MortgageInput) -> Result<Decimal, CalculationError> {
    quotient(input.annual_interest_rate, Decimal::from_int(12))
}


/// The summary of a schedule: its figures, with the principal paid, the rate shown as
/// APR and the number of payments.
pub open spec fn summary_of(
    repayment_type: RepaymentType,
    s: ScheduleModel,
    principal: Decimal,
    apr: Decimal,
    number_of_payments: u32,
) -> MortgageSummary {
    MortgageSummary::new_spec(
        repayment_type,
        s.monthly_payment,
        s.total_payments,
        s.total_interest,
        principal,
        apr,
        number_of_payments,
    )
}

fn summarize(
    repayment_type: RepaymentType,
    s: &MortgageSchedule,
    principal: Decimal,
    apr: Decimal,
    number_of_payments: u32,
) -> (r: MortgageSummary)
    ensures
        r == summary_of(repayment_type, s@, principal, apr, number_of_payments),
{
    MortgageSummary::new(
        repayment_type,
        s.monthly_payment,
        s.total_payments,
        s.total_interest,
        principal,
        apr,
        number_of_payments,
    )
}

pub open spec fn monthly_plan(
    input: MortgageInput,
    payment: Decimal,
    rate: Decimal,
    balloon: Option<Decimal>,
) -> AmortizationPlan {
    AmortizationPlan {
        principal: input.principal,
        payment,
        period_rate: rate,
        count: (input.term_years * 12) as u32,
        start_date: input.start_date,
        step_days: MONTHLY_STEP_DAYS,
        reported_rate: input.annual_interest_rate,
        balloon,
    }
}

/// Monthly level payments over `12 * term_years` periods at a twelfth of the annual rate.
pub open spec fn standard_schedule(input: MortgageInput) -> Result<ScheduleModel, CalculationError> {
    let n = (input.term_years * 12) as nat;
    match monthly_rate_of(input) {
        Err(e) => Err(e),
        Ok(rate) => match level_payment(input.principal, rate, n) {
            Err(e) => Err(e),
            Ok(payment) => match amortized(monthly_plan(input, payment, rate, None), n) {
                Err(e) => Err(e),
                Ok((entries, _, total_interest)) => match product(
                    payment,
                    Decimal::from_int(n as int),
                ) {
                    Err(e) => Err(e),
                    Ok(total_payments) => Ok(
                        ScheduleModel {
                            monthly_payment: payment,
                            total_payments,
                            total_interest,
                            entries,
                        },
                    ),
                },
            },
        },
    }
}

pub open spec fn standard_summary(input: MortgageInput) -> Result<MortgageSummary, CalculationError> {
    match standard_schedule(input) {
        Err(e) => Err(e),
        Ok(s) => Ok(
            summary_of(
                RepaymentType::StandardPrincipalAndInterest,
                s,
                input.principal,
                input.annual_interest_rate,
                (input.term_years * 12) as u32,
            ),
        ),
    }
}

/// Principal and interest in level monthly payments.
pub struct StandardCalculator;

impl StandardCalculator {
    pub fn calculate_schedule(input: &MortgageInput) -> (r: Result<MortgageSchedule, CalculationError>)
        requires
            computable(*input),
        ensures
            schedule_result(r) == standard_schedule(*input),
    {
        let rate = input.annual_interest_rate.div(Decimal::from_u32(12))?;
        let n = input.term_years * 12;
        let payment = level_payment_exec(input.principal, rate, n)?;
        let plan = AmortizationPlan {
            principal: input.principal,
            payment,
            period_rate: rate,
            count: n,
            start_date: input.start_date,
            step_days: MONTHLY_STEP_DAYS,
            reported_rate: input.annual_interest_rate,
            balloon: None,
        };
        let (entries, _, total_interest) = amortize(&plan)?;
        let total_payments = payment.mul(Decimal::from_u32(n))?;
        Ok(MortgageSchedule { monthly_payment: payment, total_payments, total_interest, schedule: entries })
    }

    pub fn calculate_summary(input: &MortgageInput) -> (r: Result<MortgageSummary, CalculationError>)
        requires
            computable(*input),
        ensures
            r == standard_summary(*input),
    {
        let s = StandardCalculator::calculate_schedule(input)?;
        Ok(summarize(
            RepaymentType::StandardPrincipalAndInterest,
            &s,
            input.principal,
            input.annual_interest_rate,
            input.term_years * 12,
        ))
    }
}


/// Biweekly payments of half the standard monthly payment, at half the monthly rate,
/// over `26 * term_years` periods.
pub open spec fn accelerated_schedule(input: MortgageInput) -> Result<ScheduleModel, CalculationError> {
    let n = (input.term_years * 26) as nat;
    match monthly_rate_of(input) {
        Err(e) => Err(e),
        Ok(monthly_rate) => match quotient(monthly_rate, Decimal::from_int(2)) {
            Err(e) => Err(e),
            Ok(rate) => match level_payment(
                input.principal,
                monthly_rate,
                (input.term_years * 12) as nat,
            ) {
                Err(e) => Err(e),
                Ok(monthly_equivalent) => match quotient(monthly_equivalent, Decimal::from_int(2)) {
                    Err(e) => Err(e),
                    Ok(payment) => match amortized(biweekly_plan(input, payment, rate), n) {
                        Err(e) => Err(e),
                        Ok((entries, _, total_interest)) => match product(
                            payment,
                            Decimal::from_int(2),
                        ) {
                            Err(e) => Err(e),
                            Ok(monthly_payment) => match product(
                                payment,
                                Decimal::from_int(n as int),
                            ) {
                                Err(e) => Err(e),
                                Ok(total_payments) => Ok(
                                    ScheduleModel {
                                        monthly_payment,
                                        total_payments,
                                        total_interest,
                                        entries,
                                    },
                                ),
                            },
                        },
                    },
                },
            },
        },
    }
}

pub open spec fn biweekly_plan(input: MortgageInput, payment: Decimal, rate: Decimal) -> AmortizationPlan {
    AmortizationPlan {
        principal: input.principal,
        payment,
        period_rate: rate,
        count: (input.term_years * 26) as u32,
        start_date: input.start_date,
        step_days: BIWEEKLY_STEP_DAYS,
        reported_rate: input.annual_interest_rate,
        balloon: None,
    }
}

pub open spec fn accelerated_summary(input: MortgageInput) -> Result<MortgageSummary, CalculationError> {
    match accelerated_schedule(input) {
        Err(e) => Err(e),
        Ok(s) => Ok(
            summary_of(
                RepaymentType::AcceleratedBiweekly,
                s,
                input.principal,
                input.annual_interest_rate,
                (input.term_years * 26) as u32,
            ),
        ),
    }
}

/// Half the standard monthly payment every two weeks.
pub struct AcceleratedCalculator;

impl AcceleratedCalculator {
    pub fn calculate_schedule(input: &MortgageInput) -> (r: Result<MortgageSchedule, CalculationError>)
        requires
            computable(*input),
        ensures
            schedule_result(r) == accelerated_schedule(*input),
    {
        let monthly_rate = input.annual_interest_rate.div(Decimal::from_u32(12))?;
        let rate = monthly_rate.div(Decimal::from_u32(2))?;
        let n = input.term_years * 26;
        let monthly_equivalent = level_payment_exec(
            input.principal,
            monthly_rate,
            input.term_years * 12,
        )?;
        let payment = monthly_equivalent.div(Decimal::from_u32(2))?;
        let plan = AmortizationPlan {
            principal: input.principal,
            payment,
            period_rate: rate,
            count: n,
            start_date: input.start_date,
            step_days: BIWEEKLY_STEP_DAYS,
            reported_rate: input.annual_interest_rate,
            balloon: None,
        };
        let (entries, _, total_interest) = amortize(&plan)?;
        let monthly_payment = payment.mul(Decimal::from_u32(2))?;
        let total_payments = payment.mul(Decimal::from_u32(n))?;
        Ok(MortgageSchedule { monthly_payment, total_payments, total_interest, schedule: entries })
    }

    pub fn calculate_summary(input: &MortgageInput) -> (r: Result<MortgageSummary, CalculationError>)
        requires
            computable(*input),
        ensures
            r == accelerated_summary(*input),
    {
        let s = AcceleratedCalculator::calculate_schedule(input)?;
        Ok(summarize(
            RepaymentType::AcceleratedBiweekly,
            &s,
            input.principal,
            input.annual_interest_rate,
            input.term_years * 26,
        ))
    }
}

/// `principal * balloon_payment_percentage / 100`.
pub open spec fn balloon_amount(input: MortgageInput) -> Result<Decimal, CalculationError> {
    match product(input.principal, input.balloon_payment_percentage) {
        Err(e) => Err(e),
        Ok(x) => quotient(x, Decimal::from_int(100)),
    }
}

/// Monthly level payments that amortize the principal less the balloon, with interest on
/// the full balance, and the balloon added to the final payment.
pub open spec fn balloon_schedule(input: MortgageInput) -> Result<ScheduleModel, CalculationError> {
    let n = (input.term_years * 12) as nat;
    match monthly_rate_of(input) {
        Err(e) => Err(e),
        Ok(rate) => match balloon_amount(input) {
            Err(e) => Err(e),
            Ok(balloon) => match difference(input.principal, balloon) {
                Err(e) => Err(e),
                Ok(amortizing) => match level_payment(amortizing, rate, n) {
                    Err(e) => Err(e),
                    Ok(payment) => match amortized(
                        monthly_plan(input, payment, rate, Some(balloon)),
                        n,
                    ) {
                        Err(e) => Err(e),
                        Ok((entries, _, total_interest)) => match product(
                            payment,
                            Decimal::from_int(n - 1),
                        ) {
                            Err(e) => Err(e),
                            Ok(regular) => match sum(payment, balloon) {
                                Err(e) => Err(e),
                                Ok(last) => match sum(regular, last) {
                                    Err(e) => Err(e),
                                    Ok(total_payments) => Ok(
                                        ScheduleModel {
                                            monthly_payment: payment,
                                            total_payments,
                                            total_interest,
                                            entries,
                                        },
                                    ),
                                },
                            },
                        },
                    },
                },
            },
        },
    }
}

pub open spec fn balloon_summary(input: MortgageInput) -> Result<MortgageSummary, CalculationError> {
    match balloon_schedule(input) {
        Err(e) => Err(e),
        Ok(s) => match balloon_amount(input) {
            Err(e) => Err(e),
            Ok(balloon) => Ok(
                MortgageSummary {
                    balloon_payment: Some(balloon),
                    ..summary_of(
                        RepaymentType::BalloonPayment,
                        s,
                        input.principal,
                        input.annual_interest_rate,
                        (input.term_years * 12) as u32,
                    )
                },
            ),
        },
    }
}

/// Regular payments with a lump sum due with the last one.
pub struct BalloonCalculator;

impl BalloonCalculator {
    fn balloon_amount_exec(input: &MortgageInput) -> (r: Result<Decimal, CalculationError>)
        requires
            input.wf(),
        ensures
            r == balloon_amount(*input),
            r matches Ok(d) ==> d.wf(),
    {
        let x = input.principal.mul(input.balloon_payment_percentage)?;
        x.div(Decimal::from_u32(100))
    }

    pub fn calculate_schedule(input: &MortgageInput) -> (r: Result<MortgageSchedule, CalculationError>)
        requires
            computable(*input),
        ensures
            schedule_result(r) == balloon_schedule(*input),
    {
        let rate = input.annual_interest_rate.div(Decimal::from_u32(12))?;
        let n = input.term_years * 12;
        let balloon = BalloonCalculator::balloon_amount_exec(input)?;
        let amortizing = input.principal.sub(balloon)?;
        let payment = level_payment_exec(amortizing, rate, n)?;
        let plan = AmortizationPlan {
            principal: input.principal,
            payment,
            period_rate: rate,
            count: n,
            start_date: input.start_date,
            step_days: MONTHLY_STEP_DAYS,
            reported_rate: input.annual_interest_rate,
            balloon: Some(balloon),
        };
        let (entries, _, total_interest) = amortize(&plan)?;
        let regular = payment.mul(Decimal::from_u32(n - 1))?;
        let last = payment.add(balloon)?;
        let total_payments = regular.add(last)?;
        Ok(MortgageSchedule { monthly_payment: payment, total_payments, total_interest, schedule: entries })
    }

    pub fn calculate_summary(input: &MortgageInput) -> (r: Result<MortgageSummary, CalculationError>)
        requires
            computable(*input),
        ensures
            r == balloon_summary(*input),
    {
        let s = BalloonCalculator::calculate_schedule(input)?;
        let balloon = BalloonCalculator::balloon_amount_exec(input)?;
        Ok(summarize(
            RepaymentType::BalloonPayment,
            &s,
            input.principal,
            input.annual_interest_rate,
            input.term_years * 12,
        ).with_balloon_payment(balloon))
    }
}

} // verus!
