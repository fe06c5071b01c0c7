use vstd::prelude::*;

use crate::calculators::{
    accelerated_schedule, accelerated_summary, amortization_step, amortized, balloon_amount,
    balloon_schedule, balloon_summary, biweekly_plan, computable, due_date, level_payment,
    monthly_plan, monthly_rate_of, schedule_result, standard_schedule, standard_summary,
    with_balloon, AcceleratedCalculator, AmortizationPlan, BalloonCalculator, StandardCalculator,
};
use crate::decimal::{difference, product, quotient, sum, CalculationError, Decimal};
use crate::floating::{drawn_rates_fit, floating_run, floating_schedule, floating_summary, FloatingRateCalculator};
use crate::input::MortgageInput;
use crate::interest_only::{
    interest_only_run, interest_only_schedule, interest_only_summary, InterestOnlyCalculator,
};
use crate::models::{MortgageSchedule, MortgageSummary, PaymentScheduleEntry, RepaymentType, ScheduleModel};

verus! {

/// The schedule of an input's repayment type; `rates` are the monthly rates in percent
/// that a floating-rate loan draws, and are ignored by the other types.
pub open spec fn schedule_spec(input: MortgageInput, rates: Seq<u32>) -> Result<
    ScheduleModel,
    CalculationError,
> {
    match input.repayment_type {
        RepaymentType::StandardPrincipalAndInterest => standard_schedule(input),
        RepaymentType::InterestOnly => interest_only_schedule(input),
        RepaymentType::AcceleratedBiweekly => accelerated_schedule(input),
        RepaymentType::BalloonPayment => balloon_schedule(input),
        RepaymentType::FloatingRate => floating_schedule(input, rates),
    }
}

/// The summary of an input's repayment type, at the given floating rates.
pub open spec fn summary_spec(input: MortgageInput, rates: Seq<u32>) -> Result<
    MortgageSummary,
    CalculationError,
> {
    match input.repayment_type {
        RepaymentType::StandardPrincipalAndInterest => standard_summary(input),
        RepaymentType::InterestOnly => interest_only_summary(input),
        RepaymentType::AcceleratedBiweekly => accelerated_summary(input),
        RepaymentType::BalloonPayment => balloon_summary(input),
        RepaymentType::FloatingRate => floating_summary(input, rates),
    }
}

/// Number of payments of an input's repayment type.
pub open spec fn period_count(input: MortgageInput) -> nat {
    if input.repayment_type == RepaymentType::AcceleratedBiweekly {
        (input.term_years * 26) as nat
    } else {
        (input.term_years * 12) as nat
    }
}

/// Days between two payments of an input's repayment type.
pub open spec fn period_days(input: MortgageInput) -> i64 {
    if input.repayment_type == RepaymentType::AcceleratedBiweekly {
        14
    } else {
        30
    }
}

/// The schedule at the given monthly rates (used by the floating-rate type only).
pub fn calculate_schedule_with_rates(input: &MortgageInput, rates: &Vec<u32>) -> (r: Result<
    MortgageSchedule,
    CalculationError,
>)
    requires
        computable(*input),
        rates@.len() == input.term_years * 12,
    ensures
        schedule_result(r) == schedule_spec(*input, rates@),
{
    match input.repayment_type {
        RepaymentType::StandardPrincipalAndInterest => StandardCalculator::calculate_schedule(input),
        RepaymentType::InterestOnly => InterestOnlyCalculator::calculate_schedule(input),
        RepaymentType::AcceleratedBiweekly => AcceleratedCalculator::calculate_schedule(input),
        RepaymentType::BalloonPayment => BalloonCalculator::calculate_schedule(input),
        RepaymentType::FloatingRate => FloatingRateCalculator::calculate_schedule_with_rates(
            input,
            rates,
        ),
    }
}

/// The summary at the given monthly rates (used by the floating-rate type only).
pub fn calculate_summary_with_rates(input: &MortgageInput, rates: &Vec<u32>) -> (r: Result<
    MortgageSummary,
    CalculationError,
>)
    requires
        computable(*input),
        rates@.len() == input.term_years * 12,
    ensures
        r == summary_spec(*input, rates@),
{
    match input.repayment_type {
        RepaymentType::StandardPrincipalAndInterest => StandardCalculator::calculate_summary(input),
        RepaymentType::InterestOnly => InterestOnlyCalculator::calculate_summary(input),
        RepaymentType::AcceleratedBiweekly => AcceleratedCalculator::calculate_summary(input),
        RepaymentType::BalloonPayment => BalloonCalculator::calculate_summary(input),
        RepaymentType::FloatingRate => FloatingRateCalculator::calculate_summary_with_rates(
            input,
            rates,
        ),
    }
}

/// The schedule of the input's repayment type; a floating-rate loan draws its rates.
pub fn calculate_schedule(input: &MortgageInput) -> (r: Result<MortgageSchedule, CalculationError>)
    requires
        computable(*input),
    ensures
        exists|rates: Seq<u32>|
            drawn_rates_fit(*input, rates) && schedule_result(r) == schedule_spec(*input, rates),
        input.repayment_type != RepaymentType::FloatingRate ==> schedule_result(r)
            == schedule_spec(*input, Seq::empty()),
{
    let rates = FloatingRateCalculator::draw_rates(input);
    calculate_schedule_with_rates(input, &rates)
}

/// The summary of the input's repayment type; a floating-rate loan draws its rates.
pub fn calculate_summary(input: &MortgageInput) -> (r: Result<MortgageSummary, CalculationError>)
    requires
        computable(*input),
    ensures
        exists|rates: Seq<u32>| drawn_rates_fit(*input, rates) && r == summary_spec(*input, rates),
        input.repayment_type != RepaymentType::FloatingRate ==> r == summary_spec(
            *input,
            Seq::empty(),
        ),
{
    let rates = FloatingRateCalculator::draw_rates(input);
    calculate_summary_with_rates(input, &rates)
}

/// A summary succeeds exactly when the schedule does, and then shows the schedule's
/// monthly payment, total of payments and total interest.
pub proof fn lemma_summary_agrees_with_schedule(input: MortgageInput, rates: Seq<u32>)
    ensures
        summary_spec(input, rates) is Ok <==> schedule_spec(input, rates) is Ok,
        summary_spec(input, rates) matches Ok(sm) ==> schedule_spec(input, rates) matches Ok(s)
            && sm.total_interest == s.total_interest && sm.total_payments == s.total_payments
            && sm.monthly_payment == s.monthly_payment && sm.total_principal_paid
            == input.principal && sm.repayment_type == input.repayment_type,
{
}

proof fn lemma_amortized_shape(p: AmortizationPlan, k: nat)
    requires
        k <= 1300,
        amortized(p, k) is Ok,
    ensures
        amortized(p, k) matches Ok((entries, _, _)) && entries.len() == k && forall|i: int|
            0 <= i < k ==> (#[trigger] entries[i]).payment_number == i + 1
                && entries[i].payment_date == due_date(p.start_date, i + 1, p.step_days),
    decreases k,
{
    if k > 0 {
        lemma_amortized_shape(p, (k - 1) as nat);
    }
}

proof fn lemma_interest_only_shape(input: MortgageInput, payment: Decimal, k: nat)
    requires
        k <= 600,
        interest_only_run(input, payment, k) is Ok,
    ensures
        interest_only_run(input, payment, k) matches Ok((entries, _)) && entries.len() == k
            && forall|i: int|
            0 <= i < k ==> (#[trigger] entries[i]).payment_number == i + 1
                && entries[i].payment_date == due_date(input.start_date, i + 1, 30)
                && entries[i].remaining_principal == input.principal,
    decreases k,
{
    if k > 0 {
        lemma_interest_only_shape(input, payment, (k - 1) as nat);
    }
}

proof fn lemma_floating_shape(input: MortgageInput, rates: Seq<u32>, k: nat)
    requires
        k <= 600,
        floating_run(input, rates, k) is Ok,
    ensures
        floating_run(input, rates, k) matches Ok((entries, _, _, _)) && entries.len() == k
            && forall|i: int|
            0 <= i < k ==> (#[trigger] entries[i]).payment_number == i + 1
                && entries[i].payment_date == due_date(input.start_date, i + 1, 30),
    decreases k,
{
    if k > 0 {
        lemma_floating_shape(input, rates, (k - 1) as nat);
    }
}

/// A schedule has one entry per period: `12 * term_years` entries, or `26 * term_years` for
/// biweekly payments, numbered from 1 and due every 30 (or 14) days from the start date.
pub proof fn lemma_one_entry_per_period(input: MortgageInput, rates: Seq<u32>)
    requires
        computable(input),
    ensures
        schedule_spec(input, rates) matches Ok(s) ==> {
            &&& s.entries.len() == period_count(input)
            &&& forall|i: int|
                0 <= i < s.entries.len() ==> (#[trigger] s.entries[i]).payment_number == i + 1
                    && s.entries[i].payment_date == due_date(
                    input.start_date,
                    i + 1,
                    period_days(input),
                )
        },
{
    let n = (input.term_years * 12) as nat;
    if schedule_spec(input, rates) is Ok {
        match input.repayment_type {
            RepaymentType::StandardPrincipalAndInterest => {
                let rate = monthly_rate_of(input)->Ok_0;
                let payment = level_payment(input.principal, rate, n)->Ok_0;
                lemma_amortized_shape(monthly_plan(input, payment, rate, None), n);
            },
            RepaymentType::InterestOnly => {
                let rate = monthly_rate_of(input)->Ok_0;
                let payment = product(input.principal, rate)->Ok_0;
                lemma_interest_only_shape(input, payment, n);
            },
            RepaymentType::AcceleratedBiweekly => {
                let monthly_rate = monthly_rate_of(input)->Ok_0;
                let rate = quotient(monthly_rate, Decimal::from_int(2))->Ok_0;
                let equivalent = level_payment(input.principal, monthly_rate, n)->Ok_0;
                let payment = quotient(equivalent, Decimal::from_int(2))->Ok_0;
                lemma_amortized_shape(
                    biweekly_plan(input, payment, rate),
                    (input.term_years * 26) as nat,
                );
            },
            RepaymentType::BalloonPayment => {
                let rate = monthly_rate_of(input)->Ok_0;
                let balloon = balloon_amount(input)->Ok_0;
                let amortizing = difference(input.principal, balloon)->Ok_0;
                let payment = level_payment(amortizing, rate, n)->Ok_0;
                lemma_amortized_shape(monthly_plan(input, payment, rate, Some(balloon)), n);
            },
            RepaymentType::FloatingRate => {
                lemma_floating_shape(input, rates, n);
            },
        }
    }
}

/// An interest-only schedule shows the full principal as remaining on every entry.
pub proof fn lemma_interest_only_keeps_principal(input: MortgageInput)
    requires
        computable(input),
    ensures
        interest_only_schedule(input) matches Ok(s) ==> forall|i: int|
            0 <= i < s.entries.len() ==> (#[trigger] s.entries[i]).remaining_principal
                == input.principal,
{
    let n = (input.term_years * 12) as nat;
    if interest_only_schedule(input) is Ok {
        let rate = monthly_rate_of(input)->Ok_0;
        let payment = product(input.principal, rate)->Ok_0;
        lemma_interest_only_shape(input, payment, n);
    }
}

/// The final balloon payment is the monthly payment plus the balloon amount,
/// `principal * balloon_payment_percentage / 100`.
pub proof fn lemma_balloon_final_payment(input: MortgageInput)
    requires
        computable(input),
    ensures
        balloon_schedule(input) matches Ok(s) ==> balloon_amount(input) matches Ok(b) && sum(
            s.monthly_payment,
            b,
        ) == Ok::<Decimal, CalculationError>(s.entries.last().payment_amount),
{
    let n = (input.term_years * 12) as nat;
    if balloon_schedule(input) is Ok {
        let rate = monthly_rate_of(input)->Ok_0;
        let balloon = balloon_amount(input)->Ok_0;
        let amortizing = difference(input.principal, balloon)->Ok_0;
        let payment = level_payment(amortizing, rate, n)->Ok_0;
        let p = monthly_plan(input, payment, rate, Some(balloon));
        let before = amortized(p, (n - 1) as nat)->Ok_0;
        let step = amortization_step(p, n as int, before.1, before.2);
        assert(step is Ok);
        assert(with_balloon(payment, Some(balloon), true) == sum(payment, balloon));
    }
}

} // verus!
