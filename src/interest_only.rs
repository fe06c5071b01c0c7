use vstd::prelude::*;

use crate::calculators::{
    computable, due_date, monthly_rate_of, schedule_result, summary_of, MONTHLY_STEP_DAYS,
};
use crate::decimal::{product, sum, CalculationError, Decimal};
use crate::input::MortgageInput;
use crate::models::{MortgageSchedule, MortgageSummary, PaymentScheduleEntry, RepaymentType, ScheduleModel};

verus! {

/// The first `k` payments of an interest-only loan paying `payment` each month: the
/// entries and the interest paid in them. The final payment also repays the principal;
/// every entry shows the full principal as remaining.
pub open spec fn interest_only_run(input: MortgageInput, payment: Decimal, k: nat) -> Result<
    (Seq<PaymentScheduleEntry>, Decimal),
    CalculationError,
>
    decreases k,
{
    if k == 0 {
        Ok((Seq::empty(), Decimal::from_int(0)))
    } else {
        match interest_only_run(input, payment, (k - 1) as nat) {
            Err(e) => Err(e),
            Ok((entries, total_interest)) => {
                let is_final = k == input.term_years * 12;
                match sum(total_interest, payment) {
                    Err(e) => Err(e),
                    Ok(interest_after) => match (if is_final {
                        sum(payment, input.principal)
                    } else {
                        Ok(payment)
                    }) {
                        Err(e) => Err(e),
                        Ok(amount) => Ok(
                            (
                                entries.push(
                                    PaymentScheduleEntry {
                                        payment_date: due_date(
                                            input.start_date,
                                            k as int,
                                            MONTHLY_STEP_DAYS,
                                        ),
                                        payment_number: k as u32,
                                        payment_amount: amount,
                                        principal_component: if is_final {
                                            input.principal
                                        } else {
                                            Decimal::from_int(0)
                                        },
                                        interest_component: payment,
                                        remaining_principal: input.principal,
                                        current_rate: Some(input.annual_interest_rate),
                                    },
                                ),
                                interest_after,
                            ),
                        ),
                    },
                }
            },
        }
    }
}

proof fn lemma_interest_only_error_persists(
    input: MortgageInput,
    payment: Decimal,
    m: nat,
    n: nat,
)
    requires
        m <= n,
        interest_only_run(input, payment, m) is Err,
    ensures
        interest_only_run(input, payment, n) == interest_only_run(input, payment, m),
    decreases n - m,
{
    if n > m {
        lemma_interest_only_error_persists(input, payment, m, (n - 1) as nat);
    }
}

/// Interest `principal * monthly rate` every month, the principal with the last payment.
pub open spec fn interest_only_schedule(input: MortgageInput) -> Result<
    ScheduleModel,
    CalculationError,
> {
    let n = (input.term_years * 12) as nat;
    match monthly_rate_of(input) {
        Err(e) => Err(e),
        Ok(rate) => match product(input.principal, rate) {
            Err(e) => Err(e),
            Ok(payment) => match interest_only_run(input, payment, n) {
                Err(e) => Err(e),
                Ok((entries, total_interest)) => match product(
                    payment,
                    Decimal::from_int(n as int),
                ) {
                    Err(e) => Err(e),
                    Ok(x) => match sum(x, input.principal) {
                        Err(e) => Err(e),
                        Ok(total_payments) => Ok(
                            ScheduleModel {
                                monthly_payment: payment,
                                total_payments,
                                total_interest,
                                entries,
                            },
                        ),
                    },
                },
            },
        },
    }
}

pub open spec fn interest_only_summary(input: MortgageInput) -> Result<
    MortgageSummary,
    CalculationError,
> {
    match interest_only_schedule(input) {
        Err(e) => Err(e),
        Ok(s) => Ok(
            summary_of(
                RepaymentType::InterestOnly,
                s,
                input.principal,
                input.annual_interest_rate,
                (input.term_years * 12) as u32,
            ),
        ),
    }
}

/// Interest only during the term, principal at the end.
pub struct InterestOnlyCalculator;

impl InterestOnlyCalculator {
    pub fn calculate_schedule(input: &MortgageInput) -> (r: Result<MortgageSchedule, CalculationError>)
        requires
            computable(*input),
        ensures
            schedule_result(r) == interest_only_schedule(*input),
    {
        let rate = input.annual_interest_rate.div(Decimal::from_u32(12))?;
        let n = input.term_years * 12;
        let payment = input.principal.mul(rate)?;
        let mut entries: Vec<PaymentScheduleEntry> = Vec::new();
        let mut total_interest = Decimal::zero();
        let mut number: u32 = 1;
        while number <= n
            invariant
                computable(*input),
                n == input.term_years * 12,
                payment.wf(),
                monthly_rate_of(*input) == Ok::<Decimal, CalculationError>(rate),
                product(input.principal, rate) == Ok::<Decimal, CalculationError>(payment),
                1 <= number <= n + 1,
                total_interest.wf(),
                interest_only_run(*input, payment, (number - 1) as nat) == Ok::<
                    (Seq<PaymentScheduleEntry>, Decimal),
                    CalculationError,
                >((entries@, total_interest)),
            decreases n + 1 - number,
        {
            let is_final = number == n;
            let principal_component = if is_final {
                input.principal
            } else {
                Decimal::zero()
            };
            let interest_after = match total_interest.add(payment) {
                Ok(x) => x,
                Err(e) => {
                    proof {
                        assert(interest_only_run(*input, payment, number as nat) is Err);
                        lemma_interest_only_error_persists(*input, payment, number as nat, n as nat);
                    }
                    return Err(e);
                },
            };
            let amount = if is_final {
                match payment.add(input.principal) {
                    Ok(x) => x,
                    Err(e) => {
                        proof {
                            assert(interest_only_run(*input, payment, number as nat) is Err);
                            lemma_interest_only_error_persists(
                                *input,
                                payment,
                                number as nat,
                                n as nat,
                            );
                        }
                        return Err(e);
                    },
                }
            } else {
                payment
            };
            assert(0 <= (number - 1) * 30 <= 1300 * 30) by (nonlinear_arith)
                requires
                    1 <= number <= 1300,
            ;
            entries.push(
                PaymentScheduleEntry {
                    payment_date: input.start_date.plus_days((number as i64 - 1) * MONTHLY_STEP_DAYS),
                    payment_number: number,
                    payment_amount: amount,
                    principal_component,
                    interest_component: payment,
                    remaining_principal: input.principal,
                    current_rate: Some(input.annual_interest_rate),
                },
            );
            total_interest = interest_after;
            number = number + 1;
        }
        let x = payment.mul(Decimal::from_u32(n))?;
        let total_payments = x.add(input.principal)?;
        Ok(MortgageSchedule { monthly_payment: payment, total_payments, total_interest, schedule: entries })
    }

    pub fn calculate_summary(input: &MortgageInput) -> (r: Result<MortgageSummary, CalculationError>)
        requires
            computable(*input),
        ensures
            r == interest_only_summary(*input),
    {
        let s = InterestOnlyCalculator::calculate_schedule(input)?;
        Ok(
            MortgageSummary::new(
                RepaymentType::InterestOnly,
                s.monthly_payment,
                s.total_payments,
                s.total_interest,
                input.principal,
                input.annual_interest_rate,
                input.term_years * 12,
            ),
        )
    }
}

} // verus!
