//! Amortization schedules and summaries for five mortgage repayment structures,
//! computed in exact base-10 arithmetic.
use vstd::prelude::*;

pub mod api;
pub mod calculators;
pub mod date;
pub mod decimal;
pub mod dispatch;
pub mod floating;
pub mod input;
pub mod interest_only;
pub mod models;
pub mod utils;

pub use api::{calculate_mortgage, calculate_mortgage_summary, get_repayment_types, ApiError};
pub use calculators::{AcceleratedCalculator, BalloonCalculator, StandardCalculator};
pub use date::Date;
pub use decimal::{CalculationError, Decimal};
pub use floating::FloatingRateCalculator;
pub use input::{MortgageInput, ValidationFailure};
pub use interest_only::InterestOnlyCalculator;
pub use models::{
    MortgageSchedule, MortgageSummary, PaymentScheduleEntry, RepaymentType, RepaymentTypeInfo,
};
pub use utils::{DateUtils, DecimalUtils};

verus! {

/// A standard principal-and-interest loan starting today, with no balloon.
pub fn new_mortgage_input(principal: Decimal, annual_interest_rate: Decimal, term_years: u32) -> (r:
    MortgageInput)
    ensures
        r.principal == principal,
        r.annual_interest_rate == annual_interest_rate,
        r.term_years == term_years,
        r.repayment_type == RepaymentType::StandardPrincipalAndInterest,
        r.balloon_payment_percentage == Decimal::from_int(0),
        r.start_date.wf(),
{
    MortgageInput {
        principal,
        annual_interest_rate,
        term_years,
        repayment_type: RepaymentType::StandardPrincipalAndInterest,
        start_date: Date::today(),
        balloon_payment_percentage: Decimal::zero(),
    }
}

} // verus!
