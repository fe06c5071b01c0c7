use vstd::prelude::*;

use crate::date::Date;
use crate::decimal::Decimal;
use crate::models::RepaymentType;

verus! {

/// The loan to compute a schedule for.
#[derive(Clone, Copy, Debug, PartialEq, Eq, Structural)]
pub struct MortgageInput {
    pub principal: Decimal,
    pub annual_interest_rate: Decimal,
    pub term_years: u32,
    pub repayment_type: RepaymentType,
    pub start_date: Date,
    pub balloon_payment_percentage: Decimal,
}

/// One rule of the input that a value breaks.
#[derive(Clone, Copy, Debug, PartialEq, Eq, Structural)]
pub enum ValidationFailure {
    /// The principal is not in (0, 1,000,000,000].
    InvalidPrincipal,
    /// The annual interest rate is not in [0, 100].
    InvalidRate,
    /// The term is not in [1, 50] years.
    InvalidTermYears,
    /// The balloon percentage is not in [0, 100].
    InvalidPercentage,
}

pub const MAX_PRINCIPAL: i64 = 1_000_000_000;

pub const MIN_TERM_YEARS: u32 = 1;

pub const MAX_TERM_YEARS: u32 = 50;

pub open spec fn principal_in_range(p: Decimal) -> bool {
    Decimal::from_int(0).lt(p) && p.le(Decimal::from_int(MAX_PRINCIPAL as int))
}

pub open spec fn percentage_in_range(p: Decimal) -> bool {
    Decimal::from_int(0).le(p) && p.le(Decimal::from_int(100))
}

pub open spec fn failure_if(broken: bool, f: ValidationFailure) -> Seq<ValidationFailure> {
    if broken {
        seq![f]
    } else {
        Seq::empty()
    }
}

impl MortgageInput {
    /// Every decimal holds a representable value and the start date is one the calendar knows.
    pub open spec fn wf(self) -> bool {
        &&& self.principal.wf()
        &&& self.annual_interest_rate.wf()
        &&& self.balloon_payment_percentage.wf()
        &&& self.start_date.wf()
    }

    /// The rules that this input breaks, in field order.
    pub open spec fn failures(self) -> Seq<ValidationFailure> {
        failure_if(!principal_in_range(self.principal), ValidationFailure::InvalidPrincipal)
            + failure_if(
            !percentage_in_range(self.annual_interest_rate),
            ValidationFailure::InvalidRate,
        ) + failure_if(
            !(MIN_TERM_YEARS <= self.term_years <= MAX_TERM_YEARS),
            ValidationFailure::InvalidTermYears,
        ) + failure_if(
            !percentage_in_range(self.balloon_payment_percentage),
            ValidationFailure::InvalidPercentage,
        )
    }

    /// Checks every rule; on failure lists the broken ones in field order.
    pub fn validate(&self) -> (r: Result<(), Vec<ValidationFailure>>)
        requires
            self.wf(),
        ensures
            r is Ok <==> self.failures().len() == 0,
            r matches Err(v) ==> v@ == self.failures(),
    {
        let mut v: Vec<ValidationFailure> = Vec::new();
        if validate_principal(&self.principal).is_err() {
            v.push(ValidationFailure::InvalidPrincipal);
        }
        assert(v@ =~= failure_if(
            !principal_in_range(self.principal),
            ValidationFailure::InvalidPrincipal,
        ));
        if validate_rate(&self.annual_interest_rate).is_err() {
            v.push(ValidationFailure::InvalidRate);
        }
        if self.term_years < MIN_TERM_YEARS || self.term_years > MAX_TERM_YEARS {
            v.push(ValidationFailure::InvalidTermYears);
        }
        if validate_percentage(&self.balloon_payment_percentage).is_err() {
            v.push(ValidationFailure::InvalidPercentage);
        }
        assert(v@ =~= self.failures());
        if v.len() == 0 {
            Ok(())
        } else {
            Err(v)
        }
    }
}

/// The principal must be positive and at most one billion.
pub fn validate_principal(principal: &Decimal) -> (r: Result<(), ValidationFailure>)
    requires
        principal.wf(),
    ensures
        r is Ok <==> principal_in_range(*principal),
        r matches Err(e) ==> e == ValidationFailure::InvalidPrincipal,
{
    if Decimal::zero().less_than(*principal) && principal.at_most(
        Decimal::new(MAX_PRINCIPAL, 0),
    ) {
        Ok(())
    } else {
        Err(ValidationFailure::InvalidPrincipal)
    }
}

/// The annual rate must lie in [0, 100].
pub fn validate_rate(rate: &Decimal) -> (r: Result<(), ValidationFailure>)
    requires
        rate.wf(),
    ensures
        r is Ok <==> percentage_in_range(*rate),
        r matches Err(e) ==> e == ValidationFailure::InvalidRate,
{
    if Decimal::zero().at_most(*rate) && rate.at_most(Decimal::new(100, 0)) {
        Ok(())
    } else {
        Err(ValidationFailure::InvalidRate)
    }
}

/// A percentage must lie in [0, 100].
pub fn validate_percentage(percentage: &Decimal) -> (r: Result<(), ValidationFailure>)
    requires
        percentage.wf(),
    ensures
        r is Ok <==> percentage_in_range(*percentage),
        r matches Err(e) ==> e == ValidationFailure::InvalidPercentage,
{
    if Decimal::zero().at_most(*percentage) && percentage.at_most(Decimal::new(100, 0)) {
        Ok(())
    } else {
        Err(ValidationFailure::InvalidPercentage)
    }
}

} // verus!
