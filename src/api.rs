use vstd::prelude::*;

use crate::calculators::schedule_result;
use crate::decimal::CalculationError;
use crate::dispatch::{calculate_schedule, calculate_summary, schedule_spec, summary_spec};
use crate::floating::drawn_rates_fit;
use crate::input::{MortgageInput, ValidationFailure};
use crate::models::{MortgageSchedule, MortgageSummary, RepaymentType, RepaymentTypeInfo};

verus! {

/// Errors of the API, each with its HTTP status.
#[derive(Clone, Debug)]
pub enum ApiError {
    /// The input breaks these rules (400)
    ValidationError(Vec<ValidationFailure>),
    /// An unexpected failure (500)
    InternalError(String),
    /// The calculation could not be carried out (422)
    CalculationError(String),
}

impl ApiError {
    pub open spec fn status_spec(&self) -> u16 {
        match self {
            ApiError::ValidationError(_) => 400,
            ApiError::InternalError(_) => 500,
            ApiError::CalculationError(_) => 422,
        }
    }

    /// The HTTP status code of this error.
    pub fn status_code(&self) -> (r: u16)
        ensures
            r == self.status_spec(),
    {
        match self {
            ApiError::ValidationError(_) => 400,
            ApiError::InternalError(_) => 500,
            ApiError::CalculationError(_) => 422,
        }
    }

    pub open spec fn kind_spec(&self) -> Seq<char> {
        match self {
            ApiError::ValidationError(_) => "validation_error"@,
            ApiError::InternalError(_) => "internal_error"@,
            ApiError::CalculationError(_) => "calculation_error"@,
        }
    }

    /// The `error` field of the response body.
    pub fn kind(&self) -> (r: String)
        ensures
            r@ == self.kind_spec(),
    {
        match self {
            ApiError::ValidationError(_) => "validation_error".to_owned(),
            ApiError::InternalError(_) => "internal_error".to_owned(),
            ApiError::CalculationError(_) => "calculation_error".to_owned(),
        }
    }

    /// The error that a failed calculation is reported as.
    pub fn from_calculation(e: CalculationError) -> (r: ApiError)
        ensures
            r matches ApiError::CalculationError(m) && m@ == e.message_spec(),
    {
        ApiError::CalculationError(e.message())
    }
}

/// What the API answers for a result of the calculation and the input's validity.
pub open spec fn answers<T, V>(
    input: MortgageInput,
    r: Result<T, ApiError>,
    view: Result<V, CalculationError>,
    result_view: spec_fn(T) -> V,
) -> bool {
    if input.failures().len() > 0 {
        r matches Err(ApiError::ValidationError(v)) && v@ == input.failures()
    } else {
        match (r, view) {
            (Ok(s), Ok(m)) => result_view(s) == m,
            (Err(ApiError::CalculationError(msg)), Err(e)) => msg@ == e.message_spec(),
            _ => false,
        }
    }
}

/// Validates the input and computes its schedule; a rejected input is never computed.
pub fn calculate_mortgage(input: &MortgageInput) -> (r: Result<MortgageSchedule, ApiError>)
    requires
        input.wf(),
    ensures
        input.failures().len() > 0 <==> r matches Err(ApiError::ValidationError(_)),
        exists|rates: Seq<u32>|
            drawn_rates_fit(*input, rates) && answers(
                *input,
                r,
                schedule_spec(*input, rates),
                |s: MortgageSchedule| s@,
            ),
{
    if let Err(v) = input.validate() {
        let r = Err(ApiError::ValidationError(v));
        let ghost rates = Seq::new((input.term_years * 12) as nat, |i: int| 1u32);
        assert(drawn_rates_fit(*input, rates));
        assert(answers(*input, r, schedule_spec(*input, rates), |s: MortgageSchedule| s@));
        return r;
    }
    let computed = calculate_schedule(input);
    let ghost rates = choose|rates: Seq<u32>|
        drawn_rates_fit(*input, rates) && schedule_result(computed) == schedule_spec(*input, rates);
    match computed {
        Ok(s) => {
            let r = Ok(s);
            assert(answers(*input, r, schedule_spec(*input, rates), |s: MortgageSchedule| s@));
            r
        },
        Err(e) => {
            let r = Err(ApiError::from_calculation(e));
            assert(answers(*input, r, schedule_spec(*input, rates), |s: MortgageSchedule| s@));
            r
        },
    }
}

/// Validates the input and computes its summary; a rejected input is never computed.
pub fn calculate_mortgage_summary(input: &MortgageInput) -> (r: Result<MortgageSummary, ApiError>)
    requires
        input.wf(),
    ensures
        input.failures().len() > 0 <==> r matches Err(ApiError::ValidationError(_)),
        exists|rates: Seq<u32>|
            drawn_rates_fit(*input, rates) && answers(
                *input,
                r,
                summary_spec(*input, rates),
                |s: MortgageSummary| s,
            ),
{
    if let Err(v) = input.validate() {
        let r = Err(ApiError::ValidationError(v));
        let ghost rates = Seq::new((input.term_years * 12) as nat, |i: int| 1u32);
        assert(drawn_rates_fit(*input, rates));
        assert(answers(*input, r, summary_spec(*input, rates), |s: MortgageSummary| s));
        return r;
    }
    let computed = calculate_summary(input);
    let ghost rates = choose|rates: Seq<u32>|
        drawn_rates_fit(*input, rates) && computed == summary_spec(*input, rates);
    match computed {
        Ok(s) => {
            let r = Ok(s);
            assert(answers(*input, r, summary_spec(*input, rates), |s: MortgageSummary| s));
            r
        },
        Err(e) => {
            let r = Err(ApiError::from_calculation(e));
            assert(answers(*input, r, summary_spec(*input, rates), |s: MortgageSummary| s));
            r
        },
    }
}

/// The catalog of repayment types.
pub fn get_repayment_types() -> (r: Vec<RepaymentTypeInfo>)
    ensures
        r@.len() == 5,
        forall|i: int|
            0 <= i < 5 ==> {
                let t = #[trigger] RepaymentType::all_spec()[i];
                &&& r@[i].repayment_type == t
                &&& r@[i].name@ == t.name_spec()
                &&& r@[i].description@ == RepaymentTypeInfo::description_spec(t)
            },
        forall|i: int|
            0 <= i < 5 ==> (r@[i].requires_balloon_percentage <==> r@[i].name@
                == "Balloon Payment"@),
{
    let r = RepaymentTypeInfo::all();
    proof {
        reveal_strlit("Balloon Payment");
        reveal_strlit("Standard Principal and Interest");
        reveal_strlit("Interest Only");
        reveal_strlit("Accelerated Biweekly");
        reveal_strlit("Floating Rate");
        assert forall|i: int|
            0 <= i < 5 implies (r@[i].requires_balloon_percentage <==> r@[i].name@
                == "Balloon Payment"@) by {
            let t = RepaymentType::all_spec()[i];
            assert(r@[i].repayment_type == t);
            if i != 3 {
                assert(r@[i].name@.len() != "Balloon Payment"@.len());
            }
        }
    }
    r
}

} // verus!
