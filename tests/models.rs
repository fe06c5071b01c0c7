use mortgagekit::{
    get_repayment_types, new_mortgage_input, ApiError, CalculationError, Date, Decimal,
    MortgageSchedule, MortgageSummary, PaymentScheduleEntry, RepaymentType, RepaymentTypeInfo,
    ValidationFailure,
};

fn dec(num: i64, scale: u32) -> Decimal {
    Decimal::new(num, scale)
}

#[test]
fn test_display() {
    assert_eq!(
        RepaymentType::StandardPrincipalAndInterest.display_name(),
        "Standard Principal and Interest"
    );
}

#[test]
fn test_all_types() {
    assert_eq!(RepaymentType::all().len(), 5);
}

#[test]
fn test_balloon_requirement() {
    assert!(RepaymentType::BalloonPayment.requires_balloon_percentage());
    assert!(!RepaymentType::StandardPrincipalAndInterest.requires_balloon_percentage());
}

#[test]
fn test_schedule_creation() {
    let schedule = MortgageSchedule::new(dec(1000, 0), dec(360000, 0), dec(60000, 0));

    assert_eq!(schedule.monthly_payment, dec(1000, 0));
    assert_eq!(schedule.total_payments, dec(360000, 0));
    assert_eq!(schedule.total_interest, dec(60000, 0));
    assert_eq!(schedule.payment_count(), 0);
}

#[test]
fn test_adding_payments() {
    let mut schedule = MortgageSchedule::new(dec(1000, 0), dec(360000, 0), dec(60000, 0));

    let payment = PaymentScheduleEntry {
        payment_date: Date::from_ymd(2024, 1, 1).unwrap(),
        payment_number: 1,
        payment_amount: dec(1000, 0),
        principal_component: dec(800, 0),
        interest_component: dec(200, 0),
        remaining_principal: dec(299200, 0),
        current_rate: None,
    };

    schedule.add_payment(payment);
    assert_eq!(schedule.payment_count(), 1);
}

#[test]
fn test_summary_creation() {
    let summary = MortgageSummary::new(
        RepaymentType::StandardPrincipalAndInterest,
        dec(1000, 0),
        dec(360000, 0),
        dec(60000, 0),
        dec(300000, 0),
        dec(5, 2),
        360,
    );

    assert_eq!(summary.monthly_payment, dec(1000, 0));
    assert_eq!(summary.total_payments, dec(360000, 0));
    assert_eq!(summary.total_interest, dec(60000, 0));
    assert_eq!(summary.number_of_payments, 360);
}

#[test]
fn test_summary_with_balloon() {
    let summary = MortgageSummary::new(
        RepaymentType::BalloonPayment,
        dec(1000, 0),
        dec(360000, 0),
        dec(60000, 0),
        dec(300000, 0),
        dec(5, 2),
        360,
    )
    .with_balloon_payment(dec(50000, 0));

    assert_eq!(summary.balloon_payment, Some(dec(50000, 0)));
}

#[test]
fn summary_with_rate_range_keeps_the_bounds() {
    let summary = MortgageSummary::new(
        RepaymentType::FloatingRate,
        dec(1000, 0),
        dec(360000, 0),
        dec(60000, 0),
        dec(300000, 0),
        dec(55, 1),
        360,
    )
    .with_rate_range(dec(1, 0), dec(10, 0));

    assert_eq!(summary.rate_range, Some((dec(1, 0), dec(10, 0))));
    assert_eq!(summary.balloon_payment, None);
}

#[test]
fn test_new_mortgage_input() {
    let input = new_mortgage_input(dec(300000, 0), dec(5, 2), 30);

    assert_eq!(input.principal, dec(300000, 0));
    assert_eq!(input.annual_interest_rate, dec(5, 2));
    assert_eq!(input.term_years, 30);
    assert_eq!(input.repayment_type, RepaymentType::StandardPrincipalAndInterest);
    assert_eq!(input.balloon_payment_percentage, dec(0, 0));
}

#[test]
fn test_validation_error_response() {
    let api_error = ApiError::ValidationError(vec![ValidationFailure::InvalidPrincipal]);
    assert_eq!(api_error.status_code(), 400);
    assert_eq!(api_error.kind(), "validation_error");
}

#[test]
fn test_internal_error_response() {
    let api_error = ApiError::InternalError("test error".to_string());
    assert_eq!(api_error.status_code(), 500);
    assert_eq!(api_error.kind(), "internal_error");
}

#[test]
fn test_calculation_error_response() {
    let api_error = ApiError::CalculationError("division by zero".to_string());
    assert_eq!(api_error.status_code(), 422);
    assert_eq!(api_error.kind(), "calculation_error");
}

#[test]
fn calculation_errors_carry_their_message() {
    match ApiError::from_calculation(CalculationError::DivisionByZero) {
        ApiError::CalculationError(m) => assert_eq!(m, "division by zero"),
        other => panic!("unexpected {:?}", other),
    }
}

#[test]
fn test_repayment_types_endpoint() {
    let types = get_repayment_types();
    assert_eq!(types.len(), 5);
    let needing: Vec<&RepaymentTypeInfo> =
        types.iter().filter(|t| t.requires_balloon_percentage).collect();
    assert_eq!(needing.len(), 1);
    assert_eq!(needing[0].name, "Balloon Payment");
    assert_eq!(needing[0].repayment_type, RepaymentType::BalloonPayment);
    assert_eq!(
        types[4].description,
        "Variable interest rate that changes monthly between 1-10% APR."
    );
}

#[test]
fn every_type_has_its_name() {
    assert_eq!(RepaymentType::InterestOnly.display_name(), "Interest Only");
    assert_eq!(RepaymentType::AcceleratedBiweekly.display_name(), "Accelerated Biweekly");
    assert_eq!(RepaymentType::BalloonPayment.display_name(), "Balloon Payment");
    assert_eq!(RepaymentType::FloatingRate.display_name(), "Floating Rate");
}
