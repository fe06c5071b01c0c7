use mortgagekit::dispatch::{calculate_schedule_with_rates, calculate_summary_with_rates};
use mortgagekit::{
    calculate_mortgage, calculate_mortgage_summary, AcceleratedCalculator, ApiError,
    BalloonCalculator, CalculationError, Date, Decimal, FloatingRateCalculator,
    InterestOnlyCalculator, MortgageInput, RepaymentType, StandardCalculator, ValidationFailure,
};

fn dec(num: i64, scale: u32) -> Decimal {
    Decimal::new(num, scale)
}

fn rd(d: Decimal) -> rust_decimal::Decimal {
    rust_decimal::Decimal::from_i128_with_scale(d.mantissa, d.scale)
}

fn input(repayment_type: RepaymentType, balloon_percentage: i64) -> MortgageInput {
    MortgageInput {
        principal: dec(300000, 0),
        annual_interest_rate: dec(5, 2),
        term_years: 30,
        repayment_type,
        start_date: Date::from_ymd(2024, 1, 1).unwrap(),
        balloon_payment_percentage: dec(balloon_percentage, 0),
    }
}

fn cent() -> rust_decimal::Decimal {
    rust_decimal::Decimal::new(1, 2)
}

#[test]
fn test_standard_calculator() {
    let input = input(RepaymentType::StandardPrincipalAndInterest, 0);

    let schedule = StandardCalculator::calculate_schedule(&input).unwrap();
    assert_eq!(schedule.schedule.len(), 360);

    let final_payment = schedule.schedule.last().unwrap();
    assert!(rd(final_payment.remaining_principal).abs() < cent());
}

#[test]
fn standard_monthly_payment_rounds_to_1610_46() {
    let schedule =
        StandardCalculator::calculate_schedule(&input(RepaymentType::StandardPrincipalAndInterest, 0))
            .unwrap();
    assert_eq!(rd(schedule.monthly_payment).round_dp(2), rust_decimal::Decimal::new(161046, 2));
    assert_eq!(
        rd(schedule.total_payments),
        rd(schedule.monthly_payment) * rust_decimal::Decimal::from(360u32)
    );
}

#[test]
fn standard_entries_are_numbered_and_spaced_30_days() {
    let input = input(RepaymentType::StandardPrincipalAndInterest, 0);
    let schedule = StandardCalculator::calculate_schedule(&input).unwrap();
    for (i, e) in schedule.schedule.iter().enumerate() {
        assert_eq!(e.payment_number as usize, i + 1);
        assert_eq!(e.payment_date.days, input.start_date.days + 30 * i as i64);
        let parts = rd(e.principal_component) + rd(e.interest_component);
        assert!((rd(e.payment_amount) - parts).abs() < rust_decimal::Decimal::new(1, 20));
        assert_eq!(e.current_rate, Some(dec(5, 2)));
    }
    assert_eq!(schedule.schedule[1].payment_date.ymd(), Some((2024, 1, 31)));
}

#[test]
fn standard_principal_components_sum_to_principal() {
    let schedule =
        StandardCalculator::calculate_schedule(&input(RepaymentType::StandardPrincipalAndInterest, 0))
            .unwrap();
    let paid: rust_decimal::Decimal = schedule.schedule.iter().map(|e| rd(e.principal_component)).sum();
    assert!((paid - rust_decimal::Decimal::from(300000u32)).abs() < cent());
    let interest: rust_decimal::Decimal =
        schedule.schedule.iter().map(|e| rd(e.interest_component)).sum();
    assert_eq!(interest, rd(schedule.total_interest));
}

#[test]
fn accelerated_has_780_biweekly_payments() {
    let input = input(RepaymentType::AcceleratedBiweekly, 0);
    let schedule = AcceleratedCalculator::calculate_schedule(&input).unwrap();
    assert_eq!(schedule.schedule.len(), 780);
    assert_eq!(schedule.schedule[1].payment_date.days, input.start_date.days + 14);
    let standard =
        StandardCalculator::calculate_schedule(&self::input(RepaymentType::StandardPrincipalAndInterest, 0))
            .unwrap();
    let half = rd(schedule.schedule[0].payment_amount);
    assert!((half * rust_decimal::Decimal::from(2u32) - rd(standard.monthly_payment)).abs() < cent());
    assert_eq!(rd(schedule.monthly_payment), half * rust_decimal::Decimal::from(2u32));
}

#[test]
fn balloon_final_payment_adds_the_balloon() {
    let input = input(RepaymentType::BalloonPayment, 20);
    let schedule = BalloonCalculator::calculate_schedule(&input).unwrap();
    assert_eq!(schedule.schedule.len(), 360);
    let last = schedule.schedule.last().unwrap();
    assert_eq!(
        rd(last.payment_amount),
        rd(schedule.monthly_payment) + rust_decimal::Decimal::from(60000u32)
    );
    let summary = BalloonCalculator::calculate_summary(&input).unwrap();
    assert_eq!(rd(summary.balloon_payment.unwrap()), rust_decimal::Decimal::from(60000u32));
}

#[test]
fn balloon_without_percentage_amortizes_fully() {
    let schedule = BalloonCalculator::calculate_schedule(&input(RepaymentType::BalloonPayment, 0)).unwrap();
    assert!(rd(schedule.schedule.last().unwrap().remaining_principal).abs() < cent());
    let paid: rust_decimal::Decimal = schedule.schedule.iter().map(|e| rd(e.principal_component)).sum();
    assert!((paid - rust_decimal::Decimal::from(300000u32)).abs() < cent());
}

#[test]
fn interest_only_repays_principal_at_the_end() {
    let input = input(RepaymentType::InterestOnly, 0);
    let schedule = InterestOnlyCalculator::calculate_schedule(&input).unwrap();
    assert_eq!(schedule.schedule.len(), 360);
    let payment = rd(schedule.monthly_payment);
    assert_eq!(payment.round_dp(2), rust_decimal::Decimal::from(1250u32));
    for e in schedule.schedule.iter() {
        assert_eq!(e.remaining_principal, dec(300000, 0));
        assert_eq!(e.interest_component, schedule.monthly_payment);
    }
    let last = schedule.schedule.last().unwrap();
    assert_eq!(rd(last.payment_amount), payment + rust_decimal::Decimal::from(300000u32));
    assert_eq!(last.principal_component, dec(300000, 0));
    assert_eq!(rd(schedule.schedule[0].principal_component), rust_decimal::Decimal::ZERO);
    assert_eq!(rd(schedule.schedule[0].payment_amount), payment);
    let total = payment * rust_decimal::Decimal::from(360u32) + rust_decimal::Decimal::from(300000u32);
    assert_eq!(rd(schedule.total_payments), total);
    assert_eq!(rd(schedule.total_interest).round_dp(2), rust_decimal::Decimal::from(1250u32 * 360));
}

#[test]
fn floating_rate_at_fixed_rates() {
    let input = input(RepaymentType::FloatingRate, 0);
    let rates = vec![6u32; 360];
    let schedule = FloatingRateCalculator::calculate_schedule_with_rates(&input, &rates).unwrap();
    assert_eq!(schedule.schedule.len(), 360);
    let first = &schedule.schedule[0];
    assert_eq!(rd(first.interest_component), rust_decimal::Decimal::from(1500u32));
    assert_eq!(rd(first.payment_amount), rust_decimal::Decimal::from(301500u32));
    assert_eq!(rd(first.remaining_principal), rust_decimal::Decimal::ZERO);
    assert_eq!(first.current_rate, Some(dec(6, 0)));
    let summary = FloatingRateCalculator::calculate_summary_with_rates(&input, &rates).unwrap();
    assert_eq!(summary.apr, dec(55, 1));
    assert_eq!(summary.number_of_payments, 360);
    assert_eq!(summary.total_interest, schedule.total_interest);
}

#[test]
fn floating_rate_draws_rates_within_bounds() {
    let input = input(RepaymentType::FloatingRate, 0);
    let schedule = FloatingRateCalculator::calculate_schedule(&input).unwrap();
    assert_eq!(schedule.schedule.len(), 360);
    for e in schedule.schedule.iter() {
        let r = rd(e.current_rate.unwrap());
        assert!(r >= rust_decimal::Decimal::ONE && r <= rust_decimal::Decimal::TEN);
        assert_eq!(r.fract(), rust_decimal::Decimal::ZERO);
    }
}

#[test]
fn summary_agrees_with_schedule_for_every_type() {
    let rates = vec![3u32; 360];
    for t in RepaymentType::all() {
        let i = input(t, if t == RepaymentType::BalloonPayment { 20 } else { 0 });
        let schedule = calculate_schedule_with_rates(&i, &rates).unwrap();
        let summary = calculate_summary_with_rates(&i, &rates).unwrap();
        assert_eq!(summary.total_interest, schedule.total_interest);
        assert_eq!(summary.total_payments, schedule.total_payments);
        assert_eq!(summary.repayment_type, t);
        assert_eq!(summary.total_principal_paid, dec(300000, 0));
    }
}

#[test]
fn test_all_repayment_types() {
    for t in RepaymentType::all() {
        let i = input(t, if t == RepaymentType::BalloonPayment { 20 } else { 0 });
        assert!(calculate_mortgage(&i).is_ok());
        assert!(calculate_mortgage_summary(&i).is_ok());
    }
}

#[test]
fn test_invalid_inputs() {
    let mut negative = input(RepaymentType::StandardPrincipalAndInterest, 0);
    negative.principal = dec(-100000, 0);
    match calculate_mortgage(&negative) {
        Err(ApiError::ValidationError(v)) => assert_eq!(v, vec![ValidationFailure::InvalidPrincipal]),
        other => panic!("unexpected {:?}", other.map(|s| s.schedule.len())),
    }

    let mut high_rate = input(RepaymentType::StandardPrincipalAndInterest, 0);
    high_rate.principal = dec(100000, 0);
    high_rate.annual_interest_rate = dec(101, 0);
    let e = calculate_mortgage(&high_rate).unwrap_err();
    assert_eq!(e.status_code(), 400);
    assert!(matches!(calculate_mortgage_summary(&high_rate), Err(ApiError::ValidationError(_))));
}

#[test]
fn validation_lists_every_broken_rule_in_order() {
    let mut i = input(RepaymentType::BalloonPayment, 101);
    i.principal = dec(1_000_000_001, 0);
    i.term_years = 0;
    assert_eq!(
        i.validate(),
        Err(vec![
            ValidationFailure::InvalidPrincipal,
            ValidationFailure::InvalidTermYears,
            ValidationFailure::InvalidPercentage,
        ])
    );
    i.principal = dec(1_000_000_000, 0);
    i.term_years = 50;
    i.balloon_payment_percentage = dec(100, 0);
    assert_eq!(i.validate(), Ok(()));
    i.annual_interest_rate = dec(-1, 2);
    assert_eq!(i.validate(), Err(vec![ValidationFailure::InvalidRate]));
}

#[test]
fn zero_rate_is_a_calculation_error() {
    let mut i = input(RepaymentType::StandardPrincipalAndInterest, 0);
    i.annual_interest_rate = dec(0, 0);
    assert_eq!(
        StandardCalculator::calculate_schedule(&i).unwrap_err(),
        CalculationError::DivisionByZero
    );
    let e = calculate_mortgage(&i).unwrap_err();
    assert_eq!(e.status_code(), 422);
    match e {
        ApiError::CalculationError(m) => assert_eq!(m, "division by zero"),
        _ => panic!("expected a calculation error"),
    }
}

#[test]
fn short_term_schedules_have_one_entry_per_period() {
    let mut i = input(RepaymentType::AcceleratedBiweekly, 0);
    i.term_years = 1;
    assert_eq!(AcceleratedCalculator::calculate_schedule(&i).unwrap().schedule.len(), 26);
    i.repayment_type = RepaymentType::BalloonPayment;
    i.balloon_payment_percentage = dec(50, 0);
    let s = BalloonCalculator::calculate_schedule(&i).unwrap();
    assert_eq!(s.schedule.len(), 12);
    let expected =
        rd(s.monthly_payment) * rust_decimal::Decimal::from(12u32) + rust_decimal::Decimal::from(150000u32);
    assert!((rd(s.total_payments) - expected).abs() < cent());
}

#[test]
fn test_full_mortgage_calculation() {
    let schedule = calculate_mortgage(&input(RepaymentType::StandardPrincipalAndInterest, 0)).unwrap();
    assert_eq!(schedule.schedule.len(), 360);
    let summary = calculate_mortgage_summary(&input(RepaymentType::StandardPrincipalAndInterest, 0)).unwrap();
    assert_eq!(summary.number_of_payments, 360);
    assert_eq!(summary.total_interest, schedule.total_interest);
}
