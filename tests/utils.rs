use mortgagekit::{CalculationError, Date, DateUtils, Decimal, DecimalUtils};

fn dec(num: i64, scale: u32) -> Decimal {
    Decimal::new(num, scale)
}

fn rd(d: Decimal) -> rust_decimal::Decimal {
    rust_decimal::Decimal::from_i128_with_scale(d.mantissa, d.scale)
}

#[test]
fn power_of_zero_is_one() {
    for x in [dec(0, 0), dec(105, 2), dec(-7, 1), dec(123456789, 3)] {
        assert_eq!(DecimalUtils::power(x, 0), Ok(dec(1, 0)));
    }
    assert_eq!(DecimalUtils::power(dec(105, 2), 1), Ok(dec(105, 2)));
}

#[test]
fn power_is_exact_for_small_exponents() {
    assert_eq!(rd(DecimalUtils::power(dec(105, 2), 3).unwrap()), rust_decimal::Decimal::new(1157625, 6));
    assert_eq!(rd(DecimalUtils::power(dec(2, 0), 10).unwrap()), rust_decimal::Decimal::from(1024u32));
}

#[test]
fn power_matches_repeated_multiplication_up_to_600() {
    let base = rust_decimal::Decimal::ONE + rust_decimal::Decimal::new(5, 2) / rust_decimal::Decimal::from(12u32);
    let b = Decimal { mantissa: base.mantissa(), scale: base.scale() };
    let mut expected = base;
    for n in 1..=600i64 {
        if n > 1 {
            expected *= base;
        }
        if n % 60 == 0 || n == 1 {
            assert_eq!(rd(DecimalUtils::power(b, n).unwrap()), expected);
        }
    }
}

#[test]
fn power_overflow_is_reported() {
    assert_eq!(DecimalUtils::power(dec(1_000_000_000, 0), 10), Err(CalculationError::Overflow));
}

#[test]
fn round_currency_rounds_half_to_even() {
    assert_eq!(rd(DecimalUtils::round_currency(dec(2345, 3))), rust_decimal::Decimal::new(234, 2));
    assert_eq!(rd(DecimalUtils::round_currency(dec(2355, 3))), rust_decimal::Decimal::new(236, 2));
    assert_eq!(rd(DecimalUtils::round_currency(dec(161046238, 5))), rust_decimal::Decimal::new(161046, 2));
}

#[test]
fn rate_conversions_divide() {
    assert_eq!(rd(DecimalUtils::percentage_to_rate(dec(55, 1)).unwrap()), rust_decimal::Decimal::new(55, 3));
    assert_eq!(rd(DecimalUtils::annual_to_monthly_rate(dec(12, 2)).unwrap()), rust_decimal::Decimal::new(1, 2));
}

#[test]
fn range_check_is_inclusive() {
    assert!(DecimalUtils::is_within_range(dec(0, 0), dec(0, 0), dec(100, 0)));
    assert!(DecimalUtils::is_within_range(dec(1000, 1), dec(0, 0), dec(100, 0)));
    assert!(!DecimalUtils::is_within_range(dec(10001, 2), dec(0, 0), dec(100, 0)));
    assert!(!DecimalUtils::is_within_range(dec(-1, 28), dec(0, 0), dec(100, 0)));
}

#[test]
fn payment_factor_matches_the_formula() {
    let f = rd(DecimalUtils::monthly_payment_factor(dec(1, 2), 12).unwrap());
    assert_eq!(f.round_dp(8), rust_decimal::Decimal::new(8884879, 8));
    assert_eq!(DecimalUtils::monthly_payment_factor(dec(0, 0), 12), Err(CalculationError::DivisionByZero));
}

#[test]
fn dates_convert_both_ways() {
    let d = Date::from_ymd(2024, 1, 1).unwrap();
    assert_eq!(d.ymd(), Some((2024, 1, 1)));
    assert_eq!(Date::from_ymd(1, 1, 1).unwrap().days, 1);
    assert_eq!(Date::from_ymd(2023, 2, 29), None);
    assert_eq!(d.plus_days(60).ymd(), Some((2024, 3, 1)));
}

#[test]
fn payment_dates_step_by_interval() {
    let start = Date::from_ymd(2024, 1, 1).unwrap();
    let monthly = DateUtils::generate_payment_dates(start, 3, false);
    assert_eq!(monthly.iter().map(|d| d.ymd().unwrap()).collect::<Vec<_>>(), vec![(2024, 1, 1), (2024, 1, 31), (2024, 3, 1)]);
    let biweekly = DateUtils::generate_payment_dates(start, 2, true);
    assert_eq!(biweekly[1].ymd(), Some((2024, 1, 15)));
    assert_eq!(DateUtils::days_between_payments(monthly[0], monthly[2]), 60);
    assert!(DateUtils::generate_payment_dates(start, 0, false).is_empty());
}

#[test]
fn next_payment_date_moves_30_or_14_days() {
    let start = Date::from_ymd(2024, 1, 15).unwrap();
    assert_eq!(DateUtils::next_payment_date(start, true).ymd(), Some((2024, 1, 29)));
    assert_eq!(DateUtils::next_payment_date(start, false).ymd(), Some((2024, 2, 14)));
    let end = Date::from_ymd(2024, 1, 31).unwrap();
    assert_eq!(DateUtils::next_payment_date(end, false).ymd(), Some((2024, 3, 1)));
}

#[test]
fn payment_dates_before_today_are_not_valid() {
    assert!(!DateUtils::is_valid_payment_date(Date::from_ymd(2000, 1, 1).unwrap()));
    assert!(DateUtils::is_valid_payment_date(Date::from_ymd(9999, 1, 1).unwrap()));
    assert!(DateUtils::is_on_or_after(Date { days: 5 }, Date { days: 5 }));
    assert!(!DateUtils::is_on_or_after(Date { days: 4 }, Date { days: 5 }));
}
