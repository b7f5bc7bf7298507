use price_math::decimal::ExactDecimal;
use price_math::financial_math::percentage_problems::{PriceInfo, PricingError, ProfitCalculator};

fn dec(mantissa: i128, scale: u32) -> ExactDecimal {
    ExactDecimal::new(mantissa, scale)
}

#[test]
fn test_price_calculation() {
    let price_to_find = PriceInfo::new(dec(2800, 1), dec(7, 1)).unwrap();
    assert_eq!(price_to_find.calculate_price(), Ok(dec(4000, 1)));
}

#[test]
fn test_selling_price_calculation() {
    let selling_with_return = ProfitCalculator::new(dec(2800, 1), dec(70, 2), dec(15, 2)).unwrap();
    assert_eq!(selling_with_return.compute_selling_price(), Ok(dec(46000, 2)));
}

#[test]
fn price_with_two_decimal_places() {
    let info = PriceInfo::new(dec(28000, 2), dec(70, 2)).unwrap();
    let price = info.calculate_price().unwrap();
    assert_eq!(price, dec(400, 0));
    assert_eq!(price.mantissa(), 400);
    assert_eq!(price.scale(), 0);
}

#[test]
fn zero_percentage_is_refused() {
    assert_eq!(PriceInfo::new(dec(2800, 1), dec(0, 0)).unwrap_err(), PricingError::ZeroPercentage);
    assert_eq!(PriceInfo::new(dec(2800, 1), dec(0, 3)).unwrap_err(), PricingError::ZeroPercentage);
}

#[test]
fn zero_percentage_is_refused_by_profit_calculator() {
    let r = ProfitCalculator::new(dec(280, 0), dec(0, 1), dec(15, 2));
    assert_eq!(r.unwrap_err(), PricingError::ZeroPercentage);
}

#[test]
fn negative_margin_is_refused() {
    for margin in [dec(-15, 2), dec(-1, 0), dec(-1, 28), dec(-500, 1)] {
        let r = ProfitCalculator::new(dec(2800, 1), dec(70, 2), margin);
        assert_eq!(r.unwrap_err(), PricingError::NegativeMargin);
    }
}

#[test]
fn negative_margin_is_checked_before_percentage() {
    let r = ProfitCalculator::new(dec(2800, 1), dec(0, 0), dec(-15, 2));
    assert_eq!(r.unwrap_err(), PricingError::NegativeMargin);
}

#[test]
fn zero_margin_sells_at_original_price() {
    let c = ProfitCalculator::new(dec(280, 0), dec(7, 1), dec(0, 0)).unwrap();
    assert_eq!(c.compute_selling_price(), Ok(dec(400, 0)));
}

#[test]
fn price_over_percentage_above_one() {
    let info = PriceInfo::new(dec(300, 0), dec(15, 1)).unwrap();
    assert_eq!(info.calculate_price(), Ok(dec(200, 0)));
}

#[test]
fn negative_percentage_is_accepted() {
    let info = PriceInfo::new(dec(100, 0), dec(-25, 2)).unwrap();
    assert_eq!(info.calculate_price(), Ok(dec(-400, 0)));
}

#[test]
fn quotient_out_of_range_is_overflow() {
    let max = ExactDecimal::new(79_228_162_514_264_337_593_543_950_335, 0);
    let info = PriceInfo::new(max, dec(1, 1)).unwrap();
    assert_eq!(info.calculate_price(), Err(PricingError::Overflow));
}

#[test]
fn selling_price_out_of_range_is_overflow() {
    let max = ExactDecimal::new(79_228_162_514_264_337_593_543_950_335, 0);
    let c = ProfitCalculator::new(max, dec(1, 0), dec(1, 0)).unwrap();
    assert_eq!(c.compute_selling_price(), Err(PricingError::Overflow));
}

#[test]
fn derivations_are_repeatable() {
    let info = PriceInfo::new(dec(2800, 1), dec(7, 1)).unwrap();
    assert_eq!(info.calculate_price(), info.calculate_price());
    let c = ProfitCalculator::new(dec(2800, 1), dec(70, 2), dec(15, 2)).unwrap();
    assert_eq!(c.compute_selling_price(), c.compute_selling_price());
}

#[test]
fn getters_return_what_was_given() {
    let c = ProfitCalculator::new(dec(2800, 1), dec(70, 2), dec(15, 2)).unwrap();
    assert_eq!(c.ideal_profit(), dec(15, 2));
    assert_eq!(c.price_paid().sale_price(), dec(280, 0));
    assert_eq!(c.price_paid().percentage_paid(), dec(7, 1));
}
