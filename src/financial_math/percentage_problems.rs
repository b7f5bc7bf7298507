//! Recovering an original price from a sale price and the fraction of the
//! original that it represents, and the selling price that realises a
//! desired profit margin over that original price.
//!
//! Example: a bicycle sold for 280.00 at 70% of what was paid for it was
//! bought for 400.00; selling it at a 15% profit takes 460.00.
use crate::decimal::{
    decimal_product, decimal_quotient, decimal_sum, shortest_of, ExactDecimal,
};
use vstd::prelude::*;

verus! {

/// Why a pricing value could not be built or derived.
#[derive(Clone, Copy, Debug, PartialEq, Eq, Structural)]
pub enum PricingError {
    /// The percentage paid is zero, so no original price can be recovered.
    ZeroPercentage,
    /// The desired profit margin is below zero.
    NegativeMargin,
    /// An intermediate or final result lies outside the decimal range.
    Overflow,
}

/// A sale price together with the fraction of the original price that it
/// represents (0.70 for 70%). The fraction is never zero.
#[derive(Clone, Copy, Debug)]
pub struct PriceInfo {
    sale_price: ExactDecimal,
    percentage_paid: ExactDecimal,
}

/// The numbers that a `PriceInfo` holds.
pub struct PriceInfoView {
    pub sale_price: (int, nat),
    pub percentage_paid: (int, nat),
}

/// A purchase described by a `PriceInfo` together with the desired profit
/// margin (0.15 for 15%). The margin is never below zero.
#[derive(Clone, Copy, Debug)]
pub struct ProfitCalculator {
    price_paid: PriceInfo,
    ideal_profit: ExactDecimal,
}

/// The numbers that a `ProfitCalculator` holds.
pub struct ProfitCalculatorView {
    pub price_paid: PriceInfoView,
    pub ideal_profit: (int, nat),
}

/// A derived number, or why it could not be derived.
pub open spec fn result_view(r: Result<ExactDecimal, PricingError>) -> Result<(int, nat), PricingError> {
    match r {
        Ok(d) => Ok(d@),
        Err(e) => Err(e),
    }
}

/// A failed decimal operation becomes an overflow.
pub open spec fn or_overflow(r: Option<(int, nat)>) -> Result<(int, nat), PricingError> {
    match r {
        Some(v) => Ok(v),
        None => Err(PricingError::Overflow),
    }
}

/// What `PriceInfo::new` gives for a sale price and a percentage.
pub open spec fn price_info_outcome(sale_price: (int, nat), percentage: (int, nat)) -> Result<PriceInfoView, PricingError> {
    if percentage.0 == 0 {
        Err(PricingError::ZeroPercentage)
    } else {
        Ok(PriceInfoView { sale_price, percentage_paid: percentage })
    }
}

/// The original price: the sale price divided by the percentage paid.
pub open spec fn original_price(p: PriceInfoView) -> Result<(int, nat), PricingError> {
    or_overflow(shortest_of(decimal_quotient(p.sale_price, p.percentage_paid)))
}

/// What `ProfitCalculator::new` gives for the price paid, the percentage and
/// the margin: the margin is checked first.
pub open spec fn profit_calculator_outcome(
    total_paid: (int, nat),
    percentage: (int, nat),
    margin: (int, nat),
) -> Result<ProfitCalculatorView, PricingError> {
    if margin.0 < 0 {
        Err(PricingError::NegativeMargin)
    } else {
        match price_info_outcome(total_paid, percentage) {
            Ok(price_paid) => Ok(ProfitCalculatorView { price_paid, ideal_profit: margin }),
            Err(e) => Err(e),
        }
    }
}

/// The selling price: the original price times one plus the margin.
pub open spec fn selling_price(c: ProfitCalculatorView) -> Result<(int, nat), PricingError> {
    match original_price(c.price_paid) {
        Ok(price) => match shortest_of(decimal_sum((1int, 0nat), c.ideal_profit)) {
            Some(factor) => or_overflow(shortest_of(decimal_product(price, factor))),
            None => Err(PricingError::Overflow),
        },
        Err(e) => Err(e),
    }
}

impl View for PriceInfo {
    type V = PriceInfoView;

    closed spec fn view(&self) -> PriceInfoView {
        PriceInfoView { sale_price: self.sale_price@, percentage_paid: self.percentage_paid@ }
    }
}

impl View for ProfitCalculator {
    type V = ProfitCalculatorView;

    closed spec fn view(&self) -> ProfitCalculatorView {
        ProfitCalculatorView { price_paid: self.price_paid@, ideal_profit: self.ideal_profit@ }
    }
}

/// What a constructor gives, as numbers.
pub open spec fn price_info_view(r: Result<PriceInfo, PricingError>) -> Result<PriceInfoView, PricingError> {
    match r {
        Ok(p) => Ok(p@),
        Err(e) => Err(e),
    }
}

/// What a constructor gives, as numbers.
pub open spec fn profit_calculator_view(r: Result<ProfitCalculator, PricingError>) -> Result<ProfitCalculatorView, PricingError> {
    match r {
        Ok(c) => Ok(c@),
        Err(e) => Err(e),
    }
}

impl PriceInfo {
    #[verifier::type_invariant]
    spec fn percentage_nonzero(self) -> bool {
        self.percentage_paid@.0 != 0
    }

    /// Records a sale price and the fraction of the original price that it
    /// represents; fails with `ZeroPercentage` exactly when that fraction is
    /// zero.
    pub fn new(price: ExactDecimal, percentage: ExactDecimal) -> (r: Result<PriceInfo, PricingError>)
        ensures
            price_info_view(r) == price_info_outcome(price@, percentage@),
    {
        if percentage.is_zero() {
            Err(PricingError::ZeroPercentage)
        } else {
            Ok(PriceInfo { sale_price: price, percentage_paid: percentage })
        }
    }

    /// The sale price.
    pub fn sale_price(&self) -> (r: ExactDecimal)
        ensures
            r@ == self@.sale_price,
    {
        self.sale_price
    }

    /// The fraction of the original price that the sale price represents.
    pub fn percentage_paid(&self) -> (r: ExactDecimal)
        ensures
            r@ == self@.percentage_paid,
            r@.0 != 0,
    {
        proof {
            use_type_invariant(self);
        }
        self.percentage_paid
    }

    /// The original price: the sale price divided by the percentage paid.
    /// Fails with `Overflow` only where the quotient leaves the decimal range.
    pub fn calculate_price(&self) -> (r: Result<ExactDecimal, PricingError>)
        ensures
            result_view(r) == original_price(self@),
    {
        match self.sale_price.checked_div(self.percentage_paid) {
            Some(price) => Ok(price),
            None => Err(PricingError::Overflow),
        }
    }
}

impl ProfitCalculator {
    #[verifier::type_invariant]
    spec fn margin_not_negative(self) -> bool {
        self.ideal_profit@.0 >= 0
    }

    /// Records the price paid (a sale price and the fraction of the original
    /// that it represents) and the desired margin. Fails with
    /// `NegativeMargin` exactly when the margin is below zero, and otherwise
    /// with `ZeroPercentage` exactly when the fraction is zero.
    pub fn new(
        total_paid: ExactDecimal,
        percentage_return: ExactDecimal,
        margin: ExactDecimal,
    ) -> (r: Result<ProfitCalculator, PricingError>)
        ensures
            profit_calculator_view(r) == profit_calculator_outcome(
                total_paid@,
                percentage_return@,
                margin@,
            ),
    {
        if margin.is_negative() {
            return Err(PricingError::NegativeMargin);
        }
        match PriceInfo::new(total_paid, percentage_return) {
            Ok(price_paid) => Ok(ProfitCalculator { price_paid, ideal_profit: margin }),
            Err(e) => Err(e),
        }
    }

    /// The price paid.
    pub fn price_paid(&self) -> (r: PriceInfo)
        ensures
            r@ == self@.price_paid,
    {
        self.price_paid
    }

    /// The desired profit margin.
    pub fn ideal_profit(&self) -> (r: ExactDecimal)
        ensures
            r@ == self@.ideal_profit,
            r@.0 >= 0,
    {
        proof {
            use_type_invariant(self);
        }
        self.ideal_profit
    }

    /// The selling price that realises the margin: the original price times
    /// one plus the margin. Fails with `Overflow` only where a step leaves
    /// the decimal range.
    pub fn compute_selling_price(&self) -> (r: Result<ExactDecimal, PricingError>)
        ensures
            result_view(r) == selling_price(self@),
    {
        let price = match self.price_paid.calculate_price() {
            Ok(price) => price,
            Err(e) => return Err(e),
        };
        let factor = match ExactDecimal::one().checked_add(self.ideal_profit) {
            Some(factor) => factor,
            None => return Err(PricingError::Overflow),
        };
        match price.checked_mul(factor) {
            Some(selling) => Ok(selling),
            None => Err(PricingError::Overflow),
        }
    }
}

/// Two derivation results that denote the same outcome are the same value.
pub proof fn lemma_result_view_injective(
    r1: Result<ExactDecimal, PricingError>,
    r2: Result<ExactDecimal, PricingError>,
)
    ensures
        result_view(r1) == result_view(r2) ==> r1 == r2,
{
    if let (Ok(a), Ok(b)) = (r1, r2) {
        a.lemma_view_injective(b);
    }
}

/// A `PriceInfo` built from a sale price and a nonzero percentage derives
/// the sale price divided by the percentage; a zero percentage is refused
/// with `ZeroPercentage`.
pub proof fn lemma_price_is_quotient(sale_price: ExactDecimal, percentage: ExactDecimal)
    ensures
        percentage@.0 == 0 ==> price_info_outcome(sale_price@, percentage@) == Err::<
            PriceInfoView,
            PricingError,
        >(PricingError::ZeroPercentage),
        percentage@.0 != 0 ==> {
            &&& price_info_outcome(sale_price@, percentage@) matches Ok(p)
            &&& original_price(p) == or_overflow(
                shortest_of(decimal_quotient(sale_price@, percentage@)),
            )
        },
{
}

/// A `ProfitCalculator` with a margin below zero is refused with
/// `NegativeMargin`, whatever the price paid and the percentage.
pub proof fn lemma_negative_margin_refused(
    total_paid: ExactDecimal,
    percentage_return: ExactDecimal,
    margin: ExactDecimal,
)
    requires
        margin@.0 < 0,
    ensures
        profit_calculator_outcome(total_paid@, percentage_return@, margin@) == Err::<
            ProfitCalculatorView,
            PricingError,
        >(PricingError::NegativeMargin),
{
}

/// Deriving the original price twice from the same `PriceInfo` gives the
/// same result both times.
pub proof fn lemma_calculate_price_repeatable(
    p: PriceInfo,
    r1: Result<ExactDecimal, PricingError>,
    r2: Result<ExactDecimal, PricingError>,
)
    requires
        result_view(r1) == original_price(p@),
        result_view(r2) == original_price(p@),
    ensures
        r1 == r2,
{
    lemma_result_view_injective(r1, r2);
}

/// Deriving the selling price twice from the same `ProfitCalculator` gives
/// the same result both times.
pub proof fn lemma_selling_price_repeatable(
    c: ProfitCalculator,
    r1: Result<ExactDecimal, PricingError>,
    r2: Result<ExactDecimal, PricingError>,
)
    requires
        result_view(r1) == selling_price(c@),
        result_view(r2) == selling_price(c@),
    ensures
        r1 == r2,
{
    lemma_result_view_injective(r1, r2);
}

} // verus!
