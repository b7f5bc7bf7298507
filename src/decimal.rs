//! A decimal number held as a signed mantissa and a power-of-ten scale, in the
//! range that `rust_decimal::Decimal` can represent, always in its shortest form.
use rust_decimal::Decimal;
use vstd::prelude::*;

verus! {

/// The largest mantissa magnitude: 96 bits, all set.
pub const MAX_MANTISSA: i128 = 0xFFFF_FFFF_FFFF_FFFF_FFFF_FFFF;

/// The largest number of digits after the decimal point.
pub const MAX_SCALE: u32 = 28;

/// `10` raised to `n`.
pub open spec fn pow10(n: nat) -> int
    decreases n,
{
    if n == 0 {
        1
    } else {
        10 * pow10((n - 1) as nat)
    }
}

/// A mantissa and scale that a decimal can hold.
pub open spec fn in_range(mantissa: int, scale: nat) -> bool {
    -MAX_MANTISSA <= mantissa <= MAX_MANTISSA && scale <= MAX_SCALE
}

/// `a` and `b`, read as `mantissa / 10^scale`, denote the same number.
pub open spec fn same_value(a: (int, nat), b: (int, nat)) -> bool {
    a.0 * pow10(b.1) == b.0 * pow10(a.1)
}

/// The shortest form of `mantissa / 10^scale`: trailing zero digits after
/// the decimal point are dropped, so that zero is `(0, 0)`.
pub open spec fn canonical(mantissa: int, scale: nat) -> (int, nat)
    decreases scale,
{
    if scale > 0 && mantissa % 10 == 0 {
        canonical(mantissa / 10, (scale - 1) as nat)
    } else {
        (mantissa, scale)
    }
}

/// Dropping trailing zero digits keeps the number that is denoted, never
/// widens the scale, and never grows the mantissa.
pub proof fn lemma_canonical_same_value(mantissa: int, scale: nat)
    ensures
        same_value(canonical(mantissa, scale), (mantissa, scale)),
        canonical(mantissa, scale).1 <= scale,
        mantissa >= 0 ==> 0 <= canonical(mantissa, scale).0 <= mantissa,
        mantissa <= 0 ==> mantissa <= canonical(mantissa, scale).0 <= 0,
    decreases scale,
{
    if scale > 0 && mantissa % 10 == 0 {
        let m = mantissa / 10;
        let s = (scale - 1) as nat;
        lemma_canonical_same_value(m, s);
        let c = canonical(m, s);
        assert(c.0 * pow10(s) == m * pow10(c.1));
        assert(pow10(scale) == 10 * pow10(s));
        assert(mantissa == 10 * m);
        assert(c.0 * pow10(scale) == mantissa * pow10(c.1)) by (nonlinear_arith)
            requires
                c.0 * pow10(s) == m * pow10(c.1),
                pow10(scale) == 10 * pow10(s),
                mantissa == 10 * m,
        ;
    }
}

/// What a decimal operation gave, brought to its shortest form.
pub open spec fn shortest_of(r: Option<(int, nat)>) -> Option<(int, nat)> {
    match r {
        Some((m, s)) => Some(canonical(m, s)),
        None => None,
    }
}

/// The parts that a decimal operation returned, as integers.
pub open spec fn parts_view(r: Option<(i128, u32)>) -> Option<(int, nat)> {
    match r {
        Some((m, s)) => Some((m as int, s as nat)),
        None => None,
    }
}

/// The number that a decimal operation returned, if any.
pub open spec fn option_view(r: Option<ExactDecimal>) -> Option<(int, nat)> {
    match r {
        Some(d) => Some(d@),
        None => None,
    }
}

/// The mantissa and scale of `dividend / divisor` as computed by
/// `rust_decimal`, or `None` where it reports failure.
pub uninterp spec fn decimal_quotient(dividend: (int, nat), divisor: (int, nat)) -> Option<(int, nat)>;

/// The mantissa and scale of `a * b` as computed by `rust_decimal`, or `None`
/// where it reports overflow.
pub uninterp spec fn decimal_product(a: (int, nat), b: (int, nat)) -> Option<(int, nat)>;

/// The mantissa and scale of `a + b` as computed by `rust_decimal`, or `None`
/// where it reports overflow.
pub uninterp spec fn decimal_sum(a: (int, nat), b: (int, nat)) -> Option<(int, nat)>;

/// A decimal number `mantissa / 10^scale`.
///
/// The representation is always the shortest one, so two values are equal
/// exactly when they denote the same number.
#[derive(Clone, Copy, Debug, PartialEq, Eq, Structural)]
pub struct ExactDecimal {
    mantissa: i128,
    scale: u32,
}

impl View for ExactDecimal {
    type V = (int, nat);

    closed spec fn view(&self) -> (int, nat) {
        (self.mantissa as int, self.scale as nat)
    }
}

impl ExactDecimal {
    #[verifier::type_invariant]
    spec fn shortest(self) -> bool {
        &&& in_range(self.mantissa as int, self.scale as nat)
        &&& canonical(self.mantissa as int, self.scale as nat) == (
            self.mantissa as int,
            self.scale as nat,
        )
    }

    /// Builds the decimal `mantissa / 10^scale`, in its shortest form.
    fn from_parts(mantissa: i128, scale: u32) -> (r: ExactDecimal)
        requires
            in_range(mantissa as int, scale as nat),
        ensures
            r@ == canonical(mantissa as int, scale as nat),
    {
        let mut m: i128 = mantissa;
        let mut s: u32 = scale;
        while s > 0 && m % 10 == 0
            invariant
                in_range(m as int, s as nat),
                canonical(m as int, s as nat) == canonical(mantissa as int, scale as nat),
            decreases s,
        {
            m = m / 10;
            s = s - 1;
        }
        ExactDecimal { mantissa: m, scale: s }
    }

    /// Builds the decimal `mantissa / 10^scale`, which denotes the same number
    /// as the parts given.
    pub fn new(mantissa: i128, scale: u32) -> (r: ExactDecimal)
        requires
            in_range(mantissa as int, scale as nat),
        ensures
            r@ == canonical(mantissa as int, scale as nat),
            same_value(r@, (mantissa as int, scale as nat)),
    {
        proof {
            lemma_canonical_same_value(mantissa as int, scale as nat);
        }
        Self::from_parts(mantissa, scale)
    }

    /// The number one.
    pub fn one() -> (r: ExactDecimal)
        ensures
            r@ == (1int, 0nat),
    {
        ExactDecimal { mantissa: 1, scale: 0 }
    }

    /// The mantissa of the shortest form.
    pub fn mantissa(&self) -> (r: i128)
        ensures
            r == self@.0,
    {
        self.mantissa
    }

    /// The number of digits after the decimal point in the shortest form.
    pub fn scale(&self) -> (r: u32)
        ensures
            r == self@.1,
    {
        self.scale
    }

    /// Whether this is zero.
    pub fn is_zero(&self) -> (r: bool)
        ensures
            r == (self@.0 == 0),
    {
        self.mantissa == 0
    }

    /// Whether this is below zero.
    pub fn is_negative(&self) -> (r: bool)
        ensures
            r == (self@.0 < 0),
    {
        self.mantissa < 0
    }

    /// Two values are the same exactly when they denote the same mantissa
    /// and scale.
    pub proof fn lemma_view_injective(self, other: ExactDecimal)
        ensures
            self@ == other@ <==> self == other,
    {
    }

    /// `self / other`, or `None` where the division fails.
    pub fn checked_div(self, other: ExactDecimal) -> (r: Option<ExactDecimal>)
        ensures
            option_view(r) == shortest_of(decimal_quotient(self@, other@)),
            other@.0 == 0 ==> r is None,
    {
        match div_parts(self, other) {
            Some((m, s)) => Some(Self::from_parts(m, s)),
            None => None,
        }
    }

    /// `self * other`, or `None` where the product overflows.
    pub fn checked_mul(self, other: ExactDecimal) -> (r: Option<ExactDecimal>)
        ensures
            option_view(r) == shortest_of(decimal_product(self@, other@)),
    {
        match mul_parts(self, other) {
            Some((m, s)) => Some(Self::from_parts(m, s)),
            None => None,
        }
    }

    /// `self + other`, or `None` where the sum overflows.
    pub fn checked_add(self, other: ExactDecimal) -> (r: Option<ExactDecimal>)
        ensures
            option_view(r) == shortest_of(decimal_sum(self@, other@)),
    {
        match add_parts(self, other) {
            Some((m, s)) => Some(Self::from_parts(m, s)),
            None => None,
        }
    }
}

/// Relies on `rust_decimal::Decimal::checked_div`, which returns `None` when
/// the divisor is zero or the quotient overflows. `from_i128_with_scale`
/// accepts every value in range; `mantissa` and `scale` of any `Decimal` are
/// in range.
#[verifier::external_body]
fn div_parts(a: ExactDecimal, b: ExactDecimal) -> (r: Option<(i128, u32)>)
    ensures
        parts_view(r) == decimal_quotient(a@, b@),
        b@.0 == 0 ==> r is None,
        r matches Some((m, s)) ==> in_range(m as int, s as nat),
{
    let x = Decimal::from_i128_with_scale(a.mantissa, a.scale);
    let y = Decimal::from_i128_with_scale(b.mantissa, b.scale);
    match x.checked_div(y) {
        Some(q) => Some((q.mantissa(), q.scale())),
        None => None,
    }
}

/// Relies on `rust_decimal::Decimal::checked_mul`, which returns `None` when
/// the product overflows. `from_i128_with_scale` accepts every value in
/// range; `mantissa` and `scale` of any `Decimal` are in range.
#[verifier::external_body]
fn mul_parts(a: ExactDecimal, b: ExactDecimal) -> (r: Option<(i128, u32)>)
    ensures
        parts_view(r) == decimal_product(a@, b@),
        r matches Some((m, s)) ==> in_range(m as int, s as nat),
{
    let x = Decimal::from_i128_with_scale(a.mantissa, a.scale);
    let y = Decimal::from_i128_with_scale(b.mantissa, b.scale);
    match x.checked_mul(y) {
        Some(p) => Some((p.mantissa(), p.scale())),
        None => None,
    }
}

/// Relies on `rust_decimal::Decimal::checked_add`, which returns `None` when
/// the sum overflows. `from_i128_with_scale` accepts every value in range;
/// `mantissa` and `scale` of any `Decimal` are in range.
#[verifier::external_body]
fn add_parts(a: ExactDecimal, b: ExactDecimal) -> (r: Option<(i128, u32)>)
    ensures
        parts_view(r) == decimal_sum(a@, b@),
        r matches Some((m, s)) ==> in_range(m as int, s as nat),
{
    let x = Decimal::from_i128_with_scale(a.mantissa, a.scale);
    let y = Decimal::from_i128_with_scale(b.mantissa, b.scale);
    match x.checked_add(y) {
        Some(t) => Some((t.mantissa(), t.scale())),
        None => None,
    }
}

} // verus!
