//! Fixed-point decimal numbers: a 96-bit mantissa and a decimal scale of at
//! most 28, the representation of `rust_decimal::Decimal`. The library holds
//! the two plain parts; the arithmetic itself is done by `rust_decimal`.

use vstd::prelude::*;
use rust_decimal::Decimal;

verus! {

/// Largest mantissa magnitude, `2^96 - 1`.
pub open spec fn max_mantissa() -> int {
    79228162514264337593543950335
}

/// `2^95`.
pub open spec fn two_pow_95() -> int {
    39614081257132168796771975168
}

/// `10^28`: one unit of value expressed in the finest scale.
pub open spec fn p28() -> int {
    10000000000000000000000000000
}

/// `10^n`.
pub open spec fn pow10(n: nat) -> int
    decreases n,
{
    if n == 0 {
        1
    } else {
        10 * pow10((n - 1) as nat)
    }
}

pub proof fn lemma_pow10_pos(n: nat)
    ensures
        pow10(n) >= 1,
    decreases n,
{
    if n > 0 {
        lemma_pow10_pos((n - 1) as nat);
    }
}

/// `10^(a+b) = 10^a * 10^b`.
pub proof fn lemma_pow10_add(a: nat, b: nat)
    ensures
        pow10(a + b) == pow10(a) * pow10(b),
    decreases b,
{
    if b > 0 {
        lemma_pow10_add(a, (b - 1) as nat);
        assert(pow10(a + b) == 10 * pow10((a + b - 1) as nat));
        assert(pow10(a) * pow10(b) == pow10(a) * (10 * pow10((b - 1) as nat)));
        assert(pow10(a) * (10 * pow10((b - 1) as nat)) == 10 * (pow10(a) * pow10(
            (b - 1) as nat,
        ))) by (nonlinear_arith);
    }
}

/// `10^a <= 10^b` for `a <= b`.
pub proof fn lemma_pow10_mono(a: nat, b: nat)
    requires
        a <= b,
    ensures
        pow10(a) <= pow10(b),
    decreases b,
{
    if a < b {
        lemma_pow10_mono(a, (b - 1) as nat);
        lemma_pow10_pos((b - 1) as nat);
    }
}

pub proof fn lemma_p28()
    ensures
        pow10(28) == p28(),
        pow10(26) * 100 == p28(),
{
    reveal_with_fuel(pow10, 29);
}

/// A decimal number `mantissa / 10^scale`.
#[derive(Debug, Clone, Copy)]
pub struct Dec {
    mantissa: i128,
    scale: u32,
}

impl Dec {
    #[verifier::type_invariant]
    spec fn well_formed(self) -> bool {
        -max_mantissa() <= self.mantissa <= max_mantissa() && self.scale <= 28
    }

    /// The mantissa.
    pub closed spec fn m(self) -> int {
        self.mantissa as int
    }

    /// The number of decimal places.
    pub closed spec fn s(self) -> nat {
        self.scale as nat
    }

    /// The value in units of `10^-28`: `mantissa * 10^(28 - scale)`. Since the
    /// scale is at most 28 this is an exact integer, and two decimals are equal
    /// in value exactly when their units are.
    pub open spec fn units(self) -> int {
        self.m() * pow10((28 - self.s()) as nat)
    }

    /// The mantissa (`Decimal::mantissa`).
    pub fn mantissa(&self) -> (r: i128)
        ensures
            r == self.m(),
            -max_mantissa() <= r <= max_mantissa(),
    {
        proof {
            use_type_invariant(self);
        }
        self.mantissa
    }

    /// The number of decimal places (`Decimal::scale`).
    pub fn scale(&self) -> (r: u32)
        ensures
            r == self.s(),
            r <= 28,
    {
        proof {
            use_type_invariant(self);
        }
        self.scale
    }

    /// `num / 10^scale` (`Decimal::new`).
    pub fn new(num: i64, scale: u32) -> (r: Dec)
        requires
            scale <= 28,
        ensures
            r.m() == num,
            r.s() == scale,
    {
        decimal_new(num, scale)
    }

    /// `num / 10^scale` (`Decimal::from_i128_with_scale`).
    pub fn from_i128_with_scale(num: i128, scale: u32) -> (r: Dec)
        requires
            scale <= 28,
            -max_mantissa() <= num <= max_mantissa(),
        ensures
            r.m() == num,
            r.s() == scale,
    {
        Dec { mantissa: num, scale }
    }

    /// Zero (`Decimal::ZERO`).
    pub fn zero() -> (r: Dec)
        ensures
            r.m() == 0,
            r.s() == 0,
            r.units() == 0,
    {
        Dec { mantissa: 0, scale: 0 }
    }
}

pub proof fn lemma_units_bounds(d: Dec)
    requires
        -max_mantissa() <= d.m() <= max_mantissa(),
        d.s() <= 28,
    ensures
        -max_mantissa() * p28() <= d.units() <= max_mantissa() * p28(),
{
    let e = (28 - d.s()) as nat;
    lemma_pow10_mono(e, 28);
    lemma_pow10_pos(e);
    lemma_p28();
    let x = d.m();
    let y = pow10(e);
    assert(-max_mantissa() * p28() <= x * y <= max_mantissa() * p28()) by (nonlinear_arith)
        requires
            -max_mantissa() <= x <= max_mantissa(),
            1 <= y <= p28(),
            max_mantissa() > 0,
    ;
}

/// The result of `Decimal * Decimal` on two decimals given by mantissa and
/// scale, as `(mantissa, scale)`.
pub uninterp spec fn decimal_product(m1: int, s1: nat, m2: int, s2: nat) -> (int, nat);

/// The result of `Decimal + Decimal` on two decimals given by mantissa and
/// scale, as `(mantissa, scale)`.
pub uninterp spec fn decimal_sum(m1: int, s1: nat, m2: int, s2: nat) -> (int, nat);

/// The largest whole number at most `x / d`, in units of `10^-28` (`d > 0`):
/// `x` is an exact value scaled by `d * 10^-28`.
pub open spec fn floor_units(x: int, d: int) -> int {
    (x / d) * p28()
}

/// The smallest whole number at least `x / d`, in units of `10^-28`
/// (`d > 0`).
pub open spec fn ceil_units(x: int, d: int) -> int {
    ((x + d - 1) / d) * p28()
}

/// The aligned sum of `a` and `b` fits in 96 bits at the larger of the two
/// scales.
pub open spec fn sum_fits(a: Dec, b: Dec) -> bool {
    let t = if a.s() >= b.s() {
        a.s()
    } else {
        b.s()
    };
    -max_mantissa() * pow10((28 - t) as nat) <= a.units() + b.units() <= max_mantissa() * pow10(
        (28 - t) as nat,
    )
}

/// `Decimal::new(num, scale)`, taken apart into mantissa and scale.
///
/// Trusted: for a scale of at most 28
/// it keeps `num` as the mantissa and `scale` as the scale; it panics on a
/// larger scale, which `requires` leaves out.
#[verifier::external_body]
fn decimal_new(num: i64, scale: u32) -> (r: Dec)
    requires
        scale <= 28,
    ensures
        r.m() == num,
        r.s() == scale,
{
    let d = Decimal::new(num, scale);
    Dec { mantissa: d.mantissa(), scale: d.scale() }
}

/// `Decimal * Decimal`.
///
/// Trusted (the multiplication of `ops/mul.rs`): the result is a valid
/// decimal named by `decimal_product`; a zero factor gives zero with scale 0;
/// when the product of the mantissas fits in 96 bits and the summed scale is
/// at most 28, the result is exactly that product at that scale; otherwise it
/// is the product rounded to the nearest value at a smaller scale (at least
/// 0; ties to even), so it lies between the whole numbers just below and just
/// above the exact product, and within one unit of value of it. It panics
/// only on overflow, which the bound in `requires` (a product below `2^95` in
/// value) excludes. Which way a rounded result goes is left unsaid.
#[verifier::external_body]
fn decimal_mul(a: Dec, b: Dec) -> (r: Dec)
    requires
        -two_pow_95() * p28() * p28() < a.units() * b.units() < two_pow_95() * p28() * p28(),
    ensures
        (r.m(), r.s()) == decimal_product(a.m(), a.s(), b.m(), b.s()),
        -max_mantissa() <= r.m() <= max_mantissa(),
        r.s() <= 28,
        a.m() * b.m() == 0 ==> r.m() == 0 && r.s() == 0,
        a.m() * b.m() != 0 && -max_mantissa() <= a.m() * b.m() <= max_mantissa() && a.s() + b.s()
            <= 28 ==> r.m() == a.m() * b.m() && r.s() == a.s() + b.s(),
        -p28() * p28() <= r.units() * p28() - a.units() * b.units() <= p28() * p28(),
        floor_units(a.units() * b.units(), p28() * p28()) <= r.units(),
        r.units() <= ceil_units(a.units() * b.units(), p28() * p28()),
{
    let x = Decimal::from_i128_with_scale(a.mantissa, a.scale);
    let y = Decimal::from_i128_with_scale(b.mantissa, b.scale);
    let z = x * y;
    Dec { mantissa: z.mantissa(), scale: z.scale() }
}

/// `Decimal + Decimal`.
///
/// Trusted (the addition of `ops/add.rs`): the result is a valid
/// decimal named by `decimal_sum`; a zero left operand gives the right one
/// unchanged, and otherwise a zero right operand gives the left one; when
/// both are non-zero and the sum aligned to the larger scale fits in 96 bits,
/// the result is that exact sum at that scale; otherwise it is rounded to a
/// smaller scale (at least 0), to the nearest value (ties to even), so it
/// lies between the whole numbers just below and just above the exact sum,
/// and within one unit of value of it. It panics only on overflow, which the
/// bound in `requires` excludes. Which way a rounded result goes is left
/// unsaid.
#[verifier::external_body]
fn decimal_add(a: Dec, b: Dec) -> (r: Dec)
    requires
        -two_pow_95() * p28() < a.units() + b.units() < two_pow_95() * p28(),
    ensures
        (r.m(), r.s()) == decimal_sum(a.m(), a.s(), b.m(), b.s()),
        -max_mantissa() <= r.m() <= max_mantissa(),
        r.s() <= 28,
        a.m() == 0 ==> r.m() == b.m() && r.s() == b.s(),
        a.m() != 0 && b.m() == 0 ==> r.m() == a.m() && r.s() == a.s(),
        a.m() != 0 && b.m() != 0 && sum_fits(a, b) ==> r.units() == a.units() + b.units() && r.s()
            == if a.s() >= b.s() {
            a.s()
        } else {
            b.s()
        },
        -p28() <= r.units() - (a.units() + b.units()) <= p28(),
        floor_units(a.units() + b.units(), p28()) <= r.units(),
        r.units() <= ceil_units(a.units() + b.units(), p28()),
{
    let x = Decimal::from_i128_with_scale(a.mantissa, a.scale);
    let y = Decimal::from_i128_with_scale(b.mantissa, b.scale);
    let z = x + y;
    Dec { mantissa: z.mantissa(), scale: z.scale() }
}

/// `Decimal >= Decimal`.
///
/// Trusted (`Ord` of `Decimal` compares values, `ops/cmp.rs`): true
/// exactly when the value of `a` is at least that of `b`.
#[verifier::external_body]
fn decimal_ge(a: Dec, b: Dec) -> (r: bool)
    ensures
        r == (a.units() >= b.units()),
{
    let x = Decimal::from_i128_with_scale(a.mantissa, a.scale);
    let y = Decimal::from_i128_with_scale(b.mantissa, b.scale);
    x >= y
}

/// `Decimal == Decimal`.
///
/// Trusted (`PartialEq` of `Decimal` compares values): true exactly
/// when the two values are equal, whatever their scales.
#[verifier::external_body]
fn decimal_eq(a: Dec, b: Dec) -> (r: bool)
    ensures
        r == (a.units() == b.units()),
{
    let x = Decimal::from_i128_with_scale(a.mantissa, a.scale);
    let y = Decimal::from_i128_with_scale(b.mantissa, b.scale);
    x == y
}

impl Dec {
    /// `self * other`: the product, exact while it fits, otherwise rounded.
    pub fn mul(self, other: Dec) -> (r: Dec)
        requires
            -two_pow_95() * p28() * p28() < self.units() * other.units() < two_pow_95() * p28()
                * p28(),
        ensures
            (r.m(), r.s()) == decimal_product(self.m(), self.s(), other.m(), other.s()),
            self.m() * other.m() == 0 ==> r.m() == 0 && r.s() == 0,
            self.m() * other.m() != 0 && -max_mantissa() <= self.m() * other.m() <= max_mantissa()
                && self.s() + other.s() <= 28 ==> r.m() == self.m() * other.m() && r.s() == self.s()
                + other.s(),
            -p28() * p28() <= r.units() * p28() - self.units() * other.units() <= p28() * p28(),
            floor_units(self.units() * other.units(), p28() * p28()) <= r.units(),
            r.units() <= ceil_units(self.units() * other.units(), p28() * p28()),
    {
        decimal_mul(self, other)
    }

    /// `self + other`: the sum, exact while it fits, otherwise rounded.
    pub fn add(self, other: Dec) -> (r: Dec)
        requires
            -two_pow_95() * p28() < self.units() + other.units() < two_pow_95() * p28(),
        ensures
            (r.m(), r.s()) == decimal_sum(self.m(), self.s(), other.m(), other.s()),
            self.m() == 0 ==> r.m() == other.m() && r.s() == other.s(),
            self.m() != 0 && other.m() == 0 ==> r.m() == self.m() && r.s() == self.s(),
            self.m() != 0 && other.m() != 0 && sum_fits(self, other) ==> r.units() == self.units()
                + other.units() && r.s() == if self.s() >= other.s() {
                self.s()
            } else {
                other.s()
            },
            -p28() <= r.units() - (self.units() + other.units()) <= p28(),
            floor_units(self.units() + other.units(), p28()) <= r.units(),
            r.units() <= ceil_units(self.units() + other.units(), p28()),
    {
        decimal_add(self, other)
    }

    /// Whether `self >= other` in value.
    pub fn ge(&self, other: &Dec) -> (r: bool)
        ensures
            r == (self.units() >= other.units()),
    {
        decimal_ge(*self, *other)
    }
}

impl PartialEq for Dec {
    fn eq(&self, other: &Dec) -> (r: bool) {
        decimal_eq(*self, *other)
    }
}

impl vstd::std_specs::cmp::PartialEqSpecImpl for Dec {
    open spec fn obeys_eq_spec() -> bool {
        true
    }

    open spec fn eq_spec(&self, other: &Dec) -> bool {
        self.units() == other.units()
    }
}

} // verus!
