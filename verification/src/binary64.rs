//! IEEE 754 double-precision numbers, held as their bit patterns.
//!
//! Sample rates, clock rates and gains are doubles on the device's side. Here they
//! are carried as the 64 bits that encode them, so that comparing one with a limit
//! and multiplying it by two are integer operations with exact contracts.

use vstd::arithmetic::power2::{lemma2_to64, lemma2_to64_rest, lemma_pow2_adds, lemma_pow2_pos, lemma_pow2_strictly_increases, lemma_pow2_unfold, pow2};
use vstd::prelude::*;

verus! {

/// Weight of the lowest exponent bit: the fraction field takes values below this.
pub const FRACTION_SPAN: u64 = 4503599627370496;

/// Weight of the sign bit: the exponent and fraction fields together stay below this.
pub const SIGN_WEIGHT: u64 = 9223372036854775808;

/// The exponent field shared by the infinities and the NaNs.
pub const SPECIAL_EXPONENT: u64 = 2047;

/// What a double stands for. A finite number is counted in units of the smallest
/// positive double, 2 to the power -1074, of which every finite double is a whole
/// multiple.
pub enum Value {
    NotANumber,
    MinusInfinity,
    Finite(int),
    PlusInfinity,
}

impl Value {
    /// The whole number `n`.
    pub open spec fn whole(n: int) -> Value {
        Value::Finite(n * pow2(1074))
    }

    /// The `<=` of IEEE 754: false as soon as one side is not a number.
    pub open spec fn le(self, other: Value) -> bool {
        match (self, other) {
            (Value::NotANumber, _) => false,
            (_, Value::NotANumber) => false,
            (Value::MinusInfinity, _) => true,
            (_, Value::PlusInfinity) => true,
            (Value::Finite(a), Value::Finite(b)) => a <= b,
            _ => false,
        }
    }

    /// The product with a small power of two `factor`: exact, or infinite where it
    /// leaves the range of the finite doubles.
    pub open spec fn scaled(self, factor: int) -> Value {
        match self {
            Value::Finite(u) => if u * factor > max_finite() {
                Value::PlusInfinity
            } else if u * factor < -max_finite() {
                Value::MinusInfinity
            } else {
                Value::Finite(u * factor)
            },
            v => v,
        }
    }
}

/// The largest finite double, in units of the smallest positive one.
pub open spec fn max_finite() -> int {
    (2 * FRACTION_SPAN - 1) * pow2(2045)
}

/// The size of the finite double whose exponent and fraction fields, read as one
/// number, are `fields`.
pub open spec fn magnitude(fields: int) -> int {
    let exponent = fields / (FRACTION_SPAN as int);
    let fraction = fields % (FRACTION_SPAN as int);
    if exponent == 0 {
        fraction
    } else {
        (FRACTION_SPAN + fraction) * pow2((exponent - 1) as nat)
    }
}

/// A double, as its bit pattern.
#[derive(Clone, Copy, Debug)]
pub struct Binary64 {
    pub bits: u64,
}

impl View for Binary64 {
    type V = Value;

    open spec fn view(&self) -> Value {
        if self.fields() > SPECIAL_EXPONENT * FRACTION_SPAN {
            Value::NotANumber
        } else if self.fields() == SPECIAL_EXPONENT * FRACTION_SPAN {
            if self.negative() {
                Value::MinusInfinity
            } else {
                Value::PlusInfinity
            }
        } else if self.negative() {
            Value::Finite(-magnitude(self.fields()))
        } else {
            Value::Finite(magnitude(self.fields()))
        }
    }
}

impl Binary64 {
    /// Whether the sign bit is set.
    pub open spec fn negative(self) -> bool {
        self.bits >= SIGN_WEIGHT
    }

    /// The exponent and fraction fields, read as one number.
    pub open spec fn fields(self) -> int {
        (self.bits % SIGN_WEIGHT) as int
    }

    /// The number zero.
    pub fn zero() -> (r: Binary64)
        ensures
            r@ == Value::whole(0),
            !r.negative(),
    {
        Binary64 { bits: 0 }
    }

    /// The IEEE 754 comparison `self <= other`.
    pub fn le(self, other: Binary64) -> (r: bool)
        ensures
            r == self@.le(other@),
    {
        let infinity: u64 = SPECIAL_EXPONENT * FRACTION_SPAN;
        let a: u64 = self.bits % SIGN_WEIGHT;
        let b: u64 = other.bits % SIGN_WEIGHT;
        proof {
            if a <= infinity && b <= infinity {
                if a < infinity && b < infinity {
                    lemma_magnitude_order(a as int, b as int);
                    lemma_magnitude_order(b as int, a as int);
                    lemma_magnitude_order(a as int, 0);
                    lemma_magnitude_order(b as int, 0);
                    assert(magnitude(0) == 0);
                }
            }
        }
        if a > infinity || b > infinity {
            false
        } else if self.bits >= SIGN_WEIGHT {
            if other.bits >= SIGN_WEIGHT {
                b <= a
            } else {
                true
            }
        } else if other.bits >= SIGN_WEIGHT {
            a == 0 && b == 0
        } else {
            a <= b
        }
    }

    /// The product `2.0 * self`; a NaN is returned as it came.
    pub fn doubled(self) -> (r: Binary64)
        ensures
            r@ == self@.scaled(2),
            r.negative() == self.negative(),
            self@ is NotANumber ==> r == self,
    {
        let fields: u64 = self.bits % SIGN_WEIGHT;
        let exponent: u64 = fields / FRACTION_SPAN;
        let sign: u64 = self.bits - fields;
        proof {
            lemma_magnitude_doubles(fields as int);
        }
        if exponent == SPECIAL_EXPONENT {
            self
        } else if exponent == 0 {
            Binary64 { bits: sign + 2 * fields }
        } else if exponent == SPECIAL_EXPONENT - 1 {
            Binary64 { bits: sign + SPECIAL_EXPONENT * FRACTION_SPAN }
        } else {
            Binary64 { bits: self.bits + FRACTION_SPAN }
        }
    }
}

/// The fields of finite doubles are ordered as their sizes are.
proof fn lemma_magnitude_order(a: int, b: int)
    requires
        0 <= a,
        0 <= b,
    ensures
        a <= b <==> magnitude(a) <= magnitude(b),
        0 <= magnitude(a),
{
    let span = FRACTION_SPAN as int;
    lemma_pow2_pos(0);
    if a / span > 0 {
        lemma_pow2_pos((a / span - 1) as nat);
        assert((span + a % span) * pow2((a / span - 1) as nat) >= span) by (nonlinear_arith)
            requires
                pow2((a / span - 1) as nat) >= 1,
                0 <= a % span,
                span > 0,
        ;
    }
    if b / span > 0 {
        lemma_pow2_pos((b / span - 1) as nat);
        assert((span + b % span) * pow2((b / span - 1) as nat) >= span) by (nonlinear_arith)
            requires
                pow2((b / span - 1) as nat) >= 1,
                0 <= b % span,
                span > 0,
        ;
    }
    if a / span == b / span {
        if a / span > 0 {
            let p = pow2((a / span - 1) as nat) as int;
            let x = a % span;
            let y = b % span;
            assert(x <= y <==> (span + x) * p <= (span + y) * p) by (nonlinear_arith)
                requires
                    p >= 1,
            ;
        }
    } else if a / span < b / span {
        lemma_magnitude_gap(a, b);
    } else {
        lemma_magnitude_gap(b, a);
    }
}

/// A larger exponent field makes for a larger number.
proof fn lemma_magnitude_gap(a: int, b: int)
    requires
        0 <= a,
        0 <= b,
        a / (FRACTION_SPAN as int) < b / (FRACTION_SPAN as int),
    ensures
        magnitude(a) < magnitude(b),
{
    let span = FRACTION_SPAN as int;
    let q = pow2((b / span - 1) as nat) as int;
    let y = b % span;
    lemma_pow2_pos((b / span - 1) as nat);
    assert((span + y) * q >= span * q) by (nonlinear_arith)
        requires
            q >= 1,
            y >= 0,
    ;
    if a / span == 0 {
        assert(span * q >= span) by (nonlinear_arith)
            requires
                q >= 1,
                span > 0,
        ;
    } else {
        let p = pow2((a / span - 1) as nat) as int;
        let x = a % span;
        lemma_pow2_pos((a / span - 1) as nat);
        if a / span < b / span - 1 {
            lemma_pow2_strictly_increases((a / span) as nat, (b / span - 1) as nat);
        }
        lemma_pow2_unfold((a / span) as nat);
        assert(q >= 2 * p);
        assert((span + x) * p < span * q) by (nonlinear_arith)
            requires
                q >= 2 * p,
                p >= 1,
                0 <= x < span,
        ;
    }
}

/// Doubling a number shifts a subnormal's fields and raises a normal's exponent.
proof fn lemma_magnitude_doubles(fields: int)
    requires
        0 <= fields < SIGN_WEIGHT,
    ensures
        fields < FRACTION_SPAN ==> magnitude(2 * fields) == 2 * magnitude(fields)
            && 2 * magnitude(fields) <= max_finite(),
        FRACTION_SPAN <= fields < 2046 * FRACTION_SPAN ==> magnitude(fields + FRACTION_SPAN) == 2
            * magnitude(fields) && 2 * magnitude(fields) <= max_finite(),
        2046 * FRACTION_SPAN <= fields < 2047 * FRACTION_SPAN ==> 2 * magnitude(fields)
            > max_finite(),
        0 <= magnitude(fields),
{
    let span = FRACTION_SPAN as int;
    let exponent = fields / span;
    let fraction = fields % span;
    lemma_magnitude_order(fields, 2047 * span - 1);
    lemma_magnitude_order(2 * fields, 2047 * span - 1);
    lemma_magnitude_order(fields + span, 2047 * span - 1);
    assert(magnitude(2047 * span - 1) == max_finite());
    lemma2_to64();
    if exponent == 0 && 2 * fields >= span {
        assert((2 * fields) / span == 1);
        assert((2 * fields) % span == 2 * fields - span);
    }
    if exponent > 0 {
        let p = pow2((exponent - 1) as nat) as int;
        lemma_pow2_pos((exponent - 1) as nat);
        lemma_pow2_unfold(exponent as nat);
        assert((span + fraction) * (2 * p) == 2 * ((span + fraction) * p)) by (nonlinear_arith);
        assert((fields + span) / span == exponent + 1);
        assert((fields + span) % span == fraction);
        if exponent == 2046 {
            assert((2 * span - 1) * p < (span + fraction) * (2 * p)) by (nonlinear_arith)
                requires
                    p >= 1,
                    fraction >= 0,
                    span > 0,
            ;
        }
    }
}

/// No finite double is larger than the largest one.
pub proof fn lemma_finite_range(x: Binary64)
    ensures
        x@ matches Value::Finite(u) ==> -max_finite() <= u <= max_finite(),
{
    let last = 2047 * FRACTION_SPAN - 1;
    if x.fields() <= last {
        lemma_magnitude_order(x.fields(), last);
        assert(magnitude(last) == max_finite());
    }
}

/// Whole numbers of ordinary size are far from the largest double.
pub proof fn lemma_whole_range(n: int)
    requires
        -FRACTION_SPAN <= n <= FRACTION_SPAN,
    ensures
        -max_finite() <= n * pow2(1074) <= max_finite(),
{
    let one = pow2(1074) as int;
    lemma_pow2_pos(1074);
    lemma_pow2_strictly_increases(1074, 2045);
    let last = pow2(2045) as int;
    let span = FRACTION_SPAN as int;
    assert(-((2 * span - 1) * last) <= n * one <= (2 * span - 1) * last) by (nonlinear_arith)
        requires
            -span <= n <= span,
            0 < one < last,
            span > 1,
    ;
}

/// How a whole number is encoded: a positive exponent field, and a significand that is
/// the number shifted left by what the exponent lacks to 1075.
pub proof fn lemma_whole_encoding(x: Binary64, n: int, shift: nat)
    requires
        !x.negative(),
        FRACTION_SPAN <= x.fields() < SPECIAL_EXPONENT * FRACTION_SPAN,
        x.fields() / (FRACTION_SPAN as int) + shift == 1075,
        FRACTION_SPAN + x.fields() % (FRACTION_SPAN as int) == n * pow2(shift),
    ensures
        x@ == Value::whole(n),
{
    let rest = (x.fields() / (FRACTION_SPAN as int) - 1) as nat;
    let a = pow2(shift) as int;
    let b = pow2(rest) as int;
    lemma_pow2_adds(rest, shift);
    assert((n * a) * b == n * (b * a)) by (nonlinear_arith);
}

/// The comparison orders all values but NaN, with the infinities at the ends and the
/// finite ones by their size, and puts NaN in relation to nothing.
pub proof fn law_comparison_is_an_order(a: Value, b: Value, c: Value)
    ensures
        a.le(a) <==> !(a is NotANumber),
        a.le(b) || b.le(a) <==> !(a is NotANumber) && !(b is NotANumber),
        a.le(b) && b.le(a) ==> a == b,
        a.le(b) && b.le(c) ==> a.le(c),
        a.le(Value::MinusInfinity) ==> a is MinusInfinity,
        Value::PlusInfinity.le(b) ==> b is PlusInfinity,
        a matches Value::Finite(u) ==> (b matches Value::Finite(v) ==> (a.le(b) <==> u <= v)),
{
}

/// Whole numbers are multiples of one, and are compared as numbers.
pub proof fn law_whole_numbers(m: int, n: int)
    ensures
        Value::whole(1) == (Binary64 { bits: 0x3ff0000000000000 })@,
        Value::whole(n) == Value::Finite(n * Value::whole(1)->Finite_0),
        Value::whole(m).le(Value::whole(n)) <==> m <= n,
{
    let unit = Binary64 { bits: 0x3ff0000000000000 };
    lemma2_to64_rest();
    lemma_whole_encoding(unit, 1, 52);
    let one = pow2(1074) as int;
    lemma_pow2_pos(1074);
    assert(1 * one == one);
    assert(m * one <= n * one <==> m <= n) by (nonlinear_arith)
        requires
            one > 0,
    ;
}

/// Zero is the pattern of no bits. From one positive pattern to the next the number
/// grows, by one unit while the exponent field is zero or one, and by twice as much with
/// each further step of the exponent.
pub proof fn law_neighbouring_doubles(x: Binary64)
    requires
        x.bits < 0x7fefffffffffffff,
    ensures
        (Binary64 { bits: 0 })@ == Value::Finite(0),
        x@ is Finite,
        (Binary64 { bits: (x.bits + 1) as u64 })@ == Value::Finite(
            x@->Finite_0 + if x.bits < 0x10000000000000 {
                1int
            } else {
                pow2((x.bits / 0x10000000000000 - 1) as nat) as int
            },
        ),
{
    let span = FRACTION_SPAN as int;
    let b = x.bits as int;
    let e = b / span;
    let f = b % span;
    lemma2_to64();
    assert(magnitude(0) == 0);
    if f + 1 < span {
        assert((b + 1) / span == e && (b + 1) % span == f + 1);
        if e > 0 {
            let p = pow2((e - 1) as nat) as int;
            assert((span + (f + 1)) * p == (span + f) * p + p) by (nonlinear_arith);
        }
    } else {
        assert((b + 1) / span == e + 1 && (b + 1) % span == 0);
        if e > 0 {
            let p = pow2((e - 1) as nat) as int;
            lemma_pow2_unfold(e as nat);
            assert((span + 0) * (2 * p) == (span + f) * p + p) by (nonlinear_arith)
                requires
                    f == span - 1,
            ;
        }
    }
}

/// The sign bit turns a number into its opposite. What lies above the patterns of the
/// finite numbers is infinity, and above that are the NaNs.
pub proof fn law_signs_and_specials(x: Binary64)
    requires
        x.bits < 0x8000000000000000,
    ensures
        ({
            let opposite = Binary64 { bits: (x.bits + 0x8000000000000000) as u64 };
            &&& !x.negative()
            &&& opposite.negative()
            &&& x@ matches Value::Finite(u) ==> opposite@ == Value::Finite(-u)
            &&& x@ is PlusInfinity <==> opposite@ is MinusInfinity
            &&& x@ is NotANumber <==> opposite@ is NotANumber
        }),
        x@ is Finite <==> x.bits < 0x7ff0000000000000,
        x@ is PlusInfinity <==> x.bits == 0x7ff0000000000000,
        x@ is NotANumber <==> x.bits > 0x7ff0000000000000,
{
}

/// A product is exact as long as it is no larger than the largest double, and infinite
/// beyond. Scaling in two steps is scaling by the product, and a positive factor keeps
/// the order.
pub proof fn law_scaling_is_multiplication(v: Value, w: Value, factor: int)
    requires
        factor > 0,
    ensures
        ({
            let largest = (Binary64 { bits: 0x7fefffffffffffff })@->Finite_0;
            v matches Value::Finite(u) ==> v.scaled(factor) == if u * factor > largest {
                Value::PlusInfinity
            } else if u * factor < -largest {
                Value::MinusInfinity
            } else {
                Value::Finite(u * factor)
            }
        }),
        !(v is Finite) ==> v.scaled(factor) == v,
        v.scaled(2).scaled(2) == v.scaled(4),
        v.le(w) ==> v.scaled(factor).le(w.scaled(factor)),
{
    assert(magnitude(2047 * FRACTION_SPAN - 1) == max_finite());
    if v is Finite && w is Finite {
        let a = v->Finite_0;
        let b = w->Finite_0;
        assert(a <= b ==> a * factor <= b * factor) by (nonlinear_arith)
            requires
                factor > 0,
        ;
    }
    lemma_pow2_pos(2045);
    assert(max_finite() > 0) by (nonlinear_arith)
        requires
            pow2(2045) > 0,
            max_finite() == (2 * FRACTION_SPAN - 1) * pow2(2045),
    ;
}

} // verus!
