//! A 256-bit unsigned integer made of two 128-bit limbs, with the few
//! operations the reward formulas of the farms need: widening
//! multiplication and division by a value that fits in 128 bits.
use vstd::arithmetic::div_mod::*;
use vstd::arithmetic::mul::*;
use vstd::arithmetic::power2::*;
use vstd::prelude::*;

verus! {

/// 2^64 as a mathematical integer.
pub open spec fn two64() -> int {
    0x1_0000_0000_0000_0000int
}

/// 2^128 as a mathematical integer.
pub open spec fn two128() -> int {
    0x1_0000_0000_0000_0000_0000_0000_0000_0000int
}

/// 2^256 as a mathematical integer.
pub open spec fn two256() -> int {
    two128() * two128()
}

/// `amount * numerator / denominator`, computed without intermediate overflow.
pub open spec fn mul_div_spec(amount: int, numerator: int, denominator: int) -> int {
    amount * numerator / denominator
}

/// 256-bit unsigned integer: `hi * 2^128 + lo`.
#[derive(Clone, Copy)]
pub struct U256 {
    pub hi: u128,
    pub lo: u128,
}

impl U256 {
    /// The number this value stands for.
    pub open spec fn value(self) -> int {
        self.hi * two128() + self.lo
    }

    /// Widens a 128-bit value.
    pub fn from_u128(x: u128) -> (r: U256)
        ensures
            r.value() == x,
    {
        U256 { hi: 0, lo: x }
    }

    /// Product of two 256-bit values. Overflow is excluded by the precondition.
    pub fn mul(self, rhs: U256) -> (r: U256)
        requires
            self.value() * rhs.value() < two256(),
        ensures
            r.value() == self.value() * rhs.value(),
    {
        if self.hi == 0 {
            proof {
                lemma_mul_is_commutative(self.value(), rhs.value());
            }
            rhs.mul_small(self.lo)
        } else {
            proof {
                lemma_hi_nonzero_forces_small(self, rhs);
            }
            self.mul_small(rhs.lo)
        }
    }

    /// Product of a 256-bit value with a 128-bit value.
    fn mul_small(self, y: u128) -> (r: U256)
        requires
            self.value() * y < two256(),
        ensures
            r.value() == self.value() * y,
    {
        let (h1, l1) = wide_mul(self.lo, y);
        let (h2, l2) = wide_mul(self.hi, y);
        proof {
            lemma_mul_small_bounds(self.hi as int, self.lo as int, y as int, h1 as int, l1 as int, h2 as int, l2 as int);
        }
        U256 { hi: l2 + h1, lo: l1 }
    }

    /// Quotient of the division by a non-zero divisor that fits in 128 bits.
    pub fn div(self, rhs: U256) -> (r: U256)
        requires
            rhs.value() > 0,
            rhs.hi == 0,
        ensures
            r.value() == self.value() / rhs.value(),
    {
        let c = rhs.lo;
        let qh = self.hi / c;
        let rh = self.hi % c;
        let ql = div_wide(rh, self.lo, c);
        proof {
            lemma_div_two_limbs(self.hi as int, self.lo as int, c as int, qh as int, rh as int, ql as int);
        }
        U256 { hi: qh, lo: ql }
    }

    /// Narrows back to 128 bits. The value must fit.
    pub fn as_u128(self) -> (r: u128)
        requires
            self.value() <= u128::MAX,
        ensures
            r == self.value(),
    {
        proof {
            if self.hi > 0 {
                assert(self.hi * two128() >= two128()) by (nonlinear_arith)
                    requires self.hi > 0;
            }
        }
        self.lo
    }
}

proof fn lemma_hi_nonzero_forces_small(x: U256, y: U256)
    requires
        x.hi > 0,
        x.value() * y.value() < two256(),
    ensures
        y.hi == 0,
{
    if y.hi > 0 {
        assert(x.value() >= two128()) by (nonlinear_arith)
            requires x.hi > 0, x.value() == x.hi * two128() + x.lo, x.lo >= 0;
        assert(y.value() >= two128()) by (nonlinear_arith)
            requires y.hi > 0, y.value() == y.hi * two128() + y.lo, y.lo >= 0;
        assert(x.value() * y.value() >= two128() * two128()) by (nonlinear_arith)
            requires x.value() >= two128(), y.value() >= two128();
    }
}

proof fn lemma_mul_small_bounds(hi: int, lo: int, y: int, h1: int, l1: int, h2: int, l2: int)
    requires
        0 <= hi < two128(),
        0 <= lo < two128(),
        0 <= y < two128(),
        0 <= h1 < two128(),
        0 <= l1 < two128(),
        0 <= h2 < two128(),
        0 <= l2 < two128(),
        h1 * two128() + l1 == lo * y,
        h2 * two128() + l2 == hi * y,
        (hi * two128() + lo) * y < two256(),
    ensures
        l2 + h1 < two128(),
        (l2 + h1) * two128() + l1 == (hi * two128() + lo) * y,
{
    assert((hi * two128() + lo) * y == (hi * y) * two128() + lo * y) by (nonlinear_arith);
    assert((hi * y) * two128() + lo * y == (h2 * two128() + l2) * two128() + h1 * two128() + l1);
    assert((h2 * two128() + l2) * two128() + h1 * two128() + l1 == h2 * two256() + (l2 + h1) * two128() + l1) by (nonlinear_arith);
    if h2 > 0 {
        assert(h2 * two256() >= two256()) by (nonlinear_arith) requires h2 > 0;
        assert((l2 + h1) * two128() >= 0) by (nonlinear_arith) requires l2 + h1 >= 0;
    }
    if l2 + h1 >= two128() {
        assert((l2 + h1) * two128() >= two128() * two128()) by (nonlinear_arith)
            requires l2 + h1 >= two128();
    }
}

proof fn lemma_div_two_limbs(hi: int, lo: int, c: int, qh: int, rh: int, ql: int)
    requires
        c > 0,
        0 <= lo < two128(),
        0 <= hi,
        qh == hi / c,
        rh == hi % c,
        ql == (rh * two128() + lo) / c,
    ensures
        qh * two128() + ql == (hi * two128() + lo) / c,
{
    lemma_fundamental_div_mod(hi, c);
    let n = rh * two128() + lo;
    lemma_fundamental_div_mod(n, c);
    assert(hi * two128() + lo == (qh * two128()) * c + n) by (nonlinear_arith)
        requires hi == c * qh + rh, n == rh * two128() + lo;
    assert(hi * two128() + lo == c * (qh * two128() + ql) + n % c) by (nonlinear_arith)
        requires hi * two128() + lo == (qh * two128()) * c + n, n == c * ql + n % c;
    lemma_mod_bound(n, c);
    lemma_fundamental_div_mod_converse(hi * two128() + lo, c, qh * two128() + ql, n % c);
}

/// Full 256-bit product of two 128-bit values, as `(hi, lo)`.
pub fn wide_mul(a: u128, b: u128) -> (r: (u128, u128))
    ensures
        r.0 * two128() + r.1 == a * b,
{
    let base: u128 = 0x1_0000_0000_0000_0000;
    let a1 = a / base;
    let a0 = a % base;
    let b1 = b / base;
    let b0 = b % base;
    proof {
        lemma_fundamental_div_mod(a as int, base as int);
        lemma_fundamental_div_mod(b as int, base as int);
        lemma_small_factors(a as int, a1 as int, a0 as int);
        lemma_small_factors(b as int, b1 as int, b0 as int);
        lemma_digit_product(a1 as int, b1 as int);
        lemma_digit_product(a1 as int, b0 as int);
        lemma_digit_product(a0 as int, b1 as int);
        lemma_digit_product(a0 as int, b0 as int);
    }
    let p00 = a0 * b0;
    let p01 = a0 * b1;
    let p10 = a1 * b0;
    let p11 = a1 * b1;
    let t = p00 / base + p01 % base + p10 % base;
    let lo = p00 % base + (t % base) * base;
    proof {
        lemma_fundamental_div_mod(p00 as int, base as int);
        lemma_fundamental_div_mod(p01 as int, base as int);
        lemma_fundamental_div_mod(p10 as int, base as int);
        lemma_fundamental_div_mod(t as int, base as int);
        lemma_digit_product(p11 as int / two64(), 1);
        lemma_wide_mul_hi_bound(a as int, b as int, a1 as int, a0 as int, b1 as int, b0 as int,
            p00 as int, p01 as int, p10 as int, p11 as int, t as int);
    }
    let hi = p11 + p01 / base + p10 / base + t / base;
    proof {
        lemma_wide_mul_combine(a as int, b as int, a1 as int, a0 as int, b1 as int, b0 as int,
            p00 as int, p01 as int, p10 as int, p11 as int, t as int, lo as int, hi as int);
    }
    (hi, lo)
}

proof fn lemma_small_factors(x: int, x1: int, x0: int)
    requires
        0 <= x < two128(),
        x == two64() * x1 + x0,
        0 <= x0 < two64(),
    ensures
        0 <= x1 < two64(),
{
    if x1 >= two64() {
        assert(two64() * x1 >= two64() * two64()) by (nonlinear_arith) requires x1 >= two64();
    }
    if x1 < 0 {
        assert(two64() * x1 <= -two64()) by (nonlinear_arith) requires x1 < 0;
    }
}

proof fn lemma_digit_product(x: int, y: int)
    requires
        0 <= x < two64(),
        0 <= y < two64(),
    ensures
        0 <= x * y <= (two64() - 1) * (two64() - 1),
{
    assert(0 <= x * y <= (two64() - 1) * (two64() - 1)) by (nonlinear_arith)
        requires 0 <= x < two64(), 0 <= y < two64();
}

proof fn lemma_wide_mul_hi_bound(
    a: int, b: int, a1: int, a0: int, b1: int, b0: int,
    p00: int, p01: int, p10: int, p11: int, t: int,
)
    requires
        0 <= a1 < two64(), 0 <= a0 < two64(), 0 <= b1 < two64(), 0 <= b0 < two64(),
        p00 == a0 * b0, p01 == a0 * b1, p10 == a1 * b0, p11 == a1 * b1,
        t == p00 / two64() + p01 % two64() + p10 % two64(),
    ensures
        p11 + p01 / two64() + p10 / two64() + t / two64() < two128(),
{
    lemma_digit_product(a1, b1);
    lemma_digit_product(a0, b1);
    lemma_digit_product(a1, b0);
    lemma_digit_product(a0, b0);
    lemma_div_is_ordered(p01, (two64() - 1) * (two64() - 1), two64());
    lemma_div_is_ordered(p10, (two64() - 1) * (two64() - 1), two64());
    lemma_div_is_ordered(p00, (two64() - 1) * (two64() - 1), two64());
    lemma_mod_bound(p01, two64());
    lemma_mod_bound(p10, two64());
    assert(((two64() - 1) * (two64() - 1)) / two64() == two64() - 2);
    lemma_div_is_ordered(t, 3 * two64() - 4, two64());
    assert((3 * two64() - 4) / two64() == 2);
    assert((two64() - 1) * (two64() - 1) + 2 * (two64() - 2) + 2 < two128());
}

proof fn lemma_wide_mul_combine(
    a: int, b: int, a1: int, a0: int, b1: int, b0: int,
    p00: int, p01: int, p10: int, p11: int, t: int, lo: int, hi: int,
)
    requires
        a == two64() * a1 + a0,
        b == two64() * b1 + b0,
        p00 == a0 * b0, p01 == a0 * b1, p10 == a1 * b0, p11 == a1 * b1,
        p00 == two64() * (p00 / two64()) + p00 % two64(),
        p01 == two64() * (p01 / two64()) + p01 % two64(),
        p10 == two64() * (p10 / two64()) + p10 % two64(),
        t == p00 / two64() + p01 % two64() + p10 % two64(),
        t == two64() * (t / two64()) + t % two64(),
        lo == p00 % two64() + (t % two64()) * two64(),
        hi == p11 + p01 / two64() + p10 / two64() + t / two64(),
    ensures
        hi * two128() + lo == a * b,
{
    assert(a * b == p11 * two128() + (p01 + p10) * two64() + p00) by (nonlinear_arith)
        requires
            a == two64() * a1 + a0,
            b == two64() * b1 + b0,
            p00 == a0 * b0, p01 == a0 * b1, p10 == a1 * b0, p11 == a1 * b1;
    assert(hi * two128() + lo == p11 * two128() + (p01 + p10) * two64() + p00) by (nonlinear_arith)
        requires
            p00 == two64() * (p00 / two64()) + p00 % two64(),
            p01 == two64() * (p01 / two64()) + p01 % two64(),
            p10 == two64() * (p10 / two64()) + p10 % two64(),
            t == p00 / two64() + p01 % two64() + p10 % two64(),
            t == two64() * (t / two64()) + t % two64(),
            lo == p00 % two64() + (t % two64()) * two64(),
            hi == p11 + p01 / two64() + p10 / two64() + t / two64();
}

/// Quotient of `(hi * 2^128 + lo) / c` when it fits in 128 bits (`hi < c`),
/// by binary long division over the bits of `lo`.
pub fn div_wide(hi: u128, lo: u128, c: u128) -> (q: u128)
    requires
        hi < c,
    ensures
        q == (hi * two128() + lo) / (c as int),
{
    let mut rem: u128 = hi;
    let mut q: u128 = 0;
    let mut p: u128 = 0x8000_0000_0000_0000_0000_0000_0000_0000;
    let ghost mut i: nat = 0;
    proof {
        lemma2_to64();
        lemma_pow2_adds(64, 64);
        lemma_pow2_adds(64, 63);
        lemma_pow2_unfold(64);
        assert(pow2(128) == two128());
        assert(pow2(127) == 0x8000_0000_0000_0000_0000_0000_0000_0000);
        assert(lo as int / two128() == 0) by {
            lemma_basic_div(lo as int, two128());
        }
    }
    while p > 0
        invariant
            i <= 128,
            pow2((128 - i) as nat) / 2 == p,
            rem < c,
            q < pow2(i),
            q * c + rem == hi * pow2(i) + lo as nat / pow2((128 - i) as nat),
            pow2(i) * pow2((128 - i) as nat) == two128(),
            pow2(128) == two128(),
        decreases p,
    {
        let ghost m: int = pow2((128 - i) as nat) as int;
        proof {
            if i == 128 {
                assert(pow2(0) == 1) by { lemma2_to64(); }
                assert(false);
            }
            lemma_pow2_unfold((128 - i) as nat);
            lemma_pow2_unfold(i + 1);
            assert((i + 1 - 1) as nat == i);
            assert((128 - (i + 1)) as nat == ((128 - i) as nat - 1) as nat);
            lemma_pow2_pos((128 - (i + 1)) as nat);
        }
        let y = lo / p;
        let bit = y % 2;
        proof {
            lemma_mod_bound(y as int, 2);
            assert(pow2(i) <= 0x8000_0000_0000_0000_0000_0000_0000_0000) by {
                lemma_pow2_pos(i);
                assert(pow2(i) * 2 <= pow2(i) * pow2((128 - i) as nat)) by (nonlinear_arith)
                    requires pow2((128 - i) as nat) >= 2, pow2(i) > 0;
            }
            lemma_div_denominator(lo as int, p as int, 2);
            assert(m == p * 2);
            lemma_fundamental_div_mod(y as int, 2);
            assert(y as int == 2 * (lo as int / m) + bit);
        }
        let ghost old_q = q;
        let ghost old_rem = rem;
        if rem >= c - rem {
            rem = rem - (c - rem) + bit;
            q = 2 * q + 1;
        } else {
            let v = rem + rem + bit;
            if v >= c {
                rem = v - c;
                q = 2 * q + 1;
            } else {
                rem = v;
                q = 2 * q;
            }
        }
        proof {
            assert(q * c + rem == 2 * (old_q * c + old_rem) + bit) by (nonlinear_arith)
                requires
                    (q == 2 * old_q + 1 && rem == 2 * old_rem + bit - c)
                        || (q == 2 * old_q && rem == 2 * old_rem + bit);
            assert(2 * (hi * pow2(i)) == hi * pow2(i + 1)) by (nonlinear_arith)
                requires pow2(i + 1) == 2 * pow2(i);
            lemma_pow2_adds(i + 1, (128 - (i + 1)) as nat);
            assert(i + 1 + (128 - (i + 1)) as nat == 128);
            assert(pow2((128 - (i + 1)) as nat) == p);
            assert(lo as nat / pow2((128 - (i + 1)) as nat) == y);
            assert(q * c + rem == hi * pow2(i + 1) + lo as nat / pow2((128 - (i + 1)) as nat));
            assert(q < pow2(i + 1));
            i = i + 1;
        }
        p = p / 2;
    }
    proof {
        assert(i == 128) by {
            if i < 128 {
                lemma_pow2_unfold((128 - i) as nat);
                lemma_pow2_pos(((128 - i) as nat - 1) as nat);
            }
        }
        assert(pow2(0) == 1) by { lemma2_to64(); }
        assert((128 - i) as nat == 0);
        lemma_pow2_adds(64, 64);
        lemma2_to64();
        assert(pow2(128) == two128());
        assert(lo as nat / pow2(0) == lo);
        assert(q * c + rem == hi * two128() + lo);
        lemma_fundamental_div_mod_converse((hi * two128() + lo) as int, c as int, q as int, rem as int);
    }
    q
}

/// `amount * numerator / denominator` with a 256-bit intermediate product.
/// The quotient must fit in 128 bits.
pub fn mul_div(amount: u128, numerator: u128, denominator: u128) -> (r: u128)
    requires
        denominator > 0,
        mul_div_spec(amount as int, numerator as int, denominator as int) <= u128::MAX,
    ensures
        r == mul_div_spec(amount as int, numerator as int, denominator as int),
{
    let (hi, lo) = wide_mul(amount, numerator);
    proof {
        if hi >= denominator {
            assert(hi * two128() + lo >= denominator * two128()) by (nonlinear_arith)
                requires hi >= denominator, lo >= 0;
            lemma_div_is_ordered(denominator * two128(), hi * two128() + lo, denominator as int);
            lemma_div_multiples_vanish(two128(), denominator as int);
            assert(false);
        }
    }
    div_wide(hi, lo, denominator)
}

/// `amount * numerator / denominator` with a 256-bit intermediate product,
/// `None` when the quotient does not fit in 128 bits.
pub fn checked_mul_div(amount: u128, numerator: u128, denominator: u128) -> (r: Option<u128>)
    requires
        denominator > 0,
    ensures
        match r {
            Some(x) => x == mul_div_spec(amount as int, numerator as int, denominator as int),
            None => mul_div_spec(amount as int, numerator as int, denominator as int) > u128::MAX,
        },
{
    let (hi, lo) = wide_mul(amount, numerator);
    if hi >= denominator {
        proof {
            assert(hi * two128() + lo >= denominator * two128()) by (nonlinear_arith)
                requires hi >= denominator, lo >= 0;
            lemma_div_is_ordered(denominator * two128(), hi * two128() + lo, denominator as int);
            lemma_div_multiples_vanish(two128(), denominator as int);
            assert(denominator * two128() == two128() * denominator) by (nonlinear_arith);
        }
        return None;
    }
    Some(div_wide(hi, lo, denominator))
}

} // verus!
