//! Si5351 Frequency Calculation
//!
//! Fractional-N PLL and multisynth divider arithmetic for frequency
//! synthesis.
//!
//! # Theory of Operation
//!
//! The Si5351 uses a two-stage frequency synthesis:
//! 1. PLL stage: FVCO = FXTAL × (a + b/c) where 15 ≤ a ≤ 90
//! 2. Multisynth stage: FOUT = FVCO / (d + e/f) where 4 ≤ d ≤ 1800
//!
//! For best phase noise and jitter, we prefer:
//! - Higher VCO frequencies (closer to 900 MHz)
//! - Integer multisynth divisors when possible
//! - Even multisynth divisors for quadrature operation

use vstd::prelude::*;
use vstd::arithmetic::power2::pow2;

verus! {

/// PLL parameters for frequency calculation
#[derive(Clone, Copy, Debug, PartialEq, Eq, Structural)]
pub struct PllParams {
    /// Integer part (15-90)
    pub a: u32,
    /// Numerator (0 to c-1)
    pub b: u32,
    /// Denominator (1-1048575)
    pub c: u32,
}

/// Register triple (P1, P2, P3) of a divider a + b/c:
/// P1 = 128a + floor(128b/c) - 512, P2 = 128b - c·floor(128b/c), P3 = c.
pub open spec fn divider_registers(a: u32, b: u32, c: u32) -> (int, int, int) {
    let f = (128 * b) / (c as int);
    (128 * a + f - 512, 128 * b - c * f, c as int)
}

/// Whether the register triple of a + b/c can be computed in 32 bits.
pub open spec fn divider_registers_fit(a: u32, b: u32, c: u32) -> bool {
    &&& c > 0
    &&& 128 * b <= u32::MAX
    &&& 512 <= 128 * a + (128 * b) / (c as int) <= u32::MAX
}

/// Whether a PLL setting lies in the ranges the chip accepts.
pub open spec fn pll_valid(p: PllParams) -> bool {
    15 <= p.a <= 90 && 1 <= p.c <= 1_048_575 && p.b < p.c
}

/// VCO frequency of a PLL setting: floor(xtal · (a·c + b) / c).
pub open spec fn vco_of(p: PllParams, xtal_hz: u64) -> int {
    (xtal_hz * p.a * p.c + xtal_hz * p.b) / (p.c as int)
}

impl PllParams {
    /// Minimum PLL multiplier
    pub const MIN_A: u32 = 15;
    /// Maximum PLL multiplier
    pub const MAX_A: u32 = 90;
    /// Maximum denominator (20 bits)
    pub const MAX_C: u32 = 1_048_575;

    /// Create integer PLL params (b=0, c=1)
    pub fn integer(a: u32) -> (r: Self)
        ensures
            r == (PllParams { a, b: 0, c: 1 }),
    {
        Self { a, b: 0, c: 1 }
    }

    /// Create fractional PLL params
    pub fn fractional(a: u32, b: u32, c: u32) -> (r: Self)
        ensures
            r == (PllParams { a, b, c }),
    {
        Self { a, b, c }
    }

    /// Calculate the VCO frequency given crystal frequency
    pub fn vco_frequency(&self, xtal_hz: u64) -> (r: u64)
        requires
            self.c > 0,
            xtal_hz * self.a * self.c + xtal_hz * self.b <= u64::MAX,
        ensures
            r == vco_of(*self, xtal_hz),
    {
        let a = self.a as u64;
        let b = self.b as u64;
        let c = self.c as u64;
        assert(xtal_hz * a <= xtal_hz * a * c) by (nonlinear_arith)
            requires
                c >= 1,
        ;
        assert(xtal_hz * a * c <= xtal_hz * a * c + xtal_hz * b) by (nonlinear_arith);
        assert(xtal_hz * b <= xtal_hz * a * c + xtal_hz * b) by (nonlinear_arith);
        (xtal_hz * a * c + xtal_hz * b) / c
    }

    /// Validate parameters are in range
    pub fn is_valid(&self) -> (r: bool)
        ensures
            r == pll_valid(*self),
    {
        self.a >= Self::MIN_A && self.a <= Self::MAX_A && self.c >= 1 && self.c <= Self::MAX_C
            && self.b < self.c
    }

    /// Calculate P1, P2, P3 register values for Si5351
    pub fn to_registers(&self) -> (r: (u32, u32, u32))
        requires
            divider_registers_fit(self.a, self.b, self.c),
        ensures
            (r.0 as int, r.1 as int, r.2 as int) == divider_registers(self.a, self.b, self.c),
    {
        divider_to_registers(self.a, self.b, self.c)
    }
}

/// Register triple of a divider a + b/c
fn divider_to_registers(a: u32, b: u32, c: u32) -> (r: (u32, u32, u32))
    requires
        divider_registers_fit(a, b, c),
    ensures
        (r.0 as int, r.1 as int, r.2 as int) == divider_registers(a, b, c),
{
    let floor_128b_c = (128 * b) / c;
    assert(c * floor_128b_c <= 128 * b) by (nonlinear_arith)
        requires
            c > 0,
            floor_128b_c == (128 * b) / (c as int),
    ;
    let p1 = 128 * a + floor_128b_c - 512;
    let p2 = 128 * b - c * floor_128b_c;
    let p3 = c;
    (p1, p2, p3)
}

/// Multisynth divider parameters
#[derive(Clone, Copy, Debug, PartialEq, Eq, Structural)]
pub struct MsParams {
    /// Integer part (4, 6-1800)
    pub a: u32,
    /// Numerator
    pub b: u32,
    /// Denominator
    pub c: u32,
    /// R divider power of 2 (0-7 for 1, 2, 4, 8, 16, 32, 64, 128)
    pub r_div: u8,
}

/// Whether a multisynth setting lies in the ranges the chip accepts
/// (an integer part of 5 is not allowed).
pub open spec fn ms_valid(m: MsParams) -> bool {
    &&& (m.a == 4 || (6 <= m.a <= 1800))
    &&& 1 <= m.c <= 1_048_575
    &&& m.b < m.c
    &&& m.r_div <= 7
}

/// Output frequency of a multisynth setting fed with `vco_hz`:
/// floor(floor(vco · c / (a·c + b)) / 2^r).
pub open spec fn output_of(m: MsParams, vco_hz: int) -> int {
    (vco_hz * m.c) / (m.a * m.c + m.b) / (pow2(m.r_div as nat) as int)
}

/// Whether the output frequency of `m` at `vco_hz` can be computed in 64 bits.
pub open spec fn output_computable(m: MsParams, vco_hz: u64) -> bool {
    &&& m.a * m.c + m.b > 0
    &&& m.r_div < 64
    &&& vco_hz * m.c <= u64::MAX
}

impl MsParams {
    /// Minimum integer divisor
    pub const MIN_A: u32 = 4;
    /// Maximum integer divisor
    pub const MAX_A: u32 = 1800;
    /// Maximum denominator (20 bits)
    pub const MAX_C: u32 = 1_048_575;

    /// Create integer multisynth params (b=0, c=1)
    pub fn integer(a: u32) -> (r: Self)
        ensures
            r == (MsParams { a, b: 0, c: 1, r_div: 0 }),
    {
        Self { a, b: 0, c: 1, r_div: 0 }
    }

    /// Create integer multisynth with R divider
    pub fn integer_with_r(a: u32, r_div: u8) -> (r: Self)
        ensures
            r == (MsParams { a, b: 0, c: 1, r_div }),
    {
        Self { a, b: 0, c: 1, r_div }
    }

    /// Create fractional multisynth params
    pub fn fractional(a: u32, b: u32, c: u32) -> (r: Self)
        ensures
            r == (MsParams { a, b, c, r_div: 0 }),
    {
        Self { a, b, c, r_div: 0 }
    }

    /// Calculate output frequency given VCO frequency
    pub fn output_frequency(&self, vco_hz: u64) -> (r: u64)
        requires
            output_computable(*self, vco_hz),
        ensures
            r == output_of(*self, vco_hz as int),
    {
        let a = self.a as u64;
        let c = self.c as u64;
        assert(a * c <= 0xffff_fffe_0000_0001) by (nonlinear_arith)
            requires
                a <= 0xffff_ffff,
                c <= 0xffff_ffff,
        ;
        let divisor = a * c + (self.b as u64);
        let shift = self.r_div as u64;
        proof {
            vstd::bits::lemma_u64_pow2_no_overflow(shift as nat);
            vstd::bits::lemma_u64_shl_is_mul(1u64, shift);
        }
        let r = 1u64 << shift;
        (vco_hz * (self.c as u64)) / divisor / r
    }

    /// Validate parameters are in range
    pub fn is_valid(&self) -> (r: bool)
        ensures
            r == ms_valid(*self),
    {
        let a_valid = self.a == 4 || (self.a >= 6 && self.a <= Self::MAX_A);
        let c_valid = self.c >= 1 && self.c <= Self::MAX_C;
        let b_valid = self.b < self.c;
        let r_valid = self.r_div <= 7;
        a_valid && c_valid && b_valid && r_valid
    }

    /// Check if this is an even integer divisor (required for quadrature)
    pub fn is_even_integer(&self) -> (r: bool)
        ensures
            r == (self.b == 0 && self.a % 2 == 0 && self.r_div == 0),
    {
        self.b == 0 && self.a % 2 == 0 && self.r_div == 0
    }

    /// Calculate P1, P2, P3 register values
    pub fn to_registers(&self) -> (r: (u32, u32, u32))
        requires
            divider_registers_fit(self.a, self.b, self.c),
        ensures
            (r.0 as int, r.1 as int, r.2 as int) == divider_registers(self.a, self.b, self.c),
    {
        divider_to_registers(self.a, self.b, self.c)
    }
}

/// Minimum VCO frequency (600 MHz)
pub const VCO_MIN_HZ: u64 = 600_000_000;
/// Maximum VCO frequency (900 MHz)
pub const VCO_MAX_HZ: u64 = 900_000_000;

/// Default crystal frequency (25 MHz)
pub const DEFAULT_XTAL_HZ: u64 = 25_000_000;

/// Distance between b/c and num/den, scaled by c · den: |b · den - num · c|.
pub open spec fn scaled_error(num: int, den: int, b: int, c: int) -> int {
    let d = b * den - num * c;
    if d < 0 { -d } else { d }
}

/// Whether b/c is a closest fraction to num/den among all fractions with a
/// numerator of at least zero and a denominator from 1 to `max_c`.
pub open spec fn is_best_approximation(num: int, den: int, max_c: int, b: int, c: int) -> bool {
    &&& 1 <= c <= max_c
    &&& b >= 0
    &&& forall|b2: int, c2: int|
        b2 >= 0 && 1 <= c2 <= max_c ==> scaled_error(num, den, b, c) * c2 <= #[trigger] scaled_error(
            num,
            den,
            b2,
            c2,
        ) * c
}

/// The numerator that brings b/c closest to num/den for denominator `c`:
/// floor(num · c / den), or one more when that is strictly closer.
pub open spec fn closest_numerator(num: int, den: int, c: int) -> int {
    let fl = (num * c) / den;
    if num * c - fl * den <= (fl + 1) * den - num * c {
        fl
    } else {
        fl + 1
    }
}

/// The first closest fraction to num/den with denominator 1 to `k`:
/// denominators are taken in increasing order and a later one replaces the
/// fraction so far only when strictly closer.
pub open spec fn best_up_to(num: int, den: int, k: int) -> (int, int)
    decreases k,
{
    if k <= 1 {
        (closest_numerator(num, den, 1), 1)
    } else {
        let (b, c) = best_up_to(num, den, k - 1);
        let bk = closest_numerator(num, den, k);
        if scaled_error(num, den, bk, k) * c < scaled_error(num, den, b, c) * k {
            (bk, k)
        } else {
            (b, c)
        }
    }
}

/// Best rational approximation of num/den with denominator at most `max_c`
/// (0/1 when no denominator is allowed).
pub open spec fn rational_approx_of(num: u64, den: u64, max_c: u32) -> (u32, u32) {
    if max_c == 0 {
        (0, 1)
    } else {
        let (b, c) = best_up_to(num as int, den as int, max_c as int);
        (b as u32, c as u32)
    }
}

/// For a fixed denominator, the closest numerator is as close as any.
proof fn lemma_closest_numerator(num: int, den: int, c: int, b2: int)
    requires
        0 <= num,
        den > 0,
        c >= 1,
    ensures
        scaled_error(num, den, closest_numerator(num, den, c), c) <= scaled_error(num, den, b2, c),
        closest_numerator(num, den, c) >= 0,
        num <= den ==> closest_numerator(num, den, c) <= c,
{
    let fl = (num * c) / den;
    assert(fl * den <= num * c < (fl + 1) * den) by (nonlinear_arith)
        requires
            den > 0,
            fl == (num * c) / den,
    ;
    assert(fl >= 0) by (nonlinear_arith)
        requires
            num >= 0,
            c >= 1,
            den > 0,
            fl == (num * c) / den,
    ;
    if b2 <= fl {
        assert(b2 * den <= fl * den) by (nonlinear_arith)
            requires
                b2 <= fl,
                den > 0,
        ;
    } else {
        assert(b2 * den >= (fl + 1) * den) by (nonlinear_arith)
            requires
                b2 >= fl + 1,
                den > 0,
        ;
    }
    if num <= den {
        assert(fl <= c) by (nonlinear_arith)
            requires
                num <= den,
                den > 0,
                c >= 1,
                fl * den <= num * c,
        ;
        if fl == c {
            assert(num * c - fl * den <= 0) by (nonlinear_arith)
                requires
                    num <= den,
                    fl == c,
                    c >= 1,
            ;
        }
    }
}

/// The first closest fraction over denominators 1 to k is a best
/// approximation over those denominators.
proof fn lemma_best_up_to(num: int, den: int, k: int)
    requires
        0 <= num <= den,
        den > 0,
        k >= 1,
    ensures
        is_best_approximation(num, den, k, best_up_to(num, den, k).0, best_up_to(num, den, k).1),
        best_up_to(num, den, k).0 <= best_up_to(num, den, k).1,
    decreases k,
{
    let (b, c) = best_up_to(num, den, k);
    if k == 1 {
        lemma_closest_numerator(num, den, 1, 0);
        assert forall|b2: int, c2: int| b2 >= 0 && 1 <= c2 <= 1 implies scaled_error(num, den, b, c) * c2
            <= #[trigger] scaled_error(num, den, b2, c2) * c by {
            lemma_closest_numerator(num, den, 1, b2);
        }
    } else {
        lemma_best_up_to(num, den, k - 1);
        let (pb, pc) = best_up_to(num, den, k - 1);
        let bk = closest_numerator(num, den, k);
        lemma_closest_numerator(num, den, k, 0);
        let ek = scaled_error(num, den, bk, k);
        let pe = scaled_error(num, den, pb, pc);
        assert forall|b2: int, c2: int| b2 >= 0 && 1 <= c2 <= k implies scaled_error(num, den, b, c) * c2
            <= #[trigger] scaled_error(num, den, b2, c2) * c by {
            let s2 = scaled_error(num, den, b2, c2);
            if c2 == k {
                lemma_closest_numerator(num, den, k, b2);
                if ek * pc < pe * k {
                    assert(ek * k <= s2 * k) by (nonlinear_arith)
                        requires
                            ek <= s2,
                            k >= 1,
                    ;
                } else {
                    assert(pe * k <= s2 * pc) by (nonlinear_arith)
                        requires
                            pe * k <= ek * pc,
                            ek <= s2,
                            pc >= 1,
                    ;
                }
            } else {
                assert(pe * c2 <= s2 * pc);
                if ek * pc < pe * k {
                    assert(ek * c2 <= s2 * k) by (nonlinear_arith)
                        requires
                            ek * pc < pe * k,
                            pe * c2 <= s2 * pc,
                            pc >= 1,
                            c2 >= 1,
                            k >= 1,
                            ek >= 0,
                            pe >= 0,
                            s2 >= 0,
                    {
                        assert(ek * pc * c2 <= pe * k * c2) by (nonlinear_arith)
                            requires
                                ek * pc < pe * k,
                                c2 >= 1,
                        ;
                        assert(pe * c2 * k <= s2 * pc * k) by (nonlinear_arith)
                            requires
                                pe * c2 <= s2 * pc,
                                k >= 1,
                        ;
                        assert(pc * (ek * c2) <= pc * (s2 * k)) by (nonlinear_arith)
                            requires
                                ek * pc * c2 <= pe * k * c2,
                                pe * c2 * k <= s2 * pc * k,
                        ;
                    }
                }
            }
        }
    }
}

/// Once the fraction found is exact, no later denominator replaces it.
proof fn lemma_best_up_to_exact(num: int, den: int, k: int, m: int)
    requires
        1 <= k <= m,
        scaled_error(num, den, best_up_to(num, den, k).0, best_up_to(num, den, k).1) == 0,
    ensures
        best_up_to(num, den, m) == best_up_to(num, den, k),
    decreases m - k,
{
    if m > k {
        lemma_best_up_to_exact(num, den, k, m - 1);
        lemma_best_up_to_range(num, den, m - 1);
        let bm = closest_numerator(num, den, m);
        let c = best_up_to(num, den, m - 1).1;
        assert(scaled_error(num, den, bm, m) * c >= 0) by (nonlinear_arith)
            requires
                c >= 0,
        ;
    }
}

/// `best_up_to` always has a denominator from 1 to k.
proof fn lemma_best_up_to_range(num: int, den: int, k: int)
    requires
        k >= 1,
    ensures
        1 <= best_up_to(num, den, k).1 <= k,
    decreases k,
{
    if k > 1 {
        lemma_best_up_to_range(num, den, k - 1);
    }
}

/// Find the best rational approximation b/c ≈ num/den with c ≤ `max_c`:
/// every denominator is tried with its closest numerator, and the first
/// strictly closest fraction wins; distances are compared exactly.
pub fn rational_approximation(num: u64, den: u64, max_c: u32) -> (r: (u32, u32))
    requires
        den > 0,
        num <= den,
    ensures
        r == rational_approx_of(num, den, max_c),
        r.1 >= 1,
        r.0 <= r.1,
        max_c >= 1 ==> is_best_approximation(num as int, den as int, max_c as int, r.0 as int, r.1 as int),
{
    if max_c == 0 {
        return (0, 1);
    }
    let ghost n = num as int;
    let ghost d = den as int;
    proof {
        lemma_best_up_to(n, d, max_c as int);
        lemma_best_up_to_range(n, d, max_c as int);
    }
    let num_w = num as u128;
    let den_w = den as u128;
    let mut best_b: u32 = 0;
    let mut best_c: u32 = 1;
    let mut best_e: u128 = 0;
    let mut c: u32 = 1;
    while c <= max_c
        invariant
            n == num,
            d == den,
            num_w == num,
            den_w == den,
            0 <= num <= den,
            den > 0,
            1 <= max_c,
            1 <= c <= max_c as int + 1,
            is_best_approximation(n, d, max_c as int, best_up_to(n, d, max_c as int).0, best_up_to(n, d, max_c as int).1),
            best_up_to(n, d, max_c as int).0 <= best_up_to(n, d, max_c as int).1 <= max_c,
            c > 1 ==> (best_b as int, best_c as int) == best_up_to(n, d, c - 1),
            c > 1 ==> best_e as int == scaled_error(n, d, best_b as int, best_c as int),
            c > 1 ==> 1 <= best_c < c,
            c > 1 ==> best_b <= best_c,
        decreases max_c as int + 1 - c,
    {
        let cw = c as u128;
        assert(num_w * cw <= 0xffff_ffff_ffff_ffff * 0xffff_ffff) by (nonlinear_arith)
            requires
                num_w <= 0xffff_ffff_ffff_ffff,
                cw <= 0xffff_ffff,
        ;
        let prod = num_w * cw;
        let fl = prod / den_w;
        proof {
            lemma_closest_numerator(n, d, c as int, 0);
            assert(fl * den_w <= prod < (fl + 1) * den_w) by (nonlinear_arith)
                requires
                    den_w > 0,
                    fl == prod / den_w,
            ;
            assert(fl <= cw) by (nonlinear_arith)
                requires
                    num_w <= den_w,
                    den_w > 0,
                    fl * den_w <= num_w * cw,
            ;
            assert((fl + 1) * den_w <= 0x1_0000_0000 * 0xffff_ffff_ffff_ffff) by (nonlinear_arith)
                requires
                    fl + 1 <= 0x1_0000_0000,
                    den_w <= 0xffff_ffff_ffff_ffff,
            ;
        }
        let low = fl * den_w;
        let high = (fl + 1) * den_w;
        assert(high == low + den_w) by (nonlinear_arith)
            requires
                low == fl * den_w,
                high == (fl + 1) * den_w,
        ;
        let below = prod - low;
        let above = high - prod;
        let (bk, ek): (u128, u128) = if below <= above { (fl, below) } else { (fl + 1, above) };
        proof {
            assert(bk as int == closest_numerator(n, d, c as int));
            assert(ek as int == scaled_error(n, d, bk as int, c as int));
        }
        assert(bk <= cw);
        let bk32 = bk as u32;
        if c == 1 {
            best_b = bk32;
            best_c = 1;
            best_e = ek;
        } else {
            assert(ek <= den_w);
            assert(best_e <= den_w * 0xffff_ffff) by (nonlinear_arith)
                requires
                    best_e == scaled_error(n, d, best_b as int, best_c as int),
                    best_b <= best_c,
                    best_c <= 0xffff_ffff,
                    num <= den,
                    den_w == den,
                    n == num,
                    d == den,
            ;
            assert(ek * (best_c as u128) <= 0xffff_ffff_ffff_ffff * 0xffff_ffff) by (nonlinear_arith)
                requires
                    ek <= den_w,
                    den_w <= 0xffff_ffff_ffff_ffff,
                    best_c <= 0xffff_ffff,
            ;
            assert(best_e * cw <= 0xffff_ffff_ffff_ffff * 0xffff_ffff * 0xffff_ffff) by (nonlinear_arith)
                requires
                    best_e <= den_w * 0xffff_ffff,
                    den_w <= 0xffff_ffff_ffff_ffff,
                    cw <= 0xffff_ffff,
            ;
            if ek * (best_c as u128) < best_e * cw {
                best_b = bk32;
                best_c = c;
                best_e = ek;
            }
        }
        if best_e == 0 {
            proof {
                lemma_best_up_to_exact(n, d, c as int, max_c as int);
            }
            return (best_b, best_c);
        }
        if c == max_c {
            return (best_b, best_c);
        }
        c = c + 1;
    }
    (best_b, best_c)
}

/// PLL setting that reaches `vco_hz` from `xtal_hz`: integer part
/// vco / xtal within 15..=90 and the remainder as the best fraction b/c
/// with c up to 1048575. When that fraction is 1, the best fraction below
/// 1 is used instead: 1048574/1048575.
pub open spec fn pll_params_for(xtal_hz: u64, vco_hz: u64) -> Option<PllParams> {
    let a = vco_hz / xtal_hz;
    if a < 15 || a > 90 {
        None
    } else {
        let rem = vco_hz - a * xtal_hz;
        if rem == 0 {
            Some(PllParams { a: a as u32, b: 0, c: 1 })
        } else {
            let bc = rational_approx_of(rem as u64, xtal_hz, 1_048_575);
            if bc.0 < bc.1 {
                Some(PllParams { a: a as u32, b: bc.0, c: bc.1 })
            } else {
                Some(PllParams { a: a as u32, b: 1_048_574, c: 1_048_575 })
            }
        }
    }
}

/// The VCO frequency a PLL setting reaches is within xtal/1048575 + 1 Hz of
/// the target when the setting came from the best fraction of the
/// remainder.
proof fn lemma_pll_error(x: u64, xtal: int, target: int, a: int, rem: int, p: PllParams)
    requires
        xtal == x,
        xtal > 0,
        0 < rem < xtal,
        target == a * xtal + rem,
        15 <= a <= 90,
        ({
            let bc = best_up_to(rem, xtal, 1_048_575);
            &&& is_best_approximation(rem, xtal, 1_048_575, bc.0, bc.1)
            &&& bc.0 <= bc.1
            &&& if bc.0 < bc.1 {
                p == PllParams { a: a as u32, b: bc.0 as u32, c: bc.1 as u32 }
            } else {
                p == PllParams { a: a as u32, b: 1_048_574, c: 1_048_575 }
            }
        }),
    ensures
        abs_int(vco_of(p, x) - target) <= xtal / 1_048_575 + 1,
        is_best_proper_fraction(rem, xtal, 1_048_575, p.b as int, p.c as int),
{
    let m: int = 1_048_575;
    let bc = best_up_to(rem, xtal, m);
    let (b, c) = bc;
    let b2 = (rem * m) / xtal;
    assert(b2 * xtal <= rem * m < (b2 + 1) * xtal) by (nonlinear_arith)
        requires
            xtal > 0,
            b2 == (rem * m) / xtal,
    ;
    assert(b2 >= 0) by (nonlinear_arith)
        requires
            m == 1_048_575,
            rem > 0,
            xtal > 0,
            b2 == (rem * m) / xtal,
    ;
    let s2 = scaled_error(rem, xtal, b2, m);
    assert(s2 < xtal) by (nonlinear_arith)
        requires
            b2 * xtal <= rem * m < (b2 + 1) * xtal,
            s2 == scaled_error(rem, xtal, b2, m),
    ;
    let se = scaled_error(rem, xtal, b, c);
    assert(se * m <= s2 * c);
    assert(se * m < xtal * c) by (nonlinear_arith)
        requires
            se * m <= s2 * c,
            s2 < xtal,
            c >= 1,
    ;
    if b < c {
        let q = (xtal * b) / c;
        assert(vco_of(p, x) == a * xtal + q) by (nonlinear_arith)
            requires
                vco_of(p, x) == (x * p.a * p.c + x * p.b) / (p.c as int),
                p.a == a,
                p.b == b,
                p.c == c,
                x == xtal,
                c >= 1,
                q == (xtal * b) / c,
        ;
        assert(q * c <= xtal * b < q * c + c) by (nonlinear_arith)
            requires
                c >= 1,
                q == (xtal * b) / c,
        ;
        let dq = abs_int(q - rem);
        assert(dq * c < se + c) by (nonlinear_arith)
            requires
                q * c <= xtal * b < q * c + c,
                se == scaled_error(rem, xtal, b, c),
                dq == abs_int(q - rem),
                c >= 1,
        ;
        assert((dq - 1) * m < xtal) by (nonlinear_arith)
            requires
                dq * c < se + c,
                se * m < xtal * c,
                c >= 1,
                m > 0,
                se >= 0,
        ;
        assert(dq - 1 <= xtal / m) by (nonlinear_arith)
            requires
                (dq - 1) * m < xtal,
                m > 0,
                xtal > 0,
        ;
        assert(abs_int(vco_of(p, x) - target) == dq);
    } else {
        assert(b == c);
        assert(se == c * (xtal - rem)) by (nonlinear_arith)
            requires
                se == scaled_error(rem, xtal, b, c),
                b == c,
                rem < xtal,
                c >= 1,
        ;
        assert((xtal - rem) * m < xtal) by (nonlinear_arith)
            requires
                se == c * (xtal - rem),
                se * m < xtal * c,
                c >= 1,
        ;
        assert(xtal - rem <= xtal / m) by (nonlinear_arith)
            requires
                (xtal - rem) * m < xtal,
                m > 0,
        ;
        let q = (xtal * (m - 1)) / m;
        assert(vco_of(p, x) == a * xtal + q) by (nonlinear_arith)
            requires
                vco_of(p, x) == (x * p.a * p.c + x * p.b) / (p.c as int),
                p.a == a,
                p.b == m - 1,
                p.c == m,
                x == xtal,
                q == (xtal * (m - 1)) / m,
                m > 0,
        ;
        assert(q * m <= xtal * (m - 1) < q * m + m) by (nonlinear_arith)
            requires
                m > 0,
                q == (xtal * (m - 1)) / m,
        ;
        assert(xtal - q <= xtal / m + 1) by (nonlinear_arith)
            requires
                q * m <= xtal * (m - 1) < q * m + m,
                m > 0,
        ;
        assert(q <= rem) by (nonlinear_arith)
            requires
                q * m <= xtal * (m - 1),
                (xtal - rem) * m < xtal,
                m > 0,
        ;
        assert(abs_int(vco_of(p, x) - target) == rem - q);
        // Every proper fraction lies at or below (m - 1)/m, which lies below
        // rem/xtal, so (m - 1)/m is the closest of them.
        let e1 = scaled_error(rem, xtal, m - 1, m);
        assert(e1 == rem * m - (m - 1) * xtal) by (nonlinear_arith)
            requires
                e1 == scaled_error(rem, xtal, m - 1, m),
                (xtal - rem) * m < xtal,
        ;
        assert forall|b2: int, c2: int| 0 <= b2 < c2 <= m implies e1 * c2 <= #[trigger] scaled_error(
            rem,
            xtal,
            b2,
            c2,
        ) * m by {
            let e2 = scaled_error(rem, xtal, b2, c2);
            assert(rem * c2 > (c2 - 1) * xtal) by (nonlinear_arith)
                requires
                    (xtal - rem) * m < xtal,
                    1 <= c2 <= m,
                    xtal > 0,
            ;
            assert(b2 * xtal <= (c2 - 1) * xtal) by (nonlinear_arith)
                requires
                    b2 <= c2 - 1,
                    xtal > 0,
            ;
            assert(e2 == rem * c2 - b2 * xtal);
            assert(b2 * m <= (m - 1) * c2) by (nonlinear_arith)
                requires
                    0 <= b2 <= c2 - 1,
                    c2 <= m,
                    m == 1_048_575,
            ;
            assert(e1 * c2 <= e2 * m) by (nonlinear_arith)
                requires
                    e1 == rem * m - (m - 1) * xtal,
                    e2 == rem * c2 - b2 * xtal,
                    b2 * m <= (m - 1) * c2,
                    xtal > 0,
            ;
        }
    }
}

/// Whether b/c is a closest fraction to num/den among the proper fractions
/// (numerator from 0 to below the denominator) with denominators up to
/// `max_c`.
pub open spec fn is_best_proper_fraction(num: int, den: int, max_c: int, b: int, c: int) -> bool {
    &&& 1 <= c <= max_c
    &&& 0 <= b < c
    &&& forall|b2: int, c2: int|
        0 <= b2 < c2 <= max_c ==> scaled_error(num, den, b, c) * c2 <= #[trigger] scaled_error(
            num,
            den,
            b2,
            c2,
        ) * c
}

/// Calculate PLL parameters to achieve target VCO frequency
fn calculate_pll_params(xtal_hz: u64, target_vco: u64) -> (r: Option<PllParams>)
    requires
        xtal_hz > 0,
    ensures
        r == pll_params_for(xtal_hz, target_vco),
        r is Some <==> 15 <= target_vco / xtal_hz <= 90,
        r matches Some(p) ==> pll_valid(p),
        r matches Some(p) ==> abs_int(vco_of(p, xtal_hz) - target_vco) <= (xtal_hz as int) / (PllParams::MAX_C as int) + 1,
        r matches Some(p) ==> p.a == target_vco / xtal_hz,
        r matches Some(p) ==> (target_vco % xtal_hz == 0 ==> p == PllParams { a: p.a, b: 0, c: 1 }),
        r matches Some(p) ==> (target_vco % xtal_hz != 0 ==> is_best_proper_fraction(
            (target_vco % xtal_hz) as int,
            xtal_hz as int,
            PllParams::MAX_C as int,
            p.b as int,
            p.c as int,
        )),
        r is Some ==> 15 * xtal_hz <= target_vco,
{
    let a = target_vco / xtal_hz;
    if a < PllParams::MIN_A as u64 || a > PllParams::MAX_A as u64 {
        return None;
    }
    assert(15 * xtal_hz <= target_vco) by (nonlinear_arith)
        requires
            a == target_vco / xtal_hz,
            a >= 15,
            xtal_hz > 0,
    ;
    assert(a * xtal_hz <= target_vco) by (nonlinear_arith)
        requires
            a == target_vco / xtal_hz,
            xtal_hz > 0,
    ;
    let remainder = target_vco - a * xtal_hz;
    assert(remainder == target_vco % xtal_hz) by (nonlinear_arith)
        requires
            a == target_vco / xtal_hz,
            xtal_hz > 0,
            remainder == target_vco - a * xtal_hz,
    ;
    if remainder == 0 {
        assert(vco_of(PllParams { a: a as u32, b: 0, c: 1 }, xtal_hz) == (xtal_hz * a * 1 + xtal_hz * 0) / 1);
        assert((xtal_hz * a * 1 + xtal_hz * 0) / 1 == a * xtal_hz) by (nonlinear_arith);
        return Some(PllParams::integer(a as u32));
    }
    assert(remainder < xtal_hz) by (nonlinear_arith)
        requires
            a == target_vco / xtal_hz,
            xtal_hz > 0,
            remainder == target_vco - a * xtal_hz,
    ;
    let (b, c) = rational_approximation(remainder, xtal_hz, PllParams::MAX_C);
    // A best fraction of 1 is replaced by the largest proper fraction
    let p = if b < c {
        PllParams::fractional(a as u32, b, c)
    } else {
        PllParams::fractional(a as u32, PllParams::MAX_C - 1, PllParams::MAX_C)
    };
    proof {
        lemma_best_up_to(remainder as int, xtal_hz as int, 1_048_575);
        lemma_pll_error(xtal_hz, xtal_hz as int, target_vco as int, a as int, remainder as int, p);
    }
    Some(p)
}

/// Whether `k` is one of lo, lo + stride, lo + 2·stride, ...
pub open spec fn on_grid(k: int, lo: int, stride: int) -> bool {
    k >= lo && (k - lo) % stride == 0
}

/// Absolute value of an integer.
pub open spec fn abs_int(x: int) -> int {
    if x < 0 { -x } else { x }
}

/// Whether `r` is the first candidate with the smallest error among the
/// positions lo, lo + stride, ... up to hi, where position `k` offers
/// `cand(k)` with error `err` (and nothing when no candidate exists
/// anywhere).
pub open spec fn first_best<C>(
    cand: spec_fn(int) -> Option<C>,
    err: spec_fn(C) -> int,
    lo: int,
    hi: int,
    stride: int,
    r: Option<C>,
) -> bool {
    match r {
        None => forall|k: int|
            lo <= k <= hi && on_grid(k, lo, stride) ==> (#[trigger] cand(k)) is None,
        Some(c) => exists|k: int|
            #![trigger cand(k)]
            {
                &&& lo <= k <= hi
                &&& on_grid(k, lo, stride)
                &&& cand(k) == Some(c)
                &&& forall|j: int|
                    lo <= j < k && on_grid(j, lo, stride) && (#[trigger] cand(j)) is Some ==> abs_int(
                        err(cand(j)->0),
                    ) > abs_int(err(c))
                &&& forall|j: int|
                    k < j <= hi && on_grid(j, lo, stride) && (#[trigger] cand(j)) is Some ==> abs_int(
                        err(cand(j)->0),
                    ) >= abs_int(err(c))
            },
    }
}

/// A synthesis result: PLL setting, multisynth setting, output frequency
/// reached and its error against the target.
pub type Synthesis = (PllParams, MsParams, u64, i64);

/// Error of a synthesis result.
pub open spec fn synthesis_error(c: Synthesis) -> int {
    c.3 as int
}

/// Smallest integer multisynth divisor worth trying for `target_hz`.
pub open spec fn ms_lo(f_hz: u64) -> int {
    let x = VCO_MIN_HZ / f_hz;
    if x < 4 { 4 } else { x as int }
}

/// Largest integer multisynth divisor worth trying for `target_hz`.
pub open spec fn ms_hi(f_hz: u64) -> int {
    let x = VCO_MAX_HZ / f_hz;
    if x > 1800 { 1800 } else { x as int }
}

/// The synthesis through integer multisynth divisor `ms_a` (with R divider
/// 2^r_div): VCO at target·2^r·ms_a inside 600–900 MHz and a usable PLL.
#[verifier::opaque]
pub open spec fn synthesis_via(xtal_hz: u64, target_hz: u64, r_div: u8, ms_a: int) -> Option<Synthesis> {
    let vco = target_hz * pow2(r_div as nat) * ms_a;
    if VCO_MIN_HZ <= vco <= VCO_MAX_HZ {
        match pll_params_for(xtal_hz, vco as u64) {
            Some(pll) => {
                let ms = MsParams { a: ms_a as u32, b: 0, c: 1, r_div };
                let actual = output_of(ms, vco_of(pll, xtal_hz));
                Some((pll, ms, actual as u64, (actual - target_hz) as i64))
            },
            None => None,
        }
    } else {
        None
    }
}

/// Whether `r` is what the R-divider search finds: the first synthesis,
/// trying R = 2, 4, ..., 128 in turn and for each the divisors upward.
pub open spec fn first_r_divider_synthesis(xtal_hz: u64, target_hz: u64, r: Option<Synthesis>) -> bool {
    let usable = |rd: u8| ms_lo((target_hz * pow2(rd as nat)) as u64) <= 1800;
    let at = |rd: u8, k: int|
        usable(rd) && ms_lo((target_hz * pow2(rd as nat)) as u64) <= k <= ms_hi(
            (target_hz * pow2(rd as nat)) as u64,
        );
    match r {
        None => forall|rd: u8, k: int|
            1 <= rd <= 7 && at(rd, k) ==> (#[trigger] synthesis_via(xtal_hz, target_hz, rd, k)) is None,
        Some(c) => exists|rd: u8, k: int|
            #![trigger synthesis_via(xtal_hz, target_hz, rd, k)]
            {
                &&& 1 <= rd <= 7
                &&& at(rd, k)
                &&& synthesis_via(xtal_hz, target_hz, rd, k) == Some(c)
                &&& forall|rd2: u8, k2: int|
                    1 <= rd2 <= 7 && at(rd2, k2) && (rd2 < rd || (rd2 == rd && k2 < k)) ==> (
                    #[trigger] synthesis_via(xtal_hz, target_hz, rd2, k2)) is None
            },
    }
}

/// The integer-divisor synthesis tried `j` places below the largest divisor
/// `top`: divisor top - j, where the disallowed divisor 5 offers nothing.
/// Searching j = 0, 1, ... tries the highest VCO frequencies first.
pub open spec fn synthesis_from_top(xtal_hz: u64, target_hz: u64, top: int, j: int) -> Option<Synthesis> {
    if top - j == 5 {
        None
    } else {
        synthesis_via(xtal_hz, target_hz, 0u8, top - j)
    }
}

/// Size of the error of the synthesis `j` places below `top` (zero when
/// there is none).
pub open spec fn via_abs_error(xtal_hz: u64, target_hz: u64, top: int, k: int) -> int {
    match synthesis_from_top(xtal_hz, target_hz, top, k) {
        Some(c) => abs_int(c.3 as int),
        None => 0,
    }
}

/// After trying places lo, lo + stride, ... below `upto` (counted down from
/// divisor `top`), `best` is the first of them with the smallest error,
/// found at `bk`, or nothing when none tried so far worked.
pub open spec fn best_so_far(
    xtal_hz: u64,
    target_hz: u64,
    top: int,
    lo: int,
    upto: int,
    stride: int,
    best: Option<Synthesis>,
    bk: int,
) -> bool {
    match best {
        None => forall|j: int|
            lo <= j < upto && on_grid(j, lo, stride) ==> (#[trigger] synthesis_from_top(xtal_hz, target_hz, top,
                j,
            )) is None,
        Some(b) => {
            &&& lo <= bk < upto
            &&& on_grid(bk, lo, stride)
            &&& synthesis_from_top(xtal_hz, target_hz, top, bk) == Some(b)
            &&& forall|j: int|
                lo <= j < bk && on_grid(j, lo, stride) && (#[trigger] synthesis_from_top(xtal_hz, target_hz, top,
                    j,
                )) is Some ==> via_abs_error(xtal_hz, target_hz, top, j) > abs_int(b.3 as int)
            &&& forall|j: int|
                bk < j < upto && on_grid(j, lo, stride) && (#[trigger] synthesis_from_top(xtal_hz, target_hz, top,
                    j,
                )) is Some ==> via_abs_error(xtal_hz, target_hz, top, j) >= abs_int(b.3 as int)
        },
    }
}

/// Trying the next divisor `k` keeps `best_so_far`: a strictly smaller
/// error replaces the best, anything else leaves it.
proof fn lemma_best_so_far_step(
    xtal_hz: u64,
    target_hz: u64,
    top: int,
    lo: int,
    k: int,
    stride: int,
    best: Option<Synthesis>,
    bk: int,
)
    requires
        stride >= 1,
        lo <= k,
        on_grid(k, lo, stride),
        best_so_far(xtal_hz, target_hz, top, lo, k, stride, best, bk),
    ensures
        ({
            let c = synthesis_from_top(xtal_hz, target_hz, top, k);
            let take = c is Some && (best is None || via_abs_error(xtal_hz, target_hz, top, k) < abs_int(
                (best->0).3 as int,
            ));
            if take {
                best_so_far(xtal_hz, target_hz, top, lo, k + stride, stride, c, k)
            } else {
                best_so_far(xtal_hz, target_hz, top, lo, k + stride, stride, best, bk)
            }
        }),
{
    assert forall|j: int| k < j < k + stride implies !#[trigger] on_grid(j, lo, stride) by {
        assert((j - lo) % stride != 0) by (nonlinear_arith)
            requires
                (k - lo) % stride == 0,
                k < j < k + stride,
                stride >= 1,
        ;
    }
}

/// The best found over the whole range is the first best synthesis.
#[verifier::rlimit(40)]
proof fn lemma_best_so_far_done(
    xtal_hz: u64,
    target_hz: u64,
    top: int,
    lo: int,
    hi: int,
    upto: int,
    stride: int,
    best: Option<Synthesis>,
    bk: int,
)
    requires
        stride >= 1,
        best_so_far(xtal_hz, target_hz, top, lo, upto, stride, best, bk),
        upto > hi || (best matches Some(b) && b.3 == 0),
        best is Some ==> bk <= hi,
    ensures
        first_best(
            |k: int| synthesis_from_top(xtal_hz, target_hz, top, k),
            |c: Synthesis| synthesis_error(c),
            lo,
            hi,
            stride,
            best,
        ),
{
    let cand = |k: int| synthesis_from_top(xtal_hz, target_hz, top, k);
    let err = |c: Synthesis| synthesis_error(c);
    match best {
        None => {
            assert forall|k: int| lo <= k <= hi && on_grid(k, lo, stride) implies (#[trigger] cand(k)) is None by {
                assert(synthesis_from_top(xtal_hz, target_hz, top, k) is None);
            }
        },
        Some(b) => {
            assert(cand(bk) == Some(b));
            assert forall|j: int|
                lo <= j < bk && on_grid(j, lo, stride) && (#[trigger] cand(j)) is Some implies abs_int(
                    err(cand(j)->0),
                ) > abs_int(err(b)) by {
                assert(synthesis_from_top(xtal_hz, target_hz, top, j) is Some);
                assert(via_abs_error(xtal_hz, target_hz, top, j) > abs_int(b.3 as int));
            }
            assert forall|j: int|
                bk < j <= hi && on_grid(j, lo, stride) && (#[trigger] cand(j)) is Some implies abs_int(
                    err(cand(j)->0),
                ) >= abs_int(err(b)) by {
                assert(synthesis_from_top(xtal_hz, target_hz, top, j) is Some);
                if j < upto {
                    assert(via_abs_error(xtal_hz, target_hz, top, j) >= abs_int(b.3 as int));
                }
            }
            assert(lo <= bk <= hi);
            assert(on_grid(bk, lo, stride));
        },
    }
}

/// Calculate frequency synthesis parameters for a target frequency
///
/// Returns (PLL params, Multisynth params, actual frequency in Hz, error in Hz).
/// Integer multisynth divisors are tried from the highest VCO frequency
/// down, skipping the disallowed divisor 5; the first with the smallest
/// error wins, so an exact setting is the one with the highest VCO.
pub fn calculate_frequency(xtal_hz: u64, target_hz: u64) -> (r: Option<Synthesis>)
    requires
        xtal_hz > 0 || target_hz == 0,
    ensures
        target_hz == 0 ==> r is None,
        target_hz > 0 && ms_lo(target_hz) > 1800 ==> first_r_divider_synthesis(xtal_hz, target_hz, r),
        target_hz > 0 && ms_lo(target_hz) <= 1800 ==> first_best(
            |j: int| synthesis_from_top(xtal_hz, target_hz, ms_hi(target_hz), j),
            |c: Synthesis| synthesis_error(c),
            0,
            ms_hi(target_hz) - ms_lo(target_hz),
            1,
            r,
        ),
        r matches Some(c) ==> pll_valid(c.0) && ms_valid(c.1) && c.1.b == 0 && c.1.c == 1,
{
    if target_hz == 0 {
        return None;
    }
    let ms_min_raw = VCO_MIN_HZ / target_hz;
    let ms_min: u64 = if ms_min_raw < MsParams::MIN_A as u64 { MsParams::MIN_A as u64 } else { ms_min_raw };
    let ms_max_raw = VCO_MAX_HZ / target_hz;
    let ms_max: u64 = if ms_max_raw > MsParams::MAX_A as u64 { MsParams::MAX_A as u64 } else { ms_max_raw };

    if ms_min > MsParams::MAX_A as u64 {
        return calculate_with_r_divider(xtal_hz, target_hz);
    }
    if ms_max < ms_min {
        proof {
            lemma_best_so_far_done(xtal_hz, target_hz, ms_max as int, 0, ms_max - ms_min, 0, 1, None, 0);
        }
        return None;
    }

    let mut best: Option<Synthesis> = None;
    let ghost mut best_k: int = 0;
    proof {
        vstd::arithmetic::power2::lemma2_to64();
    }
    let span = ms_max - ms_min;
    let mut j: u64 = 0;
    while j <= span
        invariant
            xtal_hz > 0,
            target_hz > 0,
            ms_min == ms_lo(target_hz),
            ms_max == ms_hi(target_hz),
            4 <= ms_min <= ms_max <= 1800,
            span == ms_max - ms_min,
            j <= span + 1,
            pow2(0) == 1,
            best_so_far(xtal_hz, target_hz, ms_max as int, 0, j as int, 1, best, best_k),
            best matches Some(b) ==> i64::MIN < b.3,
            best matches Some(b) ==> pll_valid(b.0) && ms_valid(b.1) && b.1.b == 0 && b.1.c == 1,
        decreases span + 1 - j,
    {
        let ms_a = ms_max - j;
        proof {
            lemma_best_so_far_step(xtal_hz, target_hz, ms_max as int, 0, j as int, 1, best, best_k);
        }
        if ms_a != 5 {
            assert(target_hz * ms_a <= VCO_MAX_HZ) by (nonlinear_arith)
                requires
                    ms_a <= ms_max,
                    ms_max <= VCO_MAX_HZ / target_hz,
                    target_hz > 0,
            ;
            assert(target_hz * pow2(0) * ms_a == target_hz * ms_a);
            let cand_opt = synthesis_candidate(xtal_hz, target_hz, 0, ms_a);
            assert(cand_opt == synthesis_from_top(xtal_hz, target_hz, ms_max as int, j as int));
            match cand_opt {
                Some(c) => {
                    let should_update = match best {
                        None => true,
                        Some(b) => abs_i64(c.3) < abs_i64(b.3),
                    };
                    if should_update {
                        best = Some(c);
                        proof {
                            best_k = j as int;
                        }
                        if c.3 == 0 {
                            proof {
                                lemma_best_so_far_done(xtal_hz, target_hz, ms_max as int, 0, span as int, j + 1, 1, best, best_k);
                            }
                            return best;
                        }
                    }
                },
                None => {},
            }
        } else {
            assert(synthesis_from_top(xtal_hz, target_hz, ms_max as int, j as int) is None);
        }
        j = j + 1;
    }
    proof {
        lemma_best_so_far_done(xtal_hz, target_hz, ms_max as int, 0, span as int, j as int, 1, best, best_k);
    }
    best
}

/// A synthesis built from a valid PLL setting on a crystal of at most
/// 60 MHz and an integer divisor of at least one stays below 5.46 GHz.
proof fn lemma_synthesis_bounds(pll: PllParams, xtal_hz: u64, ms: MsParams)
    requires
        pll_valid(pll),
        xtal_hz <= 60_000_000,
        ms.b == 0,
        ms.c == 1,
        ms.a >= 1,
        ms.r_div < 64,
    ensures
        0 <= vco_of(pll, xtal_hz) <= 5_460_000_000,
        0 <= output_of(ms, vco_of(pll, xtal_hz)) <= vco_of(pll, xtal_hz),
        xtal_hz * pll.a * pll.c + xtal_hz * pll.b <= u64::MAX,
{
    assert(xtal_hz * pll.a * pll.c + xtal_hz * pll.b <= xtal_hz * 91 * pll.c) by (nonlinear_arith)
        requires
            pll.a <= 90,
            pll.b < pll.c,
    ;
    assert(xtal_hz * 91 * pll.c <= 60_000_000 * 91 * 1_048_575) by (nonlinear_arith)
        requires
            xtal_hz <= 60_000_000,
            pll.c <= 1_048_575,
    ;
    assert(vco_of(pll, xtal_hz) <= xtal_hz * 91) by (nonlinear_arith)
        requires
            xtal_hz * pll.a * pll.c + xtal_hz * pll.b <= xtal_hz * 91 * pll.c,
            pll.c >= 1,
            vco_of(pll, xtal_hz) == (xtal_hz * pll.a * pll.c + xtal_hz * pll.b) / (pll.c as int),
    ;
    assert(vco_of(pll, xtal_hz) >= 0) by (nonlinear_arith)
        requires
            pll.c >= 1,
            vco_of(pll, xtal_hz) == (xtal_hz * pll.a * pll.c + xtal_hz * pll.b) / (pll.c as int),
    ;
    let v = vco_of(pll, xtal_hz);
    vstd::arithmetic::power2::lemma_pow2_pos(ms.r_div as nat);
    let q = (v * ms.c) / (ms.a * ms.c + ms.b);
    assert(0 <= q <= v) by (nonlinear_arith)
        requires
            v >= 0,
            ms.c == 1,
            ms.b == 0,
            ms.a >= 1,
            q == (v * ms.c) / (ms.a * ms.c + ms.b),
    ;
    let d = pow2(ms.r_div as nat) as int;
    assert(0 <= q / d <= q) by (nonlinear_arith)
        requires
            q >= 0,
            d >= 1,
    ;
}

/// The synthesis through integer divisor `ms_a` with R divider 2^r_div
fn synthesis_candidate(xtal_hz: u64, target_hz: u64, r_div: u8, ms_a: u64) -> (r: Option<Synthesis>)
    requires
        xtal_hz > 0,
        r_div <= 7,
        1 <= ms_a <= 1800,
        target_hz * pow2(r_div as nat) * ms_a <= VCO_MAX_HZ,
    ensures
        r == synthesis_via(xtal_hz, target_hz, r_div, ms_a as int),
        r matches Some(c) ==> i64::MIN < c.3,
        r matches Some(c) ==> pll_valid(c.0) && c.1 == (MsParams { a: ms_a as u32, b: 0, c: 1, r_div }),
{
    let shift = r_div as u64;
    proof {
        vstd::bits::lemma_u64_pow2_no_overflow(shift as nat);
        vstd::bits::lemma_u64_shl_is_mul(1u64, shift);
        vstd::arithmetic::power2::lemma2_to64();
        vstd::arithmetic::power2::lemma_pow2_pos(r_div as nat);
    }
    let r = 1u64 << shift;
    reveal(synthesis_via);
    assert(target_hz * r * ms_a <= VCO_MAX_HZ);
    assert(target_hz <= VCO_MAX_HZ && target_hz * r <= VCO_MAX_HZ) by (nonlinear_arith)
        requires
            target_hz * r * ms_a <= VCO_MAX_HZ,
            ms_a >= 1,
            r >= 1,
    ;
    let vco_required = target_hz * r * ms_a;
    if vco_required >= VCO_MIN_HZ && vco_required <= VCO_MAX_HZ {
        match calculate_pll_params(xtal_hz, vco_required) {
            Some(pll) => {
                let ms = MsParams::integer_with_r(ms_a as u32, r_div);
                proof {
                    lemma_synthesis_bounds(pll, xtal_hz, ms);
                }
                let actual_vco = pll.vco_frequency(xtal_hz);
                let actual_freq = ms.output_frequency(actual_vco);
                let error = actual_freq as i64 - target_hz as i64;
                Some((pll, ms, actual_freq, error))
            },
            None => None,
        }
    } else {
        None
    }
}

/// Calculate frequency with R divider for low frequencies
fn calculate_with_r_divider(xtal_hz: u64, target_hz: u64) -> (r: Option<Synthesis>)
    requires
        xtal_hz > 0,
        target_hz > 0,
        ms_lo(target_hz) > 1800,
    ensures
        first_r_divider_synthesis(xtal_hz, target_hz, r),
        r matches Some(c) ==> pll_valid(c.0) && ms_valid(c.1) && c.1.b == 0 && c.1.c == 1,
{
    assert(target_hz <= 333_333) by (nonlinear_arith)
        requires
            target_hz > 0,
            VCO_MIN_HZ / target_hz > 1800,
    ;
    let ghost usable = |rd: u8| ms_lo((target_hz * pow2(rd as nat)) as u64) <= 1800;
    let ghost at = |rd: u8, k: int|
        usable(rd) && ms_lo((target_hz * pow2(rd as nat)) as u64) <= k <= ms_hi(
            (target_hz * pow2(rd as nat)) as u64,
        );
    let mut r_div: u8 = 1;
    while r_div <= 7
        invariant
            xtal_hz > 0,
            0 < target_hz <= 333_333,
            1 <= r_div <= 8,
            usable == (|rd: u8| ms_lo((target_hz * pow2(rd as nat)) as u64) <= 1800),
            at == (|rd: u8, k: int|
                usable(rd) && ms_lo((target_hz * pow2(rd as nat)) as u64) <= k <= ms_hi(
                    (target_hz * pow2(rd as nat)) as u64,
                )),
            forall|rd2: u8, k2: int|
                1 <= rd2 < r_div && at(rd2, k2) ==> (#[trigger] synthesis_via(
                    xtal_hz,
                    target_hz,
                    rd2,
                    k2,
                )) is None,
        decreases 8 - r_div,
    {
        let shift = r_div as u64;
        proof {
            vstd::bits::lemma_u64_pow2_no_overflow(shift as nat);
            vstd::bits::lemma_u64_shl_is_mul(1u64, shift);
            vstd::arithmetic::power2::lemma2_to64();
            vstd::arithmetic::power2::lemma_pow2_strictly_increases(r_div as nat, 8);
        }
        let r = 1u64 << shift;
        assert(1 <= r <= 128);
        assert(target_hz * r <= 333_333 * 128 && target_hz * r >= 1) by (nonlinear_arith)
            requires
                1 <= target_hz <= 333_333,
                1 <= r <= 128,
        ;
        let effective_target = target_hz * r;
        assert(effective_target == target_hz * pow2(r_div as nat));
        assert(VCO_MIN_HZ / effective_target >= 14) by (nonlinear_arith)
            requires
                1 <= effective_target <= 333_333 * 128,
        ;

        let ms_min_raw = VCO_MIN_HZ / effective_target;
        let ms_min: u64 = if ms_min_raw < MsParams::MIN_A as u64 { MsParams::MIN_A as u64 } else { ms_min_raw };
        let ms_max_raw = VCO_MAX_HZ / effective_target;
        let ms_max: u64 = if ms_max_raw > MsParams::MAX_A as u64 { MsParams::MAX_A as u64 } else { ms_max_raw };

        if ms_min <= MsParams::MAX_A as u64 {
            let mut ms_a = ms_min;
            while ms_a <= ms_max
                invariant
                    xtal_hz > 0,
                    0 < target_hz <= 333_333,
                    1 <= r_div <= 7,
                    effective_target == target_hz * pow2(r_div as nat),
                    effective_target >= 1,
                    ms_min == ms_lo(effective_target),
                    ms_max == ms_hi(effective_target),
                    14 <= ms_min <= 1800,
                    ms_min <= ms_a,
                    ms_a <= ms_max + 1 || ms_a == ms_min,
                    usable == (|rd: u8| ms_lo((target_hz * pow2(rd as nat)) as u64) <= 1800),
                    at == (|rd: u8, k: int|
                        usable(rd) && ms_lo((target_hz * pow2(rd as nat)) as u64) <= k <= ms_hi(
                            (target_hz * pow2(rd as nat)) as u64,
                        )),
                    forall|rd2: u8, k2: int|
                        1 <= rd2 < r_div && at(rd2, k2) ==> (#[trigger] synthesis_via(
                            xtal_hz,
                            target_hz,
                            rd2,
                            k2,
                        )) is None,
                    forall|k2: int|
                        ms_min <= k2 < ms_a ==> (#[trigger] synthesis_via(xtal_hz, target_hz, r_div, k2))
                            is None,
                decreases ms_max + 1 - ms_a,
            {
                assert(effective_target * ms_a <= VCO_MAX_HZ) by (nonlinear_arith)
                    requires
                        ms_a <= ms_max,
                        ms_max <= VCO_MAX_HZ / effective_target,
                        effective_target > 0,
                ;
                if let Some(res) = synthesis_candidate(xtal_hz, target_hz, r_div, ms_a) {
                    return Some(res);
                }
                ms_a = ms_a + 1;
            }
        }
        r_div = r_div + 1;
    }
    None
}

/// A quadrature synthesis result: PLL setting, multisynth setting, LO
/// frequency reached, its error against the target, and the CLK1 phase
/// offset.
pub type QuadSynthesis = (PllParams, MsParams, u64, i64, u8);

/// Smallest even divisor tried for quadrature output at four times the LO
/// frequency: max(600 MHz / f4, 4) rounded up to even.
pub open spec fn quad_lo(f4_hz: u64) -> int {
    let x = ms_lo(f4_hz);
    x + x % 2
}

/// Largest even divisor tried for quadrature output: min(900 MHz / f4, 1800)
/// rounded down to even.
pub open spec fn quad_hi(f4_hz: u64) -> int {
    let y = ms_hi(f4_hz);
    y - y % 2
}

/// The quadrature synthesis through even divisor `ms_a`: VCO at
/// 4·target·ms_a inside 600–900 MHz and a usable PLL; the LO is a quarter
/// of the divided output and CLK1 is offset by ms_a / 4 (modulo 256).
#[verifier::opaque]
pub open spec fn quadrature_via(xtal_hz: u64, target_hz: u64, ms_a: int) -> Option<QuadSynthesis> {
    let vco = target_hz * 4 * ms_a;
    if VCO_MIN_HZ <= vco <= VCO_MAX_HZ {
        match pll_params_for(xtal_hz, vco as u64) {
            Some(pll) => {
                let ms = MsParams { a: ms_a as u32, b: 0, c: 1, r_div: 0 };
                let actual = output_of(ms, vco_of(pll, xtal_hz)) / 4;
                Some((pll, ms, actual as u64, (actual - target_hz) as i64, (ms_a / 4) as u8))
            },
            None => None,
        }
    } else {
        None
    }
}

/// The quadrature synthesis through even divisor `ms_a`
fn quadrature_candidate(xtal_hz: u64, target_hz: u64, ms_a: u64) -> (r: Option<QuadSynthesis>)
    requires
        xtal_hz > 0,
        1 <= ms_a <= 1800,
        target_hz * 4 * ms_a <= VCO_MAX_HZ,
    ensures
        r == quadrature_via(xtal_hz, target_hz, ms_a as int),
        r matches Some(c) ==> i64::MIN < c.3,
        r matches Some(c) ==> pll_valid(c.0) && c.1 == (MsParams { a: ms_a as u32, b: 0, c: 1, r_div: 0 })
            && c.4 == (ms_a / 4) as u8,
{
    reveal(quadrature_via);
    proof {
        vstd::arithmetic::power2::lemma2_to64();
    }
    assert(target_hz <= VCO_MAX_HZ && target_hz * 4 <= VCO_MAX_HZ) by (nonlinear_arith)
        requires
            target_hz * 4 * ms_a <= VCO_MAX_HZ,
            ms_a >= 1,
    ;
    let target_4x = target_hz * 4;
    let vco_required = target_4x * ms_a;
    if vco_required >= VCO_MIN_HZ && vco_required <= VCO_MAX_HZ {
        match calculate_pll_params(xtal_hz, vco_required) {
            Some(pll) => {
                let ms = MsParams::integer(ms_a as u32);
                proof {
                    lemma_synthesis_bounds(pll, xtal_hz, ms);
                }
                let actual_vco = pll.vco_frequency(xtal_hz);
                let actual_freq = ms.output_frequency(actual_vco) / 4;
                let error = actual_freq as i64 - target_hz as i64;
                let phase = (ms_a / 4) as u8;
                Some((pll, ms, actual_freq, error, phase))
            },
            None => None,
        }
    } else {
        None
    }
}

/// Size of the error of the quadrature synthesis through divisor `k` (zero
/// when there is none).
pub open spec fn quad_abs_error(xtal_hz: u64, target_hz: u64, k: int) -> int {
    match quadrature_via(xtal_hz, target_hz, k) {
        Some(c) => abs_int(c.3 as int),
        None => 0,
    }
}

/// After trying even divisors lo, lo + stride, ... below `upto`, `best` is
/// the first quadrature synthesis with the smallest error, found at `bk`, or nothing when no
/// divisor tried so far worked.
pub open spec fn quad_best_so_far(
    xtal_hz: u64,
    target_hz: u64,
    lo: int,
    upto: int,
    stride: int,
    best: Option<QuadSynthesis>,
    bk: int,
) -> bool {
    match best {
        None => forall|j: int|
            lo <= j < upto && on_grid(j, lo, stride) ==> (#[trigger] quadrature_via(xtal_hz, target_hz, j)) is None,
        Some(b) => {
            &&& lo <= bk < upto
            &&& on_grid(bk, lo, stride)
            &&& quadrature_via(xtal_hz, target_hz, bk) == Some(b)
            &&& forall|j: int|
                lo <= j < bk && on_grid(j, lo, stride) && (#[trigger] quadrature_via(xtal_hz, target_hz, j)) is Some ==> quad_abs_error(xtal_hz, target_hz, j) > abs_int(b.3 as int)
            &&& forall|j: int|
                bk < j < upto && on_grid(j, lo, stride) && (#[trigger] quadrature_via(xtal_hz, target_hz, j)) is Some ==> quad_abs_error(xtal_hz, target_hz, j) >= abs_int(b.3 as int)
        },
    }
}

/// Trying the next divisor `k` keeps `best_so_far`: a strictly smaller
/// error replaces the best, anything else leaves it.
proof fn lemma_quad_best_so_far_step(
    xtal_hz: u64,
    target_hz: u64,
    lo: int,
    k: int,
    stride: int,
    best: Option<QuadSynthesis>,
    bk: int,
)
    requires
        stride >= 1,
        lo <= k,
        on_grid(k, lo, stride),
        quad_best_so_far(xtal_hz, target_hz, lo, k, stride, best, bk),
    ensures
        ({
            let c = quadrature_via(xtal_hz, target_hz, k);
            let take = c is Some && (best is None || quad_abs_error(xtal_hz, target_hz, k) < abs_int(
                (best->0).3 as int,
            ));
            if take {
                quad_best_so_far(xtal_hz, target_hz, lo, k + stride, stride, c, k)
            } else {
                quad_best_so_far(xtal_hz, target_hz, lo, k + stride, stride, best, bk)
            }
        }),
{
    assert forall|j: int| k < j < k + stride implies !#[trigger] on_grid(j, lo, stride) by {
        assert((j - lo) % stride != 0) by (nonlinear_arith)
            requires
                (k - lo) % stride == 0,
                k < j < k + stride,
                stride >= 1,
        ;
    }
}

/// The best found over the whole range is the first best quadrature
/// synthesis.
#[verifier::rlimit(40)]
proof fn lemma_quad_best_so_far_done(
    xtal_hz: u64,
    target_hz: u64,
    lo: int,
    hi: int,
    upto: int,
    stride: int,
    best: Option<QuadSynthesis>,
    bk: int,
)
    requires
        stride >= 1,
        quad_best_so_far(xtal_hz, target_hz, lo, upto, stride, best, bk),
        upto > hi || (best matches Some(b) && b.3 == 0),
        best is Some ==> bk <= hi,
    ensures
        first_best(
            |k: int| quadrature_via(xtal_hz, target_hz, k),
            |c: QuadSynthesis| c.3 as int,
            lo,
            hi,
            stride,
            best,
        ),
{
    let cand = |k: int| quadrature_via(xtal_hz, target_hz, k);
    let err = |c: QuadSynthesis| c.3 as int;
    match best {
        None => {
            assert forall|k: int| lo <= k <= hi && on_grid(k, lo, stride) implies (#[trigger] cand(k)) is None by {
                assert(quadrature_via(xtal_hz, target_hz, k) is None);
            }
        },
        Some(b) => {
            assert(cand(bk) == Some(b));
            assert forall|j: int|
                lo <= j < bk && on_grid(j, lo, stride) && (#[trigger] cand(j)) is Some implies abs_int(
                    err(cand(j)->0),
                ) > abs_int(err(b)) by {
                assert(quadrature_via(xtal_hz, target_hz, j) is Some);
                assert(quad_abs_error(xtal_hz, target_hz, j) > abs_int(b.3 as int));
            }
            assert forall|j: int|
                bk < j <= hi && on_grid(j, lo, stride) && (#[trigger] cand(j)) is Some implies abs_int(
                    err(cand(j)->0),
                ) >= abs_int(err(b)) by {
                assert(quadrature_via(xtal_hz, target_hz, j) is Some);
                if j < upto {
                    assert(quad_abs_error(xtal_hz, target_hz, j) >= abs_int(b.3 as int));
                }
            }
            assert(lo <= bk <= hi);
            assert(on_grid(bk, lo, stride));
        },
    }
}

/// Calculate quadrature output parameters
/// Returns parameters for generating I and Q clocks with 90° phase difference
///
/// For quadrature operation, the multisynth divisor must be an even integer.
/// The phase offset is set by programming the CLK1 phase register.
pub fn calculate_quadrature(xtal_hz: u64, target_hz: u64) -> (r: Option<QuadSynthesis>)
    requires
        xtal_hz > 0,
        target_hz > 0,
        target_hz * 4 <= u64::MAX,
    ensures
        is_quadrature_choice(xtal_hz, target_hz, r),
{
    let target_4x = target_hz * 4;

    let lo_raw = VCO_MIN_HZ / target_4x;
    let lo: u64 = if lo_raw < MsParams::MIN_A as u64 { MsParams::MIN_A as u64 } else { lo_raw };
    assert(lo < 0xffff_ffff_ffff_ffff);
    // Round up to even
    let ms_min = lo + lo % 2;
    let hi_raw = VCO_MAX_HZ / target_4x;
    let hi: u64 = if hi_raw > MsParams::MAX_A as u64 { MsParams::MAX_A as u64 } else { hi_raw };
    assert((hi & !1u64) == (hi - hi % 2) as u64) by (bit_vector);
    let ms_max = hi & !1;

    if ms_min > MsParams::MAX_A as u64 {
        return None;
    }

    let mut best: Option<QuadSynthesis> = None;
    let ghost mut best_k: int = 0;
    let mut ms_a = ms_min;
    while ms_a <= ms_max
        invariant
            xtal_hz > 0,
            target_hz > 0,
            target_4x == target_hz * 4,
            ms_min == quad_lo(target_4x),
            ms_max == quad_hi(target_4x),
            ms_max <= 1800,
            ms_min <= ms_a,
            on_grid(ms_a as int, ms_min as int, 2),
            ms_a <= ms_max + 2 || ms_a == ms_min,
            quad_best_so_far(xtal_hz, target_hz, ms_min as int, ms_a as int, 2, best, best_k),
            best matches Some(b) ==> i64::MIN < b.3,
            ms_min % 2 == 0,
            best matches Some(b) ==> pll_valid(b.0) && ms_valid(b.1) && b.1.b == 0 && b.1.c == 1 && b.1.r_div == 0
                && b.1.a % 2 == 0 && b.4 == (b.1.a / 4) as u8,
        decreases ms_max + 2 - ms_a,
    {
        assert(target_4x * ms_a <= VCO_MAX_HZ) by (nonlinear_arith)
            requires
                ms_a <= ms_max,
                ms_max <= VCO_MAX_HZ / target_4x,
                target_4x > 0,
        ;
        let cand_opt = quadrature_candidate(xtal_hz, target_hz, ms_a);
        proof {
            lemma_quad_best_so_far_step(xtal_hz, target_hz, ms_min as int, ms_a as int, 2, best, best_k);
        }
        match cand_opt {
            Some(c) => {
                let should_update = match best {
                    None => true,
                    Some(b) => abs_i64(c.3) < abs_i64(b.3),
                };
                if should_update {
                    best = Some(c);
                    proof {
                        best_k = ms_a as int;
                    }
                    if c.3 == 0 {
                        proof {
                            lemma_quad_best_so_far_done(xtal_hz, target_hz, ms_min as int, ms_max as int, ms_a + 2, 2, best, best_k);
                        }
                        return best;
                    }
                }
            },
            None => {},
        }
        ms_a = ms_a + 2;
    }
    proof {
        lemma_quad_best_so_far_done(xtal_hz, target_hz, ms_min as int, ms_max as int, ms_a as int, 2, best, best_k);
    }
    best
}

/// Whether `r` is the quadrature setting for `target_hz`: trying the even
/// divisors from max(600 MHz / 4f, 4) (rounded up to even) to
/// min(900 MHz / 4f, 1800) (rounded down to even), the first with the
/// smallest LO error, with a valid PLL, an even integer multisynth divisor
/// and the CLK1 phase offset a quarter of it; nothing when no even divisor
/// works.
pub open spec fn is_quadrature_choice(xtal_hz: u64, target_hz: u64, r: Option<QuadSynthesis>) -> bool {
    &&& quad_lo((target_hz * 4) as u64) > 1800 ==> r is None
    &&& quad_lo((target_hz * 4) as u64) <= 1800 ==> first_best(
        |k: int| quadrature_via(xtal_hz, target_hz, k),
        |c: QuadSynthesis| c.3 as int,
        quad_lo((target_hz * 4) as u64),
        quad_hi((target_hz * 4) as u64),
        2,
        r,
    )
    &&& r matches Some(c) ==> pll_valid(c.0) && ms_valid(c.1) && c.1.b == 0 && c.1.c == 1 && c.1.r_div == 0
        && c.1.a % 2 == 0 && c.4 == (c.1.a / 4) as u8
}

/// Absolute value of a 64-bit error that is far from the type's limits
fn abs_i64(x: i64) -> (r: i64)
    requires
        x > i64::MIN,
    ensures
        r == abs_int(x as int),
{
    if x < 0 { -x } else { x }
}

} // verus!
