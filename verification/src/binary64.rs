//! IEEE 754 double-precision numbers, kept as their bit pattern.
//!
//! Playback positions and decibel gains arrive as doubles. The rules that
//! read them only test for finiteness and compare against fixed bounds, so
//! they work on the bits; `scaled` gives the number that a pattern stands for.

use vstd::arithmetic::power2::*;
use vstd::prelude::*;

verus! {

/// A double-precision number, by its bit pattern.
#[derive(Clone, Copy, Debug, PartialEq, Eq, Structural)]
pub struct Binary64 {
    pub bits: u64,
}

/// Pattern of positive infinity; magnitudes above it are not numbers.
pub const INFINITY_MAGNITUDE: u64 = 0x7ff0_0000_0000_0000;

/// The sign bit alone.
pub const SIGN_BIT: u64 = 0x8000_0000_0000_0000;

/// Weight of the implicit leading significand bit: two to the 52nd.
pub const HIDDEN_BIT: u64 = 0x10_0000_0000_0000;

/// The number of finite magnitude `m`, in units of two to the minus 1074th.
pub open spec fn scaled_magnitude(m: nat) -> nat {
    let exponent = m / (HIDDEN_BIT as nat);
    let fraction = m % (HIDDEN_BIT as nat);
    if exponent == 0 {
        fraction
    } else {
        ((HIDDEN_BIT as nat) + fraction) * pow2((exponent - 1) as nat)
    }
}

/// One, in units of two to the minus 1074th.
pub open spec fn scaled_one() -> nat {
    pow2(1074)
}

impl Binary64 {
    pub open spec fn negative(self) -> bool {
        self.bits >= SIGN_BIT
    }

    /// The pattern without its sign.
    pub open spec fn magnitude(self) -> nat {
        if self.negative() {
            (self.bits - SIGN_BIT) as nat
        } else {
            self.bits as nat
        }
    }

    pub open spec fn finite(self) -> bool {
        self.magnitude() < INFINITY_MAGNITUDE
    }

    pub open spec fn not_a_number(self) -> bool {
        self.magnitude() > INFINITY_MAGNITUDE
    }

    /// The number itself, in units of two to the minus 1074th; every finite
    /// double is a whole multiple of that unit.
    pub open spec fn scaled(self) -> int {
        if self.negative() {
            -(scaled_magnitude(self.magnitude()) as int)
        } else {
            scaled_magnitude(self.magnitude()) as int
        }
    }

    /// `self < n` as doubles compare, for a whole number `n`.
    pub open spec fn below(self, n: int) -> bool {
        if self.finite() {
            self.scaled() < n * scaled_one()
        } else {
            self.negative() && !self.not_a_number()
        }
    }

    /// `self > n` as doubles compare, for a whole number `n`.
    pub open spec fn above(self, n: int) -> bool {
        if self.finite() {
            self.scaled() > n * scaled_one()
        } else {
            !self.negative() && !self.not_a_number()
        }
    }

    pub fn from_bits(bits: u64) -> (r: Binary64)
        ensures
            r.bits == bits,
    {
        Binary64 { bits }
    }

    pub fn to_bits(self) -> (r: u64)
        ensures
            r == self.bits,
    {
        self.bits
    }

    /// Positive zero.
    pub fn zero() -> (r: Binary64)
        ensures
            r.bits == 0,
            r.finite(),
            r.scaled() == 0,
    {
        Binary64 { bits: 0 }
    }

    /// Neither infinite nor a non-number.
    pub fn is_finite(self) -> (r: bool)
        ensures
            r == self.finite(),
    {
        if self.bits >= SIGN_BIT {
            self.bits - SIGN_BIT < INFINITY_MAGNITUDE
        } else {
            self.bits < INFINITY_MAGNITUDE
        }
    }

    /// `self > 0`.
    pub fn is_positive(self) -> (r: bool)
        ensures
            r == self.above(0),
    {
        proof {
            lemma_scaled_zero(self.magnitude());
        }
        0 < self.bits && self.bits <= INFINITY_MAGNITUDE
    }

    /// `self < 3`.
    pub fn is_below_three(self) -> (r: bool)
        ensures
            r == self.below(3),
    {
        proof {
            lemma_three();
            if self.finite() {
                if self.negative() {
                    lemma_scaled_zero(self.magnitude());
                    lemma_pow2_pos(1074);
                } else if self.bits < THREE {
                    lemma_scaled_increases(self.magnitude(), THREE as nat);
                } else if self.bits > THREE {
                    lemma_scaled_increases(THREE as nat, self.magnitude());
                }
            }
        }
        if self.bits >= SIGN_BIT {
            self.bits - SIGN_BIT <= INFINITY_MAGNITUDE
        } else {
            self.bits < THREE
        }
    }

    /// `self` limited to the closed range from -15 to 15.
    pub fn clamp_to_fifteen(self) -> (r: Binary64)
        requires
            self.finite(),
        ensures
            r.finite(),
            self.below(-15) ==> r.bits == MINUS_FIFTEEN,
            self.above(15) ==> r.bits == FIFTEEN,
            !self.below(-15) && !self.above(15) ==> r == self,
            -15 * scaled_one() <= r.scaled() <= 15 * scaled_one(),
    {
        proof {
            lemma_fifteen();
            lemma_pow2_pos(1074);
            lemma_scaled_zero(self.magnitude());
            if self.magnitude() < FIFTEEN {
                lemma_scaled_increases(self.magnitude(), FIFTEEN as nat);
            } else if self.magnitude() > FIFTEEN {
                lemma_scaled_increases(FIFTEEN as nat, self.magnitude());
            }
        }
        if self.bits >= SIGN_BIT {
            if self.bits - SIGN_BIT > FIFTEEN {
                Binary64 { bits: MINUS_FIFTEEN }
            } else {
                self
            }
        } else if self.bits > FIFTEEN {
            Binary64 { bits: FIFTEEN }
        } else {
            self
        }
    }
}

/// Pattern of 3.
const THREE: u64 = 0x4008_0000_0000_0000;

/// Pattern of 15.
pub const FIFTEEN: u64 = 0x402e_0000_0000_0000;

/// Pattern of -15.
pub const MINUS_FIFTEEN: u64 = 0xc02e_0000_0000_0000;

/// Only the zero pattern stands for zero, and no magnitude is below it.
proof fn lemma_scaled_zero(m: nat)
    ensures
        scaled_magnitude(m) == 0 <==> m == 0,
{
    let h = HIDDEN_BIT as nat;
    let e = m / h;
    let f = m % h;
    assert(m == e * h + f) by (nonlinear_arith)
        requires
            h > 0,
            e == m / h,
            f == m % h,
    ;
    if e != 0 {
        lemma_pow2_pos((e - 1) as nat);
        assert((h + f) * pow2((e - 1) as nat) > 0) by (nonlinear_arith)
            requires
                h + f > 0,
                pow2((e - 1) as nat) > 0,
        ;
    }
}

/// The numbers grow with their magnitude patterns.
pub proof fn lemma_scaled_increases(a: nat, b: nat)
    requires
        a < b,
    ensures
        scaled_magnitude(a) < scaled_magnitude(b),
{
    let h = HIDDEN_BIT as nat;
    let (ea, fa) = (a / h, a % h);
    let (eb, fb) = (b / h, b % h);
    assert(a == ea * h + fa && b == eb * h + fb && ea <= eb) by (nonlinear_arith)
        requires
            h == 0x10_0000_0000_0000nat,
            ea == a / h,
            fa == a % h,
            eb == b / h,
            fb == b % h,
            a < b,
    ;
    assert(fa < h && fb < h);
    if ea == eb {
        if ea != 0 {
            let p = pow2((ea - 1) as nat);
            lemma_pow2_pos((ea - 1) as nat);
            assert((h + fa) * p < (h + fb) * p) by (nonlinear_arith)
                requires
                    fa < fb,
                    p > 0,
            ;
        }
    } else {
        let pb = pow2((eb - 1) as nat);
        lemma_pow2_pos((eb - 1) as nat);
        assert((h + fb) * pb >= h * pb) by (nonlinear_arith)
            requires
                pb > 0,
                fb >= 0,
                h > 0,
        ;
        if ea == 0 {
            assert(h * pb >= h) by (nonlinear_arith)
                requires
                    pb >= 1,
                    h > 0,
            ;
        } else {
            let pa = pow2((ea - 1) as nat);
            lemma_pow2_pos((ea - 1) as nat);
            lemma_pow2_unfold(ea);
            if ea < eb - 1 {
                lemma_pow2_strictly_increases(ea, (eb - 1) as nat);
            }
            assert(2 * pa <= pb);
            assert((h + fa) * pa < h * pb) by (nonlinear_arith)
                requires
                    fa < h,
                    pa > 0,
                    2 * pa <= pb,
                    h > 0,
            ;
        }
    }
}

proof fn lemma_three()
    ensures
        scaled_magnitude(THREE as nat) == 3 * scaled_one(),
        !(Binary64 { bits: THREE }).negative(),
{
    assert(0x4008_0000_0000_0000nat / 0x10_0000_0000_0000nat == 1024);
    assert(0x4008_0000_0000_0000nat % 0x10_0000_0000_0000nat == 0x8_0000_0000_0000nat);
    lemma2_to64();
    lemma2_to64_rest();
    lemma_pow2_adds(51, 1023);
    assert((0x10_0000_0000_0000nat + 0x8_0000_0000_0000nat) * pow2(1023) == 3 * (
    0x8_0000_0000_0000nat * pow2(1023))) by (nonlinear_arith);
}

proof fn lemma_fifteen()
    ensures
        scaled_magnitude(FIFTEEN as nat) == 15 * scaled_one(),
{
    assert(0x402e_0000_0000_0000nat / 0x10_0000_0000_0000nat == 1026);
    assert(0x402e_0000_0000_0000nat % 0x10_0000_0000_0000nat == 0xe_0000_0000_0000nat);
    lemma2_to64();
    lemma2_to64_rest();
    lemma_pow2_adds(49, 1025);
    assert((0x10_0000_0000_0000nat + 0xe_0000_0000_0000nat) * pow2(1025) == 15 * (
    0x2_0000_0000_0000nat * pow2(1025))) by (nonlinear_arith);
}

/// A double is below three by its bits: a positive one whose pattern stands
/// before that of three, or any negative one; what is no number is not.
pub proof fn law_below_three(x: Binary64, r: bool)
    requires
        call_ensures(Binary64::is_below_three, (x,), r),
    ensures
        x.bits < 0x4008_0000_0000_0000 ==> r,
        0x4008_0000_0000_0000 <= x.bits < 0x8000_0000_0000_0000 ==> !r,
        0x8000_0000_0000_0000 <= x.bits <= 0xfff0_0000_0000_0000 ==> r,
        x.bits > 0xfff0_0000_0000_0000 ==> !r,
        r <==> x.below(3),
{
    lemma_three();
    if x.finite() {
        if x.negative() {
            lemma_scaled_zero(x.magnitude());
            lemma_pow2_pos(1074);
        } else if x.bits < THREE {
            lemma_scaled_increases(x.magnitude(), THREE as nat);
        } else if x.bits > THREE {
            lemma_scaled_increases(THREE as nat, x.magnitude());
        }
    }
}

/// A double is positive and finite by its bits alone.
pub proof fn law_positive_and_finite(x: Binary64, positive: bool, finite: bool)
    requires
        call_ensures(Binary64::is_positive, (x,), positive),
        call_ensures(Binary64::is_finite, (x,), finite),
    ensures
        positive <==> 0 < x.bits <= 0x7ff0_0000_0000_0000,
        positive <==> x.above(0),
        finite <==> x.bits < 0x7ff0_0000_0000_0000 || 0x8000_0000_0000_0000 <= x.bits
            < 0xfff0_0000_0000_0000,
        finite <==> x.finite(),
{
    lemma_scaled_zero(x.magnitude());
}

/// Clamping to fifteen either way keeps what lies between and moves the rest to
/// the nearer end, by the bits.
pub proof fn law_clamp(x: Binary64, r: Binary64)
    requires
        call_ensures(Binary64::clamp_to_fifteen, (x,), r),
        x.finite(),
    ensures
        x.bits <= 0x402e_0000_0000_0000 ==> r == x,
        0x402e_0000_0000_0000 < x.bits < 0x8000_0000_0000_0000 ==> r.bits == 0x402e_0000_0000_0000,
        0x8000_0000_0000_0000 <= x.bits <= 0xc02e_0000_0000_0000 ==> r == x,
        x.bits > 0xc02e_0000_0000_0000 ==> r.bits == 0xc02e_0000_0000_0000,
{
    lemma_fifteen();
    lemma_pow2_pos(1074);
    lemma_scaled_zero(x.magnitude());
    if x.magnitude() < FIFTEEN {
        lemma_scaled_increases(x.magnitude(), FIFTEEN as nat);
    } else if x.magnitude() > FIFTEEN {
        lemma_scaled_increases(FIFTEEN as nat, x.magnitude());
    }
}

} // verus!
