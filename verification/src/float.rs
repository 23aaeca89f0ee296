//! Single-precision values, carried as their bit patterns.
//!
//! The conversions that images need are computed on integers, so that every
//! result is exact and the same on every machine.

use vstd::prelude::*;
use vstd::arithmetic::power2::pow2;
use vstd::arithmetic::power2::lemma_pow2_pos;
use vstd::arithmetic::power2::lemma_pow2_unfold;
use vstd::arithmetic::power2::lemma2_to64;

verus! {

/// A single-precision floating-point value, given by its 32 bits: one bit of
/// sign, eight of exponent, twenty-three of fraction.
#[derive(Debug, Clone, Copy, PartialEq, Eq, Structural)]
pub struct F32Bits {
    pub bits: u32,
}

/// Number of binary digits by which `p` exceeds twenty-four.
pub open spec fn excess(p: nat) -> nat
    decreases p,
{
    if p < 0x100_0000 {
        0
    } else {
        1 + excess(p / 2)
    }
}

/// `p` rounded to twenty-four significant binary digits, to the nearest
/// and on a tie to the even one: the pair `(q, s)` stands for `q * 2^s`.
pub open spec fn round24(p: nat) -> (nat, nat) {
    let s = excess(p);
    let unit = pow2(s);
    let q = p / unit;
    let r = p % unit;
    if 2 * r > unit || (2 * r == unit && q % 2 == 1) {
        (q + 1, s)
    } else {
        (q, s)
    }
}

/// The pair `(m, e)` with `2^23 <= m < 2^24` that stands for the same
/// number `m * 2^e` as `q * 2^s`, where `q` is positive and, if it has
/// more than twenty-four digits, ends in zeros.
pub open spec fn normalized(q: nat, s: int) -> (nat, int)
    decreases
            if q >= 0x100_0000 {
                q
            } else {
                (0x100_0000 - q) as nat
            },
{
    if q == 0 {
        (0, 0)
    } else if q >= 0x100_0000 {
        normalized(q / 2, s + 1)
    } else if q < 0x80_0000 {
        normalized(2 * q, s - 1)
    } else {
        (q, s)
    }
}

/// The bits of the positive normal value `m * 2^e`, where
/// `2^23 <= m < 2^24`.
pub open spec fn encode(m: nat, e: int) -> u32 {
    ((e + 150) * 0x80_0000 + (m - 0x80_0000)) as u32
}

impl F32Bits {
    /// Whether the sign bit is set.
    pub open spec fn sign(self) -> bool {
        self.bits >= 0x8000_0000
    }

    /// The eight bits of exponent.
    pub open spec fn exponent(self) -> nat {
        ((self.bits as nat) / 0x80_0000) % 256
    }

    /// The twenty-three bits of fraction.
    pub open spec fn fraction(self) -> nat {
        (self.bits as nat) % 0x80_0000
    }

    pub open spec fn is_nan(self) -> bool {
        self.exponent() == 255 && self.fraction() != 0
    }

    /// The integer `g` of a finite value `±g * 2^scale()`.
    pub open spec fn significand(self) -> nat {
        if self.exponent() == 0 {
            self.fraction()
        } else {
            self.fraction() + 0x80_0000
        }
    }

    /// The power of two of a finite value `±significand() * 2^scale()`.
    pub open spec fn scale(self) -> int {
        if self.exponent() == 0 {
            -149
        } else {
            self.exponent() - 150
        }
    }

    /// The bits of the value `n`, rounded to the nearest value that has
    /// one, on a tie to the even one.
    pub open spec fn spec_from_nat(n: nat) -> u32 {
        let (q, s) = round24(n);
        if q == 0 {
            0
        } else {
            let (m, e) = normalized(q, s as int);
            encode(m, e)
        }
    }

    /// The bits of the value `m / 2^23`.
    pub open spec fn spec_from_unit_fraction(m: nat) -> u32 {
        if m == 0 {
            0
        } else {
            let (n, e) = normalized(m, -23);
            encode(n, e)
        }
    }

    /// The byte that stands for the value on a scale on which 255 stands
    /// for 1: the product with 255, rounded to a single-precision value,
    /// limited to the range from 0 to 255, without its fractional part.
    /// The byte of a value that is not a number is 255.
    pub open spec fn spec_into_u8(self) -> u8 {
        if self.is_nan() {
            255
        } else if self.sign() {
            0
        } else if self.exponent() == 255 {
            255
        } else {
            let (q, s) = round24(self.significand() * 255);
            let k = s + self.scale();
            let whole = if k >= 0 {
                q * pow2(k as nat)
            } else {
                q / pow2((-k) as nat)
            };
            if whole >= 255 {
                255
            } else {
                whole as u8
            }
        }
    }

    /// The bits of the value that a byte stands for on a scale on which
    /// 255 stands for 1: the quotient of the byte by 255, rounded to the
    /// nearest single-precision value, on a tie to the even one.
    pub open spec fn spec_from_u8(n: u8) -> u32 {
        if n == 0 {
            0
        } else if n == 255 {
            0x3f80_0000
        } else {
            let t = Self::quotient_shift(n as nat);
            let num = (n as nat) * pow2(t);
            let q = num / 255;
            let r = num % 255;
            let m = if 2 * r > 255 || (2 * r == 255 && q % 2 == 1) {
                q + 1
            } else {
                q
            };
            let (mm, e) = normalized(m, -(t as int));
            encode(mm, e)
        }
    }

    /// The least `t` for which `n * 2^t / 255 >= 2^23`, for `0 < n < 255`.
    pub open spec fn quotient_shift(n: nat) -> nat
        decreases 255 - n,
    {
        if n == 0 || n >= 255 {
            23
        } else if 2 * n >= 255 {
            24
        } else {
            1 + Self::quotient_shift(2 * n)
        }
    }

    pub fn from_bits(bits: u32) -> (r: F32Bits)
        ensures
            r.bits == bits,
    {
        F32Bits { bits }
    }

    pub fn to_bits(&self) -> (r: u32)
        ensures
            r == self.bits,
    {
        self.bits
    }
}

proof fn lemma_half_of_quotient(p: nat, s: nat)
    ensures
        (p / pow2(s)) / 2 == p / pow2(s + 1),
        pow2(s + 1) == 2 * pow2(s),
        pow2(s) > 0,
{
    lemma_pow2_pos(s);
    lemma_pow2_unfold(s + 1);
    vstd::arithmetic::div_mod::lemma_div_denominator(p as int, pow2(s) as int, 2);
}

/// Rounds to twenty-four significant binary digits.
fn round_to_24(p: u64) -> (r: (u64, u32))
    ensures
        (r.0 as nat, r.1 as nat) == round24(p as nat),
        r.0 <= 0x100_0000,
        r.1 <= 40,
        p >= 0x80_0000 ==> r.0 >= 0x80_0000,
        p < 0x100_0000 ==> r.0 == p && r.1 == 0,
{
    let mut s: u32 = 0;
    let mut t: u64 = p;
    let mut unit: u64 = 1;
    proof {
        lemma2_to64();
        assert(p as nat / 1 == p as nat);
    }
    while t >= 0x100_0000
        invariant
            t as nat == (p as nat) / pow2(s as nat),
            unit as nat == pow2(s as nat),
            unit * t <= p,
            unit > 0,
            s <= 40,
            unit <= 0x200_0000_0000,
            s > 0 ==> t >= 0x80_0000,
            s == 0 ==> t == p,
            (p as nat) / pow2(s as nat) >= 0x100_0000 || s == 0 || t < 0x100_0000,
            excess(p as nat) == s + excess(t as nat),
        decreases t,
    {
        proof {
            lemma_half_of_quotient(p as nat, s as nat);
            assert(2 * unit * (t / 2) <= unit * t) by (nonlinear_arith)
                requires
                    unit > 0,
            ;
            // s stays below 41: t >= 2^24 and unit * t <= p < 2^64
            assert(unit < 0x100_0000_0000) by (nonlinear_arith)
                requires
                    unit * t <= p,
                    t >= 0x100_0000,
                    p <= 0xffff_ffff_ffff_ffff,
            ;
            if s >= 40 {
                vstd::arithmetic::power2::lemma_pow2_strictly_increases(39, s as nat);
                assert(pow2(39) == 0x80_0000_0000) by {
                    lemma2_to64();
                    vstd::arithmetic::power2::lemma_pow2_adds(32, 7);
                }
                lemma_pow2_unfold(40);
                assert(false);
            }
        }
        t = t / 2;
        unit = unit * 2;
        s = s + 1;
    }
    let rest: u64 = p - unit * t;
    proof {
        assert(rest as nat == (p as nat) % (unit as nat)) by (nonlinear_arith)
            requires
                t as nat == (p as nat) / (unit as nat),
                rest == p - unit * t,
                unit > 0,
        ;
        assert(rest < unit) by (nonlinear_arith)
            requires
                rest as nat == (p as nat) % (unit as nat),
                unit > 0,
        ;
        assert(excess(t as nat) == 0);
    }
    let up = 2 * rest > unit || (2 * rest == unit && t % 2 == 1);
    if up {
        (t + 1, s)
    } else {
        (t, s)
    }
}

/// Brings a positive number of at most twenty-four digits (or 2^24
/// itself) to exactly twenty-four.
fn normalize(q: u64, s: i32) -> (r: (u64, i32))
    requires
        0 < q <= 0x100_0000,
        -200 <= s <= 200,
    ensures
        (r.0 as nat, r.1 as int) == normalized(q as nat, s as int),
        0x80_0000 <= r.0 < 0x100_0000,
        s - 23 <= r.1 <= s + 1,
        q >= 0x80_0000 ==> r.1 >= s,
        q < 0x100_0000 ==> r.1 <= s,
        q < 0x80_0000 ==> r.1 < s,
{
    if q == 0x100_0000 {
        assert(normalized(q as nat, s as int) == normalized(0x80_0000, s + 1));
        return (0x80_0000, s + 1);
    }
    let mut m: u64 = q;
    let mut e: i32 = s;
    let mut low: u64 = 1;
    proof {
        lemma2_to64();
    }
    while m < 0x80_0000
        invariant
            0 < m < 0x100_0000,
            low <= m,
            q <= m,
            e < s || m == q,
            -200 <= s <= 200,
            s - 23 <= e <= s,
            low as nat == pow2((s - e) as nat),
            q >= 0x80_0000 ==> e == s,
            normalized(q as nat, s as int) == normalized(m as nat, e as int),
        decreases 0x100_0000 - m,
    {
        proof {
            lemma_pow2_unfold((s - e + 1) as nat);
            if s - e >= 23 {
                lemma2_to64();
                if s - e > 23 {
                    vstd::arithmetic::power2::lemma_pow2_strictly_increases(
                        23,
                        (s - e) as nat,
                    );
                }
                assert(false);
            }
        }
        m = 2 * m;
        e = e - 1;
        low = 2 * low;
    }
    (m, e)
}

/// Puts exponent and fraction of a positive normal value together.
fn encode_bits(m: u64, e: i32) -> (r: u32)
    requires
        0x80_0000 <= m < 0x100_0000,
        -149 <= e <= 104,
    ensures
        r == encode(m as nat, e as int),
        0x80_0000 <= r < 0x7f80_0000,
        r as nat == ((e + 150) * 0x80_0000 + (m - 0x80_0000)) as nat,
{
    let biased: u64 = (e + 150) as u64;
    let bits: u64 = biased * 0x80_0000 + (m - 0x80_0000);
    bits as u32
}

impl F32Bits {
    /// The value of an integer, as a conversion to single precision gives
    /// it: exact up to 2^24, rounded to the nearest beyond.
    pub fn from_usize(i: usize) -> (r: F32Bits)
        ensures
            r.bits == Self::spec_from_nat(i as nat),
            !r.sign(),
            !r.is_nan(),
    {
        let (q, s) = round_to_24(i as u64);
        if q == 0 {
            F32Bits { bits: 0 }
        } else {
            let (m, e) = normalize(q, s as i32);
            let bits = encode_bits(m, e);
            proof {
                lemma_encoded_fields(m as nat, e as int);
            }
            F32Bits { bits }
        }
    }

    /// The value `m / 2^23` of a fraction of twenty-three bits, which is
    /// at least 0 and less than 1.
    pub fn from_unit_fraction(m: u32) -> (r: F32Bits)
        requires
            m < 0x80_0000,
        ensures
            r.bits == Self::spec_from_unit_fraction(m as nat),
            r.bits < 0x3f80_0000,
    {
        if m == 0 {
            F32Bits { bits: 0 }
        } else {
            let (n, e) = normalize(m as u64, -23);
            F32Bits { bits: encode_bits(n, e) }
        }
    }

    /// The byte that stands for the value on a scale on which 255 stands
    /// for 1.
    pub fn into_u8(&self) -> (r: u8)
        ensures
            r == self.spec_into_u8(),
    {
        let b = self.bits;
        let e: u32 = (b >> 23) & 0xff;
        let f: u32 = b & 0x7f_ffff;
        proof {
            assert((b >> 23) & 0xff == (b / 0x80_0000) % 256) by (bit_vector);
            assert(b & 0x7f_ffff == b % 0x80_0000) by (bit_vector);
            assert(e == self.exponent());
            assert(f == self.fraction());
            lemma2_to64();
        }
        if e == 255 && f != 0 {
            return 255;
        }
        if b >= 0x8000_0000 {
            return 0;
        }
        if e == 255 {
            return 255;
        }
        let sig: u64 = if e == 0 {
            f as u64
        } else {
            f as u64 + 0x80_0000
        };
        let scale: i32 = if e == 0 {
            -149
        } else {
            e as i32 - 150
        };
        let (q, s) = round_to_24(sig * 255);
        let k: i32 = s as i32 + scale;
        if k >= 0 {
            proof {
                // the value is normal and large: its product with 255 is
                // at least 255
                lemma_pow2_pos(k as nat);
                lemma_short_excess(sig as nat * 255);
                assert(q >= 0x80_0000);
                assert(q * pow2(k as nat) >= 255) by (nonlinear_arith)
                    requires
                        q >= 255,
                        pow2(k as nat) >= 1,
                ;
            }
            255
        } else {
            let down: u32 = (-k) as u32;
            if down >= 25 {
                proof {
                    if down > 25 {
                        vstd::arithmetic::power2::lemma_pow2_strictly_increases(25, down as nat);
                    }
                    assert(pow2(down as nat) > q);
                    vstd::arithmetic::div_mod::lemma_basic_div(q as int, pow2(down as nat) as int);
                }
                0
            } else {
                let whole: u64 = q >> (down as u64);
                proof {
                    vstd::bits::lemma_u64_shr_is_div(q, down as u64);
                }
                if whole >= 255 {
                    255
                } else {
                    whole as u8
                }
            }
        }
    }
}

/// A number below 2^32 exceeds twenty-four digits by at most eight.
proof fn lemma_short_excess(p: nat)
    requires
        p < 0x1_0000_0000,
    ensures
        excess(p) <= 8,
{
    reveal_with_fuel(excess, 10);
}

/// Exponent and fraction of the bits of a positive normal value.
proof fn lemma_encoded_fields(m: nat, e: int)
    requires
        0x80_0000 <= m < 0x100_0000,
        -149 <= e <= 104,
    ensures
        (F32Bits { bits: encode(m, e) }).exponent() == e + 150,
        (F32Bits { bits: encode(m, e) }).fraction() == m - 0x80_0000,
        !(F32Bits { bits: encode(m, e) }).sign(),
        !(F32Bits { bits: encode(m, e) }).is_nan(),
{
    let x = (e + 150) * 0x80_0000 + (m - 0x80_0000);
    assert(0 <= x < 0x7f80_0000) by (nonlinear_arith)
        requires
            x == (e + 150) * 0x80_0000 + (m - 0x80_0000),
            0x80_0000 <= m < 0x100_0000,
            -149 <= e <= 104,
    ;
    vstd::arithmetic::div_mod::lemma_fundamental_div_mod_converse(
        x,
        0x80_0000,
        e + 150,
        m - 0x80_0000,
    );
    assert(x / 0x80_0000 == e + 150);
    assert(x % 0x80_0000 == m - 0x80_0000);
    assert((e + 150) % 256 == e + 150);
}

/// The value of a fraction of twenty-three bits is at least 0 and less
/// than 1.
pub proof fn lemma_unit_fraction_below_one(m: nat)
    requires
        m < 0x80_0000,
    ensures
        F32Bits::spec_from_unit_fraction(m) < 0x3f80_0000,
{
    if m > 0 {
        lemma_normalized_range(m, -23);
        let (n, e) = normalized(m, -23);
        assert(((e + 150) * 0x80_0000 + (n - 0x80_0000)) < 0x3f80_0000) by (nonlinear_arith)
            requires
                -46 <= e <= -24,
                0x80_0000 <= n < 0x100_0000,
        ;
    }
}

/// What `normalized` gives for a number of at most twenty-four digits:
/// the number is doubled until it has twenty-four, at most twenty-three
/// times.
pub proof fn lemma_normalized_range(q: nat, s: int)
    requires
        0 < q < 0x100_0000,
    ensures
        0x80_0000 <= normalized(q, s).0 < 0x100_0000,
        s - 23 <= normalized(q, s).1 <= s,
        q < 0x80_0000 ==> normalized(q, s).1 < s,
{
    lemma2_to64();
    lemma_normalized_from(q, s, 0);
}

/// What `normalized` gives for a number of more than `b` and at most
/// twenty-four digits.
proof fn lemma_normalized_from(q: nat, s: int, b: nat)
    requires
        pow2(b) <= q < 0x100_0000,
        b <= 23,
    ensures
        0x80_0000 <= normalized(q, s).0 < 0x100_0000,
        s - (23 - b) <= normalized(q, s).1 <= s,
        q < 0x80_0000 ==> normalized(q, s).1 < s,
    decreases 0x100_0000 - q,
{
    lemma_pow2_pos(b);
    if q < 0x80_0000 {
        lemma2_to64();
        lemma_pow2_unfold(b + 1);
        if b >= 23 {
            assert(pow2(23) == 0x80_0000);
            assert(false);
        }
        lemma_normalized_from(2 * q, s - 1, b + 1);
    }
}

impl F32Bits {
    /// The value that a byte stands for on a scale on which 255 stands
    /// for 1.
    pub fn from_u8(n: u8) -> (r: F32Bits)
        ensures
            r.bits == Self::spec_from_u8(n),
    {
        if n == 0 {
            return F32Bits { bits: 0 };
        }
        if n == 255 {
            return F32Bits { bits: 0x3f80_0000 };
        }
        let mut cur: u64 = n as u64;
        let mut steps: u32 = 0;
        proof {
            lemma2_to64();
        }
        while 2 * cur < 255
            invariant
                0 < cur < 255,
                steps <= 7,
                cur as nat == (n as nat) * pow2(steps as nat),
                cur >= pow2(steps as nat),
                Self::quotient_shift(n as nat) == steps + Self::quotient_shift(cur as nat),
            decreases 255 - cur,
        {
            proof {
                lemma_pow2_unfold((steps + 1) as nat);
                if steps >= 7 {
                    lemma2_to64();
                    assert(pow2(7) == 128);
                    assert(false);
                }
                assert((n as nat) * (2 * pow2(steps as nat)) == 2 * ((n as nat) * pow2(
                    steps as nat,
                ))) by (nonlinear_arith);
            }
            cur = 2 * cur;
            steps = steps + 1;
        }
        let ghost t = Self::quotient_shift(n as nat);
        proof {
            assert(t == steps + 24);
            vstd::arithmetic::power2::lemma_pow2_adds(steps as nat, 24);
            assert((n as nat) * pow2(t) == (cur as nat) * 0x100_0000) by (nonlinear_arith)
                requires
                    cur as nat == (n as nat) * pow2(steps as nat),
                    pow2(t) == pow2(steps as nat) * 0x100_0000,
            ;
        }
        let num: u64 = cur * 0x100_0000;
        let q = num / 255;
        let rest = num % 255;
        let m = if 2 * rest > 255 || (2 * rest == 255 && q % 2 == 1) {
            q + 1
        } else {
            q
        };
        let (mm, e) = normalize(m, -((steps + 24) as i32));
        F32Bits { bits: encode_bits(mm, e) }
    }
}

} // verus!
