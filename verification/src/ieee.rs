//! The bit patterns of 32-bit IEEE 754 numbers, computed with integers: the
//! pattern of the number nearest to an unsigned integer, and of the number
//! nearest to a byte taken as a fraction of 255.
use vstd::prelude::*;

verus! {

/// Two to the power of `n`.
pub open spec fn two_to(n: nat) -> nat
    decreases n,
{
    if n == 0 {
        1
    } else {
        2 * two_to((n - 1) as nat)
    }
}

/// The place of the highest bit of a number that is set; zero for zero.
pub open spec fn top_bit(x: nat) -> nat
    decreases x,
{
    if x <= 1 {
        0
    } else {
        1 + top_bit(x / 2)
    }
}

/// The pattern of the 32-bit IEEE 754 number nearest to an unsigned integer;
/// of two numbers that are equally near, the one with an even mantissa.
pub open spec fn single_of_u32(x: u32) -> u32 {
    if x == 0 {
        0
    } else {
        let e = top_bit(x as nat);
        if e <= 23 {
            ((127 + e) * 0x80_0000 + (x * two_to((23 - e) as nat) - 0x80_0000)) as u32
        } else {
            let d = two_to((e - 23) as nat);
            let q = x as nat / d;
            let r = x as nat % d;
            let up: nat = if 2 * r > d || (2 * r == d && q % 2 == 1) {
                1
            } else {
                0
            };
            ((127 + e) * 0x80_0000 + (q - 0x80_0000) + up) as u32
        }
    }
}

/// The number of times a byte above zero must be doubled to reach 255.
pub open spec fn doublings_to_255(b: nat) -> nat
    decreases
            (if b < 255 {
                255 - b
            } else {
                0
            }),
{
    if b == 0 || b >= 255 {
        0
    } else {
        1 + doublings_to_255(2 * b)
    }
}

/// The pattern of the 32-bit IEEE 754 number nearest to a byte divided by
/// 255. No such quotient lies half-way between two numbers.
pub open spec fn single_of_byte_fraction(b: u8) -> u32 {
    if b == 0 {
        0
    } else {
        let k = doublings_to_255(b as nat);
        let scaled = b * two_to(23 + k);
        let m = (2 * scaled + 255) / 510;
        ((127 - k) * 0x80_0000 + (m - 0x80_0000)) as u32
    }
}

/// Powers of two multiply by adding their exponents.
pub proof fn lemma_two_to_add(a: nat, b: nat)
    ensures
        two_to(a + b) == two_to(a) * two_to(b),
    decreases a,
{
    if a == 0 {
        assert(two_to(0 + b) == 1 * two_to(b));
    } else {
        lemma_two_to_add((a - 1) as nat, b);
        assert(two_to(a + b) == 2 * two_to((a - 1 + b) as nat));
        assert(2 * (two_to((a - 1) as nat) * two_to(b)) == (2 * two_to((a - 1) as nat)) * two_to(
            b,
        )) by (nonlinear_arith);
    }
}

/// The powers of two up to the thirty-second.
pub proof fn lemma_two_to_values()
    ensures
        two_to(0) == 1,
        two_to(1) == 2,
        two_to(8) == 0x100,
        two_to(23) == 0x80_0000,
        two_to(24) == 0x100_0000,
        two_to(31) == 0x8000_0000,
        two_to(32) == 0x1_0000_0000,
{
    reveal_with_fuel(two_to, 33);
}

/// A number between two successive powers of two has its highest bit at the
/// exponent of the lower one.
pub proof fn lemma_top_bit(x: nat, e: nat)
    requires
        two_to(e) <= x < two_to(e + 1),
    ensures
        top_bit(x) == e,
    decreases e,
{
    if e == 0 {
        assert(two_to(1) == 2 * two_to(0));
    } else {
        assert(two_to(e) == 2 * two_to((e - 1) as nat));
        assert(two_to(e + 1) == 2 * two_to(e));
        lemma_top_bit(x / 2, (e - 1) as nat);
    }
}

/// A power of two is at most a power of two with a greater exponent.
pub proof fn lemma_two_to_monotone(a: nat, b: nat)
    requires
        a <= b,
    ensures
        1 <= two_to(a) <= two_to(b),
    decreases b,
{
    if a < b {
        lemma_two_to_monotone(a, (b - 1) as nat);
    } else if a > 0 {
        lemma_two_to_monotone((a - 1) as nat, (a - 1) as nat);
    }
}

/// Two to the power of `n`, for `n` up to 40.
#[verifier::rlimit(50)]
fn power_of_two(n: u32) -> (r: u64)
    requires
        n <= 40,
    ensures
        r == two_to(n as nat),
        1 <= r <= 0x100_0000_0000,
{
    let mut r: u64 = 1;
    let mut i: u32 = 0;
    proof {
        reveal_with_fuel(two_to, 42);
        assert(two_to(40) == 0x100_0000_0000);
        lemma_two_to_monotone(n as nat, 40);
    }
    while i < n
        invariant
            i <= n <= 40,
            r == two_to(i as nat),
            two_to(40) == 0x100_0000_0000,
        decreases n - i,
    {
        proof {
            assert(two_to((i + 1) as nat) == 2 * two_to(i as nat));
            lemma_two_to_monotone((i + 1) as nat, 40);
        }
        r = r * 2;
        i += 1;
    }
    proof {
        lemma_two_to_monotone(0, n as nat);
    }
    r
}

/// The place of the highest bit that is set in a number above zero.
#[verifier::rlimit(50)]
fn highest_bit(x: u32) -> (e: u32)
    requires
        x > 0,
    ensures
        e == top_bit(x as nat),
        e <= 31,
        two_to(e as nat) <= x < two_to((e + 1) as nat),
{
    let mut e: u32 = 0;
    let mut p: u64 = 1;
    proof {
        lemma_two_to_values();
    }
    while 2 * p <= x as u64
        invariant
            p == two_to(e as nat),
            1 <= p <= x,
            e <= 31,
            two_to(32) == 0x1_0000_0000,
        decreases x - p,
    {
        proof {
            assert(two_to((e + 1) as nat) == 2 * two_to(e as nat));
            if e >= 31 {
                lemma_two_to_monotone(32, (e + 1) as nat);
            }
        }
        p = 2 * p;
        e += 1;
    }
    proof {
        assert(two_to((e + 1) as nat) == 2 * two_to(e as nat));
        lemma_top_bit(x as nat, e as nat);
    }
    e
}

/// The pattern of the 32-bit IEEE 754 number nearest to an unsigned
/// integer.
#[verifier::rlimit(50)]
pub fn single_from_u32(x: u32) -> (r: u32)
    ensures
        r == single_of_u32(x),
{
    if x == 0 {
        return 0;
    }
    let e = highest_bit(x);
    proof {
        lemma_two_to_values();
    }
    if e <= 23 {
        let scale = power_of_two(23 - e);
        proof {
            lemma_two_to_add(e as nat, (23 - e) as nat);
            lemma_two_to_add((e + 1) as nat, (23 - e) as nat);
            let lo = two_to(e as nat);
            let hi = two_to((e + 1) as nat);
            let s = two_to((23 - e) as nat);
            assert(lo * s <= x * s < hi * s) by (nonlinear_arith)
                requires
                    lo <= x < hi,
                    s >= 1,
            ;
            assert(hi * s == 0x100_0000);
            assert(lo * s == 0x80_0000);
        }
        let mantissa: u64 = (x as u64) * scale - 0x80_0000;
        ((127 + e as u64) * 0x80_0000 + mantissa) as u32
    } else {
        let d = power_of_two(e - 23);
        let q: u64 = (x as u64) / d;
        let r: u64 = (x as u64) % d;
        proof {
            lemma_two_to_add(23, (e - 23) as nat);
            lemma_two_to_add(24, (e - 23) as nat);
            let dd = two_to((e - 23) as nat);
            assert(0x80_0000 <= q < 0x100_0000) by (nonlinear_arith)
                requires
                    0x80_0000 * dd <= x < 0x100_0000 * dd,
                    dd >= 1,
                    q == (x as int) / (dd as int),
            ;
        }
        let up: u64 = if 2 * r > d || (2 * r == d && q % 2 == 1) {
            1
        } else {
            0
        };
        ((127 + e as u64) * 0x80_0000 + (q - 0x80_0000) + up) as u32
    }
}

/// The number of times a byte above zero must be doubled to reach 255.
#[verifier::rlimit(50)]
fn doublings(b: u8) -> (k: u32)
    requires
        b > 0,
    ensures
        k == doublings_to_255(b as nat),
        k <= 8,
        255 <= b * two_to(k as nat) < 510,
{
    let mut k: u32 = 0;
    let mut v: u32 = b as u32;
    proof {
        lemma_two_to_values();
    }
    while v < 255
        invariant
            0 < v < 510,
            v == b * two_to(k as nat),
            doublings_to_255(b as nat) == k + doublings_to_255(v as nat),
            k <= 8,
            b > 0,
        decreases 510 - v,
    {
        proof {
            lemma_doubling_bound(b as nat, k as nat);
            assert(two_to((k + 1) as nat) == 2 * two_to(k as nat));
            assert(b * (2 * two_to(k as nat)) == 2 * (b * two_to(k as nat))) by (nonlinear_arith);
        }
        v = 2 * v;
        k += 1;
    }
    k
}

/// A power of two that keeps a byte above zero below 255 is at most 128.
proof fn lemma_doubling_bound(b: nat, k: nat)
    requires
        b >= 1,
        b * two_to(k) < 255,
    ensures
        two_to(k) <= 128,
        k <= 7,
{
    lemma_two_to_values();
    assert(two_to(k) < 255) by (nonlinear_arith)
        requires
            b >= 1,
            b * two_to(k) < 255,
    ;
    if k >= 8 {
        lemma_two_to_monotone(8, k);
    }
    reveal_with_fuel(two_to, 9);
}

/// The pattern of the 32-bit IEEE 754 number nearest to a byte divided by
/// 255.
#[verifier::rlimit(50)]
pub fn single_from_byte_fraction(b: u8) -> (r: u32)
    ensures
        r == single_of_byte_fraction(b),
{
    if b == 0 {
        return 0;
    }
    let k = doublings(b);
    let scale = power_of_two(23 + k);
    proof {
        lemma_two_to_values();
        lemma_two_to_add(23, k as nat);
        let t = two_to(k as nat);
        assert(b * (0x80_0000 * t) == (b * t) * 0x80_0000) by (nonlinear_arith);
    }
    let scaled: u64 = (b as u64) * scale;
    let m: u64 = (2 * scaled + 255) / 510;
    ((127 - k as u64) * 0x80_0000 + (m - 0x80_0000)) as u32
}

} // verus!
