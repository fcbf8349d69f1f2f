//! Units: byte counts as people read them.
//!
//! A count is scaled as a double-precision number and shown with one
//! decimal. Scaling by a power of two is exact, so all that a double changes
//! is the count itself, which is rounded to 53 significant bits, and the
//! whole computation can be carried out in integers.
use vstd::prelude::*;

use crate::text;

verus! {

/// The quotient rounded to the nearest integer, a tie to the even one.
pub open spec fn round_half_even(n: nat, d: nat) -> nat {
    let q = n / d;
    let r = n % d;
    if 2 * r < d || (2 * r == d && q % 2 == 0) {
        q
    } else {
        q + 1
    }
}

/// The distance between the integers around `n` that double precision can
/// hold: one as long as 53 bits suffice, and twice as much with every bit
/// more.
pub open spec fn double_spacing(n: nat) -> nat
    decreases n,
{
    if n < 0x20_0000_0000_0000 {
        1
    } else {
        2 * double_spacing(n / 2)
    }
}

/// The double-precision number nearest to `n`, a tie to the even one.
pub open spec fn nearest_double(n: nat) -> nat {
    round_half_even(n, double_spacing(n)) * double_spacing(n)
}

/// How many times a count is divided by 1024 before it is shown.
pub open spec fn unit_index(n: nat) -> nat {
    if n < 0x400 {
        0
    } else if n < 0x10_0000 {
        1
    } else if n < 0x4000_0000 {
        2
    } else if n < 0x100_0000_0000 {
        3
    } else {
        4
    }
}

/// The number of bytes in a unit.
pub open spec fn unit_size(index: nat) -> nat {
    if index == 0 {
        1
    } else if index == 1 {
        0x400
    } else if index == 2 {
        0x10_0000
    } else if index == 3 {
        0x4000_0000
    } else {
        0x100_0000_0000
    }
}

/// The name of a unit.
pub open spec fn unit_name(index: nat) -> Seq<char> {
    if index == 0 {
        "B"@
    } else if index == 1 {
        "KiB"@
    } else if index == 2 {
        "MiB"@
    } else if index == 3 {
        "GiB"@
    } else {
        "TiB"@
    }
}

/// A number of tenths with one decimal.
pub open spec fn tenths_shown(t: nat) -> Seq<char> {
    text::decimal(t / 10) + "."@ + text::decimal(t % 10)
}

/// A byte count as it is shown: the count itself below one KiB, else one
/// decimal of the largest unit that it reaches.
pub open spec fn bytes_shown(n: nat) -> Seq<char> {
    let value = nearest_double(n);
    let unit = unit_index(value);
    if unit == 0 {
        text::decimal(n) + " B"@
    } else {
        tenths_shown(round_half_even(value * 10, unit_size(unit))) + " "@ + unit_name(unit)
    }
}

/// The quotient rounded to the nearest integer, a tie to the even one.
fn rounded_quotient(n: u128, d: u128) -> (r: u128)
    requires
        0 < d <= 0x100_0000_0000,
        n < 0x1000_0000_0000_0000_0000_0000,
    ensures
        r == round_half_even(n as nat, d as nat),
{
    let q: u128 = n / d;
    let m: u128 = n % d;
    assert(m < d);
    assert(q <= n) by (nonlinear_arith)
        requires
            q == n / d,
            d > 0,
    ;
    if 2 * m < d || (2 * m == d && q % 2 == 0) {
        q
    } else {
        q + 1
    }
}

/// The double-precision number nearest to a count.
pub fn to_nearest_double(n: u64) -> (r: u128)
    ensures
        r == nearest_double(n as nat),
{
    let mut m: u64 = n;
    let mut unit: u128 = 1;
    while m >= 0x20_0000_0000_0000
        invariant
            1 <= unit <= 0x1000,
            m * unit <= n,
            double_spacing(n as nat) == unit * double_spacing(m as nat),
        decreases m,
    {
        proof {
            let half = (m / 2) as int;
            assert(half * (unit * 2) <= n) by (nonlinear_arith)
                requires
                    half == m / 2,
                    m * unit <= n,
                    unit >= 1,
            ;
            assert(unit < 0x800) by (nonlinear_arith)
                requires
                    m * unit <= n,
                    m >= 0x20_0000_0000_0000,
                    n <= 0xffff_ffff_ffff_ffff,
            ;
            let s = double_spacing(half as nat);
            assert(unit * (2 * s) == (unit * 2) * s) by (nonlinear_arith);
        }
        m = m / 2;
        unit = unit * 2;
    }
    let q = rounded_quotient(n as u128, unit);
    proof {
        let s = double_spacing(m as nat);
        assert(unit * s == unit) by (nonlinear_arith)
            requires
                s == 1,
        ;
        lemma_rounded_bound(n as nat, unit as nat);
        assert(q * unit <= 0xffff_ffff_ffff_ffff + 0x1000) by (nonlinear_arith)
            requires
                q * unit <= n + unit,
                n <= 0xffff_ffff_ffff_ffff,
                unit <= 0x1000,
        ;
    }
    q * unit
}

/// Rounding moves a number by less than the divisor.
proof fn lemma_rounded_bound(n: nat, d: nat)
    requires
        d > 0,
    ensures
        n < round_half_even(n, d) * d + d,
        round_half_even(n, d) * d <= n + d,
{
    let q = n / d;
    assert(q * d <= n < q * d + d) by (nonlinear_arith)
        requires
            q == n / d,
            d > 0,
    ;
    assert((q + 1) * d == q * d + d) by (nonlinear_arith);
}

/// A byte count as it is shown to people.
pub fn format_bytes(bytes: u64) -> (r: String)
    ensures
        r@ == bytes_shown(bytes as nat),
{
    let value = to_nearest_double(bytes);
    proof {
        lemma_nearest_double_bound(bytes as nat);
    }
    if value < 0x400 {
        return text::concat2(text::decimal_text(bytes).as_str(), " B");
    }
    let (size, name): (u128, &str) = if value < 0x10_0000 {
        (0x400, "KiB")
    } else if value < 0x4000_0000 {
        (0x10_0000, "MiB")
    } else if value < 0x100_0000_0000 {
        (0x4000_0000, "GiB")
    } else {
        (0x100_0000_0000, "TiB")
    };
    let tenths = rounded_quotient(value * 10, size);
    proof {
        lemma_rounded_bound((value * 10) as nat, size as nat);
        assert(tenths <= 0x1_0000_0000_0000_0000) by (nonlinear_arith)
            requires
                tenths * size <= value * 10 + size,
                size >= 0x400,
                value <= 0x1_0000_0000_0000_1000,
        ;
    }
    let whole = text::decimal_text((tenths / 10) as u64);
    let part = text::decimal_text((tenths % 10) as u64);
    let mut r = text::concat3(whole.as_str(), ".", part.as_str());
    r.append(" ");
    r.append(name);
    r
}

/// A count that fits in 64 bits is rounded to little more than that.
proof fn lemma_nearest_double_bound(n: nat)
    requires
        n <= 0xffff_ffff_ffff_ffff,
    ensures
        nearest_double(n) <= 0x1_0000_0000_0000_1000,
{
    vstd::arithmetic::power2::lemma2_to64();
    lemma_spacing_bound(n, 12);
    lemma_rounded_bound(n, double_spacing(n));
}

/// The spacing at a number below two to the power 53 + `k`.
proof fn lemma_spacing_bound(n: nat, k: nat)
    requires
        n < 0x20_0000_0000_0000 * vstd::arithmetic::power2::pow2(k),
    ensures
        1 <= double_spacing(n) <= vstd::arithmetic::power2::pow2(k),
    decreases k,
{
    broadcast use vstd::arithmetic::power2::lemma_pow2_pos;

    if n >= 0x20_0000_0000_0000 {
        if k == 0 {
            vstd::arithmetic::power2::lemma2_to64();
        } else {
            vstd::arithmetic::power2::lemma_pow2_unfold(k);
            lemma_spacing_bound(n / 2, (k - 1) as nat);
        }
    }
}

/// A count below two to the power 53 is not changed by rounding.
pub proof fn small_counts_are_exact(n: nat)
    requires
        n < 0x20_0000_0000_0000,
    ensures
        nearest_double(n) == n,
{
    let s = double_spacing(n);
    assert(n / 1 == n && n % 1 == 0);
    assert(n * s == n) by (nonlinear_arith)
        requires
            s == 1,
    ;
}

/// Rounding moves a number by at most half the divisor.
pub proof fn rounding_is_to_the_nearest(n: nat, d: nat)
    requires
        d > 0,
    ensures
        2 * n <= 2 * (round_half_even(n, d) * d) + d,
        2 * (round_half_even(n, d) * d) <= 2 * n + d,
{
    let q = n / d;
    let r = n % d;
    assert(n == q * d + r && r < d) by (nonlinear_arith)
        requires
            q == n / d,
            r == n % d,
            d > 0,
    ;
    assert((q + 1) * d == q * d + d) by (nonlinear_arith);
}

/// A quotient half-way between two integers is rounded to the even one.
pub proof fn ties_are_rounded_to_even(q: nat, d: nat)
    requires
        d > 0,
    ensures
        round_half_even(q * d, d) == q,
        d % 2 == 0 ==> round_half_even(q * d + d / 2, d) == q + q % 2,
{
    assert(q * d == d * q) by (nonlinear_arith);
    vstd::arithmetic::div_mod::lemma_fundamental_div_mod_converse(
        (q * d) as int,
        d as int,
        q as int,
        0,
    );
    if d % 2 == 0 {
        vstd::arithmetic::div_mod::lemma_fundamental_div_mod_converse(
            (q * d + d / 2) as int,
            d as int,
            q as int,
            (d / 2) as int,
        );
    }
}

/// A count of more than 53 bits is kept to 53 bits: it is rounded to the
/// power of two that leaves it so many.
pub proof fn large_counts_keep_53_bits(n: nat)
    requires
        n >= 0x20_0000_0000_0000,
    ensures
        exists|k: nat| double_spacing(n) == #[trigger] vstd::arithmetic::power2::pow2(k),
        0x10_0000_0000_0000 * double_spacing(n) <= n < 0x20_0000_0000_0000 * double_spacing(n),
        nearest_double(n) == round_half_even(n, double_spacing(n)) * double_spacing(n),
        2 * n <= 2 * nearest_double(n) + double_spacing(n),
        2 * nearest_double(n) <= 2 * n + double_spacing(n),
{
    lemma_spacing(n);
    rounding_is_to_the_nearest(n, double_spacing(n));
}

proof fn lemma_spacing(n: nat)
    requires
        n >= 0x20_0000_0000_0000,
    ensures
        exists|k: nat| double_spacing(n) == #[trigger] vstd::arithmetic::power2::pow2(k),
        0x10_0000_0000_0000 * double_spacing(n) <= n < 0x20_0000_0000_0000 * double_spacing(n),
        double_spacing(n) > 0,
    decreases n,
{
    vstd::arithmetic::power2::lemma2_to64();
    let half = n / 2;
    if half < 0x20_0000_0000_0000 {
        assert(double_spacing(half) == 1);
        assert(double_spacing(n) == vstd::arithmetic::power2::pow2(1));
    } else {
        lemma_spacing(half);
        let k = choose|k: nat|
            double_spacing(half) == #[trigger] vstd::arithmetic::power2::pow2(k);
        vstd::arithmetic::power2::lemma_pow2_unfold(k + 1);
        assert(double_spacing(n) == vstd::arithmetic::power2::pow2(k + 1));
    }
}

/// A byte count reads as itself below 1024; from there on it reads as the
/// nearest number of tenths of the largest unit that it reaches.
pub proof fn how_byte_counts_read(n: nat)
    ensures
        ({
            let value = nearest_double(n);
            let reads = |size: nat, name: Seq<char>|
                exists|t: nat|
                    {
                        &&& bytes_shown(n) == #[trigger] text::decimal(t / 10) + "."@
                            + text::decimal(t % 10) + " "@ + name
                        &&& t == round_half_even(10 * value, size)
                        &&& 2 * (t * size) <= 2 * (10 * value) + size
                        &&& 2 * (10 * value) <= 2 * (t * size) + size
                    };
            &&& n < 1024 ==> bytes_shown(n) == text::decimal(n) + " B"@
            &&& 1024 <= value < 1024 * 1024 ==> reads(1024, "KiB"@)
            &&& 1024 * 1024 <= value < 1024 * 1024 * 1024 ==> reads(1024 * 1024, "MiB"@)
            &&& 1024 * 1024 * 1024 <= value < 1024 * 1024 * 1024 * 1024 ==> reads(
                1024 * 1024 * 1024,
                "GiB"@,
            )
            &&& value >= 1024 * 1024 * 1024 * 1024 ==> reads(1024 * 1024 * 1024 * 1024, "TiB"@)
        }),
{
    let value = nearest_double(n);
    if n < 1024 {
        small_counts_are_exact(n);
    }
    let unit = unit_index(value);
    let size = unit_size(unit);
    let t = round_half_even(10 * value, size);
    rounding_is_to_the_nearest(10 * value, size);
    if unit > 0 {
        assert(bytes_shown(n) == text::decimal(t / 10) + "."@ + text::decimal(t % 10) + " "@
            + unit_name(unit));
    }
}

} // verus!
