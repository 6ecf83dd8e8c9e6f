//! Byte counts written for people: bytes, KB, MB, GB or TB with two decimals.
//!
//! The figure shown is what `{:.2}` prints for the count turned into an
//! `f64` and divided by the unit: the count rounded to the nearest double
//! (ties to even), divided exactly by a power of two, then rounded to
//! hundredths (ties to even).
use vstd::prelude::*;
use vstd::string::*;
use crate::text::{decimal_string, decimal_text, digit_str, digit_text};

verus! {

/// `2` to the power `n`.
pub open spec fn two_pow(n: nat) -> int
    decreases n,
{
    if n == 0 {
        1
    } else {
        2 * two_pow((n - 1) as nat)
    }
}

/// The least power of two `2^s` with `s >= from` for which `b < 2^53 * 2^s`:
/// the spacing of doubles near `b`.
pub open spec fn spacing_from(b: int, from: nat) -> int
    decreases 64 - from,
{
    if from >= 64 || b < two_pow(53) * two_pow(from) {
        two_pow(from)
    } else {
        spacing_from(b, from + 1)
    }
}

/// `n / d` rounded to the nearest integer, ties to the even one (`d > 0`).
pub open spec fn div_round_even(n: int, d: int) -> int {
    let q = n / d;
    let r = n % d;
    if 2 * r > d || (2 * r == d && q % 2 == 1) {
        q + 1
    } else {
        q
    }
}

/// The double nearest the natural number `b`, ties to even.
pub open spec fn nearest_double(b: int) -> int {
    let u = spacing_from(b, 0);
    div_round_even(b, u) * u
}

/// `b` bytes in a unit of `unit` bytes, written with two decimals and the
/// unit's name `suffix`.
pub open spec fn scaled_text(b: int, unit: int, suffix: Seq<char>) -> Seq<char> {
    let h = div_round_even(nearest_double(b) * 100, unit);
    decimal_text(h / 100) + "."@ + digit_text((h % 100) / 10) + digit_text(h % 10) + suffix
}

/// How `bytes` is written: in the largest of TB, GB, MB and KB that it
/// reaches, and in plain bytes below one KB.
pub open spec fn bytes_text(bytes: int) -> Seq<char> {
    if bytes >= two_pow(40) {
        scaled_text(bytes, two_pow(40), " TB"@)
    } else if bytes >= two_pow(30) {
        scaled_text(bytes, two_pow(30), " GB"@)
    } else if bytes >= two_pow(20) {
        scaled_text(bytes, two_pow(20), " MB"@)
    } else if bytes >= two_pow(10) {
        scaled_text(bytes, two_pow(10), " KB"@)
    } else {
        decimal_text(bytes) + " bytes"@
    }
}

proof fn two_pow_values()
    ensures
        two_pow(10) == 1024,
        two_pow(20) == 1_048_576,
        two_pow(30) == 1_073_741_824,
        two_pow(40) == 1_099_511_627_776,
        two_pow(53) == 9_007_199_254_740_992,
{
    reveal_with_fuel(two_pow, 54);
}

proof fn two_pow_positive(n: nat)
    ensures
        two_pow(n) >= 1,
    decreases n,
{
    if n > 0 {
        two_pow_positive((n - 1) as nat);
    }
}

fn div_round_even_of(n: u128, d: u128) -> (r: u128)
    requires
        0 < d <= 0x1_0000_0000_0000_0000,
        n < 0x1_0000_0000_0000_0000_0000_0000,
    ensures
        r == div_round_even(n as int, d as int),
{
    let q = n / d;
    let rem = n % d;
    proof {
        assert(q <= n) by (nonlinear_arith)
            requires
                d > 0,
                q == n / d,
        ;
    }
    if 2 * rem > d || (2 * rem == d && q % 2 == 1) {
        q + 1
    } else {
        q
    }
}

proof fn two_pow_grows(a: nat, b: nat)
    requires
        a <= b,
    ensures
        two_pow(a) <= two_pow(b),
    decreases b,
{
    if a < b {
        two_pow_grows(a, (b - 1) as nat);
        two_pow_positive((b - 1) as nat);
    }
}

/// The double nearest `b`, ties to even, as an integer.
fn nearest_double_of(b: u64) -> (v: u128)
    requires
        b < 0x8000_0000_0000_0000,
    ensures
        v == nearest_double(b as int),
        v <= 0x8000_0000_0000_0000,
{
    proof {
        two_pow_values();
    }
    let top: u128 = 9_007_199_254_740_992;
    let mut unit: u128 = 1;
    let ghost mut s: nat = 0;
    while (b as u128) >= top * unit
        invariant
            s <= 10,
            unit == two_pow(s),
            1 <= unit <= 1024,
            top == two_pow(53),
            top == 9_007_199_254_740_992,
            b < 0x8000_0000_0000_0000,
            spacing_from(b as int, 0) == spacing_from(b as int, s),
        decreases 10 - s,
    {
        proof {
            two_pow_values();
            assert(unit < 1024) by (nonlinear_arith)
                requires
                    top * unit <= b,
                    b < 0x8000_0000_0000_0000,
                    top == 9_007_199_254_740_992,
            ;
            if s >= 10 {
                two_pow_grows(10, s);
            }
            assert(two_pow(s + 1) == 2 * two_pow(s));
            two_pow_grows(s + 1, 10);
        }
        unit = unit * 2;
        proof {
            s = s + 1;
        }
    }
    proof {
        assert(spacing_from(b as int, s) == unit);
    }
    let q = div_round_even_of(b as u128, unit);
    proof {
        assert(q <= top) by (nonlinear_arith)
            requires
                (b as int) < top * unit,
                unit >= 1,
                q == div_round_even(b as int, unit as int),
        {
            let qq = (b as int) / (unit as int);
            assert(qq * unit <= b);
            assert(qq < top);
        }
        assert(q * unit <= top * unit) by (nonlinear_arith)
            requires
                q <= top,
                unit >= 1,
        ;
    }
    q * unit
}

proof fn whole_units_text(n: int, unit: int, suffix: Seq<char>)
    requires
        1 <= n < 1024,
        unit == 1024 || unit == 1_048_576 || unit == 1_073_741_824 || unit == 1_099_511_627_776,
    ensures
        scaled_text(n * unit, unit, suffix) == decimal_text(n) + "."@ + "0"@ + "0"@ + suffix,
{
    two_pow_values();
    let b = n * unit;
    assert(0 < b < two_pow(53)) by (nonlinear_arith)
        requires
            1 <= n < 1024,
            unit <= 1_099_511_627_776,
            unit > 0,
            b == n * unit,
            two_pow(53) == 9_007_199_254_740_992,
    ;
    assert(two_pow(0) == 1);
    assert(spacing_from(b, 0) == 1);
    assert(b / 1 == b && b % 1 == 0);
    assert(nearest_double(b) == b);
    assert((b * 100) / unit == n * 100 && (b * 100) % unit == 0) by (nonlinear_arith)
        requires
            b == n * unit,
            unit > 0,
    {
        vstd::arithmetic::div_mod::lemma_fundamental_div_mod_converse(b * 100, unit, n * 100, 0);
    }
    let h = div_round_even(nearest_double(b) * 100, unit);
    assert(h == n * 100);
    assert(h / 100 == n && h % 100 == 0);
    reveal_strlit("0");
}

/// Whole numbers of a unit are written with two zero decimals: `n` KB, MB,
/// GB or TB, for `n` from 1 to 1023, reads "n.00" and the unit; below one
/// KB a count is written whole, followed by " bytes".
pub proof fn whole_units_written_exactly(n: int, b: int)
    requires
        1 <= n < 1024,
        0 <= b < 1024,
    ensures
        bytes_text(n * 1024) == decimal_text(n) + ".00 KB"@,
        bytes_text(n * 1_048_576) == decimal_text(n) + ".00 MB"@,
        bytes_text(n * 1_073_741_824) == decimal_text(n) + ".00 GB"@,
        bytes_text(n * 1_099_511_627_776) == decimal_text(n) + ".00 TB"@,
        bytes_text(b) == decimal_text(b) + " bytes"@,
{
    two_pow_values();
    reveal_strlit("0");
    reveal_strlit(".");
    reveal_strlit(" KB");
    reveal_strlit(" MB");
    reveal_strlit(" GB");
    reveal_strlit(" TB");
    reveal_strlit(".00 KB");
    reveal_strlit(".00 MB");
    reveal_strlit(".00 GB");
    reveal_strlit(".00 TB");
    whole_units_text(n, 1024, " KB"@);
    whole_units_text(n, 1_048_576, " MB"@);
    whole_units_text(n, 1_073_741_824, " GB"@);
    whole_units_text(n, 1_099_511_627_776, " TB"@);
    assert(decimal_text(n) + "."@ + "0"@ + "0"@ + " KB"@ =~= decimal_text(n) + ".00 KB"@);
    assert(decimal_text(n) + "."@ + "0"@ + "0"@ + " MB"@ =~= decimal_text(n) + ".00 MB"@);
    assert(decimal_text(n) + "."@ + "0"@ + "0"@ + " GB"@ =~= decimal_text(n) + ".00 GB"@);
    assert(decimal_text(n) + "."@ + "0"@ + "0"@ + " TB"@ =~= decimal_text(n) + ".00 TB"@);
}

/// `b` (at least one unit) in units of `unit` bytes, with two decimals and `suffix`.
fn scaled_string(b: u64, unit: u128, suffix: &str) -> (s: String)
    requires
        b < 0x8000_0000_0000_0000,
        1024 <= unit <= 1_099_511_627_776,
    ensures
        s@ == scaled_text(b as int, unit as int, suffix@),
{
    let v = nearest_double_of(b);
    let h = div_round_even_of(v * 100, unit);
    proof {
        assert(h <= 100 * 0x20_0000_0000_0000 + 1) by (nonlinear_arith)
            requires
                unit >= 1024,
                v <= 0x8000_0000_0000_0000,
                h == div_round_even((v * 100) as int, unit as int),
        {
            let qq = ((v * 100) as int) / (unit as int);
            assert(qq * unit <= v * 100);
            assert(qq * 1024 <= qq * unit);
            assert(qq <= 100 * 0x20_0000_0000_0000);
        }
    }
    let whole = (h / 100) as i64;
    let frac = h % 100;
    let mut out = decimal_string(whole);
    out.append(".");
    out.append(digit_str((frac / 10) as u64));
    out.append(digit_str((frac % 10) as u64));
    out.append(suffix);
    proof {
        assert(h % 10 == frac % 10);
    }
    out
}

/// `bytes` written for people, as `{:.2}` prints it in the largest unit
/// among TB, GB, MB and KB that it reaches, or as whole bytes below a KB.
pub fn format_bytes(bytes: i64) -> (s: String)
    ensures
        s@ == bytes_text(bytes as int),
{
    proof {
        two_pow_values();
    }
    if bytes >= 1_099_511_627_776 {
        scaled_string(bytes as u64, 1_099_511_627_776, " TB")
    } else if bytes >= 1_073_741_824 {
        scaled_string(bytes as u64, 1_073_741_824, " GB")
    } else if bytes >= 1_048_576 {
        scaled_string(bytes as u64, 1_048_576, " MB")
    } else if bytes >= 1024 {
        scaled_string(bytes as u64, 1024, " KB")
    } else {
        let mut out = decimal_string(bytes);
        out.append(" bytes");
        out
    }
}

} // verus!
