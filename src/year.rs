//! Expansion of abbreviated years (one or two trailing digits) to full years.

use vstd::prelude::*;

verus! {

/// The full year congruent to `y` modulo `m` that lies in the window
/// `(h - m/2, h + m/2]` around the hint `h`.
pub open spec fn aligned_year(y: int, m: int, h: int) -> int {
    let c = h - h % m + y;
    if c > h + m / 2 {
        c - m
    } else if c <= h - m / 2 {
        c + m
    } else {
        c
    }
}

/// Expansion of an abbreviated year of modulus `m` (10 for one digit, 100 for
/// two) with an optional hint. Without a hint, two digits of 90 or more are
/// read as the 1990s and others as the 2000s; one digit is read as the 1990s.
pub open spec fn infer_year(y: int, m: int, hint: Option<u16>) -> int {
    match hint {
        Some(h) => aligned_year(y, m, h as int),
        None => if m == 100 {
            if y >= 90 {
                1900 + y
            } else {
                2000 + y
            }
        } else {
            1990 + y
        },
    }
}

proof fn lemma_aligned_window(y: int, m: int, h: int)
    requires
        m == 10 || m == 100,
        0 <= y < m,
        h >= 0,
    ensures
        h - m / 2 < aligned_year(y, m, h) <= h + m / 2,
        aligned_year(y, m, h) % m == y,
{
    let c = h - h % m + y;
    assert((h - h % m) % m == 0) by {
        vstd::arithmetic::div_mod::lemma_fundamental_div_mod(h, m);
        vstd::arithmetic::div_mod::lemma_mod_multiples_basic(h / m, m);
    }
    assert(c % m == y) by {
        vstd::arithmetic::div_mod::lemma_fundamental_div_mod(h, m);
        vstd::arithmetic::div_mod::lemma_mod_multiples_vanish(h / m, y, m);
        vstd::arithmetic::div_mod::lemma_small_mod(y as nat, m as nat);
    }
    assert((c - m) % m == y) by {
        vstd::arithmetic::div_mod::lemma_mod_sub_multiples_vanish(c, m);
    }
    assert((c + m) % m == y) by {
        vstd::arithmetic::div_mod::lemma_mod_add_multiples_vanish(c, m);
    }
}

/// Two-digit years resolve to the full year nearest the hint among all years
/// with those two trailing digits (ties go to the later year).
pub proof fn lemma_century_nearest(y: int, h: u16, z: int)
    requires
        0 <= y < 100,
        z % 100 == y,
    ensures
        infer_year(y, 100, Some(h)) % 100 == y,
        h - 50 < infer_year(y, 100, Some(h)) <= h + 50,
        abs_diff(infer_year(y, 100, Some(h)), h as int) <= abs_diff(z, h as int),
{
    lemma_aligned_window(y, 100, h as int);
    let x = aligned_year(y, 100, h as int);
    assert((z - x) % 100 == 0) by {
        vstd::arithmetic::div_mod::lemma_fundamental_div_mod(z, 100);
        vstd::arithmetic::div_mod::lemma_fundamental_div_mod(x, 100);
        vstd::arithmetic::div_mod::lemma_fundamental_div_mod_converse(
            z - x,
            100,
            z / 100 - x / 100,
            0,
        );
    }
    if z != x {
        assert(z - x >= 100 || z - x <= -100) by {
            vstd::arithmetic::div_mod::lemma_fundamental_div_mod(z - x, 100);
            let q = (z - x) / 100;
            assert(z - x == 100 * q);
            assert(q != 0);
            if q > 0 {
                assert(100 * q >= 100) by (nonlinear_arith)
                    requires
                        q >= 1,
                ;
            } else {
                assert(100 * q <= -100) by (nonlinear_arith)
                    requires
                        q <= -1,
                ;
            }
        }
    }
}

/// Distance between two integers.
pub open spec fn abs_diff(a: int, b: int) -> int {
    if a >= b {
        a - b
    } else {
        b - a
    }
}

/// Expanding again, with the first result as the hint or from its own
/// trailing digits, gives the same year.
pub proof fn lemma_century_stable(y: int, hint: Option<u16>)
    requires
        0 <= y < 100,
    ensures
        ({
            let x = infer_year(y, 100, hint);
            &&& 0 <= x <= u16::MAX ==> infer_year(y, 100, Some(x as u16)) == x
            &&& 0 <= x <= u16::MAX ==> infer_year(x % 100, 100, Some(x as u16)) == x
            &&& infer_year(x % 100, 100, hint) == x
        }),
{
    let x = infer_year(y, 100, hint);
    match hint {
        Some(h) => {
            lemma_aligned_window(y, 100, h as int);
        },
        None => {
            assert(x % 100 == y);
        },
    }
    if 0 <= x <= u16::MAX {
        lemma_aligned_window(y, 100, x);
        let c = x - x % 100 + y;
        assert(c == x);
    }
}

/// Expands a one- or two-digit year `value` (modulus `modulus`) with the
/// optional year hint.
pub fn expand_year(value: u16, modulus: u16, hint: Option<u16>) -> (r: i64)
    requires
        modulus == 10 || modulus == 100,
        value < modulus,
    ensures
        r == infer_year(value as int, modulus as int, hint),
{
    match hint {
        Some(h) => {
            let h = h as i64;
            let m = modulus as i64;
            let c = h - h % m + value as i64;
            if c > h + m / 2 {
                c - m
            } else if c <= h - m / 2 {
                c + m
            } else {
                c
            }
        },
        None => {
            if modulus == 100 {
                if value >= 90 {
                    1900 + value as i64
                } else {
                    2000 + value as i64
                }
            } else {
                1990 + value as i64
            }
        },
    }
}

/// Century inference for a two-digit year.
pub fn infer_century(value: u16, hint: Option<u16>) -> (r: i64)
    requires
        value < 100,
    ensures
        r == infer_year(value as int, 100, hint),
{
    expand_year(value, 100, hint)
}

} // verus!
