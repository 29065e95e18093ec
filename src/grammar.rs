//! Grammar primitives: tokens matched left to right without backtracking.

use vstd::prelude::*;

verus! {

/// The number of digits of a fixed-width digit run.
#[derive(Clone, Copy, Debug, PartialEq, Eq, Structural)]
pub enum Width {
    One,
    Two,
    Three,
    Four,
}

pub open spec fn width_len(w: Width) -> int {
    match w {
        Width::One => 1,
        Width::Two => 2,
        Width::Three => 3,
        Width::Four => 4,
    }
}

fn width_count(w: Width) -> (r: usize)
    ensures
        r == width_len(w),
{
    match w {
        Width::One => 1,
        Width::Two => 2,
        Width::Three => 3,
        Width::Four => 4,
    }
}

/// One matching step of a grammar.
pub enum Token {
    /// Exactly this text.
    Lit(Vec<char>),
    /// This text or nothing; absence is success.
    OptLit(Vec<char>),
    /// Exactly as many ASCII digits as the width says; their value is captured.
    Digits(Width),
    /// One or more ASCII digits, as many as there are.
    DigitRun,
    /// One letter `A`..`Z`.
    Upper,
    /// One or more letters `A`..`Z`, as many as there are.
    UpperRun,
    /// One character of the set.
    AnyOf(Vec<char>),
}

pub open spec fn is_digit(c: char) -> bool {
    '0' <= c && c <= '9'
}

pub open spec fn is_upper(c: char) -> bool {
    'A' <= c && c <= 'Z'
}

/// Decimal value of a sequence of digits.
pub open spec fn digits_value(d: Seq<char>) -> int
    decreases d.len(),
{
    if d.len() == 0 {
        0
    } else {
        digits_value(d.drop_last()) * 10 + (d.last() as int - '0' as int)
    }
}

/// Number of consecutive characters from `pos` on that satisfy the class
/// (digits when `digits`, else capital letters).
pub open spec fn run_len(s: Seq<char>, pos: int, digits: bool) -> int
    decreases s.len() - pos,
{
    if pos < 0 || pos >= s.len() {
        0
    } else if (digits && is_digit(s[pos])) || (!digits && is_upper(s[pos])) {
        1 + run_len(s, pos + 1, digits)
    } else {
        0
    }
}

pub open spec fn lit_at(l: Seq<char>, s: Seq<char>, pos: int) -> bool {
    0 <= pos && pos + l.len() <= s.len() && s.subrange(pos, pos + l.len()) == l
}

pub open spec fn all_digits(s: Seq<char>, from: int, to: int) -> bool {
    forall|k: int| from <= k < to ==> is_digit(#[trigger] s[k])
}

/// What one token does at `pos`: where it ends and what it captures.
pub open spec fn match_token(t: Token, s: Seq<char>, pos: int) -> Option<(int, Seq<int>)> {
    match t {
        Token::Lit(l) => if lit_at(l@, s, pos) {
            Some((pos + l@.len(), seq![]))
        } else {
            None
        },
        Token::OptLit(l) => if lit_at(l@, s, pos) {
            Some((pos + l@.len(), seq![]))
        } else {
            Some((pos, seq![]))
        },
        Token::Digits(w) => if 0 <= pos && pos + width_len(w) <= s.len() && all_digits(
            s,
            pos,
            pos + width_len(w),
        ) {
            Some((pos + width_len(w), seq![digits_value(s.subrange(pos, pos + width_len(w)))]))
        } else {
            None
        },
        Token::DigitRun => if run_len(s, pos, true) > 0 {
            Some((pos + run_len(s, pos, true), seq![]))
        } else {
            None
        },
        Token::Upper => if 0 <= pos < s.len() && is_upper(s[pos]) {
            Some((pos + 1, seq![]))
        } else {
            None
        },
        Token::UpperRun => if run_len(s, pos, false) > 0 {
            Some((pos + run_len(s, pos, false), seq![]))
        } else {
            None
        },
        Token::AnyOf(set) => if 0 <= pos < s.len() && set@.contains(s[pos]) {
            Some((pos + 1, seq![]))
        } else {
            None
        },
    }
}

/// Tokens `i..` matched in sequence from `pos`, with the captures so far.
pub open spec fn match_from(ts: Seq<Token>, i: int, s: Seq<char>, pos: int, caps: Seq<int>) -> Option<
    (Seq<int>, int),
>
    decreases ts.len() - i,
{
    if i < 0 || i >= ts.len() {
        Some((caps, pos))
    } else {
        match match_token(ts[i], s, pos) {
            None => None,
            Some((e, c)) => match_from(ts, i + 1, s, e, caps + c),
        }
    }
}

/// A sequence of tokens matched from the start of `s`: the captured digit
/// values and the position where the unconsumed remainder begins.
pub open spec fn match_seq(ts: Seq<Token>, s: Seq<char>) -> Option<(Seq<int>, int)> {
    match_from(ts, 0, s, 0, seq![])
}

/// The characters of a string slice.
pub fn chars_of(s: &str) -> (r: Vec<char>)
    ensures
        r@ == s@,
{
    let n = s.unicode_len();
    let mut r: Vec<char> = Vec::new();
    let mut i: usize = 0;
    while i < n
        invariant
            n == s@.len(),
            i <= n,
            r@ == s@.subrange(0, i as int),
        decreases n - i,
    {
        r.push(s.get_char(i));
        i = i + 1;
    }
    assert(r@ == s@);
    r
}

pub open spec fn pow10(n: nat) -> int
    decreases n,
{
    if n == 0 {
        1
    } else {
        10 * pow10((n - 1) as nat)
    }
}

/// Length of the run of digits (or capitals) starting at `pos`.
fn scan_run(s: &Vec<char>, pos: usize, digits: bool) -> (r: usize)
    requires
        pos <= s@.len(),
    ensures
        r == run_len(s@, pos as int, digits),
        pos + r <= s@.len(),
{
    let mut k: usize = pos;
    while k < s.len() && in_class(s[k], digits)
        invariant
            pos <= k <= s@.len(),
            forall|q: int|
                pos <= q < k ==> (digits && is_digit(s@[q])) || (!digits && is_upper(s@[q])),
        decreases s@.len() - k,
    {
        k = k + 1;
    }
    proof {
        lemma_run_len_from(s@, pos as int, k as int, digits);
    }
    k - pos
}

fn in_class(c: char, digits: bool) -> (r: bool)
    ensures
        r == ((digits && is_digit(c)) || (!digits && is_upper(c))),
{
    if digits {
        '0' <= c && c <= '9'
    } else {
        'A' <= c && c <= 'Z'
    }
}

proof fn lemma_run_len_from(s: Seq<char>, pos: int, end: int, digits: bool)
    requires
        0 <= pos <= end <= s.len(),
        forall|q: int|
            pos <= q < end ==> (digits && is_digit(s[q])) || (!digits && is_upper(s[q])),
        end == s.len() || !((digits && is_digit(s[end])) || (!digits && is_upper(s[end]))),
    ensures
        run_len(s, pos, digits) == end - pos,
    decreases end - pos,
{
    if pos < end {
        lemma_run_len_from(s, pos + 1, end, digits);
    }
}

fn lit_matches(l: &Vec<char>, s: &Vec<char>, pos: usize) -> (r: bool)
    requires
        pos <= s@.len(),
    ensures
        r == lit_at(l@, s@, pos as int),
{
    let slen = s.len();
    if l.len() > slen - pos {
        return false;
    }
    let mut k: usize = 0;
    while k < l.len()
        invariant
            slen == s@.len(),
            pos + l@.len() <= s@.len(),
            k <= l@.len(),
            forall|q: int| 0 <= q < k ==> s@[pos + q] == l@[q],
        decreases l@.len() - k,
    {
        if s[pos + k] != l[k] {
            assert(s@.subrange(pos as int, pos + l@.len())[k as int] != l@[k as int]);
            return false;
        }
        k = k + 1;
    }
    assert(s@.subrange(pos as int, pos + l@.len()) == l@);
    true
}

fn set_contains(set: &Vec<char>, c: char) -> (r: bool)
    ensures
        r == set@.contains(c),
{
    let mut k: usize = 0;
    while k < set.len()
        invariant
            k <= set@.len(),
            forall|q: int| 0 <= q < k ==> set@[q] != c,
        decreases set@.len() - k,
    {
        if set[k] == c {
            return true;
        }
        k = k + 1;
    }
    false
}

/// Runs one token at `pos`.
pub fn step_token(t: &Token, s: &Vec<char>, pos: usize) -> (r: Option<(usize, Option<u16>)>)
    requires
        pos <= s@.len(),
    ensures
        match (r, match_token(*t, s@, pos as int)) {
            (None, None) => true,
            (Some((e, c)), Some((se, sc))) => e == se && e <= s@.len() && match c {
                Some(v) => sc == seq![v as int],
                None => sc == Seq::<int>::empty(),
            },
            _ => false,
        },
{
    let slen = s.len();
    match t {
        Token::Lit(l) => {
            if lit_matches(l, s, pos) {
                Some((pos + l.len(), None))
            } else {
                None
            }
        },
        Token::OptLit(l) => {
            if lit_matches(l, s, pos) {
                Some((pos + l.len(), None))
            } else {
                Some((pos, None))
            }
        },
        Token::Digits(w) => {
            let n = width_count(*w);
            if n > s.len() - pos {
                return None;
            }
            let mut v: u16 = 0;
            let mut k: usize = 0;
            while k < n
                invariant
                    *t == Token::Digits(*w),
                    n == width_len(*w),
                    slen == s@.len(),
                    1 <= n <= 4,
                    pos + n <= s@.len(),
                    k <= n,
                    all_digits(s@, pos as int, pos + k),
                    v == digits_value(s@.subrange(pos as int, pos + k)),
                    v < pow10(k as nat),
                decreases n - k,
            {
                let c = s[pos + k];
                if !('0' <= c && c <= '9') {
                    assert(!is_digit(s@[pos + k]));
                    assert(!all_digits(s@, pos as int, pos + n));
                    return None;
                }
                let ghost prev = s@.subrange(pos as int, pos + k);
                let ghost next = s@.subrange(pos as int, pos + k + 1);
                assert(next.drop_last() == prev);
                assert(pow10((k + 1) as nat) == 10 * pow10(k as nat));
                assert(pow10(k as nat) <= 1000) by {
                    reveal_with_fuel(pow10, 4);
                }
                v = v * 10 + (c as u32 - '0' as u32) as u16;
                k = k + 1;
            }
            Some((pos + n, Some(v)))
        },
        Token::DigitRun => {
            let k = scan_run(s, pos, true);
            if k > 0 {
                Some((pos + k, None))
            } else {
                None
            }
        },
        Token::Upper => {
            if pos < s.len() && 'A' <= s[pos] && s[pos] <= 'Z' {
                Some((pos + 1, None))
            } else {
                None
            }
        },
        Token::UpperRun => {
            let k = scan_run(s, pos, false);
            if k > 0 {
                Some((pos + k, None))
            } else {
                None
            }
        },
        Token::AnyOf(set) => {
            if pos < s.len() && set_contains(set, s[pos]) {
                Some((pos + 1, None))
            } else {
                None
            }
        },
    }
}

/// Runs a sequence of tokens from the start of `s`, returning the captured
/// digit values and where the remainder begins.
pub fn run_tokens(ts: &Vec<Token>, s: &Vec<char>) -> (r: Option<(Vec<u16>, usize)>)
    ensures
        match (r, match_seq(ts@, s@)) {
            (None, None) => true,
            (Some((caps, e)), Some((scaps, se))) => e == se && e <= s@.len() && caps@.len()
                == scaps.len() && forall|k: int|
                0 <= k < caps@.len() ==> caps@[k] as int == #[trigger] scaps[k],
            _ => false,
        },
{
    let mut caps: Vec<u16> = Vec::new();
    let mut pos: usize = 0;
    let mut i: usize = 0;
    let ghost scaps: Seq<int> = seq![];
    while i < ts.len()
        invariant
            i <= ts@.len(),
            pos <= s@.len(),
            caps@.len() == scaps.len(),
            forall|k: int| 0 <= k < caps@.len() ==> caps@[k] as int == #[trigger] scaps[k],
            match_seq(ts@, s@) == match_from(ts@, i as int, s@, pos as int, scaps),
        decreases ts@.len() - i,
    {
        match step_token(&ts[i], s, pos) {
            None => {
                return None;
            },
            Some((e, c)) => {
                match c {
                    Some(v) => {
                        caps.push(v);
                        proof {
                            scaps = scaps + seq![v as int];
                        }
                    },
                    None => {
                        proof {
                            assert(scaps + Seq::<int>::empty() == scaps);
                        }
                    },
                }
                pos = e;
            },
        }
        i = i + 1;
    }
    Some((caps, pos))
}

} // verus!
