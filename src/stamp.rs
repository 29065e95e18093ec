//! Ink-stamped lot codes of the two encoding eras.
//!
//! Both eras write three digits, an optional space and a serial of digits.
//! The earlier era writes the last digit of the year, then the month; the
//! later era writes the week, then the last digit of the year.

use vstd::prelude::*;
use crate::grammar::{is_digit, all_digits, chars_of};
use crate::part::BadField;
use crate::year::{infer_year, expand_year};

verus! {

/// The stamp encoding era.
#[derive(Clone, Copy, Debug, PartialEq, Eq, Structural)]
pub enum Era {
    Early,
    Later,
}

/// What a stamp tells: a full year and a month (earlier era) or a week
/// (later era).
#[derive(Clone, Copy, Debug, PartialEq, Eq, Structural)]
pub struct StampRecord {
    pub era: Era,
    pub year: u16,
    pub month: Option<u8>,
    pub week: Option<u8>,
}

/// Why a stamp was refused.
#[derive(Clone, Copy, Debug, PartialEq, Eq, Structural)]
pub enum StampFault {
    /// The stamp has not the era's shape.
    Unparsed,
    /// The stamp has the shape but a field is out of bounds.
    OutOfRange(BadField),
}

/// A refused stamp, with its text.
pub struct StampError {
    pub label: String,
    pub era: Era,
    pub fault: StampFault,
}

pub const STAMP_MIN_YEAR: u16 = 1989;

pub const STAMP_MAX_YEAR: u16 = 2010;

/// Leading characters of earlier-era stamps.
pub open spec fn early_lead(c: char) -> bool {
    '6' <= c && c <= '9'
}

/// The era whose grammar reads `s`: decided by the first character alone.
pub open spec fn era_for(s: Seq<char>) -> Era {
    if s.len() > 0 && early_lead(s[0]) {
        Era::Early
    } else {
        Era::Later
    }
}

pub open spec fn digit_at(s: Seq<char>, i: int) -> int {
    s[i] as int - '0' as int
}

/// Three digits, an optional space, then one or more digits to the end.
pub open spec fn stamp_shape(s: Seq<char>) -> bool {
    &&& s.len() >= 4
    &&& all_digits(s, 0, 3)
    &&& if s[3] == ' ' {
        s.len() >= 5 && all_digits(s, 4, s.len() as int)
    } else {
        all_digits(s, 3, s.len() as int)
    }
}

/// The year digit, and the month (earlier era) or week (later era).
pub open spec fn stamp_digits(era: Era, s: Seq<char>) -> (int, int) {
    match era {
        Era::Early => (digit_at(s, 0), digit_at(s, 1) * 10 + digit_at(s, 2)),
        Era::Later => (digit_at(s, 2), digit_at(s, 0) * 10 + digit_at(s, 1)),
    }
}

/// The outcome of reading `s` with the grammar of `era`: the full year, and
/// the month or week, or the fault.
pub open spec fn stamp_spec(era: Era, hint: Option<u16>, s: Seq<char>) -> Result<
    (int, int),
    StampFault,
> {
    if !stamp_shape(s) {
        Err(StampFault::Unparsed)
    } else {
        let (y, p) = stamp_digits(era, s);
        let year = infer_year(y, 10, hint);
        if !(STAMP_MIN_YEAR <= year <= STAMP_MAX_YEAR) {
            Err(StampFault::OutOfRange(BadField::Year))
        } else if era == Era::Early && !(1 <= p <= 12) {
            Err(StampFault::OutOfRange(BadField::Month))
        } else if era == Era::Later && !(1 <= p <= 53) {
            Err(StampFault::OutOfRange(BadField::Week))
        } else {
            Ok((year, p))
        }
    }
}

/// `r` is what the grammar of `era` gives for `s`.
pub open spec fn stamp_is(
    r: Result<StampRecord, StampError>,
    era: Era,
    hint: Option<u16>,
    s: Seq<char>,
) -> bool {
    match (stamp_spec(era, hint, s), r) {
        (Ok((year, p)), Ok(st)) => st.era == era && st.year == year && match era {
            Era::Early => st.month == Some(p as u8) && st.week is None,
            Era::Later => st.week == Some(p as u8) && st.month is None,
        },
        (Err(f), Err(e)) => e.fault == f && e.era == era && e.label@ == s,
        _ => false,
    }
}

fn all_digits_from(s: &Vec<char>, from: usize) -> (r: bool)
    requires
        from <= s@.len(),
    ensures
        r == all_digits(s@, from as int, s@.len() as int),
{
    let mut k: usize = from;
    while k < s.len()
        invariant
            from <= k <= s@.len(),
            all_digits(s@, from as int, k as int),
        decreases s@.len() - k,
    {
        if !('0' <= s[k] && s[k] <= '9') {
            assert(!is_digit(s@[k as int]));
            return false;
        }
        k = k + 1;
    }
    true
}

fn shape_ok(s: &Vec<char>) -> (r: bool)
    ensures
        r == stamp_shape(s@),
{
    if s.len() < 4 {
        return false;
    }
    let lead = ('0' <= s[0] && s[0] <= '9') && ('0' <= s[1] && s[1] <= '9') && ('0' <= s[2]
        && s[2] <= '9');
    if !lead {
        assert(!all_digits(s@, 0, 3)) by {
            assert(!is_digit(s@[0]) || !is_digit(s@[1]) || !is_digit(s@[2]));
        }
        return false;
    }
    assert(all_digits(s@, 0, 3)) by {
        assert forall|k: int| 0 <= k < 3 implies is_digit(#[trigger] s@[k]) by {
            if k == 0 {
            } else if k == 1 {
            } else {
            }
        }
    }
    if s[3] == ' ' {
        s.len() >= 5 && all_digits_from(s, 4)
    } else {
        all_digits_from(s, 3)
    }
}

/// Reads a stamp with the grammar of the given era; `hint` places the
/// one-digit year.
pub fn decode_stamp_era(era: Era, hint: Option<u16>, label: &str) -> (r: Result<
    StampRecord,
    StampError,
>)
    ensures
        stamp_is(r, era, hint, label@),
{
    let s = chars_of(label);
    if !shape_ok(&s) {
        return Err(StampError { label: label.to_owned(), era, fault: StampFault::Unparsed });
    }
    let d0 = (s[0] as u32 - '0' as u32) as u16;
    let d1 = (s[1] as u32 - '0' as u32) as u16;
    let d2 = (s[2] as u32 - '0' as u32) as u16;
    assert(is_digit(s@[0]) && is_digit(s@[1]) && is_digit(s@[2]));
    let (y, p) = match era {
        Era::Early => (d0, d1 * 10 + d2),
        Era::Later => (d2, d0 * 10 + d1),
    };
    let year = expand_year(y, 10, hint);
    if !(STAMP_MIN_YEAR as i64 <= year && year <= STAMP_MAX_YEAR as i64) {
        return Err(
            StampError {
                label: label.to_owned(),
                era,
                fault: StampFault::OutOfRange(BadField::Year),
            },
        );
    }
    match era {
        Era::Early => {
            if !(1 <= p && p <= 12) {
                return Err(
                    StampError {
                        label: label.to_owned(),
                        era,
                        fault: StampFault::OutOfRange(BadField::Month),
                    },
                );
            }
            Ok(StampRecord { era, year: year as u16, month: Some(p as u8), week: None })
        },
        Era::Later => {
            if !(1 <= p && p <= 53) {
                return Err(
                    StampError {
                        label: label.to_owned(),
                        era,
                        fault: StampFault::OutOfRange(BadField::Week),
                    },
                );
            }
            Ok(StampRecord { era, year: year as u16, month: None, week: Some(p as u8) })
        },
    }
}

/// Reads a stamp whose era is not known beforehand: a leading `6` to `9`
/// selects the earlier grammar, anything else the later one. The other
/// grammar is never tried.
pub fn decode_stamp(hint: Option<u16>, label: &str) -> (r: Result<StampRecord, StampError>)
    ensures
        stamp_is(r, era_for(label@), hint, label@),
{
    let early = match first_char(label) {
        Some(c) => '6' <= c && c <= '9',
        None => false,
    };
    if early {
        decode_stamp_era(Era::Early, hint, label)
    } else {
        decode_stamp_era(Era::Later, hint, label)
    }
}

fn first_char(label: &str) -> (r: Option<char>)
    ensures
        r == (if label@.len() > 0 {
            Some(label@[0])
        } else {
            None::<char>
        }),
{
    if label.unicode_len() > 0 {
        Some(label.get_char(0))
    } else {
        None
    }
}

/// A stamp that leads with an earlier-era digit is read by the earlier-era
/// grammar, whatever the later-era grammar would make of it.
pub proof fn lemma_early_lead_selects_early(hint: Option<u16>, s: Seq<char>)
    requires
        s.len() > 0,
        early_lead(s[0]),
    ensures
        era_for(s) == Era::Early,
        stamp_spec(era_for(s), hint, s) == stamp_spec(Era::Early, hint, s),
{
}

} // verus!
