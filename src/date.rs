//! Resolution of one canonical date from a submission's date signals.

use vstd::prelude::*;
use crate::stamp::StampRecord;

verus! {

/// A canonical date: a year and at most one of month and week.
#[derive(Clone, Copy, Debug, PartialEq, Eq, Structural)]
pub struct ResolvedDate {
    pub year: Option<u16>,
    pub month: Option<u8>,
    pub week: Option<u8>,
}

/// Year precedence: the board's own date, then the stamp, then the
/// generation's static hint.
pub open spec fn resolved_year(
    board_year: Option<u16>,
    stamp: Option<StampRecord>,
    hint: Option<u16>,
) -> Option<u16> {
    match (board_year, stamp) {
        (Some(y), _) => Some(y),
        (None, Some(st)) => Some(st.year),
        (None, None) => hint,
    }
}

/// Month or week precedence: the board's month, then the stamp's month or
/// week. The hint, a year only, never supplies one.
pub open spec fn resolve_spec(
    board_year: Option<u16>,
    board_month: Option<u8>,
    stamp: Option<StampRecord>,
    hint: Option<u16>,
) -> ResolvedDate {
    let year = resolved_year(board_year, stamp, hint);
    match (board_month, stamp) {
        (Some(m), _) => ResolvedDate { year, month: Some(m), week: None },
        (None, Some(st)) => ResolvedDate { year, month: st.month, week: st.week },
        (None, None) => ResolvedDate { year, month: None, week: None },
    }
}

/// Combines the board's date, the decoded stamp and the generation's year
/// hint into one date.
pub fn resolve_date(
    board_year: Option<u16>,
    board_month: Option<u8>,
    stamp: Option<StampRecord>,
    hint: Option<u16>,
) -> (r: ResolvedDate)
    ensures
        r == resolve_spec(board_year, board_month, stamp, hint),
{
    let year = match (board_year, stamp) {
        (Some(y), _) => Some(y),
        (None, Some(st)) => Some(st.year),
        (None, None) => hint,
    };
    match (board_month, stamp) {
        (Some(m), _) => ResolvedDate { year, month: Some(m), week: None },
        (None, Some(st)) => ResolvedDate { year, month: st.month, week: st.week },
        (None, None) => ResolvedDate { year, month: None, week: None },
    }
}

/// A board year outranks a conflicting stamp year.
pub proof fn lemma_board_year_wins(
    board_year: u16,
    board_month: Option<u8>,
    stamp: StampRecord,
    hint: Option<u16>,
)
    ensures
        resolve_spec(Some(board_year), board_month, Some(stamp), hint).year == Some(board_year),
{
}

/// With no signal at all the date is absent, and a month or week never
/// comes from a year-only signal.
pub proof fn lemma_no_signal_no_date(hint: Option<u16>)
    ensures
        resolve_spec(None, None, None, None) == (ResolvedDate {
            year: None,
            month: None,
            week: None,
        }),
        resolve_spec(None, None, None, hint).month is None,
        resolve_spec(None, None, None, hint).week is None,
{
}

} // verus!
