//! Part records and the decoding of a label with an ordered list of grammars.

use vstd::prelude::*;
use crate::grammar::{Token, Width, match_seq, run_tokens, chars_of};
use crate::year::{infer_year, expand_year};

verus! {

/// Maker of a component, as a label identifies it.
#[derive(Clone, Copy, Debug, PartialEq, Eq, Structural)]
pub enum Manufacturer {
    Nintendo,
    Sharp,
    Nec,
    Rohm,
    Mitsumi,
    Mitsubishi,
    Fujitsu,
    Sanyo,
    Toshiba,
    Kds,
    Kinseki,
    Bsi,
    Hynix,
    Tdk,
    Sony,
}

/// The physical identity of a component slot; each has its own decoder.
#[derive(Clone, Copy, Debug, PartialEq, Eq, Structural)]
pub enum PartFamily {
    Gen1Soc,
    Gen2Soc,
    CgbSoc,
    AgbSocQfp128,
    AgbSocQfp156,
    AgbSocBga,
    Ram,
    SramTsop48,
    DmgAmp,
    MgbAmp,
    AgbAmp,
    DmgReg,
    CgbReg,
    AgbReg,
    GbsReg,
    AgbPmic,
    AgsPmicOld,
    AgsPmicNew,
    AgsChargeCtrl,
    OxyPmic,
    OxyU4,
    OxyU5,
    GbsDol,
    Crystal4Mihz,
    Crystal8Mihz,
    Crystal20Mihz,
    Crystal32Mihz,
    Icd2,
    SgbRom,
    Cic,
    Coil,
    MglTransformer,
    LcdChip,
}

/// Which capture, if any, holds the year, and how it is written.
#[derive(Clone, Copy, Debug, PartialEq, Eq, Structural)]
pub enum YearField {
    Absent,
    /// A four-digit year in capture `k`.
    Full(usize),
    /// A year abbreviated to its last digit in capture `k`.
    OneDigit(usize),
    /// A year abbreviated to its last two digits in capture `k`.
    TwoDigit(usize),
}

/// Which capture, if any, holds the month or the week.
#[derive(Clone, Copy, Debug, PartialEq, Eq, Structural)]
pub enum PeriodField {
    Absent,
    Month(usize),
    Week(usize),
}

/// The field that made a matched label impossible.
#[derive(Clone, Copy, Debug, PartialEq, Eq, Structural)]
pub enum BadField {
    Year,
    Month,
    Week,
}

/// One label format: its tokens and where its fields come from.
pub struct Grammar {
    pub tokens: Vec<Token>,
    pub kind: String,
    pub maker: Option<Manufacturer>,
    pub year: YearField,
    pub period: PeriodField,
}

/// A decoder: label formats in priority order, and the plausible years.
pub struct Decoder {
    pub family: PartFamily,
    pub grammars: Vec<Grammar>,
    pub min_year: u16,
    pub max_year: u16,
}

/// What a matched label tells.
pub struct PartInfo {
    pub kind: String,
    pub manufacturer: Option<Manufacturer>,
    pub year: Option<u16>,
    pub month: Option<u8>,
    pub week: Option<u8>,
}

/// A decoded component; `info` is `None` for the fallback record of a label
/// that no format matched.
pub struct PartRecord {
    pub family: PartFamily,
    pub label: String,
    pub info: Option<PartInfo>,
}

/// A label that matched a format whose fields are out of bounds.
pub struct DecodeError {
    pub label: String,
    pub field: BadField,
}

/// A token as plain values.
pub enum TokenView {
    Lit(Seq<char>),
    OptLit(Seq<char>),
    Digits(Width),
    DigitRun,
    Upper,
    UpperRun,
    AnyOf(Seq<char>),
}

pub open spec fn token_view(t: Token) -> TokenView {
    match t {
        Token::Lit(v) => TokenView::Lit(v@),
        Token::OptLit(v) => TokenView::OptLit(v@),
        Token::Digits(w) => TokenView::Digits(w),
        Token::DigitRun => TokenView::DigitRun,
        Token::Upper => TokenView::Upper,
        Token::UpperRun => TokenView::UpperRun,
        Token::AnyOf(v) => TokenView::AnyOf(v@),
    }
}

/// A label format as plain values.
pub struct GrammarView {
    pub tokens: Seq<TokenView>,
    pub kind: Seq<char>,
    pub maker: Option<Manufacturer>,
    pub year: YearField,
    pub period: PeriodField,
}

pub open spec fn grammar_view(g: Grammar) -> GrammarView {
    GrammarView {
        tokens: Seq::new(g.tokens@.len(), |i: int| token_view(g.tokens@[i])),
        kind: g.kind@,
        maker: g.maker,
        year: g.year,
        period: g.period,
    }
}

/// A decoder as plain values: its family, formats in order, and the
/// plausible years.
pub struct DecoderView {
    pub family: PartFamily,
    pub grammars: Seq<GrammarView>,
    pub min_year: u16,
    pub max_year: u16,
}

pub open spec fn decoder_view(d: Decoder) -> DecoderView {
    DecoderView {
        family: d.family,
        grammars: Seq::new(d.grammars@.len(), |i: int| grammar_view(d.grammars@[i])),
        min_year: d.min_year,
        max_year: d.max_year,
    }
}

/// The captures of a grammar that matches the whole label.
pub open spec fn full_match(g: Grammar, s: Seq<char>) -> Option<Seq<int>> {
    match match_seq(g.tokens@, s) {
        Some((caps, end)) => if end == s.len() {
            Some(caps)
        } else {
            None
        },
        None => None,
    }
}

/// The first grammar from index `i` on that matches the whole label.
pub open spec fn first_match(gs: Seq<Grammar>, i: int, s: Seq<char>) -> Option<(int, Seq<int>)>
    decreases gs.len() - i,
{
    if i < 0 || i >= gs.len() {
        None
    } else {
        match full_match(gs[i], s) {
            Some(caps) => Some((i, caps)),
            None => first_match(gs, i + 1, s),
        }
    }
}

pub open spec fn cap(caps: Seq<int>, k: int) -> Option<int> {
    if 0 <= k < caps.len() {
        Some(caps[k])
    } else {
        None
    }
}

/// The year a grammar's captures give.
pub open spec fn year_of(f: YearField, caps: Seq<int>, hint: Option<u16>) -> Option<int> {
    match f {
        YearField::Absent => None,
        YearField::Full(k) => cap(caps, k as int),
        YearField::OneDigit(k) => match cap(caps, k as int) {
            Some(v) => Some(infer_year(v % 10, 10, hint)),
            None => None,
        },
        YearField::TwoDigit(k) => match cap(caps, k as int) {
            Some(v) => Some(infer_year(v % 100, 100, hint)),
            None => None,
        },
    }
}

pub open spec fn month_of(f: PeriodField, caps: Seq<int>) -> Option<int> {
    match f {
        PeriodField::Month(k) => cap(caps, k as int),
        _ => None,
    }
}

pub open spec fn week_of(f: PeriodField, caps: Seq<int>) -> Option<int> {
    match f {
        PeriodField::Week(k) => cap(caps, k as int),
        _ => None,
    }
}

/// The first field out of its bounds, if any.
pub open spec fn bad_field(
    min_year: u16,
    max_year: u16,
    year: Option<int>,
    month: Option<int>,
    week: Option<int>,
) -> Option<BadField> {
    if year matches Some(y) && !(min_year <= y <= max_year) {
        Some(BadField::Year)
    } else if month matches Some(m) && !(1 <= m <= 12) {
        Some(BadField::Month)
    } else if week matches Some(w) && !(1 <= w <= 53) {
        Some(BadField::Week)
    } else {
        None
    }
}

pub open spec fn opt_u16(o: Option<u16>) -> Option<int> {
    match o {
        Some(v) => Some(v as int),
        None => None,
    }
}

pub open spec fn opt_u8(o: Option<u8>) -> Option<int> {
    match o {
        Some(v) => Some(v as int),
        None => None,
    }
}

/// The outcome of decoding `s` with `d`: the first matching format decides;
/// an out-of-bounds field is an error naming the label; with no match, the
/// fallback record keeps the label verbatim.
pub open spec fn decodes_to(
    r: Result<PartRecord, DecodeError>,
    d: Decoder,
    hint: Option<u16>,
    s: Seq<char>,
) -> bool {
    match first_match(d.grammars@, 0, s) {
        None => match r {
            Ok(p) => p.family == d.family && p.label@ == s && p.info is None,
            Err(_) => false,
        },
        Some((i, caps)) => {
            let g = d.grammars@[i];
            let year = year_of(g.year, caps, hint);
            let month = month_of(g.period, caps);
            let week = week_of(g.period, caps);
            match (bad_field(d.min_year, d.max_year, year, month, week), r) {
                (Some(f), Err(e)) => e.field == f && e.label@ == s,
                (None, Ok(p)) => p.family == d.family && p.label@ == s && match p.info {
                    Some(info) => info.kind@ == g.kind@ && info.manufacturer == g.maker
                        && opt_u16(info.year) == year && opt_u8(info.month) == month && opt_u8(
                        info.week,
                    ) == week,
                    None => false,
                },
                _ => false,
            }
        },
    }
}

/// The field that makes decoding `s` fail, if any.
pub open spec fn decode_fault(d: Decoder, hint: Option<u16>, s: Seq<char>) -> Option<BadField> {
    match first_match(d.grammars@, 0, s) {
        None => None,
        Some((i, caps)) => {
            let g = d.grammars@[i];
            bad_field(
                d.min_year,
                d.max_year,
                year_of(g.year, caps, hint),
                month_of(g.period, caps),
                week_of(g.period, caps),
            )
        },
    }
}

/// Decoding fails exactly when a matched format has an impossible field.
pub proof fn lemma_decode_fault(
    r: Result<PartRecord, DecodeError>,
    d: Decoder,
    hint: Option<u16>,
    s: Seq<char>,
)
    requires
        decodes_to(r, d, hint, s),
    ensures
        r is Err <==> decode_fault(d, hint, s) is Some,
        r matches Err(e) ==> decode_fault(d, hint, s) == Some(e.field) && e.label@ == s,
{
}

/// A label that no format matches is kept verbatim in a fallback record,
/// and decoding it never fails.
pub proof fn lemma_unmatched_falls_back(
    r: Result<PartRecord, DecodeError>,
    d: Decoder,
    hint: Option<u16>,
    s: Seq<char>,
)
    requires
        decodes_to(r, d, hint, s),
        first_match(d.grammars@, 0, s) is None,
    ensures
        r matches Ok(p) && p.info is None && p.label@ == s && p.family == d.family,
{
}

/// The year `s` decodes to with `d`, when it decodes without error to a
/// record that has one.
pub open spec fn decoded_year(d: Decoder, hint: Option<u16>, s: Seq<char>) -> Option<u16> {
    match first_match(d.grammars@, 0, s) {
        None => None,
        Some((i, caps)) => if decode_fault(d, hint, s) is None {
            match year_of(d.grammars@[i].year, caps, hint) {
                Some(y) => Some(y as u16),
                None => None,
            }
        } else {
            None
        },
    }
}

/// A successful decode carries the decoded year.
pub proof fn lemma_decoded_year(p: PartRecord, d: Decoder, hint: Option<u16>, s: Seq<char>)
    requires
        decodes_to(Ok(p), d, hint, s),
    ensures
        decoded_year(d, hint, s) == match p.info {
            Some(info) => info.year,
            None => None,
        },
{
    match first_match(d.grammars@, 0, s) {
        None => {},
        Some((i, caps)) => {
            let info = p.info->0;
            match info.year {
                Some(y) => {
                    assert(year_of(d.grammars@[i].year, caps, hint) == Some(y as int));
                },
                None => {},
            }
        },
    }
}

/// The fallback record: only the label, kept verbatim.
pub fn fallback(family: PartFamily, label: &str) -> (r: PartRecord)
    ensures
        r.family == family,
        r.label@ == label@,
        r.info is None,
{
    PartRecord { family, label: label.to_owned(), info: None }
}

fn find_match(d: &Decoder, s: &Vec<char>) -> (r: Option<(usize, Vec<u16>)>)
    ensures
        match (r, first_match(d.grammars@, 0, s@)) {
            (None, None) => true,
            (Some((i, caps)), Some((si, scaps))) => i == si && i < d.grammars@.len()
                && caps@.len() == scaps.len() && forall|k: int|
                0 <= k < caps@.len() ==> caps@[k] as int == #[trigger] scaps[k],
            _ => false,
        },
{
    let mut i: usize = 0;
    while i < d.grammars.len()
        invariant
            i <= d.grammars@.len(),
            first_match(d.grammars@, 0, s@) == first_match(d.grammars@, i as int, s@),
        decreases d.grammars@.len() - i,
    {
        match run_tokens(&d.grammars[i].tokens, s) {
            Some((caps, end)) => {
                if end == s.len() {
                    return Some((i, caps));
                }
            },
            None => {},
        }
        i = i + 1;
    }
    None
}

fn get_cap(caps: &Vec<u16>, k: usize) -> (r: Option<u16>)
    ensures
        r == (if k < caps@.len() {
            Some(caps@[k as int])
        } else {
            None::<u16>
        }),
{
    if k < caps.len() {
        Some(caps[k])
    } else {
        None
    }
}

/// Decodes `label` with the decoder's formats in order, using `hint` for
/// abbreviated years.
pub fn decode(d: &Decoder, hint: Option<u16>, label: &str) -> (r: Result<PartRecord, DecodeError>)
    ensures
        decodes_to(r, *d, hint, label@),
{
    let s = chars_of(label);
    match find_match(d, &s) {
        None => Ok(fallback(d.family, label)),
        Some((i, caps)) => {
            let g = &d.grammars[i];
                let ghost found = first_match(d.grammars@, 0, s@)->0;
            let ghost scaps = found.1;
            let year: Option<i64> = match g.year {
                YearField::Absent => None,
                YearField::Full(k) => match get_cap(&caps, k) {
                    Some(v) => Some(v as i64),
                    None => None,
                },
                YearField::OneDigit(k) => match get_cap(&caps, k) {
                    Some(v) => Some(expand_year(v % 10, 10, hint)),
                    None => None,
                },
                YearField::TwoDigit(k) => match get_cap(&caps, k) {
                    Some(v) => Some(expand_year(v % 100, 100, hint)),
                    None => None,
                },
            };
            let (month, week): (Option<u16>, Option<u16>) = match g.period {
                PeriodField::Absent => (None, None),
                PeriodField::Month(k) => (get_cap(&caps, k), None),
                PeriodField::Week(k) => (None, get_cap(&caps, k)),
            };
            assert(year_of(g.year, scaps, hint) == match year {
                Some(y) => Some(y as int),
                None => None::<int>,
            });
            let bad = match year {
                Some(y) => !(d.min_year as i64 <= y && y <= d.max_year as i64),
                None => false,
            };
            if bad {
                return Err(DecodeError { label: label.to_owned(), field: BadField::Year });
            }
            if let Some(mo) = month {
                if !(1 <= mo && mo <= 12) {
                    return Err(DecodeError { label: label.to_owned(), field: BadField::Month });
                }
            }
            if let Some(w) = week {
                if !(1 <= w && w <= 53) {
                    return Err(DecodeError { label: label.to_owned(), field: BadField::Week });
                }
            }
            let year16: Option<u16> = match year {
                Some(y) => Some(y as u16),
                None => None,
            };
            let month8: Option<u8> = match month {
                Some(v) => Some(v as u8),
                None => None,
            };
            let week8: Option<u8> = match week {
                Some(v) => Some(v as u8),
                None => None,
            };
            Ok(
                PartRecord {
                    family: d.family,
                    label: label.to_owned(),
                    info: Some(
                        PartInfo {
                            kind: g.kind.clone(),
                            manufacturer: g.maker,
                            year: year16,
                            month: month8,
                            week: week8,
                        },
                    ),
                },
            )
        },
    }
}

/// Decodes an optional slot: an empty slot is no part, not an error.
pub fn decode_slot(d: &Decoder, hint: Option<u16>, label: &Option<String>) -> (r: Result<
    Option<PartRecord>,
    DecodeError,
>)
    ensures
        label is None ==> r matches Ok(None),
        label matches Some(l) ==> match r {
            Ok(Some(p)) => decodes_to(Ok(p), *d, hint, l@),
            Err(e) => decodes_to(Err(e), *d, hint, l@),
            Ok(None) => false,
        },
{
    match label {
        None => Ok(None),
        Some(l) => match decode(d, hint, l.as_str()) {
            Ok(p) => Ok(Some(p)),
            Err(e) => Err(e),
        },
    }
}

} // verus!
