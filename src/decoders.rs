//! The component decoders: one ordered list of label formats per part family.

use vstd::prelude::*;
use crate::grammar::{Token, Width, chars_of};
use crate::part::{
    Decoder,
    DecoderView,
    Grammar,
    GrammarView,
    Manufacturer,
    PartFamily,
    PeriodField,
    TokenView,
    YearField,
    decoder_view,
    grammar_view,
    token_view,
};

verus! {

fn lit(s: &str) -> (r: Token)
    ensures
        token_view(r) == TokenView::Lit(s@),
{
    Token::Lit(chars_of(s))
}

fn any_of(s: &str) -> (r: Token)
    ensures
        token_view(r) == TokenView::AnyOf(s@),
{
    Token::AnyOf(chars_of(s))
}

fn format(
    tokens: Vec<Token>,
    kind: &str,
    maker: Option<Manufacturer>,
    year: YearField,
    period: PeriodField,
) -> (r: Grammar)
    ensures
        grammar_view(r) == (GrammarView {
            tokens: Seq::new(tokens@.len(), |i: int| token_view(tokens@[i])),
            kind: kind@,
            maker,
            year,
            period,
        }),
{
    Grammar { tokens, kind: kind.to_owned(), maker, year, period }
}

/// The format `<prefix>YYWW`, optionally followed by a space and one lot
/// letter.
pub open spec fn year_week_v(
    prefix: Seq<char>,
    kind: Seq<char>,
    maker: Option<Manufacturer>,
    lot: bool,
) -> GrammarView {
    GrammarView {
        tokens: seq![
            TokenView::Lit(prefix),
            TokenView::Digits(Width::Two),
            TokenView::Digits(Width::Two),
        ] + if lot {
            seq![TokenView::Lit(seq![' ']), TokenView::Upper]
        } else {
            seq![]
        },
        kind,
        maker,
        year: YearField::TwoDigit(0),
        period: PeriodField::Week(1),
    }
}

fn year_week(prefix: &str, kind: &str, maker: Option<Manufacturer>, lot: bool) -> (r: Grammar)
    ensures
        grammar_view(r) == year_week_v(prefix@, kind@, maker, lot),
{
    let mut tokens = vec![lit(prefix), Token::Digits(Width::Two), Token::Digits(Width::Two)];
    if lot {
        let space = lit(" ");
        proof {
            reveal_strlit(" ");
            assert(" "@ =~= seq![' ']);
        }
        tokens.push(space);
        tokens.push(Token::Upper);
    }
    let r = format(tokens, kind, maker, YearField::TwoDigit(0), PeriodField::Week(1));
    assert(grammar_view(r).tokens =~= year_week_v(prefix@, kind@, maker, lot).tokens);
    r
}

/// The format `<prefix>YWW`: the last digit of the year and a two-digit week.
pub open spec fn digit_year_week_v(
    prefix: Seq<char>,
    kind: Seq<char>,
    maker: Option<Manufacturer>,
) -> GrammarView {
    GrammarView {
        tokens: seq![
            TokenView::Lit(prefix),
            TokenView::Digits(Width::One),
            TokenView::Digits(Width::Two),
        ],
        kind,
        maker,
        year: YearField::OneDigit(0),
        period: PeriodField::Week(1),
    }
}

fn digit_year_week(prefix: &str, kind: &str, maker: Option<Manufacturer>) -> (r: Grammar)
    ensures
        grammar_view(r) == digit_year_week_v(prefix@, kind@, maker),
{
    let tokens = vec![lit(prefix), Token::Digits(Width::One), Token::Digits(Width::Two)];
    let r = format(tokens, kind, maker, YearField::OneDigit(0), PeriodField::Week(1));
    assert(grammar_view(r).tokens =~= digit_year_week_v(prefix@, kind@, maker).tokens);
    r
}

/// The format `<prefix>YMM`: the last digit of the year and a two-digit month.
pub open spec fn digit_year_month_v(
    prefix: Seq<char>,
    kind: Seq<char>,
    maker: Option<Manufacturer>,
) -> GrammarView {
    GrammarView {
        tokens: seq![
            TokenView::Lit(prefix),
            TokenView::Digits(Width::One),
            TokenView::Digits(Width::Two),
        ],
        kind,
        maker,
        year: YearField::OneDigit(0),
        period: PeriodField::Month(1),
    }
}

fn digit_year_month(prefix: &str, kind: &str, maker: Option<Manufacturer>) -> (r: Grammar)
    ensures
        grammar_view(r) == digit_year_month_v(prefix@, kind@, maker),
{
    let tokens = vec![lit(prefix), Token::Digits(Width::One), Token::Digits(Width::Two)];
    let r = format(tokens, kind, maker, YearField::OneDigit(0), PeriodField::Month(1));
    assert(grammar_view(r).tokens =~= digit_year_month_v(prefix@, kind@, maker).tokens);
    r
}

/// The format `<prefix>Y` followed by a lot letter: the last digit of the
/// year only.
pub open spec fn digit_year_v(prefix: Seq<char>, kind: Seq<char>, maker: Option<Manufacturer>) -> GrammarView {
    GrammarView {
        tokens: seq![TokenView::Lit(prefix), TokenView::Digits(Width::One), TokenView::Upper],
        kind,
        maker,
        year: YearField::OneDigit(0),
        period: PeriodField::Absent,
    }
}

fn digit_year(prefix: &str, kind: &str, maker: Option<Manufacturer>) -> (r: Grammar)
    ensures
        grammar_view(r) == digit_year_v(prefix@, kind@, maker),
{
    let tokens = vec![lit(prefix), Token::Digits(Width::One), Token::Upper];
    let r = format(tokens, kind, maker, YearField::OneDigit(0), PeriodField::Absent);
    assert(grammar_view(r).tokens =~= digit_year_v(prefix@, kind@, maker).tokens);
    r
}

/// A fixed marking that carries no date.
pub open spec fn undated_v(text: Seq<char>, kind: Seq<char>, maker: Option<Manufacturer>) -> GrammarView {
    GrammarView {
        tokens: seq![TokenView::Lit(text)],
        kind,
        maker,
        year: YearField::Absent,
        period: PeriodField::Absent,
    }
}

fn undated(text: &str, kind: &str, maker: Option<Manufacturer>) -> (r: Grammar)
    ensures
        grammar_view(r) == undated_v(text@, kind@, maker),
{
    let r = format(vec![lit(text)], kind, maker, YearField::Absent, PeriodField::Absent);
    assert(grammar_view(r).tokens =~= undated_v(text@, kind@, maker).tokens);
    r
}

/// A processor marking with a revision letter in `revisions` after `head`,
/// then `tail`, `YYWW` and a lot letter.
pub open spec fn revised_v(
    head: Seq<char>,
    revisions: Seq<char>,
    tail: Seq<char>,
    kind: Seq<char>,
) -> GrammarView {
    GrammarView {
        tokens: seq![
            TokenView::Lit(head),
            TokenView::AnyOf(revisions),
            TokenView::Lit(tail),
            TokenView::Digits(Width::Two),
            TokenView::Digits(Width::Two),
            TokenView::Lit(seq![' ']),
            TokenView::Upper,
        ],
        kind,
        maker: Some(Manufacturer::Sharp),
        year: YearField::TwoDigit(0),
        period: PeriodField::Week(1),
    }
}

fn revised(head: &str, revisions: &str, tail: &str, kind: &str) -> (r: Grammar)
    ensures
        grammar_view(r) == revised_v(head@, revisions@, tail@, kind@),
{
    let space = lit(" ");
    proof {
        reveal_strlit(" ");
        assert(" "@ =~= seq![' ']);
    }
    let tokens = vec![
        lit(head),
        any_of(revisions),
        lit(tail),
        Token::Digits(Width::Two),
        Token::Digits(Width::Two),
        space,
        Token::Upper,
    ];
    let r = format(
        tokens,
        kind,
        Some(Manufacturer::Sharp),
        YearField::TwoDigit(0),
        PeriodField::Week(1),
    );
    assert(grammar_view(r).tokens =~= revised_v(head@, revisions@, tail@, kind@).tokens);
    r
}

fn decoder(family: PartFamily, grammars: Vec<Grammar>, min_year: u16, max_year: u16) -> (r: Decoder)
    ensures
        decoder_view(r) == (DecoderView {
            family,
            grammars: Seq::new(grammars@.len(), |i: int| grammar_view(grammars@[i])),
            min_year,
            max_year,
        }),
{
    Decoder { family, grammars, min_year, max_year }
}

/// The formats of `gen1_soc`.
pub open spec fn gen1_soc_table() -> DecoderView {
    DecoderView {
        family: PartFamily::Gen1Soc,
        grammars: seq![
            revised_v("DMG-CPU "@, "ABC"@, " © 1989 Nintendo JAPAN "@, "DMG-CPU"@),
            year_week_v("DMG-CPU © 1989 Nintendo JAPAN "@, "DMG-CPU"@, Some(Manufacturer::Sharp), true),
            year_week_v("SGB-CPU 01 © 1994 Nintendo © 1989 Nintendo JAPAN "@, "SGB-CPU 01"@, Some(Manufacturer::Sharp), true),
        ],
        min_year: 1989,
        max_year: 1999,
    }
}

/// First-generation processors (DMG-CPU and SGB-CPU).
pub fn gen1_soc() -> (r: Decoder)
    ensures
        r.family == PartFamily::Gen1Soc,
        decoder_view(r) == gen1_soc_table(),
{
    let sharp = Some(Manufacturer::Sharp);
    let g = vec![
        revised("DMG-CPU ", "ABC", " © 1989 Nintendo JAPAN ", "DMG-CPU"),
        year_week("DMG-CPU © 1989 Nintendo JAPAN ", "DMG-CPU", sharp, true),
        year_week("SGB-CPU 01 © 1994 Nintendo © 1989 Nintendo JAPAN ", "SGB-CPU 01", sharp, true),
    ];
    let r = decoder(PartFamily::Gen1Soc, g, 1989, 1999);
    assert(decoder_view(r).grammars =~= gen1_soc_table().grammars);
    r
}

/// The formats of `gen2_soc`.
pub open spec fn gen2_soc_table() -> DecoderView {
    DecoderView {
        family: PartFamily::Gen2Soc,
        grammars: seq![
            year_week_v("CPU MGB © 1996 Nintendo JAPAN "@, "CPU MGB"@, Some(Manufacturer::Sharp), true),
            year_week_v("CPU SGB2 © 1996 Nintendo © 1989 Nintendo JAPAN "@, "CPU SGB2"@, Some(Manufacturer::Sharp), true),
        ],
        min_year: 1995,
        max_year: 2005,
    }
}

/// Second-generation processors (CPU MGB and CPU SGB2).
pub fn gen2_soc() -> (r: Decoder)
    ensures
        r.family == PartFamily::Gen2Soc,
        decoder_view(r) == gen2_soc_table(),
{
    let sharp = Some(Manufacturer::Sharp);
    let g = vec![
        year_week("CPU MGB © 1996 Nintendo JAPAN ", "CPU MGB", sharp, true),
        year_week("CPU SGB2 © 1996 Nintendo © 1989 Nintendo JAPAN ", "CPU SGB2", sharp, true),
    ];
    let r = decoder(PartFamily::Gen2Soc, g, 1995, 2005);
    assert(decoder_view(r).grammars =~= gen2_soc_table().grammars);
    r
}

/// The formats of `cgb_soc`.
pub open spec fn cgb_soc_table() -> DecoderView {
    DecoderView {
        family: PartFamily::CgbSoc,
        grammars: seq![
            revised_v("CPU CGB "@, "ABCDE"@, " © 1998 Nintendo JAPAN "@, "CPU CGB"@),
            year_week_v("CPU CGB © 1998 Nintendo JAPAN "@, "CPU CGB"@, Some(Manufacturer::Sharp), true),
        ],
        min_year: 1997,
        max_year: 2005,
    }
}

/// Colour-generation processors.
pub fn cgb_soc() -> (r: Decoder)
    ensures
        r.family == PartFamily::CgbSoc,
        decoder_view(r) == cgb_soc_table(),
{
    let g = vec![
        revised("CPU CGB ", "ABCDE", " © 1998 Nintendo JAPAN ", "CPU CGB"),
        year_week("CPU CGB © 1998 Nintendo JAPAN ", "CPU CGB", Some(Manufacturer::Sharp), true),
    ];
    let r = decoder(PartFamily::CgbSoc, g, 1997, 2005);
    assert(decoder_view(r).grammars =~= cgb_soc_table().grammars);
    r
}

/// The formats of `agb_soc_qfp_128`.
pub open spec fn agb_soc_qfp_128_table() -> DecoderView {
    DecoderView {
        family: PartFamily::AgbSocQfp128,
        grammars: seq![
            revised_v("CPU AGB "@, "AB"@, " © 2000 Nintendo JAPAN ARM "@, "CPU AGB"@),
        ],
        min_year: 2000,
        max_year: 2010,
    }
}

/// Advance-generation processors in the 128-pin package.
pub fn agb_soc_qfp_128() -> (r: Decoder)
    ensures
        r.family == PartFamily::AgbSocQfp128,
        decoder_view(r) == agb_soc_qfp_128_table(),
{
    let g = vec![revised("CPU AGB ", "AB", " © 2000 Nintendo JAPAN ARM ", "CPU AGB")];
    let r = decoder(PartFamily::AgbSocQfp128, g, 2000, 2010);
    assert(decoder_view(r).grammars =~= agb_soc_qfp_128_table().grammars);
    r
}

/// The formats of `agb_soc_qfp_156`.
pub open spec fn agb_soc_qfp_156_table() -> DecoderView {
    DecoderView {
        family: PartFamily::AgbSocQfp156,
        grammars: seq![
            revised_v("CPU AGB "@, "BCDE"@, " © 2003 Nintendo JAPAN ARM "@, "CPU AGB"@),
        ],
        min_year: 2002,
        max_year: 2010,
    }
}

/// Advance-generation processors in the 156-pin package.
pub fn agb_soc_qfp_156() -> (r: Decoder)
    ensures
        r.family == PartFamily::AgbSocQfp156,
        decoder_view(r) == agb_soc_qfp_156_table(),
{
    let g = vec![revised("CPU AGB ", "BCDE", " © 2003 Nintendo JAPAN ARM ", "CPU AGB")];
    let r = decoder(PartFamily::AgbSocQfp156, g, 2002, 2010);
    assert(decoder_view(r).grammars =~= agb_soc_qfp_156_table().grammars);
    r
}

/// The formats of `agb_soc_bga`.
pub open spec fn agb_soc_bga_table() -> DecoderView {
    DecoderView {
        family: PartFamily::AgbSocBga,
        grammars: seq![
            revised_v("CPU AGB "@, "E"@, " © 2004 Nintendo JAPAN ARM "@, "CPU AGB"@),
        ],
        min_year: 2004,
        max_year: 2010,
    }
}

/// Advance-generation processors in the ball-grid package.
pub fn agb_soc_bga() -> (r: Decoder)
    ensures
        r.family == PartFamily::AgbSocBga,
        decoder_view(r) == agb_soc_bga_table(),
{
    let g = vec![revised("CPU AGB ", "E", " © 2004 Nintendo JAPAN ARM ", "CPU AGB")];
    let r = decoder(PartFamily::AgbSocBga, g, 2004, 2010);
    assert(decoder_view(r).grammars =~= agb_soc_bga_table().grammars);
    r
}

/// The formats of `ram`.
pub open spec fn ram_table() -> DecoderView {
    DecoderView {
        family: PartFamily::Ram,
        grammars: seq![
            year_week_v("LH5164AN-10L "@, "LH5164AN"@, Some(Manufacturer::Sharp), true),
            digit_year_month_v("M5M5178AFP-85 JAPAN "@, "M5M5178AFP"@, Some(Manufacturer::Mitsubishi)),
            year_week_v("D4168C-15 NEC JAPAN "@, "µPD4168C"@, Some(Manufacturer::Nec), false),
            year_week_v("BS62LV256SC-70 "@, "BS62LV256SC"@, Some(Manufacturer::Bsi), false),
        ],
        min_year: 1988,
        max_year: 2005,
    }
}

/// 64-kbit static RAM of the earlier generations.
pub fn ram() -> (r: Decoder)
    ensures
        r.family == PartFamily::Ram,
        decoder_view(r) == ram_table(),
{
    let g = vec![
        year_week("LH5164AN-10L ", "LH5164AN", Some(Manufacturer::Sharp), true),
        digit_year_month("M5M5178AFP-85 JAPAN ", "M5M5178AFP", Some(Manufacturer::Mitsubishi)),
        year_week("D4168C-15 NEC JAPAN ", "µPD4168C", Some(Manufacturer::Nec), false),
        year_week("BS62LV256SC-70 ", "BS62LV256SC", Some(Manufacturer::Bsi), false),
    ];
    let r = decoder(PartFamily::Ram, g, 1988, 2005);
    assert(decoder_view(r).grammars =~= ram_table().grammars);
    r
}

/// The formats of `sram_tsop1_48`.
pub open spec fn sram_tsop1_48_table() -> DecoderView {
    DecoderView {
        family: PartFamily::SramTsop48,
        grammars: seq![
            year_week_v("LH52A64N-YL "@, "LH52A64N"@, Some(Manufacturer::Sharp), true),
            year_week_v("HY62WT081ED70C "@, "HY62WT081ED70C"@, Some(Manufacturer::Hynix), false),
            year_week_v("MB82D01171A-90 "@, "MB82D01171A"@, Some(Manufacturer::Fujitsu), false),
        ],
        min_year: 2000,
        max_year: 2010,
    }
}

/// Work RAM of the advance generation, 48-pin package.
pub fn sram_tsop1_48() -> (r: Decoder)
    ensures
        r.family == PartFamily::SramTsop48,
        decoder_view(r) == sram_tsop1_48_table(),
{
    let g = vec![
        year_week("LH52A64N-YL ", "LH52A64N", Some(Manufacturer::Sharp), true),
        year_week("HY62WT081ED70C ", "HY62WT081ED70C", Some(Manufacturer::Hynix), false),
        year_week("MB82D01171A-90 ", "MB82D01171A", Some(Manufacturer::Fujitsu), false),
    ];
    let r = decoder(PartFamily::SramTsop48, g, 2000, 2010);
    assert(decoder_view(r).grammars =~= sram_tsop1_48_table().grammars);
    r
}

/// The formats of `dmg_amp`.
pub open spec fn dmg_amp_table() -> DecoderView {
    DecoderView {
        family: PartFamily::DmgAmp,
        grammars: seq![
            year_week_v("IR3R40 "@, "IR3R40"@, Some(Manufacturer::Sharp), true),
        ],
        min_year: 1989,
        max_year: 1999,
    }
}

/// Audio amplifier of the first generation.
pub fn dmg_amp() -> (r: Decoder)
    ensures
        r.family == PartFamily::DmgAmp,
        decoder_view(r) == dmg_amp_table(),
{
    let g = vec![year_week("IR3R40 ", "IR3R40", Some(Manufacturer::Sharp), true)];
    let r = decoder(PartFamily::DmgAmp, g, 1989, 1999);
    assert(decoder_view(r).grammars =~= dmg_amp_table().grammars);
    r
}

/// The formats of `mgb_amp`.
pub open spec fn mgb_amp_table() -> DecoderView {
    DecoderView {
        family: PartFamily::MgbAmp,
        grammars: seq![
            year_week_v("AMP MGB IR3R53N "@, "IR3R53N"@, Some(Manufacturer::Sharp), true),
            year_week_v("AMP MGB IR3R56N "@, "IR3R56N"@, Some(Manufacturer::Sharp), true),
        ],
        min_year: 1995,
        max_year: 2005,
    }
}

/// Audio amplifiers of the second and colour generations.
pub fn mgb_amp() -> (r: Decoder)
    ensures
        r.family == PartFamily::MgbAmp,
        decoder_view(r) == mgb_amp_table(),
{
    let sharp = Some(Manufacturer::Sharp);
    let g = vec![
        year_week("AMP MGB IR3R53N ", "IR3R53N", sharp, true),
        year_week("AMP MGB IR3R56N ", "IR3R56N", sharp, true),
    ];
    let r = decoder(PartFamily::MgbAmp, g, 1995, 2005);
    assert(decoder_view(r).grammars =~= mgb_amp_table().grammars);
    r
}

/// The formats of `agb_amp`.
pub open spec fn agb_amp_table() -> DecoderView {
    DecoderView {
        family: PartFamily::AgbAmp,
        grammars: seq![
            year_week_v("AMP AGB IR3R60N "@, "IR3R60N"@, Some(Manufacturer::Sharp), true),
            year_week_v("AMP AGB IR3R62N "@, "IR3R62N"@, Some(Manufacturer::Sharp), true),
        ],
        min_year: 2000,
        max_year: 2010,
    }
}

/// Audio amplifiers of the advance generation.
pub fn agb_amp() -> (r: Decoder)
    ensures
        r.family == PartFamily::AgbAmp,
        decoder_view(r) == agb_amp_table(),
{
    let sharp = Some(Manufacturer::Sharp);
    let g = vec![
        year_week("AMP AGB IR3R60N ", "IR3R60N", sharp, true),
        year_week("AMP AGB IR3R62N ", "IR3R62N", sharp, true),
    ];
    let r = decoder(PartFamily::AgbAmp, g, 2000, 2010);
    assert(decoder_view(r).grammars =~= agb_amp_table().grammars);
    r
}

/// The formats of `dmg_reg`.
pub open spec fn dmg_reg_table() -> DecoderView {
    DecoderView {
        family: PartFamily::DmgReg,
        grammars: seq![
            year_week_v("IR3E02 "@, "IR3E02"@, Some(Manufacturer::Sharp), true),
            year_week_v("IR3E06N "@, "IR3E06N"@, Some(Manufacturer::Sharp), true),
        ],
        min_year: 1989,
        max_year: 2005,
    }
}

/// Voltage regulators of the first and second generations.
pub fn dmg_reg() -> (r: Decoder)
    ensures
        r.family == PartFamily::DmgReg,
        decoder_view(r) == dmg_reg_table(),
{
    let sharp = Some(Manufacturer::Sharp);
    let g = vec![
        year_week("IR3E02 ", "IR3E02", sharp, true),
        year_week("IR3E06N ", "IR3E06N", sharp, true),
    ];
    let r = decoder(PartFamily::DmgReg, g, 1989, 2005);
    assert(decoder_view(r).grammars =~= dmg_reg_table().grammars);
    r
}

/// The formats of `cgb_reg`.
pub open spec fn cgb_reg_table() -> DecoderView {
    DecoderView {
        family: PartFamily::CgbReg,
        grammars: seq![
            year_week_v("IR3E06N "@, "IR3E06N"@, Some(Manufacturer::Sharp), true),
            year_week_v("IR3E09N "@, "IR3E09N"@, Some(Manufacturer::Sharp), true),
        ],
        min_year: 1997,
        max_year: 2005,
    }
}

/// Voltage regulators of the colour generation.
pub fn cgb_reg() -> (r: Decoder)
    ensures
        r.family == PartFamily::CgbReg,
        decoder_view(r) == cgb_reg_table(),
{
    let sharp = Some(Manufacturer::Sharp);
    let g = vec![
        year_week("IR3E06N ", "IR3E06N", sharp, true),
        year_week("IR3E09N ", "IR3E09N", sharp, true),
    ];
    let r = decoder(PartFamily::CgbReg, g, 1997, 2005);
    assert(decoder_view(r).grammars =~= cgb_reg_table().grammars);
    r
}

/// The formats of `agb_reg`.
pub open spec fn agb_reg_table() -> DecoderView {
    DecoderView {
        family: PartFamily::AgbReg,
        grammars: seq![
            year_week_v("AGB-REG IR3E09N "@, "IR3E09N"@, Some(Manufacturer::Sharp), true),
            digit_year_week_v("S6403 "@, "S6403"@, Some(Manufacturer::Mitsumi)),
        ],
        min_year: 2000,
        max_year: 2010,
    }
}

/// Voltage regulators of the advance generation.
pub fn agb_reg() -> (r: Decoder)
    ensures
        r.family == PartFamily::AgbReg,
        decoder_view(r) == agb_reg_table(),
{
    let g = vec![
        year_week("AGB-REG IR3E09N ", "IR3E09N", Some(Manufacturer::Sharp), true),
        digit_year_week("S6403 ", "S6403", Some(Manufacturer::Mitsumi)),
    ];
    let r = decoder(PartFamily::AgbReg, g, 2000, 2010);
    assert(decoder_view(r).grammars =~= agb_reg_table().grammars);
    r
}

/// The formats of `gbs_reg`.
pub open spec fn gbs_reg_table() -> DecoderView {
    DecoderView {
        family: PartFamily::GbsReg,
        grammars: seq![
            digit_year_week_v("MM1581A "@, "MM1581A"@, Some(Manufacturer::Mitsumi)),
        ],
        min_year: 2002,
        max_year: 2010,
    }
}

/// Voltage regulators of the player accessory.
pub fn gbs_reg() -> (r: Decoder)
    ensures
        r.family == PartFamily::GbsReg,
        decoder_view(r) == gbs_reg_table(),
{
    let g = vec![digit_year_week("MM1581A ", "MM1581A", Some(Manufacturer::Mitsumi))];
    let r = decoder(PartFamily::GbsReg, g, 2002, 2010);
    assert(decoder_view(r).grammars =~= gbs_reg_table().grammars);
    r
}

/// The formats of `agb_pmic`.
pub open spec fn agb_pmic_table() -> DecoderView {
    DecoderView {
        family: PartFamily::AgbPmic,
        grammars: seq![
            digit_year_week_v("MM1514X "@, "MM1514X"@, Some(Manufacturer::Mitsumi)),
            year_week_v("BH6172GU "@, "BH6172GU"@, Some(Manufacturer::Rohm), false),
        ],
        min_year: 2000,
        max_year: 2010,
    }
}

/// Power management of the advance generation.
pub fn agb_pmic() -> (r: Decoder)
    ensures
        r.family == PartFamily::AgbPmic,
        decoder_view(r) == agb_pmic_table(),
{
    let g = vec![
        digit_year_week("MM1514X ", "MM1514X", Some(Manufacturer::Mitsumi)),
        year_week("BH6172GU ", "BH6172GU", Some(Manufacturer::Rohm), false),
    ];
    let r = decoder(PartFamily::AgbPmic, g, 2000, 2010);
    assert(decoder_view(r).grammars =~= agb_pmic_table().grammars);
    r
}

/// The formats of `ags_pmic_old`.
pub open spec fn ags_pmic_old_table() -> DecoderView {
    DecoderView {
        family: PartFamily::AgsPmicOld,
        grammars: seq![
            year_week_v("BH6173GU "@, "BH6173GU"@, Some(Manufacturer::Rohm), false),
        ],
        min_year: 2002,
        max_year: 2010,
    }
}

/// Power management of the earlier front-lit model.
pub fn ags_pmic_old() -> (r: Decoder)
    ensures
        r.family == PartFamily::AgsPmicOld,
        decoder_view(r) == ags_pmic_old_table(),
{
    let g = vec![year_week("BH6173GU ", "BH6173GU", Some(Manufacturer::Rohm), false)];
    let r = decoder(PartFamily::AgsPmicOld, g, 2002, 2010);
    assert(decoder_view(r).grammars =~= ags_pmic_old_table().grammars);
    r
}

/// The formats of `ags_pmic_new`.
pub open spec fn ags_pmic_new_table() -> DecoderView {
    DecoderView {
        family: PartFamily::AgsPmicNew,
        grammars: seq![
            year_week_v("BD6902KV "@, "BD6902KV"@, Some(Manufacturer::Rohm), false),
        ],
        min_year: 2004,
        max_year: 2010,
    }
}

/// Power management of the later front-lit models.
pub fn ags_pmic_new() -> (r: Decoder)
    ensures
        r.family == PartFamily::AgsPmicNew,
        decoder_view(r) == ags_pmic_new_table(),
{
    let g = vec![year_week("BD6902KV ", "BD6902KV", Some(Manufacturer::Rohm), false)];
    let r = decoder(PartFamily::AgsPmicNew, g, 2004, 2010);
    assert(decoder_view(r).grammars =~= ags_pmic_new_table().grammars);
    r
}

/// The formats of `ags_charge_ctrl`.
pub open spec fn ags_charge_ctrl_table() -> DecoderView {
    DecoderView {
        family: PartFamily::AgsChargeCtrl,
        grammars: seq![
            digit_year_week_v("2253B "@, "2253B"@, Some(Manufacturer::Mitsumi)),
            year_week_v("BH6179KV "@, "BH6179KV"@, Some(Manufacturer::Rohm), false),
        ],
        min_year: 2002,
        max_year: 2010,
    }
}

/// Battery charge controllers of the front-lit models.
pub fn ags_charge_ctrl() -> (r: Decoder)
    ensures
        r.family == PartFamily::AgsChargeCtrl,
        decoder_view(r) == ags_charge_ctrl_table(),
{
    let g = vec![
        digit_year_week("2253B ", "2253B", Some(Manufacturer::Mitsumi)),
        year_week("BH6179KV ", "BH6179KV", Some(Manufacturer::Rohm), false),
    ];
    let r = decoder(PartFamily::AgsChargeCtrl, g, 2002, 2010);
    assert(decoder_view(r).grammars =~= ags_charge_ctrl_table().grammars);
    r
}

/// The formats of `oxy_pmic`.
pub open spec fn oxy_pmic_table() -> DecoderView {
    DecoderView {
        family: PartFamily::OxyPmic,
        grammars: seq![
            year_week_v("BU9548GU "@, "BU9548GU"@, Some(Manufacturer::Rohm), false),
        ],
        min_year: 2004,
        max_year: 2010,
    }
}

/// Power management of the compact model.
pub fn oxy_pmic() -> (r: Decoder)
    ensures
        r.family == PartFamily::OxyPmic,
        decoder_view(r) == oxy_pmic_table(),
{
    let g = vec![year_week("BU9548GU ", "BU9548GU", Some(Manufacturer::Rohm), false)];
    let r = decoder(PartFamily::OxyPmic, g, 2004, 2010);
    assert(decoder_view(r).grammars =~= oxy_pmic_table().grammars);
    r
}

/// The formats of `oxy_u4`.
pub open spec fn oxy_u4_table() -> DecoderView {
    DecoderView {
        family: PartFamily::OxyU4,
        grammars: seq![
            digit_year_week_v("S6960E "@, "S6960E"@, Some(Manufacturer::Mitsumi)),
        ],
        min_year: 2004,
        max_year: 2010,
    }
}

/// The compact model's U4 chip.
pub fn oxy_u4() -> (r: Decoder)
    ensures
        r.family == PartFamily::OxyU4,
        decoder_view(r) == oxy_u4_table(),
{
    let g = vec![digit_year_week("S6960E ", "S6960E", Some(Manufacturer::Mitsumi))];
    let r = decoder(PartFamily::OxyU4, g, 2004, 2010);
    assert(decoder_view(r).grammars =~= oxy_u4_table().grammars);
    r
}

/// The formats of `oxy_u5`.
pub open spec fn oxy_u5_table() -> DecoderView {
    DecoderView {
        family: PartFamily::OxyU5,
        grammars: seq![
            year_week_v("BH7805GU "@, "BH7805GU"@, Some(Manufacturer::Rohm), false),
        ],
        min_year: 2004,
        max_year: 2010,
    }
}

/// The compact model's U5 chip.
pub fn oxy_u5() -> (r: Decoder)
    ensures
        r.family == PartFamily::OxyU5,
        decoder_view(r) == oxy_u5_table(),
{
    let g = vec![year_week("BH7805GU ", "BH7805GU", Some(Manufacturer::Rohm), false)];
    let r = decoder(PartFamily::OxyU5, g, 2004, 2010);
    assert(decoder_view(r).grammars =~= oxy_u5_table().grammars);
    r
}

/// The formats of `gbs_dol`.
pub open spec fn gbs_dol_table() -> DecoderView {
    DecoderView {
        family: PartFamily::GbsDol,
        grammars: seq![
            year_week_v("GBS-DOL © 2003 Nintendo "@, "GBS-DOL"@, Some(Manufacturer::Nintendo), false),
        ],
        min_year: 2002,
        max_year: 2010,
    }
}

/// The player accessory's link chip.
pub fn gbs_dol() -> (r: Decoder)
    ensures
        r.family == PartFamily::GbsDol,
        decoder_view(r) == gbs_dol_table(),
{
    let g = vec![year_week("GBS-DOL © 2003 Nintendo ", "GBS-DOL", Some(Manufacturer::Nintendo), false)];
    let r = decoder(PartFamily::GbsDol, g, 2002, 2010);
    assert(decoder_view(r).grammars =~= gbs_dol_table().grammars);
    r
}

/// The formats of `crystal_4mihz`.
pub open spec fn crystal_4mihz_table() -> DecoderView {
    DecoderView {
        family: PartFamily::Crystal4Mihz,
        grammars: seq![
            digit_year_v("4.19 KDS "@, "4.19"@, Some(Manufacturer::Kds)),
            digit_year_v("KINSEKI 4.19 "@, "4.19"@, Some(Manufacturer::Kinseki)),
        ],
        min_year: 1989,
        max_year: 2010,
    }
}

/// 4 MiHz crystals.
pub fn crystal_4mihz() -> (r: Decoder)
    ensures
        r.family == PartFamily::Crystal4Mihz,
        decoder_view(r) == crystal_4mihz_table(),
{
    let g = vec![
        digit_year("4.19 KDS ", "4.19", Some(Manufacturer::Kds)),
        digit_year("KINSEKI 4.19 ", "4.19", Some(Manufacturer::Kinseki)),
    ];
    let r = decoder(PartFamily::Crystal4Mihz, g, 1989, 2010);
    assert(decoder_view(r).grammars =~= crystal_4mihz_table().grammars);
    r
}

/// The formats of `crystal_8mihz`.
pub open spec fn crystal_8mihz_table() -> DecoderView {
    DecoderView {
        family: PartFamily::Crystal8Mihz,
        grammars: seq![
            digit_year_v("8.38 KDS "@, "8.38"@, Some(Manufacturer::Kds)),
            digit_year_v("KINSEKI 8.38 "@, "8.38"@, Some(Manufacturer::Kinseki)),
        ],
        min_year: 1997,
        max_year: 2005,
    }
}

/// 8 MiHz crystals.
pub fn crystal_8mihz() -> (r: Decoder)
    ensures
        r.family == PartFamily::Crystal8Mihz,
        decoder_view(r) == crystal_8mihz_table(),
{
    let g = vec![
        digit_year("8.38 KDS ", "8.38", Some(Manufacturer::Kds)),
        digit_year("KINSEKI 8.38 ", "8.38", Some(Manufacturer::Kinseki)),
    ];
    let r = decoder(PartFamily::Crystal8Mihz, g, 1997, 2005);
    assert(decoder_view(r).grammars =~= crystal_8mihz_table().grammars);
    r
}

/// The formats of `crystal_20mihz`.
pub open spec fn crystal_20mihz_table() -> DecoderView {
    DecoderView {
        family: PartFamily::Crystal20Mihz,
        grammars: seq![
            digit_year_v("20.9 KDS "@, "20.9"@, Some(Manufacturer::Kds)),
        ],
        min_year: 1997,
        max_year: 2005,
    }
}

/// 20 MiHz crystals.
pub fn crystal_20mihz() -> (r: Decoder)
    ensures
        r.family == PartFamily::Crystal20Mihz,
        decoder_view(r) == crystal_20mihz_table(),
{
    let g = vec![digit_year("20.9 KDS ", "20.9", Some(Manufacturer::Kds))];
    let r = decoder(PartFamily::Crystal20Mihz, g, 1997, 2005);
    assert(decoder_view(r).grammars =~= crystal_20mihz_table().grammars);
    r
}

/// The formats of `crystal_32mihz`.
pub open spec fn crystal_32mihz_table() -> DecoderView {
    DecoderView {
        family: PartFamily::Crystal32Mihz,
        grammars: seq![
            digit_year_v("33.5 KDS "@, "33.5"@, Some(Manufacturer::Kds)),
        ],
        min_year: 2002,
        max_year: 2010,
    }
}

/// 32 MiHz crystals.
pub fn crystal_32mihz() -> (r: Decoder)
    ensures
        r.family == PartFamily::Crystal32Mihz,
        decoder_view(r) == crystal_32mihz_table(),
{
    let g = vec![digit_year("33.5 KDS ", "33.5", Some(Manufacturer::Kds))];
    let r = decoder(PartFamily::Crystal32Mihz, g, 2002, 2010);
    assert(decoder_view(r).grammars =~= crystal_32mihz_table().grammars);
    r
}

/// The formats of `icd2`.
pub open spec fn icd2_table() -> DecoderView {
    DecoderView {
        family: PartFamily::Icd2,
        grammars: seq![
            year_week_v("ICD2-R © 1994 Nintendo "@, "ICD2-R"@, None, false),
            year_week_v("ICD2-N © 1994 Nintendo "@, "ICD2-N"@, None, false),
        ],
        min_year: 1994,
        max_year: 2000,
    }
}

/// The super adapter's interface chip.
pub fn icd2() -> (r: Decoder)
    ensures
        r.family == PartFamily::Icd2,
        decoder_view(r) == icd2_table(),
{
    let g = vec![
        year_week("ICD2-R © 1994 Nintendo ", "ICD2-R", None, false),
        year_week("ICD2-N © 1994 Nintendo ", "ICD2-N", None, false),
    ];
    let r = decoder(PartFamily::Icd2, g, 1994, 2000);
    assert(decoder_view(r).grammars =~= icd2_table().grammars);
    r
}

/// The formats of `sgb_rom`.
pub open spec fn sgb_rom_table() -> DecoderView {
    DecoderView {
        family: PartFamily::SgbRom,
        grammars: seq![
            year_week_v("SYS-SGB-2 © 1994 Nintendo "@, "SYS-SGB-2"@, None, false),
            year_week_v("SYS-SGB2-10 © 1998 Nintendo "@, "SYS-SGB2-10"@, None, false),
        ],
        min_year: 1994,
        max_year: 2000,
    }
}

/// The super adapter's program ROM.
pub fn sgb_rom() -> (r: Decoder)
    ensures
        r.family == PartFamily::SgbRom,
        decoder_view(r) == sgb_rom_table(),
{
    let g = vec![
        year_week("SYS-SGB-2 © 1994 Nintendo ", "SYS-SGB-2", None, false),
        year_week("SYS-SGB2-10 © 1998 Nintendo ", "SYS-SGB2-10", None, false),
    ];
    let r = decoder(PartFamily::SgbRom, g, 1994, 2000);
    assert(decoder_view(r).grammars =~= sgb_rom_table().grammars);
    r
}

/// The formats of `cic`.
pub open spec fn cic_table() -> DecoderView {
    DecoderView {
        family: PartFamily::Cic,
        grammars: seq![
            year_week_v("F411A © 1990 Nintendo "@, "F411A"@, None, false),
            year_week_v("F413A © 1992 Nintendo "@, "F413A"@, None, false),
        ],
        min_year: 1990,
        max_year: 2000,
    }
}

/// Lockout chips.
pub fn cic() -> (r: Decoder)
    ensures
        r.family == PartFamily::Cic,
        decoder_view(r) == cic_table(),
{
    let g = vec![
        year_week("F411A © 1990 Nintendo ", "F411A", None, false),
        year_week("F413A © 1992 Nintendo ", "F413A", None, false),
    ];
    let r = decoder(PartFamily::Cic, g, 1990, 2000);
    assert(decoder_view(r).grammars =~= cic_table().grammars);
    r
}

/// The formats of `coil`.
pub open spec fn coil_table() -> DecoderView {
    DecoderView {
        family: PartFamily::Coil,
        grammars: seq![
            undated_v("TDK 220"@, "220"@, Some(Manufacturer::Tdk)),
        ],
        min_year: 1989,
        max_year: 2010,
    }
}

/// Coils.
pub fn coil() -> (r: Decoder)
    ensures
        r.family == PartFamily::Coil,
        decoder_view(r) == coil_table(),
{
    let g = vec![undated("TDK 220", "220", Some(Manufacturer::Tdk))];
    let r = decoder(PartFamily::Coil, g, 1989, 2010);
    assert(decoder_view(r).grammars =~= coil_table().grammars);
    r
}

/// The formats of `mgl_transformer`.
pub open spec fn mgl_transformer_table() -> DecoderView {
    DecoderView {
        family: PartFamily::MglTransformer,
        grammars: seq![
            undated_v("82Y7"@, "82Y7"@, None),
        ],
        min_year: 1997,
        max_year: 2000,
    }
}

/// The backlit model's transformer.
pub fn mgl_transformer() -> (r: Decoder)
    ensures
        r.family == PartFamily::MglTransformer,
        decoder_view(r) == mgl_transformer_table(),
{
    let g = vec![undated("82Y7", "82Y7", None)];
    let r = decoder(PartFamily::MglTransformer, g, 1997, 2000);
    assert(decoder_view(r).grammars =~= mgl_transformer_table().grammars);
    r
}

/// The formats of `lcd_chip`.
pub open spec fn lcd_chip_table() -> DecoderView {
    DecoderView {
        family: PartFamily::LcdChip,
        grammars: seq![
            year_week_v("LH5028 "@, "LH5028"@, Some(Manufacturer::Sharp), false),
            year_week_v("LH5075 "@, "LH5075"@, Some(Manufacturer::Sharp), false),
        ],
        min_year: 1989,
        max_year: 2000,
    }
}

/// Column and row drivers of the first-generation screen.
pub fn lcd_chip() -> (r: Decoder)
    ensures
        r.family == PartFamily::LcdChip,
        decoder_view(r) == lcd_chip_table(),
{
    let sharp = Some(Manufacturer::Sharp);
    let g = vec![
        year_week("LH5028 ", "LH5028", sharp, false),
        year_week("LH5075 ", "LH5075", sharp, false),
    ];
    let r = decoder(PartFamily::LcdChip, g, 1989, 2000);
    assert(decoder_view(r).grammars =~= lcd_chip_table().grammars);
    r
}

/// The decoder of each family, as plain values.
pub open spec fn table_of(f: PartFamily) -> DecoderView {
    match f {
        PartFamily::Gen1Soc => gen1_soc_table(),
        PartFamily::Gen2Soc => gen2_soc_table(),
        PartFamily::CgbSoc => cgb_soc_table(),
        PartFamily::AgbSocQfp128 => agb_soc_qfp_128_table(),
        PartFamily::AgbSocQfp156 => agb_soc_qfp_156_table(),
        PartFamily::AgbSocBga => agb_soc_bga_table(),
        PartFamily::Ram => ram_table(),
        PartFamily::SramTsop48 => sram_tsop1_48_table(),
        PartFamily::DmgAmp => dmg_amp_table(),
        PartFamily::MgbAmp => mgb_amp_table(),
        PartFamily::AgbAmp => agb_amp_table(),
        PartFamily::DmgReg => dmg_reg_table(),
        PartFamily::CgbReg => cgb_reg_table(),
        PartFamily::AgbReg => agb_reg_table(),
        PartFamily::GbsReg => gbs_reg_table(),
        PartFamily::AgbPmic => agb_pmic_table(),
        PartFamily::AgsPmicOld => ags_pmic_old_table(),
        PartFamily::AgsPmicNew => ags_pmic_new_table(),
        PartFamily::AgsChargeCtrl => ags_charge_ctrl_table(),
        PartFamily::OxyPmic => oxy_pmic_table(),
        PartFamily::OxyU4 => oxy_u4_table(),
        PartFamily::OxyU5 => oxy_u5_table(),
        PartFamily::GbsDol => gbs_dol_table(),
        PartFamily::Crystal4Mihz => crystal_4mihz_table(),
        PartFamily::Crystal8Mihz => crystal_8mihz_table(),
        PartFamily::Crystal20Mihz => crystal_20mihz_table(),
        PartFamily::Crystal32Mihz => crystal_32mihz_table(),
        PartFamily::Icd2 => icd2_table(),
        PartFamily::SgbRom => sgb_rom_table(),
        PartFamily::Cic => cic_table(),
        PartFamily::Coil => coil_table(),
        PartFamily::MglTransformer => mgl_transformer_table(),
        PartFamily::LcdChip => lcd_chip_table(),
    }
}

/// Position of a family's decoder in the registry.
pub open spec fn family_index(f: PartFamily) -> int {
    match f {
        PartFamily::Gen1Soc => 0,
        PartFamily::Gen2Soc => 1,
        PartFamily::CgbSoc => 2,
        PartFamily::AgbSocQfp128 => 3,
        PartFamily::AgbSocQfp156 => 4,
        PartFamily::AgbSocBga => 5,
        PartFamily::Ram => 6,
        PartFamily::SramTsop48 => 7,
        PartFamily::DmgAmp => 8,
        PartFamily::MgbAmp => 9,
        PartFamily::AgbAmp => 10,
        PartFamily::DmgReg => 11,
        PartFamily::CgbReg => 12,
        PartFamily::AgbReg => 13,
        PartFamily::GbsReg => 14,
        PartFamily::AgbPmic => 15,
        PartFamily::AgsPmicOld => 16,
        PartFamily::AgsPmicNew => 17,
        PartFamily::AgsChargeCtrl => 18,
        PartFamily::OxyPmic => 19,
        PartFamily::OxyU4 => 20,
        PartFamily::OxyU5 => 21,
        PartFamily::GbsDol => 22,
        PartFamily::Crystal4Mihz => 23,
        PartFamily::Crystal8Mihz => 24,
        PartFamily::Crystal20Mihz => 25,
        PartFamily::Crystal32Mihz => 26,
        PartFamily::Icd2 => 27,
        PartFamily::SgbRom => 28,
        PartFamily::Cic => 29,
        PartFamily::Coil => 30,
        PartFamily::MglTransformer => 31,
        PartFamily::LcdChip => 32,
    }
}

pub const FAMILY_COUNT: usize = 33;

fn family_position(f: PartFamily) -> (r: usize)
    ensures
        r == family_index(f),
{
    match f {
        PartFamily::Gen1Soc => 0,
        PartFamily::Gen2Soc => 1,
        PartFamily::CgbSoc => 2,
        PartFamily::AgbSocQfp128 => 3,
        PartFamily::AgbSocQfp156 => 4,
        PartFamily::AgbSocBga => 5,
        PartFamily::Ram => 6,
        PartFamily::SramTsop48 => 7,
        PartFamily::DmgAmp => 8,
        PartFamily::MgbAmp => 9,
        PartFamily::AgbAmp => 10,
        PartFamily::DmgReg => 11,
        PartFamily::CgbReg => 12,
        PartFamily::AgbReg => 13,
        PartFamily::GbsReg => 14,
        PartFamily::AgbPmic => 15,
        PartFamily::AgsPmicOld => 16,
        PartFamily::AgsPmicNew => 17,
        PartFamily::AgsChargeCtrl => 18,
        PartFamily::OxyPmic => 19,
        PartFamily::OxyU4 => 20,
        PartFamily::OxyU5 => 21,
        PartFamily::GbsDol => 22,
        PartFamily::Crystal4Mihz => 23,
        PartFamily::Crystal8Mihz => 24,
        PartFamily::Crystal20Mihz => 25,
        PartFamily::Crystal32Mihz => 26,
        PartFamily::Icd2 => 27,
        PartFamily::SgbRom => 28,
        PartFamily::Cic => 29,
        PartFamily::Coil => 30,
        PartFamily::MglTransformer => 31,
        PartFamily::LcdChip => 32,
    }
}

/// Every component decoder, each at its family's position.
pub struct Registry {
    pub decoders: Vec<Decoder>,
}

pub open spec fn registry_wf(reg: Registry) -> bool {
    &&& reg.decoders@.len() == FAMILY_COUNT
    &&& forall|f: PartFamily| (#[trigger] reg.decoders@[family_index(f)]).family == f
    &&& forall|f: PartFamily| decoder_view(#[trigger] reg.decoders@[family_index(f)]) == table_of(f)
}

/// Builds the registry of all component decoders.
pub fn registry() -> (r: Registry)
    ensures
        registry_wf(r),
{
    let decoders = vec![
        gen1_soc(),
        gen2_soc(),
        cgb_soc(),
        agb_soc_qfp_128(),
        agb_soc_qfp_156(),
        agb_soc_bga(),
        ram(),
        sram_tsop1_48(),
        dmg_amp(),
        mgb_amp(),
        agb_amp(),
        dmg_reg(),
        cgb_reg(),
        agb_reg(),
        gbs_reg(),
        agb_pmic(),
        ags_pmic_old(),
        ags_pmic_new(),
        ags_charge_ctrl(),
        oxy_pmic(),
        oxy_u4(),
        oxy_u5(),
        gbs_dol(),
        crystal_4mihz(),
        crystal_8mihz(),
        crystal_20mihz(),
        crystal_32mihz(),
        icd2(),
        sgb_rom(),
        cic(),
        coil(),
        mgl_transformer(),
        lcd_chip(),
    ];
    let r = Registry { decoders };
    assert forall|f: PartFamily|
        (#[trigger] r.decoders@[family_index(f)]).family == f && decoder_view(
            r.decoders@[family_index(f)],
        ) == table_of(f) by {
        match f {
            PartFamily::Gen1Soc => {},
            PartFamily::Gen2Soc => {},
            PartFamily::CgbSoc => {},
            PartFamily::AgbSocQfp128 => {},
            PartFamily::AgbSocQfp156 => {},
            PartFamily::AgbSocBga => {},
            PartFamily::Ram => {},
            PartFamily::SramTsop48 => {},
            PartFamily::DmgAmp => {},
            PartFamily::MgbAmp => {},
            PartFamily::AgbAmp => {},
            PartFamily::DmgReg => {},
            PartFamily::CgbReg => {},
            PartFamily::AgbReg => {},
            PartFamily::GbsReg => {},
            PartFamily::AgbPmic => {},
            PartFamily::AgsPmicOld => {},
            PartFamily::AgsPmicNew => {},
            PartFamily::AgsChargeCtrl => {},
            PartFamily::OxyPmic => {},
            PartFamily::OxyU4 => {},
            PartFamily::OxyU5 => {},
            PartFamily::GbsDol => {},
            PartFamily::Crystal4Mihz => {},
            PartFamily::Crystal8Mihz => {},
            PartFamily::Crystal20Mihz => {},
            PartFamily::Crystal32Mihz => {},
            PartFamily::Icd2 => {},
            PartFamily::SgbRom => {},
            PartFamily::Cic => {},
            PartFamily::Coil => {},
            PartFamily::MglTransformer => {},
            PartFamily::LcdChip => {},
        }
    }
    r
}

/// The decoder of a family.
pub fn decoder_of(reg: &Registry, f: PartFamily) -> (r: &Decoder)
    requires
        registry_wf(*reg),
    ensures
        *r == reg.decoders@[family_index(f)],
{
    &reg.decoders[family_position(f)]
}

} // verus!
