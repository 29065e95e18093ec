use gbhwdb::date::{resolve_date, ResolvedDate};
use gbhwdb::decoders::{crystal_4mihz, gen1_soc, ram, registry};
use gbhwdb::grammar::{run_tokens, Token, Width};
use gbhwdb::part::{decode, BadField, Manufacturer, PartFamily};
use gbhwdb::stamp::{decode_stamp, decode_stamp_era, Era, StampFault, StampRecord};
use gbhwdb::text::decimal_text;
use gbhwdb::year::{expand_year, infer_century};

#[test]
fn century_nearest_to_hint() {
    assert_eq!(infer_century(99, Some(2001)), 1999);
    assert_eq!(infer_century(5, Some(1998)), 2005);
    assert_eq!(infer_century(89, Some(1996)), 1989);
    assert_eq!(infer_century(48, Some(1998)), 2048);
}

#[test]
fn century_without_hint() {
    assert_eq!(infer_century(95, None), 1995);
    assert_eq!(infer_century(90, None), 1990);
    assert_eq!(infer_century(5, None), 2005);
    assert_eq!(infer_century(89, None), 2089);
}

#[test]
fn century_stable_when_repeated() {
    let first = infer_century(99, Some(2001));
    assert_eq!(infer_century(99, Some(first as u16)), first);
    assert_eq!(infer_century((first % 100) as u16, Some(2001)), first);
}

#[test]
fn decade_inference() {
    assert_eq!(expand_year(8, 10, Some(1998)), 1998);
    assert_eq!(expand_year(0, 10, Some(1998)), 2000);
    assert_eq!(expand_year(3, 10, Some(1998)), 2003);
    assert_eq!(expand_year(4, 10, None), 1994);
}

#[test]
fn tokens_capture_digits_and_remainder() {
    let tokens = vec![
        Token::Lit(vec!['A', '-']),
        Token::Digits(Width::Two),
        Token::OptLit(vec![' ']),
        Token::UpperRun,
    ];
    let s: Vec<char> = "A-42XYZ rest".chars().collect();
    let (caps, end) = run_tokens(&tokens, &s).unwrap();
    assert_eq!(caps, vec![42]);
    assert_eq!(end, 7);
    let bad: Vec<char> = "A-4X".chars().collect();
    assert!(run_tokens(&tokens, &bad).is_none());
}

#[test]
fn gen1_cpu_with_revision() {
    let d = gen1_soc();
    let p = decode(&d, Some(1996), "DMG-CPU B © 1989 Nintendo JAPAN 8907 D").ok().unwrap();
    assert_eq!(p.family, PartFamily::Gen1Soc);
    let info = p.info.unwrap();
    assert_eq!(info.kind, "DMG-CPU");
    assert_eq!(info.manufacturer, Some(Manufacturer::Sharp));
    assert_eq!(info.year, Some(1989));
    assert_eq!(info.week, Some(7));
    assert_eq!(info.month, None);
}

#[test]
fn gen1_cpu_second_format() {
    let d = gen1_soc();
    let p = decode(&d, Some(1996), "DMG-CPU © 1989 Nintendo JAPAN 9012 D").ok().unwrap();
    let info = p.info.unwrap();
    assert_eq!(info.year, Some(1990));
    assert_eq!(info.week, Some(12));
}

#[test]
fn impossible_year_is_an_error() {
    let d = gen1_soc();
    let e = decode(&d, None, "DMG-CPU B © 1989 Nintendo JAPAN 8907 D").err().unwrap();
    assert_eq!(e.field, BadField::Year);
    assert_eq!(e.label, "DMG-CPU B © 1989 Nintendo JAPAN 8907 D");
}

#[test]
fn impossible_week_is_an_error() {
    let d = gen1_soc();
    let e = decode(&d, Some(1996), "DMG-CPU A © 1989 Nintendo JAPAN 9060 D").err().unwrap();
    assert_eq!(e.field, BadField::Week);
}

#[test]
fn ram_with_month() {
    let d = ram();
    let p = decode(&d, Some(1990), "M5M5178AFP-85 JAPAN 912").ok().unwrap();
    let info = p.info.unwrap();
    assert_eq!(info.manufacturer, Some(Manufacturer::Mitsubishi));
    assert_eq!(info.year, Some(1989));
    assert_eq!(info.month, Some(12));
    let e = decode(&d, Some(1990), "M5M5178AFP-85 JAPAN 913").err().unwrap();
    assert_eq!(e.field, BadField::Month);
}

#[test]
fn unmatched_label_falls_back_verbatim() {
    let d = ram();
    let p = decode(&d, Some(1990), "  smudged ＬＨ5164 ?? ").ok().unwrap();
    assert!(p.info.is_none());
    assert_eq!(p.label, "  smudged ＬＨ5164 ?? ");
    assert_eq!(p.family, PartFamily::Ram);
    let empty = decode(&d, None, "").ok().unwrap();
    assert!(empty.info.is_none());
    assert_eq!(empty.label, "");
}

#[test]
fn partial_match_is_no_match() {
    let d = ram();
    let p = decode(&d, Some(1990), "LH5164AN-10L 9013 D extra").ok().unwrap();
    assert!(p.info.is_none());
}

#[test]
fn crystal_single_digit_year() {
    let d = crystal_4mihz();
    let p = decode(&d, Some(1996), "4.19 KDS 9G").ok().unwrap();
    let info = p.info.unwrap();
    assert_eq!(info.manufacturer, Some(Manufacturer::Kds));
    assert_eq!(info.year, Some(1999));
    assert_eq!(info.month, None);
    assert_eq!(info.week, None);
}

#[test]
fn registry_holds_every_family() {
    let reg = registry();
    assert_eq!(reg.decoders.len(), 33);
    assert_eq!(reg.decoders[0].family, PartFamily::Gen1Soc);
    assert_eq!(reg.decoders[32].family, PartFamily::LcdChip);
}

#[test]
fn early_stamp() {
    let st = decode_stamp_era(Era::Early, Some(1999), "902 1234").ok().unwrap();
    assert_eq!(st, StampRecord { era: Era::Early, year: 1999, month: Some(2), week: None });
    let st = decode_stamp_era(Era::Early, Some(1996), "6111234").ok().unwrap();
    assert_eq!(st.year, 1996);
    assert_eq!(st.month, Some(11));
}

#[test]
fn later_stamp() {
    let st = decode_stamp_era(Era::Later, Some(1998), "218 1234").ok().unwrap();
    assert_eq!(st, StampRecord { era: Era::Later, year: 1998, month: None, week: Some(21) });
}

#[test]
fn leading_digit_selects_early_grammar() {
    // The later grammar would read week 91 and fail; the early one is used.
    let st = decode_stamp(Some(1998), "912 555").ok().unwrap();
    assert_eq!(st.era, Era::Early);
    assert_eq!(st.year, 1999);
    assert_eq!(st.month, Some(12));
    // A failure of the early grammar is not retried with the later one.
    let e = decode_stamp(Some(1998), "713 5").err().unwrap();
    assert_eq!(e.era, Era::Early);
    assert_eq!(e.fault, StampFault::OutOfRange(BadField::Month));
}

#[test]
fn other_leading_digit_selects_later_grammar() {
    let st = decode_stamp(Some(1998), "012 333").ok().unwrap();
    assert_eq!(st.era, Era::Later);
    assert_eq!(st.week, Some(1));
    assert_eq!(st.year, 2002);
}

#[test]
fn malformed_stamps() {
    let e = decode_stamp(Some(1998), "ABC").err().unwrap();
    assert_eq!(e.fault, StampFault::Unparsed);
    assert_eq!(e.label, "ABC");
    let e = decode_stamp(Some(1998), "").err().unwrap();
    assert_eq!(e.fault, StampFault::Unparsed);
    assert_eq!(e.era, Era::Later);
    let e = decode_stamp_era(Era::Later, Some(1998), "548 1").err().unwrap();
    assert_eq!(e.fault, StampFault::OutOfRange(BadField::Week));
    let e = decode_stamp_era(Era::Early, Some(2020), "902 1").err().unwrap();
    assert_eq!(e.fault, StampFault::OutOfRange(BadField::Year));
}

#[test]
fn board_year_beats_stamp_year() {
    let stamp = StampRecord { era: Era::Early, year: 1998, month: Some(4), week: None };
    let d = resolve_date(Some(1999), None, Some(stamp), Some(1996));
    assert_eq!(d.year, Some(1999));
    assert_eq!(d.month, Some(4));
    let d = resolve_date(Some(1999), Some(7), Some(stamp), None);
    assert_eq!(d, ResolvedDate { year: Some(1999), month: Some(7), week: None });
}

#[test]
fn stamp_beats_hint_and_absence_is_absent() {
    let stamp = StampRecord { era: Era::Later, year: 2001, month: None, week: Some(33) };
    let d = resolve_date(None, None, Some(stamp), Some(1998));
    assert_eq!(d, ResolvedDate { year: Some(2001), month: None, week: Some(33) });
    let d = resolve_date(None, None, None, Some(1998));
    assert_eq!(d, ResolvedDate { year: Some(1998), month: None, week: None });
    let d = resolve_date(None, None, None, None);
    assert_eq!(d, ResolvedDate { year: None, month: None, week: None });
}

#[test]
fn decimal_text_values() {
    assert_eq!(decimal_text(0), "0");
    assert_eq!(decimal_text(7), "7");
    assert_eq!(decimal_text(1234), "1234");
    assert_eq!(decimal_text(4294967295), "4294967295");
}
