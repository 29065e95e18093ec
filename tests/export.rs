use gbhwdb::cartridge::{assemble_cartridge, BoardLayout, CartridgeBoard, CartridgeInput, GameConfig, GamePlatform};
use gbhwdb::console::{assemble_console, ConsoleInput, Generation, JackBoardInput, MainboardInput};
use gbhwdb::dat::{default_layout, name_problems, platform_problems, DatFile, Dats};
use gbhwdb::decoders::registry;
use gbhwdb::columns::{console_cells, console_header, date_text, DateCol};
use gbhwdb::flatten::{cartridge_cells, cartridge_header};
use gbhwdb::site::SiteData;
use gbhwdb::text::parse_hex;

fn s(t: &str) -> String {
    t.to_string()
}

fn dat(names: &[&str]) -> DatFile {
    DatFile { header: s("list"), version: s("1"), names: names.iter().map(|n| s(n)).collect() }
}

fn dats() -> Dats {
    Dats { gb: dat(&["Alpha", "Both"]), gbc: dat(&["Beta", "Both"]), gba: dat(&["Gamma"]) }
}

#[test]
fn cartridge_row_has_every_field_once() {
    let cfgs = vec![GameConfig {
        code: s("DMG-AB"),
        name: s("Alpha"),
        platform: GamePlatform::Gb,
        layouts: vec![BoardLayout::Rom],
        sha256: None,
    }];
    let input = CartridgeInput {
        code: s("DMG-AB"),
        slug: s("AB-1"),
        index: 3,
        contributor: s("me"),
        shell_code: None,
        shell_stamp: Some(s("0312")),
        board: CartridgeBoard { label: s("DMG-AAA-03"), circled_letters: None, year: Some(1991), month: None },
        dump_sha256: None,
    };
    let rec = assemble_cartridge(&input, "AB-1", &cfgs).ok().unwrap();
    let row = cartridge_cells(&rec);
    assert_eq!(
        row,
        vec![
            s("DMG-AB"),
            s("AB-1"),
            s("Entry #3"),
            s("me"),
            s("Alpha"),
            s("GB"),
            s("rom"),
            s(""),
            s("0312"),
            s("DMG-AAA-03"),
            s(""),
            s("1991"),
            s(""),
            s(""),
        ]
    );
}

#[test]
fn console_row_keeps_columns_for_absent_fields() {
    let reg = registry();
    let board = MainboardInput {
        label: s("DMG-CPU-06"),
        circled_letters: Some(s("AB")),
        number_pair: None,
        letter_at_top_right: None,
        extra_label: None,
        stamp: None,
        stamp_front: None,
        stamp_back: None,
        year: None,
        month: None,
        jun: None,
        outlier: false,
        parts: vec![Some(s("DMG-CPU B © 1989 Nintendo JAPAN 9012 D")), None, Some(s("odd")), None, None],
    };
    let input = ConsoleInput {
        slug: s("u1"),
        serial: None,
        index: Some(4),
        contributor: s("me"),
        color: None,
        release_code: None,
        shell_stamp: None,
        shell_outlier: false,
        mainboard: board,
        lcd_board: None,
        screen: None,
        power_board: None,
        jack_board: Some(JackBoardInput { kind: s("J"), extra_label: None, outlier: false }),
    };
    let rec = assemble_console(&reg, Generation::Dmg, &input, "u1").ok().unwrap();
    let row = console_cells(&rec);
    let header = console_header(Generation::Dmg);
    assert_eq!(row.len(), header.len());
    let at = |name: &str| row[header.iter().position(|h| h == name).unwrap()].clone();
    assert_eq!(at("code"), "dmg");
    assert_eq!(at("slug"), "u1");
    assert_eq!(at("title"), "Unit #4");
    assert_eq!(at("color"), "");
    assert_eq!(at("year"), "1996");
    assert_eq!(at("calendar"), "1996");
    assert_eq!(at("mainboard.type"), "DMG-CPU-06");
    assert_eq!(at("mainboard.circled_letters"), "AB");
    assert_eq!(at("cpu.label"), "DMG-CPU B © 1989 Nintendo JAPAN 9012 D");
    assert_eq!(at("cpu.kind"), "DMG-CPU");
    assert_eq!(at("cpu.manufacturer"), "Sharp");
    assert_eq!(at("cpu.year"), "1990");
    assert_eq!(at("cpu.week"), "12");
    // An empty slot keeps its columns, all empty.
    for field in ["label", "kind", "manufacturer", "year", "month", "week"] {
        assert_eq!(at(&format!("work_ram.{field}")), "");
    }
    // An unreadable label keeps its text and nothing else.
    assert_eq!(at("video_ram.label"), "odd");
    assert_eq!(at("video_ram.kind"), "");
    // No power board: empty columns; the jack board's type is there.
    assert_eq!(at("power_board.type"), "");
    assert_eq!(at("jack_board.type"), "J");
}

#[test]
fn platform_from_lists() {
    let d = dats();
    assert_eq!(d.get_platform("Alpha"), Some(GamePlatform::Gb));
    assert_eq!(d.get_platform("Beta"), Some(GamePlatform::Gbc));
    assert_eq!(d.get_platform("Gamma"), Some(GamePlatform::Gba));
    assert_eq!(d.get_platform("Both"), None);
    assert_eq!(d.get_platform("Nope"), None);
}

#[test]
fn all_names_and_games() {
    let d = dats();
    let names = d.all_names();
    assert_eq!(names, vec![s("Alpha"), s("Both"), s("Beta"), s("Gamma")]);
    let games = d.all_games();
    assert_eq!(games.len(), 5);
    assert_eq!(games[2], (GamePlatform::Gbc, s("Beta")));
    assert_eq!(games[4], (GamePlatform::Gba, s("Gamma")));
}

#[test]
fn config_problems() {
    let d = dats();
    let cfgs = vec![
        GameConfig { code: s("A"), name: s("Alpha"), platform: GamePlatform::Gbc, layouts: vec![], sha256: None },
        GameConfig { code: s("B"), name: s("Lost"), platform: GamePlatform::Gb, layouts: vec![], sha256: None },
        GameConfig { code: s("C"), name: s("Gamma"), platform: GamePlatform::Gba, layouts: vec![], sha256: None },
    ];
    assert_eq!(name_problems(&cfgs, &d), vec![1]);
    assert_eq!(platform_problems(&cfgs, &d), vec![(0, GamePlatform::Gb)]);
    assert_eq!(default_layout(GamePlatform::Gbc), BoardLayout::RomMapperRam);
    assert_eq!(default_layout(GamePlatform::Gb), BoardLayout::RomMapper);
}

#[test]
fn counts_per_kind() {
    let data = SiteData {
        cfgs: vec![],
        cartridges: vec![],
        dmg: vec![],
        sgb: vec![],
        mgb: vec![],
        mgl: vec![],
        sgb2: vec![],
        cgb: vec![],
        agb: vec![],
        ags: vec![],
        gbs: vec![],
        oxy: vec![],
    };
    let c = data.counts();
    assert_eq!(c.cartridges, 0);
    assert_eq!(c.consoles.len(), 10);
    assert_eq!(c.consoles[0], (Generation::Dmg, 0));
    assert_eq!(c.consoles[9], (Generation::Oxy, 0));
}

#[test]
fn hexadecimal_checksums() {
    assert_eq!(parse_hex("00ff7A"), Some(vec![0x00, 0xff, 0x7a]));
    assert_eq!(parse_hex(""), Some(vec![]));
    assert_eq!(parse_hex("abc"), None);
    assert_eq!(parse_hex("zz"), None);
}

#[test]
fn headers_follow_each_generation() {
    let dmg = console_header(Generation::Dmg);
    let names: Vec<&str> = dmg.iter().map(|h| h.as_str()).collect();
    assert_eq!(
        &names[4..13],
        &[
            "color",
            "calendar_short",
            "calendar",
            "year",
            "month",
            "mainboard.type",
            "mainboard.extra_label",
            "mainboard.stamp",
            "mainboard.circled_letters",
        ]
    );
    assert_eq!(names[13], "cpu.label");
    assert_eq!(names[19], "work_ram.label");
    assert_eq!(names[25], "video_ram.label");
    assert_eq!(names[31], "amplifier.label");
    assert_eq!(names[37], "crystal.label");
    assert_eq!(*names.last().unwrap(), "jack_board.extra_label");

    let agb = console_header(Generation::Agb);
    let names: Vec<&str> = agb.iter().map(|h| h.as_str()).collect();
    assert_eq!(
        &names[4..16],
        &[
            "color",
            "release_code",
            "calendar_short",
            "calendar",
            "year",
            "month",
            "week",
            "mainboard.type",
            "mainboard.number_pair",
            "mainboard.stamp",
            "mainboard.circled_letters",
            "mainboard.calendar_short",
        ]
    );
    let groups: Vec<&str> = names
        .iter()
        .filter(|n| n.ends_with(".label"))
        .map(|n| n.trim_end_matches(".label"))
        .collect();
    assert_eq!(groups, vec!["cpu", "work_ram", "regulator", "amplifier", "u4", "crystal"]);

    let sgb = console_header(Generation::Sgb);
    assert_eq!(&sgb[4..8], &[s("stamp"), s("mainboard.type"), s("mainboard.circled_letters"), s("mainboard.letter_at_top_right")]);

    for g in [
        Generation::Dmg,
        Generation::Sgb,
        Generation::Mgb,
        Generation::Mgl,
        Generation::Sgb2,
        Generation::Cgb,
        Generation::Agb,
        Generation::Ags,
        Generation::Gbs,
        Generation::Oxy,
    ] {
        let header = console_header(g);
        let mut unique = header.clone();
        unique.sort();
        unique.dedup();
        assert_eq!(unique.len(), header.len(), "{g:?}");
    }
    let cart = cartridge_header();
    assert_eq!(cart.len(), 14);
    assert_eq!(cart[9], "board.label");
}

#[test]
fn calendar_texts() {
    assert_eq!(date_text(Some(1998), Some(3), None, DateCol::Calendar), "March 1998");
    assert_eq!(date_text(Some(1998), Some(3), None, DateCol::CalendarShort), "3/1998");
    assert_eq!(date_text(Some(2001), None, Some(12), DateCol::Calendar), "week 12/2001");
    assert_eq!(date_text(Some(2001), None, Some(12), DateCol::CalendarShort), "W12/2001");
    assert_eq!(date_text(Some(2001), None, None, DateCol::Calendar), "2001");
    assert_eq!(date_text(None, Some(3), None, DateCol::Calendar), "");
}
