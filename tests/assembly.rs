use gbhwdb::batch::{process_cartridges, process_consoles, FoundCartridge, FoundConsole};
use gbhwdb::cartridge::{
    assemble_cartridge, layout_from_label, BoardLayout, CartridgeBoard, CartridgeInput,
    GameConfig, GamePlatform,
};
use gbhwdb::console::{
    assemble_console, slot_families_of, ConsoleInput, Generation, LcdBoardInput, MainboardInput,
    PowerBoardInput, ScreenInput, SortGroup,
};
use gbhwdb::decoders::registry;
use gbhwdb::fault::Fault;
use gbhwdb::part::{BadField, PartFamily};
use gbhwdb::stamp::{Era, StampFault};

fn s(t: &str) -> String {
    t.to_string()
}

fn config(code: &str, layouts: Vec<BoardLayout>, sha: Option<Vec<u8>>) -> GameConfig {
    GameConfig {
        code: s(code),
        name: format!("Game {code}"),
        platform: GamePlatform::Gb,
        layouts,
        sha256: sha,
    }
}

fn cartridge(code: &str, slug: &str, board: &str, index: u32) -> CartridgeInput {
    CartridgeInput {
        code: s(code),
        slug: s(slug),
        index,
        contributor: s("someone"),
        shell_code: Some(s("DMG-XX")),
        shell_stamp: None,
        board: CartridgeBoard {
            label: s(board),
            circled_letters: None,
            year: Some(1995),
            month: Some(3),
        },
        dump_sha256: None,
    }
}

fn mainboard(label: &str, parts: Vec<Option<String>>) -> MainboardInput {
    MainboardInput {
        label: s(label),
        circled_letters: None,
        number_pair: None,
        letter_at_top_right: None,
        extra_label: None,
        stamp: None,
        stamp_front: None,
        stamp_back: None,
        year: None,
        month: None,
        jun: None,
        outlier: false,
        parts,
    }
}

fn console(slug: &str, serial: Option<&str>, index: Option<u32>, board: MainboardInput) -> ConsoleInput {
    ConsoleInput {
        slug: s(slug),
        serial: serial.map(s),
        index,
        contributor: s("someone"),
        color: Some(s("Gray")),
        release_code: None,
        shell_stamp: None,
        shell_outlier: false,
        mainboard: board,
        lcd_board: None,
        screen: None,
        power_board: None,
        jack_board: None,
    }
}

fn dmg_parts() -> Vec<Option<String>> {
    vec![
        Some(s("DMG-CPU B © 1989 Nintendo JAPAN 9012 D")),
        Some(s("LH5164AN-10L 9013 D")),
        None,
        Some(s("IR3R40 9015 A")),
        Some(s("4.19 KDS 0G")),
    ]
}

#[test]
fn layout_inference() {
    assert_eq!(layout_from_label("DMG-BEAN-02"), Some(BoardLayout::RomMapper));
    assert_eq!(layout_from_label("DMG-AAA-03"), Some(BoardLayout::Rom));
    assert_eq!(layout_from_label("DMG-KGDU-10"), Some(BoardLayout::RomMapperRamXtal));
    assert_eq!(layout_from_label("DMG-AAA"), None);
    assert_eq!(layout_from_label("XYZ"), None);
}

#[test]
fn cartridge_accepted() {
    let cfgs = vec![config("DMG-ABCD", vec![BoardLayout::RomMapper], None)];
    let input = cartridge("DMG-ABCD", "ABCD-1", "DMG-BEAN-02", 12);
    let rec = assemble_cartridge(&input, "ABCD-1", &cfgs).ok().unwrap();
    assert_eq!(rec.title, "Entry #12");
    assert_eq!(rec.name, "Game DMG-ABCD");
    assert_eq!(rec.layout, BoardLayout::RomMapper);
    assert_eq!(rec.date.year, Some(1995));
    assert_eq!(rec.date.month, Some(3));
}

#[test]
fn cartridge_layout_mismatch_names_code() {
    let cfgs = vec![config("DMG-ABCD", vec![BoardLayout::Rom], None)];
    let input = cartridge("DMG-ABCD", "ABCD-1", "DMG-BEAN-02", 1);
    let e = assemble_cartridge(&input, "ABCD-1", &cfgs).err().unwrap();
    assert_eq!(e.fault, Fault::LayoutMismatch);
    assert_eq!(e.subject, "DMG-ABCD");
    assert_eq!(e.folder, "ABCD-1");
}

#[test]
fn cartridge_other_refusals() {
    let cfgs = vec![config("DMG-ABCD", vec![BoardLayout::RomMapper], Some(vec![1, 2, 3]))];
    let input = cartridge("DMG-ABCD", "ABCD-1", "DMG-BEAN-02", 1);
    let e = assemble_cartridge(&input, "ABCD-2", &cfgs).err().unwrap();
    assert_eq!(e.fault, Fault::SlugMismatch);
    assert_eq!(e.subject, "ABCD-1");

    let unknown = cartridge("DMG-ZZZZ", "ABCD-1", "DMG-BEAN-02", 1);
    let e = assemble_cartridge(&unknown, "ABCD-1", &cfgs).err().unwrap();
    assert_eq!(e.fault, Fault::UnknownCode);

    let odd_board = cartridge("DMG-ABCD", "ABCD-1", "MYSTERY-01", 1);
    let e = assemble_cartridge(&odd_board, "ABCD-1", &cfgs).err().unwrap();
    assert_eq!(e.fault, Fault::UnknownLayout);
    assert_eq!(e.subject, "MYSTERY-01");

    let mut late = cartridge("DMG-ABCD", "ABCD-1", "DMG-BEAN-02", 1);
    late.board.year = Some(2010);
    let e = assemble_cartridge(&late, "ABCD-1", &cfgs).err().unwrap();
    assert_eq!(e.fault, Fault::YearOutOfRange);

    let mut dumped = cartridge("DMG-ABCD", "ABCD-1", "DMG-BEAN-02", 1);
    dumped.dump_sha256 = Some(vec![1, 2, 4]);
    let e = assemble_cartridge(&dumped, "ABCD-1", &cfgs).err().unwrap();
    assert_eq!(e.fault, Fault::ChecksumMismatch);
    dumped.dump_sha256 = Some(vec![1, 2, 3]);
    assert!(assemble_cartridge(&dumped, "ABCD-1", &cfgs).is_ok());
}

#[test]
fn checksum_without_config_checksum_is_accepted() {
    let cfgs = vec![config("DMG-ABCD", vec![BoardLayout::RomMapper], None)];
    let mut input = cartridge("DMG-ABCD", "ABCD-1", "DMG-BEAN-02", 1);
    input.dump_sha256 = Some(vec![9, 9]);
    let rec = assemble_cartridge(&input, "ABCD-1", &cfgs).ok().unwrap();
    assert_eq!(rec.sha256, Some(vec![9, 9]));
}

#[test]
fn cartridges_ordered_by_code_then_slug_stably() {
    let cfgs = vec![
        config("DMG-B", vec![BoardLayout::RomMapper], None),
        config("DMG-A", vec![BoardLayout::RomMapper], None),
    ];
    let subs = vec![
        FoundCartridge { folder: s("y"), input: cartridge("DMG-B", "y", "DMG-BEAN-02", 1) },
        FoundCartridge { folder: s("x"), input: cartridge("DMG-A", "x", "DMG-BEAN-02", 2) },
        FoundCartridge { folder: s("x"), input: cartridge("DMG-A", "x", "DMG-BEAN-02", 3) },
        FoundCartridge { folder: s("a"), input: cartridge("DMG-B", "a", "DMG-BEAN-02", 4) },
        FoundCartridge { folder: s("x"), input: cartridge("DMG-A", "x", "DMG-BEAN-02", 5) },
    ];
    let recs = process_cartridges(&subs, &cfgs).ok().unwrap();
    let order: Vec<(String, String, String)> = recs
        .iter()
        .map(|r| (r.code.clone(), r.slug.clone(), r.title.clone()))
        .collect();
    assert_eq!(
        order,
        vec![
            (s("DMG-A"), s("x"), s("Entry #2")),
            (s("DMG-A"), s("x"), s("Entry #3")),
            (s("DMG-A"), s("x"), s("Entry #5")),
            (s("DMG-B"), s("a"), s("Entry #4")),
            (s("DMG-B"), s("y"), s("Entry #1")),
        ]
    );
}

#[test]
fn batch_aborts_on_first_refusal() {
    let cfgs = vec![config("DMG-A", vec![BoardLayout::Rom], None)];
    let subs = vec![
        FoundCartridge { folder: s("x"), input: cartridge("DMG-A", "x", "DMG-AAA-01", 1) },
        FoundCartridge { folder: s("y"), input: cartridge("DMG-A", "y", "DMG-BEAN-02", 2) },
        FoundCartridge { folder: s("z"), input: cartridge("DMG-A", "q", "DMG-BEAN-02", 3) },
    ];
    let e = process_cartridges(&subs, &cfgs).err().unwrap();
    assert_eq!(e.folder, "y");
    assert_eq!(e.fault, Fault::LayoutMismatch);
    assert_eq!(e.subject, "DMG-A");
}

#[test]
fn dmg_console_assembled() {
    let reg = registry();
    let mut board = mainboard("DMG-CPU-06", dmg_parts());
    board.stamp = Some(s("010 2345"));
    let mut input = console("G1234567", Some("G1234567"), None, board);
    input.power_board = Some(PowerBoardInput { kind: s("D"), year: Some(1990), month: Some(1), outlier: false });
    let rec = assemble_console(&reg, Generation::Dmg, &input, "G1234567").ok().unwrap();
    assert_eq!(rec.code, "dmg");
    assert_eq!(rec.title, "G1234567");
    assert_eq!(rec.sort_group, Some(SortGroup::A));
    assert_eq!(rec.parts.len(), 5);
    let cpu = rec.parts[0].as_ref().unwrap();
    assert_eq!(cpu.info.as_ref().unwrap().year, Some(1990));
    assert!(rec.parts[2].is_none());
    // The processor's year (1990) is the hint for the other slots and the stamp.
    let xtal = rec.parts[4].as_ref().unwrap();
    assert_eq!(xtal.info.as_ref().unwrap().year, Some(1990));
    let stamp = rec.stamp.unwrap();
    assert_eq!(stamp.era, Era::Early);
    assert_eq!(stamp.year, 1990);
    assert_eq!(stamp.month, Some(10));
    assert_eq!(rec.date.year, Some(1990));
    assert_eq!(rec.date.month, Some(10));
    assert_eq!(rec.power_board.as_ref().unwrap().label, "DC CONV2 DMG");
}

#[test]
fn dmg_sort_groups() {
    let reg = registry();
    let plain = console("u1", None, Some(7), mainboard("DMG-CPU-06", dmg_parts()));
    let rec = assemble_console(&reg, Generation::Dmg, &plain, "u1").ok().unwrap();
    assert_eq!(rec.title, "Unit #7");
    assert_eq!(rec.sort_group, Some(SortGroup::B));

    let mut odd = console("u2", None, Some(8), mainboard("DMG-CPU-06", dmg_parts()));
    odd.lcd_board = Some(LcdBoardInput {
        label: s("DMG-LCD-06"),
        circled_letters: None,
        stamp: None,
        year: None,
        month: None,
        outlier: false,
        regulator: None,
        screen: Some(ScreenInput {
            label: None,
            year: None,
            month: None,
            column_driver: None,
            row_driver: None,
            outlier: true,
        }),
    });
    let rec = assemble_console(&reg, Generation::Dmg, &odd, "u2").ok().unwrap();
    assert_eq!(rec.sort_group, Some(SortGroup::D));

    let mut odd_serial = console("G9", Some("G9"), None, mainboard("DMG-CPU-06", dmg_parts()));
    odd_serial.shell_outlier = true;
    let rec = assemble_console(&reg, Generation::Dmg, &odd_serial, "G9").ok().unwrap();
    assert_eq!(rec.sort_group, Some(SortGroup::C));

    let other = console("m1", None, Some(1), mainboard("MGB-CPU-01", vec![None, None, None, None, None]));
    let rec = assemble_console(&reg, Generation::Mgb, &other, "m1").ok().unwrap();
    assert_eq!(rec.sort_group, None);
}

#[test]
fn console_refusals() {
    let reg = registry();
    let input = console("G1", Some("G2"), None, mainboard("DMG-CPU-06", dmg_parts()));
    let e = assemble_console(&reg, Generation::Dmg, &input, "G1").err().unwrap();
    assert_eq!(e.fault, Fault::SerialMismatch);
    assert_eq!(e.subject, "G2");
    // The super adapter has no serial rule.
    let sgb = console("S1", Some("other"), None, mainboard("SHVC-SGB-R-10", vec![None; 6]));
    assert!(assemble_console(&reg, Generation::Sgb, &sgb, "S1").is_ok());

    let short = console("u1", None, Some(1), mainboard("DMG-CPU-06", vec![None, None]));
    let e = assemble_console(&reg, Generation::Dmg, &short, "u1").err().unwrap();
    assert_eq!(e.fault, Fault::SlotCount);

    let untitled = console("u1", None, None, mainboard("DMG-CPU-06", dmg_parts()));
    let e = assemble_console(&reg, Generation::Dmg, &untitled, "u1").err().unwrap();
    assert_eq!(e.fault, Fault::MissingIndex);

    let moved = console("u1", None, Some(1), mainboard("DMG-CPU-06", dmg_parts()));
    let e = assemble_console(&reg, Generation::Dmg, &moved, "u9").err().unwrap();
    assert_eq!(e.fault, Fault::SlugMismatch);
}

#[test]
fn console_part_and_stamp_errors() {
    let reg = registry();
    let mut parts = dmg_parts();
    parts[1] = Some(s("LH5164AN-10L 9099 D"));
    let input = console("u1", None, Some(1), mainboard("DMG-CPU-06", parts));
    let e = assemble_console(&reg, Generation::Dmg, &input, "u1").err().unwrap();
    assert_eq!(e.fault, Fault::Part(BadField::Week));
    assert_eq!(e.subject, "LH5164AN-10L 9099 D");

    let mut board = mainboard("DMG-CPU-06", dmg_parts());
    board.stamp = Some(s("019 1"));
    let input = console("u1", None, Some(1), board);
    let e = assemble_console(&reg, Generation::Dmg, &input, "u1").err().unwrap();
    assert_eq!(e.fault, Fault::Stamp(StampFault::OutOfRange(BadField::Month)));
    assert_eq!(e.subject, "019 1");

    // A stamp on an anomalous board is not read.
    let mut board = mainboard("DMG-CPU-06", dmg_parts());
    board.stamp = Some(s("019 1"));
    board.outlier = true;
    let input = console("u1", None, Some(1), board);
    let rec = assemble_console(&reg, Generation::Dmg, &input, "u1").ok().unwrap();
    assert!(rec.stamp.is_none());
    assert_eq!(rec.date.year, Some(1996));
}

#[test]
fn cgb_stamp_dispatch() {
    let reg = registry();
    let mut board = mainboard("CGB-CPU-01", vec![None; 5]);
    board.stamp = Some(s("905 100"));
    let input = console("c1", None, Some(1), board);
    let rec = assemble_console(&reg, Generation::Cgb, &input, "c1").ok().unwrap();
    let st = rec.stamp.unwrap();
    assert_eq!(st.era, Era::Early);
    assert_eq!(rec.date.year, Some(1999));
    assert_eq!(rec.date.month, Some(5));

    let mut board = mainboard("CGB-CPU-01", vec![None; 5]);
    board.stamp = Some(s("450 100"));
    board.year = Some(2000);
    let input = console("c2", None, Some(2), board);
    let rec = assemble_console(&reg, Generation::Cgb, &input, "c2").ok().unwrap();
    assert_eq!(rec.stamp.unwrap().era, Era::Later);
    assert_eq!(rec.date.year, Some(2000));
    assert_eq!(rec.date.week, Some(45));
}

#[test]
fn front_lit_slot_depends_on_board() {
    let newer = slot_families_of(Generation::Ags, "C/AGS-CPU-30");
    assert_eq!(newer[2], PartFamily::AgsPmicNew);
    let older = slot_families_of(Generation::Ags, "C/AGS-CPU-01");
    assert_eq!(older[2], PartFamily::AgbAmp);
    assert_eq!(slot_families_of(Generation::Oxy, "").len(), 4);
}

#[test]
fn consoles_ordered_by_group_then_slug() {
    let reg = registry();
    let mut odd = console("a", None, Some(1), mainboard("DMG-CPU-06", dmg_parts()));
    odd.shell_outlier = true;
    let subs = vec![
        FoundConsole { folder: s("a"), input: odd },
        FoundConsole { folder: s("c"), input: console("c", None, Some(2), mainboard("DMG-CPU-06", dmg_parts())) },
        FoundConsole { folder: s("G2"), input: console("G2", Some("G2"), None, mainboard("DMG-CPU-06", dmg_parts())) },
        FoundConsole { folder: s("b"), input: console("b", None, Some(3), mainboard("DMG-CPU-06", dmg_parts())) },
    ];
    let recs = process_consoles(&reg, Generation::Dmg, &subs).ok().unwrap();
    let slugs: Vec<&str> = recs.iter().map(|r| r.slug.as_str()).collect();
    assert_eq!(slugs, vec!["G2", "b", "c", "a"]);
}

#[test]
fn flagged_mainboard_stamp_is_read_outside_first_generation() {
    let reg = registry();
    let mut board = mainboard("CPU AGB-01", vec![None; 6]);
    board.stamp = Some(s("219 1"));
    board.outlier = true;
    let input = console("a1", None, Some(1), board);
    let rec = assemble_console(&reg, Generation::Agb, &input, "a1").ok().unwrap();
    assert_eq!(rec.stamp.unwrap().year, 1999);
    assert_eq!(rec.date.year, Some(1999));
    assert_eq!(rec.date.week, Some(21));

    let mut board = mainboard("CGB-CPU-01", vec![None; 5]);
    board.stamp = Some(s("ABC"));
    board.outlier = true;
    let input = console("c1", None, Some(1), board);
    let e = assemble_console(&reg, Generation::Cgb, &input, "c1").err().unwrap();
    assert_eq!(e.fault, Fault::Stamp(StampFault::Unparsed));
    assert_eq!(e.subject, "ABC");
}

#[test]
fn first_generation_hint_comes_from_processor() {
    let reg = registry();
    // No processor: no hint, so a one-digit crystal year reads as the 1990s.
    let mut parts = dmg_parts();
    parts[0] = None;
    parts[4] = Some(s("4.19 KDS 5G"));
    let input = console("u1", None, Some(1), mainboard("DMG-CPU-06", parts));
    let rec = assemble_console(&reg, Generation::Dmg, &input, "u1").ok().unwrap();
    assert_eq!(rec.parts[4].as_ref().unwrap().info.as_ref().unwrap().year, Some(1995));
    // A processor label that gives no year: the hint is 1996.
    let mut parts = dmg_parts();
    parts[0] = Some(s("smudged"));
    let input = console("u2", None, Some(2), mainboard("DMG-CPU-06", parts));
    let rec = assemble_console(&reg, Generation::Dmg, &input, "u2").ok().unwrap();
    assert!(rec.parts[0].as_ref().unwrap().info.is_none());
    assert_eq!(rec.parts[4].as_ref().unwrap().info.as_ref().unwrap().year, Some(2000));
}

#[test]
fn advance_amplifier_precedes_power_chip() {
    let fams = slot_families_of(Generation::Agb, "CPU AGB-01");
    assert_eq!(fams[3], PartFamily::AgbAmp);
    assert_eq!(fams[4], PartFamily::AgbPmic);
}
