//! Flattening of accepted records into rows of text cells for tabular
//! export. Every field has its own column; an absent field is an empty cell.

use vstd::prelude::*;
use crate::cartridge::{BoardLayout, CartridgeRecord, GamePlatform};
use crate::fault::opt_view;
use crate::part::Manufacturer;
use crate::text::{decimal, decimal_text};

verus! {

pub open spec fn cells_view(v: Seq<String>) -> Seq<Seq<char>> {
    Seq::new(v.len(), |i: int| v[i]@)
}

pub open spec fn opt_cell(o: Option<Seq<char>>) -> Seq<char> {
    match o {
        Some(s) => s,
        None => seq![],
    }
}

pub open spec fn u16_cell(o: Option<u16>) -> Seq<char> {
    match o {
        Some(n) => decimal(n as nat),
        None => seq![],
    }
}

pub open spec fn u8_cell(o: Option<u8>) -> Seq<char> {
    match o {
        Some(n) => decimal(n as nat),
        None => seq![],
    }
}

pub open spec fn maker_name(m: Manufacturer) -> Seq<char> {
    match m {
        Manufacturer::Nintendo => "Nintendo"@,
        Manufacturer::Sharp => "Sharp"@,
        Manufacturer::Nec => "NEC"@,
        Manufacturer::Rohm => "Rohm"@,
        Manufacturer::Mitsumi => "Mitsumi"@,
        Manufacturer::Mitsubishi => "Mitsubishi"@,
        Manufacturer::Fujitsu => "Fujitsu"@,
        Manufacturer::Sanyo => "Sanyo"@,
        Manufacturer::Toshiba => "Toshiba"@,
        Manufacturer::Kds => "KDS"@,
        Manufacturer::Kinseki => "Kinseki"@,
        Manufacturer::Bsi => "BSI"@,
        Manufacturer::Hynix => "Hynix"@,
        Manufacturer::Tdk => "TDK"@,
        Manufacturer::Sony => "Sony"@,
    }
}

/// The name of a manufacturer.
pub fn maker_text(m: Manufacturer) -> (r: &'static str)
    ensures
        r@ == maker_name(m),
{
    match m {
        Manufacturer::Nintendo => "Nintendo",
        Manufacturer::Sharp => "Sharp",
        Manufacturer::Nec => "NEC",
        Manufacturer::Rohm => "Rohm",
        Manufacturer::Mitsumi => "Mitsumi",
        Manufacturer::Mitsubishi => "Mitsubishi",
        Manufacturer::Fujitsu => "Fujitsu",
        Manufacturer::Sanyo => "Sanyo",
        Manufacturer::Toshiba => "Toshiba",
        Manufacturer::Kds => "KDS",
        Manufacturer::Kinseki => "Kinseki",
        Manufacturer::Bsi => "BSI",
        Manufacturer::Hynix => "Hynix",
        Manufacturer::Tdk => "TDK",
        Manufacturer::Sony => "Sony",
    }
}

pub open spec fn platform_name(p: GamePlatform) -> Seq<char> {
    match p {
        GamePlatform::Gb => "GB"@,
        GamePlatform::Gbc => "GBC"@,
        GamePlatform::Gba => "GBA"@,
    }
}

/// The name of a platform.
pub fn platform_text(p: GamePlatform) -> (r: &'static str)
    ensures
        r@ == platform_name(p),
{
    match p {
        GamePlatform::Gb => "GB",
        GamePlatform::Gbc => "GBC",
        GamePlatform::Gba => "GBA",
    }
}

pub open spec fn layout_name(l: BoardLayout) -> Seq<char> {
    match l {
        BoardLayout::Rom => "rom"@,
        BoardLayout::RomMapper => "rom_mapper"@,
        BoardLayout::RomMapperRam => "rom_mapper_ram"@,
        BoardLayout::RomMapperRamXtal => "rom_mapper_ram_xtal"@,
        BoardLayout::Mbc2 => "mbc2"@,
        BoardLayout::Mbc6 => "mbc6"@,
        BoardLayout::Mbc7 => "mbc7"@,
        BoardLayout::Type15 => "type15"@,
        BoardLayout::Huc3 => "huc3"@,
        BoardLayout::Tama => "tama"@,
    }
}

/// The name of a board layout.
pub fn layout_text(l: BoardLayout) -> (r: &'static str)
    ensures
        r@ == layout_name(l),
{
    match l {
        BoardLayout::Rom => "rom",
        BoardLayout::RomMapper => "rom_mapper",
        BoardLayout::RomMapperRam => "rom_mapper_ram",
        BoardLayout::RomMapperRamXtal => "rom_mapper_ram_xtal",
        BoardLayout::Mbc2 => "mbc2",
        BoardLayout::Mbc6 => "mbc6",
        BoardLayout::Mbc7 => "mbc7",
        BoardLayout::Type15 => "type15",
        BoardLayout::Huc3 => "huc3",
        BoardLayout::Tama => "tama",
    }
}

/// The row of a cartridge record.
pub open spec fn cartridge_row(r: CartridgeRecord) -> Seq<Seq<char>> {
    seq![
        r.code@,
        r.slug@,
        r.title@,
        r.contributor@,
        r.name@,
        platform_name(r.platform),
        layout_name(r.layout),
        opt_cell(opt_view(r.shell_code)),
        opt_cell(opt_view(r.shell_stamp)),
        r.board_label@,
        opt_cell(opt_view(r.board_circled_letters)),
        u16_cell(r.date.year),
        u8_cell(r.date.month),
        u8_cell(r.date.week),
    ]
}

fn push_cell(row: &mut Vec<String>, s: String)
    ensures
        cells_view(final(row)@) == cells_view(old(row)@).push(s@),
{
    row.push(s);
    assert(cells_view(row@) =~= cells_view(old(row)@).push(s@));
}

fn push_str(row: &mut Vec<String>, s: &str)
    ensures
        cells_view(final(row)@) == cells_view(old(row)@).push(s@),
{
    push_cell(row, s.to_owned());
}

fn push_opt(row: &mut Vec<String>, o: &Option<String>)
    ensures
        cells_view(final(row)@) == cells_view(old(row)@).push(opt_cell(opt_view(*o))),
{
    match o {
        Some(s) => push_cell(row, s.clone()),
        None => push_cell(row, String::new()),
    }
}

fn push_u16(row: &mut Vec<String>, o: Option<u16>)
    ensures
        cells_view(final(row)@) == cells_view(old(row)@).push(u16_cell(o)),
{
    match o {
        Some(n) => push_cell(row, decimal_text(n as u32)),
        None => push_cell(row, String::new()),
    }
}

fn push_u8(row: &mut Vec<String>, o: Option<u8>)
    ensures
        cells_view(final(row)@) == cells_view(old(row)@).push(u8_cell(o)),
{
    match o {
        Some(n) => push_cell(row, decimal_text(n as u32)),
        None => push_cell(row, String::new()),
    }
}

/// Flattens a cartridge record into its row.
pub fn cartridge_cells(r: &CartridgeRecord) -> (row: Vec<String>)
    ensures
        cells_view(row@) == cartridge_row(*r),
{
    let mut row: Vec<String> = Vec::new();
    assert(cells_view(row@) =~= Seq::<Seq<char>>::empty());
    push_cell(&mut row, r.code.clone());
    push_cell(&mut row, r.slug.clone());
    push_cell(&mut row, r.title.clone());
    push_cell(&mut row, r.contributor.clone());
    push_cell(&mut row, r.name.clone());
    push_str(&mut row, platform_text(r.platform));
    push_str(&mut row, layout_text(r.layout));
    push_opt(&mut row, &r.shell_code);
    push_opt(&mut row, &r.shell_stamp);
    push_cell(&mut row, r.board_label.clone());
    push_opt(&mut row, &r.board_circled_letters);
    push_u16(&mut row, r.date.year);
    push_u8(&mut row, r.date.month);
    push_u8(&mut row, r.date.week);
    assert(cells_view(row@) =~= cartridge_row(*r));
    row
}

} // verus!

verus! {

/// Flattening an assembled cartridge record gives one column per field: the
/// submission's values where present and empty cells where absent.
pub proof fn lemma_cartridge_round_trip(
    input: crate::cartridge::CartridgeInput,
    cfgs: Seq<crate::cartridge::GameConfig>,
    rec: CartridgeRecord,
)
    requires
        crate::cartridge::cartridge_record_ok(rec, input, cfgs),
    ensures
        ({
            let row = cartridge_row(rec);
            let cfg = cfgs[crate::cartridge::config_index(cfgs, input.code@)->0];
            &&& row.len() == 14
            &&& row[0] == input.code@
            &&& row[1] == input.slug@
            &&& row[2] == crate::cartridge::entry_title(input.index)
            &&& row[3] == input.contributor@
            &&& row[4] == cfg.name@
            &&& row[5] == platform_name(cfg.platform)
            &&& row[7] == opt_cell(opt_view(input.shell_code))
            &&& row[8] == opt_cell(opt_view(input.shell_stamp))
            &&& row[9] == input.board.label@
            &&& row[10] == opt_cell(opt_view(input.board.circled_letters))
            &&& row[11] == u16_cell(input.board.year)
            &&& row[12] == u8_cell(input.board.month)
            &&& row[13] == Seq::<char>::empty()
        }),
{
}

/// The column names of a cartridge row.
pub open spec fn cartridge_header_spec() -> Seq<Seq<char>> {
    seq![
        "code"@,
        "slug"@,
        "title"@,
        "contributor"@,
        "name"@,
        "platform"@,
        "layout"@,
        "shell_code"@,
        "shell_stamp"@,
        "board.label"@,
        "board.circled_letters"@,
        "year"@,
        "month"@,
        "week"@,
    ]
}

/// The column names of a cartridge row.
pub fn cartridge_header() -> (r: Vec<String>)
    ensures
        cells_view(r@) == cartridge_header_spec(),
{
    let mut row: Vec<String> = Vec::new();
    assert(cells_view(row@) =~= Seq::<Seq<char>>::empty());
    push_str(&mut row, "code");
    push_str(&mut row, "slug");
    push_str(&mut row, "title");
    push_str(&mut row, "contributor");
    push_str(&mut row, "name");
    push_str(&mut row, "platform");
    push_str(&mut row, "layout");
    push_str(&mut row, "shell_code");
    push_str(&mut row, "shell_stamp");
    push_str(&mut row, "board.label");
    push_str(&mut row, "board.circled_letters");
    push_str(&mut row, "year");
    push_str(&mut row, "month");
    push_str(&mut row, "week");
    assert(cells_view(row@) =~= cartridge_header_spec());
    row
}

/// The cartridge header has one name per cell of a cartridge row.
pub proof fn lemma_cartridge_header_matches_row(rec: CartridgeRecord)
    ensures
        cartridge_header_spec().len() == cartridge_row(rec).len(),
{
}

} // verus!
