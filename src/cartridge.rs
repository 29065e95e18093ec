//! Cartridge submissions: configuration lookup, board layout and checks.

use vstd::prelude::*;
use vstd::string::StringExecFns;
use crate::date::{ResolvedDate, resolve_date, resolve_spec};
use crate::fault::{AssembleError, Fault, copy_opt, fail, opt_view};
use crate::grammar::{chars_of, lit_at};
use crate::text::{decimal, push_decimal};

verus! {

/// The handheld a game runs on.
#[derive(Clone, Copy, Debug, PartialEq, Eq, Structural)]
pub enum GamePlatform {
    Gb,
    Gbc,
    Gba,
}

/// The chips a cartridge board carries.
#[derive(Clone, Copy, Debug, PartialEq, Eq, Structural)]
pub enum BoardLayout {
    Rom,
    RomMapper,
    RomMapperRam,
    RomMapperRamXtal,
    Mbc2,
    Mbc6,
    Mbc7,
    Type15,
    Huc3,
    Tama,
}

/// Configuration of one game, keyed by its cartridge code.
pub struct GameConfig {
    pub code: String,
    pub name: String,
    pub platform: GamePlatform,
    pub layouts: Vec<BoardLayout>,
    pub sha256: Option<Vec<u8>>,
}

/// The board of a cartridge submission.
pub struct CartridgeBoard {
    pub label: String,
    pub circled_letters: Option<String>,
    pub year: Option<u16>,
    pub month: Option<u8>,
}

/// One cartridge submission as read from its folder.
pub struct CartridgeInput {
    pub code: String,
    pub slug: String,
    pub index: u32,
    pub contributor: String,
    pub shell_code: Option<String>,
    pub shell_stamp: Option<String>,
    pub board: CartridgeBoard,
    pub dump_sha256: Option<Vec<u8>>,
}

/// An accepted cartridge submission.
pub struct CartridgeRecord {
    pub code: String,
    pub slug: String,
    pub title: String,
    pub contributor: String,
    pub name: String,
    pub platform: GamePlatform,
    /// The layouts the configuration allows.
    pub allowed_layouts: Vec<BoardLayout>,
    /// The configuration's reference checksum.
    pub reference_sha256: Option<Vec<u8>>,
    pub layout: BoardLayout,
    pub shell_code: Option<String>,
    pub shell_stamp: Option<String>,
    pub board_label: String,
    pub board_circled_letters: Option<String>,
    pub date: ResolvedDate,
    pub sha256: Option<Vec<u8>>,
}

pub const CARTRIDGE_MIN_YEAR: u16 = 1989;

pub const CARTRIDGE_MAX_YEAR: u16 = 2009;

/// Board label prefixes and the layout each names, in priority order.
pub open spec fn layout_table() -> Seq<(Seq<char>, BoardLayout)> {
    seq![
        ("DMG-AAA-"@, BoardLayout::Rom),
        ("DMG-BEAN-"@, BoardLayout::RomMapper),
        ("DMG-BEAL-"@, BoardLayout::RomMapper),
        ("DMG-BFAN-"@, BoardLayout::RomMapper),
        ("DMG-DECN-"@, BoardLayout::RomMapperRam),
        ("DMG-KFDN-"@, BoardLayout::RomMapperRam),
        ("CGB-A32-"@, BoardLayout::RomMapperRam),
        ("DMG-KGDU-"@, BoardLayout::RomMapperRamXtal),
        ("DMG-DAFN-"@, BoardLayout::Mbc2),
        ("DMG-HFAN-"@, BoardLayout::Mbc6),
        ("DMG-A40-"@, BoardLayout::Mbc7),
        ("DMG-Z02-"@, BoardLayout::Type15),
        ("DMG-HUC3-"@, BoardLayout::Huc3),
        ("DMG-TAMA-"@, BoardLayout::Tama),
        ("AGB-E01-"@, BoardLayout::Rom),
        ("AGB-E05-"@, BoardLayout::RomMapperRam),
    ]
}

/// The first table entry from `i` on whose prefix starts `s`.
pub open spec fn layout_from(t: Seq<(Seq<char>, BoardLayout)>, i: int, s: Seq<char>) -> Option<
    BoardLayout,
>
    decreases t.len() - i,
{
    if i < 0 || i >= t.len() {
        None
    } else if lit_at(t[i].0, s, 0) {
        Some(t[i].1)
    } else {
        layout_from(t, i + 1, s)
    }
}

/// The layout a board label names.
pub open spec fn layout_of(label: Seq<char>) -> Option<BoardLayout> {
    layout_from(layout_table(), 0, label)
}

fn layout_entries() -> (r: Vec<(&'static str, BoardLayout)>)
    ensures
        r@.len() == layout_table().len(),
        forall|i: int|
            0 <= i < r@.len() ==> (#[trigger] r@[i]).0@ == layout_table()[i].0 && r@[i].1
                == layout_table()[i].1,
{
    vec![
        ("DMG-AAA-", BoardLayout::Rom),
        ("DMG-BEAN-", BoardLayout::RomMapper),
        ("DMG-BEAL-", BoardLayout::RomMapper),
        ("DMG-BFAN-", BoardLayout::RomMapper),
        ("DMG-DECN-", BoardLayout::RomMapperRam),
        ("DMG-KFDN-", BoardLayout::RomMapperRam),
        ("CGB-A32-", BoardLayout::RomMapperRam),
        ("DMG-KGDU-", BoardLayout::RomMapperRamXtal),
        ("DMG-DAFN-", BoardLayout::Mbc2),
        ("DMG-HFAN-", BoardLayout::Mbc6),
        ("DMG-A40-", BoardLayout::Mbc7),
        ("DMG-Z02-", BoardLayout::Type15),
        ("DMG-HUC3-", BoardLayout::Huc3),
        ("DMG-TAMA-", BoardLayout::Tama),
        ("AGB-E01-", BoardLayout::Rom),
        ("AGB-E05-", BoardLayout::RomMapperRam),
    ]
}

fn starts_with(p: &Vec<char>, s: &Vec<char>) -> (r: bool)
    ensures
        r == lit_at(p@, s@, 0),
{
    if p.len() > s.len() {
        return false;
    }
    let mut k: usize = 0;
    while k < p.len()
        invariant
            p@.len() <= s@.len(),
            k <= p@.len(),
            forall|q: int| 0 <= q < k ==> s@[q] == p@[q],
        decreases p@.len() - k,
    {
        if s[k] != p[k] {
            assert(s@.subrange(0, p@.len() as int)[k as int] != p@[k as int]);
            return false;
        }
        k = k + 1;
    }
    assert(s@.subrange(0, p@.len() as int) == p@);
    true
}

/// Infers the board layout from the board label.
pub fn layout_from_label(label: &str) -> (r: Option<BoardLayout>)
    ensures
        r == layout_of(label@),
{
    let s = chars_of(label);
    let t = layout_entries();
    let mut i: usize = 0;
    while i < t.len()
        invariant
            s@ == label@,
            t@.len() == layout_table().len(),
            forall|j: int|
                0 <= j < t@.len() ==> (#[trigger] t@[j]).0@ == layout_table()[j].0 && t@[j].1
                    == layout_table()[j].1,
            i <= t@.len(),
            layout_of(label@) == layout_from(layout_table(), i as int, label@),
        decreases t@.len() - i,
    {
        let p = chars_of(t[i].0);
        if starts_with(&p, &s) {
            return Some(t[i].1);
        }
        i = i + 1;
    }
    None
}

/// Index of the first configuration for `code`.
pub open spec fn config_index(cfgs: Seq<GameConfig>, code: Seq<char>) -> Option<int>
    decreases cfgs.len(),
{
    if cfgs.len() == 0 {
        None
    } else if cfgs.last().code@ == code {
        match config_index(cfgs.drop_last(), code) {
            Some(i) => Some(i),
            None => Some(cfgs.len() - 1),
        }
    } else {
        config_index(cfgs.drop_last(), code)
    }
}

/// Finds the configuration of a cartridge code.
pub fn find_config(cfgs: &Vec<GameConfig>, code: &String) -> (r: Option<usize>)
    ensures
        match (r, config_index(cfgs@, code@)) {
            (Some(i), Some(j)) => i == j && i < cfgs@.len(),
            (None, None) => true,
            _ => false,
        },
{
    let mut i: usize = 0;
    while i < cfgs.len()
        invariant
            i <= cfgs@.len(),
            config_index(cfgs@.subrange(0, i as int), code@) is None,
        decreases cfgs@.len() - i,
    {
        proof {
            let pre = cfgs@.subrange(0, i as int + 1);
            assert(pre.drop_last() == cfgs@.subrange(0, i as int));
        }
        if cfgs[i].code == *code {
            proof {
                lemma_config_index_prefix(cfgs@, code@, i as int + 1);
            }
            return Some(i);
        }
        i = i + 1;
    }
    assert(cfgs@.subrange(0, i as int) == cfgs@);
    None
}

proof fn lemma_config_index_prefix(cfgs: Seq<GameConfig>, code: Seq<char>, n: int)
    requires
        0 < n <= cfgs.len(),
        config_index(cfgs.subrange(0, n), code) is Some,
    ensures
        config_index(cfgs, code) == config_index(cfgs.subrange(0, n), code),
    decreases cfgs.len(),
{
    if n < cfgs.len() {
        assert(cfgs.drop_last().subrange(0, n) == cfgs.subrange(0, n));
        lemma_config_index_prefix(cfgs.drop_last(), code, n);
        let k = config_index(cfgs.drop_last(), code);
        assert(k is Some);
    } else {
        assert(cfgs.subrange(0, n) == cfgs);
    }
}

pub open spec fn opt_bytes(o: Option<Vec<u8>>) -> Option<Seq<u8>> {
    match o {
        Some(v) => Some(v@),
        None => None,
    }
}

/// The first check a cartridge submission fails, if any: folder and slug,
/// known code, known layout, layout allowed, board year, checksum.
pub open spec fn cartridge_fault(
    input: CartridgeInput,
    folder: Seq<char>,
    cfgs: Seq<GameConfig>,
) -> Option<Fault> {
    if input.slug@ != folder {
        Some(Fault::SlugMismatch)
    } else if config_index(cfgs, input.code@) is None {
        Some(Fault::UnknownCode)
    } else if layout_of(input.board.label@) is None {
        Some(Fault::UnknownLayout)
    } else if !cfgs[config_index(cfgs, input.code@)->0].layouts@.contains(
        layout_of(input.board.label@)->0,
    ) {
        Some(Fault::LayoutMismatch)
    } else if input.board.year matches Some(y) && !(CARTRIDGE_MIN_YEAR <= y
        <= CARTRIDGE_MAX_YEAR) {
        Some(Fault::YearOutOfRange)
    } else if opt_bytes(input.dump_sha256) matches Some(d) && opt_bytes(
        cfgs[config_index(cfgs, input.code@)->0].sha256,
    ) matches Some(c) && d != c {
        Some(Fault::ChecksumMismatch)
    } else {
        None
    }
}

/// The value an error about `fault` names: the slug for a slug mismatch,
/// the board label for an unknown layout, otherwise the cartridge code.
pub open spec fn cartridge_subject(input: CartridgeInput, fault: Fault) -> Seq<char> {
    match fault {
        Fault::SlugMismatch => input.slug@,
        Fault::UnknownLayout => input.board.label@,
        _ => input.code@,
    }
}

fn bytes_eq(a: &Vec<u8>, b: &Vec<u8>) -> (r: bool)
    ensures
        r == (a@ == b@),
{
    if a.len() != b.len() {
        return false;
    }
    let mut k: usize = 0;
    while k < a.len()
        invariant
            a@.len() == b@.len(),
            k <= a@.len(),
            forall|q: int| 0 <= q < k ==> a@[q] == b@[q],
        decreases a@.len() - k,
    {
        if a[k] != b[k] {
            return false;
        }
        k = k + 1;
    }
    assert(a@ == b@);
    true
}

fn layout_allowed(layouts: &Vec<BoardLayout>, l: BoardLayout) -> (r: bool)
    ensures
        r == layouts@.contains(l),
{
    let mut k: usize = 0;
    while k < layouts.len()
        invariant
            k <= layouts@.len(),
            forall|q: int| 0 <= q < k ==> layouts@[q] != l,
        decreases layouts@.len() - k,
    {
        if layouts[k] == l {
            return true;
        }
        k = k + 1;
    }
    false
}

fn copy_layouts(v: &Vec<BoardLayout>) -> (r: Vec<BoardLayout>)
    ensures
        r@ == v@,
{
    let mut c: Vec<BoardLayout> = Vec::new();
    let mut k: usize = 0;
    while k < v.len()
        invariant
            k <= v@.len(),
            c@ == v@.subrange(0, k as int),
        decreases v@.len() - k,
    {
        c.push(v[k]);
        k = k + 1;
    }
    assert(c@ == v@);
    c
}

fn copy_bytes(o: &Option<Vec<u8>>) -> (r: Option<Vec<u8>>)
    ensures
        opt_bytes(r) == opt_bytes(*o),
{
    match o {
        Some(v) => {
            let mut c: Vec<u8> = Vec::new();
            let mut k: usize = 0;
            while k < v.len()
                invariant
                    k <= v@.len(),
                    c@ == v@.subrange(0, k as int),
                decreases v@.len() - k,
            {
                c.push(v[k]);
                k = k + 1;
            }
            assert(c@ == v@);
            Some(c)
        },
        None => None,
    }
}

/// `Entry #` followed by the decimal index.
pub open spec fn entry_title(index: u32) -> Seq<char> {
    "Entry #"@ + decimal(index as nat)
}

/// An accepted record carries the submission's identity, its configuration's
/// name and platform, the inferred layout and the board's date.
pub open spec fn cartridge_record_ok(
    rec: CartridgeRecord,
    input: CartridgeInput,
    cfgs: Seq<GameConfig>,
) -> bool {
    let cfg = cfgs[config_index(cfgs, input.code@)->0];
    &&& rec.code@ == input.code@
    &&& rec.slug@ == input.slug@
    &&& rec.title@ == entry_title(input.index)
    &&& rec.contributor@ == input.contributor@
    &&& rec.name@ == cfg.name@
    &&& rec.platform == cfg.platform
    &&& rec.allowed_layouts@ == cfg.layouts@
    &&& opt_bytes(rec.reference_sha256) == opt_bytes(cfg.sha256)
    &&& Some(rec.layout) == layout_of(input.board.label@)
    &&& opt_view(rec.shell_code) == opt_view(input.shell_code)
    &&& opt_view(rec.shell_stamp) == opt_view(input.shell_stamp)
    &&& rec.board_label@ == input.board.label@
    &&& opt_view(rec.board_circled_letters) == opt_view(input.board.circled_letters)
    &&& rec.date == resolve_spec(input.board.year, input.board.month, None, None)
    &&& opt_bytes(rec.sha256) == opt_bytes(input.dump_sha256)
}

/// Checks and assembles one cartridge submission found in `folder`.
pub fn assemble_cartridge(input: &CartridgeInput, folder: &str, cfgs: &Vec<GameConfig>) -> (r:
    Result<CartridgeRecord, AssembleError>)
    ensures
        match cartridge_fault(*input, folder@, cfgs@) {
            Some(f) => match r {
                Err(e) => e.fault == f && e.folder@ == folder@ && e.subject@ == cartridge_subject(
                    *input,
                    f,
                ),
                Ok(_) => false,
            },
            None => match r {
                Ok(rec) => cartridge_record_ok(rec, *input, cfgs@),
                Err(_) => false,
            },
        },
{
    let folder_name = folder_string(folder);
    if !(input.slug == folder_name) {
        return Err(fail(folder, Fault::SlugMismatch, input.slug.as_str()));
    }
    let ci = match find_config(cfgs, &input.code) {
        Some(i) => i,
        None => {
            return Err(fail(folder, Fault::UnknownCode, input.code.as_str()));
        },
    };
    let cfg = &cfgs[ci];
    let layout = match layout_from_label(input.board.label.as_str()) {
        Some(l) => l,
        None => {
            return Err(fail(folder, Fault::UnknownLayout, input.board.label.as_str()));
        },
    };
    if !layout_allowed(&cfg.layouts, layout) {
        return Err(fail(folder, Fault::LayoutMismatch, input.code.as_str()));
    }
    if let Some(y) = input.board.year {
        if !(CARTRIDGE_MIN_YEAR <= y && y <= CARTRIDGE_MAX_YEAR) {
            return Err(fail(folder, Fault::YearOutOfRange, input.code.as_str()));
        }
    }
    if let Some(d) = &input.dump_sha256 {
        if let Some(c) = &cfg.sha256 {
            if !bytes_eq(d, c) {
                return Err(fail(folder, Fault::ChecksumMismatch, input.code.as_str()));
            }
        }
    }
    let mut title = String::from_str("Entry #");
    push_decimal(&mut title, input.index);
    Ok(
        CartridgeRecord {
            code: input.code.clone(),
            slug: input.slug.clone(),
            title,
            contributor: input.contributor.clone(),
            name: cfg.name.clone(),
            platform: cfg.platform,
            allowed_layouts: copy_layouts(&cfg.layouts),
            reference_sha256: copy_bytes(&cfg.sha256),
            layout,
            shell_code: copy_opt(&input.shell_code),
            shell_stamp: copy_opt(&input.shell_stamp),
            board_label: input.board.label.clone(),
            board_circled_letters: copy_opt(&input.board.circled_letters),
            date: resolve_date(input.board.year, input.board.month, None, None),
            sha256: copy_bytes(&input.dump_sha256),
        },
    )
}

fn folder_string(folder: &str) -> (r: String)
    ensures
        r@ == folder@,
{
    folder.to_owned()
}

} // verus!

verus! {

/// A submission whose inferred board layout is missing from its
/// configuration's layouts is refused with a layout mismatch that names the
/// cartridge code.
pub proof fn lemma_layout_mismatch(input: CartridgeInput, folder: Seq<char>, cfgs: Seq<GameConfig>)
    requires
        input.slug@ == folder,
        config_index(cfgs, input.code@) is Some,
        layout_of(input.board.label@) is Some,
        !cfgs[config_index(cfgs, input.code@)->0].layouts@.contains(
            layout_of(input.board.label@)->0,
        ),
    ensures
        cartridge_fault(input, folder, cfgs) == Some(Fault::LayoutMismatch),
        cartridge_subject(input, Fault::LayoutMismatch) == input.code@,
{
}

} // verus!

verus! {

/// A submission whose inferred board layout is missing from its
/// configuration's layouts is always refused, whatever its folder.
pub proof fn lemma_layout_mismatch_aborts(
    input: CartridgeInput,
    folder: Seq<char>,
    cfgs: Seq<GameConfig>,
)
    requires
        config_index(cfgs, input.code@) is Some,
        layout_of(input.board.label@) is Some,
        !cfgs[config_index(cfgs, input.code@)->0].layouts@.contains(
            layout_of(input.board.label@)->0,
        ),
    ensures
        cartridge_fault(input, folder, cfgs) is Some,
        input.slug@ == folder ==> cartridge_fault(input, folder, cfgs) == Some(
            Fault::LayoutMismatch,
        ),
{
}

} // verus!
