//! Console submissions: per-generation wiring of slots to decoders, date
//! resolution, invariants and sort groups.

use vstd::prelude::*;
use vstd::string::StringExecFns;
use crate::date::{ResolvedDate, resolve_date, resolve_spec};
use crate::decoders::{Registry, decoder_of, family_index, registry_wf};
use crate::fault::{AssembleError, Fault, copy_opt, fail, opt_view, part_error, stamp_error};
use crate::grammar::chars_of;
use crate::part::{DecodeError, PartFamily, PartRecord, decode, decode_fault, decode_slot, decodes_to};
use crate::stamp::{
    Era,
    StampRecord,
    decode_stamp,
    decode_stamp_era,
    era_for,
    stamp_is,
    stamp_spec,
};
use crate::text::{decimal, push_decimal};

verus! {

/// A hardware generation of consoles.
#[derive(Clone, Copy, Debug, PartialEq, Eq, Structural)]
pub enum Generation {
    Dmg,
    Sgb,
    Mgb,
    Mgl,
    Sgb2,
    Cgb,
    Agb,
    Ags,
    Gbs,
    Oxy,
}

/// Presentation order of first-generation units: with serial and no anomaly,
/// without serial and no anomaly, with serial and an anomaly, without serial
/// and an anomaly.
#[derive(Clone, Copy, Debug, PartialEq, Eq, Structural)]
pub enum SortGroup {
    A,
    B,
    C,
    D,
}

/// Which stamp grammar a generation's mainboard stamp is read with.
#[derive(Clone, Copy, Debug, PartialEq, Eq, Structural)]
pub enum StampRule {
    Unused,
    Early,
    Later,
    ByLead,
}

/// A component label to decode: the slot's family, the label if any, and the
/// year hint it is decoded with.
pub type Job = (PartFamily, Option<String>, Option<u16>);

/// The plain-value form of a job.
pub type JobView = (PartFamily, Option<Seq<char>>, Option<u16>);

/// One component decoded for a slot: absent when the slot is empty.
pub open spec fn part_is(
    p: Option<PartRecord>,
    reg: Registry,
    fam: PartFamily,
    label: Option<Seq<char>>,
    hint: Option<u16>,
) -> bool {
    match (p, label) {
        (None, None) => true,
        (Some(p), Some(l)) => decodes_to(Ok(p), reg.decoders@[family_index(fam)], hint, l),
        _ => false,
    }
}

pub open spec fn job_fault(reg: Registry, job: JobView) -> bool {
    match job.1 {
        Some(l) => decode_fault(reg.decoders@[family_index(job.0)], job.2, l) is Some,
        None => false,
    }
}

/// The first job from `i` on whose label cannot be decoded.
pub open spec fn first_fault(reg: Registry, jobs: Seq<JobView>, i: int) -> Option<int>
    decreases jobs.len() - i,
{
    if i < 0 || i >= jobs.len() {
        None
    } else if job_fault(reg, jobs[i]) {
        Some(i)
    } else {
        first_fault(reg, jobs, i + 1)
    }
}

proof fn lemma_first_fault_range(reg: Registry, jobs: Seq<JobView>, i: int)
    requires
        0 <= i,
        first_fault(reg, jobs, i) is Some,
    ensures
        i <= first_fault(reg, jobs, i)->0 < jobs.len(),
        job_fault(reg, jobs[first_fault(reg, jobs, i)->0]),
    decreases jobs.len() - i,
{
    if i < jobs.len() && !job_fault(reg, jobs[i]) {
        lemma_first_fault_range(reg, jobs, i + 1);
    }
}

/// Labels that no format matches never make a job fail.
pub proof fn lemma_unmatched_labels_never_fail(reg: Registry, jobs: Seq<JobView>, i: int)
    requires
        0 <= i,
        forall|k: int|
            0 <= k < jobs.len() ==> (#[trigger] jobs[k]).1 is None || crate::part::first_match(
                reg.decoders@[family_index(jobs[k].0)].grammars@,
                0,
                jobs[k].1->0,
            ) is None,
    ensures
        first_fault(reg, jobs, i) is None,
    decreases jobs.len() - i,
{
    if i < jobs.len() {
        assert(!job_fault(reg, jobs[i]));
        lemma_unmatched_labels_never_fail(reg, jobs, i + 1);
    }
}

pub open spec fn jobs_view(v: Seq<Job>) -> Seq<JobView> {
    Seq::new(v.len(), |i: int| (v[i].0, opt_view(v[i].1), v[i].2))
}

/// Decodes every job in order, each with its own hint; the first label that
/// fails ends it.
pub fn decode_jobs(reg: &Registry, jobs: &Vec<Job>) -> (r: Result<
    Vec<Option<PartRecord>>,
    DecodeError,
>)
    requires
        registry_wf(*reg),
    ensures
        match first_fault(*reg, jobs_view(jobs@), 0) {
            Some(j) => match r {
                Err(e) => decodes_to(
                    Err(e),
                    reg.decoders@[family_index(jobs@[j].0)],
                    jobs@[j].2,
                    jobs_view(jobs@)[j].1->0,
                ),
                Ok(_) => false,
            },
            None => match r {
                Ok(v) => v@.len() == jobs@.len() && forall|i: int|
                    0 <= i < v@.len() ==> part_is(
                        #[trigger] v@[i],
                        *reg,
                        jobs@[i].0,
                        opt_view(jobs@[i].1),
                        jobs@[i].2,
                    ),
                Err(_) => false,
            },
        },
{
    let ghost jv = jobs_view(jobs@);
    let mut out: Vec<Option<PartRecord>> = Vec::new();
    let mut i: usize = 0;
    while i < jobs.len()
        invariant
            registry_wf(*reg),
            jv == jobs_view(jobs@),
            i <= jobs@.len(),
            out@.len() == i,
            first_fault(*reg, jv, 0) == first_fault(*reg, jv, i as int),
            forall|k: int|
                0 <= k < i ==> part_is(
                    #[trigger] out@[k],
                    *reg,
                    jobs@[k].0,
                    opt_view(jobs@[k].1),
                    jobs@[k].2,
                ),
        decreases jobs@.len() - i,
    {
        let d = decoder_of(reg, jobs[i].0);
        let hint = jobs[i].2;
        match decode_slot(d, hint, &jobs[i].1) {
            Ok(p) => {
                proof {
                    if let Some(l) = jobs@[i as int].1 {
                        let pp = p->0;
                        crate::part::lemma_decode_fault(Ok(pp), *d, hint, l@);
                    }
                    assert(!job_fault(*reg, jv[i as int]));
                }
                out.push(p);
            },
            Err(e) => {
                proof {
                    let l = jobs@[i as int].1->0;
                    crate::part::lemma_decode_fault(Err(e), *d, hint, l@);
                    assert(job_fault(*reg, jv[i as int]));
                }
                return Err(e);
            },
        }
        i = i + 1;
    }
    Ok(out)
}

/// A screen panel as transcribed.
pub struct ScreenInput {
    pub label: Option<String>,
    pub year: Option<u16>,
    pub month: Option<u8>,
    pub column_driver: Option<String>,
    pub row_driver: Option<String>,
    pub outlier: bool,
}

/// The first generation's screen board.
pub struct LcdBoardInput {
    pub label: String,
    pub circled_letters: Option<String>,
    pub stamp: Option<String>,
    pub year: Option<u16>,
    pub month: Option<u8>,
    pub outlier: bool,
    pub regulator: Option<String>,
    pub screen: Option<ScreenInput>,
}

/// The first generation's power board.
pub struct PowerBoardInput {
    pub kind: String,
    pub year: Option<u16>,
    pub month: Option<u8>,
    pub outlier: bool,
}

/// The first generation's jack board.
pub struct JackBoardInput {
    pub kind: String,
    pub extra_label: Option<String>,
    pub outlier: bool,
}

/// The mainboard; `parts` holds the component labels in the generation's
/// slot order (see `slot_families`).
pub struct MainboardInput {
    pub label: String,
    pub circled_letters: Option<String>,
    pub number_pair: Option<String>,
    pub letter_at_top_right: Option<String>,
    pub extra_label: Option<String>,
    pub stamp: Option<String>,
    pub stamp_front: Option<String>,
    pub stamp_back: Option<String>,
    pub year: Option<u16>,
    pub month: Option<u8>,
    /// The production-site mark some mainboards carry.
    pub jun: Option<bool>,
    pub outlier: bool,
    pub parts: Vec<Option<String>>,
}

/// One console submission as read from its folder.
pub struct ConsoleInput {
    pub slug: String,
    pub serial: Option<String>,
    pub index: Option<u32>,
    pub contributor: String,
    pub color: Option<String>,
    pub release_code: Option<String>,
    pub shell_stamp: Option<String>,
    pub shell_outlier: bool,
    pub mainboard: MainboardInput,
    pub lcd_board: Option<LcdBoardInput>,
    pub screen: Option<ScreenInput>,
    pub power_board: Option<PowerBoardInput>,
    pub jack_board: Option<JackBoardInput>,
}

/// A decoded screen panel.
pub struct PanelRecord {
    pub label: Option<String>,
    pub year: Option<u16>,
    pub month: Option<u8>,
    pub column_driver: Option<PartRecord>,
    pub row_driver: Option<PartRecord>,
}

pub struct LcdBoardRecord {
    pub kind: String,
    pub circled_letters: Option<String>,
    pub stamp: Option<String>,
    pub year: Option<u16>,
    pub month: Option<u8>,
    pub regulator: Option<PartRecord>,
    pub panel: Option<PanelRecord>,
}

pub struct PowerBoardRecord {
    pub kind: String,
    pub label: String,
    pub year: Option<u16>,
    pub month: Option<u8>,
}

pub struct JackBoardRecord {
    pub kind: String,
    pub extra_label: Option<String>,
}

pub struct BoardRecord {
    pub kind: String,
    pub circled_letters: Option<String>,
    pub number_pair: Option<String>,
    pub letter_at_top_right: Option<String>,
    pub extra_label: Option<String>,
    pub stamp: Option<String>,
    pub stamp_front: Option<String>,
    pub stamp_back: Option<String>,
    pub year: Option<u16>,
    pub month: Option<u8>,
    pub jun: Option<bool>,
}

/// An accepted console submission.
pub struct ConsoleRecord {
    pub generation: Generation,
    pub code: String,
    pub slug: String,
    pub title: String,
    pub contributor: String,
    pub sort_group: Option<SortGroup>,
    pub color: Option<String>,
    pub release_code: Option<String>,
    pub shell_stamp: Option<String>,
    pub mainboard: BoardRecord,
    pub parts: Vec<Option<PartRecord>>,
    pub stamp: Option<StampRecord>,
    pub date: ResolvedDate,
    pub lcd_board: Option<LcdBoardRecord>,
    pub screen: Option<PanelRecord>,
    pub power_board: Option<PowerBoardRecord>,
    pub jack_board: Option<JackBoardRecord>,
}

/// The short code of a generation.
pub open spec fn generation_code(g: Generation) -> Seq<char> {
    match g {
        Generation::Dmg => "dmg"@,
        Generation::Sgb => "sgb"@,
        Generation::Mgb => "mgb"@,
        Generation::Mgl => "mgl"@,
        Generation::Sgb2 => "sgb2"@,
        Generation::Cgb => "cgb"@,
        Generation::Agb => "agb"@,
        Generation::Ags => "ags"@,
        Generation::Gbs => "gbs"@,
        Generation::Oxy => "oxy"@,
    }
}

pub fn code_of(g: Generation) -> (r: &'static str)
    ensures
        r@ == generation_code(g),
{
    match g {
        Generation::Dmg => "dmg",
        Generation::Sgb => "sgb",
        Generation::Mgb => "mgb",
        Generation::Mgl => "mgl",
        Generation::Sgb2 => "sgb2",
        Generation::Cgb => "cgb",
        Generation::Agb => "agb",
        Generation::Ags => "ags",
        Generation::Gbs => "gbs",
        Generation::Oxy => "oxy",
    }
}

/// Whether a serial, when present, must equal the slug.
pub open spec fn checks_serial(g: Generation) -> bool {
    !(g == Generation::Sgb || g == Generation::Sgb2 || g == Generation::Gbs)
}

/// The generation's static year hint.
pub open spec fn default_hint(g: Generation) -> Option<u16> {
    match g {
        Generation::Dmg => Some(1996u16),
        Generation::Cgb => Some(1998u16),
        Generation::Agb => Some(2001u16),
        Generation::Ags => Some(2003u16),
        Generation::Gbs => Some(2003u16),
        Generation::Oxy => Some(2005u16),
        _ => None,
    }
}

fn default_hint_of(g: Generation) -> (r: Option<u16>)
    ensures
        r == default_hint(g),
{
    match g {
        Generation::Dmg => Some(1996),
        Generation::Cgb => Some(1998),
        Generation::Agb => Some(2001),
        Generation::Ags => Some(2003),
        Generation::Gbs => Some(2003),
        Generation::Oxy => Some(2005),
        _ => None,
    }
}

pub open spec fn stamp_rule(g: Generation) -> StampRule {
    match g {
        Generation::Dmg | Generation::Mgb => StampRule::Early,
        Generation::Mgl | Generation::Agb | Generation::Gbs => StampRule::Later,
        Generation::Cgb => StampRule::ByLead,
        _ => StampRule::Unused,
    }
}

fn stamp_rule_of(g: Generation) -> (r: StampRule)
    ensures
        r == stamp_rule(g),
{
    match g {
        Generation::Dmg | Generation::Mgb => StampRule::Early,
        Generation::Mgl | Generation::Agb | Generation::Gbs => StampRule::Later,
        Generation::Cgb => StampRule::ByLead,
        _ => StampRule::Unused,
    }
}

/// Mainboard labels of front-lit units whose third slot holds the newer
/// power chip rather than an amplifier.
pub open spec fn ags_new_power(label: Seq<char>) -> bool {
    label == "C/AGS-CPU-30"@ || label == "C/AGT-CPU-01"@
}

/// The decoder family of each mainboard slot, in slot order.
pub open spec fn slot_families(g: Generation, label: Seq<char>) -> Seq<PartFamily> {
    match g {
        Generation::Dmg => seq![
            PartFamily::Gen1Soc,
            PartFamily::Ram,
            PartFamily::Ram,
            PartFamily::DmgAmp,
            PartFamily::Crystal4Mihz,
        ],
        Generation::Sgb => seq![
            PartFamily::Gen1Soc,
            PartFamily::Icd2,
            PartFamily::Ram,
            PartFamily::Ram,
            PartFamily::SgbRom,
            PartFamily::Cic,
        ],
        Generation::Mgb => seq![
            PartFamily::Gen2Soc,
            PartFamily::Ram,
            PartFamily::MgbAmp,
            PartFamily::DmgReg,
            PartFamily::Crystal4Mihz,
        ],
        Generation::Mgl => seq![
            PartFamily::Gen2Soc,
            PartFamily::Ram,
            PartFamily::MgbAmp,
            PartFamily::DmgReg,
            PartFamily::Crystal4Mihz,
            PartFamily::MglTransformer,
        ],
        Generation::Sgb2 => seq![
            PartFamily::Gen2Soc,
            PartFamily::Icd2,
            PartFamily::Ram,
            PartFamily::SgbRom,
            PartFamily::Cic,
            PartFamily::Coil,
            PartFamily::Crystal20Mihz,
        ],
        Generation::Cgb => seq![
            PartFamily::CgbSoc,
            PartFamily::Ram,
            PartFamily::MgbAmp,
            PartFamily::CgbReg,
            PartFamily::Crystal8Mihz,
        ],
        Generation::Agb => seq![
            PartFamily::AgbSocQfp128,
            PartFamily::SramTsop48,
            PartFamily::AgbReg,
            PartFamily::AgbAmp,
            PartFamily::AgbPmic,
            PartFamily::Crystal4Mihz,
        ],
        Generation::Ags => seq![
            PartFamily::AgbSocQfp156,
            PartFamily::SramTsop48,
            if ags_new_power(label) {
                PartFamily::AgsPmicNew
            } else {
                PartFamily::AgbAmp
            },
            PartFamily::AgsPmicOld,
            PartFamily::AgsChargeCtrl,
            PartFamily::Crystal4Mihz,
        ],
        Generation::Gbs => seq![
            PartFamily::AgbSocQfp128,
            PartFamily::SramTsop48,
            PartFamily::GbsDol,
            PartFamily::GbsReg,
            PartFamily::GbsReg,
            PartFamily::Crystal32Mihz,
        ],
        Generation::Oxy => seq![
            PartFamily::AgbSocBga,
            PartFamily::OxyPmic,
            PartFamily::OxyU4,
            PartFamily::OxyU5,
        ],
    }
}

fn text_eq(a: &str, b: &str) -> (r: bool)
    ensures
        r == (a@ == b@),
{
    let x = chars_of(a);
    let y = chars_of(b);
    if x.len() != y.len() {
        return false;
    }
    let mut k: usize = 0;
    while k < x.len()
        invariant
            x@ == a@,
            y@ == b@,
            x@.len() == y@.len(),
            k <= x@.len(),
            forall|q: int| 0 <= q < k ==> x@[q] == y@[q],
        decreases x@.len() - k,
    {
        if x[k] != y[k] {
            assert(x@[k as int] != y@[k as int]);
            return false;
        }
        k = k + 1;
    }
    assert(x@ == y@);
    true
}

/// The decoder family of each mainboard slot of a generation.
pub fn slot_families_of(g: Generation, label: &str) -> (r: Vec<PartFamily>)
    ensures
        r@ == slot_families(g, label@),
{
    match g {
        Generation::Dmg => vec![
            PartFamily::Gen1Soc,
            PartFamily::Ram,
            PartFamily::Ram,
            PartFamily::DmgAmp,
            PartFamily::Crystal4Mihz,
        ],
        Generation::Sgb => vec![
            PartFamily::Gen1Soc,
            PartFamily::Icd2,
            PartFamily::Ram,
            PartFamily::Ram,
            PartFamily::SgbRom,
            PartFamily::Cic,
        ],
        Generation::Mgb => vec![
            PartFamily::Gen2Soc,
            PartFamily::Ram,
            PartFamily::MgbAmp,
            PartFamily::DmgReg,
            PartFamily::Crystal4Mihz,
        ],
        Generation::Mgl => vec![
            PartFamily::Gen2Soc,
            PartFamily::Ram,
            PartFamily::MgbAmp,
            PartFamily::DmgReg,
            PartFamily::Crystal4Mihz,
            PartFamily::MglTransformer,
        ],
        Generation::Sgb2 => vec![
            PartFamily::Gen2Soc,
            PartFamily::Icd2,
            PartFamily::Ram,
            PartFamily::SgbRom,
            PartFamily::Cic,
            PartFamily::Coil,
            PartFamily::Crystal20Mihz,
        ],
        Generation::Cgb => vec![
            PartFamily::CgbSoc,
            PartFamily::Ram,
            PartFamily::MgbAmp,
            PartFamily::CgbReg,
            PartFamily::Crystal8Mihz,
        ],
        Generation::Agb => vec![
            PartFamily::AgbSocQfp128,
            PartFamily::SramTsop48,
            PartFamily::AgbReg,
            PartFamily::AgbAmp,
            PartFamily::AgbPmic,
            PartFamily::Crystal4Mihz,
        ],
        Generation::Ags => {
            let third = if text_eq(label, "C/AGS-CPU-30") || text_eq(label, "C/AGT-CPU-01") {
                PartFamily::AgsPmicNew
            } else {
                PartFamily::AgbAmp
            };
            vec![
                PartFamily::AgbSocQfp156,
                PartFamily::SramTsop48,
                third,
                PartFamily::AgsPmicOld,
                PartFamily::AgsChargeCtrl,
                PartFamily::Crystal4Mihz,
            ]
        },
        Generation::Gbs => vec![
            PartFamily::AgbSocQfp128,
            PartFamily::SramTsop48,
            PartFamily::GbsDol,
            PartFamily::GbsReg,
            PartFamily::GbsReg,
            PartFamily::Crystal32Mihz,
        ],
        Generation::Oxy => vec![
            PartFamily::AgbSocBga,
            PartFamily::OxyPmic,
            PartFamily::OxyU4,
            PartFamily::OxyU5,
        ],
    }
}

/// The year of the first-generation processor label, decoded with the
/// generation's static hint.
pub open spec fn cpu_year(reg: Registry, l: Seq<char>) -> Option<u16> {
    crate::part::decoded_year(reg.decoders@[family_index(PartFamily::Gen1Soc)], Some(1996u16), l)
}

/// The year hint a unit's components and stamp are read with. For the first
/// generation: the processor's decoded year, 1996 when it gives none, and no
/// hint without a processor. Otherwise: the mainboard year, else the
/// generation's static hint.
pub open spec fn console_hint(reg: Registry, g: Generation, input: ConsoleInput) -> Option<u16> {
    if g == Generation::Dmg {
        if input.mainboard.parts@.len() > 0 && input.mainboard.parts@[0] is Some {
            match cpu_year(reg, input.mainboard.parts@[0]->0@) {
                Some(y) => Some(y),
                None => Some(1996u16),
            }
        } else {
            None
        }
    } else {
        match input.mainboard.year {
            Some(y) => Some(y),
            None => default_hint(g),
        }
    }
}

/// The hint slot `i` is decoded with: the first-generation processor is read
/// with the static hint, every other slot with the unit's hint.
pub open spec fn slot_hint(reg: Registry, g: Generation, input: ConsoleInput, i: int) -> Option<
    u16,
> {
    if g == Generation::Dmg && i == 0 {
        Some(1996u16)
    } else {
        console_hint(reg, g, input)
    }
}

pub open spec fn panel_jobs(sc: Option<ScreenInput>, h: Option<u16>) -> Seq<JobView> {
    match sc {
        Some(sc) => seq![
            (PartFamily::LcdChip, opt_view(sc.column_driver), h),
            (PartFamily::LcdChip, opt_view(sc.row_driver), h),
        ],
        None => seq![],
    }
}

pub open spec fn lcd_jobs(b: Option<LcdBoardInput>, h: Option<u16>) -> Seq<JobView> {
    match b {
        Some(b) => seq![(PartFamily::DmgReg, opt_view(b.regulator), h)] + panel_jobs(b.screen, h),
        None => seq![],
    }
}

pub open spec fn slot_jobs(reg: Registry, g: Generation, input: ConsoleInput) -> Seq<JobView> {
    Seq::new(
        input.mainboard.parts@.len(),
        |i: int|
            (
                slot_families(g, input.mainboard.label@)[i],
                opt_view(input.mainboard.parts@[i]),
                slot_hint(reg, g, input, i),
            ),
    )
}

/// Every component label of a unit in decoding order: mainboard slots, the
/// screen board's regulator and panel drivers, then a separate panel's
/// drivers.
pub open spec fn console_jobs(reg: Registry, g: Generation, input: ConsoleInput) -> Seq<JobView> {
    let h = console_hint(reg, g, input);
    slot_jobs(reg, g, input) + lcd_jobs(input.lcd_board, h) + panel_jobs(input.screen, h)
}

/// The stamp the date is read from: the mainboard's. For the first
/// generation a board marked as an anomaly gives none, and the screen
/// board's stamp stands in for the mainboard's.
pub open spec fn stamp_source(g: Generation, input: ConsoleInput) -> Option<Seq<char>> {
    if g == Generation::Dmg {
        match input.mainboard.stamp {
            Some(t) if !input.mainboard.outlier => Some(t@),
            _ => match input.lcd_board {
                Some(b) => match b.stamp {
                    Some(t) if !b.outlier => Some(t@),
                    _ => None,
                },
                None => None,
            },
        }
    } else {
        opt_view(input.mainboard.stamp)
    }
}

/// The era a generation reads stamp `t` with, if it reads stamps at all.
pub open spec fn stamp_era(g: Generation, t: Seq<char>) -> Option<Era> {
    match stamp_rule(g) {
        StampRule::Unused => None,
        StampRule::Early => Some(Era::Early),
        StampRule::Later => Some(Era::Later),
        StampRule::ByLead => Some(era_for(t)),
    }
}

/// The first invariant or decode step a console submission fails, with the
/// value the error names.
pub open spec fn console_fault(
    reg: Registry,
    g: Generation,
    input: ConsoleInput,
    folder: Seq<char>,
) -> Option<(Fault, Seq<char>)> {
    let hint = console_hint(reg, g, input);
    let jobs = console_jobs(reg, g, input);
    if input.slug@ != folder {
        Some((Fault::SlugMismatch, input.slug@))
    } else if checks_serial(g) && input.serial is Some && input.serial->0@ != input.slug@ {
        Some((Fault::SerialMismatch, input.serial->0@))
    } else if input.mainboard.parts@.len() != slot_families(g, input.mainboard.label@).len() {
        Some((Fault::SlotCount, input.mainboard.label@))
    } else if input.serial is None && input.index is None {
        Some((Fault::MissingIndex, input.slug@))
    } else if first_fault(reg, jobs, 0) is Some {
        let j = first_fault(reg, jobs, 0)->0;
        let l = jobs[j].1->0;
        Some((Fault::Part(decode_fault(reg.decoders@[family_index(jobs[j].0)], jobs[j].2, l)->0), l))
    } else {
        match stamp_source(g, input) {
            Some(t) => match stamp_era(g, t) {
                Some(era) => match stamp_spec(era, hint, t) {
                    Err(f) => Some((Fault::Stamp(f), t)),
                    Ok(_) => None,
                },
                None => None,
            },
            None => None,
        }
    }
}

/// Whether any part of the unit is marked as an anomaly.
pub open spec fn has_outliers(input: ConsoleInput) -> bool {
    ||| input.shell_outlier
    ||| input.mainboard.outlier
    ||| (input.lcd_board is Some && input.lcd_board->0.outlier)
    ||| (input.lcd_board is Some && input.lcd_board->0.screen is Some
        && input.lcd_board->0.screen->0.outlier)
    ||| (input.power_board is Some && input.power_board->0.outlier)
    ||| (input.jack_board is Some && input.jack_board->0.outlier)
}

/// First-generation units are grouped by serial and anomaly; others are not.
pub open spec fn sort_group_of(g: Generation, input: ConsoleInput) -> Option<SortGroup> {
    if g == Generation::Dmg {
        Some(
            match (input.serial is Some, has_outliers(input)) {
                (true, false) => SortGroup::A,
                (false, false) => SortGroup::B,
                (true, true) => SortGroup::C,
                (false, true) => SortGroup::D,
            },
        )
    } else {
        None
    }
}

/// The serial, else `Unit #` and the index.
pub open spec fn console_title(input: ConsoleInput) -> Seq<char> {
    match input.serial {
        Some(s) => s@,
        None => "Unit #"@ + decimal(input.index->0 as nat),
    }
}

pub open spec fn power_label(kind: Seq<char>) -> Seq<char> {
    if kind == "D"@ {
        "DC CONV2 DMG"@
    } else {
        "DC CONV DMG"@
    }
}

pub open spec fn panel_ok(
    r: Option<PanelRecord>,
    sc: Option<ScreenInput>,
    reg: Registry,
    hint: Option<u16>,
) -> bool {
    match (r, sc) {
        (None, None) => true,
        (Some(p), Some(sc)) => opt_view(p.label) == opt_view(sc.label) && p.year == sc.year
            && p.month == sc.month && part_is(
            p.column_driver,
            reg,
            PartFamily::LcdChip,
            opt_view(sc.column_driver),
            hint,
        ) && part_is(p.row_driver, reg, PartFamily::LcdChip, opt_view(sc.row_driver), hint),
        _ => false,
    }
}

pub open spec fn board_ok(b: BoardRecord, m: MainboardInput) -> bool {
    &&& b.kind@ == m.label@
    &&& opt_view(b.circled_letters) == opt_view(m.circled_letters)
    &&& opt_view(b.number_pair) == opt_view(m.number_pair)
    &&& opt_view(b.letter_at_top_right) == opt_view(m.letter_at_top_right)
    &&& opt_view(b.extra_label) == opt_view(m.extra_label)
    &&& opt_view(b.stamp) == opt_view(m.stamp)
    &&& opt_view(b.stamp_front) == opt_view(m.stamp_front)
    &&& opt_view(b.stamp_back) == opt_view(m.stamp_back)
    &&& b.year == m.year
    &&& b.month == m.month
    &&& b.jun == m.jun
}

pub open spec fn lcd_ok(
    r: Option<LcdBoardRecord>,
    b: Option<LcdBoardInput>,
    reg: Registry,
    hint: Option<u16>,
) -> bool {
    match (r, b) {
        (None, None) => true,
        (Some(r), Some(b)) => r.kind@ == b.label@ && opt_view(r.circled_letters) == opt_view(
            b.circled_letters,
        ) && opt_view(r.stamp) == opt_view(b.stamp) && r.year == b.year && r.month == b.month
            && part_is(r.regulator, reg, PartFamily::DmgReg, opt_view(b.regulator), hint)
            && panel_ok(r.panel, b.screen, reg, hint),
        _ => false,
    }
}

pub open spec fn power_ok(r: Option<PowerBoardRecord>, p: Option<PowerBoardInput>) -> bool {
    match (r, p) {
        (None, None) => true,
        (Some(r), Some(p)) => r.kind@ == p.kind@ && r.label@ == power_label(p.kind@) && r.year
            == p.year && r.month == p.month,
        _ => false,
    }
}

pub open spec fn jack_ok(r: Option<JackBoardRecord>, j: Option<JackBoardInput>) -> bool {
    match (r, j) {
        (None, None) => true,
        (Some(r), Some(j)) => r.kind@ == j.kind@ && opt_view(r.extra_label) == opt_view(
            j.extra_label,
        ),
        _ => false,
    }
}

/// The decoded stamp is what the generation's grammar reads from the stamp
/// source, and absent when there is none to read.
pub open spec fn stamp_ok(
    st: Option<StampRecord>,
    reg: Registry,
    g: Generation,
    input: ConsoleInput,
) -> bool {
    match stamp_source(g, input) {
        Some(t) => match stamp_era(g, t) {
            Some(era) => st is Some && stamp_is(Ok(st->0), era, console_hint(reg, g, input), t),
            None => st is None,
        },
        None => st is None,
    }
}

/// An accepted record carries the unit's identity, its decoded components
/// slot by slot, its decoded stamp and the resolved date.
pub open spec fn console_record_ok(
    rec: ConsoleRecord,
    reg: Registry,
    g: Generation,
    input: ConsoleInput,
) -> bool {
    let hint = console_hint(reg, g, input);
    let fams = slot_families(g, input.mainboard.label@);
    &&& rec.generation == g
    &&& rec.code@ == generation_code(g)
    &&& rec.slug@ == input.slug@
    &&& rec.title@ == console_title(input)
    &&& rec.contributor@ == input.contributor@
    &&& rec.sort_group == sort_group_of(g, input)
    &&& opt_view(rec.color) == opt_view(input.color)
    &&& opt_view(rec.release_code) == opt_view(input.release_code)
    &&& opt_view(rec.shell_stamp) == opt_view(input.shell_stamp)
    &&& board_ok(rec.mainboard, input.mainboard)
    &&& rec.parts@.len() == fams.len()
    &&& forall|i: int|
        0 <= i < rec.parts@.len() ==> part_is(
            #[trigger] rec.parts@[i],
            reg,
            fams[i],
            opt_view(input.mainboard.parts@[i]),
            slot_hint(reg, g, input, i),
        )
    &&& stamp_ok(rec.stamp, reg, g, input)
    &&& rec.date == resolve_spec(input.mainboard.year, input.mainboard.month, rec.stamp, default_hint(g))
    &&& lcd_ok(rec.lcd_board, input.lcd_board, reg, hint)
    &&& panel_ok(rec.screen, input.screen, reg, hint)
    &&& power_ok(rec.power_board, input.power_board)
    &&& jack_ok(rec.jack_board, input.jack_board)
}

/// Each decoded part is what its job's decoder gives.
pub open spec fn parts_ok(v: Seq<Option<PartRecord>>, js: Seq<JobView>, reg: Registry) -> bool {
    &&& v.len() == js.len()
    &&& forall|i: int|
        0 <= i < v.len() ==> part_is(#[trigger] v[i], reg, js[i].0, js[i].1, js[i].2)
}

fn push_job(jobs: &mut Vec<Job>, fam: PartFamily, label: &Option<String>, h: Option<u16>)
    ensures
        jobs_view(final(jobs)@) == jobs_view(old(jobs)@).push((fam, opt_view(*label), h)),
{
    jobs.push((fam, copy_opt(label), h));
    assert(jobs_view(jobs@) =~= jobs_view(old(jobs)@).push((fam, opt_view(*label), h)));
}

fn push_panel_jobs(jobs: &mut Vec<Job>, sc: &Option<ScreenInput>, h: Option<u16>)
    ensures
        jobs_view(final(jobs)@) == jobs_view(old(jobs)@) + panel_jobs(*sc, h),
{
    match sc {
        Some(sc) => {
            push_job(jobs, PartFamily::LcdChip, &sc.column_driver, h);
            push_job(jobs, PartFamily::LcdChip, &sc.row_driver, h);
        },
        None => {},
    }
    assert(jobs_view(jobs@) =~= jobs_view(old(jobs)@) + panel_jobs(*sc, h));
}

fn push_lcd_jobs(jobs: &mut Vec<Job>, b: &Option<LcdBoardInput>, h: Option<u16>)
    ensures
        jobs_view(final(jobs)@) == jobs_view(old(jobs)@) + lcd_jobs(*b, h),
{
    match b {
        Some(b) => {
            push_job(jobs, PartFamily::DmgReg, &b.regulator, h);
            push_panel_jobs(jobs, &b.screen, h);
        },
        None => {},
    }
    assert(jobs_view(jobs@) =~= jobs_view(old(jobs)@) + lcd_jobs(*b, h));
}

fn build_jobs(
    g: Generation,
    input: &ConsoleInput,
    fams: &Vec<PartFamily>,
    first: Option<u16>,
    hint: Option<u16>,
    Ghost(reg): Ghost<Registry>,
) -> (r: Vec<Job>)
    requires
        fams@ == slot_families(g, input.mainboard.label@),
        input.mainboard.parts@.len() == fams@.len(),
        hint == console_hint(reg, g, *input),
        first == slot_hint(reg, g, *input, 0),
    ensures
        jobs_view(r@) == console_jobs(reg, g, *input),
{
    let mut jobs: Vec<Job> = Vec::new();
    let mut i: usize = 0;
    while i < fams.len()
        invariant
            fams@ == slot_families(g, input.mainboard.label@),
            input.mainboard.parts@.len() == fams@.len(),
            hint == console_hint(reg, g, *input),
            first == slot_hint(reg, g, *input, 0),
            i <= fams@.len(),
            jobs_view(jobs@) =~= slot_jobs(reg, g, *input).subrange(0, i as int),
        decreases fams@.len() - i,
    {
        let h = if i == 0 {
            first
        } else {
            hint
        };
        push_job(&mut jobs, fams[i], &input.mainboard.parts[i], h);
        i = i + 1;
    }
    assert(slot_jobs(reg, g, *input).subrange(0, i as int) =~= slot_jobs(reg, g, *input));
    push_lcd_jobs(&mut jobs, &input.lcd_board, hint);
    push_panel_jobs(&mut jobs, &input.screen, hint);
    jobs
}

fn pop_part(v: &mut Vec<Option<PartRecord>>) -> (r: Option<PartRecord>)
    requires
        old(v)@.len() > 0,
    ensures
        r == old(v)@.last(),
        final(v)@ == old(v)@.drop_last(),
{
    match v.pop() {
        Some(x) => x,
        None => None,
    }
}

fn take_panel(
    v: &mut Vec<Option<PartRecord>>,
    sc: &Option<ScreenInput>,
    Ghost(js): Ghost<Seq<JobView>>,
    Ghost(reg): Ghost<Registry>,
    Ghost(hint): Ghost<Option<u16>>,
) -> (r: Option<PanelRecord>)
    requires
        parts_ok(old(v)@, js + panel_jobs(*sc, hint), reg),
    ensures
        parts_ok(final(v)@, js, reg),
        panel_ok(r, *sc, reg, hint),
{
    match sc {
        Some(sc) => {
            let ghost all = js + panel_jobs(Some(*sc), hint);
            let ghost n: int = js.len() as int;
            assert(part_is(v@[n + 1], reg, all[n + 1].0, all[n + 1].1, all[n + 1].2));
            assert(part_is(v@[n], reg, all[n].0, all[n].1, all[n].2));
            let row = pop_part(v);
            let col = pop_part(v);
            assert forall|i: int| 0 <= i < v@.len() implies part_is(
                #[trigger] v@[i],
                reg,
                js[i].0,
                js[i].1,
                js[i].2,
            ) by {
                assert(part_is(old(v)@[i], reg, all[i].0, all[i].1, all[i].2));
            }
            Some(
                PanelRecord {
                    label: copy_opt(&sc.label),
                    year: sc.year,
                    month: sc.month,
                    column_driver: col,
                    row_driver: row,
                },
            )
        },
        None => {
            assert(js + panel_jobs(*sc, hint) =~= js);
            None
        },
    }
}

fn take_lcd(
    v: &mut Vec<Option<PartRecord>>,
    b: &Option<LcdBoardInput>,
    Ghost(js): Ghost<Seq<JobView>>,
    Ghost(reg): Ghost<Registry>,
    Ghost(hint): Ghost<Option<u16>>,
) -> (r: Option<LcdBoardRecord>)
    requires
        parts_ok(old(v)@, js + lcd_jobs(*b, hint), reg),
    ensures
        parts_ok(final(v)@, js, reg),
        lcd_ok(r, *b, reg, hint),
{
    match b {
        Some(b) => {
            let ghost head = js.push((PartFamily::DmgReg, opt_view(b.regulator), hint));
            assert(js + lcd_jobs(Some(*b), hint) =~= head + panel_jobs(b.screen, hint));
            let panel = take_panel(v, &b.screen, Ghost(head), Ghost(reg), Ghost(hint));
            let ghost n: int = js.len() as int;
            assert(part_is(v@[n], reg, head[n].0, head[n].1, head[n].2));
            let ghost before = v@;
            let regulator = pop_part(v);
            assert forall|i: int| 0 <= i < v@.len() implies part_is(
                #[trigger] v@[i],
                reg,
                js[i].0,
                js[i].1,
                js[i].2,
            ) by {
                assert(part_is(before[i], reg, head[i].0, head[i].1, head[i].2));
            }
            Some(
                LcdBoardRecord {
                    kind: b.label.clone(),
                    circled_letters: copy_opt(&b.circled_letters),
                    stamp: copy_opt(&b.stamp),
                    year: b.year,
                    month: b.month,
                    regulator,
                    panel,
                },
            )
        },
        None => {
            assert(js + lcd_jobs(*b, hint) =~= js);
            None
        },
    }
}

fn checks_serial_of(g: Generation) -> (r: bool)
    ensures
        r == checks_serial(g),
{
    !(g == Generation::Sgb || g == Generation::Sgb2 || g == Generation::Gbs)
}

fn pick_stamp(g: Generation, input: &ConsoleInput) -> (r: Option<&String>)
    ensures
        match r {
            Some(t) => stamp_source(g, *input) == Some(t@),
            None => stamp_source(g, *input) is None,
        },
{
    if g != Generation::Dmg {
        return match &input.mainboard.stamp {
            Some(t) => Some(t),
            None => None,
        };
    }
    match &input.mainboard.stamp {
        Some(t) if !input.mainboard.outlier => Some(t),
        _ => match &input.lcd_board {
            Some(b) => match &b.stamp {
                Some(t) if !b.outlier => Some(t),
                _ => None,
            },
            None => None,
        },
    }
}

fn outliers(input: &ConsoleInput) -> (r: bool)
    ensures
        r == has_outliers(*input),
{
    let lcd = match &input.lcd_board {
        Some(b) => b.outlier || match &b.screen {
            Some(sc) => sc.outlier,
            None => false,
        },
        None => false,
    };
    let power = match &input.power_board {
        Some(p) => p.outlier,
        None => false,
    };
    let jack = match &input.jack_board {
        Some(j) => j.outlier,
        None => false,
    };
    input.shell_outlier || input.mainboard.outlier || lcd || power || jack
}

fn power_record(p: &Option<PowerBoardInput>) -> (r: Option<PowerBoardRecord>)
    ensures
        power_ok(r, *p),
{
    match p {
        Some(p) => {
            let label = if text_eq(p.kind.as_str(), "D") {
                "DC CONV2 DMG"
            } else {
                "DC CONV DMG"
            };
            Some(
                PowerBoardRecord {
                    kind: p.kind.clone(),
                    label: label.to_owned(),
                    year: p.year,
                    month: p.month,
                },
            )
        },
        None => None,
    }
}

fn jack_record(j: &Option<JackBoardInput>) -> (r: Option<JackBoardRecord>)
    ensures
        jack_ok(r, *j),
{
    match j {
        Some(j) => Some(JackBoardRecord { kind: j.kind.clone(), extra_label: copy_opt(&j.extra_label) }),
        None => None,
    }
}

fn board_record(m: &MainboardInput) -> (r: BoardRecord)
    ensures
        board_ok(r, *m),
{
    BoardRecord {
        kind: m.label.clone(),
        circled_letters: copy_opt(&m.circled_letters),
        number_pair: copy_opt(&m.number_pair),
        letter_at_top_right: copy_opt(&m.letter_at_top_right),
        extra_label: copy_opt(&m.extra_label),
        stamp: copy_opt(&m.stamp),
        stamp_front: copy_opt(&m.stamp_front),
        stamp_back: copy_opt(&m.stamp_back),
        year: m.year,
        month: m.month,
        jun: m.jun,
    }
}

/// Checks and assembles one console submission of generation `g` found in
/// `folder`.
pub fn assemble_console(reg: &Registry, g: Generation, input: &ConsoleInput, folder: &str) -> (r:
    Result<ConsoleRecord, AssembleError>)
    requires
        registry_wf(*reg),
    ensures
        match console_fault(*reg, g, *input, folder@) {
            Some((f, subject)) => match r {
                Err(e) => e.fault == f && e.folder@ == folder@ && e.subject@ == subject,
                Ok(_) => false,
            },
            None => match r {
                Ok(rec) => console_record_ok(rec, *reg, g, *input),
                Err(_) => false,
            },
        },
{
    let folder_name = folder.to_owned();
    if !(input.slug == folder_name) {
        return Err(fail(folder, Fault::SlugMismatch, input.slug.as_str()));
    }
    if checks_serial_of(g) {
        if let Some(serial) = &input.serial {
            if !(*serial == input.slug) {
                return Err(fail(folder, Fault::SerialMismatch, serial.as_str()));
            }
        }
    }
    let fams = slot_families_of(g, input.mainboard.label.as_str());
    if input.mainboard.parts.len() != fams.len() {
        return Err(fail(folder, Fault::SlotCount, input.mainboard.label.as_str()));
    }
    let title = match &input.serial {
        Some(serial) => serial.clone(),
        None => match input.index {
            Some(n) => {
                let mut t = String::from_str("Unit #");
                push_decimal(&mut t, n);
                t
            },
            None => {
                return Err(fail(folder, Fault::MissingIndex, input.slug.as_str()));
            },
        },
    };
    let (first, hint) = if g == Generation::Dmg {
        let h = match &input.mainboard.parts[0] {
            Some(l) => {
                let d = decoder_of(reg, PartFamily::Gen1Soc);
                let y = match decode(d, Some(1996), l.as_str()) {
                    Ok(p) => {
                        proof {
                            crate::part::lemma_decoded_year(p, *d, Some(1996u16), l@);
                        }
                        match &p.info {
                            Some(info) => info.year,
                            None => None,
                        }
                    },
                    Err(e) => {
                        proof {
                            crate::part::lemma_decode_fault(Err(e), *d, Some(1996u16), l@);
                        }
                        None
                    },
                };
                match y {
                    Some(y) => Some(y),
                    None => Some(1996),
                }
            },
            None => None,
        };
        (Some(1996u16), h)
    } else {
        let h = match input.mainboard.year {
            Some(y) => Some(y),
            None => default_hint_of(g),
        };
        (h, h)
    };
    assert(hint == console_hint(*reg, g, *input));
    let jobs = build_jobs(g, input, &fams, first, hint, Ghost(*reg));
    let ghost cj = console_jobs(*reg, g, *input);
    let mut parts = match decode_jobs(reg, &jobs) {
        Ok(v) => v,
        Err(e) => {
            proof {
                assert(first_fault(*reg, cj, 0) is Some);
                lemma_first_fault_range(*reg, cj, 0);
                let j = first_fault(*reg, cj, 0)->0;
                assert(jobs_view(jobs@)[j] == (jobs@[j].0, opt_view(jobs@[j].1), jobs@[j].2));
                crate::part::lemma_decode_fault(
                    Err(e),
                    reg.decoders@[family_index(jobs@[j].0)],
                    jobs@[j].2,
                    cj[j].1->0,
                );
            }
            return Err(part_error(folder, e));
        },
    };
    let stamp: Option<StampRecord> = match pick_stamp(g, input) {
        None => None,
        Some(t) => {
            let decoded = match stamp_rule_of(g) {
                StampRule::Unused => None,
                StampRule::Early => Some(decode_stamp_era(Era::Early, hint, t.as_str())),
                StampRule::Later => Some(decode_stamp_era(Era::Later, hint, t.as_str())),
                StampRule::ByLead => Some(decode_stamp(hint, t.as_str())),
            };
            match decoded {
                None => None,
                Some(Ok(st)) => Some(st),
                Some(Err(e)) => {
                    return Err(stamp_error(folder, e));
                },
            }
        },
    };
    let ghost sj = slot_jobs(*reg, g, *input);
    assert(cj == sj + lcd_jobs(input.lcd_board, hint) + panel_jobs(input.screen, hint));
    let screen = take_panel(
        &mut parts,
        &input.screen,
        Ghost(sj + lcd_jobs(input.lcd_board, hint)),
        Ghost(*reg),
        Ghost(hint),
    );
    let lcd_board = take_lcd(&mut parts, &input.lcd_board, Ghost(sj), Ghost(*reg), Ghost(hint));
    let sort_group = if g == Generation::Dmg {
        let has_serial = input.serial.is_some();
        let odd = outliers(input);
        Some(
            if has_serial && !odd {
                SortGroup::A
            } else if !has_serial && !odd {
                SortGroup::B
            } else if has_serial {
                SortGroup::C
            } else {
                SortGroup::D
            },
        )
    } else {
        None
    };
    let date = resolve_date(input.mainboard.year, input.mainboard.month, stamp, default_hint_of(g));
    Ok(
        ConsoleRecord {
            generation: g,
            code: code_of(g).to_owned(),
            slug: input.slug.clone(),
            title,
            contributor: input.contributor.clone(),
            sort_group,
            color: copy_opt(&input.color),
            release_code: copy_opt(&input.release_code),
            shell_stamp: copy_opt(&input.shell_stamp),
            mainboard: board_record(&input.mainboard),
            parts,
            stamp,
            date,
            lcd_board,
            screen,
            power_board: power_record(&input.power_board),
            jack_board: jack_record(&input.jack_board),
        },
    )
}

} // verus!

verus! {

/// A unit whose component labels are all absent or matched by no format is
/// never refused for a component: unreadable labels degrade to fallback
/// records.
pub proof fn lemma_unreadable_labels_never_abort(
    reg: Registry,
    g: Generation,
    input: ConsoleInput,
    folder: Seq<char>,
)
    requires
        forall|k: int|
            0 <= k < console_jobs(reg, g, input).len() ==> (#[trigger] console_jobs(
                reg,
                g,
                input,
            )[k]).1 is None || crate::part::first_match(
                reg.decoders@[family_index(console_jobs(reg, g, input)[k].0)].grammars@,
                0,
                console_jobs(reg, g, input)[k].1->0,
            ) is None,
    ensures
        first_fault(reg, console_jobs(reg, g, input), 0) is None,
        console_fault(reg, g, input, folder) matches Some((f, _)) ==> !(f is Part),
{
    lemma_unmatched_labels_never_fail(reg, console_jobs(reg, g, input), 0);
}

} // verus!
