//! The exported columns of each console generation: which fields, in which
//! order, under which names. A row and its header are both read off the
//! generation's column list, so each name sits over its own field's cell.

use vstd::prelude::*;
use vstd::string::StringExecFns;
use crate::console::{
    ConsoleInput,
    ConsoleRecord,
    Generation,
    PanelRecord,
    console_record_ok,
    part_is,
    slot_families,
    slot_hint,
};
use crate::decoders::Registry;
use crate::fault::opt_view;
use crate::flatten::{cells_view, maker_name, maker_text, opt_cell, u16_cell, u8_cell};
use crate::part::PartRecord;
use crate::text::{decimal, push_decimal};

verus! {

/// A field of a date: its two calendar renderings and its numbers.
#[derive(Clone, Copy, Debug, PartialEq, Eq, Structural)]
pub enum DateCol {
    CalendarShort,
    Calendar,
    Year,
    Month,
    Week,
}

/// A field of a decoded component.
#[derive(Clone, Copy, Debug, PartialEq, Eq, Structural)]
pub enum ChipCol {
    Label,
    Kind,
    Manufacturer,
    Year,
    Month,
    Week,
}

/// One exported field of a console record. `Slot` names a mainboard slot by
/// position; the panel columns say whether the panel sits on the screen
/// board (`true`) or stands alone (`false`).
#[derive(Clone, Copy, Debug, PartialEq, Eq, Structural)]
pub enum Column {
    Code,
    Slug,
    Title,
    Contributor,
    Color,
    ReleaseCode,
    Stamp,
    Date(DateCol),
    BoardType,
    BoardCircledLetters,
    BoardNumberPair,
    BoardLetterAtTopRight,
    BoardExtraLabel,
    BoardStamp,
    BoardStampFront,
    BoardStampBack,
    BoardDate(DateCol),
    Slot(usize, ChipCol),
    LcdType,
    LcdCircledLetters,
    LcdStamp,
    LcdDate(DateCol),
    LcdRegulator(ChipCol),
    PanelLabel(bool),
    PanelDate(bool, DateCol),
    ColumnDriver(bool, ChipCol),
    RowDriver(bool, ChipCol),
    PowerType,
    PowerLabel,
    PowerDate(DateCol),
    JackType,
    JackExtraLabel,
}

/// The exported columns of a generation, in order.
pub open spec fn columns(g: Generation) -> Seq<Column> {
    match g {
        Generation::Dmg => seq![
            Column::Code,
            Column::Slug,
            Column::Title,
            Column::Contributor,
            Column::Color,
            Column::Date(DateCol::CalendarShort),
            Column::Date(DateCol::Calendar),
            Column::Date(DateCol::Year),
            Column::Date(DateCol::Month),
            Column::BoardType,
            Column::BoardExtraLabel,
            Column::BoardStamp,
            Column::BoardCircledLetters,
            Column::Slot(0, ChipCol::Label),
            Column::Slot(0, ChipCol::Kind),
            Column::Slot(0, ChipCol::Manufacturer),
            Column::Slot(0, ChipCol::Year),
            Column::Slot(0, ChipCol::Month),
            Column::Slot(0, ChipCol::Week),
            Column::Slot(1, ChipCol::Label),
            Column::Slot(1, ChipCol::Kind),
            Column::Slot(1, ChipCol::Manufacturer),
            Column::Slot(1, ChipCol::Year),
            Column::Slot(1, ChipCol::Month),
            Column::Slot(1, ChipCol::Week),
            Column::Slot(2, ChipCol::Label),
            Column::Slot(2, ChipCol::Kind),
            Column::Slot(2, ChipCol::Manufacturer),
            Column::Slot(2, ChipCol::Year),
            Column::Slot(2, ChipCol::Month),
            Column::Slot(2, ChipCol::Week),
            Column::Slot(3, ChipCol::Label),
            Column::Slot(3, ChipCol::Kind),
            Column::Slot(3, ChipCol::Manufacturer),
            Column::Slot(3, ChipCol::Year),
            Column::Slot(3, ChipCol::Month),
            Column::Slot(3, ChipCol::Week),
            Column::Slot(4, ChipCol::Label),
            Column::Slot(4, ChipCol::Kind),
            Column::Slot(4, ChipCol::Manufacturer),
            Column::Slot(4, ChipCol::Year),
            Column::Slot(4, ChipCol::Month),
            Column::Slot(4, ChipCol::Week),
            Column::LcdType,
            Column::LcdCircledLetters,
            Column::LcdStamp,
            Column::LcdDate(DateCol::CalendarShort),
            Column::LcdDate(DateCol::Calendar),
            Column::LcdDate(DateCol::Year),
            Column::LcdDate(DateCol::Month),
            Column::PanelLabel(true),
            Column::PanelDate(true, DateCol::CalendarShort),
            Column::PanelDate(true, DateCol::Calendar),
            Column::ColumnDriver(true, ChipCol::Label),
            Column::ColumnDriver(true, ChipCol::Kind),
            Column::ColumnDriver(true, ChipCol::Manufacturer),
            Column::ColumnDriver(true, ChipCol::Year),
            Column::ColumnDriver(true, ChipCol::Month),
            Column::ColumnDriver(true, ChipCol::Week),
            Column::RowDriver(true, ChipCol::Label),
            Column::RowDriver(true, ChipCol::Kind),
            Column::RowDriver(true, ChipCol::Manufacturer),
            Column::RowDriver(true, ChipCol::Year),
            Column::RowDriver(true, ChipCol::Month),
            Column::RowDriver(true, ChipCol::Week),
            Column::LcdRegulator(ChipCol::Label),
            Column::LcdRegulator(ChipCol::Kind),
            Column::LcdRegulator(ChipCol::Manufacturer),
            Column::LcdRegulator(ChipCol::Year),
            Column::LcdRegulator(ChipCol::Month),
            Column::LcdRegulator(ChipCol::Week),
            Column::PowerType,
            Column::PowerLabel,
            Column::PowerDate(DateCol::CalendarShort),
            Column::PowerDate(DateCol::Calendar),
            Column::PowerDate(DateCol::Year),
            Column::PowerDate(DateCol::Month),
            Column::JackType,
            Column::JackExtraLabel,
        ],
        Generation::Sgb => seq![
            Column::Code,
            Column::Slug,
            Column::Title,
            Column::Contributor,
            Column::Stamp,
            Column::BoardType,
            Column::BoardCircledLetters,
            Column::BoardLetterAtTopRight,
            Column::BoardDate(DateCol::CalendarShort),
            Column::BoardDate(DateCol::Calendar),
            Column::BoardDate(DateCol::Year),
            Column::BoardDate(DateCol::Month),
            Column::BoardDate(DateCol::Week),
            Column::Slot(0, ChipCol::Label),
            Column::Slot(0, ChipCol::Kind),
            Column::Slot(0, ChipCol::Manufacturer),
            Column::Slot(0, ChipCol::Year),
            Column::Slot(0, ChipCol::Month),
            Column::Slot(0, ChipCol::Week),
            Column::Slot(1, ChipCol::Label),
            Column::Slot(1, ChipCol::Kind),
            Column::Slot(1, ChipCol::Manufacturer),
            Column::Slot(1, ChipCol::Year),
            Column::Slot(1, ChipCol::Month),
            Column::Slot(1, ChipCol::Week),
            Column::Slot(2, ChipCol::Label),
            Column::Slot(2, ChipCol::Kind),
            Column::Slot(2, ChipCol::Manufacturer),
            Column::Slot(2, ChipCol::Year),
            Column::Slot(2, ChipCol::Month),
            Column::Slot(2, ChipCol::Week),
            Column::Slot(3, ChipCol::Label),
            Column::Slot(3, ChipCol::Kind),
            Column::Slot(3, ChipCol::Manufacturer),
            Column::Slot(3, ChipCol::Year),
            Column::Slot(3, ChipCol::Month),
            Column::Slot(3, ChipCol::Week),
            Column::Slot(4, ChipCol::Label),
            Column::Slot(4, ChipCol::Kind),
            Column::Slot(4, ChipCol::Manufacturer),
            Column::Slot(4, ChipCol::Year),
            Column::Slot(4, ChipCol::Month),
            Column::Slot(4, ChipCol::Week),
            Column::Slot(5, ChipCol::Label),
            Column::Slot(5, ChipCol::Kind),
            Column::Slot(5, ChipCol::Manufacturer),
            Column::Slot(5, ChipCol::Year),
            Column::Slot(5, ChipCol::Month),
            Column::Slot(5, ChipCol::Week),
        ],
        Generation::Mgb => seq![
            Column::Code,
            Column::Slug,
            Column::Title,
            Column::Contributor,
            Column::Color,
            Column::ReleaseCode,
            Column::Date(DateCol::CalendarShort),
            Column::Date(DateCol::Calendar),
            Column::Date(DateCol::Year),
            Column::Date(DateCol::Month),
            Column::Date(DateCol::Week),
            Column::BoardType,
            Column::BoardNumberPair,
            Column::BoardStamp,
            Column::BoardCircledLetters,
            Column::BoardDate(DateCol::CalendarShort),
            Column::BoardDate(DateCol::Calendar),
            Column::BoardDate(DateCol::Year),
            Column::BoardDate(DateCol::Month),
            Column::BoardDate(DateCol::Week),
            Column::Slot(0, ChipCol::Label),
            Column::Slot(0, ChipCol::Kind),
            Column::Slot(0, ChipCol::Manufacturer),
            Column::Slot(0, ChipCol::Year),
            Column::Slot(0, ChipCol::Month),
            Column::Slot(0, ChipCol::Week),
            Column::Slot(1, ChipCol::Label),
            Column::Slot(1, ChipCol::Kind),
            Column::Slot(1, ChipCol::Manufacturer),
            Column::Slot(1, ChipCol::Year),
            Column::Slot(1, ChipCol::Month),
            Column::Slot(1, ChipCol::Week),
            Column::Slot(2, ChipCol::Label),
            Column::Slot(2, ChipCol::Kind),
            Column::Slot(2, ChipCol::Manufacturer),
            Column::Slot(2, ChipCol::Year),
            Column::Slot(2, ChipCol::Month),
            Column::Slot(2, ChipCol::Week),
            Column::Slot(3, ChipCol::Label),
            Column::Slot(3, ChipCol::Kind),
            Column::Slot(3, ChipCol::Manufacturer),
            Column::Slot(3, ChipCol::Year),
            Column::Slot(3, ChipCol::Month),
            Column::Slot(3, ChipCol::Week),
            Column::Slot(4, ChipCol::Label),
            Column::Slot(4, ChipCol::Kind),
            Column::Slot(4, ChipCol::Manufacturer),
            Column::Slot(4, ChipCol::Year),
            Column::Slot(4, ChipCol::Month),
            Column::Slot(4, ChipCol::Week),
            Column::PanelLabel(false),
            Column::PanelDate(false, DateCol::CalendarShort),
            Column::PanelDate(false, DateCol::Calendar),
            Column::ColumnDriver(false, ChipCol::Label),
            Column::ColumnDriver(false, ChipCol::Kind),
            Column::ColumnDriver(false, ChipCol::Manufacturer),
            Column::ColumnDriver(false, ChipCol::Year),
            Column::ColumnDriver(false, ChipCol::Month),
            Column::ColumnDriver(false, ChipCol::Week),
            Column::RowDriver(false, ChipCol::Label),
            Column::RowDriver(false, ChipCol::Kind),
            Column::RowDriver(false, ChipCol::Manufacturer),
            Column::RowDriver(false, ChipCol::Year),
            Column::RowDriver(false, ChipCol::Month),
            Column::RowDriver(false, ChipCol::Week),
        ],
        Generation::Mgl => seq![
            Column::Code,
            Column::Slug,
            Column::Title,
            Column::Contributor,
            Column::Color,
            Column::ReleaseCode,
            Column::Date(DateCol::CalendarShort),
            Column::Date(DateCol::Calendar),
            Column::Date(DateCol::Year),
            Column::Date(DateCol::Month),
            Column::Date(DateCol::Week),
            Column::BoardType,
            Column::BoardNumberPair,
            Column::BoardStamp,
            Column::BoardCircledLetters,
            Column::BoardDate(DateCol::CalendarShort),
            Column::BoardDate(DateCol::Calendar),
            Column::BoardDate(DateCol::Year),
            Column::BoardDate(DateCol::Month),
            Column::BoardDate(DateCol::Week),
            Column::Slot(0, ChipCol::Label),
            Column::Slot(0, ChipCol::Kind),
            Column::Slot(0, ChipCol::Manufacturer),
            Column::Slot(0, ChipCol::Year),
            Column::Slot(0, ChipCol::Month),
            Column::Slot(0, ChipCol::Week),
            Column::Slot(1, ChipCol::Label),
            Column::Slot(1, ChipCol::Kind),
            Column::Slot(1, ChipCol::Manufacturer),
            Column::Slot(1, ChipCol::Year),
            Column::Slot(1, ChipCol::Month),
            Column::Slot(1, ChipCol::Week),
            Column::Slot(2, ChipCol::Label),
            Column::Slot(2, ChipCol::Kind),
            Column::Slot(2, ChipCol::Manufacturer),
            Column::Slot(2, ChipCol::Year),
            Column::Slot(2, ChipCol::Month),
            Column::Slot(2, ChipCol::Week),
            Column::Slot(3, ChipCol::Label),
            Column::Slot(3, ChipCol::Kind),
            Column::Slot(3, ChipCol::Manufacturer),
            Column::Slot(3, ChipCol::Year),
            Column::Slot(3, ChipCol::Month),
            Column::Slot(3, ChipCol::Week),
            Column::Slot(4, ChipCol::Label),
            Column::Slot(4, ChipCol::Kind),
            Column::Slot(4, ChipCol::Manufacturer),
            Column::Slot(4, ChipCol::Year),
            Column::Slot(4, ChipCol::Month),
            Column::Slot(4, ChipCol::Week),
            Column::Slot(5, ChipCol::Label),
            Column::Slot(5, ChipCol::Kind),
            Column::Slot(5, ChipCol::Manufacturer),
            Column::Slot(5, ChipCol::Year),
            Column::Slot(5, ChipCol::Month),
            Column::Slot(5, ChipCol::Week),
            Column::PanelLabel(false),
            Column::PanelDate(false, DateCol::CalendarShort),
            Column::PanelDate(false, DateCol::Calendar),
            Column::ColumnDriver(false, ChipCol::Label),
            Column::ColumnDriver(false, ChipCol::Kind),
            Column::ColumnDriver(false, ChipCol::Manufacturer),
            Column::ColumnDriver(false, ChipCol::Year),
            Column::ColumnDriver(false, ChipCol::Month),
            Column::ColumnDriver(false, ChipCol::Week),
            Column::RowDriver(false, ChipCol::Label),
            Column::RowDriver(false, ChipCol::Kind),
            Column::RowDriver(false, ChipCol::Manufacturer),
            Column::RowDriver(false, ChipCol::Year),
            Column::RowDriver(false, ChipCol::Month),
            Column::RowDriver(false, ChipCol::Week),
        ],
        Generation::Sgb2 => seq![
            Column::Code,
            Column::Slug,
            Column::Title,
            Column::Contributor,
            Column::Stamp,
            Column::BoardType,
            Column::BoardCircledLetters,
            Column::BoardLetterAtTopRight,
            Column::BoardDate(DateCol::CalendarShort),
            Column::BoardDate(DateCol::Calendar),
            Column::BoardDate(DateCol::Year),
            Column::BoardDate(DateCol::Month),
            Column::BoardDate(DateCol::Week),
            Column::Slot(0, ChipCol::Label),
            Column::Slot(0, ChipCol::Kind),
            Column::Slot(0, ChipCol::Manufacturer),
            Column::Slot(0, ChipCol::Year),
            Column::Slot(0, ChipCol::Month),
            Column::Slot(0, ChipCol::Week),
            Column::Slot(1, ChipCol::Label),
            Column::Slot(1, ChipCol::Kind),
            Column::Slot(1, ChipCol::Manufacturer),
            Column::Slot(1, ChipCol::Year),
            Column::Slot(1, ChipCol::Month),
            Column::Slot(1, ChipCol::Week),
            Column::Slot(2, ChipCol::Label),
            Column::Slot(2, ChipCol::Kind),
            Column::Slot(2, ChipCol::Manufacturer),
            Column::Slot(2, ChipCol::Year),
            Column::Slot(2, ChipCol::Month),
            Column::Slot(2, ChipCol::Week),
            Column::Slot(3, ChipCol::Label),
            Column::Slot(3, ChipCol::Kind),
            Column::Slot(3, ChipCol::Manufacturer),
            Column::Slot(3, ChipCol::Year),
            Column::Slot(3, ChipCol::Month),
            Column::Slot(3, ChipCol::Week),
            Column::Slot(4, ChipCol::Label),
            Column::Slot(4, ChipCol::Kind),
            Column::Slot(4, ChipCol::Manufacturer),
            Column::Slot(4, ChipCol::Year),
            Column::Slot(4, ChipCol::Month),
            Column::Slot(4, ChipCol::Week),
            Column::Slot(5, ChipCol::Label),
            Column::Slot(5, ChipCol::Kind),
            Column::Slot(5, ChipCol::Manufacturer),
            Column::Slot(5, ChipCol::Year),
            Column::Slot(5, ChipCol::Month),
            Column::Slot(5, ChipCol::Week),
            Column::Slot(6, ChipCol::Label),
            Column::Slot(6, ChipCol::Kind),
            Column::Slot(6, ChipCol::Manufacturer),
            Column::Slot(6, ChipCol::Year),
            Column::Slot(6, ChipCol::Month),
            Column::Slot(6, ChipCol::Week),
        ],
        Generation::Cgb => seq![
            Column::Code,
            Column::Slug,
            Column::Title,
            Column::Contributor,
            Column::Color,
            Column::ReleaseCode,
            Column::Date(DateCol::CalendarShort),
            Column::Date(DateCol::Calendar),
            Column::Date(DateCol::Year),
            Column::Date(DateCol::Month),
            Column::Date(DateCol::Week),
            Column::BoardType,
            Column::BoardNumberPair,
            Column::BoardStamp,
            Column::BoardCircledLetters,
            Column::BoardDate(DateCol::CalendarShort),
            Column::BoardDate(DateCol::Calendar),
            Column::BoardDate(DateCol::Year),
            Column::BoardDate(DateCol::Month),
            Column::BoardDate(DateCol::Week),
            Column::Slot(0, ChipCol::Label),
            Column::Slot(0, ChipCol::Kind),
            Column::Slot(0, ChipCol::Manufacturer),
            Column::Slot(0, ChipCol::Year),
            Column::Slot(0, ChipCol::Month),
            Column::Slot(0, ChipCol::Week),
            Column::Slot(1, ChipCol::Label),
            Column::Slot(1, ChipCol::Kind),
            Column::Slot(1, ChipCol::Manufacturer),
            Column::Slot(1, ChipCol::Year),
            Column::Slot(1, ChipCol::Month),
            Column::Slot(1, ChipCol::Week),
            Column::Slot(2, ChipCol::Label),
            Column::Slot(2, ChipCol::Kind),
            Column::Slot(2, ChipCol::Manufacturer),
            Column::Slot(2, ChipCol::Year),
            Column::Slot(2, ChipCol::Month),
            Column::Slot(2, ChipCol::Week),
            Column::Slot(3, ChipCol::Label),
            Column::Slot(3, ChipCol::Kind),
            Column::Slot(3, ChipCol::Manufacturer),
            Column::Slot(3, ChipCol::Year),
            Column::Slot(3, ChipCol::Month),
            Column::Slot(3, ChipCol::Week),
            Column::Slot(4, ChipCol::Label),
            Column::Slot(4, ChipCol::Kind),
            Column::Slot(4, ChipCol::Manufacturer),
            Column::Slot(4, ChipCol::Year),
            Column::Slot(4, ChipCol::Month),
            Column::Slot(4, ChipCol::Week),
        ],
        Generation::Agb => seq![
            Column::Code,
            Column::Slug,
            Column::Title,
            Column::Contributor,
            Column::Color,
            Column::ReleaseCode,
            Column::Date(DateCol::CalendarShort),
            Column::Date(DateCol::Calendar),
            Column::Date(DateCol::Year),
            Column::Date(DateCol::Month),
            Column::Date(DateCol::Week),
            Column::BoardType,
            Column::BoardNumberPair,
            Column::BoardStamp,
            Column::BoardCircledLetters,
            Column::BoardDate(DateCol::CalendarShort),
            Column::BoardDate(DateCol::Calendar),
            Column::BoardDate(DateCol::Year),
            Column::BoardDate(DateCol::Month),
            Column::BoardDate(DateCol::Week),
            Column::Slot(0, ChipCol::Label),
            Column::Slot(0, ChipCol::Kind),
            Column::Slot(0, ChipCol::Manufacturer),
            Column::Slot(0, ChipCol::Year),
            Column::Slot(0, ChipCol::Month),
            Column::Slot(0, ChipCol::Week),
            Column::Slot(1, ChipCol::Label),
            Column::Slot(1, ChipCol::Kind),
            Column::Slot(1, ChipCol::Manufacturer),
            Column::Slot(1, ChipCol::Year),
            Column::Slot(1, ChipCol::Month),
            Column::Slot(1, ChipCol::Week),
            Column::Slot(2, ChipCol::Label),
            Column::Slot(2, ChipCol::Kind),
            Column::Slot(2, ChipCol::Manufacturer),
            Column::Slot(2, ChipCol::Year),
            Column::Slot(2, ChipCol::Month),
            Column::Slot(2, ChipCol::Week),
            Column::Slot(3, ChipCol::Label),
            Column::Slot(3, ChipCol::Kind),
            Column::Slot(3, ChipCol::Manufacturer),
            Column::Slot(3, ChipCol::Year),
            Column::Slot(3, ChipCol::Month),
            Column::Slot(3, ChipCol::Week),
            Column::Slot(4, ChipCol::Label),
            Column::Slot(4, ChipCol::Kind),
            Column::Slot(4, ChipCol::Manufacturer),
            Column::Slot(4, ChipCol::Year),
            Column::Slot(4, ChipCol::Month),
            Column::Slot(4, ChipCol::Week),
            Column::Slot(5, ChipCol::Label),
            Column::Slot(5, ChipCol::Kind),
            Column::Slot(5, ChipCol::Manufacturer),
            Column::Slot(5, ChipCol::Year),
            Column::Slot(5, ChipCol::Month),
            Column::Slot(5, ChipCol::Week),
        ],
        Generation::Ags => seq![
            Column::Code,
            Column::Slug,
            Column::Title,
            Column::Contributor,
            Column::Color,
            Column::ReleaseCode,
            Column::BoardType,
            Column::BoardNumberPair,
            Column::BoardStamp,
            Column::BoardCircledLetters,
            Column::BoardDate(DateCol::CalendarShort),
            Column::BoardDate(DateCol::Calendar),
            Column::BoardDate(DateCol::Year),
            Column::BoardDate(DateCol::Month),
            Column::BoardDate(DateCol::Week),
            Column::Slot(0, ChipCol::Label),
            Column::Slot(0, ChipCol::Kind),
            Column::Slot(0, ChipCol::Manufacturer),
            Column::Slot(0, ChipCol::Year),
            Column::Slot(0, ChipCol::Month),
            Column::Slot(0, ChipCol::Week),
            Column::Slot(1, ChipCol::Label),
            Column::Slot(1, ChipCol::Kind),
            Column::Slot(1, ChipCol::Manufacturer),
            Column::Slot(1, ChipCol::Year),
            Column::Slot(1, ChipCol::Month),
            Column::Slot(1, ChipCol::Week),
            Column::Slot(2, ChipCol::Label),
            Column::Slot(2, ChipCol::Kind),
            Column::Slot(2, ChipCol::Manufacturer),
            Column::Slot(2, ChipCol::Year),
            Column::Slot(2, ChipCol::Month),
            Column::Slot(2, ChipCol::Week),
            Column::Slot(3, ChipCol::Label),
            Column::Slot(3, ChipCol::Kind),
            Column::Slot(3, ChipCol::Manufacturer),
            Column::Slot(3, ChipCol::Year),
            Column::Slot(3, ChipCol::Month),
            Column::Slot(3, ChipCol::Week),
            Column::Slot(4, ChipCol::Label),
            Column::Slot(4, ChipCol::Kind),
            Column::Slot(4, ChipCol::Manufacturer),
            Column::Slot(4, ChipCol::Year),
            Column::Slot(4, ChipCol::Month),
            Column::Slot(4, ChipCol::Week),
            Column::Slot(5, ChipCol::Label),
            Column::Slot(5, ChipCol::Kind),
            Column::Slot(5, ChipCol::Manufacturer),
            Column::Slot(5, ChipCol::Year),
            Column::Slot(5, ChipCol::Month),
            Column::Slot(5, ChipCol::Week),
        ],
        Generation::Gbs => seq![
            Column::Code,
            Column::Slug,
            Column::Title,
            Column::Contributor,
            Column::Color,
            Column::ReleaseCode,
            Column::Date(DateCol::CalendarShort),
            Column::Date(DateCol::Calendar),
            Column::Date(DateCol::Year),
            Column::Date(DateCol::Month),
            Column::Date(DateCol::Week),
            Column::BoardType,
            Column::BoardNumberPair,
            Column::BoardStamp,
            Column::BoardStampFront,
            Column::BoardStampBack,
            Column::BoardCircledLetters,
            Column::BoardDate(DateCol::CalendarShort),
            Column::BoardDate(DateCol::Calendar),
            Column::BoardDate(DateCol::Year),
            Column::BoardDate(DateCol::Month),
            Column::BoardDate(DateCol::Week),
            Column::Slot(0, ChipCol::Label),
            Column::Slot(0, ChipCol::Kind),
            Column::Slot(0, ChipCol::Manufacturer),
            Column::Slot(0, ChipCol::Year),
            Column::Slot(0, ChipCol::Month),
            Column::Slot(0, ChipCol::Week),
            Column::Slot(1, ChipCol::Label),
            Column::Slot(1, ChipCol::Kind),
            Column::Slot(1, ChipCol::Manufacturer),
            Column::Slot(1, ChipCol::Year),
            Column::Slot(1, ChipCol::Month),
            Column::Slot(1, ChipCol::Week),
            Column::Slot(2, ChipCol::Label),
            Column::Slot(2, ChipCol::Kind),
            Column::Slot(2, ChipCol::Manufacturer),
            Column::Slot(2, ChipCol::Year),
            Column::Slot(2, ChipCol::Month),
            Column::Slot(2, ChipCol::Week),
            Column::Slot(3, ChipCol::Label),
            Column::Slot(3, ChipCol::Kind),
            Column::Slot(3, ChipCol::Manufacturer),
            Column::Slot(3, ChipCol::Year),
            Column::Slot(3, ChipCol::Month),
            Column::Slot(3, ChipCol::Week),
            Column::Slot(4, ChipCol::Label),
            Column::Slot(4, ChipCol::Kind),
            Column::Slot(4, ChipCol::Manufacturer),
            Column::Slot(4, ChipCol::Year),
            Column::Slot(4, ChipCol::Month),
            Column::Slot(4, ChipCol::Week),
            Column::Slot(5, ChipCol::Label),
            Column::Slot(5, ChipCol::Kind),
            Column::Slot(5, ChipCol::Manufacturer),
            Column::Slot(5, ChipCol::Year),
            Column::Slot(5, ChipCol::Month),
            Column::Slot(5, ChipCol::Week),
        ],
        Generation::Oxy => seq![
            Column::Code,
            Column::Slug,
            Column::Title,
            Column::Contributor,
            Column::Color,
            Column::ReleaseCode,
            Column::BoardType,
            Column::BoardCircledLetters,
            Column::BoardDate(DateCol::CalendarShort),
            Column::BoardDate(DateCol::Calendar),
            Column::BoardDate(DateCol::Year),
            Column::BoardDate(DateCol::Month),
            Column::BoardDate(DateCol::Week),
            Column::Slot(0, ChipCol::Label),
            Column::Slot(0, ChipCol::Kind),
            Column::Slot(0, ChipCol::Manufacturer),
            Column::Slot(0, ChipCol::Year),
            Column::Slot(0, ChipCol::Month),
            Column::Slot(0, ChipCol::Week),
            Column::Slot(1, ChipCol::Label),
            Column::Slot(1, ChipCol::Kind),
            Column::Slot(1, ChipCol::Manufacturer),
            Column::Slot(1, ChipCol::Year),
            Column::Slot(1, ChipCol::Month),
            Column::Slot(1, ChipCol::Week),
            Column::Slot(2, ChipCol::Label),
            Column::Slot(2, ChipCol::Kind),
            Column::Slot(2, ChipCol::Manufacturer),
            Column::Slot(2, ChipCol::Year),
            Column::Slot(2, ChipCol::Month),
            Column::Slot(2, ChipCol::Week),
            Column::Slot(3, ChipCol::Label),
            Column::Slot(3, ChipCol::Kind),
            Column::Slot(3, ChipCol::Manufacturer),
            Column::Slot(3, ChipCol::Year),
            Column::Slot(3, ChipCol::Month),
            Column::Slot(3, ChipCol::Week),
        ],
    }
}

/// The exported columns of a generation.
pub fn columns_of(g: Generation) -> (r: Vec<Column>)
    ensures
        r@ == columns(g),
{
    let r = match g {
        Generation::Dmg => vec![
            Column::Code,
            Column::Slug,
            Column::Title,
            Column::Contributor,
            Column::Color,
            Column::Date(DateCol::CalendarShort),
            Column::Date(DateCol::Calendar),
            Column::Date(DateCol::Year),
            Column::Date(DateCol::Month),
            Column::BoardType,
            Column::BoardExtraLabel,
            Column::BoardStamp,
            Column::BoardCircledLetters,
            Column::Slot(0, ChipCol::Label),
            Column::Slot(0, ChipCol::Kind),
            Column::Slot(0, ChipCol::Manufacturer),
            Column::Slot(0, ChipCol::Year),
            Column::Slot(0, ChipCol::Month),
            Column::Slot(0, ChipCol::Week),
            Column::Slot(1, ChipCol::Label),
            Column::Slot(1, ChipCol::Kind),
            Column::Slot(1, ChipCol::Manufacturer),
            Column::Slot(1, ChipCol::Year),
            Column::Slot(1, ChipCol::Month),
            Column::Slot(1, ChipCol::Week),
            Column::Slot(2, ChipCol::Label),
            Column::Slot(2, ChipCol::Kind),
            Column::Slot(2, ChipCol::Manufacturer),
            Column::Slot(2, ChipCol::Year),
            Column::Slot(2, ChipCol::Month),
            Column::Slot(2, ChipCol::Week),
            Column::Slot(3, ChipCol::Label),
            Column::Slot(3, ChipCol::Kind),
            Column::Slot(3, ChipCol::Manufacturer),
            Column::Slot(3, ChipCol::Year),
            Column::Slot(3, ChipCol::Month),
            Column::Slot(3, ChipCol::Week),
            Column::Slot(4, ChipCol::Label),
            Column::Slot(4, ChipCol::Kind),
            Column::Slot(4, ChipCol::Manufacturer),
            Column::Slot(4, ChipCol::Year),
            Column::Slot(4, ChipCol::Month),
            Column::Slot(4, ChipCol::Week),
            Column::LcdType,
            Column::LcdCircledLetters,
            Column::LcdStamp,
            Column::LcdDate(DateCol::CalendarShort),
            Column::LcdDate(DateCol::Calendar),
            Column::LcdDate(DateCol::Year),
            Column::LcdDate(DateCol::Month),
            Column::PanelLabel(true),
            Column::PanelDate(true, DateCol::CalendarShort),
            Column::PanelDate(true, DateCol::Calendar),
            Column::ColumnDriver(true, ChipCol::Label),
            Column::ColumnDriver(true, ChipCol::Kind),
            Column::ColumnDriver(true, ChipCol::Manufacturer),
            Column::ColumnDriver(true, ChipCol::Year),
            Column::ColumnDriver(true, ChipCol::Month),
            Column::ColumnDriver(true, ChipCol::Week),
            Column::RowDriver(true, ChipCol::Label),
            Column::RowDriver(true, ChipCol::Kind),
            Column::RowDriver(true, ChipCol::Manufacturer),
            Column::RowDriver(true, ChipCol::Year),
            Column::RowDriver(true, ChipCol::Month),
            Column::RowDriver(true, ChipCol::Week),
            Column::LcdRegulator(ChipCol::Label),
            Column::LcdRegulator(ChipCol::Kind),
            Column::LcdRegulator(ChipCol::Manufacturer),
            Column::LcdRegulator(ChipCol::Year),
            Column::LcdRegulator(ChipCol::Month),
            Column::LcdRegulator(ChipCol::Week),
            Column::PowerType,
            Column::PowerLabel,
            Column::PowerDate(DateCol::CalendarShort),
            Column::PowerDate(DateCol::Calendar),
            Column::PowerDate(DateCol::Year),
            Column::PowerDate(DateCol::Month),
            Column::JackType,
            Column::JackExtraLabel,
        ],
        Generation::Sgb => vec![
            Column::Code,
            Column::Slug,
            Column::Title,
            Column::Contributor,
            Column::Stamp,
            Column::BoardType,
            Column::BoardCircledLetters,
            Column::BoardLetterAtTopRight,
            Column::BoardDate(DateCol::CalendarShort),
            Column::BoardDate(DateCol::Calendar),
            Column::BoardDate(DateCol::Year),
            Column::BoardDate(DateCol::Month),
            Column::BoardDate(DateCol::Week),
            Column::Slot(0, ChipCol::Label),
            Column::Slot(0, ChipCol::Kind),
            Column::Slot(0, ChipCol::Manufacturer),
            Column::Slot(0, ChipCol::Year),
            Column::Slot(0, ChipCol::Month),
            Column::Slot(0, ChipCol::Week),
            Column::Slot(1, ChipCol::Label),
            Column::Slot(1, ChipCol::Kind),
            Column::Slot(1, ChipCol::Manufacturer),
            Column::Slot(1, ChipCol::Year),
            Column::Slot(1, ChipCol::Month),
            Column::Slot(1, ChipCol::Week),
            Column::Slot(2, ChipCol::Label),
            Column::Slot(2, ChipCol::Kind),
            Column::Slot(2, ChipCol::Manufacturer),
            Column::Slot(2, ChipCol::Year),
            Column::Slot(2, ChipCol::Month),
            Column::Slot(2, ChipCol::Week),
            Column::Slot(3, ChipCol::Label),
            Column::Slot(3, ChipCol::Kind),
            Column::Slot(3, ChipCol::Manufacturer),
            Column::Slot(3, ChipCol::Year),
            Column::Slot(3, ChipCol::Month),
            Column::Slot(3, ChipCol::Week),
            Column::Slot(4, ChipCol::Label),
            Column::Slot(4, ChipCol::Kind),
            Column::Slot(4, ChipCol::Manufacturer),
            Column::Slot(4, ChipCol::Year),
            Column::Slot(4, ChipCol::Month),
            Column::Slot(4, ChipCol::Week),
            Column::Slot(5, ChipCol::Label),
            Column::Slot(5, ChipCol::Kind),
            Column::Slot(5, ChipCol::Manufacturer),
            Column::Slot(5, ChipCol::Year),
            Column::Slot(5, ChipCol::Month),
            Column::Slot(5, ChipCol::Week),
        ],
        Generation::Mgb => vec![
            Column::Code,
            Column::Slug,
            Column::Title,
            Column::Contributor,
            Column::Color,
            Column::ReleaseCode,
            Column::Date(DateCol::CalendarShort),
            Column::Date(DateCol::Calendar),
            Column::Date(DateCol::Year),
            Column::Date(DateCol::Month),
            Column::Date(DateCol::Week),
            Column::BoardType,
            Column::BoardNumberPair,
            Column::BoardStamp,
            Column::BoardCircledLetters,
            Column::BoardDate(DateCol::CalendarShort),
            Column::BoardDate(DateCol::Calendar),
            Column::BoardDate(DateCol::Year),
            Column::BoardDate(DateCol::Month),
            Column::BoardDate(DateCol::Week),
            Column::Slot(0, ChipCol::Label),
            Column::Slot(0, ChipCol::Kind),
            Column::Slot(0, ChipCol::Manufacturer),
            Column::Slot(0, ChipCol::Year),
            Column::Slot(0, ChipCol::Month),
            Column::Slot(0, ChipCol::Week),
            Column::Slot(1, ChipCol::Label),
            Column::Slot(1, ChipCol::Kind),
            Column::Slot(1, ChipCol::Manufacturer),
            Column::Slot(1, ChipCol::Year),
            Column::Slot(1, ChipCol::Month),
            Column::Slot(1, ChipCol::Week),
            Column::Slot(2, ChipCol::Label),
            Column::Slot(2, ChipCol::Kind),
            Column::Slot(2, ChipCol::Manufacturer),
            Column::Slot(2, ChipCol::Year),
            Column::Slot(2, ChipCol::Month),
            Column::Slot(2, ChipCol::Week),
            Column::Slot(3, ChipCol::Label),
            Column::Slot(3, ChipCol::Kind),
            Column::Slot(3, ChipCol::Manufacturer),
            Column::Slot(3, ChipCol::Year),
            Column::Slot(3, ChipCol::Month),
            Column::Slot(3, ChipCol::Week),
            Column::Slot(4, ChipCol::Label),
            Column::Slot(4, ChipCol::Kind),
            Column::Slot(4, ChipCol::Manufacturer),
            Column::Slot(4, ChipCol::Year),
            Column::Slot(4, ChipCol::Month),
            Column::Slot(4, ChipCol::Week),
            Column::PanelLabel(false),
            Column::PanelDate(false, DateCol::CalendarShort),
            Column::PanelDate(false, DateCol::Calendar),
            Column::ColumnDriver(false, ChipCol::Label),
            Column::ColumnDriver(false, ChipCol::Kind),
            Column::ColumnDriver(false, ChipCol::Manufacturer),
            Column::ColumnDriver(false, ChipCol::Year),
            Column::ColumnDriver(false, ChipCol::Month),
            Column::ColumnDriver(false, ChipCol::Week),
            Column::RowDriver(false, ChipCol::Label),
            Column::RowDriver(false, ChipCol::Kind),
            Column::RowDriver(false, ChipCol::Manufacturer),
            Column::RowDriver(false, ChipCol::Year),
            Column::RowDriver(false, ChipCol::Month),
            Column::RowDriver(false, ChipCol::Week),
        ],
        Generation::Mgl => vec![
            Column::Code,
            Column::Slug,
            Column::Title,
            Column::Contributor,
            Column::Color,
            Column::ReleaseCode,
            Column::Date(DateCol::CalendarShort),
            Column::Date(DateCol::Calendar),
            Column::Date(DateCol::Year),
            Column::Date(DateCol::Month),
            Column::Date(DateCol::Week),
            Column::BoardType,
            Column::BoardNumberPair,
            Column::BoardStamp,
            Column::BoardCircledLetters,
            Column::BoardDate(DateCol::CalendarShort),
            Column::BoardDate(DateCol::Calendar),
            Column::BoardDate(DateCol::Year),
            Column::BoardDate(DateCol::Month),
            Column::BoardDate(DateCol::Week),
            Column::Slot(0, ChipCol::Label),
            Column::Slot(0, ChipCol::Kind),
            Column::Slot(0, ChipCol::Manufacturer),
            Column::Slot(0, ChipCol::Year),
            Column::Slot(0, ChipCol::Month),
            Column::Slot(0, ChipCol::Week),
            Column::Slot(1, ChipCol::Label),
            Column::Slot(1, ChipCol::Kind),
            Column::Slot(1, ChipCol::Manufacturer),
            Column::Slot(1, ChipCol::Year),
            Column::Slot(1, ChipCol::Month),
            Column::Slot(1, ChipCol::Week),
            Column::Slot(2, ChipCol::Label),
            Column::Slot(2, ChipCol::Kind),
            Column::Slot(2, ChipCol::Manufacturer),
            Column::Slot(2, ChipCol::Year),
            Column::Slot(2, ChipCol::Month),
            Column::Slot(2, ChipCol::Week),
            Column::Slot(3, ChipCol::Label),
            Column::Slot(3, ChipCol::Kind),
            Column::Slot(3, ChipCol::Manufacturer),
            Column::Slot(3, ChipCol::Year),
            Column::Slot(3, ChipCol::Month),
            Column::Slot(3, ChipCol::Week),
            Column::Slot(4, ChipCol::Label),
            Column::Slot(4, ChipCol::Kind),
            Column::Slot(4, ChipCol::Manufacturer),
            Column::Slot(4, ChipCol::Year),
            Column::Slot(4, ChipCol::Month),
            Column::Slot(4, ChipCol::Week),
            Column::Slot(5, ChipCol::Label),
            Column::Slot(5, ChipCol::Kind),
            Column::Slot(5, ChipCol::Manufacturer),
            Column::Slot(5, ChipCol::Year),
            Column::Slot(5, ChipCol::Month),
            Column::Slot(5, ChipCol::Week),
            Column::PanelLabel(false),
            Column::PanelDate(false, DateCol::CalendarShort),
            Column::PanelDate(false, DateCol::Calendar),
            Column::ColumnDriver(false, ChipCol::Label),
            Column::ColumnDriver(false, ChipCol::Kind),
            Column::ColumnDriver(false, ChipCol::Manufacturer),
            Column::ColumnDriver(false, ChipCol::Year),
            Column::ColumnDriver(false, ChipCol::Month),
            Column::ColumnDriver(false, ChipCol::Week),
            Column::RowDriver(false, ChipCol::Label),
            Column::RowDriver(false, ChipCol::Kind),
            Column::RowDriver(false, ChipCol::Manufacturer),
            Column::RowDriver(false, ChipCol::Year),
            Column::RowDriver(false, ChipCol::Month),
            Column::RowDriver(false, ChipCol::Week),
        ],
        Generation::Sgb2 => vec![
            Column::Code,
            Column::Slug,
            Column::Title,
            Column::Contributor,
            Column::Stamp,
            Column::BoardType,
            Column::BoardCircledLetters,
            Column::BoardLetterAtTopRight,
            Column::BoardDate(DateCol::CalendarShort),
            Column::BoardDate(DateCol::Calendar),
            Column::BoardDate(DateCol::Year),
            Column::BoardDate(DateCol::Month),
            Column::BoardDate(DateCol::Week),
            Column::Slot(0, ChipCol::Label),
            Column::Slot(0, ChipCol::Kind),
            Column::Slot(0, ChipCol::Manufacturer),
            Column::Slot(0, ChipCol::Year),
            Column::Slot(0, ChipCol::Month),
            Column::Slot(0, ChipCol::Week),
            Column::Slot(1, ChipCol::Label),
            Column::Slot(1, ChipCol::Kind),
            Column::Slot(1, ChipCol::Manufacturer),
            Column::Slot(1, ChipCol::Year),
            Column::Slot(1, ChipCol::Month),
            Column::Slot(1, ChipCol::Week),
            Column::Slot(2, ChipCol::Label),
            Column::Slot(2, ChipCol::Kind),
            Column::Slot(2, ChipCol::Manufacturer),
            Column::Slot(2, ChipCol::Year),
            Column::Slot(2, ChipCol::Month),
            Column::Slot(2, ChipCol::Week),
            Column::Slot(3, ChipCol::Label),
            Column::Slot(3, ChipCol::Kind),
            Column::Slot(3, ChipCol::Manufacturer),
            Column::Slot(3, ChipCol::Year),
            Column::Slot(3, ChipCol::Month),
            Column::Slot(3, ChipCol::Week),
            Column::Slot(4, ChipCol::Label),
            Column::Slot(4, ChipCol::Kind),
            Column::Slot(4, ChipCol::Manufacturer),
            Column::Slot(4, ChipCol::Year),
            Column::Slot(4, ChipCol::Month),
            Column::Slot(4, ChipCol::Week),
            Column::Slot(5, ChipCol::Label),
            Column::Slot(5, ChipCol::Kind),
            Column::Slot(5, ChipCol::Manufacturer),
            Column::Slot(5, ChipCol::Year),
            Column::Slot(5, ChipCol::Month),
            Column::Slot(5, ChipCol::Week),
            Column::Slot(6, ChipCol::Label),
            Column::Slot(6, ChipCol::Kind),
            Column::Slot(6, ChipCol::Manufacturer),
            Column::Slot(6, ChipCol::Year),
            Column::Slot(6, ChipCol::Month),
            Column::Slot(6, ChipCol::Week),
        ],
        Generation::Cgb => vec![
            Column::Code,
            Column::Slug,
            Column::Title,
            Column::Contributor,
            Column::Color,
            Column::ReleaseCode,
            Column::Date(DateCol::CalendarShort),
            Column::Date(DateCol::Calendar),
            Column::Date(DateCol::Year),
            Column::Date(DateCol::Month),
            Column::Date(DateCol::Week),
            Column::BoardType,
            Column::BoardNumberPair,
            Column::BoardStamp,
            Column::BoardCircledLetters,
            Column::BoardDate(DateCol::CalendarShort),
            Column::BoardDate(DateCol::Calendar),
            Column::BoardDate(DateCol::Year),
            Column::BoardDate(DateCol::Month),
            Column::BoardDate(DateCol::Week),
            Column::Slot(0, ChipCol::Label),
            Column::Slot(0, ChipCol::Kind),
            Column::Slot(0, ChipCol::Manufacturer),
            Column::Slot(0, ChipCol::Year),
            Column::Slot(0, ChipCol::Month),
            Column::Slot(0, ChipCol::Week),
            Column::Slot(1, ChipCol::Label),
            Column::Slot(1, ChipCol::Kind),
            Column::Slot(1, ChipCol::Manufacturer),
            Column::Slot(1, ChipCol::Year),
            Column::Slot(1, ChipCol::Month),
            Column::Slot(1, ChipCol::Week),
            Column::Slot(2, ChipCol::Label),
            Column::Slot(2, ChipCol::Kind),
            Column::Slot(2, ChipCol::Manufacturer),
            Column::Slot(2, ChipCol::Year),
            Column::Slot(2, ChipCol::Month),
            Column::Slot(2, ChipCol::Week),
            Column::Slot(3, ChipCol::Label),
            Column::Slot(3, ChipCol::Kind),
            Column::Slot(3, ChipCol::Manufacturer),
            Column::Slot(3, ChipCol::Year),
            Column::Slot(3, ChipCol::Month),
            Column::Slot(3, ChipCol::Week),
            Column::Slot(4, ChipCol::Label),
            Column::Slot(4, ChipCol::Kind),
            Column::Slot(4, ChipCol::Manufacturer),
            Column::Slot(4, ChipCol::Year),
            Column::Slot(4, ChipCol::Month),
            Column::Slot(4, ChipCol::Week),
        ],
        Generation::Agb => vec![
            Column::Code,
            Column::Slug,
            Column::Title,
            Column::Contributor,
            Column::Color,
            Column::ReleaseCode,
            Column::Date(DateCol::CalendarShort),
            Column::Date(DateCol::Calendar),
            Column::Date(DateCol::Year),
            Column::Date(DateCol::Month),
            Column::Date(DateCol::Week),
            Column::BoardType,
            Column::BoardNumberPair,
            Column::BoardStamp,
            Column::BoardCircledLetters,
            Column::BoardDate(DateCol::CalendarShort),
            Column::BoardDate(DateCol::Calendar),
            Column::BoardDate(DateCol::Year),
            Column::BoardDate(DateCol::Month),
            Column::BoardDate(DateCol::Week),
            Column::Slot(0, ChipCol::Label),
            Column::Slot(0, ChipCol::Kind),
            Column::Slot(0, ChipCol::Manufacturer),
            Column::Slot(0, ChipCol::Year),
            Column::Slot(0, ChipCol::Month),
            Column::Slot(0, ChipCol::Week),
            Column::Slot(1, ChipCol::Label),
            Column::Slot(1, ChipCol::Kind),
            Column::Slot(1, ChipCol::Manufacturer),
            Column::Slot(1, ChipCol::Year),
            Column::Slot(1, ChipCol::Month),
            Column::Slot(1, ChipCol::Week),
            Column::Slot(2, ChipCol::Label),
            Column::Slot(2, ChipCol::Kind),
            Column::Slot(2, ChipCol::Manufacturer),
            Column::Slot(2, ChipCol::Year),
            Column::Slot(2, ChipCol::Month),
            Column::Slot(2, ChipCol::Week),
            Column::Slot(3, ChipCol::Label),
            Column::Slot(3, ChipCol::Kind),
            Column::Slot(3, ChipCol::Manufacturer),
            Column::Slot(3, ChipCol::Year),
            Column::Slot(3, ChipCol::Month),
            Column::Slot(3, ChipCol::Week),
            Column::Slot(4, ChipCol::Label),
            Column::Slot(4, ChipCol::Kind),
            Column::Slot(4, ChipCol::Manufacturer),
            Column::Slot(4, ChipCol::Year),
            Column::Slot(4, ChipCol::Month),
            Column::Slot(4, ChipCol::Week),
            Column::Slot(5, ChipCol::Label),
            Column::Slot(5, ChipCol::Kind),
            Column::Slot(5, ChipCol::Manufacturer),
            Column::Slot(5, ChipCol::Year),
            Column::Slot(5, ChipCol::Month),
            Column::Slot(5, ChipCol::Week),
        ],
        Generation::Ags => vec![
            Column::Code,
            Column::Slug,
            Column::Title,
            Column::Contributor,
            Column::Color,
            Column::ReleaseCode,
            Column::BoardType,
            Column::BoardNumberPair,
            Column::BoardStamp,
            Column::BoardCircledLetters,
            Column::BoardDate(DateCol::CalendarShort),
            Column::BoardDate(DateCol::Calendar),
            Column::BoardDate(DateCol::Year),
            Column::BoardDate(DateCol::Month),
            Column::BoardDate(DateCol::Week),
            Column::Slot(0, ChipCol::Label),
            Column::Slot(0, ChipCol::Kind),
            Column::Slot(0, ChipCol::Manufacturer),
            Column::Slot(0, ChipCol::Year),
            Column::Slot(0, ChipCol::Month),
            Column::Slot(0, ChipCol::Week),
            Column::Slot(1, ChipCol::Label),
            Column::Slot(1, ChipCol::Kind),
            Column::Slot(1, ChipCol::Manufacturer),
            Column::Slot(1, ChipCol::Year),
            Column::Slot(1, ChipCol::Month),
            Column::Slot(1, ChipCol::Week),
            Column::Slot(2, ChipCol::Label),
            Column::Slot(2, ChipCol::Kind),
            Column::Slot(2, ChipCol::Manufacturer),
            Column::Slot(2, ChipCol::Year),
            Column::Slot(2, ChipCol::Month),
            Column::Slot(2, ChipCol::Week),
            Column::Slot(3, ChipCol::Label),
            Column::Slot(3, ChipCol::Kind),
            Column::Slot(3, ChipCol::Manufacturer),
            Column::Slot(3, ChipCol::Year),
            Column::Slot(3, ChipCol::Month),
            Column::Slot(3, ChipCol::Week),
            Column::Slot(4, ChipCol::Label),
            Column::Slot(4, ChipCol::Kind),
            Column::Slot(4, ChipCol::Manufacturer),
            Column::Slot(4, ChipCol::Year),
            Column::Slot(4, ChipCol::Month),
            Column::Slot(4, ChipCol::Week),
            Column::Slot(5, ChipCol::Label),
            Column::Slot(5, ChipCol::Kind),
            Column::Slot(5, ChipCol::Manufacturer),
            Column::Slot(5, ChipCol::Year),
            Column::Slot(5, ChipCol::Month),
            Column::Slot(5, ChipCol::Week),
        ],
        Generation::Gbs => vec![
            Column::Code,
            Column::Slug,
            Column::Title,
            Column::Contributor,
            Column::Color,
            Column::ReleaseCode,
            Column::Date(DateCol::CalendarShort),
            Column::Date(DateCol::Calendar),
            Column::Date(DateCol::Year),
            Column::Date(DateCol::Month),
            Column::Date(DateCol::Week),
            Column::BoardType,
            Column::BoardNumberPair,
            Column::BoardStamp,
            Column::BoardStampFront,
            Column::BoardStampBack,
            Column::BoardCircledLetters,
            Column::BoardDate(DateCol::CalendarShort),
            Column::BoardDate(DateCol::Calendar),
            Column::BoardDate(DateCol::Year),
            Column::BoardDate(DateCol::Month),
            Column::BoardDate(DateCol::Week),
            Column::Slot(0, ChipCol::Label),
            Column::Slot(0, ChipCol::Kind),
            Column::Slot(0, ChipCol::Manufacturer),
            Column::Slot(0, ChipCol::Year),
            Column::Slot(0, ChipCol::Month),
            Column::Slot(0, ChipCol::Week),
            Column::Slot(1, ChipCol::Label),
            Column::Slot(1, ChipCol::Kind),
            Column::Slot(1, ChipCol::Manufacturer),
            Column::Slot(1, ChipCol::Year),
            Column::Slot(1, ChipCol::Month),
            Column::Slot(1, ChipCol::Week),
            Column::Slot(2, ChipCol::Label),
            Column::Slot(2, ChipCol::Kind),
            Column::Slot(2, ChipCol::Manufacturer),
            Column::Slot(2, ChipCol::Year),
            Column::Slot(2, ChipCol::Month),
            Column::Slot(2, ChipCol::Week),
            Column::Slot(3, ChipCol::Label),
            Column::Slot(3, ChipCol::Kind),
            Column::Slot(3, ChipCol::Manufacturer),
            Column::Slot(3, ChipCol::Year),
            Column::Slot(3, ChipCol::Month),
            Column::Slot(3, ChipCol::Week),
            Column::Slot(4, ChipCol::Label),
            Column::Slot(4, ChipCol::Kind),
            Column::Slot(4, ChipCol::Manufacturer),
            Column::Slot(4, ChipCol::Year),
            Column::Slot(4, ChipCol::Month),
            Column::Slot(4, ChipCol::Week),
            Column::Slot(5, ChipCol::Label),
            Column::Slot(5, ChipCol::Kind),
            Column::Slot(5, ChipCol::Manufacturer),
            Column::Slot(5, ChipCol::Year),
            Column::Slot(5, ChipCol::Month),
            Column::Slot(5, ChipCol::Week),
        ],
        Generation::Oxy => vec![
            Column::Code,
            Column::Slug,
            Column::Title,
            Column::Contributor,
            Column::Color,
            Column::ReleaseCode,
            Column::BoardType,
            Column::BoardCircledLetters,
            Column::BoardDate(DateCol::CalendarShort),
            Column::BoardDate(DateCol::Calendar),
            Column::BoardDate(DateCol::Year),
            Column::BoardDate(DateCol::Month),
            Column::BoardDate(DateCol::Week),
            Column::Slot(0, ChipCol::Label),
            Column::Slot(0, ChipCol::Kind),
            Column::Slot(0, ChipCol::Manufacturer),
            Column::Slot(0, ChipCol::Year),
            Column::Slot(0, ChipCol::Month),
            Column::Slot(0, ChipCol::Week),
            Column::Slot(1, ChipCol::Label),
            Column::Slot(1, ChipCol::Kind),
            Column::Slot(1, ChipCol::Manufacturer),
            Column::Slot(1, ChipCol::Year),
            Column::Slot(1, ChipCol::Month),
            Column::Slot(1, ChipCol::Week),
            Column::Slot(2, ChipCol::Label),
            Column::Slot(2, ChipCol::Kind),
            Column::Slot(2, ChipCol::Manufacturer),
            Column::Slot(2, ChipCol::Year),
            Column::Slot(2, ChipCol::Month),
            Column::Slot(2, ChipCol::Week),
            Column::Slot(3, ChipCol::Label),
            Column::Slot(3, ChipCol::Kind),
            Column::Slot(3, ChipCol::Manufacturer),
            Column::Slot(3, ChipCol::Year),
            Column::Slot(3, ChipCol::Month),
            Column::Slot(3, ChipCol::Week),
        ],
    };
    assert(r@ =~= columns(g));
    r
}

/// The name a generation's export gives the component in slot `i`.
pub open spec fn slot_label(g: Generation, i: usize) -> Seq<char> {
    match g {
        Generation::Dmg => match i {
            0 => "cpu"@,
            1 => "work_ram"@,
            2 => "video_ram"@,
            3 => "amplifier"@,
            4 => "crystal"@,
            _ => seq![],
        },
        Generation::Sgb => match i {
            0 => "cpu"@,
            1 => "icd2"@,
            2 => "work_ram"@,
            3 => "video_ram"@,
            4 => "rom"@,
            5 => "cic"@,
            _ => seq![],
        },
        Generation::Mgb => match i {
            0 => "cpu"@,
            1 => "work_ram"@,
            2 => "amplifier"@,
            3 => "regulator"@,
            4 => "crystal"@,
            _ => seq![],
        },
        Generation::Mgl => match i {
            0 => "cpu"@,
            1 => "work_ram"@,
            2 => "amplifier"@,
            3 => "regulator"@,
            4 => "crystal"@,
            5 => "t1"@,
            _ => seq![],
        },
        Generation::Sgb2 => match i {
            0 => "cpu"@,
            1 => "icd2"@,
            2 => "work_ram"@,
            3 => "rom"@,
            4 => "cic"@,
            5 => "coil"@,
            6 => "crystal"@,
            _ => seq![],
        },
        Generation::Cgb => match i {
            0 => "cpu"@,
            1 => "work_ram"@,
            2 => "amplifier"@,
            3 => "regulator"@,
            4 => "crystal"@,
            _ => seq![],
        },
        Generation::Agb => match i {
            0 => "cpu"@,
            1 => "work_ram"@,
            2 => "regulator"@,
            3 => "amplifier"@,
            4 => "u4"@,
            5 => "crystal"@,
            _ => seq![],
        },
        Generation::Ags => match i {
            0 => "cpu"@,
            1 => "work_ram"@,
            2 => "amplifier"@,
            3 => "u4"@,
            4 => "u5"@,
            5 => "crystal"@,
            _ => seq![],
        },
        Generation::Gbs => match i {
            0 => "cpu"@,
            1 => "work_ram"@,
            2 => "u4"@,
            3 => "u5"@,
            4 => "u6"@,
            5 => "crystal"@,
            _ => seq![],
        },
        Generation::Oxy => match i {
            0 => "cpu"@,
            1 => "u2"@,
            2 => "u4"@,
            3 => "u5"@,
            _ => seq![],
        },
    }
}

fn slot_label_text(g: Generation, i: usize) -> (r: &'static str)
    ensures
        r@ == slot_label(g, i),
{
    proof {
        reveal_strlit("");
    }
    match g {
        Generation::Dmg => match i {
            0 => "cpu",
            1 => "work_ram",
            2 => "video_ram",
            3 => "amplifier",
            4 => "crystal",
            _ => "",
        },
        Generation::Sgb => match i {
            0 => "cpu",
            1 => "icd2",
            2 => "work_ram",
            3 => "video_ram",
            4 => "rom",
            5 => "cic",
            _ => "",
        },
        Generation::Mgb => match i {
            0 => "cpu",
            1 => "work_ram",
            2 => "amplifier",
            3 => "regulator",
            4 => "crystal",
            _ => "",
        },
        Generation::Mgl => match i {
            0 => "cpu",
            1 => "work_ram",
            2 => "amplifier",
            3 => "regulator",
            4 => "crystal",
            5 => "t1",
            _ => "",
        },
        Generation::Sgb2 => match i {
            0 => "cpu",
            1 => "icd2",
            2 => "work_ram",
            3 => "rom",
            4 => "cic",
            5 => "coil",
            6 => "crystal",
            _ => "",
        },
        Generation::Cgb => match i {
            0 => "cpu",
            1 => "work_ram",
            2 => "amplifier",
            3 => "regulator",
            4 => "crystal",
            _ => "",
        },
        Generation::Agb => match i {
            0 => "cpu",
            1 => "work_ram",
            2 => "regulator",
            3 => "amplifier",
            4 => "u4",
            5 => "crystal",
            _ => "",
        },
        Generation::Ags => match i {
            0 => "cpu",
            1 => "work_ram",
            2 => "amplifier",
            3 => "u4",
            4 => "u5",
            5 => "crystal",
            _ => "",
        },
        Generation::Gbs => match i {
            0 => "cpu",
            1 => "work_ram",
            2 => "u4",
            3 => "u5",
            4 => "u6",
            5 => "crystal",
            _ => "",
        },
        Generation::Oxy => match i {
            0 => "cpu",
            1 => "u2",
            2 => "u4",
            3 => "u5",
            _ => "",
        },
    }
}

pub open spec fn date_col_name(d: DateCol) -> Seq<char> {
    match d {
        DateCol::CalendarShort => "calendar_short"@,
        DateCol::Calendar => "calendar"@,
        DateCol::Year => "year"@,
        DateCol::Month => "month"@,
        DateCol::Week => "week"@,
    }
}

fn date_col_text(d: DateCol) -> (r: &'static str)
    ensures
        r@ == date_col_name(d),
{
    match d {
        DateCol::CalendarShort => "calendar_short",
        DateCol::Calendar => "calendar",
        DateCol::Year => "year",
        DateCol::Month => "month",
        DateCol::Week => "week",
    }
}

pub open spec fn chip_col_name(c: ChipCol) -> Seq<char> {
    match c {
        ChipCol::Label => "label"@,
        ChipCol::Kind => "kind"@,
        ChipCol::Manufacturer => "manufacturer"@,
        ChipCol::Year => "year"@,
        ChipCol::Month => "month"@,
        ChipCol::Week => "week"@,
    }
}

fn chip_col_text(c: ChipCol) -> (r: &'static str)
    ensures
        r@ == chip_col_name(c),
{
    match c {
        ChipCol::Label => "label",
        ChipCol::Kind => "kind",
        ChipCol::Manufacturer => "manufacturer",
        ChipCol::Year => "year",
        ChipCol::Month => "month",
        ChipCol::Week => "week",
    }
}

/// The name of a column in a generation's export.
pub open spec fn column_name(g: Generation, c: Column) -> Seq<char> {
    match c {
        Column::Code => "code"@,
        Column::Slug => "slug"@,
        Column::Title => "title"@,
        Column::Contributor => "contributor"@,
        Column::Color => "color"@,
        Column::ReleaseCode => "release_code"@,
        Column::Stamp => "stamp"@,
        Column::Date(d) => date_col_name(d),
        Column::BoardType => "mainboard.type"@,
        Column::BoardCircledLetters => "mainboard.circled_letters"@,
        Column::BoardNumberPair => "mainboard.number_pair"@,
        Column::BoardLetterAtTopRight => "mainboard.letter_at_top_right"@,
        Column::BoardExtraLabel => "mainboard.extra_label"@,
        Column::BoardStamp => "mainboard.stamp"@,
        Column::BoardStampFront => "mainboard.stamp_front"@,
        Column::BoardStampBack => "mainboard.stamp_back"@,
        Column::BoardDate(d) => "mainboard."@ + date_col_name(d),
        Column::Slot(i, c) => slot_label(g, i) + "."@ + chip_col_name(c),
        Column::LcdType => "lcd_board.type"@,
        Column::LcdCircledLetters => "lcd_board.circled_letters"@,
        Column::LcdStamp => "lcd_board.stamp"@,
        Column::LcdDate(d) => "lcd_board."@ + date_col_name(d),
        Column::LcdRegulator(c) => "regulator."@ + chip_col_name(c),
        Column::PanelLabel(_) => "lcd_panel.label"@,
        Column::PanelDate(_, d) => "lcd_panel."@ + date_col_name(d),
        Column::ColumnDriver(_, c) => "column_driver."@ + chip_col_name(c),
        Column::RowDriver(_, c) => "row_driver."@ + chip_col_name(c),
        Column::PowerType => "power_board.type"@,
        Column::PowerLabel => "power_board.label"@,
        Column::PowerDate(d) => "power_board."@ + date_col_name(d),
        Column::JackType => "jack_board.type"@,
        Column::JackExtraLabel => "jack_board.extra_label"@,
    }
}

fn joined(a: &str, b: &str) -> (r: String)
    ensures
        r@ == a@ + b@,
{
    let mut s = String::from_str(a);
    s.append(b);
    s
}

/// The name of a column in a generation's export.
pub fn column_name_of(g: Generation, c: Column) -> (r: String)
    ensures
        r@ == column_name(g, c),
{
    match c {
        Column::Code => String::from_str("code"),
        Column::Slug => String::from_str("slug"),
        Column::Title => String::from_str("title"),
        Column::Contributor => String::from_str("contributor"),
        Column::Color => String::from_str("color"),
        Column::ReleaseCode => String::from_str("release_code"),
        Column::Stamp => String::from_str("stamp"),
        Column::Date(d) => String::from_str(date_col_text(d)),
        Column::BoardType => String::from_str("mainboard.type"),
        Column::BoardCircledLetters => String::from_str("mainboard.circled_letters"),
        Column::BoardNumberPair => String::from_str("mainboard.number_pair"),
        Column::BoardLetterAtTopRight => String::from_str("mainboard.letter_at_top_right"),
        Column::BoardExtraLabel => String::from_str("mainboard.extra_label"),
        Column::BoardStamp => String::from_str("mainboard.stamp"),
        Column::BoardStampFront => String::from_str("mainboard.stamp_front"),
        Column::BoardStampBack => String::from_str("mainboard.stamp_back"),
        Column::BoardDate(d) => joined("mainboard.", date_col_text(d)),
        Column::Slot(i, c) => {
            let mut s = joined(slot_label_text(g, i), ".");
            s.append(chip_col_text(c));
            s
        },
        Column::LcdType => String::from_str("lcd_board.type"),
        Column::LcdCircledLetters => String::from_str("lcd_board.circled_letters"),
        Column::LcdStamp => String::from_str("lcd_board.stamp"),
        Column::LcdDate(d) => joined("lcd_board.", date_col_text(d)),
        Column::LcdRegulator(c) => joined("regulator.", chip_col_text(c)),
        Column::PanelLabel(_) => String::from_str("lcd_panel.label"),
        Column::PanelDate(_, d) => joined("lcd_panel.", date_col_text(d)),
        Column::ColumnDriver(_, c) => joined("column_driver.", chip_col_text(c)),
        Column::RowDriver(_, c) => joined("row_driver.", chip_col_text(c)),
        Column::PowerType => String::from_str("power_board.type"),
        Column::PowerLabel => String::from_str("power_board.label"),
        Column::PowerDate(d) => joined("power_board.", date_col_text(d)),
        Column::JackType => String::from_str("jack_board.type"),
        Column::JackExtraLabel => String::from_str("jack_board.extra_label"),
    }
}

/// The English name of a month; other numbers stay numbers.
pub open spec fn month_name(m: u8) -> Seq<char> {
    match m {
        1 => "January"@,
        2 => "February"@,
        3 => "March"@,
        4 => "April"@,
        5 => "May"@,
        6 => "June"@,
        7 => "July"@,
        8 => "August"@,
        9 => "September"@,
        10 => "October"@,
        11 => "November"@,
        12 => "December"@,
        _ => decimal(m as nat),
    }
}

fn month_text(m: u8) -> (r: String)
    ensures
        r@ == month_name(m),
{
    match m {
        1 => String::from_str("January"),
        2 => String::from_str("February"),
        3 => String::from_str("March"),
        4 => String::from_str("April"),
        5 => String::from_str("May"),
        6 => String::from_str("June"),
        7 => String::from_str("July"),
        8 => String::from_str("August"),
        9 => String::from_str("September"),
        10 => String::from_str("October"),
        11 => String::from_str("November"),
        12 => String::from_str("December"),
        _ => crate::text::decimal_text(m as u32),
    }
}

/// A date field's text: the numbers as decimals; the calendar as
/// `January 1990`, `week 12/1990` or `1990`; the short calendar as
/// `1/1990`, `W12/1990` or `1990`. Without a year both calendars are empty.
pub open spec fn date_cell(year: Option<u16>, month: Option<u8>, week: Option<u8>, d: DateCol) -> Seq<
    char,
> {
    match d {
        DateCol::Year => u16_cell(year),
        DateCol::Month => u8_cell(month),
        DateCol::Week => u8_cell(week),
        DateCol::Calendar => match year {
            None => seq![],
            Some(y) => match (month, week) {
                (Some(m), _) => month_name(m) + " "@ + decimal(y as nat),
                (None, Some(w)) => "week "@ + decimal(w as nat) + "/"@ + decimal(y as nat),
                (None, None) => decimal(y as nat),
            },
        },
        DateCol::CalendarShort => match year {
            None => seq![],
            Some(y) => match (month, week) {
                (Some(m), _) => decimal(m as nat) + "/"@ + decimal(y as nat),
                (None, Some(w)) => "W"@ + decimal(w as nat) + "/"@ + decimal(y as nat),
                (None, None) => decimal(y as nat),
            },
        },
    }
}

fn num16(o: Option<u16>) -> (r: String)
    ensures
        r@ == u16_cell(o),
{
    match o {
        Some(n) => crate::text::decimal_text(n as u32),
        None => String::new(),
    }
}

fn num8(o: Option<u8>) -> (r: String)
    ensures
        r@ == u8_cell(o),
{
    match o {
        Some(n) => crate::text::decimal_text(n as u32),
        None => String::new(),
    }
}

/// The text of a date field.
pub fn date_text(year: Option<u16>, month: Option<u8>, week: Option<u8>, d: DateCol) -> (r: String)
    ensures
        r@ == date_cell(year, month, week, d),
{
    match d {
        DateCol::Year => num16(year),
        DateCol::Month => num8(month),
        DateCol::Week => num8(week),
        DateCol::Calendar => match year {
            None => String::new(),
            Some(y) => match (month, week) {
                (Some(m), _) => {
                    let mut s = month_text(m);
                    s.append(" ");
                    push_decimal(&mut s, y as u32);
                    s
                },
                (None, Some(w)) => {
                    let mut s = String::from_str("week ");
                    push_decimal(&mut s, w as u32);
                    s.append("/");
                    push_decimal(&mut s, y as u32);
                    s
                },
                (None, None) => crate::text::decimal_text(y as u32),
            },
        },
        DateCol::CalendarShort => match year {
            None => String::new(),
            Some(y) => match (month, week) {
                (Some(m), _) => {
                    let mut s = crate::text::decimal_text(m as u32);
                    s.append("/");
                    push_decimal(&mut s, y as u32);
                    s
                },
                (None, Some(w)) => {
                    let mut s = String::from_str("W");
                    push_decimal(&mut s, w as u32);
                    s.append("/");
                    push_decimal(&mut s, y as u32);
                    s
                },
                (None, None) => crate::text::decimal_text(y as u32),
            },
        },
    }
}

/// A component field's text: the label of any record; the decoded fields
/// of a matched one; empty for an empty slot.
pub open spec fn chip_cell(p: Option<PartRecord>, c: ChipCol) -> Seq<char> {
    match p {
        None => seq![],
        Some(p) => match c {
            ChipCol::Label => p.label@,
            _ => match p.info {
                None => seq![],
                Some(info) => match c {
                    ChipCol::Kind => info.kind@,
                    ChipCol::Manufacturer => match info.manufacturer {
                        Some(m) => maker_name(m),
                        None => seq![],
                    },
                    ChipCol::Year => u16_cell(info.year),
                    ChipCol::Month => u8_cell(info.month),
                    ChipCol::Week => u8_cell(info.week),
                    ChipCol::Label => p.label@,
                },
            },
        },
    }
}

fn chip_text(p: &Option<PartRecord>, c: ChipCol) -> (r: String)
    ensures
        r@ == chip_cell(*p, c),
{
    match p {
        None => String::new(),
        Some(p) => match c {
            ChipCol::Label => p.label.clone(),
            _ => match &p.info {
                None => String::new(),
                Some(info) => match c {
                    ChipCol::Kind => info.kind.clone(),
                    ChipCol::Manufacturer => match info.manufacturer {
                        Some(m) => String::from_str(maker_text(m)),
                        None => String::new(),
                    },
                    ChipCol::Year => num16(info.year),
                    ChipCol::Month => num8(info.month),
                    ChipCol::Week => num8(info.week),
                    ChipCol::Label => p.label.clone(),
                },
            },
        },
    }
}

/// The panel a panel column reads: the screen board's, or the unit's own.
pub open spec fn panel_of(r: ConsoleRecord, on_lcd: bool) -> Option<PanelRecord> {
    if on_lcd {
        match r.lcd_board {
            Some(b) => b.panel,
            None => None,
        }
    } else {
        r.screen
    }
}

/// The text of a column for a record; an absent board or part gives an
/// empty cell.
pub open spec fn cell(r: ConsoleRecord, c: Column) -> Seq<char> {
    match c {
        Column::Code => r.code@,
        Column::Slug => r.slug@,
        Column::Title => r.title@,
        Column::Contributor => r.contributor@,
        Column::Color => opt_cell(opt_view(r.color)),
        Column::ReleaseCode => opt_cell(opt_view(r.release_code)),
        Column::Stamp => opt_cell(opt_view(r.shell_stamp)),
        Column::Date(d) => date_cell(r.date.year, r.date.month, r.date.week, d),
        Column::BoardType => r.mainboard.kind@,
        Column::BoardCircledLetters => opt_cell(opt_view(r.mainboard.circled_letters)),
        Column::BoardNumberPair => opt_cell(opt_view(r.mainboard.number_pair)),
        Column::BoardLetterAtTopRight => opt_cell(opt_view(r.mainboard.letter_at_top_right)),
        Column::BoardExtraLabel => opt_cell(opt_view(r.mainboard.extra_label)),
        Column::BoardStamp => opt_cell(opt_view(r.mainboard.stamp)),
        Column::BoardStampFront => opt_cell(opt_view(r.mainboard.stamp_front)),
        Column::BoardStampBack => opt_cell(opt_view(r.mainboard.stamp_back)),
        Column::BoardDate(d) => date_cell(r.mainboard.year, r.mainboard.month, None, d),
        Column::Slot(i, c) => if i < r.parts@.len() {
            chip_cell(r.parts@[i as int], c)
        } else {
            seq![]
        },
        Column::LcdType => match r.lcd_board {
            Some(b) => b.kind@,
            None => seq![],
        },
        Column::LcdCircledLetters => match r.lcd_board {
            Some(b) => opt_cell(opt_view(b.circled_letters)),
            None => seq![],
        },
        Column::LcdStamp => match r.lcd_board {
            Some(b) => opt_cell(opt_view(b.stamp)),
            None => seq![],
        },
        Column::LcdDate(d) => match r.lcd_board {
            Some(b) => date_cell(b.year, b.month, None, d),
            None => seq![],
        },
        Column::LcdRegulator(c) => match r.lcd_board {
            Some(b) => chip_cell(b.regulator, c),
            None => seq![],
        },
        Column::PanelLabel(on_lcd) => match panel_of(r, on_lcd) {
            Some(p) => opt_cell(opt_view(p.label)),
            None => seq![],
        },
        Column::PanelDate(on_lcd, d) => match panel_of(r, on_lcd) {
            Some(p) => date_cell(p.year, p.month, None, d),
            None => seq![],
        },
        Column::ColumnDriver(on_lcd, c) => match panel_of(r, on_lcd) {
            Some(p) => chip_cell(p.column_driver, c),
            None => seq![],
        },
        Column::RowDriver(on_lcd, c) => match panel_of(r, on_lcd) {
            Some(p) => chip_cell(p.row_driver, c),
            None => seq![],
        },
        Column::PowerType => match r.power_board {
            Some(b) => b.kind@,
            None => seq![],
        },
        Column::PowerLabel => match r.power_board {
            Some(b) => b.label@,
            None => seq![],
        },
        Column::PowerDate(d) => match r.power_board {
            Some(b) => date_cell(b.year, b.month, None, d),
            None => seq![],
        },
        Column::JackType => match r.jack_board {
            Some(b) => b.kind@,
            None => seq![],
        },
        Column::JackExtraLabel => match r.jack_board {
            Some(b) => opt_cell(opt_view(b.extra_label)),
            None => seq![],
        },
    }
}

fn opt_text(o: &Option<String>) -> (r: String)
    ensures
        r@ == opt_cell(opt_view(*o)),
{
    match o {
        Some(s) => s.clone(),
        None => String::new(),
    }
}

fn panel_ref(r: &ConsoleRecord, on_lcd: bool) -> (p: Option<&PanelRecord>)
    ensures
        match (p, panel_of(*r, on_lcd)) {
            (Some(a), Some(b)) => *a == b,
            (None, None) => true,
            _ => false,
        },
{
    if on_lcd {
        match &r.lcd_board {
            Some(b) => match &b.panel {
                Some(p) => Some(p),
                None => None,
            },
            None => None,
        }
    } else {
        match &r.screen {
            Some(p) => Some(p),
            None => None,
        }
    }
}

/// The text of a column for a record.
pub fn cell_text(r: &ConsoleRecord, c: Column) -> (t: String)
    ensures
        t@ == cell(*r, c),
{
    match c {
        Column::Code => r.code.clone(),
        Column::Slug => r.slug.clone(),
        Column::Title => r.title.clone(),
        Column::Contributor => r.contributor.clone(),
        Column::Color => opt_text(&r.color),
        Column::ReleaseCode => opt_text(&r.release_code),
        Column::Stamp => opt_text(&r.shell_stamp),
        Column::Date(d) => date_text(r.date.year, r.date.month, r.date.week, d),
        Column::BoardType => r.mainboard.kind.clone(),
        Column::BoardCircledLetters => opt_text(&r.mainboard.circled_letters),
        Column::BoardNumberPair => opt_text(&r.mainboard.number_pair),
        Column::BoardLetterAtTopRight => opt_text(&r.mainboard.letter_at_top_right),
        Column::BoardExtraLabel => opt_text(&r.mainboard.extra_label),
        Column::BoardStamp => opt_text(&r.mainboard.stamp),
        Column::BoardStampFront => opt_text(&r.mainboard.stamp_front),
        Column::BoardStampBack => opt_text(&r.mainboard.stamp_back),
        Column::BoardDate(d) => date_text(r.mainboard.year, r.mainboard.month, None, d),
        Column::Slot(i, c) => if i < r.parts.len() {
            chip_text(&r.parts[i], c)
        } else {
            String::new()
        },
        Column::LcdType => match &r.lcd_board {
            Some(b) => b.kind.clone(),
            None => String::new(),
        },
        Column::LcdCircledLetters => match &r.lcd_board {
            Some(b) => opt_text(&b.circled_letters),
            None => String::new(),
        },
        Column::LcdStamp => match &r.lcd_board {
            Some(b) => opt_text(&b.stamp),
            None => String::new(),
        },
        Column::LcdDate(d) => match &r.lcd_board {
            Some(b) => date_text(b.year, b.month, None, d),
            None => String::new(),
        },
        Column::LcdRegulator(c) => match &r.lcd_board {
            Some(b) => chip_text(&b.regulator, c),
            None => String::new(),
        },
        Column::PanelLabel(on_lcd) => match panel_ref(r, on_lcd) {
            Some(p) => opt_text(&p.label),
            None => String::new(),
        },
        Column::PanelDate(on_lcd, d) => match panel_ref(r, on_lcd) {
            Some(p) => date_text(p.year, p.month, None, d),
            None => String::new(),
        },
        Column::ColumnDriver(on_lcd, c) => match panel_ref(r, on_lcd) {
            Some(p) => chip_text(&p.column_driver, c),
            None => String::new(),
        },
        Column::RowDriver(on_lcd, c) => match panel_ref(r, on_lcd) {
            Some(p) => chip_text(&p.row_driver, c),
            None => String::new(),
        },
        Column::PowerType => match &r.power_board {
            Some(b) => b.kind.clone(),
            None => String::new(),
        },
        Column::PowerLabel => match &r.power_board {
            Some(b) => b.label.clone(),
            None => String::new(),
        },
        Column::PowerDate(d) => match &r.power_board {
            Some(b) => date_text(b.year, b.month, None, d),
            None => String::new(),
        },
        Column::JackType => match &r.jack_board {
            Some(b) => b.kind.clone(),
            None => String::new(),
        },
        Column::JackExtraLabel => match &r.jack_board {
            Some(b) => opt_text(&b.extra_label),
            None => String::new(),
        },
    }
}

/// The header of a generation's export: one name per column.
pub open spec fn console_header_spec(g: Generation) -> Seq<Seq<char>> {
    Seq::new(columns(g).len(), |i: int| column_name(g, columns(g)[i]))
}

/// The row of a console record: one cell per column of its generation.
pub open spec fn console_row(r: ConsoleRecord) -> Seq<Seq<char>> {
    Seq::new(columns(r.generation).len(), |i: int| cell(r, columns(r.generation)[i]))
}

/// The header of a generation's export.
pub fn console_header(g: Generation) -> (r: Vec<String>)
    ensures
        cells_view(r@) == console_header_spec(g),
{
    let cols = columns_of(g);
    let mut out: Vec<String> = Vec::new();
    assert(cells_view(out@) =~= Seq::new(0nat, |i: int| column_name(g, columns(g)[i])));
    let mut k: usize = 0;
    while k < cols.len()
        invariant
            cols@ == columns(g),
            k <= cols@.len(),
            out@.len() == k,
            cells_view(out@) == Seq::new(k as nat, |i: int| column_name(g, columns(g)[i])),
        decreases cols@.len() - k,
    {
        let ghost before = out@;
        let name = column_name_of(g, cols[k]);
        out.push(name);
        proof {
            let want = Seq::new((k + 1) as nat, |i: int| column_name(g, columns(g)[i]));
            assert forall|i: int| 0 <= i < k + 1 implies cells_view(out@)[i] == want[i] by {
                if i < k {
                    assert(out@[i] == before[i]);
                    assert(cells_view(before)[i] == before[i]@);
                }
            }
            assert(cells_view(out@) =~= want);
        }
        k = k + 1;
    }
    assert(cells_view(out@) =~= console_header_spec(g));
    out
}

/// Flattens a console record into its row.
pub fn console_cells(r: &ConsoleRecord) -> (row: Vec<String>)
    ensures
        cells_view(row@) == console_row(*r),
{
    let cols = columns_of(r.generation);
    let mut out: Vec<String> = Vec::new();
    assert(cells_view(out@) =~= Seq::new(0nat, |i: int| cell(*r, columns(r.generation)[i])));
    let mut k: usize = 0;
    while k < cols.len()
        invariant
            cols@ == columns(r.generation),
            k <= cols@.len(),
            out@.len() == k,
            cells_view(out@) == Seq::new(k as nat, |i: int| cell(*r, columns(r.generation)[i])),
        decreases cols@.len() - k,
    {
        let ghost before = out@;
        let text = cell_text(r, cols[k]);
        out.push(text);
        proof {
            let want = Seq::new((k + 1) as nat, |i: int| cell(*r, columns(r.generation)[i]));
            assert forall|i: int| 0 <= i < k + 1 implies cells_view(out@)[i] == want[i] by {
                if i < k {
                    assert(out@[i] == before[i]);
                    assert(cells_view(before)[i] == before[i]@);
                }
            }
            assert(cells_view(out@) =~= want);
        }
        k = k + 1;
    }
    assert(cells_view(out@) =~= console_row(*r));
    out
}

/// Reading a row back by column name: the header and the row of a record
/// have the same length, and under the name of each column of the
/// generation stands that column's cell.
pub proof fn lemma_header_matches_row(r: ConsoleRecord)
    ensures
        console_header_spec(r.generation).len() == console_row(r).len(),
        forall|i: int|
            0 <= i < columns(r.generation).len() ==> console_header_spec(r.generation)[i]
                == column_name(r.generation, columns(r.generation)[i]) && #[trigger] console_row(
                r,
            )[i] == cell(r, columns(r.generation)[i]),
{
}

/// Flattening an assembled record: every field of the submission appears in
/// its column as given, an absent field as an empty cell, and each slot's
/// component under its label column (all its cells empty for an empty slot).
pub proof fn lemma_console_round_trip(
    reg: Registry,
    g: Generation,
    input: ConsoleInput,
    rec: ConsoleRecord,
)
    requires
        console_record_ok(rec, reg, g, input),
    ensures
        rec.generation == g,
        cell(rec, Column::Slug) == input.slug@,
        cell(rec, Column::Contributor) == input.contributor@,
        cell(rec, Column::Color) == opt_cell(opt_view(input.color)),
        cell(rec, Column::ReleaseCode) == opt_cell(opt_view(input.release_code)),
        cell(rec, Column::Stamp) == opt_cell(opt_view(input.shell_stamp)),
        cell(rec, Column::BoardType) == input.mainboard.label@,
        cell(rec, Column::BoardCircledLetters) == opt_cell(
            opt_view(input.mainboard.circled_letters),
        ),
        cell(rec, Column::BoardNumberPair) == opt_cell(opt_view(input.mainboard.number_pair)),
        cell(rec, Column::BoardLetterAtTopRight) == opt_cell(
            opt_view(input.mainboard.letter_at_top_right),
        ),
        cell(rec, Column::BoardExtraLabel) == opt_cell(opt_view(input.mainboard.extra_label)),
        cell(rec, Column::BoardStamp) == opt_cell(opt_view(input.mainboard.stamp)),
        cell(rec, Column::BoardStampFront) == opt_cell(opt_view(input.mainboard.stamp_front)),
        cell(rec, Column::BoardStampBack) == opt_cell(opt_view(input.mainboard.stamp_back)),
        cell(rec, Column::BoardDate(DateCol::Year)) == u16_cell(input.mainboard.year),
        cell(rec, Column::BoardDate(DateCol::Month)) == u8_cell(input.mainboard.month),
        cell(rec, Column::Date(DateCol::Year)) == u16_cell(rec.date.year),
        forall|i: usize|
            (i as int) < slot_families(g, input.mainboard.label@).len() ==> #[trigger] cell(
                rec,
                Column::Slot(i, ChipCol::Label),
            ) == opt_cell(opt_view(input.mainboard.parts@[i as int])),
        forall|i: usize, c: ChipCol|
            (i as int) < slot_families(g, input.mainboard.label@).len()
                && input.mainboard.parts@[i as int] is None ==> #[trigger] cell(
                rec,
                Column::Slot(i, c),
            ) == Seq::<char>::empty(),
        cell(rec, Column::PowerType) == opt_cell(
            match input.power_board {
                Some(p) => Some(p.kind@),
                None => None,
            },
        ),
        cell(rec, Column::JackType) == opt_cell(
            match input.jack_board {
                Some(j) => Some(j.kind@),
                None => None,
            },
        ),
{
    assert forall|i: usize|
        (i as int) < slot_families(g, input.mainboard.label@).len() implies #[trigger] cell(
        rec,
        Column::Slot(i, ChipCol::Label),
    ) == opt_cell(opt_view(input.mainboard.parts@[i as int])) by {
        assert(part_is(
            rec.parts@[i as int],
            reg,
            slot_families(g, input.mainboard.label@)[i as int],
            opt_view(input.mainboard.parts@[i as int]),
            slot_hint(reg, g, input, i as int),
        ));
    }
    assert forall|i: usize, c: ChipCol|
        (i as int) < slot_families(g, input.mainboard.label@).len()
            && input.mainboard.parts@[i as int] is None implies #[trigger] cell(
        rec,
        Column::Slot(i, c),
    ) == Seq::<char>::empty() by {
        assert(part_is(
            rec.parts@[i as int],
            reg,
            slot_families(g, input.mainboard.label@)[i as int],
            opt_view(input.mainboard.parts@[i as int]),
            slot_hint(reg, g, input, i as int),
        ));
    }
}

} // verus!
