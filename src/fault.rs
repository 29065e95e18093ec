//! Assembly failures, and small helpers on optional text.

use vstd::prelude::*;
use crate::part::{BadField, DecodeError};
use crate::stamp::{StampError, StampFault};

verus! {

/// The invariant or decode step that refused a submission.
#[derive(Clone, Copy, Debug, PartialEq, Eq, Structural)]
pub enum Fault {
    /// The folder's name differs from the record's slug.
    SlugMismatch,
    /// The record's serial differs from its slug.
    SerialMismatch,
    /// No configuration exists for the cartridge code.
    UnknownCode,
    /// The board label names no known layout.
    UnknownLayout,
    /// The board layout is not among the configuration's layouts.
    LayoutMismatch,
    /// The board year lies outside the plausible years.
    YearOutOfRange,
    /// The dump checksum differs from the configuration's.
    ChecksumMismatch,
    /// The number of component labels differs from the board's slots.
    SlotCount,
    /// A unit has neither a serial nor an index to be titled by.
    MissingIndex,
    /// A component label matched a format whose field is impossible.
    Part(BadField),
    /// A stamp could not be read.
    Stamp(StampFault),
}

/// A refused submission: its folder, the fault, and the offending value (a
/// slug, a code, a label or a stamp).
pub struct AssembleError {
    pub folder: String,
    pub fault: Fault,
    pub subject: String,
}

pub open spec fn opt_view(o: Option<String>) -> Option<Seq<char>> {
    match o {
        Some(s) => Some(s@),
        None => None,
    }
}

/// A copy of an optional string.
pub fn copy_opt(o: &Option<String>) -> (r: Option<String>)
    ensures
        opt_view(r) == opt_view(*o),
{
    match o {
        Some(s) => Some(s.clone()),
        None => None,
    }
}

/// The error for a refused component label.
pub fn part_error(folder: &str, e: DecodeError) -> (r: AssembleError)
    ensures
        r.folder@ == folder@,
        r.fault == Fault::Part(e.field),
        r.subject@ == e.label@,
{
    AssembleError { folder: folder.to_owned(), fault: Fault::Part(e.field), subject: e.label }
}

/// The error for a refused stamp.
pub fn stamp_error(folder: &str, e: StampError) -> (r: AssembleError)
    ensures
        r.folder@ == folder@,
        r.fault == Fault::Stamp(e.fault),
        r.subject@ == e.label@,
{
    AssembleError { folder: folder.to_owned(), fault: Fault::Stamp(e.fault), subject: e.label }
}

/// An error about `subject` in `folder`.
pub fn fail(folder: &str, fault: Fault, subject: &str) -> (r: AssembleError)
    ensures
        r.folder@ == folder@,
        r.fault == fault,
        r.subject@ == subject@,
{
    AssembleError { folder: folder.to_owned(), fault, subject: subject.to_owned() }
}

} // verus!
