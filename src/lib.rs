//! Decoding of transcribed hardware markings into manufacturer and date facts,
//! and assembly of per-unit submission records from them.

pub mod batch;
pub mod cartridge;
pub mod columns;
pub mod console;
pub mod dat;
pub mod date;
pub mod decoders;
pub mod fault;
pub mod flatten;
pub mod grammar;
pub mod order;
pub mod part;
pub mod site;
pub mod stamp;
pub mod text;
pub mod year;
