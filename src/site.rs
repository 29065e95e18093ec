//! The accepted records of a whole run, and their counts.

use vstd::prelude::*;
use crate::cartridge::{CartridgeRecord, GameConfig};
use crate::console::{ConsoleRecord, Generation};

verus! {

/// Everything a run accepted: the configurations and the records of each
/// kind, in final order.
pub struct SiteData {
    pub cfgs: Vec<GameConfig>,
    pub cartridges: Vec<CartridgeRecord>,
    pub dmg: Vec<ConsoleRecord>,
    pub sgb: Vec<ConsoleRecord>,
    pub mgb: Vec<ConsoleRecord>,
    pub mgl: Vec<ConsoleRecord>,
    pub sgb2: Vec<ConsoleRecord>,
    pub cgb: Vec<ConsoleRecord>,
    pub agb: Vec<ConsoleRecord>,
    pub ags: Vec<ConsoleRecord>,
    pub gbs: Vec<ConsoleRecord>,
    pub oxy: Vec<ConsoleRecord>,
}

/// Number of accepted submissions: cartridges, and consoles per generation.
pub struct SubmissionCounts {
    pub cartridges: usize,
    pub consoles: Vec<(Generation, usize)>,
}

impl SiteData {
    /// The number of records of each kind, consoles in generation order.
    pub fn counts(&self) -> (r: SubmissionCounts)
        ensures
            r.cartridges == self.cartridges@.len(),
            r.consoles@ == seq![
                (Generation::Dmg, self.dmg@.len() as usize),
                (Generation::Sgb, self.sgb@.len() as usize),
                (Generation::Mgb, self.mgb@.len() as usize),
                (Generation::Mgl, self.mgl@.len() as usize),
                (Generation::Sgb2, self.sgb2@.len() as usize),
                (Generation::Cgb, self.cgb@.len() as usize),
                (Generation::Agb, self.agb@.len() as usize),
                (Generation::Ags, self.ags@.len() as usize),
                (Generation::Gbs, self.gbs@.len() as usize),
                (Generation::Oxy, self.oxy@.len() as usize),
            ],
    {
        let consoles = vec![
            (Generation::Dmg, self.dmg.len()),
            (Generation::Sgb, self.sgb.len()),
            (Generation::Mgb, self.mgb.len()),
            (Generation::Mgl, self.mgl.len()),
            (Generation::Sgb2, self.sgb2.len()),
            (Generation::Cgb, self.cgb.len()),
            (Generation::Agb, self.agb.len()),
            (Generation::Ags, self.ags.len()),
            (Generation::Gbs, self.gbs.len()),
            (Generation::Oxy, self.oxy.len()),
        ];
        assert(consoles@ =~= seq![
            (Generation::Dmg, self.dmg@.len() as usize),
            (Generation::Sgb, self.sgb@.len() as usize),
            (Generation::Mgb, self.mgb@.len() as usize),
            (Generation::Mgl, self.mgl@.len() as usize),
            (Generation::Sgb2, self.sgb2@.len() as usize),
            (Generation::Cgb, self.cgb@.len() as usize),
            (Generation::Agb, self.agb@.len() as usize),
            (Generation::Ags, self.ags@.len() as usize),
            (Generation::Gbs, self.gbs@.len() as usize),
            (Generation::Oxy, self.oxy@.len() as usize),
        ]);
        SubmissionCounts { cartridges: self.cartridges.len(), consoles }
    }
}

} // verus!
