//! Whole-batch assembly: every submission is assembled, the first refusal
//! aborts the batch, and the accepted records are put in their final order.

use vstd::prelude::*;
use crate::cartridge::{
    CartridgeInput,
    CartridgeRecord,
    GameConfig,
    assemble_cartridge,
    cartridge_fault,
    cartridge_record_ok,
    cartridge_subject,
};
use crate::console::{
    ConsoleInput,
    ConsoleRecord,
    Generation,
    SortGroup,
    assemble_console,
    console_fault,
    console_record_ok,
};
use crate::decoders::{Registry, registry_wf};
use crate::fault::AssembleError;
use crate::grammar::chars_of;
use crate::order::{SortKeyed, key_lt, lemma_lex_total, sort_by_key, sorted_by_key, stable_arrangement};

verus! {

impl SortKeyed for CartridgeRecord {
    /// Cartridges are ordered by code, then slug.
    open spec fn sort_key(&self) -> (Seq<char>, Seq<char>) {
        (self.code@, self.slug@)
    }

    fn key_parts(&self) -> (r: (Vec<char>, Vec<char>)) {
        (chars_of(self.code.as_str()), chars_of(self.slug.as_str()))
    }
}

/// The text a sort group orders by; ungrouped records come first.
pub open spec fn group_text(g: Option<SortGroup>) -> Seq<char> {
    match g {
        None => seq![],
        Some(SortGroup::A) => seq!['A'],
        Some(SortGroup::B) => seq!['B'],
        Some(SortGroup::C) => seq!['C'],
        Some(SortGroup::D) => seq!['D'],
    }
}

fn group_chars(g: Option<SortGroup>) -> (r: Vec<char>)
    ensures
        r@ == group_text(g),
{
    let mut v: Vec<char> = Vec::new();
    match g {
        None => {},
        Some(SortGroup::A) => v.push('A'),
        Some(SortGroup::B) => v.push('B'),
        Some(SortGroup::C) => v.push('C'),
        Some(SortGroup::D) => v.push('D'),
    }
    assert(v@ =~= group_text(g));
    v
}

impl SortKeyed for ConsoleRecord {
    /// Consoles are ordered by sort group, then slug.
    open spec fn sort_key(&self) -> (Seq<char>, Seq<char>) {
        (group_text(self.sort_group), self.slug@)
    }

    fn key_parts(&self) -> (r: (Vec<char>, Vec<char>)) {
        (group_chars(self.sort_group), chars_of(self.slug.as_str()))
    }
}

/// A cartridge submission and the folder it was found in.
pub struct FoundCartridge {
    pub folder: String,
    pub input: CartridgeInput,
}

/// A console submission and the folder it was found in.
pub struct FoundConsole {
    pub folder: String,
    pub input: ConsoleInput,
}

/// The first cartridge submission that is refused.
pub open spec fn first_refused_cartridge(
    subs: Seq<FoundCartridge>,
    cfgs: Seq<GameConfig>,
    i: int,
) -> Option<int>
    decreases subs.len() - i,
{
    if i < 0 || i >= subs.len() {
        None
    } else if cartridge_fault(subs[i].input, subs[i].folder@, cfgs) is Some {
        Some(i)
    } else {
        first_refused_cartridge(subs, cfgs, i + 1)
    }
}

/// Assembles every cartridge submission. The first refused one aborts the
/// batch with its error; otherwise the records come ordered by code and slug.
pub fn process_cartridges(subs: &Vec<FoundCartridge>, cfgs: &Vec<GameConfig>) -> (r: Result<
    Vec<CartridgeRecord>,
    AssembleError,
>)
    ensures
        match first_refused_cartridge(subs@, cfgs@, 0) {
            Some(i) => match r {
                Err(e) => {
                    let f = cartridge_fault(subs@[i].input, subs@[i].folder@, cfgs@)->0;
                    &&& e.fault == f
                    &&& e.folder@ == subs@[i].folder@
                    &&& e.subject@ == cartridge_subject(subs@[i].input, f)
                },
                Ok(_) => false,
            },
            None => match r {
                Ok(v) => {
                    &&& sorted_by_key(v@)
                    &&& exists|a: Seq<CartridgeRecord>|
                        {
                            &&& a.len() == subs@.len()
                            &&& #[trigger] a.to_multiset() == v@.to_multiset()
                            &&& forall|k: int|
                                0 <= k < a.len() ==> cartridge_record_ok(
                                    #[trigger] a[k],
                                    subs@[k].input,
                                    cfgs@,
                                )
                            &&& exists|perm: Seq<int>| #[trigger] stable_arrangement(perm, a, v@)
                        }
                },
                Err(_) => false,
            },
        },
{
    let mut out: Vec<CartridgeRecord> = Vec::new();
    let mut i: usize = 0;
    while i < subs.len()
        invariant
            i <= subs@.len(),
            out@.len() == i,
            first_refused_cartridge(subs@, cfgs@, 0) == first_refused_cartridge(
                subs@,
                cfgs@,
                i as int,
            ),
            forall|k: int|
                0 <= k < i ==> cartridge_record_ok(#[trigger] out@[k], subs@[k].input, cfgs@),
        decreases subs@.len() - i,
    {
        match assemble_cartridge(&subs[i].input, subs[i].folder.as_str(), cfgs) {
            Ok(rec) => {
                out.push(rec);
            },
            Err(e) => {
                return Err(e);
            },
        }
        i = i + 1;
    }
    let ghost a = out@;
    let sorted = sort_by_key(out);
    assert(a.len() == subs@.len());
    Ok(sorted)
}

/// The first console submission that is refused.
pub open spec fn first_refused_console(
    reg: Registry,
    g: Generation,
    subs: Seq<FoundConsole>,
    i: int,
) -> Option<int>
    decreases subs.len() - i,
{
    if i < 0 || i >= subs.len() {
        None
    } else if console_fault(reg, g, subs[i].input, subs[i].folder@) is Some {
        Some(i)
    } else {
        first_refused_console(reg, g, subs, i + 1)
    }
}

/// Assembles every console submission of a generation. The first refused one
/// aborts the batch with its error; otherwise the records come ordered by
/// sort group and slug.
pub fn process_consoles(reg: &Registry, g: Generation, subs: &Vec<FoundConsole>) -> (r: Result<
    Vec<ConsoleRecord>,
    AssembleError,
>)
    requires
        registry_wf(*reg),
    ensures
        match first_refused_console(*reg, g, subs@, 0) {
            Some(i) => match r {
                Err(e) => {
                    let (f, subject) = console_fault(*reg, g, subs@[i].input, subs@[i].folder@)->0;
                    &&& e.fault == f
                    &&& e.folder@ == subs@[i].folder@
                    &&& e.subject@ == subject
                },
                Ok(_) => false,
            },
            None => match r {
                Ok(v) => {
                    &&& sorted_by_key(v@)
                    &&& exists|a: Seq<ConsoleRecord>|
                        {
                            &&& a.len() == subs@.len()
                            &&& #[trigger] a.to_multiset() == v@.to_multiset()
                            &&& forall|k: int|
                                0 <= k < a.len() ==> console_record_ok(
                                    #[trigger] a[k],
                                    *reg,
                                    g,
                                    subs@[k].input,
                                )
                            &&& exists|perm: Seq<int>| #[trigger] stable_arrangement(perm, a, v@)
                        }
                },
                Err(_) => false,
            },
        },
{
    let mut out: Vec<ConsoleRecord> = Vec::new();
    let mut i: usize = 0;
    while i < subs.len()
        invariant
            registry_wf(*reg),
            i <= subs@.len(),
            out@.len() == i,
            first_refused_console(*reg, g, subs@, 0) == first_refused_console(
                *reg,
                g,
                subs@,
                i as int,
            ),
            forall|k: int|
                0 <= k < i ==> console_record_ok(#[trigger] out@[k], *reg, g, subs@[k].input),
        decreases subs@.len() - i,
    {
        match assemble_console(reg, g, &subs[i].input, subs[i].folder.as_str()) {
            Ok(rec) => {
                out.push(rec);
            },
            Err(e) => {
                return Err(e);
            },
        }
        i = i + 1;
    }
    let ghost a = out@;
    let sorted = sort_by_key(out);
    assert(a.len() == subs@.len());
    Ok(sorted)
}

} // verus!

verus! {

/// Accepted cartridges come in a total lexicographic order on code, then
/// slug; submissions sharing both keep the order in which they were found.
pub proof fn lemma_cartridge_order(
    found: Seq<CartridgeRecord>,
    perm: Seq<int>,
    v: Seq<CartridgeRecord>,
    i: int,
    j: int,
)
    requires
        sorted_by_key(v),
        stable_arrangement(perm, found, v),
        0 <= i < j < v.len(),
    ensures
        !key_lt((v[j].code@, v[j].slug@), (v[i].code@, v[i].slug@)),
        v[i].code@ == v[j].code@ && v[i].slug@ == v[j].slug@ ==> perm[i] < perm[j],
        v[i].code@ != v[j].code@ || v[i].slug@ != v[j].slug@ ==> key_lt(
            (v[i].code@, v[i].slug@),
            (v[j].code@, v[j].slug@),
        ),
{
    assert(v[i].sort_key() == (v[i].code@, v[i].slug@));
    assert(v[j].sort_key() == (v[j].code@, v[j].slug@));
    lemma_lex_total(v[i].code@, v[j].code@);
    lemma_lex_total(v[i].slug@, v[j].slug@);
}

} // verus!
