//! Reference ROM lists: which platform a game name belongs to, and the
//! configuration entries that disagree with the lists.

use vstd::prelude::*;
use crate::cartridge::{BoardLayout, GameConfig, GamePlatform};

verus! {

/// One reference list: its header, version and game names.
pub struct DatFile {
    pub header: String,
    pub version: String,
    pub names: Vec<String>,
}

/// The reference lists of the three platforms.
pub struct Dats {
    pub gb: DatFile,
    pub gbc: DatFile,
    pub gba: DatFile,
}

pub open spec fn names_view(v: Seq<String>) -> Seq<Seq<char>> {
    Seq::new(v.len(), |i: int| v[i]@)
}

pub open spec fn listed(d: DatFile, name: Seq<char>) -> bool {
    names_view(d.names@).contains(name)
}

/// The platform whose list alone holds `name`.
pub open spec fn platform_of(dats: Dats, name: Seq<char>) -> Option<GamePlatform> {
    match (listed(dats.gb, name), listed(dats.gbc, name), listed(dats.gba, name)) {
        (true, false, false) => Some(GamePlatform::Gb),
        (false, true, false) => Some(GamePlatform::Gbc),
        (false, false, true) => Some(GamePlatform::Gba),
        _ => None,
    }
}

proof fn lemma_push_contains<A>(s: Seq<A>, x: A, n: A)
    ensures
        s.push(x).contains(n) <==> (s.contains(n) || n == x),
{
    if s.push(x).contains(n) {
        let q = choose|q: int| 0 <= q < s.push(x).len() && s.push(x)[q] == n;
        if q < s.len() {
            assert(s[q] == n);
        }
    }
    if s.contains(n) {
        let q = choose|q: int| 0 <= q < s.len() && s[q] == n;
        assert(s.push(x)[q] == n);
    }
    if n == x {
        assert(s.push(x)[s.len() as int] == n);
    }
}

/// The names of `s` without repeats, each where it first appears.
pub open spec fn distinct_names(s: Seq<Seq<char>>) -> Seq<Seq<char>>
    decreases s.len(),
{
    if s.len() == 0 {
        seq![]
    } else {
        let d = distinct_names(s.drop_last());
        if d.contains(s.last()) {
            d
        } else {
            d.push(s.last())
        }
    }
}

proof fn lemma_distinct_names(s: Seq<Seq<char>>)
    ensures
        forall|n: Seq<char>| distinct_names(s).contains(n) <==> s.contains(n),
        forall|i: int, j: int|
            0 <= i < j < distinct_names(s).len() ==> #[trigger] distinct_names(s)[i]
                != #[trigger] distinct_names(s)[j],
    decreases s.len(),
{
    if s.len() > 0 {
        let t = s.drop_last();
        lemma_distinct_names(t);
        assert(s =~= t.push(s.last()));
        let d = distinct_names(t);
        assert forall|n: Seq<char>| distinct_names(s).contains(n) <==> s.contains(n) by {
            lemma_push_contains(t, s.last(), n);
            lemma_push_contains(d, s.last(), n);
        }
        if !d.contains(s.last()) {
            assert forall|i: int, j: int|
                0 <= i < j < distinct_names(s).len() implies #[trigger] distinct_names(s)[i]
                != #[trigger] distinct_names(s)[j] by {
                if j == d.len() {
                    assert(distinct_names(s)[i] == d[i]);
                }
            }
        }
    }
}

fn contains_name(names: &Vec<String>, name: &String) -> (r: bool)
    ensures
        r == names_view(names@).contains(name@),
{
    let mut k: usize = 0;
    while k < names.len()
        invariant
            k <= names@.len(),
            forall|q: int| 0 <= q < k ==> names@[q]@ != name@,
        decreases names@.len() - k,
    {
        if names[k] == *name {
            assert(names_view(names@)[k as int] == name@);
            return true;
        }
        k = k + 1;
    }
    assert(!names_view(names@).contains(name@)) by {
        if names_view(names@).contains(name@) {
            let q = choose|q: int| 0 <= q < names_view(names@).len() && names_view(names@)[q] == name@;
            assert(names@[q]@ == name@);
        }
    }
    false
}

impl Dats {
    /// The platform of a game name: the one list that holds it, if exactly
    /// one does.
    pub fn get_platform(&self, name: &str) -> (r: Option<GamePlatform>)
        ensures
            r == platform_of(*self, name@),
    {
        let name = name.to_owned();
        let gb = contains_name(&self.gb.names, &name);
        let gbc = contains_name(&self.gbc.names, &name);
        let gba = contains_name(&self.gba.names, &name);
        if gb && !gbc && !gba {
            Some(GamePlatform::Gb)
        } else if !gb && gbc && !gba {
            Some(GamePlatform::Gbc)
        } else if !gb && !gbc && gba {
            Some(GamePlatform::Gba)
        } else {
            None
        }
    }

    /// Every name of the three lists, each once, in order of first appearance.
    pub fn all_names(&self) -> (r: Vec<String>)
        ensures
            names_view(r@) == distinct_names(
                names_view(self.gb.names@) + names_view(self.gbc.names@) + names_view(
                    self.gba.names@,
                ),
            ),
            forall|n: Seq<char>|
                names_view(r@).contains(n) <==> (listed(self.gb, n) || listed(self.gbc, n) || listed(
                    self.gba,
                    n,
                )),
            forall|i: int, j: int|
                0 <= i < j < r@.len() ==> (#[trigger] r@[i])@ != (#[trigger] r@[j])@,
    {
        let mut all: Vec<String> = Vec::new();
        assert(names_view(all@) =~= Seq::<Seq<char>>::empty());
        add_names(&mut all, &self.gb.names);
        add_names(&mut all, &self.gbc.names);
        add_names(&mut all, &self.gba.names);
        let ghost a = names_view(self.gb.names@);
        let ghost b = names_view(self.gbc.names@);
        let ghost c = names_view(self.gba.names@);
        assert(names_view(all@) =~= a + b + c);
        let mut out: Vec<String> = Vec::new();
        let mut k: usize = 0;
        assert(names_view(all@).subrange(0, 0) =~= Seq::<Seq<char>>::empty());
        assert(names_view(out@) =~= Seq::<Seq<char>>::empty());
        while k < all.len()
            invariant
                k <= all@.len(),
                names_view(out@) == distinct_names(names_view(all@).subrange(0, k as int)),
            decreases all@.len() - k,
        {
            let ghost pre = names_view(all@).subrange(0, k + 1);
            assert(pre.drop_last() =~= names_view(all@).subrange(0, k as int));
            assert(pre.last() == all@[k as int]@);
            let present = contains_name(&out, &all[k]);
            if !present {
                let ghost before = out@;
                out.push(all[k].clone());
                assert(names_view(out@) =~= names_view(before).push(all@[k as int]@));
            }
            k = k + 1;
        }
        proof {
            assert(names_view(all@).subrange(0, k as int) =~= names_view(all@));
            lemma_distinct_names(a + b + c);
            assert forall|n: Seq<char>|
                names_view(out@).contains(n) <==> (a.contains(n) || b.contains(n) || c.contains(
                    n,
                )) by {
                lemma_concat_contains(a, b, n);
                lemma_concat_contains(a + b, c, n);
            }
            assert forall|i: int, j: int| 0 <= i < j < out@.len() implies (#[trigger] out@[i])@
                != (#[trigger] out@[j])@ by {
                assert(names_view(out@)[i] == out@[i]@ && names_view(out@)[j] == out@[j]@);
            }
        }
        out
    }

    /// Every game of the three lists with its platform, in list order.
    pub fn all_games(&self) -> (r: Vec<(GamePlatform, String)>)
        ensures
            games_view(r@) == tagged(GamePlatform::Gb, self.gb.names@) + tagged(
                GamePlatform::Gbc,
                self.gbc.names@,
            ) + tagged(GamePlatform::Gba, self.gba.names@),
    {
        let mut out: Vec<(GamePlatform, String)> = Vec::new();
        assert(games_view(out@) =~= Seq::<(GamePlatform, Seq<char>)>::empty());
        add_games(&mut out, GamePlatform::Gb, &self.gb.names);
        add_games(&mut out, GamePlatform::Gbc, &self.gbc.names);
        add_games(&mut out, GamePlatform::Gba, &self.gba.names);
        assert(games_view(out@) =~= tagged(GamePlatform::Gb, self.gb.names@) + tagged(
            GamePlatform::Gbc,
            self.gbc.names@,
        ) + tagged(GamePlatform::Gba, self.gba.names@));
        out
    }
}

pub open spec fn games_view(v: Seq<(GamePlatform, String)>) -> Seq<(GamePlatform, Seq<char>)> {
    Seq::new(v.len(), |i: int| (v[i].0, v[i].1@))
}

/// Each name of a list with the list's platform.
pub open spec fn tagged(p: GamePlatform, names: Seq<String>) -> Seq<(GamePlatform, Seq<char>)> {
    Seq::new(names.len(), |i: int| (p, names[i]@))
}

proof fn lemma_concat_contains<A>(a: Seq<A>, b: Seq<A>, n: A)
    ensures
        (a + b).contains(n) <==> (a.contains(n) || b.contains(n)),
{
    if (a + b).contains(n) {
        let q = choose|q: int| 0 <= q < (a + b).len() && (a + b)[q] == n;
        if q < a.len() {
            assert(a[q] == n);
        } else {
            assert(b[q - a.len()] == n);
        }
    }
    if a.contains(n) {
        let q = choose|q: int| 0 <= q < a.len() && a[q] == n;
        assert((a + b)[q] == n);
    }
    if b.contains(n) {
        let q = choose|q: int| 0 <= q < b.len() && b[q] == n;
        assert((a + b)[a.len() + q] == n);
    }
}

fn add_games(out: &mut Vec<(GamePlatform, String)>, p: GamePlatform, names: &Vec<String>)
    ensures
        games_view(final(out)@) == games_view(old(out)@) + tagged(p, names@),
{
    let ghost start = out@;
    let mut k: usize = 0;
    while k < names.len()
        invariant
            k <= names@.len(),
            games_view(out@) =~= games_view(start) + tagged(p, names@.subrange(0, k as int)),
        decreases names@.len() - k,
    {
        let ghost before = out@;
        out.push((p, names[k].clone()));
        proof {
            assert(games_view(out@) =~= games_view(before).push((p, names@[k as int]@)));
            assert(tagged(p, names@.subrange(0, k + 1)) =~= tagged(
                p,
                names@.subrange(0, k as int),
            ).push((p, names@[k as int]@)));
        }
        k = k + 1;
    }
    assert(names@.subrange(0, k as int) =~= names@);
}

fn add_names(out: &mut Vec<String>, names: &Vec<String>)
    ensures
        names_view(final(out)@) == names_view(old(out)@) + names_view(names@),
{
    let ghost start = out@;
    let mut k: usize = 0;
    while k < names.len()
        invariant
            k <= names@.len(),
            names_view(out@) =~= names_view(start) + names_view(names@.subrange(0, k as int)),
        decreases names@.len() - k,
    {
        let ghost before = out@;
        out.push(names[k].clone());
        proof {
            assert(names_view(out@) =~= names_view(before).push(names@[k as int]@));
            assert(names_view(names@.subrange(0, k + 1)) =~= names_view(
                names@.subrange(0, k as int),
            ).push(names@[k as int]@));
        }
        k = k + 1;
    }
    assert(names@.subrange(0, k as int) =~= names@);
}

/// Positions of the configurations whose name is in none of the lists.
pub fn name_problems(cfgs: &Vec<GameConfig>, dats: &Dats) -> (r: Vec<usize>)
    ensures
        forall|i: int, j: int| 0 <= i < j < r@.len() ==> r@[i] < r@[j],
        forall|i: int|
            0 <= i < r@.len() ==> r@[i] < cfgs@.len() && platform_unlisted(
                *dats,
                cfgs@[r@[i] as int].name@,
            ),
        forall|k: int|
            0 <= k < cfgs@.len() && platform_unlisted(*dats, #[trigger] cfgs@[k].name@)
                ==> r@.contains(k as usize),
{
    let mut out: Vec<usize> = Vec::new();
    let mut k: usize = 0;
    while k < cfgs.len()
        invariant
            k <= cfgs@.len(),
            forall|i: int, j: int| 0 <= i < j < out@.len() ==> out@[i] < out@[j],
            forall|i: int| 0 <= i < out@.len() ==> out@[i] < k,
            forall|i: int|
                0 <= i < out@.len() ==> out@[i] < cfgs@.len() && platform_unlisted(
                    *dats,
                    cfgs@[out@[i] as int].name@,
                ),
            forall|q: int|
                0 <= q < k && platform_unlisted(*dats, #[trigger] cfgs@[q].name@) ==> out@.contains(
                    q as usize,
                ),
        decreases cfgs@.len() - k,
    {
        let n = &cfgs[k].name;
        let listed_any = contains_name(&dats.gb.names, n) || contains_name(&dats.gbc.names, n)
            || contains_name(&dats.gba.names, n);
        let ghost before = out@;
        if !listed_any {
            out.push(k);
            proof {
                assert(out@[out@.len() - 1] == k);
                assert forall|q: int|
                    0 <= q < k + 1 && platform_unlisted(*dats, #[trigger] cfgs@[q].name@)
                        implies out@.contains(q as usize) by {
                    lemma_push_contains(before, k, q as usize);
                }
                assert forall|i: int| 0 <= i < out@.len() implies out@[i] < cfgs@.len()
                    && platform_unlisted(*dats, cfgs@[out@[i] as int].name@) by {
                    if i < before.len() {
                        assert(out@[i] == before[i]);
                    }
                }
            }
        }
        k = k + 1;
    }
    out
}

/// No list holds the name.
pub open spec fn platform_unlisted(dats: Dats, name: Seq<char>) -> bool {
    !listed(dats.gb, name) && !listed(dats.gbc, name) && !listed(dats.gba, name)
}

/// The configurations whose platform differs from the one the lists give,
/// with that platform.
pub fn platform_problems(cfgs: &Vec<GameConfig>, dats: &Dats) -> (r: Vec<(usize, GamePlatform)>)
    ensures
        forall|i: int, j: int| 0 <= i < j < r@.len() ==> r@[i].0 < r@[j].0,
        forall|i: int|
            0 <= i < r@.len() ==> r@[i].0 < cfgs@.len() && platform_of(
                *dats,
                cfgs@[r@[i].0 as int].name@,
            ) == Some(r@[i].1) && r@[i].1 != cfgs@[r@[i].0 as int].platform,
        forall|k: int|
            0 <= k < cfgs@.len() && platform_of(*dats, #[trigger] cfgs@[k].name@) is Some
                && platform_of(*dats, cfgs@[k].name@)->0 != cfgs@[k].platform ==> r@.contains(
                (k as usize, platform_of(*dats, cfgs@[k].name@)->0),
            ),
{
    let mut out: Vec<(usize, GamePlatform)> = Vec::new();
    let mut k: usize = 0;
    while k < cfgs.len()
        invariant
            k <= cfgs@.len(),
            forall|i: int, j: int| 0 <= i < j < out@.len() ==> out@[i].0 < out@[j].0,
            forall|i: int| 0 <= i < out@.len() ==> out@[i].0 < k,
            forall|i: int|
                0 <= i < out@.len() ==> out@[i].0 < cfgs@.len() && platform_of(
                    *dats,
                    cfgs@[out@[i].0 as int].name@,
                ) == Some(out@[i].1) && out@[i].1 != cfgs@[out@[i].0 as int].platform,
            forall|q: int|
                0 <= q < k && platform_of(*dats, #[trigger] cfgs@[q].name@) is Some
                    && platform_of(*dats, cfgs@[q].name@)->0 != cfgs@[q].platform ==> out@.contains(
                    (q as usize, platform_of(*dats, cfgs@[q].name@)->0),
                ),
        decreases cfgs@.len() - k,
    {
        match dats.get_platform(cfgs[k].name.as_str()) {
            Some(p) => {
                if p != cfgs[k].platform {
                    let ghost before = out@;
                    out.push((k, p));
                    proof {
                        assert(out@[out@.len() - 1] == (k, p));
                        assert forall|q: int|
                            0 <= q < k + 1 && platform_of(*dats, #[trigger] cfgs@[q].name@) is Some
                                && platform_of(*dats, cfgs@[q].name@)->0 != cfgs@[q].platform
                                implies out@.contains(
                            (q as usize, platform_of(*dats, cfgs@[q].name@)->0),
                        ) by {
                            lemma_push_contains(
                                before,
                                (k, p),
                                (q as usize, platform_of(*dats, cfgs@[q].name@)->0),
                            );
                        }
                        assert forall|i: int| 0 <= i < out@.len() implies out@[i].0 < cfgs@.len()
                            && platform_of(*dats, cfgs@[out@[i].0 as int].name@) == Some(out@[i].1)
                            && out@[i].1 != cfgs@[out@[i].0 as int].platform by {
                            if i < before.len() {
                                assert(out@[i] == before[i]);
                            }
                        }
                    }
                }
            },
            None => {},
        }
        k = k + 1;
    }
    out
}

/// The layout proposed for a new game of a platform.
pub fn default_layout(p: GamePlatform) -> (r: BoardLayout)
    ensures
        r == match p {
            GamePlatform::Gbc => BoardLayout::RomMapperRam,
            _ => BoardLayout::RomMapper,
        },
{
    match p {
        GamePlatform::Gb => BoardLayout::RomMapper,
        GamePlatform::Gbc => BoardLayout::RomMapperRam,
        GamePlatform::Gba => BoardLayout::RomMapper,
    }
}

} // verus!
