//! The parameter table: which configuration each pad spawns.

use vstd::prelude::*;
use crate::config::default_config;
use crate::config::EntityConfig;

verus! {

/// How many pads the grid has.
pub const PADS: u8 = 64;

/// A mapping from pad index to configuration.
///
/// Only pads of the grid have an entry. Reading the entry of a pad that
/// has none through [`ParameterTable::get_or_default`] creates it.
pub struct ParameterTable {
    slots: Vec<Option<EntityConfig>>,
}

/// The entry of `pad`, or the default where it has none.
pub open spec fn entry_or_default(table: Map<u8, EntityConfig>, pad: u8) -> EntityConfig {
    if table.contains_key(pad) {
        table[pad]
    } else {
        default_config()
    }
}

/// The table after the entry of `pad` was read with lazy creation: pads
/// off the grid get no entry.
pub open spec fn with_entry(table: Map<u8, EntityConfig>, pad: u8) -> Map<u8, EntityConfig> {
    if pad < PADS {
        table.insert(pad, entry_or_default(table, pad))
    } else {
        table
    }
}

/// The table after `config` was written to `pad`: pads off the grid get
/// no entry.
pub open spec fn with_config(table: Map<u8, EntityConfig>, pad: u8, config: EntityConfig) -> Map<
    u8,
    EntityConfig,
> {
    if pad < PADS {
        table.insert(pad, config)
    } else {
        table
    }
}

/// The table that holds `entries`, written in their order: where a pad
/// occurs twice, its last entry stays.
pub open spec fn table_of(entries: Seq<(u8, EntityConfig)>) -> Map<u8, EntityConfig>
    decreases entries.len(),
{
    if entries.len() == 0 {
        Map::empty()
    } else {
        table_of(entries.drop_last()).insert(entries.last().0, entries.last().1)
    }
}

/// Whether every entry is for a pad of the grid.
pub open spec fn on_grid(entries: Seq<(u8, EntityConfig)>) -> bool {
    forall|i: int| 0 <= i < entries.len() ==> (#[trigger] entries[i]).0 < PADS
}

/// Whether `entries` lists `table`: each of the table's entries once, in
/// the order of the pads, and nothing else.
pub open spec fn lists(entries: Seq<(u8, EntityConfig)>, table: Map<u8, EntityConfig>) -> bool {
    &&& forall|i: int|
        0 <= i < entries.len() ==> table.contains_pair((#[trigger] entries[i]).0, entries[i].1)
    &&& forall|i: int, j: int|
        0 <= i < j < entries.len() ==> (#[trigger] entries[i]).0 < (#[trigger] entries[j]).0
    &&& forall|pad: u8| #[trigger]
        table.contains_key(pad) ==> exists|i: int|
            0 <= i < entries.len() && (#[trigger] entries[i]).0 == pad
}

impl ParameterTable {
    #[verifier::type_invariant]
    spec fn well_formed(&self) -> bool {
        self.slots@.len() == PADS
    }

    /// The table as a map.
    pub closed spec fn view(&self) -> Map<u8, EntityConfig> {
        Map::new(
            |pad: u8| pad < PADS && pad < self.slots@.len() && self.slots@[pad as int] is Some,
            |pad: u8| self.slots@[pad as int]->Some_0,
        )
    }

    /// Only pads of the grid have an entry.
    pub proof fn lemma_keys_on_grid(&self)
        ensures
            forall|pad: u8| self@.contains_key(pad) ==> pad < PADS,
    {
    }

    /// A table without entries.
    pub fn new() -> (r: ParameterTable)
        ensures
            r@ == Map::<u8, EntityConfig>::empty(),
    {
        let mut slots: Vec<Option<EntityConfig>> = Vec::new();
        let mut i: u8 = 0;
        while i < PADS
            invariant
                i <= PADS,
                slots@.len() == i,
                forall|k: int| 0 <= k < i ==> slots@[k] is None,
            decreases PADS - i,
        {
            slots.push(None);
            i = i + 1;
        }
        let r = ParameterTable { slots };
        assert(r@ =~= Map::<u8, EntityConfig>::empty());
        r
    }

    /// The entry of `pad`, if it has one.
    pub fn get(&self, pad: u8) -> (r: Option<EntityConfig>)
        ensures
            r == (if self@.contains_key(pad) {
                Some(self@[pad])
            } else {
                None
            }),
        no_unwind
    {
        proof {
            use_type_invariant(self);
        }
        if pad < PADS {
            self.slots[pad as usize]
        } else {
            None
        }
    }

    /// Whether `pad` has an entry.
    pub fn contains_key(&self, pad: u8) -> (r: bool)
        ensures
            r == self@.contains_key(pad),
    {
        self.get(pad).is_some()
    }

    /// Writes `config` to `pad`. A pad off the grid is refused: nothing
    /// changes and the answer is `false`.
    pub fn insert(&mut self, pad: u8, config: EntityConfig) -> (r: bool)
        ensures
            r == (pad < PADS),
            final(self)@ == with_config(old(self)@, pad, config),
        no_unwind
    {
        proof {
            use_type_invariant(&*self);
        }
        if pad < PADS {
            self.slots[pad as usize] = Some(config);
            assert(self@ =~= old(self)@.insert(pad, config));
            true
        } else {
            false
        }
    }

    /// The entry of `pad`, created from the default where the pad had
    /// none, so that later reads give the same.
    pub fn get_or_default(&mut self, pad: u8) -> (r: EntityConfig)
        ensures
            r == entry_or_default(old(self)@, pad),
            final(self)@ == with_entry(old(self)@, pad),
        no_unwind
    {
        match self.get(pad) {
            Some(config) => {
                assert(self@ =~= self@.insert(pad, config));
                config
            },
            None => {
                let config: EntityConfig = EntityConfig::initial();
                self.insert(pad, config);
                config
            },
        }
    }

    /// The table that holds `entries`, or nothing where one of them is
    /// for a pad off the grid.
    pub fn from_entries(entries: &Vec<(u8, EntityConfig)>) -> (r: Option<ParameterTable>)
        ensures
            r is Some <==> on_grid(entries@),
            r is Some ==> r->Some_0@ == table_of(entries@),
    {
        let mut table: ParameterTable = ParameterTable::new();
        let mut i: usize = 0;
        while i < entries.len()
            invariant
                i <= entries@.len(),
                on_grid(entries@.take(i as int)),
                table@ == table_of(entries@.take(i as int)),
            decreases entries@.len() - i,
        {
            let entry: (u8, EntityConfig) = entries[i];
            proof {
                assert(entries@.take(i + 1).drop_last() =~= entries@.take(i as int));
            }
            if !table.insert(entry.0, entry.1) {
                return None;
            }
            i = i + 1;
        }
        proof {
            assert(entries@.take(i as int) =~= entries@);
        }
        Some(table)
    }

    /// The entries in the order of their pads.
    pub fn entries(&self) -> (r: Vec<(u8, EntityConfig)>)
        ensures
            lists(r@, self@),
    {
        proof {
            use_type_invariant(self);
        }
        let mut out: Vec<(u8, EntityConfig)> = Vec::new();
        let mut pad: u8 = 0;
        while pad < PADS
            invariant
                pad <= PADS,
                self.slots@.len() == PADS,
                forall|i: int| 0 <= i < out@.len() ==> self@.contains_pair(out@[i].0, out@[i].1),
                forall|i: int| 0 <= i < out@.len() ==> out@[i].0 < pad,
                forall|i: int, j: int| 0 <= i < j < out@.len() ==> out@[i].0 < out@[j].0,
                forall|p: u8|
                    p < pad && self@.contains_key(p) ==> exists|i: int|
                        0 <= i < out@.len() && out@[i].0 == p,
            decreases PADS - pad,
        {
            let ghost before = out@;
            match self.slots[pad as usize] {
                Some(config) => {
                    out.push((pad, config));
                    assert(out@[before.len() as int].0 == pad);
                    assert forall|p: u8| p < pad + 1 && self@.contains_key(p) implies exists|i: int|
                        0 <= i < out@.len() && out@[i].0 == p by {
                        if p < pad {
                            let i = choose|i: int| 0 <= i < before.len() && before[i].0 == p;
                            assert(out@[i].0 == p);
                        } else {
                            assert(out@[before.len() as int].0 == p);
                        }
                    }
                },
                None => {},
            }
            pad = pad + 1;
        }
        out
    }
}

/// What lists a table gives the table back, and is on the grid where the
/// table is.
pub proof fn lemma_listing_round_trip(entries: Seq<(u8, EntityConfig)>, table: Map<u8, EntityConfig>)
    requires
        lists(entries, table),
    ensures
        table_of(entries) == table,
        (forall|pad: u8| table.contains_key(pad) ==> pad < PADS) ==> on_grid(entries),
    decreases entries.len(),
{
    if entries.len() == 0 {
        assert(table =~= Map::empty());
    } else {
        let rest = entries.drop_last();
        let last = entries.last();
        let smaller = table.remove(last.0);
        assert forall|pad: u8| #[trigger] smaller.contains_key(pad) implies exists|i: int|
            0 <= i < rest.len() && (#[trigger] rest[i]).0 == pad by {
            let i = choose|i: int| 0 <= i < entries.len() && (#[trigger] entries[i]).0 == pad;
            assert(rest[i] == entries[i]);
        }
        assert forall|i: int| 0 <= i < rest.len() implies smaller.contains_pair(
            (#[trigger] rest[i]).0,
            rest[i].1,
        ) by {
            assert(rest[i] == entries[i]);
            assert(entries[i].0 < entries[entries.len() - 1].0);
        }
        assert(lists(rest, smaller)) by {
            assert forall|i: int, j: int| 0 <= i < j < rest.len() implies (#[trigger] rest[i]).0 < (
            #[trigger] rest[j]).0 by {
                assert(rest[i] == entries[i] && rest[j] == entries[j]);
            }
        }
        lemma_listing_round_trip(rest, smaller);
        assert(table.contains_pair(entries[entries.len() - 1].0, entries[entries.len() - 1].1));
        assert(table_of(entries) =~= table);
    }
}

/// Reading with lazy creation is stable: a second read gives the same
/// entry and leaves the table as the first read left it.
pub proof fn lemma_lazy_read_stable(table: Map<u8, EntityConfig>, pad: u8)
    requires
        pad < PADS,
    ensures
        entry_or_default(with_entry(table, pad), pad) == entry_or_default(table, pad),
        with_entry(with_entry(table, pad), pad) == with_entry(table, pad),
{
    assert(with_entry(with_entry(table, pad), pad) =~= with_entry(table, pad));
}

} // verus!
