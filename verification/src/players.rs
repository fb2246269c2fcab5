//! The durable per-player records, keyed by address.
//!
//! The records are held as an association list with pairwise distinct keys
//! and are specified through the finite map they represent. Records are
//! created on first touch and never removed.

use vstd::prelude::*;
use crate::addr::Address;
use crate::data::PlayerData;

verus! {

/// The map an association list stands for: later entries win, though with
/// pairwise distinct keys every entry is visible.
pub open spec fn assoc_view(s: Seq<(Address, PlayerData)>) -> Map<Address, PlayerData>
    decreases s.len(),
{
    if s.len() == 0 {
        Map::empty()
    } else {
        assoc_view(s.drop_last()).insert(s.last().0, s.last().1)
    }
}

/// Pairwise distinct keys.
pub open spec fn unique_keys(s: Seq<(Address, PlayerData)>) -> bool {
    forall|i: int, j: int| 0 <= i < j < s.len() ==> s[i].0 != s[j].0
}

/// A key is in the map's domain exactly when some entry holds it.
pub proof fn lemma_assoc_view_dom(s: Seq<(Address, PlayerData)>, k: Address)
    ensures
        assoc_view(s).dom().contains(k) <==> exists|i: int| 0 <= i < s.len() && s[i].0 == k,
    decreases s.len(),
{
    if s.len() == 0 {
    } else {
        lemma_assoc_view_dom(s.drop_last(), k);
        if s.last().0 == k {
            assert(s[s.len() - 1].0 == k);
        } else {
            if exists|i: int| 0 <= i < s.len() && s[i].0 == k {
                let i = choose|i: int| 0 <= i < s.len() && s[i].0 == k;
                assert(s.drop_last()[i].0 == k);
            }
            if assoc_view(s).dom().contains(k) {
                let i = choose|i: int| 0 <= i < s.drop_last().len() && s.drop_last()[i].0 == k;
                assert(s[i].0 == k);
            }
        }
    }
}

/// With distinct keys, the entry at any index gives the mapped value.
pub proof fn lemma_assoc_view_at(s: Seq<(Address, PlayerData)>, i: int)
    requires
        unique_keys(s),
        0 <= i < s.len(),
    ensures
        assoc_view(s).dom().contains(s[i].0),
        assoc_view(s)[s[i].0] == s[i].1,
    decreases s.len(),
{
    if i == s.len() - 1 {
    } else {
        assert(s.drop_last()[i] == s[i]);
        lemma_assoc_view_at(s.drop_last(), i);
        assert(s.last().0 != s[i].0);
    }
}

/// Overwriting the value at an entry's index is insertion at its key.
pub proof fn lemma_assoc_view_update(s: Seq<(Address, PlayerData)>, i: int, v: PlayerData)
    requires
        unique_keys(s),
        0 <= i < s.len(),
    ensures
        assoc_view(s.update(i, (s[i].0, v))) =~= assoc_view(s).insert(s[i].0, v),
    decreases s.len(),
{
    let k = s[i].0;
    let t = s.update(i, (k, v));
    if i == s.len() - 1 {
        assert(t.drop_last() =~= s.drop_last());
        assert(t.last() == (k, v));
    } else {
        assert(t.drop_last() =~= s.drop_last().update(i, (k, v)));
        assert(s.drop_last()[i] == s[i]);
        lemma_assoc_view_update(s.drop_last(), i, v);
        assert(t.last() == s.last());
        assert(s.last().0 != k);
        assert(assoc_view(s.drop_last()).insert(k, v).insert(s.last().0, s.last().1)
            =~= assoc_view(s.drop_last()).insert(s.last().0, s.last().1).insert(k, v));
    }
}

/// The durable per-player records of the state component.
#[derive(Debug)]
pub struct PlayerMap {
    entries: Vec<(Address, PlayerData)>,
}

impl View for PlayerMap {
    type V = Map<Address, PlayerData>;

    closed spec fn view(&self) -> Map<Address, PlayerData> {
        assoc_view(self.entries@)
    }
}

impl PlayerMap {
    /// The keys are pairwise distinct; every operation preserves this.
    pub closed spec fn wf(self) -> bool {
        unique_keys(self.entries@)
    }

    /// An empty record store.
    pub fn new() -> (m: PlayerMap)
        ensures
            m.wf(),
            m@ =~= Map::<Address, PlayerData>::empty(),
    {
        PlayerMap { entries: Vec::new() }
    }

    /// The index of the entry holding the key, if there is one.
    fn find_index(&self, k: &Address) -> (r: Option<usize>)
        ensures
            match r {
                Option::Some(i) => i < self.entries@.len() && self.entries@[i as int].0 == *k,
                Option::None => forall|i: int|
                    0 <= i < self.entries@.len() ==> self.entries@[i].0 != *k,
            },
    {
        let mut i: usize = 0;
        while i < self.entries.len()
            invariant
                i <= self.entries@.len(),
                forall|j: int| 0 <= j < i ==> self.entries@[j].0 != *k,
            decreases self.entries@.len() - i,
        {
            if self.entries[i].0 == *k {
                return Option::Some(i);
            }
            i = i + 1;
        }
        Option::None
    }

    /// Whether the player already has a record.
    pub fn contains(&self, k: &Address) -> (r: bool)
        requires
            self.wf(),
        ensures
            r == self@.dom().contains(*k),
    {
        let idx = self.find_index(k);
        proof {
            lemma_assoc_view_dom(self.entries@, *k);
            if let Option::Some(i) = idx {
                lemma_assoc_view_at(self.entries@, i as int);
            }
        }
        idx.is_some()
    }

    /// The player's record, if there is one.
    pub fn get(&self, k: &Address) -> (r: Option<PlayerData>)
        requires
            self.wf(),
        ensures
            r == (if self@.dom().contains(*k) {
                Option::Some(self@[*k])
            } else {
                Option::<PlayerData>::None
            }),
    {
        let idx = self.find_index(k);
        proof {
            lemma_assoc_view_dom(self.entries@, *k);
            if let Option::Some(i) = idx {
                lemma_assoc_view_at(self.entries@, i as int);
            }
        }
        match idx {
            Option::Some(i) => Option::Some(self.entries[i].1),
            Option::None => Option::None,
        }
    }

    /// The record the key maps to after a first touch: the old record, or a
    /// fresh one when there was none.
    pub open spec fn spec_touched(pre: Map<Address, PlayerData>, k: Address) -> Map<
        Address,
        PlayerData,
    > {
        if pre.dom().contains(k) {
            pre
        } else {
            pre.insert(k, PlayerData::spec_fresh())
        }
    }

    /// Gets or creates the player's record, returning its index.
    fn get_or_create_index(&mut self, k: &Address) -> (i: usize)
        requires
            old(self).wf(),
        ensures
            final(self).wf(),
            final(self)@ =~= PlayerMap::spec_touched(old(self)@, *k),
            i < final(self).entries@.len(),
            final(self).entries@[i as int].0 == *k,
            final(self).entries@[i as int].1 == final(self)@[*k],
    {
        proof {
            lemma_assoc_view_dom(self.entries@, *k);
        }
        let idx = self.find_index(k);
        match idx {
            Option::Some(i) => {
                proof {
                    lemma_assoc_view_at(self.entries@, i as int);
                }
                i
            },
            Option::None => {
                let i = self.entries.len();
                self.entries.push((*k, PlayerData::fresh()));
                proof {
                    assert(self.entries@.drop_last() =~= old(self).entries@);
                    assert(forall|j: int|
                        0 <= j < old(self).entries@.len() ==> self.entries@[j]
                            == old(self).entries@[j]);
                }
                i
            },
        }
    }

    /// Gets or creates the player's record; a record that already exists is
    /// left as it is.
    pub fn touch(&mut self, k: &Address)
        requires
            old(self).wf(),
        ensures
            final(self).wf(),
            final(self)@ =~= PlayerMap::spec_touched(old(self)@, *k),
    {
        let _ = self.get_or_create_index(k);
    }

    /// Gets or creates the player's record, then sets its lifecycle state,
    /// keeping the battle result.
    pub fn set_state(&mut self, k: &Address, ps: crate::data::PlayerState)
        requires
            old(self).wf(),
        ensures
            final(self).wf(),
            final(self)@ =~= PlayerMap::spec_touched(old(self)@, *k).insert(
                *k,
                PlayerData {
                    state: ps,
                    result: PlayerMap::spec_touched(old(self)@, *k)[*k].result,
                },
            ),
    {
        let i = self.get_or_create_index(k);
        let d = self.entries[i].1;
        let ghost mid = self.entries@;
        self.entries.set(i, (*k, PlayerData { state: ps, result: d.result }));
        proof {
            lemma_assoc_view_update(mid, i as int, PlayerData { state: ps, result: d.result });
        }
    }

    /// Gets or creates the player's record, then sets its battle result,
    /// keeping the lifecycle state.
    pub fn set_result(&mut self, k: &Address, br: crate::data::BattleResult)
        requires
            old(self).wf(),
        ensures
            final(self).wf(),
            final(self)@ =~= PlayerMap::spec_touched(old(self)@, *k).insert(
                *k,
                PlayerData {
                    state: PlayerMap::spec_touched(old(self)@, *k)[*k].state,
                    result: br,
                },
            ),
    {
        let i = self.get_or_create_index(k);
        let d = self.entries[i].1;
        let ghost mid = self.entries@;
        self.entries.set(i, (*k, PlayerData { state: d.state, result: br }));
        proof {
            lemma_assoc_view_update(mid, i as int, PlayerData { state: d.state, result: br });
        }
    }
}

} // verus!
