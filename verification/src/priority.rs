//! The agent priority map: agent id to priority stamp (lower = older).

use vstd::prelude::*;
use crate::primitives::str_eq;

verus! {

/// The map described by a list of `(agent, priority)` entries, later
/// entries overriding earlier ones.
spec fn map_of(entries: Seq<(String, u64)>) -> Map<Seq<char>, u64>
    decreases entries.len(),
{
    if entries.len() == 0 {
        Map::empty()
    } else {
        map_of(entries.drop_last()).insert(entries.last().0@, entries.last().1)
    }
}

/// If no entry at or after position `m` carries the key `k`, the entries
/// after `m` do not affect `k`'s binding.
proof fn lemma_map_of_suffix_clean(entries: Seq<(String, u64)>, k: Seq<char>, m: int)
    requires
        0 <= m <= entries.len(),
        forall|j: int| m <= j < entries.len() ==> entries[j].0@ != k,
    ensures
        map_of(entries).contains_key(k) == map_of(entries.take(m)).contains_key(k),
        map_of(entries).contains_key(k) ==> map_of(entries)[k] == map_of(entries.take(m))[k],
    decreases entries.len() - m,
{
    if m == entries.len() {
        assert(entries.take(m) =~= entries);
    } else {
        lemma_map_of_suffix_clean(entries, k, m + 1);
        assert(entries.take(m + 1).drop_last() =~= entries.take(m));
        assert(entries.take(m + 1).last() == entries[m]);
    }
}

/// A total map from agent ids to priority stamps.  Lower stamps denote
/// older, more senior agents.
#[derive(Debug)]
pub struct PriorityMap {
    entries: Vec<(String, u64)>,
}

impl View for PriorityMap {
    type V = Map<Seq<char>, u64>;

    closed spec fn view(&self) -> Map<Seq<char>, u64> {
        map_of(self.entries@)
    }
}

impl PriorityMap {
    /// An empty priority map.
    pub fn new() -> (m: PriorityMap)
        ensures
            m@ == Map::<Seq<char>, u64>::empty(),
    {
        PriorityMap { entries: Vec::new() }
    }

    /// Registers (or overrides) an agent's priority.
    pub fn insert(&mut self, agent_id: String, priority: u64)
        ensures
            final(self)@ == old(self)@.insert(agent_id@, priority),
    {
        let ghost pre = self.entries@;
        let ghost k = agent_id@;
        self.entries.push((agent_id, priority));
        proof {
            assert(self.entries@.drop_last() =~= pre);
        }
    }

    /// Looks up an agent's priority.
    pub fn get(&self, agent_id: &str) -> (r: Option<u64>)
        ensures
            r == if self@.contains_key(agent_id@) {
                Some(self@[agent_id@])
            } else {
                None::<u64>
            },
    {
        let mut i: usize = self.entries.len();
        while i > 0
            invariant
                i <= self.entries@.len(),
                forall|j: int| i <= j < self.entries@.len() ==> self.entries@[j].0@ != agent_id@,
            decreases i,
        {
            i = i - 1;
            if str_eq(self.entries[i].0.as_str(), agent_id) {
                proof {
                    lemma_map_of_suffix_clean(self.entries@, agent_id@, i + 1);
                    assert(self.entries@.take(i + 1).last() == self.entries@[i as int]);
                    assert(self.entries@.take(i + 1).drop_last() =~= self.entries@.take(i as int));
                }
                return Some(self.entries[i].1);
            }
        }
        proof {
            lemma_map_of_suffix_clean(self.entries@, agent_id@, 0);
            assert(self.entries@.take(0) =~= Seq::<(String, u64)>::empty());
        }
        None
    }

    /// An independent copy with the same bindings.
    pub fn duplicate(&self) -> (m: PriorityMap)
        ensures
            m@ == self@,
    {
        let mut out: Vec<(String, u64)> = Vec::new();
        let n = self.entries.len();
        let mut i: usize = 0;
        while i < n
            invariant
                n == self.entries@.len(),
                i <= n,
                out@ =~= self.entries@.take(i as int),
            decreases n - i,
        {
            out.push((self.entries[i].0.clone(), self.entries[i].1));
            i = i + 1;
        }
        proof {
            assert(out@ =~= self.entries@);
        }
        PriorityMap { entries: out }
    }
}

} // verus!
