//! The chain registry: the persistent mapping from chain identifier to
//! chain-type code. Configuring a chain is an idempotent overwrite; a chain
//! with no entry is distinct from one registered with code 0.
use vstd::prelude::*;

verus! {

/// The mapping denoted by a sequence of configuration entries, later entries
/// overwriting earlier ones.
pub open spec fn registry_map(entries: Seq<(String, u64)>) -> Map<Seq<char>, u64>
    decreases entries.len(),
{
    if entries.len() == 0 {
        Map::empty()
    } else {
        registry_map(entries.drop_last()).insert(entries.last().0@, entries.last().1)
    }
}

/// A key that occurs in no entry from position `i` on is resolved by the
/// first `i` entries alone.
proof fn lemma_registry_map_prefix(entries: Seq<(String, u64)>, i: int, k: Seq<char>)
    requires
        0 <= i <= entries.len(),
        forall|j: int| i <= j < entries.len() ==> (#[trigger] entries[j]).0@ != k,
    ensures
        registry_map(entries).contains_key(k) == registry_map(
            entries.subrange(0, i),
        ).contains_key(k),
        registry_map(entries).contains_key(k) ==> registry_map(entries)[k] == registry_map(
            entries.subrange(0, i),
        )[k],
    decreases entries.len() - i,
{
    if i == entries.len() {
        assert(entries.subrange(0, i) =~= entries);
    } else {
        lemma_registry_map_prefix(entries.drop_last(), i, k);
        assert(entries.drop_last().subrange(0, i) =~= entries.subrange(0, i));
        assert(entries.last().0@ != k);
    }
}

/// The chain-type registry, a persistent map from chain identifier to
/// chain-type code.
pub struct ChainRegistry {
    entries: Vec<(String, u64)>,
}

impl View for ChainRegistry {
    type V = Map<Seq<char>, u64>;

    closed spec fn view(&self) -> Map<Seq<char>, u64> {
        registry_map(self.entries@)
    }
}

impl ChainRegistry {
    /// An empty registry: no chain is configured.
    pub fn new() -> (r: Self)
        ensures
            r@ == Map::<Seq<char>, u64>::empty(),
    {
        ChainRegistry { entries: Vec::new() }
    }

    /// Registers `chain_type` under `chain_id`, overwriting any earlier
    /// entry for the same chain.
    pub fn set(&mut self, chain_id: String, chain_type: u64)
        ensures
            final(self)@ == old(self)@.insert(chain_id@, chain_type),
    {
        self.entries.push((chain_id, chain_type));
        proof {
            assert(self.entries@.drop_last() =~= old(self).entries@);
        }
    }

    /// Looks up the chain type registered for `chain_id`, or reports that
    /// the chain is not configured.
    pub fn get(&self, chain_id: &String) -> (r: Option<u64>)
        ensures
            r == if self@.contains_key(chain_id@) {
                Some(self@[chain_id@])
            } else {
                None::<u64>
            },
    {
        let n = self.entries.len();
        let mut i: usize = n;
        while i > 0
            invariant
                i <= n,
                n == self.entries@.len(),
                forall|j: int| i <= j < n ==> (#[trigger] self.entries@[j]).0@ != chain_id@,
            decreases i,
        {
            i = i - 1;
            if self.entries[i].0 == *chain_id {
                proof {
                    lemma_registry_map_prefix(self.entries@, i + 1, chain_id@);
                    let pre = self.entries@.subrange(0, i + 1);
                    assert(pre.drop_last() =~= self.entries@.subrange(0, i as int));
                    assert(pre.last() == self.entries@[i as int]);
                }
                return Some(self.entries[i].1);
            }
        }
        proof {
            lemma_registry_map_prefix(self.entries@, 0, chain_id@);
            assert(self.entries@.subrange(0, 0) =~= Seq::<(String, u64)>::empty());
        }
        None
    }
}

/// Law: configuring a chain type twice with the same arguments leaves the
/// registry in the same observable state as configuring it once.
pub proof fn lemma_set_chain_type_idempotent(
    m: Map<Seq<char>, u64>,
    chain_id: Seq<char>,
    chain_type: u64,
)
    ensures
        m.insert(chain_id, chain_type).insert(chain_id, chain_type) == m.insert(
            chain_id,
            chain_type,
        ),
{
    assert(m.insert(chain_id, chain_type).insert(chain_id, chain_type) =~= m.insert(
        chain_id,
        chain_type,
    ));
}

} // verus!
