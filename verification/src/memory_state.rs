use vstd::prelude::*;

use crate::access::{
    lemma_map_lookup_absent, lemma_map_lookup_at, map_lookup, StateAccess,
};
use crate::inspector::SeqEntry;

verus! {

/// One stored map entry of the in-memory owning side. `values: None` models
/// the owning side answering a per-key lookup with a null value pointer:
/// zero logical values.
pub struct MapSlot {
    pub key: String,
    pub values: Option<Vec<i32>>,
}

impl View for MapSlot {
    type V = (Seq<char>, Seq<i32>);

    open spec fn view(&self) -> (Seq<char>, Seq<i32>) {
        (
            self.key@,
            match self.values {
                Some(v) => v@,
                None => Seq::empty(),
            },
        )
    }
}

/// An in-memory owning side: a handle whose collections live in this process,
/// exposed to the readers only through the accessor contract. `probe_excess`
/// is how far the size probe over-reports relative to the keys the bulk fetch
/// will actually return, modelling a shrink between the two calls.
pub struct MemoryState {
    pub sequence: Vec<SeqEntry>,
    pub slots: Vec<MapSlot>,
    pub probe_excess: usize,
}

impl StateAccess for MemoryState {
    open spec fn seq_view(&self) -> Seq<(Seq<char>, i32)> {
        self.sequence@.map_values(|e: SeqEntry| e@)
    }

    open spec fn map_view(&self) -> Seq<(Seq<char>, Seq<i32>)> {
        self.slots@.map_values(|s: MapSlot| s@)
    }

    fn sequence_size(&self) -> (n: usize) {
        self.sequence.len()
    }

    fn sequence_name_at(&self, index: usize) -> (name: String) {
        self.sequence[index].name.clone()
    }

    fn sequence_value_at(&self, index: usize) -> (value: i32) {
        self.sequence[index].value
    }

    fn map_size(&self) -> (m: usize) {
        let len = self.slots.len();
        if usize::MAX - len >= self.probe_excess {
            len + self.probe_excess
        } else {
            usize::MAX
        }
    }

    fn map_keys(&self, keys: &mut Vec<String>, count: &mut usize) {
        keys.clear();
        let mut i: usize = 0;
        while i < self.slots.len()
            invariant
                i <= self.slots.len(),
                keys@.len() == i,
                forall|j: int| 0 <= j < i ==> keys@[j]@ == self.map_view()[j].0,
            decreases self.slots.len() - i,
        {
            keys.push(self.slots[i].key.clone());
            i = i + 1;
        }
        *count = self.slots.len();
    }

    fn map_values_for_key(&self, key: &String) -> (values: Option<Vec<i32>>) {
        let mut i: usize = 0;
        while i < self.slots.len()
            invariant
                i <= self.slots.len(),
                forall|j: int| 0 <= j < i ==> self.map_view()[j].0 != key@,
            decreases self.slots.len() - i,
        {
            if self.slots[i].key == *key {
                proof {
                    lemma_map_lookup_at(self.map_view(), key@, i as int);
                }
                match &self.slots[i].values {
                    Some(v) => {
                        let copied = v.clone();
                        proof {
                            assert(copied@ =~= v@);
                        }
                        return Some(copied);
                    },
                    None => {
                        return None;
                    },
                }
            }
            i = i + 1;
        }
        proof {
            lemma_map_lookup_absent(self.map_view(), key@);
        }
        None
    }
}

} // verus!
