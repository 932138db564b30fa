use vstd::prelude::*;

verus! {

/// The values logically associated with `key`: the value sequence of the
/// first entry carrying that key, or the empty sequence when no entry does.
/// Absence and "a null value pointer" both read back as zero values.
pub open spec fn map_lookup(entries: Seq<(Seq<char>, Seq<i32>)>, key: Seq<char>) -> Seq<i32>
    decreases entries.len(),
{
    if entries.len() == 0 {
        Seq::empty()
    } else if entries[0].0 == key {
        entries[0].1
    } else {
        map_lookup(entries.drop_first(), key)
    }
}

/// The accessor contract: the six entry points through which the owning side
/// exposes its state. The handle type implementing this trait is opaque to the
/// readers; they interact with it only through these operations.
///
/// `seq_view` and `map_view` are the ghost views of the two collections as one
/// internally consistent pass observes them. The size probe `map_size` may
/// over-report relative to `map_view` — the probe and the bulk key fetch are
/// separate calls against state that the owning side may have shrunk in
/// between — so the bulk fetch's actual count, never the probe, is ground
/// truth for iteration.
pub trait StateAccess {
    /// The ordered named-value sequence: pairs of name text and value.
    spec fn seq_view(&self) -> Seq<(Seq<char>, i32)>;

    /// The string-keyed multi-value entries, in the order the bulk key fetch
    /// returns them.
    spec fn map_view(&self) -> Seq<(Seq<char>, Seq<i32>)>;

    /// Total number of named-value entries, stable for the duration of a pass.
    fn sequence_size(&self) -> (n: usize)
        ensures
            n == self.seq_view().len(),
    ;

    /// The name at `index`; the caller must never pass an out-of-range index.
    fn sequence_name_at(&self, index: usize) -> (name: String)
        requires
            index < self.seq_view().len(),
        ensures
            name@ == self.seq_view()[index as int].0,
    ;

    /// The value at `index`; the caller must never pass an out-of-range index.
    fn sequence_value_at(&self, index: usize) -> (value: i32)
        requires
            index < self.seq_view().len(),
        ensures
            value == self.seq_view()[index as int].1,
    ;

    /// Probes the number of distinct keys. The result is an upper bound on
    /// what the bulk fetch will return, and the capacity the caller must
    /// provide to it.
    fn map_size(&self) -> (m: usize)
        ensures
            m >= self.map_view().len(),
    ;

    /// Bulk key fetch. On entry `*count` is the capacity the caller sized the
    /// buffer with (from `map_size`); on exit it is the actual number of keys
    /// written, which may be smaller and is authoritative from then on.
    fn map_keys(&self, keys: &mut Vec<String>, count: &mut usize)
        requires
            *old(count) >= self.map_view().len(),
        ensures
            *final(count) == self.map_view().len(),
            final(keys)@.len() == self.map_view().len(),
            forall|i: int|
                0 <= i < self.map_view().len() ==> final(keys)@[i]@ == self.map_view()[i].0,
    ;

    /// Per-key value fetch. `None` stands for a null value pointer and means
    /// zero logical values; it is never an error.
    fn map_values_for_key(&self, key: &String) -> (values: Option<Vec<i32>>)
        ensures
            match values {
                Some(v) => v@ == map_lookup(self.map_view(), key@),
                None => map_lookup(self.map_view(), key@) == Seq::<i32>::empty(),
            },
    ;
}

/// `map_lookup` finds the entry at position `i` when no earlier entry carries
/// the same key.
pub proof fn lemma_map_lookup_at(entries: Seq<(Seq<char>, Seq<i32>)>, key: Seq<char>, i: int)
    requires
        0 <= i < entries.len(),
        entries[i].0 == key,
        forall|j: int| 0 <= j < i ==> entries[j].0 != key,
    ensures
        map_lookup(entries, key) == entries[i].1,
    decreases i,
{
    if i > 0 {
        lemma_map_lookup_at(entries.drop_first(), key, i - 1);
    }
}

/// `map_lookup` yields zero values for a key no entry carries.
pub proof fn lemma_map_lookup_absent(entries: Seq<(Seq<char>, Seq<i32>)>, key: Seq<char>)
    requires
        forall|j: int| 0 <= j < entries.len() ==> entries[j].0 != key,
    ensures
        map_lookup(entries, key) == Seq::<i32>::empty(),
    decreases entries.len(),
{
    if entries.len() > 0 {
        lemma_map_lookup_absent(entries.drop_first(), key);
    }
}

} // verus!
