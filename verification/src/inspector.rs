use vstd::prelude::*;

use crate::access::{map_lookup, StateAccess};

verus! {

/// One emitted entry of the named-value sequence.
pub struct SeqEntry {
    pub name: String,
    pub value: i32,
}

impl View for SeqEntry {
    type V = (Seq<char>, i32);

    open spec fn view(&self) -> (Seq<char>, i32) {
        (self.name@, self.value)
    }
}

/// One emitted entry of the string-keyed multi-value map.
pub struct MapEntry {
    pub key: String,
    pub values: Vec<i32>,
}

impl View for MapEntry {
    type V = (Seq<char>, Seq<i32>);

    open spec fn view(&self) -> (Seq<char>, Seq<i32>) {
        (self.key@, self.values@)
    }
}

/// The deterministic, ordered report one full pass produces: the whole
/// sequence, then the whole map.
pub struct Report {
    pub sequence: Vec<SeqEntry>,
    pub mapping: Vec<MapEntry>,
}

impl View for Report {
    type V = (Seq<(Seq<char>, i32)>, Seq<(Seq<char>, Seq<i32>)>);

    open spec fn view(&self) -> (Seq<(Seq<char>, i32)>, Seq<(Seq<char>, Seq<i32>)>) {
        (
            self.sequence@.map_values(|e: SeqEntry| e@),
            self.mapping@.map_values(|e: MapEntry| e@),
        )
    }
}

/// What a sequence pass must emit: exactly one entry per index of `sv`, in
/// increasing index order, each carrying that index's name and value.
pub open spec fn sequence_report_matches(entries: Seq<(Seq<char>, i32)>, sv: Seq<(Seq<char>, i32)>) -> bool {
    &&& entries.len() == sv.len()
    &&& forall|i: int| 0 <= i < sv.len() ==> entries[i] == sv[i]
}

/// What a map pass must emit: exactly one entry per key the bulk fetch
/// returned, in fetch order, each carrying the values the per-key lookup
/// yields for that key (zero values where the lookup hands back null).
pub open spec fn map_report_matches(entries: Seq<(Seq<char>, Seq<i32>)>, mv: Seq<(Seq<char>, Seq<i32>)>) -> bool {
    &&& entries.len() == mv.len()
    &&& forall|i: int|
        0 <= i < mv.len() ==> entries[i].0 == mv[i].0 && entries[i].1 == map_lookup(mv, mv[i].0)
}

/// What a full pass over a handle must produce.
pub open spec fn report_matches(
    r: Report,
    sv: Seq<(Seq<char>, i32)>,
    mv: Seq<(Seq<char>, Seq<i32>)>,
) -> bool {
    &&& sequence_report_matches(r@.0, sv)
    &&& map_report_matches(r@.1, mv)
}

/// Walks the two collections of one opaque handle through the accessor
/// contract alone. Stateless beyond holding the handle; no state is retained
/// between passes.
pub struct StateInspector<'a, A: StateAccess> {
    pub state: &'a A,
}

impl<'a, A: StateAccess> StateInspector<'a, A> {
    /// Binds an inspector to a handle.
    pub fn new(state: &'a A) -> (inspector: Self)
        ensures
            inspector.state == state,
    {
        StateInspector { state }
    }

    /// The sequence pass: queries the size once, then fetches name and value
    /// for each index `0..n` in strictly increasing order and emits the pair.
    pub fn inspect_vector(&self) -> (entries: Vec<SeqEntry>)
        ensures
            sequence_report_matches(entries@.map_values(|e: SeqEntry| e@), self.state.seq_view()),
    {
        let n = self.state.sequence_size();
        let mut entries: Vec<SeqEntry> = Vec::new();
        let mut i: usize = 0;
        while i < n
            invariant
                n == self.state.seq_view().len(),
                i <= n,
                entries@.len() == i,
                forall|j: int| 0 <= j < i ==> entries@[j]@ == self.state.seq_view()[j],
            decreases n - i,
        {
            let name = self.state.sequence_name_at(i);
            let value = self.state.sequence_value_at(i);
            entries.push(SeqEntry { name, value });
            i = i + 1;
        }
        proof {
            let ghost mapped = entries@.map_values(|e: SeqEntry| e@);
            assert forall|j: int|
                0 <= j < self.state.seq_view().len() implies #[trigger] mapped[j]
                == self.state.seq_view()[j] by {
                assert(entries@[j]@ == self.state.seq_view()[j]);
            }
        }
        entries
    }

    /// The map pass: probes the size, sizes the key buffer from the probe,
    /// bulk-fetches the keys, and from then on iterates the actual count the
    /// bulk fetch reported — never the probe. A null per-key result is
    /// emitted as the key with zero values, without any decode.
    pub fn inspect_map(&self) -> (entries: Vec<MapEntry>)
        ensures
            map_report_matches(entries@.map_values(|e: MapEntry| e@), self.state.map_view()),
    {
        let probed = self.state.map_size();
        let mut keys: Vec<String> = Vec::with_capacity(probed);
        let mut actual: usize = probed;
        self.state.map_keys(&mut keys, &mut actual);
        let mut entries: Vec<MapEntry> = Vec::new();
        let mut i: usize = 0;
        while i < actual
            invariant
                actual == self.state.map_view().len(),
                keys@.len() == actual,
                forall|j: int| 0 <= j < actual ==> keys@[j]@ == self.state.map_view()[j].0,
                i <= actual,
                entries@.len() == i,
                forall|j: int|
                    0 <= j < i ==> entries@[j]@.0 == self.state.map_view()[j].0
                        && entries@[j]@.1 == map_lookup(
                        self.state.map_view(),
                        self.state.map_view()[j].0,
                    ),
            decreases actual - i,
        {
            let key = keys[i].clone();
            let fetched = self.state.map_values_for_key(&key);
            let values: Vec<i32> = match fetched {
                Some(v) => v,
                None => Vec::new(),
            };
            entries.push(MapEntry { key, values });
            i = i + 1;
        }
        proof {
            let ghost mapped = entries@.map_values(|e: MapEntry| e@);
            assert forall|j: int|
                0 <= j < self.state.map_view().len() implies (#[trigger] mapped[j]).0
                == self.state.map_view()[j].0 && mapped[j].1 == map_lookup(
                self.state.map_view(),
                self.state.map_view()[j].0,
            ) by {
                assert(entries@[j]@.0 == self.state.map_view()[j].0);
                assert(entries@[j]@.1 == map_lookup(
                    self.state.map_view(),
                    self.state.map_view()[j].0,
                ));
            }
        }
        entries
    }
}

/// Runs one full inspection pass over `state`: the sequence pass to
/// completion, then the map pass to completion, and returns the report.
pub fn rust_process_data<A: StateAccess>(state: &A) -> (r: Report)
    ensures
        report_matches(r, state.seq_view(), state.map_view()),
{
    let inspector = StateInspector::new(state);
    let sequence = inspector.inspect_vector();
    let mapping = inspector.inspect_map();
    Report { sequence, mapping }
}

/// Identical contract to [`rust_process_data`]; a second entry point kept so
/// call sites can name the pass they mean.
pub fn rust_inspect_state<A: StateAccess>(state: &A) -> (r: Report)
    ensures
        report_matches(r, state.seq_view(), state.map_view()),
{
    let inspector = StateInspector::new(state);
    let sequence = inspector.inspect_vector();
    let mapping = inspector.inspect_map();
    Report { sequence, mapping }
}

/// Two consecutive passes over an unmutated handle produce identical
/// reports: any two reports that meet the pass contract against the same
/// handle's views are equal, view for view.
pub proof fn lemma_pass_idempotent<A: StateAccess>(state: &A, r1: Report, r2: Report)
    requires
        report_matches(r1, state.seq_view(), state.map_view()),
        report_matches(r2, state.seq_view(), state.map_view()),
    ensures
        r1@ == r2@,
{
    assert(r1@.0 =~= r2@.0);
    assert(r1@.1 =~= r2@.1);
    assert(r1@ =~= r2@);
}

} // verus!
