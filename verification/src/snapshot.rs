//! The ordered collection of volume readings that is published as a whole.

use vstd::prelude::*;
use crate::volume::{lemma_asymmetric, lemma_precedes_transitive, order_ids, precedes, IdOrder, VolumeEntry, VolumeStats};

verus! {

/// Volume readings ordered by identifier; the empty one means "no alert".
#[derive(Clone, Debug, PartialEq, Eq)]
pub struct Snapshot {
    pub entries: Vec<VolumeEntry>,
}

impl View for Snapshot {
    type V = Seq<(Seq<char>, VolumeStats)>;

    open spec fn view(&self) -> Seq<(Seq<char>, VolumeStats)> {
        self.entries@.map_values(|e: VolumeEntry| e@)
    }
}

/// Identifiers strictly increase along the sequence, so none occurs twice.
pub open spec fn strictly_ordered(s: Seq<(Seq<char>, VolumeStats)>) -> bool {
    forall|i: int, j: int| 0 <= i < j < s.len() ==> precedes(#[trigger] s[i].0, #[trigger] s[j].0)
}

/// Some entry of `s` is recorded under `id`.
pub open spec fn has_id(s: Seq<(Seq<char>, VolumeStats)>, id: Seq<char>) -> bool {
    exists|i: int| 0 <= i < s.len() && #[trigger] s[i].0 == id
}

/// In an ordered snapshot a volume has one entry: two entries under one
/// identifier are the same.
pub proof fn lemma_one_entry_per_id(
    s: Seq<(Seq<char>, VolumeStats)>,
    a: (Seq<char>, VolumeStats),
    b: (Seq<char>, VolumeStats),
)
    requires
        strictly_ordered(s),
        s.contains(a),
        s.contains(b),
        a.0 == b.0,
    ensures
        a == b,
{
    let i = choose|i: int| 0 <= i < s.len() && s[i] == a;
    let j = choose|j: int| 0 <= j < s.len() && s[j] == b;
    if i < j {
        lemma_asymmetric(s[i].0, s[j].0);
    } else if j < i {
        lemma_asymmetric(s[j].0, s[i].0);
    }
}

/// Reading `i` is the one that counts for its volume among the first `k`:
/// none of the later ones names the same volume.
pub open spec fn counts_among(r: Seq<(Seq<char>, VolumeStats)>, k: int, i: int) -> bool {
    &&& 0 <= i < k
    &&& forall|j: int| i < j < k ==> (#[trigger] r[j]).0 != r[i].0
}

/// The entry `e` is a reading that counts among the first `k`.
pub open spec fn kept_among(r: Seq<(Seq<char>, VolumeStats)>, k: int, e: (Seq<char>, VolumeStats)) -> bool {
    exists|i: int| counts_among(r, k, i) && #[trigger] r[i] == e
}

impl Snapshot {
    /// The entries are in strict identifier order.
    pub open spec fn wf(&self) -> bool {
        strictly_ordered(self@)
    }

    /// The empty snapshot.
    pub fn new() -> (s: Snapshot)
        ensures
            s@ == Seq::<(Seq<char>, VolumeStats)>::empty(),
            s.wf(),
    {
        let s = Snapshot { entries: Vec::new() };
        assert(s@ =~= Seq::<(Seq<char>, VolumeStats)>::empty());
        s
    }

    /// Number of volumes held.
    pub fn len(&self) -> (n: usize)
        ensures
            n == self@.len(),
    {
        self.entries.len()
    }

    /// Whether no volume is held.
    pub fn is_empty(&self) -> (b: bool)
        ensures
            b == (self@.len() == 0),
    {
        self.entries.len() == 0
    }

    /// The entry at position `i` of the identifier order.
    pub fn get(&self, i: usize) -> (e: Option<&VolumeEntry>)
        ensures
            e.is_some() <==> i < self@.len(),
            e.is_some() ==> e.unwrap()@ == self@[i as int],
    {
        if i < self.entries.len() {
            Some(&self.entries[i])
        } else {
            None
        }
    }

    /// The statistics recorded under `id`, if any.
    pub fn stats_of(&self, id: &str) -> (r: Option<VolumeStats>)
        ensures
            r.is_some() <==> has_id(self@, id@),
            r.is_some() ==> self@.contains((id@, r.unwrap())),
    {
        let n = self.entries.len();
        let mut i: usize = 0;
        while i < n
            invariant
                n == self@.len(),
                i <= n,
                forall|j: int| 0 <= j < i ==> (#[trigger] self@[j]).0 != id@,
            decreases n - i,
        {
            assert(self.entries[i as int]@ == self@[i as int]);
            match order_ids(self.entries[i].id.as_str(), id) {
                IdOrder::Same => {
                    assert(self@[i as int].0 == id@);
                    assert(self@[i as int] == (id@, self.entries[i as int].stats));
                    return Some(self.entries[i].stats);
                },
                _ => {},
            }
            i += 1;
        }
        None
    }

    /// Gathers readings, in whatever order they were taken, into a snapshot
    /// in identifier order. Where a volume was read more than once, its last
    /// reading counts.
    pub fn collect(readings: &Vec<VolumeEntry>) -> (s: Snapshot)
        ensures
            s.wf(),
            forall|e: (Seq<char>, VolumeStats)|
                s@.contains(e) <==> kept_among(
                    readings@.map_values(|x: VolumeEntry| x@),
                    readings@.len() as int,
                    e,
                ),
    {
        let ghost r = readings@.map_values(|x: VolumeEntry| x@);
        let mut s = Snapshot::new();
        let n = readings.len();
        let mut k: usize = 0;
        while k < n
            invariant
                n == readings@.len(),
                r == readings@.map_values(|x: VolumeEntry| x@),
                k <= n,
                s.wf(),
                forall|e: (Seq<char>, VolumeStats)| s@.contains(e) <==> kept_among(r, k as int, e),
            decreases n - k,
        {
            let ghost before = s@;
            let id = readings[k].id.clone();
            let stats = readings[k].stats;
            assert(r[k as int] == (id@, stats));
            s.insert(id, stats);
            proof {
                let added = r[k as int];
                assert forall|e: (Seq<char>, VolumeStats)|
                    s@.contains(e) <==> kept_among(r, k + 1, e) by {
                    if s@.contains(e) {
                        if e == added {
                            assert(counts_among(r, k + 1, k as int));
                        } else {
                            assert(kept_among(r, k as int, e));
                            let i = choose|i: int| counts_among(r, k as int, i) && r[i] == e;
                            assert(counts_among(r, k + 1, i));
                        }
                    }
                    if kept_among(r, k + 1, e) {
                        let i = choose|i: int| counts_among(r, k + 1, i) && r[i] == e;
                        if i < k {
                            assert(counts_among(r, k as int, i));
                            assert(kept_among(r, k as int, e));
                            assert(r[k as int].0 != r[i].0);
                        }
                    }
                }
            }
            k += 1;
        }
        s
    }

    /// Records `stats` under `id`, replacing what was recorded under it before
    /// and keeping every other volume.
    pub fn insert(&mut self, id: String, stats: VolumeStats)
        requires
            old(self).wf(),
        ensures
            final(self).wf(),
            forall|e: (Seq<char>, VolumeStats)|
                final(self)@.contains(e) <==> (e == (id@, stats) || (old(self)@.contains(e) && e.0
                    != id@)),
            final(self)@.len() == old(self)@.len() + (if has_id(old(self)@, id@) {
                0int
            } else {
                1int
            }),
    {
        let ghost before = self@;
        let n = self.entries.len();
        let mut p: usize = 0;
        let mut hit = false;
        let mut past = false;
        while p < n && !hit && !past
            invariant
                n == self.entries.len(),
                self@ == before,
                strictly_ordered(before),
                p <= n,
                forall|j: int| 0 <= j < p ==> precedes(#[trigger] before[j].0, id@),
                hit ==> p < n && before[p as int].0 == id@,
                past ==> p < n && precedes(id@, before[p as int].0),
                !(hit && past),
            decreases n - p + (if hit || past { 0int } else { 1int }),
        {
            let o = order_ids(self.entries[p].id.as_str(), id.as_str());
            assert(self.entries[p as int]@ == before[p as int]);
            match o {
                IdOrder::Before => {
                    p += 1;
                },
                IdOrder::Same => {
                    hit = true;
                },
                IdOrder::After => {
                    past = true;
                },
            }
        }
        let entry = VolumeEntry { id, stats };
        let ghost new_e = entry@;
        if hit {
            assert(before[p as int].0 == new_e.0);
            self.entries.set(p, entry);
            let ghost after = self@;
            assert(after =~= before.update(p as int, new_e));
            proof {
                assert forall|i: int, j: int| 0 <= i < j < after.len() implies precedes(
                    #[trigger] after[i].0,
                    #[trigger] after[j].0,
                ) by {
                    assert(after[i].0 == before[i].0);
                    assert(after[j].0 == before[j].0);
                }
                assert forall|e: (Seq<char>, VolumeStats)|
                    after.contains(e) <==> (e == new_e || (before.contains(e) && e.0
                        != new_e.0)) by {
                    if after.contains(e) {
                        let i = choose|i: int| 0 <= i < after.len() && after[i] == e;
                        if i != p {
                            assert(before[i] == e);
                            if i < p {
                                lemma_asymmetric(before[i].0, before[p as int].0);
                            } else {
                                lemma_asymmetric(before[p as int].0, before[i].0);
                            }
                        }
                    }
                    if e == new_e {
                        assert(after[p as int] == e);
                    }
                    if before.contains(e) && e.0 != new_e.0 {
                        let i = choose|i: int| 0 <= i < before.len() && before[i] == e;
                        assert(after[i] == e);
                    }
                }
                assert(has_id(before, new_e.0));
            }
        } else {
            self.entries.insert(p, entry);
            let ghost after = self@;
            assert(after =~= before.insert(p as int, new_e));
            proof {
                assert forall|j: int| p <= j < before.len() implies precedes(
                    new_e.0,
                    #[trigger] before[j].0,
                ) by {
                    if j > p {
                        lemma_precedes_transitive(new_e.0, before[p as int].0, before[j].0);
                    }
                }
                assert forall|i: int, j: int| 0 <= i < j < after.len() implies precedes(
                    #[trigger] after[i].0,
                    #[trigger] after[j].0,
                ) by {
                    if i < p {
                        assert(after[i] == before[i]);
                    } else if i > p {
                        assert(after[i] == before[i - 1]);
                    }
                    if j < p {
                        assert(after[j] == before[j]);
                    } else if j > p {
                        assert(after[j] == before[j - 1]);
                    }
                }
                assert forall|i: int| 0 <= i < before.len() implies #[trigger] before[i].0
                    != new_e.0 by {
                    if i < p {
                        lemma_asymmetric(before[i].0, new_e.0);
                    } else {
                        lemma_asymmetric(new_e.0, before[i].0);
                    }
                }
                assert forall|e: (Seq<char>, VolumeStats)|
                    after.contains(e) <==> (e == new_e || (before.contains(e) && e.0
                        != new_e.0)) by {
                    if after.contains(e) {
                        let i = choose|i: int| 0 <= i < after.len() && after[i] == e;
                        if i < p {
                            assert(before[i] == e);
                        } else if i > p {
                            assert(before[i - 1] == e);
                        }
                    }
                    if e == new_e {
                        assert(after[p as int] == e);
                    }
                    if before.contains(e) && e.0 != new_e.0 {
                        let i = choose|i: int| 0 <= i < before.len() && before[i] == e;
                        if i < p {
                            assert(after[i] == e);
                        } else {
                            assert(after[i + 1] == e);
                        }
                    }
                }
                assert(!has_id(before, new_e.0));
            }
        }
    }
}

} // verus!
