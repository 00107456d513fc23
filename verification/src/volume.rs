//! Per-volume statistics and the ordering of volume identifiers.

use vstd::prelude::*;
use vstd::string::*;

verus! {

/// Inode counters of a volume, on platforms that report them.
#[derive(Clone, Copy, Debug, PartialEq, Eq)]
pub struct InodeStats {
    pub available: u64,
    pub total: u64,
}

/// What one probe of a volume reports.
#[derive(Clone, Copy, Debug, PartialEq, Eq)]
pub struct VolumeStats {
    pub available_bytes: u64,
    pub total_bytes: u64,
    pub inodes: Option<InodeStats>,
}

/// A volume identifier together with its latest statistics.
#[derive(Clone, Debug, PartialEq, Eq)]
pub struct VolumeEntry {
    pub id: String,
    pub stats: VolumeStats,
}

impl View for VolumeEntry {
    type V = (Seq<char>, VolumeStats);

    open spec fn view(&self) -> (Seq<char>, VolumeStats) {
        (self.id@, self.stats)
    }
}

/// How one identifier stands relative to another.
#[derive(Clone, Copy, Debug, PartialEq, Eq)]
pub enum IdOrder {
    Before,
    Same,
    After,
}

/// `a` and `b` agree on their first `k` characters, and at position `k`
/// either `a` ends while `b` goes on, or `a` has the smaller character.
pub open spec fn diverges_at(a: Seq<char>, b: Seq<char>, k: int) -> bool {
    &&& 0 <= k <= a.len()
    &&& k < b.len()
    &&& forall|j: int| 0 <= j < k ==> a[j] == b[j]
    &&& (k < a.len() ==> (a[k] as u32) < (b[k] as u32))
}

/// Strict lexicographic order on identifiers, character by character.
pub open spec fn precedes(a: Seq<char>, b: Seq<char>) -> bool {
    exists|k: int| diverges_at(a, b, k)
}

/// The lexicographic order is transitive.
pub proof fn lemma_precedes_transitive(a: Seq<char>, b: Seq<char>, c: Seq<char>)
    requires
        precedes(a, b),
        precedes(b, c),
    ensures
        precedes(a, c),
{
    let k1 = choose|k: int| diverges_at(a, b, k);
    let k2 = choose|k: int| diverges_at(b, c, k);
    if k1 <= k2 {
        assert(diverges_at(a, c, k1));
    } else {
        assert(diverges_at(a, c, k2));
    }
}

/// No identifier precedes itself.
pub proof fn lemma_precedes_irreflexive(a: Seq<char>)
    ensures
        !precedes(a, a),
{
}

/// Compares two identifiers lexicographically.
pub fn order_ids(a: &str, b: &str) -> (r: IdOrder)
    ensures
        r == IdOrder::Before <==> precedes(a@, b@),
        r == IdOrder::Same <==> a@ == b@,
        r == IdOrder::After <==> precedes(b@, a@),
{
    let la = a.unicode_len();
    let lb = b.unicode_len();
    let mut i: usize = 0;
    while i < la && i < lb
        invariant
            la == a@.len(),
            lb == b@.len(),
            i <= la,
            i <= lb,
            forall|j: int| 0 <= j < i ==> a@[j] == b@[j],
        decreases la - i,
    {
        let ca = a.get_char(i);
        let cb = b.get_char(i);
        if (ca as u32) < (cb as u32) {
            proof {
                assert(diverges_at(a@, b@, i as int));
                lemma_asymmetric(a@, b@);
            }
            return IdOrder::Before;
        }
        if (cb as u32) < (ca as u32) {
            proof {
                assert(diverges_at(b@, a@, i as int));
                lemma_asymmetric(b@, a@);
            }
            return IdOrder::After;
        }
        i += 1;
    }
    if la < lb {
        proof {
            assert(diverges_at(a@, b@, i as int));
            lemma_asymmetric(a@, b@);
        }
        IdOrder::Before
    } else if lb < la {
        proof {
            assert(diverges_at(b@, a@, i as int));
            lemma_asymmetric(b@, a@);
        }
        IdOrder::After
    } else {
        proof {
            assert(a@ =~= b@);
            lemma_precedes_irreflexive(a@);
        }
        IdOrder::Same
    }
}

/// Of two identifiers, at most one precedes the other, and then they differ.
pub proof fn lemma_asymmetric(a: Seq<char>, b: Seq<char>)
    requires
        precedes(a, b),
    ensures
        !precedes(b, a),
        a != b,
{
    lemma_precedes_irreflexive(a);
    if precedes(b, a) {
        lemma_precedes_transitive(a, b, a);
    }
}

} // verus!
