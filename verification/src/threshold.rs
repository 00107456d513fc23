//! The low-space test and the evaluation of a set of readings.

use vstd::prelude::*;
use crate::snapshot::Snapshot;
use crate::volume::VolumeStats;

verus! {

/// Bytes in one gibibyte.
pub const GIB: u64 = 1_073_741_824;

/// A share of a whole, `numerator / denominator`, between zero and one.
#[derive(Clone, Copy, Debug, PartialEq, Eq)]
pub struct Fraction {
    pub numerator: u64,
    pub denominator: u64,
}

impl Fraction {
    /// The fraction lies in `[0, 1]`.
    pub open spec fn wf(&self) -> bool {
        self.denominator > 0 && self.numerator <= self.denominator
    }

    /// Builds `numerator / denominator` if that lies in `[0, 1]`.
    pub fn new(numerator: u64, denominator: u64) -> (r: Option<Fraction>)
        ensures
            r.is_some() <==> (denominator > 0 && numerator <= denominator),
            r.is_some() ==> r.unwrap().numerator == numerator && r.unwrap().denominator
                == denominator && r.unwrap().wf(),
    {
        if denominator > 0 && numerator <= denominator {
            Some(Fraction { numerator, denominator })
        } else {
            None
        }
    }
}

/// `available / total < fraction`, with a zero `total` never below.
pub open spec fn below_fraction(available: u64, total: u64, fraction: Fraction) -> bool {
    total > 0 && available * fraction.denominator < fraction.numerator * total
}

/// Tests whether `available` out of `total` is less than `fraction`.
pub fn is_below_fraction(available: u64, total: u64, fraction: Fraction) -> (r: bool)
    ensures
        r == below_fraction(available, total, fraction),
        total == 0 ==> !r,
{
    if total == 0 {
        return false;
    }
    let a: u128 = available as u128;
    let d: u128 = fraction.denominator as u128;
    let n: u128 = fraction.numerator as u128;
    let t: u128 = total as u128;
    assert(a * d <= 0xFFFF_FFFF_FFFF_FFFF * 0xFFFF_FFFF_FFFF_FFFF) by (nonlinear_arith)
        requires
            a <= 0xFFFF_FFFF_FFFF_FFFF,
            d <= 0xFFFF_FFFF_FFFF_FFFF,
    ;
    assert(n * t <= 0xFFFF_FFFF_FFFF_FFFF * 0xFFFF_FFFF_FFFF_FFFF) by (nonlinear_arith)
        requires
            n <= 0xFFFF_FFFF_FFFF_FFFF,
            t <= 0xFFFF_FFFF_FFFF_FFFF,
    ;
    a * d < n * t
}

/// Calls `bytesize::ByteSize::gib` and reads the count back with `as_u64`: the
/// crate multiplies the argument by its constant `GIB`, which is 2^30. The
/// product must fit, since the crate's multiplication is unchecked.
#[verifier::external_body]
fn gibibytes(count: u64) -> (bytes: u64)
    requires
        count * GIB <= u64::MAX,
    ensures
        bytes == count * GIB,
{
    bytesize::ByteSize::gib(count).as_u64()
}

/// The bytes in `count` gibibytes, or `None` where they do not fit in 64 bits.
pub fn checked_gibibytes(count: u64) -> (bytes: Option<u64>)
    ensures
        bytes.is_some() <==> count * GIB <= u64::MAX,
        bytes.is_some() ==> bytes.unwrap() == count * GIB,
{
    if count > u64::MAX / GIB {
        assert(count * GIB > u64::MAX) by (nonlinear_arith)
            requires
                count > u64::MAX / GIB,
                GIB == 1_073_741_824,
        ;
        None
    } else {
        assert(count * GIB <= u64::MAX) by (nonlinear_arith)
            requires
                count <= u64::MAX / GIB,
                GIB == 1_073_741_824,
        ;
        Some(gibibytes(count))
    }
}

/// The floors below which a volume counts as low.
#[derive(Clone, Copy, Debug, PartialEq, Eq)]
pub struct Thresholds {
    pub min_free_bytes: u64,
    pub min_free_fraction: Fraction,
    pub min_free_inodes: u64,
    pub min_free_inode_fraction: Fraction,
}

impl Thresholds {
    /// Both fractional floors lie in `[0, 1]`.
    pub open spec fn wf(&self) -> bool {
        self.min_free_fraction.wf() && self.min_free_inode_fraction.wf()
    }
}

impl Default for Thresholds {
    /// Five gibibytes, five per cent, five thousand inodes, five per cent.
    fn default() -> (t: Thresholds)
        ensures
            t.wf(),
            t == (Thresholds {
                min_free_bytes: 5_368_709_120,
                min_free_fraction: Fraction { numerator: 5, denominator: 100 },
                min_free_inodes: 5000,
                min_free_inode_fraction: Fraction { numerator: 5, denominator: 100 },
            }),
    {
        let share = Fraction { numerator: 5, denominator: 100 };
        Thresholds {
            min_free_bytes: gibibytes(5),
            min_free_fraction: share,
            min_free_inodes: 5000,
            min_free_inode_fraction: share,
        }
    }
}

/// Fewer bytes are free than the absolute floor.
pub open spec fn low_by_bytes(stats: VolumeStats, t: Thresholds) -> bool {
    stats.available_bytes < t.min_free_bytes
}

/// The free share of the bytes is under the fractional floor.
pub open spec fn low_by_byte_share(stats: VolumeStats, t: Thresholds) -> bool {
    below_fraction(stats.available_bytes, stats.total_bytes, t.min_free_fraction)
}

/// Inode counters are reported and fewer inodes are free than the absolute floor.
pub open spec fn low_by_inodes(stats: VolumeStats, t: Thresholds) -> bool {
    match stats.inodes {
        Some(i) => i.available < t.min_free_inodes,
        None => false,
    }
}

/// Inode counters are reported and their free share is under the fractional floor.
pub open spec fn low_by_inode_share(stats: VolumeStats, t: Thresholds) -> bool {
    match stats.inodes {
        Some(i) => below_fraction(i.available, i.total, t.min_free_inode_fraction),
        None => false,
    }
}

/// A volume is low when any of the four tests trips.
pub open spec fn low(stats: VolumeStats, t: Thresholds) -> bool {
    low_by_bytes(stats, t) || low_by_byte_share(stats, t) || low_by_inodes(stats, t)
        || low_by_inode_share(stats, t)
}

/// Some volume of the readings is low.
pub open spec fn any_low(readings: Seq<(Seq<char>, VolumeStats)>, t: Thresholds) -> bool {
    exists|i: int| 0 <= i < readings.len() && low(#[trigger] readings[i].1, t)
}

/// What is published for a set of readings: all of them if any is low,
/// nothing otherwise.
pub open spec fn verdict(readings: Seq<(Seq<char>, VolumeStats)>, t: Thresholds) -> Seq<
    (Seq<char>, VolumeStats),
> {
    if any_low(readings, t) {
        readings
    } else {
        Seq::empty()
    }
}

/// A volume whose total is zero is never low by the matching fractional
/// test, whatever the floor.
pub proof fn lemma_zero_total_never_low_by_share(stats: VolumeStats, t: Thresholds)
    ensures
        stats.total_bytes == 0 ==> !low_by_byte_share(stats, t),
        stats.inodes.is_some() && stats.inodes.unwrap().total == 0 ==> !low_by_inode_share(
            stats,
            t,
        ),
{
}

/// The published snapshot is non-empty exactly when some volume is low, and
/// then it holds every reading.
pub proof fn lemma_alert_iff_low(readings: Seq<(Seq<char>, VolumeStats)>, t: Thresholds)
    ensures
        verdict(readings, t).len() > 0 <==> any_low(readings, t),
        any_low(readings, t) ==> verdict(readings, t) == readings,
{
}

/// Tests one volume against the floors.
pub fn is_low(stats: &VolumeStats, t: &Thresholds) -> (r: bool)
    ensures
        r == low(*stats, *t),
{
    if stats.available_bytes < t.min_free_bytes {
        return true;
    }
    if is_below_fraction(stats.available_bytes, stats.total_bytes, t.min_free_fraction) {
        return true;
    }
    match stats.inodes {
        Some(i) => i.available < t.min_free_inodes || is_below_fraction(
            i.available,
            i.total,
            t.min_free_inode_fraction,
        ),
        None => false,
    }
}

/// Evaluates a set of readings: returns all of them if any volume is low and
/// the empty snapshot otherwise.
pub fn evaluate(readings: Snapshot, t: &Thresholds) -> (s: Snapshot)
    ensures
        s@ == verdict(readings@, *t),
        s@.len() > 0 <==> any_low(readings@, *t),
        readings.wf() ==> s.wf(),
{
    let n = readings.len();
    let mut i: usize = 0;
    while i < n
        invariant
            n == readings@.len(),
            i <= n,
            forall|j: int| 0 <= j < i ==> !low(#[trigger] readings@[j].1, *t),
        decreases n - i,
    {
        if is_low(&readings.entries[i].stats, t) {
            assert(low(readings@[i as int].1, *t));
            return readings;
        }
        i += 1;
    }
    Snapshot::new()
}

} // verus!
