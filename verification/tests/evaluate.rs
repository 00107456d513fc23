use diskspace::snapshot::Snapshot;
use diskspace::threshold::{checked_gibibytes, evaluate, is_below_fraction, is_low, Fraction, Thresholds, GIB};
use diskspace::volume::{order_ids, IdOrder, InodeStats, VolumeEntry, VolumeStats};

fn bytes_only(available: u64, total: u64) -> VolumeStats {
    VolumeStats { available_bytes: available, total_bytes: total, inodes: None }
}

fn with_inodes(available: u64, total: u64, free: u64, all: u64) -> VolumeStats {
    VolumeStats {
        available_bytes: available,
        total_bytes: total,
        inodes: Some(InodeStats { available: free, total: all }),
    }
}

fn ids(s: &Snapshot) -> Vec<String> {
    s.entries.iter().map(|e| e.id.clone()).collect()
}

#[test]
fn default_floors() {
    let t = Thresholds::default();
    assert_eq!(t.min_free_bytes, 5 * 1_073_741_824);
    assert_eq!(t.min_free_bytes, 5_368_709_120);
    assert_eq!(t.min_free_fraction, Fraction { numerator: 5, denominator: 100 });
    assert_eq!(t.min_free_inodes, 5000);
    assert_eq!(t.min_free_inode_fraction, Fraction { numerator: 5, denominator: 100 });
}

#[test]
fn gibibytes_that_fit() {
    assert_eq!(checked_gibibytes(0), Some(0));
    assert_eq!(checked_gibibytes(2), Some(2 * GIB));
    assert_eq!(checked_gibibytes(5), Some(Thresholds::default().min_free_bytes));
    assert_eq!(checked_gibibytes(17_179_869_183), Some(17_179_869_183 * GIB));
    assert_eq!(checked_gibibytes(17_179_869_184), None);
    assert_eq!(checked_gibibytes(u64::MAX), None);
}

#[test]
fn fraction_bounds() {
    assert_eq!(Fraction::new(1, 20), Some(Fraction { numerator: 1, denominator: 20 }));
    assert_eq!(Fraction::new(0, 1), Some(Fraction { numerator: 0, denominator: 1 }));
    assert_eq!(Fraction::new(7, 7), Some(Fraction { numerator: 7, denominator: 7 }));
    assert_eq!(Fraction::new(8, 7), None);
    assert_eq!(Fraction::new(0, 0), None);
}

#[test]
fn share_test_is_exact() {
    let five = Fraction { numerator: 5, denominator: 100 };
    assert!(is_below_fraction(4, 100, five));
    assert!(!is_below_fraction(5, 100, five));
    assert!(is_below_fraction(49, 1000, five));
    assert!(!is_below_fraction(50, 1000, five));
    let all = Fraction { numerator: 1, denominator: 1 };
    assert!(is_below_fraction(u64::MAX - 1, u64::MAX, all));
    assert!(!is_below_fraction(u64::MAX, u64::MAX, all));
    let none = Fraction { numerator: 0, denominator: 1 };
    assert!(!is_below_fraction(0, 10, none));
}

#[test]
fn zero_total_never_low_by_share() {
    let t = Thresholds::default();
    assert!(!is_below_fraction(0, 0, t.min_free_fraction));
    assert!(!is_below_fraction(10, 0, Fraction { numerator: 1, denominator: 1 }));
    assert!(!is_low(&bytes_only(10 * GIB, 0), &t));
    assert!(!is_low(&with_inodes(10 * GIB, 100 * GIB, 6000, 0), &t));
    assert!(is_low(&with_inodes(10 * GIB, 100 * GIB, 10, 0), &t));
}

#[test]
fn absolute_floor_trips_alone() {
    let t = Thresholds::default();
    let stats = bytes_only(4 * GIB, 1000 * GIB);
    assert!(is_low(&stats, &t));
    let bytes_alone = Thresholds {
        min_free_fraction: Fraction { numerator: 0, denominator: 1 },
        min_free_inode_fraction: Fraction { numerator: 0, denominator: 1 },
        ..t
    };
    assert!(!is_below_fraction(stats.available_bytes, stats.total_bytes, bytes_alone.min_free_fraction));
    assert!(is_low(&stats, &bytes_alone));
    assert!(!is_low(&bytes_only(5 * GIB, 1000 * GIB), &bytes_alone));
    let mut readings = Snapshot::new();
    readings.insert("C:\\".to_string(), stats);
    let published = evaluate(readings, &t);
    assert_eq!(published.len(), 1);
    assert_eq!(published.get(0).unwrap().id, "C:\\");
    assert_eq!(published.get(0).unwrap().stats, stats);
}

#[test]
fn share_floor_trips_alone() {
    let t = Thresholds::default();
    assert!(is_low(&bytes_only(6 * GIB, 1000 * GIB), &t));
    assert!(!is_low(&bytes_only(50 * GIB, 1000 * GIB), &t));
    assert!(is_low(&bytes_only(50 * GIB - 1, 1000 * GIB), &t));
}

#[test]
fn inode_floors() {
    let t = Thresholds::default();
    assert!(!is_low(&with_inodes(100 * GIB, 200 * GIB, 5000, 10_000), &t));
    assert!(is_low(&with_inodes(100 * GIB, 200 * GIB, 4999, 10_000), &t));
    assert!(is_low(&with_inodes(100 * GIB, 200 * GIB, 6000, 1_000_000), &t));
    assert!(!is_low(&bytes_only(100 * GIB, 200 * GIB), &t));
}

#[test]
fn empty_readings_give_empty_snapshot() {
    let published = evaluate(Snapshot::new(), &Thresholds::default());
    assert!(published.is_empty());
    assert_eq!(published.len(), 0);
    assert!(published.get(0).is_none());
}

#[test]
fn healthy_readings_give_empty_snapshot() {
    let mut readings = Snapshot::new();
    readings.insert("C:\\".to_string(), bytes_only(100 * GIB, 200 * GIB));
    readings.insert("D:\\".to_string(), bytes_only(300 * GIB, 400 * GIB));
    let published = evaluate(readings, &Thresholds::default());
    assert!(published.is_empty());
}

#[test]
fn one_low_volume_publishes_all() {
    let mut readings = Snapshot::new();
    readings.insert("D:\\".to_string(), bytes_only(GIB, 400 * GIB));
    readings.insert("E:\\".to_string(), bytes_only(300 * GIB, 400 * GIB));
    readings.insert("C:\\".to_string(), bytes_only(100 * GIB, 200 * GIB));
    let expected = readings.clone();
    let published = evaluate(readings, &Thresholds::default());
    assert_eq!(published, expected);
    assert_eq!(ids(&published), vec!["C:\\", "D:\\", "E:\\"]);
}

#[test]
fn insert_keeps_identifier_order() {
    let mut s = Snapshot::new();
    for id in ["b", "a", "c", "ab", "", "B"] {
        s.insert(id.to_string(), bytes_only(1, 2));
    }
    assert_eq!(ids(&s), vec!["", "B", "a", "ab", "b", "c"]);
}

#[test]
fn insert_replaces_same_identifier() {
    let mut s = Snapshot::new();
    s.insert("a".to_string(), bytes_only(1, 2));
    s.insert("b".to_string(), bytes_only(3, 4));
    s.insert("a".to_string(), bytes_only(5, 6));
    assert_eq!(s.len(), 2);
    assert_eq!(s.get(0).unwrap().stats, bytes_only(5, 6));
    assert_eq!(s.get(1).unwrap().stats, bytes_only(3, 4));
    assert!(s.get(2).is_none());
    assert_eq!(s.stats_of("a"), Some(bytes_only(5, 6)));
    assert_eq!(s.stats_of("b"), Some(bytes_only(3, 4)));
    assert_eq!(s.stats_of("c"), None);
    assert_eq!(s.stats_of(""), None);
    assert_eq!(Snapshot::new().stats_of("a"), None);
}

#[test]
fn identifier_order() {
    assert_eq!(order_ids("C:\\", "D:\\"), IdOrder::Before);
    assert_eq!(order_ids("D:\\", "C:\\"), IdOrder::After);
    assert_eq!(order_ids("/home", "/home"), IdOrder::Same);
    assert_eq!(order_ids("/", "/home"), IdOrder::Before);
    assert_eq!(order_ids("/home", "/"), IdOrder::After);
    assert_eq!(order_ids("", ""), IdOrder::Same);
    assert_eq!(order_ids("", "a"), IdOrder::Before);
    assert_eq!(order_ids("z", "\u{e9}"), IdOrder::Before);
    assert_eq!(order_ids("\u{10000}", "\u{ffff}"), IdOrder::After);
}

#[test]
fn identifier_order_agrees_with_str_order() {
    let samples = ["", "/", "/a", "/b", "C:\\", "c", "\u{e9}", "\u{ffff}", "\u{10000}", "ab", "a"];
    for a in samples {
        for b in samples {
            let expected = if a < b {
                IdOrder::Before
            } else if a == b {
                IdOrder::Same
            } else {
                IdOrder::After
            };
            assert_eq!(order_ids(a, b), expected);
        }
    }
}

#[test]
fn collect_orders_and_keeps_last_reading() {
    let readings = vec![
        VolumeEntry { id: "E:\\".to_string(), stats: bytes_only(1, 10) },
        VolumeEntry { id: "C:\\".to_string(), stats: bytes_only(2, 10) },
        VolumeEntry { id: "E:\\".to_string(), stats: bytes_only(3, 10) },
        VolumeEntry { id: "D:\\".to_string(), stats: bytes_only(4, 10) },
    ];
    let s = Snapshot::collect(&readings);
    assert_eq!(ids(&s), vec!["C:\\", "D:\\", "E:\\"]);
    assert_eq!(s.get(0).unwrap().stats, bytes_only(2, 10));
    assert_eq!(s.get(1).unwrap().stats, bytes_only(4, 10));
    assert_eq!(s.get(2).unwrap().stats, bytes_only(3, 10));
    assert!(Snapshot::collect(&Vec::new()).is_empty());
}
