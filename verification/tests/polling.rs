use diskspace::config::{tray_volumes, Config, ConfigDiskSpace};
use diskspace::poller::{
    format_fatal, Poller, PollerAction, PollerEvent, PollerState, ProbeError, POLL_INTERVAL_SECS,
};
use diskspace::snapshot::Snapshot;
use diskspace::threshold::{Thresholds, GIB};
use diskspace::volume::VolumeStats;

fn bytes_only(available: u64, total: u64) -> VolumeStats {
    VolumeStats { available_bytes: available, total_bytes: total, inodes: None }
}

fn failure() -> ProbeError {
    ProbeError { message: "device not ready".to_string(), detail: "Os { code: 21 }".to_string() }
}

#[test]
fn interval_is_two_minutes() {
    assert_eq!(POLL_INTERVAL_SECS, 120);
}

#[test]
fn full_cycle() {
    let mut p = Poller::new(Thresholds::default(), tray_volumes());
    assert_eq!(p.state, PollerState::Idle);
    assert_eq!(p.step(PollerEvent::Begin), PollerAction::Probe(tray_volumes()));
    assert_eq!(p.state, PollerState::Probing);
    let mut readings = Snapshot::new();
    readings.insert("C:\\".to_string(), bytes_only(GIB, 100 * GIB));
    readings.insert("D:\\".to_string(), bytes_only(50 * GIB, 100 * GIB));
    let expected = readings.clone();
    assert_eq!(p.step(PollerEvent::Probed(readings)), PollerAction::Publish(expected));
    assert_eq!(p.state, PollerState::Publishing);
    assert_eq!(p.step(PollerEvent::Published), PollerAction::Sleep(120));
    assert_eq!(p.state, PollerState::Sleeping);
    assert_eq!(p.step(PollerEvent::Slept), PollerAction::Wait);
    assert_eq!(p.state, PollerState::Idle);
    assert_eq!(p.step(PollerEvent::Begin), PollerAction::Probe(tray_volumes()));
    assert_eq!(p.thresholds, Thresholds::default());
    assert_eq!(p.volumes, tray_volumes());
}

#[test]
fn probe_names_the_watched_volumes() {
    let watched = vec!["/".to_string(), "/home".to_string()];
    let mut p = Poller::new(Thresholds::default(), watched.clone());
    assert_eq!(p.step(PollerEvent::Begin), PollerAction::Probe(watched));
    let mut nothing = Poller::new(Thresholds::default(), Vec::new());
    assert_eq!(nothing.step(PollerEvent::Begin), PollerAction::Probe(Vec::new()));
}

#[test]
fn healthy_probe_publishes_empty() {
    let mut p = Poller::new(Thresholds::default(), tray_volumes());
    p.step(PollerEvent::Begin);
    let mut readings = Snapshot::new();
    readings.insert("C:\\".to_string(), bytes_only(50 * GIB, 100 * GIB));
    assert_eq!(p.step(PollerEvent::Probed(readings)), PollerAction::Publish(Snapshot::new()));
}

#[test]
fn probe_failure_halts_for_good() {
    let mut p = Poller::new(Thresholds::default(), tray_volumes());
    p.step(PollerEvent::Begin);
    assert!(!p.is_halted());
    assert_eq!(
        p.step(PollerEvent::ProbeFailed(failure())),
        PollerAction::Fatal(
            "device not ready\nDebug info: ctx = maintain, Os { code: 21 }".to_string()
        )
    );
    assert!(p.is_halted());
    assert_eq!(p.step(PollerEvent::Begin), PollerAction::Wait);
    assert_eq!(p.step(PollerEvent::ProbeFailed(failure())), PollerAction::Wait);
    assert_eq!(p.step(PollerEvent::Probed(Snapshot::new())), PollerAction::Wait);
    assert_eq!(p.step(PollerEvent::Published), PollerAction::Wait);
    assert_eq!(p.step(PollerEvent::Slept), PollerAction::Wait);
    assert!(p.is_halted());
    assert_eq!(p.state, PollerState::Halted);
}

#[test]
fn unexpected_events_are_ignored() {
    let mut p = Poller::new(Thresholds::default(), tray_volumes());
    assert_eq!(p.step(PollerEvent::Slept), PollerAction::Wait);
    assert_eq!(p.step(PollerEvent::ProbeFailed(failure())), PollerAction::Wait);
    assert_eq!(p.state, PollerState::Idle);
    p.step(PollerEvent::Begin);
    assert_eq!(p.step(PollerEvent::Begin), PollerAction::Wait);
    assert_eq!(p.state, PollerState::Probing);
    p.step(PollerEvent::Probed(Snapshot::new()));
    assert_eq!(p.step(PollerEvent::ProbeFailed(failure())), PollerAction::Wait);
    assert_eq!(p.state, PollerState::Publishing);
}

#[test]
fn fatal_text_layout() {
    assert_eq!(format_fatal("main", "boom", "Boom(1)"), "boom\nDebug info: ctx = main, Boom(1)");
    assert_eq!(format_fatal("", "", ""), "\nDebug info: ctx = , ");
}

#[test]
fn configured_volumes_or_root() {
    let c = Config {
        diskspace: ConfigDiskSpace {
            volumes: Some(vec!["/".to_string(), "/home".to_string()]),
        },
    };
    assert_eq!(c.volumes(), vec!["/".to_string(), "/home".to_string()]);
    assert_eq!(Config::default().volumes(), vec!["/".to_string()]);
    assert_eq!(ConfigDiskSpace::default().volumes, None);
    let empty = Config { diskspace: ConfigDiskSpace { volumes: Some(Vec::new()) } };
    assert_eq!(empty.volumes(), Vec::<String>::new());
}

#[test]
fn tray_watches_three_roots() {
    assert_eq!(tray_volumes(), vec!["C:\\".to_string(), "D:\\".to_string(), "E:\\".to_string()]);
}
