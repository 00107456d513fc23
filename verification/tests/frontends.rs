use diskspace::cli::{format_summary, report, resolve_floors, CliOptions, CliOutput};
use diskspace::launch::launch_commands;
use diskspace::menu::{format_line, menu_for, Error, Menu, MenuItem};
use diskspace::snapshot::Snapshot;
use diskspace::threshold::{Fraction, Thresholds, GIB};
use diskspace::ui::Tool;
use diskspace::volume::{InodeStats, VolumeStats};

fn plain() -> CliOptions {
    CliOptions {
        quiet: false,
        verbose: false,
        bytes: false,
        files: false,
        min_share: None,
        min_space_gib: None,
        min_files_share: None,
        min_files: None,
        prompt_defaults: false,
    }
}

fn words(list: &[&str]) -> Vec<String> {
    list.iter().map(|w| w.to_string()).collect()
}

const ZERO: Fraction = Fraction { numerator: 0, denominator: 1 };
const ONE: Fraction = Fraction { numerator: 1, denominator: 1 };
const FIVE_PERCENT: Fraction = Fraction { numerator: 5, denominator: 100 };

#[test]
fn floors_without_options_always_trip() {
    let t = resolve_floors(&plain()).unwrap();
    assert_eq!(t.min_free_bytes, u64::MAX);
    assert_eq!(t.min_free_fraction, ONE);
    assert_eq!(t.min_free_inodes, u64::MAX);
    assert_eq!(t.min_free_inode_fraction, ONE);
}

#[test]
fn floors_with_prompt_defaults() {
    let t = resolve_floors(&CliOptions { prompt_defaults: true, ..plain() }).unwrap();
    assert_eq!(t, Thresholds::default());
    let t = resolve_floors(&CliOptions {
        prompt_defaults: true,
        min_space_gib: Some(1),
        min_files_share: Some(Fraction { numerator: 1, denominator: 10 }),
        ..plain()
    })
    .unwrap();
    assert_eq!(t.min_free_bytes, GIB);
    assert_eq!(t.min_free_fraction, FIVE_PERCENT);
    assert_eq!(t.min_free_inodes, 5000);
    assert_eq!(t.min_free_inode_fraction, Fraction { numerator: 1, denominator: 10 });
}

#[test]
fn one_floor_given_silences_its_partner() {
    let t = resolve_floors(&CliOptions { min_space_gib: Some(10), ..plain() }).unwrap();
    assert_eq!(t.min_free_bytes, 10 * GIB);
    assert_eq!(t.min_free_fraction, ZERO);
    assert_eq!(t.min_free_inodes, u64::MAX);
    assert_eq!(t.min_free_inode_fraction, ONE);
    let t = resolve_floors(&CliOptions { min_share: Some(FIVE_PERCENT), ..plain() }).unwrap();
    assert_eq!(t.min_free_bytes, 0);
    assert_eq!(t.min_free_fraction, FIVE_PERCENT);
    let t = resolve_floors(&CliOptions { min_files: Some(12), ..plain() }).unwrap();
    assert_eq!(t.min_free_inodes, 12);
    assert_eq!(t.min_free_inode_fraction, ZERO);
    assert_eq!(t.min_free_bytes, u64::MAX);
    let t = resolve_floors(&CliOptions { min_files_share: Some(FIVE_PERCENT), ..plain() }).unwrap();
    assert_eq!(t.min_free_inodes, 0);
    assert_eq!(t.min_free_inode_fraction, FIVE_PERCENT);
}

#[test]
fn space_that_does_not_fit_is_refused() {
    assert!(resolve_floors(&CliOptions { min_space_gib: Some(17_179_869_183), ..plain() }).is_some());
    assert_eq!(resolve_floors(&CliOptions { min_space_gib: Some(17_179_869_184), ..plain() }), None);
    assert_eq!(
        resolve_floors(&CliOptions { min_space_gib: Some(u64::MAX), prompt_defaults: true, ..plain() }),
        None
    );
}

#[test]
fn summary_layout() {
    assert_eq!(format_summary("4.3 GB", None), "[disk: 4.3 GB]");
    assert_eq!(format_summary("4.3 GB", Some(10)), "[disk: 4.3 GB (10 files)]");
    assert_eq!(format_summary("", Some(0)), "[disk:  (0 files)]");
}

#[test]
fn report_precedence() {
    let t = Thresholds::default();
    let many = InodeStats { available: 1_000_000, total: 2_000_000 };
    let few = InodeStats { available: 10, total: 2_000_000 };
    let healthy = (100 * GIB, 200 * GIB);
    let tight = (4 * GIB, 200 * GIB);
    for o in [
        plain(),
        CliOptions { quiet: true, ..plain() },
        CliOptions { verbose: true, ..plain() },
        CliOptions { bytes: true, files: true, ..plain() },
    ] {
        assert_eq!(report(&o, healthy.0, healthy.1, many, &t), CliOutput::Silent);
    }
    let all = CliOptions { quiet: true, verbose: true, bytes: true, files: true, ..plain() };
    assert_eq!(report(&all, tight.0, tight.1, many, &t), CliOutput::Failure);
    let o = CliOptions { quiet: false, ..all };
    assert_eq!(report(&o, tight.0, tight.1, many, &t), CliOutput::Detailed);
    let o = CliOptions { verbose: false, ..o };
    assert_eq!(report(&o, tight.0, tight.1, many, &t), CliOutput::Line("4294967296".to_string()));
    let o = CliOptions { bytes: false, ..o };
    assert_eq!(report(&o, tight.0, tight.1, many, &t), CliOutput::Line("1000000".to_string()));
    assert_eq!(
        report(&plain(), tight.0, tight.1, many, &t),
        CliOutput::Line("[disk: 4.3 GB]".to_string())
    );
    assert_eq!(
        report(&plain(), tight.0, tight.1, few, &t),
        CliOutput::Line("[disk: 4.3 GB (10 files)]".to_string())
    );
    assert_eq!(
        report(&plain(), healthy.0, healthy.1, few, &t),
        CliOutput::Line("[disk: 107.4 GB (10 files)]".to_string())
    );
    assert_eq!(
        report(&plain(), 215, 0, InodeStats { available: 6000, total: 0 }, &t),
        CliOutput::Line("[disk: 215 B]".to_string())
    );
}

#[test]
fn menu_line_layout() {
    assert_eq!(format_line("/", 10, "1.0 GiB", Some(42)), "/: 10% (1.0 GiB, 42 files)");
    assert_eq!(format_line("/", 10, "1.0 GiB", None), "/: 10% (1.0 GiB)");
}

#[test]
fn menu_of_empty_snapshot_is_empty() {
    assert_eq!(menu_for(&Snapshot::new()), Menu::default());
    assert!(Menu::default().items.is_empty());
}

#[test]
fn menu_lists_every_volume() {
    let mut s = Snapshot::new();
    s.insert(
        "/home".to_string(),
        VolumeStats {
            available_bytes: 2 * GIB,
            total_bytes: 4 * GIB,
            inodes: Some(InodeStats { available: 7, total: 9 }),
        },
    );
    s.insert(
        "/".to_string(),
        VolumeStats {
            available_bytes: GIB,
            total_bytes: 10 * GIB,
            inodes: Some(InodeStats { available: 42, total: 100 }),
        },
    );
    s.insert(
        "/tmp".to_string(),
        VolumeStats { available_bytes: 3 * GIB, total_bytes: 0, inodes: None },
    );
    let menu = menu_for(&s);
    assert_eq!(
        menu.items,
        vec![
            MenuItem::Title("1.0 GiB".to_string()),
            MenuItem::Sep,
            MenuItem::Text("/: 10% (1.0 GiB, 42 files)".to_string()),
            MenuItem::Text("/home: 50% (2.0 GiB, 7 files)".to_string()),
            MenuItem::Text("/tmp: 255% (3.0 GiB)".to_string()),
            MenuItem::Sep,
            MenuItem::Action {
                text: "Open DaisyDisk".to_string(),
                command: words(&["/usr/bin/open", "-a", "DaisyDisk"]),
            },
        ]
    );
}

#[test]
fn menu_title_is_least_available() {
    let mut s = Snapshot::new();
    s.insert("a".to_string(), VolumeStats { available_bytes: 5000, total_bytes: 10_000, inodes: None });
    s.insert("b".to_string(), VolumeStats { available_bytes: 215, total_bytes: 10_000, inodes: None });
    let menu = menu_for(&s);
    assert_eq!(menu.items[0], MenuItem::Title("215 B".to_string()));
    assert_eq!(menu.items.len(), 6);
}

#[test]
fn error_menus() {
    assert_eq!(
        Menu::from(Error::Io("permission denied".to_string())).items,
        vec![MenuItem::Text("I/O error: permission denied".to_string())]
    );
    assert_eq!(
        Menu::from(Error::Json("expected value at line 1".to_string())).items,
        vec![MenuItem::Text("JSON error: expected value at line 1".to_string())]
    );
}

#[test]
fn analyzer_command() {
    assert_eq!(
        launch_commands(Tool::DiskAnalyzer),
        vec![words(&["C:\\Users\\fenhl\\scoop\\shims\\windirstat.exe"])]
    );
}

#[test]
fn cleanup_commands() {
    let wsl = "cd wslgit && cargo sweep -ir && cd /opt/git && cargo sweep -ir";
    assert_eq!(
        launch_commands(Tool::CleanupSessions),
        vec![
            words(&[
                "wt",
                "new-tab",
                "C:\\Program Files\\PowerShell\\7\\pwsh.exe",
                "-c",
                "cd C:\\Users\\fenhl\\git && cargo sweep -ir",
            ]),
            words(&[
                "wt",
                "new-tab",
                "--profile",
                "debian-m2",
                "C:\\WINDOWS\\system32\\wsl.exe",
                "-d",
                "debian-m2",
                "zsh",
                "-c",
                wsl,
            ]),
            words(&[
                "wt",
                "new-tab",
                "--profile",
                "ubuntu-m2",
                "C:\\WINDOWS\\system32\\wsl.exe",
                "-d",
                "ubuntu-m2",
                "zsh",
                "-c",
                wsl,
            ]),
        ]
    );
}
