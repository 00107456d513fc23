//! The command-line check of one volume: which floors the options ask for
//! and what is printed.

use vstd::prelude::*;
use vstd::string::*;
use crate::text::{decimal, decimal_string, human_size, human_size_text};
use crate::threshold::{checked_gibibytes, is_below_fraction, is_low, low, low_by_inode_share, low_by_inodes, Fraction, Thresholds, GIB};
use crate::volume::{InodeStats, VolumeStats};

verus! {

/// The options of the command line, fractions already as ratios.
#[derive(Clone, Copy, Debug, PartialEq, Eq)]
pub struct CliOptions {
    pub quiet: bool,
    pub verbose: bool,
    pub bytes: bool,
    pub files: bool,
    pub min_share: Option<Fraction>,
    pub min_space_gib: Option<u64>,
    pub min_files_share: Option<Fraction>,
    pub min_files: Option<u64>,
    pub prompt_defaults: bool,
}

/// A fractional floor: the one given; else five per cent with the prompt
/// defaults; else none if the absolute floor was given; else everything.
pub open spec fn share_floor(given: Option<Fraction>, prompt_defaults: bool, other_given: bool) -> Fraction {
    match given {
        Some(f) => f,
        None => if prompt_defaults {
            Fraction { numerator: 5, denominator: 100 }
        } else if other_given {
            Fraction { numerator: 0, denominator: 1 }
        } else {
            Fraction { numerator: 1, denominator: 1 }
        },
    }
}

/// An absolute floor: the one given; else the prompt default; else zero if
/// the fractional floor was given; else the largest count.
pub open spec fn count_floor(
    given: Option<int>,
    prompt_default: int,
    prompt_defaults: bool,
    other_given: bool,
) -> int {
    match given {
        Some(n) => n,
        None => if prompt_defaults {
            prompt_default
        } else if other_given {
            0
        } else {
            u64::MAX as int
        },
    }
}

/// The byte floor that the options ask for, which may exceed 64 bits.
pub open spec fn bytes_floor(o: CliOptions) -> int {
    count_floor(
        match o.min_space_gib {
            Some(n) => Some(n * GIB),
            None => None,
        },
        5 * GIB,
        o.prompt_defaults,
        o.min_share.is_some(),
    )
}

/// The floors that the options ask for.
pub open spec fn floors_of(o: CliOptions) -> Thresholds {
    Thresholds {
        min_free_bytes: bytes_floor(o) as u64,
        min_free_fraction: share_floor(o.min_share, o.prompt_defaults, o.min_space_gib.is_some()),
        min_free_inodes: count_floor(
            match o.min_files {
                Some(n) => Some(n as int),
                None => None,
            },
            5000,
            o.prompt_defaults,
            o.min_files_share.is_some(),
        ) as u64,
        min_free_inode_fraction: share_floor(
            o.min_files_share,
            o.prompt_defaults,
            o.min_files.is_some(),
        ),
    }
}

fn pick_share(given: Option<Fraction>, prompt_defaults: bool, other_given: bool) -> (f: Fraction)
    ensures
        f == share_floor(given, prompt_defaults, other_given),
{
    match given {
        Some(f) => f,
        None => if prompt_defaults {
            Fraction { numerator: 5, denominator: 100 }
        } else if other_given {
            Fraction { numerator: 0, denominator: 1 }
        } else {
            Fraction { numerator: 1, denominator: 1 }
        },
    }
}

/// Works out the floors from the options. `None` exactly when the space
/// given in gibibytes does not fit in 64 bits of bytes.
pub fn resolve_floors(o: &CliOptions) -> (r: Option<Thresholds>)
    ensures
        r.is_some() <==> bytes_floor(*o) <= u64::MAX,
        r.is_some() ==> r.unwrap() == floors_of(*o),
{
    let min_free_bytes: u64 = match o.min_space_gib {
        Some(n) => {
            match checked_gibibytes(n) {
                Some(bytes) => bytes,
                None => {
                    return None;
                },
            }
        },
        None => if o.prompt_defaults {
            Thresholds::default().min_free_bytes
        } else if o.min_share.is_some() {
            0
        } else {
            u64::MAX
        },
    };
    let min_free_inodes: u64 = match o.min_files {
        Some(n) => n,
        None => if o.prompt_defaults {
            5000
        } else if o.min_files_share.is_some() {
            0
        } else {
            u64::MAX
        },
    };
    Some(
        Thresholds {
            min_free_bytes,
            min_free_fraction: pick_share(o.min_share, o.prompt_defaults, o.min_space_gib.is_some()),
            min_free_inodes,
            min_free_inode_fraction: pick_share(
                o.min_files_share,
                o.prompt_defaults,
                o.min_files.is_some(),
            ),
        },
    )
}

/// What the command line does after the check.
#[derive(Clone, Debug, PartialEq, Eq)]
pub enum CliOutput {
    /// Print nothing and succeed.
    Silent,
    /// Print nothing and fail.
    Failure,
    /// Print the detailed figures.
    Detailed,
    /// Print this one line.
    Line(String),
}

/// The mathematical content of an output.
pub ghost enum CliOutputView {
    Silent,
    Failure,
    Detailed,
    Line(Seq<char>),
}

impl View for CliOutput {
    type V = CliOutputView;

    open spec fn view(&self) -> CliOutputView {
        match self {
            CliOutput::Silent => CliOutputView::Silent,
            CliOutput::Failure => CliOutputView::Failure,
            CliOutput::Detailed => CliOutputView::Detailed,
            CliOutput::Line(s) => CliOutputView::Line(s@),
        }
    }
}

/// `[disk: <size>]`, with the free files added where they are given.
pub open spec fn summary_text(size: Seq<char>, files: Option<u64>) -> Seq<char> {
    match files {
        Some(n) => "[disk: "@ + size + " ("@ + decimal(n as nat) + " files)]"@,
        None => "[disk: "@ + size + "]"@,
    }
}

/// Builds the summary line from the text of the available size.
pub fn format_summary(size: &str, files: Option<u64>) -> (s: String)
    ensures
        s@ == summary_text(size@, files),
{
    let mut s = String::from_str("[disk: ");
    s.append(size);
    match files {
        Some(n) => {
            s.append(" (");
            let digits = decimal_string(n);
            s.append(digits.as_str());
            s.append(" files)]");
        },
        None => {
            s.append("]");
        },
    }
    s
}

/// The readings of the checked volume as the evaluator takes them.
pub open spec fn reading(available_bytes: u64, total_bytes: u64, inodes: InodeStats) -> VolumeStats {
    VolumeStats { available_bytes, total_bytes, inodes: Some(inodes) }
}

/// What is printed for a volume: nothing unless it is low; then, in this
/// order of precedence, a silent failure, the detailed figures, the raw
/// bytes, the raw free files, or the summary, which names the free files
/// only when they are what is low.
pub open spec fn output_for(
    o: CliOptions,
    available_bytes: u64,
    total_bytes: u64,
    inodes: InodeStats,
    t: Thresholds,
) -> CliOutputView {
    let stats = reading(available_bytes, total_bytes, inodes);
    if !low(stats, t) {
        CliOutputView::Silent
    } else if o.quiet {
        CliOutputView::Failure
    } else if o.verbose {
        CliOutputView::Detailed
    } else if o.bytes {
        CliOutputView::Line(decimal(available_bytes as nat))
    } else if o.files {
        CliOutputView::Line(decimal(inodes.available as nat))
    } else if low_by_inodes(stats, t) || low_by_inode_share(stats, t) {
        CliOutputView::Line(
            summary_text(human_size_text(available_bytes, false), Some(inodes.available)),
        )
    } else {
        CliOutputView::Line(summary_text(human_size_text(available_bytes, false), None))
    }
}

/// Checks one volume against the floors and decides what to print.
pub fn report(
    o: &CliOptions,
    available_bytes: u64,
    total_bytes: u64,
    inodes: InodeStats,
    t: &Thresholds,
) -> (out: CliOutput)
    ensures
        out@ == output_for(*o, available_bytes, total_bytes, inodes, *t),
{
    let stats = VolumeStats { available_bytes, total_bytes, inodes: Some(inodes) };
    if !is_low(&stats, t) {
        CliOutput::Silent
    } else if o.quiet {
        CliOutput::Failure
    } else if o.verbose {
        CliOutput::Detailed
    } else if o.bytes {
        CliOutput::Line(decimal_string(available_bytes))
    } else if o.files {
        CliOutput::Line(decimal_string(inodes.available))
    } else {
        let size = human_size(available_bytes, false);
        let files_low = inodes.available < t.min_free_inodes || is_below_fraction(
            inodes.available,
            inodes.total,
            t.min_free_inode_fraction,
        );
        if files_low {
            CliOutput::Line(format_summary(size.as_str(), Some(inodes.available)))
        } else {
            CliOutput::Line(format_summary(size.as_str(), None))
        }
    }
}

} // verus!
