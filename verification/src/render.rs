//! What the indicator shows for a snapshot: visibility, icon and tooltip.

use vstd::prelude::*;
use vstd::string::*;
use crate::snapshot::Snapshot;
use crate::text::{decimal, decimal_string, human_size, human_size_text};
use crate::volume::VolumeStats;

verus! {

/// Display scale, in per cent, from which the large icons are used.
pub const LARGE_ICON_SCALE_PERCENT: u32 = 150;

/// The four icon resources.
#[derive(Clone, Copy, Debug, PartialEq, Eq, Structural)]
pub enum IconVariant {
    BlackLarge,
    BlackSmall,
    WhiteLarge,
    WhiteSmall,
}

/// Black icons on a light theme, white ones on a dark theme; large ones
/// from the scale break point on.
pub open spec fn icon_choice(light_theme: bool, scale_percent: u32) -> IconVariant {
    if light_theme {
        if scale_percent >= LARGE_ICON_SCALE_PERCENT {
            IconVariant::BlackLarge
        } else {
            IconVariant::BlackSmall
        }
    } else {
        if scale_percent >= LARGE_ICON_SCALE_PERCENT {
            IconVariant::WhiteLarge
        } else {
            IconVariant::WhiteSmall
        }
    }
}

/// Picks the icon for a theme and a display scale given in per cent.
pub fn icon_for(light_theme: bool, scale_percent: u32) -> (icon: IconVariant)
    ensures
        icon == icon_choice(light_theme, scale_percent),
{
    let large = scale_percent >= LARGE_ICON_SCALE_PERCENT;
    match (light_theme, large) {
        (true, true) => IconVariant::BlackLarge,
        (true, false) => IconVariant::BlackSmall,
        (false, true) => IconVariant::WhiteLarge,
        (false, false) => IconVariant::WhiteSmall,
    }
}

/// The theme is light exactly when the system setting is present with value 1.
pub fn theme_is_light(setting: Option<u32>) -> (light: bool)
    ensures
        light == (setting == Some(1u32)),
{
    match setting {
        Some(v) => v == 1,
        None => false,
    }
}

/// Whole per cent of `total` that `available` makes up, capped at 255. With
/// a zero total: 0 when nothing is available, 255 otherwise.
pub open spec fn percent_free(available: u64, total: u64) -> int {
    if total == 0 {
        if available == 0 {
            0
        } else {
            255
        }
    } else if 100 * available / (total as int) > 255 {
        255
    } else {
        100 * available / (total as int)
    }
}

/// Computes the whole per cent of free space.
pub fn free_percent(available: u64, total: u64) -> (p: u8)
    ensures
        p == percent_free(available, total),
{
    if total == 0 {
        return if available == 0 {
            0
        } else {
            255
        };
    }
    let scaled: u128 = 100u128 * (available as u128);
    let q: u128 = scaled / (total as u128);
    if q > 255 {
        255
    } else {
        q as u8
    }
}

/// Position `i` holds the least available bytes, and no earlier position
/// holds as few.
pub open spec fn first_least(s: Seq<(Seq<char>, VolumeStats)>, i: int) -> bool {
    &&& 0 <= i < s.len()
    &&& forall|j: int| 0 <= j < s.len() ==> s[i].1.available_bytes <= (#[trigger] s[j]).1.available_bytes
    &&& forall|j: int| 0 <= j < i ==> s[i].1.available_bytes < (#[trigger] s[j]).1.available_bytes
}

/// Every non-empty snapshot has a first position with the least available
/// bytes.
pub proof fn lemma_first_least_exists(s: Seq<(Seq<char>, VolumeStats)>)
    requires
        s.len() > 0,
    ensures
        exists|i: int| first_least(s, i),
    decreases s.len(),
{
    if s.len() == 1 {
        assert(first_least(s, 0));
    } else {
        let head = s.drop_last();
        lemma_first_least_exists(head);
        let k = choose|k: int| first_least(head, k);
        let last = s.len() - 1;
        assert forall|j: int| 0 <= j < last implies head[j] == s[j] by {}
        if s[last].1.available_bytes < s[k].1.available_bytes {
            assert forall|j: int| 0 <= j < s.len() implies s[last].1.available_bytes <= (
            #[trigger] s[j]).1.available_bytes by {
                if j < last {
                    assert(head[k].1.available_bytes <= head[j].1.available_bytes);
                }
            }
            assert forall|j: int| 0 <= j < last implies s[last].1.available_bytes < (
            #[trigger] s[j]).1.available_bytes by {
                assert(head[k].1.available_bytes <= head[j].1.available_bytes);
            }
            assert(first_least(s, last));
        } else {
            assert forall|j: int| 0 <= j < s.len() implies s[k].1.available_bytes <= (
            #[trigger] s[j]).1.available_bytes by {
                if j < last {
                    assert(head[k].1.available_bytes <= head[j].1.available_bytes);
                }
            }
            assert forall|j: int| 0 <= j < k implies s[k].1.available_bytes < (
            #[trigger] s[j]).1.available_bytes by {
                assert(head[k].1.available_bytes < head[j].1.available_bytes);
            }
            assert(first_least(s, k));
        }
    }
}

/// At most one position is the first with the least available bytes.
pub proof fn lemma_first_least_unique(s: Seq<(Seq<char>, VolumeStats)>, i: int, j: int)
    requires
        first_least(s, i),
        first_least(s, j),
    ensures
        i == j,
{
    if i < j {
        assert(s[j].1.available_bytes < s[i].1.available_bytes);
    } else if j < i {
        assert(s[i].1.available_bytes < s[j].1.available_bytes);
    }
}

/// Finds the volume with the least available bytes, the first of them in
/// snapshot order on a tie. `None` only for the empty snapshot.
pub fn least_available(snapshot: &Snapshot) -> (r: Option<usize>)
    ensures
        r.is_none() <==> snapshot@.len() == 0,
        r.is_some() ==> first_least(snapshot@, r.unwrap() as int),
{
    let n = snapshot.len();
    if n == 0 {
        return None;
    }
    let mut best: usize = 0;
    let mut i: usize = 1;
    while i < n
        invariant
            n == snapshot@.len(),
            1 <= i <= n,
            best < i,
            forall|j: int| 0 <= j < i ==> snapshot@[best as int].1.available_bytes <= (
            #[trigger] snapshot@[j]).1.available_bytes,
            forall|j: int| 0 <= j < best ==> snapshot@[best as int].1.available_bytes < (
            #[trigger] snapshot@[j]).1.available_bytes,
        decreases n - i,
    {
        if snapshot.entries[i].stats.available_bytes < snapshot.entries[best].stats.available_bytes {
            best = i;
        }
        i += 1;
    }
    Some(best)
}

/// `<volume>: <percent>% (<size>)`.
pub open spec fn tooltip_text(id: Seq<char>, percent: int, size: Seq<char>) -> Seq<char> {
    id + ": "@ + decimal(percent as nat) + "% ("@ + size + ")"@
}

/// Puts a tooltip together from a volume's identifier, its free per cent
/// and the text of its available size.
pub fn format_tooltip(id: &str, percent: u8, size: &str) -> (s: String)
    ensures
        s@ == tooltip_text(id@, percent as int, size@),
{
    let mut s = String::from_str(id);
    s.append(": ");
    let digits = decimal_string(percent as u64);
    s.append(digits.as_str());
    s.append("% (");
    s.append(size);
    s.append(")");
    s
}

/// The tooltip of a snapshot: empty for the empty one, else the line of the
/// volume with the least available bytes.
pub open spec fn snapshot_tooltip(s: Seq<(Seq<char>, VolumeStats)>) -> Seq<char> {
    if s.len() == 0 {
        Seq::empty()
    } else {
        let i = choose|i: int| first_least(s, i);
        tooltip_text(
            s[i].0,
            percent_free(s[i].1.available_bytes, s[i].1.total_bytes),
            human_size_text(s[i].1.available_bytes, true),
        )
    }
}

/// What the indicator shows.
#[derive(Debug, PartialEq, Eq)]
pub struct Indicator {
    pub visible: bool,
    pub icon: IconVariant,
    pub tip: String,
}

/// Renders a snapshot: hidden when it is empty, shown otherwise, with the
/// icon for the theme and scale and the tooltip of the tightest volume.
pub fn render(snapshot: &Snapshot, light_theme: bool, scale_percent: u32) -> (shown: Indicator)
    ensures
        shown.visible == (snapshot@.len() > 0),
        shown.icon == icon_choice(light_theme, scale_percent),
        shown.tip@ == snapshot_tooltip(snapshot@),
{
    let icon = icon_for(light_theme, scale_percent);
    match least_available(snapshot) {
        None => Indicator { visible: false, icon, tip: String::new() },
        Some(i) => {
            proof {
                let k = choose|k: int| first_least(snapshot@, k);
                lemma_first_least_unique(snapshot@, i as int, k);
            }
            let entry = &snapshot.entries[i];
            assert(entry@ == snapshot@[i as int]);
            let size = human_size(entry.stats.available_bytes, true);
            let percent = free_percent(entry.stats.available_bytes, entry.stats.total_bytes);
            let tip = format_tooltip(entry.id.as_str(), percent, size.as_str());
            Indicator { visible: true, icon, tip }
        },
    }
}

} // verus!
