//! The menu of the menu-bar item: a title, one line per volume and the
//! entry that opens the disk analyzer.

use vstd::prelude::*;
use vstd::string::*;
use vstd::std_specs::convert::FromSpecImpl;
use crate::config::ids_of;
use crate::render::{first_least, free_percent, least_available, lemma_first_least_unique, percent_free};
use crate::snapshot::Snapshot;
use crate::text::{decimal, decimal_string, human_size, human_size_text};
use crate::volume::VolumeStats;

verus! {

/// One entry of the menu.
#[derive(Clone, Debug, PartialEq, Eq)]
pub enum MenuItem {
    /// A separator line.
    Sep,
    /// The text shown in the menu bar, beside the disk image.
    Title(String),
    /// A line of text.
    Text(String),
    /// A line that runs a command when chosen.
    Action { text: String, command: Vec<String> },
}

/// The menu, top to bottom. The empty menu shows nothing.
#[derive(Clone, Debug, PartialEq, Eq)]
pub struct Menu {
    pub items: Vec<MenuItem>,
}

/// Why the menu could not be built.
#[derive(Clone, Debug, PartialEq, Eq)]
pub enum Error {
    /// Reading the configuration or probing a volume failed.
    Io(String),
    /// The configuration is not valid JSON of the expected shape.
    Json(String),
}

/// The mathematical content of a menu entry.
pub ghost enum ItemView {
    Sep,
    Title(Seq<char>),
    Text(Seq<char>),
    Action(Seq<char>, Seq<Seq<char>>),
}

impl View for MenuItem {
    type V = ItemView;

    open spec fn view(&self) -> ItemView {
        match self {
            MenuItem::Sep => ItemView::Sep,
            MenuItem::Title(s) => ItemView::Title(s@),
            MenuItem::Text(s) => ItemView::Text(s@),
            MenuItem::Action { text, command } => ItemView::Action(text@, ids_of(command@)),
        }
    }
}

impl View for Menu {
    type V = Seq<ItemView>;

    open spec fn view(&self) -> Seq<ItemView> {
        self.items@.map_values(|i: MenuItem| i@)
    }
}

/// The single line that reports an error.
pub open spec fn error_text(e: Error) -> Seq<char> {
    match e {
        Error::Io(m) => "I/O error: "@ + m@,
        Error::Json(m) => "JSON error: "@ + m@,
    }
}

impl From<Error> for Menu {
    /// A menu of one line that names the kind of error and its message.
    fn from(e: Error) -> (menu: Menu)
        ensures
            menu@ == seq![ItemView::Text(error_text(e))],
    {
        let mut line = match &e {
            Error::Io(_) => String::from_str("I/O error: "),
            Error::Json(_) => String::from_str("JSON error: "),
        };
        match &e {
            Error::Io(m) => line.append(m.as_str()),
            Error::Json(m) => line.append(m.as_str()),
        }
        let mut items: Vec<MenuItem> = Vec::new();
        items.push(MenuItem::Text(line));
        let menu = Menu { items };
        assert(menu@ =~= seq![ItemView::Text(error_text(e))]);
        menu
    }
}

impl FromSpecImpl<Error> for Menu {
    open spec fn obeys_from_spec() -> bool {
        false
    }

    open spec fn from_spec(e: Error) -> Menu {
        arbitrary()
    }
}

impl Default for Menu {
    /// The empty menu.
    fn default() -> (menu: Menu)
        ensures
            menu@ == Seq::<ItemView>::empty(),
    {
        let menu = Menu { items: Vec::new() };
        assert(menu@ =~= Seq::<ItemView>::empty());
        menu
    }
}

/// `<volume>: <percent>% (<size>, <n> files)`, without the files where the
/// platform reports none.
pub open spec fn line_text(id: Seq<char>, percent: int, size: Seq<char>, files: Option<u64>) -> Seq<
    char,
> {
    match files {
        Some(n) => id + ": "@ + decimal(percent as nat) + "% ("@ + size + ", "@ + decimal(n as nat)
            + " files)"@,
        None => id + ": "@ + decimal(percent as nat) + "% ("@ + size + ")"@,
    }
}

/// Builds the line of one volume from its figures and the text of its
/// available size.
pub fn format_line(id: &str, percent: u8, size: &str, files: Option<u64>) -> (s: String)
    ensures
        s@ == line_text(id@, percent as int, size@, files),
{
    let mut s = String::from_str(id);
    s.append(": ");
    let digits = decimal_string(percent as u64);
    s.append(digits.as_str());
    s.append("% (");
    s.append(size);
    match files {
        Some(n) => {
            s.append(", ");
            let count = decimal_string(n);
            s.append(count.as_str());
            s.append(" files)");
        },
        None => {
            s.append(")");
        },
    }
    s
}

/// The free inodes of a volume, where reported.
pub open spec fn free_files(stats: VolumeStats) -> Option<u64> {
    match stats.inodes {
        Some(i) => Some(i.available),
        None => None,
    }
}

/// The menu line of the entry `e`.
pub open spec fn entry_line(e: (Seq<char>, VolumeStats)) -> Seq<char> {
    line_text(
        e.0,
        percent_free(e.1.available_bytes, e.1.total_bytes),
        human_size_text(e.1.available_bytes, true),
        free_files(e.1),
    )
}

/// The title of a non-empty menu: the size of the tightest volume.
pub open spec fn title_text(s: Seq<(Seq<char>, VolumeStats)>) -> Seq<char> {
    let i = choose|i: int| first_least(s, i);
    human_size_text(s[i].1.available_bytes, true)
}

/// The entry that opens the disk analyzer.
pub open spec fn analyzer_item() -> ItemView {
    ItemView::Action("Open DaisyDisk"@, seq!["/usr/bin/open"@, "-a"@, "DaisyDisk"@])
}

/// The menu of a snapshot: empty for the empty one; else the title, a
/// separator, a line for every volume in snapshot order, a separator and
/// the analyzer entry.
pub open spec fn menu_of(s: Seq<(Seq<char>, VolumeStats)>) -> Seq<ItemView> {
    if s.len() == 0 {
        Seq::empty()
    } else {
        seq![ItemView::Title(title_text(s)), ItemView::Sep] + Seq::new(
            s.len(),
            |i: int| ItemView::Text(entry_line(s[i])),
        ) + seq![ItemView::Sep, analyzer_item()]
    }
}

/// Builds the menu for a published snapshot.
pub fn menu_for(snapshot: &Snapshot) -> (menu: Menu)
    ensures
        menu@ == menu_of(snapshot@),
{
    let tightest = match least_available(snapshot) {
        None => {
            return Menu::default();
        },
        Some(i) => i,
    };
    proof {
        let k = choose|k: int| first_least(snapshot@, k);
        lemma_first_least_unique(snapshot@, tightest as int, k);
    }
    assert(snapshot.entries[tightest as int]@ == snapshot@[tightest as int]);
    let title = human_size(snapshot.entries[tightest].stats.available_bytes, true);
    let n = snapshot.len();
    let mut menu = Menu { items: Vec::new() };
    menu.items.push(MenuItem::Title(title));
    menu.items.push(MenuItem::Sep);
    let ghost title_item = ItemView::Title(title_text(snapshot@));
    let mut i: usize = 0;
    while i < n
        invariant
            n == snapshot@.len(),
            i <= n,
            menu@.len() == 2 + i,
            menu@[0] == title_item,
            menu@[1] == ItemView::Sep,
            forall|k: int|
                2 <= k < 2 + i ==> #[trigger] menu@[k] == ItemView::Text(
                    entry_line(snapshot@[k - 2]),
                ),
        decreases n - i,
    {
        let entry = &snapshot.entries[i];
        assert(entry@ == snapshot@[i as int]);
        let size = human_size(entry.stats.available_bytes, true);
        let percent = free_percent(entry.stats.available_bytes, entry.stats.total_bytes);
        let files = match entry.stats.inodes {
            Some(counters) => Some(counters.available),
            None => None,
        };
        let line = format_line(entry.id.as_str(), percent, size.as_str(), files);
        let ghost before = menu@;
        menu.items.push(MenuItem::Text(line));
        assert(menu@ =~= before.push(ItemView::Text(entry_line(snapshot@[i as int]))));
        i += 1;
    }
    let ghost lines = menu@;
    menu.items.push(MenuItem::Sep);
    let mut command: Vec<String> = Vec::new();
    command.push(String::from_str("/usr/bin/open"));
    command.push(String::from_str("-a"));
    command.push(String::from_str("DaisyDisk"));
    assert(ids_of(command@) =~= seq!["/usr/bin/open"@, "-a"@, "DaisyDisk"@]);
    menu.items.push(MenuItem::Action { text: String::from_str("Open DaisyDisk"), command });
    assert(menu@ =~= lines.push(ItemView::Sep).push(analyzer_item()));
    assert(menu@ =~= menu_of(snapshot@));
    menu
}

} // verus!
