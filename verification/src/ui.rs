//! The indicator's side of the hand-off: the coalescing wake signal, the
//! redraw, and the dispatch of user input.

use vstd::prelude::*;
use crate::poller::{fatal_text, format_fatal};
use crate::render::{icon_choice, render, snapshot_tooltip, Indicator};
use crate::store::StateStore;
use crate::volume::VolumeStats;

verus! {

/// A single-slot notification: raising it while it is already pending
/// changes nothing, and taking it clears it.
#[derive(Clone, Copy, Debug, PartialEq, Eq, Structural)]
pub struct WakeSignal {
    pub pending: bool,
}

impl Default for WakeSignal {
    /// A signal with nothing pending.
    fn default() -> (w: WakeSignal)
        ensures
            !w.pending,
    {
        WakeSignal { pending: false }
    }
}

impl WakeSignal {
    /// The signal once it has been raised.
    pub open spec fn raised(self) -> WakeSignal {
        WakeSignal { pending: true }
    }

    /// The signal after `n` further raises.
    pub open spec fn raised_times(self, n: nat) -> WakeSignal
        decreases n,
    {
        if n == 0 {
            self
        } else {
            self.raised().raised_times((n - 1) as nat)
        }
    }

    /// Whether a take finds the signal pending, and the signal afterwards.
    pub open spec fn taken(self) -> (bool, WakeSignal) {
        (self.pending, WakeSignal { pending: false })
    }

    /// A signal with nothing pending.
    pub fn new() -> (w: WakeSignal)
        ensures
            !w.pending,
    {
        WakeSignal { pending: false }
    }

    /// Raises the signal.
    pub fn signal(&mut self)
        ensures
            *final(self) == old(self).raised(),
    {
        self.pending = true;
    }

    /// Takes the signal: says whether it was pending and clears it.
    pub fn take(&mut self) -> (was_pending: bool)
        ensures
            was_pending == old(self).taken().0,
            *final(self) == old(self).taken().1,
    {
        let was_pending = self.pending;
        self.pending = false;
        was_pending
    }
}

/// Any number of raises, one or more, before a take are worth one: the
/// first take finds the signal pending and the next one does not.
pub proof fn lemma_signals_coalesce(w: WakeSignal, n: nat)
    requires
        n >= 1,
    ensures
        w.raised_times(n) == w.raised(),
        w.raised_times(n).taken().0,
        !w.raised_times(n).taken().1.taken().0,
    decreases n,
{
    if n > 1 {
        lemma_signals_coalesce(w.raised(), (n - 1) as nat);
    } else {
        assert(w.raised().raised_times(0) == w.raised());
    }
}

/// `shown` is what the snapshot `s` looks like under the theme and scale.
pub open spec fn renders(
    shown: Indicator,
    s: Seq<(Seq<char>, VolumeStats)>,
    light_theme: bool,
    scale_percent: u32,
) -> bool {
    &&& shown.visible == (s.len() > 0)
    &&& shown.icon == icon_choice(light_theme, scale_percent)
    &&& shown.tip@ == snapshot_tooltip(s)
}

/// Handles a wake: if the signal is pending, clears it, reads the store
/// once and renders what it holds at that moment; if not, does nothing.
pub fn on_wake(
    signal: &mut WakeSignal,
    store: &StateStore,
    light_theme: bool,
    scale_percent: u32,
) -> (redraw: Option<Indicator>)
    ensures
        redraw.is_some() == old(signal).pending,
        !final(signal).pending,
        redraw.is_some() ==> exists|s: Seq<(Seq<char>, VolumeStats)>| #[trigger]
            renders(redraw.unwrap(), s, light_theme, scale_percent),
{
    if signal.take() {
        let current = store.read();
        let shown = render(&current, light_theme, scale_percent);
        let redraw = Some(shown);
        assert(renders(redraw.unwrap(), current@, light_theme, scale_percent));
        redraw
    } else {
        None
    }
}

/// The external programs that the indicator can start.
#[derive(Clone, Copy, Debug, PartialEq, Eq, Structural)]
pub enum Tool {
    DiskAnalyzer,
    CleanupSessions,
}

/// What reaches the indicator's event loop.
#[derive(Clone, Copy, Debug, PartialEq, Eq, Structural)]
pub enum UiEvent {
    Wake,
    PrimaryClick,
    ContextMenu,
    CleanupChosen,
    ExitChosen,
}

/// What the event loop does about it.
#[derive(Clone, Copy, Debug, PartialEq, Eq, Structural)]
pub enum UiAction {
    Redraw,
    Launch(Tool),
    ShowMenu,
    Quit,
}

/// The action that belongs to an event.
pub open spec fn action_of(event: UiEvent) -> UiAction {
    match event {
        UiEvent::Wake => UiAction::Redraw,
        UiEvent::PrimaryClick => UiAction::Launch(Tool::DiskAnalyzer),
        UiEvent::ContextMenu => UiAction::ShowMenu,
        UiEvent::CleanupChosen => UiAction::Launch(Tool::CleanupSessions),
        UiEvent::ExitChosen => UiAction::Quit,
    }
}

/// Maps an event of the indicator to the action it triggers.
pub fn dispatch(event: UiEvent) -> (action: UiAction)
    ensures
        action == action_of(event),
{
    match event {
        UiEvent::Wake => UiAction::Redraw,
        UiEvent::PrimaryClick => UiAction::Launch(Tool::DiskAnalyzer),
        UiEvent::ContextMenu => UiAction::ShowMenu,
        UiEvent::CleanupChosen => UiAction::Launch(Tool::CleanupSessions),
        UiEvent::ExitChosen => UiAction::Quit,
    }
}

/// The operation named in the notification when a tool fails to start.
pub open spec fn launch_context(tool: Tool) -> Seq<char> {
    match tool {
        Tool::DiskAnalyzer => "open_windirstat"@,
        Tool::CleanupSessions => "cargo_sweep"@,
    }
}

/// The text of the fatal notification for a tool that could not be started.
pub fn launch_failure_text(tool: Tool, message: &str, detail: &str) -> (s: String)
    ensures
        s@ == fatal_text(launch_context(tool), message@, detail@),
{
    match tool {
        Tool::DiskAnalyzer => format_fatal("open_windirstat", message, detail),
        Tool::CleanupSessions => format_fatal("cargo_sweep", message, detail),
    }
}

} // verus!
