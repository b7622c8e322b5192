//! The pane registry: which panes exist, which are visible, and the theme
//! they are drawn with.
use vstd::prelude::*;
use super::events::AppEvent;
use super::help_pane::{dismisses_help, is_help_dismissal, HelpPane};
use crate::ui::Theme;

verus! {

/// The panes of the application.
#[derive(Debug, Clone, Copy, PartialEq, Eq, Structural)]
pub enum PaneId {
    FileTree,
    Monitor,
    Diff,
    SideBySideDiff,
    Help,
    StatusBar,
    CommitPicker,
    CommitSummary,
}

pub const PANE_COUNT: usize = 8;

pub open spec fn spec_pane_index(id: PaneId) -> int {
    match id {
        PaneId::FileTree => 0,
        PaneId::Monitor => 1,
        PaneId::Diff => 2,
        PaneId::SideBySideDiff => 3,
        PaneId::Help => 4,
        PaneId::StatusBar => 5,
        PaneId::CommitPicker => 6,
        PaneId::CommitSummary => 7,
    }
}

pub fn pane_index(id: &PaneId) -> (i: usize)
    ensures
        i == spec_pane_index(*id),
        i < PANE_COUNT,
{
    match id {
        PaneId::FileTree => 0,
        PaneId::Monitor => 1,
        PaneId::Diff => 2,
        PaneId::SideBySideDiff => 3,
        PaneId::Help => 4,
        PaneId::StatusBar => 5,
        PaneId::CommitPicker => 6,
        PaneId::CommitSummary => 7,
    }
}

/// The state the registry keeps of a pane: which pane it is and whether it
/// is visible. Its own event handling is that of the help pane for the help
/// pane; the other panes are drawn by the application and consume no event
/// here.
#[derive(Debug, Clone, Copy, PartialEq, Eq, Structural)]
pub struct PaneState {
    pub id: PaneId,
    pub visible: bool,
}

/// Whether `pane` consumes `event`.
pub open spec fn pane_consumes(pane: PaneState, event: AppEvent) -> bool {
    pane.id == PaneId::Help && dismisses_help(event)
}

impl PaneState {
    pub fn new(id: PaneId, visible: bool) -> (p: PaneState)
        ensures
            p == (PaneState { id, visible }),
    {
        PaneState { id, visible }
    }

    /// The registry entry of a help pane.
    pub fn from_help(h: &HelpPane) -> (p: PaneState)
        ensures
            p == (PaneState { id: PaneId::Help, visible: h.visible }),
    {
        PaneState { id: PaneId::Help, visible: h.visible() }
    }

    pub fn visible(&self) -> (v: bool)
        ensures
            v == self.visible,
    {
        self.visible
    }

    pub fn set_visible(&mut self, visible: bool)
        ensures
            *final(self) == (PaneState { visible, ..*old(self) }),
    {
        self.visible = visible;
    }

    /// Delivers an event: the help pane hides on `?` and Escape and reports
    /// them consumed; the other panes consume nothing.
    pub fn handle_event(&mut self, event: &AppEvent) -> (handled: bool)
        ensures
            handled == pane_consumes(*old(self), *event),
            *final(self) == (if handled { PaneState { visible: false, ..*old(self) } } else { *old(self) }),
    {
        match self.id {
            PaneId::Help => {
                let mut h = HelpPane { visible: self.visible };
                let handled = h.handle_event(event);
                self.visible = h.visible;
                handled
            },
            _ => false,
        }
    }
}

/// The registered pane of each pane id, by index, and the theme.
pub struct PaneRegistryView {
    pub panes: Seq<Option<PaneState>>,
    pub theme: Theme,
}

/// The panes registered at start: the file tree, diff view and status bar
/// shown, the others hidden.
pub open spec fn default_panes() -> Seq<Option<PaneState>> {
    seq![
        Some(PaneState { id: PaneId::FileTree, visible: true }),
        Some(PaneState { id: PaneId::Monitor, visible: false }),
        Some(PaneState { id: PaneId::Diff, visible: true }),
        Some(PaneState { id: PaneId::SideBySideDiff, visible: false }),
        Some(PaneState { id: PaneId::Help, visible: false }),
        Some(PaneState { id: PaneId::StatusBar, visible: true }),
        Some(PaneState { id: PaneId::CommitPicker, visible: false }),
        Some(PaneState { id: PaneId::CommitSummary, visible: false }),
    ]
}

/// Whether the pane registered under `id` is visible (false when none is).
pub open spec fn pane_visible(panes: Seq<Option<PaneState>>, id: PaneId) -> bool {
    match panes[spec_pane_index(id)] {
        Some(p) => p.visible,
        None => false,
    }
}

/// The panes after setting the visibility of the one registered under `id`,
/// if any.
pub open spec fn with_visibility(panes: Seq<Option<PaneState>>, id: PaneId, visible: bool) -> Seq<
    Option<PaneState>,
> {
    match panes[spec_pane_index(id)] {
        Some(p) => panes.update(spec_pane_index(id), Some(PaneState { visible, ..p })),
        None => panes,
    }
}

/// The panes after delivering `event` to the one registered under `id`, if any.
pub open spec fn after_event(panes: Seq<Option<PaneState>>, id: PaneId, event: AppEvent) -> Seq<
    Option<PaneState>,
> {
    match panes[spec_pane_index(id)] {
        Some(p) => if pane_consumes(p, event) {
            panes.update(spec_pane_index(id), Some(PaneState { visible: false, ..p }))
        } else {
            panes
        },
        None => panes,
    }
}

/// A registry is well formed exactly when it has one slot per pane id.
pub broadcast proof fn lemma_registry_wf(r: &PaneRegistry)
    ensures
        #[trigger] r.wf() <==> r@.panes.len() == PANE_COUNT,
{
}

/// The number of registered panes among the first `n` slots.
pub open spec fn registered_count(panes: Seq<Option<PaneState>>, n: int) -> nat
    decreases n,
{
    if n <= 0 {
        0
    } else {
        registered_count(panes, n - 1) + if panes[n - 1] is Some { 1nat } else { 0nat }
    }
}

/// The registry of panes.
pub struct PaneRegistry {
    panes: Vec<Option<PaneState>>,
    theme: Theme,
}

impl View for PaneRegistry {
    type V = PaneRegistryView;

    closed spec fn view(&self) -> PaneRegistryView {
        PaneRegistryView { panes: self.panes@, theme: self.theme }
    }
}

impl PaneRegistry {
    /// Always one slot per pane id.
    pub closed spec fn wf(&self) -> bool {
        self.panes@.len() == PANE_COUNT
    }


    /// A registry with the default panes and the given theme.
    pub fn new(theme: Theme) -> (r: PaneRegistry)
        ensures
            r.wf(),
            r@.panes == default_panes(),
            r@.theme == theme,
    {
        let mut panes: Vec<Option<PaneState>> = Vec::new();
        let mut i: usize = 0;
        while i < PANE_COUNT
            invariant
                i <= PANE_COUNT,
                panes@.len() == i,
                forall|j: int| 0 <= j < i ==> panes@[j] is None,
            decreases PANE_COUNT - i,
        {
            panes.push(None);
            i = i + 1;
        }
        let mut registry = PaneRegistry { panes, theme };
        registry.register_default_panes();
        registry
    }

    fn register_default_panes(&mut self)
        requires
            old(self).wf(),
        ensures
            final(self).wf(),
            final(self)@.panes == default_panes(),
            final(self)@.theme == old(self)@.theme,
    {
        self.register_pane(PaneId::FileTree, PaneState::new(PaneId::FileTree, true));
        self.register_pane(PaneId::Monitor, PaneState::new(PaneId::Monitor, false));
        self.register_pane(PaneId::Diff, PaneState::new(PaneId::Diff, true));
        self.register_pane(PaneId::SideBySideDiff, PaneState::new(PaneId::SideBySideDiff, false));
        let help = HelpPane::new();
        self.register_pane(PaneId::Help, PaneState::from_help(&help));
        self.register_pane(PaneId::StatusBar, PaneState::new(PaneId::StatusBar, true));
        self.register_pane(PaneId::CommitPicker, PaneState::new(PaneId::CommitPicker, false));
        self.register_pane(PaneId::CommitSummary, PaneState::new(PaneId::CommitSummary, false));
        assert(self@.panes =~= default_panes());
    }

    /// Registers `pane` under `id`, replacing any pane registered there.
    pub fn register_pane(&mut self, id: PaneId, pane: PaneState)
        requires
            old(self).wf(),
        ensures
            final(self).wf(),
            final(self)@.panes == old(self)@.panes.update(spec_pane_index(id), Some(pane)),
            final(self)@.theme == old(self)@.theme,
    {
        let i = pane_index(&id);
        self.panes.set(i, Some(pane));
    }

    /// The number of slots, one per pane id in a well-formed registry.
    pub fn pane_slots(&self) -> (n: usize)
        ensures
            n == self@.panes.len(),
    {
        self.panes.len()
    }

    /// Whether every slot holds a registered pane.
    pub fn all_registered(&self) -> (r: bool)
        ensures
            r == forall|i: int| 0 <= i < self@.panes.len() ==> #[trigger] self@.panes[i] is Some,
    {
        let mut i: usize = 0;
        while i < self.panes.len()
            invariant
                i <= self@.panes.len(),
                forall|j: int| 0 <= j < i ==> #[trigger] self@.panes[j] is Some,
            decreases self.panes.len() - i,
        {
            if self.panes[i].is_none() {
                return false;
            }
            i = i + 1;
        }
        true
    }

    /// The number of registered panes.
    pub fn pane_count(&self) -> (n: usize)
        requires
            self.wf(),
        ensures
            n == registered_count(self@.panes, PANE_COUNT as int),
    {
        let mut n: usize = 0;
        let mut i: usize = 0;
        while i < PANE_COUNT
            invariant
                self.wf(),
                i <= PANE_COUNT,
                n <= i,
                n == registered_count(self@.panes, i as int),
            decreases PANE_COUNT - i,
        {
            if self.panes[i].is_some() {
                n = n + 1;
            }
            i = i + 1;
        }
        n
    }

    /// The pane registered under `id`.
    pub fn get_pane(&self, id: &PaneId) -> (p: Option<&PaneState>)
        requires
            self.wf(),
        ensures
            match p {
                Some(q) => self@.panes[spec_pane_index(*id)] == Some(*q),
                None => self@.panes[spec_pane_index(*id)] is None,
            },
    {
        let i = pane_index(id);
        match &self.panes[i] {
            Some(q) => Some(q),
            None => None,
        }
    }

    /// Whether the pane registered under `id` is visible (false when none is).
    pub fn is_visible(&self, id: &PaneId) -> (v: bool)
        requires
            self.wf(),
        ensures
            v == pane_visible(self@.panes, *id),
    {
        match self.get_pane(id) {
            Some(p) => p.visible(),
            None => false,
        }
    }

    /// Shows or hides the pane registered under `id`; reports whether there is one.
    pub fn set_pane_visible(&mut self, id: &PaneId, visible: bool) -> (found: bool)
        requires
            old(self).wf(),
        ensures
            final(self).wf(),
            found == old(self)@.panes[spec_pane_index(*id)] is Some,
            final(self)@.panes == with_visibility(old(self)@.panes, *id, visible),
            final(self)@.theme == old(self)@.theme,
    {
        let i = pane_index(id);
        match self.panes[i] {
            Some(p) => {
                let mut q = p;
                q.set_visible(visible);
                self.panes.set(i, Some(q));
                true
            },
            None => false,
        }
    }

    /// Delivers `event` to the pane registered under `id`; gives whether it
    /// consumed the event, or `None` when no pane is registered there.
    pub fn send_event(&mut self, id: &PaneId, event: &AppEvent) -> (r: Option<bool>)
        requires
            old(self).wf(),
        ensures
            final(self).wf(),
            r == match old(self)@.panes[spec_pane_index(*id)] {
                Some(p) => Some(pane_consumes(p, *event)),
                None => None,
            },
            final(self)@.panes == after_event(old(self)@.panes, *id, *event),
            final(self)@.theme == old(self)@.theme,
    {
        let i = pane_index(id);
        match self.panes[i] {
            Some(p) => {
                let mut q = p;
                let handled = q.handle_event(event);
                if handled {
                    self.panes.set(i, Some(q));
                }
                Some(handled)
            },
            None => None,
        }
    }

    /// The theme the panes are drawn with.
    pub fn theme(&self) -> (t: Theme)
        ensures
            t == self@.theme,
    {
        self.theme
    }

    /// Changes the theme and tells every pane about it; no pane consumes the
    /// notice, so the panes stay as they were.
    pub fn set_theme(&mut self, theme: Theme)
        requires
            old(self).wf(),
        ensures
            final(self).wf(),
            final(self)@.panes == old(self)@.panes,
            final(self)@.theme == theme,
    {
        self.theme = theme;
        let event = AppEvent::ThemeChanged;
        let mut i: usize = 0;
        while i < PANE_COUNT
            invariant
                self.wf(),
                i <= PANE_COUNT,
                self@.panes == old(self)@.panes,
                self@.theme == theme,
                event == AppEvent::ThemeChanged,
            decreases PANE_COUNT - i,
        {
            if let Some(p) = self.panes[i] {
                let mut q = p;
                let _ = q.handle_event(&event);
            }
            i = i + 1;
        }
    }
}

} // verus!
