//! The panel registry and focus router: at most one of the adjustable
//! panels holds top-level input focus, and navigation and edit keys are
//! routed to it.

use vstd::prelude::*;
use crate::app::AppEvent;
use crate::event::Key;
use crate::framework::fingerprint::Fingerprint;
use crate::tui::component::brightness_panel::BrightnessPanelComponent;
use crate::tui::component::charge_panel::ChargePanelComponent;
use crate::tui::component::{AdjustablePanel, PanelView};

verus! {

/// The closed list of adjustable panel kinds the registry routes to.
pub enum PanelComponent {
    Charge(ChargePanelComponent),
    Brightness(BrightnessPanelComponent),
}

/// The mathematical model of one registered panel: its panel state, plus
/// whatever immutable policy the panel kind carries.
#[verifier::ext_equal]
pub enum PanelComponentView {
    Charge(PanelView),
    Brightness(PanelView, Fingerprint),
}

impl View for PanelComponent {
    type V = PanelComponentView;

    open spec fn view(&self) -> PanelComponentView {
        match self {
            PanelComponent::Charge(c) => PanelComponentView::Charge(c.0@),
            PanelComponent::Brightness(b) => PanelComponentView::Brightness(
                b.panel@,
                b.fingerprint,
            ),
        }
    }
}

impl PanelComponentView {
    pub open spec fn wf(self) -> bool {
        match self {
            PanelComponentView::Charge(p) => p.wf() && p.controls.len() == 1,
            PanelComponentView::Brightness(p, _) => p.wf() && p.controls.len() == 2,
        }
    }

    /// The panel state inside, whatever the kind.
    pub open spec fn panel(self) -> PanelView {
        match self {
            PanelComponentView::Charge(p) => p,
            PanelComponentView::Brightness(p, _) => p,
        }
    }

    pub open spec fn selected(self) -> bool {
        self.panel().selected
    }

    /// The same panel with its top-level focus flag flipped.
    pub open spec fn toggled(self) -> Self {
        match self {
            PanelComponentView::Charge(p) => PanelComponentView::Charge(
                p.with_selected(!p.selected),
            ),
            PanelComponentView::Brightness(p, f) => PanelComponentView::Brightness(
                p.with_selected(!p.selected),
                f,
            ),
        }
    }

    /// One key offered to this panel, routed by its kind.  A panel without
    /// top-level focus ignores every key and yields nothing.
    pub open spec fn spec_handle_input(self, key: Key) -> (Self, Option<AppEvent>) {
        match self {
            PanelComponentView::Charge(p) => {
                let (p2, command) = ChargePanelComponent::spec_handle_input(p, key);
                (PanelComponentView::Charge(p2), command)
            },
            PanelComponentView::Brightness(p, f) => {
                let (p2, command) = BrightnessPanelComponent::spec_handle_input(p, f, key);
                (PanelComponentView::Brightness(p2, f), command)
            },
        }
    }
}

impl PanelComponent {
    /// Flips the panel's top-level focus flag.
    pub fn toggle(&mut self)
        ensures
            final(self)@ == old(self)@.toggled(),
    {
        match self {
            PanelComponent::Charge(c) => c.0.toggle(),
            PanelComponent::Brightness(b) => b.panel.toggle(),
        }
    }

    /// Offers one key to this panel; see
    /// `PanelComponentView::spec_handle_input`.
    pub fn handle_input(&mut self, key: Key) -> (r: Option<AppEvent>)
        requires
            old(self)@.wf(),
        ensures
            final(self)@.wf(),
            (final(self)@, r) == old(self)@.spec_handle_input(key),
    {
        match self {
            PanelComponent::Charge(c) => c.handle_input(key),
            PanelComponent::Brightness(b) => b.handle_input(key),
        }
    }
}

/// Mutable access to one registered panel.
fn panel_at(panels: &mut Vec<PanelComponent>, i: usize) -> (panel: &mut PanelComponent)
    requires
        i < old(panels)@.len(),
    ensures
        *panel == old(panels)@[i as int],
        final(panels)@ == old(panels)@.update(i as int, *final(panel)),
{
    &mut panels[i]
}

/// The registry of adjustable panels and the top-level focus position.
pub struct MainComponent {
    pub adjustable_panels: Vec<PanelComponent>,
    pub selected_panel: Option<usize>,
}

/// The mathematical model of the registry.
#[verifier::ext_equal]
pub struct MainView {
    pub panels: Seq<PanelComponentView>,
    pub selected_panel: Option<int>,
}

impl View for MainComponent {
    type V = MainView;

    open spec fn view(&self) -> MainView {
        MainView {
            panels: self.adjustable_panels@.map_values(|p: PanelComponent| p@),
            selected_panel: match self.selected_panel {
                Some(i) => Some(i as int),
                None => None,
            },
        }
    }
}

impl MainView {
    /// Every panel is well-formed, and the focus position is coherent: when
    /// `selected_panel` is `Some(i)`, panel `i` and only panel `i` carries
    /// the selected flag; when it is `None`, no panel does.
    pub open spec fn wf(self) -> bool {
        &&& self.panels.len() >= 1
        &&& forall|i: int| 0 <= i < self.panels.len() ==> self.panels[i].wf()
        &&& match self.selected_panel {
            Some(s) => 0 <= s < self.panels.len() && forall|j: int|
                0 <= j < self.panels.len() ==> (self.panels[j].selected() <==> j == s),
            None => forall|j: int| 0 <= j < self.panels.len() ==> !self.panels[j].selected(),
        }
    }

    /// The focus position one `switch_panels` call later: from nothing to
    /// panel 0, from panel `i` to `i + 1`, and from the last panel back to
    /// nothing — a strict linear traversal with no wraparound.
    pub open spec fn spec_next_selection(selected: Option<int>, len: int) -> Option<int> {
        match selected {
            None => Some(0int),
            Some(i) => if i < len - 1 {
                Some(i + 1)
            } else {
                None
            },
        }
    }

    /// The registry one `switch_panels` call later: the focus position
    /// advances and the flags of the panels left and entered are flipped.
    pub open spec fn spec_switch(self) -> MainView {
        let len = self.panels.len() as int;
        match self.selected_panel {
            None => MainView {
                panels: self.panels.update(0, self.panels[0].toggled()),
                selected_panel: Some(0int),
            },
            Some(i) => if i < len - 1 {
                MainView {
                    panels: self.panels.update(i, self.panels[i].toggled()).update(
                        i + 1,
                        self.panels[i + 1].toggled(),
                    ),
                    selected_panel: Some(i + 1),
                }
            } else {
                MainView {
                    panels: self.panels.update(i, self.panels[i].toggled()),
                    selected_panel: None,
                }
            },
        }
    }

    /// One key offered to the panels in order, the first command yielded
    /// short-circuiting the rest.  Since at most one panel is selected and
    /// unselected panels ignore every key, exactly the selected panel — if
    /// any — reacts.
    pub open spec fn spec_route(self, key: Key) -> (MainView, Option<AppEvent>) {
        match self.selected_panel {
            Some(s) => {
                let (p2, command) = self.panels[s].spec_handle_input(key);
                (MainView { panels: self.panels.update(s, p2), ..self }, command)
            },
            None => (self, None),
        }
    }

    /// The full effect of one input key on the registry: Tab moves the
    /// top-level focus first, then the key is offered to the panels.
    pub open spec fn spec_handle_input(self, key: Key) -> (MainView, Option<AppEvent>) {
        let routed = if key == Key::Tab {
            self.spec_switch()
        } else {
            self
        };
        routed.spec_route(key)
    }
}

/// The registry as `MainComponent::new` builds it: the charge panel then
/// the brightness panel, all controls unfocused at zero, no panel selected.
pub open spec fn spec_initial_main(fingerprint: Fingerprint) -> MainView {
    MainView {
        panels: seq![
            PanelComponentView::Charge(
                PanelView {
                    selected: false,
                    controls: seq![crate::tui::control::AdjustableControl::Percentage(false, 0)],
                    selected_control: 0,
                },
            ),
            PanelComponentView::Brightness(
                PanelView {
                    selected: false,
                    controls: seq![
                        crate::tui::control::AdjustableControl::Percentage(false, 0),
                        crate::tui::control::AdjustableControl::Percentage(false, 0),
                    ],
                    selected_control: 0,
                },
                fingerprint,
            ),
        ],
        selected_panel: None,
    }
}

impl MainComponent {
    /// A fresh registry holding the charge panel then the brightness panel,
    /// with no panel selected.
    pub fn new(fingerprint: Fingerprint) -> (r: Self)
        ensures
            r@.wf(),
            r@ == spec_initial_main(fingerprint),
    {
        let charge_panel = ChargePanelComponent::new();
        let brightness_panel = BrightnessPanelComponent::new(fingerprint);
        let mut adjustable_panels: Vec<PanelComponent> = Vec::new();
        adjustable_panels.push(PanelComponent::Charge(charge_panel));
        adjustable_panels.push(PanelComponent::Brightness(brightness_panel));
        let r = MainComponent { adjustable_panels, selected_panel: None };
        proof {
            assert(r@.panels.len() == 2);
            assert(r@.panels[0] == r.adjustable_panels@[0]@);
            assert(r@.panels[1] == r.adjustable_panels@[1]@);
            assert(r@ =~~= spec_initial_main(fingerprint));
        }
        r
    }

    /// Advances the top-level focus by one step of the traversal; see
    /// `MainView::spec_next_selection`.
    pub fn switch_panels(&mut self)
        requires
            old(self)@.wf(),
        ensures
            final(self)@.wf(),
            final(self)@ == old(self)@.spec_switch(),
    {
        let ghost pre = self@;
        let len = self.adjustable_panels.len();
        match self.selected_panel {
            Some(selected) => {
                if selected < len - 1 {
                    let next = selected + 1;
                    panel_at(&mut self.adjustable_panels, selected).toggle();
                    panel_at(&mut self.adjustable_panels, next).toggle();
                    self.selected_panel = Some(next);
                    proof {
                        assert(self@.panels =~= pre.panels.update(
                            selected as int,
                            pre.panels[selected as int].toggled(),
                        ).update(next as int, pre.panels[next as int].toggled()));
                        assert(self@ =~= pre.spec_switch());
                    }
                } else {
                    panel_at(&mut self.adjustable_panels, selected).toggle();
                    self.selected_panel = None;
                    proof {
                        assert(self@.panels =~= pre.panels.update(
                            selected as int,
                            pre.panels[selected as int].toggled(),
                        ));
                        assert(self@ =~= pre.spec_switch());
                    }
                }
            },
            None => {
                panel_at(&mut self.adjustable_panels, 0).toggle();
                self.selected_panel = Some(0);
                proof {
                    assert(self@.panels =~= pre.panels.update(0, pre.panels[0].toggled()));
                    assert(self@ =~= pre.spec_switch());
                }
            },
        }
    }

    /// Handles one input key: Tab switches the top-level focus, and the key
    /// is then offered to each panel in order, the first command yielded
    /// short-circuiting the rest.
    pub fn handle_input(&mut self, key: Key) -> (r: Option<AppEvent>)
        requires
            old(self)@.wf(),
        ensures
            final(self)@.wf(),
            (final(self)@, r) == old(self)@.spec_handle_input(key),
    {
        if let Key::Tab = key {
            self.switch_panels();
        }
        let ghost routed = self@;
        let mut app_event: Option<AppEvent> = None;
        let len = self.adjustable_panels.len();
        let mut i: usize = 0;
        while i < len
            invariant
                routed.wf(),
                i <= len,
                len == self.adjustable_panels@.len(),
                self@.selected_panel == routed.selected_panel,
                forall|j: int| 0 <= j < len ==> (#[trigger] self@.panels[j]).wf(),
                match routed.selected_panel {
                    Some(s) => if i <= s {
                        self@ == routed && app_event is None
                    } else {
                        (self@, app_event) == routed.spec_route(key)
                    },
                    None => self@ == routed && app_event is None,
                },
            decreases len - i,
        {
            if app_event.is_none() {
                let ghost before = self@;
                let event = panel_at(&mut self.adjustable_panels, i).handle_input(key);
                app_event = event;
                proof {
                    assert(self@.panels =~= before.panels.update(i as int, self@.panels[i as int]));
                    if before.panels[i as int].selected() {
                        assert(routed.selected_panel == Some(i as int));
                        assert(before == routed);
                        assert(self@ =~= routed.spec_route(key).0);
                    } else {
                        assert(before.panels[i as int].spec_handle_input(key) == (
                            before.panels[i as int],
                            None::<AppEvent>,
                        ));
                        assert(self@.panels =~= before.panels);
                        assert(self@ =~= before);
                    }
                }
            }
            i = i + 1;
        }
        proof {
            if let Some(s) = routed.selected_panel {
                lemma_handle_input_preserves_selected_flag(routed.panels[s], key);
                assert forall|j: int| 0 <= j < self@.panels.len() implies (
                (#[trigger] self@.panels[j]).selected() <==> j == s) by {
                    if j != s {
                        assert(self@.panels[j] == routed.panels[j]);
                    }
                }
            }
        }
        app_event
    }
}

/// Routing a key to a panel never moves the top-level focus: only Tab, via
/// `switch_panels`, does that.
pub proof fn lemma_handle_input_preserves_selected_flag(panel: PanelComponentView, key: Key)
    requires
        panel.wf(),
    ensures
        panel.spec_handle_input(key).0.selected() == panel.selected(),
        panel.spec_handle_input(key).0.wf(),
{
}

/// One `switch_panels` transition moves the focus position exactly as the
/// traversal function says, whatever the panels hold.
pub proof fn lemma_switch_advances_selection(registry: MainView)
    requires
        registry.wf(),
    ensures
        registry.spec_switch().selected_panel == MainView::spec_next_selection(
            registry.selected_panel,
            registry.panels.len() as int,
        ),
{
}

/// The focus position after `count` traversal steps from "no panel
/// selected".
pub open spec fn spec_selection_after(len: int, count: nat) -> Option<int>
    decreases count,
{
    if count == 0 {
        None
    } else {
        MainView::spec_next_selection(spec_selection_after(len, (count - 1) as nat), len)
    }
}

/// Each of the first `len` traversal steps from "no panel selected" lands
/// on the next panel in order: step `count` selects panel `count - 1`.
pub proof fn lemma_traversal_visits_each_panel(len: int, count: nat)
    requires
        len >= 1,
        1 <= count <= len,
    ensures
        spec_selection_after(len, count) == Some(count - 1),
    decreases count,
{
    if count == 1 {
        assert(spec_selection_after(len, 0) is None);
    } else {
        lemma_traversal_visits_each_panel(len, (count - 1) as nat);
    }
}

/// The full traversal over `len` panels: the `len + 1`-th step leaves every
/// panel and returns to "no panel selected" — there is no wraparound — and
/// the step after that restarts at panel 0.
pub proof fn lemma_traversal_returns_to_none(len: int)
    requires
        len >= 1,
    ensures
        spec_selection_after(len, (len + 1) as nat) == None::<int>,
        spec_selection_after(len, (len + 2) as nat) == Some(0int),
{
    lemma_traversal_visits_each_panel(len, len as nat);
}

} // verus!
