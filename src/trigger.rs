//! What happens when the global shortcut fires: the selection is read, then
//! the translation window is shown, then the captured text is handed to the
//! window. The host performs each action and reports back with an event.

use vstd::prelude::*;

verus! {

/// What the host reports to the flow.
#[derive(Debug)]
pub enum TriggerEvent {
    /// The shortcut was pressed.
    Pressed,
    /// The selection was read, with the text found.
    SelectionRead(String),
    /// The translation window is shown and focused.
    WindowShown,
}

/// What the flow asks the host to do next.
#[derive(Debug, PartialEq, Eq)]
pub enum TriggerAction {
    /// Read the current selection.
    ReadSelection,
    /// Show and focus the translation window.
    ShowWindow,
    /// Hand this text to the window as a translation request.
    Emit(String),
    /// Nothing: the event did not fit the flow's phase.
    Ignore,
}

/// Where the flow stands.
#[derive(PartialEq, Eq, Structural, Clone, Copy)]
pub enum TriggerPhase {
    Idle,
    Capturing,
    Revealing,
}

/// An event, with texts as character sequences.
pub ghost enum EventView {
    Pressed,
    SelectionRead(Seq<char>),
    WindowShown,
}

/// An action, with texts as character sequences.
pub ghost enum ActionView {
    ReadSelection,
    ShowWindow,
    Emit(Seq<char>),
    Ignore,
}

impl TriggerEvent {
    pub open spec fn view(&self) -> EventView {
        match self {
            TriggerEvent::Pressed => EventView::Pressed,
            TriggerEvent::SelectionRead(s) => EventView::SelectionRead(s@),
            TriggerEvent::WindowShown => EventView::WindowShown,
        }
    }
}

impl TriggerAction {
    pub open spec fn view(&self) -> ActionView {
        match self {
            TriggerAction::ReadSelection => ActionView::ReadSelection,
            TriggerAction::ShowWindow => ActionView::ShowWindow,
            TriggerAction::Emit(s) => ActionView::Emit(s@),
            TriggerAction::Ignore => ActionView::Ignore,
        }
    }
}

/// The state of the flow: its phase and the text captured.
pub ghost struct FlowState {
    pub phase: TriggerPhase,
    pub captured: Seq<char>,
}

/// One step of the flow: the state after `e`, and the action asked for.
pub open spec fn step_of(s: FlowState, e: EventView) -> (FlowState, ActionView) {
    match (s.phase, e) {
        (TriggerPhase::Idle, EventView::Pressed) => (
            FlowState { phase: TriggerPhase::Capturing, captured: Seq::empty() },
            ActionView::ReadSelection,
        ),
        (TriggerPhase::Capturing, EventView::SelectionRead(t)) => (
            FlowState { phase: TriggerPhase::Revealing, captured: t },
            ActionView::ShowWindow,
        ),
        (TriggerPhase::Revealing, EventView::WindowShown) => (
            FlowState { phase: TriggerPhase::Idle, captured: Seq::empty() },
            ActionView::Emit(s.captured),
        ),
        _ => (s, ActionView::Ignore),
    }
}

/// The flow before any event.
pub open spec fn initial_state() -> FlowState {
    FlowState { phase: TriggerPhase::Idle, captured: Seq::empty() }
}

/// The state after a sequence of events, from the initial state.
pub open spec fn state_after(events: Seq<EventView>) -> FlowState
    decreases events.len(),
{
    if events.len() == 0 {
        initial_state()
    } else {
        step_of(state_after(events.drop_last()), events.last()).0
    }
}

/// The actions asked for along a sequence of events, from the initial state.
pub open spec fn actions_after(events: Seq<EventView>) -> Seq<ActionView>
    decreases events.len(),
{
    if events.len() == 0 {
        Seq::empty()
    } else {
        actions_after(events.drop_last()).push(
            step_of(state_after(events.drop_last()), events.last()).1,
        )
    }
}

/// The last action of `acts` that is not `Ignore`.
pub open spec fn last_real(acts: Seq<ActionView>) -> Option<ActionView>
    decreases acts.len(),
{
    if acts.len() == 0 {
        None
    } else if acts.last() is Ignore {
        last_real(acts.drop_last())
    } else {
        Some(acts.last())
    }
}

/// The phase agrees with the last action taken.
pub open spec fn phase_matches(phase: TriggerPhase, acts: Seq<ActionView>) -> bool {
    match phase {
        TriggerPhase::Idle => last_real(acts) is None || last_real(acts) matches Some(ActionView::Emit(_)),
        TriggerPhase::Capturing => last_real(acts) == Some(ActionView::ReadSelection),
        TriggerPhase::Revealing => last_real(acts) == Some(ActionView::ShowWindow),
    }
}

proof fn lemma_phase_matches(events: Seq<EventView>)
    ensures
        phase_matches(state_after(events).phase, actions_after(events)),
        actions_after(events).len() == events.len(),
    decreases events.len(),
{
    if events.len() > 0 {
        let prev = events.drop_last();
        lemma_phase_matches(prev);
        let acts = actions_after(events);
        assert(acts.drop_last() =~= actions_after(prev));
    }
}

/// In every run of the flow, each request to show the window directly
/// follows a request to read the selection (ignored events aside), and each
/// hand-over of text directly follows a request to show the window: the
/// selection is always read before the window appears.
pub proof fn lemma_capture_before_reveal(events: Seq<EventView>)
    ensures
        forall|j: int| 0 <= j < actions_after(events).len()
            && #[trigger] actions_after(events)[j] is ShowWindow
            ==> last_real(actions_after(events).take(j)) == Some(ActionView::ReadSelection),
        forall|j: int| 0 <= j < actions_after(events).len()
            && #[trigger] actions_after(events)[j] is Emit
            ==> last_real(actions_after(events).take(j)) == Some(ActionView::ShowWindow),
    decreases events.len(),
{
    if events.len() > 0 {
        let prev = events.drop_last();
        lemma_capture_before_reveal(prev);
        lemma_phase_matches(prev);
        let acts = actions_after(events);
        let before = actions_after(prev);
        assert(acts.take(before.len() as int) =~= before);
        assert forall|j: int| 0 <= j < acts.len() && #[trigger] acts[j] is ShowWindow
            implies last_real(acts.take(j)) == Some(ActionView::ReadSelection) by {
            if j < before.len() {
                assert(acts.take(j) =~= before.take(j));
                assert(acts[j] == before[j]);
            }
        }
        assert forall|j: int| 0 <= j < acts.len() && #[trigger] acts[j] is Emit
            implies last_real(acts.take(j)) == Some(ActionView::ShowWindow) by {
            if j < before.len() {
                assert(acts.take(j) =~= before.take(j));
                assert(acts[j] == before[j]);
            }
        }
    }
}

/// The trigger flow of the global shortcut.
pub struct TriggerFlow {
    phase: TriggerPhase,
    captured: String,
}

impl TriggerFlow {
    /// The state of the flow.
    pub closed spec fn state(&self) -> FlowState {
        FlowState { phase: self.phase, captured: self.captured@ }
    }

    /// A flow that waits for the shortcut.
    pub fn new() -> (r: TriggerFlow)
        ensures
            r.state() == initial_state(),
    {
        TriggerFlow { phase: TriggerPhase::Idle, captured: String::new() }
    }

    /// Whether the flow waits for the shortcut.
    pub fn is_idle(&self) -> (r: bool)
        ensures
            r == (self.state().phase == TriggerPhase::Idle),
    {
        self.phase == TriggerPhase::Idle
    }

    /// Takes in what the host reports and says what it is to do next.
    pub fn step(&mut self, event: TriggerEvent) -> (r: TriggerAction)
        ensures
            (final(self).state(), r.view()) == step_of(old(self).state(), event.view()),
    {
        match (self.phase, event) {
            (TriggerPhase::Idle, TriggerEvent::Pressed) => {
                self.phase = TriggerPhase::Capturing;
                self.captured = String::new();
                TriggerAction::ReadSelection
            },
            (TriggerPhase::Capturing, TriggerEvent::SelectionRead(t)) => {
                self.phase = TriggerPhase::Revealing;
                self.captured = t;
                TriggerAction::ShowWindow
            },
            (TriggerPhase::Revealing, TriggerEvent::WindowShown) => {
                self.phase = TriggerPhase::Idle;
                let text = self.captured.clone();
                self.captured = String::new();
                TriggerAction::Emit(text)
            },
            _ => TriggerAction::Ignore,
        }
    }
}

} // verus!
