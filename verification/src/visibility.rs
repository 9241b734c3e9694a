//! The controller that decides, event by event, whether the notes window is
//! shown, hidden or pinned. Each event is answered with the commands that the
//! host is to carry out, in order; the controller itself touches no window.

use crate::clock::{is_debounced, within_debounce, DEBOUNCE_MILLIS};
use crate::geometry::{cursor_near_window, inset_fits, inset_position, near_window};
use crate::geometry::{Point, Snapshot, ANCHOR_INSET_X, ANCHOR_INSET_Y};
use vstd::prelude::*;

verus! {

/// Logical width that a reset gives the window.
pub const RESET_WIDTH: u32 = 400;

/// Logical height that a reset gives the window.
pub const RESET_HEIGHT: u32 = 600;

/// Logical gap that a reset leaves to the screen's right edge.
pub const RESET_MARGIN_RIGHT: u32 = 20;

/// Logical gap that a reset leaves to the screen's bottom edge.
pub const RESET_MARGIN_BOTTOM: u32 = 50;

/// An entry of the tray menu.
#[derive(Clone, Copy, Debug, PartialEq, Eq)]
pub enum MenuAction {
    Pin,
    Unpin,
    Reset,
    Quit,
    Show,
}

/// Which of its two texts the pin entry of the menu shows: `Pin` offers to
/// pin the window, `Unpin` offers to release it.
#[derive(Clone, Copy, Debug, PartialEq, Eq)]
pub enum PinLabel {
    Pin,
    Unpin,
}

/// What the host reports. A field that the host could not read is `None`.
#[derive(Clone, Copy, Debug, PartialEq, Eq)]
pub enum Event {
    /// A left click on the tray icon at `now`, with the window's state then.
    TrayClicked { now: u128, visible: Option<bool>, focused: Option<bool> },
    /// A menu entry was chosen.
    Menu(MenuAction),
    /// The window gained focus at `now`.
    FocusGained { now: u128 },
    /// The window lost focus.
    FocusLost { snapshot: Option<Snapshot> },
    /// The frontend asked to release the pin.
    ExternalUnpin,
}

/// What the host is asked to do.
#[derive(Clone, Copy, Debug, PartialEq, Eq)]
pub enum Command {
    Show,
    Hide,
    Focus,
    /// Move the window into the bottom-right corner of the work area, read
    /// where it then is, and carry out `anchor_move` of that position.
    SnapToCorner,
    /// Move the window's top-left corner to this physical position.
    Move { x: i32, y: i32 },
    /// Give the window this logical size.
    Resize { width: u32, height: u32 },
    /// Put the window's top-left corner this many logical pixels left of and
    /// above the bottom-right corner of its monitor.
    PlaceFromScreenCorner { left: u32, up: u32 },
    SetAlwaysOnTop(bool),
    SetMenuLabel(PinLabel),
    /// Tell the frontend the new pin state, under `PIN_STATE_EVENT`.
    EmitPinState(bool),
    /// End the process.
    Exit,
}

/// The controller's state as contracts see it.
pub struct VisibilityState {
    pub pinned: bool,
    pub last_toggle_at: u128,
}

/// The menu text that goes with a pin state.
pub open spec fn label_for(pinned: bool) -> PinLabel {
    if pinned {
        PinLabel::Unpin
    } else {
        PinLabel::Pin
    }
}

/// The second half of anchoring: from the corner, the window moves left by
/// `ANCHOR_INSET_X` and up by `ANCHOR_INSET_Y`. Where the corner could not be
/// read, or the target is no pixel coordinate, the window stays.
pub open spec fn anchor_move_of(corner: Option<Point>) -> Option<Command> {
    match corner {
        Some(at) => if inset_fits(at) {
            Some(
                Command::Move {
                    x: (at.x - ANCHOR_INSET_X) as i32,
                    y: (at.y - ANCHOR_INSET_Y) as i32,
                },
            )
        } else {
            None
        },
        None => None,
    }
}

/// A tray click hides the window only when it is both visible and focused;
/// a state that could not be read counts as `false`.
pub open spec fn click_hides(visible: Option<bool>, focused: Option<bool>) -> bool {
    visible == Some(true) && focused == Some(true)
}

/// The commands of an accepted tray click.
pub open spec fn toggle_commands(visible: Option<bool>, focused: Option<bool>) -> Seq<Command> {
    if click_hides(visible, focused) {
        seq![Command::SnapToCorner, Command::Hide]
    } else {
        seq![Command::SnapToCorner, Command::Show, Command::Focus]
    }
}

/// The commands that go with a new pin state.
pub open spec fn pin_commands(pinned: bool) -> Seq<Command> {
    let announce = seq![
        Command::SetMenuLabel(label_for(pinned)),
        Command::SetAlwaysOnTop(pinned),
        Command::EmitPinState(pinned),
    ];
    if pinned {
        announce + seq![Command::SnapToCorner, Command::Show, Command::Focus]
    } else {
        announce
    }
}

/// The commands of a reset.
pub open spec fn reset_commands() -> Seq<Command> {
    seq![
        Command::Resize { width: RESET_WIDTH, height: RESET_HEIGHT },
        Command::PlaceFromScreenCorner {
            left: (RESET_WIDTH + RESET_MARGIN_RIGHT) as u32,
            up: (RESET_HEIGHT + RESET_MARGIN_BOTTOM) as u32,
        },
        Command::Show,
        Command::Focus,
    ]
}

/// A window that lost focus is hidden unless it is pinned or the pointer is
/// known to be on or near it.
pub open spec fn blur_hides(pinned: bool, snapshot: Option<Snapshot>) -> bool {
    !pinned && !(snapshot matches Some(snap) && near_window(snap))
}

/// The transition: the state after `event` and the commands it calls for.
pub open spec fn transition(state: VisibilityState, event: Event) -> (VisibilityState, Seq<Command>) {
    match event {
        Event::TrayClicked { now, visible, focused } => {
            if within_debounce(now, state.last_toggle_at) {
                (state, Seq::empty())
            } else {
                (
                    VisibilityState { pinned: state.pinned, last_toggle_at: now },
                    toggle_commands(visible, focused),
                )
            }
        },
        Event::Menu(MenuAction::Pin) => (
            VisibilityState { pinned: !state.pinned, last_toggle_at: state.last_toggle_at },
            pin_commands(!state.pinned),
        ),
        Event::Menu(MenuAction::Unpin) | Event::ExternalUnpin => (
            VisibilityState { pinned: false, last_toggle_at: state.last_toggle_at },
            pin_commands(false),
        ),
        Event::Menu(MenuAction::Reset) => (state, reset_commands()),
        Event::Menu(MenuAction::Quit) => (state, seq![Command::Exit]),
        Event::Menu(MenuAction::Show) => (state, seq![Command::Show, Command::Focus]),
        Event::FocusGained { now } => (
            VisibilityState { pinned: state.pinned, last_toggle_at: now },
            Seq::empty(),
        ),
        Event::FocusLost { snapshot } => (
            state,
            if blur_hides(state.pinned, snapshot) {
                seq![Command::Hide]
            } else {
                Seq::empty()
            },
        ),
    }
}

/// The pin flag and the debounce clock of the one window.
pub struct VisibilityController {
    pinned: bool,
    last_toggle_at: u128,
}

impl View for VisibilityController {
    type V = VisibilityState;

    closed spec fn view(&self) -> VisibilityState {
        VisibilityState { pinned: self.pinned, last_toggle_at: self.last_toggle_at }
    }
}

impl VisibilityController {
    /// The controller at startup: not pinned, and the clock at zero.
    pub fn new() -> (controller: Self)
        ensures
            controller@ == (VisibilityState { pinned: false, last_toggle_at: 0 }),
    {
        VisibilityController { pinned: false, last_toggle_at: 0 }
    }

    pub fn is_pinned(&self) -> (pinned: bool)
        ensures
            pinned == self@.pinned,
    {
        self.pinned
    }

    pub fn last_toggle_at(&self) -> (at: u128)
        ensures
            at == self@.last_toggle_at,
    {
        self.last_toggle_at
    }

    /// Takes one event: moves to the next state and returns the commands for
    /// the host, in the order in which they are to be carried out.
    pub fn handle(&mut self, event: Event) -> (commands: Vec<Command>)
        ensures
            (final(self)@, commands@) == transition(old(self)@, event),
    {
        let mut commands: Vec<Command> = Vec::new();
        match event {
            Event::TrayClicked { now, visible, focused } => {
                if !is_debounced(now, self.last_toggle_at) {
                    self.last_toggle_at = now;
                    commands.push(Command::SnapToCorner);
                    if is_true(visible) && is_true(focused) {
                        commands.push(Command::Hide);
                    } else {
                        commands.push(Command::Show);
                        commands.push(Command::Focus);
                    }
                }
            },
            Event::Menu(MenuAction::Pin) => {
                let pinned = !self.pinned;
                commands = self.announce_pin(pinned);
            },
            Event::Menu(MenuAction::Unpin) | Event::ExternalUnpin => {
                commands = self.announce_pin(false);
            },
            Event::Menu(MenuAction::Reset) => {
                commands.push(Command::Resize { width: RESET_WIDTH, height: RESET_HEIGHT });
                commands.push(
                    Command::PlaceFromScreenCorner {
                        left: RESET_WIDTH + RESET_MARGIN_RIGHT,
                        up: RESET_HEIGHT + RESET_MARGIN_BOTTOM,
                    },
                );
                commands.push(Command::Show);
                commands.push(Command::Focus);
            },
            Event::Menu(MenuAction::Quit) => {
                commands.push(Command::Exit);
            },
            Event::Menu(MenuAction::Show) => {
                commands.push(Command::Show);
                commands.push(Command::Focus);
            },
            Event::FocusGained { now } => {
                self.last_toggle_at = now;
            },
            Event::FocusLost { snapshot } => {
                let near = match snapshot {
                    Some(snap) => cursor_near_window(&snap),
                    None => false,
                };
                if !self.pinned && !near {
                    commands.push(Command::Hide);
                }
            },
        }
        assert(commands@ =~= transition(old(self)@, event).1);
        commands
    }

    /// Sets the pin flag and returns what announces it to menu, window and
    /// frontend.
    fn announce_pin(&mut self, pinned: bool) -> (commands: Vec<Command>)
        ensures
            final(self)@ == (VisibilityState {
                pinned,
                last_toggle_at: old(self)@.last_toggle_at,
            }),
            commands@ == pin_commands(pinned),
    {
        self.pinned = pinned;
        let label = if pinned {
            PinLabel::Unpin
        } else {
            PinLabel::Pin
        };
        let mut commands: Vec<Command> = Vec::new();
        commands.push(Command::SetMenuLabel(label));
        commands.push(Command::SetAlwaysOnTop(pinned));
        commands.push(Command::EmitPinState(pinned));
        if pinned {
            commands.push(Command::SnapToCorner);
            commands.push(Command::Show);
            commands.push(Command::Focus);
        }
        assert(commands@ =~= pin_commands(pinned));
        commands
    }

    /// Assigns the pin flag and nothing else: no label, no window flag and no
    /// notification follow.
    pub fn set_pin_mode(&mut self, pinned: bool)
        ensures
            final(self)@ == (VisibilityState {
                pinned,
                last_toggle_at: old(self)@.last_toggle_at,
            }),
    {
        self.pinned = pinned;
    }

    /// The frontend releases the pin: the `ExternalUnpin` event.
    pub fn request_unpin(&mut self) -> (commands: Vec<Command>)
        ensures
            (final(self)@, commands@) == transition(old(self)@, Event::ExternalUnpin),
    {
        self.handle(Event::ExternalUnpin)
    }

    /// The pointer left the window. An unpinned window that is known to be
    /// without focus is hidden; nothing happens otherwise, and the state
    /// stays as it is.
    pub fn check_hide_on_leave(&self, focused: Option<bool>) -> (commands: Vec<Command>)
        ensures
            commands@ == leave_commands(self@.pinned, focused),
    {
        let mut commands: Vec<Command> = Vec::new();
        let unfocused = match focused {
            Some(f) => !f,
            None => false,
        };
        if !self.pinned && unfocused {
            commands.push(Command::Hide);
        }
        assert(commands@ =~= leave_commands(self@.pinned, focused));
        commands
    }
}

/// What follows when the pointer leaves the window.
pub open spec fn leave_commands(pinned: bool, focused: Option<bool>) -> Seq<Command> {
    if !pinned && focused == Some(false) {
        seq![Command::Hide]
    } else {
        Seq::empty()
    }
}

/// The move that completes `Command::SnapToCorner`, given the position that
/// the host read once the window was in the corner.
pub fn anchor_move(corner: Option<Point>) -> (step: Option<Command>)
    ensures
        step == anchor_move_of(corner),
{
    match corner {
        Some(at) => match inset_position(at) {
            Some(target) => Some(Command::Move { x: target.x, y: target.y }),
            None => None,
        },
        None => None,
    }
}

fn is_true(reading: Option<bool>) -> (yes: bool)
    ensures
        yes == (reading == Some(true)),
{
    match reading {
        Some(value) => value,
        None => false,
    }
}

/// The menu entry that an entry's identifier stands for.
pub open spec fn menu_action_of(id: Seq<char>) -> Option<MenuAction> {
    if id == "pin"@ {
        Some(MenuAction::Pin)
    } else if id == "reset"@ {
        Some(MenuAction::Reset)
    } else if id == "quit"@ {
        Some(MenuAction::Quit)
    } else if id == "show"@ {
        Some(MenuAction::Show)
    } else {
        None
    }
}

/// Reads a menu identifier. An identifier that names no entry gives `None`,
/// and the host ignores it.
pub fn menu_action(id: &str) -> (action: Option<MenuAction>)
    ensures
        action == menu_action_of(id@),
{
    if same_text(id, "pin") {
        Some(MenuAction::Pin)
    } else if same_text(id, "reset") {
        Some(MenuAction::Reset)
    } else if same_text(id, "quit") {
        Some(MenuAction::Quit)
    } else if same_text(id, "show") {
        Some(MenuAction::Show)
    } else {
        None
    }
}

/// The name under which the frontend hears of a change of the pin state.
pub fn pin_state_event() -> (name: String)
    ensures
        name@ == "pin-state-changed"@,
{
    String::from_str("pin-state-changed")
}

/// Whether two texts hold the same characters.
fn same_text(a: &str, b: &str) -> (same: bool)
    ensures
        same == (a@ == b@),
{
    let n = a.unicode_len();
    if n != b.unicode_len() {
        return false;
    }
    let mut i: usize = 0;
    while i < n
        invariant
            i <= n,
            n == a@.len(),
            n == b@.len(),
            forall|j: int| 0 <= j < i ==> a@[j] == b@[j],
        decreases n - i,
    {
        if a.get_char(i) != b.get_char(i) {
            return false;
        }
        i += 1;
    }
    assert(a@ =~= b@);
    true
}

/// Debounce: after a tray click that was accepted at `first`, a second click
/// less than `DEBOUNCE_MILLIS` later changes nothing and asks for nothing,
/// whatever the window's state is by then. So of two such clicks exactly one
/// toggles the window.
pub proof fn law_debounce(
    state: VisibilityState,
    first: u128,
    second: u128,
    visible: Option<bool>,
    focused: Option<bool>,
    visible_then: Option<bool>,
    focused_then: Option<bool>,
)
    requires
        !within_debounce(first, state.last_toggle_at),
        second - first < DEBOUNCE_MILLIS,
    ensures
        ({
            let click = Event::TrayClicked { now: first, visible, focused };
            let again = Event::TrayClicked {
                now: second,
                visible: visible_then,
                focused: focused_then,
            };
            let (after, commands) = transition(state, click);
            &&& commands == toggle_commands(visible, focused)
            &&& after.last_toggle_at == first
            &&& transition(after, again) == (after, Seq::<Command>::empty())
        }),
{
}

/// An accepted tray click asks for exactly one of `Hide` and `Show`: it hides
/// a window that is visible and focused, and shows any other.
pub proof fn law_click_toggles(visible: Option<bool>, focused: Option<bool>)
    ensures
        toggle_commands(visible, focused).contains(Command::Hide) == click_hides(visible, focused),
        toggle_commands(visible, focused).contains(Command::Show) == !click_hides(visible, focused),
{
    let commands = toggle_commands(visible, focused);
    if click_hides(visible, focused) {
        assert(commands[1] == Command::Hide);
    } else {
        assert(commands[1] == Command::Show);
    }
}

/// A pinned window is never hidden by a loss of focus, wherever the pointer
/// is and whether or not it could be read.
pub proof fn law_pin_suppresses_hide(state: VisibilityState, snapshot: Option<Snapshot>)
    requires
        state.pinned,
    ensures
        transition(state, Event::FocusLost { snapshot }) == (state, Seq::<Command>::empty()),
{
}

/// An unpinned window that loses focus stays open exactly when the pointer
/// was read and lies on or near the window; otherwise the one command is
/// `Hide`. The state is the same in both cases.
pub proof fn law_proximity(state: VisibilityState, snapshot: Option<Snapshot>)
    requires
        !state.pinned,
    ensures
        transition(state, Event::FocusLost { snapshot }).0 == state,
        transition(state, Event::FocusLost { snapshot }).1 == (if snapshot matches Some(snap)
            && near_window(snap) {
            Seq::<Command>::empty()
        } else {
            seq![Command::Hide]
        }),
{
}

/// The debounce clock never runs backwards through a transition, except on a
/// gain of focus that is reported with a time before the clock's.
pub proof fn law_clock_monotonic(state: VisibilityState, event: Event)
    requires
        !(event matches Event::FocusGained { now } && now < state.last_toggle_at),
    ensures
        transition(state, event).0.last_toggle_at >= state.last_toggle_at,
{
}

/// Only an accepted tray click and a gain of focus set the debounce clock,
/// each to the time it is reported with; every other event, a discarded
/// click among them, leaves the clock as it is.
pub proof fn law_clock_changes(state: VisibilityState, event: Event)
    ensures
        transition(state, event).0.last_toggle_at == (match event {
            Event::TrayClicked { now, .. } => if within_debounce(now, state.last_toggle_at) {
                state.last_toggle_at
            } else {
                now
            },
            Event::FocusGained { now } => now,
            _ => state.last_toggle_at,
        }),
{
}

/// Only the pin entry of the menu, the unpin entry and the frontend's request
/// change the pin flag; every other event leaves it as it is.
pub proof fn law_pin_changes(state: VisibilityState, event: Event)
    ensures
        transition(state, event).0.pinned == (match event {
            Event::Menu(MenuAction::Pin) => !state.pinned,
            Event::Menu(MenuAction::Unpin) | Event::ExternalUnpin => false,
            _ => state.pinned,
        }),
{
}

} // verus!
