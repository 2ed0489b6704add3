use crate::state::{
    cursor_step, focus_table, items_in, StateKeeper, StateTransition,
};
use vstd::prelude::*;

verus! {

/// No modifier key held.
pub const NO_MODIFIERS: u8 = 0;

/// The modifier bit of the Control key.
pub const CONTROL: u8 = 2;

/// The keys the dashboard tells apart.
#[derive(Clone, Copy, Debug, PartialEq, Eq, Structural)]
pub enum KeyCode {
    Up,
    Down,
    Left,
    Right,
    Char(char),
    Esc,
    Other,
}

/// A key press with the modifier bits held while it was pressed.
#[derive(Clone, Copy, Debug, PartialEq, Eq, Structural)]
pub struct KeyPress {
    pub code: KeyCode,
    pub modifiers: u8,
}

/// A raw terminal input event, as far as the dashboard looks at it.
#[derive(Clone, Copy, Debug, PartialEq, Eq, Structural)]
pub enum InputEvent {
    Key(KeyPress),
    Mouse,
    Other,
}

/// The direction a key stands for: the arrow keys, or `h`, `j`, `k`, `l`
/// in either case.
pub open spec fn direction_of(code: KeyCode) -> Option<StateTransition> {
    match code {
        KeyCode::Up => Some(StateTransition::Up),
        KeyCode::Down => Some(StateTransition::Down),
        KeyCode::Left => Some(StateTransition::Left),
        KeyCode::Right => Some(StateTransition::Right),
        KeyCode::Char(c) => if c == 'k' || c == 'K' {
            Some(StateTransition::Up)
        } else if c == 'j' || c == 'J' {
            Some(StateTransition::Down)
        } else if c == 'h' || c == 'H' {
            Some(StateTransition::Left)
        } else if c == 'l' || c == 'L' {
            Some(StateTransition::Right)
        } else {
            None
        },
        _ => None,
    }
}

/// The focus move an event asks for: a direction key held with Control alone.
pub open spec fn focus_command(ev: InputEvent) -> Option<StateTransition> {
    match ev {
        InputEvent::Key(k) => if k.modifiers == CONTROL {
            direction_of(k.code)
        } else {
            None
        },
        _ => None,
    }
}

/// The cursor move an event asks for: a direction key with no modifier.
pub open spec fn cursor_command(ev: InputEvent) -> Option<StateTransition> {
    match ev {
        InputEvent::Key(k) => if k.modifiers == NO_MODIFIERS {
            direction_of(k.code)
        } else {
            None
        },
        _ => None,
    }
}

/// Whether an event is the quit key: `q`, `Q` or Escape.
pub open spec fn is_quit(ev: InputEvent) -> bool {
    match ev {
        InputEvent::Key(k) => match k.code {
            KeyCode::Char(c) => c == 'q' || c == 'Q',
            KeyCode::Esc => true,
            _ => false,
        },
        _ => false,
    }
}

fn direction(code: KeyCode) -> (r: Option<StateTransition>)
    ensures
        r == direction_of(code),
{
    match code {
        KeyCode::Up => Some(StateTransition::Up),
        KeyCode::Down => Some(StateTransition::Down),
        KeyCode::Left => Some(StateTransition::Left),
        KeyCode::Right => Some(StateTransition::Right),
        KeyCode::Char(c) => {
            if c == 'k' || c == 'K' {
                Some(StateTransition::Up)
            } else if c == 'j' || c == 'J' {
                Some(StateTransition::Down)
            } else if c == 'h' || c == 'H' {
                Some(StateTransition::Left)
            } else if c == 'l' || c == 'L' {
                Some(StateTransition::Right)
            } else {
                None
            }
        },
        _ => None,
    }
}

/// The focus move that `event` asks for, if any.
pub fn widget_selection(event: &InputEvent) -> (r: Option<StateTransition>)
    ensures
        r == focus_command(*event),
{
    match event {
        InputEvent::Key(key) => {
            if key.modifiers != CONTROL {
                None
            } else {
                direction(key.code)
            }
        },
        _ => None,
    }
}

/// The cursor move that `event` asks for, if any.
pub fn element_selection(event: &InputEvent) -> (r: Option<StateTransition>)
    ensures
        r == cursor_command(*event),
{
    match event {
        InputEvent::Key(key) => {
            if key.modifiers != NO_MODIFIERS {
                None
            } else {
                direction(key.code)
            }
        },
        _ => None,
    }
}

/// What the input pump does with an event it has read.
#[derive(Clone, Copy, Debug, PartialEq, Eq, Structural)]
pub enum PumpAction {
    /// Hand the event to the main loop.
    Forward,
    /// Stop reading input for good.
    Stop,
    /// Drop the event.
    Discard,
}

/// The pump's decision on one event: the quit key stops it, other keys and
/// pointer events go to the main loop, everything else is dropped.
pub open spec fn pump_action(ev: InputEvent) -> PumpAction {
    if is_quit(ev) {
        PumpAction::Stop
    } else {
        match ev {
            InputEvent::Key(_) => PumpAction::Forward,
            InputEvent::Mouse => PumpAction::Forward,
            InputEvent::Other => PumpAction::Discard,
        }
    }
}

/// The input pump's state: it runs until it sees the quit key, and then
/// never forwards anything again.
pub struct InputPump {
    running: bool,
}

impl InputPump {
    pub closed spec fn is_running(&self) -> bool {
        self.running
    }

    pub fn new() -> (r: InputPump)
        ensures
            r.is_running(),
    {
        InputPump { running: true }
    }

    /// Whether the pump still reads input.
    pub fn running(&self) -> (r: bool)
        ensures
            r == self.is_running(),
    {
        self.running
    }

    /// Decides what to do with `event`. A stopped pump answers `Stop` to
    /// everything.
    pub fn on_event(&mut self, event: &InputEvent) -> (r: PumpAction)
        ensures
            old(self).is_running() ==> r == pump_action(*event),
            !old(self).is_running() ==> r == PumpAction::Stop,
            final(self).is_running() == (r != PumpAction::Stop),
    {
        if !self.running {
            return PumpAction::Stop;
        }
        let quit = match event {
            InputEvent::Key(key) => match key.code {
                KeyCode::Char(c) => c == 'q' || c == 'Q',
                KeyCode::Esc => true,
                _ => false,
            },
            _ => false,
        };
        if quit {
            self.running = false;
            PumpAction::Stop
        } else {
            match event {
                InputEvent::Other => PumpAction::Discard,
                _ => PumpAction::Forward,
            }
        }
    }
}

/// The outcome of one non-blocking look at the pump's queue.
#[derive(Clone, Copy, Debug, PartialEq, Eq, Structural)]
pub enum Drained {
    /// An event was waiting.
    Event(InputEvent),
    /// Nothing is queued right now.
    Empty,
    /// The pump has stopped and nothing more will come.
    Stopped,
}

/// The cursor after an optional move.
pub open spec fn cursor_after(cursor: nat, t: Option<StateTransition>, count: nat) -> nat {
    match t {
        Some(d) => cursor_step(cursor, d, count),
        None => cursor,
    }
}

/// Applies one input event to the navigation state: first the focus move
/// it asks for, then the cursor move.
pub fn apply_event(state: &mut StateKeeper, event: &InputEvent)
    requires
        old(state).wf(),
    ensures
        final(state).wf(),
        final(state).readings() == old(state).readings(),
        final(state).focus() == match focus_command(*event) {
            Some(t) => focus_table(old(state).focus(), t),
            None => old(state).focus(),
        },
        final(state).cursor() == cursor_after(
            match focus_command(*event) {
                Some(_) => 0nat,
                None => old(state).cursor(),
            },
            cursor_command(*event),
            items_in(final(state).focus()),
        ),
{
    state.widget_select(widget_selection(event));
    state.element_select(element_selection(event));
}

/// Handles one look at the pump's queue: a waiting event is applied to the
/// navigation state. The result says whether the program should exit, which
/// is so only once the pump has stopped; an empty queue is no reason.
pub fn handle_drained(state: &mut StateKeeper, drained: Drained) -> (exit: bool)
    requires
        old(state).wf(),
    ensures
        final(state).wf(),
        exit == (drained == Drained::Stopped),
        final(state).readings() == old(state).readings(),
        match drained {
            Drained::Event(ev) => {
                &&& final(state).focus() == match focus_command(ev) {
                    Some(t) => focus_table(old(state).focus(), t),
                    None => old(state).focus(),
                }
                &&& final(state).cursor() == cursor_after(
                    match focus_command(ev) {
                        Some(_) => 0nat,
                        None => old(state).cursor(),
                    },
                    cursor_command(ev),
                    items_in(final(state).focus()),
                )
            },
            _ => *final(state) == *old(state),
        },
{
    match drained {
        Drained::Event(ev) => {
            apply_event(state, &ev);
            false
        },
        Drained::Empty => false,
        Drained::Stopped => true,
    }
}

/// An event never asks for a focus move and a cursor move at once: the
/// Control modifier tells the two apart.
pub proof fn lemma_focus_or_cursor(ev: InputEvent)
    ensures
        focus_command(ev) is None || cursor_command(ev) is None,
{
}

} // verus!
