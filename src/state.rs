use crate::sspa::{Register, RegisterState, SSPAState};
use vstd::prelude::*;

verus! {

/// The navigable panels of the dashboard.
#[derive(Clone, Copy, Debug, PartialEq, Eq, Structural)]
pub enum WidgetId {
    Registers,
    HardReset,
    Ext,
    ExtPresets,
    Compile,
    Dac,
    Offsets,
    Control,
}

/// One of the four navigation directions.
#[derive(Clone, Copy, Debug, PartialEq, Eq, Structural)]
pub enum StateTransition {
    Left,
    Down,
    Up,
    Right,
}

/// The panel that receives focus when moving from `from` in direction `t`:
/// a hand-drawn layout, total and not necessarily symmetric.
pub open spec fn focus_table(from: WidgetId, t: StateTransition) -> WidgetId {
    match from {
        WidgetId::Registers => match t {
            StateTransition::Left => WidgetId::Registers,
            StateTransition::Down => WidgetId::HardReset,
            StateTransition::Up => WidgetId::Registers,
            StateTransition::Right => WidgetId::ExtPresets,
        },
        WidgetId::HardReset => match t {
            StateTransition::Left => WidgetId::HardReset,
            StateTransition::Down => WidgetId::HardReset,
            StateTransition::Up => WidgetId::Registers,
            StateTransition::Right => WidgetId::Compile,
        },
        WidgetId::Ext => match t {
            StateTransition::Left => WidgetId::Registers,
            StateTransition::Down => WidgetId::ExtPresets,
            StateTransition::Up => WidgetId::Ext,
            StateTransition::Right => WidgetId::Dac,
        },
        WidgetId::ExtPresets => match t {
            StateTransition::Left => WidgetId::Registers,
            StateTransition::Down => WidgetId::Compile,
            StateTransition::Up => WidgetId::Ext,
            StateTransition::Right => WidgetId::Offsets,
        },
        WidgetId::Compile => match t {
            StateTransition::Left => WidgetId::HardReset,
            StateTransition::Down => WidgetId::Compile,
            StateTransition::Up => WidgetId::ExtPresets,
            StateTransition::Right => WidgetId::Offsets,
        },
        WidgetId::Dac => match t {
            StateTransition::Left => WidgetId::Ext,
            StateTransition::Down => WidgetId::Offsets,
            StateTransition::Up => WidgetId::Dac,
            StateTransition::Right => WidgetId::Control,
        },
        WidgetId::Offsets => match t {
            StateTransition::Left => WidgetId::ExtPresets,
            StateTransition::Down => WidgetId::Offsets,
            StateTransition::Up => WidgetId::Dac,
            StateTransition::Right => WidgetId::Control,
        },
        WidgetId::Control => match t {
            StateTransition::Left => WidgetId::Dac,
            StateTransition::Down => WidgetId::Control,
            StateTransition::Up => WidgetId::Control,
            StateTransition::Right => WidgetId::Control,
        },
    }
}

/// How many items the list of each panel shows.
pub open spec fn items_in(w: WidgetId) -> nat {
    match w {
        WidgetId::Registers => 10,
        WidgetId::HardReset => 1,
        WidgetId::Ext => 8,
        WidgetId::ExtPresets => 1,
        WidgetId::Compile => 5,
        WidgetId::Dac => 9,
        WidgetId::Offsets => 8,
        WidgetId::Control => 10,
    }
}

/// The cursor after moving it in direction `t` inside a list of `count`
/// items: `Up` stops at the first item, `Down` at the last, and the
/// horizontal directions leave it where it is.
pub open spec fn cursor_step(cursor: nat, t: StateTransition, count: nat) -> nat {
    match t {
        StateTransition::Up => if cursor == 0 { 0 } else { (cursor - 1) as nat },
        StateTransition::Down => if cursor + 1 >= count { cursor } else { cursor + 1 },
        _ => cursor,
    }
}

/// The panel that receives focus when moving from `from` in direction `t`.
/// Defined for every panel and every direction.
pub fn next_focus(from: WidgetId, t: StateTransition) -> (r: WidgetId)
    ensures
        r == focus_table(from, t),
{
    match from {
        WidgetId::Registers => match t {
            StateTransition::Left => WidgetId::Registers,
            StateTransition::Down => WidgetId::HardReset,
            StateTransition::Up => WidgetId::Registers,
            StateTransition::Right => WidgetId::ExtPresets,
        },
        WidgetId::HardReset => match t {
            StateTransition::Left => WidgetId::HardReset,
            StateTransition::Down => WidgetId::HardReset,
            StateTransition::Up => WidgetId::Registers,
            StateTransition::Right => WidgetId::Compile,
        },
        WidgetId::Ext => match t {
            StateTransition::Left => WidgetId::Registers,
            StateTransition::Down => WidgetId::ExtPresets,
            StateTransition::Up => WidgetId::Ext,
            StateTransition::Right => WidgetId::Dac,
        },
        WidgetId::ExtPresets => match t {
            StateTransition::Left => WidgetId::Registers,
            StateTransition::Down => WidgetId::Compile,
            StateTransition::Up => WidgetId::Ext,
            StateTransition::Right => WidgetId::Offsets,
        },
        WidgetId::Compile => match t {
            StateTransition::Left => WidgetId::HardReset,
            StateTransition::Down => WidgetId::Compile,
            StateTransition::Up => WidgetId::ExtPresets,
            StateTransition::Right => WidgetId::Offsets,
        },
        WidgetId::Dac => match t {
            StateTransition::Left => WidgetId::Ext,
            StateTransition::Down => WidgetId::Offsets,
            StateTransition::Up => WidgetId::Dac,
            StateTransition::Right => WidgetId::Control,
        },
        WidgetId::Offsets => match t {
            StateTransition::Left => WidgetId::ExtPresets,
            StateTransition::Down => WidgetId::Offsets,
            StateTransition::Up => WidgetId::Dac,
            StateTransition::Right => WidgetId::Control,
        },
        WidgetId::Control => match t {
            StateTransition::Left => WidgetId::Dac,
            StateTransition::Down => WidgetId::Control,
            StateTransition::Up => WidgetId::Control,
            StateTransition::Right => WidgetId::Control,
        },
    }
}

/// How many items the list of panel `w` shows.
pub fn item_count(w: WidgetId) -> (r: usize)
    ensures
        r == items_in(w),
        r >= 1,
{
    match w {
        WidgetId::Registers => 10,
        WidgetId::HardReset => 1,
        WidgetId::Ext => 8,
        WidgetId::ExtPresets => 1,
        WidgetId::Compile => 5,
        WidgetId::Dac => 9,
        WidgetId::Offsets => 8,
        WidgetId::Control => 10,
    }
}

/// The signals of the external trigger block: power enable, the current
/// period / pulse width / count, and the cached ones.
pub type ExtSignals = (bool, [u16; 3], [u16; 3]);

/// The device readings shown by the dashboard.
#[derive(Clone, Copy, Debug)]
pub struct Readings {
    pub status_register: Register,
    pub adc: [Register; 8],
    pub thresholds: [Register; 10],
    pub sspa_state: SSPAState,
    pub version_number: Register,
    pub powen: bool,
    pub current_tnr: [u16; 3],
    pub cache_tnr: [u16; 3],
    pub dac: [u16; 8],
    pub offsets: [u16; 8],
    pub control_register: Register,
}

/// A register decoded from the all-zero word.
pub open spec fn is_zero_register(r: Register) -> bool {
    r.payload() == 0 && r.health() == RegisterState::Valid
}

/// The readings before anything has been read from the device.
pub open spec fn blank_readings(r: Readings) -> bool {
    &&& is_zero_register(r.status_register)
    &&& forall|i: int| 0 <= i < 8 ==> is_zero_register(#[trigger] r.adc@[i])
    &&& forall|i: int| 0 <= i < 10 ==> is_zero_register(#[trigger] r.thresholds@[i])
    &&& r.sspa_state == SSPAState::Invalid
    &&& is_zero_register(r.version_number)
    &&& r.powen
    &&& r.current_tnr@ == seq![0u16, 0u16, 0u16]
    &&& r.cache_tnr@ == seq![0u16, 0u16, 0u16]
    &&& forall|i: int| 0 <= i < 8 ==> #[trigger] r.dac@[i] == 0
    &&& forall|i: int| 0 <= i < 8 ==> #[trigger] r.offsets@[i] == 0
    &&& is_zero_register(r.control_register)
}

/// Device readings together with the navigation state: which panel has the
/// focus and where its cursor stands. Only the focused panel has a cursor.
pub struct StateKeeper {
    readings: Readings,
    selected_widget: WidgetId,
    cursor: usize,
}

impl StateKeeper {
    /// The device readings held.
    pub closed spec fn readings(&self) -> Readings {
        self.readings
    }

    /// The focused panel.
    pub closed spec fn focus(&self) -> WidgetId {
        self.selected_widget
    }

    /// The cursor of the focused panel.
    pub closed spec fn cursor(&self) -> nat {
        self.cursor as nat
    }

    /// The cursor that panel `w` reports: its position when `w` has the
    /// focus, none otherwise.
    pub open spec fn cursor_of(&self, w: WidgetId) -> Option<nat> {
        if w == self.focus() {
            Some(self.cursor())
        } else {
            None
        }
    }

    /// The cursor of the focused panel lies inside its list.
    pub open spec fn wf(&self) -> bool {
        self.cursor() < items_in(self.focus())
    }

    /// The start-up state: blank readings, focus on the external signals
    /// panel with its first item selected.
    pub fn new() -> (r: StateKeeper)
        ensures
            r.wf(),
            blank_readings(r.readings()),
            r.focus() == WidgetId::Ext,
            r.cursor_of(WidgetId::Ext) == Some(0nat),
    {
        let zero = Register::new(0);
        assert(crate::sspa::ones(0) == 0);
        assert(0u16 & 0x7FFF == 0) by (bit_vector);
        assert(is_zero_register(zero));
        let readings = Readings {
            status_register: zero,
            adc: [zero; 8],
            thresholds: [zero; 10],
            sspa_state: SSPAState::Invalid,
            version_number: zero,
            powen: true,
            current_tnr: [0; 3],
            cache_tnr: [0; 3],
            dac: [0; 8],
            offsets: [0; 8],
            control_register: zero,
        };
        assert(forall|i: int| 0 <= i < 8 ==> #[trigger] readings.adc@[i] == zero);
        assert(forall|i: int| 0 <= i < 10 ==> #[trigger] readings.thresholds@[i] == zero);
        assert(forall|i: int| 0 <= i < 8 ==> #[trigger] readings.dac@[i] == 0);
        assert(forall|i: int| 0 <= i < 8 ==> #[trigger] readings.offsets@[i] == 0);
        assert(readings.current_tnr@ =~= seq![0u16, 0u16, 0u16]);
        assert(readings.cache_tnr@ =~= seq![0u16, 0u16, 0u16]);
        StateKeeper { readings, selected_widget: WidgetId::Ext, cursor: 0 }
    }

    pub fn status_register(&self) -> (r: Register)
        ensures
            r == self.readings().status_register,
    {
        self.readings.status_register
    }

    pub fn adc_measurements(&self) -> (r: [Register; 8])
        ensures
            r == self.readings().adc,
    {
        self.readings.adc
    }

    pub fn thresholds(&self) -> (r: [Register; 10])
        ensures
            r == self.readings().thresholds,
    {
        self.readings.thresholds
    }

    pub fn sspa_state(&self) -> (r: SSPAState)
        ensures
            r == self.readings().sspa_state,
    {
        self.readings.sspa_state
    }

    pub fn version_number(&self) -> (r: Register)
        ensures
            r == self.readings().version_number,
    {
        self.readings.version_number
    }

    pub fn ext_signals(&self) -> (r: ExtSignals)
        ensures
            r == (self.readings().powen, self.readings().current_tnr, self.readings().cache_tnr),
    {
        (self.readings.powen, self.readings.current_tnr, self.readings.cache_tnr)
    }

    pub fn dac(&self) -> (r: [u16; 8])
        ensures
            r == self.readings().dac,
    {
        self.readings.dac
    }

    pub fn offsets(&self) -> (r: [u16; 8])
        ensures
            r == self.readings().offsets,
    {
        self.readings.offsets
    }

    pub fn control_register(&self) -> (r: Register)
        ensures
            r == self.readings().control_register,
    {
        self.readings.control_register
    }

    /// Moves the focus along the panel layout; the newly focused panel's
    /// cursor starts on its first item. `None` changes nothing.
    pub fn widget_select(&mut self, transition: Option<StateTransition>)
        requires
            old(self).wf(),
        ensures
            final(self).wf(),
            final(self).readings() == old(self).readings(),
            match transition {
                Some(t) => {
                    &&& final(self).focus() == focus_table(old(self).focus(), t)
                    &&& final(self).cursor_of(final(self).focus()) == Some(0nat)
                    &&& forall|w: WidgetId| w != final(self).focus() ==> (#[trigger] final(self).cursor_of(w)) is None
                },
                None => *final(self) == *old(self),
            },
    {
        if let Some(t) = transition {
            self.selected_widget = next_focus(self.selected_widget, t);
            self.cursor = 0;
        }
    }

    /// Whether panel `wid` has the focus.
    pub fn is_widget_selected(&self, wid: WidgetId) -> (r: bool)
        ensures
            r == (wid == self.focus()),
    {
        wid == self.selected_widget
    }

    /// The cursor that panel `wid` reports: its position when it has the
    /// focus, `None` otherwise.
    pub fn selected_item(&self, wid: WidgetId) -> (r: Option<usize>)
        ensures
            match r {
                Some(i) => self.cursor_of(wid) == Some(i as nat),
                None => self.cursor_of(wid) is None,
            },
    {
        if wid == self.selected_widget {
            Some(self.cursor)
        } else {
            None
        }
    }

    /// Moves the cursor of the focused panel: `Up` and `Down` by one item,
    /// stopping at the ends of its list; `Left`, `Right` and `None` leave it.
    pub fn element_select(&mut self, transition: Option<StateTransition>)
        requires
            old(self).wf(),
        ensures
            final(self).wf(),
            final(self).readings() == old(self).readings(),
            final(self).focus() == old(self).focus(),
            match transition {
                Some(t) => final(self).cursor() == cursor_step(old(self).cursor(), t, items_in(old(self).focus())),
                None => final(self).cursor() == old(self).cursor(),
            },
    {
        if let Some(t) = transition {
            match t {
                StateTransition::Up => {
                    self.cursor = self.cursor.saturating_sub(1);
                },
                StateTransition::Down => {
                    let count = item_count(self.selected_widget);
                    if self.cursor + 1 < count {
                        self.cursor = self.cursor + 1;
                    }
                },
                _ => {},
            }
        }
    }
}

/// A cursor move keeps the cursor inside its list; `Up` on the first item
/// and `Down` on the last one leave it where it is.
pub proof fn lemma_cursor_stays_in_list(cursor: nat, t: StateTransition, count: nat)
    requires
        cursor < count,
    ensures
        cursor_step(cursor, t, count) < count,
        cursor == 0 && t == StateTransition::Up ==> cursor_step(cursor, t, count) == 0,
        cursor == count - 1 && t == StateTransition::Down ==> cursor_step(cursor, t, count) == cursor,
{
}

/// Only the focused panel reports a cursor.
pub proof fn lemma_cursor_only_on_focus(s: StateKeeper, w: WidgetId)
    ensures
        s.cursor_of(w) is Some <==> w == s.focus(),
{
}

/// The panel reached from any panel in any direction shows at least one
/// item, so the cursor that a focus move sets to the first item is valid.
pub proof fn lemma_focus_table_total(from: WidgetId, t: StateTransition)
    ensures
        items_in(focus_table(from, t)) >= 1,
{
}

} // verus!
