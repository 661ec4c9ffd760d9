//! Controller state: raw key, stick and trigger events are folded into a
//! normalized movement vector and a boost flag. The state is purely
//! reactive — the last event wins on each axis — and is read once per tick
//! by the movement and energy logic.

use vstd::prelude::*;
use crate::AXIS_UNIT;

verus! {

/// The keys the kernel understands. Any other key the host maps to `Other`,
/// which never changes the controller state.
#[derive(Clone, Copy, Debug, PartialEq, Eq, Structural)]
pub enum ControlKey {
    Up,
    Down,
    Left,
    Right,
    Boost,
    Other,
}

/// The gamepad axes the kernel understands.
#[derive(Clone, Copy, Debug, PartialEq, Eq, Structural)]
pub enum GamepadAxis {
    LeftStickX,
    LeftStickY,
    Other,
}

/// The gamepad buttons the kernel understands. `Start` doubles as the
/// confirm and pause input; `RightTrigger2` is the boost trigger.
#[derive(Clone, Copy, Debug, PartialEq, Eq, Structural)]
pub enum GamepadButton {
    RightTrigger2,
    Start,
    Other,
}

/// One key edge: a key went down (`pressed`) or came back up.
#[derive(Clone, Copy, Debug, PartialEq, Eq, Structural)]
pub struct KeyEvent {
    pub key: ControlKey,
    pub pressed: bool,
}

/// One analog stick sample, in thousandths of full deflection.
#[derive(Clone, Copy, Debug, PartialEq, Eq, Structural)]
pub struct GamepadAxisEvent {
    pub axis: GamepadAxis,
    pub value: i16,
}

impl GamepadAxisEvent {
    /// A stick sample is within its physical range.
    pub open spec fn wf(self) -> bool {
        -AXIS_UNIT <= self.value <= AXIS_UNIT
    }
}

/// One button or trigger sample, in thousandths of full travel.
#[derive(Clone, Copy, Debug, PartialEq, Eq, Structural)]
pub struct GamepadButtonEvent {
    pub button: GamepadButton,
    pub value: i16,
}

impl GamepadButtonEvent {
    /// A button sample is within its physical range.
    pub open spec fn wf(self) -> bool {
        0 <= self.value <= AXIS_UNIT
    }
}

/// The aggregated controller state: one value per axis in thousandths of
/// full deflection, and the boost flag.
#[derive(Clone, Copy, Debug, PartialEq, Eq, Structural)]
pub struct PlayerControllerState {
    pub x: i16,
    pub y: i16,
    pub boost: bool,
}

/// The state a key-down event leaves the controller in: an arrow key pins
/// its axis to full deflection, the boost key raises the flag.
pub open spec fn spec_press(s: PlayerControllerState, key: ControlKey) -> PlayerControllerState {
    match key {
        ControlKey::Up => PlayerControllerState { y: AXIS_UNIT, ..s },
        ControlKey::Down => PlayerControllerState { y: (-AXIS_UNIT) as i16, ..s },
        ControlKey::Left => PlayerControllerState { x: (-AXIS_UNIT) as i16, ..s },
        ControlKey::Right => PlayerControllerState { x: AXIS_UNIT, ..s },
        ControlKey::Boost => PlayerControllerState { boost: true, ..s },
        ControlKey::Other => s,
    }
}

/// The state a key-up event leaves the controller in: an arrow key zeroes
/// its axis, the boost key lowers the flag.
pub open spec fn spec_release(s: PlayerControllerState, key: ControlKey) -> PlayerControllerState {
    match key {
        ControlKey::Up => PlayerControllerState { y: 0, ..s },
        ControlKey::Down => PlayerControllerState { y: 0, ..s },
        ControlKey::Left => PlayerControllerState { x: 0, ..s },
        ControlKey::Right => PlayerControllerState { x: 0, ..s },
        ControlKey::Boost => PlayerControllerState { boost: false, ..s },
        ControlKey::Other => s,
    }
}

/// The state a stick sample leaves the controller in: the sampled axis is
/// overwritten, never accumulated.
pub open spec fn spec_stick(s: PlayerControllerState, ev: GamepadAxisEvent) -> PlayerControllerState {
    match ev.axis {
        GamepadAxis::LeftStickX => PlayerControllerState { x: ev.value, ..s },
        GamepadAxis::LeftStickY => PlayerControllerState { y: ev.value, ..s },
        GamepadAxis::Other => s,
    }
}

/// The state a trigger sample leaves the controller in: the boost flag is
/// set exactly when the trigger is past half travel.
pub open spec fn spec_trigger(s: PlayerControllerState, ev: GamepadButtonEvent) -> PlayerControllerState {
    match ev.button {
        GamepadButton::RightTrigger2 => PlayerControllerState { boost: ev.value > 500, ..s },
        _ => s,
    }
}

impl PlayerControllerState {
    /// The controller invariant: both axes are within full deflection.
    pub open spec fn wf(self) -> bool {
        &&& -AXIS_UNIT <= self.x <= AXIS_UNIT
        &&& -AXIS_UNIT <= self.y <= AXIS_UNIT
    }

    /// A centred controller: no movement, no boost.
    pub fn new() -> (r: PlayerControllerState)
        ensures
            r.wf(),
            r == (PlayerControllerState { x: 0i16, y: 0i16, boost: false }),
    {
        PlayerControllerState { x: 0, y: 0, boost: false }
    }

    /// Apply one key-down event.
    pub fn move_player(&mut self, key: ControlKey)
        requires
            old(self).wf(),
        ensures
            final(self).wf(),
            *final(self) == spec_press(*old(self), key),
    {
        match key {
            ControlKey::Up => self.y = AXIS_UNIT,
            ControlKey::Down => self.y = -AXIS_UNIT,
            ControlKey::Left => self.x = -AXIS_UNIT,
            ControlKey::Right => self.x = AXIS_UNIT,
            ControlKey::Boost => self.boost = true,
            ControlKey::Other => (),
        }
    }

    /// Apply one key-up event.
    pub fn release_move_player(&mut self, key: ControlKey)
        requires
            old(self).wf(),
        ensures
            final(self).wf(),
            *final(self) == spec_release(*old(self), key),
    {
        match key {
            ControlKey::Up => self.y = 0,
            ControlKey::Down => self.y = 0,
            ControlKey::Left => self.x = 0,
            ControlKey::Right => self.x = 0,
            ControlKey::Boost => self.boost = false,
            ControlKey::Other => (),
        }
    }

    /// Apply one analog stick sample.
    pub fn move_player_joystick(&mut self, value: i16, axis: GamepadAxis)
        requires
            old(self).wf(),
            -AXIS_UNIT <= value <= AXIS_UNIT,
        ensures
            final(self).wf(),
            *final(self) == spec_stick(*old(self), GamepadAxisEvent { axis, value }),
    {
        match axis {
            GamepadAxis::LeftStickX => self.x = value,
            GamepadAxis::LeftStickY => self.y = value,
            GamepadAxis::Other => (),
        }
    }

    /// Apply one trigger sample.
    pub fn move_player_joystick_buttons(&mut self, value: i16, button: GamepadButton)
        requires
            old(self).wf(),
        ensures
            final(self).wf(),
            *final(self) == spec_trigger(*old(self), GamepadButtonEvent { button, value }),
    {
        match button {
            GamepadButton::RightTrigger2 => {
                if value > 500 {
                    self.boost = true;
                } else {
                    self.boost = false;
                }
            },
            _ => (),
        }
    }

    /// Whether the boost input is held.
    pub fn is_boosting(&self) -> (r: bool)
        ensures
            r == self.boost,
    {
        self.boost
    }

    /// Whether the movement vector is non-zero.
    pub fn is_moving(&self) -> (r: bool)
        ensures
            r == (self.x != 0 || self.y != 0),
    {
        self.x != 0 || self.y != 0
    }

    /// The movement vector, in thousandths of full deflection per axis.
    pub fn get_state(&self) -> (r: (i16, i16))
        ensures
            r.0 == self.x,
            r.1 == self.y,
    {
        (self.x, self.y)
    }
}

/// The controller after a run of stick samples, applied oldest first.
pub open spec fn spec_fold_sticks(s: PlayerControllerState, evs: Seq<GamepadAxisEvent>) -> PlayerControllerState
    decreases evs.len(),
{
    if evs.len() == 0 {
        s
    } else {
        spec_stick(spec_fold_sticks(s, evs.drop_last()), evs.last())
    }
}

/// The controller after a run of trigger samples, applied oldest first.
pub open spec fn spec_fold_triggers(s: PlayerControllerState, evs: Seq<GamepadButtonEvent>) -> PlayerControllerState
    decreases evs.len(),
{
    if evs.len() == 0 {
        s
    } else {
        spec_trigger(spec_fold_triggers(s, evs.drop_last()), evs.last())
    }
}

/// The controller after a run of key edges, applied oldest first.
pub open spec fn spec_fold_keys(s: PlayerControllerState, evs: Seq<KeyEvent>) -> PlayerControllerState
    decreases evs.len(),
{
    if evs.len() == 0 {
        s
    } else {
        let prev = spec_fold_keys(s, evs.drop_last());
        if evs.last().pressed {
            spec_press(prev, evs.last().key)
        } else {
            spec_release(prev, evs.last().key)
        }
    }
}

/// The controller after one tick's whole input sample: stick samples first,
/// then trigger samples, then key edges, each batch oldest first.
pub open spec fn spec_player_controller(
    s: PlayerControllerState,
    sticks: Seq<GamepadAxisEvent>,
    triggers: Seq<GamepadButtonEvent>,
    keys: Seq<KeyEvent>,
) -> PlayerControllerState {
    spec_fold_keys(spec_fold_triggers(spec_fold_sticks(s, sticks), triggers), keys)
}

/// Fold one tick's input events into the controller state.
pub fn player_controller(
    state: &mut PlayerControllerState,
    sticks: &Vec<GamepadAxisEvent>,
    triggers: &Vec<GamepadButtonEvent>,
    keys: &Vec<KeyEvent>,
)
    requires
        old(state).wf(),
        forall|i: int| 0 <= i < sticks@.len() ==> sticks@[i].wf(),
    ensures
        final(state).wf(),
        *final(state) == spec_player_controller(*old(state), sticks@, triggers@, keys@),
{
    let ghost s0 = *state;
    let mut i: usize = 0;
    while i < sticks.len()
        invariant
            0 <= i <= sticks@.len(),
            forall|j: int| 0 <= j < sticks@.len() ==> sticks@[j].wf(),
            state.wf(),
            *state == spec_fold_sticks(s0, sticks@.take(i as int)),
        decreases sticks@.len() - i,
    {
        let ev = sticks[i];
        state.move_player_joystick(ev.value, ev.axis);
        proof {
            assert(sticks@.take(i + 1).drop_last() =~= sticks@.take(i as int));
        }
        i = i + 1;
    }
    proof {
        assert(sticks@.take(sticks@.len() as int) =~= sticks@);
    }
    let ghost s1 = *state;
    let mut i: usize = 0;
    while i < triggers.len()
        invariant
            0 <= i <= triggers@.len(),
            state.wf(),
            *state == spec_fold_triggers(s1, triggers@.take(i as int)),
        decreases triggers@.len() - i,
    {
        let ev = triggers[i];
        state.move_player_joystick_buttons(ev.value, ev.button);
        proof {
            assert(triggers@.take(i + 1).drop_last() =~= triggers@.take(i as int));
        }
        i = i + 1;
    }
    proof {
        assert(triggers@.take(triggers@.len() as int) =~= triggers@);
    }
    let ghost s2 = *state;
    let mut i: usize = 0;
    while i < keys.len()
        invariant
            0 <= i <= keys@.len(),
            state.wf(),
            *state == spec_fold_keys(s2, keys@.take(i as int)),
        decreases keys@.len() - i,
    {
        let ev = keys[i];
        if ev.pressed {
            state.move_player(ev.key);
        } else {
            state.release_move_player(ev.key);
        }
        proof {
            assert(keys@.take(i + 1).drop_last() =~= keys@.take(i as int));
        }
        i = i + 1;
    }
    proof {
        assert(keys@.take(keys@.len() as int) =~= keys@);
    }
}

} // verus!
