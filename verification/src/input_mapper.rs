use vstd::prelude::*;

verus! {

/// Distance that a movement key moves along its axis.
pub const KEY_STEP: i8 = 5;

/// State of a key or of a mouse button between two frames.
#[derive(Clone, Copy, Debug, PartialEq, Eq, Structural)]
pub enum InputState {
    /// Not touched.
    Idle,
    /// Went down since the last frame.
    Press,
    /// Is held down.
    Hold,
    /// Went up since the last frame.
    Release,
}

/// What a key can be bound to: a movement along one axis.
#[derive(Clone, Copy, Debug, PartialEq, Eq, Structural)]
pub enum InputAction {
    Up,
    Down,
    Left,
    Right,
    Fwd,
    Bkwd,
}

/// The keys that the program tells apart.
#[derive(Clone, Copy, Debug, PartialEq, Eq, Structural)]
pub enum RKey {
    KeyQ,
    KeyE,
    KeyA,
    KeyD,
    KeyW,
    KeyS,
    F1,
    F2,
    F3,
    Space,
    Escape,
    AltLeft,
    /// Any other key, by the code that the window system gives it.
    Other(u32),
}

/// The mouse buttons.
#[derive(Clone, Copy, Debug, PartialEq, Eq, Structural)]
pub enum RMouseButton {
    Left,
    Right,
    Middle,
    Back,
    Forward,
    Other,
}

/// The axes of a movement.
#[derive(Clone, Copy, Debug, PartialEq, Eq, Structural)]
pub enum RAxis {
    X,
    Y,
    Z,
}

/// A change of the movement along one axis.
#[derive(Clone, Copy, Debug, PartialEq, Eq, Structural)]
pub struct RMovement {
    pub axis: RAxis,
    pub delta: i8,
}

/// One key binding.
#[derive(Clone, Copy, Debug, PartialEq, Eq, Structural)]
pub struct RKeyBind {
    pub key: RKey,
    pub action: InputAction,
}

/// The state of the five mouse buttons, and whether the cursor position
/// may still be taken in this frame.
#[derive(Clone, Copy, Debug, PartialEq, Eq, Structural)]
pub struct MouseCache {
    pub left: InputState,
    pub right: InputState,
    pub middle: InputState,
    pub back: InputState,
    pub forward: InputState,
    pub position_can_update: bool,
}

/// What a cursor movement asks for.
#[derive(Clone, Copy, Debug, PartialEq, Eq, Structural)]
pub struct RCursorUpdate {
    /// The position is taken as the last known one.
    pub take_position: bool,
    /// The movement drags the view.
    pub drag: bool,
}

impl InputAction {
    /// The axis of the action.
    pub open spec fn spec_axis(&self) -> RAxis {
        match self {
            InputAction::Up => RAxis::Y,
            InputAction::Down => RAxis::Y,
            InputAction::Left => RAxis::X,
            InputAction::Right => RAxis::X,
            InputAction::Fwd => RAxis::Z,
            InputAction::Bkwd => RAxis::Z,
        }
    }

    /// The movement that starts when the action's key goes down.
    pub open spec fn spec_step(&self) -> i8 {
        match self {
            InputAction::Up => KEY_STEP,
            InputAction::Down => (-KEY_STEP) as i8,
            InputAction::Left => (-KEY_STEP) as i8,
            InputAction::Right => KEY_STEP,
            InputAction::Fwd => (-KEY_STEP) as i8,
            InputAction::Bkwd => KEY_STEP,
        }
    }

    /// The axis of the action.
    #[verifier::when_used_as_spec(spec_axis)]
    pub fn axis(&self) -> (a: RAxis)
        ensures
            a == self.spec_axis(),
    {
        match self {
            InputAction::Up => RAxis::Y,
            InputAction::Down => RAxis::Y,
            InputAction::Left => RAxis::X,
            InputAction::Right => RAxis::X,
            InputAction::Fwd => RAxis::Z,
            InputAction::Bkwd => RAxis::Z,
        }
    }

    /// The movement that starts when the action's key goes down.
    #[verifier::when_used_as_spec(spec_step)]
    pub fn step(&self) -> (s: i8)
        ensures
            s == self.spec_step(),
    {
        match self {
            InputAction::Up => KEY_STEP,
            InputAction::Down => -KEY_STEP,
            InputAction::Left => -KEY_STEP,
            InputAction::Right => KEY_STEP,
            InputAction::Fwd => -KEY_STEP,
            InputAction::Bkwd => KEY_STEP,
        }
    }
}

/// The state that a key event puts its key in: a repeated event holds the
/// key, any other event presses or releases it.
pub open spec fn spec_key_state(pressed: bool, repeat: bool) -> InputState {
    if repeat {
        InputState::Hold
    } else if pressed {
        InputState::Press
    } else {
        InputState::Release
    }
}

/// The state that a key event puts its key in.
#[verifier::when_used_as_spec(spec_key_state)]
pub fn key_state(pressed: bool, repeat: bool) -> (s: InputState)
    ensures
        s == spec_key_state(pressed, repeat),
{
    if repeat {
        InputState::Hold
    } else if pressed {
        InputState::Press
    } else {
        InputState::Release
    }
}

/// The change of movement that an action makes when its key comes into a
/// state: the action's step when the key goes down, the step taken back
/// when it goes up, nothing while it is held.
pub open spec fn movement_of(action: InputAction, state: InputState) -> RMovement {
    RMovement {
        axis: action.spec_axis(),
        delta: match state {
            InputState::Press => action.spec_step(),
            InputState::Release => (-action.spec_step()) as i8,
            _ => 0,
        },
    }
}

/// The state of a button at the start of the next frame: a button that
/// went down is held, a button that went up is idle.
pub open spec fn spec_settled(state: InputState) -> InputState {
    match state {
        InputState::Press => InputState::Hold,
        InputState::Release => InputState::Idle,
        other => other,
    }
}

/// The state of a button at the start of the next frame.
#[verifier::when_used_as_spec(spec_settled)]
pub fn settled(state: InputState) -> (s: InputState)
    ensures
        s == spec_settled(state),
{
    match state {
        InputState::Press => InputState::Hold,
        InputState::Release => InputState::Idle,
        other => other,
    }
}

/// The state that a button event puts its button in.
pub open spec fn button_state(pressed: bool) -> InputState {
    if pressed {
        InputState::Press
    } else {
        InputState::Release
    }
}

impl MouseCache {
    /// The cache after an event of one button. A button that the cache
    /// does not follow changes nothing.
    pub open spec fn with_button(self, button: RMouseButton, pressed: bool) -> MouseCache {
        match button {
            RMouseButton::Left => MouseCache { left: button_state(pressed), ..self },
            RMouseButton::Right => MouseCache { right: button_state(pressed), ..self },
            RMouseButton::Middle => MouseCache { middle: button_state(pressed), ..self },
            RMouseButton::Forward => MouseCache { forward: button_state(pressed), ..self },
            RMouseButton::Back => MouseCache { back: button_state(pressed), ..self },
            RMouseButton::Other => self,
        }
    }

    /// The cache at the start of the next frame.
    pub open spec fn cleaned(self) -> MouseCache {
        MouseCache {
            left: spec_settled(self.left),
            right: spec_settled(self.right),
            middle: spec_settled(self.middle),
            back: spec_settled(self.back),
            forward: spec_settled(self.forward),
            position_can_update: true,
        }
    }
}

/// The input handler as plain values.
pub struct InputView {
    pub key_binds: Seq<RKeyBind>,
    pub mouse_cache: MouseCache,
    pub retain: bool,
}

/// The bindings that a new handler starts with.
pub open spec fn default_binds() -> Seq<RKeyBind> {
    seq![
        RKeyBind { key: RKey::KeyQ, action: InputAction::Up },
        RKeyBind { key: RKey::KeyE, action: InputAction::Down },
        RKeyBind { key: RKey::KeyA, action: InputAction::Left },
        RKeyBind { key: RKey::KeyD, action: InputAction::Right },
        RKeyBind { key: RKey::KeyW, action: InputAction::Fwd },
        RKeyBind { key: RKey::KeyS, action: InputAction::Bkwd },
    ]
}

/// Position of the first binding of a key at or after `from`.
pub open spec fn find_bind(binds: Seq<RKeyBind>, key: RKey, from: int) -> Option<int>
    decreases binds.len() - from,
{
    if from < 0 || from >= binds.len() {
        None
    } else if binds[from].key == key {
        Some(from)
    } else {
        find_bind(binds, key, from + 1)
    }
}

impl InputView {
    /// The handler after an action was bound to another key: every
    /// binding of the action now names that key.
    pub open spec fn remap_input(self, action: InputAction, key: RKey) -> InputView {
        InputView {
            key_binds: Seq::new(
                self.key_binds.len(),
                |i: int|
                    if self.key_binds[i].action == action {
                        RKeyBind { key, action }
                    } else {
                        self.key_binds[i]
                    },
            ),
            ..self
        }
    }

    /// The change of movement that a key event makes: that of the first
    /// action bound to the key, or none where the key is not bound.
    pub open spec fn kb_movement(self, key: RKey, pressed: bool, repeat: bool) -> Option<RMovement> {
        match find_bind(self.key_binds, key, 0) {
            Some(i) => Some(movement_of(self.key_binds[i].action, spec_key_state(pressed, repeat))),
            None => None,
        }
    }

    /// The handler after a key event: a bound key makes the movement last
    /// beyond the frame.
    pub open spec fn kb_event(self, key: RKey) -> InputView {
        if find_bind(self.key_binds, key, 0) is Some {
            InputView { retain: true, ..self }
        } else {
            self
        }
    }

    /// What a cursor movement asks for: the first movement of a frame is
    /// taken, and it drags the view while the left button is held.
    pub open spec fn cursor_update(self) -> RCursorUpdate {
        RCursorUpdate {
            take_position: self.mouse_cache.position_can_update,
            drag: self.mouse_cache.position_can_update && self.mouse_cache.left
                == InputState::Hold,
        }
    }

    /// The handler after a cursor movement.
    pub open spec fn cursor_event(self) -> InputView {
        if self.mouse_cache.position_can_update {
            InputView {
                mouse_cache: MouseCache { position_can_update: false, ..self.mouse_cache },
                retain: if self.mouse_cache.left == InputState::Hold {
                    false
                } else {
                    self.retain
                },
                ..self
            }
        } else {
            self
        }
    }
}

/// The first binding of a key, if the key is bound.
fn lookup_bind(binds: &Vec<RKeyBind>, key: RKey) -> (r: Option<usize>)
    ensures
        match r {
            Some(i) => find_bind(binds@, key, 0) == Some(i as int) && i < binds@.len(),
            None => find_bind(binds@, key, 0) is None,
        },
{
    let mut i: usize = 0;
    while i < binds.len()
        invariant
            i <= binds@.len(),
            find_bind(binds@, key, 0) == find_bind(binds@, key, i as int),
        decreases binds@.len() - i,
    {
        if binds[i].key == key {
            return Some(i);
        }
        i = i + 1;
    }
    None
}

/// Turns input events into movements. It follows the mouse buttons from
/// frame to frame, maps keys to actions, and decides whether a movement
/// lasts beyond the frame in which it was made.
#[derive(Clone, Debug)]
pub struct InputHandler {
    pub key_binds: Vec<RKeyBind>,
    pub mouse_cache: MouseCache,
    pub retain: bool,
}

impl View for InputHandler {
    type V = InputView;

    open spec fn view(&self) -> InputView {
        InputView {
            key_binds: self.key_binds@,
            mouse_cache: self.mouse_cache,
            retain: self.retain,
        }
    }
}

impl InputHandler {
    /// A handler with the default bindings, idle buttons and no movement
    /// to keep.
    pub fn new() -> (h: InputHandler)
        ensures
            h@.key_binds == default_binds(),
            h@.mouse_cache == (MouseCache {
                left: InputState::Idle,
                right: InputState::Idle,
                middle: InputState::Idle,
                back: InputState::Idle,
                forward: InputState::Idle,
                position_can_update: true,
            }),
            !h@.retain,
    {
        let mut key_binds: Vec<RKeyBind> = Vec::new();
        key_binds.push(RKeyBind { key: RKey::KeyQ, action: InputAction::Up });
        key_binds.push(RKeyBind { key: RKey::KeyE, action: InputAction::Down });
        key_binds.push(RKeyBind { key: RKey::KeyA, action: InputAction::Left });
        key_binds.push(RKeyBind { key: RKey::KeyD, action: InputAction::Right });
        key_binds.push(RKeyBind { key: RKey::KeyW, action: InputAction::Fwd });
        key_binds.push(RKeyBind { key: RKey::KeyS, action: InputAction::Bkwd });
        assert(key_binds@ =~= default_binds());
        InputHandler {
            key_binds,
            mouse_cache: MouseCache {
                left: InputState::Idle,
                right: InputState::Idle,
                middle: InputState::Idle,
                back: InputState::Idle,
                forward: InputState::Idle,
                position_can_update: true,
            },
            retain: false,
        }
    }

    /// Binds an action to another key.
    pub fn remap_input(&mut self, action: InputAction, key: RKey)
        ensures
            final(self)@ == old(self)@.remap_input(action, key),
    {
        let mut i: usize = 0;
        while i < self.key_binds.len()
            invariant
                i <= self.key_binds@.len(),
                self.key_binds@.len() == old(self).key_binds@.len(),
                self.mouse_cache == old(self).mouse_cache,
                self.retain == old(self).retain,
                forall|k: int|
                    0 <= k < i ==> #[trigger] self.key_binds@[k] == old(self)@.remap_input(
                        action,
                        key,
                    ).key_binds[k],
                forall|k: int|
                    i <= k < self.key_binds@.len() ==> #[trigger] self.key_binds@[k] == old(
                        self,
                    ).key_binds@[k],
            decreases self.key_binds@.len() - i,
        {
            if self.key_binds[i].action == action {
                self.key_binds[i] = RKeyBind { key, action };
            }
            i = i + 1;
        }
        assert(self.key_binds@ =~= old(self)@.remap_input(action, key).key_binds);
    }

    /// Takes a key event. Returns the change of movement that it makes,
    /// where the key is bound.
    pub fn winit_kb_event(&mut self, key: RKey, pressed: bool, repeat: bool) -> (r: Option<
        RMovement,
    >)
        ensures
            r == old(self)@.kb_movement(key, pressed, repeat),
            final(self)@ == old(self)@.kb_event(key),
    {
        let state = key_state(pressed, repeat);
        match lookup_bind(&self.key_binds, key) {
            Some(i) => {
                let action = self.key_binds[i].action;
                let delta = match state {
                    InputState::Press => action.step(),
                    InputState::Release => -action.step(),
                    _ => 0,
                };
                self.retain = true;
                Some(RMovement { axis: action.axis(), delta })
            },
            None => None,
        }
    }
    /// Takes a mouse button event.
    pub fn winit_mouse_event(&mut self, button: RMouseButton, pressed: bool)
        ensures
            final(self)@ == (InputView {
                mouse_cache: old(self)@.mouse_cache.with_button(button, pressed),
                ..old(self)@
            }),
    {
        let state = if pressed {
            InputState::Press
        } else {
            InputState::Release
        };
        match button {
            RMouseButton::Left => {
                self.mouse_cache.left = state;
            },
            RMouseButton::Right => {
                self.mouse_cache.right = state;
            },
            RMouseButton::Middle => {
                self.mouse_cache.middle = state;
            },
            RMouseButton::Forward => {
                self.mouse_cache.forward = state;
            },
            RMouseButton::Back => {
                self.mouse_cache.back = state;
            },
            RMouseButton::Other => {},
        }
    }

    /// Takes a turn of the mouse wheel. Only a turn that is measured in
    /// lines moves anything; the movement that it makes ends with the
    /// frame. Returns whether the turn moves anything.
    pub fn winit_mouse_wheel_event(&mut self, in_lines: bool) -> (moves: bool)
        ensures
            moves == in_lines,
            final(self)@ == (InputView {
                retain: if in_lines {
                    false
                } else {
                    old(self)@.retain
                },
                ..old(self)@
            }),
    {
        if in_lines {
            self.retain = false;
        }
        in_lines
    }

    /// Takes a movement of the cursor.
    pub fn winit_cursor_event(&mut self) -> (r: RCursorUpdate)
        ensures
            r == old(self)@.cursor_update(),
            final(self)@ == old(self)@.cursor_event(),
    {
        if self.mouse_cache.position_can_update {
            let drag = self.mouse_cache.left == InputState::Hold;
            if drag {
                self.retain = false;
            }
            self.mouse_cache.position_can_update = false;
            RCursorUpdate { take_position: true, drag }
        } else {
            RCursorUpdate { take_position: false, drag: false }
        }
    }

    /// Ends the frame: every button settles, and the cursor position may
    /// be taken again. Returns whether the movement ends with the frame.
    pub fn cleanup_cache(&mut self) -> (clear: bool)
        ensures
            clear == !old(self)@.retain,
            final(self)@ == (InputView {
                mouse_cache: old(self)@.mouse_cache.cleaned(),
                ..old(self)@
            }),
    {
        self.mouse_cache = MouseCache {
            left: settled(self.mouse_cache.left),
            right: settled(self.mouse_cache.right),
            middle: settled(self.mouse_cache.middle),
            back: settled(self.mouse_cache.back),
            forward: settled(self.mouse_cache.forward),
            position_can_update: true,
        };
        !self.retain
    }
}

/// A key that goes down and up again leaves the movement where it was.
pub proof fn lemma_press_and_release_cancel(action: InputAction)
    ensures
        movement_of(action, InputState::Press).axis == movement_of(
            action,
            InputState::Release,
        ).axis,
        movement_of(action, InputState::Press).delta + movement_of(
            action,
            InputState::Release,
        ).delta == 0,
        movement_of(action, InputState::Hold).delta == 0,
{
}

/// After the end of a frame no button is going down or up, and a second
/// end of frame changes nothing.
pub proof fn lemma_cleanup_settles(cache: MouseCache)
    ensures
        cache.cleaned().left != InputState::Press && cache.cleaned().left != InputState::Release,
        cache.cleaned().right != InputState::Press && cache.cleaned().right != InputState::Release,
        cache.cleaned().middle != InputState::Press && cache.cleaned().middle
            != InputState::Release,
        cache.cleaned().back != InputState::Press && cache.cleaned().back != InputState::Release,
        cache.cleaned().forward != InputState::Press && cache.cleaned().forward
            != InputState::Release,
        cache.cleaned().cleaned() == cache.cleaned(),
{
}

} // verus!
