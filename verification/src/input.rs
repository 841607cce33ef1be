//! Logical input: a closed set of axes and buttons, the per-frame input
//! state they drive, and the binding table from physical keys and mouse
//! buttons to logical effects.

use vstd::prelude::*;

verus! {

/// The logical buttons the scene reacts to.
#[derive(Debug, Copy, Clone, PartialEq, Eq, Structural, Hash)]
pub enum Button {
    Next,
    Prev,
    Reload,
    Quit,
    ToggleDebug,
    Grab,
}

/// The logical axes the camera integration reads.
#[derive(Debug, Copy, Clone, PartialEq, Eq, Structural, Hash)]
pub enum Axis {
    Throttle,
    Strafe,
    HeightScale,
    ViewDistance,
    Height,
    Fov,
}

/// The physical keys the default binding knows about.
#[derive(Debug, Copy, Clone, PartialEq, Eq, Structural, Hash)]
pub enum KeyCode {
    W,
    A,
    S,
    D,
    Up,
    Down,
    Left,
    Right,
    Space,
    LShift,
    RBracket,
    LBracket,
    N,
    P,
    R,
    L,
    Escape,
}

/// The physical mouse buttons the default binding knows about.
#[derive(Debug, Copy, Clone, PartialEq, Eq, Structural, Hash)]
pub enum MouseButton {
    Left,
    Middle,
    Right,
}

/// A physical input event identity: a key or a mouse button.
#[derive(Debug, Copy, Clone, PartialEq, Eq, Structural, Hash)]
pub enum InputType {
    KeyEvent(KeyCode),
    MouseButtonEvent(MouseButton),
}

/// A logical input effect: an axis pushed toward one end, a button, or a
/// pointer motion `(x, y, dx, dy)` in fixed-point screen coordinates.
#[derive(Debug, Copy, Clone, PartialEq, Eq, Structural)]
pub enum InputEffect {
    Axis(Axis, bool),
    Button(Button),
    Pointer(i64, i64, i64, i64),
}

/// The level and edge state of one logical button.
#[derive(Debug, Copy, Clone, PartialEq, Eq, Structural, Default)]
pub struct ButtonState {
    pub pressed: bool,
    pub pressed_last_frame: bool,
}

/// A binding table from physical events to logical effects. A later binding
/// for the same physical event overrides an earlier one.
pub struct InputBinding {
    pub bindings: Vec<(InputType, InputEffect)>,
}

/// The effect the binding table gives a physical event: the most recently
/// bound entry wins, as inserting into a keyed table would make it.
pub open spec fn lookup(s: Seq<(InputType, InputEffect)>, t: InputType) -> Option<InputEffect>
    decreases s.len(),
{
    if s.len() == 0 {
        None
    } else if s.last().0 == t {
        Some(s.last().1)
    } else {
        lookup(s.drop_last(), t)
    }
}

impl InputBinding {
    /// An empty binding table.
    pub fn new() -> (r: InputBinding)
        ensures
            r.bindings@.len() == 0,
    {
        InputBinding { bindings: Vec::new() }
    }

    /// Binds a key to pushing a logical axis toward its positive or
    /// negative end.
    pub fn bind_key_to_axis(self, keycode: KeyCode, axis: Axis, positive: bool) -> (r: Self)
        ensures
            r.bindings@ == self.bindings@.push(
                (InputType::KeyEvent(keycode), InputEffect::Axis(axis, positive)),
            ),
    {
        let mut s = self;
        s.bindings.push((InputType::KeyEvent(keycode), InputEffect::Axis(axis, positive)));
        s
    }

    /// Binds a key to a logical button.
    pub fn bind_key_to_button(self, keycode: KeyCode, button: Button) -> (r: Self)
        ensures
            r.bindings@ == self.bindings@.push(
                (InputType::KeyEvent(keycode), InputEffect::Button(button)),
            ),
    {
        let mut s = self;
        s.bindings.push((InputType::KeyEvent(keycode), InputEffect::Button(button)));
        s
    }

    /// Binds a mouse button to a logical button.
    pub fn bind_mouse_to_button(self, mouse_button: MouseButton, button: Button) -> (r: Self)
        ensures
            r.bindings@ == self.bindings@.push(
                (InputType::MouseButtonEvent(mouse_button), InputEffect::Button(button)),
            ),
    {
        let mut s = self;
        s.bindings.push((InputType::MouseButtonEvent(mouse_button), InputEffect::Button(button)));
        s
    }

    /// Resolves a physical key to its bound logical effect, if any.
    pub fn resolve_keycode(&self, keycode: KeyCode) -> (r: Option<InputEffect>)
        ensures
            r == lookup(self.bindings@, InputType::KeyEvent(keycode)),
    {
        self.resolve(InputType::KeyEvent(keycode))
    }

    /// Resolves a physical mouse button to its bound logical effect, if any.
    pub fn resolve_mousebutton(&self, button: MouseButton) -> (r: Option<InputEffect>)
        ensures
            r == lookup(self.bindings@, InputType::MouseButtonEvent(button)),
    {
        self.resolve(InputType::MouseButtonEvent(button))
    }

    /// Pointer motion carries no binding: it is always the pointer effect.
    pub fn resolve_mousemotion(&self, x: i64, y: i64, dx: i64, dy: i64) -> (r: InputEffect)
        ensures
            r == InputEffect::Pointer(x, y, dx, dy),
    {
        InputEffect::Pointer(x, y, dx, dy)
    }

    /// Scans the table from the most recent binding backwards.
    fn resolve(&self, t: InputType) -> (r: Option<InputEffect>)
        ensures
            r == lookup(self.bindings@, t),
    {
        let mut i: usize = self.bindings.len();
        proof {
            assert(self.bindings@.take(i as int) =~= self.bindings@);
        }
        while i > 0
            invariant
                i <= self.bindings@.len(),
                lookup(self.bindings@, t) == lookup(self.bindings@.take(i as int), t),
            decreases i,
        {
            i = i - 1;
            let entry = self.bindings[i];
            proof {
                assert(self.bindings@.take(i as int + 1).last() == self.bindings@[i as int]);
                assert(self.bindings@.take(i as int + 1).drop_last() =~= self.bindings@.take(
                    i as int,
                ));
            }
            if entry.0 == t {
                return Some(entry.1);
            }
        }
        proof {
            assert(self.bindings@.take(0) =~= Seq::<(InputType, InputEffect)>::empty());
        }
        None
    }
}

/// The default keybindings for the scene's axes and buttons.
pub fn create_input_binding() -> (r: InputBinding)
    ensures
        r.bindings@ == seq![
            (InputType::KeyEvent(KeyCode::D), InputEffect::Axis(Axis::Strafe, true)),
            (InputType::KeyEvent(KeyCode::A), InputEffect::Axis(Axis::Strafe, false)),
            (InputType::KeyEvent(KeyCode::W), InputEffect::Axis(Axis::Throttle, true)),
            (InputType::KeyEvent(KeyCode::S), InputEffect::Axis(Axis::Throttle, false)),
            (InputType::KeyEvent(KeyCode::Up), InputEffect::Axis(Axis::HeightScale, true)),
            (InputType::KeyEvent(KeyCode::Down), InputEffect::Axis(Axis::HeightScale, false)),
            (InputType::KeyEvent(KeyCode::Right), InputEffect::Axis(Axis::ViewDistance, true)),
            (InputType::KeyEvent(KeyCode::Left), InputEffect::Axis(Axis::ViewDistance, false)),
            (InputType::KeyEvent(KeyCode::Space), InputEffect::Axis(Axis::Height, true)),
            (InputType::KeyEvent(KeyCode::LShift), InputEffect::Axis(Axis::Height, false)),
            (InputType::KeyEvent(KeyCode::RBracket), InputEffect::Axis(Axis::Fov, true)),
            (InputType::KeyEvent(KeyCode::LBracket), InputEffect::Axis(Axis::Fov, false)),
            (InputType::MouseButtonEvent(MouseButton::Left), InputEffect::Button(Button::Grab)),
            (InputType::KeyEvent(KeyCode::N), InputEffect::Button(Button::Next)),
            (InputType::KeyEvent(KeyCode::P), InputEffect::Button(Button::Prev)),
            (InputType::KeyEvent(KeyCode::R), InputEffect::Button(Button::Reload)),
            (InputType::KeyEvent(KeyCode::L), InputEffect::Button(Button::ToggleDebug)),
            (InputType::KeyEvent(KeyCode::Escape), InputEffect::Button(Button::Quit)),
        ],
{
    let r = InputBinding::new()
        .bind_key_to_axis(KeyCode::D, Axis::Strafe, true)
        .bind_key_to_axis(KeyCode::A, Axis::Strafe, false)
        .bind_key_to_axis(KeyCode::W, Axis::Throttle, true)
        .bind_key_to_axis(KeyCode::S, Axis::Throttle, false)
        .bind_key_to_axis(KeyCode::Up, Axis::HeightScale, true)
        .bind_key_to_axis(KeyCode::Down, Axis::HeightScale, false)
        .bind_key_to_axis(KeyCode::Right, Axis::ViewDistance, true)
        .bind_key_to_axis(KeyCode::Left, Axis::ViewDistance, false)
        .bind_key_to_axis(KeyCode::Space, Axis::Height, true)
        .bind_key_to_axis(KeyCode::LShift, Axis::Height, false)
        .bind_key_to_axis(KeyCode::RBracket, Axis::Fov, true)
        .bind_key_to_axis(KeyCode::LBracket, Axis::Fov, false)
        .bind_mouse_to_button(MouseButton::Left, Button::Grab)
        .bind_key_to_button(KeyCode::N, Button::Next)
        .bind_key_to_button(KeyCode::P, Button::Prev)
        .bind_key_to_button(KeyCode::R, Button::Reload)
        .bind_key_to_button(KeyCode::L, Button::ToggleDebug)
        .bind_key_to_button(KeyCode::Escape, Button::Quit);
    proof {
        assert(r.bindings@ =~= seq![
            (InputType::KeyEvent(KeyCode::D), InputEffect::Axis(Axis::Strafe, true)),
            (InputType::KeyEvent(KeyCode::A), InputEffect::Axis(Axis::Strafe, false)),
            (InputType::KeyEvent(KeyCode::W), InputEffect::Axis(Axis::Throttle, true)),
            (InputType::KeyEvent(KeyCode::S), InputEffect::Axis(Axis::Throttle, false)),
            (InputType::KeyEvent(KeyCode::Up), InputEffect::Axis(Axis::HeightScale, true)),
            (InputType::KeyEvent(KeyCode::Down), InputEffect::Axis(Axis::HeightScale, false)),
            (InputType::KeyEvent(KeyCode::Right), InputEffect::Axis(Axis::ViewDistance, true)),
            (InputType::KeyEvent(KeyCode::Left), InputEffect::Axis(Axis::ViewDistance, false)),
            (InputType::KeyEvent(KeyCode::Space), InputEffect::Axis(Axis::Height, true)),
            (InputType::KeyEvent(KeyCode::LShift), InputEffect::Axis(Axis::Height, false)),
            (InputType::KeyEvent(KeyCode::RBracket), InputEffect::Axis(Axis::Fov, true)),
            (InputType::KeyEvent(KeyCode::LBracket), InputEffect::Axis(Axis::Fov, false)),
            (InputType::MouseButtonEvent(MouseButton::Left), InputEffect::Button(Button::Grab)),
            (InputType::KeyEvent(KeyCode::N), InputEffect::Button(Button::Next)),
            (InputType::KeyEvent(KeyCode::P), InputEffect::Button(Button::Prev)),
            (InputType::KeyEvent(KeyCode::R), InputEffect::Button(Button::Reload)),
            (InputType::KeyEvent(KeyCode::L), InputEffect::Button(Button::ToggleDebug)),
            (InputType::KeyEvent(KeyCode::Escape), InputEffect::Button(Button::Quit)),
        ]);
    }
    r
}

/// The logical input state: where each axis is pushed and each button's
/// level and previous-frame level.
#[derive(Debug, Copy, Clone, PartialEq, Eq, Structural)]
pub struct InputState {
    pub axis_throttle: i8,
    pub axis_strafe: i8,
    pub axis_height_scale: i8,
    pub axis_view_distance: i8,
    pub axis_height: i8,
    pub axis_fov: i8,
    pub btn_next: ButtonState,
    pub btn_prev: ButtonState,
    pub btn_reload: ButtonState,
    pub btn_quit: ButtonState,
    pub btn_toggle_debug: ButtonState,
    pub btn_grab: ButtonState,
}

impl InputState {
    /// Every axis points toward -1, 0 or +1.
    pub open spec fn wf(self) -> bool {
        &&& -1 <= self.axis_throttle <= 1
        &&& -1 <= self.axis_strafe <= 1
        &&& -1 <= self.axis_height_scale <= 1
        &&& -1 <= self.axis_view_distance <= 1
        &&& -1 <= self.axis_height <= 1
        &&& -1 <= self.axis_fov <= 1
    }

    /// The direction an axis is currently pushed toward.
    pub open spec fn axis_spec(self, axis: Axis) -> i8 {
        match axis {
            Axis::Throttle => self.axis_throttle,
            Axis::Strafe => self.axis_strafe,
            Axis::HeightScale => self.axis_height_scale,
            Axis::ViewDistance => self.axis_view_distance,
            Axis::Height => self.axis_height,
            Axis::Fov => self.axis_fov,
        }
    }

    /// The state of a logical button.
    pub open spec fn button_spec(self, button: Button) -> ButtonState {
        match button {
            Button::Next => self.btn_next,
            Button::Prev => self.btn_prev,
            Button::Reload => self.btn_reload,
            Button::Quit => self.btn_quit,
            Button::ToggleDebug => self.btn_toggle_debug,
            Button::Grab => self.btn_grab,
        }
    }

    /// The all-clear state: every axis centered, every button released.
    pub open spec fn clear_spec() -> InputState {
        InputState {
            axis_throttle: 0,
            axis_strafe: 0,
            axis_height_scale: 0,
            axis_view_distance: 0,
            axis_height: 0,
            axis_fov: 0,
            btn_next: (ButtonState { pressed: false, pressed_last_frame: false }),
            btn_prev: (ButtonState { pressed: false, pressed_last_frame: false }),
            btn_reload: (ButtonState { pressed: false, pressed_last_frame: false }),
            btn_quit: (ButtonState { pressed: false, pressed_last_frame: false }),
            btn_toggle_debug: (ButtonState { pressed: false, pressed_last_frame: false }),
            btn_grab: (ButtonState { pressed: false, pressed_last_frame: false }),
        }
    }

    /// A fresh, all-clear input state.
    pub fn new() -> (r: InputState)
        ensures
            r == InputState::clear_spec(),
            r.wf(),
    {
        InputState {
            axis_throttle: 0,
            axis_strafe: 0,
            axis_height_scale: 0,
            axis_view_distance: 0,
            axis_height: 0,
            axis_fov: 0,
            btn_next: ButtonState { pressed: false, pressed_last_frame: false },
            btn_prev: ButtonState { pressed: false, pressed_last_frame: false },
            btn_reload: ButtonState { pressed: false, pressed_last_frame: false },
            btn_quit: ButtonState { pressed: false, pressed_last_frame: false },
            btn_toggle_debug: ButtonState { pressed: false, pressed_last_frame: false },
            btn_grab: ButtonState { pressed: false, pressed_last_frame: false },
        }
    }

    /// What one frame advance does: every button's level is remembered as
    /// last frame's level.
    pub open spec fn tick_button_spec(b: ButtonState) -> ButtonState {
        ButtonState { pressed: b.pressed, pressed_last_frame: b.pressed }
    }

    /// Advances the edge detection by one frame: each button's current
    /// level becomes its previous-frame level. Call once per update.
    pub fn update(&mut self, _dt: i64)
        ensures
            forall|b: Button| #[trigger] final(self).button_spec(b)
                == InputState::tick_button_spec(old(self).button_spec(b)),
            forall|a: Axis| #[trigger] final(self).axis_spec(a) == old(self).axis_spec(a),
            final(self).wf() == old(self).wf(),
    {
        self.btn_next.pressed_last_frame = self.btn_next.pressed;
        self.btn_prev.pressed_last_frame = self.btn_prev.pressed;
        self.btn_reload.pressed_last_frame = self.btn_reload.pressed;
        self.btn_quit.pressed_last_frame = self.btn_quit.pressed;
        self.btn_toggle_debug.pressed_last_frame = self.btn_toggle_debug.pressed;
        self.btn_grab.pressed_last_frame = self.btn_grab.pressed;
    }

    /// What applying an axis effect does to that axis: starting pushes it
    /// to the effect's end; stopping releases it only if it still points to
    /// that end.
    pub open spec fn axis_effect_spec(dir: i8, positive: bool, started: bool) -> i8 {
        if started {
            if positive {
                1
            } else {
                (-1) as i8
            }
        } else if (positive && dir > 0) || (!positive && dir < 0) {
            0
        } else {
            dir
        }
    }

    /// Applies a logical effect to the state. Axis effects move the axis,
    /// button effects set the button's level, pointer motion changes
    /// nothing here.
    pub fn update_effect(&mut self, effect: InputEffect, started: bool)
        ensures
            forall|a: Axis| #[trigger] final(self).axis_spec(a) == (match effect {
                InputEffect::Axis(ax, positive) => if ax == a {
                    InputState::axis_effect_spec(old(self).axis_spec(a), positive, started)
                } else {
                    old(self).axis_spec(a)
                },
                _ => old(self).axis_spec(a),
            }),
            forall|b: Button| #[trigger] final(self).button_spec(b) == (match effect {
                InputEffect::Button(bt) => if bt == b {
                    (ButtonState {
                        pressed: started,
                        pressed_last_frame: old(self).button_spec(b).pressed_last_frame,
                    })
                } else {
                    old(self).button_spec(b)
                },
                _ => old(self).button_spec(b),
            }),
            old(self).wf() ==> final(self).wf(),
    {
        match effect {
            InputEffect::Axis(axis, positive) => {
                let dir = self.get_axis(axis);
                let new_dir: i8 = if started {
                    if positive {
                        1
                    } else {
                        -1
                    }
                } else if (positive && dir > 0) || (!positive && dir < 0) {
                    0
                } else {
                    dir
                };
                match axis {
                    Axis::Throttle => self.axis_throttle = new_dir,
                    Axis::Strafe => self.axis_strafe = new_dir,
                    Axis::HeightScale => self.axis_height_scale = new_dir,
                    Axis::ViewDistance => self.axis_view_distance = new_dir,
                    Axis::Height => self.axis_height = new_dir,
                    Axis::Fov => self.axis_fov = new_dir,
                }
            },
            InputEffect::Button(button) => {
                match button {
                    Button::Next => self.btn_next.pressed = started,
                    Button::Prev => self.btn_prev.pressed = started,
                    Button::Reload => self.btn_reload.pressed = started,
                    Button::Quit => self.btn_quit.pressed = started,
                    Button::ToggleDebug => self.btn_toggle_debug.pressed = started,
                    Button::Grab => self.btn_grab.pressed = started,
                }
            },
            InputEffect::Pointer(_x, _y, _dx, _dy) => {},
        }
    }

    /// The direction an axis is pushed toward: -1, 0 or +1.
    pub fn get_axis(&self, axis: Axis) -> (r: i8)
        ensures
            r == self.axis_spec(axis),
    {
        match axis {
            Axis::Throttle => self.axis_throttle,
            Axis::Strafe => self.axis_strafe,
            Axis::HeightScale => self.axis_height_scale,
            Axis::ViewDistance => self.axis_view_distance,
            Axis::Height => self.axis_height,
            Axis::Fov => self.axis_fov,
        }
    }

    /// The state of a logical button.
    fn get_button(&self, button: Button) -> (r: ButtonState)
        ensures
            r == self.button_spec(button),
    {
        match button {
            Button::Next => self.btn_next,
            Button::Prev => self.btn_prev,
            Button::Reload => self.btn_reload,
            Button::Quit => self.btn_quit,
            Button::ToggleDebug => self.btn_toggle_debug,
            Button::Grab => self.btn_grab,
        }
    }

    /// Level trigger: the button is currently held.
    pub fn get_button_down(&self, button: Button) -> (r: bool)
        ensures
            r == self.button_spec(button).pressed,
    {
        self.get_button(button).pressed
    }

    /// Level trigger: the button is currently released.
    pub fn get_button_up(&self, button: Button) -> (r: bool)
        ensures
            r == !self.button_spec(button).pressed,
    {
        !self.get_button(button).pressed
    }

    /// Edge trigger: the button went down since the last frame advance.
    pub fn get_button_pressed(&self, button: Button) -> (r: bool)
        ensures
            r == (self.button_spec(button).pressed
                && !self.button_spec(button).pressed_last_frame),
    {
        let b = self.get_button(button);
        b.pressed && !b.pressed_last_frame
    }

    /// Edge trigger: the button went up since the last frame advance.
    pub fn get_button_released(&self, button: Button) -> (r: bool)
        ensures
            r == (!self.button_spec(button).pressed
                && self.button_spec(button).pressed_last_frame),
    {
        let b = self.get_button(button);
        !b.pressed && b.pressed_last_frame
    }

    /// Returns the state to all-clear: axes centered, buttons released.
    pub fn reset_input_state(&mut self)
        ensures
            *final(self) == InputState::clear_spec(),
    {
        *self = InputState::new();
    }
}

/// The world state shared across scenes: the logical input state.
pub struct World {
    pub input: InputState,
}

} // verus!
