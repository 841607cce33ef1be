use voxelspace::input::create_input_binding;
use voxelspace::input::Axis;
use voxelspace::input::Button;
use voxelspace::input::InputBinding;
use voxelspace::input::InputEffect;
use voxelspace::input::InputState;
use voxelspace::input::KeyCode;
use voxelspace::input::MouseButton;

#[test]
fn default_binding_maps_the_documented_keys() {
    let b = create_input_binding();
    assert_eq!(
        b.resolve_keycode(KeyCode::W),
        Some(InputEffect::Axis(Axis::Throttle, true))
    );
    assert_eq!(
        b.resolve_keycode(KeyCode::S),
        Some(InputEffect::Axis(Axis::Throttle, false))
    );
    assert_eq!(
        b.resolve_keycode(KeyCode::D),
        Some(InputEffect::Axis(Axis::Strafe, true))
    );
    assert_eq!(
        b.resolve_keycode(KeyCode::Space),
        Some(InputEffect::Axis(Axis::Height, true))
    );
    assert_eq!(b.resolve_keycode(KeyCode::N), Some(InputEffect::Button(Button::Next)));
    assert_eq!(b.resolve_keycode(KeyCode::P), Some(InputEffect::Button(Button::Prev)));
    assert_eq!(b.resolve_keycode(KeyCode::R), Some(InputEffect::Button(Button::Reload)));
    assert_eq!(b.resolve_keycode(KeyCode::Escape), Some(InputEffect::Button(Button::Quit)));
    assert_eq!(
        b.resolve_mousebutton(MouseButton::Left),
        Some(InputEffect::Button(Button::Grab))
    );
    assert_eq!(b.resolve_mousebutton(MouseButton::Right), None);
}

#[test]
fn later_bindings_override_earlier_ones() {
    let b = InputBinding::new()
        .bind_key_to_button(KeyCode::N, Button::Next)
        .bind_key_to_button(KeyCode::N, Button::Quit);
    assert_eq!(b.resolve_keycode(KeyCode::N), Some(InputEffect::Button(Button::Quit)));
    assert_eq!(b.resolve_keycode(KeyCode::P), None);
}

#[test]
fn pointer_motion_resolves_to_itself() {
    let b = InputBinding::new();
    assert_eq!(
        b.resolve_mousemotion(1, 2, 3, 4),
        InputEffect::Pointer(1, 2, 3, 4)
    );
}

#[test]
fn axis_press_and_release() {
    let mut s = InputState::new();
    assert_eq!(s.get_axis(Axis::Strafe), 0);
    s.update_effect(InputEffect::Axis(Axis::Strafe, true), true);
    assert_eq!(s.get_axis(Axis::Strafe), 1);
    // Releasing the opposite key does not cancel the held direction.
    s.update_effect(InputEffect::Axis(Axis::Strafe, false), false);
    assert_eq!(s.get_axis(Axis::Strafe), 1);
    // Pressing the opposite key flips it.
    s.update_effect(InputEffect::Axis(Axis::Strafe, false), true);
    assert_eq!(s.get_axis(Axis::Strafe), -1);
    // Releasing the key of the held direction recenters.
    s.update_effect(InputEffect::Axis(Axis::Strafe, false), false);
    assert_eq!(s.get_axis(Axis::Strafe), 0);
    // Other axes are untouched throughout.
    assert_eq!(s.get_axis(Axis::Throttle), 0);
}

#[test]
fn button_levels_and_edges() {
    let mut s = InputState::new();
    assert!(!s.get_button_down(Button::Grab));
    assert!(s.get_button_up(Button::Grab));
    s.update_effect(InputEffect::Button(Button::Grab), true);
    assert!(s.get_button_down(Button::Grab));
    assert!(s.get_button_pressed(Button::Grab));
    assert!(!s.get_button_released(Button::Grab));
    // After a frame advance the press is no longer an edge.
    s.update(0);
    assert!(s.get_button_down(Button::Grab));
    assert!(!s.get_button_pressed(Button::Grab));
    s.update_effect(InputEffect::Button(Button::Grab), false);
    assert!(s.get_button_released(Button::Grab));
    s.update(0);
    assert!(!s.get_button_released(Button::Grab));
    // Other buttons never moved.
    assert!(!s.get_button_down(Button::Quit));
}

#[test]
fn pointer_effects_do_not_change_the_state() {
    let mut s = InputState::new();
    s.update_effect(InputEffect::Pointer(1, 2, 3, 4), true);
    assert_eq!(s, InputState::new());
}

#[test]
fn reset_clears_everything() {
    let mut s = InputState::new();
    s.update_effect(InputEffect::Axis(Axis::Fov, true), true);
    s.update_effect(InputEffect::Button(Button::Next), true);
    s.update(0);
    s.reset_input_state();
    assert_eq!(s, InputState::new());
}
