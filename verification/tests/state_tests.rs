use voxelspace::input::Axis;
use voxelspace::input::Button;
use voxelspace::input::InputEffect;
use voxelspace::input::InputState;
use voxelspace::input::World;
use voxelspace::map::Rgb;
use voxelspace::map::TerrainMap;
use voxelspace::state::MapDrawParam;
use voxelspace::state::MapState;
use voxelspace::state::SceneAction;
use voxelspace::state::DEFAULT_FOV;
use voxelspace::state::DEFAULT_HEIGHT_SCALE;
use voxelspace::state::DEFAULT_VIEW_DISTANCE;
use voxelspace::state::MAX_FOV;
use voxelspace::state::MIN_FOV;
use voxelspace::state::MIN_VIEW_DISTANCE;
use voxelspace::state::TWO_PI;
use voxelspace::render::Ray;

const ONE: i64 = 65536;

fn small_map() -> TerrainMap {
    let n = 16;
    TerrainMap::new(3, 4, 4, vec![Rgb { r: 1, g: 2, b: 3 }; n], 4, 4, vec![7u8; n]).unwrap()
}

fn fresh_world() -> World {
    World { input: InputState::new() }
}

#[test]
fn catalog_cycles_forward_and_back() {
    // From id 3: next, next, prev lands on 4.
    let mut s = MapState::new(3, small_map());
    assert!(matches!(s.handle_button(Button::Next, true), SceneAction::Load(4)));
    assert!(matches!(s.handle_button(Button::Next, true), SceneAction::Load(5)));
    assert!(matches!(s.handle_button(Button::Prev, true), SceneAction::Load(4)));
    assert_eq!(s.map_id, 4);
}

#[test]
fn catalog_wraps_at_both_ends() {
    let mut s = MapState::new(1, small_map());
    // Prev from id 1 wraps to the last catalog entry.
    assert!(matches!(s.handle_button(Button::Prev, true), SceneAction::Load(29)));
    assert_eq!(s.map_id, 29);
    // Next from the last entry wraps back to 1.
    assert!(matches!(s.handle_button(Button::Next, true), SceneAction::Load(1)));
    assert_eq!(s.map_id, 1);
    // Reload keeps the id.
    assert!(matches!(s.handle_button(Button::Reload, true), SceneAction::Load(1)));
    assert_eq!(s.map_id, 1);
}

#[test]
fn buttons_toggle_quit_and_grab() {
    let mut s = MapState::new(3, small_map());
    assert!(matches!(s.handle_button(Button::Quit, true), SceneAction::Quit));
    assert!(matches!(s.handle_button(Button::Quit, false), SceneAction::Idle));
    assert!(s.draw_debug);
    assert!(matches!(s.handle_button(Button::ToggleDebug, true), SceneAction::Idle));
    assert!(!s.draw_debug);
    assert!(matches!(s.handle_button(Button::Grab, true), SceneAction::Grab(true)));
    assert!(matches!(s.handle_button(Button::Grab, false), SceneAction::Grab(false)));
}

#[test]
fn terrain_switch_resets_all_but_fov() {
    let mut s = MapState::new(3, small_map());
    let mut w = fresh_world();
    // Drift the camera and widen the field of view first.
    w.input.update_effect(InputEffect::Axis(Axis::Fov, true), true);
    w.input.update_effect(InputEffect::Axis(Axis::Throttle, true), true);
    s.update(&w, ONE, 0, ONE);
    assert_ne!(s.draw_param.camera_x, 0);
    let fov = s.draw_param.fov;
    assert_ne!(fov, DEFAULT_FOV);
    s.set_map(small_map());
    assert_eq!(s.draw_param.camera_x, 0);
    assert_eq!(s.draw_param.camera_y, 200 * ONE);
    assert_eq!(s.draw_param.rotation, 0);
    assert_eq!(s.draw_param.height_scale, DEFAULT_HEIGHT_SCALE);
    assert_eq!(s.draw_param.view_distance, DEFAULT_VIEW_DISTANCE);
    assert_eq!(s.draw_param.horizon, 100 * ONE);
    // Only the field of view survives the switch.
    assert_eq!(s.draw_param.fov, fov);
}

#[test]
fn update_integrates_each_axis_exactly() {
    let mut s = MapState::new(3, small_map());
    let mut w = fresh_world();
    w.input.update_effect(InputEffect::Axis(Axis::HeightScale, true), true);
    w.input.update_effect(InputEffect::Axis(Axis::ViewDistance, true), true);
    w.input.update_effect(InputEffect::Axis(Axis::Throttle, true), true);
    w.input.update_effect(InputEffect::Axis(Axis::Height, false), true);
    w.input.update_effect(InputEffect::Axis(Axis::Fov, true), true);
    // One second, looking straight along +x.
    s.update(&w, ONE, 0, ONE);
    assert_eq!(s.draw_param.height_scale, DEFAULT_HEIGHT_SCALE + 20 * ONE);
    assert_eq!(s.draw_param.view_distance, DEFAULT_VIEW_DISTANCE + 150 * ONE);
    assert_eq!(s.draw_param.camera_x, 4947968); // 75.5 units forward
    assert_eq!(s.draw_param.camera_z, 0);
    assert_eq!(s.draw_param.camera_y, 200 * ONE - 150 * ONE); // v_speed units down
    assert_eq!(s.draw_param.fov, DEFAULT_FOV + 45753);
    assert_eq!(s.draw_param.rotation, 0);
}

#[test]
fn strafe_moves_across_the_view_direction() {
    let mut s = MapState::new(3, small_map());
    let mut w = fresh_world();
    w.input.update_effect(InputEffect::Axis(Axis::Strafe, true), true);
    // Looking along +x, strafing moves along -z by the strafe vector
    // (dir_z, -dir_x).
    s.update(&w, ONE, 0, ONE);
    assert_eq!(s.draw_param.camera_x, 0);
    assert_eq!(s.draw_param.camera_z, -4947968);
}

#[test]
fn view_distance_never_falls_below_its_minimum() {
    let mut s = MapState::new(3, small_map());
    let mut w = fresh_world();
    w.input.update_effect(InputEffect::Axis(Axis::ViewDistance, false), true);
    // Shrink hard for many long frames.
    for _ in 0..100 {
        s.update(&w, ONE, 0, 3600 * ONE);
        assert!(s.draw_param.view_distance >= MIN_VIEW_DISTANCE);
    }
    assert_eq!(s.draw_param.view_distance, MIN_VIEW_DISTANCE);
}

#[test]
fn fov_stays_clamped_at_both_ends() {
    let mut s = MapState::new(3, small_map());
    let mut w = fresh_world();
    w.input.update_effect(InputEffect::Axis(Axis::Fov, true), true);
    for _ in 0..100 {
        s.update(&w, ONE, 0, 3600 * ONE);
        assert!(s.draw_param.fov <= MAX_FOV);
    }
    assert_eq!(s.draw_param.fov, MAX_FOV);
    w.input.update_effect(InputEffect::Axis(Axis::Fov, true), false);
    w.input.update_effect(InputEffect::Axis(Axis::Fov, false), true);
    for _ in 0..100 {
        s.update(&w, ONE, 0, 3600 * ONE);
        assert!(s.draw_param.fov >= MIN_FOV);
    }
    assert_eq!(s.draw_param.fov, MIN_FOV);
}

#[test]
fn pointer_drag_turns_by_the_fov_share() {
    let mut s = MapState::new(3, small_map());
    let mut w = fresh_world();
    // Without the grab button held, a drag does nothing.
    s.input(&w, InputEffect::Pointer(0, 0, 600 * ONE, 5 * ONE), true, 600);
    assert_eq!(s.draw_param.rotation, 0);
    assert_eq!(s.draw_param.horizon, 100 * ONE);
    // Held: dragging a full viewport height turns by one field of view.
    w.input.update_effect(InputEffect::Button(Button::Grab), true);
    s.input(&w, InputEffect::Pointer(0, 0, 600 * ONE, 5 * ONE), true, 600);
    assert_eq!(s.draw_param.rotation, DEFAULT_FOV);
    assert_eq!(s.draw_param.horizon, 105 * ONE);
}

#[test]
fn rotation_wraps_into_a_full_turn() {
    let mut s = MapState::new(3, small_map());
    let mut w = fresh_world();
    w.input.update_effect(InputEffect::Button(Button::Grab), true);
    // Drag left and right through many full turns.
    for i in 0..50 {
        let dx = if i % 3 == 0 { -4000 * ONE } else { 1700 * ONE };
        s.pointer_moved(&w, dx, 3 * ONE, 600);
        assert!(0 <= s.draw_param.rotation && s.draw_param.rotation < TWO_PI);
    }
}

#[test]
fn invariants_survive_arbitrary_input_sequences() {
    let mut s = MapState::new(3, small_map());
    let mut w = fresh_world();
    let axes = [
        Axis::Throttle,
        Axis::Strafe,
        Axis::HeightScale,
        Axis::ViewDistance,
        Axis::Height,
        Axis::Fov,
    ];
    let buttons = [
        Button::Next,
        Button::Prev,
        Button::Reload,
        Button::ToggleDebug,
        Button::Grab,
    ];
    // A deterministic pseudo-random walk over effects and frames.
    let mut seed: u64 = 0x2545f4914f6cdd1d;
    for step in 0..500 {
        seed = seed.wrapping_mul(6364136223846793005).wrapping_add(1442695040888963407);
        let pick = (seed >> 33) as usize;
        match pick % 4 {
            0 => {
                let a = axes[pick % 6];
                w.input.update_effect(InputEffect::Axis(a, pick % 2 == 0), step % 3 != 0);
            }
            1 => {
                let b = buttons[pick % 5];
                let _ = s.handle_button(b, step % 2 == 0);
                w.input.update_effect(InputEffect::Button(b), step % 2 == 0);
            }
            2 => {
                let dx = ((pick % 5000) as i64 - 2500) * ONE;
                let dy = ((pick % 900) as i64 - 450) * ONE;
                s.pointer_moved(&w, dx, dy, 600);
            }
            _ => {
                let dir = ((pick % (2 * 65536 + 1)) as i64) - 65536;
                let dt = ((pick % 200) as i64) * ONE / 100;
                s.update(&w, dir, -dir, dt);
                w.input.update(0);
            }
        }
        let p: &MapDrawParam = &s.draw_param;
        assert!(0 <= p.rotation && p.rotation < TWO_PI);
        assert!(MIN_FOV <= p.fov && p.fov <= MAX_FOV);
        assert!(p.view_distance >= MIN_VIEW_DISTANCE);
        assert!(1 <= s.map_id && s.map_id <= 29);
    }
}

#[test]
fn frame_carries_the_sky_clear() {
    let s = MapState::new(3, small_map());
    let rays = vec![Ray { dir_x: ONE, dir_z: 0 }; 2];
    let f = s.draw(&rays, 2, 300);
    assert_eq!(f.clear, Rgb { r: 53, g: 81, b: 92 });
    for l in &f.lines {
        assert!(l.x < 2);
        assert!(l.y_bottom <= 300 * ONE);
    }
}
