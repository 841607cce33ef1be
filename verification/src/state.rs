//! The mutable camera/view state and the scene that owns it: per-frame
//! integration of logical input into the draw parameters, and the map
//! catalog cycling.
//!
//! Every continuous quantity is a 16.16 fixed-point `i64` (see `fixed`).
//! Angles are fixed-point radians; `TWO_PI` is the fixed-point full turn.

use vstd::prelude::*;

use crate::fixed::clamp_i64;
use crate::fixed::clamp_spec;
use crate::fixed::div_trunc;
use crate::fixed::fp_mul;
use crate::fixed::lemma_mul_abs_bounds;
use crate::fixed::lemma_trunc_div_bounds;
use crate::fixed::modulo;
use crate::fixed::trunc_div;
use crate::fixed::ONE;
use crate::input::Axis;
use crate::input::Button;
use crate::input::InputEffect;
use crate::input::InputState;
use crate::input::World;
use crate::map::Rgb;
use crate::map::TerrainMap;
use crate::render::line_ok;
use crate::render::ray_ok;
use crate::render::render_upto;
use crate::render::Ray;
use crate::render::VerticalLine;

verus! {

/// Number of terrain tiles in the catalog; ids wrap in `[1, MAP_COUNT]`.
pub const MAP_COUNT: i32 = 29;

/// Fixed-point full turn: `2 * pi`, rounded to the nearest step.
pub const TWO_PI: i64 = 411775;

/// Smallest allowed field of view: 30 degrees in fixed-point radians.
pub const MIN_FOV: i64 = 34315;

/// Largest allowed field of view: 150 degrees in fixed-point radians.
pub const MAX_FOV: i64 = 171573;

/// Smallest allowed view distance: 10 world units.
pub const MIN_VIEW_DISTANCE: i64 = 10 * 65536;

/// Default camera altitude: 200 world units.
pub const DEFAULT_Y: i64 = 200 * 65536;

/// Default height scale: 300.
pub const DEFAULT_HEIGHT_SCALE: i64 = 300 * 65536;

/// Default view distance: 800 world units.
pub const DEFAULT_VIEW_DISTANCE: i64 = 800 * 65536;

/// Default horizon offset: 100 screen rows.
pub const DEFAULT_HORIZON: i64 = 100 * 65536;

/// Default field of view: 50 degrees in fixed-point radians.
pub const DEFAULT_FOV: i64 = 57191;

/// Default movement speed: 75.5 world units per second.
pub const DEFAULT_SPEED: i64 = 4947968;

/// Default height-scale sensitivity: 20 per second.
pub const DEFAULT_HS_SENS: i64 = 1310720;

/// Default field-of-view change speed: 40 degrees per second.
pub const DEFAULT_FOV_SPEED: i64 = 45753;

/// Default view-distance change speed: 150 world units per second.
pub const DEFAULT_V_SPEED: i64 = 150 * 65536;

/// Magnitude bound on each camera coordinate: 2^29 world units, about half
/// a billion. A deliberate machine guard, near the real bound: the sampler
/// truncates `camera + direction * depth` to an `i32` map cell, so the
/// camera and the view distance together must stay below 2^31 cells.
pub const CAM_LIMIT: i64 = 512 * 1024 * 1024 * 65536;

/// Magnitude bound on the height scale: 2^29. A deliberate machine guard:
/// the projection multiplies it by the camera altitude into a 128-bit
/// intermediate, which these bounds keep far inside its range.
pub const HS_LIMIT: i64 = 512 * 1024 * 1024 * 65536;

/// Upper bound on the view distance: 2^29 world units. A deliberate machine
/// guard, paired with `CAM_LIMIT` so a sampled cell index fits an `i32`.
pub const VD_LIMIT: i64 = 512 * 1024 * 1024 * 65536;

/// Magnitude bound on the horizon offset: 2^29 screen rows. A deliberate
/// machine guard; the reference leaves the horizon unbounded, which a
/// 64-bit fixed-point row cannot be.
pub const HORIZON_LIMIT: i64 = 512 * 1024 * 1024 * 65536;

/// The camera/view state read by the renderer, integrated from input once
/// per frame.
#[derive(Clone, Copy, PartialEq, Eq, Structural, Debug)]
pub struct MapDrawParam {
    /// Camera position, east-west.
    pub camera_x: i64,
    /// Camera altitude.
    pub camera_y: i64,
    /// Camera position, north-south.
    pub camera_z: i64,
    /// Viewing angle in fixed-point radians, kept in `[0, TWO_PI)`.
    pub rotation: i64,
    /// Scale applied to terrain height before perspective division.
    pub height_scale: i64,
    /// How far rays march before giving up.
    pub view_distance: i64,
    /// Screen row of the horizon.
    pub horizon: i64,
    /// Field of view in fixed-point radians, kept in `[MIN_FOV, MAX_FOV]`.
    pub fov: i64,
}

impl MapDrawParam {
    /// The invariant every update preserves: the rotation is a normalized
    /// angle, the field of view and view distance sit in their allowed
    /// ranges, and every other quantity is bounded so that the renderer's
    /// fixed-point arithmetic cannot overflow.
    pub open spec fn wf(self) -> bool {
        &&& -CAM_LIMIT <= self.camera_x <= CAM_LIMIT
        &&& -CAM_LIMIT <= self.camera_y <= CAM_LIMIT
        &&& -CAM_LIMIT <= self.camera_z <= CAM_LIMIT
        &&& 0 <= self.rotation < TWO_PI
        &&& MIN_FOV <= self.fov <= MAX_FOV
        &&& MIN_VIEW_DISTANCE <= self.view_distance <= VD_LIMIT
        &&& -HS_LIMIT <= self.height_scale <= HS_LIMIT
        &&& -HORIZON_LIMIT <= self.horizon <= HORIZON_LIMIT
    }

    /// The state a fresh scene starts from, and the one a terrain switch
    /// resets to (apart from the field of view).
    pub open spec fn default_spec() -> MapDrawParam {
        MapDrawParam {
            camera_x: 0,
            camera_y: DEFAULT_Y,
            camera_z: 0,
            rotation: 0,
            height_scale: DEFAULT_HEIGHT_SCALE,
            view_distance: DEFAULT_VIEW_DISTANCE,
            horizon: DEFAULT_HORIZON,
            fov: DEFAULT_FOV,
        }
    }
}

impl Default for MapDrawParam {
    /// The default camera pose; it satisfies the invariant.
    fn default() -> (r: MapDrawParam)
        ensures
            r == MapDrawParam::default_spec(),
            r.wf(),
    {
        MapDrawParam {
            camera_x: 0,
            camera_y: DEFAULT_Y,
            camera_z: 0,
            rotation: 0,
            height_scale: DEFAULT_HEIGHT_SCALE,
            view_distance: DEFAULT_VIEW_DISTANCE,
            horizon: DEFAULT_HORIZON,
            fov: DEFAULT_FOV,
        }
    }
}

/// Magnitude bound on the configurable speeds: 32768 world units per
/// second. A deliberate machine guard: a speed and a frame time multiply
/// into a 64-bit fixed-point product.
pub const SPEED_LIMIT: i64 = 32768 * 65536;

/// Longest frame time the integration accepts: 32768 seconds, over nine
/// hours. A deliberate machine guard, the counterpart of `SPEED_LIMIT`.
pub const DT_LIMIT: i64 = 32768 * 65536;

/// Largest pointer delta a drag accepts: 2^29 fixed-point pixels. A
/// deliberate machine guard: the delta is scaled by the field of view in
/// 64-bit fixed point.
pub const DRAG_LIMIT: i64 = 512 * 1024 * 1024 * 65536;

/// What the scene asks its surroundings to do after handling an input
/// event.
#[derive(Clone, Copy, PartialEq, Eq, Structural, Debug)]
pub enum SceneAction {
    /// Nothing beyond what the scene already did to itself.
    Idle,
    /// Shut the application down.
    Quit,
    /// Load the raster pair of the given map id and hand the built tile to
    /// `set_map`.
    Load(i32),
    /// Show the grabbing cursor while `true`.
    Grab(bool),
}

/// The id the catalog moves to: ids live in `[1, MAP_COUNT]` and wrap
/// around either end.
pub open spec fn next_map_id_spec(id: int, change: int) -> int {
    (id - 1 + change) % (MAP_COUNT as int) + 1
}

/// The rotation after a pointer drag of `dx` across a viewport of `height`
/// pixels: the turn is `dx / height` of the field of view, wrapped into
/// `[0, TWO_PI)`.
pub open spec fn drag_rotation_spec(rotation: int, dx: int, fov: int, height: int) -> int {
    (rotation + trunc_div(trunc_div(dx, height) * fov, ONE as int)) % (TWO_PI as int)
}

/// A per-second rate integrated over `dt`.
pub open spec fn rate_step(rate: int, dt: int) -> int {
    trunc_div(rate * dt, ONE as int)
}

/// A direction component scaled by a speed and integrated over `dt`.
pub open spec fn dir_step(dir: int, speed: int, dt: int) -> int {
    trunc_div(trunc_div(dir * speed, ONE as int) * dt, ONE as int)
}

/// The scene: the current tile, the camera state, and the tuning rates the
/// integration uses.
pub struct MapState {
    pub map_id: i32,
    pub map: TerrainMap,
    pub draw_param: MapDrawParam,
    pub draw_debug: bool,
    pub speed: i64,
    pub hs_sens: i64,
    pub fov_speed: i64,
    pub v_speed: i64,
}

/// The camera state after one frame of input integration: each quantity
/// moves by its axis times its rate times the frame time, and is clamped
/// into its allowed range. The rotation and horizon move only with pointer
/// drags, not here.
pub open spec fn update_spec(
    s: MapState,
    inp: InputState,
    dir_x: int,
    dir_z: int,
    dt: int,
) -> MapState {
    let dp = s.draw_param;
    MapState {
        draw_param: MapDrawParam {
            height_scale: clamp_spec(
                dp.height_scale + inp.axis_height_scale * rate_step(s.hs_sens as int, dt),
                -HS_LIMIT as int,
                HS_LIMIT as int,
            ) as i64,
            view_distance: clamp_spec(
                dp.view_distance + inp.axis_view_distance * rate_step(s.v_speed as int, dt),
                MIN_VIEW_DISTANCE as int,
                VD_LIMIT as int,
            ) as i64,
            camera_x: clamp_spec(
                dp.camera_x + inp.axis_throttle * dir_step(dir_x, s.speed as int, dt)
                    + inp.axis_strafe * dir_step(dir_z, s.speed as int, dt),
                -CAM_LIMIT as int,
                CAM_LIMIT as int,
            ) as i64,
            camera_z: clamp_spec(
                dp.camera_z + inp.axis_throttle * dir_step(dir_z, s.speed as int, dt)
                    + inp.axis_strafe * dir_step(-dir_x, s.speed as int, dt),
                -CAM_LIMIT as int,
                CAM_LIMIT as int,
            ) as i64,
            camera_y: clamp_spec(
                dp.camera_y + inp.axis_height * rate_step(s.v_speed as int, dt),
                -CAM_LIMIT as int,
                CAM_LIMIT as int,
            ) as i64,
            fov: clamp_spec(
                dp.fov + inp.axis_fov * rate_step(s.fov_speed as int, dt),
                MIN_FOV as int,
                MAX_FOV as int,
            ) as i64,
            ..dp
        },
        ..s
    }
}

/// The scene state after a pointer drag: while the grab button is held,
/// the rotation turns with the drag and the horizon follows it vertically.
pub open spec fn pointer_moved_spec(
    s: MapState,
    grab: bool,
    dx: int,
    dy: int,
    height: int,
) -> MapState {
    if grab {
        MapState {
            draw_param: MapDrawParam {
                rotation: drag_rotation_spec(
                    s.draw_param.rotation as int,
                    dx,
                    s.draw_param.fov as int,
                    height,
                ) as i64,
                horizon: clamp_spec(
                    s.draw_param.horizon + dy,
                    -HORIZON_LIMIT as int,
                    HORIZON_LIMIT as int,
                ) as i64,
                ..s.draw_param
            },
            ..s
        }
    } else {
        s
    }
}

/// The scene state and requested action after a button event: quitting,
/// cycling the catalog, toggling the debug overlay, or grabbing the
/// pointer.
pub open spec fn handle_button_spec(
    s: MapState,
    button: Button,
    started: bool,
) -> (MapState, SceneAction) {
    match (button, started) {
        (Button::Quit, true) => (s, SceneAction::Quit),
        (Button::Reload, true) => (
            MapState { map_id: next_map_id_spec(s.map_id as int, 0) as i32, ..s },
            SceneAction::Load(next_map_id_spec(s.map_id as int, 0) as i32),
        ),
        (Button::Next, true) => (
            MapState { map_id: next_map_id_spec(s.map_id as int, 1) as i32, ..s },
            SceneAction::Load(next_map_id_spec(s.map_id as int, 1) as i32),
        ),
        (Button::Prev, true) => (
            MapState { map_id: next_map_id_spec(s.map_id as int, -1) as i32, ..s },
            SceneAction::Load(next_map_id_spec(s.map_id as int, -1) as i32),
        ),
        (Button::ToggleDebug, true) => (
            MapState { draw_debug: !s.draw_debug, ..s },
            SceneAction::Idle,
        ),
        (Button::Grab, st) => (s, SceneAction::Grab(st)),
        _ => (s, SceneAction::Idle),
    }
}

impl MapState {
    /// The scene invariant: a valid tile, a valid camera, an id inside the
    /// catalog, and bounded nonnegative rates.
    pub open spec fn wf(self) -> bool {
        &&& self.map.wf()
        &&& self.draw_param.wf()
        &&& 1 <= self.map_id <= MAP_COUNT
        &&& 0 <= self.speed <= SPEED_LIMIT
        &&& 0 <= self.hs_sens <= SPEED_LIMIT
        &&& 0 <= self.fov_speed <= SPEED_LIMIT
        &&& 0 <= self.v_speed <= SPEED_LIMIT
    }

    /// A fresh scene showing the given tile: default camera, default
    /// rates, debug overlay on.
    pub fn new(map_id: i32, map: TerrainMap) -> (r: MapState)
        requires
            map.wf(),
            1 <= map_id <= MAP_COUNT,
        ensures
            r.wf(),
            r.map_id == map_id,
            r.map == map,
            r.draw_param == MapDrawParam::default_spec(),
            r.draw_debug == true,
            r.speed == DEFAULT_SPEED,
            r.hs_sens == DEFAULT_HS_SENS,
            r.fov_speed == DEFAULT_FOV_SPEED,
            r.v_speed == DEFAULT_V_SPEED,
    {
        MapState {
            map_id,
            map,
            draw_param: Default::default(),
            draw_debug: true,
            speed: DEFAULT_SPEED,
            hs_sens: DEFAULT_HS_SENS,
            fov_speed: DEFAULT_FOV_SPEED,
            v_speed: DEFAULT_V_SPEED,
        }
    }

    /// Puts the camera back to its defaults, keeping only the field of
    /// view.
    fn reset(&mut self)
        ensures
            *final(self) == (MapState {
                draw_param: (MapDrawParam {
                    fov: old(self).draw_param.fov,
                    ..MapDrawParam::default_spec()
                }),
                ..*old(self)
            }),
    {
        self.draw_param = MapDrawParam { fov: self.draw_param.fov, ..Default::default() };
    }

    /// Moves the catalog id by `change`, wrapping around either end, and
    /// returns the id whose raster pair should now be loaded. The tile
    /// itself is replaced by `set_map` once that pair is built.
    pub fn update_map(&mut self, change: i32) -> (id: i32)
        requires
            old(self).wf(),
        ensures
            id == next_map_id_spec(old(self).map_id as int, change as int),
            1 <= id <= MAP_COUNT,
            *final(self) == (MapState { map_id: id, ..*old(self) }),
            final(self).wf(),
    {
        let idx: i64 = modulo((self.map_id as i64) - 1 + (change as i64), MAP_COUNT as i64);
        let id: i32 = (idx as i32) + 1;
        self.map_id = id;
        id
    }

    /// Installs a freshly built tile and resets the camera, keeping the
    /// field of view. The old tile is discarded wholesale; no frame sees a
    /// partially swapped map.
    pub fn set_map(&mut self, map: TerrainMap)
        requires
            old(self).wf(),
            map.wf(),
        ensures
            *final(self) == (MapState {
                map,
                draw_param: (MapDrawParam {
                    fov: old(self).draw_param.fov,
                    ..MapDrawParam::default_spec()
                }),
                ..*old(self)
            }),
            final(self).wf(),
    {
        self.map = map;
        self.reset();
    }

    /// Handles a button edge: quit, catalog cycling, debug toggle, or
    /// pointer grab. Returns what the surroundings should do.
    pub fn handle_button(&mut self, button: Button, started: bool) -> (a: SceneAction)
        requires
            old(self).wf(),
        ensures
            *final(self) == handle_button_spec(*old(self), button, started).0,
            a == handle_button_spec(*old(self), button, started).1,
            final(self).wf(),
    {
        match (button, started) {
            (Button::Quit, true) => SceneAction::Quit,
            (Button::Reload, true) => {
                let id = self.update_map(0);
                SceneAction::Load(id)
            },
            (Button::Next, true) => {
                let id = self.update_map(1);
                SceneAction::Load(id)
            },
            (Button::Prev, true) => {
                let id = self.update_map(-1);
                SceneAction::Load(id)
            },
            (Button::ToggleDebug, true) => {
                self.draw_debug = !self.draw_debug;
                SceneAction::Idle
            },
            (Button::Grab, st) => SceneAction::Grab(st),
            _ => SceneAction::Idle,
        }
    }

    /// Applies a pointer drag: while the grab button is held, the rotation
    /// turns by `dx / height` of the field of view, wrapped into a full
    /// turn, and the horizon follows `dy`.
    pub fn pointer_moved(&mut self, world: &World, dx: i64, dy: i64, viewport_height: u32)
        requires
            old(self).wf(),
            1 <= viewport_height,
            -DRAG_LIMIT <= dx <= DRAG_LIMIT,
            -DRAG_LIMIT <= dy <= DRAG_LIMIT,
        ensures
            *final(self) == pointer_moved_spec(
                *old(self),
                world.input.button_spec(Button::Grab).pressed,
                dx as int,
                dy as int,
                viewport_height as int,
            ),
            final(self).wf(),
    {
        if world.input.get_button_down(Button::Grab) {
            let ratio: i64 = div_trunc(dx, viewport_height as i64);
            proof {
                lemma_trunc_div_bounds(dx as int, DRAG_LIMIT as int, viewport_height as int);
                lemma_mul_abs_bounds(
                    ratio as int,
                    DRAG_LIMIT as int,
                    self.draw_param.fov as int,
                    MAX_FOV as int,
                );
            }
            let turn: i64 = fp_mul(ratio, self.draw_param.fov);
            proof {
                lemma_trunc_div_bounds(
                    ratio * self.draw_param.fov,
                    (DRAG_LIMIT as int) * (MAX_FOV as int),
                    ONE as int,
                );
            }
            self.draw_param.rotation = modulo(self.draw_param.rotation + turn, TWO_PI);
            self.draw_param.horizon = clamp_i64(
                self.draw_param.horizon + dy,
                -HORIZON_LIMIT,
                HORIZON_LIMIT,
            );
        }
    }

    /// Integrates one frame of input into the camera: the throttle and
    /// strafe axes move the camera along and across the viewing direction
    /// `(dir_x, dir_z)` (its cosine and sine), the height axis lifts it,
    /// and the remaining axes adjust height scale, view distance and field
    /// of view, each clamped into its range.
    pub fn update(&mut self, world: &World, dir_x: i64, dir_z: i64, dt: i64)
        requires
            old(self).wf(),
            world.input.wf(),
            -ONE <= dir_x <= ONE,
            -ONE <= dir_z <= ONE,
            0 <= dt <= DT_LIMIT,
        ensures
            *final(self) == update_spec(
                *old(self),
                world.input,
                dir_x as int,
                dir_z as int,
                dt as int,
            ),
            final(self).wf(),
    {
        let d_hs = apply_axis(
            world.input.get_axis(Axis::HeightScale),
            scaled_rate(self.hs_sens, dt),
        );
        self.draw_param.height_scale = clamp_i64(
            self.draw_param.height_scale + d_hs,
            -HS_LIMIT,
            HS_LIMIT,
        );

        let d_vd = apply_axis(
            world.input.get_axis(Axis::ViewDistance),
            scaled_rate(self.v_speed, dt),
        );
        self.draw_param.view_distance = clamp_i64(
            self.draw_param.view_distance + d_vd,
            MIN_VIEW_DISTANCE,
            VD_LIMIT,
        );

        let throttle = world.input.get_axis(Axis::Throttle);
        let strafe = world.input.get_axis(Axis::Strafe);
        let d_cx = apply_axis(throttle, dir_rate(dir_x, self.speed, dt));
        let d_sx = apply_axis(strafe, dir_rate(dir_z, self.speed, dt));
        self.draw_param.camera_x = clamp_i64(
            self.draw_param.camera_x + d_cx + d_sx,
            -CAM_LIMIT,
            CAM_LIMIT,
        );
        let d_cz = apply_axis(throttle, dir_rate(dir_z, self.speed, dt));
        let d_sz = apply_axis(strafe, dir_rate(-dir_x, self.speed, dt));
        self.draw_param.camera_z = clamp_i64(
            self.draw_param.camera_z + d_cz + d_sz,
            -CAM_LIMIT,
            CAM_LIMIT,
        );

        let d_cy = apply_axis(world.input.get_axis(Axis::Height), scaled_rate(self.v_speed, dt));
        self.draw_param.camera_y = clamp_i64(
            self.draw_param.camera_y + d_cy,
            -CAM_LIMIT,
            CAM_LIMIT,
        );

        let d_fov = apply_axis(world.input.get_axis(Axis::Fov), scaled_rate(self.fov_speed, dt));
        self.draw_param.fov = clamp_i64(self.draw_param.fov + d_fov, MIN_FOV, MAX_FOV);
    }

    /// Dispatches a logical input event: buttons go to `handle_button`,
    /// pointer motion to `pointer_moved`, and axis events change nothing
    /// here (the axes are read during `update`).
    pub fn input(
        &mut self,
        world: &World,
        event: InputEffect,
        started: bool,
        viewport_height: u32,
    ) -> (a: SceneAction)
        requires
            old(self).wf(),
            1 <= viewport_height,
            match event {
                InputEffect::Pointer(_x, _y, dx, dy) => {
                    &&& -DRAG_LIMIT <= dx <= DRAG_LIMIT
                    &&& -DRAG_LIMIT <= dy <= DRAG_LIMIT
                },
                _ => true,
            },
        ensures
            final(self).wf(),
            match event {
                InputEffect::Button(b) => {
                    &&& *final(self) == handle_button_spec(*old(self), b, started).0
                    &&& a == handle_button_spec(*old(self), b, started).1
                },
                InputEffect::Axis(_ax, _positive) => {
                    &&& *final(self) == *old(self)
                    &&& a == SceneAction::Idle
                },
                InputEffect::Pointer(_x, _y, dx, dy) => {
                    &&& *final(self) == pointer_moved_spec(
                        *old(self),
                        world.input.button_spec(Button::Grab).pressed,
                        dx as int,
                        dy as int,
                        viewport_height as int,
                    )
                    &&& a == SceneAction::Idle
                },
            },
    {
        match event {
            InputEffect::Button(button) => self.handle_button(button, started),
            InputEffect::Axis(_axis, _value) => SceneAction::Idle,
            InputEffect::Pointer(_x, _y, dx, dy) => {
                self.pointer_moved(world, dx, dy, viewport_height);
                SceneAction::Idle
            },
        }
    }
}

/// However the camera state was reached — any sequence of frame updates,
/// pointer drags, button events and terrain switches, each of which
/// preserves the invariant — the rotation stays a normalized angle in
/// `[0, TWO_PI)`, the field of view stays inside `[MIN_FOV, MAX_FOV]`, and
/// the view distance never falls below `MIN_VIEW_DISTANCE`.
pub proof fn lemma_param_ranges(p: MapDrawParam)
    requires
        p.wf(),
    ensures
        0 <= p.rotation < TWO_PI,
        MIN_FOV <= p.fov <= MAX_FOV,
        p.view_distance >= MIN_VIEW_DISTANCE,
{
}

/// The fixed sky color every frame is cleared with.
pub fn sky_color() -> (c: Rgb)
    ensures
        c == (Rgb { r: 53, g: 81, b: 92 }),
{
    Rgb { r: 53, g: 81, b: 92 }
}

/// One rendered frame: a full clear in the sky color, then the vertical
/// spans, which may be painted in any order.
pub struct Frame {
    pub clear: Rgb,
    pub lines: Vec<VerticalLine>,
}

impl MapState {
    /// Renders the scene's frame: the sky clear plus the raycast spans of
    /// the current tile under the current camera.
    pub fn draw(&self, rays: &Vec<Ray>, width: usize, height: u32) -> (f: Frame)
        requires
            self.wf(),
            rays@.len() == width,
            1 <= height,
            forall|i: int| 0 <= i < rays@.len() ==> ray_ok(#[trigger] rays@[i]),
        ensures
            f.clear == (Rgb { r: 53, g: 81, b: 92 }),
            f.lines@ == render_upto(
                self.map,
                self.draw_param,
                rays@,
                height as int * (ONE as int),
                width as nat,
            ),
            forall|i: int|
                0 <= i < f.lines@.len() ==> line_ok(
                    #[trigger] f.lines@[i],
                    width as int,
                    height as int * (ONE as int),
                ),
            forall|i: int, j: int|
                0 <= i < j < f.lines@.len() && f.lines@[i].x == f.lines@[j].x
                    ==> f.lines@[j].y_bottom <= f.lines@[i].y_top,
    {
        Frame {
            clear: sky_color(),
            lines: self.map.draw(&self.draw_param, rays, width, height),
        }
    }
}

/// A per-second rate integrated over the frame time, in fixed point.
fn scaled_rate(rate: i64, dt: i64) -> (r: i64)
    requires
        0 <= rate <= SPEED_LIMIT,
        0 <= dt <= DT_LIMIT,
    ensures
        r == rate_step(rate as int, dt as int),
        -0x400000000000 <= r <= 0x400000000000,
{
    proof {
        lemma_mul_abs_bounds(rate as int, SPEED_LIMIT as int, dt as int, DT_LIMIT as int);
        lemma_trunc_div_bounds(rate * dt, (SPEED_LIMIT as int) * (DT_LIMIT as int), ONE as int);
        assert((SPEED_LIMIT as int) * (DT_LIMIT as int) / (ONE as int) <= 0x400000000000int);
    }
    fp_mul(rate, dt)
}

/// A direction component times a speed, integrated over the frame time.
fn dir_rate(dir: i64, speed: i64, dt: i64) -> (r: i64)
    requires
        -ONE <= dir <= ONE,
        0 <= speed <= SPEED_LIMIT,
        0 <= dt <= DT_LIMIT,
    ensures
        r == dir_step(dir as int, speed as int, dt as int),
        -0x400000000000 <= r <= 0x400000000000,
{
    proof {
        lemma_mul_abs_bounds(dir as int, ONE as int, speed as int, SPEED_LIMIT as int);
        lemma_trunc_div_bounds(dir * speed, (ONE as int) * (SPEED_LIMIT as int), ONE as int);
    }
    let scaled: i64 = fp_mul(dir, speed);
    proof {
        lemma_mul_abs_bounds(scaled as int, SPEED_LIMIT as int, dt as int, DT_LIMIT as int);
        lemma_trunc_div_bounds(scaled * dt, (SPEED_LIMIT as int) * (DT_LIMIT as int), ONE as int);
        assert((SPEED_LIMIT as int) * (DT_LIMIT as int) / (ONE as int) <= 0x400000000000int);
    }
    fp_mul(scaled, dt)
}

/// An axis direction applied to an integrated step: the step, its
/// negation, or nothing.
fn apply_axis(a: i8, d: i64) -> (r: i64)
    requires
        -1 <= a <= 1,
        -0x400000000000 <= d <= 0x400000000000,
    ensures
        r == a * d,
        -0x400000000000 <= r <= 0x400000000000,
{
    if a > 0 {
        proof {
            assert(a * d == d) by (nonlinear_arith)
                requires
                    a == 1,
            ;
        }
        d
    } else if a < 0 {
        proof {
            assert(a * d == -d) by (nonlinear_arith)
                requires
                    a == -1,
            ;
        }
        -d
    } else {
        proof {
            assert(a * d == 0) by (nonlinear_arith)
                requires
                    a == 0,
            ;
        }
        0
    }
}

} // verus!
