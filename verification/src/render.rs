//! The column raycaster: marches one ray per screen column through growing
//! depth, samples the terrain toroidally, projects heights with perspective
//! division, and emits the vertical color spans that are still visible.
//!
//! The whole frame is modeled by `render_upto`: `TerrainMap::draw` returns
//! exactly that sequence of spans. Per column the spans are strictly nested
//! and non-overlapping — the visibility buffer only ever decreases — so the
//! presenter may flush them in any order.

use vstd::prelude::*;

use crate::fixed::clamp_i64;
use crate::fixed::clamp_spec;
use crate::fixed::div_trunc;
use crate::fixed::div_trunc_i128;
use crate::fixed::fp_mul;
use crate::fixed::lemma_mul_abs_bounds;
use crate::fixed::lemma_trunc_div_bounds;
use crate::fixed::trunc_div;
use crate::fixed::ONE;
use crate::map::Rgb;
use crate::map::TerrainMap;
use crate::state::MapDrawParam;
use crate::state::CAM_LIMIT;
use crate::state::MAX_FOV;
use crate::state::HORIZON_LIMIT;
use crate::state::HS_LIMIT;
use crate::state::VD_LIMIT;

verus! {

/// Density of the depth march: the step grows by roughly `1/RENDER_DETAIL`
/// of the current depth, so near depths are sampled densely and far ones
/// coarsely.
pub const RENDER_DETAIL: i64 = 150;

/// The direction of one column's ray: the cosine and sine of its viewing
/// angle, in fixed point, so each component lies in `[-ONE, ONE]`.
#[derive(Clone, Copy, PartialEq, Eq, Structural, Debug)]
pub struct Ray {
    pub dir_x: i64,
    pub dir_z: i64,
}

/// A draw command: fill column `x` from screen row `y_top` (inclusive) down
/// to `y_bottom` (exclusive) with `color`. Rows are fixed-point.
#[derive(Clone, Copy, PartialEq, Eq, Structural, Debug)]
pub struct VerticalLine {
    pub x: usize,
    pub y_top: i64,
    pub y_bottom: i64,
    pub color: Rgb,
}

/// A usable ray direction: both components within one world unit.
pub open spec fn ray_ok(r: Ray) -> bool {
    &&& -ONE <= r.dir_x <= ONE
    &&& -ONE <= r.dir_z <= ONE
}

/// A well-formed draw command for a `width`-column viewport of fixed-point
/// height `h_fp`: a non-empty span inside the viewport.
pub open spec fn line_ok(l: VerticalLine, width: int, h_fp: int) -> bool {
    &&& l.x < width
    &&& 0 <= l.y_top < l.y_bottom <= h_fp
}

/// The map column that a ray at depth `z` lands on, east-west: the camera
/// position plus `cos * z`, truncated to a whole cell.
pub open spec fn sample_map_x(param: MapDrawParam, ray: Ray, z: int) -> int {
    trunc_div(param.camera_x + trunc_div(ray.dir_x * z, ONE as int), ONE as int)
}

/// The map row that a ray at depth `z` lands on, north-south.
pub open spec fn sample_map_z(param: MapDrawParam, ray: Ray, z: int) -> int {
    trunc_div(param.camera_z + trunc_div(ray.dir_z * z, ONE as int), ONE as int)
}

/// Perspective projection of a terrain height at depth `z` onto a screen
/// row: `(camera_y - height) * height_scale / z + horizon`, clamped into the
/// viewport `[0, h_fp]`.
pub open spec fn project_spec(
    camera_y: int,
    hgt: u8,
    height_scale: int,
    z: int,
    horizon: int,
    h_fp: int,
) -> int {
    clamp_spec(
        trunc_div((camera_y - hgt * (ONE as int)) * height_scale, z) + horizon,
        0,
        h_fp,
    )
}

/// The screen row that the terrain under a ray at depth `z` projects to.
pub open spec fn projected_y(
    map: TerrainMap,
    param: MapDrawParam,
    ray: Ray,
    z: int,
    h_fp: int,
) -> int {
    project_spec(
        param.camera_y as int,
        map.height_at(sample_map_x(param, ray, z), sample_map_z(param, ray, z)),
        param.height_scale as int,
        z,
        param.horizon as int,
        h_fp,
    )
}

/// The next marching depth: `z` grows by `z / detail`, but by at least one
/// world unit, so the march always terminates.
pub open spec fn advance_z(z: int, detail: int) -> int {
    let st = trunc_div(z, detail);
    if st < ONE {
        z + ONE
    } else {
        z + st
    }
}

/// How much depth is still ahead of the march; the measure that shrinks at
/// every step.
pub open spec fn depth_budget(vd: int, z: int) -> int {
    if vd - z > 0 {
        vd - z
    } else {
        0
    }
}

/// The span emitted for column `col` at depth `z` when the projected row
/// rises above the previous visibility bound `visible`.
pub open spec fn span_line(
    map: TerrainMap,
    param: MapDrawParam,
    ray: Ray,
    col: nat,
    z: int,
    visible: int,
    h_fp: int,
) -> VerticalLine {
    VerticalLine {
        x: col as usize,
        y_top: projected_y(map, param, ray, z, h_fp) as i64,
        y_bottom: visible as i64,
        color: map.color_at(sample_map_x(param, ray, z), sample_map_z(param, ray, z)),
    }
}

/// The spans one column emits from depth `z` on, given the lowest
/// still-unoccluded row `visible`: march until the view distance, emit a
/// span whenever the terrain projects above `visible`, and lower `visible`
/// to the new top.
pub open spec fn column_render(
    map: TerrainMap,
    param: MapDrawParam,
    ray: Ray,
    col: nat,
    h_fp: int,
    z: int,
    visible: int,
) -> Seq<VerticalLine>
    decreases depth_budget(param.view_distance as int, z),
{
    if z < param.view_distance {
        let y = projected_y(map, param, ray, z, h_fp);
        let z2 = advance_z(z, RENDER_DETAIL as int);
        if y < visible {
            seq![span_line(map, param, ray, col, z, visible, h_fp)] + column_render(
                map,
                param,
                ray,
                col,
                h_fp,
                z2,
                y,
            )
        } else {
            column_render(map, param, ray, col, h_fp, z2, visible)
        }
    } else {
        Seq::empty()
    }
}

/// The whole frame: the spans of columns `0 .. cols`, each marched from
/// depth one with an initially clear visibility bound of the full viewport
/// height.
pub open spec fn render_upto(
    map: TerrainMap,
    param: MapDrawParam,
    rays: Seq<Ray>,
    h_fp: int,
    cols: nat,
) -> Seq<VerticalLine>
    decreases cols,
{
    if cols == 0 {
        Seq::empty()
    } else {
        render_upto(map, param, rays, h_fp, (cols - 1) as nat) + column_render(
            map,
            param,
            rays[cols - 1],
            (cols - 1) as nat,
            h_fp,
            ONE as int,
            h_fp,
        )
    }
}

/// The viewing angle of screen column `i`: the leftmost column looks along
/// `rotation + fov/2`, and the angle falls by `fov/width` per column toward
/// the right edge.
pub open spec fn column_angle_spec(rotation: int, fov: int, width: int, i: int) -> int {
    rotation + trunc_div(fov, 2) + trunc_div(-fov, width) * i
}

/// The per-column viewing angles of a frame, in fixed-point radians. The
/// caller turns each angle into its cosine and sine to build the rays.
pub fn column_angles(param: &MapDrawParam, width: usize) -> (angles: Vec<i64>)
    requires
        param.wf(),
        1 <= width <= 0x1_0000_0000,
    ensures
        angles@.len() == width,
        forall|i: int|
            0 <= i < width ==> #[trigger] angles@[i] == column_angle_spec(
                param.rotation as int,
                param.fov as int,
                width as int,
                i,
            ),
{
    let left: i64 = param.rotation + div_trunc(param.fov, 2);
    let r_delta: i64 = div_trunc(-param.fov, width as i64);
    proof {
        lemma_trunc_div_bounds(-(param.fov as int), MAX_FOV as int, width as int);
    }
    let mut angles: Vec<i64> = Vec::new();
    let mut i: usize = 0;
    while i < width
        invariant
            param.wf(),
            1 <= width <= 0x1_0000_0000,
            i <= width,
            angles@.len() == i,
            left == param.rotation + trunc_div(param.fov as int, 2),
            r_delta == trunc_div(-(param.fov as int), width as int),
            -MAX_FOV <= r_delta <= MAX_FOV,
            forall|j: int|
                0 <= j < i ==> #[trigger] angles@[j] == column_angle_spec(
                    param.rotation as int,
                    param.fov as int,
                    width as int,
                    j,
                ),
        decreases width - i,
    {
        proof {
            lemma_mul_abs_bounds(r_delta as int, MAX_FOV as int, i as int, 0x1_0000_0000);
        }
        angles.push(left + r_delta * (i as i64));
        i = i + 1;
    }
    angles
}

/// The depth reached after `n` steps of the adaptive march from `z`.
pub open spec fn march_n(z: int, detail: int, n: nat) -> int
    decreases n,
{
    if n == 0 {
        z
    } else {
        advance_z(march_n(z, detail, (n - 1) as nat), detail)
    }
}

/// The adaptive march is sub-linear in the view distance. From depth one
/// with a detail constant of 10, the march passes 800 world units within
/// 55 steps, far under the 800 a unit-step march would need; and since
/// every step strictly raises the depth (`advance_z` adds at least one
/// unit), the render loop over that view distance exits within the same
/// count.
pub proof fn lemma_march_is_sublinear()
    ensures
        march_n(65536, 10, 55) >= 800 * 65536,
        55 < 100,
{
    assert(march_n(65536, 10, 0) == 65536);
    assert(march_n(65536, 10, 1) == 131072);
    assert(march_n(65536, 10, 2) == 196608);
    assert(march_n(65536, 10, 3) == 262144);
    assert(march_n(65536, 10, 4) == 327680);
    assert(march_n(65536, 10, 5) == 393216);
    assert(march_n(65536, 10, 6) == 458752);
    assert(march_n(65536, 10, 7) == 524288);
    assert(march_n(65536, 10, 8) == 589824);
    assert(march_n(65536, 10, 9) == 655360);
    assert(march_n(65536, 10, 10) == 720896);
    assert(march_n(65536, 10, 11) == 792985);
    assert(march_n(65536, 10, 12) == 872283);
    assert(march_n(65536, 10, 13) == 959511);
    assert(march_n(65536, 10, 14) == 1055462);
    assert(march_n(65536, 10, 15) == 1161008);
    assert(march_n(65536, 10, 16) == 1277108);
    assert(march_n(65536, 10, 17) == 1404818);
    assert(march_n(65536, 10, 18) == 1545299);
    assert(march_n(65536, 10, 19) == 1699828);
    assert(march_n(65536, 10, 20) == 1869810);
    assert(march_n(65536, 10, 21) == 2056791);
    assert(march_n(65536, 10, 22) == 2262470);
    assert(march_n(65536, 10, 23) == 2488717);
    assert(march_n(65536, 10, 24) == 2737588);
    assert(march_n(65536, 10, 25) == 3011346);
    assert(march_n(65536, 10, 26) == 3312480);
    assert(march_n(65536, 10, 27) == 3643728);
    assert(march_n(65536, 10, 28) == 4008100);
    assert(march_n(65536, 10, 29) == 4408910);
    assert(march_n(65536, 10, 30) == 4849801);
    assert(march_n(65536, 10, 31) == 5334781);
    assert(march_n(65536, 10, 32) == 5868259);
    assert(march_n(65536, 10, 33) == 6455084);
    assert(march_n(65536, 10, 34) == 7100592);
    assert(march_n(65536, 10, 35) == 7810651);
    assert(march_n(65536, 10, 36) == 8591716);
    assert(march_n(65536, 10, 37) == 9450887);
    assert(march_n(65536, 10, 38) == 10395975);
    assert(march_n(65536, 10, 39) == 11435572);
    assert(march_n(65536, 10, 40) == 12579129);
    assert(march_n(65536, 10, 41) == 13837041);
    assert(march_n(65536, 10, 42) == 15220745);
    assert(march_n(65536, 10, 43) == 16742819);
    assert(march_n(65536, 10, 44) == 18417100);
    assert(march_n(65536, 10, 45) == 20258810);
    assert(march_n(65536, 10, 46) == 22284691);
    assert(march_n(65536, 10, 47) == 24513160);
    assert(march_n(65536, 10, 48) == 26964476);
    assert(march_n(65536, 10, 49) == 29660923);
    assert(march_n(65536, 10, 50) == 32627015);
    assert(march_n(65536, 10, 51) == 35889716);
    assert(march_n(65536, 10, 52) == 39478687);
    assert(march_n(65536, 10, 53) == 43426555);
    assert(march_n(65536, 10, 54) == 47769210);
    assert(march_n(65536, 10, 55) == 52546131);
}

/// One depth advance of the adaptive march. The step is `z / detail`, at
/// least one world unit, so the depth strictly grows and the march over any
/// view distance takes finitely many steps.
pub fn advance_depth(z: i64, detail: i64) -> (r: i64)
    requires
        detail >= 1,
        0 <= z <= 2 * VD_LIMIT,
    ensures
        r == advance_z(z as int, detail as int),
        z + ONE <= r <= 2 * z + ONE,
{
    let st: i64 = div_trunc(z, detail);
    if st < ONE {
        z + ONE
    } else {
        z + st
    }
}

/// The perspective projection of one terrain sample, as the renderer
/// computes it.
pub fn project_height(
    camera_y: i64,
    hgt: u8,
    height_scale: i64,
    z: i64,
    horizon: i64,
    h_fp: i64,
) -> (r: i64)
    requires
        -CAM_LIMIT <= camera_y <= CAM_LIMIT,
        -HS_LIMIT <= height_scale <= HS_LIMIT,
        -HORIZON_LIMIT <= horizon <= HORIZON_LIMIT,
        1 <= z,
        0 <= h_fp,
    ensures
        r == project_spec(
            camera_y as int,
            hgt,
            height_scale as int,
            z as int,
            horizon as int,
            h_fp as int,
        ),
{
    let lifted: i64 = camera_y - (hgt as i64) * ONE;
    proof {
        lemma_mul_abs_bounds(
            lifted as int,
            CAM_LIMIT + 255 * (ONE as int),
            height_scale as int,
            HS_LIMIT as int,
        );
        assert((lifted as i128) as int == lifted as int);
        assert((height_scale as i128) as int == height_scale as int);
        assert((lifted as i128) * (height_scale as i128) == (lifted as int) * (
        height_scale as int)) by (nonlinear_arith)
            requires
                (lifted as i128) as int == lifted as int,
                (height_scale as i128) as int == height_scale as int,
        ;
        assert((CAM_LIMIT + 255 * (ONE as int)) * (HS_LIMIT as int)
            == 1237940627275347624391081984int) by (nonlinear_arith)
            requires
                CAM_LIMIT + 255 * (ONE as int) == 35184388800512int,
                HS_LIMIT as int == 35184372088832int,
        ;
    }
    let num: i128 = (lifted as i128) * (height_scale as i128);
    let proj: i128 = div_trunc_i128(num, z as i128);
    let y_unclamped: i128 = proj + (horizon as i128);
    let clamped: i128 = if y_unclamped < 0 {
        0
    } else if y_unclamped > (h_fp as i128) {
        h_fp as i128
    } else {
        y_unclamped
    };
    clamped as i64
}

impl TerrainMap {
    /// Renders one frame: for every screen column, march the column's ray
    /// from depth one to the view distance and emit the vertical spans that
    /// are still visible.
    ///
    /// The result is exactly the modeled frame `render_upto`. Every span
    /// lies inside the viewport, and per column the spans are strictly
    /// nested and non-overlapping (tops strictly decrease, each bottom meets
    /// an earlier top), so flushing them in any order paints the same image.
    pub fn draw(
        &self,
        param: &MapDrawParam,
        rays: &Vec<Ray>,
        width: usize,
        height: u32,
    ) -> (lines: Vec<VerticalLine>)
        requires
            self.wf(),
            param.wf(),
            rays@.len() == width,
            1 <= height,
            forall|i: int| 0 <= i < rays@.len() ==> ray_ok(#[trigger] rays@[i]),
        ensures
            lines@ == render_upto(*self, *param, rays@, height as int * (ONE as int), width as nat),
            forall|i: int|
                0 <= i < lines@.len() ==> line_ok(
                    #[trigger] lines@[i],
                    width as int,
                    height as int * (ONE as int),
                ),
            forall|i: int, j: int|
                0 <= i < j < lines@.len() && lines@[i].x == lines@[j].x
                    ==> lines@[j].y_bottom <= lines@[i].y_top,
    {
        let h_fp: i64 = (height as i64) * ONE;
        let ghost h: int = h_fp as int;
        let mut lines: Vec<VerticalLine> = Vec::new();
        let mut col: usize = 0;
        while col < width
            invariant
                self.wf(),
                param.wf(),
                rays@.len() == width,
                1 <= height,
                forall|i: int| 0 <= i < rays@.len() ==> ray_ok(#[trigger] rays@[i]),
                h_fp == height as int * (ONE as int),
                h == h_fp as int,
                col <= width,
                lines@ == render_upto(*self, *param, rays@, h, col as nat),
                forall|i: int|
                    0 <= i < lines@.len() ==> line_ok(#[trigger] lines@[i], col as int, h),
                forall|i: int, j: int|
                    0 <= i < j < lines@.len() && lines@[i].x == lines@[j].x
                        ==> lines@[j].y_bottom <= lines@[i].y_top,
            decreases width - col,
        {
            let ray: Ray = rays[col];
            let mut visible: i64 = h_fp;
            let mut z: i64 = ONE;
            proof {
                assert(lines@ + column_render(*self, *param, ray, col as nat, h, z as int, visible as int)
                    =~= render_upto(*self, *param, rays@, h, (col + 1) as nat));
            }
            while z < param.view_distance
                invariant
                    self.wf(),
                    param.wf(),
                    rays@.len() == width,
                    1 <= height,
                    h_fp == height as int * (ONE as int),
                    h == h_fp as int,
                    col < width,
                    ray == rays@[col as int],
                    ray_ok(ray),
                    ONE <= z <= 2 * VD_LIMIT,
                    0 <= visible <= h_fp,
                    lines@ + column_render(
                        *self,
                        *param,
                        ray,
                        col as nat,
                        h,
                        z as int,
                        visible as int,
                    ) == render_upto(*self, *param, rays@, h, (col + 1) as nat),
                    forall|i: int|
                        0 <= i < lines@.len() ==> line_ok(#[trigger] lines@[i], col + 1, h),
                    forall|i: int|
                        0 <= i < lines@.len() && (#[trigger] lines@[i]).x == col
                            ==> visible <= lines@[i].y_top,
                    forall|i: int, j: int|
                        0 <= i < j < lines@.len() && lines@[i].x == lines@[j].x
                            ==> lines@[j].y_bottom <= lines@[i].y_top,
                decreases depth_budget(param.view_distance as int, z as int),
            {
                proof {
                    lemma_mul_abs_bounds(ray.dir_x as int, ONE as int, z as int, 2 * VD_LIMIT);
                    lemma_mul_abs_bounds(ray.dir_z as int, ONE as int, z as int, 2 * VD_LIMIT);
                }
                let dxz: i64 = fp_mul(ray.dir_x, z);
                let dzz: i64 = fp_mul(ray.dir_z, z);
                proof {
                    lemma_trunc_div_bounds(
                        ray.dir_x * z,
                        (ONE as int) * (2 * VD_LIMIT),
                        ONE as int,
                    );
                    lemma_trunc_div_bounds(
                        ray.dir_z * z,
                        (ONE as int) * (2 * VD_LIMIT),
                        ONE as int,
                    );
                }
                let mx_fp: i64 = param.camera_x + dxz;
                let mz_fp: i64 = param.camera_z + dzz;
                let mx: i64 = div_trunc(mx_fp, ONE);
                let mz: i64 = div_trunc(mz_fp, ONE);
                proof {
                    lemma_trunc_div_bounds(mx_fp as int, CAM_LIMIT + 2 * VD_LIMIT, ONE as int);
                    lemma_trunc_div_bounds(mz_fp as int, CAM_LIMIT + 2 * VD_LIMIT, ONE as int);
                }
                let (color, hgt) = self.get_point(mx as i32, mz as i32);
                let y: i64 = project_height(
                    param.camera_y,
                    hgt,
                    param.height_scale,
                    z,
                    param.horizon,
                    h_fp,
                );
                proof {
                    assert(mx as int == sample_map_x(*param, ray, z as int));
                    assert(mz as int == sample_map_z(*param, ray, z as int));
                    assert(y as int == projected_y(*self, *param, ray, z as int, h));
                }
                if y < visible {
                    let l = VerticalLine { x: col, y_top: y, y_bottom: visible, color };
                    proof {
                        assert(l == span_line(
                            *self,
                            *param,
                            ray,
                            col as nat,
                            z as int,
                            visible as int,
                            h,
                        ));
                        assert(column_render(*self, *param, ray, col as nat, h, z as int, visible as int)
                            == seq![l] + column_render(
                                *self,
                                *param,
                                ray,
                                col as nat,
                                h,
                                advance_z(z as int, RENDER_DETAIL as int),
                                y as int,
                            ));
                        assert(lines@.push(l) + column_render(
                            *self,
                            *param,
                            ray,
                            col as nat,
                            h,
                            advance_z(z as int, RENDER_DETAIL as int),
                            y as int,
                        ) =~= lines@ + column_render(
                            *self,
                            *param,
                            ray,
                            col as nat,
                            h,
                            z as int,
                            visible as int,
                        ));
                    }
                    lines.push(l);
                    visible = y;
                } else {
                    proof {
                        assert(column_render(*self, *param, ray, col as nat, h, z as int, visible as int)
                            == column_render(
                                *self,
                                *param,
                                ray,
                                col as nat,
                                h,
                                advance_z(z as int, RENDER_DETAIL as int),
                                visible as int,
                            ));
                    }
                }
                z = advance_depth(z, RENDER_DETAIL);
            }
            proof {
                assert(column_render(*self, *param, ray, col as nat, h, z as int, visible as int)
                    =~= Seq::<VerticalLine>::empty());
                assert(lines@ + Seq::<VerticalLine>::empty() =~= lines@);
            }
            col = col + 1;
        }
        lines
    }
}

} // verus!
