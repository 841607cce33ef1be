use voxelspace::map::Rgb;
use voxelspace::map::TerrainMap;
use voxelspace::render::advance_depth;
use voxelspace::render::column_angles;
use voxelspace::render::project_height;
use voxelspace::render::Ray;
use voxelspace::render::VerticalLine;
use voxelspace::state::MapDrawParam;

const ONE: i64 = 65536;

fn flat_map(size: u32, color: Rgb) -> TerrainMap {
    let n = (size * size) as usize;
    TerrainMap::new(1, size, size, vec![color; n], size, size, vec![0u8; n]).unwrap()
}

#[test]
fn adaptive_march_covers_the_range_in_few_steps() {
    // With a detail constant of 10, the march from depth 1 to a view
    // distance of 800 takes well under 100 steps, and ends past the range.
    let view_distance: i64 = 800 * ONE;
    let mut z: i64 = ONE;
    let mut steps: u32 = 0;
    while z < view_distance {
        z = advance_depth(z, 10);
        steps += 1;
    }
    assert!(z >= view_distance);
    assert!(steps < 100);
}

#[test]
fn adaptive_march_always_terminates_within_the_linear_bound() {
    let view_distance: i64 = 800 * ONE;
    let mut z: i64 = ONE;
    let mut steps: u32 = 0;
    while z < view_distance {
        z = advance_depth(z, 150);
        steps += 1;
        assert!(steps <= 800);
    }
    assert!(z >= view_distance);
}

#[test]
fn depth_step_is_at_least_one_unit() {
    assert_eq!(advance_depth(ONE, 150), 2 * ONE);
    // Below 150 units the step stays exactly one unit.
    assert_eq!(advance_depth(100 * ONE, 150), 101 * ONE);
    // Beyond, the step is z / 150.
    assert_eq!(advance_depth(300 * ONE, 150), 302 * ONE);
}

#[test]
fn projection_approaches_the_horizon_with_depth() {
    // Flat terrain, camera at 200, height scale 300, horizon 100:
    // projected_y(z) = 200 * 300 / z + 100, clamped to the viewport.
    let tall: i64 = 100000 * ONE;
    let y1 = project_height(200 * ONE, 0, 300 * ONE, ONE, 100 * ONE, tall);
    let y10 = project_height(200 * ONE, 0, 300 * ONE, 10 * ONE, 100 * ONE, tall);
    let y100 = project_height(200 * ONE, 0, 300 * ONE, 100 * ONE, 100 * ONE, tall);
    assert_eq!(y1, 60100 * ONE);
    assert_eq!(y10, 6100 * ONE);
    assert_eq!(y100, 700 * ONE);
    assert!(y1 > y10 && y10 > y100 && y100 > 100 * ONE);
}

#[test]
fn projection_clamps_into_the_viewport() {
    let h = 600 * ONE;
    // Near depth projects far below the viewport bottom: clamped to it.
    assert_eq!(project_height(200 * ONE, 0, 300 * ONE, ONE, 100 * ONE, h), h);
    // Terrain far above the camera projects above the top: clamped to 0.
    assert_eq!(project_height(0, 255, 300 * ONE, ONE, 0, h), 0);
}

fn per_column(lines: &[VerticalLine], x: usize) -> Vec<&VerticalLine> {
    lines.iter().filter(|l| l.x == x).collect()
}

#[test]
fn draw_emits_nested_spans_per_column() {
    let map = flat_map(64, Rgb { r: 10, g: 20, b: 30 });
    let param: MapDrawParam = Default::default();
    let width: usize = 4;
    let height: u32 = 600;
    let rays = vec![
        Ray { dir_x: ONE, dir_z: 0 },
        Ray { dir_x: 0, dir_z: ONE },
        Ray { dir_x: -ONE, dir_z: 0 },
        Ray { dir_x: 0, dir_z: -ONE },
    ];
    let lines = map.draw(&param, &rays, width, height);
    assert!(!lines.is_empty());
    for l in &lines {
        assert!(l.x < width);
        assert!(0 <= l.y_top && l.y_top < l.y_bottom && l.y_bottom <= height as i64 * ONE);
        // Uniform terrain: every span carries the single map color.
        assert_eq!(l.color, Rgb { r: 10, g: 20, b: 30 });
        // Flat terrain below the camera never rises above the horizon row.
        assert!(l.y_top >= 100 * ONE);
    }
    for x in 0..width {
        let spans = per_column(&lines, x);
        // The first span starts at the viewport bottom; successive spans
        // are stacked strictly upward, each ending where the previous began.
        assert!(!spans.is_empty());
        assert_eq!(spans[0].y_bottom, height as i64 * ONE);
        for w in spans.windows(2) {
            assert_eq!(w[1].y_bottom, w[0].y_top);
            assert!(w[1].y_top < w[0].y_top);
        }
    }
}

#[test]
fn draw_is_deterministic() {
    let map = flat_map(16, Rgb { r: 1, g: 2, b: 3 });
    let param: MapDrawParam = Default::default();
    let rays = vec![Ray { dir_x: ONE, dir_z: 0 }; 3];
    let a = map.draw(&param, &rays, 3, 400);
    let b = map.draw(&param, &rays, 3, 400);
    assert_eq!(a, b);
}

#[test]
fn occlusion_skips_hidden_terrain() {
    // A map of full-height terrain: the very first depth fills the whole
    // column and every further sample is occluded, so exactly one span
    // comes out per column.
    let size: u32 = 16;
    let n = (size * size) as usize;
    let map = TerrainMap::new(
        1,
        size,
        size,
        vec![Rgb { r: 5, g: 5, b: 5 }; n],
        size,
        size,
        vec![255u8; n],
    )
    .unwrap();
    let mut param = MapDrawParam::default();
    param.camera_y = 0;
    param.horizon = 0;
    let rays = vec![Ray { dir_x: ONE, dir_z: 0 }];
    let lines = map.draw(&param, &rays, 1, 600);
    assert_eq!(lines.len(), 1);
    assert_eq!(lines[0].y_top, 0);
    assert_eq!(lines[0].y_bottom, 600 * ONE);
}

#[test]
fn column_angles_span_the_field_of_view() {
    let param: MapDrawParam = Default::default();
    let width: usize = 800;
    let angles = column_angles(&param, width);
    assert_eq!(angles.len(), width);
    // The leftmost column looks half a field of view left of center.
    assert_eq!(angles[0], param.rotation + param.fov / 2);
    // The angle falls monotonically across the screen.
    for w in angles.windows(2) {
        assert!(w[1] <= w[0]);
    }
    // Across the full width the angle sweeps about one field of view.
    let swept = angles[0] - angles[width - 1];
    assert!((swept - param.fov).abs() <= width as i64);
}
