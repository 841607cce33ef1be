use voxelspace::map::MapError;
use voxelspace::map::Rgb;
use voxelspace::map::TerrainMap;

fn rgb(r: u8, g: u8, b: u8) -> Rgb {
    Rgb { r, g, b }
}

/// A size x size map whose cell (x, y) holds color (x, y, 0) and height x + y.
fn numbered_map(size: u32) -> TerrainMap {
    let n = (size * size) as usize;
    let mut colors = Vec::with_capacity(n);
    let mut heights = Vec::with_capacity(n);
    for y in 0..size {
        for x in 0..size {
            colors.push(rgb(x as u8, y as u8, 0));
            heights.push((x + y) as u8);
        }
    }
    TerrainMap::new(1, size, size, colors, size, size, heights).unwrap()
}

#[test]
fn sample_reads_the_right_cell() {
    let m = numbered_map(4);
    assert_eq!(m.get_point(0, 0), (rgb(0, 0, 0), 0));
    assert_eq!(m.get_point(3, 2), (rgb(3, 2, 0), 5));
    assert_eq!(m.get_point(1, 3), (rgb(1, 3, 0), 4));
}

#[test]
fn sample_wraps_toroidally() {
    let m = numbered_map(4);
    for &(x, y) in &[(0i32, 0i32), (1, 2), (3, 3), (-1, 0), (-5, -9), (7, -2)] {
        let here = m.get_point(x, y);
        assert_eq!(m.get_point(x + 4, y), here);
        assert_eq!(m.get_point(x, y + 4), here);
        assert_eq!(m.get_point(x + 4, y + 4), here);
        assert_eq!(m.get_point(x - 4, y), here);
        assert_eq!(m.get_point(x, y - 4), here);
    }
    // Negative coordinates wrap like positive ones shifted by the size.
    assert_eq!(m.get_point(-1, -1), m.get_point(3, 3));
    assert_eq!(m.get_point(-3, 2), m.get_point(1, 2));
}

#[test]
fn sample_wraps_on_a_larger_map() {
    let m = numbered_map(256);
    assert_eq!(m.get_point(300, -17), m.get_point(300 - 256, -17 + 256));
    assert_eq!(m.get_point(-1, 5), m.get_point(255, 5));
}

#[test]
fn construction_rejects_non_square_pair() {
    // Both rasters are 256 x 257: they match each other but are not square.
    let colors = vec![rgb(0, 0, 0); 256 * 257];
    let heights = vec![0u8; 256 * 257];
    let r = TerrainMap::new(1, 256, 257, colors, 256, 257, heights);
    assert!(matches!(r, Err(MapError::DimensionMismatch)));
}

#[test]
fn construction_rejects_mismatched_pair() {
    let colors = vec![rgb(0, 0, 0); 256 * 256];
    let heights = vec![0u8; 128 * 128];
    let r = TerrainMap::new(1, 256, 256, colors, 128, 128, heights);
    assert!(matches!(r, Err(MapError::DimensionMismatch)));
}

#[test]
fn construction_rejects_non_power_of_two() {
    let colors = vec![rgb(0, 0, 0); 300 * 300];
    let heights = vec![0u8; 300 * 300];
    let r = TerrainMap::new(1, 300, 300, colors, 300, 300, heights);
    assert!(matches!(r, Err(MapError::NotPowerOfTwo)));
}

#[test]
fn construction_rejects_empty_raster() {
    let r = TerrainMap::new(1, 0, 0, Vec::new(), 0, 0, Vec::new());
    assert!(matches!(r, Err(MapError::NotPowerOfTwo)));
}

#[test]
fn construction_accepts_power_of_two() {
    let m = numbered_map(256);
    assert_eq!(m.get_id(), 1);
    let one = TerrainMap::new(7, 1, 1, vec![rgb(9, 9, 9)], 1, 1, vec![42]).unwrap();
    assert_eq!(one.get_id(), 7);
    assert_eq!(one.get_point(-100, 100), (rgb(9, 9, 9), 42));
}
