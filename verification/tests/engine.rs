use asciigen::args::Args;
use asciigen::config::ConfigError;
use asciigen::config::ConfigField;
use asciigen::config::GridConfig;
use asciigen::config::NoiseConfig;
use asciigen::config::SampleTransform;
use asciigen::engine::grayscale_at;
use asciigen::engine::regenerate;
use asciigen::engine::sample_point;
use asciigen::engine::sample_points;
use asciigen::grid::HeightGrid;
use asciigen::mapper::GrayscaleMapper;
use asciigen::mapper::QuantizationPolicy;

const SCALE: i64 = 1_000_000;

fn clamped(palette: &[u8], reverse: bool) -> QuantizationPolicy {
    QuantizationPolicy::ClampedPalette(GrayscaleMapper { palette: palette.to_vec(), reverse })
}

#[test]
fn grid_config_rejects_empty_grids() {
    assert_eq!(GridConfig::new(0, 5), Err(ConfigError::EmptyGrid));
    assert_eq!(GridConfig::new(5, 0), Err(ConfigError::EmptyGrid));
    assert_eq!(GridConfig::new(0, 0), Err(ConfigError::EmptyGrid));
    let g = GridConfig::new(3, 4).unwrap();
    assert_eq!((g.width, g.height), (3, 4));
}

#[test]
fn noise_config_accepts_documented_ranges() {
    let c = NoiseConfig::new(7, 6, SCALE, 2 * SCALE, SCALE / 2).unwrap();
    assert_eq!(c.seed, 7);
    assert_eq!(c.octaves, 6);
    assert_eq!(c.frequency, SCALE);
    assert_eq!(c.lacunarity, 2 * SCALE);
    assert_eq!(c.persistence, SCALE / 2);
    // the documented extremes are accepted
    assert!(NoiseConfig::new(u32::MAX - 30, 1, 1, SCALE + 1, 0).is_ok());
    assert!(NoiseConfig::new(0, 30, SCALE, 2 * SCALE, SCALE).is_ok());
}

#[test]
fn noise_config_names_the_offending_field() {
    let out_of_range = |f| Err::<NoiseConfig, _>(ConfigError::OutOfRange(f));
    assert_eq!(NoiseConfig::new(0, 0, SCALE, 2 * SCALE, 0), out_of_range(ConfigField::Octaves));
    assert_eq!(NoiseConfig::new(0, 31, SCALE, 2 * SCALE, 0), out_of_range(ConfigField::Octaves));
    assert_eq!(
        NoiseConfig::new(u32::MAX - 29, 1, SCALE, 2 * SCALE, 0),
        out_of_range(ConfigField::Seed)
    );
    assert_eq!(NoiseConfig::new(0, 1, 0, 2 * SCALE, 0), out_of_range(ConfigField::Frequency));
    assert_eq!(NoiseConfig::new(0, 1, -1, 2 * SCALE, 0), out_of_range(ConfigField::Frequency));
    assert_eq!(NoiseConfig::new(0, 1, SCALE, SCALE, 0), out_of_range(ConfigField::Lacunarity));
    assert_eq!(NoiseConfig::new(0, 1, SCALE, 2 * SCALE, -1), out_of_range(ConfigField::Persistence));
    assert_eq!(
        NoiseConfig::new(0, 1, SCALE, 2 * SCALE, SCALE + 1),
        out_of_range(ConfigField::Persistence)
    );
}

#[test]
fn args_default_and_grid_config() {
    let a = Args::default();
    assert_eq!((a.width, a.height, a.seed), (10, 10, None));
    assert_eq!(a.to_grid_config(), Ok(GridConfig { width: 10, height: 10 }));
    let bad = Args { width: 0, height: 10, seed: None };
    assert_eq!(bad.to_grid_config(), Err(ConfigError::EmptyGrid));
}

#[test]
fn height_grid_checks_the_shape() {
    assert!(HeightGrid::new(2, 2, vec![0; 3]).is_none());
    assert!(HeightGrid::new(2, 2, vec![0; 5]).is_none());
    let g = HeightGrid::new(2, 2, vec![1, 2, 3, 4]).unwrap();
    assert_eq!((g.width, g.height), (2, 2));
    assert_eq!(g.cells, vec![1, 2, 3, 4]);
}

#[test]
fn height_lookup_is_bounded() {
    let g = HeightGrid::new(2, 3, vec![10, 11, 20, 21, 30, 31]).unwrap();
    assert_eq!(g.get_height_at(0, 0), Some(10));
    assert_eq!(g.get_height_at(1, 0), Some(11));
    assert_eq!(g.get_height_at(0, 2), Some(30));
    assert_eq!(g.get_height_at(1, 2), Some(31));
    assert_eq!(g.get_height_at(2, 0), None);
    assert_eq!(g.get_height_at(0, 3), None);
    assert_eq!(g.get_height_at(-1, 0), None);
    assert_eq!(g.get_height_at(0, -1), None);
}

#[test]
fn sample_point_is_affine() {
    let t = SampleTransform { offset_x: 5, offset_y: 7, distance: 30_000 };
    assert_eq!(sample_point(&t, 0, 0), (5, 7));
    assert_eq!(sample_point(&t, 3, 2), (90_005, 60_007));
    let neg = SampleTransform { offset_x: -1, offset_y: 0, distance: -30_000 };
    assert_eq!(sample_point(&neg, 2, 1), (-60_001, -30_000));
}

#[test]
fn sample_points_cover_the_grid_row_major() {
    let grid = GridConfig::new(2, 3).unwrap();
    let t = SampleTransform { offset_x: 5, offset_y: 7, distance: 30_000 };
    let pts = sample_points(&grid, &t);
    assert_eq!(pts.len(), 6);
    for y in 0..3i128 {
        for x in 0..2i128 {
            assert_eq!(pts[(y * 2 + x) as usize], (x * 30_000 + 5, y * 30_000 + 7));
        }
    }
}

#[test]
fn sample_points_survive_extreme_parameters() {
    let grid = GridConfig::new(2, 2).unwrap();
    let t = SampleTransform { offset_x: i64::MIN, offset_y: i64::MAX, distance: i64::MAX };
    let pts = sample_points(&grid, &t);
    assert_eq!(pts.len(), 4);
    assert_eq!(pts[3], (i64::MAX as i128 + i64::MIN as i128, i64::MAX as i128 * 2));
}

#[test]
fn regenerate_keeps_the_shape() {
    let heights = HeightGrid::new(4, 3, vec![0; 12]).unwrap();
    let grid = regenerate(&heights, &clamped(b" .:-=+*#%@", false));
    assert_eq!((grid.width, grid.height), (4, 3));
    assert_eq!(grid.cells.len(), 12);
    for y in 0..3 {
        for x in 0..4 {
            assert_eq!(grid.get(x, y), b'+');
        }
    }
}

#[test]
fn regenerate_quantizes_every_cell() {
    let heights = HeightGrid::new(2, 2, vec![-SCALE, SCALE, 0, 999_999]).unwrap();
    let grid = regenerate(&heights, &clamped(b"ab", false));
    // buckets: 0, 1, 0, 0; the default orientation selects from the far end
    assert_eq!(grid.cells, vec![b'b', b'a', b'b', b'b']);
}

#[test]
fn regenerate_twice_gives_the_same_grid() {
    let heights = HeightGrid::new(3, 2, vec![-SCALE, -250_000, 0, 250_000, SCALE, 999_999]).unwrap();
    let policy = clamped(b" .:-=+*#%@", true);
    let first = regenerate(&heights, &policy);
    let second = regenerate(&heights, &policy);
    assert_eq!(first, second);
}

#[test]
fn quantization_scenario_one_by_one() {
    // a 1x1 grid whose sole cell samples the origin; the noise value is mocked
    // as height 0.0, and the quantization law alone is under test
    let grid = GridConfig::new(1, 1).unwrap();
    let t = SampleTransform { offset_x: 0, offset_y: 0, distance: SCALE };
    let pts = sample_points(&grid, &t);
    assert_eq!(pts, vec![(0, 0)]);
    let mocked_height: i64 = 0;
    let heights = HeightGrid::new(1, 1, vec![mocked_height]).unwrap();
    let palette = b" .:-=+*#%@";
    let out = regenerate(&heights, &clamped(palette, false));
    let index = 4; // floor((0.0 + 1.0) / 2.0 * 9)
    assert_eq!(out.get(0, 0), palette[9 - index]);
}

#[test]
fn grayscale_at_is_zero_outside_the_grid() {
    let heights = HeightGrid::new(2, 2, vec![0, SCALE, -SCALE, 0]).unwrap();
    let policy = clamped(b" .:-=+*#%@", false);
    assert_eq!(grayscale_at(&heights, &policy, 0, 1), b'@');
    assert_eq!(grayscale_at(&heights, &policy, 1, 0), b' ');
    assert_eq!(grayscale_at(&heights, &policy, 2, 0), 0);
    assert_eq!(grayscale_at(&heights, &policy, -1, 1), 0);
    assert_eq!(grayscale_at(&heights, &policy, 0, 2), 0);
}

#[test]
fn render_is_row_major_with_line_breaks() {
    let heights = HeightGrid::new(2, 2, vec![-SCALE, SCALE, 0, SCALE]).unwrap();
    let out = regenerate(&heights, &clamped(b"ab", false));
    // buckets 0,1,0,1 select b,a,b,a
    assert_eq!(out.render_bytes(), b"ba\nba\n".to_vec());
}

#[test]
fn render_of_wrapping_policy() {
    let heights = HeightGrid::new(3, 1, vec![0, SCALE, 2 * SCALE]).unwrap();
    let out = regenerate(&heights, &QuantizationPolicy::ModuloRange);
    assert_eq!(out.render_bytes(), b"AZY\n".to_vec());
}
