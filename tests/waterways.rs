use voxel_waterways::bresenham::bresenham_line;
use voxel_waterways::text::parse_i32;
use voxel_waterways::waterways::{
    create_water_channel, generate_waterways, get_waterway_dimensions, is_below_ground_layer,
    is_vegetation, override_width, HeightMap, TaggedWay, Voxel, VoxelWrite, WorldEditor,
};

fn flat_editor(level: i32) -> WorldEditor {
    WorldEditor {
        ground: HeightMap {
            origin_x: 0,
            origin_z: 0,
            row_len: 0,
            levels: Vec::new(),
            outside_level: level,
        },
        writes: Vec::new(),
    }
}

fn truncated(tag: &str) -> Option<i32> {
    tag.parse::<f32>().ok().map(|f| f as i32)
}

fn way(nodes: Vec<(i32, i32)>, kind: Option<&str>, width: Option<&str>, layer: Option<&str>) -> TaggedWay {
    TaggedWay {
        nodes,
        waterway: kind.map(|k| k.to_string()),
        width: width.map(|w| w.to_string()),
        width_truncated: width.and_then(truncated),
        layer: layer.map(|l| l.to_string()),
    }
}

fn writes_in_column(writes: &[VoxelWrite], x: i64, z: i64) -> Vec<VoxelWrite> {
    writes.iter().copied().filter(|w| w.x == x && w.z == z).collect()
}

#[test]
fn profile_of_each_classification() {
    assert_eq!(get_waterway_dimensions("river"), (8, 3));
    assert_eq!(get_waterway_dimensions("canal"), (6, 2));
    assert_eq!(get_waterway_dimensions("stream"), (3, 2));
    assert_eq!(get_waterway_dimensions("fairway"), (12, 3));
    assert_eq!(get_waterway_dimensions("flowline"), (2, 1));
    assert_eq!(get_waterway_dimensions("brook"), (2, 1));
    assert_eq!(get_waterway_dimensions("ditch"), (2, 1));
    assert_eq!(get_waterway_dimensions("drain"), (1, 1));
}

#[test]
fn profile_of_unknown_classification() {
    assert_eq!(get_waterway_dimensions("lake"), (4, 2));
    assert_eq!(get_waterway_dimensions(""), (4, 2));
    assert_eq!(get_waterway_dimensions("River"), (4, 2));
    assert_eq!(get_waterway_dimensions("rivers"), (4, 2));
}

#[test]
fn width_integer_tag() {
    assert_eq!(override_width("5", truncated("5"), 8), 5);
    assert_eq!(override_width("+12", truncated("+12"), 8), 12);
}

#[test]
fn width_decimal_tag_truncates() {
    assert_eq!(truncated("5.9"), Some(5));
    assert_eq!(override_width("5.9", truncated("5.9"), 8), 5);
    assert_eq!(override_width("-2.7", truncated("-2.7"), 8), -2);
}

#[test]
fn width_unreadable_tag_keeps_default() {
    assert_eq!(override_width("abc", truncated("abc"), 8), 8);
    assert_eq!(override_width("", truncated(""), 3), 3);
}

#[test]
fn parse_i32_shapes() {
    assert_eq!(parse_i32("5"), Some(5));
    assert_eq!(parse_i32("-17"), Some(-17));
    assert_eq!(parse_i32("+17"), Some(17));
    assert_eq!(parse_i32("007"), Some(7));
    assert_eq!(parse_i32("2147483647"), Some(i32::MAX));
    assert_eq!(parse_i32("-2147483648"), Some(i32::MIN));
    assert_eq!(parse_i32("2147483648"), None);
    assert_eq!(parse_i32("99999999999999999999"), None);
    assert_eq!(parse_i32(""), None);
    assert_eq!(parse_i32("-"), None);
    assert_eq!(parse_i32("+"), None);
    assert_eq!(parse_i32(" 5"), None);
    assert_eq!(parse_i32("5.9"), None);
    assert_eq!(parse_i32("--5"), None);
}

#[test]
fn layer_below_ground_skips_feature() {
    let mut editor = flat_editor(64);
    let w = way(vec![(0, 0), (10, 0)], Some("river"), Some("20"), Some("-2"));
    generate_waterways(&mut editor, &w);
    assert!(editor.writes.is_empty());
    assert!(is_below_ground_layer("-1"));
    assert!(is_below_ground_layer("-3"));
    assert!(!is_below_ground_layer("-4"));
    assert!(!is_below_ground_layer("0"));
}

#[test]
fn layer_above_ground_is_carved() {
    let mut editor = flat_editor(64);
    let w = way(vec![(0, 0), (3, 0)], Some("drain"), None, Some("1"));
    generate_waterways(&mut editor, &w);
    assert_eq!(editor.writes.len(), 4 * 3);
}

#[test]
fn way_without_classification_makes_no_writes() {
    let mut editor = flat_editor(64);
    let w = way(vec![(0, 0), (10, 0)], None, None, None);
    generate_waterways(&mut editor, &w);
    assert!(editor.writes.is_empty());
}

#[test]
fn way_with_one_vertex_makes_no_writes() {
    let mut editor = flat_editor(64);
    let w = way(vec![(0, 0)], Some("river"), None, None);
    generate_waterways(&mut editor, &w);
    assert!(editor.writes.is_empty());
}

#[test]
fn polyline_is_never_closed() {
    let mut editor = flat_editor(64);
    let w = way(vec![(0, 0), (10, 0), (10, 10), (0, 10)], Some("drain"), None, None);
    generate_waterways(&mut editor, &w);
    assert!(!writes_in_column(&editor.writes, 5, 0).is_empty());
    assert!(!writes_in_column(&editor.writes, 10, 5).is_empty());
    assert!(!writes_in_column(&editor.writes, 5, 10).is_empty());
    assert!(writes_in_column(&editor.writes, 0, 5).is_empty());
    // three segments of eleven points each, three writes per point
    assert_eq!(editor.writes.len(), 3 * 11 * 3);
}

#[test]
fn channel_cross_section_shape() {
    let mut editor = flat_editor(64);
    create_water_channel(&mut editor, 0, 0, 4, 3);
    for dx in -4i64..=4 {
        for dz in -4i64..=4 {
            let col = writes_in_column(&editor.writes, dx, dz);
            let dist = dx.abs().max(dz.abs());
            let kinds: Vec<(i64, Voxel, bool)> = col.iter().map(|w| (w.y, w.kind, w.only_over_vegetation)).collect();
            if dist <= 2 {
                assert_eq!(
                    kinds,
                    vec![
                        (64, Voxel::Water, false),
                        (63, Voxel::Water, false),
                        (62, Voxel::Water, false),
                        (61, Voxel::Dirt, false),
                        (65, Voxel::Air, true),
                    ]
                );
            } else if dist == 3 {
                assert_eq!(
                    kinds,
                    vec![
                        (64, Voxel::Water, false),
                        (63, Voxel::Air, false),
                        (62, Voxel::Dirt, false),
                        (65, Voxel::Air, true),
                    ]
                );
            } else {
                assert!(kinds.is_empty());
            }
        }
    }
    assert_eq!(editor.writes.len(), 25 * 5 + 24 * 4);
}

#[test]
fn shallow_channel_has_no_bank() {
    let mut editor = flat_editor(10);
    create_water_channel(&mut editor, 5, 5, 2, 1);
    assert_eq!(editor.writes.len(), 9 * 3);
    assert!(writes_in_column(&editor.writes, 7, 5).is_empty());
    assert_eq!(
        writes_in_column(&editor.writes, 6, 6),
        vec![
            VoxelWrite { x: 6, y: 10, z: 6, kind: Voxel::Water, only_over_vegetation: false },
            VoxelWrite { x: 6, y: 9, z: 6, kind: Voxel::Dirt, only_over_vegetation: false },
            VoxelWrite { x: 6, y: 11, z: 6, kind: Voxel::Air, only_over_vegetation: true },
        ]
    );
}

#[test]
fn channel_uses_ground_level_of_centre() {
    let mut editor = WorldEditor {
        ground: HeightMap { origin_x: 0, origin_z: 0, row_len: 2, levels: vec![10, 20, 30, 40], outside_level: 0 },
        writes: Vec::new(),
    };
    assert_eq!(editor.get_ground_level(1, 1), 40);
    assert_eq!(editor.get_ground_level(1, 0), 20);
    assert_eq!(editor.get_ground_level(2, 0), 0);
    assert_eq!(editor.get_ground_level(0, 2), 0);
    assert_eq!(editor.get_ground_level(-1, 0), 0);
    create_water_channel(&mut editor, 1, 1, 2, 2);
    assert!(editor.writes.iter().all(|w| w.y >= 38 && w.y <= 41));
    assert_eq!(editor.writes[0], VoxelWrite { x: -1, y: 40, z: -1, kind: Voxel::Water, only_over_vegetation: false });
}

#[test]
fn width_override_reaches_channel() {
    let mut editor = flat_editor(0);
    let w = way(vec![(0, 0), (0, 0)], Some("river"), Some("2.5"), None);
    generate_waterways(&mut editor, &w);
    // one point; width 2: a 3x3 core of 5 writes per column and a ring of 16
    // columns with 4 writes each
    assert_eq!(editor.writes.len(), 9 * 5 + 16 * 4);
}

#[test]
fn line_shallow_slope() {
    assert_eq!(bresenham_line(0, 0, 5, 2), vec![(0, 0), (1, 0), (2, 1), (3, 1), (4, 2), (5, 2)]);
}

#[test]
fn line_reversed() {
    assert_eq!(bresenham_line(5, 2, 0, 0), vec![(5, 2), (4, 2), (3, 1), (2, 1), (1, 0), (0, 0)]);
}

#[test]
fn line_steep_slope() {
    assert_eq!(bresenham_line(0, 0, 2, 5), vec![(0, 0), (0, 1), (1, 2), (1, 3), (2, 4), (2, 5)]);
}

#[test]
fn line_single_point_and_axis() {
    assert_eq!(bresenham_line(3, 3, 3, 3), vec![(3, 3)]);
    assert_eq!(bresenham_line(0, 0, 0, -3), vec![(0, 0), (0, -1), (0, -2), (0, -3)]);
    assert_eq!(bresenham_line(0, 0, 3, 3), vec![(0, 0), (1, 1), (2, 2), (3, 3)]);
}

#[test]
fn line_extreme_coordinates() {
    let pts = bresenham_line(i32::MIN, 0, i32::MIN + 3, 1);
    assert_eq!(pts, vec![(i32::MIN, 0), (i32::MIN + 1, 0), (i32::MIN + 2, 1), (i32::MIN + 3, 1)]);
}

#[test]
fn vegetation_names() {
    assert!(is_vegetation("grass"));
    assert!(is_vegetation("wheat"));
    assert!(is_vegetation("carrots"));
    assert!(is_vegetation("potatoes"));
    assert!(!is_vegetation("short_grass"));
    assert!(!is_vegetation("dirt"));
}

#[test]
fn line_has_no_gaps() {
    for &(x2, z2) in &[(17, 5), (-9, 23), (40, -40), (-3, -31), (0, 12)] {
        let pts = bresenham_line(1, -2, x2, z2);
        assert_eq!(pts.first(), Some(&(1, -2)));
        assert_eq!(pts.last(), Some(&(x2, z2)));
        for pair in pts.windows(2) {
            assert!((pair[0].0 - pair[1].0).abs() <= 1);
            assert!((pair[0].1 - pair[1].1).abs() <= 1);
        }
    }
}
