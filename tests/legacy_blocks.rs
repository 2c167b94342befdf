use voxel_waterways::legacy_blocks::{get_legacy_block_id, section_to_legacy_format};

fn section_of(name: &str) -> [String; 4096] {
    std::array::from_fn(|_| name.to_string())
}

#[test]
fn legacy_ids_of_listed_blocks() {
    assert_eq!(get_legacy_block_id("air"), (0, 0));
    assert_eq!(get_legacy_block_id("stone"), (1, 0));
    assert_eq!(get_legacy_block_id("water"), (9, 0));
    assert_eq!(get_legacy_block_id("short_grass"), (31, 1));
    assert_eq!(get_legacy_block_id("grass"), (31, 1));
    assert_eq!(get_legacy_block_id("black_wool"), (35, 15));
    assert_eq!(get_legacy_block_id("red_nether_brick"), (215, 0));
    assert_eq!(get_legacy_block_id("white_stained_glass"), (95, 0));
}

#[test]
fn legacy_ids_of_modern_blocks() {
    assert_eq!(get_legacy_block_id("blackstone"), (112, 0));
    assert_eq!(get_legacy_block_id("deepslate_bricks"), (98, 0));
    assert_eq!(get_legacy_block_id("warped_planks"), (5, 5));
    assert_eq!(get_legacy_block_id("crimson_planks"), (5, 4));
    assert_eq!(get_legacy_block_id("netherite_block"), (215, 0));
}

#[test]
fn unknown_block_is_stone() {
    for _ in 0..3 {
        assert_eq!(get_legacy_block_id("no_such_block"), (1, 0));
        assert_eq!(get_legacy_block_id(""), (1, 0));
        assert_eq!(get_legacy_block_id("Water"), (1, 0));
    }
}

#[test]
fn all_water_section() {
    let (ids, data) = section_to_legacy_format(&section_of("water"));
    assert_eq!(ids.len(), 4096);
    assert_eq!(data.len(), 2048);
    assert!(ids.iter().all(|&b| b == 9));
    assert!(data.iter().all(|&b| b & 0x0F == 0 && b >> 4 == 0));
}

#[test]
fn buffer_lengths_for_mixed_section() {
    let mut blocks = section_of("dirt");
    blocks[7] = "no_such_block".to_string();
    blocks[4095] = "black_wool".to_string();
    let (ids, data) = section_to_legacy_format(&blocks);
    assert_eq!(ids.len(), 4096);
    assert_eq!(data.len(), 2048);
    assert_eq!(ids[7], 1);
    assert_eq!(ids[4095], 35);
    assert_eq!(data[2047], 0xF0);
}

#[test]
fn metadata_packs_two_per_byte() {
    let mut blocks = section_of("air");
    blocks[0] = "granite".to_string();
    blocks[1] = "orange_wool".to_string();
    blocks[2] = "black_wool".to_string();
    blocks[5] = "podzol".to_string();
    let (ids, data) = section_to_legacy_format(&blocks);
    assert_eq!(&ids[0..6], &[1, 35, 35, 0, 0, 3]);
    assert_eq!(data[0], 0x11);
    assert_eq!(data[1], 0x0F);
    assert_eq!(data[2], 0x20);
}

#[test]
fn odd_block_changes_only_high_nibble() {
    let mut before = section_of("air");
    before[6] = "jungle_log".to_string();
    let mut after = section_of("air");
    after[6] = "jungle_log".to_string();
    after[7] = "black_wool".to_string();
    let (ids_a, data_a) = section_to_legacy_format(&before);
    let (ids_b, data_b) = section_to_legacy_format(&after);
    for i in 0..4096 {
        if i != 7 {
            assert_eq!(ids_a[i], ids_b[i]);
        }
    }
    for k in 0..2048 {
        if k != 3 {
            assert_eq!(data_a[k], data_b[k]);
        }
    }
    assert_eq!(data_a[3] & 0x0F, data_b[3] & 0x0F);
    assert_eq!(data_a[3], 0x03);
    assert_eq!(data_b[3], 0xF3);
}
