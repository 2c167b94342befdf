//! The legacy section format: an 8-bit block id per voxel and a 4-bit
//! metadata value per voxel, two to a byte.

use vstd::prelude::*;

use crate::text::str_eq;

verus! {

/// The legacy `(id, metadata)` pair of the block named `name`; a name that the
/// legacy format lacks takes the pair of the nearest legacy block, and a name
/// that is not listed at all takes plain stone, `(1, 0)`.
pub open spec fn legacy_id(name: Seq<char>) -> (u8, u8) {
    if name == "air"@ {
        (0, 0)
    } else if name == "stone"@ {
        (1, 0)
    } else if name == "granite"@ {
        (1, 1)
    } else if name == "polished_granite"@ {
        (1, 2)
    } else if name == "diorite"@ {
        (1, 3)
    } else if name == "polished_diorite"@ {
        (1, 4)
    } else if name == "andesite"@ {
        (1, 5)
    } else if name == "polished_andesite"@ {
        (1, 6)
    } else if name == "grass_block"@ {
        (2, 0)
    } else if name == "dirt"@ {
        (3, 0)
    } else if name == "coarse_dirt"@ {
        (3, 1)
    } else if name == "podzol"@ {
        (3, 2)
    } else if name == "cobblestone"@ {
        (4, 0)
    } else if name == "oak_planks"@ {
        (5, 0)
    } else if name == "spruce_planks"@ {
        (5, 1)
    } else if name == "birch_planks"@ {
        (5, 2)
    } else if name == "jungle_planks"@ {
        (5, 3)
    } else if name == "acacia_planks"@ {
        (5, 4)
    } else if name == "dark_oak_planks"@ {
        (5, 5)
    } else if name == "sand"@ {
        (12, 0)
    } else if name == "red_sand"@ {
        (12, 1)
    } else if name == "gravel"@ {
        (13, 0)
    } else if name == "gold_ore"@ {
        (14, 0)
    } else if name == "iron_ore"@ {
        (15, 0)
    } else if name == "coal_ore"@ {
        (16, 0)
    } else if name == "oak_log"@ {
        (17, 0)
    } else if name == "spruce_log"@ {
        (17, 1)
    } else if name == "birch_log"@ {
        (17, 2)
    } else if name == "jungle_log"@ {
        (17, 3)
    } else if name == "oak_leaves"@ {
        (18, 0)
    } else if name == "spruce_leaves"@ {
        (18, 1)
    } else if name == "birch_leaves"@ {
        (18, 2)
    } else if name == "jungle_leaves"@ {
        (18, 3)
    } else if name == "sponge"@ {
        (19, 0)
    } else if name == "glass"@ {
        (20, 0)
    } else if name == "sandstone"@ {
        (24, 0)
    } else if name == "chiseled_sandstone"@ {
        (24, 1)
    } else if name == "smooth_sandstone"@ {
        (24, 2)
    } else if name == "short_grass"@ || name == "grass"@ {
        (31, 1)
    } else if name == "fern"@ {
        (31, 2)
    } else if name == "white_wool"@ {
        (35, 0)
    } else if name == "orange_wool"@ {
        (35, 1)
    } else if name == "magenta_wool"@ {
        (35, 2)
    } else if name == "light_blue_wool"@ {
        (35, 3)
    } else if name == "yellow_wool"@ {
        (35, 4)
    } else if name == "lime_wool"@ {
        (35, 5)
    } else if name == "pink_wool"@ {
        (35, 6)
    } else if name == "gray_wool"@ {
        (35, 7)
    } else if name == "light_gray_wool"@ {
        (35, 8)
    } else if name == "cyan_wool"@ {
        (35, 9)
    } else if name == "purple_wool"@ {
        (35, 10)
    } else if name == "blue_wool"@ {
        (35, 11)
    } else if name == "brown_wool"@ {
        (35, 12)
    } else if name == "green_wool"@ {
        (35, 13)
    } else if name == "red_wool"@ {
        (35, 14)
    } else if name == "black_wool"@ {
        (35, 15)
    } else if name == "gold_block"@ {
        (41, 0)
    } else if name == "iron_block"@ {
        (42, 0)
    } else if name == "stone_slab"@ {
        (44, 0)
    } else if name == "bricks"@ {
        (45, 0)
    } else if name == "mossy_cobblestone"@ {
        (48, 0)
    } else if name == "obsidian"@ {
        (49, 0)
    } else if name == "torch"@ {
        (50, 0)
    } else if name == "diamond_ore"@ {
        (56, 0)
    } else if name == "diamond_block"@ {
        (57, 0)
    } else if name == "farmland"@ {
        (60, 0)
    } else if name == "ladder"@ {
        (65, 0)
    } else if name == "rail"@ {
        (66, 0)
    } else if name == "cobblestone_wall"@ {
        (139, 0)
    } else if name == "ice"@ {
        (79, 0)
    } else if name == "snow_block"@ {
        (80, 0)
    } else if name == "cactus"@ {
        (81, 0)
    } else if name == "clay"@ {
        (82, 0)
    } else if name == "pumpkin"@ {
        (86, 0)
    } else if name == "netherrack"@ {
        (87, 0)
    } else if name == "soul_sand"@ {
        (88, 0)
    } else if name == "glowstone"@ {
        (89, 0)
    } else if name == "stone_bricks"@ {
        (98, 0)
    } else if name == "mossy_stone_bricks"@ {
        (98, 1)
    } else if name == "cracked_stone_bricks"@ {
        (98, 2)
    } else if name == "chiseled_stone_bricks"@ {
        (98, 3)
    } else if name == "oak_fence"@ {
        (85, 0)
    } else if name == "glass_pane"@ {
        (102, 0)
    } else if name == "iron_bars"@ {
        (101, 0)
    } else if name == "nether_bricks"@ || name == "nether_brick"@ {
        (112, 0)
    } else if name == "red_nether_bricks"@ || name == "red_nether_brick"@ {
        (215, 0)
    } else if name == "quartz_block"@ {
        (155, 0)
    } else if name == "smooth_quartz"@ {
        (155, 0)
    } else if name == "terracotta"@ {
        (172, 0)
    } else if name == "white_terracotta"@ {
        (159, 0)
    } else if name == "orange_terracotta"@ {
        (159, 1)
    } else if name == "red_terracotta"@ {
        (159, 14)
    } else if name == "gray_terracotta"@ {
        (159, 7)
    } else if name == "light_blue_terracotta"@ {
        (159, 3)
    } else if name == "green_terracotta"@ {
        (159, 13)
    } else if name == "blue_terracotta"@ {
        (159, 11)
    } else if name == "cyan_terracotta"@ {
        (159, 9)
    } else if name == "hay_block"@ {
        (170, 0)
    } else if name == "white_concrete"@ {
        (251, 0)
    } else if name == "gray_concrete"@ {
        (251, 7)
    } else if name == "light_gray_concrete"@ {
        (251, 8)
    } else if name == "black_concrete"@ {
        (251, 15)
    } else if name == "blue_concrete"@ {
        (251, 11)
    } else if name == "cyan_concrete"@ {
        (251, 9)
    } else if name == "lime_concrete"@ {
        (251, 5)
    } else if name == "yellow_concrete"@ {
        (251, 4)
    } else if name == "light_blue_concrete"@ {
        (251, 3)
    } else if name == "purple_concrete"@ {
        (251, 10)
    } else if name == "prismarine"@ {
        (168, 0)
    } else if name == "smooth_stone"@ {
        (1, 0)
    } else if name == "water"@ {
        (9, 0)
    } else if name == "lava"@ {
        (11, 0)
    } else if name == "packed_ice"@ {
        (174, 0)
    } else if name == "coal_block"@ {
        (173, 0)
    } else if name == "purpur_block"@ {
        (201, 0)
    } else if name == "purpur_pillar"@ {
        (202, 0)
    } else if name == "end_stone_bricks"@ {
        (206, 0)
    } else if name == "poppy"@ {
        (38, 0)
    } else if name == "dandelion"@ {
        (37, 0)
    } else if name == "blue_orchid"@ {
        (38, 1)
    } else if name == "azure_bluet"@ {
        (38, 3)
    } else if name == "cauldron"@ {
        (118, 0)
    } else if name == "moss_block"@ {
        (48, 0)
    } else if name == "blackstone"@ {
        (112, 0)
    } else if name == "polished_blackstone"@ {
        (112, 0)
    } else if name == "polished_blackstone_bricks"@ {
        (112, 0)
    } else if name == "deepslate_bricks"@ {
        (98, 0)
    } else if name == "polished_deepslate"@ {
        (98, 0)
    } else if name == "mud_bricks"@ {
        (45, 0)
    } else if name == "netherite_block"@ {
        (215, 0)
    } else if name == "warped_planks"@ {
        (5, 5)
    } else if name == "crimson_planks"@ {
        (5, 4)
    } else if name == "polished_basalt"@ {
        (1, 0)
    } else if name == "scaffolding"@ {
        (85, 0)
    } else if name == "smooth_red_sandstone"@ {
        (179, 0)
    } else if name == "cut_sandstone"@ {
        (24, 0)
    } else if name == "quartz_bricks"@ {
        (155, 0)
    } else if name == "stone_brick_slab"@ {
        (44, 5)
    } else if name == "oak_slab"@ {
        (126, 0)
    } else if name == "white_stained_glass"@ {
        (95, 0)
    } else {
        (1, 0)
    }
}

/// Whether `name` is listed among the blocks that have a legacy pair of their own.
pub open spec fn known_block(name: Seq<char>) -> bool {
    name == "air"@
        || name == "stone"@
        || name == "granite"@
        || name == "polished_granite"@
        || name == "diorite"@
        || name == "polished_diorite"@
        || name == "andesite"@
        || name == "polished_andesite"@
        || name == "grass_block"@
        || name == "dirt"@
        || name == "coarse_dirt"@
        || name == "podzol"@
        || name == "cobblestone"@
        || name == "oak_planks"@
        || name == "spruce_planks"@
        || name == "birch_planks"@
        || name == "jungle_planks"@
        || name == "acacia_planks"@
        || name == "dark_oak_planks"@
        || name == "sand"@
        || name == "red_sand"@
        || name == "gravel"@
        || name == "gold_ore"@
        || name == "iron_ore"@
        || name == "coal_ore"@
        || name == "oak_log"@
        || name == "spruce_log"@
        || name == "birch_log"@
        || name == "jungle_log"@
        || name == "oak_leaves"@
        || name == "spruce_leaves"@
        || name == "birch_leaves"@
        || name == "jungle_leaves"@
        || name == "sponge"@
        || name == "glass"@
        || name == "sandstone"@
        || name == "chiseled_sandstone"@
        || name == "smooth_sandstone"@
        || name == "short_grass"@
        || name == "grass"@
        || name == "fern"@
        || name == "white_wool"@
        || name == "orange_wool"@
        || name == "magenta_wool"@
        || name == "light_blue_wool"@
        || name == "yellow_wool"@
        || name == "lime_wool"@
        || name == "pink_wool"@
        || name == "gray_wool"@
        || name == "light_gray_wool"@
        || name == "cyan_wool"@
        || name == "purple_wool"@
        || name == "blue_wool"@
        || name == "brown_wool"@
        || name == "green_wool"@
        || name == "red_wool"@
        || name == "black_wool"@
        || name == "gold_block"@
        || name == "iron_block"@
        || name == "stone_slab"@
        || name == "bricks"@
        || name == "mossy_cobblestone"@
        || name == "obsidian"@
        || name == "torch"@
        || name == "diamond_ore"@
        || name == "diamond_block"@
        || name == "farmland"@
        || name == "ladder"@
        || name == "rail"@
        || name == "cobblestone_wall"@
        || name == "ice"@
        || name == "snow_block"@
        || name == "cactus"@
        || name == "clay"@
        || name == "pumpkin"@
        || name == "netherrack"@
        || name == "soul_sand"@
        || name == "glowstone"@
        || name == "stone_bricks"@
        || name == "mossy_stone_bricks"@
        || name == "cracked_stone_bricks"@
        || name == "chiseled_stone_bricks"@
        || name == "oak_fence"@
        || name == "glass_pane"@
        || name == "iron_bars"@
        || name == "nether_bricks"@
        || name == "nether_brick"@
        || name == "red_nether_bricks"@
        || name == "red_nether_brick"@
        || name == "quartz_block"@
        || name == "smooth_quartz"@
        || name == "terracotta"@
        || name == "white_terracotta"@
        || name == "orange_terracotta"@
        || name == "red_terracotta"@
        || name == "gray_terracotta"@
        || name == "light_blue_terracotta"@
        || name == "green_terracotta"@
        || name == "blue_terracotta"@
        || name == "cyan_terracotta"@
        || name == "hay_block"@
        || name == "white_concrete"@
        || name == "gray_concrete"@
        || name == "light_gray_concrete"@
        || name == "black_concrete"@
        || name == "blue_concrete"@
        || name == "cyan_concrete"@
        || name == "lime_concrete"@
        || name == "yellow_concrete"@
        || name == "light_blue_concrete"@
        || name == "purple_concrete"@
        || name == "prismarine"@
        || name == "smooth_stone"@
        || name == "water"@
        || name == "lava"@
        || name == "packed_ice"@
        || name == "coal_block"@
        || name == "purpur_block"@
        || name == "purpur_pillar"@
        || name == "end_stone_bricks"@
        || name == "poppy"@
        || name == "dandelion"@
        || name == "blue_orchid"@
        || name == "azure_bluet"@
        || name == "cauldron"@
        || name == "moss_block"@
        || name == "blackstone"@
        || name == "polished_blackstone"@
        || name == "polished_blackstone_bricks"@
        || name == "deepslate_bricks"@
        || name == "polished_deepslate"@
        || name == "mud_bricks"@
        || name == "netherite_block"@
        || name == "warped_planks"@
        || name == "crimson_planks"@
        || name == "polished_basalt"@
        || name == "scaffolding"@
        || name == "smooth_red_sandstone"@
        || name == "cut_sandstone"@
        || name == "quartz_bricks"@
        || name == "stone_brick_slab"@
        || name == "oak_slab"@
        || name == "white_stained_glass"@
}

/// Maps a block name to its legacy `(id, metadata)` pair.
pub fn get_legacy_block_id(block_name: &str) -> (r: (u8, u8))
    ensures
        r == legacy_id(block_name@),
{
    if str_eq(block_name, "air") {
        (0, 0)
    } else if str_eq(block_name, "stone") {
        (1, 0)
    } else if str_eq(block_name, "granite") {
        (1, 1)
    } else if str_eq(block_name, "polished_granite") {
        (1, 2)
    } else if str_eq(block_name, "diorite") {
        (1, 3)
    } else if str_eq(block_name, "polished_diorite") {
        (1, 4)
    } else if str_eq(block_name, "andesite") {
        (1, 5)
    } else if str_eq(block_name, "polished_andesite") {
        (1, 6)
    } else if str_eq(block_name, "grass_block") {
        (2, 0)
    } else if str_eq(block_name, "dirt") {
        (3, 0)
    } else if str_eq(block_name, "coarse_dirt") {
        (3, 1)
    } else if str_eq(block_name, "podzol") {
        (3, 2)
    } else if str_eq(block_name, "cobblestone") {
        (4, 0)
    } else if str_eq(block_name, "oak_planks") {
        (5, 0)
    } else if str_eq(block_name, "spruce_planks") {
        (5, 1)
    } else if str_eq(block_name, "birch_planks") {
        (5, 2)
    } else if str_eq(block_name, "jungle_planks") {
        (5, 3)
    } else if str_eq(block_name, "acacia_planks") {
        (5, 4)
    } else if str_eq(block_name, "dark_oak_planks") {
        (5, 5)
    } else if str_eq(block_name, "sand") {
        (12, 0)
    } else if str_eq(block_name, "red_sand") {
        (12, 1)
    } else if str_eq(block_name, "gravel") {
        (13, 0)
    } else if str_eq(block_name, "gold_ore") {
        (14, 0)
    } else if str_eq(block_name, "iron_ore") {
        (15, 0)
    } else if str_eq(block_name, "coal_ore") {
        (16, 0)
    } else if str_eq(block_name, "oak_log") {
        (17, 0)
    } else if str_eq(block_name, "spruce_log") {
        (17, 1)
    } else if str_eq(block_name, "birch_log") {
        (17, 2)
    } else if str_eq(block_name, "jungle_log") {
        (17, 3)
    } else if str_eq(block_name, "oak_leaves") {
        (18, 0)
    } else if str_eq(block_name, "spruce_leaves") {
        (18, 1)
    } else if str_eq(block_name, "birch_leaves") {
        (18, 2)
    } else if str_eq(block_name, "jungle_leaves") {
        (18, 3)
    } else if str_eq(block_name, "sponge") {
        (19, 0)
    } else if str_eq(block_name, "glass") {
        (20, 0)
    } else if str_eq(block_name, "sandstone") {
        (24, 0)
    } else if str_eq(block_name, "chiseled_sandstone") {
        (24, 1)
    } else if str_eq(block_name, "smooth_sandstone") {
        (24, 2)
    } else if str_eq(block_name, "short_grass") || str_eq(block_name, "grass") {
        (31, 1)
    } else if str_eq(block_name, "fern") {
        (31, 2)
    } else if str_eq(block_name, "white_wool") {
        (35, 0)
    } else if str_eq(block_name, "orange_wool") {
        (35, 1)
    } else if str_eq(block_name, "magenta_wool") {
        (35, 2)
    } else if str_eq(block_name, "light_blue_wool") {
        (35, 3)
    } else if str_eq(block_name, "yellow_wool") {
        (35, 4)
    } else if str_eq(block_name, "lime_wool") {
        (35, 5)
    } else if str_eq(block_name, "pink_wool") {
        (35, 6)
    } else if str_eq(block_name, "gray_wool") {
        (35, 7)
    } else if str_eq(block_name, "light_gray_wool") {
        (35, 8)
    } else if str_eq(block_name, "cyan_wool") {
        (35, 9)
    } else if str_eq(block_name, "purple_wool") {
        (35, 10)
    } else if str_eq(block_name, "blue_wool") {
        (35, 11)
    } else if str_eq(block_name, "brown_wool") {
        (35, 12)
    } else if str_eq(block_name, "green_wool") {
        (35, 13)
    } else if str_eq(block_name, "red_wool") {
        (35, 14)
    } else if str_eq(block_name, "black_wool") {
        (35, 15)
    } else if str_eq(block_name, "gold_block") {
        (41, 0)
    } else if str_eq(block_name, "iron_block") {
        (42, 0)
    } else if str_eq(block_name, "stone_slab") {
        (44, 0)
    } else if str_eq(block_name, "bricks") {
        (45, 0)
    } else if str_eq(block_name, "mossy_cobblestone") {
        (48, 0)
    } else if str_eq(block_name, "obsidian") {
        (49, 0)
    } else if str_eq(block_name, "torch") {
        (50, 0)
    } else if str_eq(block_name, "diamond_ore") {
        (56, 0)
    } else if str_eq(block_name, "diamond_block") {
        (57, 0)
    } else if str_eq(block_name, "farmland") {
        (60, 0)
    } else if str_eq(block_name, "ladder") {
        (65, 0)
    } else if str_eq(block_name, "rail") {
        (66, 0)
    } else if str_eq(block_name, "cobblestone_wall") {
        (139, 0)
    } else if str_eq(block_name, "ice") {
        (79, 0)
    } else if str_eq(block_name, "snow_block") {
        (80, 0)
    } else if str_eq(block_name, "cactus") {
        (81, 0)
    } else if str_eq(block_name, "clay") {
        (82, 0)
    } else if str_eq(block_name, "pumpkin") {
        (86, 0)
    } else if str_eq(block_name, "netherrack") {
        (87, 0)
    } else if str_eq(block_name, "soul_sand") {
        (88, 0)
    } else if str_eq(block_name, "glowstone") {
        (89, 0)
    } else if str_eq(block_name, "stone_bricks") {
        (98, 0)
    } else if str_eq(block_name, "mossy_stone_bricks") {
        (98, 1)
    } else if str_eq(block_name, "cracked_stone_bricks") {
        (98, 2)
    } else if str_eq(block_name, "chiseled_stone_bricks") {
        (98, 3)
    } else if str_eq(block_name, "oak_fence") {
        (85, 0)
    } else if str_eq(block_name, "glass_pane") {
        (102, 0)
    } else if str_eq(block_name, "iron_bars") {
        (101, 0)
    } else if str_eq(block_name, "nether_bricks") || str_eq(block_name, "nether_brick") {
        (112, 0)
    } else if str_eq(block_name, "red_nether_bricks") || str_eq(block_name, "red_nether_brick") {
        (215, 0)
    } else if str_eq(block_name, "quartz_block") {
        (155, 0)
    } else if str_eq(block_name, "smooth_quartz") {
        (155, 0)
    } else if str_eq(block_name, "terracotta") {
        (172, 0)
    } else if str_eq(block_name, "white_terracotta") {
        (159, 0)
    } else if str_eq(block_name, "orange_terracotta") {
        (159, 1)
    } else if str_eq(block_name, "red_terracotta") {
        (159, 14)
    } else if str_eq(block_name, "gray_terracotta") {
        (159, 7)
    } else if str_eq(block_name, "light_blue_terracotta") {
        (159, 3)
    } else if str_eq(block_name, "green_terracotta") {
        (159, 13)
    } else if str_eq(block_name, "blue_terracotta") {
        (159, 11)
    } else if str_eq(block_name, "cyan_terracotta") {
        (159, 9)
    } else if str_eq(block_name, "hay_block") {
        (170, 0)
    } else if str_eq(block_name, "white_concrete") {
        (251, 0)
    } else if str_eq(block_name, "gray_concrete") {
        (251, 7)
    } else if str_eq(block_name, "light_gray_concrete") {
        (251, 8)
    } else if str_eq(block_name, "black_concrete") {
        (251, 15)
    } else if str_eq(block_name, "blue_concrete") {
        (251, 11)
    } else if str_eq(block_name, "cyan_concrete") {
        (251, 9)
    } else if str_eq(block_name, "lime_concrete") {
        (251, 5)
    } else if str_eq(block_name, "yellow_concrete") {
        (251, 4)
    } else if str_eq(block_name, "light_blue_concrete") {
        (251, 3)
    } else if str_eq(block_name, "purple_concrete") {
        (251, 10)
    } else if str_eq(block_name, "prismarine") {
        (168, 0)
    } else if str_eq(block_name, "smooth_stone") {
        (1, 0)
    } else if str_eq(block_name, "water") {
        (9, 0)
    } else if str_eq(block_name, "lava") {
        (11, 0)
    } else if str_eq(block_name, "packed_ice") {
        (174, 0)
    } else if str_eq(block_name, "coal_block") {
        (173, 0)
    } else if str_eq(block_name, "purpur_block") {
        (201, 0)
    } else if str_eq(block_name, "purpur_pillar") {
        (202, 0)
    } else if str_eq(block_name, "end_stone_bricks") {
        (206, 0)
    } else if str_eq(block_name, "poppy") {
        (38, 0)
    } else if str_eq(block_name, "dandelion") {
        (37, 0)
    } else if str_eq(block_name, "blue_orchid") {
        (38, 1)
    } else if str_eq(block_name, "azure_bluet") {
        (38, 3)
    } else if str_eq(block_name, "cauldron") {
        (118, 0)
    } else if str_eq(block_name, "moss_block") {
        (48, 0)
    } else if str_eq(block_name, "blackstone") {
        (112, 0)
    } else if str_eq(block_name, "polished_blackstone") {
        (112, 0)
    } else if str_eq(block_name, "polished_blackstone_bricks") {
        (112, 0)
    } else if str_eq(block_name, "deepslate_bricks") {
        (98, 0)
    } else if str_eq(block_name, "polished_deepslate") {
        (98, 0)
    } else if str_eq(block_name, "mud_bricks") {
        (45, 0)
    } else if str_eq(block_name, "netherite_block") {
        (215, 0)
    } else if str_eq(block_name, "warped_planks") {
        (5, 5)
    } else if str_eq(block_name, "crimson_planks") {
        (5, 4)
    } else if str_eq(block_name, "polished_basalt") {
        (1, 0)
    } else if str_eq(block_name, "scaffolding") {
        (85, 0)
    } else if str_eq(block_name, "smooth_red_sandstone") {
        (179, 0)
    } else if str_eq(block_name, "cut_sandstone") {
        (24, 0)
    } else if str_eq(block_name, "quartz_bricks") {
        (155, 0)
    } else if str_eq(block_name, "stone_brick_slab") {
        (44, 5)
    } else if str_eq(block_name, "oak_slab") {
        (126, 0)
    } else if str_eq(block_name, "white_stained_glass") {
        (95, 0)
    } else {
        (1, 0)
    }
}

/// The low four bits of `v`.
pub open spec fn nibble(v: u8) -> int {
    v as int % 16
}

/// The names of the blocks of a section, in order.
pub open spec fn section_names(blocks: Seq<String>) -> Seq<Seq<char>> {
    blocks.map_values(|b: String| b@)
}

/// The id buffer of a section: the legacy id of each block, in order.
pub open spec fn block_ids(names: Seq<Seq<char>>) -> Seq<u8> {
    Seq::new(names.len(), |i: int| legacy_id(names[i]).0)
}

/// The metadata byte at `k`: the metadata of block `2k` in its low four bits,
/// that of block `2k + 1` in its high four bits.
pub open spec fn data_byte(names: Seq<Seq<char>>, k: int) -> u8 {
    (nibble(legacy_id(names[2 * k]).1) + 16 * nibble(legacy_id(names[2 * k + 1]).1)) as u8
}

/// The metadata buffer of a section: one byte for each two blocks.
pub open spec fn block_data(names: Seq<Seq<char>>) -> Seq<u8> {
    Seq::new(names.len() / 2, |k: int| data_byte(names, k))
}

proof fn lemma_low_nibble(b: u8, m: u8)
    requires
        b == 0,
    ensures
        (b & 0xF0u8) | (m & 0x0Fu8) == m % 16,
{
    assert((b & 0xF0u8) | (m & 0x0Fu8) == m % 16) by (bit_vector)
        requires
            b == 0,
    ;
}

proof fn lemma_high_nibble(b: u8, m: u8)
    requires
        b < 16,
    ensures
        (b & 0x0Fu8) | ((m & 0x0Fu8) << 4u8) == b + 16 * (m % 16),
{
    assert((b & 0x0Fu8) | ((m & 0x0Fu8) << 4u8) == b + 16 * (m % 16)) by (bit_vector)
        requires
            b < 16,
    ;
}

/// Encodes a section into its legacy id buffer (4096 bytes) and metadata
/// buffer (2048 bytes).
pub fn section_to_legacy_format(blocks: &[String; 4096]) -> (r: (Vec<u8>, Vec<u8>))
    ensures
        r.0@ == block_ids(section_names(blocks@)),
        r.1@ == block_data(section_names(blocks@)),
        r.0@.len() == 4096,
        r.1@.len() == 2048,
{
    let ghost names = section_names(blocks@);
    let mut block_ids_out: Vec<u8> = Vec::with_capacity(4096);
    let mut data_values: Vec<u8> = vec![0u8; 2048];
    let mut index: usize = 0;
    while index < 4096
        invariant
            blocks@.len() == 4096,
            names == section_names(blocks@),
            0 <= index <= 4096,
            block_ids_out@.len() == index,
            forall|j: int| 0 <= j < index ==> #[trigger] block_ids_out@[j] == legacy_id(names[j]).0,
            data_values@.len() == 2048,
            forall|k: int| 0 <= k < index / 2 ==> #[trigger] data_values@[k] == data_byte(names, k),
            index % 2 == 1 ==> data_values@[(index / 2) as int] as int == nibble(
                legacy_id(names[index - 1]).1,
            ),
            forall|k: int| (index + 1) / 2 <= k < 2048 ==> #[trigger] data_values@[k] == 0,
        decreases 4096 - index,
    {
        let (block_id, metadata) = get_legacy_block_id(blocks[index].as_str());
        assert(names[index as int] == blocks@[index as int]@);
        block_ids_out.push(block_id);
        let data_index = index / 2;
        let old_byte = data_values[data_index];
        if index % 2 == 0 {
            proof {
                lemma_low_nibble(old_byte, metadata);
            }
            data_values.set(data_index, (old_byte & 0xF0) | (metadata & 0x0F));
        } else {
            proof {
                lemma_high_nibble(old_byte, metadata);
            }
            data_values.set(data_index, (old_byte & 0x0F) | ((metadata & 0x0F) << 4));
            assert(data_values@[data_index as int] == data_byte(names, data_index as int));
        }
        index = index + 1;
    }
    assert(block_ids_out@ == block_ids(names));
    assert(data_values@ == block_data(names));
    (block_ids_out, data_values)
}

/// Every name that is not listed takes plain stone, `(1, 0)`.
pub proof fn lemma_unknown_is_stone(name: Seq<char>)
    requires
        !known_block(name),
    ensures
        legacy_id(name) == (1u8, 0u8),
{
}

/// Water has the legacy pair `(9, 0)`.
pub proof fn lemma_water_id()
    ensures
        legacy_id("water"@) == (9u8, 0u8),
{
    reveal_strlit("water");
    reveal_strlit("air");
    reveal_strlit("stone");
    reveal_strlit("granite");
    reveal_strlit("polished_granite");
    reveal_strlit("diorite");
    reveal_strlit("polished_diorite");
    reveal_strlit("andesite");
    reveal_strlit("polished_andesite");
    reveal_strlit("grass_block");
    reveal_strlit("dirt");
    reveal_strlit("coarse_dirt");
    reveal_strlit("podzol");
    reveal_strlit("cobblestone");
    reveal_strlit("oak_planks");
    reveal_strlit("spruce_planks");
    reveal_strlit("birch_planks");
    reveal_strlit("jungle_planks");
    reveal_strlit("acacia_planks");
    reveal_strlit("dark_oak_planks");
    reveal_strlit("sand");
    reveal_strlit("red_sand");
    reveal_strlit("gravel");
    reveal_strlit("gold_ore");
    reveal_strlit("iron_ore");
    reveal_strlit("coal_ore");
    reveal_strlit("oak_log");
    reveal_strlit("spruce_log");
    reveal_strlit("birch_log");
    reveal_strlit("jungle_log");
    reveal_strlit("oak_leaves");
    reveal_strlit("spruce_leaves");
    reveal_strlit("birch_leaves");
    reveal_strlit("jungle_leaves");
    reveal_strlit("sponge");
    reveal_strlit("glass");
    reveal_strlit("sandstone");
    reveal_strlit("chiseled_sandstone");
    reveal_strlit("smooth_sandstone");
    reveal_strlit("short_grass");
    reveal_strlit("grass");
    reveal_strlit("fern");
    reveal_strlit("white_wool");
    reveal_strlit("orange_wool");
    reveal_strlit("magenta_wool");
    reveal_strlit("light_blue_wool");
    reveal_strlit("yellow_wool");
    reveal_strlit("lime_wool");
    reveal_strlit("pink_wool");
    reveal_strlit("gray_wool");
    reveal_strlit("light_gray_wool");
    reveal_strlit("cyan_wool");
    reveal_strlit("purple_wool");
    reveal_strlit("blue_wool");
    reveal_strlit("brown_wool");
    reveal_strlit("green_wool");
    reveal_strlit("red_wool");
    reveal_strlit("black_wool");
    reveal_strlit("gold_block");
    reveal_strlit("iron_block");
    reveal_strlit("stone_slab");
    reveal_strlit("bricks");
    reveal_strlit("mossy_cobblestone");
    reveal_strlit("obsidian");
    reveal_strlit("torch");
    reveal_strlit("diamond_ore");
    reveal_strlit("diamond_block");
    reveal_strlit("farmland");
    reveal_strlit("ladder");
    reveal_strlit("rail");
    reveal_strlit("cobblestone_wall");
    reveal_strlit("ice");
    reveal_strlit("snow_block");
    reveal_strlit("cactus");
    reveal_strlit("clay");
    reveal_strlit("pumpkin");
    reveal_strlit("netherrack");
    reveal_strlit("soul_sand");
    reveal_strlit("glowstone");
    reveal_strlit("stone_bricks");
    reveal_strlit("mossy_stone_bricks");
    reveal_strlit("cracked_stone_bricks");
    reveal_strlit("chiseled_stone_bricks");
    reveal_strlit("oak_fence");
    reveal_strlit("glass_pane");
    reveal_strlit("iron_bars");
    reveal_strlit("nether_bricks");
    reveal_strlit("nether_brick");
    reveal_strlit("red_nether_bricks");
    reveal_strlit("red_nether_brick");
    reveal_strlit("quartz_block");
    reveal_strlit("smooth_quartz");
    reveal_strlit("terracotta");
    reveal_strlit("white_terracotta");
    reveal_strlit("orange_terracotta");
    reveal_strlit("red_terracotta");
    reveal_strlit("gray_terracotta");
    reveal_strlit("light_blue_terracotta");
    reveal_strlit("green_terracotta");
    reveal_strlit("blue_terracotta");
    reveal_strlit("cyan_terracotta");
    reveal_strlit("hay_block");
    reveal_strlit("white_concrete");
    reveal_strlit("gray_concrete");
    reveal_strlit("light_gray_concrete");
    reveal_strlit("black_concrete");
    reveal_strlit("blue_concrete");
    reveal_strlit("cyan_concrete");
    reveal_strlit("lime_concrete");
    reveal_strlit("yellow_concrete");
    reveal_strlit("light_blue_concrete");
    reveal_strlit("purple_concrete");
    reveal_strlit("prismarine");
    reveal_strlit("smooth_stone");
    assert("air"@.len() != "water"@.len());
    assert("stone"@[0] != "water"@[0]);
    assert("granite"@.len() != "water"@.len());
    assert("polished_granite"@.len() != "water"@.len());
    assert("diorite"@.len() != "water"@.len());
    assert("polished_diorite"@.len() != "water"@.len());
    assert("andesite"@.len() != "water"@.len());
    assert("polished_andesite"@.len() != "water"@.len());
    assert("grass_block"@.len() != "water"@.len());
    assert("dirt"@.len() != "water"@.len());
    assert("coarse_dirt"@.len() != "water"@.len());
    assert("podzol"@.len() != "water"@.len());
    assert("cobblestone"@.len() != "water"@.len());
    assert("oak_planks"@.len() != "water"@.len());
    assert("spruce_planks"@.len() != "water"@.len());
    assert("birch_planks"@.len() != "water"@.len());
    assert("jungle_planks"@.len() != "water"@.len());
    assert("acacia_planks"@.len() != "water"@.len());
    assert("dark_oak_planks"@.len() != "water"@.len());
    assert("sand"@.len() != "water"@.len());
    assert("red_sand"@.len() != "water"@.len());
    assert("gravel"@.len() != "water"@.len());
    assert("gold_ore"@.len() != "water"@.len());
    assert("iron_ore"@.len() != "water"@.len());
    assert("coal_ore"@.len() != "water"@.len());
    assert("oak_log"@.len() != "water"@.len());
    assert("spruce_log"@.len() != "water"@.len());
    assert("birch_log"@.len() != "water"@.len());
    assert("jungle_log"@.len() != "water"@.len());
    assert("oak_leaves"@.len() != "water"@.len());
    assert("spruce_leaves"@.len() != "water"@.len());
    assert("birch_leaves"@.len() != "water"@.len());
    assert("jungle_leaves"@.len() != "water"@.len());
    assert("sponge"@.len() != "water"@.len());
    assert("glass"@[0] != "water"@[0]);
    assert("sandstone"@.len() != "water"@.len());
    assert("chiseled_sandstone"@.len() != "water"@.len());
    assert("smooth_sandstone"@.len() != "water"@.len());
    assert("short_grass"@.len() != "water"@.len());
    assert("grass"@[0] != "water"@[0]);
    assert("fern"@.len() != "water"@.len());
    assert("white_wool"@.len() != "water"@.len());
    assert("orange_wool"@.len() != "water"@.len());
    assert("magenta_wool"@.len() != "water"@.len());
    assert("light_blue_wool"@.len() != "water"@.len());
    assert("yellow_wool"@.len() != "water"@.len());
    assert("lime_wool"@.len() != "water"@.len());
    assert("pink_wool"@.len() != "water"@.len());
    assert("gray_wool"@.len() != "water"@.len());
    assert("light_gray_wool"@.len() != "water"@.len());
    assert("cyan_wool"@.len() != "water"@.len());
    assert("purple_wool"@.len() != "water"@.len());
    assert("blue_wool"@.len() != "water"@.len());
    assert("brown_wool"@.len() != "water"@.len());
    assert("green_wool"@.len() != "water"@.len());
    assert("red_wool"@.len() != "water"@.len());
    assert("black_wool"@.len() != "water"@.len());
    assert("gold_block"@.len() != "water"@.len());
    assert("iron_block"@.len() != "water"@.len());
    assert("stone_slab"@.len() != "water"@.len());
    assert("bricks"@.len() != "water"@.len());
    assert("mossy_cobblestone"@.len() != "water"@.len());
    assert("obsidian"@.len() != "water"@.len());
    assert("torch"@[0] != "water"@[0]);
    assert("diamond_ore"@.len() != "water"@.len());
    assert("diamond_block"@.len() != "water"@.len());
    assert("farmland"@.len() != "water"@.len());
    assert("ladder"@.len() != "water"@.len());
    assert("rail"@.len() != "water"@.len());
    assert("cobblestone_wall"@.len() != "water"@.len());
    assert("ice"@.len() != "water"@.len());
    assert("snow_block"@.len() != "water"@.len());
    assert("cactus"@.len() != "water"@.len());
    assert("clay"@.len() != "water"@.len());
    assert("pumpkin"@.len() != "water"@.len());
    assert("netherrack"@.len() != "water"@.len());
    assert("soul_sand"@.len() != "water"@.len());
    assert("glowstone"@.len() != "water"@.len());
    assert("stone_bricks"@.len() != "water"@.len());
    assert("mossy_stone_bricks"@.len() != "water"@.len());
    assert("cracked_stone_bricks"@.len() != "water"@.len());
    assert("chiseled_stone_bricks"@.len() != "water"@.len());
    assert("oak_fence"@.len() != "water"@.len());
    assert("glass_pane"@.len() != "water"@.len());
    assert("iron_bars"@.len() != "water"@.len());
    assert("nether_bricks"@.len() != "water"@.len());
    assert("nether_brick"@.len() != "water"@.len());
    assert("red_nether_bricks"@.len() != "water"@.len());
    assert("red_nether_brick"@.len() != "water"@.len());
    assert("quartz_block"@.len() != "water"@.len());
    assert("smooth_quartz"@.len() != "water"@.len());
    assert("terracotta"@.len() != "water"@.len());
    assert("white_terracotta"@.len() != "water"@.len());
    assert("orange_terracotta"@.len() != "water"@.len());
    assert("red_terracotta"@.len() != "water"@.len());
    assert("gray_terracotta"@.len() != "water"@.len());
    assert("light_blue_terracotta"@.len() != "water"@.len());
    assert("green_terracotta"@.len() != "water"@.len());
    assert("blue_terracotta"@.len() != "water"@.len());
    assert("cyan_terracotta"@.len() != "water"@.len());
    assert("hay_block"@.len() != "water"@.len());
    assert("white_concrete"@.len() != "water"@.len());
    assert("gray_concrete"@.len() != "water"@.len());
    assert("light_gray_concrete"@.len() != "water"@.len());
    assert("black_concrete"@.len() != "water"@.len());
    assert("blue_concrete"@.len() != "water"@.len());
    assert("cyan_concrete"@.len() != "water"@.len());
    assert("lime_concrete"@.len() != "water"@.len());
    assert("yellow_concrete"@.len() != "water"@.len());
    assert("light_blue_concrete"@.len() != "water"@.len());
    assert("purple_concrete"@.len() != "water"@.len());
    assert("prismarine"@.len() != "water"@.len());
    assert("smooth_stone"@.len() != "water"@.len());
}

/// A section made of water alone encodes to the water id in every id byte
/// and to zero in every metadata nibble.
pub proof fn lemma_all_water(names: Seq<Seq<char>>)
    requires
        names.len() == 4096,
        forall|i: int| 0 <= i < names.len() ==> names[i] == "water"@,
    ensures
        block_ids(names).len() == 4096,
        block_data(names).len() == 2048,
        forall|i: int| 0 <= i < 4096 ==> #[trigger] block_ids(names)[i] == 9,
        forall|k: int|
            0 <= k < 2048 ==> #[trigger] block_data(names)[k] % 16 == 0 && block_data(names)[k] / 16
                == 0,
{
    lemma_water_id();
    assert forall|k: int| 0 <= k < 2048 implies #[trigger] block_data(names)[k] == 0 by {
        assert(names[2 * k] == "water"@ && names[2 * k + 1] == "water"@);
    }
}

/// Changing the name of block `2k + 1` alone changes only the high four bits
/// of metadata byte `k`: every id byte but that of block `2k + 1`, every other
/// metadata byte, and the low four bits of byte `k` stay as they were.
pub proof fn lemma_odd_block_touches_high_nibble(a: Seq<Seq<char>>, b: Seq<Seq<char>>, k: int)
    requires
        a.len() == 4096,
        b.len() == 4096,
        0 <= k < 2048,
        forall|i: int| 0 <= i < 4096 && i != 2 * k + 1 ==> a[i] == b[i],
    ensures
        forall|i: int| 0 <= i < 4096 && i != 2 * k + 1 ==> #[trigger] block_ids(a)[i] == block_ids(b)[i],
        forall|j: int| 0 <= j < 2048 && j != k ==> #[trigger] block_data(a)[j] == block_data(b)[j],
        block_data(a)[k] % 16 == block_data(b)[k] % 16,
        block_data(a)[k] % 16 == nibble(legacy_id(a[2 * k]).1),
{
    assert forall|j: int| 0 <= j < 2048 && j != k implies #[trigger] block_data(a)[j] == block_data(b)[j] by {
        assert(a[2 * j] == b[2 * j] && a[2 * j + 1] == b[2 * j + 1]);
    }
    assert(a[2 * k] == b[2 * k]);
    let lo = nibble(legacy_id(a[2 * k]).1);
    let ha = nibble(legacy_id(a[2 * k + 1]).1);
    let hb = nibble(legacy_id(b[2 * k + 1]).1);
    assert(((lo + 16 * ha) as u8) % 16 == lo);
    assert(((lo + 16 * hb) as u8) % 16 == lo);
}

} // verus!
