use ruxel::block::Type;
use ruxel::terrain::{
    band, material, HeightMap, CHUNK_SIZE, COLUMN_CHUNKS, GRASS_TOP, ROCK_TOP, SAND_TOP,
    SEA_LEVEL, WORLD_HEIGHT,
};

#[test]
fn the_constants_fit_together() {
    assert_eq!(CHUNK_SIZE, 16);
    assert_eq!(COLUMN_CHUNKS, 8);
    assert_eq!(WORLD_HEIGHT, CHUNK_SIZE * COLUMN_CHUNKS);
    assert_eq!(SEA_LEVEL, 32);
    assert_eq!((SAND_TOP, GRASS_TOP, ROCK_TOP), (35, 48, 55));
}

#[test]
fn band_edges() {
    assert_eq!(band(0), Type::Sand);
    assert_eq!(band(35), Type::Sand);
    assert_eq!(band(36), Type::Grass);
    assert_eq!(band(48), Type::Grass);
    assert_eq!(band(49), Type::Rock);
    assert_eq!(band(55), Type::Rock);
    assert_eq!(band(56), Type::Ice);
    assert_eq!(band(64), Type::Ice);
}

#[test]
fn the_top_band_is_open_ended() {
    assert_eq!(band(65), Type::Ice);
    assert_eq!(band(127), Type::Ice);
    assert_eq!(band(128), Type::Ice);
    assert_eq!(band(u32::MAX), Type::Ice);
}

#[test]
fn every_layer_of_the_world_has_a_ground_material() {
    for y in 0..WORLD_HEIGHT {
        let ty = band(y);
        assert!(matches!(ty, Type::Sand | Type::Grass | Type::Rock | Type::Ice));
    }
}

#[test]
fn water_fills_what_the_ground_leaves_below_sea_level() {
    assert_eq!(material(0, 0), Type::Water);
    assert_eq!(material(31, 0), Type::Water);
    assert_eq!(material(31, 31), Type::Water);
    assert_eq!(material(10, 10), Type::Water);
}

#[test]
fn ground_replaces_water_below_the_surface() {
    assert_eq!(material(0, 1), Type::Sand);
    assert_eq!(material(31, 32), Type::Sand);
    assert_eq!(material(9, 10), Type::Sand);
    assert_eq!(material(0, u32::MAX), Type::Sand);
}

#[test]
fn nothing_above_both_sea_level_and_surface() {
    assert_eq!(material(32, 0), Type::Inactive);
    assert_eq!(material(32, 32), Type::Inactive);
    assert_eq!(material(40, 40), Type::Inactive);
    assert_eq!(material(127, 64), Type::Inactive);
}

#[test]
fn ground_above_sea_level_follows_the_bands() {
    assert_eq!(material(35, 64), Type::Sand);
    assert_eq!(material(36, 64), Type::Grass);
    assert_eq!(material(48, 64), Type::Grass);
    assert_eq!(material(49, 64), Type::Rock);
    assert_eq!(material(55, 64), Type::Rock);
    assert_eq!(material(56, 64), Type::Ice);
    assert_eq!(material(63, 64), Type::Ice);
    assert_eq!(material(64, 64), Type::Inactive);
    assert_eq!(material(127, 128), Type::Ice);
}

#[test]
fn a_block_is_empty_exactly_above_sea_level_and_surface() {
    for y in 0..WORLD_HEIGHT {
        for height in [0, 1, 20, 31, 32, 33, 36, 49, 56, 64, 127, 128, 200] {
            let ty = material(y, height);
            if y < height {
                assert_eq!(ty, band(y));
            } else if y < SEA_LEVEL {
                assert_eq!(ty, Type::Water);
            } else {
                assert_eq!(ty, Type::Inactive);
            }
        }
    }
}

#[test]
fn a_new_height_map_is_flat_at_zero() {
    let heights = HeightMap::new();
    for x in 0..16 {
        for z in 0..16 {
            assert_eq!(heights.get(x, z), 0);
        }
    }
}

#[test]
fn setting_one_height_leaves_the_others() {
    let mut heights = HeightMap::new();
    heights.set(3, 4, 40);
    heights.set(15, 0, 7);
    for x in 0..16 {
        for z in 0..16 {
            let expected = if (x, z) == (3, 4) {
                40
            } else if (x, z) == (15, 0) {
                7
            } else {
                0
            };
            assert_eq!(heights.get(x, z), expected);
        }
    }
    heights.set(3, 4, 41);
    assert_eq!(heights.get(3, 4), 41);
    assert_eq!(heights.get(4, 3), 0);
}
