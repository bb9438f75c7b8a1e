use noise::{Fbm, MultiFractal, NoiseFn, Perlin};
use ruxel::block::Type;
use ruxel::chunk::{load_chunks, Chunk};
use ruxel::chunks::Chunks;
use ruxel::coords::{world_coordinate, ChunkKey};
use ruxel::terrain::{band, HeightMap};

fn terrain(seed: u32) -> Fbm<Perlin> {
    Fbm::<Perlin>::new(seed)
        .set_frequency(1.0)
        .set_persistence(0.5)
        .set_lacunarity(2.208984375)
        .set_octaves(14)
}

fn height(terrain: &Fbm<Perlin>, x: u32, z: u32) -> f32 {
    let point: [f64; 2] = [x as f64 / 256.0, z as f64 / 256.0];
    ((terrain.get(point) + 1.0) * 32.0) as f32
}

fn sample(terrain: &Fbm<Perlin>, key: ChunkKey) -> HeightMap {
    let mut heights = HeightMap::new();
    for x in 0..16 {
        for z in 0..16 {
            let h = height(terrain, world_coordinate(key.x, x as u32), world_coordinate(key.z, z as u32));
            heights.set(x, z, h.ceil() as u32);
        }
    }
    heights
}

fn materials(chunk: &Chunk) -> Vec<Type> {
    let mut all = Vec::new();
    for row in chunk.blocks().iter() {
        for col in row.iter() {
            for block in col.iter() {
                all.push(block.ty());
            }
        }
    }
    all
}

#[test]
fn the_same_seed_gives_the_same_column() {
    let key = ChunkKey { x: 0, z: 0 };
    let first = load_chunks(&sample(&terrain(42), key), key);
    let second = load_chunks(&sample(&terrain(42), key), key);
    assert_eq!(first.len(), 8);
    assert_eq!(second.len(), 8);
    for (a, b) in first.iter().zip(second.iter()) {
        assert_eq!(a.start(), b.start());
        assert_eq!(materials(a), materials(b));
    }
}

#[test]
fn the_same_seed_gives_the_same_heights() {
    for key in [ChunkKey { x: 0, z: 0 }, ChunkKey { x: 130, z: 200 }] {
        let first = sample(&terrain(7), key);
        let second = sample(&terrain(7), key);
        for x in 0..16 {
            for z in 0..16 {
                assert_eq!(first.get(x, z), second.get(x, z));
            }
        }
    }
}

#[test]
fn sampled_heights_stay_inside_the_world() {
    let terrain = terrain(42);
    for key in [ChunkKey { x: 0, z: 0 }, ChunkKey { x: 17, z: 3 }, ChunkKey { x: 249, z: 125 }] {
        let heights = sample(&terrain, key);
        for x in 0..16 {
            for z in 0..16 {
                assert!(heights.get(x, z) <= 128);
            }
        }
    }
}

#[test]
fn the_lowest_block_at_the_origin_follows_the_order_of_the_rules() {
    let terrain = terrain(42);
    let key = ChunkKey { x: 0, z: 0 };
    let heights = sample(&terrain, key);
    let column = load_chunks(&heights, key);
    let lowest = column[0].blocks()[0][0][0].ty();
    let ground = height(&terrain, 0, 0);
    if 0.0 < ground {
        assert_eq!(lowest, Type::Sand);
    } else {
        assert_eq!(lowest, Type::Water);
    }
    assert!(lowest == Type::Water || lowest == Type::Sand);
}

#[test]
fn integer_heights_decide_as_the_sampled_heights_do() {
    let terrain = terrain(42);
    for key in [ChunkKey { x: 0, z: 0 }, ChunkKey { x: 131, z: 77 }, ChunkKey { x: 249, z: 125 }] {
        let column = load_chunks(&sample(&terrain, key), key);
        for (slot, chunk) in column.iter().enumerate() {
            for x in 0..16 {
                for z in 0..16 {
                    let ground = height(
                        &terrain,
                        world_coordinate(key.x, x as u32),
                        world_coordinate(key.z, z as u32),
                    );
                    for y in 0..16 {
                        let layer = world_coordinate(slot as u32, y as u32);
                        let mut expected = Type::Inactive;
                        if (layer as f32) < 32.0 {
                            expected = Type::Water;
                        }
                        if (layer as f32) < ground {
                            expected = band(layer);
                        }
                        assert_eq!(chunk.blocks()[x][y][z].ty(), expected);
                    }
                }
            }
        }
    }
}

#[test]
fn every_block_under_the_surface_or_the_sea_holds_material() {
    let terrain = terrain(1234);
    let key = ChunkKey { x: 140, z: 160 };
    let heights = sample(&terrain, key);
    let column = load_chunks(&heights, key);
    for (slot, chunk) in column.iter().enumerate() {
        for x in 0..16 {
            for z in 0..16 {
                for y in 0..16 {
                    let layer = world_coordinate(slot as u32, y as u32);
                    let ty = chunk.blocks()[x][y][z].ty();
                    if layer < 32 || layer < heights.get(x, z) {
                        assert!(matches!(
                            ty,
                            Type::Water | Type::Sand | Type::Grass | Type::Rock | Type::Ice
                        ));
                    } else {
                        assert_eq!(ty, Type::Inactive);
                    }
                }
            }
        }
    }
}

#[test]
fn a_store_fed_by_the_generator() {
    let mut chunks = Chunks::with_radius(42, 2);
    let terrain = terrain(chunks.seed());
    let requests = chunks.update(0, 0);
    assert_eq!(requests.len(), 9);
    for key in requests.iter() {
        let column = load_chunks(&sample(&terrain, *key), *key);
        chunks.publish(*key, column);
    }
    assert_eq!(chunks.loaded().len(), 9);
    assert!(chunks.loading().is_empty());
    let drawn: usize = chunks
        .loaded()
        .values()
        .map(|column| column.iter().map(|chunk| chunk.voxels().len()).sum::<usize>())
        .sum();
    assert!(drawn >= 9 * 16 * 16 * 32);
}

#[test]
fn the_ground_at_the_origin_reaches_sea_level() {
    let terrain = terrain(42);
    assert_eq!(terrain.get([0.0, 0.0]), 0.0);
    assert_eq!(height(&terrain, 0, 0), 32.0);
    let key = ChunkKey { x: 0, z: 0 };
    let heights = sample(&terrain, key);
    assert_eq!(heights.get(0, 0), 32);
    let column = load_chunks(&heights, key);
    assert_eq!(column[0].blocks()[0][0][0].ty(), Type::Sand);
    assert_eq!(column[1].blocks()[0][15][0].ty(), Type::Sand);
    assert_eq!(column[2].blocks()[0][0][0].ty(), Type::Inactive);
}

#[test]
fn low_ground_lies_under_water() {
    let terrain = terrain(42);
    let key = ChunkKey { x: 249, z: 125 };
    assert_eq!(world_coordinate(key.x, 3), 3987);
    assert_eq!(world_coordinate(key.z, 0), 2000);
    let ground = height(&terrain, 3987, 2000);
    assert!(11.0 < ground && ground < 12.0);
    let heights = sample(&terrain, key);
    assert_eq!(heights.get(3, 0), 12);
    let column = load_chunks(&heights, key);
    assert_eq!(column[0].blocks()[3][0][0].ty(), Type::Sand);
    assert_eq!(column[0].blocks()[3][11][0].ty(), Type::Sand);
    assert_eq!(column[0].blocks()[3][12][0].ty(), Type::Water);
    assert_eq!(column[1].blocks()[3][15][0].ty(), Type::Water);
    assert_eq!(column[2].blocks()[3][0][0].ty(), Type::Inactive);
}
