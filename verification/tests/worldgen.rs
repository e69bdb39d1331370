use minecone::block::{Air, Block, Dirt, Grass, RockyDirt, Stone};
use minecone::worldgen::biome::{BiomeNoiseData, SurfaceBiome as BiomeKind};
use minecone::worldgen::surface_biome::{biomes, SurfaceBiomeMap, SurfaceLayer, BIOME_MAP_SIZE};

#[test]
fn biome_table() {
    let at = |heat: u8, humidity: u8| BiomeKind::new(BiomeNoiseData { heat, humidity });
    assert_eq!(at(0, 0), BiomeKind::Grasslands);
    assert_eq!(at(2, 12), BiomeKind::Grasslands);
    assert_eq!(at(2, 13), BiomeKind::Arctic);
    assert_eq!(at(0, 15), BiomeKind::Arctic);
    assert_eq!(at(3, 15), BiomeKind::Grasslands);
    assert_eq!(at(6, 15), BiomeKind::Grasslands);
    assert_eq!(at(7, 11), BiomeKind::Grasslands);
    assert_eq!(at(7, 12), BiomeKind::LushGrasslands);
    assert_eq!(at(9, 14), BiomeKind::LushGrasslands);
    assert_eq!(at(9, 15), BiomeKind::FloodedGrasslands);
    assert_eq!(at(10, 15), BiomeKind::Grasslands);
    assert_eq!(at(12, 0), BiomeKind::Grasslands);
    assert_eq!(at(13, 0), BiomeKind::Desert);
    assert_eq!(at(15, 2), BiomeKind::Desert);
    assert_eq!(at(13, 3), BiomeKind::XericShrubland);
    assert_eq!(at(13, 4), BiomeKind::XericShrubland);
    assert_eq!(at(14, 5), BiomeKind::Grasslands);
    assert_eq!(at(14, 10), BiomeKind::Grasslands);
    assert_eq!(at(15, 11), BiomeKind::Jungle);
    assert_eq!(at(15, 13), BiomeKind::Jungle);
    assert_eq!(at(15, 14), BiomeKind::Swamp);
    assert_eq!(at(15, 15), BiomeKind::Swamp);
}

#[test]
fn biome_kinds_by_depth() {
    let grasslands = BiomeKind::Grasslands;
    assert_eq!(grasslands.height_amplitude(), 4);
    assert_eq!(BiomeKind::Desert.height_amplitude(), 1);
    assert_eq!(grasslands.get_block_at_depth(1), Block::from(Air::new()));
    assert_eq!(grasslands.get_block_at_depth(0), Block::from(Grass::new()));
    assert_eq!(grasslands.get_block_at_depth(-1), Block::from(Dirt::new()));
    assert_eq!(grasslands.get_block_at_depth(-2), Block::from(Dirt::new()));
    assert_eq!(grasslands.get_block_at_depth(-3), Block::from(RockyDirt::new()));
    assert_eq!(grasslands.get_block_at_depth(-5), Block::from(RockyDirt::new()));
    assert_eq!(grasslands.get_block_at_depth(-6), Block::from(Stone::new()));
    assert_eq!(grasslands.get_block_at_depth(i32::MIN), Block::from(Stone::new()));
    assert_eq!(BiomeKind::Swamp.get_block_at_depth(0), Block::from(Stone::new()));
    assert_eq!(BiomeKind::Swamp.get_block_at_depth(i32::MAX), Block::from(Air::new()));
}

#[test]
fn layered_biomes_by_depth() {
    let all = biomes();
    assert_eq!(all.len(), 3);
    assert_eq!(all[0].name, "grasslands");
    assert_eq!(all[1].name, "lush grasslands");
    assert_eq!(all[2].name, "coniferous forest");
    assert_eq!(all[2].height_amplitude, 50);
    assert_eq!(all[0].layers[1], SurfaceLayer { block: Block::from(Dirt::new()), thickness: 3 });
    let grasslands = &all[0];
    assert_eq!(grasslands.get_block_at_depth(5), Block::from(Air::new()));
    assert_eq!(grasslands.get_block_at_depth(0), Block::from(Grass::new()));
    assert_eq!(grasslands.get_block_at_depth(-1), Block::from(Dirt::new()));
    assert_eq!(grasslands.get_block_at_depth(-3), Block::from(Dirt::new()));
    assert_eq!(grasslands.get_block_at_depth(-4), Block::from(RockyDirt::new()));
    assert_eq!(grasslands.get_block_at_depth(-6), Block::from(RockyDirt::new()));
    assert_eq!(grasslands.get_block_at_depth(-7), Block::from(Stone::new()));
    assert_eq!(grasslands.get_block_at_depth(i32::MIN), Block::from(Stone::new()));
    assert_eq!(all[1].get_block_at_depth(0), Block::from(Dirt::new()));
    assert_eq!(all[2].get_block_at_depth(0), Block::from(Stone::new()));
    assert_eq!(all[2].get_block_at_depth(-1), Block::from(Dirt::new()));
}

#[test]
fn biome_map_gives_the_closest_biome() {
    assert_eq!(BIOME_MAP_SIZE, 50);
    let map = SurfaceBiomeMap::new();
    let at = |heat: u8, humidity: u8| map.get_biome(BiomeNoiseData { heat, humidity }).name.clone();
    assert_eq!(at(28, 18), "grasslands");
    assert_eq!(at(28, 25), "lush grasslands");
    assert_eq!(at(13, 35), "coniferous forest");
    assert_eq!(at(0, 0), "grasslands");
    assert_eq!(at(49, 49), "lush grasslands");
    assert_eq!(at(0, 49), "coniferous forest");
    assert_eq!(at(49, 0), "grasslands");
    // as far from the first as from the second: the first wins
    assert_eq!(at(28, 21), "grasslands");
    assert_eq!(at(28, 22), "lush grasslands");
    assert_eq!(at(40, 21), "grasslands");
}
