//! Biomes as a closed set of kinds, chosen from a table by heat and
//! humidity.

use vstd::prelude::*;

use crate::block::{Air, Block, Dirt, Grass, RockyDirt, Stone};

verus! {

/// Heat and humidity at a place, as levels for choosing a biome.
#[derive(Debug, Clone, Copy, PartialEq, Eq, Structural)]
pub struct BiomeNoiseData {
    pub heat: u8,
    pub humidity: u8,
}

/// The biomes of the surface.
#[derive(Debug, Clone, Copy, PartialEq, Eq, Structural)]
pub enum SurfaceBiome {
    /// Oak and birch trees grow here.
    Grasslands,
    /// Grasslands with far more vegetation and shrubs.
    LushGrasslands,
    ConiferousForest,
    BroadleafForest,
    /// A very moist forest.
    Jungle,
    Swamp,
    /// Like a swamp, but without trees.
    FloodedGrasslands,
    /// Dry and cold, with little vegetation.
    Tundra,
    /// Ice and snow everywhere.
    Arctic,
    /// A cold forest.
    Taiga,
    Desert,
    /// Like a desert, but with more shrubs.
    XericShrubland,
    /// A savanna with very few trees, mostly grass.
    SavannaGrassland,
    /// A savanna with many more trees.
    SavannaWoodland,
}

/// Number of heat levels, and of humidity levels, that the biome table has.
pub const BIOME_LEVELS: u8 = 16;

/// The biome at a level of heat and a level of humidity, both below
/// `BIOME_LEVELS`: arctic where it is cold and wet, lush or flooded
/// grasslands where it is mild and wet, and where it is hot, from dry to
/// wet, desert, shrubland, grasslands, jungle and swamp. Everywhere else
/// there are grasslands.
pub open spec fn biome_at(heat: u8, humidity: u8) -> SurfaceBiome {
    if heat < 3 {
        if humidity < 13 {
            SurfaceBiome::Grasslands
        } else {
            SurfaceBiome::Arctic
        }
    } else if 7 <= heat < 10 {
        if humidity < 12 {
            SurfaceBiome::Grasslands
        } else if humidity < 15 {
            SurfaceBiome::LushGrasslands
        } else {
            SurfaceBiome::FloodedGrasslands
        }
    } else if heat >= 13 {
        if humidity < 3 {
            SurfaceBiome::Desert
        } else if humidity < 5 {
            SurfaceBiome::XericShrubland
        } else if humidity < 11 {
            SurfaceBiome::Grasslands
        } else if humidity < 14 {
            SurfaceBiome::Jungle
        } else {
            SurfaceBiome::Swamp
        }
    } else {
        SurfaceBiome::Grasslands
    }
}

impl SurfaceBiome {
    /// The biome at the heat and the humidity of `biome_noise`, which must
    /// both be below `BIOME_LEVELS`.
    pub fn new(biome_noise: BiomeNoiseData) -> (biome: SurfaceBiome)
        requires
            biome_noise.heat < BIOME_LEVELS,
            biome_noise.humidity < BIOME_LEVELS,
        ensures
            biome == biome_at(biome_noise.heat, biome_noise.humidity),
    {
        let heat = biome_noise.heat;
        let humidity = biome_noise.humidity;
        if heat < 3 {
            if humidity < 13 {
                SurfaceBiome::Grasslands
            } else {
                SurfaceBiome::Arctic
            }
        } else if heat >= 7 && heat < 10 {
            if humidity < 12 {
                SurfaceBiome::Grasslands
            } else if humidity < 15 {
                SurfaceBiome::LushGrasslands
            } else {
                SurfaceBiome::FloodedGrasslands
            }
        } else if heat >= 13 {
            if humidity < 3 {
                SurfaceBiome::Desert
            } else if humidity < 5 {
                SurfaceBiome::XericShrubland
            } else if humidity < 11 {
                SurfaceBiome::Grasslands
            } else if humidity < 14 {
                SurfaceBiome::Jungle
            } else {
                SurfaceBiome::Swamp
            }
        } else {
            SurfaceBiome::Grasslands
        }
    }

    /// By how much the height noise is scaled in this biome.
    pub fn height_amplitude(&self) -> (amplitude: u32)
        ensures
            amplitude == (if *self == SurfaceBiome::Grasslands {
                4u32
            } else {
                1u32
            }),
    {
        match self {
            SurfaceBiome::Grasslands => 4,
            _ => 1,
        }
    }

    /// The block at `depth` in this biome: 0 at the surface, negative
    /// below it, positive above.
    pub open spec fn spec_block_at_depth(&self, depth: i32) -> Block {
        if depth > 0 {
            Block::Air(Air {  })
        } else if *self == SurfaceBiome::Grasslands {
            if depth == 0 {
                Block::Grass(Grass {  })
            } else if depth > -3 {
                Block::Dirt(Dirt {  })
            } else if depth > -6 {
                Block::RockyDirt(RockyDirt {  })
            } else {
                Block::Stone(Stone {  })
            }
        } else {
            Block::Stone(Stone {  })
        }
    }

    /// The block at `depth` in this biome: air above the surface; in
    /// grasslands grass at the surface, two blocks of dirt and three of
    /// rocky dirt below it, and stone further down; stone in all other
    /// biomes.
    pub fn get_block_at_depth(&self, depth: i32) -> (block: Block)
        ensures
            block == self.spec_block_at_depth(depth),
    {
        if depth > 0 {
            Block::from(Air::new())
        } else {
            match self {
                SurfaceBiome::Grasslands => {
                    if depth == 0 {
                        Block::from(Grass::new())
                    } else if depth > -3 {
                        Block::from(Dirt::new())
                    } else if depth > -6 {
                        Block::from(RockyDirt::new())
                    } else {
                        Block::from(Stone::new())
                    }
                },
                _ => Block::from(Stone::new()),
            }
        }
    }
}

/// The biomes of mountains.
#[derive(Debug, Clone, Copy, PartialEq, Eq, Structural)]
pub enum MountainBiome {
    SnowyPeaks,
    BarrenPeaks,
    MontaneForest,
}

/// The biomes of the sea.
#[derive(Debug, Clone, Copy, PartialEq, Eq, Structural)]
pub enum SeaBiome {
    Sea,
    FrozenSea,
}

/// The biomes below ground.
#[derive(Debug, Clone, Copy, PartialEq, Eq, Structural)]
pub enum UndergroundBiome {
    SolidGround,
    Caverns,
    LushCaverns,
    UndergroundLake,
    FloodedCaverns,
}

} // verus!
