//! Biomes as data: layers of blocks over a filler, and the map that gives
//! each pair of heat and humidity the biome whose own heat and humidity
//! lie closest.

use vstd::prelude::*;

use crate::block::{Air, Block, Dirt, Grass, RockyDirt, Stone};
use crate::worldgen::biome::BiomeNoiseData;

verus! {

/// A layer of one kind of block.
#[derive(Debug, Clone, Copy, PartialEq, Eq)]
pub struct SurfaceLayer {
    pub block: Block,
    pub thickness: u64,
}

/// A biome of the surface.
#[derive(Debug, PartialEq, Eq)]
pub struct SurfaceBiome {
    pub name: String,
    /// By how much the height noise is scaled in this biome.
    pub height_amplitude: u32,
    /// The layers below the surface, the topmost first.
    pub layers: Vec<SurfaceLayer>,
    /// The block below the layers.
    pub filler: Block,
    pub heat_point: u8,
    pub humidity_point: u8,
}

/// The depth of the bottom of the first `count` layers, as a thickness.
pub open spec fn layers_thickness(layers: Seq<SurfaceLayer>, count: int) -> int
    decreases count,
{
    if count <= 0 {
        0
    } else {
        layers_thickness(layers, count - 1) + layers[count - 1].thickness
    }
}

/// The block at `depth`, which is not above the surface, given that it
/// lies below the first `from` layers: the block of the first layer whose
/// bottom lies below `depth`, or the filler below all layers.
pub open spec fn layered_block(layers: Seq<SurfaceLayer>, filler: Block, depth: int, from: int) -> Block
    decreases layers.len() - from,
{
    if from >= layers.len() {
        filler
    } else if depth > -layers_thickness(layers, from + 1) {
        layers[from].block
    } else {
        layered_block(layers, filler, depth, from + 1)
    }
}

impl SurfaceBiome {
    /// The layers are together not thicker than the world is deep.
    pub open spec fn wf(&self) -> bool {
        layers_thickness(self.layers@, self.layers@.len() as int) <= i32::MAX
    }

    /// The block at `depth` in this biome: 0 at the surface, negative
    /// below it, positive above.
    pub open spec fn spec_block_at_depth(&self, depth: i32) -> Block {
        if depth > 0 {
            Block::Air(Air {  })
        } else {
            layered_block(self.layers@, self.filler, depth as int, 0)
        }
    }

    /// The block at `depth` in this biome: air above the surface, then the
    /// layers of the biome from the surface down, each as thick as it says,
    /// and the filler below them.
    pub fn get_block_at_depth(&self, depth: i32) -> (block: Block)
        requires
            self.wf(),
        ensures
            block == self.spec_block_at_depth(depth),
    {
        if depth > 0 {
            return Block::from(Air::new());
        }
        let mut current_block_depth: i32 = 0;
        let mut i: usize = 0;
        while i < self.layers.len()
            invariant
                0 <= i <= self.layers.len(),
                self.wf(),
                depth <= 0,
                current_block_depth == -layers_thickness(self.layers@, i as int),
                layered_block(self.layers@, self.filler, depth as int, i as int) == self.spec_block_at_depth(depth),
            decreases self.layers.len() - i,
        {
            proof {
                lemma_layers_thickness_grows(self.layers@, i + 1, self.layers@.len() as int);
                lemma_layers_thickness_grows(self.layers@, i as int, i + 1);
                assert(layers_thickness(self.layers@, i + 1) == layers_thickness(self.layers@, i as int)
                    + self.layers@[i as int].thickness);
            }
            let thickness: i32 = self.layers[i].thickness as i32;
            current_block_depth -= thickness;
            if depth > current_block_depth {
                return self.layers[i].block;
            }
            i += 1;
        }
        self.filler
    }
}

/// More layers are not thinner than fewer.
pub proof fn lemma_layers_thickness_grows(layers: Seq<SurfaceLayer>, fewer: int, more: int)
    requires
        0 <= fewer <= more,
    ensures
        0 <= layers_thickness(layers, fewer) <= layers_thickness(layers, more),
    decreases more,
{
    if fewer < more {
        lemma_layers_thickness_grows(layers, fewer, more - 1);
    } else if fewer > 0 {
        lemma_layers_thickness_grows(layers, fewer - 1, fewer - 1);
    }
}

/// Number of heat levels, and of humidity levels, that the biome map has.
pub const BIOME_MAP_SIZE: usize = 50;

/// How far the biome with the given points lies from a heat and a
/// humidity: the square of the distance.
pub open spec fn biome_distance(biome: SurfaceBiome, heat: int, humidity: int) -> int {
    (biome.heat_point - heat) * (biome.heat_point - heat) + (biome.humidity_point - humidity) * (
    biome.humidity_point - humidity)
}

/// Whether the biome at `index` is the closest of `biomes` to a heat and
/// a humidity: none lies closer, and none before it lies as close.
pub open spec fn is_closest_biome(biomes: Seq<SurfaceBiome>, heat: int, humidity: int, index: int) -> bool {
    &&& 0 <= index < biomes.len()
    &&& forall|other: int|
        0 <= other < biomes.len() ==> biome_distance(biomes[index], heat, humidity) <= biome_distance(
            #[trigger] biomes[other],
            heat,
            humidity,
        )
    &&& forall|other: int|
        0 <= other < index ==> biome_distance(biomes[index], heat, humidity) < biome_distance(
            #[trigger] biomes[other],
            heat,
            humidity,
        )
}

/// The biomes that there are: grasslands, lush grasslands and coniferous
/// forest.
pub fn biomes() -> (all: Vec<SurfaceBiome>)
    ensures
        all@.len() == 3,
        forall|i: int| 0 <= i < 3 ==> (#[trigger] all@[i]).wf(),
        all@[0].heat_point == 28 && all@[0].humidity_point == 18,
        all@[1].heat_point == 28 && all@[1].humidity_point == 25,
        all@[2].heat_point == 13 && all@[2].humidity_point == 35,
        all@[0].height_amplitude == 4 && all@[1].height_amplitude == 4 && all@[2].height_amplitude == 50,
        forall|i: int| 0 <= i < 3 ==> (#[trigger] all@[i]).filler == Block::Stone(Stone {  }),
        forall|i: int|
            0 <= i < 3 ==> (#[trigger] all@[i]).layers@.len() == 3 && all@[i].layers@[0].thickness == 1
                && all@[i].layers@[1] == (SurfaceLayer { block: Block::Dirt(Dirt {  }), thickness: 3 })
                && all@[i].layers@[2] == (SurfaceLayer { block: Block::RockyDirt(RockyDirt {  }), thickness: 3 }),
        all@[0].name@ == "grasslands"@,
        all@[1].name@ == "lush grasslands"@,
        all@[2].name@ == "coniferous forest"@,
        all@[0].layers@[0].block == Block::Grass(Grass {  }),
        all@[1].layers@[0].block == Block::Dirt(Dirt {  }),
        all@[2].layers@[0].block == Block::Stone(Stone {  }),
{
    let mut all: Vec<SurfaceBiome> = Vec::new();
    all.push(biome("grasslands", 4, Block::from(Grass::new()), 28, 18));
    all.push(biome("lush grasslands", 4, Block::from(Dirt::new()), 28, 25));
    all.push(biome("coniferous forest", 50, Block::from(Stone::new()), 13, 35));
    all
}

/// A biome with `top` at the surface, three blocks of dirt and three of
/// rocky dirt below it, and stone further down.
fn biome(name: &str, height_amplitude: u32, top: Block, heat_point: u8, humidity_point: u8) -> (made: SurfaceBiome)
    ensures
        made.wf(),
        made.name@ == name@,
        made.height_amplitude == height_amplitude,
        made.heat_point == heat_point,
        made.humidity_point == humidity_point,
        made.filler == Block::Stone(Stone {  }),
        made.layers@.len() == 3,
        made.layers@[0] == (SurfaceLayer { block: top, thickness: 1 }),
        made.layers@[1] == (SurfaceLayer { block: Block::Dirt(Dirt {  }), thickness: 3 }),
        made.layers@[2] == (SurfaceLayer { block: Block::RockyDirt(RockyDirt {  }), thickness: 3 }),
{
    let mut layers: Vec<SurfaceLayer> = Vec::new();
    layers.push(SurfaceLayer { block: top, thickness: 1 });
    layers.push(SurfaceLayer { block: Block::from(Dirt::new()), thickness: 3 });
    layers.push(SurfaceLayer { block: Block::from(RockyDirt::new()), thickness: 3 });
    proof {
        reveal_with_fuel(layers_thickness, 4);
    }
    SurfaceBiome {
        name: name.to_owned(),
        height_amplitude,
        layers,
        filler: Block::from(Stone::new()),
        heat_point,
        humidity_point,
    }
}

/// For each pair of heat and humidity, the biome that lies closest.
#[derive(Debug)]
pub struct SurfaceBiomeMap {
    /// The biomes that the map chooses from.
    pub biomes: Vec<SurfaceBiome>,
    /// For each heat and each humidity, the index of the closest biome.
    pub map: Vec<Vec<usize>>,
}

impl SurfaceBiomeMap {
    /// The map holds, for each heat and each humidity below
    /// `BIOME_MAP_SIZE`, the index of the biome that lies closest.
    pub open spec fn wf(&self) -> bool {
        &&& self.map@.len() == 50
        &&& forall|heat: int| 0 <= heat < 50 ==> (#[trigger] self.map@[heat])@.len() == 50
        &&& forall|heat: int, humidity: int|
            0 <= heat < 50 && 0 <= humidity < 50 ==> is_closest_biome(
                self.biomes@,
                heat,
                humidity,
                #[trigger] self.map@[heat]@[humidity] as int,
            )
        &&& forall|i: int| 0 <= i < self.biomes@.len() ==> (#[trigger] self.biomes@[i]).wf()
    }

    /// The index of the biome of `biomes`, of which there must be one,
    /// that lies closest to a heat and a humidity.
    fn closest(biomes: &Vec<SurfaceBiome>, heat: usize, humidity: usize) -> (index: usize)
        requires
            biomes@.len() > 0,
            heat < 50,
            humidity < 50,
        ensures
            is_closest_biome(biomes@, heat as int, humidity as int, index as int),
    {
        let mut closest_biome: usize = 0;
        let mut min_distance: i64 = Self::distance(&biomes[0], heat, humidity);
        let mut i: usize = 1;
        while i < biomes.len()
            invariant
                1 <= i <= biomes.len(),
                heat < 50,
                humidity < 50,
                0 <= closest_biome < i,
                min_distance == biome_distance(biomes@[closest_biome as int], heat as int, humidity as int),
                forall|other: int|
                    0 <= other < i ==> min_distance <= biome_distance(
                        #[trigger] biomes@[other],
                        heat as int,
                        humidity as int,
                    ),
                forall|other: int|
                    0 <= other < closest_biome ==> min_distance < biome_distance(
                        #[trigger] biomes@[other],
                        heat as int,
                        humidity as int,
                    ),
            decreases biomes.len() - i,
        {
            let distance = Self::distance(&biomes[i], heat, humidity);
            if distance < min_distance {
                min_distance = distance;
                closest_biome = i;
            }
            i += 1;
        }
        closest_biome
    }

    /// The square of the distance from a biome to a heat and a humidity.
    fn distance(biome: &SurfaceBiome, heat: usize, humidity: usize) -> (distance: i64)
        requires
            heat < 50,
            humidity < 50,
        ensures
            distance == biome_distance(*biome, heat as int, humidity as int),
    {
        let heat_diff: i64 = biome.heat_point as i64 - heat as i64;
        let humidity_diff: i64 = biome.humidity_point as i64 - humidity as i64;
        assert(0 <= heat_diff * heat_diff <= 255 * 255) by (nonlinear_arith)
            requires
                -255 <= heat_diff <= 255,
        ;
        assert(0 <= humidity_diff * humidity_diff <= 255 * 255) by (nonlinear_arith)
            requires
                -255 <= humidity_diff <= 255,
        ;
        heat_diff * heat_diff + humidity_diff * humidity_diff
    }

    /// The map of the biomes that there are.
    pub fn new() -> (map: SurfaceBiomeMap)
        ensures
            map.wf(),
            map.biomes@.len() == 3,
    {
        let biomes = biomes();
        let mut map: Vec<Vec<usize>> = Vec::new();
        let mut heat: usize = 0;
        while heat < 50
            invariant
                0 <= heat <= 50,
                biomes@.len() == 3,
                map@.len() == heat,
                forall|h: int| 0 <= h < heat ==> (#[trigger] map@[h])@.len() == 50,
                forall|h: int, u: int|
                    0 <= h < heat && 0 <= u < 50 ==> is_closest_biome(biomes@, h, u, #[trigger] map@[h]@[u] as int),
            decreases 50 - heat,
        {
            let mut row: Vec<usize> = Vec::new();
            let mut humidity: usize = 0;
            while humidity < 50
                invariant
                    0 <= heat < 50,
                    0 <= humidity <= 50,
                    biomes@.len() == 3,
                    row@.len() == humidity,
                    forall|u: int|
                        0 <= u < humidity ==> is_closest_biome(biomes@, heat as int, u, #[trigger] row@[u] as int),
                decreases 50 - humidity,
            {
                row.push(Self::closest(&biomes, heat, humidity));
                humidity += 1;
            }
            map.push(row);
            heat += 1;
        }
        SurfaceBiomeMap { biomes, map }
    }

    /// The biome that lies closest to the heat and the humidity of `noise`,
    /// which must both be below `BIOME_MAP_SIZE`.
    pub fn get_biome(&self, noise: BiomeNoiseData) -> (biome: &SurfaceBiome)
        requires
            self.wf(),
            noise.heat < 50,
            noise.humidity < 50,
        ensures
            exists|index: int|
                is_closest_biome(self.biomes@, noise.heat as int, noise.humidity as int, index) && *biome
                    == self.biomes@[index],
            biome.wf(),
    {
        let index = self.map[noise.heat as usize][noise.humidity as usize];
        assert(is_closest_biome(self.biomes@, noise.heat as int, noise.humidity as int, index as int));
        &self.biomes[index]
    }
}

} // verus!
