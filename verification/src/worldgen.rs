//! What the world generator decides without noise: which biome lies where
//! on the map of heat and humidity, and which block a biome has at which
//! depth.

pub mod biome;
pub mod surface_biome;
