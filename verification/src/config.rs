//! Configuration of the engine: grid shape, fractal-noise parameters and the
//! affine transform from cell coordinates to the sampled continuous domain.
//!
//! Continuous quantities (frequency, lacunarity, persistence, offsets, sample
//! distance, heights) are fixed-point values in millionths: a field holding
//! `1_500_000` stands for the real number `1.5`.

use vstd::prelude::*;

verus! {

/// One unit in the fixed-point encoding: fields scaled by `SCALE` are millionths.
pub const SCALE: i64 = 1000000;

/// Largest accepted octave count of the fractal sum. Each octave adds one to the
/// seed of its layer, so valid seeds stop `MAX_OCTAVES` below `u32::MAX`.
pub const MAX_OCTAVES: usize = 30;

/// The configuration field that a rejected value belongs to.
#[derive(Clone, Copy, Debug, PartialEq, Eq)]
pub enum ConfigField {
    Seed,
    Octaves,
    Frequency,
    Lacunarity,
    Persistence,
}

/// A validation failure, detected when a configuration is constructed.
#[derive(Clone, Copy, Debug, PartialEq, Eq)]
pub enum ConfigError {
    /// A noise parameter lies outside its documented bounds.
    OutOfRange(ConfigField),
    /// The requested grid has zero width or zero height.
    EmptyGrid,
}

/// The rectangular domain of cell coordinates: `0 <= x < width`, `0 <= y < height`.
#[derive(Clone, Copy, Debug, PartialEq, Eq)]
pub struct GridConfig {
    pub width: u32,
    pub height: u32,
}

impl GridConfig {
    /// A grid is meaningful only when both sides have at least one cell.
    pub open spec fn valid(&self) -> bool {
        self.width >= 1 && self.height >= 1
    }

    /// Number of cells of the grid.
    pub open spec fn area(&self) -> int {
        self.width * self.height
    }

    /// Builds a grid configuration, rejecting an empty grid.
    pub fn new(width: u32, height: u32) -> (r: Result<GridConfig, ConfigError>)
        ensures
            width >= 1 && height >= 1 ==> r == Ok::<GridConfig, ConfigError>(
                (GridConfig { width, height }),
            ),
            width == 0 || height == 0 ==> r == Err::<GridConfig, ConfigError>(
                ConfigError::EmptyGrid,
            ),
    {
        if width >= 1 && height >= 1 {
            Ok(GridConfig { width, height })
        } else {
            Err(ConfigError::EmptyGrid)
        }
    }
}

/// Parameters of the fractal (multi-octave) noise sum. Two equal configurations
/// determine the same noise function. `frequency`, `lacunarity` and
/// `persistence` are fixed-point millionths.
#[derive(Clone, Copy, Debug, PartialEq, Eq)]
pub struct NoiseConfig {
    pub seed: u32,
    pub octaves: usize,
    pub frequency: i64,
    pub lacunarity: i64,
    pub persistence: i64,
}

impl NoiseConfig {
    /// Documented bounds of the noise parameters: at least one octave and no more
    /// than `MAX_OCTAVES`; a seed low enough that seed-per-octave arithmetic
    /// cannot wrap; frequency above zero; lacunarity above one; persistence
    /// between zero and one.
    pub open spec fn valid(&self) -> bool {
        &&& 1 <= self.octaves <= MAX_OCTAVES
        &&& self.seed <= u32::MAX - MAX_OCTAVES
        &&& self.frequency > 0
        &&& self.lacunarity > SCALE
        &&& 0 <= self.persistence <= SCALE
    }
}

/// The outcome that validation assigns to a tuple of noise parameters: the
/// first field out of range, in declaration order, or the finished
/// configuration when all are in range.
pub open spec fn noise_config_check(
    seed: u32,
    octaves: usize,
    frequency: i64,
    lacunarity: i64,
    persistence: i64,
) -> Result<NoiseConfig, ConfigError> {
    if octaves < 1 || octaves > MAX_OCTAVES {
        Err(ConfigError::OutOfRange(ConfigField::Octaves))
    } else if seed > u32::MAX - MAX_OCTAVES {
        Err(ConfigError::OutOfRange(ConfigField::Seed))
    } else if frequency <= 0 {
        Err(ConfigError::OutOfRange(ConfigField::Frequency))
    } else if lacunarity <= SCALE {
        Err(ConfigError::OutOfRange(ConfigField::Lacunarity))
    } else if persistence < 0 || persistence > SCALE {
        Err(ConfigError::OutOfRange(ConfigField::Persistence))
    } else {
        Ok(NoiseConfig { seed, octaves, frequency, lacunarity, persistence })
    }
}

impl NoiseConfig {
    /// Builds a noise configuration, rejecting exactly the parameters that
    /// `valid` refuses and naming the offending field.
    pub fn new(seed: u32, octaves: usize, frequency: i64, lacunarity: i64, persistence: i64) -> (r:
        Result<NoiseConfig, ConfigError>)
        ensures
            r == noise_config_check(seed, octaves, frequency, lacunarity, persistence),
            r is Ok <==> (NoiseConfig { seed, octaves, frequency, lacunarity, persistence }).valid(),
    {
        if octaves < 1 || octaves > MAX_OCTAVES {
            Err(ConfigError::OutOfRange(ConfigField::Octaves))
        } else if seed > u32::MAX - (MAX_OCTAVES as u32) {
            Err(ConfigError::OutOfRange(ConfigField::Seed))
        } else if frequency <= 0 {
            Err(ConfigError::OutOfRange(ConfigField::Frequency))
        } else if lacunarity <= SCALE {
            Err(ConfigError::OutOfRange(ConfigField::Lacunarity))
        } else if persistence < 0 || persistence > SCALE {
            Err(ConfigError::OutOfRange(ConfigField::Persistence))
        } else {
            Ok(NoiseConfig { seed, octaves, frequency, lacunarity, persistence })
        }
    }
}

/// The affine map from integer cell coordinates to the continuous sample
/// domain: `sample = cell * distance + offset`, all in millionths.
#[derive(Clone, Copy, Debug, PartialEq, Eq)]
pub struct SampleTransform {
    pub offset_x: i64,
    pub offset_y: i64,
    pub distance: i64,
}

} // verus!
