//! Command-line options of the shell around the engine, as plain values.

use vstd::prelude::*;
use crate::config::ConfigError;
use crate::config::GridConfig;

verus! {

/// Options a command line supplies: the grid shape and an optional seed.
#[derive(Clone, Copy, Debug, PartialEq, Eq)]
pub struct Args {
    pub width: u32,
    pub height: u32,
    pub seed: Option<u64>,
}

impl Default for Args {
    /// A ten-by-ten grid with no seed given.
    fn default() -> (r: Self)
        ensures
            r.width == 10,
            r.height == 10,
            r.seed is None,
    {
        Args { width: 10, height: 10, seed: None }
    }
}

impl Args {
    /// The grid configuration the options ask for, validated.
    pub fn to_grid_config(&self) -> (r: Result<GridConfig, ConfigError>)
        ensures
            self.width >= 1 && self.height >= 1 ==> r == Ok::<GridConfig, ConfigError>(
                (GridConfig { width: self.width, height: self.height }),
            ),
            self.width == 0 || self.height == 0 ==> r == Err::<GridConfig, ConfigError>(
                ConfigError::EmptyGrid,
            ),
    {
        GridConfig::new(self.width, self.height)
    }
}

} // verus!
