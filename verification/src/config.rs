//! The options a machine is set up with, fixed once at startup.

use vstd::prelude::*;

verus! {

/// Configuration of one run, handed to whatever needs it.
#[derive(Clone, Copy, Debug)]
pub struct Config {
    /// Instructions to execute per second; the scheduler turns this into a
    /// count per 60 Hz frame.
    pub cycles_per_second: usize,
    /// Host pixels per machine pixel. Presentation only: the machine never
    /// reads it.
    pub upscale_factor: usize,
    /// Whether `StoreMem` and `LoadMem` leave `I` unchanged (`true`) or move
    /// it past the last address they used (`false`).
    pub modern_compatibility: bool,
}

impl Config {
    /// The options used when none are given.
    pub open spec fn standard() -> Config {
        Config { cycles_per_second: 700, upscale_factor: 20, modern_compatibility: true }
    }
}

impl Default for Config {
    fn default() -> (config: Self)
        ensures
            config == Config::standard(),
    {
        Config { cycles_per_second: 700, upscale_factor: 20, modern_compatibility: true }
    }
}

} // verus!
