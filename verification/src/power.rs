//! Power management: maps the active power mode to an optimization
//! multiplier and a display label. A pure lookup with no state transitions
//! beyond construction.

use vstd::prelude::*;

verus! {

#[derive(Debug, Clone, Copy)]
pub enum PowerCoreMode {
    Performance,
    Balanced,
    Efficient,
}

/// The optimization multiplier of a mode, in hundredths, so that the value
/// stays integral: 100 for Performance, 75 for Balanced, 40 for Efficient.
pub open spec fn spec_optimization_factor_hundredths(mode: PowerCoreMode) -> u32 {
    match mode {
        PowerCoreMode::Performance => 100u32,
        PowerCoreMode::Balanced => 75u32,
        PowerCoreMode::Efficient => 40u32,
    }
}

/// The upper-case label a status report prints for a mode.
pub open spec fn spec_mode_label(mode: PowerCoreMode) -> Seq<char> {
    match mode {
        PowerCoreMode::Performance => "PERFORMANCE"@,
        PowerCoreMode::Balanced => "BALANCED"@,
        PowerCoreMode::Efficient => "EFFICIENT"@,
    }
}

pub struct PowerManager {
    pub mode: PowerCoreMode,
}

impl PowerManager {
    /// Starts in the balanced mode.
    pub fn new() -> (manager: Self)
        ensures
            manager.mode == PowerCoreMode::Balanced,
    {
        Self { mode: PowerCoreMode::Balanced }
    }

    /// The optimization multiplier of the current mode, in hundredths of the
    /// refresh-rate scale (100 stands for a multiplier of one).
    pub fn get_optimization_factor(&self) -> (factor: u32)
        ensures
            factor == spec_optimization_factor_hundredths(self.mode),
    {
        match self.mode {
            PowerCoreMode::Performance => 100,
            PowerCoreMode::Balanced => 75,
            PowerCoreMode::Efficient => 40,
        }
    }

    /// The upper-case label of the current mode, for status reporting.
    pub fn mode_label(&self) -> (label: String)
        ensures
            label@ == spec_mode_label(self.mode),
    {
        match self.mode {
            PowerCoreMode::Performance => String::from_str("PERFORMANCE"),
            PowerCoreMode::Balanced => String::from_str("BALANCED"),
            PowerCoreMode::Efficient => String::from_str("EFFICIENT"),
        }
    }
}

} // verus!
