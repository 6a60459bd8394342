//! Tracks recent fuel levels.
//!
//! A validated fuel quantity ([`FuelLevel`]) and a fixed-capacity rolling
//! history of readings ([`FuelMonitor`]) with minimum, maximum and mean
//! queries.

pub mod history;
pub mod level;
pub mod monitor;

use vstd::prelude::*;

verus! {

/// What a deployment is to do after an unrecoverable fault.
#[derive(Clone, Copy, Debug, PartialEq, Eq, Structural)]
pub enum FaultAction {
    /// Stop making progress for good: spin in place and never resume.
    Park,
}

/// The reaction to an unrecoverable fault, a violated precondition of the
/// trusted construction path included: such a fault is a programming
/// error, not a runtime condition to recover from, so the only action is
/// to park the core. The endless spin itself is runtime glue and stays
/// with the surrounding program; this is the decision it follows.
pub fn panic_handler() -> (action: FaultAction)
    ensures
        action == FaultAction::Park,
{
    FaultAction::Park
}

} // verus!

pub use level::Error;
pub use level::FuelLevel;
pub use level::RawReading;
pub use level::FUEL_LEVEL_MAX_MILLILITRES;
pub use level::MILLILITRES_PER_LITRE;
pub use monitor::FuelMonitor;
pub use history::HISTORY_CAPACITY;
