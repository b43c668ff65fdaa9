//! TASS primitives: target/actual state separation. The entities that
//! use them (grid setpoint, battery SoC, ...) live in the shell's world
//! model; this module provides the generic building blocks.

pub mod actual;
pub mod actuated;
pub mod freshness;
pub mod phase;
pub mod timestamped;

pub use actual::Actual;
pub use actuated::{Actuated, Target};
pub use freshness::Freshness;
pub use phase::TargetPhase;
pub use timestamped::Timestamped;
