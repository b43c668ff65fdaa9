//! Dashboard wire model: the types the dashboard snapshot and command
//! channel carry, their wire names, their UEBA binary tags, and the
//! converters from earlier wire revisions.

pub mod bookkeeping_key;
pub mod bookkeeping_value;
pub mod charge_battery_extended_mode;
pub mod command;
pub mod convert;
pub mod core_state;
pub mod decision_factor;
pub mod diagnostics;
pub mod freshness;
pub mod ueba;
pub mod v0_1_0;
pub mod v0_2_0;
