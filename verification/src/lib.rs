//! Pure decision core of the Victron energy controller: the target/actual
//! state machines, the sensor catalogue and its freshness rules, the
//! bookkeeping and timezone updates, and the dashboard wire vocabulary.

pub mod bookkeeping;
pub mod calendar;
pub mod dashboard;
pub mod decision;
pub mod ids;
pub mod knobs;
pub mod log;
pub mod owner;
pub mod process;
pub mod sensor;
pub mod tass;
pub mod text;
pub mod time;
pub mod timezone;
pub mod weather_soc_addr;
pub mod world;
