//! Battery telemetry probe: reads the first battery device of the machine,
//! derives its power state, and prepares one report for a remote endpoint.

mod error;
mod power;
mod report;
mod sensor;

pub use error::ProbeError;
pub use power::{is_on_power, on_power, PowerState};
pub use report::{
    delivery_outcome, interrupt_mode_spec, is_success, is_success_spec, Config, ReportPayload,
};
pub use sensor::{open_power_manager, reading_from, reading_of, BatteryReading, FirstDevice};
