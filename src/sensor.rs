use crate::error::ProbeError;
use crate::power::{is_on_power, on_power, PowerState};
use vstd::prelude::*;

verus! {

#[verifier::external_type_specification]
#[verifier::external_body]
pub struct ExManager(battery::Manager);

#[verifier::external_type_specification]
#[verifier::external_body]
pub struct ExBatteryError(battery::Error);

/// Relies on battery::Manager::new: opens the platform's power-management
/// facility. Whether it opens depends on the machine, so nothing is promised.
#[verifier::external_body]
fn open_manager() -> (r: Result<battery::Manager, battery::Error>) {
    battery::Manager::new()
}

/// The outcome of listing the battery devices and reading the first of
/// them. `C` is the state of charge as the device reports it.
pub enum FirstDevice<C> {
    /// Listing the devices failed.
    EnumerationFailed,
    /// The machine lists no battery device.
    NoDeviceFound,
    /// The first device was read: its power state and its state of charge.
    DeviceFound(PowerState, C),
    /// The first device is listed but could not be read.
    ReadFailed,
}

/// One reading of the machine's battery.
#[derive(Debug, PartialEq)]
pub struct BatteryReading<C> {
    /// The state of charge of the device that was read; `None` on a machine
    /// without a battery, whose level counts as zero.
    pub charge: Option<C>,
    /// Whether the machine is on external power.
    pub on_power: bool,
}

/// The reading that the outcome of the listing gives.
pub open spec fn reading_of<C>(first: FirstDevice<C>) -> Result<BatteryReading<C>, ProbeError> {
    match first {
        FirstDevice::EnumerationFailed => Err(ProbeError::EnumerationFailed),
        FirstDevice::NoDeviceFound => Ok(BatteryReading { charge: None, on_power: false }),
        FirstDevice::DeviceFound(state, charge) => Ok(
            BatteryReading { charge: Some(charge), on_power: is_on_power(state) },
        ),
        FirstDevice::ReadFailed => Err(ProbeError::DeviceReadFailed),
    }
}

/// Turns the outcome of the listing into a reading. A failed listing fails
/// the reading; otherwise the first device alone decides; a machine without a battery reads as empty and unpowered,
/// which is no error; a device that cannot be read fails the whole reading.
pub fn reading_from<C>(first: FirstDevice<C>) -> (r: Result<BatteryReading<C>, ProbeError>)
    ensures
        r == reading_of(first),
        first is NoDeviceFound ==> r is Ok,
{
    match first {
        FirstDevice::EnumerationFailed => Err(ProbeError::EnumerationFailed),
        FirstDevice::NoDeviceFound => Ok(BatteryReading { charge: None, on_power: false }),
        FirstDevice::DeviceFound(state, charge) => Ok(
            BatteryReading { charge: Some(charge), on_power: on_power(state) },
        ),
        FirstDevice::ReadFailed => Err(ProbeError::DeviceReadFailed),
    }
}

/// Opens the platform's power-management facility, or fails with
/// `ManagerUnavailable`.
pub fn open_power_manager() -> (r: Result<battery::Manager, ProbeError>)
    ensures
        r matches Err(e) ==> e == ProbeError::ManagerUnavailable,
{
    match open_manager() {
        Ok(manager) => Ok(manager),
        Err(_) => Err(ProbeError::ManagerUnavailable),
    }
}

} // verus!
