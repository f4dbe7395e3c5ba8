use vstd::prelude::*;

verus! {

/// Every way a run of the probe can fail. Each of them ends the run.
#[derive(Debug, Clone, Copy, PartialEq, Eq, Structural)]
pub enum ProbeError {
    /// The platform's power-management facility could not be opened.
    ManagerUnavailable,
    /// Listing the battery devices failed (an empty list is no failure).
    EnumerationFailed,
    /// The first battery device could not be read.
    DeviceReadFailed,
    /// The endpoint or the device slug was not configured.
    ConfigMissing,
    /// The report could not be delivered (no connection, no answer).
    RequestFailed,
}

} // verus!
