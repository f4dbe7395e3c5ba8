use crate::error::ProbeError;
use vstd::prelude::*;

verus! {

/// Where the report goes and which device it speaks for.
#[derive(Debug, PartialEq, Eq)]
pub struct Config {
    /// The URL that the report is posted to.
    pub api_endpoint: String,
    /// The opaque identifier of this machine.
    pub device_slug: String,
}

impl Config {
    /// Builds the configuration from the two settings, each of which may be
    /// absent. Both must be present; their contents are taken as they are.
    pub fn from_values(api_endpoint: Option<String>, device_slug: Option<String>) -> (r: Result<
        Config,
        ProbeError,
    >)
        ensures
            r is Ok <==> (api_endpoint is Some && device_slug is Some),
            r matches Err(e) ==> e == ProbeError::ConfigMissing,
            r matches Ok(c) ==> (Some(c.api_endpoint) == api_endpoint && Some(c.device_slug)
                == device_slug),
    {
        match (api_endpoint, device_slug) {
            (Some(api_endpoint), Some(device_slug)) => Ok(Config { api_endpoint, device_slug }),
            _ => Err(ProbeError::ConfigMissing),
        }
    }
}

/// The interrupt mode that every report carries.
pub open spec fn interrupt_mode_spec() -> Seq<char> {
    seq!['n', 'o', 'n', 'e']
}

/// What is sent to the endpoint: the device, its battery level as a
/// percentage (of type `L`), the interrupt mode, and whether it is on power.
#[derive(Debug, PartialEq)]
pub struct ReportPayload<L> {
    pub device_slug: String,
    pub battery_level: L,
    pub interrupt_mode: String,
    pub on_power: bool,
}

impl<L> ReportPayload<L> {
    /// The report for the configured device. The interrupt mode is always
    /// `"none"`, whatever the inputs.
    pub fn new(config: &Config, battery_level: L, on_power: bool) -> (r: ReportPayload<L>)
        ensures
            r.device_slug@ == config.device_slug@,
            r.battery_level == battery_level,
            r.interrupt_mode@ == interrupt_mode_spec(),
            r.on_power == on_power,
    {
        let interrupt_mode = "none".to_owned();
        proof {
            reveal_strlit("none");
            assert(interrupt_mode@ =~= interrupt_mode_spec());
        }
        ReportPayload {
            device_slug: config.device_slug.clone(),
            battery_level,
            interrupt_mode,
            on_power,
        }
    }
}

/// An HTTP status counts as success when it is in the 2xx class.
pub open spec fn is_success_spec(status: u16) -> bool {
    200 <= status && status < 300
}

/// Whether an HTTP status is in the success class.
pub fn is_success(status: u16) -> (r: bool)
    ensures
        r == is_success_spec(status),
{
    200 <= status && status < 300
}

/// What the delivery of the report comes to: `status` is the HTTP status
/// that came back, or `None` when no response arrived at all. A missing
/// response fails with `RequestFailed`; any response, whatever its status,
/// is an outcome, successful exactly when its status is in the 2xx class.
pub fn delivery_outcome(status: Option<u16>) -> (r: Result<bool, ProbeError>)
    ensures
        r == match status {
            None => Err(ProbeError::RequestFailed),
            Some(s) => Ok(is_success_spec(s)),
        },
{
    match status {
        None => Err(ProbeError::RequestFailed),
        Some(s) => Ok(is_success(s)),
    }
}

} // verus!
