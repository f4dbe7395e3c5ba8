use vstd::prelude::*;

verus! {

/// What a battery device reports about its power source.
#[derive(Debug, Clone, Copy, PartialEq, Eq, Structural)]
pub enum PowerState {
    Unknown,
    Charging,
    Discharging,
    Empty,
    Full,
}

/// A machine counts as on external power unless its battery is discharging.
pub open spec fn is_on_power(state: PowerState) -> bool {
    state != PowerState::Discharging
}

/// Whether a device in `state` is on external power.
pub fn on_power(state: PowerState) -> (r: bool)
    ensures
        r == is_on_power(state),
{
    match state {
        PowerState::Discharging => false,
        _ => true,
    }
}

} // verus!
