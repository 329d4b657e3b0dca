use vstd::prelude::*;

verus! {

/// What can go wrong around the fleet.
#[derive(Clone, Copy, Debug, PartialEq, Eq, Structural)]
pub enum FleetError {
    /// A passenger asked for a lift while none is registered.
    NoElevatorsAvailable,
    /// A status query or report named a lift that never registered.
    UnknownElevator,
    /// A command could not be published on the bus.
    BusPublishFailure,
    /// A bus consumer fell behind and missed commands.
    ConsumerLag,
}

} // verus!
