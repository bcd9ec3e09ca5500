//! Plain data shapes exchanged at the gateway boundary.

use vstd::prelude::*;

verus! {

/// Request payload announcing a new trip.
pub struct TripData {
    pub trip_id: String,
    pub driver: String,
    pub route: Vec<String>,
}

/// Request payload reporting a checkpoint event for a trip.
pub struct ContractUpdate {
    pub trip_id: String,
    pub event: String,
    pub status: String,
}

/// Response payload describing the queried trip and its current status.
pub struct ContractStatus {
    pub trip_id: String,
    pub status: String,
}

} // verus!
