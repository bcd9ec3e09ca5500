//! Response mapping for the status query gateway: how a ledger outcome is
//! reported to an external caller. Success maps to a 200 response carrying
//! the trip and its status; any ledger failure maps to a 500 response
//! carrying the failure's description verbatim.

use crate::ledger::{LedgerError, TripStatus};
use crate::models::ContractStatus;
use vstd::prelude::*;

verus! {

/// Response body returned by the gateway: a human-readable message and,
/// on success, the queried trip and status.
pub struct ApiResponse {
    pub message: String,
    pub data: Option<ContractStatus>,
}

/// Name of a status, as carried in a query response.
pub open spec fn status_name(s: TripStatus) -> Seq<char> {
    match s {
        TripStatus::Departed => "Departed"@,
        TripStatus::InTransit => "InTransit"@,
        TripStatus::Delivered => "Delivered"@,
    }
}

/// Kind of a ledger failure, as carried in a failure descriptor.
pub open spec fn kind_name(e: LedgerError) -> Seq<char> {
    match e {
        LedgerError::NoActiveTrip => "NoActiveTrip"@,
        LedgerError::IdentifierMismatch => "IdentifierMismatch"@,
        LedgerError::InvalidTransition => "InvalidTransition"@,
    }
}

/// Human-readable description of a ledger failure.
pub open spec fn error_message(e: LedgerError) -> Seq<char> {
    match e {
        LedgerError::NoActiveTrip => "No active trip"@,
        LedgerError::IdentifierMismatch => "Trip ID mismatch"@,
        LedgerError::InvalidTransition => "Invalid status transition"@,
    }
}

/// Response code for a query outcome: success maps to 200, any ledger
/// failure to 500.
pub open spec fn response_code(outcome: Result<TripStatus, LedgerError>) -> u16 {
    if outcome is Ok {
        200
    } else {
        500
    }
}

/// The label of a status for a response body.
pub fn status_label(s: TripStatus) -> (r: String)
    ensures
        r@ == status_name(s),
{
    match s {
        TripStatus::Departed => "Departed".to_owned(),
        TripStatus::InTransit => "InTransit".to_owned(),
        TripStatus::Delivered => "Delivered".to_owned(),
    }
}

/// The kind of a ledger failure for a failure descriptor.
pub fn error_kind(e: LedgerError) -> (r: String)
    ensures
        r@ == kind_name(e),
{
    match e {
        LedgerError::NoActiveTrip => "NoActiveTrip".to_owned(),
        LedgerError::IdentifierMismatch => "IdentifierMismatch".to_owned(),
        LedgerError::InvalidTransition => "InvalidTransition".to_owned(),
    }
}

/// The description of a ledger failure for a response body.
pub fn error_description(e: LedgerError) -> (r: String)
    ensures
        r@ == error_message(e),
{
    match e {
        LedgerError::NoActiveTrip => "No active trip".to_owned(),
        LedgerError::IdentifierMismatch => "Trip ID mismatch".to_owned(),
        LedgerError::InvalidTransition => "Invalid status transition".to_owned(),
    }
}

/// Parse a status label back into the status: the inverse of
/// `status_label`. Returns `None` exactly when the label names no status.
pub fn status_from_label(s: &String) -> (r: Option<TripStatus>)
    ensures
        (match r {
            Some(st) => s@ == status_name(st),
            None => s@ != status_name(TripStatus::Departed) && s@ != status_name(
                TripStatus::InTransit,
            ) && s@ != status_name(TripStatus::Delivered),
        }),
{
    if *s == "Departed".to_owned() {
        Some(TripStatus::Departed)
    } else if *s == "InTransit".to_owned() {
        Some(TripStatus::InTransit)
    } else if *s == "Delivered".to_owned() {
        Some(TripStatus::Delivered)
    } else {
        None
    }
}

/// The three status names are pairwise distinct, so a status label
/// identifies the status it was produced from.
pub proof fn law_status_names_distinct()
    ensures
        status_name(TripStatus::Departed) != status_name(TripStatus::InTransit),
        status_name(TripStatus::Departed) != status_name(TripStatus::Delivered),
        status_name(TripStatus::InTransit) != status_name(TripStatus::Delivered),
{
    reveal_strlit("Departed");
    reveal_strlit("InTransit");
    reveal_strlit("Delivered");
    assert(status_name(TripStatus::Departed).len() == 8);
    assert(status_name(TripStatus::InTransit).len() == 9);
    assert(status_name(TripStatus::Delivered).len() == 9);
    assert(status_name(TripStatus::InTransit)[0] != status_name(TripStatus::Delivered)[0]);
}

/// Translate a status-query outcome into the gateway's response: the
/// response code together with the payload. A success carries the trip
/// identifier and the status label; a failure carries the failure's
/// description and no data.
pub fn query_response(trip_id: &String, outcome: Result<TripStatus, LedgerError>) -> (r: (
    u16,
    ApiResponse,
))
    ensures
        r.0 == response_code(outcome),
        (match outcome {
            Ok(s) => r.1.data matches Some(cs) && cs.trip_id@ == trip_id@ && cs.status@
                == status_name(s) && r.1.message@ == "Status retrieved successfully"@,
            Err(e) => r.1.data is None && r.1.message@ == error_message(e),
        }),
{
    match outcome {
        Ok(s) => (
            200u16,
            ApiResponse {
                message: "Status retrieved successfully".to_owned(),
                data: Some(ContractStatus { trip_id: trip_id.clone(), status: status_label(s) }),
            },
        ),
        Err(e) => (500u16, ApiResponse { message: error_description(e), data: None }),
    }
}

} // verus!
