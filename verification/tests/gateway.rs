use trip_ledger::gateway::{error_description, error_kind, query_response, status_from_label, status_label};
use trip_ledger::ledger::{LedgerError, TripLedger, TripStatus};

#[test]
fn status_labels() {
    assert_eq!(status_label(TripStatus::Departed), "Departed");
    assert_eq!(status_label(TripStatus::InTransit), "InTransit");
    assert_eq!(status_label(TripStatus::Delivered), "Delivered");
}

#[test]
fn error_kinds() {
    assert_eq!(error_kind(LedgerError::NoActiveTrip), "NoActiveTrip");
    assert_eq!(error_kind(LedgerError::IdentifierMismatch), "IdentifierMismatch");
    assert_eq!(error_kind(LedgerError::InvalidTransition), "InvalidTransition");
}

#[test]
fn error_descriptions() {
    assert_eq!(error_description(LedgerError::NoActiveTrip), "No active trip");
    assert_eq!(error_description(LedgerError::IdentifierMismatch), "Trip ID mismatch");
    assert_eq!(
        error_description(LedgerError::InvalidTransition),
        "Invalid status transition"
    );
}

#[test]
fn successful_query_maps_to_200_with_payload() {
    let id = "T1".to_string();
    let (code, body) = query_response(&id, Ok(TripStatus::InTransit));
    assert_eq!(code, 200);
    assert_eq!(body.message, "Status retrieved successfully");
    let data = body.data.expect("success carries a payload");
    assert_eq!(data.trip_id, "T1");
    assert_eq!(data.status, "InTransit");
}

#[test]
fn failed_query_maps_to_500_without_payload() {
    let id = "T1".to_string();
    let (code, body) = query_response(&id, Err(LedgerError::IdentifierMismatch));
    assert_eq!(code, 500);
    assert_eq!(body.message, "Trip ID mismatch");
    assert!(body.data.is_none());
}

#[test]
fn ledger_outcome_flows_into_response() {
    let mut ledger = TripLedger::new();
    let id = "TRIP-1".to_string();

    let (code, body) = query_response(&id, ledger.get_status(&id));
    assert_eq!(code, 500);
    assert_eq!(body.message, "No active trip");
    assert!(body.data.is_none());

    ledger.create(id.clone());
    let (code, body) = query_response(&id, ledger.get_status(&id));
    assert_eq!(code, 200);
    let data = body.data.expect("success carries a payload");
    assert_eq!(data.trip_id, "TRIP-1");
    assert_eq!(data.status, "Departed");
}

#[test]
fn label_round_trip() {
    for status in [
        TripStatus::Departed,
        TripStatus::InTransit,
        TripStatus::Delivered,
    ] {
        assert_eq!(status_from_label(&status_label(status)), Some(status));
    }
    assert_eq!(status_from_label(&"departed".to_string()), None);
    assert_eq!(status_from_label(&"".to_string()), None);
}
