use trip_ledger::models::{ContractStatus, ContractUpdate, TripData};

#[test]
fn trip_data_holds_its_fields() {
    let data = TripData {
        trip_id: "T1".to_string(),
        driver: "Ana".to_string(),
        route: vec!["origin".to_string(), "destination".to_string()],
    };
    assert_eq!(data.trip_id, "T1");
    assert_eq!(data.driver, "Ana");
    assert_eq!(data.route.len(), 2);
}

#[test]
fn contract_update_holds_its_fields() {
    let update = ContractUpdate {
        trip_id: "T1".to_string(),
        event: "checkpoint".to_string(),
        status: "InTransit".to_string(),
    };
    assert_eq!(update.trip_id, "T1");
    assert_eq!(update.event, "checkpoint");
    assert_eq!(update.status, "InTransit");
}

#[test]
fn contract_status_holds_its_fields() {
    let status = ContractStatus {
        trip_id: "T1".to_string(),
        status: "Delivered".to_string(),
    };
    assert_eq!(status.trip_id, "T1");
    assert_eq!(status.status, "Delivered");
}
