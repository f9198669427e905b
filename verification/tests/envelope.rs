use opday::dispatch::{status_of, HandlerResponse};
use opday::model::{
    get_response_found, get_response_not_found, id_response_ok, internal_error, not_found_error,
    HealthCheckModel, RecordId,
};

#[test]
fn success_envelope_carries_the_id_and_no_error() {
    let id = RecordId { value: 42 };
    let resp = id_response_ok(id);
    assert!(resp.success);
    assert_eq!(resp.id, Some(id));
    assert!(resp.error.is_none());
}

#[test]
fn not_found_envelope_is_exclusive() {
    let resp = get_response_not_found();
    assert!(!resp.success);
    assert!(resp.model.is_none());
    let err = resp.error.expect("failure carries an error");
    assert_eq!(err.error, "not_found");
    assert_eq!(err.error_loc, "Not found.");
}

#[test]
fn found_envelope_carries_the_record() {
    let model = HealthCheckModel { name: "n".to_string(), url: "u".to_string() };
    let resp = get_response_found(model.clone());
    assert!(resp.success);
    assert_eq!(resp.model, Some(model));
    assert!(resp.error.is_none());
}

#[test]
fn not_found_error_fields() {
    let err = not_found_error();
    assert_eq!(err.error, "not_found");
    assert_eq!(err.error_loc, "Not found.");
}

#[test]
fn internal_error_maps_to_500() {
    let (status, detail) = internal_error("connection lost".to_string());
    assert_eq!(status, 500);
    assert_eq!(detail, "connection lost");
}

#[test]
fn failure_classes_map_to_their_statuses() {
    assert_eq!(status_of(&HandlerResponse::Storage("boom".to_string())), 500);
    assert_eq!(status_of(&HandlerResponse::PoolUnavailable("full".to_string())), 503);
    assert_eq!(status_of(&HandlerResponse::Validation("bad".to_string())), 400);
    assert_eq!(status_of(&HandlerResponse::NotRouted), 404);
}

#[test]
fn nil_identifier() {
    let nil = RecordId::nil();
    assert!(nil.is_nil());
    assert_eq!(nil.value, 0);
    assert!(!RecordId { value: 1 }.is_nil());
}
