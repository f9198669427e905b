use opday::dispatch::{get_health_check, handle_request, status_of, HandlerResponse};
use opday::model::{InsertHealthCheckModelRequest, RecordId};
use opday::routes::{root, route_of, Method, Route};
use opday::store::RecordStore;

fn body(name: &str, url: &str) -> Option<InsertHealthCheckModelRequest> {
    Some(InsertHealthCheckModelRequest { name: name.to_string(), url: url.to_string() })
}

fn item_path(id: RecordId) -> String {
    format!("/api/v1/health-check/{}", uuid::Uuid::from_u128(id.value))
}

fn create(store: &mut RecordStore, name: &str, url: &str) -> RecordId {
    let response = handle_request(store, Method::Post, "/api/v1/health-check", body(name, url));
    match response {
        HandlerResponse::Id(resp) => {
            assert!(resp.success);
            resp.id.expect("success carries an identifier")
        }
        other => panic!("creation failed: {:?}", other),
    }
}

#[test]
fn get_root() {
    let mut store = RecordStore::new();
    let response = handle_request(&mut store, Method::Get, "/", None);
    assert_eq!(status_of(&response), 200);
    assert!(matches!(response, HandlerResponse::Liveness));
    assert_eq!(root(), "ok");
}

#[test]
fn get_alive() {
    let mut store = RecordStore::new();
    let response = handle_request(&mut store, Method::Get, "/api/v1/alive", None);
    assert_eq!(status_of(&response), 200);
    assert!(matches!(response, HandlerResponse::Liveness));
}

#[test]
fn post_health_check() {
    let mut store = RecordStore::new();
    let response = handle_request(
        &mut store,
        Method::Post,
        "/api/v1/health-check",
        body("test", "http://localhost:8080"),
    );
    assert_eq!(status_of(&response), 200);
    match response {
        HandlerResponse::Id(resp) => {
            assert!(resp.success);
            let id = resp.id.expect("success carries an identifier");
            assert!(!id.is_nil());
            assert!(resp.error.is_none());
        }
        other => panic!("unexpected response: {:?}", other),
    }
}

#[test]
fn test_update_health_check() {
    let mut store = RecordStore::new();
    let id = create(&mut store, "test", "http://localhost:8080");
    let response = handle_request(
        &mut store,
        Method::Post,
        &item_path(id),
        body("new_name", "http://localhost:8080"),
    );
    assert_eq!(status_of(&response), 200);
    match response {
        HandlerResponse::Id(resp) => {
            assert!(resp.success);
            assert_eq!(resp.id, Some(id));
        }
        other => panic!("unexpected response: {:?}", other),
    }
    let read_back = handle_request(&mut store, Method::Get, &item_path(id), None);
    match read_back {
        HandlerResponse::Fetched(resp) => {
            assert!(resp.success, "raw: {:?}", resp);
            let model = resp.model.clone().unwrap();
            assert_eq!(model.name, "new_name", "raw: {:?}", resp);
        }
        other => panic!("unexpected response: {:?}", other),
    }
}

#[test]
fn get_health_check_existing() {
    let mut store = RecordStore::new();
    let id = create(&mut store, "test", "http://localhost:8080");
    let response = handle_request(&mut store, Method::Get, &item_path(id), None);
    match response {
        HandlerResponse::Fetched(resp) => {
            assert!(resp.success, "raw: {:?}", resp);
            assert!(resp.model.clone().unwrap().name.len() > 0, "raw: {:?}", resp);
            assert!(resp.error.is_none(), "raw: {:?}", resp);
        }
        other => panic!("unexpected response: {:?}", other),
    }
}

#[test]
fn get_health_check_not_existing() {
    let mut store = RecordStore::new();
    let nil_path = "/api/v1/health-check/00000000-0000-0000-0000-000000000000";
    let response = handle_request(&mut store, Method::Get, nil_path, None);
    match response {
        HandlerResponse::Fetched(resp) => {
            assert!(!resp.success, "raw: {:?}", resp);
            assert!(resp.model.clone().is_none(), "raw: {:?}", resp);
            assert!(resp.error.is_some(), "raw: {:?}", resp);
            assert_eq!(resp.error.unwrap().error, "not_found");
        }
        other => panic!("unexpected response: {:?}", other),
    }
}

#[test]
fn created_record_matches_request() {
    let mut store = RecordStore::new();
    let id = create(&mut store, "test", "http://localhost:8080");
    let resp = get_health_check(&store, id);
    assert!(resp.success);
    let model = resp.model.unwrap();
    assert_eq!(model.name, "test");
    assert_eq!(model.url, "http://localhost:8080");
}

#[test]
fn update_of_missing_id_reports_the_id() {
    let mut store = RecordStore::new();
    let id = RecordId { value: 7 };
    let response = handle_request(
        &mut store,
        Method::Post,
        &item_path(id),
        body("name", "http://example.com"),
    );
    match response {
        HandlerResponse::Id(resp) => {
            assert!(resp.success);
            assert_eq!(resp.id, Some(id));
        }
        other => panic!("unexpected response: {:?}", other),
    }
    let read_back = get_health_check(&store, id);
    assert!(!read_back.success);
}

#[test]
fn route_parses_the_identifier() {
    let route = route_of(Method::Get, "/api/v1/health-check/00000000-0000-0000-0000-000000000001");
    assert_eq!(route, Route::GetHealthCheck(RecordId { value: 1 }));
    let route = route_of(Method::Post, "/api/v1/health-check/00000000-0000-0000-0000-000000000001");
    assert_eq!(route, Route::UpdateHealthCheck(RecordId { value: 1 }));
}

#[test]
fn malformed_identifier_is_a_validation_error() {
    let mut store = RecordStore::new();
    let response = handle_request(&mut store, Method::Get, "/api/v1/health-check/not-a-uuid", None);
    assert_eq!(status_of(&response), 400);
    assert!(matches!(response, HandlerResponse::Validation(_)));
}

#[test]
fn unknown_path_is_not_routed() {
    let mut store = RecordStore::new();
    let response = handle_request(&mut store, Method::Get, "/api/v2/other", None);
    assert_eq!(status_of(&response), 404);
    assert!(matches!(response, HandlerResponse::NotRouted));
    let response = handle_request(&mut store, Method::Post, "/", None);
    assert!(matches!(response, HandlerResponse::NotRouted));
}

#[test]
fn missing_body_is_a_validation_error() {
    let mut store = RecordStore::new();
    let response = handle_request(&mut store, Method::Post, "/api/v1/health-check", None);
    assert_eq!(status_of(&response), 400);
    assert!(matches!(response, HandlerResponse::Validation(_)));
}

#[test]
fn empty_name_is_a_validation_error() {
    let mut store = RecordStore::new();
    let response = handle_request(
        &mut store,
        Method::Post,
        "/api/v1/health-check",
        body("", "http://localhost:8080"),
    );
    assert_eq!(status_of(&response), 400);
    assert!(matches!(response, HandlerResponse::Validation(_)));
}
