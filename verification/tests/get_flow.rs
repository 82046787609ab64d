use kv_facade::apigw::Request;
use kv_facade::get::{handler as get_handler, get_response};
use kv_facade::put::handler as put_handler;
use kv_facade::store::{Entry, ItemGetter, MemoryStore, StorageError};

fn request_with_id(id: &str) -> Request {
    Request {
        path_parameters: vec![(String::from("id"), String::from(id))],
        method: String::from("GET"),
        body: None,
    }
}

fn request_without_parameters() -> Request {
    Request {
        path_parameters: Vec::new(),
        method: String::from("GET"),
        body: None,
    }
}

/// A getter that must never be reached.
struct UntouchableGetter;

impl ItemGetter for UntouchableGetter {
    fn get_item(&self, _id: String) -> Result<Entry, StorageError> {
        panic!("the storage gateway must not be invoked");
    }
}

/// A getter whose remote call fails outright.
struct BrokenGetter;

impl ItemGetter for BrokenGetter {
    fn get_item(&self, _id: String) -> Result<Entry, StorageError> {
        Err(StorageError::Backend(String::from("connection reset")))
    }
}

#[test]
fn get_with_missing_id_is_400() {
    let store = UntouchableGetter;
    let result = get_handler(&store, &request_without_parameters());
    assert_eq!(result.status_code, 400);
    assert_eq!(result.body, "Bad request");
}

#[test]
fn get_of_absent_entry_is_404() {
    let store = MemoryStore::new();
    let result = get_handler(&store, &request_with_id("123"));
    assert_eq!(result.status_code, 404);
    assert_eq!(result.body, "Not found");
}

#[test]
fn get_after_save_round_trips_the_id() {
    let mut store = MemoryStore::new();
    let saved = put_handler(&mut store, &request_with_id("123"));
    assert_eq!(saved.status_code, 200);
    let fetched = get_handler(&store, &request_with_id("123"));
    assert_eq!(fetched.status_code, 200);
    assert_eq!(fetched.body, "{\"id\":\"123\"}");
    assert!(fetched.body.contains("123"));
}

#[test]
fn get_collapses_backend_failure_into_404() {
    let store = BrokenGetter;
    let result = get_handler(&store, &request_with_id("123"));
    assert_eq!(result.status_code, 404);
    assert_eq!(result.body, "Not found");
}

#[test]
fn get_response_maps_each_outcome() {
    let ok = get_response(&Ok(Entry::new(String::from("abc"))));
    assert_eq!(ok.status_code, 200);
    assert_eq!(ok.body, "{\"id\":\"abc\"}");
    let absent = get_response(&Err(StorageError::NotFound));
    assert_eq!(absent.status_code, 404);
    assert_eq!(absent.body, "Not found");
    let broken = get_response(&Err(StorageError::Backend(String::from("boom"))));
    assert_eq!(broken.status_code, 404);
    assert_eq!(broken.body, "Not found");
}
