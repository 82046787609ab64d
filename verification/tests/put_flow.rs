use kv_facade::apigw::Request;
use kv_facade::put::{handler, save_response};
use kv_facade::store::{ItemSaver, MemoryStore, StorageError};

fn request_with_id(id: &str) -> Request {
    Request {
        path_parameters: vec![(String::from("id"), String::from(id))],
        method: String::from("PUT"),
        body: None,
    }
}

fn request_without_parameters(method: &str) -> Request {
    Request {
        path_parameters: Vec::new(),
        method: String::from(method),
        body: None,
    }
}

/// A saver that must never be reached.
struct UntouchableSaver;

impl ItemSaver for UntouchableSaver {
    fn save_item(&mut self, _id: String) -> Result<(), StorageError> {
        panic!("the storage gateway must not be invoked");
    }
}

/// A saver that fails every call with a fixed description, counting calls.
struct FailingSaver {
    message: String,
    calls: usize,
}

impl ItemSaver for FailingSaver {
    fn save_item(&mut self, _id: String) -> Result<(), StorageError> {
        self.calls += 1;
        Err(StorageError::Backend(self.message.clone()))
    }
}

#[test]
fn test_invalid_path_parameters() {
    let mut store = UntouchableSaver;
    let result = handler(&mut store, &request_without_parameters("PUT"));
    assert_eq!(result.status_code, 400);
}

#[test]
fn test_fail_save() {
    let mut store = FailingSaver { message: String::from("Error!"), calls: 0 };
    let result = handler(&mut store, &request_with_id("123"));
    assert_eq!(result.status_code, 500);
    assert_eq!(store.calls, 1);
}

#[test]
fn test_success_save() {
    let mut store = MemoryStore::new();
    let result = handler(&mut store, &request_with_id("123"));
    assert_eq!(result.status_code, 200);
    assert_eq!(result.body, String::from("All good!"));
}

#[test]
fn save_failure_body_is_the_failure_description() {
    let mut store = FailingSaver { message: String::from("boom"), calls: 0 };
    let result = handler(&mut store, &request_with_id("123"));
    assert_eq!(result.status_code, 500);
    assert_eq!(result.body, "boom");
}

#[test]
fn save_twice_returns_200_both_times() {
    let mut store = MemoryStore::new();
    let first = handler(&mut store, &request_with_id("123"));
    let second = handler(&mut store, &request_with_id("123"));
    assert_eq!(first.status_code, 200);
    assert_eq!(second.status_code, 200);
    assert_eq!(first.body, "All good!");
    assert_eq!(second.body, "All good!");
}

#[test]
fn missing_id_response_body_is_bad_request() {
    let mut store = UntouchableSaver;
    let result = handler(&mut store, &request_without_parameters("PUT"));
    assert_eq!(result.status_code, 400);
    assert_eq!(result.body, "Bad request");
    assert!(result.headers.is_empty());
    assert!(!result.is_base64_encoded);
}

#[test]
fn save_response_maps_each_outcome() {
    let ok = save_response(&Ok(()));
    assert_eq!(ok.status_code, 200);
    assert_eq!(ok.body, "All good!");
    let err = save_response(&Err(StorageError::Backend(String::from("throttled"))));
    assert_eq!(err.status_code, 500);
    assert_eq!(err.body, "throttled");
}
