use jmap_client::blob::manage::BlobGetRequest;
use jmap_client::jmap_core::capability::{Blob, Core, Quota};
use jmap_client::jmap_core::request::{CallHandle, Request};
use jmap_client::jmap_core::response::{MethodResponseEntry, RawCallResult, Response};
use jmap_client::jmap_core::transport::TransportError;
use jmap_client::{Error, MethodError, ProblemDetails};
use serde_json::Value;

/// Reads a response envelope the way the client does: each entry named
/// `error` carries a method error.
fn response_from_json(text: &str) -> Response {
    let v: Value = serde_json::from_str(text).unwrap();
    let mut entries = Vec::new();
    for entry in v["methodResponses"].as_array().unwrap() {
        let name = entry[0].as_str().unwrap().to_string();
        let data = entry[1].to_string();
        let call_id = entry[2].as_str().unwrap().to_string();
        let error = if name == "error" {
            Some(Ok(MethodError {
                error_type: entry[1]["type"].as_str().unwrap().to_string(),
                description: entry[1]["description"].as_str().map(|s| s.to_string()),
            }))
        } else {
            None
        };
        entries.push(MethodResponseEntry { method_name: name, data, call_id, error });
    }
    Response::from_method_responses(entries, v["sessionState"].as_str().unwrap().to_string(), None).unwrap()
}

fn make_handle(call_id: &str, name: &str) -> CallHandle {
    CallHandle { call_id: call_id.to_string(), method_name: name.to_string() }
}

#[test]
fn response_get_extracts_typed_result() {
    let mut response = response_from_json(
        r#"{"sessionState": "abc", "methodResponses": [["Test/get", {"accountId": "A1", "state": "s1", "list": [{"id": "t1", "name": "hello"}], "notFound": []}, "s0"]]}"#,
    );
    let handle = make_handle("s0", "Test/get");
    let result: Value = serde_json::from_str(&response.get(&handle).unwrap()).unwrap();
    assert_eq!(result["state"], "s1");
    assert_eq!(result["list"].as_array().unwrap().len(), 1);
    assert_eq!(result["list"][0]["name"].as_str(), Some("hello"));
}

#[test]
fn response_get_returns_call_not_found_for_wrong_id() {
    let mut response = response_from_json(
        r#"{"sessionState": "abc", "methodResponses": [["Test/get", {"accountId": "A1", "state": "s1", "list": [], "notFound": []}, "s0"]]}"#,
    );
    let handle = make_handle("s99", "Test/get");
    let err = response.get(&handle).unwrap_err();
    assert!(matches!(err, Error::CallNotFound(id) if id == "s99"));
}

#[test]
fn response_get_returns_method_error() {
    let mut response = response_from_json(
        r#"{"sessionState": "abc", "methodResponses": [["error", {"type": "unknownMethod"}, "s0"]]}"#,
    );
    let handle = make_handle("s0", "Test/get");
    let err = response.get(&handle).unwrap_err();
    assert!(matches!(err, Error::Method(_)));
}

#[test]
fn response_mixed_success_and_error() {
    let mut response = response_from_json(
        r#"{"sessionState": "abc", "methodResponses": [
            ["Test/get", {"accountId": "A1", "state": "s1", "list": [{"id": "t1"}], "notFound": []}, "s0"],
            ["error", {"type": "unknownMethod"}, "s1"],
            ["Test/query", {"accountId": "A1", "queryState": "q1", "canCalculateChanges": true, "position": 0, "ids": ["t1", "t2"]}, "s2"]
        ]}"#,
    );
    let get_result: Value = serde_json::from_str(&response.get(&make_handle("s0", "Test/get")).unwrap()).unwrap();
    assert_eq!(get_result["list"].as_array().unwrap().len(), 1);
    assert!(matches!(response.get(&make_handle("s1", "Test/get")), Err(Error::Method(_))));
    let query_result: Value = serde_json::from_str(&response.get(&make_handle("s2", "Test/query")).unwrap()).unwrap();
    assert_eq!(query_result["ids"].as_array().unwrap().len(), 2);
}

#[test]
fn response_get_consumes_entry() {
    let mut response = response_from_json(
        r#"{"sessionState": "abc", "methodResponses": [["Test/get", {"accountId": "A1", "state": "s1", "list": [], "notFound": []}, "s0"]]}"#,
    );
    let handle = make_handle("s0", "Test/get");
    let _ = response.get(&handle).unwrap();
    assert!(matches!(response.get(&handle), Err(Error::CallNotFound(_))));
}

#[test]
fn call_handle_result_reference() {
    let handle = make_handle("s0", "Test/get");
    let ref_ = handle.result_reference("/ids");
    assert_eq!(ref_.result_of, "s0");
    assert_eq!(ref_.name, "Test/get");
    assert_eq!(ref_.path, "/ids");
}

#[test]
fn problem_details_from_transport_error() {
    let body = br#"{"type": "urn:ietf:params:jmap:error:limit", "title": "Too many requests", "status": 429}"#.to_vec();
    let err = TransportError::with_body("HTTP 429", body.clone());
    let v: Value = serde_json::from_slice(&body).unwrap();
    let problem = ProblemDetails {
        problem_type: v["type"].as_str().unwrap().to_string(),
        status: v["status"].as_u64().map(|s| s as u32),
        title: v["title"].as_str().map(|s| s.to_string()),
        detail: None,
        limit: None,
    };
    let error = Error::from_transport(err, Some(problem));
    assert!(matches!(error, Error::Problem(_)));
}

#[test]
fn transport_error_without_body_stays_transport() {
    let err = TransportError::new("connection refused");
    let error = Error::from_transport(err, None);
    assert!(matches!(error, Error::Transport(_)));
}

#[test]
fn error_response_without_method_error_is_refused() {
    let entries = vec![MethodResponseEntry {
        method_name: "error".to_string(),
        data: "{}".to_string(),
        call_id: "s0".to_string(),
        error: None,
    }];
    let r = Response::from_method_responses(entries, "abc".to_string(), None);
    assert!(matches!(r, Err(Error::Parse(m)) if m == "invalid method error"));
}

#[test]
fn error_response_reports_the_reader_message() {
    let entries = vec![
        MethodResponseEntry {
            method_name: "A/get".to_string(),
            data: "{}".to_string(),
            call_id: "s0".to_string(),
            error: None,
        },
        MethodResponseEntry {
            method_name: "error".to_string(),
            data: "{}".to_string(),
            call_id: "s1".to_string(),
            error: Some(Err("missing field `type`".to_string())),
        },
        MethodResponseEntry {
            method_name: "error".to_string(),
            data: "[]".to_string(),
            call_id: "s2".to_string(),
            error: Some(Err("second".to_string())),
        },
    ];
    let r = Response::from_method_responses(entries, "abc".to_string(), None);
    assert!(matches!(r, Err(Error::Parse(m)) if m == "missing field `type`"));
}

#[test]
fn response_get_takes_first_of_duplicate_ids_and_swaps_last_in() {
    let raw = vec![
        ("A/get".to_string(), RawCallResult::Success("1".to_string()), "s0".to_string()),
        ("B/get".to_string(), RawCallResult::Success("2".to_string()), "s1".to_string()),
        ("C/get".to_string(), RawCallResult::Success("3".to_string()), "s0".to_string()),
        ("D/get".to_string(), RawCallResult::Success("4".to_string()), "s3".to_string()),
    ];
    let mut response = Response::new(raw, "st".to_string(), None);
    assert_eq!(response.get(&make_handle("s0", "A/get")).unwrap(), "1");
    let ids: Vec<&str> = response.raw.iter().map(|e| e.2.as_str()).collect();
    assert_eq!(ids, vec!["s3", "s1", "s0"]);
    assert_eq!(response.get(&make_handle("s0", "C/get")).unwrap(), "3");
    assert!(matches!(response.get(&make_handle("s0", "C/get")), Err(Error::CallNotFound(_))));
    assert_eq!(response.session_state(), "st");
}

#[test]
fn request_assigns_sequential_call_ids() {
    let mut request = Request::new("acc");
    assert_eq!(request.default_account_id(), "acc");
    assert_eq!(request.using, vec!["urn:ietf:params:jmap:core".to_string()]);
    let mut handles = Vec::new();
    for i in 0..12 {
        handles.push(request.call_raw("Quota/get", "urn:ietf:params:jmap:quota", format!("{{\"n\":{i}}}")));
    }
    assert_eq!(handles[0].call_id, "s0");
    assert_eq!(handles[9].call_id, "s9");
    assert_eq!(handles[10].call_id, "s10");
    assert_eq!(handles[11].call_id, "s11");
    assert_eq!(request.method_calls[11].call_id, "s11");
    assert_eq!(request.method_calls[11].arguments, "{\"n\":11}");
    assert_eq!(
        request.using,
        vec!["urn:ietf:params:jmap:core".to_string(), "urn:ietf:params:jmap:quota".to_string()]
    );
}

#[test]
fn request_add_capability_is_idempotent() {
    let mut request = Request::new("acc").account_id("other");
    assert_eq!(request.default_account_id(), "other");
    request.add_capability::<Blob>();
    request.add_capability::<Blob>();
    request.add_capability::<Core>();
    request.add_capability::<Quota>();
    assert_eq!(
        request.using,
        vec![
            "urn:ietf:params:jmap:core".to_string(),
            "urn:ietf:params:jmap:blob".to_string(),
            "urn:ietf:params:jmap:quota".to_string()
        ]
    );
}

#[test]
fn request_call_uses_method_name_and_capability() {
    let mut request = Request::new("acc");
    let handle = request.call::<BlobGetRequest>("{}".to_string());
    assert_eq!(handle.call_id, "s0");
    assert_eq!(handle.method_name, "Blob/get");
    assert_eq!(request.method_calls[0].name, "Blob/get");
    assert_eq!(request.using[1], "urn:ietf:params:jmap:blob");
}
