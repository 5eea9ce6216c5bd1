use jmap_client::blob::manage::{BlobUploadCreated, BlobUploadRequest, BlobUploadResponse};
use jmap_client::calendar_event::event::CalendarEvent;
use jmap_client::calendar_event::parse::CalendarEventParseResponse;
use jmap_client::jmap_core::parse::ParseResponse;
use jmap_client::json::JsonMap;
use jmap_client::Error;

fn created(id: &str) -> BlobUploadCreated {
    BlobUploadCreated { id: id.to_string(), type_: None, size: Some(4) }
}

#[test]
fn blob_create_ids_count_up_from_b0() {
    let mut request = BlobUploadRequest::new("A1");
    assert_eq!(request.create_from_text("hello".to_string(), None), "b0");
    assert_eq!(request.create_from_base64("aGk=".to_string(), Some("text/plain".to_string())), "b1");
    assert_eq!(request.create_from_text("again".to_string(), None), "b2");
    assert_eq!(request.create.len(), 3);
    assert_eq!(request.create[2].0, "b2");
    assert_eq!(request.account_id, "A1");
}

#[test]
fn blob_created_takes_the_entry_out() {
    let mut response = BlobUploadResponse {
        account_id: "A1".to_string(),
        created: Some(vec![("b0".to_string(), created("G1")), ("b1".to_string(), created("G2"))]),
        not_created: None,
    };
    assert_eq!(response.created_ids(), Some(vec!["b0".to_string(), "b1".to_string()]));
    assert_eq!(response.created("b1").unwrap().id, "G2");
    assert!(matches!(response.created("b1"), Err(Error::IdNotFound(id)) if id == "b1"));
    assert_eq!(response.created_ids(), Some(vec!["b0".to_string()]));
}

#[test]
fn blob_not_created_reports_the_server_error() {
    let mut response = BlobUploadResponse {
        account_id: "A1".to_string(),
        created: None,
        not_created: Some(vec![("b0".to_string(), "overQuota".to_string())]),
    };
    match response.created("b0") {
        Err(Error::NotParsable(m)) => assert_eq!(m, "Blob b0 not created: overQuota"),
        _ => panic!("expected NotParsable"),
    }
    assert!(matches!(response.created("b7"), Err(Error::IdNotFound(id)) if id == "b7"));
    assert_eq!(response.created_ids(), None);
}

#[test]
fn parse_response_errors_name_the_blob() {
    let mut response: ParseResponse<u32> = ParseResponse {
        account_id: "A1".to_string(),
        parsed: Some(vec![("B1".to_string(), 7)]),
        not_parsable: Some(vec!["B2".to_string()]),
        not_found: Some(vec!["B3".to_string()]),
    };
    assert_eq!(response.parsed("B1").unwrap(), 7);
    assert!(matches!(response.parsed("B1"), Err(Error::IdNotFound(id)) if id == "B1"));
    assert!(matches!(response.parsed("B2"), Err(Error::NotParsable(id)) if id == "B2"));
    assert!(matches!(response.parsed("B3"), Err(Error::IdNotFound(id)) if id == "B3"));
}

#[test]
fn calendar_event_parse_messages() {
    let mut response = CalendarEventParseResponse {
        account_id: "A1".to_string(),
        parsed: Some(vec![("B1".to_string(), vec![CalendarEvent { _create_id: None, _state: std::marker::PhantomData, properties: JsonMap::new() }])]),
        not_parsable: Some(vec!["B2".to_string()]),
        not_found: None,
    };
    assert_eq!(response.parsed("B1").unwrap().len(), 1);
    match response.parsed("B2") {
        Err(Error::Internal(m)) => assert_eq!(m, "blobId B2 is not parsable."),
        _ => panic!("expected Internal"),
    }
    match response.parsed("B9") {
        Err(Error::Internal(m)) => assert_eq!(m, "blobId B9 not found."),
        _ => panic!("expected Internal"),
    }
}
