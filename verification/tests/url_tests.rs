use jmap_client::client::{event_source_url, join_types, upload_url, URLParameter};
use jmap_client::jmap_core::session::URLPart;
use jmap_client::{DataType, Error};

fn parse(url: &str) -> Vec<URLPart<URLParameter>> {
    match URLPart::<URLParameter>::parse(url) {
        Ok(parts) => parts,
        Err(_) => panic!("template refused: {}", url),
    }
}

fn describe(parts: &[URLPart<URLParameter>]) -> Vec<String> {
    parts
        .iter()
        .map(|p| match p {
            URLPart::Value(v) => format!("text:{}", v),
            URLPart::Parameter(param) => format!("param:{:?}", param),
            #[allow(unreachable_patterns)]
            _ => "other".to_string(),
        })
        .collect()
}

#[test]
fn template_splits_into_text_and_parameters() {
    let parts = parse("https://jmap.example.org/upload/{accountId}/");
    assert_eq!(
        describe(&parts),
        vec!["text:https://jmap.example.org/upload/", "param:AccountId", "text:/"]
    );
}

#[test]
fn template_with_every_download_parameter() {
    let parts = parse("https://x/download/{accountId}/{blobId}/{name}?accept={type}");
    assert_eq!(
        describe(&parts),
        vec![
            "text:https://x/download/",
            "param:AccountId",
            "text:/",
            "param:BlobId",
            "text:/",
            "param:Name",
            "text:?accept=",
            "param:Type",
        ]
    );
}

#[test]
fn empty_template_has_no_parts() {
    assert!(parse("").is_empty());
}

#[test]
fn brace_inside_parameter_starts_a_new_parameter() {
    let parts = parse("x{acc{accountId}y");
    assert_eq!(describe(&parts), vec!["text:x", "text:acc", "param:AccountId", "text:y"]);
}

#[test]
fn unknown_parameter_is_refused_with_its_name() {
    match URLPart::<URLParameter>::parse("https://x/{foo}/") {
        Ok(_) => panic!("expected an error"),
        Err(Error::Internal(m)) => assert_eq!(m, "Invalid parameter 'foo' in URL: https://x/{foo}/"),
        _ => panic!("unexpected error"),
    }
}

#[test]
fn unbalanced_templates_are_refused() {
    for url in ["https://x/{}", "https://x/}", "https://x/{accountId"] {
        match URLPart::<URLParameter>::parse(url) {
            Err(Error::Internal(m)) => assert_eq!(m, format!("Invalid URL: {}", url)),
            _ => panic!("unexpected error"),
        }
    }
}

#[test]
fn upload_url_fills_in_the_account() {
    let parts = parse("https://jmap.example.org/upload/{accountId}/");
    assert_eq!(upload_url(&parts, "A1"), "https://jmap.example.org/upload/A1/");
}

#[test]
fn upload_url_drops_other_parameters() {
    let parts = parse("https://x/{accountId}/{blobId}/end");
    assert_eq!(upload_url(&parts, "acc"), "https://x/acc//end");
}

#[test]
fn upload_url_of_plain_text_is_the_text() {
    let parts = parse("https://x/upload");
    assert_eq!(upload_url(&parts, "acc"), "https://x/upload");
}

#[test]
fn event_source_url_with_types_and_ping() {
    let parts = parse("https://x/es/?types={types}&closeafter={closeafter}&ping={ping}");
    let url = event_source_url(
        &parts,
        Some(vec![DataType::Email, DataType::CalendarEvent]),
        true,
        Some(300),
    );
    assert_eq!(url, "https://x/es/?types=Email,CalendarEvent&closeafter=state&ping=300");
}

#[test]
fn event_source_url_defaults() {
    let parts = parse("https://x/es/?types={types}&closeafter={closeafter}&ping={ping}");
    let url = event_source_url(&parts, None, false, None);
    assert_eq!(url, "https://x/es/?types=*&closeafter=no&ping=0");
}

#[test]
fn event_source_url_second_types_parameter_is_a_star() {
    let parts = parse("https://x/{types}/{types}");
    let url = event_source_url(&parts, Some(vec![DataType::Mailbox]), false, None);
    assert_eq!(url, "https://x/Mailbox/*");
}

#[test]
fn join_types_separates_with_commas() {
    assert_eq!(join_types(&vec![DataType::Email, DataType::Thread, DataType::Quota]), "Email,Thread,Quota");
    assert_eq!(join_types(&vec![]), "");
}
