use jmap_client::address_book::AddressBook;
use jmap_client::jmap_core::field::Field;
use jmap_client::jmap_core::parse::ParseResponse;
use jmap_client::jmap_core::id::Id;
use jmap_client::jmap_core::session::{
    capability_kind, Account, Capabilities, CapabilityKind, CoreCapabilities, Session, SieveCapabilities,
};
use jmap_client::json::JsonValue;
use jmap_client::participant_identity::ParticipantIdentity;
use jmap_client::principal::Principal;
use jmap_client::quota::Quota;
use jmap_client::text::{parse_decimal, usize_to_decimal};
use jmap_client::{DataType, Draft, Get};

#[test]
fn decimal_rendering() {
    assert_eq!(usize_to_decimal(0), "0");
    assert_eq!(usize_to_decimal(7), "7");
    assert_eq!(usize_to_decimal(10), "10");
    assert_eq!(usize_to_decimal(1234567890), "1234567890");
}

#[test]
fn decimal_parsing_with_a_bound() {
    assert_eq!(parse_decimal("0", 10), Some(0));
    assert_eq!(parse_decimal("255", 255), Some(255));
    assert_eq!(parse_decimal("256", 255), None);
    assert_eq!(parse_decimal("007", 255), Some(7));
    assert_eq!(parse_decimal("", 255), None);
    assert_eq!(parse_decimal("-1", 255), None);
    assert_eq!(parse_decimal("1e3", 5000), None);
    assert_eq!(parse_decimal("18446744073709551615", u64::MAX), Some(u64::MAX));
    assert_eq!(parse_decimal("18446744073709551616", u64::MAX), None);
    assert_eq!(parse_decimal("99999999999999999999999", u64::MAX), None);
}

#[test]
fn capability_kinds_by_uri() {
    assert!(matches!(capability_kind("urn:ietf:params:jmap:core"), CapabilityKind::Core));
    assert!(matches!(capability_kind("urn:ietf:params:jmap:websocket"), CapabilityKind::WebSocket));
    assert!(matches!(capability_kind("urn:ietf:params:jmap:sieve"), CapabilityKind::Sieve));
    assert!(matches!(capability_kind("urn:ietf:params:jmap:blob"), CapabilityKind::Blob));
    assert!(matches!(capability_kind("urn:ietf:params:jmap:calendars"), CapabilityKind::Calendars));
    assert!(matches!(capability_kind("urn:ietf:params:jmap:contacts"), CapabilityKind::Contacts));
    assert!(matches!(capability_kind("urn:ietf:params:jmap:quota"), CapabilityKind::Quota));
    assert!(matches!(capability_kind("urn:example:custom"), CapabilityKind::Other));
}

#[test]
fn field_states() {
    let omitted: Field<u32> = Field::default();
    assert!(omitted.is_omitted());
    assert!(!omitted.is_null());
    assert_eq!(omitted.as_option(), None);
    let null: Field<u32> = Field::Null;
    assert!(null.is_null());
    assert_eq!(null.as_option(), Some(None));
    assert_eq!(null.as_value(), None);
    let value = Field::Value(5u32);
    assert_eq!(value.as_value(), Some(&5));
    assert_eq!(value.as_option(), Some(Some(&5)));
    assert_eq!(value.map(|v| v * 2), Field::Value(10));
}

#[test]
fn ids_keep_their_text() {
    let a: Id<DataType> = Id::new("M1");
    let b = a.clone();
    assert_eq!(a.as_str(), "M1");
    assert!(a == b);
    assert_eq!(b.into_string(), "M1");
}

#[test]
fn principal_alias_patches() {
    let mut p = Principal::<Draft>::new(None);
    p.alias("a@example.org", true).member("m1", false);
    p.alias("a@example.org", false);
    let patch = p.property_patch.unwrap();
    assert_eq!(patch.len(), 2);
    assert_eq!(patch[0], ("aliases/a@example.org".to_string(), false));
    assert_eq!(patch[1], ("members/m1".to_string(), false));
}

#[test]
fn quota_limits_read_through_fields() {
    let d = Quota::<Draft>::new(None);
    assert_eq!(d.create_id(), None);
    let q: Quota<Get> = Quota {
        _create_id: None,
        _state: std::marker::PhantomData,
        id: Some("q1".to_string()),
        resource_type: Some("octets".to_string()),
        used: Some(10),
        hard_limit: Some(100),
        scope: Some("account".to_string()),
        name: Some("storage".to_string()),
        types: None,
        warn_limit: Field::Value(80),
        soft_limit: d.soft_limit,
        description: Field::Null,
    };
    assert_eq!(q.id(), Some("q1"));
    assert_eq!(q.used(), Some(10));
    assert_eq!(q.hard_limit(), Some(100));
    assert_eq!(q.warn_limit(), Some(80));
    assert_eq!(q.soft_limit(), None);
    assert_eq!(q.description(), None);
    assert!(q.description_field().is_null());
}

#[test]
fn data_type_names() {
    assert_eq!(DataType::CalendarEvent.as_str(), "CalendarEvent");
    assert_eq!(DataType::Email.as_str(), "Email");
    assert_eq!(DataType::Quota.as_str(), "Quota");
}

#[test]
fn new_participant_identity_has_an_empty_send_to_map() {
    let identity = ParticipantIdentity::<Draft>::new(Some(1));
    assert_eq!(identity.create_id(), Some("c1".to_string()));
    let send_to = identity.send_to.unwrap();
    assert!(send_to.is_empty());
    assert_eq!(send_to.len(), 0);
}

fn sample_session() -> Session {
    let core = CoreCapabilities { max_size_upload: 50_000_000, max_calls_in_request: 16, ..Default::default() };
    Session {
        capabilities: vec![
            ("urn:ietf:params:jmap:core".to_string(), Capabilities::Core(core)),
            ("urn:ietf:params:jmap:sieve".to_string(), Capabilities::Sieve(SieveCapabilities::default())),
            ("urn:example:vendor".to_string(), Capabilities::Other(JsonValue::Null)),
        ],
        accounts: vec![(
            "A1".to_string(),
            Account { name: "john".to_string(), is_personal: true, is_read_only: false, account_capabilities: vec![] },
        )],
        primary_accounts: vec![("urn:ietf:params:jmap:core".to_string(), "A1".to_string())],
        username: "john@example.org".to_string(),
        api_url: "https://x/api".to_string(),
        download_url: "https://x/download/{accountId}/{blobId}/{name}?accept={type}".to_string(),
        upload_url: "https://x/upload/{accountId}/".to_string(),
        event_source_url: "https://x/es?types={types}&closeafter={closeafter}&ping={ping}".to_string(),
        state: "st1".to_string(),
    }
}

#[test]
fn session_capability_lookup() {
    let session = sample_session();
    assert_eq!(session.capabilities().len(), 3);
    assert!(session.has_capability("urn:ietf:params:jmap:sieve"));
    assert!(!session.has_capability("urn:ietf:params:jmap:blob"));
    let core = session.core_capabilities().unwrap();
    assert_eq!(core.max_size_upload(), 50_000_000);
    assert_eq!(core.max_calls_in_request(), 16);
    assert_eq!(session.sieve_capabilities().unwrap().max_script_name_size(), 512);
    assert!(session.blob_capabilities().is_none());
    assert!(session.websocket_capabilities().is_none());
    assert_eq!(session.accounts(), vec!["A1".to_string()]);
    assert_eq!(session.account("A1").unwrap().name(), "john");
    assert!(session.account("A2").is_none());
    assert_eq!(session.username(), "john@example.org");
    assert_eq!(session.state(), "st1");
}

#[test]
fn ids_convert_from_strings() {
    let s = "M7".to_string();
    let a: Id<DataType> = Id::from(s.clone());
    assert_eq!(a.as_str(), s);
    assert_eq!(a.to_string(), s);
    let r: &str = a.as_ref();
    assert_eq!(r, "M7");
    let b: Id<DataType> = Id::new(&s);
    assert!(a == b);
}

#[test]
fn take_id_leaves_the_other_fields() {
    let mut book: AddressBook<Get> = AddressBook {
        _create_id: None,
        _state: std::marker::PhantomData,
        id: Some("ab1".to_string()),
        name: Some("Friends".to_string()),
        description: Field::Null,
        sort_order: Some(3),
        is_default: Some(true),
        is_subscribed: None,
        share_with: Field::Omitted,
        my_rights: None,
    };
    assert_eq!(book.take_id(), "ab1");
    assert_eq!(book.take_id(), "");
    assert_eq!(book.name(), Some("Friends"));
    assert_eq!(book.sort_order, Some(3));
    assert_eq!(book.is_default, Some(true));
}

#[test]
fn mail_capabilities_are_kept_by_kind() {
    let mut session = sample_session();
    session
        .capabilities
        .push(("urn:ietf:params:jmap:mail".to_string(), Capabilities::Mail(JsonValue::Bool(true))));
    assert!(matches!(session.mail_capabilities(), Some(JsonValue::Bool(true))));
    assert!(session.submission_capabilities().is_none());
}

#[test]
fn a_parsed_blob_is_taken_once() {
    let mut response: ParseResponse<u8> = ParseResponse {
        account_id: "A".to_string(),
        parsed: Some(vec![("B1".to_string(), 1), ("B2".to_string(), 2)]),
        not_parsable: None,
        not_found: None,
    };
    assert_eq!(response.parsed("B2").unwrap(), 2);
    assert!(response.parsed("B2").is_err());
    assert_eq!(response.parsed("B1").unwrap(), 1);
}

#[test]
fn ids_convert_from_str_slices() {
    let a: Id<DataType> = Id::from("msg-123");
    assert_eq!(a.as_str(), "msg-123");
}

#[test]
fn default_account_prefers_the_core_primary_account() {
    let mut session = sample_session();
    assert_eq!(session.default_account_id(), Some("A1"));
    session.primary_accounts = vec![
        ("urn:ietf:params:jmap:mail".to_string(), "A2".to_string()),
        ("urn:ietf:params:jmap:core".to_string(), "A3".to_string()),
    ];
    assert_eq!(session.default_account_id(), Some("A3"));
    session.primary_accounts = vec![("urn:ietf:params:jmap:mail".to_string(), "A2".to_string())];
    assert_eq!(session.default_account_id(), Some("A2"));
    session.primary_accounts = vec![];
    assert_eq!(session.default_account_id(), Some("A1"));
    session.accounts = vec![];
    assert_eq!(session.default_account_id(), None);
}
