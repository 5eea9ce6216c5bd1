use jmap_client::calendar_event::event::CalendarEvent;
use jmap_client::calendar_event::property::Property;
use jmap_client::contact_card::card::ContactCard;
use jmap_client::contact_card::property::Property as CardProperty;
use jmap_client::json::{JsonMap, JsonValue};
use jmap_client::{Draft, Get};

fn as_get(event: CalendarEvent<Draft>) -> CalendarEvent<Get> {
    CalendarEvent { _create_id: None, _state: std::marker::PhantomData, properties: event.properties }
}

fn text(s: &str) -> JsonValue {
    JsonValue::String(s.to_string())
}

#[test]
fn json_map_insert_get_remove() {
    let mut m = JsonMap::new();
    assert_eq!(m.len(), 0);
    assert!(m.insert("a".to_string(), text("1")).is_none());
    assert!(m.insert("b".to_string(), text("2")).is_none());
    assert_eq!(m.len(), 2);
    match m.insert("a".to_string(), text("3")) {
        Some(JsonValue::String(s)) => assert_eq!(s, "1"),
        _ => panic!("expected the old value"),
    }
    assert_eq!(m.len(), 2);
    assert_eq!(m.get("a").unwrap().as_str(), Some("3"));
    assert!(m.contains_key("b"));
    assert!(m.remove("b").is_some());
    assert!(!m.contains_key("b"));
    assert!(m.remove("b").is_none());
    assert!(m.get("zzz").is_none());
    assert_eq!(m.len(), 1);
}

#[test]
fn event_create_id_is_c_and_number() {
    assert_eq!(CalendarEvent::<Draft>::new(Some(7)).create_id(), Some("c7".to_string()));
    assert_eq!(CalendarEvent::<Draft>::new(Some(12)).create_id(), Some("c12".to_string()));
    assert_eq!(CalendarEvent::<Draft>::new(None).create_id(), None);
}

#[test]
fn event_setters_are_read_back_by_getters() {
    let mut draft = CalendarEvent::<Draft>::new(Some(0));
    draft
        .uid("uid-1".to_string())
        .title("Standup".to_string())
        .description("Daily".to_string())
        .start("2024-01-01T09:00:00".to_string())
        .duration("PT15M".to_string())
        .time_zone(Some("Europe/Berlin".to_string()))
        .color(None)
        .show_without_time(false)
        .priority(5);
    let event = as_get(draft);
    assert_eq!(event.uid(), Some("uid-1"));
    assert_eq!(event.title(), Some("Standup"));
    assert_eq!(event.description(), Some("Daily"));
    assert_eq!(event.start(), Some("2024-01-01T09:00:00"));
    assert_eq!(event.duration(), Some("PT15M"));
    assert_eq!(event.time_zone(), Some(Some("Europe/Berlin")));
    assert_eq!(event.color(), Some(None));
    assert_eq!(event.locale(), None);
    assert_eq!(event.show_without_time(), Some(false));
    assert_eq!(event.priority(), Some(5));
    assert_eq!(event.id(), None);
}

#[test]
fn event_priority_and_sequence_read_numbers() {
    let mut props = JsonMap::new();
    props.insert("priority".to_string(), JsonValue::Number("255".to_string()));
    props.insert("sequence".to_string(), JsonValue::Number("4294967295".to_string()));
    let event: CalendarEvent<Get> = CalendarEvent { _create_id: None, _state: std::marker::PhantomData, properties: props };
    assert_eq!(event.priority(), Some(255));
    assert_eq!(event.sequence(), Some(4294967295));

    let mut props = JsonMap::new();
    props.insert("priority".to_string(), JsonValue::Number("256".to_string()));
    props.insert("sequence".to_string(), JsonValue::Number("1.5".to_string()));
    let event: CalendarEvent<Get> = CalendarEvent { _create_id: None, _state: std::marker::PhantomData, properties: props };
    assert_eq!(event.priority(), None);
    assert_eq!(event.sequence(), None);

    let mut props = JsonMap::new();
    props.insert("priority".to_string(), text("5"));
    props.insert("sequence".to_string(), JsonValue::Number("4294967296".to_string()));
    let event: CalendarEvent<Get> = CalendarEvent { _create_id: None, _state: std::marker::PhantomData, properties: props };
    assert_eq!(event.priority(), None);
    assert_eq!(event.sequence(), None);
}

#[test]
fn event_calendar_ids_set_and_unset() {
    let mut draft = CalendarEvent::<Draft>::new(None);
    draft.calendar_ids(vec!["cal1".to_string(), "cal2".to_string()]);
    draft.calendar_id("cal3".to_string(), true);
    draft.calendar_id("cal1".to_string(), false);
    let event = as_get(draft);
    let ids = event.calendar_ids().unwrap();
    assert!(matches!(ids.get("cal1"), Some(JsonValue::Null)));
    assert!(matches!(ids.get("cal2"), Some(JsonValue::Bool(true))));
    assert!(matches!(ids.get("cal3"), Some(JsonValue::Bool(true))));
    assert_eq!(ids.len(), 3);
}

#[test]
fn event_alerts_can_be_null() {
    let mut draft = CalendarEvent::<Draft>::new(None);
    draft.alerts(None);
    let event = as_get(draft);
    assert!(matches!(event.alerts(), Some(None)));

    let mut draft = CalendarEvent::<Draft>::new(None);
    let mut alerts = JsonMap::new();
    alerts.insert("a1".to_string(), JsonValue::Object(JsonMap::new()));
    draft.alerts(Some(alerts));
    let event = as_get(draft);
    assert_eq!(event.alerts().unwrap().unwrap().len(), 1);
}

#[test]
fn event_extension_properties_are_kept() {
    let mut draft = CalendarEvent::<Draft>::new(None);
    draft.set_property("example.com:custom".to_string(), text("x"));
    draft.title("T".to_string());
    let mut event = as_get(draft);
    assert_eq!(event.property("example.com:custom").unwrap().as_str(), Some("x"));
    assert_eq!(event.as_properties().len(), 2);
    event.properties.insert("id".to_string(), text("E1"));
    assert_eq!(event.take_id(), "E1");
    assert_eq!(event.id(), None);
    assert_eq!(event.take_id(), "");
}

#[test]
fn event_property_names_round_trip() {
    for p in [Property::Title, Property::CalendarIds, Property::RecurrenceRules, Property::UseDefaultAlerts] {
        assert_eq!(Property::from(p.as_str()), p);
    }
    assert_eq!(Property::Title.as_str(), "title");
    assert_eq!(Property::from("example.com:x"), Property::Other("example.com:x".to_string()));
}

#[test]
fn card_setters_are_read_back_by_getters() {
    let mut draft = ContactCard::<Draft>::new(Some(3));
    assert_eq!(draft.create_id(), Some("c3".to_string()));
    draft.uid("u1".to_string()).kind("individual".to_string());
    draft.address_book_ids(vec!["ab1".to_string()]);
    draft.address_book_id("ab2".to_string(), true);
    let card: ContactCard<Get> = ContactCard { _create_id: None, _state: std::marker::PhantomData, properties: draft.properties };
    assert_eq!(card.uid(), Some("u1"));
    assert_eq!(card.kind(), Some("individual"));
    assert_eq!(card.address_book_ids().unwrap().len(), 2);
    assert!(card.name().is_none());
    assert_eq!(CardProperty::from(CardProperty::Emails.as_str()), CardProperty::Emails);
}
