# jmap_client

A JMAP (RFC 8620) client library whose logic is verified with Verus:
request batches and call handles, response extraction, session resources
and URL templates, and the object types of JMAP Calendars, Contacts,
Blob Management, Quotas and Principals.

## Layout

- `src/` — the verified library.
  - `jmap_core/` — requests, responses, sessions and URL templates,
    capabilities, three-state fields, ids, `/parse` responses.
  - `json.rs` — JSON values and maps with distinct member names, used for
    the open-ended JSCalendar and JSContact objects.
  - `calendar_event/`, `contact_card/`, `calendar.rs`, `address_book.rs`,
    `calendar_event_notification.rs`, `participant_identity.rs`,
    `principal.rs`, `quota.rs`, `blob/` — the data types and their builders.
  - `client.rs` — filling in the upload and event-source URL templates.
  - `event_source.rs` — push notifications: splitting the event-source
    byte stream into lines, reading lines into events, and the decision
    taken on each event (hand out a notification, skip, or end the stream).
  - `text.rs`, `assoc.rs` — string and association-list helpers.
- `tests/` — tests of the library.
- `app/` — the HTTP transport (`reqwest`), the JSON wire formats (`serde`)
  and the asynchronous client around the library, including the
  event-source push stream, which reads chunks and hands each line and
  event to the library.

Contracts are stated over spec functions and views; laws that relate
several operations are public proof functions named `law_*`.
