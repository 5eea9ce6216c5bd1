//! Calendar events (JSCalendar, RFC 8984): the objects, their property
//! names, the arguments and filters of their methods, and parsing.
pub mod args;
pub mod event;
pub mod parse;
pub mod property;
pub mod query;

pub use args::{Alert, AlertAction, AlertTrigger, GetArguments, QueryArguments, RelativeTo, SetArguments};
pub use event::CalendarEvent;
pub use property::Property;
