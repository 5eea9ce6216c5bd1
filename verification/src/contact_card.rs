//! Contact cards (JSContact, RFC 9553): the objects, their property names
//! and their queries.
pub mod card;
pub mod property;
pub mod query;

pub use card::ContactCard;
pub use property::Property;
