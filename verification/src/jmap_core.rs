//! The protocol core: fields, identifiers, capabilities, sessions, requests
//! and responses.
pub mod capability;
pub mod field;
pub mod id;
pub mod method;
pub mod parse;
pub mod query;
pub mod request;
pub mod response;
pub mod session;
pub mod transport;
