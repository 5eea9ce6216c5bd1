//! Blobs: the JMAP Blob Management methods (RFC 9404) and uploads.
pub mod manage;
pub mod upload;
