//! Personal API gateway logic: a directory view over an object-storage
//! bucket, single-object retrieval with base64 transport encoding, the
//! dynamic-DNS request builder, and the small decisions behind the health,
//! version and login endpoints.
//!
//! Everything here is pure: the HTTP server, the storage client, LDAP and the
//! DNS provider live in the application around this crate, which hands the
//! functions below plain values and acts on what they return.

pub mod auth;
pub mod blob;
pub mod common;
pub mod errors;
pub mod index;
pub mod ip;
pub mod s3;
