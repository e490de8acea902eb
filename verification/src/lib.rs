//! A safe, verified accessor over byte buffers whose backing storage is owned
//! by a host runtime rather than by the caller.
//!
//! The host runtime is modeled as a table of tagged values ([`host::Host`]).
//! A [`buffer::Buffer`] is a typed handle over a buffer-kind value in that
//! table; it offers bounds-checked byte access, UTF-8-validated string views
//! backed by a verified validator ([`encoding`]), and a checked downcast from
//! a generic handle via the host's runtime type tag ([`value`]).

pub mod buffer;
pub mod encoding;
pub mod error;
pub mod host;
pub mod value;
