//! A byte-in, byte-out gateway that decodes a CVSS vector under one of the
//! protocol versions 2, 3 and 4 and answers with a CBOR envelope: either the
//! parsed score model or a one-entry map `{"error": message}`.

pub mod cbor;
pub mod cvss;
pub mod gateway;
pub mod laws;
