//! Logical geospatial type and coordinate-reference identity of a data
//! column, resolved from Arrow-style schema metadata.
//!
//! Two cooperating resolvers:
//!
//! * the CRS resolver ([`crs`]) decodes a `"crs"` member of extension
//!   metadata — absent, null, a bare authority-code string, or a structured
//!   definition object — into one canonical identity with lazy, fallible
//!   projections (authority code, SRID, canonical JSON, engine string,
//!   display string);
//! * the logical-type resolver ([`schema`]) classifies a schema field into a
//!   scalar, geometry, or geography type, delegating CRS decoding to the
//!   first.
//!
//! JSON text crosses into the crate through the trusted serde_json boundary
//! in [`json`]; everything past that boundary is verified against the spec
//! functions that the public contracts share, and the laws relating them are
//! proved in [`laws`].

pub mod crs;
pub mod engine;
pub mod json;
pub mod laws;
pub mod schema;
pub mod strings;
