//! A scan engine that exposes the endpoints of a weather HTTP API as read-only
//! tables: endpoint lookup, parameter extraction, request building, response
//! decoding into row sets, and row-by-row projection of requested columns.
//!
//! Floating values travel as the decimal text that the JSON document or the
//! host wrote them in; the host turns them back into numbers. The HTTP call
//! itself is the host's: a scan hands out its request and takes the answer.

pub mod decode;
pub mod endpoint;
pub mod error;
pub mod json;
pub mod params;
pub mod project;
pub mod request;
pub mod rowset;
pub mod scan;
pub mod schema;
pub mod text;
