//! Derivation of OpenAPI parameters and request extraction for structs.
//!
//! A struct whose fields describe the parameters of an endpoint is read as plain
//! values ([`container::ToParameters`]), its attributes are resolved, and the code of
//! its trait implementations is written as a token stream.

pub mod attribute;
pub mod code;
pub mod container;
pub mod data;
pub mod error;
pub mod extract;
pub mod feature;
pub mod laws;
pub mod parameter;
pub mod text;
pub mod tokens;
