//! Encodings shared by the request and response bodies.

pub mod base64_field;
