//! Multipart/form-data request bodies, with a verified encoder.
//!
//! The encoder owns a random boundary token and an append-only byte buffer;
//! it frames text fields and byte streams into the RFC 7578 wire format and
//! finally yields the finished body together with the matching
//! `Content-Type` header value. The body a builder produces is pinned down,
//! byte for byte, by the model in [`model`].

pub mod builder;
pub mod laws;
pub mod model;
pub mod paths;
pub mod trusted;

pub use builder::EncoderView;
pub use builder::MultipartBuilder;
pub use paths::mime_filename;
pub use paths::opt_filename;
