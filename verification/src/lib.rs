//! Response-compression negotiation and encoding: decides whether an
//! outgoing HTTP response should be compressed and with which codec —
//! honoring the client's Accept-Encoding tokens, the configured media-type
//! exclusions, and an idempotency guard against double encoding — and
//! replaces the body with the encoded bytes.

pub mod accept;
pub mod codec;
pub mod decision;
pub mod media;
pub mod text;

pub use accept::EncodingChoice;
pub use decision::{CompressionConfig, Response};
pub use media::MediaType;
