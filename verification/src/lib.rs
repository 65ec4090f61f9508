//! A small notification-sound library: preset lookup, request validation,
//! and rendering of results into a uniform JSON or human-readable envelope.

pub mod dispatch;
pub mod errors;
pub mod laws;
pub mod output;
pub mod request;
pub mod substr;
pub mod presets;
pub mod text;
