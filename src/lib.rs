//! Request-handling core of a media-library HTTP server: typed parameter
//! extraction, the response envelope and its JSON text, the registry of opened
//! libraries, and the per-request dispatch decisions.

pub mod text;
pub mod ids;
pub mod json;
pub mod error;
pub mod message;
pub mod params;
pub mod registry;
pub mod content;
pub mod dispatch;
pub mod routes;
