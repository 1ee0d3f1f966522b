//! Error vocabulary for a WebDriver-style remote-control protocol server.
//!
//! The library owns the closed set of protocol error kinds and the
//! deterministic projections from a kind to its status string, its numeric
//! transport status, and its serialized wire body.

pub mod error;
pub mod wire;

pub use error::ErrorStatus;
pub use error::WebDriverError;
pub use error::WebDriverResult;
