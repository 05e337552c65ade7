//! A typed client for the Docker Engine HTTP API: request construction for the
//! network endpoints, option builders with their wire encodings, response
//! records, and the demultiplexer of the container attach stream.

pub mod docker;
pub mod error;
pub mod json;
pub mod network;
pub mod params;
pub mod tty;

pub use error::Error;
