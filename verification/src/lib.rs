//! Adapter types for declaratively loading configuration values from
//! user-supplied locations.
//!
//! The base adapter is [`PathTo<T>`](fs::PathTo), which pairs a filesystem
//! path with a value decoded from the bytes found at that path, and
//! [`HttpGet<T>`](http::HttpGet) is its analogue for an HTTP GET endpoint.
//! The inner type must implement [`FromReader`](traits::FromReader), the
//! capability of constructing a value from a byte stream; implementations
//! are provided for `Vec<u8>`, `String`, and the format wrappers
//! [`JsonOf`](json::JsonOf), [`TomlOf`](toml_fmt::TomlOf) and
//! [`YamlOf`](yaml::YamlOf).
//!
//! A loaded value can be kept fresh by a background trigger — a watch on
//! the file, or a timer whose cadence a [`Time`](periodic::Time) marker
//! names at the type level. [`LiveValue<T>`](reload::LiveValue) is the
//! state such a trigger drives: the reload step that publishes every
//! successful decode and preserves the current value across failures, and
//! the [`Subscriber`](reload::Subscriber) handles that observe publishes
//! with lossy-latest semantics. The surrounding binary owns the triggers
//! and performs the file, network and timer work; every load decision is
//! made here, under contract.

/// Errors surfaced while locating, fetching or decoding a value
pub mod error;

/// Adapters for reading file contents from CLI paths
pub mod fs;

/// Adapter for loading contents from an HTTP GET endpoint
pub mod http;

/// Adapters for parsing JSON documents
pub mod json;

/// Period markers for timer-driven reloading
pub mod periodic;

/// The live-value state kept fresh by a background trigger
pub mod reload;

/// Adapters for parsing TOML documents
pub mod toml_fmt;

/// Traits for glueing adapters together
pub mod traits;

/// Adapters for parsing YAML documents
pub mod yaml;

pub use error::LoadError;
pub use fs::PathTo;
pub use http::HttpGet;
pub use json::JsonOf;
pub use periodic::{Hours, Minutes, Seconds, Time};
pub use reload::{LiveValue, StreamNext, Subscriber};
pub use toml_fmt::TomlOf;
pub use traits::FromReader;
pub use yaml::YamlOf;
