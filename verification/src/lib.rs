//! Resolution of the effective runtime configuration of a terminal dashboard.
//!
//! Three layered sources — command-line arguments, a persisted configuration
//! document, and built-in defaults — are combined by a fixed precedence chain
//! into one immutable settings record. User-declared ignore lists are
//! compiled into executable pattern matchers, and persisted per-widget
//! search-state overrides are replayed where the global sources were silent.

pub mod args;
pub mod config;
pub mod constants;
pub mod error;
pub mod filter;
pub mod options;
pub mod resolve;
pub mod text;
pub mod widgets;
