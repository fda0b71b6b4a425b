//! Resolution of an immutable terminal-rendering configuration from
//! overlapping sources: explicit flags, environment-provided values, a theme
//! catalogue, and terminal geometry.  The core arbitrates precedence and
//! consistency across these sources and reports every misconfiguration as a
//! typed error; it never terminates the process itself.

pub mod error;
pub mod strutil;
pub mod mode;
pub mod color;
pub mod style;
pub mod width;
pub mod tristate;
pub mod pattern;
pub mod config;
