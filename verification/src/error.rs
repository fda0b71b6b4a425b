//! Typed errors for every fatal condition the resolver can detect.  The
//! resolution core only reports these; a thin boundary layer decides how to
//! present a failure and terminate.

use vstd::prelude::*;

verus! {

/// Which tri-state option held an unrecognized value.
#[derive(Clone, Copy, Debug, PartialEq, Eq, Structural)]
pub enum TriStateOption {
    Paging,
    TrueColor,
}

/// A fatal misconfiguration detected during resolution.  Each variant carries
/// the offending input so the boundary layer can print a remediation hint.
#[derive(Clone, Debug, PartialEq, Eq)]
pub enum ConfigError {
    /// The light flag and the dark flag were both supplied.
    ConflictingModeFlags,
    /// An explicit theme's catalogue classification contradicts the supplied
    /// mode flag.  `theme_is_light` is the catalogue classification.
    ThemeModeMismatch { theme: String, theme_is_light: bool },
    /// A tri-state option held something other than always, never or auto.
    InvalidEnumValue { option: TriStateOption, value: String },
    /// The width option was neither the variable keyword nor a positive
    /// integer.
    InvalidWidth { value: String },
    /// The tokenization pattern is not a valid regular expression.
    InvalidPattern { pattern: String },
}

} // verus!
