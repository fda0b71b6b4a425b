//! The two tri-state options, paging and true-color, and the environment
//! probe that `auto` true-color defers to.

use vstd::prelude::*;
use crate::error::{ConfigError, TriStateOption};
use crate::strutil::{opt_string_view, str_eq};
use vstd::string::StringExecFns;

verus! {

/// How output paging behaves.
#[derive(Clone, Copy, Debug, PartialEq, Eq, Structural)]
pub enum PagingMode {
    Always,
    Never,
    QuitIfOneScreen,
}

/// Whether a tri-state option string is one of always, never, auto.
pub open spec fn spec_tristate_valid(s: Seq<char>) -> bool {
    s == "always"@ || s == "never"@ || s == "auto"@
}

pub open spec fn spec_resolved_paging_mode(s: Seq<char>) -> PagingMode {
    if s == "always"@ {
        PagingMode::Always
    } else if s == "never"@ {
        PagingMode::Never
    } else {
        PagingMode::QuitIfOneScreen
    }
}

/// Resolves the paging-mode option; anything but always, never or auto is
/// fatal.
pub fn resolve_paging_mode(value: &str) -> (r: Result<PagingMode, ConfigError>)
    ensures
        (r matches Ok(m)) <==> spec_tristate_valid(value@),
        r matches Ok(m) ==> m == spec_resolved_paging_mode(value@),
        r matches Err(e) ==> (e matches ConfigError::InvalidEnumValue { option, value: v }
            && option == TriStateOption::Paging && v@ == value@),
{
    if str_eq(value, "always") {
        Ok(PagingMode::Always)
    } else if str_eq(value, "never") {
        Ok(PagingMode::Never)
    } else if str_eq(value, "auto") {
        Ok(PagingMode::QuitIfOneScreen)
    } else {
        Err(
            ConfigError::InvalidEnumValue {
                option: TriStateOption::Paging,
                value: String::from_str(value),
            },
        )
    }
}

/// Whether an environment capability value signals 24-bit color support:
/// exactly the two conventional signal values do.
pub open spec fn spec_truecolor_signal(colorterm: Option<Seq<char>>) -> bool {
    match colorterm {
        Some(s) => s == "truecolor"@ || s == "24bit"@,
        None => false,
    }
}

/// Probes the environment capability value for 24-bit color support.
pub fn is_truecolor_terminal(colorterm: Option<&String>) -> (r: bool)
    ensures
        r == spec_truecolor_signal(opt_string_view(colorterm)),
{
    match colorterm {
        Some(s) => str_eq(s.as_str(), "truecolor") || str_eq(s.as_str(), "24bit"),
        None => false,
    }
}

pub open spec fn spec_resolved_true_color(s: Seq<char>, colorterm: Option<Seq<char>>) -> bool {
    if s == "always"@ {
        true
    } else if s == "never"@ {
        false
    } else {
        spec_truecolor_signal(colorterm)
    }
}

/// Resolves the tri-state true-color option: always and never are
/// unconditional, auto defers to the environment capability signal, and
/// anything else is fatal.
pub fn resolve_true_color(value: &str, colorterm: Option<&String>) -> (r: Result<
    bool,
    ConfigError,
>)
    ensures
        (r matches Ok(b)) <==> spec_tristate_valid(value@),
        r matches Ok(b) ==> b == spec_resolved_true_color(value@, opt_string_view(colorterm)),
        r matches Err(e) ==> (e matches ConfigError::InvalidEnumValue { option, value: v }
            && option == TriStateOption::TrueColor && v@ == value@),
{
    if str_eq(value, "always") {
        Ok(true)
    } else if str_eq(value, "never") {
        Ok(false)
    } else if str_eq(value, "auto") {
        Ok(is_truecolor_terminal(colorterm))
    } else {
        Err(
            ConfigError::InvalidEnumValue {
                option: TriStateOption::TrueColor,
                value: String::from_str(value),
            },
        )
    }
}

} // verus!
