//! Width and layout resolution, bounded by terminal geometry.

use vstd::prelude::*;
use crate::error::ConfigError;
use crate::strutil::{
    chars_of,
    decimal_val,
    lemma_decimal_val_nonneg,
    opt_string_view,
    parse_usize,
    spec_parse_usize,
    str_eq,
};

verus! {

/// The rendering width: a fixed column count or the width of the content.
#[derive(Clone, Copy, Debug, PartialEq, Eq, Structural)]
pub enum Width {
    Fixed(usize),
    Variable,
}

/// Whether a width option string parses as a positive integer; zero is not a
/// positive integer and is rejected like any other unparsable string.
pub open spec fn spec_width_parses(s: Seq<char>) -> bool {
    match spec_parse_usize(s) {
        Some(n) => n >= 1,
        None => false,
    }
}

/// The width and fill flag that a well-formed width option resolves to.
pub open spec fn spec_resolved_width(w: Option<Seq<char>>, terminal_columns: usize) -> (
    Width,
    bool,
) {
    match w {
        Some(s) => if s == "variable"@ {
            (Width::Variable, false)
        } else {
            let n = spec_parse_usize(s)->Some_0;
            (
                Width::Fixed(
                    if n <= terminal_columns - 1 {
                        n
                    } else {
                        (terminal_columns - 1) as usize
                    },
                ),
                true,
            )
        },
        None => (Width::Fixed((terminal_columns - 1) as usize), true),
    }
}

/// Resolves the rendering width and whether full-row background fill is
/// enabled.
///
/// The keyword `variable` disables fill; a positive integer is clamped to
/// one column less than the terminal width (the margin spares terminals
/// that reserve a status column); an absent option takes that margin width;
/// anything else is fatal.  A terminal of at least two columns is required
/// so that a fixed width is always positive.
pub fn resolve_width(width_arg: Option<&String>, terminal_columns: usize) -> (r: Result<
    (Width, bool),
    ConfigError,
>)
    requires
        terminal_columns >= 2,
    ensures
        (r matches Ok(p)) <==> (match opt_string_view(width_arg) {
            Some(s) => s == "variable"@ || spec_width_parses(s),
            None => true,
        }),
        (r matches Err(ConfigError::InvalidWidth { .. })) <==> (match opt_string_view(width_arg) {
            Some(s) => s != "variable"@ && !spec_width_parses(s),
            None => false,
        }),
        r matches Err(ConfigError::InvalidWidth { value }) ==> Some(value@) == opt_string_view(
            width_arg,
        ),
        r matches Ok(p) ==> p == spec_resolved_width(opt_string_view(width_arg), terminal_columns),
        r matches Ok(p) ==> (p.0 matches Width::Fixed(n) ==> 1 <= n <= terminal_columns - 1),
{
    match width_arg {
        Some(s) => {
            if str_eq(s.as_str(), "variable") {
                Ok((Width::Variable, false))
            } else {
                let cs = chars_of(s.as_str());
                match parse_usize(&cs) {
                    Some(n) => {
                        if n >= 1 {
                            proof {
                                lemma_decimal_val_nonneg(s@);
                            }
                            let limit = terminal_columns - 1;
                            let w = if n <= limit {
                                n
                            } else {
                                limit
                            };
                            Ok((Width::Fixed(w), true))
                        } else {
                            Err(ConfigError::InvalidWidth { value: s.clone() })
                        }
                    },
                    None => Err(ConfigError::InvalidWidth { value: s.clone() }),
                }
            }
        },
        None => Ok((Width::Fixed(terminal_columns - 1), true)),
    }
}

/// Law: a numeric width of at least the terminal's column count is clamped
/// to one column less than the terminal width; the `variable` keyword
/// disables full-row background fill.
pub proof fn lemma_width_clamped_and_variable(s: Seq<char>, terminal_columns: usize)
    requires
        terminal_columns >= 2,
        spec_width_parses(s),
        spec_parse_usize(s)->Some_0 >= terminal_columns,
        s != "variable"@,
    ensures
        spec_resolved_width(Some(s), terminal_columns).0 == Width::Fixed(
            (terminal_columns - 1) as usize,
        ),
        spec_resolved_width(Some("variable"@), terminal_columns) == (Width::Variable, false),
{
}

} // verus!
