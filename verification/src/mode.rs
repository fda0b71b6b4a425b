//! Display-mode and theme-name resolution: reconciles explicit flags, an
//! environment-provided theme name, and the theme catalogue's light/dark
//! classification.

use vstd::prelude::*;
use crate::error::ConfigError;
use crate::strutil::{opt_string_view, spec_lower_char, lower_char, str_eq};

verus! {

/// Whether default colors are chosen for a light or a dark terminal
/// background.
#[derive(Clone, Copy, Debug, PartialEq, Eq, Structural)]
pub enum DisplayMode {
    Light,
    Dark,
}

/// One catalogue entry: a theme name with its light/dark classification.
#[derive(Clone, Debug, PartialEq, Eq)]
pub struct ThemeEntry {
    pub name: String,
    pub classification: DisplayMode,
}

/// The persisted theme catalogue, reduced to what resolution reads of it:
/// which names exist and how each is classified.
#[derive(Clone, Debug, PartialEq, Eq)]
pub struct ThemeCatalogue {
    pub entries: Vec<ThemeEntry>,
}

/// The classification of the first catalogue entry carrying `name`, if any.
pub open spec fn spec_catalogue_lookup(entries: Seq<ThemeEntry>, name: Seq<char>) -> Option<
    DisplayMode,
>
    decreases entries.len(),
{
    if entries.len() == 0 {
        None
    } else if entries[0].name@ == name {
        Some(entries[0].classification)
    } else {
        spec_catalogue_lookup(entries.drop_first(), name)
    }
}

impl ThemeCatalogue {
    pub fn lookup(&self, name: &str) -> (r: Option<DisplayMode>)
        ensures
            r == spec_catalogue_lookup(self.entries@, name@),
    {
        let mut i: usize = 0;
        proof {
            assert(self.entries@.skip(0) =~= self.entries@);
        }
        while i < self.entries.len()
            invariant
                i <= self.entries@.len(),
                spec_catalogue_lookup(self.entries@.skip(i as int), name@)
                    == spec_catalogue_lookup(self.entries@, name@),
            decreases self.entries@.len() - i,
        {
            proof {
                assert(self.entries@.skip(i as int).drop_first() =~= self.entries@.skip(
                    i + 1,
                ));
            }
            if str_eq(self.entries[i].name.as_str(), name) {
                return Some(self.entries[i].classification);
            }
            i += 1;
        }
        None
    }
}

/// The sentinel theme name that disables syntax highlighting: the word
/// "none" in any capitalization.
pub open spec fn spec_is_no_highlight_name(s: Seq<char>) -> bool {
    &&& s.len() == 4
    &&& spec_lower_char(s[0]) == 'n'
    &&& spec_lower_char(s[1]) == 'o'
    &&& spec_lower_char(s[2]) == 'n'
    &&& spec_lower_char(s[3]) == 'e'
}

/// Whether a theme name denotes "no syntax highlighting".
pub fn is_no_syntax_highlighting_theme_name(name: &str) -> (r: bool)
    ensures
        r == spec_is_no_highlight_name(name@),
{
    let t = crate::strutil::chars_of(name);
    t.len() == 4 && lower_char(t[0]) == 'n' && lower_char(t[1]) == 'o' && lower_char(t[2]) == 'n'
        && lower_char(t[3]) == 'e'
}

/// The mode that the flags alone select: light wins where set, everything
/// else defaults to dark.
pub open spec fn spec_flag_mode(light: bool) -> DisplayMode {
    if light {
        DisplayMode::Light
    } else {
        DisplayMode::Dark
    }
}

/// The built-in default theme name for each mode.
pub open spec fn spec_default_theme_name(light: bool) -> Seq<char> {
    if light {
        "GitHub"@
    } else {
        "Monokai Extended"@
    }
}

pub fn default_theme_name(light: bool) -> (r: &'static str)
    ensures
        r@ == spec_default_theme_name(light),
{
    if light {
        "GitHub"
    } else {
        "Monokai Extended"
    }
}

/// An environment-provided theme name is taken only when it is nonempty and
/// is either the no-highlighting sentinel or a catalogue entry; anything
/// else is ignored.
pub open spec fn spec_env_theme_usable(env: Option<Seq<char>>, cat: Seq<ThemeEntry>) -> bool {
    match env {
        Some(e) => e.len() > 0 && (spec_is_no_highlight_name(e) || spec_catalogue_lookup(cat, e)
            is Some),
        None => false,
    }
}

/// Whether an explicit theme's catalogue classification contradicts the
/// supplied mode flag.
pub open spec fn spec_theme_mode_mismatch(
    explicit: Option<Seq<char>>,
    light: bool,
    dark: bool,
    cat: Seq<ThemeEntry>,
) -> bool {
    match explicit {
        Some(t) => !spec_is_no_highlight_name(t) && match spec_catalogue_lookup(cat, t) {
            Some(cls) => (cls == DisplayMode::Light && dark) || (cls == DisplayMode::Dark
                && light),
            None => false,
        },
        None => false,
    }
}

/// The mode and theme name selected once the two fatal conditions are ruled
/// out.
pub open spec fn spec_selected_mode_and_theme(
    explicit: Option<Seq<char>>,
    env: Option<Seq<char>>,
    light: bool,
    cat: Seq<ThemeEntry>,
) -> (DisplayMode, Seq<char>) {
    match explicit {
        Some(t) => if spec_is_no_highlight_name(t) {
            (spec_flag_mode(light), t)
        } else {
            match spec_catalogue_lookup(cat, t) {
                Some(cls) => (cls, t),
                None => (spec_flag_mode(light), t),
            }
        },
        None => if spec_env_theme_usable(env, cat) {
            let e = env->Some_0;
            let m = if light {
                DisplayMode::Light
            } else if spec_is_no_highlight_name(e) {
                DisplayMode::Dark
            } else {
                spec_catalogue_lookup(cat, e)->Some_0
            };
            (m, e)
        } else {
            (spec_flag_mode(light), spec_default_theme_name(light))
        },
    }
}

/// Determines the display mode and the syntax theme name.
///
/// Fatal conditions, in order of detection: both mode flags supplied; an
/// explicit catalogue theme whose classification contradicts the supplied
/// flag.  Otherwise an explicit name passes through unchanged (the
/// sentinel and unknown names take their mode from the flags, catalogue
/// names from their classification); without an explicit name a usable
/// environment-provided name is taken, and failing that the built-in
/// default for the flag-selected mode.
pub fn resolve_mode_and_theme(
    explicit_theme: Option<&String>,
    env_theme: Option<&String>,
    light: bool,
    dark: bool,
    catalogue: &ThemeCatalogue,
) -> (r: Result<(DisplayMode, String), ConfigError>)
    ensures
        (r matches Err(ConfigError::ConflictingModeFlags)) <==> (light && dark),
        (r matches Err(ConfigError::ThemeModeMismatch { .. })) <==> (!(light && dark)
            && spec_theme_mode_mismatch(
            opt_string_view(explicit_theme),
            light,
            dark,
            catalogue.entries@,
        )),
        r matches Err(ConfigError::ThemeModeMismatch { theme, theme_is_light }) ==> {
            &&& Some(theme@) == opt_string_view(explicit_theme)
            &&& theme_is_light == (spec_catalogue_lookup(catalogue.entries@, theme@) == Some(
                DisplayMode::Light,
            ))
        },
        (r matches Ok(p)) <==> (!(light && dark) && !spec_theme_mode_mismatch(
            opt_string_view(explicit_theme),
            light,
            dark,
            catalogue.entries@,
        )),
        r matches Ok(p) ==> {
            &&& p.0 == spec_selected_mode_and_theme(
                opt_string_view(explicit_theme),
                opt_string_view(env_theme),
                light,
                catalogue.entries@,
            ).0
            &&& p.1@ == spec_selected_mode_and_theme(
                opt_string_view(explicit_theme),
                opt_string_view(env_theme),
                light,
                catalogue.entries@,
            ).1
        },
{
    if light && dark {
        return Err(ConfigError::ConflictingModeFlags);
    }
    match explicit_theme {
        Some(t) => {
            if is_no_syntax_highlighting_theme_name(t.as_str()) {
                Ok((flag_mode(light), t.clone()))
            } else {
                match catalogue.lookup(t.as_str()) {
                    Some(cls) => {
                        if cls == DisplayMode::Light && dark {
                            Err(ConfigError::ThemeModeMismatch {
                                theme: t.clone(),
                                theme_is_light: true,
                            })
                        } else if cls == DisplayMode::Dark && light {
                            Err(ConfigError::ThemeModeMismatch {
                                theme: t.clone(),
                                theme_is_light: false,
                            })
                        } else {
                            Ok((cls, t.clone()))
                        }
                    },
                    None => Ok((flag_mode(light), t.clone())),
                }
            }
        },
        None => {
            let usable: bool = match env_theme {
                Some(e) => !e.as_str().is_empty() && (is_no_syntax_highlighting_theme_name(
                    e.as_str(),
                ) || catalogue.lookup(e.as_str()).is_some()),
                None => false,
            };
            match env_theme {
                Some(e) if usable => {
                    let m = if light {
                        DisplayMode::Light
                    } else if is_no_syntax_highlighting_theme_name(e.as_str()) {
                        DisplayMode::Dark
                    } else {
                        match catalogue.lookup(e.as_str()) {
                            Some(cls) => cls,
                            None => DisplayMode::Dark,
                        }
                    };
                    Ok((m, e.clone()))
                },
                _ => {
                    let name = default_theme_name(light);
                    Ok((flag_mode(light), String::from_str(name)))
                },
            }
        },
    }
}

/// Executable twin of `spec_flag_mode`.
fn flag_mode(light: bool) -> (r: DisplayMode)
    ensures
        r == spec_flag_mode(light),
{
    if light {
        DisplayMode::Light
    } else {
        DisplayMode::Dark
    }
}

/// Law: a catalogue theme classified light, selected explicitly and without
/// either mode flag, resolves to light mode with the name passed through.
/// (Names that spell the no-highlighting sentinel are excluded: the
/// sentinel never consults the catalogue.)
pub proof fn lemma_light_theme_selects_light_mode(
    name: Seq<char>,
    env: Option<Seq<char>>,
    cat: Seq<ThemeEntry>,
)
    requires
        spec_catalogue_lookup(cat, name) == Some(DisplayMode::Light),
        !spec_is_no_highlight_name(name),
    ensures
        !spec_theme_mode_mismatch(Some(name), false, false, cat),
        spec_selected_mode_and_theme(Some(name), env, false, cat) == (
            DisplayMode::Light,
            name,
        ),
{
}

/// Law: an explicit light-classified theme together with the dark flag is a
/// mismatch; together with the light flag alone it is not, and light mode
/// results.
pub proof fn lemma_light_theme_flag_interaction(
    name: Seq<char>,
    env: Option<Seq<char>>,
    cat: Seq<ThemeEntry>,
)
    requires
        spec_catalogue_lookup(cat, name) == Some(DisplayMode::Light),
        !spec_is_no_highlight_name(name),
    ensures
        spec_theme_mode_mismatch(Some(name), false, true, cat),
        !spec_theme_mode_mismatch(Some(name), true, false, cat),
        spec_selected_mode_and_theme(Some(name), env, true, cat) == (
            DisplayMode::Light,
            name,
        ),
{
}

/// Law: the environment-provided theme name plays no part when an explicit
/// theme name is supplied; any two environment values select the same
/// outcome.
pub proof fn lemma_env_theme_ignored_with_explicit_theme(
    name: Seq<char>,
    env1: Option<Seq<char>>,
    env2: Option<Seq<char>>,
    light: bool,
    cat: Seq<ThemeEntry>,
)
    ensures
        spec_selected_mode_and_theme(Some(name), env1, light, cat)
            == spec_selected_mode_and_theme(Some(name), env2, light, cat),
{
}

} // verus!
