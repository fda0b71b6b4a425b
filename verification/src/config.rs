//! The configuration assembler: merges the resolvers' outputs and the
//! pass-through scalar options into one immutable configuration.

use vstd::prelude::*;
use vstd::string::StringExecFns;
use crate::color::{
    spec_minus_background_default,
    spec_minus_emph_background_default,
    spec_plus_background_default,
    spec_plus_emph_background_default,
    get_minus_background_color_default,
    get_minus_emph_background_color_default,
    get_plus_background_color_default,
    get_plus_emph_background_color_default,
    Color,
};
use crate::error::{ConfigError, TriStateOption};
use crate::mode::{
    DisplayMode,
    ThemeCatalogue,
    ThemeEntry,
    resolve_mode_and_theme,
    spec_selected_mode_and_theme,
    spec_theme_mode_mismatch,
};
use crate::pattern::{compile_tokenization_pattern, regex_pattern_valid};
use crate::strutil::opt_string_view;
use crate::style::{DecorationStyle, Style, spec_composed_style};
use crate::tristate::{
    PagingMode,
    resolve_paging_mode,
    resolve_true_color,
    spec_resolved_paging_mode,
    spec_resolved_true_color,
    spec_tristate_valid,
};
use crate::width::{Width, resolve_width, spec_resolved_width, spec_width_parses};

verus! {

/// The primitive option values this core consumes, already parsed out of
/// whatever command-line grammar the boundary layer uses.
#[derive(Clone, Debug, PartialEq, Eq)]
pub struct Opt {
    pub light: bool,
    pub dark: bool,
    pub syntax_theme: Option<String>,
    pub width: Option<String>,
    pub true_color: String,
    pub paging_mode: String,
    pub minus_style: String,
    pub minus_emph_style: String,
    pub minus_non_emph_style: String,
    pub zero_style: String,
    pub plus_style: String,
    pub plus_emph_style: String,
    pub plus_non_emph_style: String,
    pub commit_style: String,
    pub file_style: String,
    pub hunk_header_style: String,
    pub commit_decoration_style: String,
    pub file_decoration_style: String,
    pub hunk_header_decoration_style: String,
    pub deprecated_commit_color: Option<String>,
    pub deprecated_file_color: Option<String>,
    pub deprecated_hunk_color: Option<String>,
    pub number_minus_format: String,
    pub number_plus_format: String,
    pub number_minus_format_style: String,
    pub number_minus_style: String,
    pub number_plus_format_style: String,
    pub number_plus_style: String,
    pub tokenization_regex: String,
    pub file_added_label: String,
    pub file_modified_label: String,
    pub file_removed_label: String,
    pub file_renamed_label: String,
    pub tab_width: usize,
    pub navigate: bool,
    pub keep_plus_minus_markers: bool,
    pub show_background_colors: bool,
    pub show_line_numbers: bool,
    pub list_languages: bool,
    pub list_syntax_themes: bool,
    pub list_syntax_theme_names: bool,
    pub minus_file: Option<String>,
    pub plus_file: Option<String>,
}

/// The environment values resolution consults, read once by the boundary
/// layer and handed in as plain values.
#[derive(Clone, Debug, PartialEq, Eq)]
pub struct EnvValues {
    pub bat_theme: Option<String>,
    pub colorterm: Option<String>,
}

/// The view of an owned optional string.
pub open spec fn opt_owned_view(o: Option<String>) -> Option<Seq<char>> {
    match o {
        Some(s) => Some(s@),
        None => None,
    }
}

/// The semantic regions that the metadata style lookup serves.
#[derive(Clone, Copy, Debug, PartialEq, Eq, Structural)]
pub enum ElementKind {
    CommitMeta,
    FileMeta,
    HunkHeader,
}

/// The immutable resolved configuration.
#[derive(Debug)]
pub struct Config {
    pub background_color_extends_to_terminal_width: bool,
    pub commit_style: Style,
    pub decorations_width: Width,
    pub file_added_label: String,
    pub file_modified_label: String,
    pub file_removed_label: String,
    pub file_renamed_label: String,
    pub file_style: Style,
    pub hunk_header_style: Style,
    pub list_languages: bool,
    pub list_syntax_theme_names: bool,
    pub list_syntax_themes: bool,
    pub max_buffered_lines: usize,
    pub minus_emph_style: Style,
    pub minus_file: Option<String>,
    pub minus_line_marker: String,
    pub minus_non_emph_style: Style,
    pub minus_style: Style,
    pub navigate: bool,
    pub null_style: Style,
    pub number_minus_format: String,
    pub number_minus_format_style: Style,
    pub number_minus_style: Style,
    pub number_plus_format: String,
    pub number_plus_format_style: Style,
    pub number_plus_style: Style,
    pub paging_mode: PagingMode,
    pub plus_emph_style: Style,
    pub plus_file: Option<String>,
    pub plus_line_marker: String,
    pub plus_non_emph_style: Style,
    pub plus_style: Style,
    pub show_background_colors: bool,
    pub show_line_numbers: bool,
    pub syntax_theme_name: String,
    pub tab_width: usize,
    pub true_color: bool,
    pub tokenization_regex: regex::Regex,
    pub zero_style: Style,
}

/// The line marker for removed lines.
pub open spec fn spec_minus_marker(keep: bool) -> Seq<char> {
    if keep {
        "-"@
    } else {
        " "@
    }
}

/// The line marker for added lines.
pub open spec fn spec_plus_marker(keep: bool) -> Seq<char> {
    if keep {
        "+"@
    } else {
        " "@
    }
}

/// The two mode flags contradict each other.
pub open spec fn spec_conflict(opt: Opt) -> bool {
    opt.light && opt.dark
}

/// The explicit theme's classification contradicts the supplied flag.
pub open spec fn spec_mismatch(opt: Opt, cat: Seq<ThemeEntry>) -> bool {
    spec_theme_mode_mismatch(opt_owned_view(opt.syntax_theme), opt.light, opt.dark, cat)
}

pub open spec fn spec_paging_bad(opt: Opt) -> bool {
    !spec_tristate_valid(opt.paging_mode@)
}

pub open spec fn spec_true_color_bad(opt: Opt) -> bool {
    !spec_tristate_valid(opt.true_color@)
}

pub open spec fn spec_width_bad(opt: Opt) -> bool {
    match opt_owned_view(opt.width) {
        Some(s) => s != "variable"@ && !spec_width_parses(s),
        None => false,
    }
}

pub open spec fn spec_pattern_bad(opt: Opt) -> bool {
    !regex_pattern_valid(opt.tokenization_regex@)
}

/// The seven hunk styles that an option set, mode and true-color setting
/// resolve to, in order: minus, minus-emph, minus-non-emph, zero, plus,
/// plus-emph, plus-non-emph.  The two non-emphasized styles inherit their
/// unset channels from the already-resolved base styles.
pub open spec fn spec_hunk_styles(opt: Opt, is_light_mode: bool, true_color: bool) -> (
    Style,
    Style,
    Style,
    Style,
    Style,
    Style,
    Style,
) {
    let minus = spec_composed_style(
        opt.minus_style@,
        None,
        Some(spec_minus_background_default(is_light_mode, true_color)),
        None,
        None,
        true_color,
        false,
    );
    let minus_emph = spec_composed_style(
        opt.minus_emph_style@,
        None,
        Some(spec_minus_emph_background_default(is_light_mode, true_color)),
        None,
        None,
        true_color,
        true,
    );
    let minus_non_emph = spec_composed_style(
        opt.minus_non_emph_style@,
        minus.foreground,
        minus.background,
        None,
        None,
        true_color,
        false,
    );
    let zero = spec_composed_style(opt.zero_style@, None, None, None, None, true_color, false);
    let plus = spec_composed_style(
        opt.plus_style@,
        None,
        Some(spec_plus_background_default(is_light_mode, true_color)),
        None,
        None,
        true_color,
        false,
    );
    let plus_emph = spec_composed_style(
        opt.plus_emph_style@,
        None,
        Some(spec_plus_emph_background_default(is_light_mode, true_color)),
        None,
        None,
        true_color,
        true,
    );
    let plus_non_emph = spec_composed_style(
        opt.plus_non_emph_style@,
        plus.foreground,
        plus.background,
        None,
        None,
        true_color,
        false,
    );
    (minus, minus_emph, minus_non_emph, zero, plus, plus_emph, plus_non_emph)
}

/// Resolves the hunk-content styles.  The non-emphasized variants are
/// resolved after their base styles and inherit the base styles'
/// already-resolved channels where their own specification is silent.
pub fn make_hunk_styles(opt: &Opt, is_light_mode: bool, true_color: bool) -> (r: (
    Style,
    Style,
    Style,
    Style,
    Style,
    Style,
    Style,
))
    ensures
        r == spec_hunk_styles(*opt, is_light_mode, true_color),
{
    let minus_style = Style::from_str(
        opt.minus_style.as_str(),
        None,
        Some(get_minus_background_color_default(is_light_mode, true_color)),
        None,
        true_color,
        false,
    );
    let minus_emph_style = Style::from_str(
        opt.minus_emph_style.as_str(),
        None,
        Some(get_minus_emph_background_color_default(is_light_mode, true_color)),
        None,
        true_color,
        true,
    );
    let minus_non_emph_style = Style::from_str(
        opt.minus_non_emph_style.as_str(),
        minus_style.foreground,
        minus_style.background,
        None,
        true_color,
        false,
    );
    let zero_style = Style::from_str(opt.zero_style.as_str(), None, None, None, true_color, false);
    let plus_style = Style::from_str(
        opt.plus_style.as_str(),
        None,
        Some(get_plus_background_color_default(is_light_mode, true_color)),
        None,
        true_color,
        false,
    );
    let plus_emph_style = Style::from_str(
        opt.plus_emph_style.as_str(),
        None,
        Some(get_plus_emph_background_color_default(is_light_mode, true_color)),
        None,
        true_color,
        true,
    );
    let plus_non_emph_style = Style::from_str(
        opt.plus_non_emph_style.as_str(),
        plus_style.foreground,
        plus_style.background,
        None,
        true_color,
        false,
    );
    (
        minus_style,
        minus_emph_style,
        minus_non_emph_style,
        zero_style,
        plus_style,
        plus_emph_style,
        plus_non_emph_style,
    )
}

/// The channels a hunk-header decoration provides as line-number defaults.
pub open spec fn spec_decoration_channels(d: Option<DecorationStyle>) -> (
    Option<Color>,
    Option<Color>,
) {
    match d {
        Some(ds) => (ds.foreground, ds.background),
        None => (None, None),
    }
}

/// The four line-number styles, in order: minus-format, minus,
/// plus-format, plus.
pub open spec fn spec_line_number_styles(
    opt: Opt,
    decoration: Option<DecorationStyle>,
    true_color: bool,
) -> (Style, Style, Style, Style) {
    let channels = spec_decoration_channels(decoration);
    (
        spec_composed_style(
            opt.number_minus_format_style@,
            channels.0,
            channels.1,
            None,
            None,
            true_color,
            false,
        ),
        spec_composed_style(
            opt.number_minus_style@,
            channels.0,
            channels.1,
            None,
            None,
            true_color,
            false,
        ),
        spec_composed_style(
            opt.number_plus_format_style@,
            channels.0,
            channels.1,
            None,
            None,
            true_color,
            false,
        ),
        spec_composed_style(
            opt.number_plus_style@,
            channels.0,
            channels.1,
            None,
            None,
            true_color,
            false,
        ),
    )
}

/// Resolves the line-number styles; their unset channels default to the
/// hunk-header style's decoration channels.
pub fn make_line_number_styles(
    opt: &Opt,
    decoration: Option<DecorationStyle>,
    true_color: bool,
) -> (r: (Style, Style, Style, Style))
    ensures
        r == spec_line_number_styles(*opt, decoration, true_color),
{
    let (default_foreground, default_background): (Option<Color>, Option<Color>) = match decoration {
        Some(ds) => (ds.foreground, ds.background),
        None => (None, None),
    };
    let number_minus_format_style = Style::from_str(
        opt.number_minus_format_style.as_str(),
        default_foreground,
        default_background,
        None,
        true_color,
        false,
    );
    let number_minus_style = Style::from_str(
        opt.number_minus_style.as_str(),
        default_foreground,
        default_background,
        None,
        true_color,
        false,
    );
    let number_plus_format_style = Style::from_str(
        opt.number_plus_format_style.as_str(),
        default_foreground,
        default_background,
        None,
        true_color,
        false,
    );
    let number_plus_style = Style::from_str(
        opt.number_plus_style.as_str(),
        default_foreground,
        default_background,
        None,
        true_color,
        false,
    );
    (number_minus_format_style, number_minus_style, number_plus_format_style, number_plus_style)
}

/// The three metadata styles, in order: commit, file, hunk-header.
pub open spec fn spec_commit_file_hunk_header_styles(opt: Opt, true_color: bool) -> (
    Style,
    Style,
    Style,
) {
    (
        spec_composed_style(
            opt.commit_style@,
            None,
            None,
            Some(opt.commit_decoration_style@),
            opt_owned_view(opt.deprecated_commit_color),
            true_color,
            false,
        ),
        spec_composed_style(
            opt.file_style@,
            None,
            None,
            Some(opt.file_decoration_style@),
            opt_owned_view(opt.deprecated_file_color),
            true_color,
            false,
        ),
        spec_composed_style(
            opt.hunk_header_style@,
            None,
            None,
            Some(opt.hunk_header_decoration_style@),
            opt_owned_view(opt.deprecated_hunk_color),
            true_color,
            false,
        ),
    )
}

/// Resolves the three metadata styles; each takes a decoration-only
/// specification and honours a deprecated single-color override between an
/// explicit foreground and the (empty) computed default.
pub fn make_commit_file_hunk_header_styles(opt: &Opt, true_color: bool) -> (r: (
    Style,
    Style,
    Style,
))
    ensures
        r == spec_commit_file_hunk_header_styles(*opt, true_color),
{
    let commit_style = Style::from_str_with_decoration_and_deprecated_foreground(
        opt.commit_style.as_str(),
        None,
        None,
        Some(opt.commit_decoration_style.as_str()),
        match &opt.deprecated_commit_color {
            Some(c) => Some(c.as_str()),
            None => None,
        },
        true_color,
        false,
    );
    let file_style = Style::from_str_with_decoration_and_deprecated_foreground(
        opt.file_style.as_str(),
        None,
        None,
        Some(opt.file_decoration_style.as_str()),
        match &opt.deprecated_file_color {
            Some(c) => Some(c.as_str()),
            None => None,
        },
        true_color,
        false,
    );
    let hunk_header_style = Style::from_str_with_decoration_and_deprecated_foreground(
        opt.hunk_header_style.as_str(),
        None,
        None,
        Some(opt.hunk_header_decoration_style.as_str()),
        match &opt.deprecated_hunk_color {
            Some(c) => Some(c.as_str()),
            None => None,
        },
        true_color,
        false,
    );
    (commit_style, file_style, hunk_header_style)
}

/// Everything the resolved configuration promises about its fields, given
/// the inputs resolution consumed.
pub open spec fn spec_config_ok(
    opt: Opt,
    env: EnvValues,
    terminal_columns: usize,
    cat: Seq<ThemeEntry>,
    c: Config,
) -> bool {
    let tc = spec_resolved_true_color(opt.true_color@, opt_owned_view(env.colorterm));
    let mt = spec_selected_mode_and_theme(
        opt_owned_view(opt.syntax_theme),
        opt_owned_view(env.bat_theme),
        opt.light,
        cat,
    );
    let is_light = mt.0 == DisplayMode::Light;
    let wr = spec_resolved_width(opt_owned_view(opt.width), terminal_columns);
    let hunk = spec_hunk_styles(opt, is_light, tc);
    let meta = spec_commit_file_hunk_header_styles(opt, tc);
    let numbers = spec_line_number_styles(opt, meta.2.decoration, tc);
    {
        &&& c.true_color == tc
        &&& c.paging_mode == spec_resolved_paging_mode(opt.paging_mode@)
        &&& c.syntax_theme_name@ == mt.1
        &&& c.decorations_width == wr.0
        &&& c.background_color_extends_to_terminal_width == wr.1
        &&& c.minus_style == hunk.0
        &&& c.minus_emph_style == hunk.1
        &&& c.minus_non_emph_style == hunk.2
        &&& c.zero_style == hunk.3
        &&& c.plus_style == hunk.4
        &&& c.plus_emph_style == hunk.5
        &&& c.plus_non_emph_style == hunk.6
        &&& c.commit_style == meta.0
        &&& c.file_style == meta.1
        &&& c.hunk_header_style == meta.2
        &&& c.number_minus_format_style == numbers.0
        &&& c.number_minus_style == numbers.1
        &&& c.number_plus_format_style == numbers.2
        &&& c.number_plus_style == numbers.3
        &&& c.null_style == crate::style::spec_null_style()
        &&& c.minus_line_marker@ == spec_minus_marker(opt.keep_plus_minus_markers)
        &&& c.plus_line_marker@ == spec_plus_marker(opt.keep_plus_minus_markers)
        &&& c.max_buffered_lines == 32
        &&& c.file_added_label == opt.file_added_label
        &&& c.file_modified_label == opt.file_modified_label
        &&& c.file_removed_label == opt.file_removed_label
        &&& c.file_renamed_label == opt.file_renamed_label
        &&& c.number_minus_format == opt.number_minus_format
        &&& c.number_plus_format == opt.number_plus_format
        &&& c.tab_width == opt.tab_width
        &&& c.navigate == opt.navigate
        &&& c.show_background_colors == opt.show_background_colors
        &&& c.show_line_numbers == opt.show_line_numbers
        &&& c.list_languages == opt.list_languages
        &&& c.list_syntax_themes == opt.list_syntax_themes
        &&& c.list_syntax_theme_names == opt.list_syntax_theme_names
        &&& c.minus_file == opt.minus_file
        &&& c.plus_file == opt.plus_file
        &&& regex_pattern_valid(opt.tokenization_regex@)
    }
}

impl Config {
    /// Resolves the whole configuration from the primitive option values,
    /// the environment values, and the terminal's column count.
    ///
    /// The fatal conditions are reported in a fixed order: conflicting mode
    /// flags, theme/mode mismatch, bad paging value, bad true-color value,
    /// bad width, bad tokenization pattern.  Exactly when none holds a
    /// configuration is returned, every field pinned down by
    /// `spec_config_ok`.
    pub fn from_opt(
        opt: Opt,
        env: &EnvValues,
        terminal_columns: usize,
        catalogue: &ThemeCatalogue,
    ) -> (r: Result<Config, ConfigError>)
        requires
            terminal_columns >= 2,
        ensures
            (r matches Err(ConfigError::ConflictingModeFlags)) <==> spec_conflict(opt),
            (r matches Err(ConfigError::ThemeModeMismatch { .. })) <==> (!spec_conflict(opt)
                && spec_mismatch(opt, catalogue.entries@)),
            (r matches Err(ConfigError::InvalidEnumValue { option: TriStateOption::Paging, .. }))
                <==> (!spec_conflict(opt) && !spec_mismatch(opt, catalogue.entries@)
                && spec_paging_bad(opt)),
            (r matches Err(
                ConfigError::InvalidEnumValue { option: TriStateOption::TrueColor, .. },
            )) <==> (!spec_conflict(opt) && !spec_mismatch(opt, catalogue.entries@)
                && !spec_paging_bad(opt) && spec_true_color_bad(opt)),
            (r matches Err(ConfigError::InvalidWidth { .. })) <==> (!spec_conflict(opt)
                && !spec_mismatch(opt, catalogue.entries@) && !spec_paging_bad(opt)
                && !spec_true_color_bad(opt) && spec_width_bad(opt)),
            (r matches Err(ConfigError::InvalidPattern { .. })) <==> (!spec_conflict(opt)
                && !spec_mismatch(opt, catalogue.entries@) && !spec_paging_bad(opt)
                && !spec_true_color_bad(opt) && !spec_width_bad(opt) && spec_pattern_bad(opt)),
            (r matches Ok(c)) <==> (!spec_conflict(opt) && !spec_mismatch(opt, catalogue.entries@)
                && !spec_paging_bad(opt) && !spec_true_color_bad(opt) && !spec_width_bad(opt)
                && !spec_pattern_bad(opt)),
            r matches Ok(c) ==> spec_config_ok(opt, *env, terminal_columns, catalogue.entries@, c),
    {
        let explicit_ref: Option<&String> = match &opt.syntax_theme {
            Some(t) => Some(t),
            None => None,
        };
        let env_theme_ref: Option<&String> = match &env.bat_theme {
            Some(t) => Some(t),
            None => None,
        };
        proof {
            assert(opt_string_view(explicit_ref) == opt_owned_view(opt.syntax_theme));
            assert(opt_string_view(env_theme_ref) == opt_owned_view(env.bat_theme));
        }
        let mode_theme = resolve_mode_and_theme(
            explicit_ref,
            env_theme_ref,
            opt.light,
            opt.dark,
            catalogue,
        );
        let (display_mode, syntax_theme_name) = match mode_theme {
            Ok(p) => p,
            Err(e) => {
                return Err(e);
            },
        };
        let paging_mode = match resolve_paging_mode(opt.paging_mode.as_str()) {
            Ok(m) => m,
            Err(e) => {
                return Err(e);
            },
        };
        let true_color = match resolve_true_color(
            opt.true_color.as_str(),
            match &env.colorterm {
                Some(s) => Some(s),
                None => None,
            },
        ) {
            Ok(b) => b,
            Err(e) => {
                return Err(e);
            },
        };
        let width_result = resolve_width(
            match &opt.width {
                Some(w) => Some(w),
                None => None,
            },
            terminal_columns,
        );
        let (decorations_width, background_color_extends_to_terminal_width) = match width_result {
            Ok(p) => p,
            Err(e) => {
                return Err(e);
            },
        };
        let tokenization_regex = match compile_tokenization_pattern(
            opt.tokenization_regex.as_str(),
        ) {
            Ok(re) => re,
            Err(e) => {
                return Err(e);
            },
        };
        let is_light_mode = display_mode == DisplayMode::Light;
        let (
            minus_style,
            minus_emph_style,
            minus_non_emph_style,
            zero_style,
            plus_style,
            plus_emph_style,
            plus_non_emph_style,
        ) = make_hunk_styles(&opt, is_light_mode, true_color);
        let (commit_style, file_style, hunk_header_style) = make_commit_file_hunk_header_styles(
            &opt,
            true_color,
        );
        let (
            number_minus_format_style,
            number_minus_style,
            number_plus_format_style,
            number_plus_style,
        ) = make_line_number_styles(&opt, hunk_header_style.decoration, true_color);
        let minus_line_marker = if opt.keep_plus_minus_markers {
            String::from_str("-")
        } else {
            String::from_str(" ")
        };
        let plus_line_marker = if opt.keep_plus_minus_markers {
            String::from_str("+")
        } else {
            String::from_str(" ")
        };
        Ok(
            Config {
                background_color_extends_to_terminal_width,
                commit_style,
                decorations_width,
                file_added_label: opt.file_added_label,
                file_modified_label: opt.file_modified_label,
                file_removed_label: opt.file_removed_label,
                file_renamed_label: opt.file_renamed_label,
                file_style,
                hunk_header_style,
                list_languages: opt.list_languages,
                list_syntax_theme_names: opt.list_syntax_theme_names,
                list_syntax_themes: opt.list_syntax_themes,
                max_buffered_lines: 32,
                minus_emph_style,
                minus_file: opt.minus_file,
                minus_line_marker,
                minus_non_emph_style,
                minus_style,
                navigate: opt.navigate,
                null_style: Style::new(),
                number_minus_format: opt.number_minus_format,
                number_minus_format_style,
                number_minus_style,
                number_plus_format: opt.number_plus_format,
                number_plus_format_style,
                number_plus_style,
                paging_mode,
                plus_emph_style,
                plus_file: opt.plus_file,
                plus_line_marker,
                plus_non_emph_style,
                plus_style,
                show_background_colors: opt.show_background_colors,
                show_line_numbers: opt.show_line_numbers,
                syntax_theme_name,
                tab_width: opt.tab_width,
                true_color,
                tokenization_regex,
                zero_style,
            },
        )
    }

    /// The style serving a semantic region; the region set is closed, so
    /// the mapping is total.
    pub fn get_style(&self, element: ElementKind) -> (r: &Style)
        ensures
            element == ElementKind::CommitMeta ==> r == self.commit_style,
            element == ElementKind::FileMeta ==> r == self.file_style,
            element == ElementKind::HunkHeader ==> r == self.hunk_header_style,
    {
        match element {
            ElementKind::CommitMeta => &self.commit_style,
            ElementKind::FileMeta => &self.file_style,
            ElementKind::HunkHeader => &self.hunk_header_style,
        }
    }
}

/// The navigation pattern derived from the resolved file-status labels.
pub fn make_navigate_regexp(config: &Config) -> (r: String)
    ensures
        r@ == "^(commit|"@ + config.file_modified_label@ + "|"@ + config.file_added_label@ + "|"@
            + config.file_removed_label@ + "|"@ + config.file_renamed_label@ + ")"@,
{
    let mut s = String::from_str("^(commit|");
    s.append(config.file_modified_label.as_str());
    s.append("|");
    s.append(config.file_added_label.as_str());
    s.append("|");
    s.append(config.file_removed_label.as_str());
    s.append("|");
    s.append(config.file_renamed_label.as_str());
    s.append(")");
    s
}

} // verus!
