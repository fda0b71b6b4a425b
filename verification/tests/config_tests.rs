use delta_config::color::{
    get_minus_background_color_default, get_minus_emph_background_color_default,
    get_plus_background_color_default, get_plus_emph_background_color_default, Color,
};
use delta_config::config::{
    make_commit_file_hunk_header_styles, make_hunk_styles, make_line_number_styles,
    make_navigate_regexp, Config, ElementKind, EnvValues, Opt,
};
use delta_config::error::{ConfigError, TriStateOption};
use delta_config::mode::{
    is_no_syntax_highlighting_theme_name, resolve_mode_and_theme, DisplayMode, ThemeCatalogue,
    ThemeEntry,
};
use delta_config::pattern::compile_tokenization_pattern;
use delta_config::style::Style;
use delta_config::tristate::{resolve_paging_mode, resolve_true_color, PagingMode};
use delta_config::width::{resolve_width, Width};

fn base_opt() -> Opt {
    Opt {
        light: false,
        dark: false,
        syntax_theme: None,
        width: None,
        true_color: String::from("auto"),
        paging_mode: String::from("auto"),
        minus_style: String::from(""),
        minus_emph_style: String::from(""),
        minus_non_emph_style: String::from(""),
        zero_style: String::from(""),
        plus_style: String::from(""),
        plus_emph_style: String::from(""),
        plus_non_emph_style: String::from(""),
        commit_style: String::from(""),
        file_style: String::from(""),
        hunk_header_style: String::from(""),
        commit_decoration_style: String::from(""),
        file_decoration_style: String::from(""),
        hunk_header_decoration_style: String::from(""),
        deprecated_commit_color: None,
        deprecated_file_color: None,
        deprecated_hunk_color: None,
        number_minus_format: String::from("{nm:^4}"),
        number_plus_format: String::from("{np:^4}"),
        number_minus_format_style: String::from(""),
        number_minus_style: String::from(""),
        number_plus_format_style: String::from(""),
        number_plus_style: String::from(""),
        tokenization_regex: String::from(r"\w+"),
        file_added_label: String::from("added:"),
        file_modified_label: String::from("modified:"),
        file_removed_label: String::from("removed:"),
        file_renamed_label: String::from("renamed:"),
        tab_width: 4,
        navigate: false,
        keep_plus_minus_markers: false,
        show_background_colors: false,
        show_line_numbers: false,
        list_languages: false,
        list_syntax_themes: false,
        list_syntax_theme_names: false,
        minus_file: None,
        plus_file: None,
    }
}

fn catalogue() -> ThemeCatalogue {
    ThemeCatalogue {
        entries: vec![
            ThemeEntry {
                name: String::from("GitHub"),
                classification: DisplayMode::Light,
            },
            ThemeEntry {
                name: String::from("OneHalfLight"),
                classification: DisplayMode::Light,
            },
            ThemeEntry {
                name: String::from("1337"),
                classification: DisplayMode::Dark,
            },
            ThemeEntry {
                name: String::from("Monokai Extended"),
                classification: DisplayMode::Dark,
            },
        ],
    }
}

fn env_with_bat_theme(bat_theme: Option<&str>) -> EnvValues {
    EnvValues {
        bat_theme: bat_theme.map(String::from),
        colorterm: None,
    }
}

#[test]
fn test_syntax_theme_selection() {
    #[derive(PartialEq)]
    enum Mode {
        Light,
        Dark,
    }
    for (syntax_theme, bat_theme_env_var, mode, expected_syntax_theme, expected_mode) in vec![
        (None, Some(""), None, "Monokai Extended", Mode::Dark),
        (Some("GitHub"), Some(""), None, "GitHub", Mode::Light),
        (Some("GitHub"), Some("1337"), None, "GitHub", Mode::Light),
        (None, Some("1337"), None, "1337", Mode::Dark),
        (None, None, None, "Monokai Extended", Mode::Dark),
        (None, Some(""), Some(Mode::Light), "GitHub", Mode::Light),
        (None, Some(""), Some(Mode::Dark), "Monokai Extended", Mode::Dark),
        (None, Some("<@@@@@>"), Some(Mode::Light), "GitHub", Mode::Light),
        (None, Some("GitHub"), Some(Mode::Light), "GitHub", Mode::Light),
        (Some("none"), Some(""), None, "none", Mode::Dark),
        (Some("None"), Some(""), Some(Mode::Light), "None", Mode::Light),
    ] {
        let mut opt = base_opt();
        opt.syntax_theme = syntax_theme.map(String::from);
        opt.true_color = String::from("always");
        match mode {
            Some(Mode::Light) => opt.light = true,
            Some(Mode::Dark) => opt.dark = true,
            None => {}
        }
        let env = env_with_bat_theme(bat_theme_env_var);
        let is_true_color = true;
        let config = Config::from_opt(opt, &env, 80, &catalogue()).unwrap();
        assert_eq!(config.syntax_theme_name, expected_syntax_theme);
        if is_no_syntax_highlighting_theme_name(expected_syntax_theme) {
            assert!(is_no_syntax_highlighting_theme_name(&config.syntax_theme_name));
        }
        assert_eq!(
            config.minus_style.background.unwrap(),
            get_minus_background_color_default(expected_mode == Mode::Light, is_true_color)
        );
        assert_eq!(
            config.minus_emph_style.background.unwrap(),
            get_minus_emph_background_color_default(expected_mode == Mode::Light, is_true_color)
        );
        assert_eq!(
            config.plus_style.background.unwrap(),
            get_plus_background_color_default(expected_mode == Mode::Light, is_true_color)
        );
        assert_eq!(
            config.plus_emph_style.background.unwrap(),
            get_plus_emph_background_color_default(expected_mode == Mode::Light, is_true_color)
        );
    }
}

#[test]
fn light_theme_without_flags_selects_light_mode() {
    let r = resolve_mode_and_theme(
        Some(&String::from("GitHub")),
        None,
        false,
        false,
        &catalogue(),
    );
    let (mode, theme) = r.unwrap();
    assert_eq!(mode, DisplayMode::Light);
    assert_eq!(theme, "GitHub");
}

#[test]
fn conflicting_mode_flags_are_fatal_whatever_else_is_given() {
    let mut opt = base_opt();
    opt.light = true;
    opt.dark = true;
    opt.syntax_theme = Some(String::from("GitHub"));
    opt.width = Some(String::from("bogus"));
    opt.paging_mode = String::from("bogus");
    opt.tokenization_regex = String::from("([");
    let r = Config::from_opt(opt, &env_with_bat_theme(None), 80, &catalogue());
    assert_eq!(r.unwrap_err(), ConfigError::ConflictingModeFlags);
}

#[test]
fn light_theme_with_dark_flag_is_fatal() {
    let mut opt = base_opt();
    opt.dark = true;
    opt.syntax_theme = Some(String::from("GitHub"));
    let r = Config::from_opt(opt, &env_with_bat_theme(None), 80, &catalogue());
    assert_eq!(
        r.unwrap_err(),
        ConfigError::ThemeModeMismatch {
            theme: String::from("GitHub"),
            theme_is_light: true,
        }
    );
}

#[test]
fn light_theme_with_light_flag_is_not_fatal() {
    let mut opt = base_opt();
    opt.light = true;
    opt.syntax_theme = Some(String::from("GitHub"));
    let config = Config::from_opt(opt, &env_with_bat_theme(None), 80, &catalogue()).unwrap();
    assert_eq!(config.syntax_theme_name, "GitHub");
}

#[test]
fn dark_theme_with_light_flag_is_fatal() {
    let r = resolve_mode_and_theme(
        Some(&String::from("1337")),
        None,
        true,
        false,
        &catalogue(),
    );
    assert_eq!(
        r.unwrap_err(),
        ConfigError::ThemeModeMismatch {
            theme: String::from("1337"),
            theme_is_light: false,
        }
    );
}

#[test]
fn unknown_theme_name_is_accepted_unchanged() {
    let r = resolve_mode_and_theme(
        Some(&String::from("NoSuchTheme")),
        None,
        false,
        true,
        &catalogue(),
    );
    let (mode, theme) = r.unwrap();
    assert_eq!(mode, DisplayMode::Dark);
    assert_eq!(theme, "NoSuchTheme");
}

#[test]
fn env_theme_is_ignored_when_explicit_theme_given() {
    let r = resolve_mode_and_theme(
        Some(&String::from("1337")),
        Some(&String::from("GitHub")),
        false,
        false,
        &catalogue(),
    );
    let (mode, theme) = r.unwrap();
    assert_eq!(mode, DisplayMode::Dark);
    assert_eq!(theme, "1337");
}

#[test]
fn no_syntax_highlighting_names() {
    assert!(is_no_syntax_highlighting_theme_name("none"));
    assert!(is_no_syntax_highlighting_theme_name("None"));
    assert!(is_no_syntax_highlighting_theme_name("NONE"));
    assert!(!is_no_syntax_highlighting_theme_name("nonesuch"));
    assert!(!is_no_syntax_highlighting_theme_name("GitHub"));
}

#[test]
fn catalogue_lookup_finds_classification() {
    let cat = catalogue();
    assert_eq!(cat.lookup("GitHub"), Some(DisplayMode::Light));
    assert_eq!(cat.lookup("1337"), Some(DisplayMode::Dark));
    assert_eq!(cat.lookup("no-such"), None);
}

#[test]
fn numeric_width_is_clamped_to_terminal_margin() {
    let mut opt = base_opt();
    opt.width = Some(String::from("500"));
    let config = Config::from_opt(opt, &env_with_bat_theme(None), 80, &catalogue()).unwrap();
    assert_eq!(config.decorations_width, Width::Fixed(79));
    assert!(config.background_color_extends_to_terminal_width);
}

#[test]
fn small_numeric_width_is_kept() {
    let r = resolve_width(Some(&String::from("42")), 80).unwrap();
    assert_eq!(r, (Width::Fixed(42), true));
}

#[test]
fn variable_width_disables_background_fill() {
    let r = resolve_width(Some(&String::from("variable")), 80).unwrap();
    assert_eq!(r, (Width::Variable, false));
}

#[test]
fn absent_width_takes_terminal_margin() {
    let r = resolve_width(None, 80).unwrap();
    assert_eq!(r, (Width::Fixed(79), true));
}

#[test]
fn unparsable_width_is_fatal() {
    let r = resolve_width(Some(&String::from("8x")), 80);
    assert_eq!(
        r.unwrap_err(),
        ConfigError::InvalidWidth {
            value: String::from("8x")
        }
    );
    let r0 = resolve_width(Some(&String::from("0")), 80);
    assert_eq!(
        r0.unwrap_err(),
        ConfigError::InvalidWidth {
            value: String::from("0")
        }
    );
}

#[test]
fn paging_mode_tristate() {
    assert_eq!(resolve_paging_mode("always").unwrap(), PagingMode::Always);
    assert_eq!(resolve_paging_mode("never").unwrap(), PagingMode::Never);
    assert_eq!(
        resolve_paging_mode("auto").unwrap(),
        PagingMode::QuitIfOneScreen
    );
    assert_eq!(
        resolve_paging_mode("sometimes").unwrap_err(),
        ConfigError::InvalidEnumValue {
            option: TriStateOption::Paging,
            value: String::from("sometimes"),
        }
    );
}

#[test]
fn true_color_tristate() {
    assert_eq!(resolve_true_color("always", None).unwrap(), true);
    assert_eq!(resolve_true_color("never", None).unwrap(), false);
    assert_eq!(resolve_true_color("auto", None).unwrap(), false);
    assert_eq!(
        resolve_true_color("auto", Some(&String::from("truecolor"))).unwrap(),
        true
    );
    assert_eq!(
        resolve_true_color("auto", Some(&String::from("24bit"))).unwrap(),
        true
    );
    assert_eq!(
        resolve_true_color("auto", Some(&String::from("8bit"))).unwrap(),
        false
    );
    assert_eq!(
        resolve_true_color("on", None).unwrap_err(),
        ConfigError::InvalidEnumValue {
            option: TriStateOption::TrueColor,
            value: String::from("on"),
        }
    );
}

#[test]
fn invalid_tokenization_pattern_never_yields_a_config() {
    let mut opt = base_opt();
    opt.tokenization_regex = String::from("([");
    let r = Config::from_opt(opt, &env_with_bat_theme(None), 80, &catalogue());
    assert_eq!(
        r.unwrap_err(),
        ConfigError::InvalidPattern {
            pattern: String::from("([")
        }
    );
}

#[test]
fn valid_tokenization_pattern_compiles_to_itself() {
    let re = compile_tokenization_pattern(r"\w+|[^\w]").unwrap();
    assert_eq!(re.as_str(), r"\w+|[^\w]");
    assert!(compile_tokenization_pattern("([").is_err());
}

#[test]
fn config_carries_compiled_pattern() {
    let config = Config::from_opt(base_opt(), &env_with_bat_theme(None), 80, &catalogue()).unwrap();
    assert_eq!(config.tokenization_regex.as_str(), r"\w+");
    assert!(config.tokenization_regex.is_match("word"));
}

#[test]
fn get_style_maps_each_element_kind() {
    let mut opt = base_opt();
    opt.commit_style = String::from("red");
    opt.file_style = String::from("green");
    opt.hunk_header_style = String::from("blue");
    let config = Config::from_opt(opt, &env_with_bat_theme(None), 80, &catalogue()).unwrap();
    assert_eq!(
        config.get_style(ElementKind::CommitMeta).foreground,
        Some(Color::Fixed(1))
    );
    assert_eq!(
        config.get_style(ElementKind::FileMeta).foreground,
        Some(Color::Fixed(2))
    );
    assert_eq!(
        config.get_style(ElementKind::HunkHeader).foreground,
        Some(Color::Fixed(4))
    );
}

#[test]
fn navigate_regexp_lists_the_labels() {
    let config = Config::from_opt(base_opt(), &env_with_bat_theme(None), 80, &catalogue()).unwrap();
    assert_eq!(
        make_navigate_regexp(&config),
        "^(commit|modified:|added:|removed:|renamed:)"
    );
}

#[test]
fn line_markers_follow_keep_flag() {
    let mut opt = base_opt();
    opt.keep_plus_minus_markers = true;
    let config = Config::from_opt(opt, &env_with_bat_theme(None), 80, &catalogue()).unwrap();
    assert_eq!(config.minus_line_marker, "-");
    assert_eq!(config.plus_line_marker, "+");
    let config2 =
        Config::from_opt(base_opt(), &env_with_bat_theme(None), 80, &catalogue()).unwrap();
    assert_eq!(config2.minus_line_marker, " ");
    assert_eq!(config2.plus_line_marker, " ");
    assert_eq!(config2.max_buffered_lines, 32);
    assert_eq!(config2.tab_width, 4);
}

#[test]
fn style_spec_explicit_colors_win() {
    let s = Style::from_str("red green bold", None, Some(Color::Fixed(7)), None, true, false);
    assert_eq!(s.foreground, Some(Color::Fixed(1)));
    assert_eq!(s.background, Some(Color::Fixed(2)));
    assert!(s.attrs.bold);
    assert!(!s.attrs.underline);
}

#[test]
fn style_spec_falls_back_to_defaults() {
    let s = Style::from_str(
        "bold",
        Some(Color::Fixed(3)),
        Some(Color::Fixed(7)),
        None,
        true,
        false,
    );
    assert_eq!(s.foreground, Some(Color::Fixed(3)));
    assert_eq!(s.background, Some(Color::Fixed(7)));
}

#[test]
fn style_spec_unrecognized_tokens_are_ignored() {
    let s = Style::from_str("sparkly 999 glitter", None, None, None, true, false);
    assert_eq!(s.foreground, None);
    assert_eq!(s.background, None);
    assert_eq!(s.attrs.bold, false);
}

#[test]
fn hex_color_is_quantized_without_true_color() {
    let truecolor = Style::from_str("#ff0000", None, None, None, true, false);
    assert_eq!(truecolor.foreground, Some(Color::Rgb(255, 0, 0)));
    let indexed = Style::from_str("#ff0000", None, None, None, false, false);
    assert_eq!(indexed.foreground, Some(Color::Fixed(16 + 36 * 5)));
}

#[test]
fn numeric_color_token_up_to_255() {
    let s = Style::from_str("255 256", None, None, None, true, false);
    assert_eq!(s.foreground, Some(Color::Fixed(255)));
    assert_eq!(s.background, None);
}

#[test]
fn non_emph_style_inherits_base_resolved_channels() {
    let mut opt = base_opt();
    opt.minus_style = String::from("yellow #112233");
    opt.minus_non_emph_style = String::from("ul");
    opt.plus_style = String::from(""); // takes the computed default background
    opt.plus_non_emph_style = String::from("");
    let (minus, _minus_emph, minus_non_emph, _zero, plus, _plus_emph, plus_non_emph) =
        make_hunk_styles(&opt, false, true);
    assert_eq!(minus.foreground, Some(Color::Fixed(3)));
    assert_eq!(minus.background, Some(Color::Rgb(0x11, 0x22, 0x33)));
    assert_eq!(minus_non_emph.foreground, minus.foreground);
    assert_eq!(minus_non_emph.background, minus.background);
    assert!(minus_non_emph.attrs.underline);
    assert_eq!(plus_non_emph.foreground, plus.foreground);
    assert_eq!(plus_non_emph.background, plus.background);
    assert_eq!(
        plus.background,
        Some(get_plus_background_color_default(false, true))
    );
}

#[test]
fn emph_styles_take_emph_defaults_and_flag() {
    let opt = base_opt();
    let (_minus, minus_emph, _mne, zero, _plus, plus_emph, _pne) = make_hunk_styles(&opt, true, false);
    assert!(minus_emph.is_emph);
    assert!(plus_emph.is_emph);
    assert_eq!(
        minus_emph.background,
        Some(get_minus_emph_background_color_default(true, false))
    );
    assert_eq!(zero.foreground, None);
    assert_eq!(zero.background, None);
}

#[test]
fn metadata_styles_honour_decoration_and_deprecated_color() {
    let mut opt = base_opt();
    opt.commit_style = String::from("");
    opt.deprecated_commit_color = Some(String::from("red"));
    opt.file_style = String::from("blue");
    opt.deprecated_file_color = Some(String::from("red"));
    opt.hunk_header_decoration_style = String::from("cyan box");
    let (commit, file, hunk_header) = make_commit_file_hunk_header_styles(&opt, true);
    // deprecated color fills an omitted foreground
    assert_eq!(commit.foreground, Some(Color::Fixed(1)));
    // an explicit foreground outranks the deprecated color
    assert_eq!(file.foreground, Some(Color::Fixed(4)));
    let deco = hunk_header.decoration.unwrap();
    assert!(deco.attrs.boxed);
    assert_eq!(deco.foreground, Some(Color::Fixed(6)));
}

#[test]
fn line_number_styles_default_to_decoration_channels() {
    let mut opt = base_opt();
    opt.hunk_header_decoration_style = String::from("magenta");
    opt.number_minus_style = String::from("red");
    let (_c, _f, hunk_header) = make_commit_file_hunk_header_styles(&opt, true);
    let (nmf, nm, npf, np) = make_line_number_styles(&opt, hunk_header.decoration, true);
    assert_eq!(nmf.foreground, Some(Color::Fixed(5)));
    assert_eq!(nm.foreground, Some(Color::Fixed(1)));
    assert_eq!(npf.foreground, Some(Color::Fixed(5)));
    assert_eq!(np.foreground, Some(Color::Fixed(5)));
}

#[test]
fn error_order_paging_before_true_color_and_width() {
    let mut opt = base_opt();
    opt.paging_mode = String::from("bogus");
    opt.true_color = String::from("bogus");
    opt.width = Some(String::from("bogus"));
    let r = Config::from_opt(opt, &env_with_bat_theme(None), 80, &catalogue());
    assert_eq!(
        r.unwrap_err(),
        ConfigError::InvalidEnumValue {
            option: TriStateOption::Paging,
            value: String::from("bogus"),
        }
    );
    let mut opt2 = base_opt();
    opt2.true_color = String::from("bogus");
    opt2.width = Some(String::from("bogus"));
    let r2 = Config::from_opt(opt2, &env_with_bat_theme(None), 80, &catalogue());
    assert_eq!(
        r2.unwrap_err(),
        ConfigError::InvalidEnumValue {
            option: TriStateOption::TrueColor,
            value: String::from("bogus"),
        }
    );
}

#[test]
fn default_scenario_yields_dark_defaults() {
    let config = Config::from_opt(base_opt(), &env_with_bat_theme(None), 80, &catalogue()).unwrap();
    assert_eq!(config.syntax_theme_name, "Monokai Extended");
    assert_eq!(config.true_color, false);
    assert_eq!(config.paging_mode, PagingMode::QuitIfOneScreen);
    assert_eq!(config.decorations_width, Width::Fixed(79));
    assert_eq!(
        config.minus_style.background,
        Some(get_minus_background_color_default(false, false))
    );
    assert_eq!(config.null_style.foreground, None);
    assert_eq!(config.null_style.background, None);
}

#[test]
fn narrowest_supported_terminal_yields_single_column() {
    let r = resolve_width(None, 2).unwrap();
    assert_eq!(r, (Width::Fixed(1), true));
    let clamped = resolve_width(Some(&String::from("10")), 2).unwrap();
    assert_eq!(clamped, (Width::Fixed(1), true));
}

#[test]
fn repeated_spaces_between_tokens_are_ignored() {
    let s = Style::from_str("  red   green ", None, None, None, true, false);
    assert_eq!(s.foreground, Some(Color::Fixed(1)));
    assert_eq!(s.background, Some(Color::Fixed(2)));
}
