//! Style composition: parsing a style specification string into a resolved
//! style, with category-specific fallbacks for the channels the
//! specification leaves out.
//!
//! Parsing is deliberately permissive: a token is an attribute word, a
//! color, or ignored.  The first color token names the foreground, the
//! second the background.

use vstd::prelude::*;
use crate::color::{Color, spec_raw_color, spec_quantize, parse_color};
use crate::strutil::{chars_eq_str, chars_of, opt_str_view};

verus! {

/// The decoration attributes a style specification can switch on.
#[derive(Clone, Copy, Debug, PartialEq, Eq, Structural)]
pub struct AttrSet {
    pub bold: bool,
    pub dim: bool,
    pub italic: bool,
    pub underline: bool,
    pub boxed: bool,
    pub omit: bool,
}

impl AttrSet {
    /// No attribute set.
    pub fn none() -> (r: AttrSet)
        ensures
            r == spec_attrs_none(),
    {
        AttrSet {
            bold: false,
            dim: false,
            italic: false,
            underline: false,
            boxed: false,
            omit: false,
        }
    }
}

pub open spec fn spec_attrs_none() -> AttrSet {
    AttrSet { bold: false, dim: false, italic: false, underline: false, boxed: false, omit: false }
}

/// The decoration drawn around a region, parsed from a decoration-only
/// specification string.
#[derive(Clone, Copy, Debug, PartialEq, Eq, Structural)]
pub struct DecorationStyle {
    pub attrs: AttrSet,
    pub foreground: Option<Color>,
    pub background: Option<Color>,
}

/// A fully resolved style.  Once composed it never changes; its colors are
/// already quantized to the palette matching `true_color`.
#[derive(Clone, Copy, Debug, PartialEq, Eq, Structural)]
pub struct Style {
    pub foreground: Option<Color>,
    pub background: Option<Color>,
    pub attrs: AttrSet,
    pub is_emph: bool,
    pub true_color: bool,
    pub decoration: Option<DecorationStyle>,
}

/// What one specification string pins down explicitly.
#[derive(Clone, Copy, Debug, PartialEq, Eq, Structural)]
pub struct ParsedSpec {
    pub foreground: Option<Color>,
    pub background: Option<Color>,
    pub attrs: AttrSet,
}

pub open spec fn spec_parsed_empty() -> ParsedSpec {
    ParsedSpec { foreground: None, background: None, attrs: spec_attrs_none() }
}

/// The views of a vector of character-vector tokens.
pub open spec fn token_views(v: Seq<Vec<char>>) -> Seq<Seq<char>> {
    v.map_values(|t: Vec<char>| t@)
}

/// Splitting a specification string into space-separated tokens, carrying
/// the token under construction.
pub open spec fn spec_tokens_acc(s: Seq<char>, cur: Seq<char>) -> Seq<Seq<char>>
    decreases s.len(),
{
    if s.len() == 0 {
        if cur.len() == 0 {
            Seq::empty()
        } else {
            seq![cur]
        }
    } else if s[0] == ' ' {
        if cur.len() == 0 {
            spec_tokens_acc(s.drop_first(), Seq::empty())
        } else {
            seq![cur] + spec_tokens_acc(s.drop_first(), Seq::empty())
        }
    } else {
        spec_tokens_acc(s.drop_first(), cur.push(s[0]))
    }
}

/// The space-separated tokens of a specification string.
pub open spec fn spec_tokens(s: Seq<char>) -> Seq<Seq<char>> {
    spec_tokens_acc(s, Seq::empty())
}

/// Splits a character sequence into space-separated tokens.
pub fn tokenize(s: &Vec<char>) -> (r: Vec<Vec<char>>)
    ensures
        token_views(r@) == spec_tokens(s@),
{
    let mut out: Vec<Vec<char>> = Vec::new();
    let mut cur: Vec<char> = Vec::new();
    let mut i: usize = 0;
    proof {
        assert(s@.skip(0) =~= s@);
        assert(token_views(out@) =~= Seq::<Seq<char>>::empty());
    }
    while i < s.len()
        invariant
            i <= s@.len(),
            token_views(out@) + spec_tokens_acc(s@.skip(i as int), cur@) == spec_tokens(s@),
        decreases s@.len() - i,
    {
        proof {
            assert(s@.skip(i as int).drop_first() =~= s@.skip(i + 1));
            assert(s@.skip(i as int)[0] == s@[i as int]);
        }
        let c = s[i];
        if c == ' ' {
            proof {
                if cur@.len() == 0 {
                    assert(cur@ =~= Seq::<char>::empty());
                    assert(spec_tokens_acc(s@.skip(i as int), cur@) == spec_tokens_acc(
                        s@.skip(i + 1),
                        Seq::empty(),
                    ));
                } else {
                    assert(spec_tokens_acc(s@.skip(i as int), cur@) == seq![cur@]
                        + spec_tokens_acc(s@.skip(i + 1), Seq::empty()));
                }
            }
            if cur.len() > 0 {
                let ghost old_out = out@;
                let ghost cur_view = cur@;
                out.push(cur);
                cur = Vec::new();
                proof {
                    assert(token_views(out@) =~= token_views(old_out).push(cur_view));
                    assert(token_views(old_out).push(cur_view) + spec_tokens_acc(
                        s@.skip(i + 1),
                        Seq::empty(),
                    ) =~= token_views(old_out) + (seq![cur_view] + spec_tokens_acc(
                        s@.skip(i + 1),
                        Seq::empty(),
                    )));
                }
            }
        } else {
            cur.push(c);
        }
        i += 1;
    }
    proof {
        assert(s@.skip(s@.len() as int) =~= Seq::<char>::empty());
    }
    if cur.len() > 0 {
        let ghost old_out = out@;
        let ghost cur_view = cur@;
        out.push(cur);
        proof {
            assert(token_views(out@) =~= token_views(old_out).push(cur_view));
            assert(token_views(old_out).push(cur_view) =~= token_views(old_out) + seq![cur_view]);
        }
    }
    out
}

/// How one token changes the parse state: attribute words switch their
/// attribute on, the first color fills the foreground, the second the
/// background, and anything else is ignored.
pub open spec fn spec_apply_token(acc: ParsedSpec, t: Seq<char>, true_color: bool) -> ParsedSpec {
    if t == "bold"@ {
        ParsedSpec {
            attrs: AttrSet { bold: true, ..acc.attrs },
            ..acc
        }
    } else if t == "dim"@ {
        ParsedSpec {
            attrs: AttrSet { dim: true, ..acc.attrs },
            ..acc
        }
    } else if t == "italic"@ {
        ParsedSpec {
            attrs: AttrSet { italic: true, ..acc.attrs },
            ..acc
        }
    } else if t == "underline"@ || t == "ul"@ {
        ParsedSpec {
            attrs: AttrSet { underline: true, ..acc.attrs },
            ..acc
        }
    } else if t == "box"@ {
        ParsedSpec {
            attrs: AttrSet { boxed: true, ..acc.attrs },
            ..acc
        }
    } else if t == "omit"@ {
        ParsedSpec {
            attrs: AttrSet { omit: true, ..acc.attrs },
            ..acc
        }
    } else {
        match spec_raw_color(t) {
            Some(c) => if acc.foreground is None {
                ParsedSpec { foreground: Some(spec_quantize(c, true_color)), ..acc }
            } else if acc.background is None {
                ParsedSpec { background: Some(spec_quantize(c, true_color)), ..acc }
            } else {
                acc
            },
            None => acc,
        }
    }
}

/// Folding every token, left to right, into the parse state.
pub open spec fn spec_fold_tokens(
    tokens: Seq<Seq<char>>,
    acc: ParsedSpec,
    true_color: bool,
) -> ParsedSpec
    decreases tokens.len(),
{
    if tokens.len() == 0 {
        acc
    } else {
        spec_fold_tokens(tokens.drop_first(), spec_apply_token(acc, tokens[0], true_color), true_color)
    }
}

/// Everything a specification string pins down explicitly.
pub open spec fn spec_parse_style_spec(s: Seq<char>, true_color: bool) -> ParsedSpec {
    spec_fold_tokens(spec_tokens(s), spec_parsed_empty(), true_color)
}

fn apply_token(acc: ParsedSpec, t: &Vec<char>, true_color: bool) -> (r: ParsedSpec)
    ensures
        r == spec_apply_token(acc, t@, true_color),
{
    if chars_eq_str(t, "bold") {
        ParsedSpec {
            attrs: AttrSet { bold: true, ..acc.attrs },
            ..acc
        }
    } else if chars_eq_str(t, "dim") {
        ParsedSpec {
            attrs: AttrSet { dim: true, ..acc.attrs },
            ..acc
        }
    } else if chars_eq_str(t, "italic") {
        ParsedSpec {
            attrs: AttrSet { italic: true, ..acc.attrs },
            ..acc
        }
    } else if chars_eq_str(t, "underline") || chars_eq_str(t, "ul") {
        ParsedSpec {
            attrs: AttrSet { underline: true, ..acc.attrs },
            ..acc
        }
    } else if chars_eq_str(t, "box") {
        ParsedSpec {
            attrs: AttrSet { boxed: true, ..acc.attrs },
            ..acc
        }
    } else if chars_eq_str(t, "omit") {
        ParsedSpec {
            attrs: AttrSet { omit: true, ..acc.attrs },
            ..acc
        }
    } else {
        match parse_color(t, true_color) {
            Some(c) => {
                if acc.foreground.is_none() {
                    ParsedSpec { foreground: Some(c), ..acc }
                } else if acc.background.is_none() {
                    ParsedSpec { background: Some(c), ..acc }
                } else {
                    acc
                }
            },
            None => acc,
        }
    }
}

/// Parses a specification string: tokens applied left to right to the empty
/// parse state.
pub fn parse_style_spec(s: &str, true_color: bool) -> (r: ParsedSpec)
    ensures
        r == spec_parse_style_spec(s@, true_color),
{
    let cs = chars_of(s);
    let tokens = tokenize(&cs);
    let ghost tokseq = token_views(tokens@);
    let mut acc = ParsedSpec { foreground: None, background: None, attrs: AttrSet::none() };
    let mut i: usize = 0;
    proof {
        assert(tokseq.skip(0) =~= tokseq);
    }
    while i < tokens.len()
        invariant
            i <= tokens@.len(),
            tokseq == token_views(tokens@),
            spec_fold_tokens(tokseq.skip(i as int), acc, true_color) == spec_fold_tokens(
                tokseq,
                spec_parsed_empty(),
                true_color,
            ),
        decreases tokens@.len() - i,
    {
        proof {
            assert(tokseq.skip(i as int).drop_first() =~= tokseq.skip(i + 1));
            assert(tokseq.skip(i as int)[0] == tokens@[i as int]@);
        }
        acc = apply_token(acc, &tokens[i], true_color);
        i += 1;
    }
    proof {
        assert(tokseq.skip(tokens@.len() as int) =~= Seq::<Seq<char>>::empty());
    }
    acc
}

/// The color a deprecated single-color override denotes, quantized, if the
/// override is present and parses.
pub open spec fn spec_opt_color_of_str(o: Option<Seq<char>>, true_color: bool) -> Option<Color> {
    match o {
        Some(d) => match spec_raw_color(d) {
            Some(c) => Some(spec_quantize(c, true_color)),
            None => None,
        },
        None => None,
    }
}

/// The decoration that a decoration-only specification string resolves to.
pub open spec fn spec_decoration_of(d: Seq<char>, true_color: bool) -> DecorationStyle {
    let p = spec_parse_style_spec(d, true_color);
    DecorationStyle { attrs: p.attrs, foreground: p.foreground, background: p.background }
}

/// The style a category resolves to: channels named in the specification
/// always win; an omitted foreground falls back to the deprecated override
/// color and then to the category default; an omitted background falls back
/// to the category default.
pub open spec fn spec_composed_style(
    s: Seq<char>,
    foreground_default: Option<Color>,
    background_default: Option<Color>,
    decoration_spec: Option<Seq<char>>,
    deprecated_foreground: Option<Seq<char>>,
    true_color: bool,
    is_emph: bool,
) -> Style {
    let p = spec_parse_style_spec(s, true_color);
    let dep = spec_opt_color_of_str(deprecated_foreground, true_color);
    Style {
        foreground: if p.foreground is Some {
            p.foreground
        } else if dep is Some {
            dep
        } else {
            foreground_default
        },
        background: if p.background is Some {
            p.background
        } else {
            background_default
        },
        attrs: p.attrs,
        is_emph,
        true_color,
        decoration: match decoration_spec {
            Some(d) => Some(spec_decoration_of(d, true_color)),
            None => None,
        },
    }
}

impl Style {
    /// The null style: nothing set, no decoration.
    pub fn new() -> (r: Style)
        ensures
            r == spec_null_style(),
    {
        Style {
            foreground: None,
            background: None,
            attrs: AttrSet::none(),
            is_emph: false,
            true_color: false,
            decoration: None,
        }
    }

    /// Resolves one category's style from its specification string and the
    /// category's computed default channels.
    pub fn from_str(
        style_spec: &str,
        foreground_default: Option<Color>,
        background_default: Option<Color>,
        decoration_spec: Option<&str>,
        true_color: bool,
        is_emph: bool,
    ) -> (r: Style)
        ensures
            r == spec_composed_style(
                style_spec@,
                foreground_default,
                background_default,
                opt_str_view(decoration_spec),
                None,
                true_color,
                is_emph,
            ),
    {
        Self::from_str_with_decoration_and_deprecated_foreground(
            style_spec,
            foreground_default,
            background_default,
            decoration_spec,
            None,
            true_color,
            is_emph,
        )
    }

    /// Like `from_str`, but additionally honouring a deprecated single-color
    /// override that ranks between an explicit foreground and the computed
    /// default.
    pub fn from_str_with_decoration_and_deprecated_foreground(
        style_spec: &str,
        foreground_default: Option<Color>,
        background_default: Option<Color>,
        decoration_spec: Option<&str>,
        deprecated_foreground: Option<&str>,
        true_color: bool,
        is_emph: bool,
    ) -> (r: Style)
        ensures
            r == spec_composed_style(
                style_spec@,
                foreground_default,
                background_default,
                opt_str_view(decoration_spec),
                opt_str_view(deprecated_foreground),
                true_color,
                is_emph,
            ),
    {
        let p = parse_style_spec(style_spec, true_color);
        let dep: Option<Color> = match deprecated_foreground {
            Some(d) => {
                let cs = chars_of(d);
                parse_color(&cs, true_color)
            },
            None => None,
        };
        let foreground = if p.foreground.is_some() {
            p.foreground
        } else if dep.is_some() {
            dep
        } else {
            foreground_default
        };
        let background = if p.background.is_some() {
            p.background
        } else {
            background_default
        };
        let decoration: Option<DecorationStyle> = match decoration_spec {
            Some(d) => {
                let dp = parse_style_spec(d, true_color);
                Some(
                    DecorationStyle {
                        attrs: dp.attrs,
                        foreground: dp.foreground,
                        background: dp.background,
                    },
                )
            },
            None => None,
        };
        Style { foreground, background, attrs: p.attrs, is_emph, true_color, decoration }
    }
}

pub open spec fn spec_null_style() -> Style {
    Style {
        foreground: None,
        background: None,
        attrs: spec_attrs_none(),
        is_emph: false,
        true_color: false,
        decoration: None,
    }
}

/// Law: a style whose own specification names neither a foreground nor a
/// background resolves both channels to the fallback it is given; handed the
/// already-resolved channels of its base style, it inherits them exactly.
pub proof fn lemma_unset_channels_inherit_defaults(
    s: Seq<char>,
    foreground_default: Option<Color>,
    background_default: Option<Color>,
    true_color: bool,
    is_emph: bool,
)
    requires
        spec_parse_style_spec(s, true_color).foreground is None,
        spec_parse_style_spec(s, true_color).background is None,
    ensures
        spec_composed_style(
            s,
            foreground_default,
            background_default,
            None,
            None,
            true_color,
            is_emph,
        ).foreground == foreground_default,
        spec_composed_style(
            s,
            foreground_default,
            background_default,
            None,
            None,
            true_color,
            is_emph,
        ).background == background_default,
{
}

} // verus!
