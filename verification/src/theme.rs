//! Themed rendering of the prompt line: styled prefix, styled label, a
//! decorative glyph, an optional parenthesized annotation, and a muted
//! default-value hint. `DefaultTheme` is the one concrete theme; its exact
//! output is pinned down by the spec functions here, which the editing
//! engines' redraw contracts reuse.
use crate::charseq::{chars_of, string_of};
use crate::colors::{color_parts, modifier_parts, sgr_chars, styled, Color, Modifier};
use crate::common::{opt_view, PromptBase};
use crate::esc::{clear_line_seq, csi_clear_line, csi_left, left_seq, sgr};
use vstd::prelude::*;

verus! {

/// The decorative glyph drawn between the label and the edited value.
pub open spec fn glyph() -> Seq<char> {
    seq!['\u{203a}']
}

/// The annotation part of a prompt line: `(extra) ` in a muted color, or
/// nothing.
pub open spec fn extra_part_spec(extra: Option<Seq<char>>) -> Seq<char> {
    match extra {
        Option::None => Seq::empty(),
        Option::Some(e) => sgr(color_parts(Color::BlackBright).0 as nat) + seq!['('] + e + seq![
            ')',
        ] + sgr(color_parts(Color::BlackBright).1 as nat) + seq![' '],
    }
}

/// The themed prompt line: move far left, erase the line, then the bold
/// bright-green prefix, the bold text, the dim glyph, and the annotation,
/// each followed by a space.
pub open spec fn prompt_text_spec(
    prefix: Seq<char>,
    text: Seq<char>,
    extra: Option<Seq<char>>,
) -> Seq<char> {
    csi_left(999) + csi_clear_line() + styled(
        modifier_parts(Modifier::Bold),
        styled(color_parts(Color::GreenBright), prefix),
    ) + seq![' '] + styled(modifier_parts(Modifier::Bold), text) + seq![' '] + styled(
        modifier_parts(Modifier::Dim),
        glyph(),
    ) + seq![' '] + extra_part_spec(extra)
}

/// The default-value hint: `[default] ` in a dim style, or nothing.
pub open spec fn default_hint_spec(default: Option<Seq<char>>) -> Seq<char> {
    match default {
        Option::None => Seq::empty(),
        Option::Some(d) => styled(modifier_parts(Modifier::Dim), seq!['['] + d + seq![']'])
            + seq![' '],
    }
}

/// The annotation part, as characters.
pub(crate) fn extra_part_chars(extra: &Option<String>) -> (r: Vec<char>)
    ensures
        r@ == extra_part_spec(opt_view(*extra)),
{
    match extra {
        Option::None => Vec::new(),
        Option::Some(e) => {
            let (open, close) = Color::BlackBright.get_parts();
            let mut out = sgr_chars(open);
            out.push('(');
            let mut mid = chars_of(e.as_str());
            out.append(&mut mid);
            out.push(')');
            let mut end = sgr_chars(close);
            out.append(&mut end);
            out.push(' ');
            proof {
                assert(out@ =~= extra_part_spec(opt_view(*extra)));
            }
            out
        },
    }
}

/// The themed prompt line, as characters.
pub(crate) fn prompt_text_chars(prefix: &str, text: &str, extra: &Option<String>) -> (r: Vec<
    char,
>)
    ensures
        r@ == prompt_text_spec(prefix@, text@, opt_view(*extra)),
{
    let mut out = left_seq(999);
    let mut part = clear_line_seq();
    out.append(&mut part);
    let mut part = Modifier::Bold.apply_chars(&Color::GreenBright.apply_chars(&chars_of(prefix)));
    out.append(&mut part);
    out.push(' ');
    let mut part = Modifier::Bold.apply_chars(&chars_of(text));
    out.append(&mut part);
    out.push(' ');
    let mut g: Vec<char> = Vec::new();
    g.push('\u{203a}');
    proof {
        assert(g@ =~= glyph());
    }
    let mut part = Modifier::Dim.apply_chars(&g);
    out.append(&mut part);
    out.push(' ');
    let mut part = extra_part_chars(extra);
    out.append(&mut part);
    proof {
        assert(out@ =~= prompt_text_spec(prefix@, text@, opt_view(*extra)));
    }
    out
}

/// The default-value hint, as characters.
pub(crate) fn default_hint_chars(default: &Option<String>) -> (r: Vec<char>)
    ensures
        r@ == default_hint_spec(opt_view(*default)),
{
    match default {
        Option::None => Vec::new(),
        Option::Some(d) => {
            let mut inner: Vec<char> = Vec::new();
            inner.push('[');
            let mut mid = chars_of(d.as_str());
            inner.append(&mut mid);
            inner.push(']');
            proof {
                assert(inner@ =~= seq!['['] + d@ + seq![']']);
            }
            let mut out = Modifier::Dim.apply_chars(&inner);
            out.push(' ');
            proof {
                assert(out@ =~= default_hint_spec(opt_view(*default)));
            }
            out
        },
    }
}

/// The themed prompt line for the given metadata fields.
pub fn themed_prompt_text(prefix: &str, text: &str, extra: &Option<String>) -> (r: String)
    ensures
        r@ == prompt_text_spec(prefix@, text@, opt_view(*extra)),
{
    string_of(&prompt_text_chars(prefix, text, extra))
}

/// The default-value hint for the given default.
pub fn themed_default_hint(default: &Option<String>) -> (r: String)
    ensures
        r@ == default_hint_spec(opt_view(*default)),
{
    string_of(&default_hint_chars(default))
}

/// A pluggable formatter from prompt metadata to the styled text placed at
/// the start of each redraw. A conforming implementation keeps the order:
/// prefix, label, glyph, annotation — and, separately, the default hint.
pub trait FormatTheme {
    /// The styled prompt line for the given fields.
    fn prompt_text(&self, prefix: &String, text: &String, extra: &Option<String>) -> String;

    /// The styled prompt line for the given metadata.
    fn format_prompt(&self, prompt: &PromptBase) -> String;

    /// The styled default-value hint for the given metadata.
    fn format_default(&self, prompt: &PromptBase) -> String;
}

/// The theme the prompts ship with.
#[derive(Clone, Copy, Debug, PartialEq, Eq, Structural)]
pub struct DefaultTheme;

impl FormatTheme for DefaultTheme {
    fn prompt_text(&self, prefix: &String, text: &String, extra: &Option<String>) -> String {
        themed_prompt_text(prefix.as_str(), text.as_str(), extra)
    }

    fn format_prompt(&self, prompt: &PromptBase) -> String {
        themed_prompt_text(prompt.prefix.as_str(), prompt.text.as_str(), &prompt.extra)
    }

    fn format_default(&self, prompt: &PromptBase) -> String {
        themed_default_hint(&prompt.default)
    }
}

} // verus!
