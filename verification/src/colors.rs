//! ANSI color and modifier codes, and the open/close escape sequences that
//! wrap a text fragment in a style.
use crate::charseq::{chars_of, push_dec_u16, string_of};
use crate::esc::sgr;
use vstd::prelude::*;

verus! {

/// A foreground color, normal or bright.
#[derive(Clone, Copy, Debug)]
pub enum Color {
    Black,
    Red,
    Green,
    Yellow,
    Blue,
    Magenta,
    Cyan,
    White,
    BlackBright,
    RedBright,
    GreenBright,
    YellowBright,
    BlueBright,
    MagentaBright,
    CyanBright,
    WhiteBright,
}

/// A text modifier such as bold or dim.
#[derive(Clone, Copy, Debug)]
pub enum Modifier {
    Reset,
    Bold,
    Dim,
    Italic,
    Underline,
    Overline,
    Inverse,
    Hidden,
    Striketrough,
}

/// The `(open, close)` graphic-rendition codes of a color.
pub open spec fn color_parts(c: Color) -> (u8, u8) {
    match c {
        Color::Black => (30u8, 39u8),
        Color::Red => (31u8, 39u8),
        Color::Green => (32u8, 39u8),
        Color::Yellow => (33u8, 39u8),
        Color::Blue => (34u8, 39u8),
        Color::Magenta => (35u8, 39u8),
        Color::Cyan => (36u8, 39u8),
        Color::White => (37u8, 39u8),
        Color::BlackBright => (90u8, 39u8),
        Color::RedBright => (91u8, 39u8),
        Color::GreenBright => (92u8, 39u8),
        Color::YellowBright => (93u8, 39u8),
        Color::BlueBright => (94u8, 39u8),
        Color::MagentaBright => (95u8, 39u8),
        Color::CyanBright => (96u8, 39u8),
        Color::WhiteBright => (97u8, 39u8),
    }
}

/// The `(open, close)` graphic-rendition codes of a modifier.
pub open spec fn modifier_parts(m: Modifier) -> (u8, u8) {
    match m {
        Modifier::Reset => (0u8, 0u8),
        Modifier::Bold => (1u8, 22u8),
        Modifier::Dim => (2u8, 22u8),
        Modifier::Italic => (3u8, 23u8),
        Modifier::Underline => (4u8, 24u8),
        Modifier::Overline => (53u8, 55u8),
        Modifier::Inverse => (7u8, 27u8),
        Modifier::Hidden => (8u8, 28u8),
        Modifier::Striketrough => (9u8, 29u8),
    }
}

/// `text` wrapped in the open and close sequences of the codes `parts`.
pub open spec fn styled(parts: (u8, u8), text: Seq<char>) -> Seq<char> {
    sgr(parts.0 as nat) + text + sgr(parts.1 as nat)
}

/// The escape sequence selecting graphic rendition `code`.
pub(crate) fn sgr_chars(code: u8) -> (r: Vec<char>)
    ensures
        r@ == sgr(code as nat),
{
    let mut v: Vec<char> = Vec::new();
    v.push('\u{1b}');
    v.push('[');
    push_dec_u16(code as u16, &mut v);
    v.push('m');
    proof {
        assert(v@ =~= sgr(code as nat));
    }
    v
}

impl Color {
    /// The numeric open and close codes of this color.
    pub fn get_parts(&self) -> (r: (u8, u8))
        ensures
            r == color_parts(*self),
    {
        match self {
            Color::Black => (30, 39),
            Color::Red => (31, 39),
            Color::Green => (32, 39),
            Color::Yellow => (33, 39),
            Color::Blue => (34, 39),
            Color::Magenta => (35, 39),
            Color::Cyan => (36, 39),
            Color::White => (37, 39),
            Color::BlackBright => (90, 39),
            Color::RedBright => (91, 39),
            Color::GreenBright => (92, 39),
            Color::YellowBright => (93, 39),
            Color::BlueBright => (94, 39),
            Color::MagentaBright => (95, 39),
            Color::CyanBright => (96, 39),
            Color::WhiteBright => (97, 39),
        }
    }

    /// The opening escape sequence of this color.
    pub fn get_open(&self) -> (r: String)
        ensures
            r@ == sgr(color_parts(*self).0 as nat),
    {
        let (open, _) = self.get_parts();
        string_of(&sgr_chars(open))
    }

    /// The closing escape sequence of this color.
    pub fn get_close(&self) -> (r: String)
        ensures
            r@ == sgr(color_parts(*self).1 as nat),
    {
        let (_, close) = self.get_parts();
        string_of(&sgr_chars(close))
    }

    /// The characters of `text` wrapped in this color's open and close codes.
    pub fn apply_chars(&self, text: &Vec<char>) -> (r: Vec<char>)
        ensures
            r@ == styled(color_parts(*self), text@),
    {
        let (open, close) = self.get_parts();
        let mut r = sgr_chars(open);
        let mut mid = text.clone();
        r.append(&mut mid);
        let mut end = sgr_chars(close);
        r.append(&mut end);
        r
    }

    /// `text` wrapped in this color's open and close codes.
    pub fn apply_color(&self, text: &str) -> (r: String)
        ensures
            r@ == styled(color_parts(*self), text@),
    {
        string_of(&self.apply_chars(&chars_of(text)))
    }

    /// Apply color - shorthand.
    pub fn a(&self, text: &str) -> (r: String)
        ensures
            r@ == styled(color_parts(*self), text@),
    {
        self.apply_color(text)
    }
}

impl Modifier {
    /// The numeric open and close codes of this modifier.
    pub fn get_parts(&self) -> (r: (u8, u8))
        ensures
            r == modifier_parts(*self),
    {
        match self {
            Modifier::Reset => (0, 0),
            Modifier::Bold => (1, 22),
            Modifier::Dim => (2, 22),
            Modifier::Italic => (3, 23),
            Modifier::Underline => (4, 24),
            Modifier::Overline => (53, 55),
            Modifier::Inverse => (7, 27),
            Modifier::Hidden => (8, 28),
            Modifier::Striketrough => (9, 29),
        }
    }

    /// The opening escape sequence of this modifier.
    pub fn get_open(&self) -> (r: String)
        ensures
            r@ == sgr(modifier_parts(*self).0 as nat),
    {
        let (open, _) = self.get_parts();
        string_of(&sgr_chars(open))
    }

    /// The closing escape sequence of this modifier.
    pub fn get_close(&self) -> (r: String)
        ensures
            r@ == sgr(modifier_parts(*self).1 as nat),
    {
        let (_, close) = self.get_parts();
        string_of(&sgr_chars(close))
    }

    /// The characters of `text` wrapped in this modifier's open and close codes.
    pub fn apply_chars(&self, text: &Vec<char>) -> (r: Vec<char>)
        ensures
            r@ == styled(modifier_parts(*self), text@),
    {
        let (open, close) = self.get_parts();
        let mut r = sgr_chars(open);
        let mut mid = text.clone();
        r.append(&mut mid);
        let mut end = sgr_chars(close);
        r.append(&mut end);
        r
    }

    /// `text` wrapped in this modifier's open and close codes.
    pub fn apply_color(&self, text: &str) -> (r: String)
        ensures
            r@ == styled(modifier_parts(*self), text@),
    {
        string_of(&self.apply_chars(&chars_of(text)))
    }

    /// Apply modifier - shorthand.
    pub fn a(&self, text: &str) -> (r: String)
        ensures
            r@ == styled(modifier_parts(*self), text@),
    {
        self.apply_color(text)
    }
}

} // verus!
