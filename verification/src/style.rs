//! Style resolution: mapping abstract color and modifier descriptors to
//! concrete terminal attributes.
//!
//! A [`Style`] carries abstract descriptors; [`get_style`] resolves it to an
//! [`Attributes`] value, the library's model of a terminal attribute set.
//! A foreground or background of [`Color::Unset`] means "keep the terminal's
//! current color": it is never resolved to an explicit terminal color.

use vstd::prelude::*;

verus! {

/// An abstract color descriptor. `Unset` leaves the terminal's current
/// foreground or background untouched.
#[derive(Clone, Copy, PartialEq, Eq, Structural, Debug)]
pub enum Color {
    Unset,
    Black,
    Blue,
    Cyan,
    DarkGray,
    Gray,
    Green,
    Indexed(u8),
    LightBlue,
    LightCyan,
    LightGreen,
    LightMagenta,
    LightRed,
    LightYellow,
    Magenta,
    Red,
    Rgb(u8, u8, u8),
    White,
    Yellow,
}

/// A concrete terminal color, as the terminal driver understands it.
/// `Reset` stands for the terminal's configured default.
#[derive(Clone, Copy, PartialEq, Eq, Structural, Debug)]
pub enum ResolvedColor {
    Reset,
    Black,
    Blue,
    Cyan,
    DarkGray,
    Gray,
    Green,
    Indexed(u8),
    LightBlue,
    LightCyan,
    LightGreen,
    LightMagenta,
    LightRed,
    LightYellow,
    Magenta,
    Red,
    Rgb(u8, u8, u8),
    White,
    Yellow,
}

/// A text attribute modifier.
#[derive(Clone, Copy, PartialEq, Eq, Structural, Debug)]
pub enum TextModifier {
    Bold,
    CrossedOut,
    Dim,
    Hidden,
    Italic,
    RapidBlink,
    Reversed,
    SlowBlink,
    Underlined,
}

/// An abstract style: optional color overrides plus a list of modifiers.
#[derive(Clone, Debug)]
pub struct Style {
    pub fg: Color,
    pub bg: Color,
    pub modifiers: Vec<TextModifier>,
}

/// A resolved terminal attribute set: explicit colors only where the style
/// overrides the terminal's own, and the modifiers as a bitset.
#[derive(Clone, Copy, PartialEq, Eq, Structural, Debug)]
pub struct Attributes {
    pub fg: Option<ResolvedColor>,
    pub bg: Option<ResolvedColor>,
    pub modifiers: u16,
}

/// The bit that represents one text modifier in the modifier bitset.
pub open spec fn spec_modifier_bit(m: TextModifier) -> u16 {
    match m {
        TextModifier::Bold => 1u16,
        TextModifier::Dim => 2u16,
        TextModifier::Italic => 4u16,
        TextModifier::Underlined => 8u16,
        TextModifier::SlowBlink => 16u16,
        TextModifier::RapidBlink => 32u16,
        TextModifier::Reversed => 64u16,
        TextModifier::Hidden => 128u16,
        TextModifier::CrossedOut => 256u16,
    }
}

/// The union, as a bitset, of a sequence of modifiers.
pub open spec fn spec_modifier_bits(ms: Seq<TextModifier>) -> u16
    decreases ms.len(),
{
    if ms.len() == 0 {
        0u16
    } else {
        spec_modifier_bits(ms.drop_last()) | spec_modifier_bit(ms.last())
    }
}

/// The concrete color for an abstract descriptor. `Unset` resolves to
/// `Reset`; style resolution never applies it, so a resolved attribute set
/// never overrides the terminal's defaults with it.
pub open spec fn spec_get_color(c: Color) -> ResolvedColor {
    match c {
        Color::Unset => ResolvedColor::Reset,
        Color::Black => ResolvedColor::Black,
        Color::Blue => ResolvedColor::Blue,
        Color::Cyan => ResolvedColor::Cyan,
        Color::DarkGray => ResolvedColor::DarkGray,
        Color::Gray => ResolvedColor::Gray,
        Color::Green => ResolvedColor::Green,
        Color::Indexed(i) => ResolvedColor::Indexed(i),
        Color::LightBlue => ResolvedColor::LightBlue,
        Color::LightCyan => ResolvedColor::LightCyan,
        Color::LightGreen => ResolvedColor::LightGreen,
        Color::LightMagenta => ResolvedColor::LightMagenta,
        Color::LightRed => ResolvedColor::LightRed,
        Color::LightYellow => ResolvedColor::LightYellow,
        Color::Magenta => ResolvedColor::Magenta,
        Color::Red => ResolvedColor::Red,
        Color::Rgb(r, g, b) => ResolvedColor::Rgb(r, g, b),
        Color::White => ResolvedColor::White,
        Color::Yellow => ResolvedColor::Yellow,
    }
}

/// The attribute set that a style resolves to: an explicit color only where
/// the style's color is not `Unset`, and the modifiers folded into a bitset.
pub open spec fn spec_get_style(s: Style) -> Attributes {
    Attributes {
        fg: if s.fg is Unset {
            None
        } else {
            Some(spec_get_color(s.fg))
        },
        bg: if s.bg is Unset {
            None
        } else {
            Some(spec_get_color(s.bg))
        },
        modifiers: spec_modifier_bits(s.modifiers@),
    }
}

/// The attribute set `over` patched onto `base`: an explicit color of
/// `over` overrides the one underneath, an unset one leaves it standing,
/// and the modifier bitsets are united.
pub open spec fn spec_patch_attrs(base: Attributes, over: Attributes) -> Attributes {
    Attributes {
        fg: if over.fg is Some {
            over.fg
        } else {
            base.fg
        },
        bg: if over.bg is Some {
            over.bg
        } else {
            base.bg
        },
        modifiers: base.modifiers | over.modifiers,
    }
}

/// Patches one attribute set over another, as a terminal cell takes a new
/// style: set colors override, modifiers accumulate.
pub fn patch_attrs(base: Attributes, over: Attributes) -> (r: Attributes)
    ensures
        r == spec_patch_attrs(base, over),
{
    Attributes {
        fg: match over.fg {
            Some(c) => Some(c),
            None => base.fg,
        },
        bg: match over.bg {
            Some(c) => Some(c),
            None => base.bg,
        },
        modifiers: base.modifiers | over.modifiers,
    }
}

/// Resolves an abstract color descriptor to a concrete terminal color.
pub fn get_color(color: Color) -> (r: ResolvedColor)
    ensures
        r == spec_get_color(color),
{
    match color {
        Color::Unset => ResolvedColor::Reset,
        Color::Black => ResolvedColor::Black,
        Color::Blue => ResolvedColor::Blue,
        Color::Cyan => ResolvedColor::Cyan,
        Color::DarkGray => ResolvedColor::DarkGray,
        Color::Gray => ResolvedColor::Gray,
        Color::Green => ResolvedColor::Green,
        Color::Indexed(i) => ResolvedColor::Indexed(i),
        Color::LightBlue => ResolvedColor::LightBlue,
        Color::LightCyan => ResolvedColor::LightCyan,
        Color::LightGreen => ResolvedColor::LightGreen,
        Color::LightMagenta => ResolvedColor::LightMagenta,
        Color::LightRed => ResolvedColor::LightRed,
        Color::LightYellow => ResolvedColor::LightYellow,
        Color::Magenta => ResolvedColor::Magenta,
        Color::Red => ResolvedColor::Red,
        Color::Rgb(r, g, b) => ResolvedColor::Rgb(r, g, b),
        Color::White => ResolvedColor::White,
        Color::Yellow => ResolvedColor::Yellow,
    }
}

/// The bitset bit of one modifier.
pub fn modifier_bit(m: TextModifier) -> (r: u16)
    ensures
        r == spec_modifier_bit(m),
{
    match m {
        TextModifier::Bold => 1,
        TextModifier::Dim => 2,
        TextModifier::Italic => 4,
        TextModifier::Underlined => 8,
        TextModifier::SlowBlink => 16,
        TextModifier::RapidBlink => 32,
        TextModifier::Reversed => 64,
        TextModifier::Hidden => 128,
        TextModifier::CrossedOut => 256,
    }
}

/// Resolves a style to a terminal attribute set.
///
/// Colors left `Unset` stay unset in the result: the terminal's own
/// foreground and background are never overridden by a resolved "no-op"
/// color. The modifiers are combined as a bitset union.
pub fn get_style(style: &Style) -> (r: Attributes)
    ensures
        r == spec_get_style(*style),
        style.fg is Unset <==> r.fg is None,
        style.bg is Unset <==> r.bg is None,
{
    let fg = match style.fg {
        Color::Unset => None,
        c => Some(get_color(c)),
    };
    let bg = match style.bg {
        Color::Unset => None,
        c => Some(get_color(c)),
    };
    let mut bits: u16 = 0;
    let mut i: usize = 0;
    while i < style.modifiers.len()
        invariant
            i <= style.modifiers.len(),
            bits == spec_modifier_bits(style.modifiers@.take(i as int)),
        decreases style.modifiers.len() - i,
    {
        bits = bits | modifier_bit(style.modifiers[i]);
        proof {
            assert(style.modifiers@.take(i + 1).drop_last() =~= style.modifiers@.take(i as int));
            assert(style.modifiers@.take(i + 1).last() == style.modifiers@[i as int]);
        }
        i = i + 1;
    }
    proof {
        assert(style.modifiers@.take(style.modifiers@.len() as int) =~= style.modifiers@);
    }
    Attributes { fg, bg, modifiers: bits }
}

/// Law: style resolution is a pure function of the style value alone.
/// Resolving equal styles yields identical attribute sets, so resolving the
/// same style twice cannot differ.
pub proof fn lemma_style_resolution_pure(a: Style, b: Style)
    requires
        a == b,
    ensures
        spec_get_style(a) == spec_get_style(b),
{
}

} // verus!
