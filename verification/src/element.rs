//! The element tree: the declarative data model of what to draw.
//!
//! An element tree is produced fresh for every frame, handed to the
//! renderer, and discarded once the frame's draw operations exist.

use vstd::prelude::*;
use crate::layout::{Constraint, Direction};
use crate::style::Style;

verus! {

/// A run of text sharing one style; a line is an ordered sequence of spans.
#[derive(Clone, Debug)]
pub struct Span {
    pub text: String,
    pub style: Style,
}

/// Horizontal alignment of a title or of paragraph text.
#[derive(Clone, Copy, PartialEq, Eq, Structural, Debug)]
pub enum Alignment {
    Left,
    Center,
    Right,
}

/// The glyph set used to draw a border.
#[derive(Clone, Copy, PartialEq, Eq, Structural, Debug)]
pub enum BorderType {
    Plain,
    Rounded,
    Double,
    Thick,
}

/// One edge selector of a bordered frame. `Empty` selects no edge and
/// `All` selects every edge; a block lists any number of selectors and
/// their union decides which edges are drawn.
#[derive(Clone, Copy, PartialEq, Eq, Structural, Debug)]
pub enum BorderModifier {
    Empty,
    Top,
    Right,
    Bottom,
    Left,
    All,
}

/// A corner of a rectangle; the anchor from which list items are laid out.
#[derive(Clone, Copy, PartialEq, Eq, Structural, Debug)]
pub enum Corner {
    TopLeft,
    TopRight,
    BottomLeft,
    BottomRight,
}

/// A paragraph's cursor request: hidden, or placed at an offset relative to
/// the paragraph's own drawing area.
#[derive(Clone, Copy, PartialEq, Eq, Structural, Debug)]
pub enum Cursor {
    Hidden,
    At(u16, u16),
}

/// Which list item, if any, is selected.
#[derive(Clone, Copy, PartialEq, Eq, Structural, Debug)]
pub enum ListSelection {
    Unselected,
    Index(usize),
}

/// A layout's popup request: draw in the whole area, or in a centered
/// sub-rectangle taking the given percentages of width and height.
#[derive(Clone, Copy, PartialEq, Eq, Structural, Debug)]
pub enum Popup {
    Off,
    Centered(u16, u16),
}

/// A bordered, titled frame around an element's content.
#[derive(Clone, Debug)]
pub struct BlockStyle {
    pub title: Span,
    pub title_alignment: Alignment,
    pub borders: Vec<BorderModifier>,
    pub border_type: BorderType,
    pub border_style: Style,
    pub fill_style: Style,
}

/// Sizing and placement directives for a layout container's children.
#[derive(Clone, Debug)]
pub struct LayoutConfig {
    pub direction: Direction,
    pub constraints: Vec<Constraint>,
    pub h_margin: u16,
    pub v_margin: u16,
    pub popup: Popup,
}

/// A renderable node: a tagged tree of text blocks, bordered frames, list
/// widgets and recursive layout containers.
#[derive(Debug)]
pub enum Element {
    Paragraph {
        block: BlockStyle,
        lines: Vec<Vec<Span>>,
        alignment: Alignment,
        scroll: u16,
        cursor: Cursor,
    },
    Block {
        block: BlockStyle,
    },
    Layout {
        children: Vec<Element>,
        config: LayoutConfig,
    },
    ListItems {
        block: BlockStyle,
        items: Vec<Vec<Span>>,
        highlight_style: Style,
        highlight_symbol: String,
        repeat_highlight_symbol: bool,
        start_corner: Corner,
        selected: ListSelection,
    },
}

/// The border bitset bit of one edge selector: top, right, bottom and left
/// edges occupy the four low bits in that order.
pub open spec fn spec_border_bit(b: BorderModifier) -> u8 {
    match b {
        BorderModifier::Empty => 0u8,
        BorderModifier::Top => 1u8,
        BorderModifier::Right => 2u8,
        BorderModifier::Bottom => 4u8,
        BorderModifier::Left => 8u8,
        BorderModifier::All => 15u8,
    }
}

/// The union, as a bitset, of a sequence of edge selectors.
pub open spec fn spec_borders(bs: Seq<BorderModifier>) -> u8
    decreases bs.len(),
{
    if bs.len() == 0 {
        0u8
    } else {
        spec_borders(bs.drop_last()) | spec_border_bit(bs.last())
    }
}

/// The relative cursor position a paragraph requests, if any.
pub open spec fn spec_get_cursor(cursor: Cursor) -> Option<(u16, u16)> {
    match cursor {
        Cursor::Hidden => None,
        Cursor::At(col, row) => Some((col, row)),
    }
}

/// The selected item index, if any.
pub open spec fn spec_get_list_selection(selection: ListSelection) -> Option<usize> {
    match selection {
        ListSelection::Unselected => None,
        ListSelection::Index(i) => Some(i),
    }
}

/// The centered-popup percentages, if a popup was requested.
pub open spec fn spec_get_popup(popup: Popup) -> Option<(u16, u16)> {
    match popup {
        Popup::Off => None,
        Popup::Centered(px, py) => Some((px, py)),
    }
}

/// Folds a block's edge selectors into the border bitset.
pub fn get_borders(borders: &Vec<BorderModifier>) -> (r: u8)
    ensures
        r == spec_borders(borders@),
{
    let mut bits: u8 = 0;
    let mut i: usize = 0;
    while i < borders.len()
        invariant
            i <= borders.len(),
            bits == spec_borders(borders@.take(i as int)),
        decreases borders.len() - i,
    {
        let bit = match borders[i] {
            BorderModifier::Empty => 0,
            BorderModifier::Top => 1,
            BorderModifier::Right => 2,
            BorderModifier::Bottom => 4,
            BorderModifier::Left => 8,
            BorderModifier::All => 15,
        };
        bits = bits | bit;
        proof {
            assert(borders@.take(i + 1).drop_last() =~= borders@.take(i as int));
            assert(borders@.take(i + 1).last() == borders@[i as int]);
        }
        i = i + 1;
    }
    proof {
        assert(borders@.take(borders@.len() as int) =~= borders@);
    }
    bits
}

/// Unpacks a paragraph's cursor request into an optional relative position.
pub fn get_cursor(cursor: Cursor) -> (r: Option<(u16, u16)>)
    ensures
        r == spec_get_cursor(cursor),
{
    match cursor {
        Cursor::Hidden => None,
        Cursor::At(col, row) => Some((col, row)),
    }
}

/// Unpacks a list's selection into an optional item index.
pub fn get_list_selection(selection: &ListSelection) -> (r: Option<usize>)
    ensures
        r == spec_get_list_selection(*selection),
{
    match selection {
        ListSelection::Unselected => None,
        ListSelection::Index(i) => Some(*i),
    }
}

/// Unpacks a layout's popup request into optional centering percentages.
pub fn get_popup(popup: &Popup) -> (r: Option<(u16, u16)>)
    ensures
        r == spec_get_popup(*popup),
{
    match popup {
        Popup::Off => None,
        Popup::Centered(px, py) => Some((*px, *py)),
    }
}

} // verus!
