//! The renderer: walking an element tree into concrete draw operations.
//!
//! [`render`] walks the tree depth-first, resolving styles, blocks and
//! layout, and produces the frame's draw operations in paint order,
//! together with the cursor position to report, if any. The unverified
//! front end plays each [`DrawOp`] against the terminal's frame buffer;
//! everything the operations contain is already resolved to plain values.

use vstd::prelude::*;
use vstd::assert_seqs_equal;
use crate::element::{
    spec_borders, spec_get_cursor, spec_get_popup, get_borders, get_cursor, get_popup, Alignment,
    BlockStyle, BorderType, Corner, Cursor, Element, ListSelection, Span,
};
use crate::geometry::Rect;
use crate::layout::{
    centered_rect, resolve_layout, spec_centered_rect, spec_resolve_layout,
};
use crate::style::{get_style, patch_attrs, spec_get_style, spec_patch_attrs, Attributes, Style};

verus! {

/// A run of text with its resolved terminal attributes.
#[derive(Debug, PartialEq)]
pub struct StyledSpan {
    pub text: String,
    pub attrs: Attributes,
}

/// The mathematical value of a resolved span.
pub struct StyledSpanView {
    pub text: Seq<char>,
    pub attrs: Attributes,
}

impl View for StyledSpan {
    type V = StyledSpanView;

    open spec fn view(&self) -> StyledSpanView {
        StyledSpanView { text: self.text@, attrs: self.attrs }
    }
}

/// A bordered, titled frame with every style resolved.
#[derive(Debug, PartialEq)]
pub struct ResolvedBlock {
    pub title: StyledSpan,
    pub title_alignment: Alignment,
    pub borders: u8,
    pub border_type: BorderType,
    pub border_attrs: Attributes,
    pub fill_attrs: Attributes,
}

/// The mathematical value of a resolved frame.
pub struct ResolvedBlockView {
    pub title: StyledSpanView,
    pub title_alignment: Alignment,
    pub borders: u8,
    pub border_type: BorderType,
    pub border_attrs: Attributes,
    pub fill_attrs: Attributes,
}

impl View for ResolvedBlock {
    type V = ResolvedBlockView;

    open spec fn view(&self) -> ResolvedBlockView {
        ResolvedBlockView {
            title: self.title@,
            title_alignment: self.title_alignment,
            borders: self.borders,
            border_type: self.border_type,
            border_attrs: self.border_attrs,
            fill_attrs: self.fill_attrs,
        }
    }
}

/// One list row, ready to draw: the styled highlight prefix (the symbol on
/// the selected row, blank padding of the symbol's displayed width on the
/// others while a selection exists) and the row's resolved spans.
#[derive(Debug, PartialEq)]
pub struct ListRow {
    pub prefix: StyledSpan,
    pub spans: Vec<StyledSpan>,
}

/// The mathematical value of a list row.
pub struct ListRowView {
    pub prefix: StyledSpanView,
    pub spans: Seq<StyledSpanView>,
}

/// The mathematical values of a sequence of resolved spans.
pub open spec fn spans_view(s: Seq<StyledSpan>) -> Seq<StyledSpanView> {
    s.map_values(|x: StyledSpan| x@)
}

impl View for ListRow {
    type V = ListRowView;

    open spec fn view(&self) -> ListRowView {
        ListRowView { prefix: self.prefix@, spans: spans_view(self.spans@) }
    }
}

/// One draw operation against the frame buffer, in paint order.
#[derive(Debug, PartialEq)]
pub enum DrawOp {
    /// Paint the region blank, erasing whatever lies underneath.
    Clear { area: Rect },
    /// Draw a bare bordered frame.
    Frame { area: Rect, block: ResolvedBlock },
    /// Draw a paragraph: a frame, then its lines word-wrapped with
    /// trimming, aligned, and scrolled by the clamped offset.
    Text {
        area: Rect,
        block: ResolvedBlock,
        lines: Vec<Vec<StyledSpan>>,
        alignment: Alignment,
        scroll: (u16, u16),
    },
    /// Draw a list: a frame, then one row per item anchored at the start
    /// corner. `repeat_prefix` asks for the prefix on wrapped continuation
    /// lines of the selected row too.
    Rows {
        area: Rect,
        block: ResolvedBlock,
        rows: Vec<ListRow>,
        start_corner: Corner,
        repeat_prefix: bool,
    },
}

/// The mathematical value of a draw operation.
pub enum DrawOpView {
    Clear { area: Rect },
    Frame { area: Rect, block: ResolvedBlockView },
    Text {
        area: Rect,
        block: ResolvedBlockView,
        lines: Seq<Seq<StyledSpanView>>,
        alignment: Alignment,
        scroll: (u16, u16),
    },
    Rows {
        area: Rect,
        block: ResolvedBlockView,
        rows: Seq<ListRowView>,
        start_corner: Corner,
        repeat_prefix: bool,
    },
}

/// The mathematical values of nested resolved lines.
pub open spec fn lines_view(s: Seq<Vec<StyledSpan>>) -> Seq<Seq<StyledSpanView>> {
    s.map_values(|v: Vec<StyledSpan>| spans_view(v@))
}

/// The mathematical values of a sequence of list rows.
pub open spec fn rows_view(s: Seq<ListRow>) -> Seq<ListRowView> {
    s.map_values(|r: ListRow| r@)
}

impl View for DrawOp {
    type V = DrawOpView;

    open spec fn view(&self) -> DrawOpView {
        match self {
            DrawOp::Clear { area } => DrawOpView::Clear { area: *area },
            DrawOp::Frame { area, block } => DrawOpView::Frame { area: *area, block: block@ },
            DrawOp::Text { area, block, lines, alignment, scroll } => DrawOpView::Text {
                area: *area,
                block: block@,
                lines: lines_view(lines@),
                alignment: *alignment,
                scroll: *scroll,
            },
            DrawOp::Rows { area, block, rows, start_corner, repeat_prefix } => DrawOpView::Rows {
                area: *area,
                block: block@,
                rows: rows_view(rows@),
                start_corner: *start_corner,
                repeat_prefix: *repeat_prefix,
            },
        }
    }
}

/// The mathematical values of a sequence of draw operations.
pub open spec fn ops_view(s: Seq<DrawOp>) -> Seq<DrawOpView> {
    s.map_values(|o: DrawOp| o@)
}

/// The resolved value of one span.
pub open spec fn spec_styled_span(s: Span) -> StyledSpanView {
    StyledSpanView { text: s.text@, attrs: spec_get_style(s.style) }
}

/// The resolved values of one line of spans.
pub open spec fn spec_spans(line: Vec<Span>) -> Seq<StyledSpanView> {
    line@.map_values(|sp: Span| spec_styled_span(sp))
}

/// The resolved values of a paragraph's lines.
pub open spec fn spec_lines(lines: Vec<Vec<Span>>) -> Seq<Seq<StyledSpanView>> {
    lines@.map_values(|l: Vec<Span>| spec_spans(l))
}

/// The resolved value of a block.
pub open spec fn spec_resolve_block(b: BlockStyle) -> ResolvedBlockView {
    ResolvedBlockView {
        title: spec_styled_span(b.title),
        title_alignment: b.title_alignment,
        borders: spec_borders(b.borders@),
        border_type: b.border_type,
        border_attrs: spec_get_style(b.border_style),
        fill_attrs: spec_get_style(b.fill_style),
    }
}

/// The scroll pair handed to the draw primitive: a vertical offset at or
/// above 65000 is treated as no scroll at all, a defensive clamp against a
/// draw primitive that cannot take offsets near the top of the range.
pub open spec fn spec_get_croll(scroll: u16) -> (u16, u16) {
    if scroll >= 65000 {
        (0u16, 0u16)
    } else {
        (scroll, 0u16)
    }
}

/// Addition in the cell coordinate space, saturating at its edge.
pub open spec fn spec_sat_add(a: u16, b: u16) -> u16 {
    if a + b <= u16::MAX {
        (a + b) as u16
    } else {
        u16::MAX
    }
}

/// The absolute cursor position a paragraph requests: its relative offsets
/// translated by the drawing area's origin, or nothing when hidden.
pub open spec fn spec_cursor_abs(cursor: Cursor, area: Rect) -> Option<(u16, u16)> {
    match spec_get_cursor(cursor) {
        Some(rel) => Some((spec_sat_add(area.x, rel.0), spec_sat_add(area.y, rel.1))),
        None => None,
    }
}

/// Whether item `i` is the selected one.
pub open spec fn spec_selected(sel: ListSelection, i: int) -> bool {
    match sel {
        ListSelection::Unselected => false,
        ListSelection::Index(s) => s == i,
    }
}

/// The displayed width of a string, in terminal columns: what the
/// unicode-width tables give for its characters. Named here; stated of it
/// only what the trusted wrapper below relies on.
pub uninterp spec fn display_width(s: Seq<char>) -> nat;

/// The attribute set that overrides nothing: no colors, no modifiers.
pub open spec fn spec_no_attrs() -> Attributes {
    Attributes { fg: None, bg: None, modifiers: 0u16 }
}

/// One resolved list row. The selected row carries the highlight symbol as
/// its styled prefix, and each of its spans takes the highlight attributes
/// patched over the span's own resolved attributes: the highlight's set
/// colors override, its unset colors leave the span's standing, and the
/// modifier bits are united. While any selection exists, every other row is
/// prefixed with unstyled blanks of the symbol's displayed width, keeping
/// the rows aligned; without a selection no prefix is added at all.
pub open spec fn spec_list_row(
    line: Vec<Span>,
    highlighted: bool,
    has_selection: bool,
    hl: Attributes,
    symbol: Seq<char>,
) -> ListRowView {
    if highlighted {
        ListRowView {
            prefix: StyledSpanView { text: symbol, attrs: spec_patch_attrs(spec_no_attrs(), hl) },
            spans: line@.map_values(
                |sp: Span| StyledSpanView {
                    text: sp.text@,
                    attrs: spec_patch_attrs(spec_get_style(sp.style), hl),
                },
            ),
        }
    } else {
        let pad = if has_selection {
            Seq::new(display_width(symbol), |i: int| ' ')
        } else {
            Seq::<char>::empty()
        };
        ListRowView {
            prefix: StyledSpanView { text: pad, attrs: spec_no_attrs() },
            spans: spec_spans(line),
        }
    }
}

/// All resolved rows of a list, one per item in order.
pub open spec fn spec_list_rows(
    items: Seq<Vec<Span>>,
    sel: ListSelection,
    hl: Attributes,
    symbol: Seq<char>,
) -> Seq<ListRowView> {
    Seq::new(
        items.len(),
        |i: int| spec_list_row(items[i], spec_selected(sel, i), sel is Index, hl, symbol),
    )
}

/// The later cursor request wins; absent one, the earlier stands.
pub open spec fn cursor_or(new: Option<(u16, u16)>, prev: Option<(u16, u16)>) -> Option<
    (u16, u16),
> {
    if new is Some {
        new
    } else {
        prev
    }
}

/// The draw operations and cursor request of one element rendered into
/// `area`: a paragraph, frame or list becomes one operation; a layout
/// container clears its popup region if it has one, then renders each
/// child into its resolved rectangle.
pub open spec fn spec_render_elem(e: Element, area: Rect) -> (Seq<DrawOpView>, Option<
    (u16, u16),
>)
    decreases e, 1int,
{
    match e {
        Element::Block { block } => (
            seq![DrawOpView::Frame { area, block: spec_resolve_block(block) }],
            None,
        ),
        Element::Paragraph { block, lines, alignment, scroll, cursor } => (
            seq![
                DrawOpView::Text {
                    area,
                    block: spec_resolve_block(block),
                    lines: spec_lines(lines),
                    alignment,
                    scroll: spec_get_croll(scroll),
                },
            ],
            spec_cursor_abs(cursor, area),
        ),
        Element::ListItems {
            block,
            items,
            highlight_style,
            highlight_symbol,
            repeat_highlight_symbol,
            start_corner,
            selected,
        } => (
            seq![
                DrawOpView::Rows {
                    area,
                    block: spec_resolve_block(block),
                    rows: spec_list_rows(
                        items@,
                        selected,
                        spec_get_style(highlight_style),
                        highlight_symbol@,
                    ),
                    start_corner,
                    repeat_prefix: repeat_highlight_symbol,
                },
            ],
            None,
        ),
        Element::Layout { children, config } => {
            let popup = spec_get_popup(config.popup);
            let area2 = match popup {
                Some(p) => spec_centered_rect(p.0, p.1, area),
                None => area,
            };
            let pre = match popup {
                Some(p) => seq![DrawOpView::Clear { area: area2 }],
                None => Seq::<DrawOpView>::empty(),
            };
            let rects = spec_resolve_layout(
                config.direction,
                config.constraints@,
                children@.len() as int,
                config.h_margin,
                config.v_margin,
                area2,
            );
            let rec = spec_render_children(children@, rects);
            (pre + rec.0, rec.1)
        },
    }
}

/// The draw operations and cursor request of a sequence of elements, each
/// rendered into its rectangle, in order; the last cursor request wins.
pub open spec fn spec_render_children(children: Seq<Element>, rects: Seq<Rect>) -> (Seq<
    DrawOpView,
>, Option<(u16, u16)>)
    decreases children, 0int,
{
    if children.len() == 0 {
        (Seq::<DrawOpView>::empty(), None)
    } else {
        let rec = spec_render_children(children.drop_last(), rects.drop_last());
        let last = spec_render_elem(children.last(), rects[children.len() - 1]);
        (rec.0 + last.0, cursor_or(last.1, rec.1))
    }
}

/// A whole frame: every top-level element rendered into the full area.
pub open spec fn spec_render(elements: Seq<Element>, area: Rect) -> (Seq<DrawOpView>, Option<
    (u16, u16),
>) {
    spec_render_children(elements, Seq::new(elements.len(), |i: int| area))
}

/// A rendered frame: the draw operations in paint order, and the cursor
/// position to report, if any paragraph requested one.
#[derive(Debug, PartialEq)]
pub struct Frame {
    pub ops: Vec<DrawOp>,
    pub cursor: Option<(u16, u16)>,
}

/// Clamps a vertical scroll offset into the pair the draw primitive takes.
/// An offset at or above 65000 resolves to no scroll at all: a defensive
/// guard, not a feature, against draw primitives that fault near the top
/// of the offset range.
pub fn get_croll(scroll: u16) -> (r: (u16, u16))
    ensures
        r == spec_get_croll(scroll),
        scroll >= 65000 ==> r == ((0u16, 0u16)),
        scroll < 65000 ==> r == ((scroll, 0u16)),
{
    if scroll >= 65000 {
        (0, 0)
    } else {
        (scroll, 0)
    }
}

/// Relies on unicode-width's `UnicodeWidthStr::width`: the string's
/// displayed width in terminal columns, a function of its characters
/// alone.
#[verifier::external_body]
fn str_display_width(s: &String) -> (r: usize)
    ensures
        r == display_width(s@),
{
    unicode_width::UnicodeWidthStr::width(s.as_str())
}

/// Relies on std's `str::repeat`: a string of exactly `n` space
/// characters.
#[verifier::external_body]
fn blank_string(n: usize) -> (r: String)
    ensures
        r@ == Seq::new(n as nat, |i: int| ' '),
{
    " ".repeat(n)
}

/// Resolves one span's style, keeping its text.
fn styled_span(s: &Span) -> (r: StyledSpan)
    ensures
        r@ == spec_styled_span(*s),
{
    StyledSpan { text: s.text.clone(), attrs: get_style(&s.style) }
}

/// Resolves every span of one line.
fn resolve_spans(line: &Vec<Span>) -> (r: Vec<StyledSpan>)
    ensures
        spans_view(r@) == spec_spans(*line),
{
    let mut r: Vec<StyledSpan> = Vec::new();
    let mut i: usize = 0;
    while i < line.len()
        invariant
            i <= line@.len(),
            r@.len() == i,
            forall|k: int| 0 <= k < i ==> (#[trigger] r@[k])@ == spec_styled_span(line@[k]),
        decreases line@.len() - i,
    {
        r.push(styled_span(&line[i]));
        i = i + 1;
    }
    proof {
        assert_seqs_equal!(spans_view(r@) == spec_spans(*line), k => {
            assert(r@[k]@ == spec_styled_span(line@[k]));
        });
    }
    r
}

/// Resolves every line of a paragraph.
fn resolve_lines(lines: &Vec<Vec<Span>>) -> (r: Vec<Vec<StyledSpan>>)
    ensures
        lines_view(r@) == spec_lines(*lines),
{
    let mut r: Vec<Vec<StyledSpan>> = Vec::new();
    let mut i: usize = 0;
    while i < lines.len()
        invariant
            i <= lines@.len(),
            r@.len() == i,
            forall|k: int|
                0 <= k < i ==> spans_view((#[trigger] r@[k])@) == spec_spans(lines@[k]),
        decreases lines@.len() - i,
    {
        r.push(resolve_spans(&lines[i]));
        i = i + 1;
    }
    proof {
        assert_seqs_equal!(lines_view(r@) == spec_lines(*lines), k => {
            assert(spans_view(r@[k]@) == spec_spans(lines@[k]));
        });
    }
    r
}

/// Resolves a block's title, borders and styles.
fn resolve_block(b: &BlockStyle) -> (r: ResolvedBlock)
    ensures
        r@ == spec_resolve_block(*b),
{
    ResolvedBlock {
        title: styled_span(&b.title),
        title_alignment: b.title_alignment,
        borders: get_borders(&b.borders),
        border_type: b.border_type,
        border_attrs: get_style(&b.border_style),
        fill_attrs: get_style(&b.fill_style),
    }
}

/// Resolves the rows of a list: the selected item's row carries the styled
/// highlight symbol and the highlight attributes patched over its spans'
/// own; while a selection exists every other row is prefixed with blanks of
/// the symbol's displayed width, and all rows keep their own span styles.
pub fn resolve_list_rows(
    items: &Vec<Vec<Span>>,
    selected: &ListSelection,
    highlight_style: &Style,
    highlight_symbol: &String,
) -> (r: Vec<ListRow>)
    ensures
        rows_view(r@) == spec_list_rows(
            items@,
            *selected,
            spec_get_style(*highlight_style),
            highlight_symbol@,
        ),
{
    let hl = get_style(highlight_style);
    let no_attrs = Attributes { fg: None, bg: None, modifiers: 0 };
    let has_selection = match selected {
        ListSelection::Unselected => false,
        ListSelection::Index(_) => true,
    };
    let pad: String = if has_selection {
        blank_string(str_display_width(highlight_symbol))
    } else {
        String::new()
    };
    let mut r: Vec<ListRow> = Vec::new();
    let mut i: usize = 0;
    while i < items.len()
        invariant
            i <= items@.len(),
            hl == spec_get_style(*highlight_style),
            no_attrs == spec_no_attrs(),
            has_selection == *selected is Index,
            pad@ == (if has_selection {
                Seq::new(display_width(highlight_symbol@), |k: int| ' ')
            } else {
                Seq::<char>::empty()
            }),
            r@.len() == i,
            forall|k: int|
                0 <= k < i ==> (#[trigger] r@[k])@ == spec_list_row(
                    items@[k],
                    spec_selected(*selected, k),
                    has_selection,
                    hl,
                    highlight_symbol@,
                ),
        decreases items@.len() - i,
    {
        let highlighted = match selected {
            ListSelection::Unselected => false,
            ListSelection::Index(s) => *s == i,
        };
        let row = if highlighted {
            let line = &items[i];
            let mut spans: Vec<StyledSpan> = Vec::new();
            let mut j: usize = 0;
            while j < line.len()
                invariant
                    j <= line@.len(),
                    hl == spec_get_style(*highlight_style),
                    spans@.len() == j,
                    forall|k: int|
                        0 <= k < j ==> (#[trigger] spans@[k])@ == (StyledSpanView {
                            text: line@[k].text@,
                            attrs: spec_patch_attrs(spec_get_style(line@[k].style), hl),
                        }),
                decreases line@.len() - j,
            {
                spans.push(
                    StyledSpan {
                        text: line[j].text.clone(),
                        attrs: patch_attrs(get_style(&line[j].style), hl),
                    },
                );
                j = j + 1;
            }
            let row = ListRow {
                prefix: StyledSpan {
                    text: highlight_symbol.clone(),
                    attrs: patch_attrs(no_attrs, hl),
                },
                spans,
            };
            proof {
                assert_seqs_equal!(
                    row@.spans == spec_list_row(
                        items@[i as int],
                        true,
                        has_selection,
                        hl,
                        highlight_symbol@,
                    ).spans,
                    k => {
                        assert(row.spans@[k]@ == (StyledSpanView {
                            text: line@[k].text@,
                            attrs: spec_patch_attrs(spec_get_style(line@[k].style), hl),
                        }));
                    }
                );
            }
            row
        } else {
            ListRow {
                prefix: StyledSpan { text: pad.clone(), attrs: no_attrs },
                spans: resolve_spans(&items[i]),
            }
        };
        r.push(row);
        i = i + 1;
    }
    proof {
        assert_seqs_equal!(
            rows_view(r@) == spec_list_rows(
                items@,
                *selected,
                spec_get_style(*highlight_style),
                highlight_symbol@,
            ),
            k => {
                assert(r@[k]@ == spec_list_row(
                    items@[k],
                    spec_selected(*selected, k),
                    has_selection,
                    hl,
                    highlight_symbol@,
                ));
            }
        );
    }
    r
}

/// Renders one element into `area`, appending its draw operations and
/// applying its cursor request over the one already recorded.
fn render_element(
    e: &Element,
    area: Rect,
    ops: &mut Vec<DrawOp>,
    cursor: &mut Option<(u16, u16)>,
)
    requires
        area.wf(),
    ensures
        ops_view(final(ops)@) == ops_view(old(ops)@) + spec_render_elem(*e, area).0,
        *final(cursor) == cursor_or(spec_render_elem(*e, area).1, *old(cursor)),
    decreases *e, 1int,
{
    match e {
        Element::Block { block } => {
            let rb = resolve_block(block);
            ops.push(DrawOp::Frame { area, block: rb });
            proof {
                assert(ops_view(ops@) =~= ops_view(old(ops)@) + spec_render_elem(*e, area).0);
            }
        },
        Element::Paragraph { block, lines, alignment, scroll, cursor: req } => {
            let rb = resolve_block(block);
            let rlines = resolve_lines(lines);
            let scr = get_croll(*scroll);
            ops.push(
                DrawOp::Text {
                    area,
                    block: rb,
                    lines: rlines,
                    alignment: *alignment,
                    scroll: scr,
                },
            );
            match get_cursor(*req) {
                Some(rel) => {
                    let col = rel.0;
                    let row = rel.1;
                    let ax = if col <= u16::MAX - area.x {
                        area.x + col
                    } else {
                        u16::MAX
                    };
                    let ay = if row <= u16::MAX - area.y {
                        area.y + row
                    } else {
                        u16::MAX
                    };
                    *cursor = Some((ax, ay));
                },
                None => {},
            }
            proof {
                assert(ops_view(ops@) =~= ops_view(old(ops)@) + spec_render_elem(*e, area).0);
            }
        },
        Element::ListItems {
            block,
            items,
            highlight_style,
            highlight_symbol,
            repeat_highlight_symbol,
            start_corner,
            selected,
        } => {
            let rb = resolve_block(block);
            let rows = resolve_list_rows(items, selected, highlight_style, highlight_symbol);
            ops.push(
                DrawOp::Rows {
                    area,
                    block: rb,
                    rows,
                    start_corner: *start_corner,
                    repeat_prefix: *repeat_highlight_symbol,
                },
            );
            proof {
                assert(ops_view(ops@) =~= ops_view(old(ops)@) + spec_render_elem(*e, area).0);
            }
        },
        Element::Layout { children, config } => {
            let area2 = match get_popup(&config.popup) {
                Some(p) => {
                    let a2 = centered_rect(p.0, p.1, area);
                    ops.push(DrawOp::Clear { area: a2 });
                    a2
                },
                None => area,
            };
            let rects = resolve_layout(
                config.direction,
                &config.constraints,
                children.len(),
                config.h_margin,
                config.v_margin,
                area2,
            );
            let ghost pre_ops = ops@;
            proof {
                assert(ops_view(pre_ops) =~= ops_view(old(ops)@) + (match spec_get_popup(
                    config.popup,
                ) {
                    Some(p) => seq![
                        DrawOpView::Clear {
                            area: spec_centered_rect(p.0, p.1, area),
                        },
                    ],
                    None => Seq::<DrawOpView>::empty(),
                }));
            }
            render_children(children, &rects, ops, cursor);
            proof {
                assert(ops_view(ops@) =~= ops_view(old(ops)@) + spec_render_elem(*e, area).0);
            }
        },
    }
}

/// Renders a sequence of elements, each into its rectangle, in order,
/// appending their draw operations; the last cursor request wins.
fn render_children(
    children: &Vec<Element>,
    rects: &Vec<Rect>,
    ops: &mut Vec<DrawOp>,
    cursor: &mut Option<(u16, u16)>,
)
    requires
        rects@.len() == children@.len(),
        forall|k: int| 0 <= k < rects@.len() ==> (#[trigger] rects@[k]).wf(),
    ensures
        ops_view(final(ops)@) == ops_view(old(ops)@) + spec_render_children(
            children@,
            rects@,
        ).0,
        *final(cursor) == cursor_or(spec_render_children(children@, rects@).1, *old(cursor)),
    decreases children@, 0int,
{
    let ghost cursor0 = *cursor;
    let mut j: usize = 0;
    while j < children.len()
        invariant
            j <= children@.len(),
            rects@.len() == children@.len(),
            forall|k: int| 0 <= k < rects@.len() ==> (#[trigger] rects@[k]).wf(),
            ops_view(ops@) == ops_view(old(ops)@) + spec_render_children(
                children@.take(j as int),
                rects@.take(j as int),
            ).0,
            *cursor == cursor_or(
                spec_render_children(children@.take(j as int), rects@.take(j as int)).1,
                cursor0,
            ),
        decreases children@.len() - j,
    {
        render_element(&children[j], rects[j], ops, cursor);
        proof {
            let t1 = children@.take(j + 1);
            let r1 = rects@.take(j + 1);
            assert(t1.drop_last() =~= children@.take(j as int));
            assert(r1.drop_last() =~= rects@.take(j as int));
            assert(t1.last() == children@[j as int]);
            assert(r1[t1.len() - 1] == rects@[j as int]);
        }
        j = j + 1;
    }
    proof {
        assert(children@.take(children@.len() as int) =~= children@);
        assert(rects@.take(rects@.len() as int) =~= rects@);
    }
}

/// Renders a whole frame: every top-level element drawn over the full
/// area, in order, producing the draw operations in paint order and the
/// cursor position to report — the last paragraph that requested one wins.
pub fn render(elements: &Vec<Element>, area: Rect) -> (r: Frame)
    requires
        area.wf(),
    ensures
        ops_view(r.ops@) == spec_render(elements@, area).0,
        r.cursor == spec_render(elements@, area).1,
{
    let mut rects: Vec<Rect> = Vec::new();
    let mut i: usize = 0;
    while i < elements.len()
        invariant
            area.wf(),
            i <= elements@.len(),
            rects@.len() == i,
            forall|k: int| 0 <= k < i ==> rects@[k] == area,
        decreases elements@.len() - i,
    {
        rects.push(area);
        i = i + 1;
    }
    let mut ops: Vec<DrawOp> = Vec::new();
    let mut cursor: Option<(u16, u16)> = None;
    render_children(elements, &rects, &mut ops, &mut cursor);
    proof {
        assert(rects@ =~= Seq::new(elements@.len(), |k: int| area));
        assert(ops_view(ops@) =~= spec_render(elements@, area).0);
    }
    Frame { ops, cursor }
}

} // verus!
