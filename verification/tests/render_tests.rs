use tui_core::element::{
    Alignment, BlockStyle, BorderModifier, BorderType, Corner, Cursor, Element, ListSelection,
    Popup, Span,
};
use tui_core::geometry::Rect;
use tui_core::layout::{Constraint, Direction};
use tui_core::render::{get_croll, render, DrawOp};
use tui_core::style::{Color, ResolvedColor, Style, TextModifier};
use tui_core::element::LayoutConfig;

fn plain_style() -> Style {
    Style { fg: Color::Unset, bg: Color::Unset, modifiers: vec![] }
}

fn plain_span(text: &str) -> Span {
    Span { text: String::from(text), style: plain_style() }
}

fn plain_block(title: &str) -> BlockStyle {
    BlockStyle {
        title: plain_span(title),
        title_alignment: Alignment::Left,
        borders: vec![BorderModifier::All],
        border_type: BorderType::Plain,
        border_style: plain_style(),
        fill_style: plain_style(),
    }
}

fn area(x: u16, y: u16, width: u16, height: u16) -> Rect {
    Rect { x, y, width, height }
}

#[test]
fn oversized_scroll_clamps_to_zero() {
    assert_eq!(get_croll(65000), (0, 0));
    assert_eq!(get_croll(65535), (0, 0));
    assert_eq!(get_croll(64999), (64999, 0));
    assert_eq!(get_croll(0), (0, 0));
}

#[test]
fn paragraph_scroll_is_clamped_in_the_draw_operation() {
    let elems = vec![Element::Paragraph {
        block: plain_block(""),
        lines: vec![vec![plain_span("hello")]],
        alignment: Alignment::Left,
        scroll: 65000,
        cursor: Cursor::Hidden,
    }];
    let frame = render(&elems, area(0, 0, 20, 5));
    assert_eq!(frame.ops.len(), 1);
    match &frame.ops[0] {
        DrawOp::Text { scroll, .. } => assert_eq!(*scroll, (0, 0)),
        other => panic!("expected a text operation, got {:?}", other),
    }
    assert_eq!(frame.cursor, None);
}

#[test]
fn selected_list_item_gets_highlight_style_and_symbol() {
    let highlight = Style { fg: Color::Red, bg: Color::Unset, modifiers: vec![TextModifier::Bold] };
    let elems = vec![Element::ListItems {
        block: plain_block("list"),
        items: vec![
            vec![plain_span("zero")],
            vec![plain_span("one")],
            vec![plain_span("two")],
        ],
        highlight_style: highlight,
        highlight_symbol: String::from(">>"),
        repeat_highlight_symbol: false,
        start_corner: Corner::TopLeft,
        selected: ListSelection::Index(1),
    }];
    let frame = render(&elems, area(0, 0, 30, 10));
    assert_eq!(frame.ops.len(), 1);
    match &frame.ops[0] {
        DrawOp::Rows { rows, .. } => {
            assert_eq!(rows.len(), 3);
            // Unselected rows are padded with blanks of the symbol's
            // displayed width so the rows stay aligned.
            assert_eq!(rows[0].prefix.text, "  ");
            assert_eq!(rows[1].prefix.text, ">>");
            assert_eq!(rows[2].prefix.text, "  ");
            assert_eq!(rows[1].prefix.attrs.fg, Some(ResolvedColor::Red));
            assert_eq!(rows[1].prefix.attrs.modifiers, 1);
            assert_eq!(rows[0].prefix.attrs.fg, None);
            assert_eq!(rows[0].spans[0].attrs.fg, None);
            assert_eq!(rows[0].spans[0].attrs.modifiers, 0);
            assert_eq!(rows[1].spans[0].attrs.fg, Some(ResolvedColor::Red));
            assert_eq!(rows[1].spans[0].attrs.modifiers, 1);
            assert_eq!(rows[1].spans[0].text, "one");
            assert_eq!(rows[2].spans[0].attrs.fg, None);
        },
        other => panic!("expected a rows operation, got {:?}", other),
    }
}

#[test]
fn highlight_layers_over_span_styles_without_erasing_them() {
    // The highlight sets no background, so the span's own background must
    // survive; the span's modifiers and the highlight's are united.
    let highlight = Style { fg: Color::Red, bg: Color::Unset, modifiers: vec![TextModifier::Bold] };
    let own = Style {
        fg: Color::Green,
        bg: Color::Blue,
        modifiers: vec![TextModifier::Underlined],
    };
    let elems = vec![Element::ListItems {
        block: plain_block(""),
        items: vec![vec![Span { text: String::from("styled"), style: own }]],
        highlight_style: highlight,
        highlight_symbol: String::from("*"),
        repeat_highlight_symbol: false,
        start_corner: Corner::TopLeft,
        selected: ListSelection::Index(0),
    }];
    let frame = render(&elems, area(0, 0, 30, 5));
    match &frame.ops[0] {
        DrawOp::Rows { rows, .. } => {
            let attrs = rows[0].spans[0].attrs;
            assert_eq!(attrs.fg, Some(ResolvedColor::Red));
            assert_eq!(attrs.bg, Some(ResolvedColor::Blue));
            assert_eq!(attrs.modifiers, 1 | 8);
        },
        other => panic!("expected a rows operation, got {:?}", other),
    }
}

#[test]
fn without_a_selection_no_row_is_prefixed() {
    let elems = vec![Element::ListItems {
        block: plain_block(""),
        items: vec![vec![plain_span("zero")], vec![plain_span("one")]],
        highlight_style: plain_style(),
        highlight_symbol: String::from(">>"),
        repeat_highlight_symbol: false,
        start_corner: Corner::TopLeft,
        selected: ListSelection::Unselected,
    }];
    let frame = render(&elems, area(0, 0, 30, 5));
    match &frame.ops[0] {
        DrawOp::Rows { rows, .. } => {
            assert_eq!(rows[0].prefix.text, "");
            assert_eq!(rows[1].prefix.text, "");
        },
        other => panic!("expected a rows operation, got {:?}", other),
    }
}

#[test]
fn horizontal_layout_renders_children_into_their_rectangles() {
    let elems = vec![Element::Layout {
        children: vec![
            Element::Block { block: plain_block("a") },
            Element::Block { block: plain_block("b") },
        ],
        config: LayoutConfig {
            direction: Direction::Horizontal,
            constraints: vec![Constraint::Percentage(30), Constraint::Percentage(70)],
            h_margin: 0,
            v_margin: 0,
            popup: Popup::Off,
        },
    }];
    let frame = render(&elems, area(0, 0, 100, 10));
    assert_eq!(frame.ops.len(), 2);
    match &frame.ops[0] {
        DrawOp::Frame { area: a, block } => {
            assert_eq!(*a, area(0, 0, 30, 10));
            assert_eq!(block.title.text, "a");
            assert_eq!(block.borders, 15);
        },
        other => panic!("expected a frame operation, got {:?}", other),
    }
    match &frame.ops[1] {
        DrawOp::Frame { area: a, block } => {
            assert_eq!(*a, area(30, 0, 70, 10));
            assert_eq!(block.title.text, "b");
        },
        other => panic!("expected a frame operation, got {:?}", other),
    }
}

#[test]
fn popup_clears_its_region_before_children_draw() {
    let elems = vec![Element::Layout {
        children: vec![Element::Block { block: plain_block("popup") }],
        config: LayoutConfig {
            direction: Direction::Vertical,
            constraints: vec![],
            h_margin: 0,
            v_margin: 0,
            popup: Popup::Centered(50, 50),
        },
    }];
    let frame = render(&elems, area(0, 0, 100, 100));
    assert_eq!(frame.ops.len(), 2);
    assert_eq!(frame.ops[0], DrawOp::Clear { area: area(25, 25, 50, 50) });
    match &frame.ops[1] {
        DrawOp::Frame { area: a, .. } => assert_eq!(*a, area(25, 25, 50, 50)),
        other => panic!("expected a frame operation, got {:?}", other),
    }
}

#[test]
fn cursor_requests_translate_to_absolute_coordinates() {
    let elems = vec![Element::Layout {
        children: vec![
            Element::Block { block: plain_block("top") },
            Element::Paragraph {
                block: plain_block("bottom"),
                lines: vec![vec![plain_span("x")]],
                alignment: Alignment::Left,
                scroll: 0,
                cursor: Cursor::At(2, 3),
            },
        ],
        config: LayoutConfig {
            direction: Direction::Vertical,
            constraints: vec![Constraint::Length(5), Constraint::Length(5)],
            h_margin: 0,
            v_margin: 0,
            popup: Popup::Off,
        },
    }];
    let frame = render(&elems, area(0, 0, 10, 10));
    assert_eq!(frame.cursor, Some((2, 8)));
}

#[test]
fn hidden_cursors_leave_the_last_request_standing() {
    let para = |cursor: Cursor| Element::Paragraph {
        block: plain_block(""),
        lines: vec![],
        alignment: Alignment::Left,
        scroll: 0,
        cursor,
    };
    let elems = vec![para(Cursor::At(1, 1)), para(Cursor::Hidden), para(Cursor::At(4, 4))];
    let frame = render(&elems, area(0, 0, 10, 10));
    assert_eq!(frame.cursor, Some((4, 4)));
}

#[test]
fn paragraph_styles_and_alignment_are_resolved() {
    let styled = Span {
        text: String::from("bold"),
        style: Style { fg: Color::Yellow, bg: Color::Unset, modifiers: vec![TextModifier::Bold] },
    };
    let elems = vec![Element::Paragraph {
        block: plain_block("title"),
        lines: vec![vec![plain_span("plain"), styled]],
        alignment: Alignment::Center,
        scroll: 2,
        cursor: Cursor::Hidden,
    }];
    let frame = render(&elems, area(0, 0, 20, 5));
    match &frame.ops[0] {
        DrawOp::Text { lines, alignment, scroll, block, .. } => {
            assert_eq!(*alignment, Alignment::Center);
            assert_eq!(*scroll, (2, 0));
            assert_eq!(block.title.text, "title");
            assert_eq!(lines.len(), 1);
            assert_eq!(lines[0][0].text, "plain");
            assert_eq!(lines[0][0].attrs.fg, None);
            assert_eq!(lines[0][1].text, "bold");
            assert_eq!(lines[0][1].attrs.fg, Some(ResolvedColor::Yellow));
            assert_eq!(lines[0][1].attrs.modifiers, 1);
        },
        other => panic!("expected a text operation, got {:?}", other),
    }
}

#[test]
fn empty_layout_draws_nothing() {
    let elems = vec![Element::Layout {
        children: vec![],
        config: LayoutConfig {
            direction: Direction::Horizontal,
            constraints: vec![],
            h_margin: 0,
            v_margin: 0,
            popup: Popup::Off,
        },
    }];
    let frame = render(&elems, area(0, 0, 10, 10));
    assert!(frame.ops.is_empty());
    assert_eq!(frame.cursor, None);
}

#[test]
fn nested_layouts_recurse_into_sub_rectangles() {
    let inner = Element::Layout {
        children: vec![
            Element::Block { block: plain_block("q1") },
            Element::Block { block: plain_block("q2") },
        ],
        config: LayoutConfig {
            direction: Direction::Vertical,
            constraints: vec![Constraint::Percentage(50), Constraint::Percentage(50)],
            h_margin: 0,
            v_margin: 0,
            popup: Popup::Off,
        },
    };
    let elems = vec![Element::Layout {
        children: vec![inner, Element::Block { block: plain_block("right") }],
        config: LayoutConfig {
            direction: Direction::Horizontal,
            constraints: vec![Constraint::Percentage(50), Constraint::Percentage(50)],
            h_margin: 0,
            v_margin: 0,
            popup: Popup::Off,
        },
    }];
    let frame = render(&elems, area(0, 0, 40, 20));
    assert_eq!(frame.ops.len(), 3);
    let areas: Vec<Rect> = frame
        .ops
        .iter()
        .map(|op| match op {
            DrawOp::Frame { area, .. } => *area,
            other => panic!("expected frame operations only, got {:?}", other),
        })
        .collect();
    assert_eq!(areas, vec![area(0, 0, 20, 10), area(0, 10, 20, 10), area(20, 0, 20, 20)]);
}
