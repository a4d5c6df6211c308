use tui_core::geometry::Rect;
use tui_core::layout::{centered_rect, padded_constraints, resolve_layout, Constraint, Direction};

fn area(x: u16, y: u16, width: u16, height: u16) -> Rect {
    Rect { x, y, width, height }
}

#[test]
fn horizontal_percentages_split_exactly() {
    let cs = vec![Constraint::Percentage(30), Constraint::Percentage(70)];
    let rects = resolve_layout(Direction::Horizontal, &cs, 2, 0, 0, area(0, 0, 100, 10));
    assert_eq!(rects, vec![area(0, 0, 30, 10), area(30, 0, 70, 10)]);
}

#[test]
fn vertical_lengths_tile_with_last_taking_rest() {
    let cs = vec![Constraint::Length(3), Constraint::Length(4), Constraint::Min(2)];
    let rects = resolve_layout(Direction::Vertical, &cs, 3, 0, 0, area(0, 0, 20, 20));
    assert_eq!(rects, vec![area(0, 0, 20, 3), area(0, 3, 20, 4), area(0, 7, 20, 13)]);
    let total: u32 = rects.iter().map(|r| r.height as u32).sum();
    assert_eq!(total, 20);
    for w in rects.windows(2) {
        assert_eq!(w[0].y + w[0].height, w[1].y);
    }
}

#[test]
fn missing_constraints_default_to_equal_ratio() {
    let short: Vec<Constraint> = vec![];
    let explicit = vec![Constraint::Ratio(1, 1), Constraint::Ratio(1, 1)];
    let a = resolve_layout(Direction::Horizontal, &short, 2, 0, 0, area(0, 0, 50, 5));
    let b = resolve_layout(Direction::Horizontal, &explicit, 2, 0, 0, area(0, 0, 50, 5));
    assert_eq!(a, b);
    assert_eq!(padded_constraints(&short, 2), explicit);
}

#[test]
fn extra_constraints_are_truncated_and_still_tile() {
    let cs = vec![
        Constraint::Percentage(10),
        Constraint::Percentage(20),
        Constraint::Percentage(30),
    ];
    let rects = resolve_layout(Direction::Horizontal, &cs, 2, 0, 0, area(0, 0, 100, 10));
    assert_eq!(rects, vec![area(0, 0, 10, 10), area(10, 0, 90, 10)]);
}

#[test]
fn zero_children_produce_no_rectangles() {
    let cs = vec![Constraint::Percentage(50)];
    let rects = resolve_layout(Direction::Horizontal, &cs, 0, 0, 0, area(0, 0, 100, 10));
    assert!(rects.is_empty());
}

#[test]
fn zero_size_area_degrades_to_zero_size_rectangles() {
    let cs = vec![Constraint::Length(5), Constraint::Length(5), Constraint::Length(5)];
    let rects = resolve_layout(Direction::Horizontal, &cs, 3, 0, 0, area(0, 0, 0, 0));
    assert_eq!(rects.len(), 3);
    for r in &rects {
        assert_eq!(r.width, 0);
        assert_eq!(r.height, 0);
    }
}

#[test]
fn margins_shrink_the_area_uniformly() {
    let cs = vec![Constraint::Ratio(1, 1)];
    let rects = resolve_layout(Direction::Vertical, &cs, 1, 1, 2, area(0, 0, 10, 10));
    assert_eq!(rects, vec![area(1, 2, 8, 6)]);
}

#[test]
fn oversized_margins_clamp_to_zero_size() {
    let cs = vec![Constraint::Ratio(1, 1)];
    let rects = resolve_layout(Direction::Vertical, &cs, 1, 50, 50, area(0, 0, 10, 10));
    assert_eq!(rects.len(), 1);
    assert_eq!(rects[0].width, 0);
    assert_eq!(rects[0].height, 0);
}

#[test]
fn centered_popup_on_even_area() {
    let r = centered_rect(50, 50, area(0, 0, 100, 100));
    assert_eq!(r, area(25, 25, 50, 50));
}

#[test]
fn centered_popup_on_odd_area_rounds_consistently() {
    let r = centered_rect(50, 50, area(0, 0, 101, 101));
    assert_eq!(r, area(25, 25, 50, 50));
}

#[test]
fn centered_popup_respects_origin_offset() {
    let r = centered_rect(50, 50, area(10, 20, 100, 100));
    assert_eq!(r, area(35, 45, 50, 50));
}

#[test]
fn max_bound_is_kept_when_another_chunk_can_absorb_the_slack() {
    let cs = vec![Constraint::Length(2), Constraint::Max(3)];
    let rects = resolve_layout(Direction::Horizontal, &cs, 2, 0, 0, area(0, 0, 20, 4));
    assert_eq!(rects, vec![area(0, 0, 17, 4), area(17, 0, 3, 4)]);
}

#[test]
fn all_max_constraints_let_tiling_override_the_first_bound() {
    let cs = vec![Constraint::Max(3), Constraint::Max(4)];
    let rects = resolve_layout(Direction::Horizontal, &cs, 2, 0, 0, area(0, 0, 20, 4));
    assert_eq!(rects, vec![area(0, 0, 16, 4), area(16, 0, 4, 4)]);
}

#[test]
fn ratio_with_zero_denominator_asks_for_everything() {
    let cs = vec![Constraint::Ratio(1, 0), Constraint::Length(4)];
    let rects = resolve_layout(Direction::Horizontal, &cs, 2, 0, 0, area(0, 0, 30, 4));
    assert_eq!(rects, vec![area(0, 0, 30, 4), area(30, 0, 0, 4)]);
}
