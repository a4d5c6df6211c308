use tui_core::element::{
    get_borders, get_cursor, get_list_selection, get_popup, BorderModifier, Cursor,
    ListSelection, Popup,
};
use tui_core::geometry::{Bounds, Rect};

#[test]
fn border_selectors_fold_into_edge_bits() {
    assert_eq!(get_borders(&vec![]), 0);
    assert_eq!(get_borders(&vec![BorderModifier::Empty]), 0);
    assert_eq!(get_borders(&vec![BorderModifier::Top, BorderModifier::Left]), 1 | 8);
    assert_eq!(get_borders(&vec![BorderModifier::All]), 15);
    assert_eq!(
        get_borders(&vec![BorderModifier::Bottom, BorderModifier::Right, BorderModifier::Bottom]),
        4 | 2
    );
}

#[test]
fn cursor_requests_unpack() {
    assert_eq!(get_cursor(Cursor::Hidden), None);
    assert_eq!(get_cursor(Cursor::At(3, 4)), Some((3, 4)));
}

#[test]
fn list_selection_unpacks() {
    assert_eq!(get_list_selection(&ListSelection::Unselected), None);
    assert_eq!(get_list_selection(&ListSelection::Index(2)), Some(2));
}

#[test]
fn popup_request_unpacks() {
    assert_eq!(get_popup(&Popup::Off), None);
    assert_eq!(get_popup(&Popup::Centered(30, 40)), Some((30, 40)));
}

#[test]
fn bounds_become_the_full_screen_rectangle() {
    let r = Bounds { width: 80, height: 24 }.to_rect();
    assert_eq!(r, Rect { x: 0, y: 0, width: 80, height: 24 });
}
