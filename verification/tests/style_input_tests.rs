use tui_core::input::{
    get_key_code, get_key_media, get_key_modifier, KeyCode, MediaKeyCode, ModifierKeyCode,
    RawKeyCode, RawMediaKeyCode, RawModifierKeyCode,
};
use tui_core::style::{get_color, get_style, Color, ResolvedColor, Style, TextModifier};

#[test]
fn unset_colors_never_override_terminal_defaults() {
    let style = Style { fg: Color::Unset, bg: Color::Unset, modifiers: vec![] };
    let attrs = get_style(&style);
    assert_eq!(attrs.fg, None);
    assert_eq!(attrs.bg, None);
    assert_eq!(attrs.modifiers, 0);
}

#[test]
fn style_resolution_is_deterministic() {
    let style = Style {
        fg: Color::Red,
        bg: Color::Indexed(42),
        modifiers: vec![TextModifier::Bold, TextModifier::Underlined],
    };
    let again = Style {
        fg: Color::Red,
        bg: Color::Indexed(42),
        modifiers: vec![TextModifier::Bold, TextModifier::Underlined],
    };
    assert_eq!(get_style(&style), get_style(&again));
    assert_eq!(get_style(&style), get_style(&style));
}

#[test]
fn explicit_colors_resolve_to_explicit_attributes() {
    let style = Style { fg: Color::Red, bg: Color::Rgb(1, 2, 3), modifiers: vec![] };
    let attrs = get_style(&style);
    assert_eq!(attrs.fg, Some(ResolvedColor::Red));
    assert_eq!(attrs.bg, Some(ResolvedColor::Rgb(1, 2, 3)));
}

#[test]
fn modifiers_combine_as_a_bitset_union() {
    let style = Style {
        fg: Color::Unset,
        bg: Color::Unset,
        modifiers: vec![TextModifier::Bold, TextModifier::Underlined, TextModifier::Bold],
    };
    let attrs = get_style(&style);
    assert_eq!(attrs.modifiers, 1 | 8);
}

#[test]
fn every_named_color_resolves() {
    assert_eq!(get_color(Color::Black), ResolvedColor::Black);
    assert_eq!(get_color(Color::Gray), ResolvedColor::Gray);
    assert_eq!(get_color(Color::DarkGray), ResolvedColor::DarkGray);
    assert_eq!(get_color(Color::LightMagenta), ResolvedColor::LightMagenta);
    assert_eq!(get_color(Color::Indexed(7)), ResolvedColor::Indexed(7));
    assert_eq!(get_color(Color::Unset), ResolvedColor::Reset);
}

#[test]
fn character_keys_become_scalar_text() {
    match get_key_code(RawKeyCode::Char('a')) {
        KeyCode::Scalar(s) => assert_eq!(s.as_str(), "a"),
        other => panic!("expected a scalar, got {:?}", other),
    }
}

#[test]
fn non_ascii_characters_survive_translation() {
    match get_key_code(RawKeyCode::Char('é')) {
        KeyCode::Scalar(s) => assert_eq!(s.as_str(), "é"),
        other => panic!("expected a scalar, got {:?}", other),
    }
}

#[test]
fn function_keys_keep_their_number() {
    assert_eq!(get_key_code(RawKeyCode::F(5)), KeyCode::Function(5));
}

#[test]
fn media_keys_translate_through_the_nested_map() {
    assert_eq!(
        get_key_code(RawKeyCode::Media(RawMediaKeyCode::PlayPause)),
        KeyCode::Media(MediaKeyCode::PlayPause)
    );
    assert_eq!(get_key_media(RawMediaKeyCode::MuteVolume), MediaKeyCode::MuteVolume);
}

#[test]
fn modifier_keys_translate_through_the_nested_map() {
    assert_eq!(
        get_key_code(RawKeyCode::Modifier(RawModifierKeyCode::LeftShift)),
        KeyCode::Modifier(ModifierKeyCode::LeftShift)
    );
    assert_eq!(
        get_key_modifier(RawModifierKeyCode::IsoLevel3Shift),
        ModifierKeyCode::IsoLevel3Shift
    );
}

#[test]
fn translation_is_stable_across_repeated_calls() {
    let keys = [
        RawKeyCode::Esc,
        RawKeyCode::Enter,
        RawKeyCode::Char('é'),
        RawKeyCode::F(12),
        RawKeyCode::Media(RawMediaKeyCode::Stop),
        RawKeyCode::Modifier(RawModifierKeyCode::RightSuper),
        RawKeyCode::KeypadBegin,
    ];
    for k in keys {
        assert_eq!(get_key_code(k), get_key_code(k));
    }
}
