//! Input translation: raw terminal key notifications to the host's
//! abstract key vocabulary.
//!
//! Translation is a total function over the raw variant set: every raw key
//! maps to exactly one abstract code, and composite device classes (media
//! keys, modifier-only keys) map through nested sub-translations with the
//! same totality. A single character maps to a scalar-text variant carrying
//! the literal character as a string, so codepoints outside the ASCII range
//! survive the translation.

use vstd::prelude::*;

verus! {

/// A raw key, as the terminal driver reports it.
#[derive(Clone, Copy, PartialEq, Eq, Structural, Debug)]
pub enum RawKeyCode {
    Backspace,
    Enter,
    Left,
    Right,
    Up,
    Down,
    Home,
    End,
    PageUp,
    PageDown,
    Tab,
    BackTab,
    Delete,
    Insert,
    F(u8),
    Char(char),
    Null,
    Esc,
    CapsLock,
    ScrollLock,
    NumLock,
    PrintScreen,
    Pause,
    Menu,
    KeypadBegin,
    Media(RawMediaKeyCode),
    Modifier(RawModifierKeyCode),
}

/// A raw media key, as the terminal driver reports it.
#[derive(Clone, Copy, PartialEq, Eq, Structural, Debug)]
pub enum RawMediaKeyCode {
    Play,
    Pause,
    PlayPause,
    Reverse,
    Stop,
    FastForward,
    Rewind,
    TrackNext,
    TrackPrevious,
    Record,
    LowerVolume,
    RaiseVolume,
    MuteVolume,
}

/// A raw modifier-only key, as the terminal driver reports it.
#[derive(Clone, Copy, PartialEq, Eq, Structural, Debug)]
pub enum RawModifierKeyCode {
    IsoLevel3Shift,
    IsoLevel5Shift,
    LeftAlt,
    LeftControl,
    LeftHyper,
    LeftMeta,
    LeftShift,
    LeftSuper,
    RightAlt,
    RightControl,
    RightHyper,
    RightMeta,
    RightShift,
    RightSuper,
}

/// An abstract media key in the host's vocabulary.
#[derive(Clone, Copy, PartialEq, Eq, Structural, Debug)]
pub enum MediaKeyCode {
    Play,
    Pause,
    PlayPause,
    Reverse,
    Stop,
    FastForward,
    Rewind,
    TrackNext,
    TrackPrevious,
    Record,
    LowerVolume,
    RaiseVolume,
    MuteVolume,
}

/// An abstract modifier-only key in the host's vocabulary.
#[derive(Clone, Copy, PartialEq, Eq, Structural, Debug)]
pub enum ModifierKeyCode {
    IsoLevel3Shift,
    IsoLevel5Shift,
    LeftAlt,
    LeftControl,
    LeftHyper,
    LeftMeta,
    LeftShift,
    LeftSuper,
    RightAlt,
    RightControl,
    RightHyper,
    RightMeta,
    RightShift,
    RightSuper,
}

/// An abstract key code in the host's vocabulary. A single character
/// arrives as `Scalar` carrying the character as a string.
#[derive(Debug, PartialEq)]
pub enum KeyCode {
    BackTab,
    Backspace,
    CapsLock,
    Delete,
    Down,
    End,
    Enter,
    Esc,
    Function(u8),
    Home,
    Insert,
    KeypadBegin,
    Left,
    Media(MediaKeyCode),
    Menu,
    Modifier(ModifierKeyCode),
    Null,
    NumLock,
    PageDown,
    PageUp,
    Pause,
    PrintScreen,
    Right,
    Scalar(String),
    ScrollLock,
    Tab,
    Up,
}

/// The mathematical value of an abstract key code: `Scalar` text as a
/// character sequence, every other variant as itself.
pub enum KeyCodeView {
    BackTab,
    Backspace,
    CapsLock,
    Delete,
    Down,
    End,
    Enter,
    Esc,
    Function(u8),
    Home,
    Insert,
    KeypadBegin,
    Left,
    Media(MediaKeyCode),
    Menu,
    Modifier(ModifierKeyCode),
    Null,
    NumLock,
    PageDown,
    PageUp,
    Pause,
    PrintScreen,
    Right,
    Scalar(Seq<char>),
    ScrollLock,
    Tab,
    Up,
}

impl View for KeyCode {
    type V = KeyCodeView;

    open spec fn view(&self) -> KeyCodeView {
        match self {
            KeyCode::BackTab => KeyCodeView::BackTab,
            KeyCode::Backspace => KeyCodeView::Backspace,
            KeyCode::CapsLock => KeyCodeView::CapsLock,
            KeyCode::Delete => KeyCodeView::Delete,
            KeyCode::Down => KeyCodeView::Down,
            KeyCode::End => KeyCodeView::End,
            KeyCode::Enter => KeyCodeView::Enter,
            KeyCode::Esc => KeyCodeView::Esc,
            KeyCode::Function(n) => KeyCodeView::Function(*n),
            KeyCode::Home => KeyCodeView::Home,
            KeyCode::Insert => KeyCodeView::Insert,
            KeyCode::KeypadBegin => KeyCodeView::KeypadBegin,
            KeyCode::Left => KeyCodeView::Left,
            KeyCode::Media(m) => KeyCodeView::Media(*m),
            KeyCode::Menu => KeyCodeView::Menu,
            KeyCode::Modifier(m) => KeyCodeView::Modifier(*m),
            KeyCode::Null => KeyCodeView::Null,
            KeyCode::NumLock => KeyCodeView::NumLock,
            KeyCode::PageDown => KeyCodeView::PageDown,
            KeyCode::PageUp => KeyCodeView::PageUp,
            KeyCode::Pause => KeyCodeView::Pause,
            KeyCode::PrintScreen => KeyCodeView::PrintScreen,
            KeyCode::Right => KeyCodeView::Right,
            KeyCode::Scalar(s) => KeyCodeView::Scalar(s@),
            KeyCode::ScrollLock => KeyCodeView::ScrollLock,
            KeyCode::Tab => KeyCodeView::Tab,
            KeyCode::Up => KeyCodeView::Up,
        }
    }
}

/// The abstract media key for a raw media key.
pub open spec fn spec_get_key_media(mk: RawMediaKeyCode) -> MediaKeyCode {
    match mk {
        RawMediaKeyCode::Play => MediaKeyCode::Play,
        RawMediaKeyCode::Pause => MediaKeyCode::Pause,
        RawMediaKeyCode::PlayPause => MediaKeyCode::PlayPause,
        RawMediaKeyCode::Reverse => MediaKeyCode::Reverse,
        RawMediaKeyCode::Stop => MediaKeyCode::Stop,
        RawMediaKeyCode::FastForward => MediaKeyCode::FastForward,
        RawMediaKeyCode::Rewind => MediaKeyCode::Rewind,
        RawMediaKeyCode::TrackNext => MediaKeyCode::TrackNext,
        RawMediaKeyCode::TrackPrevious => MediaKeyCode::TrackPrevious,
        RawMediaKeyCode::Record => MediaKeyCode::Record,
        RawMediaKeyCode::LowerVolume => MediaKeyCode::LowerVolume,
        RawMediaKeyCode::RaiseVolume => MediaKeyCode::RaiseVolume,
        RawMediaKeyCode::MuteVolume => MediaKeyCode::MuteVolume,
    }
}

/// The abstract modifier key for a raw modifier key.
pub open spec fn spec_get_key_modifier(km: RawModifierKeyCode) -> ModifierKeyCode {
    match km {
        RawModifierKeyCode::IsoLevel3Shift => ModifierKeyCode::IsoLevel3Shift,
        RawModifierKeyCode::IsoLevel5Shift => ModifierKeyCode::IsoLevel5Shift,
        RawModifierKeyCode::LeftAlt => ModifierKeyCode::LeftAlt,
        RawModifierKeyCode::LeftControl => ModifierKeyCode::LeftControl,
        RawModifierKeyCode::LeftHyper => ModifierKeyCode::LeftHyper,
        RawModifierKeyCode::LeftMeta => ModifierKeyCode::LeftMeta,
        RawModifierKeyCode::LeftShift => ModifierKeyCode::LeftShift,
        RawModifierKeyCode::LeftSuper => ModifierKeyCode::LeftSuper,
        RawModifierKeyCode::RightAlt => ModifierKeyCode::RightAlt,
        RawModifierKeyCode::RightControl => ModifierKeyCode::RightControl,
        RawModifierKeyCode::RightHyper => ModifierKeyCode::RightHyper,
        RawModifierKeyCode::RightMeta => ModifierKeyCode::RightMeta,
        RawModifierKeyCode::RightShift => ModifierKeyCode::RightShift,
        RawModifierKeyCode::RightSuper => ModifierKeyCode::RightSuper,
    }
}

/// The abstract key code for a raw key: one abstract variant per raw
/// variant, with a character carried as its one-character text.
pub open spec fn spec_get_key_code(code: RawKeyCode) -> KeyCodeView {
    match code {
        RawKeyCode::BackTab => KeyCodeView::BackTab,
        RawKeyCode::Backspace => KeyCodeView::Backspace,
        RawKeyCode::CapsLock => KeyCodeView::CapsLock,
        RawKeyCode::Delete => KeyCodeView::Delete,
        RawKeyCode::Down => KeyCodeView::Down,
        RawKeyCode::End => KeyCodeView::End,
        RawKeyCode::Enter => KeyCodeView::Enter,
        RawKeyCode::Esc => KeyCodeView::Esc,
        RawKeyCode::F(n) => KeyCodeView::Function(n),
        RawKeyCode::Home => KeyCodeView::Home,
        RawKeyCode::Insert => KeyCodeView::Insert,
        RawKeyCode::KeypadBegin => KeyCodeView::KeypadBegin,
        RawKeyCode::Left => KeyCodeView::Left,
        RawKeyCode::Media(mk) => KeyCodeView::Media(spec_get_key_media(mk)),
        RawKeyCode::Menu => KeyCodeView::Menu,
        RawKeyCode::Modifier(km) => KeyCodeView::Modifier(spec_get_key_modifier(km)),
        RawKeyCode::Null => KeyCodeView::Null,
        RawKeyCode::NumLock => KeyCodeView::NumLock,
        RawKeyCode::PageDown => KeyCodeView::PageDown,
        RawKeyCode::PageUp => KeyCodeView::PageUp,
        RawKeyCode::Pause => KeyCodeView::Pause,
        RawKeyCode::PrintScreen => KeyCodeView::PrintScreen,
        RawKeyCode::Right => KeyCodeView::Right,
        RawKeyCode::Char(ch) => KeyCodeView::Scalar(seq![ch]),
        RawKeyCode::ScrollLock => KeyCodeView::ScrollLock,
        RawKeyCode::Tab => KeyCodeView::Tab,
        RawKeyCode::Up => KeyCodeView::Up,
    }
}

/// Relies on std's `String::from` for `char`: the returned string holds
/// exactly that one character.
#[verifier::external_body]
fn string_of_char(c: char) -> (r: String)
    ensures
        r@ == seq![c],
{
    String::from(c)
}

/// Translates a raw media key; total over the raw variant set.
pub fn get_key_media(mk: RawMediaKeyCode) -> (r: MediaKeyCode)
    ensures
        r == spec_get_key_media(mk),
{
    match mk {
        RawMediaKeyCode::Play => MediaKeyCode::Play,
        RawMediaKeyCode::Pause => MediaKeyCode::Pause,
        RawMediaKeyCode::PlayPause => MediaKeyCode::PlayPause,
        RawMediaKeyCode::Reverse => MediaKeyCode::Reverse,
        RawMediaKeyCode::Stop => MediaKeyCode::Stop,
        RawMediaKeyCode::FastForward => MediaKeyCode::FastForward,
        RawMediaKeyCode::Rewind => MediaKeyCode::Rewind,
        RawMediaKeyCode::TrackNext => MediaKeyCode::TrackNext,
        RawMediaKeyCode::TrackPrevious => MediaKeyCode::TrackPrevious,
        RawMediaKeyCode::Record => MediaKeyCode::Record,
        RawMediaKeyCode::LowerVolume => MediaKeyCode::LowerVolume,
        RawMediaKeyCode::RaiseVolume => MediaKeyCode::RaiseVolume,
        RawMediaKeyCode::MuteVolume => MediaKeyCode::MuteVolume,
    }
}

/// Translates a raw modifier key; total over the raw variant set.
pub fn get_key_modifier(km: RawModifierKeyCode) -> (r: ModifierKeyCode)
    ensures
        r == spec_get_key_modifier(km),
{
    match km {
        RawModifierKeyCode::IsoLevel3Shift => ModifierKeyCode::IsoLevel3Shift,
        RawModifierKeyCode::IsoLevel5Shift => ModifierKeyCode::IsoLevel5Shift,
        RawModifierKeyCode::LeftAlt => ModifierKeyCode::LeftAlt,
        RawModifierKeyCode::LeftControl => ModifierKeyCode::LeftControl,
        RawModifierKeyCode::LeftHyper => ModifierKeyCode::LeftHyper,
        RawModifierKeyCode::LeftMeta => ModifierKeyCode::LeftMeta,
        RawModifierKeyCode::LeftShift => ModifierKeyCode::LeftShift,
        RawModifierKeyCode::LeftSuper => ModifierKeyCode::LeftSuper,
        RawModifierKeyCode::RightAlt => ModifierKeyCode::RightAlt,
        RawModifierKeyCode::RightControl => ModifierKeyCode::RightControl,
        RawModifierKeyCode::RightHyper => ModifierKeyCode::RightHyper,
        RawModifierKeyCode::RightMeta => ModifierKeyCode::RightMeta,
        RawModifierKeyCode::RightShift => ModifierKeyCode::RightShift,
        RawModifierKeyCode::RightSuper => ModifierKeyCode::RightSuper,
    }
}

/// Translates a raw key into the host's abstract vocabulary. The function
/// is total over the raw variant set — it never fails — and each raw
/// variant maps to exactly one abstract variant.
pub fn get_key_code(code: RawKeyCode) -> (r: KeyCode)
    ensures
        r@ == spec_get_key_code(code),
{
    match code {
        RawKeyCode::BackTab => KeyCode::BackTab,
        RawKeyCode::Backspace => KeyCode::Backspace,
        RawKeyCode::CapsLock => KeyCode::CapsLock,
        RawKeyCode::Delete => KeyCode::Delete,
        RawKeyCode::Down => KeyCode::Down,
        RawKeyCode::End => KeyCode::End,
        RawKeyCode::Enter => KeyCode::Enter,
        RawKeyCode::Esc => KeyCode::Esc,
        RawKeyCode::F(n) => KeyCode::Function(n),
        RawKeyCode::Home => KeyCode::Home,
        RawKeyCode::Insert => KeyCode::Insert,
        RawKeyCode::KeypadBegin => KeyCode::KeypadBegin,
        RawKeyCode::Left => KeyCode::Left,
        RawKeyCode::Media(mk) => KeyCode::Media(get_key_media(mk)),
        RawKeyCode::Menu => KeyCode::Menu,
        RawKeyCode::Modifier(km) => KeyCode::Modifier(get_key_modifier(km)),
        RawKeyCode::Null => KeyCode::Null,
        RawKeyCode::NumLock => KeyCode::NumLock,
        RawKeyCode::PageDown => KeyCode::PageDown,
        RawKeyCode::PageUp => KeyCode::PageUp,
        RawKeyCode::Pause => KeyCode::Pause,
        RawKeyCode::PrintScreen => KeyCode::PrintScreen,
        RawKeyCode::Right => KeyCode::Right,
        RawKeyCode::Char(ch) => KeyCode::Scalar(string_of_char(ch)),
        RawKeyCode::ScrollLock => KeyCode::ScrollLock,
        RawKeyCode::Tab => KeyCode::Tab,
        RawKeyCode::Up => KeyCode::Up,
    }
}

/// Law: input translation is deterministic — equal raw keys always
/// translate to equal abstract codes; together with the absence of any
/// precondition on [`get_key_code`], translation is a total function over
/// the raw variant set.
pub proof fn lemma_translation_deterministic(a: RawKeyCode, b: RawKeyCode)
    requires
        a == b,
    ensures
        spec_get_key_code(a) == spec_get_key_code(b),
{
}

} // verus!
