//! Keys and mouse events, as the interface reads them from the terminal.
use crossterm::event::KeyCode;
use vstd::prelude::*;

verus! {

broadcast use vstd::string::group_string_axioms;

/// A key of the keyboard.
#[derive(Debug, Clone, Copy, PartialEq, Eq, Structural, Hash)]
pub enum Key {
    Backspace,
    Enter,
    Left,
    Right,
    Up,
    Down,
    Home,
    End,
    PageUp,
    PageDown,
    Tab,
    BackTab,
    Delete,
    Insert,
    F(u8),
    Char(char),
    Null,
    Esc,
    CapsLock,
    ScrollLock,
    NumLock,
    PrintScreen,
    Pause,
    Menu,
    KeypadBegin,
}

/// The decimal digits of `n`.
pub open spec fn decimal(n: nat) -> Seq<char>
    decreases n,
{
    if n < 10 {
        seq![digit(n)]
    } else {
        decimal(n / 10) + seq![digit(n % 10)]
    }
}

/// The decimal digit of `d`, for `d` below ten.
pub open spec fn digit(d: nat) -> char {
    if d == 0 {
        '0'
    } else if d == 1 {
        '1'
    } else if d == 2 {
        '2'
    } else if d == 3 {
        '3'
    } else if d == 4 {
        '4'
    } else if d == 5 {
        '5'
    } else if d == 6 {
        '6'
    } else if d == 7 {
        '7'
    } else if d == 8 {
        '8'
    } else {
        '9'
    }
}

#[verifier::external_type_specification]
pub struct ExKeyCode(crossterm::event::KeyCode);

#[verifier::external_type_specification]
pub struct ExMediaKeyCode(crossterm::event::MediaKeyCode);

#[verifier::external_type_specification]
pub struct ExModifierKeyCode(crossterm::event::ModifierKeyCode);

/// The crossterm key code of `key`.
pub open spec fn key_code_of(key: Key) -> KeyCode {
    match key {
        Key::Backspace => KeyCode::Backspace,
        Key::Enter => KeyCode::Enter,
        Key::Left => KeyCode::Left,
        Key::Right => KeyCode::Right,
        Key::Up => KeyCode::Up,
        Key::Down => KeyCode::Down,
        Key::Home => KeyCode::Home,
        Key::End => KeyCode::End,
        Key::PageUp => KeyCode::PageUp,
        Key::PageDown => KeyCode::PageDown,
        Key::Tab => KeyCode::Tab,
        Key::BackTab => KeyCode::BackTab,
        Key::Delete => KeyCode::Delete,
        Key::Insert => KeyCode::Insert,
        Key::F(n) => KeyCode::F(n),
        Key::Char(c) => KeyCode::Char(c),
        Key::Null => KeyCode::Null,
        Key::Esc => KeyCode::Esc,
        Key::CapsLock => KeyCode::CapsLock,
        Key::ScrollLock => KeyCode::ScrollLock,
        Key::NumLock => KeyCode::NumLock,
        Key::PrintScreen => KeyCode::PrintScreen,
        Key::Pause => KeyCode::Pause,
        Key::Menu => KeyCode::Menu,
        Key::KeypadBegin => KeyCode::KeypadBegin,
    }
}

/// The name crossterm's `Display` for `KeyCode` writes for `code`, for the
/// codes whose name does not depend on the platform.
pub open spec fn code_label_of(code: KeyCode) -> Seq<char> {
    match code {
        KeyCode::Left => "Left"@,
        KeyCode::Right => "Right"@,
        KeyCode::Up => "Up"@,
        KeyCode::Down => "Down"@,
        KeyCode::Home => "Home"@,
        KeyCode::End => "End"@,
        KeyCode::PageUp => "Page Up"@,
        KeyCode::PageDown => "Page Down"@,
        KeyCode::Tab => "Tab"@,
        KeyCode::BackTab => "Back Tab"@,
        KeyCode::Insert => "Insert"@,
        KeyCode::F(n) => seq!['F'] + decimal(n as nat),
        KeyCode::Char(c) => if c == ' ' {
            "Space"@
        } else {
            seq![c]
        },
        KeyCode::Null => "Null"@,
        KeyCode::Esc => "Esc"@,
        KeyCode::CapsLock => "Caps Lock"@,
        KeyCode::ScrollLock => "Scroll Lock"@,
        KeyCode::NumLock => "Num Lock"@,
        KeyCode::PrintScreen => "Print Screen"@,
        KeyCode::Pause => "Pause"@,
        KeyCode::Menu => "Menu"@,
        KeyCode::KeypadBegin => "Begin"@,
        _ => Seq::empty(),
    }
}

/// `label` is what crossterm's `Display` for `KeyCode` writes for `code` on
/// some platform: Backspace, Delete and Enter are "Delete", "Fwd Del" and
/// "Return" on macOS, "Backspace", "Del" and "Enter" elsewhere. Nothing is
/// said of the media and modifier keys.
pub open spec fn code_label_matches(code: KeyCode, label: Seq<char>) -> bool {
    match code {
        KeyCode::Backspace => label == "Backspace"@ || label == "Delete"@,
        KeyCode::Delete => label == "Del"@ || label == "Fwd Del"@,
        KeyCode::Enter => label == "Enter"@ || label == "Return"@,
        KeyCode::Media(_) | KeyCode::Modifier(_) => true,
        _ => label == code_label_of(code),
    }
}

/// `label` is a name crossterm gives `key` on some platform.
pub open spec fn key_label_matches(key: Key, label: Seq<char>) -> bool {
    code_label_matches(key_code_of(key), label)
}

/// The name of `code`, by crossterm's `Display` for `KeyCode`.
#[verifier::external_body]
fn code_label(code: KeyCode) -> (s: String)
    ensures
        code_label_matches(code, s@),
{
    code.to_string()
}

/// The crossterm key code of `key`.
fn key_code(key: Key) -> (code: KeyCode)
    ensures
        code == key_code_of(key),
{
    match key {
        Key::Backspace => KeyCode::Backspace,
        Key::Enter => KeyCode::Enter,
        Key::Left => KeyCode::Left,
        Key::Right => KeyCode::Right,
        Key::Up => KeyCode::Up,
        Key::Down => KeyCode::Down,
        Key::Home => KeyCode::Home,
        Key::End => KeyCode::End,
        Key::PageUp => KeyCode::PageUp,
        Key::PageDown => KeyCode::PageDown,
        Key::Tab => KeyCode::Tab,
        Key::BackTab => KeyCode::BackTab,
        Key::Delete => KeyCode::Delete,
        Key::Insert => KeyCode::Insert,
        Key::F(n) => KeyCode::F(n),
        Key::Char(c) => KeyCode::Char(c),
        Key::Null => KeyCode::Null,
        Key::Esc => KeyCode::Esc,
        Key::CapsLock => KeyCode::CapsLock,
        Key::ScrollLock => KeyCode::ScrollLock,
        Key::NumLock => KeyCode::NumLock,
        Key::PrintScreen => KeyCode::PrintScreen,
        Key::Pause => KeyCode::Pause,
        Key::Menu => KeyCode::Menu,
        Key::KeypadBegin => KeyCode::KeypadBegin,
    }
}

/// The name of `key` as crossterm's `KeyCode` displays it.
pub fn key_label(key: Key) -> (s: String)
    ensures
        key_label_matches(key, s@),
{
    code_label(key_code(key))
}

/// Appends `c` to `s`, by `String::push`.
#[verifier::external_body]
pub(crate) fn push_char(s: &mut String, c: char)
    ensures
        final(s)@ == old(s)@.push(c),
{
    s.push(c);
}

/// The decimal digit character of `d`.
fn digit_char(d: u8) -> (c: char)
    requires
        d < 10,
    ensures
        c == digit(d as nat),
{
    match d {
        0 => '0',
        1 => '1',
        2 => '2',
        3 => '3',
        4 => '4',
        5 => '5',
        6 => '6',
        7 => '7',
        8 => '8',
        _ => '9',
    }
}

/// What a mouse event did.
#[derive(Debug, Clone, Copy, PartialEq, Eq, Structural)]
pub enum MouseAction {
    ScrollDown,
    ScrollUp,
    LeftDown,
    RightDown,
    /// Anything else: moves, drags, releases, other buttons.
    Other,
}


/// The decimal digits of `n`, as `to_string` writes them.
pub fn usize_decimal(n: usize) -> (s: String)
    ensures
        s@ == decimal(n as nat),
    decreases n,
{
    let mut s = if n >= 10 {
        usize_decimal(n / 10)
    } else {
        String::new()
    };
    let ghost before = s@;
    push_char(&mut s, digit_char((n % 10) as u8));
    proof {
        if n >= 10 {
            assert(decimal(n as nat) == decimal((n / 10) as nat) + seq![digit((n % 10) as nat)]);
            assert(s@ =~= decimal(n as nat));
        } else {
            assert(s@ =~= seq![digit(n as nat)]);
        }
    }
    s
}

} // verus!
