//! Input events: keys, pointer buttons and scroll axes, and the queue that
//! window events wait in until the application drains them.
use vstd::prelude::*;

verus! {

/// A queue of window events, drained in the order they were pushed.
#[derive(Debug)]
pub struct WindowEventQueue<T> {
    inner: Vec<T>,
}

impl<T> View for WindowEventQueue<T> {
    type V = Seq<T>;

    closed spec fn view(&self) -> Seq<T> {
        self.inner@
    }
}

impl<T> WindowEventQueue<T> {
    /// An empty queue.
    pub fn new() -> (q: Self)
        ensures
            q@ == Seq::<T>::empty(),
    {
        Self { inner: Vec::new() }
    }

    /// Adds an event at the back of the queue.
    pub fn push(&mut self, event: T)
        ensures
            final(self)@ == old(self)@.push(event),
    {
        self.inner.push(event);
    }

    /// Removes and returns all events in the queue, oldest first.
    pub fn drain(&mut self) -> (events: Vec<T>)
        ensures
            events@ == old(self)@,
            final(self)@ == Seq::<T>::empty(),
    {
        let mut events: Vec<T> = Vec::new();
        std::mem::swap(&mut events, &mut self.inner);
        events
    }

    /// Whether there are no events in the queue.
    pub fn is_empty(&self) -> (b: bool)
        ensures
            b == (self@.len() == 0),
    {
        self.inner.is_empty()
    }
}

/// Keyboard event details.
#[derive(Debug, Clone, PartialEq, Eq)]
pub struct KeyEvent {
    /// Logical key code (maps physical key to semantic meaning).
    pub code: KeyCode,
    /// Key press/release value (0 = release, 1 = press).
    pub value: u32,
    /// Whether the shift modifier is active.
    pub shift: bool,
    /// Whether the alt modifier is active.
    pub alt: bool,
    /// Whether the ctrl modifier is active.
    pub ctrl: bool,
}

/// Logical key codes.
#[derive(Debug, Clone, PartialEq, Eq)]
pub enum KeyCode {
    /// Printable character.
    Char(char),
    /// Function keys F1-F12.
    F(u8),
    Backspace,
    Enter,
    Left,
    Right,
    Up,
    Down,
    Tab,
    Delete,
    Home,
    End,
    PageUp,
    PageDown,
    Esc,
    /// Unknown or unmapped key.
    Unidentified,
}

/// Mouse button codes.
#[derive(Debug, Clone, PartialEq, Eq)]
pub enum ButtonCode {
    Left,
    Right,
    Middle,
    Unknown,
}

/// Axis (scroll) types for pointer events.
#[derive(Debug, Clone, PartialEq, Eq)]
pub enum AxisCode {
    VerticalScroll,
    HorizontalScroll,
}

/// Linux evdev code of the left mouse button.
pub const BTN_LEFT: u32 = 272;

/// Linux evdev code of the right mouse button.
pub const BTN_RIGHT: u32 = 273;

/// Linux evdev code of the middle mouse button.
pub const BTN_MIDDLE: u32 = 274;

/// The button an evdev button code names.
pub open spec fn button_of(code: u32) -> ButtonCode {
    if code == BTN_LEFT {
        ButtonCode::Left
    } else if code == BTN_RIGHT {
        ButtonCode::Right
    } else if code == BTN_MIDDLE {
        ButtonCode::Middle
    } else {
        ButtonCode::Unknown
    }
}

/// Maps a Linux evdev button code, as Wayland sends it, to a button.
pub fn button_code_from_evdev(code: u32) -> (b: ButtonCode)
    ensures
        b == button_of(code),
{
    match code {
        272 => ButtonCode::Left,
        273 => ButtonCode::Right,
        274 => ButtonCode::Middle,
        _ => ButtonCode::Unknown,
    }
}

/// XKB keysym of the BackSpace key.
pub const KEYSYM_BACKSPACE: u32 = 0xff08;

/// XKB keysym of the Tab key.
pub const KEYSYM_TAB: u32 = 0xff09;

/// XKB keysym of the Return key.
pub const KEYSYM_RETURN: u32 = 0xff0d;

/// XKB keysym of the Escape key.
pub const KEYSYM_ESCAPE: u32 = 0xff1b;

/// XKB keysym of the Home key.
pub const KEYSYM_HOME: u32 = 0xff50;

/// XKB keysym of the Left arrow key.
pub const KEYSYM_LEFT: u32 = 0xff51;

/// XKB keysym of the Up arrow key.
pub const KEYSYM_UP: u32 = 0xff52;

/// XKB keysym of the Right arrow key.
pub const KEYSYM_RIGHT: u32 = 0xff53;

/// XKB keysym of the Down arrow key.
pub const KEYSYM_DOWN: u32 = 0xff54;

/// XKB keysym of the Page_Up key.
pub const KEYSYM_PAGE_UP: u32 = 0xff55;

/// XKB keysym of the Page_Down key.
pub const KEYSYM_PAGE_DOWN: u32 = 0xff56;

/// XKB keysym of the End key.
pub const KEYSYM_END: u32 = 0xff57;

/// XKB keysym of F1; F2 to F12 follow it.
pub const KEYSYM_F1: u32 = 0xffbe;

/// XKB keysym of F12.
pub const KEYSYM_F12: u32 = 0xffc9;

/// XKB keysym of the Delete key.
pub const KEYSYM_DELETE: u32 = 0xffff;

/// The key code of the keysyms that have a key code of their own.
pub open spec fn special_key(keysym: u32) -> Option<KeyCode> {
    if keysym == KEYSYM_BACKSPACE {
        Some(KeyCode::Backspace)
    } else if keysym == KEYSYM_RETURN {
        Some(KeyCode::Enter)
    } else if keysym == KEYSYM_LEFT {
        Some(KeyCode::Left)
    } else if keysym == KEYSYM_RIGHT {
        Some(KeyCode::Right)
    } else if keysym == KEYSYM_UP {
        Some(KeyCode::Up)
    } else if keysym == KEYSYM_DOWN {
        Some(KeyCode::Down)
    } else if keysym == KEYSYM_TAB {
        Some(KeyCode::Tab)
    } else if keysym == KEYSYM_DELETE {
        Some(KeyCode::Delete)
    } else if keysym == KEYSYM_HOME {
        Some(KeyCode::Home)
    } else if keysym == KEYSYM_END {
        Some(KeyCode::End)
    } else if keysym == KEYSYM_PAGE_UP {
        Some(KeyCode::PageUp)
    } else if keysym == KEYSYM_PAGE_DOWN {
        Some(KeyCode::PageDown)
    } else if keysym == KEYSYM_ESCAPE {
        Some(KeyCode::Esc)
    } else if KEYSYM_F1 <= keysym <= KEYSYM_F12 {
        Some(KeyCode::F((keysym - KEYSYM_F1 + 1) as u8))
    } else {
        None
    }
}

/// Whether `u` is a Unicode scalar value: a code point that is not a
/// surrogate.
pub open spec fn is_scalar_value(u: u32) -> bool {
    u < 0xD800 || (0xE000 <= u && u <= 0x10FFFF)
}

/// The key code of a keysym whose Unicode representation is `utf32` (0 for
/// none): its own key code where it has one, else the character, else
/// `Unidentified`. There is none when `utf32` is not a Unicode scalar value.
pub open spec fn key_code_of(keysym: u32, utf32: u32) -> Option<KeyCode> {
    match special_key(keysym) {
        Some(code) => Some(code),
        None => if utf32 == 0 {
            Some(KeyCode::Unidentified)
        } else if is_scalar_value(utf32) {
            Some(KeyCode::Char(utf32 as char))
        } else {
            None
        },
    }
}

/// `std::char::from_u32`: the character whose code point is `u`, which exists
/// exactly when `u` is a Unicode scalar value.
#[verifier::external_body]
fn char_from_u32(u: u32) -> (c: Option<char>)
    ensures
        c is Some <==> is_scalar_value(u),
        c matches Some(ch) ==> ch == u as char,
{
    std::char::from_u32(u)
}

/// Maps a keysym, and its Unicode representation `utf32` (0 for none), to a
/// key code: named keys and F1 to F12 by their keysym, other keys by their
/// character, and `Unidentified` where there is no character. `None` when
/// `utf32` is not a Unicode scalar value.
pub fn key_code_from_keysym(keysym: u32, utf32: u32) -> (k: Option<KeyCode>)
    ensures
        k == key_code_of(keysym, utf32),
{
    match keysym {
        0xff08 => Some(KeyCode::Backspace),
        0xff0d => Some(KeyCode::Enter),
        0xff51 => Some(KeyCode::Left),
        0xff53 => Some(KeyCode::Right),
        0xff52 => Some(KeyCode::Up),
        0xff54 => Some(KeyCode::Down),
        0xff09 => Some(KeyCode::Tab),
        0xffff => Some(KeyCode::Delete),
        0xff50 => Some(KeyCode::Home),
        0xff57 => Some(KeyCode::End),
        0xff55 => Some(KeyCode::PageUp),
        0xff56 => Some(KeyCode::PageDown),
        0xff1b => Some(KeyCode::Esc),
        0xffbe => Some(KeyCode::F(1)),
        0xffbf => Some(KeyCode::F(2)),
        0xffc0 => Some(KeyCode::F(3)),
        0xffc1 => Some(KeyCode::F(4)),
        0xffc2 => Some(KeyCode::F(5)),
        0xffc3 => Some(KeyCode::F(6)),
        0xffc4 => Some(KeyCode::F(7)),
        0xffc5 => Some(KeyCode::F(8)),
        0xffc6 => Some(KeyCode::F(9)),
        0xffc7 => Some(KeyCode::F(10)),
        0xffc8 => Some(KeyCode::F(11)),
        0xffc9 => Some(KeyCode::F(12)),
        _ => {
            if utf32 != 0 {
                match char_from_u32(utf32) {
                    Some(ch) => Some(KeyCode::Char(ch)),
                    None => None,
                }
            } else {
                Some(KeyCode::Unidentified)
            }
        },
    }
}

/// A keysym without a key code of its own, whose Unicode representation is
/// a scalar value, is reported as that very character: its code point is
/// the Unicode representation, unchanged. Any character reported has that
/// code point.
pub proof fn lemma_char_keys_keep_code_point(keysym: u32, utf32: u32)
    ensures
        key_code_of(keysym, utf32) matches Some(KeyCode::Char(c)) ==> c as u32 == utf32,
        special_key(keysym) is None && utf32 != 0 && (utf32 < 0xD800 || (0xE000 <= utf32
            && utf32 <= 0x10FFFF)) ==> key_code_of(keysym, utf32) is Some && key_code_of(
            keysym,
            utf32,
        )->0 is Char,
        special_key(keysym) is None && utf32 == 0 ==> key_code_of(keysym, utf32) == Some(
            KeyCode::Unidentified,
        ),
        special_key(keysym) is None && utf32 != 0 && !(utf32 < 0xD800 || (0xE000 <= utf32
            && utf32 <= 0x10FFFF)) ==> key_code_of(keysym, utf32) is None,
{
}

/// A keysym with a key code of its own maps to it whatever its Unicode
/// representation.
pub proof fn lemma_special_keys_ignore_text(keysym: u32, u1: u32, u2: u32)
    requires
        special_key(keysym) is Some,
    ensures
        key_code_of(keysym, u1) == key_code_of(keysym, u2),
        key_code_of(keysym, u1) == special_key(keysym),
{
}

/// The keysyms of the named keys, as XKB numbers them (the arrows run left,
/// up, right, down from `0xff51`, F1 to F12 from `0xffbe`), and no keysym
/// below `0xff08`, such as a letter's, has a key code of its own.
pub proof fn lemma_named_keysyms(keysym: u32, n: u32)
    ensures
        special_key(0xff08) == Some(KeyCode::Backspace),
        special_key(0xff09) == Some(KeyCode::Tab),
        special_key(0xff0d) == Some(KeyCode::Enter),
        special_key(0xff1b) == Some(KeyCode::Esc),
        special_key(0xff50) == Some(KeyCode::Home),
        special_key(0xff51) == Some(KeyCode::Left),
        special_key(0xff52) == Some(KeyCode::Up),
        special_key(0xff53) == Some(KeyCode::Right),
        special_key(0xff54) == Some(KeyCode::Down),
        special_key(0xff55) == Some(KeyCode::PageUp),
        special_key(0xff56) == Some(KeyCode::PageDown),
        special_key(0xff57) == Some(KeyCode::End),
        special_key(0xffff) == Some(KeyCode::Delete),
        1 <= n <= 12 ==> special_key((0xffbd + n) as u32) == Some(KeyCode::F(n as u8)),
        keysym < 0xff08 ==> special_key(keysym) is None,
{
}

/// Linux numbers the left, right and middle mouse buttons 272, 273 and 274;
/// every other code is an unknown button.
pub proof fn lemma_evdev_buttons(code: u32)
    ensures
        button_of(272) == ButtonCode::Left,
        button_of(273) == ButtonCode::Right,
        button_of(274) == ButtonCode::Middle,
        (code < 272 || code > 274) ==> button_of(code) == ButtonCode::Unknown,
{
}

} // verus!
