use vstd::prelude::*;

verus! {

/// Bit that winit's `ModifiersState` sets for the shift key.
pub const SHIFT_BIT: u32 = 0b100;

/// Bit that winit's `ModifiersState` sets for the control key.
pub const CONTROL_BIT: u32 = 0b100_000;

/// Bit that winit's `ModifiersState` sets for the alt key.
pub const ALT_BIT: u32 = 0b100_000_000;

/// Bit that winit's `ModifiersState` sets for the super (windows / command) key.
pub const SUPER_BIT: u32 = 0b100_000_000_000;

/// Active modifier keys.
#[derive(Debug, Clone, Copy)]
pub struct Modifiers {
    pub shift: bool,
    pub ctrl: bool,
    pub alt: bool,
    pub meta: bool,
}

/// Whether `bit` is set in `bits`.
pub open spec fn has_bit(bits: u32, bit: u32) -> bool {
    bits & bit != 0
}

/// `winit::keyboard::ModifiersState::shift_key`, on the state whose bits are `bits`.
/// Claimed: true exactly when the shift bit is set (winit tests `intersects(SHIFT)`).
#[verifier::external_body]
fn winit_shift_key(bits: u32) -> (r: bool)
    ensures
        r == has_bit(bits, SHIFT_BIT),
{
    winit::keyboard::ModifiersState::from_bits_retain(bits).shift_key()
}

/// `winit::keyboard::ModifiersState::control_key`, on the state whose bits are `bits`.
/// Claimed: true exactly when the control bit is set (winit tests `intersects(CONTROL)`).
#[verifier::external_body]
fn winit_control_key(bits: u32) -> (r: bool)
    ensures
        r == has_bit(bits, CONTROL_BIT),
{
    winit::keyboard::ModifiersState::from_bits_retain(bits).control_key()
}

/// `winit::keyboard::ModifiersState::alt_key`, on the state whose bits are `bits`.
/// Claimed: true exactly when the alt bit is set (winit tests `intersects(ALT)`).
#[verifier::external_body]
fn winit_alt_key(bits: u32) -> (r: bool)
    ensures
        r == has_bit(bits, ALT_BIT),
{
    winit::keyboard::ModifiersState::from_bits_retain(bits).alt_key()
}

/// `winit::keyboard::ModifiersState::super_key`, on the state whose bits are `bits`.
/// Claimed: true exactly when the super bit is set (winit tests `intersects(SUPER)`).
#[verifier::external_body]
fn winit_super_key(bits: u32) -> (r: bool)
    ensures
        r == has_bit(bits, SUPER_BIT),
{
    winit::keyboard::ModifiersState::from_bits_retain(bits).super_key()
}

impl Modifiers {
    /// Whether any modifier is held.
    pub open spec fn any_spec(self) -> bool {
        self.shift || self.ctrl || self.alt || self.meta
    }

    /// The modifiers that winit's modifier state with bit set `state_bits`
    /// (`ModifiersState::bits`) reports as held.
    pub open spec fn from_bits_spec(state_bits: u32) -> Modifiers {
        Modifiers {
            shift: has_bit(state_bits, SHIFT_BIT),
            ctrl: has_bit(state_bits, CONTROL_BIT),
            alt: has_bit(state_bits, ALT_BIT),
            meta: has_bit(state_bits, SUPER_BIT),
        }
    }

    /// Reads winit's modifier state, given by its bit set (`ModifiersState::bits`).
    pub fn from_winit(state_bits: u32) -> (r: Modifiers)
        ensures
            r == Modifiers::from_bits_spec(state_bits),
            r.shift == ((state_bits & SHIFT_BIT) != 0),
            r.ctrl == ((state_bits & CONTROL_BIT) != 0),
            r.alt == ((state_bits & ALT_BIT) != 0),
            r.meta == ((state_bits & SUPER_BIT) != 0),
    {
        Modifiers {
            shift: winit_shift_key(state_bits),
            ctrl: winit_control_key(state_bits),
            alt: winit_alt_key(state_bits),
            meta: winit_super_key(state_bits),
        }
    }

    /// Whether any modifier is held.
    pub fn any(&self) -> (r: bool)
        ensures
            r == self.any_spec(),
    {
        self.shift || self.ctrl || self.alt || self.meta
    }
}

impl Default for Modifiers {
    /// No modifier held.
    fn default() -> (r: Modifiers)
        ensures
            !r.shift && !r.ctrl && !r.alt && !r.meta,
    {
        Modifiers { shift: false, ctrl: false, alt: false, meta: false }
    }
}


/// Actions the event handler can request from the framework.
#[derive(Debug, Clone)]
pub struct EventResponse {
    /// Whether the event was consumed (prevents default handling).
    pub consumed: bool,
    /// Request the event loop to exit.
    pub exit: bool,
    /// Request a window title change.
    pub set_title: Option<String>,
    /// Request fullscreen toggle.
    pub toggle_fullscreen: bool,
    /// Request cursor visibility change (None = no change).
    pub set_cursor_visible: Option<bool>,
}

impl EventResponse {
    /// The response that asks for nothing beyond whether the event was consumed.
    pub open spec fn only_consumed(consumed: bool) -> EventResponse {
        EventResponse {
            consumed,
            exit: false,
            set_title: None,
            toggle_fullscreen: false,
            set_cursor_visible: None,
        }
    }

    /// Create a response that consumes the event.
    pub fn consumed() -> (r: EventResponse)
        ensures
            r == EventResponse::only_consumed(true),
    {
        EventResponse { consumed: true, ..EventResponse::default() }
    }

    /// Create a response that does not consume the event.
    pub fn ignored() -> (r: EventResponse)
        ensures
            r == EventResponse::only_consumed(false),
    {
        EventResponse::default()
    }
}

impl Default for EventResponse {
    /// Consumes nothing and requests nothing.
    fn default() -> (r: EventResponse)
        ensures
            r == EventResponse::only_consumed(false),
    {
        EventResponse {
            consumed: false,
            exit: false,
            set_title: None,
            toggle_fullscreen: false,
            set_cursor_visible: None,
        }
    }
}

impl From<bool> for EventResponse {
    fn from(consumed: bool) -> (r: EventResponse) {
        EventResponse { consumed, ..EventResponse::default() }
    }
}

impl vstd::std_specs::convert::FromSpecImpl<bool> for EventResponse {
    open spec fn obeys_from_spec() -> bool {
        true
    }

    open spec fn from_spec(v: bool) -> EventResponse {
        EventResponse::only_consumed(v)
    }
}


/// IME (Input Method Editor) event for CJK/compose input.
#[derive(Debug, Clone)]
pub enum ImeEvent {
    /// IME is enabled.
    Enabled,
    /// Pre-edit text while composing (with optional cursor position).
    Preedit(String, Option<(usize, usize)>),
    /// Final committed text.
    Commit(String),
    /// IME is disabled.
    Disabled,
}

/// Keyboard event (press or release).
#[derive(Debug, Clone)]
pub struct KeyEvent {
    pub key: KeyCode,
    pub pressed: bool,
    pub modifiers: Modifiers,
    /// Text input if this produced a character.
    pub text: Option<String>,
}

/// Mouse buttons the application distinguishes.
#[derive(Debug, Clone, Copy, PartialEq, Eq, Structural, Hash)]
pub enum MouseButton {
    Left,
    Right,
    Middle,
}

/// A mouse button as the windowing system reports it
/// (the variants of `winit::event::MouseButton`).
#[derive(Debug, Clone, Copy, PartialEq, Eq, Structural, Hash)]
pub enum PointerButton {
    Left,
    Right,
    Middle,
    Back,
    Forward,
    Other(u16),
}

impl MouseButton {
    /// The application button for a windowing-system button: the three main
    /// buttons keep their name, every other button counts as the left one.
    pub open spec fn from_pointer_spec(button: PointerButton) -> MouseButton {
        match button {
            PointerButton::Right => MouseButton::Right,
            PointerButton::Middle => MouseButton::Middle,
            _ => MouseButton::Left,
        }
    }

    /// Maps a windowing-system button to the application's buttons.
    pub fn from_pointer(button: PointerButton) -> (r: MouseButton)
        ensures
            r == MouseButton::from_pointer_spec(button),
    {
        match button {
            PointerButton::Left => MouseButton::Left,
            PointerButton::Right => MouseButton::Right,
            PointerButton::Middle => MouseButton::Middle,
            _ => MouseButton::Left,
        }
    }
}

/// Platform-independent key codes for common keys.
#[derive(Debug, Clone, Copy, PartialEq, Eq, Structural, Hash)]
pub enum KeyCode {
    Char(char),
    Enter,
    Escape,
    Backspace,
    Delete,
    Tab,
    Up,
    Down,
    Left,
    Right,
    Home,
    End,
    PageUp,
    PageDown,
    F(u8),
    Space,
    /// Key not mapped to any known code.
    Unknown,
}

/// Named (non-character) keys as the windowing system reports them: the
/// variants of `winit::keyboard::NamedKey` for modifier, whitespace,
/// navigation, editing and function keys, with `Other` for the rest.
#[derive(Debug, Clone, Copy, PartialEq, Eq, Structural, Hash)]
pub enum NamedKey {
    Alt,
    AltGraph,
    CapsLock,
    Control,
    Fn,
    FnLock,
    NumLock,
    ScrollLock,
    Shift,
    Symbol,
    SymbolLock,
    Meta,
    Hyper,
    Super,
    Enter,
    Tab,
    Space,
    ArrowDown,
    ArrowLeft,
    ArrowRight,
    ArrowUp,
    End,
    Home,
    PageDown,
    PageUp,
    Backspace,
    Clear,
    Copy,
    CrSel,
    Cut,
    Delete,
    EraseEof,
    ExSel,
    Insert,
    Paste,
    Redo,
    Undo,
    Escape,
    F1,
    F2,
    F3,
    F4,
    F5,
    F6,
    F7,
    F8,
    F9,
    F10,
    F11,
    F12,
    F13,
    F14,
    F15,
    F16,
    F17,
    F18,
    F19,
    F20,
    F21,
    F22,
    F23,
    F24,
    /// Any other named key.
    Other,
}

/// A logical key as the windowing system reports it
/// (the variants of `winit::keyboard::Key`).
#[derive(Debug, Clone)]
pub enum Key {
    /// A key with a name.
    Named(NamedKey),
    /// A key that produces the given text.
    Character(String),
    /// A key the platform could not identify.
    Unidentified,
    /// A dead key, with the character it may combine into.
    Dead(Option<char>),
}

/// The key code of a named key.
pub open spec fn named_key_code(named: NamedKey) -> KeyCode {
    match named {
        NamedKey::Enter => KeyCode::Enter,
        NamedKey::Escape => KeyCode::Escape,
        NamedKey::Backspace => KeyCode::Backspace,
        NamedKey::Delete => KeyCode::Delete,
        NamedKey::Tab => KeyCode::Tab,
        NamedKey::ArrowUp => KeyCode::Up,
        NamedKey::ArrowDown => KeyCode::Down,
        NamedKey::ArrowLeft => KeyCode::Left,
        NamedKey::ArrowRight => KeyCode::Right,
        NamedKey::Home => KeyCode::Home,
        NamedKey::End => KeyCode::End,
        NamedKey::PageUp => KeyCode::PageUp,
        NamedKey::PageDown => KeyCode::PageDown,
        NamedKey::Space => KeyCode::Space,
        NamedKey::F1 => KeyCode::F(1),
        NamedKey::F2 => KeyCode::F(2),
        NamedKey::F3 => KeyCode::F(3),
        NamedKey::F4 => KeyCode::F(4),
        NamedKey::F5 => KeyCode::F(5),
        NamedKey::F6 => KeyCode::F(6),
        NamedKey::F7 => KeyCode::F(7),
        NamedKey::F8 => KeyCode::F(8),
        NamedKey::F9 => KeyCode::F(9),
        NamedKey::F10 => KeyCode::F(10),
        NamedKey::F11 => KeyCode::F(11),
        NamedKey::F12 => KeyCode::F(12),
        _ => KeyCode::Unknown,
    }
}

/// The key code of a key that produces `text`: the character itself when
/// the text is exactly one character, otherwise unknown.
pub open spec fn character_key_code(text: Seq<char>) -> KeyCode {
    if text.len() == 1 {
        KeyCode::Char(text[0])
    } else {
        KeyCode::Unknown
    }
}

/// The key code of a logical key.
pub open spec fn key_code(key: Key) -> KeyCode {
    match key {
        Key::Named(named) => named_key_code(named),
        Key::Character(text) => character_key_code(text@),
        _ => KeyCode::Unknown,
    }
}

impl KeyCode {
    /// Converts the windowing system's logical key to a key code.
    pub fn from_winit(key: &Key) -> (r: KeyCode)
        ensures
            r == key_code(*key),
    {
        match key {
            Key::Named(named) => match named {
                NamedKey::Enter => KeyCode::Enter,
                NamedKey::Escape => KeyCode::Escape,
                NamedKey::Backspace => KeyCode::Backspace,
                NamedKey::Delete => KeyCode::Delete,
                NamedKey::Tab => KeyCode::Tab,
                NamedKey::ArrowUp => KeyCode::Up,
                NamedKey::ArrowDown => KeyCode::Down,
                NamedKey::ArrowLeft => KeyCode::Left,
                NamedKey::ArrowRight => KeyCode::Right,
                NamedKey::Home => KeyCode::Home,
                NamedKey::End => KeyCode::End,
                NamedKey::PageUp => KeyCode::PageUp,
                NamedKey::PageDown => KeyCode::PageDown,
                NamedKey::Space => KeyCode::Space,
                NamedKey::F1 => KeyCode::F(1),
                NamedKey::F2 => KeyCode::F(2),
                NamedKey::F3 => KeyCode::F(3),
                NamedKey::F4 => KeyCode::F(4),
                NamedKey::F5 => KeyCode::F(5),
                NamedKey::F6 => KeyCode::F(6),
                NamedKey::F7 => KeyCode::F(7),
                NamedKey::F8 => KeyCode::F(8),
                NamedKey::F9 => KeyCode::F(9),
                NamedKey::F10 => KeyCode::F(10),
                NamedKey::F11 => KeyCode::F(11),
                NamedKey::F12 => KeyCode::F(12),
                _ => KeyCode::Unknown,
            },
            Key::Character(text) => {
                let mut chars = text.as_str().chars();
                let first = chars.next();
                let second = chars.next();
                match (first, second) {
                    (Some(ch), None) => KeyCode::Char(ch),
                    _ => KeyCode::Unknown,
                }
            },
            _ => KeyCode::Unknown,
        }
    }
}


/// Each modifier flag reads its own bit of winit's modifier state, and no
/// other: holding any combination of the other keys changes nothing.
pub proof fn each_modifier_reads_its_own_bit(bits: u32, others: u32)
    ensures
        Modifiers::from_bits_spec(bits).shift == ((bits & SHIFT_BIT) != 0),
        Modifiers::from_bits_spec(bits).ctrl == ((bits & CONTROL_BIT) != 0),
        Modifiers::from_bits_spec(bits).alt == ((bits & ALT_BIT) != 0),
        Modifiers::from_bits_spec(bits).meta == ((bits & SUPER_BIT) != 0),
        Modifiers::from_bits_spec(bits | (others & !SHIFT_BIT)).shift == Modifiers::from_bits_spec(
            bits,
        ).shift,
        Modifiers::from_bits_spec(bits | (others & !CONTROL_BIT)).ctrl == Modifiers::from_bits_spec(
            bits,
        ).ctrl,
        Modifiers::from_bits_spec(bits | (others & !ALT_BIT)).alt == Modifiers::from_bits_spec(
            bits,
        ).alt,
        Modifiers::from_bits_spec(bits | (others & !SUPER_BIT)).meta == Modifiers::from_bits_spec(
            bits,
        ).meta,
        Modifiers::from_bits_spec(SHIFT_BIT | CONTROL_BIT) == (Modifiers {
            shift: true,
            ctrl: true,
            alt: false,
            meta: false,
        }),
        !Modifiers::from_bits_spec(0).any_spec(),
{
    assert(((bits | (others & !0b100u32)) & 0b100u32 != 0) == (bits & 0b100u32 != 0))
        by (bit_vector);
    assert(((bits | (others & !0b100_000u32)) & 0b100_000u32 != 0) == (bits & 0b100_000u32 != 0))
        by (bit_vector);
    assert(((bits | (others & !0b100_000_000u32)) & 0b100_000_000u32 != 0) == (bits
        & 0b100_000_000u32 != 0)) by (bit_vector);
    assert(((bits | (others & !0b100_000_000_000u32)) & 0b100_000_000_000u32 != 0) == (bits
        & 0b100_000_000_000u32 != 0)) by (bit_vector);
    assert(((0b100u32 | 0b100_000u32) & 0b100u32) != 0) by (bit_vector);
    assert(((0b100u32 | 0b100_000u32) & 0b100_000u32) != 0) by (bit_vector);
    assert(((0b100u32 | 0b100_000u32) & 0b100_000_000u32) == 0) by (bit_vector);
    assert(((0b100u32 | 0b100_000u32) & 0b100_000_000_000u32) == 0) by (bit_vector);
    assert((0u32 & 0b100u32) == 0 && (0u32 & 0b100_000u32) == 0 && (0u32 & 0b100_000_000u32) == 0
        && (0u32 & 0b100_000_000_000u32) == 0) by (bit_vector);
}

/// The key code of every mapped named key, the function keys F1 to F12 by
/// number, and of text keys: exactly one character gives that character,
/// any other text is unknown.
pub proof fn key_codes_follow_the_table(text: String, n: NamedKey)
    ensures
        key_code(Key::Named(NamedKey::Enter)) == KeyCode::Enter,
        key_code(Key::Named(NamedKey::Escape)) == KeyCode::Escape,
        key_code(Key::Named(NamedKey::Backspace)) == KeyCode::Backspace,
        key_code(Key::Named(NamedKey::Delete)) == KeyCode::Delete,
        key_code(Key::Named(NamedKey::Tab)) == KeyCode::Tab,
        key_code(Key::Named(NamedKey::ArrowUp)) == KeyCode::Up,
        key_code(Key::Named(NamedKey::ArrowDown)) == KeyCode::Down,
        key_code(Key::Named(NamedKey::ArrowLeft)) == KeyCode::Left,
        key_code(Key::Named(NamedKey::ArrowRight)) == KeyCode::Right,
        key_code(Key::Named(NamedKey::Home)) == KeyCode::Home,
        key_code(Key::Named(NamedKey::End)) == KeyCode::End,
        key_code(Key::Named(NamedKey::PageUp)) == KeyCode::PageUp,
        key_code(Key::Named(NamedKey::PageDown)) == KeyCode::PageDown,
        key_code(Key::Named(NamedKey::Space)) == KeyCode::Space,
        key_code(Key::Named(NamedKey::F1)) == KeyCode::F(1),
        key_code(Key::Named(NamedKey::F2)) == KeyCode::F(2),
        key_code(Key::Named(NamedKey::F3)) == KeyCode::F(3),
        key_code(Key::Named(NamedKey::F4)) == KeyCode::F(4),
        key_code(Key::Named(NamedKey::F5)) == KeyCode::F(5),
        key_code(Key::Named(NamedKey::F6)) == KeyCode::F(6),
        key_code(Key::Named(NamedKey::F7)) == KeyCode::F(7),
        key_code(Key::Named(NamedKey::F8)) == KeyCode::F(8),
        key_code(Key::Named(NamedKey::F9)) == KeyCode::F(9),
        key_code(Key::Named(NamedKey::F10)) == KeyCode::F(10),
        key_code(Key::Named(NamedKey::F11)) == KeyCode::F(11),
        key_code(Key::Named(NamedKey::F12)) == KeyCode::F(12),
        key_code(Key::Named(NamedKey::F13)) == KeyCode::Unknown,
        key_code(Key::Named(NamedKey::CapsLock)) == KeyCode::Unknown,
        key_code(Key::Named(NamedKey::Other)) == KeyCode::Unknown,
        key_code(Key::Unidentified) == KeyCode::Unknown,
        text@.len() == 1 ==> key_code(Key::Character(text)) == KeyCode::Char(text@[0]),
        text@.len() != 1 ==> key_code(Key::Character(text)) == KeyCode::Unknown,
        key_code(Key::Named(n)) is Char ==> false,
{
}

/// The three main buttons keep their name; every other button is the left one.
pub proof fn mouse_buttons_keep_their_name(n: u16)
    ensures
        MouseButton::from_pointer_spec(PointerButton::Left) == MouseButton::Left,
        MouseButton::from_pointer_spec(PointerButton::Right) == MouseButton::Right,
        MouseButton::from_pointer_spec(PointerButton::Middle) == MouseButton::Middle,
        MouseButton::from_pointer_spec(PointerButton::Back) == MouseButton::Left,
        MouseButton::from_pointer_spec(PointerButton::Forward) == MouseButton::Left,
        MouseButton::from_pointer_spec(PointerButton::Other(n)) == MouseButton::Left,
{
}

} // verus!
