//! Keys, pointer events and what lies under the pointer, as plain values.

use vstd::prelude::*;

use crate::screens::InboxTab;

verus! {

/// A key of a media keyboard.
#[derive(Debug, Clone, Copy, PartialEq, Eq, Structural)]
pub enum MediaKey {
    Play,
    Pause,
    PlayPause,
    Reverse,
    Stop,
    FastForward,
    Rewind,
    TrackNext,
    TrackPrevious,
    Record,
    LowerVolume,
    RaiseVolume,
    MuteVolume,
}

/// A modifier, pressed by itself.
#[derive(Debug, Clone, Copy, PartialEq, Eq, Structural)]
pub enum ModifierKey {
    LeftShift,
    LeftControl,
    LeftAlt,
    LeftSuper,
    LeftHyper,
    LeftMeta,
    RightShift,
    RightControl,
    RightAlt,
    RightSuper,
    RightHyper,
    RightMeta,
    IsoLevel3Shift,
    IsoLevel5Shift,
}

/// A key. The client itself acts on a few of them; the others it hands on, to a
/// screen or to the palette, as they are.
#[derive(Debug, Clone, Copy, PartialEq, Eq, Structural)]
pub enum KeyCode {
    Char(char),
    Backspace,
    Enter,
    Left,
    Right,
    Up,
    Down,
    Home,
    End,
    PageUp,
    PageDown,
    Tab,
    BackTab,
    Delete,
    Insert,
    F(u8),
    Null,
    Esc,
    CapsLock,
    ScrollLock,
    NumLock,
    PrintScreen,
    Pause,
    Menu,
    KeypadBegin,
    Media(MediaKey),
    Modifier(ModifierKey),
}

#[derive(Debug, Clone, Copy, PartialEq, Eq, Structural)]
pub struct KeyModifiers {
    pub shift: bool,
    pub control: bool,
    pub alt: bool,
    pub logo: bool,
    pub hyper: bool,
    pub meta: bool,
}

impl KeyModifiers {
    pub open spec fn none() -> KeyModifiers {
        KeyModifiers {
            shift: false,
            control: false,
            alt: false,
            logo: false,
            hyper: false,
            meta: false,
        }
    }

    pub fn empty() -> (r: KeyModifiers)
        ensures
            r == KeyModifiers::none(),
    {
        KeyModifiers {
            shift: false,
            control: false,
            alt: false,
            logo: false,
            hyper: false,
            meta: false,
        }
    }

    /// Nothing but perhaps shift is held.
    pub open spec fn plain(self) -> bool {
        !self.control && !self.alt && !self.logo && !self.hyper && !self.meta
    }
}

#[derive(Debug, Clone, Copy, PartialEq, Eq, Structural)]
pub struct KeyEvent {
    pub code: KeyCode,
    pub modifiers: KeyModifiers,
}

impl KeyEvent {
    pub open spec fn bare(code: KeyCode) -> KeyEvent {
        KeyEvent { code, modifiers: KeyModifiers::none() }
    }

    pub fn new(code: KeyCode, modifiers: KeyModifiers) -> (r: KeyEvent)
        ensures
            r == (KeyEvent { code, modifiers }),
    {
        KeyEvent { code, modifiers }
    }

    pub open spec fn is_control(self, c: char) -> bool {
        self.modifiers.control && self.code == KeyCode::Char(c)
    }

    pub open spec fn is_bare(self, c: char) -> bool {
        self.modifiers == KeyModifiers::none() && self.code == KeyCode::Char(c)
    }

    pub open spec fn is_plain(self, c: char) -> bool {
        self.modifiers.plain() && self.code == KeyCode::Char(c)
    }

    pub fn with_control(&self, c: char) -> (r: bool)
        ensures
            r == self.is_control(c),
    {
        self.modifiers.control && self.code == KeyCode::Char(c)
    }

    pub fn without_modifiers(&self) -> (r: bool)
        ensures
            r == (self.modifiers == KeyModifiers::none()),
    {
        !self.modifiers.shift && !self.modifiers.control && !self.modifiers.alt
            && !self.modifiers.logo && !self.modifiers.hyper && !self.modifiers.meta
    }

    pub fn with_at_most_shift(&self, c: char) -> (r: bool)
        ensures
            r == self.is_plain(c),
    {
        !self.modifiers.control && !self.modifiers.alt && !self.modifiers.logo
            && !self.modifiers.hyper && !self.modifiers.meta && self.code == KeyCode::Char(c)
    }
}

/// What the pointer did.
#[derive(Debug, Clone, Copy, PartialEq, Eq, Structural)]
pub enum MouseKind {
    LeftDown,
    LeftDrag,
    LeftUp,
    RightDown,
    ScrollUp,
    ScrollDown,
    Other,
}

#[derive(Debug, Clone, Copy, PartialEq, Eq, Structural)]
pub struct MouseEvent {
    pub kind: MouseKind,
    pub column: u16,
    pub row: u16,
}

/// A target that the last frame drew.
#[derive(Debug)]
pub enum Hit {
    /// Off the overlay that is up.
    CloseOverlay,
    /// A key cap, with the key it stands for where it stands for one.
    Key(Option<KeyEvent>),
    Badge(InboxTab),
    Tab(InboxTab),
    PaletteRow(usize),
    Link(String),
    Video(usize),
    Image(usize),
    Field(usize),
    Row(usize),
    Post(usize),
    Crumb(usize),
    Pane(usize),
}

/// What lies under the pointer.
#[derive(Debug)]
pub struct Pointed {
    pub hit: Option<Hit>,
    /// The target is running text, where a second press selects a word.
    pub text_like: bool,
    /// The post that the cell belongs to.
    pub post: Option<usize>,
}

/// A rectangle of cells.
#[derive(Debug, Clone, Copy, PartialEq, Eq, Structural)]
pub struct Area {
    pub x: u16,
    pub y: u16,
    pub width: u16,
    pub height: u16,
}

} // verus!
