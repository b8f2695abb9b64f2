//! The pointer: clicks, drags, the wheel, and what they mean where they land.

use vstd::prelude::*;

use ratatui::layout::{Position, Rect};

use crate::app::{App, AppModel, Pointer, Selection};
use crate::keys::{
    Area, Hit, KeyCode, KeyEvent, KeyModifiers, MouseEvent, MouseKind, Pointed,
};
use crate::screens::{InboxModel, InboxPane, ScreenModel};
use crate::text::{decimal, digits, glue3};

verus! {

/// Presses closer together than this, in milliseconds, are one gesture.
pub const DOUBLE_CLICK_MS: u64 = 400;

/// How far apart, in columns, the presses of one gesture may be.
pub const DOUBLE_CLICK_COLUMNS: u16 = 2;

/// How many lines a turn of the wheel scrolls: that many times its key is pressed.
pub const WHEEL_LINES: usize = 3;

/// What is left to do about a click, on the top screen.
#[derive(Debug, Clone, Copy, PartialEq, Eq, Structural)]
pub enum Click {
    Done,
    /// Press a key, as if on the keyboard.
    Key(KeyEvent),
    /// Run the palette's row.
    PaletteRow(usize),
    /// Select the post, then play its n-th video.
    Video { post: Option<usize>, n: usize },
    /// Select the post, then press the key of its picture.
    Image { post: Option<usize>, key: Option<KeyEvent> },
    /// Put the caret into a field.
    Field(usize),
    /// Give the pane the keyboard and select the row; `row_clicked` says what
    /// comes after.
    Row { index: usize, double: bool },
    /// Give the pane the keyboard and select the post.
    Post(usize),
    /// Go back to the place that the crumb names.
    Crumb(usize),
    /// Give the pane the keyboard.
    Pane,
}

/// What a right click means.
#[derive(Debug)]
pub enum RightClick {
    /// Open this link.
    Link(String),
    /// Select the row, and open what the screen then names.
    Row(usize),
    /// Select the post, and open what the screen then names.
    Post(usize),
    /// Open what the screen names.
    Here,
    Nothing,
}

/// What a turn of the wheel means: a key, how often it is pressed, and for whom.
#[derive(Debug, Clone, Copy, PartialEq, Eq, Structural)]
pub enum Wheel {
    Nothing,
    Palette { key: KeyEvent, times: usize },
    /// The pane under the pointer gets the keyboard first.
    Screen { key: KeyEvent, times: usize },
}

/// What is left to do about an event of the pointer.
#[derive(Debug)]
pub enum Gesture {
    Done,
    Click(Click),
    Right(RightClick),
    Wheel(Wheel),
}

pub open spec fn right_edge(a: Area) -> int {
    if a.x + a.width <= u16::MAX {
        a.x + a.width
    } else {
        u16::MAX as int
    }
}

pub open spec fn lower_edge(a: Area) -> int {
    if a.y + a.height <= u16::MAX {
        a.y + a.height
    } else {
        u16::MAX as int
    }
}

/// A cell lies inside an area.
pub open spec fn inside(a: Area, x: u16, y: u16) -> bool {
    a.x <= x < right_edge(a) && a.y <= y < lower_edge(a)
}

/// `ratatui::layout::Rect::contains`: the cell is not left of the area nor above
/// it, and lies before its right and its lower edge, which stop at the largest
/// coordinate there is.
#[verifier::external_body]
fn area_contains(a: Area, x: u16, y: u16) -> (r: bool)
    ensures
        r == inside(a, x, y),
{
    let rect = Rect { x: a.x, y: a.y, width: a.width, height: a.height };
    rect.contains(Position::new(x, y))
}

pub open spec fn band(a: (u16, u16), b: (u16, u16)) -> Option<Selection> {
    Some(Selection { anchor: a, end: b })
}

pub open spec fn apart(a: u16, b: u16) -> int {
    if a <= b {
        b - a
    } else {
        a - b
    }
}

/// The target under the pointer is part of the interface, not running text.
pub open spec fn on_ui(at: Pointed) -> bool {
    at.hit is Some && !at.text_like
}

impl Pointer {
    /// The press follows the one before closely enough to be one gesture.
    pub open spec fn is_rapid(self, now: u64, pos: (u16, u16)) -> bool {
        &&& self.last_click_at matches Some(t) && now - t < DOUBLE_CLICK_MS
        &&& apart(self.last_click_pos.0, pos.0) <= DOUBLE_CLICK_COLUMNS
        &&& self.last_click_pos.1 == pos.1
    }

    /// The count of presses in the gesture: one, two, three, and one again.
    pub open spec fn next_count(self, now: u64, pos: (u16, u16)) -> u8 {
        if self.is_rapid(now, pos) {
            ((self.click_count % 3) + 1) as u8
        } else {
            1
        }
    }

    pub open spec fn pressed(self, now: u64, pos: (u16, u16)) -> Pointer {
        Pointer {
            click_count: self.next_count(now, pos),
            last_click_at: Some(now),
            last_click_pos: pos,
            press_pos: Some(pos),
            ..self
        }
    }
}

/// The digit key of a picture.
pub open spec fn digit_key(n: usize) -> Option<KeyEvent> {
    if 1 <= n <= 9 {
        Some(KeyEvent::bare(KeyCode::Char(crate::text::digit_char(n as nat))))
    } else {
        None
    }
}

impl AppModel {
    pub open spec fn with_pointer(self, pointer: Pointer) -> AppModel {
        AppModel { pointer, ..self }
    }

    /// A text that was selected, copied and said, unless it is empty.
    pub open spec fn selection_copied(self, text: Seq<char>, before: Seq<char>, behind: Seq<char>) -> AppModel {
        if text.len() == 0 {
            self
        } else {
            self.copied(text).status(before + digits(text.len()) + behind)
        }
    }

    /// The text between two columns of a row selected and copied.
    pub open spec fn row_selected(self, y: u16, bounds: (u16, u16), before: Seq<char>) -> AppModel {
        self.with_pointer(
            Pointer {
                selection: band((bounds.0, y), (bounds.1, y)),
                ..self.pointer
            },
        ).selection_copied(
            self.pointer.text_in(bounds.0, y, bounds.1, y),
            before,
            " chars) to clipboard (and Ctrl+Y)"@,
        )
    }

    /// What a click does by itself, and what is left to do on the top screen.
    pub open spec fn clicked(self, at: Pointed, double: bool) -> (AppModel, Click) {
        match at.hit {
            None => (self, Click::Done),
            Some(hit) => match hit {
                Hit::CloseOverlay => (self.overlay_closed(), Click::Done),
                Hit::Key(key) => (
                    self,
                    match key {
                        Some(k) => Click::Key(k),
                        None => Click::Done,
                    },
                ),
                Hit::Badge(tab) => (self.inbox_opened(tab), Click::Done),
                Hit::Tab(tab) => {
                    let a = self.inbox_opened(tab);
                    (
                        match a.top() {
                            Some(ScreenModel::Inbox(inbox)) => a.with_screen(
                                a.screens.len() - 1,
                                ScreenModel::Inbox(
                                    InboxModel { focus: InboxPane::List, ..inbox },
                                ),
                            ),
                            _ => a,
                        },
                        Click::Done,
                    )
                },
                Hit::PaletteRow(i) => (
                    self,
                    if self.palette is Some {
                        Click::PaletteRow(i)
                    } else {
                        Click::Done
                    },
                ),
                Hit::Link(url) => (self.popup_closed().url_opened(url@), Click::Done),
                Hit::Video(n) => (self, Click::Video { post: at.post, n }),
                Hit::Image(n) => (self, Click::Image { post: at.post, key: digit_key(n) }),
                Hit::Field(f) => (self, Click::Field(f)),
                Hit::Row(i) => (self, Click::Row { index: i, double }),
                Hit::Post(i) => (self, Click::Post(i)),
                Hit::Crumb(i) => (self, Click::Crumb(i)),
                Hit::Pane(_) => (self, Click::Pane),
            },
        }
    }

    /// The press taken into the gesture.
    pub open spec fn press_counted(self, pos: (u16, u16)) -> AppModel {
        self.with_pointer(self.pointer.pressed(self.clock, pos))
    }

    /// A press that starts a band.
    pub open spec fn band_begun(self, pos: (u16, u16)) -> AppModel {
        self.with_pointer(Pointer { selection: band(pos, pos), ..self.pointer })
    }

    /// What a left press does: a repeated press opens a target of the interface,
    /// and selects a word or a line of running text; any other starts a band.
    #[verifier::opaque]
    pub open spec fn presses(self, pos: (u16, u16), at: Pointed, next: AppModel, r: Click) -> bool {
        let a = self.press_counted(pos);
        let n = a.pointer.click_count;
        if on_ui(at) && n >= 2 {
            (next, r) == a.with_pointer(Pointer { selection: None, ..a.pointer }).clicked(at, true)
        } else {
            &&& r == Click::Done
            &&& if !on_ui(at) && n == 2 {
                exists|word: Option<(u16, u16)>|
                    {
                        &&& #[trigger] a.pointer.word_at(pos.0, pos.1, word)
                        &&& next == match word {
                            Some(b) => a.row_selected(pos.1, b, "Copied word ("@),
                            None => a,
                        }
                    }
            } else if !on_ui(at) && n == 3 {
                next == match a.pointer.line_at(pos.1) {
                    Some(b) => a.row_selected(pos.1, b, "Copied line ("@),
                    None => a,
                }
            } else {
                next == a.band_begun(pos)
            }
        }
    }

    /// The band drawn on to a cell.
    pub open spec fn dragged(self, pos: (u16, u16)) -> AppModel {
        match self.pointer.selection {
            Some(sel) => self.with_pointer(
                Pointer { selection: band(sel.anchor, pos), ..self.pointer },
            ),
            None => self,
        }
    }

    /// What a release does: the second and third press of a gesture have done
    /// their work; one that stands where its press was is a click, any other
    /// ends a drag.
    #[verifier::opaque]
    pub open spec fn releases(self, pos: (u16, u16), at: Pointed) -> (AppModel, Click) {
        if self.pointer.click_count > 1 {
            (self.with_pointer(Pointer { press_pos: None, ..self.pointer }), Click::Done)
        } else if self.is_click(pos) {
            self.released().clicked(at, false)
        } else {
            (self.drag_ended(), Click::Done)
        }
    }

    /// What a right click means.
    pub open spec fn right_clicked(at: Pointed, r: RightClick) -> bool {
        match at.hit {
            Some(Hit::Link(url)) => r matches RightClick::Link(u) && u@ == url@,
            Some(Hit::Row(i)) => r == RightClick::Row(i),
            Some(Hit::Post(i)) => r == RightClick::Post(i),
            Some(Hit::Pane(_)) => r == RightClick::Here,
            Some(Hit::Image(_)) => r == RightClick::Here,
            _ => r == RightClick::Nothing,
        }
    }

    /// What an event of the pointer does, and what it leaves to do.
    pub open spec fn moused(self, me: MouseEvent, at: Pointed, next: AppModel, r: Gesture) -> bool {
        let pos = (me.column, me.row);
        if !self.pointer.enabled {
            next == self && r == Gesture::Done
        } else {
            match me.kind {
                MouseKind::LeftDown => r matches Gesture::Click(c) && self.presses(pos, at, next, c),
                MouseKind::LeftDrag => next == self.dragged(pos) && r == Gesture::Done,
                MouseKind::LeftUp => r matches Gesture::Click(c) && (next, c) == self.releases(pos, at),
                MouseKind::RightDown => next == self && (r matches Gesture::Right(c)
                    && AppModel::right_clicked(at, c)),
                MouseKind::ScrollUp => next == self && r == Gesture::Wheel(
                    self.wheeled(pos, KeyCode::Up),
                ),
                MouseKind::ScrollDown => next == self && r == Gesture::Wheel(
                    self.wheeled(pos, KeyCode::Down),
                ),
                MouseKind::Other => next == self && r == Gesture::Done,
            }
        }
    }

    /// A release that ends the gesture of a single press.
    pub open spec fn released(self) -> AppModel {
        self.with_pointer(Pointer { press_pos: None, selection: None, ..self.pointer })
    }

    /// Press and release in one cell, the band never having left it.
    pub open spec fn is_click(self, pos: (u16, u16)) -> bool {
        &&& self.pointer.press_pos == Some(pos)
        &&& match self.pointer.selection {
            Some(sel) => sel.anchor == sel.end,
            None => true,
        }
    }

    /// The band that a drag left behind copied.
    pub open spec fn drag_ended(self) -> AppModel {
        match self.pointer.selection {
            Some(sel) => {
                let c = sel.corners();
                self.released().selection_copied(
                    self.pointer.text_in(c.0, c.1, c.2, c.3),
                    "Copied "@,
                    " chars to your clipboard (and Ctrl+Y)"@,
                )
            },
            None => self.released(),
        }
    }

    /// What a turn of the wheel means at a cell.
    pub open spec fn wheeled(self, pos: (u16, u16), code: KeyCode) -> Wheel {
        if !inside(self.pointer.body_rect, pos.0, pos.1) {
            Wheel::Nothing
        } else if self.palette is Some {
            Wheel::Palette { key: KeyEvent::bare(code), times: WHEEL_LINES }
        } else if self.show_help || self.chord {
            Wheel::Nothing
        } else {
            Wheel::Screen { key: KeyEvent::bare(code), times: WHEEL_LINES }
        }
    }

    /// The selection copied and given up, or nothing to copy.
    pub open spec fn interrupted(self) -> AppModel {
        match self.pointer.selection {
            Some(sel) => {
                let c = sel.corners();
                self.with_pointer(Pointer { selection: None, ..self.pointer }).selection_copied(
                    self.pointer.text_in(c.0, c.1, c.2, c.3),
                    "Copied "@,
                    " chars to clipboard (selection cleared)"@,
                )
            },
            None => self,
        }
    }
}

impl App {
    /// Copy a selected text, and say so.
    fn copy_selection(&mut self, text: &str, before: &str, behind: &str)
        ensures
            final(self)@ == old(self)@.selection_copied(text@, before@, behind@),
    {
        let n: usize = text.unicode_len();
        if n == 0 {
            return;
        }
        self.copy_text(text);
        self.set_status(glue3(before, decimal(n as u64).as_str(), behind));
    }

    /// Select a stretch of a row, and copy it.
    fn select_row(&mut self, y: u16, bounds: (u16, u16), before: &str)
        requires
            old(self).pointer.wf(),
            bounds.0 <= bounds.1,
        ensures
            final(self)@ == old(self)@.row_selected(y, bounds, before@),
    {
        proof {
            self.pointer.lemma_in_order(bounds.0, y, bounds.1, y);
        }
        let text = self.pointer.extract_selection_text(bounds.0, y, bounds.1, y);
        self.pointer.selection = Some(Selection { anchor: (bounds.0, y), end: (bounds.1, y) });
        self.copy_selection(text.as_str(), before, " chars) to clipboard (and Ctrl+Y)");
    }

    /// Act on what was clicked.
    pub fn click_hit(&mut self, at: Pointed, double: bool) -> (r: Click)
        ensures
            (final(self)@, r) == old(self)@.clicked(at, double),
            final(self).pointer == old(self).pointer,
    {
        let post = at.post;
        match at.hit {
            None => Click::Done,
            Some(hit) => match hit {
                Hit::CloseOverlay => {
                    self.close_overlay();
                    Click::Done
                },
                Hit::Key(key) => match key {
                    Some(k) => Click::Key(k),
                    None => Click::Done,
                },
                Hit::Badge(tab) => {
                    self.open_inbox(tab);
                    Click::Done
                },
                Hit::Tab(tab) => {
                    self.open_inbox(tab);
                    if let Some(inbox) = self.inbox_top() {
                        inbox.focus = InboxPane::List;
                    }
                    Click::Done
                },
                Hit::PaletteRow(i) => if self.palette.is_some() {
                    Click::PaletteRow(i)
                } else {
                    Click::Done
                },
                Hit::Link(url) => {
                    self.close_popup();
                    self.open_url(url.as_str());
                    Click::Done
                },
                Hit::Video(n) => Click::Video { post, n },
                Hit::Image(n) => Click::Image { post, key: image_key(n) },
                Hit::Field(f) => Click::Field(f),
                Hit::Row(i) => Click::Row { index: i, double },
                Hit::Post(i) => Click::Post(i),
                Hit::Crumb(i) => Click::Crumb(i),
                Hit::Pane(_) => Click::Pane,
            },
        }
    }
}

fn distance(a: u16, b: u16) -> (r: u16)
    ensures
        r == apart(a, b),
{
    if a <= b {
        b - a
    } else {
        a - b
    }
}

impl Pointer {
    /// Take a press into the gesture, and count it.
    fn press(&mut self, now: u64, pos: (u16, u16))
        ensures
            *final(self) == old(self).pressed(now, pos),
    {
        let soon = match self.last_click_at {
            Some(t) => now < t || now - t < DOUBLE_CLICK_MS,
            None => false,
        };
        let rapid = soon && distance(self.last_click_pos.0, pos.0) <= DOUBLE_CLICK_COLUMNS
            && self.last_click_pos.1 == pos.1;
        self.click_count = if rapid {
            (self.click_count % 3) + 1
        } else {
            1
        };
        self.last_click_at = Some(now);
        self.last_click_pos = pos;
        self.press_pos = Some(pos);
    }
}

impl App {
    fn left_down(&mut self, pos: (u16, u16), at: Pointed) -> (r: Click)
        requires
            old(self).pointer.wf(),
        ensures
            old(self)@.presses(pos, at, final(self)@, r),
            final(self).pointer.wf(),
    {
        reveal(AppModel::presses);
        let now: u64 = self.clock;
        self.pointer.press(now, pos);
        let count: u8 = self.pointer.click_count;
        let ui = at.hit.is_some() && !at.text_like;
        if ui && count >= 2 {
            self.pointer.selection = None;
            return self.click_hit(at, true);
        }
        if !ui && count == 2 {
            let word = self.pointer.find_word_bounds(pos.0, pos.1);
            assert(self.pointer.word_at(pos.0, pos.1, word));
            if let Some(bounds) = word {
                self.select_row(pos.1, bounds, "Copied word (");
            }
        } else if !ui && count == 3 {
            if let Some(bounds) = self.pointer.find_line_bounds(pos.1) {
                self.select_row(pos.1, bounds, "Copied line (");
            }
        } else {
            self.pointer.selection = Some(Selection { anchor: pos, end: pos });
        }
        Click::Done
    }

    fn left_up(&mut self, pos: (u16, u16), at: Pointed) -> (r: Click)
        requires
            old(self).pointer.wf(),
        ensures
            (final(self)@, r) == old(self)@.releases(pos, at),
            final(self).pointer.wf(),
    {
        reveal(AppModel::releases);
        let press = self.pointer.press_pos;
        self.pointer.press_pos = None;
        if self.pointer.click_count > 1 {
            return Click::Done;
        }
        let selection = self.pointer.selection;
        self.pointer.selection = None;
        let still = match &selection {
            Some(sel) => sel.anchor.0 == sel.end.0 && sel.anchor.1 == sel.end.1,
            None => true,
        };
        let here = match press {
            Some(p) => p.0 == pos.0 && p.1 == pos.1,
            None => false,
        };
        if here && still {
            return self.click_hit(at, false);
        }
        if let Some(sel) = selection {
            let (x0, y0, x1, y1) = sel.rect();
            proof {
                self.pointer.lemma_in_order(x0, y0, x1, y1);
            }
            let text = self.pointer.extract_selection_text(x0, y0, x1, y1);
            self.copy_selection(text.as_str(), "Copied ", " chars to your clipboard (and Ctrl+Y)");
        }
        Click::Done
    }

    /// What a right click means.
    pub fn right_click(at: Pointed) -> (r: RightClick)
        ensures
            AppModel::right_clicked(at, r),
    {
        match at.hit {
            Some(Hit::Link(url)) => RightClick::Link(url),
            Some(Hit::Row(i)) => RightClick::Row(i),
            Some(Hit::Post(i)) => RightClick::Post(i),
            Some(Hit::Pane(_)) => RightClick::Here,
            Some(Hit::Image(_)) => RightClick::Here,
            _ => RightClick::Nothing,
        }
    }

    /// Open what a right click named, or say that it named nothing.
    pub fn right_click_hit(&mut self, url: Option<String>)
        ensures
            final(self)@ == match url {
                Some(u) => old(self)@.url_opened(u@),
                None => old(self)@.status("Nothing here to open on the site."@),
            },
    {
        match url {
            Some(u) => self.open_url(u.as_str()),
            None => self.set_status("Nothing here to open on the site.".to_owned()),
        }
    }

    /// What a turn of the wheel means at a cell: three lines of scroll, or nothing.
    pub fn handle_wheel(&self, pos: (u16, u16), code: KeyCode) -> (r: Wheel)
        ensures
            r == self@.wheeled(pos, code),
    {
        if !area_contains(self.pointer.body_rect, pos.0, pos.1) {
            return Wheel::Nothing;
        }
        let key = KeyEvent::new(code, KeyModifiers::empty());
        if self.palette.is_some() {
            return Wheel::Palette { key, times: WHEEL_LINES };
        }
        if self.show_help || self.chord {
            return Wheel::Nothing;
        }
        Wheel::Screen { key, times: WHEEL_LINES }
    }

    /// Act on an event of the pointer, at the target that lies under it.
    pub fn handle_mouse(&mut self, me: MouseEvent, at: Pointed) -> (r: Gesture)
        requires
            old(self).pointer.wf(),
        ensures
            old(self)@.moused(me, at, final(self)@, r),
            final(self).pointer.wf(),
    {
        if !self.pointer.enabled {
            return Gesture::Done;
        }
        let pos = (me.column, me.row);
        match me.kind {
            MouseKind::LeftDown => Gesture::Click(self.left_down(pos, at)),
            MouseKind::LeftDrag => {
                if let Some(sel) = &mut self.pointer.selection {
                    sel.end = pos;
                }
                Gesture::Done
            },
            MouseKind::LeftUp => Gesture::Click(self.left_up(pos, at)),
            MouseKind::RightDown => Gesture::Right(App::right_click(at)),
            MouseKind::ScrollUp => Gesture::Wheel(self.handle_wheel(pos, KeyCode::Up)),
            MouseKind::ScrollDown => Gesture::Wheel(self.handle_wheel(pos, KeyCode::Down)),
            MouseKind::Other => Gesture::Done,
        }
    }
}

impl App {
    /// The key that a click on a row presses, where `was` is the row that was
    /// selected before: Enter on that row, and on any row that was clicked twice.
    pub fn row_clicked(index: usize, was: Option<usize>, double: bool) -> (r: Option<KeyEvent>)
        ensures
            r == (if double || was == Some(index) {
                Some(KeyEvent::bare(KeyCode::Enter))
            } else {
                None
            }),
    {
        let again = match was {
            Some(i) => i == index,
            None => false,
        };
        if double || again {
            Some(KeyEvent::new(KeyCode::Enter, KeyModifiers::empty()))
        } else {
            None
        }
    }

    /// Ctrl+C: copy the selection and give it up; with none, the client ends,
    /// and the result says so.
    pub fn interrupt(&mut self) -> (quit: bool)
        requires
            old(self).pointer.wf(),
        ensures
            final(self)@ == old(self)@.interrupted(),
            quit == (old(self).pointer.selection is None),
            final(self).pointer.wf(),
    {
        match self.pointer.selection {
            Some(sel) => {
                self.pointer.selection = None;
                let (x0, y0, x1, y1) = sel.rect();
                proof {
                    self.pointer.lemma_in_order(x0, y0, x1, y1);
                }
                let text = self.pointer.extract_selection_text(x0, y0, x1, y1);
                self.copy_selection(
                    text.as_str(),
                    "Copied ",
                    " chars to clipboard (selection cleared)",
                );
                false
            },
            None => true,
        }
    }
}

/// The digit key of a picture.
fn image_key(n: usize) -> (r: Option<KeyEvent>)
    ensures
        r == digit_key(n),
{
    let c = match n {
        1 => '1',
        2 => '2',
        3 => '3',
        4 => '4',
        5 => '5',
        6 => '6',
        7 => '7',
        8 => '8',
        9 => '9',
        _ => return None,
    };
    Some(KeyEvent::new(KeyCode::Char(c), KeyModifiers::empty()))
}

/// A click leaves the pointer as it is.
proof fn a_click_keeps_the_pointer(app: AppModel, at: Pointed, double: bool)
    ensures
        app.clicked(at, double).0.pointer == app.pointer,
{
}

/// Presses of a gesture are counted one, two, three, and one again: whatever was
/// pressed, the count is one of the three.
pub proof fn a_gesture_has_at_most_three_presses(
    app: AppModel,
    pos: (u16, u16),
    at: Pointed,
    next: AppModel,
    r: Click,
)
    requires
        app.presses(pos, at, next, r),
    ensures
        1 <= next.pointer.click_count <= 3,
        next.pointer.press_pos == Some(pos),
        next.pointer.last_click_pos == pos,
{
    reveal(AppModel::presses);
    let a = app.press_counted(pos);
    a_click_keeps_the_pointer(
        a.with_pointer(Pointer { selection: None, ..a.pointer }),
        at,
        true,
    );
}

/// A first press and its release in one cell are a click on what lies there, and
/// leave no band behind.
pub proof fn a_press_and_release_in_one_cell_is_a_click(
    app: AppModel,
    pos: (u16, u16),
    at: Pointed,
    next: AppModel,
    r: Click,
)
    requires
        app.presses(pos, at, next, r),
        !app.pointer.is_rapid(app.clock, pos),
    ensures
        r == Click::Done,
        next.releases(pos, at) == next.released().clicked(at, false),
        next.releases(pos, at).0.pointer.selection is None,
{
    reveal(AppModel::presses);
    reveal(AppModel::releases);
    a_click_keeps_the_pointer(next.released(), at, false);
}

/// A first press, a move to another cell and a release there are a drag: it
/// clicks nothing, whatever target it crossed, and changes no screen.
pub proof fn a_drag_clicks_nothing(
    app: AppModel,
    from: (u16, u16),
    to: (u16, u16),
    at: Pointed,
    there: Pointed,
    next: AppModel,
    r: Click,
)
    requires
        app.presses(from, at, next, r),
        !app.pointer.is_rapid(app.clock, from),
        from != to,
    ensures
        next.dragged(to).releases(to, there).1 == Click::Done,
        next.dragged(to).releases(to, there).0.screens == app.screens,
        next.dragged(to).releases(to, there).0.pointer.selection is None,
{
    reveal(AppModel::presses);
    reveal(AppModel::releases);
}

/// The wheel never changes the client's own state: the help card and an armed
/// chord survive it.
pub proof fn the_wheel_keeps_overlays(
    app: AppModel,
    me: MouseEvent,
    at: Pointed,
    next: AppModel,
    r: Gesture,
)
    requires
        app.moused(me, at, next, r),
        me.kind == MouseKind::ScrollUp || me.kind == MouseKind::ScrollDown,
    ensures
        next == app,
        app.show_help || app.chord ==> !(r matches Gesture::Wheel(Wheel::Screen { .. })),
{
}

/// Where the pointer was not asked for, its events do nothing.
pub proof fn a_pointer_that_is_off_does_nothing(
    app: AppModel,
    me: MouseEvent,
    at: Pointed,
    next: AppModel,
    r: Gesture,
)
    requires
        app.moused(me, at, next, r),
        !app.pointer.enabled,
    ensures
        next == app,
        r == Gesture::Done,
{
}

} // verus!
