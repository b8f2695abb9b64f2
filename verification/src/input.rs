//! The keyboard: who gets a key, and what the client does with its own.

use vstd::prelude::*;

use crate::app::{App, AppModel, SessionState};
use crate::keys::{KeyCode, KeyEvent};
use crate::openers::{opening_search, search_state};
use crate::palette::Target;
use crate::screens::{HomeModel, InboxModel, InboxPane, InboxTab, Pane, Screen, ScreenModel};

verus! {

/// What the top screen makes of Esc.
#[derive(Debug)]
pub enum EscIntent {
    /// It refuses, and says why.
    Blocked(String),
    /// It has a use of its own for it.
    Screen,
    /// It leaves it to the client.
    Leave,
}

/// What the client has to know of the top screen to route a key.
#[derive(Debug)]
pub struct TopScreen {
    /// One of its own overlays has the keyboard.
    pub input_capture: bool,
    pub esc: EscIntent,
}

/// Who a key is for.
#[derive(Debug, Clone, Copy, PartialEq, Eq, Structural)]
pub enum KeyRoute {
    /// The client has dealt with it.
    Done,
    /// The palette: its event goes to `palette_event`.
    Palette,
    /// It ends the `g` chord: where it names a target, that goes to `go`.
    Chord,
    /// The top screen: its action goes to `execute_action`.
    Screen,
    /// The top screen has to go to its bottom.
    Bottom,
}

/// What the palette made of a key.
#[derive(Debug)]
pub enum PaletteEvent {
    Nothing,
    Close,
    Run(Target),
}

impl AppModel {
    /// A text field or an overlay of the top screen has the keyboard.
    pub open spec fn typing(self, capture: bool) -> bool {
        ||| self.screens.len() > 0 && capture
        ||| self.top() matches Some(ScreenModel::Search(s)) && s.input_mode
        ||| self.top() matches Some(s) && (s is Compose || s is NewConversation)
    }

    /// The key retries the session that could not be restored.
    pub open spec fn is_retry(self, k: KeyEvent, capture: bool) -> bool {
        self.session.bootstrap_retry_needed && self.me is None && k.is_bare('r')
            && !self.typing(capture)
    }

    /// The client's own keys count: somebody is signed in, and nobody types.
    pub open spec fn navigable(self, capture: bool) -> bool {
        self.me is Some && !(self.screens.len() > 0 && capture) && !self.typing(capture)
    }

    /// Esc, where neither the top screen nor a field has a use for it: back to
    /// the first pane, else back one screen, else out.
    pub open spec fn escaped(self) -> AppModel {
        match self.top() {
            Some(ScreenModel::Home(h)) if h.focus == Pane::List => self.with_screen(
                self.screens.len() - 1,
                ScreenModel::Home(HomeModel { focus: Pane::Tree, ..h }),
            ),
            Some(ScreenModel::Inbox(ib)) if ib.focus == InboxPane::View => self.with_screen(
                self.screens.len() - 1,
                ScreenModel::Inbox(InboxModel { focus: InboxPane::List, ..ib }),
            ),
            _ => if self.can_pop() {
                self.popped().blank()
            } else {
                AppModel { should_quit: true, ..self }
            },
        }
    }

    /// A key that one of the client's own places or verbs has.
    pub open spec fn navigated(self, k: KeyEvent) -> Option<(AppModel, KeyRoute)> {
        if k.is_control('k') || k.is_plain(':') {
            Some((self.palette_opened(), KeyRoute::Done))
        } else if k.is_plain('g') {
            Some((AppModel { chord: true, ..self }, KeyRoute::Done))
        } else if k.is_plain('G') {
            Some((self, KeyRoute::Bottom))
        } else if k.is_bare('c') {
            Some((self.inbox_opened(InboxTab::Conversations), KeyRoute::Done))
        } else if k.is_bare('a') {
            Some((self.inbox_opened(InboxTab::Alerts), KeyRoute::Done))
        } else if k.is_bare('s') || k.is_bare('/') {
            Some((self.pushed(ScreenModel::Search(opening_search())), KeyRoute::Done))
        } else {
            None
        }
    }

    /// What a key does, and who still gets it.
    pub open spec fn keyed(self, k: KeyEvent, top: TopScreen) -> (AppModel, KeyRoute) {
        let capture = top.input_capture;
        if k.is_control('l') {
            if self.me is None && self.login_up() {
                (self, KeyRoute::Done)
            } else {
                (self.logged_out(), KeyRoute::Done)
            }
        } else if self.is_retry(k, capture) {
            (
                AppModel {
                    session: SessionState { bootstrap_retry_needed: false, ..self.session },
                    ..self
                }.restoring(),
                KeyRoute::Done,
            )
        } else if self.palette is Some {
            (self, KeyRoute::Palette)
        } else if k.code == KeyCode::Char('?') && !self.typing(capture) {
            (AppModel { show_help: !self.show_help, ..self }, KeyRoute::Done)
        } else if self.show_help {
            (AppModel { show_help: false, ..self }, KeyRoute::Done)
        } else if self.chord {
            (AppModel { chord: false, ..self }, KeyRoute::Chord)
        } else if self.navigable(capture) && self.navigated(k) is Some {
            self.navigated(k)->0
        } else if k.code == KeyCode::Esc && !(self.screens.len() > 0 && capture) {
            if self.screens.len() == 0 {
                (self.escaped(), KeyRoute::Done)
            } else {
                match top.esc {
                    EscIntent::Blocked(hint) => (self.hint(hint@), KeyRoute::Done),
                    EscIntent::Screen => (self, KeyRoute::Screen),
                    EscIntent::Leave => (self.escaped(), KeyRoute::Done),
                }
            }
        } else {
            (self, KeyRoute::Screen)
        }
    }

    pub open spec fn palette_done(self, e: PaletteEvent) -> AppModel {
        match e {
            PaletteEvent::Nothing => self,
            PaletteEvent::Close => AppModel { palette: None, ..self }.blank(),
            PaletteEvent::Run(target) => AppModel { palette: None, ..self }.blank().target_run(
                target@,
            ),
        }
    }

    /// The innermost overlay gone.
    pub open spec fn overlay_closed(self) -> AppModel {
        if self.palette is Some {
            AppModel { palette: None, ..self }.blank()
        } else if self.show_help {
            AppModel { show_help: false, ..self }
        } else if self.chord {
            AppModel { chord: false, ..self }
        } else {
            self.popup_closed()
        }
    }

    /// The link popup of a thread on top gone.
    pub open spec fn popup_closed(self) -> AppModel {
        match self.top() {
            Some(ScreenModel::ThreadView(v)) => self.with_screen(
                self.screens.len() - 1,
                ScreenModel::ThreadView(
                    crate::screens::ThreadViewModel { link_popup: false, ..v },
                ),
            ),
            _ => self,
        }
    }
}

impl App {
    /// A text field or an overlay of the top screen has the keyboard.
    pub fn input_active(&self, capture: bool) -> (r: bool)
        ensures
            r == self@.typing(capture),
    {
        match self.top() {
            Some(Screen::Search(s)) => s.input_mode || capture,
            Some(Screen::Compose(_)) => true,
            Some(Screen::NewConversation(_)) => true,
            Some(_) => capture,
            None => false,
        }
    }

    fn escape(&mut self)
        ensures
            final(self)@ == old(self)@.escaped(),
    {
        let in_list = match self.top() {
            Some(Screen::Home(h)) => h.focus == Pane::List,
            _ => false,
        };
        if in_list {
            if let Some(h) = self.home_top() {
                h.focus = Pane::Tree;
            }
            return;
        }
        let in_view = match self.top() {
            Some(Screen::Inbox(ib)) => ib.focus == InboxPane::View,
            _ => false,
        };
        if in_view {
            if let Some(ib) = self.inbox_top() {
                ib.focus = InboxPane::List;
            }
            return;
        }
        if self.pop_screen() {
            self.status = String::new();
        } else {
            self.should_quit = true;
        }
    }

    /// One of the client's own keys.
    fn navigate(&mut self, k: KeyEvent) -> (r: Option<KeyRoute>)
        ensures
            match old(self)@.navigated(k) {
                Some((next, route)) => r == Some(route) && final(self)@ == next,
                None => r is None && final(self)@ == old(self)@,
            },
    {
        if k.with_control('k') || k.with_at_most_shift(':') {
            self.open_palette();
            return Some(KeyRoute::Done);
        }
        if k.with_at_most_shift('g') {
            self.chord = true;
            return Some(KeyRoute::Done);
        }
        if k.with_at_most_shift('G') {
            return Some(KeyRoute::Bottom);
        }
        if k.without_modifiers() {
            match k.code {
                KeyCode::Char('c') => {
                    self.open_inbox(InboxTab::Conversations);
                    return Some(KeyRoute::Done);
                },
                KeyCode::Char('a') => {
                    self.open_inbox(InboxTab::Alerts);
                    return Some(KeyRoute::Done);
                },
                KeyCode::Char('s') => {
                    self.push_screen(search_state());
                    return Some(KeyRoute::Done);
                },
                KeyCode::Char('/') => {
                    self.push_screen(search_state());
                    return Some(KeyRoute::Done);
                },
                _ => {},
            }
        }
        None
    }

    /// Route a key.
    pub fn handle_key(&mut self, k: KeyEvent, top: TopScreen) -> (route: KeyRoute)
        ensures
            (final(self)@, route) == old(self)@.keyed(k, top),
    {
        if k.with_control('l') {
            // The sign-in screen is a gate: there is no session to end.
            if self.me.is_none() && self.login_on_top() {
                return KeyRoute::Done;
            }
            self.logout();
            return KeyRoute::Done;
        }
        let typing = self.input_active(top.input_capture);
        if self.session.bootstrap_retry_needed && self.me.is_none() && k.without_modifiers()
            && k.code == KeyCode::Char('r') && !typing {
            self.session.bootstrap_retry_needed = false;
            self.restore_session();
            return KeyRoute::Done;
        }
        if self.palette.is_some() {
            return KeyRoute::Palette;
        }
        if k.code == KeyCode::Char('?') && !typing {
            self.show_help = !self.show_help;
            return KeyRoute::Done;
        }
        if self.show_help {
            // The card is modal: the key that closes it does nothing else.
            self.show_help = false;
            return KeyRoute::Done;
        }
        if self.chord {
            self.chord = false;
            return KeyRoute::Chord;
        }
        let captured = self.screens.len() > 0 && top.input_capture;
        if self.me.is_some() && !captured && !typing {
            if let Some(route) = self.navigate(k) {
                return route;
            }
        }
        if k.code == KeyCode::Esc && !captured {
            if self.screens.len() > 0 {
                match top.esc {
                    EscIntent::Blocked(hint) => {
                        self.set_hint(hint);
                        return KeyRoute::Done;
                    },
                    EscIntent::Screen => {
                        return KeyRoute::Screen;
                    },
                    EscIntent::Leave => {},
                }
            }
            self.escape();
            return KeyRoute::Done;
        }
        KeyRoute::Screen
    }

    /// What the palette made of a key or a click.
    pub fn palette_event(&mut self, event: PaletteEvent)
        ensures
            final(self)@ == old(self)@.palette_done(event),
    {
        match event {
            PaletteEvent::Nothing => {},
            PaletteEvent::Close => {
                self.palette = None;
                self.status = String::new();
            },
            PaletteEvent::Run(target) => {
                self.palette = None;
                self.status = String::new();
                self.run_palette_target(target);
            },
        }
    }

    /// Close whatever overlay is up, innermost first.
    pub fn close_overlay(&mut self)
        ensures
            final(self)@ == old(self)@.overlay_closed(),
    {
        if self.palette.is_some() {
            self.palette = None;
            self.status = String::new();
            return;
        }
        if self.show_help {
            self.show_help = false;
            return;
        }
        if self.chord {
            self.chord = false;
            return;
        }
        self.close_popup();
    }

    pub(crate) fn close_popup(&mut self)
        ensures
            final(self)@ == old(self)@.popup_closed(),
    {
        if let Some(v) = self.thread_top() {
            v.link_popup = false;
        }
    }
}

/// With nobody signed in no key goes anywhere but to the palette, the chord or
/// the screen that is up, unless it is Ctrl+L, the retry, the key card or Esc:
/// the sign-in screen is a gate.
pub proof fn no_key_passes_the_gate(app: AppModel, k: KeyEvent, top: TopScreen)
    requires
        app.me is None,
        app.palette is None,
        !app.chord,
        !k.is_control('l'),
        !app.is_retry(k, top.input_capture),
        k.code != KeyCode::Esc,
    ensures
        app.keyed(k, top).0.screens == app.screens,
        app.keyed(k, top).0.effects == app.effects,
        app.keyed(k, top).0.palette is None,
        !app.keyed(k, top).0.chord,
{
}

/// Ctrl+L on the sign-in screen, with nobody signed in, leaves a sign-in that
/// is under way alone.
pub proof fn signing_out_of_nothing_does_nothing(app: AppModel, k: KeyEvent, top: TopScreen)
    requires
        app.me is None,
        app.login_up(),
        k.is_control('l'),
    ensures
        app.keyed(k, top) == (app, KeyRoute::Done),
{
}

/// While the key card is up every key but those of the session closes it or
/// goes to the palette over it, and reaches no screen.
pub proof fn the_key_card_consumes_its_key(app: AppModel, k: KeyEvent, top: TopScreen)
    requires
        app.show_help,
        app.palette is None,
        !k.is_control('l'),
        !app.is_retry(k, top.input_capture),
    ensures
        app.keyed(k, top) == (AppModel { show_help: false, ..app }, KeyRoute::Done),
{
}

/// The key after a `g` is used up, whatever it is: it never reaches a screen.
pub proof fn a_chord_consumes_its_key(app: AppModel, k: KeyEvent, top: TopScreen)
    requires
        app.chord,
        app.palette is None,
        !app.show_help,
        !k.is_control('l'),
        !app.is_retry(k, top.input_capture),
        !(k.code == KeyCode::Char('?') && !app.typing(top.input_capture)),
    ensures
        app.keyed(k, top) == (AppModel { chord: false, ..app }, KeyRoute::Chord),
{
}

/// A screen that refuses Esc is never left by it, and says why.
pub proof fn a_blocked_esc_leaves_nothing(app: AppModel, k: KeyEvent, top: TopScreen)
    requires
        k.code == KeyCode::Esc,
        top.esc is Blocked,
        !top.input_capture,
        app.screens.len() > 0,
        app.palette is None,
        !app.show_help,
        !app.chord,
    ensures
        app.keyed(k, top) == (app.hint(top.esc->Blocked_0@), KeyRoute::Done),
{
}

/// Esc takes at most one screen off the stack, and never the last.
pub proof fn esc_never_empties_the_stack(app: AppModel)
    requires
        app.screens.len() > 0,
    ensures
        app.escaped().screens.len() > 0,
        app.escaped().screens.len() >= app.screens.len() - 1,
{
}

} // verus!
