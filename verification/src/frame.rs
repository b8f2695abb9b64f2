//! What a frame shows and when one is due, and how a run of the client ends.

use vstd::prelude::*;

use ratatui::layout::{Constraint, Layout, Rect};

use crate::app::{App, AppModel, Pointer};
use crate::effects::{Effect, EffectModel};
use crate::keys::{Area, Hit, KeyEvent};
use crate::msg::{Msg, MsgModel};
use crate::pointer::lower_edge;
use crate::screens::{InboxTab, Screen, ScreenModel};
use crate::text::{decimal, digits, glue, same_text, texts};

verus! {

/// The zones of a frame, from top to bottom.
#[derive(Debug, Clone, Copy, PartialEq, Eq, Structural)]
pub struct Zones {
    pub header: Area,
    pub body: Area,
    pub keys: Area,
    pub status: Area,
}

/// The write gate, as the status row shows it; times in milliseconds.
#[derive(Debug, Clone, Copy, PartialEq, Eq, Structural)]
pub enum GateState {
    Ready,
    Waiting { left: u64, total: u64 },
}

/// Who says what the key bar and the status row show.
#[derive(Debug, Clone, Copy, PartialEq, Eq, Structural)]
pub enum BarOwner {
    Screen,
    Palette,
    Help,
}

/// What is laid over the body of a frame.
#[derive(Debug, Clone, Copy, PartialEq, Eq, Structural)]
pub struct Overlays {
    /// The body is dimmed.
    pub dim: bool,
    /// Nothing behind the overlay can be clicked.
    pub glass: bool,
    /// Pictures are painted.
    pub images: bool,
    pub bar: BarOwner,
}

pub open spec fn fetches(s: ScreenModel) -> bool {
    match s {
        ScreenModel::Home(h) => h.tree.loading || h.list.loading,
        ScreenModel::ForumTree(t) => t.loading,
        ScreenModel::ThreadList(l) => l.loading,
        ScreenModel::ThreadView(v) => v.loading,
        ScreenModel::Inbox(i) => i.convos.loading || i.alerts.loading || (i.view matches Some(v)
            && v.loading),
        ScreenModel::ConversationView(v) => v.loading,
        ScreenModel::Search(s) => s.loading,
        ScreenModel::Profile(p) => p.loading,
        ScreenModel::MediaGallery(m) => m.loading,
        ScreenModel::Resources(r) => r.loading,
        ScreenModel::ResourceView(r) => r.loading,
        ScreenModel::Compose(_) => false,
        ScreenModel::NewConversation(_) => false,
        ScreenModel::ImageView(_) => false,
        ScreenModel::Drafts(_) => false,
        ScreenModel::Login(_) => false,
    }
}

/// The crumbs that a screen contributes: Home is two places, the sign-in none,
/// any other screen is one, under its own name.
pub open spec fn crumbs_of(s: ScreenModel, name: Seq<char>) -> Seq<Seq<char>> {
    match s {
        ScreenModel::Login(_) => seq![],
        ScreenModel::Home(h) => if h.list.title.len() > 0 {
            seq!["Forums"@, h.list.title]
        } else {
            seq!["Forums"@]
        },
        _ => seq![name],
    }
}

/// A badge of the header: its columns, and the tab it opens.
#[derive(Debug, Clone, Copy, PartialEq, Eq, Structural)]
pub struct Badge {
    pub x: u16,
    pub width: u16,
    pub tab: InboxTab,
}

/// A cap of the key bar: its columns, and the key it stands for, if it does.
#[derive(Debug, Clone, Copy, PartialEq, Eq, Structural)]
pub struct Cap {
    pub x: u16,
    pub width: u16,
    pub key: Option<KeyEvent>,
}

/// A stretch of one row, cut off at the largest coordinate there is.
pub open spec fn stretch(x: u16, y: u16, width: u16) -> Area {
    Area {
        x,
        y,
        width: if x + width <= u16::MAX {
            width
        } else {
            (u16::MAX - x) as u16
        },
        height: if y < u16::MAX {
            1
        } else {
            0
        },
    }
}

/// `ratatui::layout::Rect::new` with a height of one: the rectangle asked for, its
/// width and height cut off where it would reach beyond the largest coordinate.
#[verifier::external_body]
fn row_area(x: u16, y: u16, width: u16) -> (r: Area)
    ensures
        r == stretch(x, y, width),
{
    let rect = Rect::new(x, y, width, 1);
    Area { x: rect.x, y: rect.y, width: rect.width, height: rect.height }
}

impl Zones {
    /// Where each badge can be clicked: in the row of the header.
    pub open spec fn badge_targets(self, badges: Seq<Badge>) -> Seq<(Area, Hit)> {
        badges.map_values(
            |b: Badge| (stretch(b.x, self.header.y, b.width), Hit::Badge(b.tab)),
        )
    }

    /// Where each cap can be clicked: in the row of the keys.
    pub open spec fn cap_targets(self, caps: Seq<Cap>) -> Seq<(Area, Hit)> {
        caps.map_values(|c: Cap| (stretch(c.x, self.keys.y, c.width), Hit::Key(c.key)))
    }

    /// The targets of the header's badges.
    pub fn badges(&self, badges: &Vec<Badge>) -> (r: Vec<(Area, Hit)>)
        ensures
            r@ == self.badge_targets(badges@),
    {
        let mut out: Vec<(Area, Hit)> = Vec::new();
        for i in 0..badges.len()
            invariant
                out@ == self.badge_targets(badges@.take(i as int)),
        {
            let b = badges[i];
            out.push((row_area(b.x, self.header.y, b.width), Hit::Badge(b.tab)));
            assert(out@ =~= self.badge_targets(badges@.take(i + 1)));
        }
        assert(badges@.take(badges@.len() as int) =~= badges@);
        out
    }

    /// The targets of the key bar's caps.
    pub fn caps(&self, caps: &Vec<Cap>) -> (r: Vec<(Area, Hit)>)
        ensures
            r@ == self.cap_targets(caps@),
    {
        let mut out: Vec<(Area, Hit)> = Vec::new();
        for i in 0..caps.len()
            invariant
                out@ == self.cap_targets(caps@.take(i as int)),
        {
            let c = caps[i];
            out.push((row_area(c.x, self.keys.y, c.width), Hit::Key(c.key)));
            assert(out@ =~= self.cap_targets(caps@.take(i + 1)));
        }
        assert(caps@.take(caps@.len() as int) =~= caps@);
        out
    }
}

/// The crumbs of a stack, from the root up.
pub open spec fn crumb_trail(s: Seq<ScreenModel>, names: Seq<Seq<char>>) -> Seq<Seq<char>>
    decreases s.len(),
{
    if s.len() == 0 {
        seq![]
    } else {
        crumb_trail(s.drop_last(), names) + crumbs_of(s.last(), names[s.len() - 1])
    }
}

/// One more screen adds its crumbs to the trail.
proof fn lemma_next_crumbs(s: Seq<ScreenModel>, names: Seq<Seq<char>>, i: int)
    requires
        0 <= i < s.len(),
    ensures
        crumb_trail(s.take(i + 1), names) == crumb_trail(s.take(i), names) + crumbs_of(
            s[i],
            names[i],
        ),
{
    assert(s.take(i + 1).drop_last() =~= s.take(i));
}

/// Add the crumbs of a screen to a trail.
fn push_crumbs(out: &mut Vec<String>, s: &Screen, name: &String)
    ensures
        texts(final(out)@) == texts(old(out)@) + crumbs_of(s@, name@),
{
    let ghost before = texts(out@);
    match s {
        Screen::Login(_) => {},
        Screen::Home(h) => {
            out.push("Forums".to_owned());
            if h.list.title.as_str().unicode_len() > 0 {
                out.push(h.list.title.clone());
            }
        },
        _ => {
            out.push(name.clone());
        },
    }
    assert(texts(out@) =~= before + crumbs_of(s@, name@));
}

/// The models of a batch of messages.
pub open spec fn msgs_of(v: Seq<Msg>) -> Seq<MsgModel> {
    v.map_values(|m: Msg| m@)
}

impl AppModel {
    /// Something on the screens moves with the clock.
    pub open spec fn animates(self, gate_pending: u64) -> bool {
        gate_pending > 0 || exists|i: int|
            0 <= i < self.screens.len() && fetches(#[trigger] self.screens[i])
    }

    pub open spec fn window_title(self, title: Seq<char>) -> Seq<char> {
        if self.alerts_unread > 0 || self.convos_unread > 0 {
            "wftui · "@ + title + " ["@ + digits(self.convos_unread as nat) + " DM · "@ + digits(
                self.alerts_unread as nat,
            ) + " alerts]"@
        } else {
            "wftui · "@ + title
        }
    }

    /// The window named, where its name changes.
    pub open spec fn window_named(self, title: Seq<char>) -> AppModel {
        let name = self.window_title(title);
        if name == self.last_title {
            self
        } else {
            AppModel { last_title: name, ..self }.asking(EffectModel::SetTitle { title: name })
        }
    }

    pub open spec fn overlaid(self, capture: bool) -> Overlays {
        Overlays {
            dim: self.palette is Some || self.show_help,
            glass: self.palette is Some || self.show_help || self.chord,
            images: !(self.palette is Some || self.show_help || self.chord || capture),
            bar: if self.show_help {
                BarOwner::Help
            } else if self.palette is Some {
                BarOwner::Palette
            } else {
                BarOwner::Screen
            },
        }
    }

    /// The messages taken in, up to one that ends the run.
    pub open spec fn drained(self, msgs: Seq<MsgModel>) -> AppModel
        decreases msgs.len(),
    {
        if msgs.len() == 0 {
            self
        } else {
            let next = self.handled(msgs[0]);
            if next.should_quit {
                next
            } else {
                next.drained(msgs.skip(1))
            }
        }
    }

    /// The reader of the terminal's input gone for the `deaths`-th time.
    pub open spec fn reader_lost(self, deaths: u32, most: u32) -> AppModel {
        if deaths <= most {
            self.status("Terminal input restarted."@)
        } else {
            AppModel { should_quit: true, ..self.hint("Terminal input failed — exiting."@) }
        }
    }
}

/// The rows from `y` on, `height` of them, across the whole width of an area.
pub open spec fn strip(area: Area, y: int, height: int) -> Area {
    Area { x: area.x, y: y as u16, width: area.width, height: height as u16 }
}

/// A zone is as wide as the area and takes none but rows of it.
pub open spec fn zone_of(area: Area, zone: Area) -> bool {
    &&& zone.x == area.x
    &&& zone.width == area.width
    &&& area.y <= zone.y
    &&& zone.y + zone.height <= lower_edge(area)
}

/// The zones of an area: the header in its first row, the status in its last, the
/// keys in the row before that, and the body in all the rows between. Where the
/// area has no row for one of them, every zone still lies inside it, and the body
/// keeps a row as long as there is one.
pub open spec fn laid_out(area: Area, z: Zones) -> bool {
    let end = lower_edge(area);
    &&& zone_of(area, z.header)
    &&& zone_of(area, z.body)
    &&& zone_of(area, z.keys)
    &&& zone_of(area, z.status)
    &&& area.y + 1 <= end ==> z.body.height >= 1
    &&& area.y + 4 <= end ==> {
        &&& z.header == strip(area, area.y as int, 1)
        &&& z.body == strip(area, area.y + 1, end - area.y - 3)
        &&& z.keys == strip(area, end - 2, 1)
        &&& z.status == strip(area, end - 1, 1)
    }
}

/// `ratatui::layout::Layout::vertical` with one row, at least one row, one row and
/// one row, and `Layout::areas`: every zone is as wide as the frame, starts in its
/// first column and takes none but rows of it. Where there are four rows or more
/// the three lengths are met exactly, from the top down without gaps, and the
/// minimum takes what is left, since ratatui holds a length more strongly than the
/// growth of a minimum. With fewer rows the wishes contradict each other: ratatui
/// holds a minimum more strongly than a length, so the body keeps a row where there
/// is one, and which of the other zones go short is left to its solver.
#[verifier::external_body]
fn split_frame(area: Area) -> (r: Zones)
    ensures
        laid_out(area, r),
{
    let one = Constraint::Length(1);
    let layout = Layout::vertical([one, Constraint::Min(1), one, one]);
    let frame = Rect { x: area.x, y: area.y, width: area.width, height: area.height };
    let [a, b, c, d] = layout.areas(frame);
    Zones {
        header: Area { x: a.x, y: a.y, width: a.width, height: a.height },
        body: Area { x: b.x, y: b.y, width: b.width, height: b.height },
        keys: Area { x: c.x, y: c.y, width: c.width, height: c.height },
        status: Area { x: d.x, y: d.y, width: d.width, height: d.height },
    }
}

impl Screen {
    /// A fetch for this screen is under way: its spinner turns.
    pub fn is_loading(&self) -> (r: bool)
        ensures
            r == fetches(self@),
    {
        match self {
            Screen::Home(h) => h.tree.loading || h.list.loading,
            Screen::ForumTree(t) => t.loading,
            Screen::ThreadList(l) => l.loading,
            Screen::ThreadView(v) => v.loading,
            Screen::Inbox(i) => i.convos.loading || i.alerts.loading || match &i.view {
                Some(v) => v.loading,
                None => false,
            },
            Screen::ConversationView(v) => v.loading,
            Screen::Search(s) => s.loading,
            Screen::Profile(p) => p.loading,
            Screen::MediaGallery(m) => m.loading,
            Screen::Resources(r) => r.loading,
            Screen::ResourceView(r) => r.loading,
            Screen::Compose(_) => false,
            Screen::NewConversation(_) => false,
            Screen::ImageView(_) => false,
            Screen::Drafts(_) => false,
            Screen::Login(_) => false,
        }
    }
}

/// What the status row says of the write gate.
pub fn gate_state(pending: u64, total: u64) -> (r: GateState)
    ensures
        r == (if pending == 0 {
            GateState::Ready
        } else {
            GateState::Waiting { left: pending, total }
        }),
{
    if pending == 0 {
        GateState::Ready
    } else {
        GateState::Waiting { left: pending, total }
    }
}

/// The exit code of a run: 3 where the terminal's input gave out for good.
pub fn exit_code(deaths: u32, most: u32) -> (r: u8)
    ensures
        r == (if deaths > most {
            3u8
        } else {
            0u8
        }),
{
    if deaths > most {
        3
    } else {
        0
    }
}

/// The steps that give the terminal back, in their order.
pub fn restore_steps() -> (r: [&'static str; 5])
    ensures
        r@ == seq![
            "pop_keyboard_enhancement_flags",
            "disable_bracketed_paste",
            "leave_alternate_screen",
            "disable_mouse_capture",
            "cursor_show",
        ],
{
    [
        "pop_keyboard_enhancement_flags",
        "disable_bracketed_paste",
        "leave_alternate_screen",
        "disable_mouse_capture",
        "cursor_show",
    ]
}

impl Pointer {
    /// The cells of the band that lie on the frame, as their upper left and
    /// lower right cell.
    pub open spec fn painted(self, width: u16, height: u16) -> Option<(u16, u16, u16, u16)> {
        match self.selection {
            Some(sel) => {
                let (x0, y0, x1, y1) = sel.corners();
                if x0 < width && y0 < height {
                    Some(
                        (
                            x0,
                            y0,
                            if x1 < width { x1 } else { (width - 1) as u16 },
                            if y1 < height { y1 } else { (height - 1) as u16 },
                        ),
                    )
                } else {
                    None
                }
            },
            None => None,
        }
    }

    /// The cells to highlight on a frame of this size; those of pictures among
    /// them stay as they are.
    pub fn paint_selection(&self, width: u16, height: u16) -> (r: Option<(u16, u16, u16, u16)>)
        ensures
            r == self.painted(width, height),
    {
        match &self.selection {
            Some(sel) => {
                let (x0, y0, x1, y1) = sel.rect();
                if x0 >= width || y0 >= height {
                    return None;
                }
                Some(
                    (
                        x0,
                        y0,
                        if x1 < width { x1 } else { width - 1 },
                        if y1 < height { y1 } else { height - 1 },
                    ),
                )
            },
            None => None,
        }
    }
}

impl App {
    /// The next tick owes the screen a redraw though nothing happened.
    pub fn needs_continuous_redraw(&self, gate_pending: u64) -> (r: bool)
        ensures
            r == self@.animates(gate_pending),
    {
        if gate_pending > 0 {
            return true;
        }
        for i in 0..self.screens.len()
            invariant
                forall|j: int| 0 <= j < i ==> !fetches(#[trigger] self@.screens[j]),
        {
            assert(self@.screens[i as int] == self.screens@[i as int]@);
            if self.screens[i].is_loading() {
                return true;
            }
        }
        false
    }

    /// A frame is due: something happened, the write gate's countdown moved, or
    /// something animates.
    pub fn frame_due(&self, dirty: bool, gate_pending: u64, last_drawn_gate: u64) -> (r: bool)
        ensures
            r == (dirty || gate_pending != last_drawn_gate || self@.animates(gate_pending)),
    {
        dirty || gate_pending != last_drawn_gate || self.needs_continuous_redraw(gate_pending)
    }

    /// Lay out a frame, and remember where its body is.
    pub fn begin_frame(&mut self, area: Area) -> (r: Zones)
        ensures
            final(self)@ == old(self)@.with_pointer(
                Pointer { body_rect: r.body, ..old(self).pointer },
            ),
            laid_out(area, r),
    {
        let zones = split_frame(area);
        self.pointer.body_rect = zones.body;
        zones
    }

    /// The crumbs of the header, given the name of each screen.
    pub fn crumbs(&self, names: &Vec<String>) -> (r: Vec<String>)
        requires
            names.len() == self.screens.len(),
        ensures
            texts(r@) == crumb_trail(self@.screens, texts(names@)),
    {
        let mut out: Vec<String> = Vec::new();
        assert(self@.screens.take(0) =~= seq![]);
        for i in 0..self.screens.len()
            invariant
                names.len() == self.screens.len(),
                texts(out@) == crumb_trail(self@.screens.take(i as int), texts(names@)),
        {
            push_crumbs(&mut out, &self.screens[i], &names[i]);
            proof {
                lemma_next_crumbs(self@.screens, texts(names@), i as int);
            }
            assert(self@.screens[i as int] == self.screens@[i as int]@);
            assert(texts(names@)[i as int] == names@[i as int]@);
        }
        assert(self@.screens.take(self.screens.len() as int) =~= self@.screens);
        out
    }

    /// What of a frame can be clicked, in the order it was drawn: the targets of the
    /// body, or only those of the overlay that owns the pointer, and then the badges
    /// and the caps, which lie outside the body and can be clicked whatever is up.
    pub fn targets(
        &self,
        body: Vec<(Area, Hit)>,
        overlay: Vec<(Area, Hit)>,
        badges: Vec<(Area, Hit)>,
        caps: Vec<(Area, Hit)>,
    ) -> (r: Vec<(Area, Hit)>)
        ensures
            r@ == (if self@.overlaid(false).glass {
                overlay@
            } else {
                body@
            }) + badges@ + caps@,
    {
        let mut out = if self.palette.is_some() || self.show_help || self.chord {
            overlay
        } else {
            body
        };
        let mut badges = badges;
        let mut caps = caps;
        out.append(&mut badges);
        out.append(&mut caps);
        out
    }

    /// What is laid over the body, where `capture` says that the top screen has
    /// an overlay of its own.
    pub fn overlays(&self, capture: bool) -> (r: Overlays)
        ensures
            r == self@.overlaid(capture),
    {
        let palette = self.palette.is_some();
        Overlays {
            dim: palette || self.show_help,
            glass: palette || self.show_help || self.chord,
            images: !(palette || self.show_help || self.chord || capture),
            bar: if self.show_help {
                BarOwner::Help
            } else if palette {
                BarOwner::Palette
            } else {
                BarOwner::Screen
            },
        }
    }

    /// Name the terminal's window after the screen on top and what is unread.
    pub fn name_window(&mut self, title: &str)
        ensures
            final(self)@ == old(self)@.window_named(title@),
    {
        let mut name = glue("wftui · ", title);
        if self.alerts_unread > 0 || self.convos_unread > 0 {
            name.append(" [");
            name.append(decimal(self.convos_unread as u64).as_str());
            name.append(" DM · ");
            name.append(decimal(self.alerts_unread as u64).as_str());
            name.append(" alerts]");
        }
        if same_text(name.as_str(), self.last_title.as_str()) {
            return;
        }
        self.last_title = name.clone();
        self.ask(Effect::SetTitle { title: name });
    }

    /// Let time pass: clear what has been up for its time. True when the screen
    /// wants a redraw.
    pub fn tick(&mut self) -> (r: bool)
        ensures
            ({
                let a = old(self)@;
                let b = if a.toast_overdue() {
                    a.toast_cleared()
                } else {
                    a
                };
                let c = if b.recovery_overdue() {
                    b.recovery_expired()
                } else {
                    b
                };
                final(self)@ == c && r == (a.toast_overdue() || b.recovery_overdue())
            }),
    {
        let toast = self.expire_status_toast();
        let recovery = self.expire_session_recovery_timeout();
        toast || recovery
    }

    /// Take in what has been reported, oldest first, up to a message that ends
    /// the run. True when there was anything.
    pub fn drain(&mut self, msgs: Vec<Msg>) -> (got: bool)
        ensures
            final(self)@ == old(self)@.drained(msgs_of(msgs@)),
            got == (msgs@.len() > 0),
    {
        let mut rest = msgs;
        let got = rest.len() > 0;
        while rest.len() > 0
            invariant
                self@.drained(msgs_of(rest@)) == old(self)@.drained(msgs_of(msgs@)),
                got == (msgs@.len() > 0),
            decreases rest@.len(),
        {
            let ghost all = msgs_of(rest@);
            let msg = rest.remove(0);
            assert(all[0] == msg@);
            assert(msgs_of(rest@) =~= all.skip(1));
            self.handle_msg(msg);
            if self.should_quit {
                return got;
            }
        }
        assert(self@.drained(msgs_of(rest@)) == self@);
        got
    }

    /// Start the reader of the terminal's input again after it died for the
    /// `deaths`-th time, or give up. True when it is to be started.
    pub fn reader_died(&mut self, deaths: u32, most: u32) -> (restart: bool)
        ensures
            final(self)@ == old(self)@.reader_lost(deaths, most),
            restart == (deaths <= most),
    {
        if deaths <= most {
            self.set_status("Terminal input restarted.".to_owned());
            true
        } else {
            self.set_hint("Terminal input failed — exiting.".to_owned());
            self.should_quit = true;
            false
        }
    }
}

} // verus!
