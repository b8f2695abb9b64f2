//! The state of the client, and where in the screen stack things live.

use vstd::prelude::*;

use crate::effects::{effects_of, Effect, EffectModel};
use crate::keys::Area;
use crate::models::User;
use crate::palette::{opt_palette, Palette, PaletteModel};
use crate::screens::{
    ComposeState, ComposeTarget, ConversationViewModel, ConversationViewState, DraftsState,
    ForumTreeModel, ForumTreeState, HomeModel, HomeState, InboxModel, InboxState, LoginState,
    MediaListState, NewConversationState, ProfileState, ResourceListState, ResourceViewState,
    Screen, ScreenModel, SearchState, ThreadListModel, ThreadListState, ThreadViewState,
};
use crate::update::{UpdateConfig, UpdateModel, UpdateState, Updater, UpdaterModel};

verus! {

/// How long a toast stays, in milliseconds.
pub const STATUS_TOAST_MS: u64 = 4_000;

/// The forums that have a key of their own.
#[derive(Debug, Clone, Copy)]
pub struct QuickNodes {
    pub news: u32,
    pub security: u32,
    pub tutorials: u32,
}

/// A band of cells, from where the button went down to where the pointer is.
#[derive(Debug, Clone, Copy, PartialEq, Eq)]
pub struct Selection {
    pub anchor: (u16, u16),
    pub end: (u16, u16),
}

/// The pointer, and the frame it moves over.
#[derive(Debug)]
pub struct Pointer {
    /// The pointer's events are ours.
    pub enabled: bool,
    pub selection: Option<Selection>,
    /// The characters of the last frame, row by row.
    pub screen_rows: Vec<Vec<char>>,
    /// Per row, where each column's characters start, and where the last ends.
    pub screen_cols: Vec<Vec<usize>>,
    pub last_click_at: Option<u64>,
    pub last_click_pos: (u16, u16),
    pub click_count: u8,
    pub press_pos: Option<(u16, u16)>,
    /// The body of the last frame.
    pub body_rect: Area,
}

/// The session, as far as it is not a member: what restores it, and what signs
/// in.
#[derive(Debug, Clone, Copy)]
pub struct SessionState {
    /// No session could be restored, and trying again may help.
    pub bootstrap_retry_needed: bool,
    /// The stored-session check that counts.
    pub bootstrap_generation: u64,
    /// This session's one look at the token store is spent.
    pub recovery_tried: bool,
    /// That look has not reported back yet.
    pub recovery_pending: bool,
    pub recovery_started_at: Option<u64>,
    /// The sign-in flow that counts.
    pub login_generation: u64,
    /// A sign-in flow runs.
    pub login_task: bool,
}

/// The numbers by which replies find the screen that asked.
#[derive(Debug, Clone, Copy)]
pub struct Minted {
    pub profile_generation: u64,
    pub search_generation: u64,
    pub next_list_seq: u64,
}

/// Where the client is at home.
#[derive(Debug)]
pub struct Site {
    /// The address, without a slash at its end.
    pub base_url: String,
    pub quick: QuickNodes,
}

/// The models of a stack of screens.
pub open spec fn screens_of(v: Seq<Screen>) -> Seq<ScreenModel> {
    v.map_values(|s: Screen| s@)
}

/// The client's whole state.
#[derive(Debug)]
pub struct App {
    /// The screen stack; the last one is on top.
    pub screens: Vec<Screen>,
    /// Who is signed in.
    pub me: Option<User>,
    pub alerts_unread: u32,
    pub convos_unread: u32,
    pub status: String,
    /// When the status was shown as a toast. A hint has no such time.
    pub status_set_at: Option<u64>,
    /// Thread, page, selected post and scroll that the next load of that page keeps.
    pub keep_thread_position: Option<(u32, u32, usize, usize)>,
    pub show_help: bool,
    /// The open palette. It has the keyboard.
    pub palette: Option<Palette>,
    /// A `g` was pressed and waits for its second key.
    pub chord: bool,
    pub pointer: Pointer,
    pub clipboard: String,
    pub last_title: String,
    pub should_quit: bool,
    /// The alerts and conversations pollers run.
    pub pollers: bool,
    pub session: SessionState,
    pub minted: Minted,
    pub updater: Updater,
    pub site: Site,
    /// Now, in milliseconds.
    pub clock: u64,
    /// Work for the front end, oldest first.
    pub effects: Vec<Effect>,
}

/// What the client's state says.
#[verifier::ext_equal]
pub struct AppModel {
    pub screens: Seq<ScreenModel>,
    pub me: Option<User>,
    pub alerts_unread: u32,
    pub convos_unread: u32,
    pub status: Seq<char>,
    pub status_set_at: Option<u64>,
    pub keep_thread_position: Option<(u32, u32, usize, usize)>,
    pub show_help: bool,
    pub palette: Option<PaletteModel>,
    pub chord: bool,
    pub pointer: Pointer,
    pub clipboard: Seq<char>,
    pub last_title: Seq<char>,
    pub should_quit: bool,
    pub pollers: bool,
    pub session: SessionState,
    pub minted: Minted,
    pub updater: UpdaterModel,
    pub site: Site,
    pub clock: u64,
    pub effects: Seq<EffectModel>,
}

impl View for App {
    type V = AppModel;

    open spec fn view(&self) -> AppModel {
        AppModel {
            screens: screens_of(self.screens@),
            me: self.me,
            alerts_unread: self.alerts_unread,
            convos_unread: self.convos_unread,
            status: self.status@,
            status_set_at: self.status_set_at,
            keep_thread_position: self.keep_thread_position,
            show_help: self.show_help,
            palette: opt_palette(self.palette),
            chord: self.chord,
            pointer: self.pointer,
            clipboard: self.clipboard@,
            last_title: self.last_title@,
            should_quit: self.should_quit,
            pollers: self.pollers,
            session: self.session,
            minted: self.minted,
            updater: self.updater@,
            site: self.site,
            clock: self.clock,
            effects: effects_of(self.effects@),
        }
    }
}

/// A description of the screen that a reply is addressed to.
#[derive(Clone, Copy)]
pub enum Wanted {
    /// A forum tree, Home's among them.
    Tree,
    /// A thread list, Home's among them.
    List,
    /// A thread list that shows this forum.
    ListOf(u32),
    Inbox,
    /// A conversation's view, the Inbox's pane among them.
    Conversation(u32),
    ThreadView(u32),
    /// A thread view that has its thread.
    OpenThread,
    ReplyComposer,
    ThreadComposer,
    ConvoComposer,
    EditComposer(u32),
    /// A composer that has uploaded something.
    UploadComposer,
    NewConversation,
    MediaGallery,
    Resources,
    ResourceView(u32),
    Search,
    /// The search that waits for this load.
    SearchLoad(u64),
    /// The profile that waits for this load.
    ProfileLoad(u64),
    /// A thread or a list that belongs to a forum.
    InForum,
}

pub open spec fn wants(w: Wanted, s: ScreenModel) -> bool {
    match w {
        Wanted::Tree => s is ForumTree || s is Home,
        Wanted::List => s is ThreadList || s is Home,
        Wanted::ListOf(id) => match s {
            ScreenModel::ThreadList(l) => l.node_id == id,
            ScreenModel::Home(h) => h.list.node_id == id,
            _ => false,
        },
        Wanted::Inbox => s is Inbox,
        Wanted::Conversation(id) => match s {
            ScreenModel::ConversationView(v) => v.conversation.conversation_id == id,
            ScreenModel::Inbox(i) => i.view matches Some(v) && v.conversation.conversation_id == id,
            _ => false,
        },
        Wanted::ThreadView(id) => s matches ScreenModel::ThreadView(v) && v.thread.thread_id == id,
        Wanted::OpenThread => s matches ScreenModel::ThreadView(v) && v.thread.thread_id > 0,
        Wanted::ReplyComposer => s matches ScreenModel::Compose(c) && c.target matches Some(t)
            && t is ThreadReply,
        Wanted::ThreadComposer => s matches ScreenModel::Compose(c) && c.target matches Some(t)
            && t is NewThread,
        Wanted::ConvoComposer => s matches ScreenModel::Compose(c) && c.target matches Some(t)
            && t is ConversationReply,
        Wanted::EditComposer(id) => s matches ScreenModel::Compose(c) && c.target matches Some(t)
            && t matches ComposeTarget::EditPost { post_id, .. } && post_id == id,
        Wanted::UploadComposer => s matches ScreenModel::Compose(c) && c.attachment_key is Some,
        Wanted::NewConversation => s is NewConversation,
        Wanted::MediaGallery => s is MediaGallery,
        Wanted::Resources => s is Resources,
        Wanted::ResourceView(id) => s matches ScreenModel::ResourceView(r) && r.id == id,
        Wanted::Search => s is Search,
        Wanted::SearchLoad(g) => s matches ScreenModel::Search(r) && r.generation == g,
        Wanted::ProfileLoad(g) => s matches ScreenModel::Profile(p) && p.generation == g,
        Wanted::InForum => match s {
            ScreenModel::ThreadView(v) => v.thread.node_id > 0,
            ScreenModel::ThreadList(l) => l.node_id > 0,
            ScreenModel::Home(h) => h.list.node_id > 0,
            _ => false,
        },
    }
}

/// The topmost screen that is wanted.
pub open spec fn topmost(s: Seq<ScreenModel>, w: Wanted) -> Option<int>
    decreases s.len(),
{
    if s.len() == 0 {
        None
    } else if wants(w, s.last()) {
        Some(s.len() - 1)
    } else {
        topmost(s.drop_last(), w)
    }
}

/// `topmost` is the greatest index of a wanted screen.
pub proof fn topmost_is_the_greatest(s: Seq<ScreenModel>, w: Wanted)
    ensures
        match topmost(s, w) {
            Some(i) => 0 <= i < s.len() && wants(w, s[i]) && forall|j: int|
                i < j < s.len() ==> !wants(w, #[trigger] s[j]),
            None => forall|j: int| 0 <= j < s.len() ==> !wants(w, #[trigger] s[j]),
        },
    decreases s.len(),
{
    if s.len() > 0 && !wants(w, s.last()) {
        let lower = s.drop_last();
        topmost_is_the_greatest(lower, w);
        let found = topmost(lower, w).unwrap_or(-1);
        assert forall|j: int| found < j < s.len() implies !wants(w, #[trigger] s[j]) by {
            if j < s.len() - 1 {
                assert(lower[j] == s[j]);
            }
        }
    }
}

/// The forum tree that a screen shows.
pub open spec fn tree_in(s: ScreenModel) -> ForumTreeModel {
    match s {
        ScreenModel::Home(h) => h.tree,
        ScreenModel::ForumTree(t) => t,
        _ => ForumTreeModel::initial(),
    }
}

/// The screen with another tree in its place.
pub open spec fn with_tree(s: ScreenModel, tree: ForumTreeModel) -> ScreenModel {
    match s {
        ScreenModel::Home(h) => ScreenModel::Home(HomeModel { tree, ..h }),
        ScreenModel::ForumTree(_) => ScreenModel::ForumTree(tree),
        _ => s,
    }
}

/// The conversation that a screen shows.
pub open spec fn conversation_in(s: ScreenModel) -> Option<ConversationViewModel> {
    match s {
        ScreenModel::ConversationView(v) => Some(v),
        ScreenModel::Inbox(i) => i.view,
        _ => None,
    }
}

/// The screen with another conversation in its place.
pub open spec fn with_conversation(s: ScreenModel, v: ConversationViewModel) -> ScreenModel {
    match s {
        ScreenModel::ConversationView(_) => ScreenModel::ConversationView(v),
        ScreenModel::Inbox(i) => ScreenModel::Inbox(InboxModel { view: Some(v), ..i }),
        _ => s,
    }
}

/// The list that a screen shows.
pub open spec fn list_in(s: ScreenModel) -> ThreadListModel {
    match s {
        ScreenModel::Home(h) => h.list,
        ScreenModel::ThreadList(l) => l,
        _ => ThreadListModel::initial(),
    }
}

/// The screen with another list in its place.
pub open spec fn with_list(s: ScreenModel, list: ThreadListModel) -> ScreenModel {
    match s {
        ScreenModel::Home(h) => ScreenModel::Home(HomeModel { list, ..h }),
        ScreenModel::ThreadList(_) => ScreenModel::ThreadList(list),
        _ => s,
    }
}

impl Screen {
    fn is_wanted(&self, w: Wanted) -> (r: bool)
        ensures
            r == wants(w, self@),
    {
        match w {
            Wanted::Tree => matches!(self, Screen::ForumTree(_) | Screen::Home(_)),
            Wanted::List => matches!(self, Screen::ThreadList(_) | Screen::Home(_)),
            Wanted::ListOf(id) => match self {
                Screen::ThreadList(l) => l.node_id == id,
                Screen::Home(h) => h.list.node_id == id,
                _ => false,
            },
            Wanted::Inbox => matches!(self, Screen::Inbox(_)),
            Wanted::Conversation(id) => match self {
                Screen::ConversationView(v) => v.conversation.conversation_id == id,
                Screen::Inbox(i) => match &i.view {
                    Some(v) => v.conversation.conversation_id == id,
                    None => false,
                },
                _ => false,
            },
            Wanted::ThreadView(id) => match self {
                Screen::ThreadView(v) => v.thread.thread_id == id,
                _ => false,
            },
            Wanted::OpenThread => match self {
                Screen::ThreadView(v) => v.thread.thread_id > 0,
                _ => false,
            },
            Wanted::ReplyComposer => match self {
                Screen::Compose(c) => matches!(c.target, Some(ComposeTarget::ThreadReply { .. })),
                _ => false,
            },
            Wanted::ThreadComposer => match self {
                Screen::Compose(c) => matches!(c.target, Some(ComposeTarget::NewThread { .. })),
                _ => false,
            },
            Wanted::ConvoComposer => match self {
                Screen::Compose(c) => matches!(
                    c.target,
                    Some(ComposeTarget::ConversationReply { .. })
                ),
                _ => false,
            },
            Wanted::EditComposer(id) => match self {
                Screen::Compose(c) => match &c.target {
                    Some(ComposeTarget::EditPost { post_id, .. }) => *post_id == id,
                    _ => false,
                },
                _ => false,
            },
            Wanted::UploadComposer => match self {
                Screen::Compose(c) => c.attachment_key.is_some(),
                _ => false,
            },
            Wanted::NewConversation => matches!(self, Screen::NewConversation(_)),
            Wanted::MediaGallery => matches!(self, Screen::MediaGallery(_)),
            Wanted::Resources => matches!(self, Screen::Resources(_)),
            Wanted::ResourceView(id) => match self {
                Screen::ResourceView(r) => r.id == id,
                _ => false,
            },
            Wanted::Search => matches!(self, Screen::Search(_)),
            Wanted::SearchLoad(g) => match self {
                Screen::Search(r) => r.generation == g,
                _ => false,
            },
            Wanted::ProfileLoad(g) => match self {
                Screen::Profile(p) => p.generation == g,
                _ => false,
            },
            Wanted::InForum => match self {
                Screen::ThreadView(v) => v.thread.node_id > 0,
                Screen::ThreadList(l) => l.node_id > 0,
                Screen::Home(h) => h.list.node_id > 0,
                _ => false,
            },
        }
    }
}

/// Find the topmost wanted screen.
pub fn find(screens: &Vec<Screen>, w: Wanted) -> (r: Option<usize>)
    ensures
        match r {
            Some(i) => i < screens.len() && topmost(screens_of(screens@), w) == Some(i as int)
                && wants(w, screens@[i as int]@),
            None => topmost(screens_of(screens@), w) is None,
        },
{
    let ghost m = screens_of(screens@);
    let mut i: usize = screens.len();
    assert(m.take(i as int) =~= m);
    while i > 0
        invariant
            i <= screens.len(),
            m == screens_of(screens@),
            topmost(m, w) == topmost(m.take(i as int), w),
        decreases i,
    {
        let ghost upto = m.take(i as int);
        assert(upto.last() == screens@[i - 1]@);
        assert(upto.drop_last() =~= m.take(i - 1));
        i -= 1;
        if screens[i].is_wanted(w) {
            return Some(i);
        }
    }
    None
}

impl AppModel {
    /// Show a toast.
    pub open spec fn status(self, s: Seq<char>) -> AppModel {
        AppModel { status: s, status_set_at: Some(self.clock), ..self }
    }

    /// Show a hint.
    pub open spec fn hint(self, s: Seq<char>) -> AppModel {
        AppModel { status: s, status_set_at: None, ..self }
    }

    /// Nothing on the status row.
    pub open spec fn blank(self) -> AppModel {
        AppModel { status: seq![], ..self }
    }

    /// Ask for outside work.
    pub open spec fn asking(self, e: EffectModel) -> AppModel {
        AppModel { effects: self.effects.push(e), ..self }
    }

    pub open spec fn top(self) -> Option<ScreenModel> {
        if self.screens.len() > 0 {
            Some(self.screens.last())
        } else {
            None
        }
    }

    /// Another screen in the place of one of the stack.
    pub open spec fn with_screen(self, i: int, s: ScreenModel) -> AppModel {
        AppModel { screens: self.screens.update(i, s), ..self }
    }

    pub open spec fn pushed(self, s: ScreenModel) -> AppModel {
        AppModel { screens: self.screens.push(s), ..self }
    }
}

/// The thread list that a page of a forum is addressed to: the topmost that
/// shows the forum, Home's pane among them.
pub fn list_showing(screens: &mut Vec<Screen>, node_id: u32) -> (r: Option<&mut ThreadListState>)
    ensures
        match r {
            Some(x) => {
                &&& topmost(screens_of(old(screens)@), Wanted::ListOf(node_id)) matches Some(i)
                &&& x@ == list_in(screens_of(old(screens)@)[i])
                &&& screens_of(final(screens)@) == screens_of(old(screens)@).update(
                    i,
                    with_list(screens_of(old(screens)@)[i], final(x)@),
                )
            },
            None => {
                &&& topmost(screens_of(old(screens)@), Wanted::ListOf(node_id)) is None
                &&& final(screens)@ == old(screens)@
            },
        },
{
    match find(screens, Wanted::ListOf(node_id)) {
        Some(i) => match screen_at(screens, i) {
            Screen::Home(h) => Some(&mut h.list),
            Screen::ThreadList(l) => Some(l),
            _ => None,
        },
        None => None,
    }
}

fn screen_at(screens: &mut Vec<Screen>, i: usize) -> (r: &mut Screen)
    requires
        i < old(screens)@.len(),
    ensures
        r@ == screens_of(old(screens)@)[i as int],
        screens_of(final(screens)@) == screens_of(old(screens)@).update(i as int, final(r)@),
{
    &mut screens[i]
}

impl Pointer {
    /// Nothing pressed, nothing selected, no frame drawn.
    pub open spec fn at_rest(self) -> bool {
        &&& self.selection is None
        &&& self.screen_rows@.len() == 0 && self.screen_cols@.len() == 0
        &&& self.last_click_at is None && self.last_click_pos == (0u16, 0u16)
        &&& self.click_count == 0
        &&& self.press_pos is None
        &&& self.body_rect == (Area { x: 0, y: 0, width: 0, height: 0 })
    }
}

impl Pointer {
    pub fn new(enabled: bool) -> (r: Pointer)
        ensures
            r.at_rest(),
            r.enabled == enabled,
    {
        Pointer {
            enabled,
            selection: None,
            screen_rows: Vec::new(),
            screen_cols: Vec::new(),
            last_click_at: None,
            last_click_pos: (0, 0),
            click_count: 0,
            press_pos: None,
            body_rect: Area { x: 0, y: 0, width: 0, height: 0 },
        }
    }
}

impl App {
    /// The client before its first screen.
    pub fn new(site: Site, mouse: bool, update: UpdateConfig, clock: u64) -> (r: App)
        ensures
            r@ == (AppModel {
                screens: seq![],
                me: None,
                alerts_unread: 0,
                convos_unread: 0,
                status: "Starting…"@,
                status_set_at: None,
                keep_thread_position: None,
                show_help: false,
                palette: None,
                chord: false,
                pointer: r.pointer,
                clipboard: seq![],
                last_title: seq![],
                should_quit: false,
                pollers: false,
                session: SessionState {
                    bootstrap_retry_needed: false,
                    bootstrap_generation: 0,
                    recovery_tried: false,
                    recovery_pending: false,
                    recovery_started_at: None,
                    login_generation: 0,
                    login_task: false,
                },
                minted: Minted { profile_generation: 0, search_generation: 0, next_list_seq: 1 },
                updater: UpdaterModel {
                    state: UpdateModel::Idle,
                    generation: 0,
                    task: false,
                    cfg: update,
                },
                site,
                clock,
                effects: seq![],
            }),
            r.pointer.at_rest(),
            r.pointer.enabled == mouse,
    {
        App {
            screens: Vec::new(),
            me: None,
            alerts_unread: 0,
            convos_unread: 0,
            status: "Starting…".to_owned(),
            status_set_at: None,
            keep_thread_position: None,
            show_help: false,
            palette: None,
            chord: false,
            pointer: Pointer::new(mouse),
            clipboard: String::new(),
            last_title: String::new(),
            should_quit: false,
            pollers: false,
            session: SessionState {
                bootstrap_retry_needed: false,
                bootstrap_generation: 0,
                recovery_tried: false,
                recovery_pending: false,
                recovery_started_at: None,
                login_generation: 0,
                login_task: false,
            },
            minted: Minted { profile_generation: 0, search_generation: 0, next_list_seq: 1 },
            updater: Updater {
                state: UpdateState::Idle,
                generation: 0,
                task: false,
                cfg: update,
            },
            site,
            clock,
            effects: Vec::new(),
        }
    }
}

impl App {
    /// Ask for outside work.
    pub(crate) fn ask(&mut self, e: Effect)
        ensures
            final(self)@ == old(self)@.asking(e@),
    {
        self.effects.push(e);
        assert(self@.effects =~= old(self)@.effects.push(e@));
    }

    /// Show a toast: what an action just did. It goes away by itself.
    pub fn set_status(&mut self, s: String)
        ensures
            final(self)@ == old(self)@.status(s@),
    {
        self.status = s;
        self.status_set_at = Some(self.clock);
    }

    /// Show a hint: it stays until something else is said.
    pub fn set_hint(&mut self, s: String)
        ensures
            final(self)@ == old(self)@.hint(s@),
    {
        self.status = s;
        self.status_set_at = None;
    }

    pub fn push_screen(&mut self, screen: Screen)
        ensures
            final(self)@ == old(self)@.pushed(screen@),
    {
        self.screens.push(screen);
        assert(self@.screens =~= old(self)@.screens.push(screen@));
    }

    /// The screen on top.
    pub fn top(&self) -> (r: Option<&Screen>)
        ensures
            match r {
                Some(s) => self@.top() == Some(s@),
                None => self@.top() is None,
            },
    {
        if self.screens.len() == 0 {
            None
        } else {
            Some(&self.screens[self.screens.len() - 1])
        }
    }

    /// The screen at an index of the stack.
    pub fn screen_mut(&mut self, i: usize) -> (r: &mut Screen)
        requires
            i < old(self)@.screens.len(),
        ensures
            r@ == old(self)@.screens[i as int],
            final(self)@ == old(self)@.with_screen(i as int, final(r)@),
    {
        screen_at(&mut self.screens, i)
    }

    /// The node tree, wherever it is: the topmost one, Home's among them.
    pub fn tree_mut(&mut self) -> (r: Option<&mut ForumTreeState>)
        ensures
            match r {
                Some(x) => {
                    &&& topmost(old(self)@.screens, Wanted::Tree) matches Some(i)
                    &&& x@ == tree_in(old(self)@.screens[i])
                    &&& final(self)@ == old(self)@.with_screen(i, with_tree(old(self)@.screens[i], final(x)@))
                },
                None => {
                    &&& topmost(old(self)@.screens, Wanted::Tree) is None
                    &&& final(self)@ == old(self)@
                },
            },
    {
        match find(&self.screens, Wanted::Tree) {
            Some(i) => match self.screen_mut(i) {
                Screen::Home(h) => Some(&mut h.tree),
                Screen::ForumTree(t) => Some(t),
                _ => None,
            },
            None => None,
        }
    }

    /// The live thread list, whatever it shows.
    pub fn list_mut(&mut self) -> (r: Option<&mut ThreadListState>)
        ensures
            match r {
                Some(x) => {
                    &&& topmost(old(self)@.screens, Wanted::List) matches Some(i)
                    &&& x@ == list_in(old(self)@.screens[i])
                    &&& final(self)@ == old(self)@.with_screen(i, with_list(old(self)@.screens[i], final(x)@))
                },
                None => {
                    &&& topmost(old(self)@.screens, Wanted::List) is None
                    &&& final(self)@ == old(self)@
                },
            },
    {
        match find(&self.screens, Wanted::List) {
            Some(i) => match self.screen_mut(i) {
                Screen::Home(h) => Some(&mut h.list),
                Screen::ThreadList(l) => Some(l),
                _ => None,
            },
            None => None,
        }
    }

    /// The live thread list that shows `node_id`.
    pub fn list_mut_for(&mut self, node_id: u32) -> (r: Option<&mut ThreadListState>)
        ensures
            match r {
                Some(x) => {
                    &&& topmost(old(self)@.screens, Wanted::ListOf(node_id)) matches Some(i)
                    &&& x@ == list_in(old(self)@.screens[i])
                    &&& final(self)@ == old(self)@.with_screen(i, with_list(old(self)@.screens[i], final(x)@))
                },
                None => {
                    &&& topmost(old(self)@.screens, Wanted::ListOf(node_id)) is None
                    &&& final(self)@ == old(self)@
                },
            },
    {
        list_showing(&mut self.screens, node_id)
    }

    /// The view of a conversation: a screen of its own, or the Inbox's pane.
    pub fn conversation_view_mut(&mut self, id: u32) -> (r: Option<&mut ConversationViewState>)
        ensures
            match r {
                Some(x) => {
                    &&& topmost(old(self)@.screens, Wanted::Conversation(id)) matches Some(i)
                    &&& conversation_in(old(self)@.screens[i]) == Some(x@)
                    &&& final(self)@ == old(self)@.with_screen(i, with_conversation(old(self)@.screens[i], final(x)@))
                },
                None => {
                    &&& topmost(old(self)@.screens, Wanted::Conversation(id)) is None
                    &&& final(self)@ == old(self)@
                },
            },
    {
        match find(&self.screens, Wanted::Conversation(id)) {
            Some(i) => match self.screen_mut(i) {
                Screen::ConversationView(v) => Some(v),
                Screen::Inbox(inbox) => match &mut inbox.view {
                    Some(v) => Some(v),
                    None => None,
                },
                _ => None,
            },
            None => None,
        }
    }

    /// The topmost Inbox.
    pub fn inbox_mut(&mut self) -> (r: Option<&mut InboxState>)
        ensures
            match r {
                Some(x) => {
                    &&& topmost(old(self)@.screens, Wanted::Inbox) matches Some(i)
                    &&& old(self)@.screens[i] == ScreenModel::Inbox(x@)
                    &&& final(self)@ == old(self)@.with_screen(i, ScreenModel::Inbox(final(x)@))
                },
                None => {
                    &&& topmost(old(self)@.screens, Wanted::Inbox) is None
                    &&& final(self)@ == old(self)@
                },
            },
    {
        match find(&self.screens, Wanted::Inbox) {
            Some(i) => match self.screen_mut(i) {
                Screen::Inbox(x) => Some(x),
                _ => None,
            },
            None => None,
        }
    }

    /// The topmost view of a thread.
    pub fn thread_view_mut(&mut self, id: u32) -> (r: Option<&mut ThreadViewState>)
        ensures
            match r {
                Some(x) => {
                    &&& topmost(old(self)@.screens, Wanted::ThreadView(id)) matches Some(i)
                    &&& old(self)@.screens[i] == ScreenModel::ThreadView(x@)
                    &&& final(self)@ == old(self)@.with_screen(i, ScreenModel::ThreadView(final(x)@))
                },
                None => {
                    &&& topmost(old(self)@.screens, Wanted::ThreadView(id)) is None
                    &&& final(self)@ == old(self)@
                },
            },
    {
        match find(&self.screens, Wanted::ThreadView(id)) {
            Some(i) => match self.screen_mut(i) {
                Screen::ThreadView(x) => Some(x),
                _ => None,
            },
            None => None,
        }
    }

    /// The topmost new-conversation form.
    pub fn new_conversation_mut(&mut self) -> (r: Option<&mut NewConversationState>)
        ensures
            match r {
                Some(x) => {
                    &&& topmost(old(self)@.screens, Wanted::NewConversation) matches Some(i)
                    &&& old(self)@.screens[i] == ScreenModel::NewConversation(x@)
                    &&& final(self)@ == old(self)@.with_screen(i, ScreenModel::NewConversation(final(x)@))
                },
                None => {
                    &&& topmost(old(self)@.screens, Wanted::NewConversation) is None
                    &&& final(self)@ == old(self)@
                },
            },
    {
        match find(&self.screens, Wanted::NewConversation) {
            Some(i) => match self.screen_mut(i) {
                Screen::NewConversation(x) => Some(x),
                _ => None,
            },
            None => None,
        }
    }

    /// The topmost gallery.
    pub fn media_mut(&mut self) -> (r: Option<&mut MediaListState>)
        ensures
            match r {
                Some(x) => {
                    &&& topmost(old(self)@.screens, Wanted::MediaGallery) matches Some(i)
                    &&& old(self)@.screens[i] == ScreenModel::MediaGallery(x@)
                    &&& final(self)@ == old(self)@.with_screen(i, ScreenModel::MediaGallery(final(x)@))
                },
                None => {
                    &&& topmost(old(self)@.screens, Wanted::MediaGallery) is None
                    &&& final(self)@ == old(self)@
                },
            },
    {
        match find(&self.screens, Wanted::MediaGallery) {
            Some(i) => match self.screen_mut(i) {
                Screen::MediaGallery(x) => Some(x),
                _ => None,
            },
            None => None,
        }
    }

    /// The topmost resource catalog.
    pub fn resources_mut(&mut self) -> (r: Option<&mut ResourceListState>)
        ensures
            match r {
                Some(x) => {
                    &&& topmost(old(self)@.screens, Wanted::Resources) matches Some(i)
                    &&& old(self)@.screens[i] == ScreenModel::Resources(x@)
                    &&& final(self)@ == old(self)@.with_screen(i, ScreenModel::Resources(final(x)@))
                },
                None => {
                    &&& topmost(old(self)@.screens, Wanted::Resources) is None
                    &&& final(self)@ == old(self)@
                },
            },
    {
        match find(&self.screens, Wanted::Resources) {
            Some(i) => match self.screen_mut(i) {
                Screen::Resources(x) => Some(x),
                _ => None,
            },
            None => None,
        }
    }

    /// The topmost page of a resource.
    pub fn resource_view_mut(&mut self, id: u32) -> (r: Option<&mut ResourceViewState>)
        ensures
            match r {
                Some(x) => {
                    &&& topmost(old(self)@.screens, Wanted::ResourceView(id)) matches Some(i)
                    &&& old(self)@.screens[i] == ScreenModel::ResourceView(x@)
                    &&& final(self)@ == old(self)@.with_screen(i, ScreenModel::ResourceView(final(x)@))
                },
                None => {
                    &&& topmost(old(self)@.screens, Wanted::ResourceView(id)) is None
                    &&& final(self)@ == old(self)@
                },
            },
    {
        match find(&self.screens, Wanted::ResourceView(id)) {
            Some(i) => match self.screen_mut(i) {
                Screen::ResourceView(x) => Some(x),
                _ => None,
            },
            None => None,
        }
    }

    /// The topmost search.
    pub fn search_mut(&mut self) -> (r: Option<&mut SearchState>)
        ensures
            match r {
                Some(x) => {
                    &&& topmost(old(self)@.screens, Wanted::Search) matches Some(i)
                    &&& old(self)@.screens[i] == ScreenModel::Search(x@)
                    &&& final(self)@ == old(self)@.with_screen(i, ScreenModel::Search(final(x)@))
                },
                None => {
                    &&& topmost(old(self)@.screens, Wanted::Search) is None
                    &&& final(self)@ == old(self)@
                },
            },
    {
        match find(&self.screens, Wanted::Search) {
            Some(i) => match self.screen_mut(i) {
                Screen::Search(x) => Some(x),
                _ => None,
            },
            None => None,
        }
    }

    /// The search that waits for a load.
    pub fn search_load_mut(&mut self, generation: u64) -> (r: Option<&mut SearchState>)
        ensures
            match r {
                Some(x) => {
                    &&& topmost(old(self)@.screens, Wanted::SearchLoad(generation)) matches Some(i)
                    &&& old(self)@.screens[i] == ScreenModel::Search(x@)
                    &&& final(self)@ == old(self)@.with_screen(i, ScreenModel::Search(final(x)@))
                },
                None => {
                    &&& topmost(old(self)@.screens, Wanted::SearchLoad(generation)) is None
                    &&& final(self)@ == old(self)@
                },
            },
    {
        match find(&self.screens, Wanted::SearchLoad(generation)) {
            Some(i) => match self.screen_mut(i) {
                Screen::Search(x) => Some(x),
                _ => None,
            },
            None => None,
        }
    }

    /// The profile that waits for a load.
    pub fn profile_load_mut(&mut self, generation: u64) -> (r: Option<&mut ProfileState>)
        ensures
            match r {
                Some(x) => {
                    &&& topmost(old(self)@.screens, Wanted::ProfileLoad(generation)) matches Some(i)
                    &&& old(self)@.screens[i] == ScreenModel::Profile(x@)
                    &&& final(self)@ == old(self)@.with_screen(i, ScreenModel::Profile(final(x)@))
                },
                None => {
                    &&& topmost(old(self)@.screens, Wanted::ProfileLoad(generation)) is None
                    &&& final(self)@ == old(self)@
                },
            },
    {
        match find(&self.screens, Wanted::ProfileLoad(generation)) {
            Some(i) => match self.screen_mut(i) {
                Screen::Profile(x) => Some(x),
                _ => None,
            },
            None => None,
        }
    }

    /// The sign-in screen, if it is on top.
    pub fn login_top(&mut self) -> (r: Option<&mut LoginState>)
        ensures
            match r {
                Some(x) => {
                    &&& old(self)@.top() == Some(ScreenModel::Login(x@))
                    &&& final(self)@ == old(self)@.with_screen(
                        old(self)@.screens.len() - 1,
                        ScreenModel::Login(final(x)@),
                    )
                },
                None => {
                    &&& !(old(self)@.top() matches Some(s) && s is Login)
                    &&& final(self)@ == old(self)@
                },
            },
    {
        let n: usize = self.screens.len();
        if n == 0 {
            return None;
        }
        match self.screen_mut(n - 1) {
            Screen::Login(x) => Some(x),
            _ => None,
        }
    }

    /// The thread list that the top screen shows.
    pub fn list_top(&mut self) -> (r: Option<&mut ThreadListState>)
        ensures
            match r {
                Some(x) => {
                    &&& old(self)@.top() matches Some(s) && wants(Wanted::List, s) && x@ == list_in(s)
                    &&& final(self)@ == old(self)@.with_screen(
                        old(self)@.screens.len() - 1,
                        with_list(old(self)@.screens.last(), final(x)@),
                    )
                },
                None => {
                    &&& !(old(self)@.top() matches Some(s) && wants(Wanted::List, s))
                    &&& final(self)@ == old(self)@
                },
            },
    {
        let n: usize = self.screens.len();
        if n == 0 {
            return None;
        }
        match self.screen_mut(n - 1) {
            Screen::Home(h) => Some(&mut h.list),
            Screen::ThreadList(l) => Some(l),
            _ => None,
        }
    }

    /// Home, if it is on top.
    pub fn home_top(&mut self) -> (r: Option<&mut HomeState>)
        ensures
            match r {
                Some(x) => {
                    &&& old(self)@.top() == Some(ScreenModel::Home(x@))
                    &&& final(self)@ == old(self)@.with_screen(
                        old(self)@.screens.len() - 1,
                        ScreenModel::Home(final(x)@),
                    )
                },
                None => {
                    &&& !(old(self)@.top() matches Some(s) && s is Home)
                    &&& final(self)@ == old(self)@
                },
            },
    {
        let n: usize = self.screens.len();
        if n == 0 {
            return None;
        }
        match self.screen_mut(n - 1) {
            Screen::Home(x) => Some(x),
            _ => None,
        }
    }

    /// The Inbox, if it is on top.
    pub fn inbox_top(&mut self) -> (r: Option<&mut InboxState>)
        ensures
            match r {
                Some(x) => {
                    &&& old(self)@.top() == Some(ScreenModel::Inbox(x@))
                    &&& final(self)@ == old(self)@.with_screen(
                        old(self)@.screens.len() - 1,
                        ScreenModel::Inbox(final(x)@),
                    )
                },
                None => {
                    &&& !(old(self)@.top() matches Some(s) && s is Inbox)
                    &&& final(self)@ == old(self)@
                },
            },
    {
        let n: usize = self.screens.len();
        if n == 0 {
            return None;
        }
        match self.screen_mut(n - 1) {
            Screen::Inbox(x) => Some(x),
            _ => None,
        }
    }

    /// The composer, if it is on top.
    pub fn compose_top(&mut self) -> (r: Option<&mut ComposeState>)
        ensures
            match r {
                Some(x) => {
                    &&& old(self)@.top() == Some(ScreenModel::Compose(x@))
                    &&& final(self)@ == old(self)@.with_screen(
                        old(self)@.screens.len() - 1,
                        ScreenModel::Compose(final(x)@),
                    )
                },
                None => {
                    &&& !(old(self)@.top() matches Some(s) && s is Compose)
                    &&& final(self)@ == old(self)@
                },
            },
    {
        let n: usize = self.screens.len();
        if n == 0 {
            return None;
        }
        match self.screen_mut(n - 1) {
            Screen::Compose(x) => Some(x),
            _ => None,
        }
    }

    /// The thread view, if it is on top.
    pub fn thread_top(&mut self) -> (r: Option<&mut ThreadViewState>)
        ensures
            match r {
                Some(x) => {
                    &&& old(self)@.top() == Some(ScreenModel::ThreadView(x@))
                    &&& final(self)@ == old(self)@.with_screen(
                        old(self)@.screens.len() - 1,
                        ScreenModel::ThreadView(final(x)@),
                    )
                },
                None => {
                    &&& !(old(self)@.top() matches Some(s) && s is ThreadView)
                    &&& final(self)@ == old(self)@
                },
            },
    {
        let n: usize = self.screens.len();
        if n == 0 {
            return None;
        }
        match self.screen_mut(n - 1) {
            Screen::ThreadView(x) => Some(x),
            _ => None,
        }
    }

    /// The search, if it is on top.
    pub fn search_top(&mut self) -> (r: Option<&mut SearchState>)
        ensures
            match r {
                Some(x) => {
                    &&& old(self)@.top() == Some(ScreenModel::Search(x@))
                    &&& final(self)@ == old(self)@.with_screen(
                        old(self)@.screens.len() - 1,
                        ScreenModel::Search(final(x)@),
                    )
                },
                None => {
                    &&& !(old(self)@.top() matches Some(s) && s is Search)
                    &&& final(self)@ == old(self)@
                },
            },
    {
        let n: usize = self.screens.len();
        if n == 0 {
            return None;
        }
        match self.screen_mut(n - 1) {
            Screen::Search(x) => Some(x),
            _ => None,
        }
    }

    /// The new-conversation form, if it is on top.
    pub fn new_conversation_top(&mut self) -> (r: Option<&mut NewConversationState>)
        ensures
            match r {
                Some(x) => {
                    &&& old(self)@.top() == Some(ScreenModel::NewConversation(x@))
                    &&& final(self)@ == old(self)@.with_screen(
                        old(self)@.screens.len() - 1,
                        ScreenModel::NewConversation(final(x)@),
                    )
                },
                None => {
                    &&& !(old(self)@.top() matches Some(s) && s is NewConversation)
                    &&& final(self)@ == old(self)@
                },
            },
    {
        let n: usize = self.screens.len();
        if n == 0 {
            return None;
        }
        match self.screen_mut(n - 1) {
            Screen::NewConversation(x) => Some(x),
            _ => None,
        }
    }

    /// The list of drafts, if it is on top.
    pub fn drafts_top(&mut self) -> (r: Option<&mut DraftsState>)
        ensures
            match r {
                Some(x) => {
                    &&& old(self)@.top() == Some(ScreenModel::Drafts(x@))
                    &&& final(self)@ == old(self)@.with_screen(
                        old(self)@.screens.len() - 1,
                        ScreenModel::Drafts(final(x)@),
                    )
                },
                None => {
                    &&& !(old(self)@.top() matches Some(s) && s is Drafts)
                    &&& final(self)@ == old(self)@
                },
            },
    {
        let n: usize = self.screens.len();
        if n == 0 {
            return None;
        }
        match self.screen_mut(n - 1) {
            Screen::Drafts(x) => Some(x),
            _ => None,
        }
    }

    pub fn login_on_top(&self) -> (r: bool)
        ensures
            r == (self@.top() matches Some(s) && s is Login),
    {
        self.screens.len() > 0 && matches!(self.screens[self.screens.len() - 1], Screen::Login(_))
    }
}

} // verus!
