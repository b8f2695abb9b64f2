//! Opening places: what each puts on the stack, and what it then loads.

use vstd::prelude::*;

use crate::app::{
    find, list_in, topmost, tree_in, wants, with_list, App, AppModel, Minted, Wanted,
};
use crate::effects::{Effect, EffectModel};
use crate::models::{at_least_one, page_of, Conversation, Thread};
use crate::nodes::{find_node, first_node, NodeWanted};
use crate::screens::{
    AlertsModel, AlertsState, ComposeModel, ComposeState, ComposeTarget, ConversationViewModel,
    ConversationViewState, ConversationsModel, ConversationsState, ForumTreeModel, ForumTreeState,
    HomeModel, InboxModel, InboxPane, InboxState, InboxTab, Pane, ProfileModel, ProfileState,
    Screen, ScreenModel, SearchModel, SearchState, ThreadListModel, ThreadListState,
    ThreadViewModel, ThreadViewState, FILL_PAGE_BUDGET,
};
use crate::session::{after, bump};

verus! {

/// A conversation's view that waits for its first page.
pub open spec fn opening_conversation(conv: Conversation) -> ConversationViewModel {
    ConversationViewModel { page: 1, loading: true, ..ConversationViewModel::initial(conv) }
}

/// The Inbox as it opens, both lists on their way.
pub open spec fn opening_inbox(tab: InboxTab) -> InboxModel {
    InboxModel {
        tab,
        convos: ConversationsModel { loading: true, ..ConversationsModel::initial() },
        alerts: AlertsModel { loading: true, ..AlertsModel::initial() },
        ..InboxModel::initial()
    }
}

/// The number a reply gets: the thread holds one post more than it has replies.
pub open spec fn reply_number(reply_count: i64) -> Option<u32> {
    if 0 <= reply_count + 2 <= u32::MAX {
        Some((reply_count + 2) as u32)
    } else {
        None
    }
}

impl AppModel {
    /// The topmost forum tree.
    pub open spec fn tree(self) -> Option<ForumTreeModel> {
        match topmost(self.screens, Wanted::Tree) {
            Some(i) => Some(tree_in(self.screens[i])),
            None => None,
        }
    }

    /// A fresh load of a forum page. Every reply still out for the list is now
    /// stale.
    pub open spec fn forum_loading(self, node_id: u32, page: u32) -> AppModel {
        let seq = self.minted.next_list_seq;
        let a = AppModel {
            minted: Minted { next_list_seq: after(seq), ..self.minted },
            ..self
        };
        let b = match topmost(a.screens, Wanted::ListOf(node_id)) {
            Some(i) => a.with_screen(
                i,
                with_list(
                    a.screens[i],
                    ThreadListModel {
                        load_seq: seq,
                        pages_loaded: 1,
                        fill_budget: FILL_PAGE_BUDGET,
                        ..list_in(a.screens[i])
                    },
                ),
            ),
            None => a,
        };
        b.asking(EffectModel::LoadForumPage { node_id, page, append: false, seq })
    }

    /// The list wants its next page: none is on its way, there is one, and the
    /// selection is within a screenful of the last row. The budget of the
    /// automatic fill has no say: here the reader is the one who asks.
    pub open spec fn wants_more(list: ThreadListModel) -> bool {
        &&& !list.loading
        &&& list.error is None
        &&& list.visible > 0
        &&& page_of(list.page) + page_of(list.pages_loaded) <= list.last_page
        &&& 0 < list.threads.len() <= list.sel + list.visible
    }

    /// The next page of the list on top, where it wants one.
    pub open spec fn autoloaded(self) -> AppModel {
        match self.top() {
            Some(s) if wants(Wanted::List, s) && AppModel::wants_more(list_in(s)) => {
                let list = list_in(s);
                self.with_screen(
                    self.screens.len() - 1,
                    with_list(s, ThreadListModel { loading: true, ..list }),
                ).asking(
                    EffectModel::LoadForumPage {
                        node_id: list.node_id,
                        page: (page_of(list.page) + page_of(list.pages_loaded)) as u32,
                        append: true,
                        seq: list.load_seq,
                    },
                )
            },
            _ => self,
        }
    }

    /// Home's list is one that nobody has loaded yet.
    pub open spec fn home_list_unloaded(self) -> bool {
        &&& self.screens.len() > 0
        &&& self.screens[0] matches ScreenModel::Home(h) && h.list.threads.len() == 0
            && !h.list.loading && h.list.node_id == 0
    }

    /// The latest posts, into a list nobody has loaded yet.
    pub open spec fn home_primed(self) -> AppModel {
        if self.home_list_unloaded() {
            let h = self.screens[0]->Home_0;
            let list = ThreadListModel {
                title: "Latest posts"@,
                page: 1,
                loading: true,
                ..h.list
            };
            self.with_screen(0, ScreenModel::Home(HomeModel { list, ..h })).forum_loading(0, 1)
        } else {
            self
        }
    }

    /// A forum: into Home's pane where both panes are up, else a screen of its own.
    pub open spec fn list_opened(self, node_id: u32, title: Seq<char>) -> AppModel {
        match self.top() {
            Some(ScreenModel::Home(h)) if h.dual => {
                let list = ThreadListModel {
                    node_id,
                    title,
                    page: 1,
                    last_page: 1,
                    total: 0,
                    threads: seq![],
                    sticky_count: 0,
                    sel: 0,
                    error: None,
                    loading: true,
                    ..h.list
                };
                self.with_screen(
                    self.screens.len() - 1,
                    ScreenModel::Home(HomeModel { list, focus: Pane::List, ..h }),
                ).forum_loading(node_id, 1)
            },
            _ => self.pushed(
                ScreenModel::ThreadList(
                    ThreadListModel {
                        node_id,
                        title,
                        page: 1,
                        loading: true,
                        ..ThreadListModel::initial()
                    },
                ),
            ).forum_loading(node_id, 1),
        }
    }

    /// The title of a forum, as far as the loaded tree knows it.
    pub open spec fn forum_title(self, node_id: u32) -> Seq<char> {
        match self.tree() {
            Some(t) => match first_node(t.nodes, NodeWanted::Id(node_id)) {
                Some(i) => t.nodes[i].title@,
                None => seq![],
            },
            None => seq![],
        }
    }

    /// A thread; nothing happens where it is already on top and on its way.
    pub open spec fn thread_opened(self, thread: Thread) -> AppModel {
        let twin = self.top() matches Some(ScreenModel::ThreadView(v)) && v.thread.thread_id
            == thread.thread_id && v.loading;
        if twin {
            self
        } else {
            self.pushed(
                ScreenModel::ThreadView(
                    ThreadViewModel {
                        forum_title: self.forum_title(thread.node_id),
                        page: 1,
                        loading: true,
                        ..ThreadViewModel::initial(thread)
                    },
                ),
            ).asking(EffectModel::LoadThread { id: thread.thread_id, page: 1 })
        }
    }

    pub open spec fn profile_opened(self, user_id: u32, name: Seq<char>) -> AppModel {
        let generation = after(self.minted.profile_generation);
        AppModel {
            minted: Minted { profile_generation: generation, ..self.minted },
            ..self
        }.pushed(
            ScreenModel::Profile(
                ProfileModel { title: name, loading: true, generation, ..ProfileModel::initial() },
            ),
        ).asking(EffectModel::LoadProfile { generation, user_id, name })
    }

    /// The Inbox on a tab: the one on top, else a new one.
    pub open spec fn inbox_opened(self, tab: InboxTab) -> AppModel {
        match self.top() {
            Some(ScreenModel::Inbox(inbox)) => self.with_screen(
                self.screens.len() - 1,
                ScreenModel::Inbox(InboxModel { tab, ..inbox }),
            ),
            _ => self.pushed(ScreenModel::Inbox(opening_inbox(tab))).asking(
                EffectModel::LoadConversations { page: 1 },
            ).asking(EffectModel::LoadAlerts),
        }
    }

    /// A conversation: into the Inbox's pane where it is on top and has one,
    /// else a screen of its own. One that is already on its way there stays.
    pub open spec fn conversation_opened(self, conv: Conversation) -> AppModel {
        let cid = conv.conversation_id;
        match self.top() {
            Some(ScreenModel::Inbox(inbox)) if inbox.dual => {
                if inbox.view matches Some(v) && v.conversation.conversation_id == cid && v.loading {
                    self
                } else {
                    self.with_screen(
                        self.screens.len() - 1,
                        ScreenModel::Inbox(
                            InboxModel {
                                view: Some(opening_conversation(conv)),
                                focus: InboxPane::View,
                                ..inbox
                            },
                        ),
                    ).asking(EffectModel::LoadConversation { id: cid, page: 1, mark_read: true })
                }
            },
            Some(ScreenModel::ConversationView(v)) if v.conversation.conversation_id == cid
                && v.loading => self,
            _ => self.pushed(ScreenModel::ConversationView(opening_conversation(conv))).asking(
                EffectModel::LoadConversation { id: cid, page: 1, mark_read: true },
            ),
        }
    }

    /// The name of whoever is signed in.
    pub open spec fn my_name(self) -> Seq<char> {
        match self.me {
            Some(user) => user.username@,
            None => seq![],
        }
    }

    pub open spec fn replying(self, thread: Thread, quote: Seq<char>) -> AppModel {
        self.pushed(
            ScreenModel::Compose(
                ComposeModel {
                    target: Some(
                        ComposeTarget::ThreadReply {
                            thread_id: thread.thread_id,
                            thread_title: thread.title,
                        },
                    ),
                    author: self.my_name(),
                    reply_number: reply_number(thread.reply_count),
                    body: quote,
                    body_cursor: quote.len() as usize,
                    ..ComposeModel::initial()
                },
            ),
        )
    }

    pub open spec fn new_thread_begun(self, node_id: u32) -> AppModel {
        self.pushed(
            ScreenModel::Compose(
                ComposeModel {
                    target: Some(ComposeTarget::NewThread { node_id }),
                    title_field: true,
                    author: self.my_name(),
                    ..ComposeModel::initial()
                },
            ),
        )
    }

    pub open spec fn conversation_reply_begun(self, conv: Conversation) -> AppModel {
        self.pushed(
            ScreenModel::Compose(
                ComposeModel {
                    target: Some(
                        ComposeTarget::ConversationReply {
                            conversation_id: conv.conversation_id,
                            conversation_title: conv.title,
                            participants: conv.participants,
                        },
                    ),
                    author: self.my_name(),
                    ..ComposeModel::initial()
                },
            ),
        )
    }

    /// The topmost search now waits for a load of its own number.
    pub open spec fn search_begun(self) -> AppModel {
        let generation = after(self.minted.search_generation);
        let a = AppModel {
            minted: Minted { search_generation: generation, ..self.minted },
            ..self
        };
        match topmost(a.screens, Wanted::Search) {
            Some(i) => a.with_screen(
                i,
                ScreenModel::Search(SearchModel { generation, ..a.screens[i]->Search_0 }),
            ),
            None => a,
        }
    }
}

/// An empty search, its query field ready for typing.
pub open spec fn opening_search() -> SearchModel {
    SearchModel { input_mode: true, ..SearchModel::initial() }
}

pub fn search_state() -> (r: Screen)
    ensures
        r@ == ScreenModel::Search(opening_search()),
{
    let mut s = SearchState::default();
    s.input_mode = true;
    Screen::Search(s)
}

pub(crate) fn opening_conversation_state(conv: Conversation) -> (r: ConversationViewState)
    ensures
        r@ == opening_conversation(conv),
{
    let mut v = ConversationViewState::default();
    v.conversation = conv;
    v.page = 1;
    v.loading = true;
    v
}

impl App {
    /// The node tree, wherever it is.
    pub fn tree(&self) -> (r: Option<&ForumTreeState>)
        ensures
            match r {
                Some(t) => self@.tree() == Some(t@),
                None => self@.tree() is None,
            },
    {
        match find(&self.screens, Wanted::Tree) {
            Some(i) => match &self.screens[i] {
                Screen::Home(h) => Some(&h.tree),
                Screen::ForumTree(t) => Some(t),
                _ => None,
            },
            None => None,
        }
    }

    /// Load a forum page afresh.
    pub fn load_forum(&mut self, node_id: u32, page: u32)
        ensures
            final(self)@ == old(self)@.forum_loading(node_id, page),
    {
        let seq: u64 = self.minted.next_list_seq;
        self.minted.next_list_seq = bump(seq);
        if let Some(list) = self.list_mut_for(node_id) {
            list.load_seq = seq;
            list.pages_loaded = 1;
            list.fill_budget = FILL_PAGE_BUDGET;
        }
        self.load_forum_page(node_id, page, false, seq);
    }

    /// Fetch a page for the list that waits for `seq`; `append` marks a page of
    /// a fill.
    pub fn load_forum_page(&mut self, node_id: u32, page: u32, append: bool, seq: u64)
        ensures
            final(self)@ == old(self)@.asking(
                EffectModel::LoadForumPage { node_id, page, append, seq },
            ),
    {
        self.ask(Effect::LoadForumPage { node_id, page, append, seq });
    }

    /// Keep the list on top ahead of the reader: fetch its next page once the
    /// selection is within a screenful of the last row. Spends none of the
    /// budget of the automatic fill, and needs none.
    pub fn autoload_more(&mut self)
        ensures
            final(self)@ == old(self)@.autoloaded(),
    {
        let asked = match self.list_top() {
            Some(list) => {
                let next: u64 = at_least_one(list.page) as u64 + at_least_one(list.pages_loaded) as u64;
                let rows: usize = list.threads.len();
                let ahead = list.visible < rows && list.sel < rows - list.visible;
                if list.loading || list.error.is_some() || list.visible == 0 || next
                    > list.last_page as u64 || rows == 0 || ahead {
                    None
                } else {
                    list.loading = true;
                    Some((list.node_id, next as u32, list.load_seq))
                }
            },
            None => None,
        };
        if let Some((node_id, page, seq)) = asked {
            self.load_forum_page(node_id, page, true, seq);
        }
    }

    /// Fill Home's list with the latest posts, if nobody has loaded it yet.
    pub fn prime_home_list(&mut self)
        ensures
            final(self)@ == old(self)@.home_primed(),
    {
        let should = self.screens.len() > 0 && match &self.screens[0] {
            Screen::Home(h) => h.list.threads.len() == 0 && !h.list.loading && h.list.node_id == 0,
            _ => false,
        };
        if !should {
            return;
        }
        if let Screen::Home(h) = self.screen_mut(0) {
            h.list.title = "Latest posts".to_owned();
            h.list.page = 1;
            h.list.loading = true;
        }
        self.load_forum(0, 1);
    }

    /// Open a forum.
    pub fn open_list(&mut self, node_id: u32, title: String)
        ensures
            final(self)@ == old(self)@.list_opened(node_id, title@),
    {
        let in_pane = match self.top() {
            Some(Screen::Home(h)) => h.dual,
            _ => false,
        };
        if in_pane {
            if let Some(h) = self.home_top() {
                h.list.node_id = node_id;
                h.list.title = title;
                h.list.page = 1;
                h.list.last_page = 1;
                h.list.total = 0;
                h.list.threads = Vec::new();
                h.list.sticky_count = 0;
                h.list.sel = 0;
                h.list.error = None;
                h.list.loading = true;
                h.focus = Pane::List;
            }
            self.load_forum(node_id, 1);
            return;
        }
        let mut list = ThreadListState::default();
        list.node_id = node_id;
        list.title = title;
        list.page = 1;
        list.loading = true;
        self.push_screen(Screen::ThreadList(list));
        self.load_forum(node_id, 1);
    }

    /// Open a thread.
    pub fn open_thread(&mut self, thread: &Thread)
        ensures
            final(self)@ == old(self)@.thread_opened(*thread),
    {
        let twin = match self.top() {
            Some(Screen::ThreadView(v)) => v.thread.thread_id == thread.thread_id && v.loading,
            _ => false,
        };
        if twin {
            return;
        }
        let forum_title = match self.tree() {
            Some(t) => match find_node(&t.nodes, NodeWanted::Id(thread.node_id)) {
                Some(i) => t.nodes[i].title.clone(),
                None => String::new(),
            },
            None => String::new(),
        };
        let mut v = ThreadViewState::default();
        v.thread = thread.clone();
        v.forum_title = forum_title;
        v.page = 1;
        v.loading = true;
        self.push_screen(Screen::ThreadView(v));
        self.load_thread(thread.thread_id, 1);
    }

    pub fn load_thread(&mut self, id: u32, page: u32)
        ensures
            final(self)@ == old(self)@.asking(EffectModel::LoadThread { id, page }),
    {
        self.ask(Effect::LoadThread { id, page });
    }

    /// Open a profile. Where only the name is known, `user_id` is 0.
    pub fn open_profile(&mut self, user_id: u32, fallback_name: &str)
        ensures
            final(self)@ == old(self)@.profile_opened(user_id, fallback_name@),
    {
        let generation: u64 = bump(self.minted.profile_generation);
        self.minted.profile_generation = generation;
        let mut p = ProfileState::default();
        p.title = fallback_name.to_owned();
        p.loading = true;
        p.generation = generation;
        self.push_screen(Screen::Profile(p));
        self.ask(Effect::LoadProfile { generation, user_id, name: fallback_name.to_owned() });
    }

    /// Open the Inbox on a tab.
    pub fn open_inbox(&mut self, tab: InboxTab)
        ensures
            final(self)@ == old(self)@.inbox_opened(tab),
    {
        if let Some(inbox) = self.inbox_top() {
            inbox.tab = tab;
            return;
        }
        let mut convos = ConversationsState::default();
        convos.loading = true;
        let mut alerts = AlertsState::default();
        alerts.loading = true;
        let mut inbox = InboxState::default();
        inbox.tab = tab;
        inbox.convos = convos;
        inbox.alerts = alerts;
        self.push_screen(Screen::Inbox(inbox));
        self.load_conversations(1);
        self.load_alerts();
    }

    pub fn load_conversations(&mut self, page: u32)
        ensures
            final(self)@ == old(self)@.asking(EffectModel::LoadConversations { page }),
    {
        self.ask(Effect::LoadConversations { page });
    }

    pub fn load_alerts(&mut self)
        ensures
            final(self)@ == old(self)@.asking(EffectModel::LoadAlerts),
    {
        self.ask(Effect::LoadAlerts);
    }

    /// Load a page of a conversation. `mark_read` only where the reader asked
    /// for it.
    pub fn load_conversation(&mut self, id: u32, page: u32, mark_read: bool)
        ensures
            final(self)@ == old(self)@.asking(
                EffectModel::LoadConversation { id, page, mark_read },
            ),
    {
        self.ask(Effect::LoadConversation { id, page, mark_read });
    }

    /// Open a conversation.
    pub fn open_conversation(&mut self, conv: Conversation)
        ensures
            final(self)@ == old(self)@.conversation_opened(conv),
    {
        let cid: u32 = conv.conversation_id;
        let in_pane = match self.top() {
            Some(Screen::Inbox(inbox)) => inbox.dual,
            _ => false,
        };
        let already_loading = match self.top() {
            Some(Screen::Inbox(inbox)) if inbox.dual => match &inbox.view {
                Some(v) => v.conversation.conversation_id == cid && v.loading,
                None => false,
            },
            Some(Screen::ConversationView(v)) => v.conversation.conversation_id == cid && v.loading,
            _ => false,
        };
        if already_loading {
            return;
        }
        if in_pane {
            if let Some(inbox) = self.inbox_top() {
                inbox.view = Some(opening_conversation_state(conv));
                inbox.focus = InboxPane::View;
            }
            self.load_conversation(cid, 1, true);
            return;
        }
        self.push_screen(Screen::ConversationView(opening_conversation_state(conv)));
        self.load_conversation(cid, 1, true);
    }

    /// The signed-in member's name, for the composer.
    pub fn me_name(&self) -> (r: String)
        ensures
            r@ == self@.my_name(),
    {
        match &self.me {
            Some(user) => user.username.clone(),
            None => String::new(),
        }
    }

    /// A reply to a thread, starting from a quote.
    pub fn reply_to_thread_with(&mut self, thread: &Thread, quote: String)
        ensures
            final(self)@ == old(self)@.replying(*thread, quote@),
    {
        let number: Option<u32> = if thread.reply_count >= -2 && thread.reply_count
            <= u32::MAX as i64 - 2 {
            Some((thread.reply_count + 2) as u32)
        } else {
            None
        };
        let mut c = ComposeState::default();
        c.target = Some(
            ComposeTarget::ThreadReply {
                thread_id: thread.thread_id,
                thread_title: thread.title.clone(),
            },
        );
        c.author = self.me_name();
        c.reply_number = number;
        c.body_cursor = quote.as_str().unicode_len();
        c.body = quote;
        self.push_screen(Screen::Compose(c));
    }

    pub fn reply_to_thread(&mut self, thread: &Thread)
        ensures
            final(self)@ == old(self)@.replying(*thread, seq![]),
    {
        self.reply_to_thread_with(thread, String::new());
    }

    pub fn new_thread(&mut self, node_id: u32)
        ensures
            final(self)@ == old(self)@.new_thread_begun(node_id),
    {
        let mut c = ComposeState::default();
        c.target = Some(ComposeTarget::NewThread { node_id });
        c.title_field = true;
        c.author = self.me_name();
        self.push_screen(Screen::Compose(c));
    }

    pub fn reply_to_conversation(&mut self, conv: &Conversation)
        ensures
            final(self)@ == old(self)@.conversation_reply_begun(*conv),
    {
        let mut c = ComposeState::default();
        c.target = Some(
            ComposeTarget::ConversationReply {
                conversation_id: conv.conversation_id,
                conversation_title: conv.title.clone(),
                participants: conv.participants.clone(),
            },
        );
        c.author = self.me_name();
        self.push_screen(Screen::Compose(c));
    }

    /// Mint the number of the next search load.
    pub fn begin_search_load(&mut self) -> (generation: u64)
        ensures
            final(self)@ == old(self)@.search_begun(),
            generation == after(old(self).minted.search_generation),
    {
        let generation: u64 = bump(self.minted.search_generation);
        self.minted.search_generation = generation;
        if let Some(search) = self.search_mut() {
            search.generation = generation;
        }
        generation
    }
}

} // verus!
