//! Loaded pages: how each is taken into the screen that waits for it.

use vstd::prelude::*;

use crate::errors::{TaskError, TaskErrorView};
use crate::models::{
    at_least_one, badge, clamp_selection, count_unread_conversations, page_of, unread_conversations,
    within, AlertsReply, Conversation, ConversationReply, ConversationsReply, ForumReply,
    MediaListReply, Node, ResourceListReply, ResourceReply, SearchResultsReply, ThreadReply, User,
};
use crate::msg::outcome;
use crate::nodes::{find_node, first_node, NodeWanted};
use crate::openers::{opening_conversation, opening_conversation_state};
use crate::screens::{
    AlertsModel, AlertsState, ConversationViewModel, ConversationViewState, ConversationsModel,
    ConversationsState, ForumTreeModel, ForumTreeState, InboxModel, InboxState, InboxTab,
    MediaListModel, MediaListState, ProfileModel, ProfileState, ResourceListModel,
    ResourceListState, ResourceViewModel, ResourceViewState, SearchModel, SearchState,
    ThreadListModel, ThreadListState, ThreadViewModel, ThreadViewState,
};
use crate::search::{first_where, lemma_searched};

verus! {

/// Where a like or an edit wants the reader kept: thread, page, selected post
/// and scroll.
pub type KeptPosition = Option<(u32, u32, usize, usize)>;

/// The count of pages that follows `n`.
pub open spec fn one_more(n: u32) -> u32 {
    if n == u32::MAX {
        0
    } else {
        (n + 1) as u32
    }
}

fn count_one_more(n: u32) -> (r: u32)
    ensures
        r == one_more(n),
{
    if n == u32::MAX {
        0
    } else {
        n + 1
    }
}

impl ForumTreeModel {
    /// The tree loaded, or its failure shown. A cursor that nobody has moved
    /// starts on the first forum.
    pub open spec fn loaded(self, result: Result<Vec<Node>, TaskErrorView>) -> ForumTreeModel {
        match result {
            Ok(nodes) => {
                let sel = if self.sel == 0 {
                    match first_node(nodes@, NodeWanted::Forum) {
                        Some(i) => i as usize,
                        None => self.sel,
                    }
                } else {
                    self.sel
                };
                ForumTreeModel {
                    nodes: nodes@,
                    sel: within(sel, nodes@.len()),
                    loading: false,
                    error: None,
                }
            },
            Err(e) => ForumTreeModel { loading: false, error: Some(e.message), ..self },
        }
    }
}

impl ThreadListModel {
    /// The page after the last one the list holds.
    pub open spec fn next_page(self) -> int {
        self.page + self.pages_loaded
    }

    /// A page taken in: appended where it is the next one of a fill, else in
    /// place of what was there, sticky threads first.
    pub open spec fn page_taken(self, page: u32, append: bool, reply: ForumReply) -> ThreadListModel {
        let fill = append && page == self.next_page();
        let threads = if fill {
            self.threads + reply.threads@
        } else {
            reply.sticky@ + reply.threads@
        };
        ThreadListModel {
            title: if reply.forum.title@.len() > 0 {
                reply.forum.title@
            } else {
                self.title
            },
            threads,
            sticky_count: if fill {
                self.sticky_count
            } else {
                reply.sticky@.len() as usize
            },
            page: if fill {
                self.page
            } else {
                page
            },
            pages_loaded: if fill {
                one_more(self.pages_loaded)
            } else {
                1
            },
            last_page: page_of(reply.pagination.last_page),
            total: reply.pagination.total,
            per_page: if reply.pagination.per_page > 0 {
                reply.pagination.per_page
            } else {
                self.per_page
            },
            sel: within(self.sel, threads.len()),
            loading: false,
            error: None,
            ..self
        }
    }

    /// The pane has room, pages remain, and the budget allows one more.
    pub open spec fn wants_fill(self) -> bool {
        &&& self.visible > 0
        &&& self.threads.len() < self.visible
        &&& self.next_page() <= self.last_page
        &&& self.fill_budget > 0
    }

    pub open spec fn filling(self) -> ThreadListModel {
        ThreadListModel { fill_budget: (self.fill_budget - 1) as u32, loading: true, ..self }
    }

    /// The load failed. Rows that a failed fill would have joined stay.
    pub open spec fn load_failed(self, append: bool, message: Seq<char>) -> ThreadListModel {
        ThreadListModel {
            loading: false,
            error: if append {
                self.error
            } else {
                Some(message)
            },
            ..self
        }
    }
}

impl ThreadViewModel {
    /// A page of posts taken in. The reader starts at its top, unless the page
    /// was fetched to be refreshed in place.
    pub open spec fn page_taken(self, page: u32, reply: ThreadReply, keep: KeptPosition) -> ThreadViewModel {
        ThreadViewModel {
            thread: if reply.thread.thread_id > 0 || reply.thread.title@.len() > 0 {
                reply.thread
            } else {
                self.thread
            },
            posts: reply.posts@,
            page,
            last_page: page_of(reply.pagination.last_page),
            total: reply.pagination.total,
            loading: false,
            error: None,
            sel_post: match keep {
                Some((_, _, sel_post, _)) => within(sel_post, reply.posts@.len()),
                None => 0,
            },
            scroll: match keep {
                Some((_, _, _, scroll)) => scroll,
                None => 0,
            },
            built: false,
            ..self
        }
    }

    /// The load failed; where the site named its last page, that one is on its
    /// way instead.
    pub open spec fn load_failed(self, e: TaskErrorView) -> ThreadViewModel {
        match e.max_page {
            Some(max) => ThreadViewModel { last_page: max, loading: true, ..self },
            None => ThreadViewModel { loading: false, error: Some(e.message), ..self },
        }
    }
}

impl ConversationViewModel {
    pub open spec fn page_taken(self, page: u32, reply: ConversationReply) -> ConversationViewModel {
        ConversationViewModel {
            conversation: if reply.conversation.conversation_id > 0 {
                reply.conversation
            } else {
                self.conversation
            },
            messages: reply.messages@,
            page,
            last_page: page_of(reply.pagination.last_page),
            loading: false,
            sel_msg: 0,
            scroll: 0,
            built: false,
            error: None,
        }
    }

    pub open spec fn load_failed(self, e: TaskErrorView) -> ConversationViewModel {
        match e.max_page {
            Some(max) => ConversationViewModel { last_page: max, loading: true, ..self },
            None => ConversationViewModel { loading: false, error: Some(e.message), ..self },
        }
    }
}

pub open spec fn of_id(id: u32) -> spec_fn(Conversation) -> bool {
    |c: Conversation| c.conversation_id == id
}

/// The first conversation with an id.
pub open spec fn first_conversation(s: Seq<Conversation>, id: u32) -> Option<int> {
    first_where(s, of_id(id))
}

/// The list with that conversation's row read.
pub open spec fn row_read(s: Seq<Conversation>, id: u32) -> Seq<Conversation> {
    match first_conversation(s, id) {
        Some(i) => s.update(
            i,
            Conversation { is_unread: false, conversation_unread: false, ..s[i] },
        ),
        None => s,
    }
}

impl ConversationsModel {
    pub open spec fn loaded(self, page: u32, result: Result<ConversationsReply, TaskErrorView>) -> ConversationsModel {
        match result {
            Ok(reply) => ConversationsModel {
                conversations: reply.conversations@,
                page,
                last_page: page_of(reply.pagination.last_page),
                total: reply.pagination.total,
                sel: within(self.sel, reply.conversations@.len()),
                loading: false,
                error: None,
            },
            Err(e) => ConversationsModel { loading: false, error: Some(e.message), ..self },
        }
    }
}

impl InboxModel {
    /// The view pane is free for the newest conversation.
    pub open spec fn wants_priming(self) -> bool {
        self.dual && self.view is None && self.tab == InboxTab::Conversations
            && self.convos.conversations.len() > 0
    }

    pub open spec fn primed(self) -> InboxModel {
        InboxModel { view: Some(opening_conversation(self.convos.conversations[0])), ..self }
    }

    pub open spec fn with_row_read(self, id: u32) -> InboxModel {
        InboxModel {
            convos: ConversationsModel {
                conversations: row_read(self.convos.conversations, id),
                ..self.convos
            },
            ..self
        }
    }
}

impl AlertsModel {
    pub open spec fn loaded(self, result: Result<AlertsReply, TaskErrorView>) -> AlertsModel {
        match result {
            Ok(reply) => AlertsModel {
                alerts: reply.alerts@,
                sel: within(self.sel, reply.alerts@.len()),
                loading: false,
                error: None,
            },
            Err(e) => AlertsModel { loading: false, error: Some(e.message), ..self },
        }
    }
}

impl MediaListModel {
    pub open spec fn loaded(self, page: u32, result: Result<MediaListReply, TaskErrorView>) -> MediaListModel {
        match result {
            Ok(reply) => MediaListModel {
                items: reply.media@,
                page,
                last_page: page_of(reply.pagination.last_page),
                total: reply.pagination.total,
                sel: 0,
                loading: false,
                error: None,
                ..self
            },
            Err(e) => MediaListModel { loading: false, error: Some(e.message), ..self },
        }
    }
}

impl ResourceListModel {
    pub open spec fn loaded(self, page: u32, result: Result<ResourceListReply, TaskErrorView>) -> ResourceListModel {
        match result {
            Ok(reply) => ResourceListModel {
                items: reply.resources@,
                page,
                last_page: page_of(reply.pagination.last_page),
                total: reply.pagination.total,
                sel: 0,
                loading: false,
                error: None,
            },
            Err(e) => ResourceListModel { loading: false, error: Some(e.message), ..self },
        }
    }
}

impl ResourceViewModel {
    pub open spec fn loaded(self, result: Result<ResourceReply, TaskErrorView>) -> ResourceViewModel {
        match result {
            Ok(reply) => ResourceViewModel {
                resource: Some(reply.resource),
                width: 0,
                loading: false,
                error: None,
                ..self
            },
            Err(e) => ResourceViewModel { loading: false, error: Some(e.message), ..self },
        }
    }
}

impl SearchModel {
    pub open spec fn loaded(self, page: u32, result: Result<SearchResultsReply, TaskErrorView>) -> SearchModel {
        match result {
            Ok(reply) => SearchModel {
                results: reply.results@,
                page,
                last_page: page_of(reply.pagination.last_page),
                total: reply.pagination.total,
                sel: 0,
                loading: false,
                error: None,
                ..self
            },
            Err(e) => SearchModel { loading: false, error: Some(e.message), ..self },
        }
    }
}

impl ProfileModel {
    pub open spec fn loaded(self, result: Result<User, TaskErrorView>) -> ProfileModel {
        match result {
            Ok(user) => ProfileModel { user: Some(user), loading: false, error: None, ..self },
            Err(e) => ProfileModel { loading: false, error: Some(e.message), ..self },
        }
    }
}

impl ForumTreeState {
    pub(crate) fn take_reply(&mut self, result: Result<Vec<Node>, TaskError>)
        ensures
            final(self)@ == old(self)@.loaded(outcome(result)),
    {
        match result {
            Ok(nodes) => {
                self.error = None;
                if self.sel == 0 {
                    if let Some(i) = find_node(&nodes, NodeWanted::Forum) {
                        self.sel = i;
                    }
                }
                self.nodes = nodes;
                self.loading = false;
                self.sel = clamp_selection(self.sel, self.nodes.len());
            },
            Err(e) => {
                self.loading = false;
                self.error = Some(e.message);
            },
        }
    }
}

impl ThreadListState {
    pub(crate) fn take_page(&mut self, page: u32, append: bool, reply: ForumReply)
        ensures
            final(self)@ == old(self)@.page_taken(page, append, reply),
    {
        let mut threads = reply.threads;
        let mut sticky = reply.sticky;
        self.error = None;
        if reply.forum.title.as_str().unicode_len() > 0 {
            self.title = reply.forum.title;
        }
        if append && page as u64 == self.page as u64 + self.pages_loaded as u64 {
            self.threads.append(&mut threads);
            self.pages_loaded = count_one_more(self.pages_loaded);
        } else {
            self.sticky_count = sticky.len();
            sticky.append(&mut threads);
            self.threads = sticky;
            self.page = page;
            self.pages_loaded = 1;
        }
        self.last_page = at_least_one(reply.pagination.last_page);
        self.total = reply.pagination.total;
        if reply.pagination.per_page > 0 {
            self.per_page = reply.pagination.per_page;
        }
        self.loading = false;
        self.sel = clamp_selection(self.sel, self.threads.len());
    }

    /// The next page to fetch without being asked, if any.
    pub(crate) fn begin_fill(&mut self) -> (r: Option<u32>)
        ensures
            match r {
                Some(next) => {
                    &&& old(self)@.wants_fill()
                    &&& next == old(self)@.next_page()
                    &&& final(self)@ == old(self)@.filling()
                },
                None => !old(self)@.wants_fill() && final(self)@ == old(self)@,
            },
    {
        let next: u64 = self.page as u64 + self.pages_loaded as u64;
        if self.visible > 0 && self.threads.len() < self.visible && next <= self.last_page as u64
            && self.fill_budget > 0 {
            self.fill_budget -= 1;
            self.loading = true;
            Some(next as u32)
        } else {
            None
        }
    }
}

impl ThreadViewState {
    pub(crate) fn take_page(&mut self, page: u32, reply: ThreadReply, keep: KeptPosition)
        ensures
            final(self)@ == old(self)@.page_taken(page, reply, keep),
    {
        self.error = None;
        if reply.thread.thread_id > 0 || reply.thread.title.as_str().unicode_len() > 0 {
            self.thread = reply.thread;
        }
        self.posts = reply.posts;
        self.page = page;
        self.last_page = at_least_one(reply.pagination.last_page);
        self.total = reply.pagination.total;
        self.loading = false;
        self.scroll = 0;
        self.sel_post = 0;
        if let Some((_, _, sel_post, scroll)) = keep {
            self.sel_post = clamp_selection(sel_post, self.posts.len());
            self.scroll = scroll;
        }
        self.built = false;
    }

    pub(crate) fn fail(&mut self, e: TaskError)
        ensures
            final(self)@ == old(self)@.load_failed(e@),
    {
        match e.max_page {
            Some(max) => {
                self.last_page = max;
                self.loading = true;
            },
            None => {
                self.loading = false;
                self.error = Some(e.message);
            },
        }
    }
}

impl ConversationViewState {
    pub(crate) fn take_page(&mut self, page: u32, reply: ConversationReply)
        ensures
            final(self)@ == old(self)@.page_taken(page, reply),
    {
        self.error = None;
        if reply.conversation.conversation_id > 0 {
            self.conversation = reply.conversation;
        }
        self.messages = reply.messages;
        self.page = page;
        self.last_page = at_least_one(reply.pagination.last_page);
        self.loading = false;
        self.sel_msg = 0;
        self.scroll = 0;
        self.built = false;
    }

    pub(crate) fn fail(&mut self, e: TaskError)
        ensures
            final(self)@ == old(self)@.load_failed(e@),
    {
        match e.max_page {
            Some(max) => {
                self.last_page = max;
                self.loading = true;
            },
            None => {
                self.loading = false;
                self.error = Some(e.message);
            },
        }
    }
}

fn find_conversation(v: &Vec<Conversation>, id: u32) -> (r: Option<usize>)
    ensures
        match r {
            Some(i) => i < v.len() && first_conversation(v@, id) == Some(i as int),
            None => first_conversation(v@, id) is None,
        },
{
    let mut i: usize = 0;
    while i < v.len()
        invariant
            i <= v.len(),
            forall|j: int| 0 <= j < i ==> !of_id(id)(#[trigger] v@[j]),
        decreases v.len() - i,
    {
        if v[i].conversation_id == id {
            proof {
                lemma_searched(v@, of_id(id), i as int);
            }
            return Some(i);
        }
        i += 1;
    }
    proof {
        lemma_searched(v@, of_id(id), i as int);
    }
    None
}

impl ConversationsState {
    pub(crate) fn take_reply(&mut self, page: u32, reply: ConversationsReply)
        ensures
            final(self)@ == old(self)@.loaded(page, Ok(reply)),
    {
        self.error = None;
        self.conversations = reply.conversations;
        self.page = page;
        self.last_page = at_least_one(reply.pagination.last_page);
        self.total = reply.pagination.total;
        self.loading = false;
        self.sel = clamp_selection(self.sel, self.conversations.len());
    }
}

impl InboxState {
    /// Put the newest conversation into a free view pane: which one it is.
    pub(crate) fn prime(&mut self) -> (r: Option<u32>)
        ensures
            match r {
                Some(cid) => {
                    &&& old(self)@.wants_priming()
                    &&& cid == old(self)@.convos.conversations[0].conversation_id
                    &&& final(self)@ == old(self)@.primed()
                },
                None => !old(self)@.wants_priming() && final(self)@ == old(self)@,
            },
    {
        if self.dual && self.view.is_none() && self.tab == InboxTab::Conversations
            && self.convos.conversations.len() > 0 {
            let first = self.convos.conversations[0].clone();
            let cid: u32 = first.conversation_id;
            self.view = Some(opening_conversation_state(first));
            Some(cid)
        } else {
            None
        }
    }

    /// Read a conversation's row: the unread count that is left.
    pub(crate) fn read_row(&mut self, id: u32) -> (unread: u32)
        ensures
            final(self)@ == old(self)@.with_row_read(id),
            unread == badge(unread_conversations(final(self)@.convos.conversations)),
    {
        if let Some(i) = find_conversation(&self.convos.conversations, id) {
            self.convos.conversations[i].is_unread = false;
            self.convos.conversations[i].conversation_unread = false;
        }
        count_unread_conversations(&self.convos.conversations)
    }
}

impl AlertsState {
    pub(crate) fn take_reply(&mut self, reply: AlertsReply)
        ensures
            final(self)@ == old(self)@.loaded(Ok(reply)),
    {
        self.error = None;
        self.alerts = reply.alerts;
        self.loading = false;
        self.sel = clamp_selection(self.sel, self.alerts.len());
    }
}

impl MediaListState {
    pub(crate) fn take_reply(&mut self, page: u32, result: Result<MediaListReply, TaskError>)
        ensures
            final(self)@ == old(self)@.loaded(page, outcome(result)),
    {
        match result {
            Ok(reply) => {
                self.error = None;
                self.items = reply.media;
                self.page = page;
                self.last_page = at_least_one(reply.pagination.last_page);
                self.total = reply.pagination.total;
                self.loading = false;
                self.sel = 0;
            },
            Err(e) => {
                self.loading = false;
                self.error = Some(e.message);
            },
        }
    }
}

impl ResourceListState {
    pub(crate) fn take_reply(&mut self, page: u32, result: Result<ResourceListReply, TaskError>)
        ensures
            final(self)@ == old(self)@.loaded(page, outcome(result)),
    {
        match result {
            Ok(reply) => {
                self.error = None;
                self.items = reply.resources;
                self.page = page;
                self.last_page = at_least_one(reply.pagination.last_page);
                self.total = reply.pagination.total;
                self.loading = false;
                self.sel = 0;
            },
            Err(e) => {
                self.loading = false;
                self.error = Some(e.message);
            },
        }
    }
}

impl ResourceViewState {
    pub(crate) fn take_reply(&mut self, result: Result<ResourceReply, TaskError>)
        ensures
            final(self)@ == old(self)@.loaded(outcome(result)),
    {
        match result {
            Ok(reply) => {
                self.error = None;
                self.resource = Some(reply.resource);
                self.loading = false;
                self.width = 0;
            },
            Err(e) => {
                self.loading = false;
                self.error = Some(e.message);
            },
        }
    }
}

impl SearchState {
    pub(crate) fn take_reply(&mut self, page: u32, result: Result<SearchResultsReply, TaskError>)
        ensures
            final(self)@ == old(self)@.loaded(page, outcome(result)),
    {
        match result {
            Ok(reply) => {
                self.error = None;
                self.results = reply.results;
                self.page = page;
                self.last_page = at_least_one(reply.pagination.last_page);
                self.total = reply.pagination.total;
                self.loading = false;
                self.sel = 0;
            },
            Err(e) => {
                self.loading = false;
                self.error = Some(e.message);
            },
        }
    }
}

impl ProfileState {
    pub(crate) fn take_reply(&mut self, result: Result<User, TaskError>)
        ensures
            final(self)@ == old(self)@.loaded(outcome(result)),
    {
        match result {
            Ok(user) => {
                self.error = None;
                self.user = Some(user);
                self.loading = false;
            },
            Err(e) => {
                self.loading = false;
                self.error = Some(e.message);
            },
        }
    }
}

} // verus!
