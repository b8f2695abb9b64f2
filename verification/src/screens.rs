//! The screens: what each holds, and the stack they stand on.

use vstd::prelude::*;

use crate::models::{
    Alert, Attachment, Conversation, MediaCategory, MediaItem, Message, Node, Post, Resource,
    SearchHit, Thread, User,
};
use crate::text::{opt_text, texts};

verus! {

/// How many pages a list may fetch by itself to fill its pane, until somebody
/// loads it anew.
pub const FILL_PAGE_BUDGET: u32 = 8;

/// The pane of Home that has the keyboard.
#[derive(Debug, Clone, Copy, PartialEq, Eq, Structural)]
pub enum Pane {
    Tree,
    List,
}

/// How far the sign-in has come.
#[derive(Debug, Clone, Copy, PartialEq, Eq, Structural)]
pub enum LoginStage {
    Idle,
    Waiting,
}

/// The tab of the Inbox on show.
#[derive(Debug, Clone, Copy, PartialEq, Eq, Structural)]
pub enum InboxTab {
    Conversations,
    Alerts,
}

/// The pane of the Inbox that has the keyboard.
#[derive(Debug, Clone, Copy, PartialEq, Eq, Structural)]
pub enum InboxPane {
    List,
    View,
}

/// What a composer writes to.
#[derive(Debug)]
pub enum ComposeTarget {
    ThreadReply { thread_id: u32, thread_title: String },
    NewThread { node_id: u32 },
    ConversationReply { conversation_id: u32, conversation_title: String, participants: String },
    EditPost { post_id: u32, thread_id: u32, thread_title: String },
}

/// Where a draft is kept.
#[derive(Debug, Clone, Copy, PartialEq, Eq, Structural)]
pub enum DraftKey {
    Thread(u32),
    Node(u32),
    Conversation(u32),
    Post(u32),
}

/// One saved draft, as its list shows it.
#[derive(Debug)]
pub struct DraftRow {
    pub key: DraftKey,
    pub title: String,
}

impl ComposeTarget {
    pub open spec fn key(self) -> DraftKey {
        match self {
            ComposeTarget::ThreadReply { thread_id, .. } => DraftKey::Thread(thread_id),
            ComposeTarget::NewThread { node_id } => DraftKey::Node(node_id),
            ComposeTarget::ConversationReply { conversation_id, .. } => DraftKey::Conversation(
                conversation_id,
            ),
            ComposeTarget::EditPost { post_id, .. } => DraftKey::Post(post_id),
        }
    }

    /// Where this target's draft is kept.
    pub fn draft_key(&self) -> (r: DraftKey)
        ensures
            r == self.key(),
    {
        match self {
            ComposeTarget::ThreadReply { thread_id, .. } => DraftKey::Thread(*thread_id),
            ComposeTarget::NewThread { node_id } => DraftKey::Node(*node_id),
            ComposeTarget::ConversationReply { conversation_id, .. } => DraftKey::Conversation(
                *conversation_id,
            ),
            ComposeTarget::EditPost { post_id, .. } => DraftKey::Post(*post_id),
        }
    }
}

/// The forum tree.
#[derive(Debug)]
pub struct ForumTreeState {
    /// The loaded nodes, in tree order.
    pub nodes: Vec<Node>,
    pub sel: usize,
    pub loading: bool,
    pub error: Option<String>,
}

#[verifier::ext_equal]
pub struct ForumTreeModel {
    pub nodes: Seq<Node>,
    pub sel: usize,
    pub loading: bool,
    pub error: Option<Seq<char>>,
}

impl View for ForumTreeState {
    type V = ForumTreeModel;

    open spec fn view(&self) -> ForumTreeModel {
        ForumTreeModel {
            nodes: self.nodes@,
            sel: self.sel,
            loading: self.loading,
            error: opt_text(self.error),
        }
    }
}

impl ForumTreeModel {
    pub open spec fn initial() -> ForumTreeModel {
        ForumTreeModel {
            nodes: seq![],
            sel: 0,
            loading: false,
            error: None,
        }
    }
}

impl Default for ForumTreeState {
    fn default() -> (r: Self)
        ensures
            r@ == ForumTreeModel::initial(),
    {
        ForumTreeState {
            nodes: Vec::new(),
            sel: 0,
            loading: false,
            error: None,
        }
    }
}

/// A list of threads: one forum's, or the latest posts (node 0).
#[derive(Debug)]
pub struct ThreadListState {
    /// The forum on show; 0 for the latest posts.
    pub node_id: u32,
    pub title: String,
    /// The first page in the list.
    pub page: u32,
    pub last_page: u32,
    pub total: u32,
    pub per_page: u32,
    /// How many pages from `page` on the list holds.
    pub pages_loaded: u32,
    pub threads: Vec<Thread>,
    /// How many of the leading threads are sticky.
    pub sticky_count: usize,
    pub sel: usize,
    /// Rows the pane can show; 0 until a frame has measured it.
    pub visible: usize,
    /// How many more pages may be fetched without the reader asking.
    pub fill_budget: u32,
    /// The load this list waits for.
    pub load_seq: u64,
    pub loading: bool,
    pub error: Option<String>,
}

#[verifier::ext_equal]
pub struct ThreadListModel {
    pub node_id: u32,
    pub title: Seq<char>,
    pub page: u32,
    pub last_page: u32,
    pub total: u32,
    pub per_page: u32,
    pub pages_loaded: u32,
    pub threads: Seq<Thread>,
    pub sticky_count: usize,
    pub sel: usize,
    pub visible: usize,
    pub fill_budget: u32,
    pub load_seq: u64,
    pub loading: bool,
    pub error: Option<Seq<char>>,
}

impl View for ThreadListState {
    type V = ThreadListModel;

    open spec fn view(&self) -> ThreadListModel {
        ThreadListModel {
            node_id: self.node_id,
            title: self.title@,
            page: self.page,
            last_page: self.last_page,
            total: self.total,
            per_page: self.per_page,
            pages_loaded: self.pages_loaded,
            threads: self.threads@,
            sticky_count: self.sticky_count,
            sel: self.sel,
            visible: self.visible,
            fill_budget: self.fill_budget,
            load_seq: self.load_seq,
            loading: self.loading,
            error: opt_text(self.error),
        }
    }
}

impl ThreadListModel {
    pub open spec fn initial() -> ThreadListModel {
        ThreadListModel {
            node_id: 0,
            title: seq![],
            page: 0,
            last_page: 0,
            total: 0,
            per_page: 0,
            pages_loaded: 0,
            threads: seq![],
            sticky_count: 0,
            sel: 0,
            visible: 0,
            fill_budget: FILL_PAGE_BUDGET,
            load_seq: 0,
            loading: false,
            error: None,
        }
    }
}

impl Default for ThreadListState {
    fn default() -> (r: Self)
        ensures
            r@ == ThreadListModel::initial(),
    {
        ThreadListState {
            node_id: 0,
            title: String::new(),
            page: 0,
            last_page: 0,
            total: 0,
            per_page: 0,
            pages_loaded: 0,
            threads: Vec::new(),
            sticky_count: 0,
            sel: 0,
            visible: 0,
            fill_budget: FILL_PAGE_BUDGET,
            load_seq: 0,
            loading: false,
            error: None,
        }
    }
}

/// The root screen: the forum tree beside a thread list.
#[derive(Debug)]
pub struct HomeState {
    pub tree: ForumTreeState,
    pub list: ThreadListState,
    pub focus: Pane,
    /// Both panes fit side by side.
    pub dual: bool,
}

#[verifier::ext_equal]
pub struct HomeModel {
    pub tree: ForumTreeModel,
    pub list: ThreadListModel,
    pub focus: Pane,
    pub dual: bool,
}

impl View for HomeState {
    type V = HomeModel;

    open spec fn view(&self) -> HomeModel {
        HomeModel {
            tree: self.tree@,
            list: self.list@,
            focus: self.focus,
            dual: self.dual,
        }
    }
}

impl HomeModel {
    pub open spec fn initial() -> HomeModel {
        HomeModel {
            tree: ForumTreeModel::initial(),
            list: ThreadListModel::initial(),
            focus: Pane::Tree,
            dual: false,
        }
    }
}

impl Default for HomeState {
    fn default() -> (r: Self)
        ensures
            r@ == HomeModel::initial(),
    {
        HomeState {
            tree: ForumTreeState::default(),
            list: ThreadListState::default(),
            focus: Pane::Tree,
            dual: false,
        }
    }
}

/// The sign-in screen.
#[derive(Debug)]
pub struct LoginState {
    pub busy: bool,
    pub error: Option<String>,
    pub stage: LoginStage,
    pub url: String,
}

#[verifier::ext_equal]
pub struct LoginModel {
    pub busy: bool,
    pub error: Option<Seq<char>>,
    pub stage: LoginStage,
    pub url: Seq<char>,
}

impl View for LoginState {
    type V = LoginModel;

    open spec fn view(&self) -> LoginModel {
        LoginModel {
            busy: self.busy,
            error: opt_text(self.error),
            stage: self.stage,
            url: self.url@,
        }
    }
}

impl LoginModel {
    pub open spec fn initial() -> LoginModel {
        LoginModel {
            busy: false,
            error: None,
            stage: LoginStage::Idle,
            url: seq![],
        }
    }
}

impl Default for LoginState {
    fn default() -> (r: Self)
        ensures
            r@ == LoginModel::initial(),
    {
        LoginState {
            busy: false,
            error: None,
            stage: LoginStage::Idle,
            url: String::new(),
        }
    }
}

/// One thread, open for reading.
#[derive(Debug)]
pub struct ThreadViewState {
    pub thread: Thread,
    pub forum_title: String,
    pub posts: Vec<Post>,
    pub page: u32,
    pub last_page: u32,
    pub total: u32,
    pub loading: bool,
    pub error: Option<String>,
    pub sel_post: usize,
    pub scroll: usize,
    pub link_popup: bool,
    /// Date of the newest post that was on screen.
    pub seen_date: i64,
    /// Date up to which the site was told.
    pub reported_date: i64,
    /// The drawn lines match the posts.
    pub built: bool,
}

#[verifier::ext_equal]
pub struct ThreadViewModel {
    pub thread: Thread,
    pub forum_title: Seq<char>,
    pub posts: Seq<Post>,
    pub page: u32,
    pub last_page: u32,
    pub total: u32,
    pub loading: bool,
    pub error: Option<Seq<char>>,
    pub sel_post: usize,
    pub scroll: usize,
    pub link_popup: bool,
    pub seen_date: i64,
    pub reported_date: i64,
    pub built: bool,
}

impl View for ThreadViewState {
    type V = ThreadViewModel;

    open spec fn view(&self) -> ThreadViewModel {
        ThreadViewModel {
            thread: self.thread,
            forum_title: self.forum_title@,
            posts: self.posts@,
            page: self.page,
            last_page: self.last_page,
            total: self.total,
            loading: self.loading,
            error: opt_text(self.error),
            sel_post: self.sel_post,
            scroll: self.scroll,
            link_popup: self.link_popup,
            seen_date: self.seen_date,
            reported_date: self.reported_date,
            built: self.built,
        }
    }
}

impl ThreadViewModel {
    /// A view of `thread` that holds nothing yet.
    pub open spec fn initial(thread: Thread) -> ThreadViewModel {
        ThreadViewModel {
            thread,
            forum_title: seq![],
            posts: seq![],
            page: 0,
            last_page: 0,
            total: 0,
            loading: false,
            error: None,
            sel_post: 0,
            scroll: 0,
            link_popup: false,
            seen_date: 0,
            reported_date: 0,
            built: false,
        }
    }
}

impl Default for ThreadViewState {
    fn default() -> (r: Self)
        ensures
            r@ == ThreadViewModel::initial(r.thread),
            r.thread.thread_id == 0,
            r.thread.node_id == 0,
            r.thread.title@.len() == 0,
            r.thread.reply_count == 0,
            !r.thread.is_unread,
    {
        ThreadViewState {
            thread: Thread::default(),
            forum_title: String::new(),
            posts: Vec::new(),
            page: 0,
            last_page: 0,
            total: 0,
            loading: false,
            error: None,
            sel_post: 0,
            scroll: 0,
            link_popup: false,
            seen_date: 0,
            reported_date: 0,
            built: false,
        }
    }
}

/// The editor for posts and replies.
#[derive(Debug)]
pub struct ComposeState {
    pub target: Option<ComposeTarget>,
    pub title: String,
    pub title_cursor: usize,
    /// The title has the keyboard, not the body.
    pub title_field: bool,
    pub body: String,
    pub body_cursor: usize,
    pub author: String,
    pub reply_number: Option<u32>,
    pub busy: bool,
    pub uploading: bool,
    /// What this draft's uploads are filed under.
    pub attachment_key: Option<String>,
    pub attachments: Vec<Attachment>,
    pub error: Option<String>,
}

#[verifier::ext_equal]
pub struct ComposeModel {
    pub target: Option<ComposeTarget>,
    pub title: Seq<char>,
    pub title_cursor: usize,
    pub title_field: bool,
    pub body: Seq<char>,
    pub body_cursor: usize,
    pub author: Seq<char>,
    pub reply_number: Option<u32>,
    pub busy: bool,
    pub uploading: bool,
    pub attachment_key: Option<Seq<char>>,
    pub attachments: Seq<Attachment>,
    pub error: Option<Seq<char>>,
}

impl View for ComposeState {
    type V = ComposeModel;

    open spec fn view(&self) -> ComposeModel {
        ComposeModel {
            target: self.target,
            title: self.title@,
            title_cursor: self.title_cursor,
            title_field: self.title_field,
            body: self.body@,
            body_cursor: self.body_cursor,
            author: self.author@,
            reply_number: self.reply_number,
            busy: self.busy,
            uploading: self.uploading,
            attachment_key: opt_text(self.attachment_key),
            attachments: self.attachments@,
            error: opt_text(self.error),
        }
    }
}

impl ComposeModel {
    pub open spec fn initial() -> ComposeModel {
        ComposeModel {
            target: None,
            title: seq![],
            title_cursor: 0,
            title_field: false,
            body: seq![],
            body_cursor: 0,
            author: seq![],
            reply_number: None,
            busy: false,
            uploading: false,
            attachment_key: None,
            attachments: seq![],
            error: None,
        }
    }
}

impl Default for ComposeState {
    fn default() -> (r: Self)
        ensures
            r@ == ComposeModel::initial(),
    {
        ComposeState {
            target: None,
            title: String::new(),
            title_cursor: 0,
            title_field: false,
            body: String::new(),
            body_cursor: 0,
            author: String::new(),
            reply_number: None,
            busy: false,
            uploading: false,
            attachment_key: None,
            attachments: Vec::new(),
            error: None,
        }
    }
}

/// The list of conversations.
#[derive(Debug)]
pub struct ConversationsState {
    pub conversations: Vec<Conversation>,
    pub page: u32,
    pub last_page: u32,
    pub total: u32,
    pub sel: usize,
    pub loading: bool,
    pub error: Option<String>,
}

#[verifier::ext_equal]
pub struct ConversationsModel {
    pub conversations: Seq<Conversation>,
    pub page: u32,
    pub last_page: u32,
    pub total: u32,
    pub sel: usize,
    pub loading: bool,
    pub error: Option<Seq<char>>,
}

impl View for ConversationsState {
    type V = ConversationsModel;

    open spec fn view(&self) -> ConversationsModel {
        ConversationsModel {
            conversations: self.conversations@,
            page: self.page,
            last_page: self.last_page,
            total: self.total,
            sel: self.sel,
            loading: self.loading,
            error: opt_text(self.error),
        }
    }
}

impl ConversationsModel {
    pub open spec fn initial() -> ConversationsModel {
        ConversationsModel {
            conversations: seq![],
            page: 0,
            last_page: 0,
            total: 0,
            sel: 0,
            loading: false,
            error: None,
        }
    }
}

impl Default for ConversationsState {
    fn default() -> (r: Self)
        ensures
            r@ == ConversationsModel::initial(),
    {
        ConversationsState {
            conversations: Vec::new(),
            page: 0,
            last_page: 0,
            total: 0,
            sel: 0,
            loading: false,
            error: None,
        }
    }
}

/// The list of alerts.
#[derive(Debug)]
pub struct AlertsState {
    pub alerts: Vec<Alert>,
    pub sel: usize,
    pub loading: bool,
    pub error: Option<String>,
}

#[verifier::ext_equal]
pub struct AlertsModel {
    pub alerts: Seq<Alert>,
    pub sel: usize,
    pub loading: bool,
    pub error: Option<Seq<char>>,
}

impl View for AlertsState {
    type V = AlertsModel;

    open spec fn view(&self) -> AlertsModel {
        AlertsModel {
            alerts: self.alerts@,
            sel: self.sel,
            loading: self.loading,
            error: opt_text(self.error),
        }
    }
}

impl AlertsModel {
    pub open spec fn initial() -> AlertsModel {
        AlertsModel {
            alerts: seq![],
            sel: 0,
            loading: false,
            error: None,
        }
    }
}

impl Default for AlertsState {
    fn default() -> (r: Self)
        ensures
            r@ == AlertsModel::initial(),
    {
        AlertsState {
            alerts: Vec::new(),
            sel: 0,
            loading: false,
            error: None,
        }
    }
}

/// One conversation, open for reading.
#[derive(Debug)]
pub struct ConversationViewState {
    pub conversation: Conversation,
    pub messages: Vec<Message>,
    pub page: u32,
    pub last_page: u32,
    pub sel_msg: usize,
    pub scroll: usize,
    /// The drawn lines match the messages.
    pub built: bool,
    pub loading: bool,
    pub error: Option<String>,
}

#[verifier::ext_equal]
pub struct ConversationViewModel {
    pub conversation: Conversation,
    pub messages: Seq<Message>,
    pub page: u32,
    pub last_page: u32,
    pub sel_msg: usize,
    pub scroll: usize,
    pub built: bool,
    pub loading: bool,
    pub error: Option<Seq<char>>,
}

impl View for ConversationViewState {
    type V = ConversationViewModel;

    open spec fn view(&self) -> ConversationViewModel {
        ConversationViewModel {
            conversation: self.conversation,
            messages: self.messages@,
            page: self.page,
            last_page: self.last_page,
            sel_msg: self.sel_msg,
            scroll: self.scroll,
            built: self.built,
            loading: self.loading,
            error: opt_text(self.error),
        }
    }
}

impl ConversationViewModel {
    /// A view of `conversation` that holds nothing yet.
    pub open spec fn initial(conversation: Conversation) -> ConversationViewModel {
        ConversationViewModel {
            conversation,
            messages: seq![],
            page: 0,
            last_page: 0,
            sel_msg: 0,
            scroll: 0,
            built: false,
            loading: false,
            error: None,
        }
    }
}

impl Default for ConversationViewState {
    fn default() -> (r: Self)
        ensures
            r@ == ConversationViewModel::initial(r.conversation),
            r.conversation.conversation_id == 0,
            r.conversation.title@.len() == 0,
            r.conversation.participants@.len() == 0,
            !r.conversation.is_unread,
            !r.conversation.conversation_unread,
    {
        ConversationViewState {
            conversation: Conversation::default(),
            messages: Vec::new(),
            page: 0,
            last_page: 0,
            sel_msg: 0,
            scroll: 0,
            built: false,
            loading: false,
            error: None,
        }
    }
}

pub open spec fn opt_conversation(v: Option<ConversationViewState>) -> Option<
    ConversationViewModel,
> {
    match v {
        Some(c) => Some(c@),
        None => None,
    }
}

/// Conversations and alerts, with a view pane beside them where there is room.
#[derive(Debug)]
pub struct InboxState {
    pub tab: InboxTab,
    pub focus: InboxPane,
    pub dual: bool,
    pub convos: ConversationsState,
    pub alerts: AlertsState,
    pub view: Option<ConversationViewState>,
}

#[verifier::ext_equal]
pub struct InboxModel {
    pub tab: InboxTab,
    pub focus: InboxPane,
    pub dual: bool,
    pub convos: ConversationsModel,
    pub alerts: AlertsModel,
    pub view: Option<ConversationViewModel>,
}

impl View for InboxState {
    type V = InboxModel;

    open spec fn view(&self) -> InboxModel {
        InboxModel {
            tab: self.tab,
            focus: self.focus,
            dual: self.dual,
            convos: self.convos@,
            alerts: self.alerts@,
            view: opt_conversation(self.view),
        }
    }
}

impl InboxModel {
    pub open spec fn initial() -> InboxModel {
        InboxModel {
            tab: InboxTab::Conversations,
            focus: InboxPane::List,
            dual: false,
            convos: ConversationsModel::initial(),
            alerts: AlertsModel::initial(),
            view: None,
        }
    }
}

impl Default for InboxState {
    fn default() -> (r: Self)
        ensures
            r@ == InboxModel::initial(),
    {
        InboxState {
            tab: InboxTab::Conversations,
            focus: InboxPane::List,
            dual: false,
            convos: ConversationsState::default(),
            alerts: AlertsState::default(),
            view: None,
        }
    }
}

/// A search and its results.
#[derive(Debug)]
pub struct SearchState {
    pub query: String,
    pub query_cursor: usize,
    pub author: String,
    pub author_cursor: usize,
    /// 1 for the author field.
    pub active_field: usize,
    /// A field has the keyboard.
    pub input_mode: bool,
    /// Set where the screen lists a member's content.
    pub member: Option<(u32, String)>,
    pub content_type: usize,
    pub results: Vec<SearchHit>,
    pub page: u32,
    pub last_page: u32,
    pub total: u32,
    pub sel: usize,
    /// The load this screen waits for.
    pub generation: u64,
    pub loading: bool,
    pub error: Option<String>,
}

#[verifier::ext_equal]
pub struct SearchModel {
    pub query: Seq<char>,
    pub query_cursor: usize,
    pub author: Seq<char>,
    pub author_cursor: usize,
    pub active_field: usize,
    pub input_mode: bool,
    pub member: Option<(u32, String)>,
    pub content_type: usize,
    pub results: Seq<SearchHit>,
    pub page: u32,
    pub last_page: u32,
    pub total: u32,
    pub sel: usize,
    pub generation: u64,
    pub loading: bool,
    pub error: Option<Seq<char>>,
}

impl View for SearchState {
    type V = SearchModel;

    open spec fn view(&self) -> SearchModel {
        SearchModel {
            query: self.query@,
            query_cursor: self.query_cursor,
            author: self.author@,
            author_cursor: self.author_cursor,
            active_field: self.active_field,
            input_mode: self.input_mode,
            member: self.member,
            content_type: self.content_type,
            results: self.results@,
            page: self.page,
            last_page: self.last_page,
            total: self.total,
            sel: self.sel,
            generation: self.generation,
            loading: self.loading,
            error: opt_text(self.error),
        }
    }
}

impl SearchModel {
    pub open spec fn initial() -> SearchModel {
        SearchModel {
            query: seq![],
            query_cursor: 0,
            author: seq![],
            author_cursor: 0,
            active_field: 0,
            input_mode: false,
            member: None,
            content_type: 0,
            results: seq![],
            page: 0,
            last_page: 0,
            total: 0,
            sel: 0,
            generation: 0,
            loading: false,
            error: None,
        }
    }
}

impl Default for SearchState {
    fn default() -> (r: Self)
        ensures
            r@ == SearchModel::initial(),
    {
        SearchState {
            query: String::new(),
            query_cursor: 0,
            author: String::new(),
            author_cursor: 0,
            active_field: 0,
            input_mode: false,
            member: None,
            content_type: 0,
            results: Vec::new(),
            page: 0,
            last_page: 0,
            total: 0,
            sel: 0,
            generation: 0,
            loading: false,
            error: None,
        }
    }
}

/// A member's profile.
#[derive(Debug)]
pub struct ProfileState {
    pub title: String,
    pub user: Option<User>,
    /// The load this screen waits for.
    pub generation: u64,
    pub loading: bool,
    pub error: Option<String>,
}

#[verifier::ext_equal]
pub struct ProfileModel {
    pub title: Seq<char>,
    pub user: Option<User>,
    pub generation: u64,
    pub loading: bool,
    pub error: Option<Seq<char>>,
}

impl View for ProfileState {
    type V = ProfileModel;

    open spec fn view(&self) -> ProfileModel {
        ProfileModel {
            title: self.title@,
            user: self.user,
            generation: self.generation,
            loading: self.loading,
            error: opt_text(self.error),
        }
    }
}

impl ProfileModel {
    pub open spec fn initial() -> ProfileModel {
        ProfileModel {
            title: seq![],
            user: None,
            generation: 0,
            loading: false,
            error: None,
        }
    }
}

impl Default for ProfileState {
    fn default() -> (r: Self)
        ensures
            r@ == ProfileModel::initial(),
    {
        ProfileState {
            title: String::new(),
            user: None,
            generation: 0,
            loading: false,
            error: None,
        }
    }
}

/// The form that starts a conversation.
#[derive(Debug)]
pub struct NewConversationState {
    pub recipients: String,
    pub recipients_cursor: usize,
    pub title: String,
    pub title_cursor: usize,
    pub body: String,
    pub body_cursor: usize,
    /// 0 recipients, 1 title, else body.
    pub field: usize,
    /// Lookups still out.
    pub resolving: u32,
    pub resolved_ids: Vec<u32>,
    pub errors: Vec<String>,
    pub busy: bool,
    pub sending: bool,
}

#[verifier::ext_equal]
pub struct NewConversationModel {
    pub recipients: Seq<char>,
    pub recipients_cursor: usize,
    pub title: Seq<char>,
    pub title_cursor: usize,
    pub body: Seq<char>,
    pub body_cursor: usize,
    pub field: usize,
    pub resolving: u32,
    pub resolved_ids: Seq<u32>,
    pub errors: Seq<Seq<char>>,
    pub busy: bool,
    pub sending: bool,
}

impl View for NewConversationState {
    type V = NewConversationModel;

    open spec fn view(&self) -> NewConversationModel {
        NewConversationModel {
            recipients: self.recipients@,
            recipients_cursor: self.recipients_cursor,
            title: self.title@,
            title_cursor: self.title_cursor,
            body: self.body@,
            body_cursor: self.body_cursor,
            field: self.field,
            resolving: self.resolving,
            resolved_ids: self.resolved_ids@,
            errors: texts(self.errors@),
            busy: self.busy,
            sending: self.sending,
        }
    }
}

impl NewConversationModel {
    pub open spec fn initial() -> NewConversationModel {
        NewConversationModel {
            recipients: seq![],
            recipients_cursor: 0,
            title: seq![],
            title_cursor: 0,
            body: seq![],
            body_cursor: 0,
            field: 0,
            resolving: 0,
            resolved_ids: seq![],
            errors: seq![],
            busy: false,
            sending: false,
        }
    }
}

impl Default for NewConversationState {
    fn default() -> (r: Self)
        ensures
            r@ == NewConversationModel::initial(),
    {
        NewConversationState {
            recipients: String::new(),
            recipients_cursor: 0,
            title: String::new(),
            title_cursor: 0,
            body: String::new(),
            body_cursor: 0,
            field: 0,
            resolving: 0,
            resolved_ids: Vec::new(),
            errors: Vec::new(),
            busy: false,
            sending: false,
        }
    }
}

/// The media gallery.
#[derive(Debug)]
pub struct MediaListState {
    pub items: Vec<MediaItem>,
    pub categories: Vec<MediaCategory>,
    pub category_title: String,
    pub page: u32,
    pub last_page: u32,
    pub total: u32,
    pub sel: usize,
    pub loading: bool,
    pub error: Option<String>,
}

#[verifier::ext_equal]
pub struct MediaListModel {
    pub items: Seq<MediaItem>,
    pub categories: Seq<MediaCategory>,
    pub category_title: Seq<char>,
    pub page: u32,
    pub last_page: u32,
    pub total: u32,
    pub sel: usize,
    pub loading: bool,
    pub error: Option<Seq<char>>,
}

impl View for MediaListState {
    type V = MediaListModel;

    open spec fn view(&self) -> MediaListModel {
        MediaListModel {
            items: self.items@,
            categories: self.categories@,
            category_title: self.category_title@,
            page: self.page,
            last_page: self.last_page,
            total: self.total,
            sel: self.sel,
            loading: self.loading,
            error: opt_text(self.error),
        }
    }
}

impl MediaListModel {
    pub open spec fn initial() -> MediaListModel {
        MediaListModel {
            items: seq![],
            categories: seq![],
            category_title: seq![],
            page: 0,
            last_page: 0,
            total: 0,
            sel: 0,
            loading: false,
            error: None,
        }
    }
}

impl Default for MediaListState {
    fn default() -> (r: Self)
        ensures
            r@ == MediaListModel::initial(),
    {
        MediaListState {
            items: Vec::new(),
            categories: Vec::new(),
            category_title: String::new(),
            page: 0,
            last_page: 0,
            total: 0,
            sel: 0,
            loading: false,
            error: None,
        }
    }
}

/// The resource catalog.
#[derive(Debug)]
pub struct ResourceListState {
    pub items: Vec<Resource>,
    pub page: u32,
    pub last_page: u32,
    pub total: u32,
    pub sel: usize,
    pub loading: bool,
    pub error: Option<String>,
}

#[verifier::ext_equal]
pub struct ResourceListModel {
    pub items: Seq<Resource>,
    pub page: u32,
    pub last_page: u32,
    pub total: u32,
    pub sel: usize,
    pub loading: bool,
    pub error: Option<Seq<char>>,
}

impl View for ResourceListState {
    type V = ResourceListModel;

    open spec fn view(&self) -> ResourceListModel {
        ResourceListModel {
            items: self.items@,
            page: self.page,
            last_page: self.last_page,
            total: self.total,
            sel: self.sel,
            loading: self.loading,
            error: opt_text(self.error),
        }
    }
}

impl ResourceListModel {
    pub open spec fn initial() -> ResourceListModel {
        ResourceListModel {
            items: seq![],
            page: 0,
            last_page: 0,
            total: 0,
            sel: 0,
            loading: false,
            error: None,
        }
    }
}

impl Default for ResourceListState {
    fn default() -> (r: Self)
        ensures
            r@ == ResourceListModel::initial(),
    {
        ResourceListState {
            items: Vec::new(),
            page: 0,
            last_page: 0,
            total: 0,
            sel: 0,
            loading: false,
            error: None,
        }
    }
}

/// One resource's page.
#[derive(Debug)]
pub struct ResourceViewState {
    pub id: u32,
    pub resource: Option<Resource>,
    /// The width the page was laid out for; 0 asks for a new layout.
    pub width: u16,
    pub loading: bool,
    pub error: Option<String>,
}

#[verifier::ext_equal]
pub struct ResourceViewModel {
    pub id: u32,
    pub resource: Option<Resource>,
    pub width: u16,
    pub loading: bool,
    pub error: Option<Seq<char>>,
}

impl View for ResourceViewState {
    type V = ResourceViewModel;

    open spec fn view(&self) -> ResourceViewModel {
        ResourceViewModel {
            id: self.id,
            resource: self.resource,
            width: self.width,
            loading: self.loading,
            error: opt_text(self.error),
        }
    }
}

impl ResourceViewModel {
    pub open spec fn initial() -> ResourceViewModel {
        ResourceViewModel {
            id: 0,
            resource: None,
            width: 0,
            loading: false,
            error: None,
        }
    }
}

impl Default for ResourceViewState {
    fn default() -> (r: Self)
        ensures
            r@ == ResourceViewModel::initial(),
    {
        ResourceViewState {
            id: 0,
            resource: None,
            width: 0,
            loading: false,
            error: None,
        }
    }
}

/// One picture, full screen.
#[derive(Debug)]
pub struct ImageViewState {
    pub url: String,
    pub title: String,
}

#[verifier::ext_equal]
pub struct ImageViewModel {
    pub url: Seq<char>,
    pub title: Seq<char>,
}

impl View for ImageViewState {
    type V = ImageViewModel;

    open spec fn view(&self) -> ImageViewModel {
        ImageViewModel {
            url: self.url@,
            title: self.title@,
        }
    }
}

impl ImageViewModel {
    pub open spec fn initial() -> ImageViewModel {
        ImageViewModel {
            url: seq![],
            title: seq![],
        }
    }
}

impl Default for ImageViewState {
    fn default() -> (r: Self)
        ensures
            r@ == ImageViewModel::initial(),
    {
        ImageViewState {
            url: String::new(),
            title: String::new(),
        }
    }
}

/// The saved drafts.
#[derive(Debug)]
pub struct DraftsState {
    pub rows: Vec<DraftRow>,
    pub sel: usize,
}

#[verifier::ext_equal]
pub struct DraftsModel {
    pub rows: Seq<DraftRow>,
    pub sel: usize,
}

impl View for DraftsState {
    type V = DraftsModel;

    open spec fn view(&self) -> DraftsModel {
        DraftsModel {
            rows: self.rows@,
            sel: self.sel,
        }
    }
}

impl DraftsModel {
    pub open spec fn initial() -> DraftsModel {
        DraftsModel {
            rows: seq![],
            sel: 0,
        }
    }
}

impl Default for DraftsState {
    fn default() -> (r: Self)
        ensures
            r@ == DraftsModel::initial(),
    {
        DraftsState {
            rows: Vec::new(),
            sel: 0,
        }
    }
}

/// One screen of the stack.
#[derive(Debug)]
pub enum Screen {
    Home(HomeState),
    ForumTree(ForumTreeState),
    ThreadList(ThreadListState),
    ThreadView(ThreadViewState),
    Inbox(InboxState),
    ConversationView(ConversationViewState),
    Compose(ComposeState),
    NewConversation(NewConversationState),
    Search(SearchState),
    Profile(ProfileState),
    MediaGallery(MediaListState),
    Resources(ResourceListState),
    ResourceView(ResourceViewState),
    ImageView(ImageViewState),
    Drafts(DraftsState),
    Login(LoginState),
}

#[verifier::ext_equal]
pub enum ScreenModel {
    Home(HomeModel),
    ForumTree(ForumTreeModel),
    ThreadList(ThreadListModel),
    ThreadView(ThreadViewModel),
    Inbox(InboxModel),
    ConversationView(ConversationViewModel),
    Compose(ComposeModel),
    NewConversation(NewConversationModel),
    Search(SearchModel),
    Profile(ProfileModel),
    MediaGallery(MediaListModel),
    Resources(ResourceListModel),
    ResourceView(ResourceViewModel),
    ImageView(ImageViewModel),
    Drafts(DraftsModel),
    Login(LoginModel),
}

impl View for Screen {
    type V = ScreenModel;

    open spec fn view(&self) -> ScreenModel {
        match *self {
            Screen::Home(s) => ScreenModel::Home(s@),
            Screen::ForumTree(s) => ScreenModel::ForumTree(s@),
            Screen::ThreadList(s) => ScreenModel::ThreadList(s@),
            Screen::ThreadView(s) => ScreenModel::ThreadView(s@),
            Screen::Inbox(s) => ScreenModel::Inbox(s@),
            Screen::ConversationView(s) => ScreenModel::ConversationView(s@),
            Screen::Compose(s) => ScreenModel::Compose(s@),
            Screen::NewConversation(s) => ScreenModel::NewConversation(s@),
            Screen::Search(s) => ScreenModel::Search(s@),
            Screen::Profile(s) => ScreenModel::Profile(s@),
            Screen::MediaGallery(s) => ScreenModel::MediaGallery(s@),
            Screen::Resources(s) => ScreenModel::Resources(s@),
            Screen::ResourceView(s) => ScreenModel::ResourceView(s@),
            Screen::ImageView(s) => ScreenModel::ImageView(s@),
            Screen::Drafts(s) => ScreenModel::Drafts(s@),
            Screen::Login(s) => ScreenModel::Login(s@),
        }
    }
}

} // verus!
