//! What screens ask for, carried out.

use vstd::prelude::*;

use crate::app::{find, topmost, tree_in, with_tree, App, AppModel, Wanted};
use crate::effects::{AttachContext, Effect, EffectModel};
use crate::models::{clamp_selection, within, Conversation, Post, SearchQuery, Thread};
use crate::msg::PostVerb;
use crate::nodes::{find_node, first_node, NodeWanted};
use crate::paste::{opt_paste, Paste, PasteModel};
use crate::screens::{
    ComposeModel, ComposeState, ComposeTarget, DraftKey, DraftRow, DraftsModel, ForumTreeModel,
    ImageViewModel, ImageViewState, MediaListModel, MediaListState, NewConversationModel,
    NewConversationState, ResourceListModel, ResourceListState, ResourceViewModel,
    ResourceViewState, Screen, ScreenModel, SearchModel, SearchState,
};
use crate::stack::draft_of;
use crate::text::{glue, glue3, opt_text, same_text};

verus! {

/// What a screen wants done.
#[allow(inconsistent_fields)]
#[derive(Debug)]
pub enum Action {
    Nothing,
    Notice(String),
    PopScreen,
    Quit,
    /// A node of the tree: a forum, a category, a link or a page.
    OpenThreadList(u32, String),
    OpenLatestThreads,
    OpenThread(Thread),
    OpenProfile(u32, String),
    OpenMemberContent { user_id: u32, username: String, content: String },
    OpenConversation(Conversation),
    OpenMediaGallery,
    OpenResources,
    OpenResource(u32),
    /// A picture: its address and its title.
    OpenImage(String, String),
    /// A video opens in the browser, where videos are cheap.
    PlayVideo { url: String, title: String },
    OpenUrl(String),
    OscCopy(String),
    LoginBegin,
    OpenDrafts,
    ResumeDraft(DraftKey),
    /// Erase a draft from its list.
    DropDraft(DraftKey),
    /// Erase the draft of the composer on top.
    DiscardDraft,
    StartReply(Thread),
    /// A reply that starts from a quote block.
    StartReplyQuoting(Thread, String),
    StartEditPost(Thread, Post),
    StartReplyConversation(Conversation),
    StartNewThread(u32),
    StartNewConversation(Option<String>),
    LoadForum(u32, u32),
    LoadThread(u32, u32),
    LoadConversations(u32),
    /// A page of a conversation the reader already opened.
    LoadConversation(u32, u32),
    LoadAlerts,
    LoadNodes,
    RunSearchQuery(SearchQuery),
    LoadMedia { category: Option<u32>, page: u32 },
    LoadMediaCategories,
    LoadResources(u32),
    LoadResource(u32),
    LoadMemberContent { user_id: u32, content: String, page: u32 },
    MarkThreadRead(u32),
    MarkForumRead(u32),
    MarkAlertRead(u32),
    MarkConversationRead(u32),
    ReactPost(u32),
    VotePost(u32, String),
    UploadAttachment { path: String, context: AttachContext },
    SubmitEdit { post_id: u32, message: String },
    DeletePost { post_id: u32, thread_id: u32 },
    MarkSolution { post_id: u32, thread_id: u32 },
    SubmitReply { thread_id: u32, message: String },
    SubmitThread { node_id: u32, title: String, message: String },
    SubmitConvoReply { id: u32, message: String },
    /// Look up every name; the form keeps the title and the body.
    ResolveRecipients(Vec<String>),
    /// Paste from the client's clipboard; with what the system's holds, where the
    /// client's is empty.
    PasteClipboard(Option<String>),
}

impl Action {
    pub open spec fn loads(self) -> bool {
        ||| self is LoadForum
        ||| self is LoadThread
        ||| self is LoadConversations
        ||| self is LoadConversation
        ||| self is LoadAlerts
        ||| self is LoadNodes
        ||| self is RunSearchQuery
        ||| self is LoadMedia
        ||| self is LoadMediaCategories
        ||| self is LoadResources
        ||| self is LoadResource
        ||| self is LoadMemberContent
        ||| self is MarkThreadRead
        ||| self is MarkForumRead
        ||| self is MarkAlertRead
        ||| self is MarkConversationRead
    }

    pub open spec fn writes(self) -> bool {
        ||| self is ReactPost
        ||| self is VotePost
        ||| self is UploadAttachment
        ||| self is SubmitEdit
        ||| self is DeletePost
        ||| self is MarkSolution
        ||| self is SubmitReply
        ||| self is SubmitThread
        ||| self is SubmitConvoReply
        ||| self is ResolveRecipients
    }

    fn is_load(&self) -> (r: bool)
        ensures
            r == self.loads(),
    {
        match self {
            Action::LoadForum(..) => true,
            Action::LoadThread(..) => true,
            Action::LoadConversations(..) => true,
            Action::LoadConversation(..) => true,
            Action::LoadAlerts => true,
            Action::LoadNodes => true,
            Action::RunSearchQuery(..) => true,
            Action::LoadMedia { .. } => true,
            Action::LoadMediaCategories => true,
            Action::LoadResources(..) => true,
            Action::LoadResource(..) => true,
            Action::LoadMemberContent { .. } => true,
            Action::MarkThreadRead(..) => true,
            Action::MarkForumRead(..) => true,
            Action::MarkAlertRead(..) => true,
            Action::MarkConversationRead(..) => true,
            _ => false,
        }
    }

    fn is_write(&self) -> (r: bool)
        ensures
            r == self.writes(),
    {
        match self {
            Action::ReactPost(..) => true,
            Action::VotePost(..) => true,
            Action::UploadAttachment { .. } => true,
            Action::SubmitEdit { .. } => true,
            Action::DeletePost { .. } => true,
            Action::MarkSolution { .. } => true,
            Action::SubmitReply { .. } => true,
            Action::SubmitThread { .. } => true,
            Action::SubmitConvoReply { .. } => true,
            Action::ResolveRecipients(..) => true,
            _ => false,
        }
    }

}

/// Where a node of the tree leads.
pub enum Place {
    Url(String),
    List(u32, String),
}

pub enum PlaceModel {
    Url(Seq<char>),
    List(u32, Seq<char>),
}

impl View for Place {
    type V = PlaceModel;

    open spec fn view(&self) -> PlaceModel {
        match *self {
            Place::Url(url) => PlaceModel::Url(url@),
            Place::List(id, title) => PlaceModel::List(id, title@),
        }
    }
}

/// The requests for one lookup per name, in the order of the names.
pub open spec fn lookups(names: Seq<String>) -> Seq<EffectModel> {
    names.map_values(|n: String| EffectModel::FindRecipient { name: n@ })
}

impl AppModel {
    /// Where a node leads: a category to its first forum, a link or a page to
    /// its address, anything else to its own threads.
    pub open spec fn place_of(self, node_id: u32, title: Seq<char>) -> PlaceModel {
        let own = PlaceModel::List(node_id, title);
        match self.tree() {
            Some(t) => match first_node(t.nodes, NodeWanted::Id(node_id)) {
                Some(i) => {
                    let node = t.nodes[i];
                    if node.node_type@ == "Category"@ {
                        match first_node(
                            t.nodes,
                            NodeWanted::ForumUnder(node.node_id, node.depth),
                        ) {
                            Some(k) => PlaceModel::List(t.nodes[k].node_id, t.nodes[k].title@),
                            None => own,
                        }
                    } else if node.node_type@ == "LinkForum"@ || node.node_type@ == "Page"@ {
                        match node.view_url {
                            Some(url) => PlaceModel::Url(url@),
                            None => own,
                        }
                    } else {
                        own
                    }
                },
                None => own,
            },
            None => own,
        }
    }

    pub open spec fn node_opened(self, node_id: u32, title: Seq<char>) -> AppModel {
        match self.place_of(node_id, title) {
            PlaceModel::Url(url) => self.url_opened(url),
            PlaceModel::List(id, title) => self.list_opened(id, title),
        }
    }

    /// A page of a member's threads or posts, asked for by the member's id.
    pub open spec fn member_content_loading(self, user_id: u32, content: String, page: u32) -> AppModel {
        let a = self.hint("Searching…"@).search_begun();
        a.asking(
            EffectModel::SearchMember {
                generation: a.minted.search_generation,
                user_id,
                content: content@,
                page,
            },
        )
    }

    /// A member's threads or posts, as a search screen that knows whose they
    /// are.
    pub open spec fn member_content_opened(self, user_id: u32, username: Seq<char>, content: String) -> AppModel {
        self.pushed(
            ScreenModel::Search(
                SearchModel {
                    query: "by: "@ + username + " ("@ + content@ + ")"@,
                    input_mode: false,
                    loading: true,
                    member: Some((user_id, content)),
                    content_type: if content@ == "post"@ {
                        2
                    } else {
                        1
                    },
                    ..SearchModel::initial()
                },
            ),
        ).member_content_loading(user_id, content, 1).hint(
            "Searching "@ + username + "'s "@ + content@ + "…"@,
        )
    }

    pub open spec fn searching(self, query: SearchQuery) -> AppModel {
        let a = self.search_begun().hint("Searching…"@);
        a.asking(EffectModel::Search { generation: a.minted.search_generation, query })
    }

    pub open spec fn gallery_opened(self) -> AppModel {
        self.pushed(
            ScreenModel::MediaGallery(
                MediaListModel {
                    page: 1,
                    loading: true,
                    category_title: "All media"@,
                    ..MediaListModel::initial()
                },
            ),
        ).asking(EffectModel::LoadMedia { category: None, page: 1 }).asking(
            EffectModel::LoadMediaCategories,
        )
    }

    pub open spec fn resources_opened(self) -> AppModel {
        self.pushed(
            ScreenModel::Resources(
                ResourceListModel { page: 1, loading: true, ..ResourceListModel::initial() },
            ),
        ).asking(EffectModel::LoadResources { page: 1 })
    }

    pub open spec fn resource_opened(self, id: u32) -> AppModel {
        self.pushed(
            ScreenModel::ResourceView(
                ResourceViewModel { id, loading: true, ..ResourceViewModel::initial() },
            ),
        ).asking(EffectModel::LoadResource { id })
    }

    /// The forum tree on its way again.
    pub open spec fn nodes_reloading(self) -> AppModel {
        let a = match topmost(self.screens, Wanted::Tree) {
            Some(i) => self.with_screen(
                i,
                with_tree(
                    self.screens[i],
                    ForumTreeModel { loading: true, error: None, ..tree_in(self.screens[i]) },
                ),
            ),
            None => self,
        };
        a.asking(EffectModel::LoadNodes)
    }

    /// A draft erased from its list: the list on top is read again.
    pub open spec fn draft_dropped(self, key: DraftKey) -> AppModel {
        let a = self.asking(EffectModel::DiscardDraft { key }).status("Draft deleted."@);
        if a.top() matches Some(s) && s is Drafts {
            a.asking(EffectModel::RefreshDrafts)
        } else {
            a
        }
    }

    /// The draft of the composer on top erased.
    pub open spec fn draft_discarded(self) -> AppModel {
        match self.top() {
            Some(s) => match draft_of(s) {
                Some(key) => self.asking(EffectModel::DiscardDraft { key }).status(
                    "Draft discarded."@,
                ),
                None => self,
            },
            None => self,
        }
    }

    /// The rows of the list of drafts on top, read again.
    pub open spec fn drafts_refreshed(self, rows: Seq<DraftRow>) -> AppModel {
        match self.top() {
            Some(ScreenModel::Drafts(d)) => self.with_screen(
                self.screens.len() - 1,
                ScreenModel::Drafts(DraftsModel { sel: within(d.sel, rows.len()), rows }),
            ),
            _ => self,
        }
    }

    /// An editor on a post, holding what is there now, the caret at its start.
    pub open spec fn edit_begun(self, thread: Thread, post: Post) -> AppModel {
        self.pushed(
            ScreenModel::Compose(
                ComposeModel {
                    target: Some(
                        ComposeTarget::EditPost {
                            post_id: post.post_id,
                            thread_id: thread.thread_id,
                            thread_title: thread.title,
                        },
                    ),
                    author: self.my_name(),
                    body: post.message@,
                    ..ComposeModel::initial()
                },
            ),
        )
    }

    /// The form for a conversation; with a recipient it starts at the title.
    pub open spec fn new_conversation_begun(self, recipient: Option<Seq<char>>) -> AppModel {
        let nc = NewConversationModel::initial();
        self.pushed(
            ScreenModel::NewConversation(
                match recipient {
                    Some(r) => NewConversationModel {
                        recipients: r + ", "@,
                        recipients_cursor: (r + ", "@).len() as usize,
                        field: 1,
                        ..nc
                    },
                    None => nc,
                },
            ),
        )
    }

    /// What the topmost draft with uploads filed them under.
    pub open spec fn attachment_key(self) -> Option<Seq<char>> {
        match topmost(self.screens, Wanted::UploadComposer) {
            Some(i) => self.screens[i]->Compose_0.attachment_key,
            None => None,
        }
    }

    pub open spec fn uploading(self, path: Seq<char>, context: AttachContext) -> AppModel {
        let key = self.attachment_key();
        let a = match self.top() {
            Some(ScreenModel::Compose(c)) => self.with_screen(
                self.screens.len() - 1,
                ScreenModel::Compose(ComposeModel { uploading: true, error: None, ..c }),
            ),
            _ => self,
        };
        a.asking(EffectModel::Upload { path, context, key })
    }

    pub open spec fn resolving(self, names: Seq<String>) -> AppModel {
        AppModel { effects: self.effects + lookups(names), ..self }
    }

    /// The text that a paste takes: the client's own, else the system's.
    pub open spec fn clipboard_text(self, system: Option<Seq<char>>) -> Seq<char> {
        if self.clipboard.len() == 0 {
            system.unwrap_or(seq![])
        } else {
            self.clipboard
        }
    }

    pub open spec fn clipboard_pasted(self, system: Option<Seq<char>>) -> AppModel {
        let text = self.clipboard_text(system);
        if text.len() == 0 {
            self.status("Nothing copied yet — drag, double-click, or use system clipboard."@)
        } else {
            self.paste_begun(text)
        }
    }

    /// A place, an overlay, a composer or the clipboard.
    #[verifier::opaque]
    pub open spec fn place_opened(self, a: Action) -> AppModel {
        match a {
            Action::Nothing => self,
            Action::Notice(s) => self.status(s@),
            Action::PopScreen => if self.can_pop() {
                self.popped()
            } else {
                self
            },
            Action::Quit => AppModel { should_quit: true, ..self },
            Action::OpenThreadList(node_id, title) => self.node_opened(node_id, title@),
            Action::OpenLatestThreads => self.list_opened(0, "Latest posts"@),
            Action::OpenThread(thread) => self.thread_opened(thread),
            Action::OpenProfile(user_id, name) => self.profile_opened(user_id, name@),
            Action::OpenMemberContent { user_id, username, content } => self.member_content_opened(user_id, username@, content),
            Action::OpenConversation(conv) => self.conversation_opened(conv),
            Action::OpenMediaGallery => self.gallery_opened(),
            Action::OpenResources => self.resources_opened(),
            Action::OpenResource(id) => self.resource_opened(id),
            Action::OpenImage(url, title) => self.pushed(ScreenModel::ImageView(ImageViewModel { url: url@, title: title@ })),
            Action::PlayVideo { url, .. } => self.url_opened(url@),
            Action::OpenUrl(url) => self.url_opened(url@),
            Action::OscCopy(value) => self.copied(value@).status(
                "Copied to your clipboard (OSC 52 + system clipboard)."@,
            ),
            Action::LoginBegin => self.login_begun(),
            Action::OpenDrafts => self.asking(EffectModel::OpenDrafts),
            Action::ResumeDraft(key) => self.asking(EffectModel::ResumeDraft { key }),
            Action::DropDraft(key) => self.draft_dropped(key),
            Action::DiscardDraft => self.draft_discarded(),
            Action::StartReply(thread) => self.replying(thread, seq![]),
            Action::StartReplyQuoting(thread, quote) => self.replying(thread, quote@),
            Action::StartEditPost(thread, post) => self.edit_begun(thread, post),
            Action::StartReplyConversation(conv) => self.conversation_reply_begun(conv),
            Action::StartNewThread(node_id) => self.new_thread_begun(node_id),
            Action::StartNewConversation(recipient) => self.new_conversation_begun(opt_text(recipient)),
            _ => self,
        }
    }

    /// A fetch, or a mark that something was read.
    #[verifier::opaque]
    pub open spec fn load_asked(self, a: Action) -> AppModel {
        match a {
            Action::LoadForum(node_id, page) => self.forum_loading(node_id, page),
            Action::LoadThread(id, page) => self.asking(EffectModel::LoadThread { id, page }),
            Action::LoadConversations(page) => self.asking(EffectModel::LoadConversations { page }),
            Action::LoadConversation(id, page) => self.asking(
                EffectModel::LoadConversation { id, page, mark_read: true },
            ),
            Action::LoadAlerts => self.asking(EffectModel::LoadAlerts),
            Action::LoadNodes => self.nodes_reloading(),
            Action::RunSearchQuery(query) => self.searching(query),
            Action::LoadMedia { category, page } => self.asking(EffectModel::LoadMedia { category, page }),
            Action::LoadMediaCategories => self.asking(EffectModel::LoadMediaCategories),
            Action::LoadResources(page) => self.asking(EffectModel::LoadResources { page }),
            Action::LoadResource(id) => self.asking(EffectModel::LoadResource { id }),
            Action::LoadMemberContent { user_id, content, page } => self.member_content_loading(
                user_id,
                content,
                page,
            ),
            Action::MarkThreadRead(id) => self.asking(EffectModel::MarkThreadRead { id, date: None }),
            Action::MarkForumRead(node_id) => self.asking(EffectModel::MarkForumRead { node_id }),
            Action::MarkAlertRead(id) => self.asking(EffectModel::MarkAlertRead { id }),
            Action::MarkConversationRead(id) => self.asking(
                EffectModel::MarkConversationRead { id, report: true },
            ),
            _ => self,
        }
    }

    /// A write, in the session's name.
    #[verifier::opaque]
    pub open spec fn write_asked(self, a: Action) -> AppModel {
        match a {
            Action::ReactPost(post_id) => self.asking(EffectModel::ReactPost { post_id }),
            Action::VotePost(post_id, vote_type) => self.asking(
                EffectModel::VotePost {
                    post_id,
                    vote_type: vote_type@,
                    verb: PostVerb::of_vote_type(vote_type@),
                },
            ),
            Action::UploadAttachment { path, context } => self.uploading(path@, context),
            Action::SubmitEdit { post_id, message } => self.asking(
                EffectModel::SubmitEdit {
                    post_id,
                    message: message@,
                    key: self.attachment_key(),
                },
            ),
            Action::DeletePost { post_id, thread_id } => self.asking(
                EffectModel::DeletePost { post_id, thread_id },
            ),
            Action::MarkSolution { post_id, thread_id } => self.asking(
                EffectModel::MarkSolution { post_id, thread_id },
            ),
            Action::SubmitReply { thread_id, message } => self.asking(
                EffectModel::SubmitReply {
                    thread_id,
                    message: message@,
                    key: self.attachment_key(),
                },
            ),
            Action::SubmitThread { node_id, title, message } => self.asking(
                EffectModel::SubmitThread {
                    node_id,
                    title: title@,
                    message: message@,
                    key: self.attachment_key(),
                },
            ),
            Action::SubmitConvoReply { id, message } => self.asking(
                EffectModel::SubmitConvoReply { id, message: message@ },
            ),
            Action::ResolveRecipients(names) => self.resolving(names@),
            _ => self,
        }
    }

    /// What an action does.
    pub open spec fn acted(self, a: Action) -> AppModel {
        match a {
            Action::PasteClipboard(system) => self.clipboard_pasted(opt_text(system)),
            _ => if a.loads() {
                self.load_asked(a)
            } else if a.writes() {
                self.write_asked(a)
            } else {
                self.place_opened(a)
            },
        }
    }

    /// What an action leaves to be put into a field.
    pub open spec fn acted_paste(self, a: Action) -> Option<PasteModel> {
        match a {
            Action::PasteClipboard(system) => {
                let text = self.clipboard_text(opt_text(system));
                if text.len() == 0 {
                    None
                } else {
                    match self.paste_form(text) {
                        Some(raw) => Some(PasteModel { raw, count: text.len() as usize }),
                        None => None,
                    }
                }
            },
            _ => None,
        }
    }
}

impl App {
    fn place(&self, node_id: u32, title: String) -> (r: Place)
        ensures
            r@ == self@.place_of(node_id, title@),
    {
        if let Some(t) = self.tree() {
            if let Some(i) = find_node(&t.nodes, NodeWanted::Id(node_id)) {
                let node = &t.nodes[i];
                if same_text(node.node_type.as_str(), "Category") {
                    if let Some(k) = find_node(
                        &t.nodes,
                        NodeWanted::ForumUnder(node.node_id, node.depth),
                    ) {
                        return Place::List(t.nodes[k].node_id, t.nodes[k].title.clone());
                    }
                } else if same_text(node.node_type.as_str(), "LinkForum") || same_text(
                    node.node_type.as_str(),
                    "Page",
                ) {
                    if let Some(url) = &node.view_url {
                        return Place::Url(url.clone());
                    }
                }
            }
        }
        Place::List(node_id, title)
    }

    /// Open a node of the tree.
    pub fn open_node(&mut self, node_id: u32, title: String)
        ensures
            final(self)@ == old(self)@.node_opened(node_id, title@),
    {
        match self.place(node_id, title) {
            Place::Url(url) => self.open_url(url.as_str()),
            Place::List(id, title) => self.open_list(id, title),
        }
    }

    pub fn load_member_content(&mut self, user_id: u32, content: String, page: u32)
        ensures
            final(self)@ == old(self)@.member_content_loading(user_id, content, page),
    {
        self.set_hint("Searching…".to_owned());
        let generation: u64 = self.begin_search_load();
        self.ask(Effect::SearchMember { generation, user_id, content, page });
    }

    fn open_member_content(&mut self, user_id: u32, username: String, content: String)
        ensures
            final(self)@ == old(self)@.member_content_opened(user_id, username@, content),
    {
        let mut notice = glue3("Searching ", username.as_str(), "'s ");
        notice.append(content.as_str());
        notice.append("…");
        let mut query = glue3("by: ", username.as_str(), " (");
        query.append(content.as_str());
        query.append(")");
        let mut s = SearchState::default();
        s.query = query;
        s.loading = true;
        s.content_type = if same_text(content.as_str(), "post") {
            2
        } else {
            1
        };
        s.member = Some((user_id, content.clone()));
        self.push_screen(Screen::Search(s));
        self.load_member_content(user_id, content, 1);
        self.set_hint(notice);
    }

    pub fn run_search_query(&mut self, query: SearchQuery)
        ensures
            final(self)@ == old(self)@.searching(query),
    {
        let generation: u64 = self.begin_search_load();
        self.set_hint("Searching…".to_owned());
        self.ask(Effect::Search { generation, query });
    }

    pub fn load_media(&mut self, category: Option<u32>, page: u32)
        ensures
            final(self)@ == old(self)@.asking(EffectModel::LoadMedia { category, page }),
    {
        self.ask(Effect::LoadMedia { category, page });
    }

    pub fn load_media_categories(&mut self)
        ensures
            final(self)@ == old(self)@.asking(EffectModel::LoadMediaCategories),
    {
        self.ask(Effect::LoadMediaCategories);
    }

    pub fn load_resources(&mut self, page: u32)
        ensures
            final(self)@ == old(self)@.asking(EffectModel::LoadResources { page }),
    {
        self.ask(Effect::LoadResources { page });
    }

    pub fn load_resource(&mut self, id: u32)
        ensures
            final(self)@ == old(self)@.asking(EffectModel::LoadResource { id }),
    {
        self.ask(Effect::LoadResource { id });
    }

    pub fn mark_alert_read(&mut self, id: u32)
        ensures
            final(self)@ == old(self)@.asking(EffectModel::MarkAlertRead { id }),
    {
        self.ask(Effect::MarkAlertRead { id });
    }

    pub fn mark_conversation_read(&mut self, id: u32)
        ensures
            final(self)@ == old(self)@.asking(
                EffectModel::MarkConversationRead { id, report: true },
            ),
    {
        self.ask(Effect::MarkConversationRead { id, report: true });
    }

    pub(crate) fn open_gallery(&mut self)
        ensures
            final(self)@ == old(self)@.gallery_opened(),
    {
        let mut m = MediaListState::default();
        m.page = 1;
        m.loading = true;
        m.category_title = "All media".to_owned();
        self.push_screen(Screen::MediaGallery(m));
        self.load_media(None, 1);
        self.load_media_categories();
    }

    pub(crate) fn open_resources(&mut self)
        ensures
            final(self)@ == old(self)@.resources_opened(),
    {
        let mut r = ResourceListState::default();
        r.page = 1;
        r.loading = true;
        self.push_screen(Screen::Resources(r));
        self.load_resources(1);
    }

    fn open_resource(&mut self, id: u32)
        ensures
            final(self)@ == old(self)@.resource_opened(id),
    {
        let mut r = ResourceViewState::default();
        r.id = id;
        r.loading = true;
        self.push_screen(Screen::ResourceView(r));
        self.load_resource(id);
    }

    fn reload_nodes(&mut self)
        ensures
            final(self)@ == old(self)@.nodes_reloading(),
    {
        if let Some(tree) = self.tree_mut() {
            tree.loading = true;
            tree.error = None;
        }
        self.load_nodes();
    }

    fn drop_draft(&mut self, key: DraftKey)
        ensures
            final(self)@ == old(self)@.draft_dropped(key),
    {
        self.ask(Effect::DiscardDraft { key });
        self.set_status("Draft deleted.".to_owned());
        let listed = match self.top() {
            Some(Screen::Drafts(_)) => true,
            _ => false,
        };
        if listed {
            self.ask(Effect::RefreshDrafts);
        }
    }

    fn discard_open_draft(&mut self)
        ensures
            final(self)@ == old(self)@.draft_discarded(),
    {
        let key = match self.top() {
            Some(s) => s.draft_key(),
            None => None,
        };
        if let Some(key) = key {
            self.ask(Effect::DiscardDraft { key });
            self.set_status("Draft discarded.".to_owned());
        }
    }

    /// The saved drafts were read again.
    pub fn refresh_drafts(&mut self, rows: Vec<DraftRow>)
        ensures
            final(self)@ == old(self)@.drafts_refreshed(rows@),
    {
        if let Some(d) = self.drafts_top() {
            d.sel = clamp_selection(d.sel, rows.len());
            d.rows = rows;
        }
    }

    fn edit_post(&mut self, thread: Thread, post: Post)
        ensures
            final(self)@ == old(self)@.edit_begun(thread, post),
    {
        let mut c = ComposeState::default();
        c.target = Some(
            ComposeTarget::EditPost {
                post_id: post.post_id,
                thread_id: thread.thread_id,
                thread_title: thread.title,
            },
        );
        c.author = self.me_name();
        c.body = post.message;
        self.push_screen(Screen::Compose(c));
    }

    fn new_conversation(&mut self, recipient: Option<String>)
        ensures
            final(self)@ == old(self)@.new_conversation_begun(opt_text(recipient)),
    {
        let mut nc = NewConversationState::default();
        if let Some(r) = recipient {
            nc.recipients = glue(r.as_str(), ", ");
            nc.recipients_cursor = nc.recipients.as_str().unicode_len();
            nc.field = 1;
        }
        self.push_screen(Screen::NewConversation(nc));
    }

    /// What the topmost draft with uploads filed them under.
    pub fn compose_attachment_key(&self) -> (r: Option<String>)
        ensures
            opt_text(r) == self@.attachment_key(),
    {
        match find(&self.screens, Wanted::UploadComposer) {
            Some(i) => match &self.screens[i] {
                Screen::Compose(c) => match &c.attachment_key {
                    Some(key) => Some(key.clone()),
                    None => None,
                },
                _ => None,
            },
            None => None,
        }
    }

    fn upload(&mut self, path: String, context: AttachContext)
        ensures
            final(self)@ == old(self)@.uploading(path@, context),
    {
        let key = self.compose_attachment_key();
        if let Some(c) = self.compose_top() {
            c.uploading = true;
            c.error = None;
        }
        self.ask(Effect::Upload { path, context, key });
    }

    fn resolve_recipients(&mut self, names: Vec<String>)
        ensures
            final(self)@ == old(self)@.resolving(names@),
    {
        let ghost before = self@;
        for i in 0..names.len()
            invariant
                self@ == (AppModel {
                    effects: before.effects + lookups(names@).take(i as int),
                    ..before
                }),
        {
            self.ask(Effect::FindRecipient { name: names[i].clone() });
            assert(self@.effects =~= before.effects + lookups(names@).take(i + 1));
        }
        assert(lookups(names@).take(names@.len() as int) =~= lookups(names@));
    }

    fn paste_clipboard(&mut self, system: Option<String>) -> (r: Option<Paste>)
        ensures
            final(self)@ == old(self)@.clipboard_pasted(opt_text(system)),
            opt_paste(r) == old(self)@.acted_paste(Action::PasteClipboard(system)),
    {
        let text = if self.clipboard.as_str().unicode_len() == 0 {
            match system {
                Some(s) => s,
                None => String::new(),
            }
        } else {
            self.clipboard.clone()
        };
        if text.as_str().unicode_len() == 0 {
            self.set_status(
                "Nothing copied yet — drag, double-click, or use system clipboard.".to_owned(),
            );
            return None;
        }
        self.handle_paste(text)
    }

    fn open_place(&mut self, action: Action)
        ensures
            final(self)@ == old(self)@.place_opened(action),
    {
        proof {
            reveal(AppModel::place_opened);
        }
        match action {
            Action::Nothing => {},
            Action::Notice(s) => self.set_status(s),
            Action::PopScreen => {
                self.pop_screen();
            },
            Action::Quit => {
                self.should_quit = true;
            },
            Action::OpenThreadList(node_id, title) => self.open_node(node_id, title),
            Action::OpenLatestThreads => self.open_list(0, "Latest posts".to_owned()),
            Action::OpenThread(thread) => self.open_thread(&thread),
            Action::OpenProfile(user_id, name) => self.open_profile(user_id, name.as_str()),
            Action::OpenMemberContent { user_id, username, content } => self.open_member_content(user_id, username, content),
            Action::OpenConversation(conv) => self.open_conversation(conv),
            Action::OpenMediaGallery => self.open_gallery(),
            Action::OpenResources => self.open_resources(),
            Action::OpenResource(id) => self.open_resource(id),
            Action::OpenImage(url, title) => self.push_screen(Screen::ImageView(ImageViewState { url, title })),
            Action::PlayVideo { url, .. } => self.open_url(url.as_str()),
            Action::OpenUrl(url) => self.open_url(url.as_str()),
            Action::OscCopy(value) => {
                self.copy_text(value.as_str());
                self.set_status(
                    "Copied to your clipboard (OSC 52 + system clipboard).".to_owned(),
                );
            },
            Action::LoginBegin => self.begin_login(),
            Action::OpenDrafts => self.ask(Effect::OpenDrafts),
            Action::ResumeDraft(key) => self.ask(Effect::ResumeDraft { key }),
            Action::DropDraft(key) => self.drop_draft(key),
            Action::DiscardDraft => self.discard_open_draft(),
            Action::StartReply(thread) => self.reply_to_thread(&thread),
            Action::StartReplyQuoting(thread, quote) => self.reply_to_thread_with(&thread, quote),
            Action::StartEditPost(thread, post) => self.edit_post(thread, post),
            Action::StartReplyConversation(conv) => self.reply_to_conversation(&conv),
            Action::StartNewThread(node_id) => self.new_thread(node_id),
            Action::StartNewConversation(recipient) => self.new_conversation(recipient),
            _ => {},
        }
    }

    fn ask_load(&mut self, action: Action)
        ensures
            final(self)@ == old(self)@.load_asked(action),
    {
        proof {
            reveal(AppModel::load_asked);
        }
        match action {
            Action::LoadForum(node_id, page) => self.load_forum(node_id, page),
            Action::LoadThread(id, page) => self.load_thread(id, page),
            Action::LoadConversations(page) => self.load_conversations(page),
            Action::LoadConversation(id, page) => self.load_conversation(id, page, true),
            Action::LoadAlerts => self.load_alerts(),
            Action::LoadNodes => self.reload_nodes(),
            Action::RunSearchQuery(query) => self.run_search_query(query),
            Action::LoadMedia { category, page } => self.load_media(category, page),
            Action::LoadMediaCategories => self.load_media_categories(),
            Action::LoadResources(page) => self.load_resources(page),
            Action::LoadResource(id) => self.load_resource(id),
            Action::LoadMemberContent { user_id, content, page } => self.load_member_content(user_id, content, page),
            Action::MarkThreadRead(id) => self.mark_thread_read(id, None),
            Action::MarkForumRead(node_id) => self.ask(Effect::MarkForumRead { node_id }),
            Action::MarkAlertRead(id) => self.mark_alert_read(id),
            Action::MarkConversationRead(id) => self.mark_conversation_read(id),
            _ => {},
        }
    }

    fn ask_write(&mut self, action: Action)
        ensures
            final(self)@ == old(self)@.write_asked(action),
    {
        proof {
            reveal(AppModel::write_asked);
        }
        match action {
            Action::ReactPost(post_id) => self.ask(Effect::ReactPost { post_id }),
            Action::VotePost(post_id, vote_type) => {
                let verb = PostVerb::of_vote(vote_type.as_str());
                self.ask(Effect::VotePost { post_id, vote_type, verb });
            },
            Action::UploadAttachment { path, context } => self.upload(path, context),
            Action::SubmitEdit { post_id, message } => {
                let key = self.compose_attachment_key();
                self.ask(Effect::SubmitEdit { post_id, message, key });
            },
            Action::DeletePost { post_id, thread_id } => self.ask(Effect::DeletePost { post_id, thread_id }),
            Action::MarkSolution { post_id, thread_id } => self.ask(Effect::MarkSolution { post_id, thread_id }),
            Action::SubmitReply { thread_id, message } => {
                let key = self.compose_attachment_key();
                self.ask(Effect::SubmitReply { thread_id, message, key });
            },
            Action::SubmitThread { node_id, title, message } => {
                let key = self.compose_attachment_key();
                self.ask(Effect::SubmitThread { node_id, title, message, key });
            },
            Action::SubmitConvoReply { id, message } => self.ask(Effect::SubmitConvoReply { id, message }),
            Action::ResolveRecipients(names) => self.resolve_recipients(names),
            _ => {},
        }
    }

    /// Carry out what a screen asked for. A paste comes back to be put into
    /// its field.
    pub fn execute_action(&mut self, action: Action) -> (r: Option<Paste>)
        ensures
            final(self)@ == old(self)@.acted(action),
            opt_paste(r) == old(self)@.acted_paste(action),
    {
        match action {
            Action::PasteClipboard(system) => self.paste_clipboard(system),
            _ => {
                if action.is_load() {
                    self.ask_load(action);
                } else if action.is_write() {
                    self.ask_write(action);
                } else {
                    self.open_place(action);
                }
                None
            },
        }
    }
}

} // verus!
