//! The work that the client asks the front end to do. Every handler appends to
//! one list; the front end works it off in order and answers with messages.

use vstd::prelude::*;

use crate::models::SearchQuery;
use crate::msg::PostVerb;
use crate::screens::DraftKey;
use crate::text::opt_text;

verus! {

/// What an uploaded file belongs to.
#[derive(Debug, Clone, Copy, PartialEq, Eq, Structural)]
pub enum AttachContext {
    Thread(u32),
    Node(u32),
    Post(u32),
}

/// One piece of outside work.
#[allow(inconsistent_fields)]
#[derive(Debug)]
pub enum Effect {
    /// Ask who the stored session belongs to; answer with `Msg::Bootstrap`.
    RestoreSession { generation: u64 },
    /// Adopt what the token store holds now, then ask who it belongs to. Answer with exactly
    /// one `Msg::Bootstrap`; with nothing to adopt, a `NoToken` failure that says `reason`.
    RecheckStoredSession { generation: u64, reason: String },
    /// Start the alerts poller and the conversations poller.
    StartPollers,
    /// Abort both pollers.
    StopPollers,
    /// Count unread alerts and conversations once, now.
    PollUnread,
    /// Abort every write that is still waiting.
    AbortWrites,
    /// Run the sign-in flow.
    BeginLogin { generation: u64 },
    /// Abort the running sign-in flow.
    AbortLogin,
    /// Forget the tokens, then revoke them; answer with `Msg::LoggedOut`.
    Logout,
    /// Hand the sign-in link to the clipboard and to its file.
    SaveLoginUrl { url: String },
    /// Erase every saved draft.
    ClearDrafts,
    /// Fetch the site's drafts.
    SyncDrafts,
    /// Read the saved drafts and show them.
    OpenDrafts,
    /// Reopen a saved draft in its composer.
    ResumeDraft { key: DraftKey },
    /// Erase one saved draft.
    DiscardDraft { key: DraftKey },
    /// Read the saved drafts again, for the list on top.
    RefreshDrafts,
    LoadNodes,
    /// One page of a forum, or of the latest posts for node 0.
    LoadForumPage { node_id: u32, page: u32, append: bool, seq: u64 },
    LoadThread { id: u32, page: u32 },
    LoadConversations { page: u32 },
    LoadConversation { id: u32, page: u32, mark_read: bool },
    LoadAlerts,
    LoadMedia { category: Option<u32>, page: u32 },
    LoadMediaCategories,
    LoadResources { page: u32 },
    LoadResource { id: u32 },
    /// Resolve the name first where `user_id` is 0.
    LoadProfile { generation: u64, user_id: u32, name: String },
    Search { generation: u64, query: SearchQuery },
    SearchMember { generation: u64, user_id: u32, content: String, page: u32 },
    FindRecipient { name: String },
    FindPaletteMember { query: String },
    MarkThreadRead { id: u32, date: Option<i64> },
    MarkForumRead { node_id: u32 },
    MarkAlertRead { id: u32 },
    /// `report` asks for a `Msg::ConversationMarked`.
    MarkConversationRead { id: u32, report: bool },
    ReactPost { post_id: u32 },
    VotePost { post_id: u32, vote_type: String, verb: PostVerb },
    SubmitReply { thread_id: u32, message: String, key: Option<String> },
    SubmitThread { node_id: u32, title: String, message: String, key: Option<String> },
    SubmitConvoReply { id: u32, message: String },
    SubmitEdit { post_id: u32, message: String, key: Option<String> },
    DeletePost { post_id: u32, thread_id: u32 },
    MarkSolution { post_id: u32, thread_id: u32 },
    CreateConversation { ids: Vec<u32>, title: String, body: String },
    Upload { path: String, context: AttachContext, key: Option<String> },
    /// Put a text on the terminal's and the system's clipboard.
    CopyText { text: String },
    OpenBrowser { url: String },
    /// Name the terminal window.
    SetTitle { title: String },
    /// Look for an update, after the start-up delay where `delayed`.
    CheckUpdate { generation: u64, forced: bool, delayed: bool },
    AbortUpdateCheck,
}

#[allow(inconsistent_fields)]
#[verifier::ext_equal]
pub enum EffectModel {
    RestoreSession { generation: u64 },
    RecheckStoredSession { generation: u64, reason: Seq<char> },
    StartPollers,
    StopPollers,
    PollUnread,
    AbortWrites,
    BeginLogin { generation: u64 },
    AbortLogin,
    Logout,
    SaveLoginUrl { url: Seq<char> },
    ClearDrafts,
    SyncDrafts,
    OpenDrafts,
    ResumeDraft { key: DraftKey },
    DiscardDraft { key: DraftKey },
    RefreshDrafts,
    LoadNodes,
    LoadForumPage { node_id: u32, page: u32, append: bool, seq: u64 },
    LoadThread { id: u32, page: u32 },
    LoadConversations { page: u32 },
    LoadConversation { id: u32, page: u32, mark_read: bool },
    LoadAlerts,
    LoadMedia { category: Option<u32>, page: u32 },
    LoadMediaCategories,
    LoadResources { page: u32 },
    LoadResource { id: u32 },
    LoadProfile { generation: u64, user_id: u32, name: Seq<char> },
    Search { generation: u64, query: SearchQuery },
    SearchMember { generation: u64, user_id: u32, content: Seq<char>, page: u32 },
    FindRecipient { name: Seq<char> },
    FindPaletteMember { query: Seq<char> },
    MarkThreadRead { id: u32, date: Option<i64> },
    MarkForumRead { node_id: u32 },
    MarkAlertRead { id: u32 },
    MarkConversationRead { id: u32, report: bool },
    ReactPost { post_id: u32 },
    VotePost { post_id: u32, vote_type: Seq<char>, verb: PostVerb },
    SubmitReply { thread_id: u32, message: Seq<char>, key: Option<Seq<char>> },
    SubmitThread { node_id: u32, title: Seq<char>, message: Seq<char>, key: Option<Seq<char>> },
    SubmitConvoReply { id: u32, message: Seq<char> },
    SubmitEdit { post_id: u32, message: Seq<char>, key: Option<Seq<char>> },
    DeletePost { post_id: u32, thread_id: u32 },
    MarkSolution { post_id: u32, thread_id: u32 },
    CreateConversation { ids: Seq<u32>, title: Seq<char>, body: Seq<char> },
    Upload { path: Seq<char>, context: AttachContext, key: Option<Seq<char>> },
    CopyText { text: Seq<char> },
    OpenBrowser { url: Seq<char> },
    SetTitle { title: Seq<char> },
    CheckUpdate { generation: u64, forced: bool, delayed: bool },
    AbortUpdateCheck,
}

impl View for Effect {
    type V = EffectModel;

    open spec fn view(&self) -> EffectModel {
        match *self {
            Effect::RestoreSession { generation } => EffectModel::RestoreSession { generation },
            Effect::RecheckStoredSession { generation, reason } => EffectModel::RecheckStoredSession { generation, reason: reason@ },
            Effect::StartPollers => EffectModel::StartPollers,
            Effect::StopPollers => EffectModel::StopPollers,
            Effect::PollUnread => EffectModel::PollUnread,
            Effect::AbortWrites => EffectModel::AbortWrites,
            Effect::BeginLogin { generation } => EffectModel::BeginLogin { generation },
            Effect::AbortLogin => EffectModel::AbortLogin,
            Effect::Logout => EffectModel::Logout,
            Effect::SaveLoginUrl { url } => EffectModel::SaveLoginUrl { url: url@ },
            Effect::ClearDrafts => EffectModel::ClearDrafts,
            Effect::SyncDrafts => EffectModel::SyncDrafts,
            Effect::OpenDrafts => EffectModel::OpenDrafts,
            Effect::ResumeDraft { key } => EffectModel::ResumeDraft { key },
            Effect::DiscardDraft { key } => EffectModel::DiscardDraft { key },
            Effect::RefreshDrafts => EffectModel::RefreshDrafts,
            Effect::LoadNodes => EffectModel::LoadNodes,
            Effect::LoadForumPage { node_id, page, append, seq } => EffectModel::LoadForumPage { node_id, page, append, seq },
            Effect::LoadThread { id, page } => EffectModel::LoadThread { id, page },
            Effect::LoadConversations { page } => EffectModel::LoadConversations { page },
            Effect::LoadConversation { id, page, mark_read } => EffectModel::LoadConversation { id, page, mark_read },
            Effect::LoadAlerts => EffectModel::LoadAlerts,
            Effect::LoadMedia { category, page } => EffectModel::LoadMedia { category, page },
            Effect::LoadMediaCategories => EffectModel::LoadMediaCategories,
            Effect::LoadResources { page } => EffectModel::LoadResources { page },
            Effect::LoadResource { id } => EffectModel::LoadResource { id },
            Effect::LoadProfile { generation, user_id, name } => EffectModel::LoadProfile { generation, user_id, name: name@ },
            Effect::Search { generation, query } => EffectModel::Search { generation, query },
            Effect::SearchMember { generation, user_id, content, page } => EffectModel::SearchMember { generation, user_id, content: content@, page },
            Effect::FindRecipient { name } => EffectModel::FindRecipient { name: name@ },
            Effect::FindPaletteMember { query } => EffectModel::FindPaletteMember { query: query@ },
            Effect::MarkThreadRead { id, date } => EffectModel::MarkThreadRead { id, date },
            Effect::MarkForumRead { node_id } => EffectModel::MarkForumRead { node_id },
            Effect::MarkAlertRead { id } => EffectModel::MarkAlertRead { id },
            Effect::MarkConversationRead { id, report } => EffectModel::MarkConversationRead { id, report },
            Effect::ReactPost { post_id } => EffectModel::ReactPost { post_id },
            Effect::VotePost { post_id, vote_type, verb } => EffectModel::VotePost { post_id, vote_type: vote_type@, verb },
            Effect::SubmitReply { thread_id, message, key } => EffectModel::SubmitReply { thread_id, message: message@, key: opt_text(key) },
            Effect::SubmitThread { node_id, title, message, key } => EffectModel::SubmitThread { node_id, title: title@, message: message@, key: opt_text(key) },
            Effect::SubmitConvoReply { id, message } => EffectModel::SubmitConvoReply { id, message: message@ },
            Effect::SubmitEdit { post_id, message, key } => EffectModel::SubmitEdit { post_id, message: message@, key: opt_text(key) },
            Effect::DeletePost { post_id, thread_id } => EffectModel::DeletePost { post_id, thread_id },
            Effect::MarkSolution { post_id, thread_id } => EffectModel::MarkSolution { post_id, thread_id },
            Effect::CreateConversation { ids, title, body } => EffectModel::CreateConversation { ids: ids@, title: title@, body: body@ },
            Effect::Upload { path, context, key } => EffectModel::Upload { path: path@, context, key: opt_text(key) },
            Effect::CopyText { text } => EffectModel::CopyText { text: text@ },
            Effect::OpenBrowser { url } => EffectModel::OpenBrowser { url: url@ },
            Effect::SetTitle { title } => EffectModel::SetTitle { title: title@ },
            Effect::CheckUpdate { generation, forced, delayed } => EffectModel::CheckUpdate { generation, forced, delayed },
            Effect::AbortUpdateCheck => EffectModel::AbortUpdateCheck,
        }
    }
}

impl EffectModel {
    /// A mutation on the site that belongs to the session that started it.
    pub open spec fn is_write(self) -> bool {
        ||| self is ReactPost
        ||| self is VotePost
        ||| self is SubmitReply
        ||| self is SubmitThread
        ||| self is SubmitConvoReply
        ||| self is SubmitEdit
        ||| self is DeletePost
        ||| self is MarkSolution
        ||| self is CreateConversation
        ||| self is Upload
    }
}

/// The models of a list of effects.
pub open spec fn effects_of(v: Seq<Effect>) -> Seq<EffectModel> {
    v.map_values(|e: Effect| e@)
}

} // verus!
