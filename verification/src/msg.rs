//! The messages that background work sends back, and the session failures that
//! hide in them.

use vstd::prelude::*;

use crate::errors::{TaskError, TaskErrorKind, TaskErrorView};
use crate::models::{
    AlertsReply, Attachment, Conversation, ConversationReply, ConversationsReply, ForumReply,
    MediaCategoriesReply, MediaListReply, Node, Post, ResourceListReply, ResourceReply,
    SearchResultsReply, Thread, ThreadReply, Toggle, User,
};
use crate::text::{lower, lowered, same_text};
use crate::update::Outcome;

verus! {

/// Which toggle a `Msg::PostToggled` answers.
#[derive(Debug, Clone, Copy, PartialEq, Eq, Structural)]
pub enum PostVerb {
    Like,
    VoteUp,
    VoteDown,
}

impl PostVerb {
    pub open spec fn of_vote_type(vote_type: Seq<char>) -> PostVerb {
        if lowered(vote_type) == "down"@ {
            PostVerb::VoteDown
        } else {
            PostVerb::VoteUp
        }
    }

    pub open spec fn notice_text(self, toggle: Toggle) -> Seq<char> {
        match (self, toggle) {
            (PostVerb::Like, Toggle::Inserted) => "Post liked."@,
            (PostVerb::Like, Toggle::Removed) => "Like removed."@,
            (PostVerb::VoteUp, Toggle::Inserted) => "Voted up."@,
            (PostVerb::VoteDown, Toggle::Inserted) => "Voted down."@,
            (_, Toggle::Removed) => "Vote removed."@,
        }
    }

    pub open spec fn failure_text(self) -> Seq<char> {
        match self {
            PostVerb::Like => "Like failed"@,
            _ => "Vote failed"@,
        }
    }

    /// The toggle that a vote of this type is.
    pub fn of_vote(vote_type: &str) -> (r: PostVerb)
        ensures
            r == PostVerb::of_vote_type(vote_type@),
    {
        let down = lower(vote_type);
        if same_text(down.as_str(), "down") {
            PostVerb::VoteDown
        } else {
            PostVerb::VoteUp
        }
    }

    /// The status line for an outcome. "liked" is never claimed for an unlike.
    pub fn notice(self, toggle: Toggle) -> (r: &'static str)
        ensures
            r@ == self.notice_text(toggle),
    {
        match toggle {
            Toggle::Inserted => match self {
                PostVerb::Like => "Post liked.",
                PostVerb::VoteUp => "Voted up.",
                PostVerb::VoteDown => "Voted down.",
            },
            Toggle::Removed => match self {
                PostVerb::Like => "Like removed.",
                _ => "Vote removed.",
            },
        }
    }

    /// The status line when the call itself failed.
    pub fn failure(self) -> (r: &'static str)
        ensures
            r@ == self.failure_text(),
    {
        match self {
            PostVerb::Like => "Like failed",
            _ => "Vote failed",
        }
    }
}

/// What background work reports.
#[allow(inconsistent_fields)]
#[derive(Debug)]
pub enum Msg {
    /// The stored-session check came back. `generation` is the one it was started under; a
    /// check from a session that has since ended is dropped.
    Bootstrap { generation: u64, result: Result<User, TaskError> },
    /// A poller found that the session itself is over.
    SessionLost(TaskError),
    /// A sign-in link is ready.
    LoginReady { generation: u64, url: String },
    /// The sign-in flow gave up.
    LoginFailed { generation: u64, message: String },
    /// The sign-in flow finished.
    LoginComplete { generation: u64, result: Result<User, TaskError> },
    NodesLoaded(Result<Vec<Node>, TaskError>),
    /// A forum page came back. `append` marks a page that fills the pane; `seq` is the load it
    /// answers.
    ForumLoaded { node_id: u32, page: u32, append: bool, seq: u64, result: Result<ForumReply, TaskError> },
    ThreadLoaded { id: u32, page: u32, result: Result<ThreadReply, TaskError> },
    ReplySent(Result<Post, TaskError>),
    ThreadCreated(Result<Thread, TaskError>),
    MarkedRead(Result<(), TaskError>),
    ConversationsLoaded { page: u32, result: Result<ConversationsReply, TaskError> },
    /// A conversation page came back. `mark_read` says that the reader opened it.
    ConversationLoaded { id: u32, page: u32, mark_read: bool, result: Result<ConversationReply, TaskError> },
    ConvoReplySent(Result<(), TaskError>),
    ConvoCreated(Result<Conversation, TaskError>),
    ConversationMarked(u32, Result<(), TaskError>),
    /// One recipient's name was looked up.
    RecipientResolved { name: String, id: Result<Option<u32>, TaskError> },
    AlertsLoaded(Result<AlertsReply, TaskError>),
    AlertMarked(Result<(), TaskError>),
    MediaLoaded { page: u32, result: Result<MediaListReply, TaskError> },
    ResourceLoaded { page: u32, result: Result<ResourceListReply, TaskError> },
    MediaCategoriesLoaded(Result<MediaCategoriesReply, TaskError>),
    ResourceViewLoaded { id: u32, result: Result<ResourceReply, TaskError> },
    /// `generation` is the search it answers.
    SearchDone { generation: u64, page: u32, result: Result<SearchResultsReply, TaskError> },
    /// A member lookup of the palette came back, for the query that asked.
    PaletteMember { query: String, user: Option<User> },
    /// `generation` is the profile request it answers.
    ProfileLoaded { generation: u64, result: Result<User, TaskError> },
    LoggedOut(Result<(), String>),
    /// A like or a vote came back.
    PostToggled { verb: PostVerb, result: Result<Toggle, TaskError> },
    /// An upload came back, with the key it is filed under.
    AttachmentUploaded(Result<(String, Attachment), String>),
    PostEdited { post_id: u32, result: Result<(), TaskError> },
    PostDeleted { post_id: u32, thread_id: u32, result: Result<(), TaskError> },
    SolutionMarked { post_id: u32, thread_id: u32, result: Result<(), TaskError> },
    /// `generation` is the update check it answers.
    UpdateChecked { generation: u64, forced: bool, result: Result<Outcome, String> },
    /// A word for the status row, or one of the words `quit`, `alerts:n`, `convos:n`.
    Notice(String),
}

/// What a message says.
#[allow(inconsistent_fields)]
#[verifier::ext_equal]
pub enum MsgModel {
    Bootstrap { generation: u64, result: Result<User, TaskErrorView> },
    SessionLost(TaskErrorView),
    LoginReady { generation: u64, url: Seq<char> },
    LoginFailed { generation: u64, message: Seq<char> },
    LoginComplete { generation: u64, result: Result<User, TaskErrorView> },
    NodesLoaded(Result<Vec<Node>, TaskErrorView>),
    ForumLoaded { node_id: u32, page: u32, append: bool, seq: u64, result: Result<ForumReply, TaskErrorView> },
    ThreadLoaded { id: u32, page: u32, result: Result<ThreadReply, TaskErrorView> },
    ReplySent(Result<Post, TaskErrorView>),
    ThreadCreated(Result<Thread, TaskErrorView>),
    MarkedRead(Result<(), TaskErrorView>),
    ConversationsLoaded { page: u32, result: Result<ConversationsReply, TaskErrorView> },
    ConversationLoaded { id: u32, page: u32, mark_read: bool, result: Result<ConversationReply, TaskErrorView> },
    ConvoReplySent(Result<(), TaskErrorView>),
    ConvoCreated(Result<Conversation, TaskErrorView>),
    ConversationMarked(u32, Result<(), TaskErrorView>),
    RecipientResolved { name: Seq<char>, id: Result<Option<u32>, TaskErrorView> },
    AlertsLoaded(Result<AlertsReply, TaskErrorView>),
    AlertMarked(Result<(), TaskErrorView>),
    MediaLoaded { page: u32, result: Result<MediaListReply, TaskErrorView> },
    ResourceLoaded { page: u32, result: Result<ResourceListReply, TaskErrorView> },
    MediaCategoriesLoaded(Result<MediaCategoriesReply, TaskErrorView>),
    ResourceViewLoaded { id: u32, result: Result<ResourceReply, TaskErrorView> },
    SearchDone { generation: u64, page: u32, result: Result<SearchResultsReply, TaskErrorView> },
    PaletteMember { query: Seq<char>, user: Option<User> },
    ProfileLoaded { generation: u64, result: Result<User, TaskErrorView> },
    LoggedOut(Result<(), Seq<char>>),
    PostToggled { verb: PostVerb, result: Result<Toggle, TaskErrorView> },
    AttachmentUploaded(Result<(Seq<char>, Attachment), Seq<char>>),
    PostEdited { post_id: u32, result: Result<(), TaskErrorView> },
    PostDeleted { post_id: u32, thread_id: u32, result: Result<(), TaskErrorView> },
    SolutionMarked { post_id: u32, thread_id: u32, result: Result<(), TaskErrorView> },
    UpdateChecked { generation: u64, forced: bool, result: Result<Outcome, Seq<char>> },
    Notice(Seq<char>),
}

pub open spec fn outcome<T>(r: Result<T, TaskError>) -> Result<T, TaskErrorView> {
    match r {
        Ok(t) => Ok(t),
        Err(e) => Err(e@),
    }
}

pub open spec fn said(r: Result<(), String>) -> Result<(), Seq<char>> {
    match r {
        Ok(t) => Ok(t),
        Err(e) => Err(e@),
    }
}

pub open spec fn said_outcome(r: Result<Outcome, String>) -> Result<Outcome, Seq<char>> {
    match r {
        Ok(t) => Ok(t),
        Err(e) => Err(e@),
    }
}

pub open spec fn upload(r: Result<(String, Attachment), String>) -> Result<
    (Seq<char>, Attachment),
    Seq<char>,
> {
    match r {
        Ok((key, attachment)) => Ok((key@, attachment)),
        Err(e) => Err(e@),
    }
}

impl View for Msg {
    type V = MsgModel;

    open spec fn view(&self) -> MsgModel {
        match *self {
            Msg::Bootstrap { generation, result } => MsgModel::Bootstrap { generation, result: outcome(result) },
            Msg::SessionLost(e) => MsgModel::SessionLost(e@),
            Msg::LoginReady { generation, url } => MsgModel::LoginReady { generation, url: url@ },
            Msg::LoginFailed { generation, message } => MsgModel::LoginFailed { generation, message: message@ },
            Msg::LoginComplete { generation, result } => MsgModel::LoginComplete { generation, result: outcome(result) },
            Msg::NodesLoaded(result) => MsgModel::NodesLoaded(outcome(result)),
            Msg::ForumLoaded { node_id, page, append, seq, result } => MsgModel::ForumLoaded { node_id, page, append, seq, result: outcome(result) },
            Msg::ThreadLoaded { id, page, result } => MsgModel::ThreadLoaded { id, page, result: outcome(result) },
            Msg::ReplySent(result) => MsgModel::ReplySent(outcome(result)),
            Msg::ThreadCreated(result) => MsgModel::ThreadCreated(outcome(result)),
            Msg::MarkedRead(result) => MsgModel::MarkedRead(outcome(result)),
            Msg::ConversationsLoaded { page, result } => MsgModel::ConversationsLoaded { page, result: outcome(result) },
            Msg::ConversationLoaded { id, page, mark_read, result } => MsgModel::ConversationLoaded { id, page, mark_read, result: outcome(result) },
            Msg::ConvoReplySent(result) => MsgModel::ConvoReplySent(outcome(result)),
            Msg::ConvoCreated(result) => MsgModel::ConvoCreated(outcome(result)),
            Msg::ConversationMarked(id, result) => MsgModel::ConversationMarked(id, outcome(result)),
            Msg::RecipientResolved { name, id } => MsgModel::RecipientResolved { name: name@, id: outcome(id) },
            Msg::AlertsLoaded(result) => MsgModel::AlertsLoaded(outcome(result)),
            Msg::AlertMarked(result) => MsgModel::AlertMarked(outcome(result)),
            Msg::MediaLoaded { page, result } => MsgModel::MediaLoaded { page, result: outcome(result) },
            Msg::ResourceLoaded { page, result } => MsgModel::ResourceLoaded { page, result: outcome(result) },
            Msg::MediaCategoriesLoaded(result) => MsgModel::MediaCategoriesLoaded(outcome(result)),
            Msg::ResourceViewLoaded { id, result } => MsgModel::ResourceViewLoaded { id, result: outcome(result) },
            Msg::SearchDone { generation, page, result } => MsgModel::SearchDone { generation, page, result: outcome(result) },
            Msg::PaletteMember { query, user } => MsgModel::PaletteMember { query: query@, user },
            Msg::ProfileLoaded { generation, result } => MsgModel::ProfileLoaded { generation, result: outcome(result) },
            Msg::LoggedOut(result) => MsgModel::LoggedOut(said(result)),
            Msg::PostToggled { verb, result } => MsgModel::PostToggled { verb, result: outcome(result) },
            Msg::AttachmentUploaded(result) => MsgModel::AttachmentUploaded(upload(result)),
            Msg::PostEdited { post_id, result } => MsgModel::PostEdited { post_id, result: outcome(result) },
            Msg::PostDeleted { post_id, thread_id, result } => MsgModel::PostDeleted { post_id, thread_id, result: outcome(result) },
            Msg::SolutionMarked { post_id, thread_id, result } => MsgModel::SolutionMarked { post_id, thread_id, result: outcome(result) },
            Msg::UpdateChecked { generation, forced, result } => MsgModel::UpdateChecked { generation, forced, result: said_outcome(result) },
            Msg::Notice(text) => MsgModel::Notice(text@),
        }
    }
}

impl MsgModel {
    /// The failure of an API call that the message carries. A failed sign-in is
    /// not among them: it belongs to the sign-in screen.
    pub open spec fn api_failure(self) -> Option<TaskErrorView> {
        match self {
            MsgModel::Bootstrap { result: Err(e), .. } => Some(e),
            MsgModel::SessionLost(e) => Some(e),
            MsgModel::NodesLoaded(Err(e)) => Some(e),
            MsgModel::ForumLoaded { result: Err(e), .. } => Some(e),
            MsgModel::ThreadLoaded { result: Err(e), .. } => Some(e),
            MsgModel::ReplySent(Err(e)) => Some(e),
            MsgModel::ThreadCreated(Err(e)) => Some(e),
            MsgModel::MarkedRead(Err(e)) => Some(e),
            MsgModel::ConversationsLoaded { result: Err(e), .. } => Some(e),
            MsgModel::ConversationLoaded { result: Err(e), .. } => Some(e),
            MsgModel::ConvoReplySent(Err(e)) => Some(e),
            MsgModel::ConvoCreated(Err(e)) => Some(e),
            MsgModel::ConversationMarked(_, Err(e)) => Some(e),
            MsgModel::RecipientResolved { id: Err(e), .. } => Some(e),
            MsgModel::AlertsLoaded(Err(e)) => Some(e),
            MsgModel::AlertMarked(Err(e)) => Some(e),
            MsgModel::MediaLoaded { result: Err(e), .. } => Some(e),
            MsgModel::ResourceLoaded { result: Err(e), .. } => Some(e),
            MsgModel::MediaCategoriesLoaded(Err(e)) => Some(e),
            MsgModel::ResourceViewLoaded { result: Err(e), .. } => Some(e),
            MsgModel::SearchDone { result: Err(e), .. } => Some(e),
            MsgModel::ProfileLoaded { result: Err(e), .. } => Some(e),
            MsgModel::PostToggled { result: Err(e), .. } => Some(e),
            MsgModel::PostEdited { result: Err(e), .. } => Some(e),
            MsgModel::PostDeleted { result: Err(e), .. } => Some(e),
            MsgModel::SolutionMarked { result: Err(e), .. } => Some(e),
            _ => None,
        }
    }

    /// The failure by which the message says that the session is over. Only the
    /// bootstrap's answer can say so by a missing account.
    pub open spec fn session_error(self) -> Option<TaskErrorView> {
        match self.api_failure() {
            Some(e) => if e.ends_session() || (self is Bootstrap && e.is_account_gone()) {
                Some(e)
            } else {
                None
            },
            None => None,
        }
    }

    /// A page that was loaded.
    pub open spec fn is_page(self) -> bool {
        ||| self is NodesLoaded
        ||| self is ForumLoaded
        ||| self is ThreadLoaded
        ||| self is ConversationsLoaded
        ||| self is ConversationLoaded
        ||| self is AlertsLoaded
        ||| self is MediaLoaded
        ||| self is ResourceLoaded
        ||| self is MediaCategoriesLoaded
        ||| self is ResourceViewLoaded
        ||| self is SearchDone
        ||| self is ProfileLoaded
    }

    /// The outcome of something the reader did.
    pub open spec fn is_outcome(self) -> bool {
        ||| self is ReplySent
        ||| self is ThreadCreated
        ||| self is MarkedRead
        ||| self is ConvoReplySent
        ||| self is ConvoCreated
        ||| self is ConversationMarked
        ||| self is RecipientResolved
        ||| self is AlertMarked
        ||| self is PostToggled
        ||| self is AttachmentUploaded
        ||| self is PostEdited
        ||| self is PostDeleted
        ||| self is SolutionMarked
    }

    /// The same message, with the failure it carries reworded as retryable.
    pub open spec fn retryable(self) -> MsgModel {
        match self {
            MsgModel::Bootstrap { generation, result: Err(e) } => MsgModel::Bootstrap { generation, result: Err(e.retryable()) },
            MsgModel::SessionLost(e) => MsgModel::SessionLost(e.retryable()),
            MsgModel::NodesLoaded(Err(e)) => MsgModel::NodesLoaded(Err(e.retryable())),
            MsgModel::ForumLoaded { node_id, page, append, seq, result: Err(e) } => MsgModel::ForumLoaded { node_id, page, append, seq, result: Err(e.retryable()) },
            MsgModel::ThreadLoaded { id, page, result: Err(e) } => MsgModel::ThreadLoaded { id, page, result: Err(e.retryable()) },
            MsgModel::ReplySent(Err(e)) => MsgModel::ReplySent(Err(e.retryable())),
            MsgModel::ThreadCreated(Err(e)) => MsgModel::ThreadCreated(Err(e.retryable())),
            MsgModel::MarkedRead(Err(e)) => MsgModel::MarkedRead(Err(e.retryable())),
            MsgModel::ConversationsLoaded { page, result: Err(e) } => MsgModel::ConversationsLoaded { page, result: Err(e.retryable()) },
            MsgModel::ConversationLoaded { id, page, mark_read, result: Err(e) } => MsgModel::ConversationLoaded { id, page, mark_read, result: Err(e.retryable()) },
            MsgModel::ConvoReplySent(Err(e)) => MsgModel::ConvoReplySent(Err(e.retryable())),
            MsgModel::ConvoCreated(Err(e)) => MsgModel::ConvoCreated(Err(e.retryable())),
            MsgModel::ConversationMarked(id, Err(e)) => MsgModel::ConversationMarked(id, Err(e.retryable())),
            MsgModel::RecipientResolved { name, id: Err(e) } => MsgModel::RecipientResolved { name, id: Err(e.retryable()) },
            MsgModel::AlertsLoaded(Err(e)) => MsgModel::AlertsLoaded(Err(e.retryable())),
            MsgModel::AlertMarked(Err(e)) => MsgModel::AlertMarked(Err(e.retryable())),
            MsgModel::MediaLoaded { page, result: Err(e) } => MsgModel::MediaLoaded { page, result: Err(e.retryable()) },
            MsgModel::ResourceLoaded { page, result: Err(e) } => MsgModel::ResourceLoaded { page, result: Err(e.retryable()) },
            MsgModel::MediaCategoriesLoaded(Err(e)) => MsgModel::MediaCategoriesLoaded(Err(e.retryable())),
            MsgModel::ResourceViewLoaded { id, result: Err(e) } => MsgModel::ResourceViewLoaded { id, result: Err(e.retryable()) },
            MsgModel::SearchDone { generation, page, result: Err(e) } => MsgModel::SearchDone { generation, page, result: Err(e.retryable()) },
            MsgModel::ProfileLoaded { generation, result: Err(e) } => MsgModel::ProfileLoaded { generation, result: Err(e.retryable()) },
            MsgModel::PostToggled { verb, result: Err(e) } => MsgModel::PostToggled { verb, result: Err(e.retryable()) },
            MsgModel::PostEdited { post_id, result: Err(e) } => MsgModel::PostEdited { post_id, result: Err(e.retryable()) },
            MsgModel::PostDeleted { post_id, thread_id, result: Err(e) } => MsgModel::PostDeleted { post_id, thread_id, result: Err(e.retryable()) },
            MsgModel::SolutionMarked { post_id, thread_id, result: Err(e) } => MsgModel::SolutionMarked { post_id, thread_id, result: Err(e.retryable()) },
            _ => self,
        }
    }
}

impl Msg {
    pub(crate) fn is_page(&self) -> (r: bool)
        ensures
            r == self@.is_page(),
    {
        match self {
            Msg::NodesLoaded(..) => true,
            Msg::ForumLoaded { .. } => true,
            Msg::ThreadLoaded { .. } => true,
            Msg::ConversationsLoaded { .. } => true,
            Msg::ConversationLoaded { .. } => true,
            Msg::AlertsLoaded(..) => true,
            Msg::MediaLoaded { .. } => true,
            Msg::ResourceLoaded { .. } => true,
            Msg::MediaCategoriesLoaded(..) => true,
            Msg::ResourceViewLoaded { .. } => true,
            Msg::SearchDone { .. } => true,
            Msg::ProfileLoaded { .. } => true,
            _ => false,
        }
    }

    pub(crate) fn is_outcome(&self) -> (r: bool)
        ensures
            r == self@.is_outcome(),
    {
        match self {
            Msg::ReplySent(..) => true,
            Msg::ThreadCreated(..) => true,
            Msg::MarkedRead(..) => true,
            Msg::ConvoReplySent(..) => true,
            Msg::ConvoCreated(..) => true,
            Msg::ConversationMarked(..) => true,
            Msg::RecipientResolved { .. } => true,
            Msg::AlertMarked(..) => true,
            Msg::PostToggled { .. } => true,
            Msg::AttachmentUploaded(..) => true,
            Msg::PostEdited { .. } => true,
            Msg::PostDeleted { .. } => true,
            Msg::SolutionMarked { .. } => true,
            _ => false,
        }
    }
}

/// The failure of an API call that a message carries.
fn api_failure_of(msg: &Msg) -> (r: Option<&TaskError>)
    ensures
        match r {
            Some(e) => msg@.api_failure() == Some(e@),
            None => msg@.api_failure() is None,
        },
{
    match msg {
        Msg::Bootstrap { result: Err(e), .. } => Some(e),
        Msg::SessionLost(e) => Some(e),
        Msg::NodesLoaded(Err(e)) => Some(e),
        Msg::ForumLoaded { result: Err(e), .. } => Some(e),
        Msg::ThreadLoaded { result: Err(e), .. } => Some(e),
        Msg::ReplySent(Err(e)) => Some(e),
        Msg::ThreadCreated(Err(e)) => Some(e),
        Msg::MarkedRead(Err(e)) => Some(e),
        Msg::ConversationsLoaded { result: Err(e), .. } => Some(e),
        Msg::ConversationLoaded { result: Err(e), .. } => Some(e),
        Msg::ConvoReplySent(Err(e)) => Some(e),
        Msg::ConvoCreated(Err(e)) => Some(e),
        Msg::ConversationMarked(_, Err(e)) => Some(e),
        Msg::RecipientResolved { id: Err(e), .. } => Some(e),
        Msg::AlertsLoaded(Err(e)) => Some(e),
        Msg::AlertMarked(Err(e)) => Some(e),
        Msg::MediaLoaded { result: Err(e), .. } => Some(e),
        Msg::ResourceLoaded { result: Err(e), .. } => Some(e),
        Msg::MediaCategoriesLoaded(Err(e)) => Some(e),
        Msg::ResourceViewLoaded { result: Err(e), .. } => Some(e),
        Msg::SearchDone { result: Err(e), .. } => Some(e),
        Msg::ProfileLoaded { result: Err(e), .. } => Some(e),
        Msg::PostToggled { result: Err(e), .. } => Some(e),
        Msg::PostEdited { result: Err(e), .. } => Some(e),
        Msg::PostDeleted { result: Err(e), .. } => Some(e),
        Msg::SolutionMarked { result: Err(e), .. } => Some(e),
        _ => None,
    }
}

/// The session-ending failure a message carries, if it carries one.
pub fn session_error_of(msg: &Msg) -> (r: Option<&TaskError>)
    ensures
        match r {
            Some(e) => msg@.session_error() == Some(e@),
            None => msg@.session_error() is None,
        },
{
    let is_bootstrap = match msg {
        Msg::Bootstrap { .. } => true,
        _ => false,
    };
    match api_failure_of(msg) {
        Some(e) => {
            if e.ends_session() || (is_bootstrap && e.is_account_gone()) {
                Some(e)
            } else {
                None
            }
        },
        None => None,
    }
}

/// Reword the failure the session boundary used up, so that the message can
/// still go to the screen that waits for it.
pub fn mark_retryable(msg: &mut Msg)
    ensures
        final(msg)@ == old(msg)@.retryable(),
{
    match msg {
        Msg::Bootstrap { result: Err(e), .. } => e.make_retryable(),
        Msg::SessionLost(e) => e.make_retryable(),
        Msg::NodesLoaded(Err(e)) => e.make_retryable(),
        Msg::ForumLoaded { result: Err(e), .. } => e.make_retryable(),
        Msg::ThreadLoaded { result: Err(e), .. } => e.make_retryable(),
        Msg::ReplySent(Err(e)) => e.make_retryable(),
        Msg::ThreadCreated(Err(e)) => e.make_retryable(),
        Msg::MarkedRead(Err(e)) => e.make_retryable(),
        Msg::ConversationsLoaded { result: Err(e), .. } => e.make_retryable(),
        Msg::ConversationLoaded { result: Err(e), .. } => e.make_retryable(),
        Msg::ConvoReplySent(Err(e)) => e.make_retryable(),
        Msg::ConvoCreated(Err(e)) => e.make_retryable(),
        Msg::ConversationMarked(_, Err(e)) => e.make_retryable(),
        Msg::RecipientResolved { id: Err(e), .. } => e.make_retryable(),
        Msg::AlertsLoaded(Err(e)) => e.make_retryable(),
        Msg::AlertMarked(Err(e)) => e.make_retryable(),
        Msg::MediaLoaded { result: Err(e), .. } => e.make_retryable(),
        Msg::ResourceLoaded { result: Err(e), .. } => e.make_retryable(),
        Msg::MediaCategoriesLoaded(Err(e)) => e.make_retryable(),
        Msg::ResourceViewLoaded { result: Err(e), .. } => e.make_retryable(),
        Msg::SearchDone { result: Err(e), .. } => e.make_retryable(),
        Msg::ProfileLoaded { result: Err(e), .. } => e.make_retryable(),
        Msg::PostToggled { result: Err(e), .. } => e.make_retryable(),
        Msg::PostEdited { result: Err(e), .. } => e.make_retryable(),
        Msg::PostDeleted { result: Err(e), .. } => e.make_retryable(),
        Msg::SolutionMarked { result: Err(e), .. } => e.make_retryable(),
        _ => {},
    }
}

/// No message that the session boundary reworded can end a session again.
pub proof fn a_retryable_message_never_ends_the_session(m: MsgModel)
    ensures
        m.retryable().session_error() is None,
        m.retryable().retryable() == m.retryable(),
        m.api_failure() is None ==> m.retryable() == m,
{
}

/// Only the bootstrap's answer may end the session by a 403, and only with an
/// account-gone code.
pub proof fn a_refusal_ends_the_session_only_for_a_gone_account(m: MsgModel)
    requires
        m.session_error() matches Some(e) && e.kind == TaskErrorKind::Api(403),
    ensures
        m is Bootstrap,
        m.session_error()->0.is_account_gone(),
{
}

} // verus!
