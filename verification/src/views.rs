//! What the models say of the values they stand for: everything, and each thing in its
//! own place.

use vstd::prelude::*;

use crate::app::{screens_of, App};
use crate::effects::{effects_of, Effect, EffectModel};
use crate::errors::TaskError;
use crate::models::{Attachment, Conversation, Thread};
use crate::msg::{outcome, said, said_outcome, upload, Msg, MsgModel};
use crate::palette::{items_of, opt_palette, Item, Palette, Target, TargetModel};
use crate::paste::Paste;
use crate::screens::{
    opt_conversation, AlertsModel, AlertsState, ComposeModel, ComposeState, ConversationViewModel,
    ConversationViewState, ConversationsModel, ConversationsState, DraftsState, ForumTreeModel,
    ForumTreeState, HomeModel, HomeState, ImageViewState, InboxModel, InboxPane, InboxState,
    InboxTab, LoginModel, LoginStage, LoginState, MediaListModel, MediaListState,
    NewConversationModel, NewConversationState, Pane, ProfileModel, ProfileState,
    ResourceListModel, ResourceListState, ResourceViewModel, ResourceViewState, Screen,
    ScreenModel, SearchModel, SearchState, ThreadListModel, ThreadListState, ThreadViewModel,
    ThreadViewState,
};
use crate::text::{opt_text, texts};
use crate::update::{Outcome, UpdateModel, UpdateState, Updater};

verus! {

/// The models of a list are those of its elements, in their order.
pub proof fn a_list_is_seen_element_by_element(
    screens: Seq<Screen>,
    effects: Seq<Effect>,
    items: Seq<Item>,
    strings: Seq<String>,
    i: int,
)
    ensures
        screens_of(screens).len() == screens.len(),
        0 <= i < screens.len() ==> screens_of(screens)[i] == screens[i]@,
        effects_of(effects).len() == effects.len(),
        0 <= i < effects.len() ==> effects_of(effects)[i] == effects[i]@,
        items_of(items).len() == items.len(),
        0 <= i < items.len() ==> items_of(items)[i] == items[i]@,
        texts(strings).len() == strings.len(),
        0 <= i < strings.len() ==> texts(strings)[i] == strings[i]@,
{
}

/// What is there is seen, and what is not is not.
pub proof fn an_option_is_seen_as_it_is(s: String, v: ConversationViewState, p: Palette)
    ensures
        opt_text(Some(s)) == Some(s@) && opt_text(None) is None,
        opt_conversation(Some(v)) == Some(v@) && opt_conversation(None) is None,
        opt_palette(Some(p)) == Some(p@) && opt_palette(None) is None,
{
}

/// A success is seen with what it brought, and a failure with what it says.
pub proof fn a_result_is_seen_as_it_is<T>(
    t: T,
    e: TaskError,
    o: Outcome,
    key: String,
    a: Attachment,
    s: String,
)
    ensures
        outcome(Ok::<T, TaskError>(t)) == Ok::<T, crate::errors::TaskErrorView>(t),
        outcome(Err::<T, TaskError>(e)) == Err::<T, crate::errors::TaskErrorView>(e@),
        said(Ok(())) == Ok::<(), Seq<char>>(()) && said(Err(s)) == Err::<(), Seq<char>>(s@),
        said_outcome(Ok(o)) == Ok::<Outcome, Seq<char>>(o),
        said_outcome(Err(s)) == Err::<Outcome, Seq<char>>(s@),
        upload(Ok((key, a))) == Ok::<(Seq<char>, Attachment), Seq<char>>((key@, a)),
        upload(Err(s)) == Err::<(Seq<char>, Attachment), Seq<char>>(s@),
{
}

/// The model of a forum tree holds what it holds, each field its own.
pub proof fn a_forum_tree_is_seen_as_it_is(s: ForumTreeState)
    ensures
        s@.nodes == s.nodes@,
        s@.sel == s.sel,
        s@.loading == s.loading,
        s@.error == opt_text(s.error),
{
}

/// The model of a thread list holds what it holds, each field its own.
pub proof fn a_thread_list_is_seen_as_it_is(s: ThreadListState)
    ensures
        s@.node_id == s.node_id,
        s@.title == s.title@,
        s@.page == s.page,
        s@.last_page == s.last_page,
        s@.total == s.total,
        s@.per_page == s.per_page,
        s@.pages_loaded == s.pages_loaded,
        s@.threads == s.threads@,
        s@.sticky_count == s.sticky_count,
        s@.sel == s.sel,
        s@.visible == s.visible,
        s@.fill_budget == s.fill_budget,
        s@.load_seq == s.load_seq,
        s@.loading == s.loading,
        s@.error == opt_text(s.error),
{
}

/// The model of Home holds what it holds, each field its own.
pub proof fn home_is_seen_as_it_is(s: HomeState)
    ensures
        s@.tree == s.tree@,
        s@.list == s.list@,
        s@.focus == s.focus,
        s@.dual == s.dual,
{
}

/// The model of the sign-in holds what it holds, each field its own.
pub proof fn the_sign_in_is_seen_as_it_is(s: LoginState)
    ensures
        s@.busy == s.busy,
        s@.error == opt_text(s.error),
        s@.stage == s.stage,
        s@.url == s.url@,
{
}

/// The model of a thread holds what it holds, each field its own.
pub proof fn a_thread_is_seen_as_it_is(s: ThreadViewState)
    ensures
        s@.thread == s.thread,
        s@.forum_title == s.forum_title@,
        s@.posts == s.posts@,
        s@.page == s.page,
        s@.last_page == s.last_page,
        s@.total == s.total,
        s@.loading == s.loading,
        s@.error == opt_text(s.error),
        s@.sel_post == s.sel_post,
        s@.scroll == s.scroll,
        s@.link_popup == s.link_popup,
        s@.seen_date == s.seen_date,
        s@.reported_date == s.reported_date,
        s@.built == s.built,
{
}

/// The model of a composer holds what it holds, each field its own.
pub proof fn a_composer_is_seen_as_it_is(s: ComposeState)
    ensures
        s@.target == s.target,
        s@.title == s.title@,
        s@.title_cursor == s.title_cursor,
        s@.title_field == s.title_field,
        s@.body == s.body@,
        s@.body_cursor == s.body_cursor,
        s@.author == s.author@,
        s@.reply_number == s.reply_number,
        s@.busy == s.busy,
        s@.uploading == s.uploading,
        s@.attachment_key == opt_text(s.attachment_key),
        s@.attachments == s.attachments@,
        s@.error == opt_text(s.error),
{
}

/// The model of the list of conversations holds what it holds, each field its own.
pub proof fn the_conversations_are_seen_as_they_are(s: ConversationsState)
    ensures
        s@.conversations == s.conversations@,
        s@.page == s.page,
        s@.last_page == s.last_page,
        s@.total == s.total,
        s@.sel == s.sel,
        s@.loading == s.loading,
        s@.error == opt_text(s.error),
{
}

/// The model of the list of alerts holds what it holds, each field its own.
pub proof fn the_alerts_are_seen_as_they_are(s: AlertsState)
    ensures
        s@.alerts == s.alerts@,
        s@.sel == s.sel,
        s@.loading == s.loading,
        s@.error == opt_text(s.error),
{
}

/// The model of a conversation holds what it holds, each field its own.
pub proof fn a_conversation_is_seen_as_it_is(s: ConversationViewState)
    ensures
        s@.conversation == s.conversation,
        s@.messages == s.messages@,
        s@.page == s.page,
        s@.last_page == s.last_page,
        s@.sel_msg == s.sel_msg,
        s@.scroll == s.scroll,
        s@.built == s.built,
        s@.loading == s.loading,
        s@.error == opt_text(s.error),
{
}

/// The model of the Inbox holds what it holds, each field its own.
pub proof fn the_inbox_is_seen_as_it_is(s: InboxState)
    ensures
        s@.tab == s.tab,
        s@.focus == s.focus,
        s@.dual == s.dual,
        s@.convos == s.convos@,
        s@.alerts == s.alerts@,
        s@.view == opt_conversation(s.view),
{
}

/// The model of a search holds what it holds, each field its own.
pub proof fn a_search_is_seen_as_it_is(s: SearchState)
    ensures
        s@.query == s.query@,
        s@.query_cursor == s.query_cursor,
        s@.author == s.author@,
        s@.author_cursor == s.author_cursor,
        s@.active_field == s.active_field,
        s@.input_mode == s.input_mode,
        s@.member == s.member,
        s@.content_type == s.content_type,
        s@.results == s.results@,
        s@.page == s.page,
        s@.last_page == s.last_page,
        s@.total == s.total,
        s@.sel == s.sel,
        s@.generation == s.generation,
        s@.loading == s.loading,
        s@.error == opt_text(s.error),
{
}

/// The model of a profile holds what it holds, each field its own.
pub proof fn a_profile_is_seen_as_it_is(s: ProfileState)
    ensures
        s@.title == s.title@,
        s@.user == s.user,
        s@.generation == s.generation,
        s@.loading == s.loading,
        s@.error == opt_text(s.error),
{
}

/// The model of the form for a conversation holds what it holds, each field its own.
pub proof fn a_form_is_seen_as_it_is(s: NewConversationState)
    ensures
        s@.recipients == s.recipients@,
        s@.recipients_cursor == s.recipients_cursor,
        s@.title == s.title@,
        s@.title_cursor == s.title_cursor,
        s@.body == s.body@,
        s@.body_cursor == s.body_cursor,
        s@.field == s.field,
        s@.resolving == s.resolving,
        s@.resolved_ids == s.resolved_ids@,
        s@.errors == texts(s.errors@),
        s@.busy == s.busy,
        s@.sending == s.sending,
{
}

/// The model of the gallery holds what it holds, each field its own.
pub proof fn a_gallery_is_seen_as_it_is(s: MediaListState)
    ensures
        s@.items == s.items@,
        s@.categories == s.categories@,
        s@.category_title == s.category_title@,
        s@.page == s.page,
        s@.last_page == s.last_page,
        s@.total == s.total,
        s@.sel == s.sel,
        s@.loading == s.loading,
        s@.error == opt_text(s.error),
{
}

/// The model of the catalog holds what it holds, each field its own.
pub proof fn a_catalog_is_seen_as_it_is(s: ResourceListState)
    ensures
        s@.items == s.items@,
        s@.page == s.page,
        s@.last_page == s.last_page,
        s@.total == s.total,
        s@.sel == s.sel,
        s@.loading == s.loading,
        s@.error == opt_text(s.error),
{
}

/// The model of a resource holds what it holds, each field its own.
pub proof fn a_resource_is_seen_as_it_is(s: ResourceViewState)
    ensures
        s@.id == s.id,
        s@.resource == s.resource,
        s@.width == s.width,
        s@.loading == s.loading,
        s@.error == opt_text(s.error),
{
}

/// The model of a picture holds what it holds, each field its own.
pub proof fn a_picture_is_seen_as_it_is(s: ImageViewState)
    ensures
        s@.url == s.url@,
        s@.title == s.title@,
{
}

/// The model of the list of drafts holds what it holds, each field its own.
pub proof fn the_drafts_are_seen_as_they_are(s: DraftsState)
    ensures
        s@.rows == s.rows@,
        s@.sel == s.sel,
{
}

/// The model of the client itself holds what it holds, each field its own.
pub proof fn the_client_is_seen_as_it_is(s: App)
    ensures
        s@.screens == screens_of(s.screens@),
        s@.me == s.me,
        s@.alerts_unread == s.alerts_unread,
        s@.convos_unread == s.convos_unread,
        s@.status == s.status@,
        s@.status_set_at == s.status_set_at,
        s@.keep_thread_position == s.keep_thread_position,
        s@.show_help == s.show_help,
        s@.palette == opt_palette(s.palette),
        s@.chord == s.chord,
        s@.pointer == s.pointer,
        s@.clipboard == s.clipboard@,
        s@.last_title == s.last_title@,
        s@.should_quit == s.should_quit,
        s@.pollers == s.pollers,
        s@.session == s.session,
        s@.minted == s.minted,
        s@.updater == s.updater@,
        s@.site == s.site,
        s@.clock == s.clock,
        s@.effects == effects_of(s.effects@),
{
}

/// The model of the palette holds what it holds, each field its own.
pub proof fn the_palette_is_seen_as_it_is(s: Palette)
    ensures
        s@.items == items_of(s.items@),
        s@.query == s.query@,
        s@.cursor == s.cursor,
{
}

/// The model of a row of the palette holds what it holds, each field its own.
pub proof fn a_row_is_seen_as_it_is(s: Item)
    ensures
        s@.title == s.title@,
        s@.key == s.key@,
        s@.target == s.target@,
{
}

/// The model of the state of self-update holds what it holds, each field its own.
pub proof fn the_updater_is_seen_as_it_is(s: Updater)
    ensures
        s@.state == s.state@,
        s@.generation == s.generation,
        s@.task == s.task,
        s@.cfg == s.cfg,
{
}

/// The model of a failure holds what it holds, each field its own.
pub proof fn a_failure_is_seen_as_it_is(s: TaskError)
    ensures
        s@.message == s.message@,
        s@.code == opt_text(s.code),
        s@.max_page == s.max_page,
        s@.kind == s.kind,
{
}

/// The model of a text on its way into a field holds what it holds, each field its own.
pub proof fn a_paste_is_seen_as_it_is(s: Paste)
    ensures
        s@.raw == s.raw@,
        s@.count == s.count,
{
}

/// The model of a request says the request, each argument in its own place.
pub proof fn a_request_is_seen_as_it_is(s: Effect)
    ensures
        match s {
            Effect::RestoreSession { generation } => s@ == (EffectModel::RestoreSession { generation }),
            Effect::RecheckStoredSession { generation, reason } => s@ == (EffectModel::RecheckStoredSession { generation, reason: reason@ }),
            Effect::StartPollers => s@ == EffectModel::StartPollers,
            Effect::StopPollers => s@ == EffectModel::StopPollers,
            Effect::PollUnread => s@ == EffectModel::PollUnread,
            Effect::AbortWrites => s@ == EffectModel::AbortWrites,
            Effect::BeginLogin { generation } => s@ == (EffectModel::BeginLogin { generation }),
            Effect::AbortLogin => s@ == EffectModel::AbortLogin,
            Effect::Logout => s@ == EffectModel::Logout,
            Effect::SaveLoginUrl { url } => s@ == (EffectModel::SaveLoginUrl { url: url@ }),
            Effect::ClearDrafts => s@ == EffectModel::ClearDrafts,
            Effect::SyncDrafts => s@ == EffectModel::SyncDrafts,
            Effect::OpenDrafts => s@ == EffectModel::OpenDrafts,
            Effect::ResumeDraft { key } => s@ == (EffectModel::ResumeDraft { key }),
            Effect::DiscardDraft { key } => s@ == (EffectModel::DiscardDraft { key }),
            Effect::RefreshDrafts => s@ == EffectModel::RefreshDrafts,
            Effect::LoadNodes => s@ == EffectModel::LoadNodes,
            Effect::LoadForumPage { node_id, page, append, seq } => s@ == (EffectModel::LoadForumPage { node_id, page, append, seq }),
            Effect::LoadThread { id, page } => s@ == (EffectModel::LoadThread { id, page }),
            Effect::LoadConversations { page } => s@ == (EffectModel::LoadConversations { page }),
            Effect::LoadConversation { id, page, mark_read } => s@ == (EffectModel::LoadConversation { id, page, mark_read }),
            Effect::LoadAlerts => s@ == EffectModel::LoadAlerts,
            Effect::LoadMedia { category, page } => s@ == (EffectModel::LoadMedia { category, page }),
            Effect::LoadMediaCategories => s@ == EffectModel::LoadMediaCategories,
            Effect::LoadResources { page } => s@ == (EffectModel::LoadResources { page }),
            Effect::LoadResource { id } => s@ == (EffectModel::LoadResource { id }),
            Effect::LoadProfile { generation, user_id, name } => s@ == (EffectModel::LoadProfile { generation, user_id, name: name@ }),
            Effect::Search { generation, query } => s@ == (EffectModel::Search { generation, query }),
            Effect::SearchMember { generation, user_id, content, page } => s@ == (EffectModel::SearchMember { generation, user_id, content: content@, page }),
            Effect::FindRecipient { name } => s@ == (EffectModel::FindRecipient { name: name@ }),
            Effect::FindPaletteMember { query } => s@ == (EffectModel::FindPaletteMember { query: query@ }),
            Effect::MarkThreadRead { id, date } => s@ == (EffectModel::MarkThreadRead { id, date }),
            Effect::MarkForumRead { node_id } => s@ == (EffectModel::MarkForumRead { node_id }),
            Effect::MarkAlertRead { id } => s@ == (EffectModel::MarkAlertRead { id }),
            Effect::MarkConversationRead { id, report } => s@ == (EffectModel::MarkConversationRead { id, report }),
            Effect::ReactPost { post_id } => s@ == (EffectModel::ReactPost { post_id }),
            Effect::VotePost { post_id, vote_type, verb } => s@ == (EffectModel::VotePost { post_id, vote_type: vote_type@, verb }),
            Effect::SubmitReply { thread_id, message, key } => s@ == (EffectModel::SubmitReply { thread_id, message: message@, key: opt_text(key) }),
            Effect::SubmitThread { node_id, title, message, key } => s@ == (EffectModel::SubmitThread { node_id, title: title@, message: message@, key: opt_text(key) }),
            Effect::SubmitConvoReply { id, message } => s@ == (EffectModel::SubmitConvoReply { id, message: message@ }),
            Effect::SubmitEdit { post_id, message, key } => s@ == (EffectModel::SubmitEdit { post_id, message: message@, key: opt_text(key) }),
            Effect::DeletePost { post_id, thread_id } => s@ == (EffectModel::DeletePost { post_id, thread_id }),
            Effect::MarkSolution { post_id, thread_id } => s@ == (EffectModel::MarkSolution { post_id, thread_id }),
            Effect::CreateConversation { ids, title, body } => s@ == (EffectModel::CreateConversation { ids: ids@, title: title@, body: body@ }),
            Effect::Upload { path, context, key } => s@ == (EffectModel::Upload { path: path@, context, key: opt_text(key) }),
            Effect::CopyText { text } => s@ == (EffectModel::CopyText { text: text@ }),
            Effect::OpenBrowser { url } => s@ == (EffectModel::OpenBrowser { url: url@ }),
            Effect::SetTitle { title } => s@ == (EffectModel::SetTitle { title: title@ }),
            Effect::CheckUpdate { generation, forced, delayed } => s@ == (EffectModel::CheckUpdate { generation, forced, delayed }),
            Effect::AbortUpdateCheck => s@ == EffectModel::AbortUpdateCheck,
        },
{
}

/// The model of a report says what was reported, each part in its own place.
pub proof fn a_report_is_seen_as_it_is(s: Msg)
    ensures
        match s {
            Msg::Bootstrap { generation, result } => s@ == (MsgModel::Bootstrap { generation, result: outcome(result) }),
            Msg::SessionLost(e) => s@ == MsgModel::SessionLost(e@),
            Msg::LoginReady { generation, url } => s@ == (MsgModel::LoginReady { generation, url: url@ }),
            Msg::LoginFailed { generation, message } => s@ == (MsgModel::LoginFailed { generation, message: message@ }),
            Msg::LoginComplete { generation, result } => s@ == (MsgModel::LoginComplete { generation, result: outcome(result) }),
            Msg::NodesLoaded(result) => s@ == MsgModel::NodesLoaded(outcome(result)),
            Msg::ForumLoaded { node_id, page, append, seq, result } => s@ == (MsgModel::ForumLoaded { node_id, page, append, seq, result: outcome(result) }),
            Msg::ThreadLoaded { id, page, result } => s@ == (MsgModel::ThreadLoaded { id, page, result: outcome(result) }),
            Msg::ReplySent(result) => s@ == MsgModel::ReplySent(outcome(result)),
            Msg::ThreadCreated(result) => s@ == MsgModel::ThreadCreated(outcome(result)),
            Msg::MarkedRead(result) => s@ == MsgModel::MarkedRead(outcome(result)),
            Msg::ConversationsLoaded { page, result } => s@ == (MsgModel::ConversationsLoaded { page, result: outcome(result) }),
            Msg::ConversationLoaded { id, page, mark_read, result } => s@ == (MsgModel::ConversationLoaded { id, page, mark_read, result: outcome(result) }),
            Msg::ConvoReplySent(result) => s@ == MsgModel::ConvoReplySent(outcome(result)),
            Msg::ConvoCreated(result) => s@ == MsgModel::ConvoCreated(outcome(result)),
            Msg::ConversationMarked(id, result) => s@ == MsgModel::ConversationMarked(id, outcome(result)),
            Msg::RecipientResolved { name, id } => s@ == (MsgModel::RecipientResolved { name: name@, id: outcome(id) }),
            Msg::AlertsLoaded(result) => s@ == MsgModel::AlertsLoaded(outcome(result)),
            Msg::AlertMarked(result) => s@ == MsgModel::AlertMarked(outcome(result)),
            Msg::MediaLoaded { page, result } => s@ == (MsgModel::MediaLoaded { page, result: outcome(result) }),
            Msg::ResourceLoaded { page, result } => s@ == (MsgModel::ResourceLoaded { page, result: outcome(result) }),
            Msg::MediaCategoriesLoaded(result) => s@ == MsgModel::MediaCategoriesLoaded(outcome(result)),
            Msg::ResourceViewLoaded { id, result } => s@ == (MsgModel::ResourceViewLoaded { id, result: outcome(result) }),
            Msg::SearchDone { generation, page, result } => s@ == (MsgModel::SearchDone { generation, page, result: outcome(result) }),
            Msg::PaletteMember { query, user } => s@ == (MsgModel::PaletteMember { query: query@, user }),
            Msg::ProfileLoaded { generation, result } => s@ == (MsgModel::ProfileLoaded { generation, result: outcome(result) }),
            Msg::LoggedOut(result) => s@ == MsgModel::LoggedOut(said(result)),
            Msg::PostToggled { verb, result } => s@ == (MsgModel::PostToggled { verb, result: outcome(result) }),
            Msg::AttachmentUploaded(result) => s@ == MsgModel::AttachmentUploaded(upload(result)),
            Msg::PostEdited { post_id, result } => s@ == (MsgModel::PostEdited { post_id, result: outcome(result) }),
            Msg::PostDeleted { post_id, thread_id, result } => s@ == (MsgModel::PostDeleted { post_id, thread_id, result: outcome(result) }),
            Msg::SolutionMarked { post_id, thread_id, result } => s@ == (MsgModel::SolutionMarked { post_id, thread_id, result: outcome(result) }),
            Msg::UpdateChecked { generation, forced, result } => s@ == (MsgModel::UpdateChecked { generation, forced, result: said_outcome(result) }),
            Msg::Notice(text) => s@ == MsgModel::Notice(text@),
        },
{
}

/// The model of a row's target is that target.
pub proof fn a_target_is_seen_as_it_is(s: Target)
    ensures
        match s {
            Target::Forum(id, title) => s@ == TargetModel::Forum(id, title@),
            Target::QuickNode(id, title) => s@ == TargetModel::QuickNode(id, title@),
            Target::Latest => s@ == TargetModel::Latest,
            Target::NewThread(id) => s@ == TargetModel::NewThread(id),
            Target::MarkForumRead(id) => s@ == TargetModel::MarkForumRead(id),
            Target::Inbox => s@ == TargetModel::Inbox,
            Target::Alerts => s@ == TargetModel::Alerts,
            Target::MediaGallery => s@ == TargetModel::MediaGallery,
            Target::Resources => s@ == TargetModel::Resources,
            Target::Search => s@ == TargetModel::Search,
            Target::SignOut => s@ == TargetModel::SignOut,
            Target::Quit => s@ == TargetModel::Quit,
            Target::Update => s@ == TargetModel::Update,
            Target::Member(id, name) => s@ == TargetModel::Member(id, name@),
        },
{
}

/// The model of what is known of updates says what is known, under its own name.
pub proof fn what_is_known_of_updates_is_seen_as_it_is(s: UpdateState)
    ensures
        match s {
            UpdateState::Idle => s@ == UpdateModel::Idle,
            UpdateState::Checking => s@ == UpdateModel::Checking,
            UpdateState::UpToDate => s@ == UpdateModel::UpToDate,
            UpdateState::Failed(e) => s@ == UpdateModel::Failed(e@),
            UpdateState::Staged { version } => s@ == (UpdateModel::Staged { version: version@ }),
            UpdateState::Available { version, html_url } => s@ == (UpdateModel::Available {
                version: version@,
                html_url: html_url@,
            }),
            UpdateState::Manual { version, command } => s@ == (UpdateModel::Manual {
                version: version@,
                command: command@,
            }),
            UpdateState::JustApplied { version } => s@ == (UpdateModel::JustApplied { version: version@ }),
        },
{
}

/// The model of a screen is of the same kind.
pub proof fn a_screen_is_seen_as_it_is(screen: Screen)
    ensures
        match screen {
            Screen::Home(s) => screen@ == ScreenModel::Home(s@),
            Screen::ForumTree(s) => screen@ == ScreenModel::ForumTree(s@),
            Screen::ThreadList(s) => screen@ == ScreenModel::ThreadList(s@),
            Screen::ThreadView(s) => screen@ == ScreenModel::ThreadView(s@),
            Screen::Inbox(s) => screen@ == ScreenModel::Inbox(s@),
            Screen::ConversationView(s) => screen@ == ScreenModel::ConversationView(s@),
            Screen::Compose(s) => screen@ == ScreenModel::Compose(s@),
            Screen::NewConversation(s) => screen@ == ScreenModel::NewConversation(s@),
            Screen::Search(s) => screen@ == ScreenModel::Search(s@),
            Screen::Profile(s) => screen@ == ScreenModel::Profile(s@),
            Screen::MediaGallery(s) => screen@ == ScreenModel::MediaGallery(s@),
            Screen::Resources(s) => screen@ == ScreenModel::Resources(s@),
            Screen::ResourceView(s) => screen@ == ScreenModel::ResourceView(s@),
            Screen::ImageView(s) => screen@ == ScreenModel::ImageView(s@),
            Screen::Drafts(s) => screen@ == ScreenModel::Drafts(s@),
            Screen::Login(s) => screen@ == ScreenModel::Login(s@),
        },
{
}

/// A forum tree starts without forums.
pub proof fn a_forum_tree_starts_empty()
    ensures
        ({
            let s = ForumTreeModel::initial();
            &&& s.nodes.len() == 0 && s.sel == 0 && !s.loading && s.error is None
        }),
{
}

/// A thread list starts without rows, and with eight pages for its fill.
pub proof fn a_thread_list_starts_empty()
    ensures
        ({
            let s = ThreadListModel::initial();
            &&& s.node_id == 0 && s.title.len() == 0 && s.page == 0 && s.last_page == 0
            &&& s.total == 0 && s.per_page == 0 && s.pages_loaded == 0 && s.threads.len() == 0
            &&& s.sticky_count == 0 && s.sel == 0 && s.visible == 0 && s.fill_budget == 8
            &&& s.load_seq == 0 && !s.loading && s.error is None
        }),
{
}

/// Home starts in its tree.
pub proof fn home_starts_in_its_tree()
    ensures
        ({
            let s = HomeModel::initial();
            &&& s.tree == ForumTreeModel::initial() && s.list == ThreadListModel::initial()
            &&& s.focus == Pane::Tree && !s.dual
        }),
{
}

/// The sign-in starts idle.
pub proof fn the_sign_in_starts_idle()
    ensures
        ({
            let s = LoginModel::initial();
            &&& !s.busy && s.error is None && s.stage == LoginStage::Idle && s.url.len() == 0
        }),
{
}

/// A thread starts with itself and no posts.
pub proof fn a_thread_starts_unread(thread: Thread)
    ensures
        ({
            let s = ThreadViewModel::initial(thread);
            &&& s.thread == thread && s.forum_title.len() == 0 && s.posts.len() == 0
            &&& s.page == 0 && s.last_page == 0 && s.total == 0 && !s.loading
            &&& s.error is None && s.sel_post == 0 && s.scroll == 0 && !s.link_popup
            &&& s.seen_date == 0 && s.reported_date == 0 && !s.built
        }),
{
}

/// A composer starts without a text or an address.
pub proof fn a_composer_starts_empty()
    ensures
        ({
            let s = ComposeModel::initial();
            &&& s.target is None && s.title.len() == 0 && s.title_cursor == 0
            &&& !s.title_field && s.body.len() == 0 && s.body_cursor == 0
            &&& s.author.len() == 0 && s.reply_number is None && !s.busy && !s.uploading
            &&& s.attachment_key is None && s.attachments.len() == 0 && s.error is None
        }),
{
}

/// The list of conversations starts without rows.
pub proof fn the_conversations_start_empty()
    ensures
        ({
            let s = ConversationsModel::initial();
            &&& s.conversations.len() == 0 && s.page == 0 && s.last_page == 0 && s.total == 0
            &&& s.sel == 0 && !s.loading && s.error is None
        }),
{
}

/// The list of alerts starts without rows.
pub proof fn the_alerts_start_empty()
    ensures
        ({
            let s = AlertsModel::initial();
            &&& s.alerts.len() == 0 && s.sel == 0 && !s.loading && s.error is None
        }),
{
}

/// A conversation starts with itself and no messages.
pub proof fn a_conversation_starts_unread(conversation: Conversation)
    ensures
        ({
            let s = ConversationViewModel::initial(conversation);
            &&& s.conversation == conversation && s.messages.len() == 0 && s.page == 0
            &&& s.last_page == 0 && s.sel_msg == 0 && s.scroll == 0 && !s.built && !s.loading
            &&& s.error is None
        }),
{
}

/// The Inbox starts in its list of conversations.
pub proof fn the_inbox_starts_in_its_list()
    ensures
        ({
            let s = InboxModel::initial();
            &&& s.tab == InboxTab::Conversations && s.focus == InboxPane::List && !s.dual
            &&& s.convos == ConversationsModel::initial()
            &&& s.alerts == AlertsModel::initial() && s.view is None
        }),
{
}

/// A search starts without a query or results.
pub proof fn a_search_starts_empty()
    ensures
        ({
            let s = SearchModel::initial();
            &&& s.query.len() == 0 && s.query_cursor == 0 && s.author.len() == 0
            &&& s.author_cursor == 0 && s.active_field == 0 && !s.input_mode
            &&& s.member is None && s.content_type == 0 && s.results.len() == 0 && s.page == 0
            &&& s.last_page == 0 && s.total == 0 && s.sel == 0 && s.generation == 0
            &&& !s.loading && s.error is None
        }),
{
}

/// A profile starts without its member.
pub proof fn a_profile_starts_empty()
    ensures
        ({
            let s = ProfileModel::initial();
            &&& s.title.len() == 0 && s.user is None && s.generation == 0 && !s.loading
            &&& s.error is None
        }),
{
}

/// The form for a conversation starts without recipients or texts.
pub proof fn a_form_starts_empty()
    ensures
        ({
            let s = NewConversationModel::initial();
            &&& s.recipients.len() == 0 && s.recipients_cursor == 0 && s.title.len() == 0
            &&& s.title_cursor == 0 && s.body.len() == 0 && s.body_cursor == 0 && s.field == 0
            &&& s.resolving == 0 && s.resolved_ids.len() == 0 && s.errors.len() == 0
            &&& !s.busy && !s.sending
        }),
{
}

/// The gallery starts without media.
pub proof fn a_gallery_starts_empty()
    ensures
        ({
            let s = MediaListModel::initial();
            &&& s.items.len() == 0 && s.categories.len() == 0 && s.category_title.len() == 0
            &&& s.page == 0 && s.last_page == 0 && s.total == 0 && s.sel == 0 && !s.loading
            &&& s.error is None
        }),
{
}

/// The catalog starts without resources.
pub proof fn a_catalog_starts_empty()
    ensures
        ({
            let s = ResourceListModel::initial();
            &&& s.items.len() == 0 && s.page == 0 && s.last_page == 0 && s.total == 0
            &&& s.sel == 0 && !s.loading && s.error is None
        }),
{
}

/// A resource starts without itself.
pub proof fn a_resource_starts_empty()
    ensures
        ({
            let s = ResourceViewModel::initial();
            &&& s.id == 0 && s.resource is None && s.width == 0 && !s.loading
            &&& s.error is None
        }),
{
}

} // verus!
