//! Nothing is posted in a member's name but what the member sent off.

use vstd::prelude::*;

use crate::actions::{Action, PlaceModel};
use crate::app::{topmost, AppModel, Pointer, SessionState, Wanted};
use crate::effects::EffectModel;
use crate::errors::TaskErrorView;
use crate::goto::GoTarget;
use crate::input::TopScreen;
use crate::keys::{Hit, KeyEvent, MouseEvent, Pointed};
use crate::models::{Attachment, Conversation, Post, Thread, Toggle, User};
use crate::msg::{MsgModel, PostVerb};
use crate::palette::TargetModel;
use crate::pointer::Gesture;
use crate::screens::InboxTab;
use crate::tasks::no_session;
use crate::update::Outcome;

verus! {

impl AppModel {
    /// The work asked for since an earlier state holds no write, and the work
    /// asked for before is untouched.
    pub open spec fn wrote_nothing_since(self, before: AppModel) -> bool {
        &&& before.effects.len() <= self.effects.len()
        &&& forall|i: int|
            #![trigger self.effects[i]]
            0 <= i < self.effects.len() ==> if i < before.effects.len() {
                self.effects[i] == before.effects[i]
            } else {
                !self.effects[i].is_write()
            }
    }
}

proof fn a_page_writes_nothing(app: AppModel, m: MsgModel)
    ensures
        app.page_delivered(m).wrote_nothing_since(app),
{
    reveal(AppModel::page_delivered);
}

proof fn a_sent_text_writes_nothing(app: AppModel, w: Wanted)
    ensures
        app.sent(w).wrote_nothing_since(app),
{
}

proof fn a_load_writes_nothing(app: AppModel, node_id: u32, page: u32)
    ensures
        app.forum_loading(node_id, page).wrote_nothing_since(app),
{
}

proof fn priming_writes_nothing(app: AppModel)
    ensures
        app.home_primed().wrote_nothing_since(app),
{
}

proof fn a_reply_writes_nothing_more(app: AppModel, result: Result<Post, TaskErrorView>)
    ensures
        app.reply_sent(result).wrote_nothing_since(app),
{
    a_sent_text_writes_nothing(app, Wanted::ReplyComposer);
}

proof fn a_new_thread_writes_nothing_more(app: AppModel, result: Result<Thread, TaskErrorView>)
    ensures
        app.thread_created(result).wrote_nothing_since(app),
{
    a_sent_text_writes_nothing(app, Wanted::ThreadComposer);
    if let Ok(thread) = result {
        let a = app.sent(Wanted::ThreadComposer);
        assert forall|b: AppModel| b.effects == a.effects implies (#[trigger] b.forum_loading(
            thread.node_id,
            1,
        )).wrote_nothing_since(app) by {
            a_load_writes_nothing(b, thread.node_id, 1);
        }
    }
}

proof fn a_message_sent_writes_nothing_more(app: AppModel, result: Result<(), TaskErrorView>)
    ensures
        app.convo_reply_sent(result).wrote_nothing_since(app),
{
    a_sent_text_writes_nothing(app, Wanted::ConvoComposer);
}

proof fn a_conversation_opened_writes_nothing(app: AppModel, conv: Conversation)
    ensures
        app.conversation_opened(conv).wrote_nothing_since(app),
{
}

proof fn a_new_conversation_writes_nothing_more(
    app: AppModel,
    result: Result<Conversation, TaskErrorView>,
)
    ensures
        app.convo_created(result).wrote_nothing_since(app),
{
    if let Ok(conv) = result {
        assert forall|b: AppModel| b.effects == app.effects implies (#[trigger] b.conversation_opened(
            conv,
        )).wrote_nothing_since(app) by {
            a_conversation_opened_writes_nothing(b, conv);
        }
    }
}

proof fn an_edit_writes_nothing_more(
    app: AppModel,
    post_id: u32,
    result: Result<(), TaskErrorView>,
)
    ensures
        app.post_edited(post_id, result).wrote_nothing_since(app),
{
    a_sent_text_writes_nothing(app, Wanted::EditComposer(post_id));
}

proof fn a_post_outcome_writes_nothing_more(
    app: AppModel,
    verb: PostVerb,
    id: u32,
    toggled: Result<Toggle, TaskErrorView>,
    result: Result<(), TaskErrorView>,
)
    ensures
        app.post_toggled(verb, toggled).wrote_nothing_since(app),
        app.post_deleted(id, result).wrote_nothing_since(app),
        app.solution_marked(id, result).wrote_nothing_since(app),
{
}

proof fn a_mark_writes_nothing(app: AppModel, id: u32, result: Result<(), TaskErrorView>)
    ensures
        app.marked_read(result).wrote_nothing_since(app),
        app.alert_marked(result).wrote_nothing_since(app),
        app.conversation_marked(id, result).wrote_nothing_since(app),
{
}

proof fn an_upload_writes_nothing_more(
    app: AppModel,
    result: Result<(Seq<char>, Attachment), Seq<char>>,
)
    ensures
        app.attachment_uploaded(result).wrote_nothing_since(app),
{
}

proof fn an_outcome_writes_nothing(app: AppModel, m: MsgModel)
    requires
        m !is RecipientResolved,
    ensures
        app.outcome_delivered(m).wrote_nothing_since(app),
{
    reveal(AppModel::outcome_delivered);
    match m {
        MsgModel::ReplySent(result) => a_reply_writes_nothing_more(app, result),
        MsgModel::ThreadCreated(result) => a_new_thread_writes_nothing_more(app, result),
        MsgModel::ConvoReplySent(result) => a_message_sent_writes_nothing_more(app, result),
        MsgModel::ConvoCreated(result) => a_new_conversation_writes_nothing_more(app, result),
        MsgModel::MarkedRead(result) => a_mark_writes_nothing(app, 0, result),
        MsgModel::AlertMarked(result) => a_mark_writes_nothing(app, 0, result),
        MsgModel::ConversationMarked(id, result) => a_mark_writes_nothing(app, id, result),
        MsgModel::PostToggled { verb, result } => {
            a_post_outcome_writes_nothing_more(app, verb, 0, result, Ok(()));
        },
        MsgModel::PostDeleted { thread_id, result, .. } => {
            a_post_outcome_writes_nothing_more(
                app,
                PostVerb::Like,
                thread_id,
                Err(no_session(seq![])),
                result,
            );
        },
        MsgModel::SolutionMarked { thread_id, result, .. } => {
            a_post_outcome_writes_nothing_more(
                app,
                PostVerb::Like,
                thread_id,
                Err(no_session(seq![])),
                result,
            );
        },
        MsgModel::PostEdited { post_id, result } => {
            an_edit_writes_nothing_more(app, post_id, result);
        },
        MsgModel::AttachmentUploaded(result) => an_upload_writes_nothing_more(app, result),
        _ => {},
    }
}

proof fn a_signed_in_member_writes_nothing(app: AppModel, user: User)
    ensures
        app.signed_in(user).wrote_nothing_since(app),
{
    let a = AppModel { me: Some(user), ..app }.gate_opened().status(
        "Welcome, "@ + user.username@ + "."@,
    ).pollers_started().asking(EffectModel::LoadNodes);
    assert(a.wrote_nothing_since(app));
    priming_writes_nothing(a);
}

proof fn an_adopted_session_writes_nothing(app: AppModel, user: User)
    ensures
        app.adopted(user).wrote_nothing_since(app),
{
}

proof fn a_resumed_session_writes_nothing(app: AppModel, changed: bool)
    ensures
        app.resumed(changed).wrote_nothing_since(app),
{
    assert forall|b: AppModel| b.wrote_nothing_since(app) implies (
    #[trigger] b.home_primed()).wrote_nothing_since(app) by {
        priming_writes_nothing(b);
    }
}

proof fn a_restored_session_writes_nothing(app: AppModel, user: User)
    ensures
        app.session_restored(user).wrote_nothing_since(app),
{
    an_adopted_session_writes_nothing(app, user);
    a_resumed_session_writes_nothing(app.adopted(user), app.is_other(user));
}

proof fn a_failed_restore_writes_nothing(app: AppModel, e: TaskErrorView)
    ensures
        app.restore_failed(e).wrote_nothing_since(app),
        app.retry_armed(e).effects == app.effects,
{
}

proof fn a_finished_login_writes_nothing(
    app: AppModel,
    generation: u64,
    result: Result<User, TaskErrorView>,
)
    ensures
        app.login_complete(generation, result).wrote_nothing_since(app),
{
    let a = AppModel { session: SessionState { login_task: false, ..app.session }, ..app };
    match result {
        Ok(user) => a_signed_in_member_writes_nothing(a, user),
        Err(e) => a_failed_restore_writes_nothing(a.gate_opened(), e),
    }
}

proof fn an_update_writes_nothing(
    app: AppModel,
    generation: u64,
    forced: bool,
    result: Result<Outcome, Seq<char>>,
)
    ensures
        app.update_checked(generation, forced, result).wrote_nothing_since(app),
{
}

proof fn a_login_message_writes_nothing(
    app: AppModel,
    generation: u64,
    text: Seq<char>,
    result: Result<(), Seq<char>>,
)
    ensures
        app.login_ready(generation, text).wrote_nothing_since(app),
        app.login_failed(generation, text).wrote_nothing_since(app),
        app.logout_reported(result).wrote_nothing_since(app),
        app.noticed(text).wrote_nothing_since(app),
{
}

proof fn a_session_message_writes_nothing(app: AppModel, m: MsgModel)
    ensures
        app.session_delivered(m).wrote_nothing_since(app),
{
    reveal(AppModel::session_delivered);
    match m {
        MsgModel::Bootstrap { result, .. } => match result {
            Ok(user) => a_restored_session_writes_nothing(app, user),
            Err(e) => a_failed_restore_writes_nothing(app, e),
        },
        MsgModel::LoginReady { generation, url } => {
            a_login_message_writes_nothing(app, generation, url, Ok(()));
        },
        MsgModel::LoginFailed { generation, message } => {
            a_login_message_writes_nothing(app, generation, message, Ok(()));
        },
        MsgModel::LoginComplete { generation, result } => {
            a_finished_login_writes_nothing(app, generation, result);
        },
        MsgModel::LoggedOut(result) => {
            a_login_message_writes_nothing(app, 0, seq![], result);
        },
        MsgModel::Notice(n) => {
            a_login_message_writes_nothing(app, 0, n, Ok(()));
        },
        MsgModel::UpdateChecked { generation, forced, result } => {
            an_update_writes_nothing(app, generation, forced, result);
        },
        MsgModel::PaletteMember { query, user } => {
            assert(app.palette_member(query, user).effects == app.effects);
        },
        _ => {},
    }
}

/// No message but the last recipient's lookup asks for a write.
pub proof fn no_message_writes(app: AppModel, m: MsgModel)
    requires
        m !is RecipientResolved,
    ensures
        app.handled(m).wrote_nothing_since(app),
{
    let a = app.window_shut(m);
    let b = match m.session_error() {
        Some(e) => a.bounded(e),
        None => a,
    };
    assert(b.wrote_nothing_since(app));
    a_page_writes_nothing(b, m);
    a_page_writes_nothing(b, m.retryable());
    an_outcome_writes_nothing(b, m);
    an_outcome_writes_nothing(b, m.retryable());
    a_session_message_writes_nothing(b, m);
    a_session_message_writes_nothing(b, m.retryable());
}

proof fn a_list_writes_nothing(app: AppModel, node_id: u32, title: Seq<char>)
    ensures
        app.list_opened(node_id, title).wrote_nothing_since(app),
{
    assert forall|b: AppModel| b.effects == app.effects implies (#[trigger] b.forum_loading(
        node_id,
        1,
    )).wrote_nothing_since(app) by {
        a_load_writes_nothing(b, node_id, 1);
    }
}

proof fn a_popped_screen_writes_nothing(app: AppModel)
    ensures
        app.popped().wrote_nothing_since(app),
{
}

proof fn opening_writes_nothing(app: AppModel, id: u32, name: Seq<char>)
    ensures
        app.profile_opened(id, name).wrote_nothing_since(app),
        app.gallery_opened().wrote_nothing_since(app),
        app.resources_opened().wrote_nothing_since(app),
        app.resource_opened(id).wrote_nothing_since(app),
        app.new_thread_begun(id).wrote_nothing_since(app),
        app.login_begun().wrote_nothing_since(app),
        app.url_opened(name).wrote_nothing_since(app),
        app.update_asked().wrote_nothing_since(app),
{
}

proof fn a_node_writes_nothing(app: AppModel, id: u32, title: Seq<char>)
    ensures
        app.node_opened(id, title).wrote_nothing_since(app),
{
    match app.place_of(id, title) {
        PlaceModel::Url(url) => opening_writes_nothing(app, 0, url),
        PlaceModel::List(id, title) => a_list_writes_nothing(app, id, title),
    }
}

proof fn an_inbox_writes_nothing(app: AppModel, tab: InboxTab)
    ensures
        app.inbox_opened(tab).wrote_nothing_since(app),
{
}

proof fn signing_out_writes_nothing(app: AppModel)
    ensures
        app.logged_out().wrote_nothing_since(app),
{
}

/// Wherever the palette leads, nothing is written on the way.
pub proof fn no_palette_target_writes(app: AppModel, t: TargetModel)
    ensures
        app.target_run(t).wrote_nothing_since(app),
{
    match t {
        TargetModel::Forum(id, title) => a_node_writes_nothing(app, id, title),
        TargetModel::QuickNode(id, title) => a_node_writes_nothing(app, id, title),
        TargetModel::Latest => a_list_writes_nothing(app, 0, "Latest posts"@),
        TargetModel::NewThread(id) => opening_writes_nothing(app, id, seq![]),
        TargetModel::MarkForumRead(_) => {},
        TargetModel::Inbox => an_inbox_writes_nothing(app, InboxTab::Conversations),
        TargetModel::Alerts => an_inbox_writes_nothing(app, InboxTab::Alerts),
        TargetModel::MediaGallery => opening_writes_nothing(app, 0, seq![]),
        TargetModel::Resources => opening_writes_nothing(app, 0, seq![]),
        TargetModel::Search => {},
        TargetModel::SignOut => signing_out_writes_nothing(app),
        TargetModel::Quit => {},
        TargetModel::Update => opening_writes_nothing(app, 0, seq![]),
        TargetModel::Member(id, name) => opening_writes_nothing(app, id, name),
    }
}

/// Wherever a chord leads, nothing is written on the way.
pub proof fn no_chord_writes(app: AppModel, t: GoTarget)
    ensures
        app.gone_to(t).wrote_nothing_since(app),
{
    match t {
        GoTarget::News => a_node_writes_nothing(app, app.site.quick.news, "Windows News"@),
        GoTarget::Security => {
            a_node_writes_nothing(app, app.site.quick.security, "Security Alerts"@);
        },
        GoTarget::Tutorials => {
            a_node_writes_nothing(app, app.site.quick.tutorials, "Windows Tutorials"@);
        },
        GoTarget::Latest => a_list_writes_nothing(app, 0, "Latest posts"@),
        GoTarget::Inbox => an_inbox_writes_nothing(app, InboxTab::Conversations),
        GoTarget::Alerts => an_inbox_writes_nothing(app, InboxTab::Alerts),
        GoTarget::Profile => {
            if let Some(me) = app.me {
                opening_writes_nothing(app, me.user_id, me.username@);
            }
        },
        _ => opening_writes_nothing(app, 0, seq![]),
    }
}

/// No key writes by itself: only the screen that it reaches may ask for that.
pub proof fn no_key_writes(app: AppModel, k: KeyEvent, top: TopScreen)
    ensures
        app.keyed(k, top).0.wrote_nothing_since(app),
{
    signing_out_writes_nothing(app);
    an_inbox_writes_nothing(app, InboxTab::Conversations);
    an_inbox_writes_nothing(app, InboxTab::Alerts);
    if app.can_pop() {
        a_popped_screen_writes_nothing(app);
    }
}

proof fn a_click_writes_nothing(app: AppModel, at: Pointed, double: bool)
    ensures
        app.clicked(at, double).0.wrote_nothing_since(app),
{
    match at.hit {
        Some(Hit::Badge(tab)) => an_inbox_writes_nothing(app, tab),
        Some(Hit::Tab(tab)) => an_inbox_writes_nothing(app, tab),
        Some(Hit::Link(url)) => opening_writes_nothing(app.popup_closed(), 0, url@),
        _ => {},
    }
}

/// The pointer writes nothing by itself.
pub proof fn no_click_writes(
    app: AppModel,
    me: MouseEvent,
    at: Pointed,
    next: AppModel,
    r: Gesture,
)
    requires
        app.moused(me, at, next, r),
    ensures
        next.wrote_nothing_since(app),
{
    reveal(AppModel::presses);
    reveal(AppModel::releases);
    let a = app.press_counted((me.column, me.row));
    a_click_writes_nothing(
        a.with_pointer(Pointer { selection: None, ..a.pointer }),
        at,
        true,
    );
    a_click_writes_nothing(app.released(), at, false);
}

proof fn a_place_writes_nothing(app: AppModel, a: Action)
    ensures
        app.place_opened(a).wrote_nothing_since(app),
{
    reveal(AppModel::place_opened);
    match a {
        Action::PopScreen => a_popped_screen_writes_nothing(app),
        Action::OpenThreadList(id, title) => a_node_writes_nothing(app, id, title@),
        Action::OpenLatestThreads => a_list_writes_nothing(app, 0, "Latest posts"@),
        Action::OpenProfile(id, name) => opening_writes_nothing(app, id, name@),
        Action::OpenConversation(conv) => a_conversation_opened_writes_nothing(app, conv),
        Action::OpenMediaGallery => opening_writes_nothing(app, 0, seq![]),
        Action::OpenResources => opening_writes_nothing(app, 0, seq![]),
        Action::OpenResource(id) => opening_writes_nothing(app, id, seq![]),
        Action::PlayVideo { url, .. } => opening_writes_nothing(app, 0, url@),
        Action::OpenUrl(url) => opening_writes_nothing(app, 0, url@),
        Action::LoginBegin => opening_writes_nothing(app, 0, seq![]),
        Action::StartNewThread(id) => opening_writes_nothing(app, id, seq![]),
        _ => {},
    }
}

/// Of all that a screen can ask for, only the writes write.
pub proof fn only_writes_write(app: AppModel, a: Action)
    requires
        !a.writes(),
    ensures
        app.acted(a).wrote_nothing_since(app),
{
    reveal(AppModel::load_asked);
    a_place_writes_nothing(app, a);
    if let Action::LoadForum(node_id, page) = a {
        a_load_writes_nothing(app, node_id, page);
    }
}

/// A conversation goes out only when the last of its recipients was looked up,
/// every one was found, and exactly as it was typed.
pub proof fn a_conversation_goes_out_when_every_recipient_is_found(
    app: AppModel,
    name: Seq<char>,
    id: Result<Option<u32>, TaskErrorView>,
)
    ensures
        ({
            let next = app.recipient_resolved(name, id);
            ||| next.wrote_nothing_since(app)
            ||| {
                &&& topmost(app.screens, Wanted::NewConversation) matches Some(i)
                &&& {
                    let form = app.screens[i]->NewConversation_0;
                    &&& form.resolving == 1
                    &&& form.errors.len() == 0
                    &&& id matches Ok(found) && found matches Some(last) && next.effects
                        == app.effects.push(
                        EffectModel::CreateConversation {
                            ids: form.resolved_ids.push(last),
                            title: form.title,
                            body: form.body,
                        },
                    )
                }
            }
        }),
{
}

} // verus!
