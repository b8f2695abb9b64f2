//! The root of the screen stack: Home stands there in every state that the
//! client can come to, so there is always a screen to draw.

use vstd::prelude::*;

use crate::actions::Action;
use crate::app::{
    conversation_in, topmost, topmost_is_the_greatest, with_conversation, AppModel, Pointer,
    SessionState, Wanted,
};
use crate::effects::EffectModel;
use crate::errors::TaskErrorView;
use crate::goto::GoTarget;
use crate::input::TopScreen;
use crate::keys::{KeyEvent, MouseEvent, Pointed};
use crate::models::{Conversation, ConversationReply, Thread, User};
use crate::msg::MsgModel;
use crate::palette::TargetModel;
use crate::pointer::Gesture;
use crate::screens::ScreenModel;
use crate::session::{kept_screens, outlives_session};
use crate::update::Outcome;
use crate::writes::unwound;

verus! {

impl AppModel {
    /// Home stands at the root of the stack.
    pub open spec fn rooted(self) -> bool {
        self.screens.len() > 0 && self.screens[0] is Home
    }
}

/// What a session leaves on the stack begins with Home where the stack did.
proof fn kept_root(s: Seq<ScreenModel>, login: bool)
    requires
        s.len() > 0,
        s[0] is Home,
    ensures
        kept_screens(s, login).len() > 0,
        kept_screens(s, login)[0] == s[0],
    decreases s.len(),
{
    let p = |x: ScreenModel| outlives_session(x, login);
    reveal_with_fuel(Seq::filter, 2);
    if s.len() > 1 {
        kept_root(s.drop_last(), login);
    } else {
        assert(s.drop_last() =~= seq![]);
        assert(s.filter(p) =~= seq![s[0]]);
    }
}

proof fn unwound_root(s: Seq<ScreenModel>)
    requires
        s.len() > 0,
    ensures
        unwound(s).len() > 0,
        unwound(s)[0] == s[0],
    decreases s.len(),
{
    if s.len() > 1 {
        unwound_root(s.drop_last());
    }
}

proof fn a_read_row_keeps_the_root(app: AppModel, id: u32)
    requires
        app.rooted(),
    ensures
        app.row_marked(id).rooted(),
        app.row_marked(id).me == app.me,
{
    topmost_is_the_greatest(app.screens, Wanted::Inbox);
}

proof fn a_conversation_keeps_the_root(
    app: AppModel,
    id: u32,
    page: u32,
    mark_read: bool,
    result: Result<ConversationReply, TaskErrorView>,
)
    requires
        app.rooted(),
    ensures
        app.conversation_loaded(id, page, mark_read, result).rooted(),
        app.conversation_loaded(id, page, mark_read, result).me == app.me,
{
    topmost_is_the_greatest(app.screens, Wanted::Conversation(id));
    if let Some(i) = topmost(app.screens, Wanted::Conversation(id)) {
        if let Ok(reply) = result {
            let view = conversation_in(app.screens[i])->0;
            let shown = view.page_taken(page, reply);
            let a = app.with_screen(i, with_conversation(app.screens[i], shown));
            a_read_row_keeps_the_root(a, shown.conversation.conversation_id);
        }
    }
}

/// A page that was loaded leaves the root and the member as they are.
proof fn a_page_keeps_the_root(app: AppModel, m: MsgModel)
    requires
        app.rooted(),
    ensures
        app.page_delivered(m).rooted(),
        app.page_delivered(m).me == app.me,
{
    reveal(AppModel::page_delivered);
    match m {
        MsgModel::NodesLoaded(_) => {
            topmost_is_the_greatest(app.screens, Wanted::Tree);
        },
        MsgModel::ForumLoaded { node_id, .. } => {
            topmost_is_the_greatest(app.screens, Wanted::ListOf(node_id));
        },
        MsgModel::ThreadLoaded { id, .. } => {
            topmost_is_the_greatest(app.screens, Wanted::ThreadView(id));
        },
        MsgModel::ConversationsLoaded { .. } => {
            topmost_is_the_greatest(app.screens, Wanted::Inbox);
        },
        MsgModel::ConversationLoaded { id, page, mark_read, result } => {
            a_conversation_keeps_the_root(app, id, page, mark_read, result);
        },
        MsgModel::AlertsLoaded(_) => {
            topmost_is_the_greatest(app.screens, Wanted::Inbox);
        },
        MsgModel::MediaLoaded { .. } => {
            topmost_is_the_greatest(app.screens, Wanted::MediaGallery);
        },
        MsgModel::MediaCategoriesLoaded(_) => {
            topmost_is_the_greatest(app.screens, Wanted::MediaGallery);
        },
        MsgModel::ResourceLoaded { .. } => {
            topmost_is_the_greatest(app.screens, Wanted::Resources);
        },
        MsgModel::ResourceViewLoaded { id, .. } => {
            topmost_is_the_greatest(app.screens, Wanted::ResourceView(id));
        },
        MsgModel::SearchDone { generation, .. } => {
            topmost_is_the_greatest(app.screens, Wanted::SearchLoad(generation));
        },
        MsgModel::ProfileLoaded { generation, .. } => {
            topmost_is_the_greatest(app.screens, Wanted::ProfileLoad(generation));
        },
        _ => {},
    }
}

proof fn a_load_keeps_the_root(app: AppModel, node_id: u32, page: u32)
    requires
        app.rooted(),
    ensures
        app.forum_loading(node_id, page).rooted(),
        app.forum_loading(node_id, page).me == app.me,
{
    topmost_is_the_greatest(app.screens, Wanted::ListOf(node_id));
}

proof fn priming_keeps_the_root(app: AppModel)
    requires
        app.rooted(),
    ensures
        app.home_primed().rooted(),
        app.home_primed().me == app.me,
{
    assert forall|a: AppModel| a.rooted() implies (#[trigger] a.forum_loading(0, 1)).rooted()
        && a.forum_loading(0, 1).me == a.me by {
        a_load_keeps_the_root(a, 0, 1);
    }
}

proof fn a_sent_text_keeps_the_root(app: AppModel, w: Wanted)
    requires
        app.rooted(),
        w is ReplyComposer || w is ThreadComposer || w is ConvoComposer || w is EditComposer,
    ensures
        app.sent(w).rooted(),
        app.sent(w).me == app.me,
{
    topmost_is_the_greatest(app.screens, w);
}

proof fn a_conversation_opened_keeps_the_root(app: AppModel, conv: Conversation)
    requires
        app.rooted(),
    ensures
        app.conversation_opened(conv).rooted(),
        app.conversation_opened(conv).me == app.me,
{
}

proof fn a_new_thread_keeps_the_root(app: AppModel, result: Result<Thread, TaskErrorView>)
    requires
        app.rooted(),
    ensures
        app.thread_created(result).rooted(),
        app.thread_created(result).me == app.me,
{
    match result {
        Ok(thread) => {
            a_sent_text_keeps_the_root(app, Wanted::ThreadComposer);
            let a = app.sent(Wanted::ThreadComposer).status("Thread created."@);
            topmost_is_the_greatest(a.screens, Wanted::List);
            assert forall|b: AppModel| b.rooted() implies (#[trigger] b.forum_loading(
                thread.node_id,
                1,
            )).rooted() && b.forum_loading(thread.node_id, 1).me == b.me by {
                a_load_keeps_the_root(b, thread.node_id, 1);
            }
        },
        Err(_) => {
            topmost_is_the_greatest(app.screens, Wanted::ThreadComposer);
        },
    }
}

proof fn a_new_conversation_keeps_the_root(
    app: AppModel,
    result: Result<Conversation, TaskErrorView>,
)
    requires
        app.rooted(),
    ensures
        app.convo_created(result).rooted(),
        app.convo_created(result).me == app.me,
{
    match result {
        Ok(conv) => {
            unwound_root(app.screens);
            topmost_is_the_greatest(unwound(app.screens), Wanted::Inbox);
            assert forall|b: AppModel| b.rooted() implies (#[trigger] b.conversation_opened(
                conv,
            )).rooted() && b.conversation_opened(conv).me == b.me by {
                a_conversation_opened_keeps_the_root(b, conv);
            }
        },
        Err(_) => {
            topmost_is_the_greatest(app.screens, Wanted::NewConversation);
        },
    }
}

/// The outcome of something the reader did leaves the root and the member as
/// they are.
proof fn an_outcome_keeps_the_root(app: AppModel, m: MsgModel)
    requires
        app.rooted(),
    ensures
        app.outcome_delivered(m).rooted(),
        app.outcome_delivered(m).me == app.me,
{
    reveal(AppModel::outcome_delivered);
    match m {
        MsgModel::ReplySent(_) => {
            a_sent_text_keeps_the_root(app, Wanted::ReplyComposer);
            topmost_is_the_greatest(app.screens, Wanted::ReplyComposer);
        },
        MsgModel::ThreadCreated(result) => {
            a_new_thread_keeps_the_root(app, result);
        },
        MsgModel::ConvoReplySent(_) => {
            a_sent_text_keeps_the_root(app, Wanted::ConvoComposer);
            topmost_is_the_greatest(app.screens, Wanted::ConvoComposer);
        },
        MsgModel::ConvoCreated(result) => {
            a_new_conversation_keeps_the_root(app, result);
        },
        MsgModel::ConversationMarked(id, _) => {
            a_read_row_keeps_the_root(app, id);
        },
        MsgModel::RecipientResolved { .. } => {
            topmost_is_the_greatest(app.screens, Wanted::NewConversation);
        },
        MsgModel::PostEdited { post_id, .. } => {
            a_sent_text_keeps_the_root(app, Wanted::EditComposer(post_id));
        },
        _ => {},
    }
}

proof fn an_ended_session_keeps_the_root(app: AppModel, reason: Seq<char>)
    requires
        app.rooted(),
    ensures
        app.session_ended(reason).rooted(),
{
    kept_root(app.screens, true);
}

proof fn a_signed_in_member_keeps_the_root(app: AppModel, user: User)
    requires
        app.rooted(),
    ensures
        app.signed_in(user).rooted(),
{
    let a = AppModel { me: Some(user), ..app }.gate_opened().status(
        "Welcome, "@ + user.username@ + "."@,
    ).pollers_started().asking(EffectModel::LoadNodes);
    priming_keeps_the_root(a);
}

proof fn an_adopted_session_keeps_the_root(app: AppModel, user: User)
    requires
        app.rooted(),
    ensures
        app.adopted(user).rooted(),
{
    kept_root(app.screens, false);
}

proof fn a_resumed_session_keeps_the_root(app: AppModel, changed: bool)
    requires
        app.rooted(),
    ensures
        app.resumed(changed).rooted(),
{
    assert forall|b: AppModel| b.rooted() implies (#[trigger] b.home_primed()).rooted() by {
        priming_keeps_the_root(b);
    }
}

proof fn a_retry_keeps_the_root(app: AppModel, e: TaskErrorView)
    requires
        app.rooted(),
    ensures
        app.retry_armed(e).rooted(),
{
    topmost_is_the_greatest(app.screens, Wanted::Tree);
}

proof fn a_restored_session_keeps_the_root(app: AppModel, user: User)
    requires
        app.rooted(),
    ensures
        app.session_restored(user).rooted(),
{
    an_adopted_session_keeps_the_root(app, user);
    a_resumed_session_keeps_the_root(app.adopted(user), app.is_other(user));
}

proof fn a_failed_restore_keeps_the_root(app: AppModel, e: TaskErrorView)
    requires
        app.rooted(),
    ensures
        app.restore_failed(e).rooted(),
{
    a_retry_keeps_the_root(app, e);
}

proof fn a_finished_login_keeps_the_root(
    app: AppModel,
    generation: u64,
    result: Result<User, TaskErrorView>,
)
    requires
        app.rooted(),
    ensures
        app.login_complete(generation, result).rooted(),
{
    let a = AppModel { session: SessionState { login_task: false, ..app.session }, ..app };
    match result {
        Ok(user) => {
            a_signed_in_member_keeps_the_root(a, user);
        },
        Err(e) => {
            a_retry_keeps_the_root(a.gate_opened(), e);
        },
    }
}

proof fn an_update_keeps_the_root(
    app: AppModel,
    generation: u64,
    forced: bool,
    result: Result<Outcome, Seq<char>>,
)
    requires
        app.rooted(),
    ensures
        app.update_checked(generation, forced, result).rooted(),
{
}

proof fn a_login_message_keeps_the_root(
    app: AppModel,
    generation: u64,
    text: Seq<char>,
    result: Result<(), Seq<char>>,
)
    requires
        app.rooted(),
    ensures
        app.login_ready(generation, text).rooted(),
        app.login_failed(generation, text).rooted(),
        app.logout_reported(result).rooted(),
        app.noticed(text).rooted(),
{
}

proof fn a_session_message_keeps_the_root(app: AppModel, m: MsgModel)
    requires
        app.rooted(),
    ensures
        app.session_delivered(m).rooted(),
{
    reveal(AppModel::session_delivered);
    match m {
        MsgModel::Bootstrap { result, .. } => match result {
            Ok(user) => a_restored_session_keeps_the_root(app, user),
            Err(e) => a_failed_restore_keeps_the_root(app, e),
        },
        MsgModel::LoginReady { generation, url } => {
            a_login_message_keeps_the_root(app, generation, url, Ok(()));
        },
        MsgModel::LoginFailed { generation, message } => {
            a_login_message_keeps_the_root(app, generation, message, Ok(()));
        },
        MsgModel::LoginComplete { generation, result } => {
            a_finished_login_keeps_the_root(app, generation, result);
        },
        MsgModel::LoggedOut(result) => {
            a_login_message_keeps_the_root(app, 0, seq![], result);
        },
        MsgModel::Notice(n) => {
            a_login_message_keeps_the_root(app, 0, n, Ok(()));
        },
        MsgModel::UpdateChecked { generation, forced, result } => {
            an_update_keeps_the_root(app, generation, forced, result);
        },
        MsgModel::PaletteMember { query, user } => {
            assert(app.palette_member(query, user).screens == app.screens);
        },
        _ => {},
    }
}

/// Whatever message comes in, Home stays at the root of the stack.
pub proof fn a_message_keeps_the_root(app: AppModel, m: MsgModel)
    requires
        app.rooted(),
    ensures
        app.handled(m).rooted(),
{
    let a = app.window_shut(m);
    let b = match m.session_error() {
        Some(e) => {
            if !a.may_recheck(e.kind) && !a.is_echo(e.kind) {
                an_ended_session_keeps_the_root(
                    a,
                    "Session expired ("@ + e.message + "); log in again."@,
                );
            }
            a.bounded(e)
        },
        None => a,
    };
    a_page_keeps_the_root(b, m);
    a_page_keeps_the_root(b, m.retryable());
    an_outcome_keeps_the_root(b, m);
    an_outcome_keeps_the_root(b, m.retryable());
    a_session_message_keeps_the_root(b, m);
    a_session_message_keeps_the_root(b, m.retryable());
}

/// A page or an outcome never signs anybody in: whatever it brings, the member
/// stays who they are, or the session ends.
pub proof fn no_reply_signs_anybody_in(app: AppModel, m: MsgModel)
    requires
        app.rooted(),
        m.is_page() || m.is_outcome(),
    ensures
        app.handled(m).me == app.me || app.handled(m).me is None,
        m.session_error() is None ==> app.handled(m).me == app.me,
{
    let b = match m.session_error() {
        Some(e) => {
            if !app.may_recheck(e.kind) && !app.is_echo(e.kind) {
                an_ended_session_keeps_the_root(
                    app,
                    "Session expired ("@ + e.message + "); log in again."@,
                );
            }
            app.bounded(e)
        },
        None => app,
    };
    a_page_keeps_the_root(b, m);
    a_page_keeps_the_root(b, m.retryable());
    an_outcome_keeps_the_root(b, m);
    an_outcome_keeps_the_root(b, m.retryable());
}

/// A failure that says the session is over, where no look at the token store is
/// owed or under way, signs the member out, whatever message brings it.
pub proof fn a_rejection_signs_the_member_out(app: AppModel, m: MsgModel)
    requires
        app.rooted(),
        !app.is_stale(m),
        m.session_error() matches Some(e) && !app.may_recheck(e.kind) && (m is Bootstrap
            || !app.is_echo(e.kind)),
    ensures
        app.handled(m).me is None,
{
    let e = m.session_error()->0;
    let a = app.window_shut(m);
    let reason = "Session expired ("@ + e.message + "); log in again."@;
    an_ended_session_keeps_the_root(a, reason);
    let b = a.session_ended(reason);
    a_page_keeps_the_root(b, m.retryable());
    an_outcome_keeps_the_root(b, m.retryable());
    reveal(AppModel::session_delivered);
}

proof fn a_list_keeps_the_root(app: AppModel, node_id: u32, title: Seq<char>)
    requires
        app.rooted(),
    ensures
        app.list_opened(node_id, title).rooted(),
{
    assert forall|b: AppModel| b.rooted() implies (#[trigger] b.forum_loading(
        node_id,
        1,
    )).rooted() by {
        a_load_keeps_the_root(b, node_id, 1);
    }
}

proof fn a_begun_search_keeps_the_root(app: AppModel)
    requires
        app.rooted(),
    ensures
        app.search_begun().rooted(),
{
    topmost_is_the_greatest(app.screens, Wanted::Search);
}

proof fn a_popped_screen_keeps_the_root(app: AppModel)
    requires
        app.rooted(),
        app.can_pop(),
    ensures
        app.popped().rooted(),
{
}

proof fn a_place_keeps_the_root(app: AppModel, a: Action)
    requires
        app.rooted(),
    ensures
        app.place_opened(a).rooted(),
{
    reveal(AppModel::place_opened);
    assert forall|b: AppModel, node_id: u32, title: Seq<char>| b.rooted() implies (
    #[trigger] b.list_opened(node_id, title)).rooted() by {
        a_list_keeps_the_root(b, node_id, title);
    }
    assert forall|b: AppModel| b.rooted() implies (#[trigger] b.search_begun()).rooted() by {
        a_begun_search_keeps_the_root(b);
    }
    if app.can_pop() {
        a_popped_screen_keeps_the_root(app);
    }
}

proof fn a_fetch_keeps_the_root(app: AppModel, a: Action)
    requires
        app.rooted(),
    ensures
        app.load_asked(a).rooted(),
{
    reveal(AppModel::load_asked);
    assert forall|b: AppModel| b.rooted() implies (#[trigger] b.search_begun()).rooted() by {
        a_begun_search_keeps_the_root(b);
    }
    topmost_is_the_greatest(app.screens, Wanted::Tree);
    if let Action::LoadForum(node_id, page) = a {
        a_load_keeps_the_root(app, node_id, page);
    }
}

/// Whatever a screen asks for, Home stays at the root of the stack.
pub proof fn an_action_keeps_the_root(app: AppModel, a: Action)
    requires
        app.rooted(),
    ensures
        app.acted(a).rooted(),
{
    reveal(AppModel::write_asked);
    a_place_keeps_the_root(app, a);
    a_fetch_keeps_the_root(app, a);
}

proof fn signing_out_keeps_the_root(app: AppModel)
    requires
        app.rooted(),
    ensures
        app.logged_out().rooted(),
{
    an_ended_session_keeps_the_root(
        app.asking(EffectModel::Logout).asking(EffectModel::ClearDrafts),
        "Logged out."@,
    );
}

/// Wherever the palette leads, Home stays at the root of the stack.
pub proof fn a_palette_target_keeps_the_root(app: AppModel, t: TargetModel)
    requires
        app.rooted(),
    ensures
        app.target_run(t).rooted(),
{
    assert forall|node_id: u32, title: Seq<char>| (#[trigger] app.list_opened(
        node_id,
        title,
    )).rooted() by {
        a_list_keeps_the_root(app, node_id, title);
    }
    signing_out_keeps_the_root(app);
}

/// Wherever a chord leads, Home stays at the root of the stack.
pub proof fn a_chord_keeps_the_root(app: AppModel, t: GoTarget)
    requires
        app.rooted(),
    ensures
        app.gone_to(t).rooted(),
{
    assert forall|node_id: u32, title: Seq<char>| (#[trigger] app.list_opened(
        node_id,
        title,
    )).rooted() by {
        a_list_keeps_the_root(app, node_id, title);
    }
}

proof fn esc_keeps_the_root(app: AppModel)
    requires
        app.rooted(),
    ensures
        app.escaped().rooted(),
{
    if app.can_pop() {
        a_popped_screen_keeps_the_root(app);
    }
}

/// Whatever key is pressed, Home stays at the root of the stack.
pub proof fn a_key_keeps_the_root(app: AppModel, k: KeyEvent, top: TopScreen)
    requires
        app.rooted(),
    ensures
        app.keyed(k, top).0.rooted(),
{
    esc_keeps_the_root(app);
    signing_out_keeps_the_root(app);
}

proof fn a_click_keeps_the_root(app: AppModel, at: Pointed, double: bool)
    requires
        app.rooted(),
    ensures
        app.clicked(at, double).0.rooted(),
{
}

/// Whatever the pointer does, Home stays at the root of the stack.
pub proof fn the_pointer_keeps_the_root(
    app: AppModel,
    me: MouseEvent,
    at: Pointed,
    next: AppModel,
    r: Gesture,
)
    requires
        app.rooted(),
        app.moused(me, at, next, r),
    ensures
        next.rooted(),
{
    reveal(AppModel::presses);
    reveal(AppModel::releases);
    let a = app.press_counted((me.column, me.row));
    a_click_keeps_the_root(
        a.with_pointer(Pointer { selection: None, ..a.pointer }),
        at,
        true,
    );
    a_click_keeps_the_root(app.released(), at, false);
}

/// A paste keeps Home at the root of the stack.
pub proof fn a_paste_keeps_the_root(app: AppModel, text: Seq<char>, count: usize)
    requires
        app.rooted(),
    ensures
        app.paste_begun(text).rooted(),
        app.paste_inserted(text, count).rooted(),
{
}

/// Time passing keeps Home at the root of the stack.
pub proof fn time_keeps_the_root(app: AppModel)
    requires
        app.rooted(),
    ensures
        app.toast_cleared().rooted(),
        app.recovery_expired().rooted(),
        app.autoloaded().rooted(),
{
    an_ended_session_keeps_the_root(
        AppModel {
            session: SessionState {
                recovery_pending: false,
                recovery_started_at: None,
                ..app.session
            },
            ..app
        },
        "Session check timed out; log in again."@,
    );
}

/// A run starts with Home at the root of the stack.
pub proof fn a_start_puts_home_at_the_root(app: AppModel, has_tokens: bool)
    requires
        app.screens.len() == 0,
    ensures
        app.bootstrapped(has_tokens).rooted(),
{
}

} // verus!
