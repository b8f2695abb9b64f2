//! What holds of the client as a whole, over every state and every message.

use vstd::prelude::*;

use crate::app::{list_in, topmost, topmost_is_the_greatest, wants, AppModel, Wanted};
use crate::effects::EffectModel;
use crate::errors::{TaskErrorKind, TaskErrorView};
use crate::models::{page_of, ForumReply, ThreadReply, Toggle, User};
use crate::msg::{MsgModel, PostVerb};
use crate::screens::{Pane, ScreenModel, ThreadListModel};
use crate::session::{after, kept_screens, outlives_session};

verus! {

/// Filtering keeps only what outlives a session.
proof fn lemma_kept(s: Seq<ScreenModel>, login: bool)
    ensures
        forall|i: int|
            0 <= i < kept_screens(s, login).len() ==> outlives_session(
                #[trigger] kept_screens(s, login)[i],
                login,
            ),
        kept_screens(s, login).len() <= s.len(),
{
    broadcast use vstd::seq_lib::group_filter_ensures;

    let p = |x: ScreenModel| outlives_session(x, login);
    assert forall|i: int| 0 <= i < kept_screens(s, login).len() implies outlives_session(
        #[trigger] kept_screens(s, login)[i],
        login,
    ) by {
        assert(p(s.filter(p)[i]));
    }
    s.lemma_filter_len(p);
}

/// Once a session has ended nobody is signed in, the sign-in screen is on top,
/// no poller runs, no overlay is up, every write that still waited is aborted,
/// and the check that counts is a new one.
pub proof fn an_ended_session_leaves_nothing_behind(app: AppModel, reason: Seq<char>)
    ensures
        ({
            let end = app.session_ended(reason);
            &&& end.me is None
            &&& end.login_up()
            &&& !end.pollers
            &&& end.palette is None && !end.show_help && !end.chord
            &&& end.pointer.selection is None
            &&& end.keep_thread_position is None
            &&& end.alerts_unread == 0 && end.convos_unread == 0
            &&& !end.session.bootstrap_retry_needed
            &&& !end.session.recovery_tried && !end.session.recovery_pending
            &&& end.session.bootstrap_generation != app.session.bootstrap_generation
            &&& end.effects == app.effects.push(EffectModel::StopPollers).push(
                EffectModel::AbortWrites,
            )
            &&& end.status == reason && end.status_set_at is None
        }),
{
    lemma_kept(app.screens, true);
}

/// Once a session has ended, every screen left is Home, the forum tree or the
/// sign-in; and the list of a Home at the root is as if nobody had loaded it.
pub proof fn an_ended_session_shows_no_old_content(app: AppModel, reason: Seq<char>, i: int)
    requires
        0 <= i < app.session_ended(reason).screens.len(),
    ensures
        outlives_session(app.session_ended(reason).screens[i], true),
        app.session_ended(reason).screens[0] matches ScreenModel::Home(h) ==> h.list
            == ThreadListModel::initial() && h.focus == Pane::Tree,
{
    lemma_kept(app.screens, true);
}

/// A stored-session check of a session that has since ended changes nothing.
pub proof fn a_stale_bootstrap_is_dropped(
    app: AppModel,
    generation: u64,
    result: Result<User, TaskErrorView>,
)
    requires
        generation != app.session.bootstrap_generation,
    ensures
        app.handled(MsgModel::Bootstrap { generation, result }) == app,
{
}

/// Signing out while a stored session is being restored: whatever that restore
/// comes to, it signs nobody back in.
pub proof fn logout_drops_the_restore_in_flight(app: AppModel, result: Result<User, TaskErrorView>)
    ensures
        ({
            let late = MsgModel::Bootstrap {
                generation: app.session.bootstrap_generation,
                result,
            };
            &&& app.logged_out().handled(late) == app.logged_out()
            &&& app.logged_out().me is None
        }),
{
    let asked = app.asking(EffectModel::Logout).asking(EffectModel::ClearDrafts);
    an_ended_session_leaves_nothing_behind(asked, "Logged out."@);
}

/// A message of a sign-in flow that was superseded changes nothing.
pub proof fn a_superseded_login_is_dropped(
    app: AppModel,
    generation: u64,
    url: Seq<char>,
    message: Seq<char>,
    result: Result<User, TaskErrorView>,
)
    requires
        generation != app.session.login_generation,
    ensures
        app.handled(MsgModel::LoginReady { generation, url }) == app,
        app.handled(MsgModel::LoginFailed { generation, message }) == app,
        app.handled(MsgModel::LoginComplete { generation, result }) == app,
{
    reveal(AppModel::session_delivered);
}

/// Starting the sign-in again supersedes the flow that ran: it is aborted, and
/// none of its messages counts any more.
pub proof fn beginning_again_supersedes_the_login(
    app: AppModel,
    url: Seq<char>,
    message: Seq<char>,
    result: Result<User, TaskErrorView>,
)
    ensures
        ({
            let generation = app.session.login_generation;
            let next = app.login_begun();
            &&& next.handled(MsgModel::LoginReady { generation, url }) == next
            &&& next.handled(MsgModel::LoginFailed { generation, message }) == next
            &&& next.handled(MsgModel::LoginComplete { generation, result }) == next
            &&& app.session.login_task ==> next.effects.contains(EffectModel::AbortLogin)
        }),
{
    let next = app.login_begun();
    if app.session.login_task {
        assert(next.effects[app.effects.len() as int] == EffectModel::AbortLogin);
    }
    a_superseded_login_is_dropped(next, app.session.login_generation, url, message, result);
}

/// A poller's report inside the recovery window changes nothing: it speaks of
/// the very grant that is being replaced.
pub proof fn a_poller_report_in_the_window_is_swallowed(app: AppModel, e: TaskErrorView)
    requires
        app.session.recovery_pending,
        app.session.recovery_tried,
    ensures
        app.handled(MsgModel::SessionLost(e)) == app,
{
    reveal(AppModel::session_delivered);
}

/// No rejection that lands inside the recovery window ends the session; only
/// the check's own report may.
pub proof fn the_window_protects_the_session(app: AppModel, m: MsgModel)
    requires
        app.session.recovery_pending,
        app.session.recovery_tried,
        m !is Bootstrap,
        m.session_error() is Some,
    ensures
        app.handled(m) == app.delivered(m.retryable()),
{
}

/// A live session that loses its token looks at the token store first, keeps
/// its member while it does, and looks only once.
pub proof fn a_lost_token_is_rechecked_once(app: AppModel, e: TaskErrorView)
    requires
        app.me is Some,
        !app.session.recovery_tried,
        e.ends_session(),
        e.kind.is_recheckable(),
    ensures
        ({
            let next = app.handled(MsgModel::SessionLost(e));
            &&& next == app.rechecking(e.message)
            &&& next.me == app.me
            &&& next.screens == app.screens
            &&& next.session.recovery_pending && next.session.recovery_tried
            &&& next.handled(MsgModel::SessionLost(e)) == next
        }),
{
    reveal(AppModel::session_delivered);
}

/// A refusal of one action never touches the session, whatever message brings
/// it: only the bootstrap's answer can say that the account is gone.
pub proof fn a_refused_action_keeps_the_session(app: AppModel, m: MsgModel)
    requires
        m !is Bootstrap,
        m.api_failure() matches Some(e) && e.kind == TaskErrorKind::Api(403),
    ensures
        app.handled(m) == app.delivered(m),
{
}

/// A transient failure of the check leaves a live session as it was: same
/// member, same screens, no retry armed, and the next lost token gets its look
/// at the store again.
pub proof fn a_transient_failure_keeps_a_live_session(
    app: AppModel,
    generation: u64,
    e: TaskErrorView,
)
    requires
        generation == app.session.bootstrap_generation,
        app.me is Some,
        !e.ends_session(),
        !e.is_account_gone(),
    ensures
        ({
            let next = app.handled(MsgModel::Bootstrap { generation, result: Err(e) });
            &&& next.me == app.me
            &&& next.screens == app.screens
            &&& next.session.bootstrap_retry_needed == app.session.bootstrap_retry_needed
            &&& !next.session.recovery_tried && !next.session.recovery_pending
            &&& next.pollers
        }),
{
    reveal(AppModel::session_delivered);
}

/// A transient failure with nobody signed in arms the retry and signs nobody
/// in or out.
pub proof fn a_transient_failure_arms_the_retry(app: AppModel, generation: u64, e: TaskErrorView)
    requires
        generation == app.session.bootstrap_generation,
        app.me is None,
        !e.ends_session(),
        !e.is_account_gone(),
    ensures
        ({
            let next = app.handled(MsgModel::Bootstrap { generation, result: Err(e) });
            &&& next.me is None
            &&& next.session.bootstrap_retry_needed
            &&& next.screens.len() == app.screens.len()
            &&& next.effects == app.effects
        }),
{
    reveal(AppModel::session_delivered);
    let m = MsgModel::Bootstrap { generation, result: Err(e) };
    assert(m.session_error() is None);
    assert(app.handled(m) == app.window_shut(m).retry_armed(e));
    topmost_is_the_greatest(app.screens, Wanted::Tree);
}

/// The stored session turned out to be another member's: nothing that was
/// shown, typed or counted for the one before is left, and every write in the
/// other name is aborted before anything else is asked for.
pub proof fn a_changed_identity_inherits_nothing(app: AppModel, user: User)
    requires
        app.is_other(user),
    ensures
        ({
            let gone = app.adopted(user);
            &&& gone.me == Some(user)
            &&& gone.alerts_unread == 0 && gone.convos_unread == 0
            &&& gone.palette is None && !gone.chord && gone.keep_thread_position is None
            &&& gone.effects == app.effects.push(EffectModel::AbortWrites).push(
                EffectModel::ClearDrafts,
            )
            &&& forall|i: int|
                0 <= i < gone.screens.len() ==> outlives_session(#[trigger] gone.screens[i], false)
            &&& gone.screens.len() > 0
            &&& gone.screens[0] matches ScreenModel::Home(h) ==> h.list
                == ThreadListModel::initial()
        }),
{
    lemma_kept(app.screens, false);
}

/// At most one pair of pollers runs: starting stops the pair before.
pub proof fn starting_pollers_replaces_the_pair(app: AppModel)
    ensures
        app.pollers_started().pollers,
        app.pollers_started().effects == app.effects.push(EffectModel::StopPollers).push(
            EffectModel::SyncDrafts,
        ).push(EffectModel::StartPollers),
        app.pollers_started().pollers_started().pollers,
{
}

/// A toast goes once, and a hint never goes by itself.
pub proof fn toasts_expire_once_and_hints_never(app: AppModel, s: Seq<char>, later: u64)
    ensures
        !app.toast_cleared().toast_overdue(),
        !(AppModel { clock: later, ..app.hint(s) }).toast_overdue(),
        !app.status(s).toast_overdue(),
{
}

/// The clock shuts a recovery window once, and never ends a live session.
pub proof fn an_overdue_recovery_keeps_a_live_session(app: AppModel)
    requires
        app.me is Some,
    ensures
        app.recovery_expired().me == app.me,
        app.recovery_expired().screens == app.screens,
        !app.recovery_expired().recovery_overdue(),
{
}

/// A forum page that no list waits for is dropped.
pub proof fn a_stale_forum_page_is_dropped(
    app: AppModel,
    node_id: u32,
    page: u32,
    append: bool,
    seq: u64,
    result: Result<ForumReply, TaskErrorView>,
)
    requires
        app.list_awaiting(node_id, seq) is None,
    ensures
        app.forum_loaded(node_id, page, append, seq, result) == app,
{
}

/// A forum page reaches the one list that waits for it and no other screen.
pub proof fn a_forum_page_reaches_one_list(
    app: AppModel,
    node_id: u32,
    page: u32,
    append: bool,
    seq: u64,
    result: Result<ForumReply, TaskErrorView>,
    j: int,
)
    requires
        0 <= j < app.screens.len(),
        app.list_awaiting(node_id, seq) != Some(j),
    ensures
        app.forum_loaded(node_id, page, append, seq, result).screens[j] == app.screens[j],
{
    topmost_is_the_greatest(app.screens, Wanted::ListOf(node_id));
}

/// A fresh load makes every page that is still out for the list stale.
pub proof fn a_fresh_load_outdates_the_pages_in_flight(
    app: AppModel,
    node_id: u32,
    page: u32,
    seq: u64,
)
    requires
        seq != app.minted.next_list_seq,
    ensures
        app.forum_loading(node_id, page).list_awaiting(node_id, seq) is None,
{
    let next = app.forum_loading(node_id, page);
    topmost_is_the_greatest(app.screens, Wanted::ListOf(node_id));
    topmost_is_the_greatest(next.screens, Wanted::ListOf(node_id));
    if let Some(i) = topmost(app.screens, Wanted::ListOf(node_id)) {
        if let Some(k) = topmost(next.screens, Wanted::ListOf(node_id)) {
            if k != i {
                assert(next.screens[k] == app.screens[k]);
                assert(crate::app::wants(Wanted::ListOf(node_id), next.screens[i]));
            }
        }
    }
}

/// A position is kept for one load and no longer.
pub proof fn a_kept_position_is_spent(
    app: AppModel,
    id: u32,
    page: u32,
    result: Result<ThreadReply, TaskErrorView>,
)
    ensures
        app.thread_loaded(id, page, result).keep_thread_position is None,
{
}

/// A like that lands after its session ended reloads nothing and asks for
/// nothing.
pub proof fn a_toggle_after_teardown_reloads_nothing(app: AppModel, verb: PostVerb, toggle: Toggle)
    requires
        app.me is None,
    ensures
        app.handled(MsgModel::PostToggled { verb, result: Ok(toggle) }) == app.status(
            verb.notice_text(toggle),
        ),
{
    reveal(AppModel::outcome_delivered);
}

/// Once a conversation is on its way, no late lookup sends a second one.
pub proof fn a_late_lookup_sends_nothing(
    app: AppModel,
    name: Seq<char>,
    id: Result<Option<u32>, TaskErrorView>,
)
    requires
        topmost(app.screens, Wanted::NewConversation) matches Some(i)
            && app.screens[i]->NewConversation_0.resolving == 0,
    ensures
        app.recipient_resolved(name, id) == app,
{
}

/// A search or profile reply that no screen waits for is dropped.
pub proof fn an_unawaited_reply_is_dropped(
    app: AppModel,
    generation: u64,
    page: u32,
    found: Result<crate::models::SearchResultsReply, TaskErrorView>,
    user: Result<User, TaskErrorView>,
)
    ensures
        topmost(app.screens, Wanted::SearchLoad(generation)) is None ==> app.search_done(
            generation,
            page,
            found,
        ) == app,
        topmost(app.screens, Wanted::ProfileLoad(generation)) is None ==> app.profile_loaded(
            generation,
            user,
        ) == app,
{
}

/// A profile or search opened anew takes a number that the one before did not
/// have.
pub proof fn new_loads_take_new_numbers(app: AppModel, user_id: u32, name: Seq<char>)
    ensures
        app.profile_opened(user_id, name).minted.profile_generation
            != app.minted.profile_generation,
        app.search_begun().minted.search_generation != app.minted.search_generation,
        app.forum_loading(user_id, 1).minted.next_list_seq != app.minted.next_list_seq,
        app.login_begun().session.login_generation != app.session.login_generation,
{
}

/// A failed reply, thread or message gives its composer back to the writer,
/// with the failure beside the text and the text untouched.
pub proof fn a_failed_write_frees_its_composer(
    app: AppModel,
    w: Wanted,
    what: Seq<char>,
    e: TaskErrorView,
)
    requires
        w is ReplyComposer || w is ThreadComposer || w is ConvoComposer,
        topmost(app.screens, w) is Some,
    ensures
        ({
            let i = topmost(app.screens, w)->0;
            let before = app.screens[i]->Compose_0;
            let next = app.write_failed(w, what, e);
            &&& next.screens.len() == app.screens.len()
            &&& next.screens[i] matches ScreenModel::Compose(c) && !c.busy && c.error == Some(
                e.message,
            ) && c.body == before.body && c.title == before.title
        }),
{
    topmost_is_the_greatest(app.screens, w);
}

/// A list whose load failed is no longer on its way, and a failed fill leaves
/// the rows that are shown and says nothing over them.
pub proof fn a_failed_page_frees_its_list(
    app: AppModel,
    node_id: u32,
    page: u32,
    append: bool,
    seq: u64,
    e: TaskErrorView,
)
    requires
        app.list_awaiting(node_id, seq) is Some,
    ensures
        ({
            let i = app.list_awaiting(node_id, seq)->0;
            let before = list_in(app.screens[i]);
            let next = app.forum_loaded(node_id, page, append, seq, Err(e));
            let after = list_in(next.screens[i]);
            &&& !after.loading
            &&& after.threads == before.threads
            &&& append ==> after.error == before.error
            &&& next.effects == app.effects
        }),
{
    topmost_is_the_greatest(app.screens, Wanted::ListOf(node_id));
}

/// The automatic fill of a list is bounded: a page asks for at most one more,
/// for the very list it filled, and only against the list's budget, which that
/// page spends.
pub proof fn a_fill_spends_its_budget(
    app: AppModel,
    node_id: u32,
    page: u32,
    append: bool,
    seq: u64,
    reply: ForumReply,
)
    requires
        app.list_awaiting(node_id, seq) is Some,
    ensures
        ({
            let i = app.list_awaiting(node_id, seq)->0;
            let before = list_in(app.screens[i]);
            let next = app.forum_loaded(node_id, page, append, seq, Ok(reply));
            let after = list_in(next.screens[i]);
            ||| next.effects == app.effects && after.fill_budget == before.fill_budget
                && !after.loading
            ||| {
                &&& next.effects.len() == app.effects.len() + 1
                &&& next.effects.drop_last() == app.effects
                &&& next.effects.last() matches EffectModel::LoadForumPage {
                    node_id: n,
                    append: a,
                    seq: s,
                    ..
                } && n == node_id && a && s == seq
                &&& after.fill_budget == before.fill_budget - 1
                &&& after.loading
            }
        }),
{
    topmost_is_the_greatest(app.screens, Wanted::ListOf(node_id));
    let i = app.list_awaiting(node_id, seq)->0;
    let list = list_in(app.screens[i]).page_taken(page, append, reply);
    let next = app.forum_loaded(node_id, page, append, seq, Ok(reply));
    if list.wants_fill() {
        assert(next.effects.drop_last() =~= app.effects);
    }
}

/// The reader's scrolling has one page in flight at a time: asked again before
/// it came in, nothing more is asked for.
pub proof fn one_page_is_in_flight(app: AppModel)
    ensures
        app.autoloaded().autoloaded() == app.autoloaded(),
{
}

/// A reader who has come within a screenful of the last row gets the next page,
/// whatever is left of the automatic fill's budget, and spends none of it.
pub proof fn a_reader_at_the_end_gets_the_next_page(app: AppModel)
    requires
        app.screens.len() > 0,
        wants(Wanted::List, app.screens.last()),
        !list_in(app.screens.last()).loading,
        list_in(app.screens.last()).error is None,
        list_in(app.screens.last()).visible > 0,
        0 < list_in(app.screens.last()).threads.len() <= list_in(app.screens.last()).sel
            + list_in(app.screens.last()).visible,
        page_of(list_in(app.screens.last()).page) + page_of(
            list_in(app.screens.last()).pages_loaded,
        ) <= list_in(app.screens.last()).last_page,
    ensures
        ({
            let list = list_in(app.screens.last());
            let next = app.autoloaded();
            &&& next.effects == app.effects.push(
                EffectModel::LoadForumPage {
                    node_id: list.node_id,
                    page: (page_of(list.page) + page_of(list.pages_loaded)) as u32,
                    append: true,
                    seq: list.load_seq,
                },
            )
            &&& list_in(next.screens.last()) == ThreadListModel { loading: true, ..list }
        }),
{
}

/// The next page of a fill goes behind the rows that are shown, in its order,
/// and moves none of them.
pub proof fn a_fill_goes_behind(list: ThreadListModel, page: u32, reply: ForumReply)
    requires
        page == list.next_page(),
    ensures
        list.threads.is_prefix_of(list.page_taken(page, true, reply).threads),
        list.page_taken(page, true, reply).threads.skip(list.threads.len() as int)
            == reply.threads@,
        list.page_taken(page, true, reply).page == list.page,
{
    assert((list.threads + reply.threads@).skip(list.threads.len() as int) =~= reply.threads@);
}

} // verus!
