//! Signing in, staying signed in and signing out: what each asks of the front end,
//! what it leaves on the stack, and what it says.

use vstd::prelude::*;

use crate::app::{topmost_is_the_greatest, AppModel, Pointer, SessionState, Wanted};
use crate::effects::EffectModel;
use crate::errors::{error_view, Error, TaskErrorKind, TaskErrorView};
use crate::input::{KeyRoute, TopScreen};
use crate::keys::{KeyCode, KeyEvent};
use crate::models::User;
use crate::msg::{MsgModel, PostVerb};
use crate::palette::TargetModel;
use crate::reading::lemma_found;
use crate::screens::{
    ForumTreeModel, LoginModel, LoginStage, Pane, ScreenModel, SearchModel, ThreadListModel,
};
use crate::session::{kept_screens, outlives_session};
use crate::text::{capped, parsed_u32};

verus! {

/// Of a stack, the screens of a session are gone, and the others are left: Home, the forum
/// tree, and the sign-in where it may stay.
pub open spec fn is_kept_of(kept: Seq<ScreenModel>, s: Seq<ScreenModel>, login: bool) -> bool {
    &&& kept.len() <= s.len()
    &&& forall|i: int|
        0 <= i < kept.len() ==> ((#[trigger] kept[i]) is Home || kept[i] is ForumTree || (login
            && kept[i] is Login)) && s.contains(kept[i])
    &&& forall|i: int|
        0 <= i < s.len() && ((#[trigger] s[i]) is Home || s[i] is ForumTree) ==> kept.contains(s[i])
    &&& s.len() > 0 && s[0] is Home ==> kept.len() > 0 && kept[0] == s[0]
}

proof fn lemma_kept_of(s: Seq<ScreenModel>, login: bool)
    ensures
        is_kept_of(kept_screens(s, login), s, login),
    decreases s.len(),
{
    let p = |x: ScreenModel| outlives_session(x, login);
    reveal(Seq::filter);
    if s.len() > 0 {
        let before = s.drop_last();
        lemma_kept_of(before, login);
        let less = kept_screens(before, login);
        let kept = kept_screens(s, login);
        assert(kept == (if p(s.last()) {
            less.push(s.last())
        } else {
            less
        }));
        assert forall|i: int| 0 <= i < kept.len() implies ((#[trigger] kept[i]) is Home || kept[i] is
            ForumTree || (login && kept[i] is Login)) && s.contains(kept[i]) by {
            if i < less.len() {
                assert(kept[i] == less[i]);
                let j = choose|j: int| 0 <= j < before.len() && before[j] == kept[i];
                assert(s[j] == kept[i]);
            } else {
                assert(s[s.len() - 1] == kept[i]);
            }
        }
        assert forall|i: int|
            0 <= i < s.len() && ((#[trigger] s[i]) is Home || s[i] is ForumTree) implies kept.contains(
            s[i],
        ) by {
            if i < before.len() {
                assert(before[i] == s[i]);
                let j = choose|j: int| 0 <= j < less.len() && less[j] == s[i];
                assert(kept[j] == s[i]);
            } else {
                assert(kept.last() == s[i]);
            }
        }
    }
}

/// What is true once nobody is signed in any more.
pub open spec fn is_signed_out(app: AppModel, end: AppModel, reason: Seq<char>) -> bool {
    &&& end.me is None
    &&& end.screens.len() > 0 && end.screens.last() is Login
    &&& end.screens.len() <= app.screens.len() + 1
    &&& forall|i: int|
        0 <= i < end.screens.len() ==> (#[trigger] end.screens[i] is Home || end.screens[i] is
            ForumTree || end.screens[i] is Login)
    &&& app.screens.len() > 0 && app.screens[0] is Home ==> (end.screens[0] matches
        ScreenModel::Home(h) && h.list == ThreadListModel::initial() && h.focus == Pane::Tree
        && h.tree == app.screens[0]->Home_0.tree)
    &&& forall|i: int|
        0 <= i < app.screens.len() && (#[trigger] app.screens[i] is ForumTree)
            ==> end.screens.contains(app.screens[i])
    &&& !end.pollers && end.palette is None && !end.show_help && !end.chord
    &&& end.pointer == (Pointer { selection: None, ..app.pointer })
    &&& end.keep_thread_position is None && end.last_title == app.last_title
    &&& end.alerts_unread == 0 && end.convos_unread == 0
    &&& !end.session.bootstrap_retry_needed && !end.session.recovery_tried
    &&& !end.session.recovery_pending && end.session.recovery_started_at is None
    &&& end.session.bootstrap_generation != app.session.bootstrap_generation
    &&& end.session.login_generation == app.session.login_generation
    &&& end.session.login_task == app.session.login_task
    &&& end.status == reason && end.status_set_at is None
    &&& end.clipboard == app.clipboard && end.site == app.site && end.clock == app.clock
    &&& end.should_quit == app.should_quit && end.updater == app.updater
    &&& end.minted == app.minted
}

proof fn lemma_signed_out(app: AppModel, reason: Seq<char>)
    ensures
        is_signed_out(app, app.session_ended(reason), reason),
{
    lemma_kept_of(app.screens, true);
    let kept = kept_screens(app.screens, true);
    let end = app.session_ended(reason);
    assert forall|i: int| 0 <= i < app.screens.len() && (#[trigger] app.screens[i] is
        ForumTree) implies end.screens.contains(app.screens[i]) by {
        let j = choose|j: int| 0 <= j < kept.len() && kept[j] == app.screens[i];
        assert(end.screens[j] == app.screens[i]);
    }
}

/// Signing out asks for the sign-out itself, which forgets the tokens and revokes
/// them, before anything else; then the drafts go, the pollers stop and the writes
/// that still wait are aborted. It does so in every state, and leaves nothing of the
/// session on show.
pub proof fn signing_out_signs_out(app: AppModel, k: KeyEvent, top: TopScreen)
    requires
        k.code == KeyCode::Char('l') && k.modifiers.control,
        app.me is Some || app.screens.len() == 0 || !(app.screens.last() is Login),
    ensures
        ({
            let asked = app.effects.push(EffectModel::Logout).push(EffectModel::ClearDrafts).push(
                EffectModel::StopPollers,
            ).push(EffectModel::AbortWrites);
            let by_key = app.keyed(k, top).0;
            let by_row = app.target_run(TargetModel::SignOut);
            &&& app.keyed(k, top).1 == KeyRoute::Done
            &&& by_key.effects == asked && is_signed_out(app, by_key, "Logged out."@)
            &&& by_row.effects == asked && is_signed_out(app, by_row, "Logged out."@)
        }),
{
    let a = app.asking(EffectModel::Logout).asking(EffectModel::ClearDrafts);
    let b = AppModel { effects: a.effects, ..app };
    lemma_signed_out(b, "Logged out."@);
}

/// A session that the site rejects for good ends: the pollers stop, the writes are
/// aborted, and the reader is told why and asked to sign in.
pub proof fn a_rejected_session_ends(app: AppModel, e: TaskErrorView)
    requires
        e.kind == TaskErrorKind::OAuth,
        e.code != Some("http_error"@),
        !app.session.recovery_pending,
    ensures
        ({
            let next = app.handled(MsgModel::SessionLost(e));
            &&& next.effects == app.effects.push(EffectModel::StopPollers).push(
                EffectModel::AbortWrites,
            )
            &&& is_signed_out(
                app,
                next,
                "Session expired ("@ + e.message + "); log in again."@,
            )
        }),
{
    reveal(AppModel::session_delivered);
    lemma_signed_out(app, "Session expired ("@ + e.message + "); log in again."@);
}

/// A stored session that the site has no account for, or rejects, ends as well.
pub proof fn a_rejected_restore_ends(app: AppModel, e: TaskErrorView)
    requires
        e.kind == TaskErrorKind::OAuth && e.code != Some("http_error"@) || e.kind
            == TaskErrorKind::Api(403) && e.code == Some("you_have_been_banned"@),
    ensures
        ({
            let generation = app.session.bootstrap_generation;
            let next = app.handled(MsgModel::Bootstrap { generation, result: Err(e) });
            &&& next.me is None
            &&& next.screens.len() > 0 && next.screens.last() is Login
            &&& next.status == "Session expired ("@ + e.message + "); log in again."@
            &&& next.effects == app.effects.push(EffectModel::StopPollers).push(
                EffectModel::AbortWrites,
            )
        }),
{
    let generation = app.session.bootstrap_generation;
    let m = MsgModel::Bootstrap { generation, result: Err(e) };
    reveal_strlit("you_have_been_banned");
    reveal_strlit("api_error.");
    assert(!"api_error."@.is_prefix_of("you_have_been_banned"@)) by {
        assert("api_error."@[0] != "you_have_been_banned"@[0]);
    }
    assert(m.session_error() == Some(e));
    lemma_signed_out(
        app.window_shut(m),
        "Session expired ("@ + e.message + "); log in again."@,
    );
}

/// A list at the root that nobody has loaded is filled with the latest posts.
pub open spec fn primes(app: AppModel, effects: Seq<EffectModel>, next: AppModel) -> bool {
    if app.screens.len() > 0 && (app.screens[0] matches ScreenModel::Home(h) && h.list.threads.len()
        == 0 && !h.list.loading && h.list.node_id == 0) {
        next.effects == effects.push(
            EffectModel::LoadForumPage {
                node_id: 0,
                page: 1,
                append: false,
                seq: app.minted.next_list_seq,
            },
        ) && next.screens.len() > 0 && (next.screens[0] matches ScreenModel::Home(h)
            && h.list.title == "Latest posts"@ && h.list.page == 1 && h.list.loading
            && h.list.threads.len() == 0 && h.tree == app.screens[0]->Home_0.tree)
    } else {
        next.effects == effects && next.screens == app.screens
    }
}

proof fn lemma_primes(app: AppModel)
    ensures
        primes(app, app.effects, app.home_primed()),
        app.home_primed().screens.len() == app.screens.len(),
        forall|j: int|
            0 < j < app.screens.len() && !(app.screens[j] is ThreadList) && !(app.screens[j] is
                Home) ==> #[trigger] app.home_primed().screens[j] == app.screens[j],
        forall|j: int|
            0 <= j < app.screens.len() && app.screens[j] is Home ==> #[trigger] app.home_primed().screens[j] is
                Home,
        app.home_primed() == (AppModel {
            screens: app.home_primed().screens,
            minted: app.home_primed().minted,
            effects: app.home_primed().effects,
            ..app
        }),
{
    if app.home_list_unloaded() {
        let h = app.screens[0]->Home_0;
        let list = ThreadListModel { title: "Latest posts"@, page: 1, loading: true, ..h.list };
        let a = app.with_screen(
            0,
            ScreenModel::Home(crate::screens::HomeModel { list, ..h }),
        );
        topmost_is_the_greatest(a.screens, Wanted::ListOf(0));
    }
}

/// Once the stored session turns out to be a member's, that member is signed in: the
/// pollers and the drafts start, the forums are fetched, and a root that shows
/// nothing yet gets the latest posts. What was on the stack stays, but for the
/// sign-in screen on top.
pub proof fn a_restored_session_signs_in(app: AppModel, user: User)
    requires
        app.me matches Some(u) ==> u.user_id == user.user_id,
    ensures
        ({
            let generation = app.session.bootstrap_generation;
            let next = app.handled(MsgModel::Bootstrap { generation, result: Ok(user) });
            let rest = if app.screens.len() > 0 && app.screens.last() is Login {
                app.screens.drop_last()
            } else {
                app.screens
            };
            &&& next.me == Some(user)
            &&& next.pollers
            &&& next.status == "Session restored."@ && next.status_set_at == Some(app.clock)
            &&& !next.session.bootstrap_retry_needed && !next.session.recovery_tried
            &&& !next.session.recovery_pending && next.session.recovery_started_at is None
            &&& next.session.bootstrap_generation == generation
            &&& primes(
                AppModel { screens: rest, ..app },
                app.effects.push(EffectModel::StopPollers).push(EffectModel::SyncDrafts).push(
                    EffectModel::StartPollers,
                ).push(EffectModel::LoadNodes),
                next,
            )
            &&& next.screens.len() == rest.len()
            &&& next == (AppModel {
                me: next.me,
                pollers: next.pollers,
                status: next.status,
                status_set_at: next.status_set_at,
                session: next.session,
                minted: next.minted,
                screens: next.screens,
                effects: next.effects,
                ..app
            })
        }),
{
    reveal(AppModel::session_delivered);
    let generation = app.session.bootstrap_generation;
    let m = MsgModel::Bootstrap { generation, result: Ok(user) };
    let a = app.window_shut(m).adopted(user).pollers_started();
    let c = (if a.login_up() {
        a.top_dropped()
    } else {
        a
    }).asking(EffectModel::LoadNodes);
    lemma_primes(c);
}

/// Where the stored session turns out to be another member's, that member is signed
/// in, and what was the other one's goes first: waiting writes, drafts, badges and
/// every screen of the session. The badges are counted at once.
pub proof fn a_changed_member_starts_afresh(app: AppModel, user: User)
    requires
        app.me matches Some(u) && u.user_id != user.user_id,
    ensures
        ({
            let generation = app.session.bootstrap_generation;
            let next = app.handled(MsgModel::Bootstrap { generation, result: Ok(user) });
            let asked = app.effects.push(EffectModel::AbortWrites).push(
                EffectModel::ClearDrafts,
            ).push(EffectModel::StopPollers).push(EffectModel::SyncDrafts).push(
                EffectModel::StartPollers,
            ).push(EffectModel::PollUnread).push(EffectModel::LoadNodes);
            &&& next.me == Some(user) && next.pollers
            &&& next.alerts_unread == 0 && next.convos_unread == 0
            &&& next.palette is None && !next.chord && next.keep_thread_position is None
            &&& asked.is_prefix_of(next.effects)
            &&& next.effects.len() <= asked.len() + 1
            &&& next.screens.len() > 0
            &&& forall|i: int|
                0 <= i < next.screens.len() ==> (#[trigger] next.screens[i] is Home
                    || next.screens[i] is ForumTree)
            &&& app.screens.len() > 0 && app.screens[0] is Home ==> {
                &&& next.effects == asked.push(
                    EffectModel::LoadForumPage {
                        node_id: 0,
                        page: 1,
                        append: false,
                        seq: app.minted.next_list_seq,
                    },
                )
                &&& next.screens[0] matches ScreenModel::Home(h) && h.tree
                    == app.screens[0]->Home_0.tree && h.list.threads.len() == 0
                    && h.list.title == "Latest posts"@
            }
            &&& next.status == "Token file changed elsewhere — now signed in as "@
                + user.username@ + "."@
            &&& next.status_set_at is None
        }),
{
    reveal(AppModel::session_delivered);
    let generation = app.session.bootstrap_generation;
    let m = MsgModel::Bootstrap { generation, result: Ok(user) };
    lemma_kept_of(app.screens, false);
    let a = app.window_shut(m).adopted(user).pollers_started().asking(EffectModel::PollUnread);
    let c = (if a.login_up() {
        a.top_dropped()
    } else {
        a
    }).asking(EffectModel::LoadNodes);
    lemma_primes(c);
    assert forall|i: int| 0 <= i < a.screens.len() implies (#[trigger] a.screens[i] is Home
        || a.screens[i] is ForumTree) by {
        let kept = kept_screens(app.screens, false);
        if i < kept.len() {
            assert(kept[i] is Home || kept[i] is ForumTree);
        }
    }
    assert(!a.login_up());
    let next = c.home_primed();
    assert forall|i: int| 0 <= i < next.screens.len() implies (#[trigger] next.screens[i] is Home
        || next.screens[i] is ForumTree) by {
        assert(c.screens[i] is Home || c.screens[i] is ForumTree);
    }
}

/// A sign-in that succeeded signs its member in, takes its screen away and starts the
/// session's work.
pub proof fn a_finished_sign_in_signs_in(app: AppModel, user: User)
    ensures
        ({
            let generation = app.session.login_generation;
            let next = app.handled(MsgModel::LoginComplete { generation, result: Ok(user) });
            let rest = if app.screens.len() > 1 && app.screens.last() is Login {
                app.screens.drop_last()
            } else {
                app.screens
            };
            &&& next.me == Some(user) && next.pollers && !next.session.login_task
            &&& next.status == "Welcome, "@ + user.username@ + "."@
            &&& next.status_set_at == Some(app.clock)
            &&& next.screens.len() == rest.len()
            &&& next == (AppModel {
                me: next.me,
                pollers: next.pollers,
                status: next.status,
                status_set_at: next.status_set_at,
                session: SessionState { login_task: false, ..app.session },
                minted: next.minted,
                screens: next.screens,
                effects: next.effects,
                ..app
            })
            &&& primes(
                AppModel { screens: rest, ..app },
                app.effects.push(EffectModel::StopPollers).push(EffectModel::SyncDrafts).push(
                    EffectModel::StartPollers,
                ).push(EffectModel::LoadNodes),
                next,
            )
        }),
{
    reveal(AppModel::session_delivered);
    let a = AppModel {
        session: SessionState { login_task: false, ..app.session },
        me: Some(user),
        ..app
    };
    let b = a.gate_opened().status("Welcome, "@ + user.username@ + "."@).pollers_started().asking(
        EffectModel::LoadNodes,
    );
    lemma_primes(b);
}

/// A sign-in link that is ready is handed out and shown, and a sign-in that gave up or
/// was rejected says why on its screen; neither signs anybody in.
pub proof fn the_sign_in_screen_tells_how_it_goes(
    app: AppModel,
    url: Seq<char>,
    message: Seq<char>,
    e: TaskErrorView,
)
    requires
        app.screens.len() > 0,
        app.screens.last() is Login,
        e.kind == TaskErrorKind::OAuth && e.code != Some("http_error"@),
    ensures
        ({
            let generation = app.session.login_generation;
            let n = app.screens.len() - 1;
            let before = app.screens.last()->Login_0;
            let ready = app.handled(MsgModel::LoginReady { generation, url });
            let failed = app.handled(MsgModel::LoginFailed { generation, message });
            let refused = app.handled(MsgModel::LoginComplete { generation, result: Err(e) });
            &&& ready.effects == app.effects.push(EffectModel::SaveLoginUrl { url })
            &&& ready.status == "Login link → clipboard + login-url.txt"@
            &&& ready.me == app.me
            &&& ready.screens == app.screens.update(
                n,
                ScreenModel::Login(
                    LoginModel {
                        busy: false,
                        url,
                        stage: LoginStage::Waiting,
                        error: before.error,
                    },
                ),
            )
            &&& failed.effects == app.effects && failed.me == app.me && !failed.session.login_task
            &&& failed.screens == app.screens.update(
                n,
                ScreenModel::Login(
                    LoginModel {
                        busy: false,
                        url: before.url,
                        stage: LoginStage::Idle,
                        error: Some(message),
                    },
                ),
            )
            &&& refused.effects == app.effects && refused.me == app.me
            &&& refused.screens == app.screens.update(
                n,
                ScreenModel::Login(
                    LoginModel {
                        busy: false,
                        url: before.url,
                        stage: LoginStage::Idle,
                        error: Some(e.message),
                    },
                ),
            )
        }),
{
    reveal(AppModel::session_delivered);
}

/// Starting the sign-in asks for one flow under a number no flow had before, aborts the
/// one that runs, and empties its screen.
pub proof fn a_sign_in_starts_afresh(app: AppModel)
    ensures
        ({
            let next = app.acted(crate::actions::Action::LoginBegin);
            let generation = next.session.login_generation;
            &&& generation != app.session.login_generation
            &&& next.session.login_task
            &&& next.effects == (if app.session.login_task {
                app.effects.push(EffectModel::AbortLogin)
            } else {
                app.effects
            }).push(EffectModel::BeginLogin { generation })
            &&& next.screens.len() == app.screens.len()
            &&& app.screens.len() > 0 && app.screens.last() is Login ==> next.screens.last()
                == ScreenModel::Login(
                LoginModel { busy: true, error: None, stage: LoginStage::Idle, url: seq![] },
            )
            &&& next.me == app.me && next.status == app.status
        }),
{
    reveal(AppModel::place_opened);
}

/// A run starts with Home, and on it either the stored session, which is looked up,
/// or the sign-in, which is begun.
pub proof fn a_start_restores_or_signs_in(app: AppModel)
    ensures
        ({
            let stored = app.bootstrapped(true);
            let fresh = app.bootstrapped(false);
            let n = app.screens.len() as int;
            &&& stored.screens.len() == n + 1
            &&& stored.screens[n] matches ScreenModel::Home(h) && h.tree.loading
                && h.list.threads.len() == 0 && !h.list.loading && h.list.node_id == 0
            &&& stored.effects == app.effects.push(
                EffectModel::RestoreSession { generation: app.session.bootstrap_generation },
            )
            &&& stored.status == "Restoring session…"@
            &&& fresh.screens.len() == n + 2
            &&& fresh.screens[n] is Home
            &&& fresh.screens[n + 1] matches ScreenModel::Login(l) && l.busy
            &&& fresh.effects.last() == (EffectModel::BeginLogin {
                generation: fresh.session.login_generation,
            })
            &&& fresh.session.login_task
        }),
{
}

/// A session that could not be restored is tried again by `r`, under the number that
/// counts; a member who is signed in keeps the key.
pub proof fn the_retry_key_restores(app: AppModel, k: KeyEvent, top: TopScreen)
    requires
        k == KeyEvent::bare(KeyCode::Char('r')),
        app.screens.len() > 0,
        app.screens.last() is Home,
        !top.input_capture,
        app.session.bootstrap_retry_needed,
    ensures
        app.me is None ==> {
            let next = app.keyed(k, top).0;
            &&& app.keyed(k, top).1 == KeyRoute::Done
            &&& next.effects == app.effects.push(
                EffectModel::RestoreSession { generation: app.session.bootstrap_generation },
            )
            &&& next.status == "Restoring session…"@
            &&& !next.session.bootstrap_retry_needed
            &&& next.screens == app.screens
        },
        app.me is Some && app.palette is None && !app.show_help && !app.chord ==> app.keyed(k, top)
            == (app, KeyRoute::Screen),
{
}

/// With the site out of reach and nobody signed in, the retry is armed and both the
/// tree and the status row say why.
pub proof fn an_unreachable_site_is_said(app: AppModel, e: TaskErrorView, i: int)
    requires
        app.me is None,
        !e.ends_session(),
        !e.is_account_gone(),
        0 <= i < app.screens.len(),
        app.screens[i] is Home || app.screens[i] is ForumTree,
        forall|j: int|
            i < j < app.screens.len() ==> !(#[trigger] app.screens[j] is Home || app.screens[j] is
                ForumTree),
    ensures
        ({
            let generation = app.session.bootstrap_generation;
            let next = app.handled(MsgModel::Bootstrap { generation, result: Err(e) });
            &&& next.session.bootstrap_retry_needed && next.me is None
            &&& next.status == "Can't reach windowsforum.com ("@ + capped(e.message, 30)
                + ") — press r to retry."@
            &&& next.status_set_at is None
            &&& next.effects == app.effects
            &&& next.screens.len() == app.screens.len()
            &&& match (app.screens[i], next.screens[i]) {
                (ScreenModel::Home(b), ScreenModel::Home(a)) => {
                    &&& a.tree == (ForumTreeModel {
                        loading: false,
                        error: Some(capped(e.message, 80)),
                        ..b.tree
                    })
                    &&& a.list == b.list
                },
                (ScreenModel::ForumTree(b), ScreenModel::ForumTree(a)) => a == (ForumTreeModel {
                    loading: false,
                    error: Some(capped(e.message, 80)),
                    ..b
                }),
                _ => false,
            }
        }),
{
    reveal(AppModel::session_delivered);
    lemma_found(app.screens, Wanted::Tree, i);
}

/// A token that was lost asks for one look at the store, under the number that counts
/// and with the reason, and says so.
pub proof fn a_lost_token_asks_for_a_look(app: AppModel, e: TaskErrorView)
    requires
        app.me is Some,
        !app.session.recovery_tried,
        e.kind == TaskErrorKind::NoToken || e.kind == TaskErrorKind::Api(401),
        e.code != Some("http_error"@),
    ensures
        ({
            let next = app.handled(MsgModel::SessionLost(e));
            &&& next.effects == app.effects.push(
                EffectModel::RecheckStoredSession {
                    generation: app.session.bootstrap_generation,
                    reason: e.message,
                },
            )
            &&& next.session.recovery_tried && next.session.recovery_pending
            &&& next.session.recovery_started_at == Some(app.clock)
            &&& next.status == "Session token changed elsewhere — re-checking…"@
            &&& next.me == app.me && next.screens == app.screens && next.pollers == app.pollers
        }),
{
    reveal(AppModel::session_delivered);
}

/// The look at the store may stay out for two minutes; then the window shuts, and who
/// is signed in stays.
pub proof fn an_overdue_look_is_given_up(app: AppModel, user: User)
    requires
        app.me == Some(user),
        app.session.recovery_pending,
        app.session.recovery_started_at matches Some(t) && t <= app.clock,
    ensures
        app.recovery_overdue() <==> app.clock - app.session.recovery_started_at->0 >= 120_000,
        ({
            let next = app.recovery_expired();
            &&& next.me == Some(user) && next.screens == app.screens
            &&& !next.session.recovery_pending && next.session.recovery_started_at is None
            &&& next.effects == app.effects
            &&& next.status
                == "Token re-check could not reach the site; still signed in as "@
                + user.username@ + "."@
        }),
{
}

/// A toast stays for four seconds and is then cleared; a hint stays.
pub proof fn a_toast_stays_four_seconds(app: AppModel, said: Seq<char>, later: u64)
    requires
        app.clock <= later,
    ensures
        ({
            let shown = AppModel { clock: later, ..app.status(said) };
            let hinted = AppModel { clock: later, ..app.hint(said) };
            &&& shown.status == said && hinted.status == said
            &&& shown.toast_overdue() <==> later - app.clock >= 4_000
            &&& !hinted.toast_overdue()
            &&& shown.toast_cleared().status.len() == 0
            &&& shown.toast_cleared() == (AppModel {
                status: shown.toast_cleared().status,
                status_set_at: None,
                ..shown
            })
        }),
{
}

/// A sign-out that the site did not follow is said for good, and beside the sign-in.
pub proof fn an_unfinished_sign_out_is_said(app: AppModel, reason: Seq<char>)
    requires
        app.screens.len() > 0,
        app.screens.last() is Login,
    ensures
        app.handled(MsgModel::LoggedOut(Ok(()))) == app,
        ({
            let next = app.handled(MsgModel::LoggedOut(Err(reason)));
            let said = "Logged out locally, but "@ + reason + "."@;
            &&& next.status == said && next.status_set_at is None
            &&& next.effects == app.effects && next.me == app.me
            &&& next.screens == app.screens.update(
                app.screens.len() - 1,
                ScreenModel::Login(
                    LoginModel { error: Some(said), ..app.screens.last()->Login_0 },
                ),
            )
        }),
{
    reveal(AppModel::session_delivered);
}

/// Which failures say that the session is over: no token, a refused grant, and a 401;
/// never an answer that was no answer of the API.
pub proof fn only_a_rejection_ends_a_session(e: TaskErrorView)
    ensures
        e.ends_session() <==> e.code != Some("http_error"@) && match e.kind {
            TaskErrorKind::NoToken => true,
            TaskErrorKind::OAuth => true,
            TaskErrorKind::Api(status) => status == 401,
            TaskErrorKind::Other => false,
        },
{
}

/// A failure is reported with what it said: the status of the API's answer, its code,
/// the last page it names, and the message, whole where it is short.
pub proof fn a_failure_says_what_it_said(e: Error)
    ensures
        match e {
            Error::Api { code, message, status, max_page } => {
                &&& error_view(e).kind == TaskErrorKind::Api(status)
                &&& error_view(e).code == Some(code@)
                &&& error_view(e).max_page == max_page
                &&& message@.len() <= 80 && code@ == "http_error"@ ==> error_view(e).message
                    == message@
                &&& message@.is_prefix_of(error_view(e).message) || code@ == "http_error"@
            },
            Error::OAuth { code, message, .. } => {
                &&& error_view(e).kind == TaskErrorKind::OAuth
                &&& error_view(e).code == Some(code@)
                &&& error_view(e).max_page is None
                &&& message@.len() <= 80 ==> error_view(e).message == message@
            },
            Error::NoToken { text } => {
                &&& error_view(e).kind == TaskErrorKind::NoToken
                &&& error_view(e).message == text@ && error_view(e).code is None
                &&& error_view(e).max_page is None
            },
            Error::Other { text } => {
                &&& error_view(e).kind == TaskErrorKind::Other
                &&& text@.len() <= 80 ==> error_view(e).message == text@
                &&& error_view(e).message.len() <= 81 && error_view(e).code is None
                &&& error_view(e).max_page is None
            },
        },
{
}

/// A member who is signed in stays signed in where the check failed in passing: the
/// pollers start again, a new look is allowed, and that is said.
pub proof fn a_passing_failure_keeps_the_member(app: AppModel, user: User, e: TaskErrorView)
    requires
        app.me == Some(user),
        !e.ends_session(),
        !e.is_account_gone(),
    ensures
        ({
            let generation = app.session.bootstrap_generation;
            let next = app.handled(MsgModel::Bootstrap { generation, result: Err(e) });
            &&& next.me == Some(user) && next.pollers && next.screens == app.screens
            &&& !next.session.recovery_tried && !next.session.recovery_pending
            &&& next.effects == app.effects.push(EffectModel::StopPollers).push(
                EffectModel::SyncDrafts,
            ).push(EffectModel::StartPollers)
            &&& next.status == "Token re-check could not reach the site; still signed in as "@
                + user.username@ + "."@
            &&& next.status_set_at is None
        }),
{
    reveal(AppModel::session_delivered);
}

/// A sign-in whose tokens are kept but whose member could not be had in passing takes its
/// screen away and arms the retry, and signs nobody in.
pub proof fn a_sign_in_without_its_member_can_be_retried(app: AppModel, e: TaskErrorView)
    requires
        !e.ends_session(),
        !e.is_account_gone(),
    ensures
        ({
            let generation = app.session.login_generation;
            let next = app.handled(MsgModel::LoginComplete { generation, result: Err(e) });
            &&& next.session.bootstrap_retry_needed && !next.session.login_task
            &&& next.me == app.me && next.effects == app.effects
            &&& next.status == "Can't reach windowsforum.com ("@ + capped(e.message, 30)
                + ") — press r to retry."@
            &&& next.screens.len() == (if app.screens.len() > 1 && app.screens.last() is Login {
                app.screens.len() - 1
            } else {
                app.screens.len() as int
            })
        }),
{
    reveal(AppModel::session_delivered);
    topmost_is_the_greatest(app.gate_opened().screens, Wanted::Tree);
}

/// A load that the site rejected for want of a token asks for the one look at the store,
/// and its screen is told to try again, not that the session is over.
pub proof fn a_rejected_load_is_looked_into(app: AppModel, generation: u64, page: u32, e: TaskErrorView, i: int)
    requires
        app.me is Some,
        !app.session.recovery_tried,
        e.kind == TaskErrorKind::NoToken || e.kind == TaskErrorKind::Api(401),
        e.code != Some("http_error"@),
        0 <= i < app.screens.len(),
        app.screens[i] matches ScreenModel::Search(s) && s.generation == generation,
        forall|j: int| i < j < app.screens.len() ==> !(#[trigger] app.screens[j] is Search),
    ensures
        ({
            let next = app.handled(MsgModel::SearchDone { generation, page, result: Err(e) });
            &&& next.me == app.me
            &&& next.effects == app.effects.push(
                EffectModel::RecheckStoredSession {
                    generation: app.session.bootstrap_generation,
                    reason: e.message,
                },
            )
            &&& next.screens == app.screens.update(
                i,
                ScreenModel::Search(
                    SearchModel {
                        loading: false,
                        error: Some("Session token changed elsewhere — re-checking; try again"@),
                        ..app.screens[i]->Search_0
                    },
                ),
            )
        }),
{
    reveal(AppModel::page_delivered);
    lemma_found(app.screens, Wanted::SearchLoad(generation), i);
}

/// A count that is no number counts as none, and reaches its own badge alone.
pub proof fn a_count_reaches_its_own_badge(app: AppModel, said: Seq<char>)
    ensures
        app.handled(MsgModel::Notice("alerts:"@ + said)) == (AppModel {
            alerts_unread: match parsed_u32(said) {
                Some(n) => n,
                None => 0,
            },
            ..app
        }),
        app.handled(MsgModel::Notice("convos:"@ + said)) == (AppModel {
            convos_unread: match parsed_u32(said) {
                Some(n) => n,
                None => 0,
            },
            ..app
        }),
{
    reveal(AppModel::session_delivered);
    reveal_strlit("quit");
    reveal_strlit("alerts:");
    reveal_strlit("convos:");
    let a = "alerts:"@ + said;
    let c = "convos:"@ + said;
    assert(a[0] == 'a' && c[0] == 'c' && "quit"@[0] == 'q' && "alerts:"@[0] == 'a');
    assert(a.skip(7) =~= said && c.skip(7) =~= said);
    assert("alerts:"@.is_prefix_of(a) && "convos:"@.is_prefix_of(c));
    assert(!"alerts:"@.is_prefix_of(c));
}

/// A rejection is seen in whatever report it comes, but for the sign-in's own, which
/// belongs to its screen.
pub proof fn a_rejection_is_seen_wherever_it_comes(
    e: TaskErrorView,
    n: u32,
    g: u64,
    append: bool,
    name: Seq<char>,
    verb: PostVerb,
)
    requires
        e.ends_session(),
    ensures
        MsgModel::SessionLost(e).session_error() == Some(e),
        (MsgModel::Bootstrap { generation: g, result: Err(e) }).session_error() == Some(e),
        MsgModel::NodesLoaded(Err(e)).session_error() == Some(e),
        (MsgModel::ForumLoaded {
            node_id: n,
            page: n,
            append,
            seq: g,
            result: Err(e),
        }).session_error() == Some(e),
        (MsgModel::ThreadLoaded { id: n, page: n, result: Err(e) }).session_error() == Some(e),
        MsgModel::ReplySent(Err(e)).session_error() == Some(e),
        MsgModel::ThreadCreated(Err(e)).session_error() == Some(e),
        MsgModel::MarkedRead(Err(e)).session_error() == Some(e),
        (MsgModel::ConversationsLoaded { page: n, result: Err(e) }).session_error() == Some(e),
        (MsgModel::ConversationLoaded {
            id: n,
            page: n,
            mark_read: append,
            result: Err(e),
        }).session_error() == Some(e),
        MsgModel::ConvoReplySent(Err(e)).session_error() == Some(e),
        MsgModel::ConvoCreated(Err(e)).session_error() == Some(e),
        MsgModel::ConversationMarked(n, Err(e)).session_error() == Some(e),
        (MsgModel::RecipientResolved { name, id: Err(e) }).session_error() == Some(e),
        MsgModel::AlertsLoaded(Err(e)).session_error() == Some(e),
        MsgModel::AlertMarked(Err(e)).session_error() == Some(e),
        (MsgModel::MediaLoaded { page: n, result: Err(e) }).session_error() == Some(e),
        (MsgModel::ResourceLoaded { page: n, result: Err(e) }).session_error() == Some(e),
        MsgModel::MediaCategoriesLoaded(Err(e)).session_error() == Some(e),
        (MsgModel::ResourceViewLoaded { id: n, result: Err(e) }).session_error() == Some(e),
        (MsgModel::SearchDone { generation: g, page: n, result: Err(e) }).session_error() == Some(e),
        (MsgModel::ProfileLoaded { generation: g, result: Err(e) }).session_error() == Some(e),
        (MsgModel::PostToggled { verb, result: Err(e) }).session_error() == Some(e),
        (MsgModel::PostEdited { post_id: n, result: Err(e) }).session_error() == Some(e),
        (MsgModel::PostDeleted { post_id: n, thread_id: n, result: Err(e) }).session_error() == Some(
            e,
        ),
        (MsgModel::SolutionMarked { post_id: n, thread_id: n, result: Err(e) }).session_error()
            == Some(e),
        (MsgModel::LoginComplete { generation: g, result: Err(e) }).session_error() is None,
{
}

} // verus!
