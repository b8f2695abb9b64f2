//! The session: restoring it, checking it again, and the one place it ends.

use vstd::prelude::*;

use crate::app::{
    screens_of, topmost, tree_in, with_tree, App, AppModel, Pointer, SessionState, Wanted, STATUS_TOAST_MS,
};
use crate::effects::{Effect, EffectModel};
use crate::errors::{TaskError, TaskErrorView, RAW_MESSAGE_CAP};
use crate::models::User;
use crate::screens::{
    ForumTreeModel, HomeModel, HomeState, LoginModel, LoginStage, LoginState, Pane, Screen,
    ScreenModel, ThreadListModel, ThreadListState,
};
use crate::text::{cap_message, capped};

verus! {

/// How long the look at the token store may stay out, in milliseconds. Above
/// what its own network budget allows it.
pub const SESSION_RECOVERY_TIMEOUT_MS: u64 = 120_000;

/// Most of an error message in the "press r to retry" line, whose end must stay
/// on screen.
pub const BOOTSTRAP_STATUS_MSG_CAP: usize = 30;

/// The counter that follows `n`.
pub open spec fn after(n: u64) -> u64 {
    if n == u64::MAX {
        0
    } else {
        (n + 1) as u64
    }
}

pub fn bump(n: u64) -> (r: u64)
    ensures
        r == after(n),
        r != n,
{
    if n == u64::MAX {
        0
    } else {
        n + 1
    }
}

/// The screens that belong to no session: Home and the forum tree; and the
/// sign-in screen, where `login` says so.
pub open spec fn outlives_session(s: ScreenModel, login: bool) -> bool {
    s is Home || s is ForumTree || (login && s is Login)
}

pub open spec fn kept_screens(s: Seq<ScreenModel>, login: bool) -> Seq<ScreenModel> {
    s.filter(|x: ScreenModel| outlives_session(x, login))
}

/// The stack with Home's list, at its root, as if nobody had loaded it.
pub open spec fn home_list_reset(s: Seq<ScreenModel>) -> Seq<ScreenModel> {
    if s.len() > 0 && s[0] is Home {
        s.update(
            0,
            ScreenModel::Home(HomeModel { list: ThreadListModel::initial(), ..s[0]->Home_0 }),
        )
    } else {
        s
    }
}

/// The same, with the keyboard in the tree.
pub open spec fn home_reset(s: Seq<ScreenModel>) -> Seq<ScreenModel> {
    if s.len() > 0 && s[0] is Home {
        s.update(
            0,
            ScreenModel::Home(
                HomeModel { list: ThreadListModel::initial(), focus: Pane::Tree, ..s[0]->Home_0 },
            ),
        )
    } else {
        s
    }
}

pub open spec fn still_signed_in(user: User) -> Seq<char> {
    "Token re-check could not reach the site; still signed in as "@ + user.username@ + "."@
}

impl AppModel {
    pub open spec fn pollers_stopped(self) -> AppModel {
        AppModel { pollers: false, ..self }.asking(EffectModel::StopPollers)
    }

    /// One pair of pollers runs, whatever ran before.
    pub open spec fn pollers_started(self) -> AppModel {
        let a = self.pollers_stopped().asking(EffectModel::SyncDrafts).asking(
            EffectModel::StartPollers,
        );
        AppModel { pollers: true, ..a }
    }

    pub open spec fn restoring(self) -> AppModel {
        self.hint("Restoring session…"@).asking(
            EffectModel::RestoreSession { generation: self.session.bootstrap_generation },
        )
    }

    pub open spec fn rechecking(self, reason: Seq<char>) -> AppModel {
        AppModel {
            session: SessionState {
                recovery_tried: true,
                recovery_pending: true,
                recovery_started_at: Some(self.clock),
                ..self.session
            },
            ..self
        }.hint("Session token changed elsewhere — re-checking…"@).asking(
            EffectModel::RecheckStoredSession { generation: self.session.bootstrap_generation, reason },
        )
    }

    /// The retry is armed, and both the forum panel and the status line say why.
    pub open spec fn retry_armed(self, e: TaskErrorView) -> AppModel {
        let a = AppModel {
            session: SessionState { bootstrap_retry_needed: true, ..self.session },
            ..self
        };
        let b = match topmost(a.screens, Wanted::Tree) {
            Some(i) => a.with_screen(
                i,
                with_tree(
                    a.screens[i],
                    ForumTreeModel {
                        loading: false,
                        error: Some(capped(e.message, RAW_MESSAGE_CAP as nat)),
                        ..tree_in(a.screens[i])
                    },
                ),
            ),
            None => a,
        };
        b.hint(
            "Can't reach windowsforum.com ("@ + capped(
                e.message,
                BOOTSTRAP_STATUS_MSG_CAP as nat,
            ) + ") — press r to retry."@,
        )
    }

    /// Nothing of a session is left: no identity, no work in its name, no
    /// overlay that could still act, and the sign-in screen on top.
    pub open spec fn session_ended(self, reason: Seq<char>) -> AppModel {
        let a = self.pollers_stopped().asking(EffectModel::AbortWrites);
        let kept = kept_screens(a.screens, true);
        let gated = if kept.len() > 0 && kept.last() is Login {
            kept
        } else {
            kept.push(ScreenModel::Login(LoginModel::initial()))
        };
        AppModel {
            screens: home_reset(gated),
            session: SessionState {
                bootstrap_generation: after(self.session.bootstrap_generation),
                bootstrap_retry_needed: false,
                recovery_tried: false,
                recovery_pending: false,
                recovery_started_at: None,
                ..a.session
            },
            me: None,
            alerts_unread: 0,
            convos_unread: 0,
            palette: None,
            show_help: false,
            chord: false,
            pointer: Pointer { selection: None, ..a.pointer },
            keep_thread_position: None,
            ..a
        }.hint(reason)
    }

    /// The look at the token store has been out for too long.
    pub open spec fn recovery_overdue(self) -> bool {
        &&& self.session.recovery_pending
        &&& self.session.recovery_started_at matches Some(t) && self.clock - t
            >= SESSION_RECOVERY_TIMEOUT_MS
    }

    /// The recovery window shut by the clock: a live session stays.
    pub open spec fn recovery_expired(self) -> AppModel {
        let a = AppModel {
            session: SessionState {
                recovery_pending: false,
                recovery_started_at: None,
                ..self.session
            },
            ..self
        };
        match self.me {
            Some(user) => a.hint(still_signed_in(user)),
            None => a.session_ended("Session check timed out; log in again."@),
        }
    }

    pub open spec fn login_begun(self) -> AppModel {
        let a = if self.session.login_task {
            self.asking(EffectModel::AbortLogin)
        } else {
            self
        };
        let generation = after(self.session.login_generation);
        let b = match a.top() {
            Some(ScreenModel::Login(ls)) => a.with_screen(
                a.screens.len() - 1,
                ScreenModel::Login(
                    LoginModel {
                        busy: true,
                        error: None,
                        stage: LoginStage::Idle,
                        url: seq![],
                    },
                ),
            ),
            _ => a,
        };
        AppModel {
            session: SessionState { login_generation: generation, login_task: true, ..b.session },
            ..b
        }.asking(
            EffectModel::BeginLogin { generation },
        )
    }

    pub open spec fn logged_out(self) -> AppModel {
        self.asking(EffectModel::Logout).asking(EffectModel::ClearDrafts).session_ended(
            "Logged out."@,
        )
    }

    /// The toast has been up for its time.
    pub open spec fn toast_overdue(self) -> bool {
        self.status_set_at matches Some(t) && self.clock - t >= STATUS_TOAST_MS
    }

    pub open spec fn toast_cleared(self) -> AppModel {
        AppModel { status: seq![], status_set_at: None, ..self }
    }

    /// The start of a run: Home, and either the stored session or the sign-in.
    pub open spec fn bootstrapped(self, has_tokens: bool) -> AppModel {
        let home = self.pushed(ScreenModel::Home(home_model(true)));
        if has_tokens {
            home.restoring()
        } else {
            home.pushed(ScreenModel::Login(LoginModel::initial())).login_begun()
        }
    }
}

/// Home as it starts, its tree waiting for the forums where `loading`.
pub open spec fn home_model(loading: bool) -> HomeModel {
    let h = HomeModel::initial();
    HomeModel { tree: ForumTreeModel { loading, ..h.tree }, ..h }
}

pub fn home_state(loading: bool) -> (r: Screen)
    ensures
        r@ == ScreenModel::Home(home_model(loading)),
{
    let mut h = HomeState::default();
    h.tree.loading = loading;
    Screen::Home(h)
}

pub fn login_state() -> (r: Screen)
    ensures
        r@ == ScreenModel::Login(LoginModel::initial()),
{
    Screen::Login(LoginState::default())
}

/// Drop the screens that belong to a session.
pub fn retain_places(screens: &mut Vec<Screen>, login: bool)
    ensures
        screens_of(final(screens)@) == kept_screens(screens_of(old(screens)@), login),
{
    let ghost m = screens_of(screens@);
    let ghost p = |x: ScreenModel| outlives_session(x, login);
    let n: usize = screens.len();
    let mut seen: usize = 0;
    let mut i: usize = 0;
    proof {
        reveal(Seq::filter);
        assert(m.take(0).filter(p) + m.skip(0) =~= m);
    }
    while seen < n
        invariant
            i <= seen <= n,
            n == m.len(),
            p == (|x: ScreenModel| outlives_session(x, login)),
            screens@.len() == i + (n - seen),
            i == m.take(seen as int).filter(p).len(),
            screens_of(screens@) == m.take(seen as int).filter(p) + m.skip(seen as int),
        decreases n - seen,
    {
        let ghost kept = m.take(seen as int).filter(p);
        proof {
            reveal(Seq::filter);
            assert(m.take(seen + 1).drop_last() =~= m.take(seen as int));
            assert(m.take(seen + 1).last() == m[seen as int]);
            assert(screens@[i as int]@ == screens_of(screens@)[i as int]);
            assert(screens_of(screens@)[i as int] == m[seen as int]);
        }
        let keep = match &screens[i] {
            Screen::Home(_) => true,
            Screen::ForumTree(_) => true,
            Screen::Login(_) => login,
            _ => false,
        };
        let ghost before = screens@;
        if keep {
            i += 1;
            assert(kept.push(m[seen as int]) + m.skip(seen + 1) =~= kept + m.skip(seen as int));
        } else {
            screens.remove(i);
            assert forall|j: int| 0 <= j < screens@.len() implies #[trigger] screens_of(screens@)[j]
                == (kept + m.skip(seen + 1))[j] by {
                if j < i {
                    assert(screens_of(before)[j] == kept[j]);
                } else {
                    assert(screens_of(before)[j + 1] == (kept + m.skip(seen as int))[j + 1]);
                }
            }
            assert(screens_of(screens@) =~= kept + m.skip(seen + 1));
        }
        seen += 1;
    }
    assert(m.take(n as int) =~= m);
    assert(m.skip(n as int) =~= seq![]);
    assert(screens_of(screens@) =~= m.filter(p));
}

impl App {
    /// Begin: with a stored session restore it, else start the sign-in.
    pub fn bootstrap(&mut self, has_tokens: bool)
        ensures
            final(self)@ == old(self)@.bootstrapped(has_tokens),
    {
        self.push_screen(home_state(true));
        if has_tokens {
            self.restore_session();
        } else {
            self.push_screen(login_state());
            self.begin_login();
        }
    }

    /// Ask who the stored session belongs to.
    pub fn restore_session(&mut self)
        ensures
            final(self)@ == old(self)@.restoring(),
    {
        self.set_hint("Restoring session…".to_owned());
        let generation: u64 = self.session.bootstrap_generation;
        self.ask(Effect::RestoreSession { generation });
    }

    /// A live session lost its token. A second instance may have rotated the
    /// shared store: look at it once before giving up.
    pub fn recheck_stored_session(&mut self, reason: String)
        ensures
            final(self)@ == old(self)@.rechecking(reason@),
    {
        self.session.recovery_tried = true;
        self.session.recovery_pending = true;
        self.session.recovery_started_at = Some(self.clock);
        self.set_hint("Session token changed elsewhere — re-checking…".to_owned());
        let generation: u64 = self.session.bootstrap_generation;
        self.ask(Effect::RecheckStoredSession { generation, reason });
    }

    /// No session, and a failure that may pass: `r` tries again.
    pub fn arm_bootstrap_retry(&mut self, e: &TaskError)
        ensures
            final(self)@ == old(self)@.retry_armed(e@),
    {
        self.session.bootstrap_retry_needed = true;
        if let Some(tree) = self.tree_mut() {
            tree.loading = false;
            tree.error = Some(cap_message(e.message.as_str(), RAW_MESSAGE_CAP));
        }
        let mut s = "Can't reach windowsforum.com (".to_owned();
        s.append(cap_message(e.message.as_str(), BOOTSTRAP_STATUS_MSG_CAP).as_str());
        s.append(") — press r to retry.");
        self.set_hint(s);
    }

    /// Shut a recovery window whose report never came. True when it did so:
    /// the screen then wants one redraw.
    pub fn expire_session_recovery_timeout(&mut self) -> (r: bool)
        ensures
            r == old(self)@.recovery_overdue(),
            final(self)@ == (if r {
                old(self)@.recovery_expired()
            } else {
                old(self)@
            }),
    {
        let overdue = match self.session.recovery_started_at {
            Some(t) => self.session.recovery_pending && t <= self.clock && self.clock - t
                >= SESSION_RECOVERY_TIMEOUT_MS,
            None => false,
        };
        if !overdue {
            return false;
        }
        self.session.recovery_pending = false;
        self.session.recovery_started_at = None;
        let name = match &self.me {
            Some(user) => Some(user.username.clone()),
            None => None,
        };
        match name {
            Some(name) => {
                let mut s = "Token re-check could not reach the site; still signed in as ".to_owned();
                s.append(name.as_str());
                s.append(".");
                self.set_hint(s);
            },
            None => self.end_session("Session check timed out; log in again.".to_owned()),
        }
        true
    }

    /// The single place a session ends.
    pub fn end_session(&mut self, reason: String)
        ensures
            final(self)@ == old(self)@.session_ended(reason@),
    {
        self.stop_pollers();
        self.abort_writes();
        self.session.bootstrap_generation = bump(self.session.bootstrap_generation);
        self.me = None;
        self.alerts_unread = 0;
        self.convos_unread = 0;
        self.palette = None;
        self.show_help = false;
        self.chord = false;
        self.pointer.selection = None;
        self.keep_thread_position = None;
        self.session.bootstrap_retry_needed = false;
        self.session.recovery_tried = false;
        self.session.recovery_pending = false;
        self.session.recovery_started_at = None;
        self.keep_places(true);
        if !self.login_on_top() {
            self.push_screen(login_state());
        }
        self.reset_home();
        self.set_hint(reason);
    }

    /// Keep only the screens that belong to no session.
    pub(crate) fn keep_places(&mut self, login: bool)
        ensures
            final(self)@ == (AppModel {
                screens: kept_screens(old(self)@.screens, login),
                ..old(self)@
            }),
    {
        retain_places(&mut self.screens, login);
    }

    /// Make Home's list one that nobody has loaded.
    pub(crate) fn reset_home_list(&mut self)
        ensures
            final(self)@ == (AppModel {
                screens: home_list_reset(old(self)@.screens),
                ..old(self)@
            }),
    {
        if self.screens.len() > 0 {
            if let Screen::Home(h) = self.screen_mut(0) {
                h.list = ThreadListState::default();
            }
        }
    }

    /// The same, with the keyboard in the tree.
    fn reset_home(&mut self)
        ensures
            final(self)@ == (AppModel { screens: home_reset(old(self)@.screens), ..old(self)@ }),
    {
        if self.screens.len() > 0 {
            if let Screen::Home(h) = self.screen_mut(0) {
                h.list = ThreadListState::default();
                h.focus = Pane::Tree;
            }
        }
    }

    /// Start the pollers, and stop whatever pair ran before.
    pub fn start_pollers(&mut self)
        ensures
            final(self)@ == old(self)@.pollers_started(),
    {
        self.stop_pollers();
        self.ask(Effect::SyncDrafts);
        self.ask(Effect::StartPollers);
        self.pollers = true;
    }

    pub fn stop_pollers(&mut self)
        ensures
            final(self)@ == old(self)@.pollers_stopped(),
    {
        self.pollers = false;
        self.ask(Effect::StopPollers);
    }

    /// Abort every write that is still waiting: it belongs to the session that
    /// started it.
    pub fn abort_writes(&mut self)
        ensures
            final(self)@ == old(self)@.asking(EffectModel::AbortWrites),
    {
        self.ask(Effect::AbortWrites);
    }

    /// Start a sign-in flow. It supersedes the one that runs.
    pub fn begin_login(&mut self)
        ensures
            final(self)@ == old(self)@.login_begun(),
    {
        if self.session.login_task {
            self.ask(Effect::AbortLogin);
        }
        if let Some(ls) = self.login_top() {
            ls.busy = true;
            ls.error = None;
            ls.stage = LoginStage::Idle;
            ls.url = String::new();
        }
        let generation: u64 = bump(self.session.login_generation);
        self.session.login_generation = generation;
        self.session.login_task = true;
        self.ask(Effect::BeginLogin { generation });
    }

    /// Sign out: the same teardown as any other end, and no draft is left for
    /// whoever signs in next.
    pub fn logout(&mut self)
        ensures
            final(self)@ == old(self)@.logged_out(),
    {
        self.ask(Effect::Logout);
        self.ask(Effect::ClearDrafts);
        self.end_session("Logged out.".to_owned());
    }

    /// Clear a toast that has been up for its time. True when it did so: the
    /// screen then wants one redraw.
    pub fn expire_status_toast(&mut self) -> (r: bool)
        ensures
            r == old(self)@.toast_overdue(),
            final(self)@ == (if r {
                old(self)@.toast_cleared()
            } else {
                old(self)@
            }),
    {
        if let Some(t) = self.status_set_at {
            if t <= self.clock && self.clock - t >= STATUS_TOAST_MS {
                self.status = String::new();
                self.status_set_at = None;
                return true;
            }
        }
        false
    }
}

} // verus!
