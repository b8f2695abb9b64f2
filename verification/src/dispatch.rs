//! The message pump: the one session boundary, and the way of every message to
//! whoever waits for it.

use vstd::prelude::*;

use crate::app::{App, AppModel, SessionState};
use crate::effects::{Effect, EffectModel};
use crate::errors::{TaskError, TaskErrorKind, TaskErrorView};
use crate::models::User;
use crate::msg::{mark_retryable, outcome, said, session_error_of, Msg, MsgModel};
use crate::palette::{items_of, Item, ItemModel, PaletteModel, Target, TargetModel};
use crate::screens::{LoginModel, LoginStage, ScreenModel};
use crate::session::{home_list_reset, home_model, home_state, kept_screens, still_signed_in};
use crate::text::{
    glue3, parse_u32, parsed_u32, same_text, strip_prefix, trim, trimmed, without_prefix,
};

verus! {

impl AppModel {
    /// The top screen gone, without ceremony.
    pub open spec fn top_dropped(self) -> AppModel {
        AppModel { screens: self.screens.drop_last(), ..self }
    }

    pub open spec fn login_up(self) -> bool {
        self.top() matches Some(s) && s is Login
    }

    /// The sign-in screen gone, where it is on top of another.
    pub open spec fn gate_opened(self) -> AppModel {
        if self.screens.len() > 1 && self.login_up() {
            self.top_dropped()
        } else {
            self
        }
    }

    /// Another sign-in screen in the place of the one on top, if there is one.
    pub open spec fn with_login(self, ls: LoginModel) -> AppModel {
        if self.login_up() {
            self.with_screen(self.screens.len() - 1, ScreenModel::Login(ls))
        } else {
            self
        }
    }

    pub open spec fn login(self) -> LoginModel {
        match self.top() {
            Some(ScreenModel::Login(ls)) => ls,
            _ => LoginModel::initial(),
        }
    }

    pub open spec fn login_ready(self, generation: u64, url: Seq<char>) -> AppModel {
        if generation != self.session.login_generation {
            self
        } else {
            let a = self.asking(EffectModel::SaveLoginUrl { url }).hint(
                "Login link → clipboard + login-url.txt"@,
            );
            a.with_login(
                LoginModel { busy: false, url, stage: LoginStage::Waiting, ..a.login() },
            )
        }
    }

    pub open spec fn login_failed(self, generation: u64, message: Seq<char>) -> AppModel {
        if generation != self.session.login_generation {
            self
        } else {
            let a = AppModel {
                session: SessionState { login_task: false, ..self.session },
                ..self
            };
            a.with_login(
                LoginModel {
                    busy: false,
                    error: Some(message),
                    stage: LoginStage::Idle,
                    ..a.login()
                },
            )
        }
    }

    /// A session began.
    pub open spec fn signed_in(self, user: User) -> AppModel {
        AppModel { me: Some(user), ..self }.gate_opened().status(
            "Welcome, "@ + user.username@ + "."@,
        ).pollers_started().asking(EffectModel::LoadNodes).home_primed()
    }

    /// A sign-in flow ended. Where only the check of a token that was already
    /// stored failed in passing, the retry is armed; a rejection stays on the
    /// sign-in screen.
    pub open spec fn login_complete(self, generation: u64, result: Result<User, TaskErrorView>) -> AppModel {
        if generation != self.session.login_generation {
            self
        } else {
            let a = AppModel {
                session: SessionState { login_task: false, ..self.session },
                ..self
            };
            match result {
                Ok(user) => a.signed_in(user),
                Err(e) => if !e.ends_session() && !e.is_account_gone() {
                    a.gate_opened().retry_armed(e)
                } else {
                    a.with_login(
                        LoginModel {
                            busy: false,
                            error: Some(e.message),
                            stage: LoginStage::Idle,
                            ..a.login()
                        },
                    )
                },
            }
        }
    }

    pub open spec fn noticed(self, n: Seq<char>) -> AppModel {
        if n == "quit"@ {
            AppModel { should_quit: true, ..self }
        } else {
            match without_prefix(n, "alerts:"@) {
                Some(v) => AppModel { alerts_unread: parsed_u32(v).unwrap_or(0), ..self },
                None => match without_prefix(n, "convos:"@) {
                    Some(v) => AppModel { convos_unread: parsed_u32(v).unwrap_or(0), ..self },
                    None => self.status(n),
                },
            }
        }
    }

    /// What belonged to the identity before goes: its writes, its screens, its
    /// badges, its list, its drafts.
    pub open spec fn identity_gone(self) -> AppModel {
        let a = self.asking(EffectModel::AbortWrites);
        let kept = kept_screens(a.screens, false);
        let rooted = if kept.len() == 0 {
            kept.push(ScreenModel::Home(home_model(false)))
        } else {
            kept
        };
        AppModel {
            screens: home_list_reset(rooted),
            keep_thread_position: None,
            palette: None,
            chord: false,
            alerts_unread: 0,
            convos_unread: 0,
            ..a
        }.asking(EffectModel::ClearDrafts)
    }

    /// The stored session turned out to be somebody else's.
    pub open spec fn is_other(self, user: User) -> bool {
        self.me matches Some(u) && u.user_id != user.user_id
    }

    /// The stored session is this member's. Nothing of another one's is left.
    pub open spec fn adopted(self, user: User) -> AppModel {
        let a = AppModel {
            session: SessionState {
                bootstrap_retry_needed: false,
                recovery_tried: false,
                recovery_pending: false,
                recovery_started_at: None,
                ..self.session
            },
            ..self
        };
        if self.is_other(user) {
            AppModel { me: Some(user), ..a.identity_gone() }.hint(
                "Token file changed elsewhere — now signed in as "@ + user.username@ + "."@,
            )
        } else {
            AppModel { me: Some(user), ..a }.status("Session restored."@)
        }
    }

    /// The session goes on: pollers, forums, the latest posts; and the badges
    /// at once where they were another member's.
    pub open spec fn resumed(self, changed: bool) -> AppModel {
        let a = self.pollers_started();
        let b = if changed {
            a.asking(EffectModel::PollUnread)
        } else {
            a
        };
        let c = if b.login_up() {
            b.top_dropped()
        } else {
            b
        };
        c.asking(EffectModel::LoadNodes).home_primed()
    }

    pub open spec fn session_restored(self, user: User) -> AppModel {
        self.adopted(user).resumed(self.is_other(user))
    }

    /// The check failed in passing: a live session stays as it is, and a
    /// missing one can be tried again.
    pub open spec fn restore_failed(self, e: TaskErrorView) -> AppModel {
        match self.me {
            Some(user) => AppModel {
                session: SessionState { recovery_tried: false, ..self.session },
                ..self.pollers_started()
            }.hint(still_signed_in(user)),
            None => self.retry_armed(e),
        }
    }

    pub open spec fn palette_member(self, query: Seq<char>, user: Option<User>) -> AppModel {
        match (user, self.palette) {
            (Some(found), Some(p)) => if trimmed(p.query) == query {
                AppModel {
                    palette: Some(
                        PaletteModel {
                            items: p.items.push(
                                ItemModel {
                                    title: found.username@,
                                    key: seq![],
                                    target: TargetModel::Member(found.user_id, found.username@),
                                },
                            ),
                            ..p
                        },
                    ),
                    ..self
                }
            } else {
                self
            },
            _ => self,
        }
    }

    /// Signing out at the site failed: said for good, and beside the sign-in.
    pub open spec fn logout_reported(self, result: Result<(), Seq<char>>) -> AppModel {
        match result {
            Ok(_) => self,
            Err(e) => {
                let message = "Logged out locally, but "@ + e + "."@;
                let a = self.hint(message);
                a.with_login(LoginModel { error: Some(message), ..a.login() })
            },
        }
    }

    /// A message about the session, the client itself or its overlays.
    #[verifier::opaque]
    pub open spec fn session_delivered(self, m: MsgModel) -> AppModel {
        match m {
            MsgModel::Bootstrap { result, .. } => match result {
                Ok(user) => self.session_restored(user),
                Err(e) => self.restore_failed(e),
            },
            MsgModel::SessionLost(_) => self,
            MsgModel::LoginReady { generation, url } => self.login_ready(generation, url),
            MsgModel::LoginFailed { generation, message } => self.login_failed(
                generation,
                message,
            ),
            MsgModel::LoginComplete { generation, result } => self.login_complete(
                generation,
                result,
            ),
            MsgModel::LoggedOut(result) => self.logout_reported(result),
            MsgModel::Notice(n) => self.noticed(n),
            MsgModel::UpdateChecked { generation, forced, result } => self.update_checked(
                generation,
                forced,
                result,
            ),
            MsgModel::PaletteMember { query, user } => self.palette_member(query, user),
            _ => self,
        }
    }

    /// A page that was loaded.
    #[verifier::opaque]
    pub open spec fn page_delivered(self, m: MsgModel) -> AppModel {
        match m {
            MsgModel::NodesLoaded(result) => self.nodes_loaded(result),
            MsgModel::ForumLoaded { node_id, page, append, seq, result } => self.forum_loaded(
                node_id,
                page,
                append,
                seq,
                result,
            ),
            MsgModel::ThreadLoaded { id, page, result } => self.thread_loaded(id, page, result),
            MsgModel::ConversationsLoaded { page, result } => self.conversations_loaded(
                page,
                result,
            ),
            MsgModel::ConversationLoaded { id, page, mark_read, result } => {
                self.conversation_loaded(id, page, mark_read, result)
            },
            MsgModel::AlertsLoaded(result) => self.alerts_loaded(result),
            MsgModel::MediaLoaded { page, result } => self.media_loaded(page, result),
            MsgModel::ResourceLoaded { page, result } => self.resources_loaded(page, result),
            MsgModel::MediaCategoriesLoaded(result) => self.media_categories_loaded(result),
            MsgModel::ResourceViewLoaded { id, result } => self.resource_view_loaded(id, result),
            MsgModel::SearchDone { generation, page, result } => self.search_done(
                generation,
                page,
                result,
            ),
            MsgModel::ProfileLoaded { generation, result } => self.profile_loaded(
                generation,
                result,
            ),
            _ => self,
        }
    }

    /// The outcome of something the reader did.
    #[verifier::opaque]
    pub open spec fn outcome_delivered(self, m: MsgModel) -> AppModel {
        match m {
            MsgModel::ReplySent(result) => self.reply_sent(result),
            MsgModel::ThreadCreated(result) => self.thread_created(result),
            MsgModel::MarkedRead(result) => self.marked_read(result),
            MsgModel::ConvoReplySent(result) => self.convo_reply_sent(result),
            MsgModel::ConvoCreated(result) => self.convo_created(result),
            MsgModel::ConversationMarked(id, result) => self.conversation_marked(id, result),
            MsgModel::RecipientResolved { name, id } => self.recipient_resolved(name, id),
            MsgModel::AlertMarked(result) => self.alert_marked(result),
            MsgModel::PostToggled { verb, result } => self.post_toggled(verb, result),
            MsgModel::AttachmentUploaded(result) => self.attachment_uploaded(result),
            MsgModel::PostEdited { post_id, result } => self.post_edited(post_id, result),
            MsgModel::PostDeleted { thread_id, result, .. } => self.post_deleted(
                thread_id,
                result,
            ),
            MsgModel::SolutionMarked { thread_id, result, .. } => self.solution_marked(
                thread_id,
                result,
            ),
            _ => self,
        }
    }

    /// A message taken to whoever waits for it.
    pub open spec fn delivered(self, m: MsgModel) -> AppModel {
        if m.is_page() {
            self.page_delivered(m)
        } else if m.is_outcome() {
            self.outcome_delivered(m)
        } else {
            self.session_delivered(m)
        }
    }

    /// A stored-session check of a session that has since ended.
    pub open spec fn is_stale(self, m: MsgModel) -> bool {
        m matches MsgModel::Bootstrap { generation, .. } && generation != self.session.bootstrap_generation
    }

    /// Only the check's own report shuts the recovery window.
    pub open spec fn window_shut(self, m: MsgModel) -> AppModel {
        if m is Bootstrap {
            AppModel {
                session: SessionState {
                    recovery_pending: false,
                    recovery_started_at: None,
                    ..self.session
                },
                ..self
            }
        } else {
            self
        }
    }

    /// The token store is worth its one look.
    pub open spec fn may_recheck(self, kind: TaskErrorKind) -> bool {
        kind.is_recheckable() && self.me is Some && !self.session.recovery_tried
    }

    /// The rejection is of the very grant that the look is replacing.
    pub open spec fn is_echo(self, kind: TaskErrorKind) -> bool {
        self.session.recovery_pending && kind.is_session_ending()
    }

    /// The session boundary, for a message that says the session is over: look
    /// at the token store, or wait for that look, or end the session.
    pub open spec fn bounded(self, e: TaskErrorView) -> AppModel {
        if self.may_recheck(e.kind) {
            self.rechecking(e.message)
        } else if self.is_echo(e.kind) {
            self
        } else {
            self.session_ended("Session expired ("@ + e.message + "); log in again."@)
        }
    }

    /// What a message does.
    pub open spec fn handled(self, m: MsgModel) -> AppModel {
        if self.is_stale(m) {
            self
        } else {
            let a = self.window_shut(m);
            match m.session_error() {
                Some(e) => if m is Bootstrap {
                    a.bounded(e)
                } else {
                    a.bounded(e).delivered(m.retryable())
                },
                None => a.delivered(m),
            }
        }
    }
}

impl App {
    /// Drop the top screen.
    fn drop_top(&mut self)
        requires
            old(self)@.screens.len() > 0,
        ensures
            final(self)@ == old(self)@.top_dropped(),
    {
        let n: usize = self.screens.len();
        let ghost s = self@.screens;
        self.remove_screen(n - 1);
        assert(s.remove(n - 1) =~= s.drop_last());
    }

    fn open_gate(&mut self)
        ensures
            final(self)@ == old(self)@.gate_opened(),
    {
        if self.screens.len() > 1 && self.login_on_top() {
            self.drop_top();
        }
    }

    fn on_login_ready(&mut self, generation: u64, url: String)
        ensures
            final(self)@ == old(self)@.login_ready(generation, url@),
    {
        if generation != self.session.login_generation {
            return;
        }
        self.ask(Effect::SaveLoginUrl { url: url.clone() });
        self.set_hint("Login link → clipboard + login-url.txt".to_owned());
        if let Some(ls) = self.login_top() {
            ls.busy = false;
            ls.url = url;
            ls.stage = LoginStage::Waiting;
        }
    }

    fn fail_login(&mut self, message: String)
        ensures
            final(self)@ == old(self)@.with_login(
                LoginModel {
                    busy: false,
                    error: Some(message@),
                    stage: LoginStage::Idle,
                    ..old(self)@.login()
                },
            ),
    {
        if let Some(ls) = self.login_top() {
            ls.busy = false;
            ls.error = Some(message);
            ls.stage = LoginStage::Idle;
        }
    }

    fn on_login_failed(&mut self, generation: u64, message: String)
        ensures
            final(self)@ == old(self)@.login_failed(generation, message@),
    {
        if generation != self.session.login_generation {
            return;
        }
        self.session.login_task = false;
        self.fail_login(message);
    }

    pub fn load_nodes(&mut self)
        ensures
            final(self)@ == old(self)@.asking(EffectModel::LoadNodes),
    {
        self.ask(Effect::LoadNodes);
    }

    fn sign_in(&mut self, user: User)
        ensures
            final(self)@ == old(self)@.signed_in(user),
    {
        let welcome = glue3("Welcome, ", user.username.as_str(), ".");
        self.me = Some(user);
        self.open_gate();
        self.set_status(welcome);
        self.start_pollers();
        self.load_nodes();
        self.prime_home_list();
    }

    fn on_login_complete(&mut self, generation: u64, result: Result<User, TaskError>)
        ensures
            final(self)@ == old(self)@.login_complete(generation, outcome(result)),
    {
        if generation != self.session.login_generation {
            return;
        }
        self.session.login_task = false;
        match result {
            Ok(user) => self.sign_in(user),
            Err(e) => {
                if !e.ends_session() && !e.is_account_gone() {
                    self.open_gate();
                    self.arm_bootstrap_retry(&e);
                } else {
                    self.fail_login(e.message);
                }
            },
        }
    }

    fn on_notice(&mut self, n: String)
        ensures
            final(self)@ == old(self)@.noticed(n@),
    {
        if same_text(n.as_str(), "quit") {
            self.should_quit = true;
            return;
        }
        if let Some(v) = strip_prefix(n.as_str(), "alerts:") {
            self.alerts_unread = match parse_u32(v.as_str()) {
                Some(count) => count,
                None => 0,
            };
            return;
        }
        if let Some(v) = strip_prefix(n.as_str(), "convos:") {
            self.convos_unread = match parse_u32(v.as_str()) {
                Some(count) => count,
                None => 0,
            };
            return;
        }
        self.set_status(n);
    }

    fn drop_identity(&mut self)
        ensures
            final(self)@ == old(self)@.identity_gone(),
    {
        self.abort_writes();
        self.keep_places(false);
        if self.screens.len() == 0 {
            self.push_screen(home_state(false));
        }
        self.reset_home_list();
        self.keep_thread_position = None;
        self.palette = None;
        self.chord = false;
        self.alerts_unread = 0;
        self.convos_unread = 0;
        self.ask(Effect::ClearDrafts);
    }

    fn adopt(&mut self, user: User) -> (changed: bool)
        ensures
            final(self)@ == old(self)@.adopted(user),
            changed == old(self)@.is_other(user),
    {
        self.session.bootstrap_retry_needed = false;
        self.session.recovery_tried = false;
        self.session.recovery_pending = false;
        self.session.recovery_started_at = None;
        let changed = match &self.me {
            Some(u) => u.user_id != user.user_id,
            None => false,
        };
        if changed {
            self.drop_identity();
            let notice = glue3(
                "Token file changed elsewhere — now signed in as ",
                user.username.as_str(),
                ".",
            );
            self.me = Some(user);
            self.set_hint(notice);
        } else {
            self.me = Some(user);
            self.set_status("Session restored.".to_owned());
        }
        changed
    }

    fn resume(&mut self, changed: bool)
        ensures
            final(self)@ == old(self)@.resumed(changed),
    {
        self.start_pollers();
        if changed {
            self.ask(Effect::PollUnread);
        }
        if self.login_on_top() {
            self.drop_top();
        }
        self.load_nodes();
        self.prime_home_list();
    }

    fn on_session_restored(&mut self, user: User)
        ensures
            final(self)@ == old(self)@.session_restored(user),
    {
        let changed = self.adopt(user);
        self.resume(changed);
    }

    fn on_restore_failed(&mut self, e: TaskError)
        ensures
            final(self)@ == old(self)@.restore_failed(e@),
    {
        let name: Option<String> = match &self.me {
            Some(user) => Some(user.username.clone()),
            None => None,
        };
        match name {
            Some(name) => {
                self.start_pollers();
                self.session.recovery_tried = false;
                self.set_hint(
                    glue3(
                        "Token re-check could not reach the site; still signed in as ",
                        name.as_str(),
                        ".",
                    ),
                );
            },
            None => self.arm_bootstrap_retry(&e),
        }
    }

    fn on_palette_member(&mut self, query: String, user: Option<User>)
        ensures
            final(self)@ == old(self)@.palette_member(query@, user),
    {
        if let Some(found) = user {
            if let Some(p) = &mut self.palette {
                if same_text(trim(p.query.as_str()).as_str(), query.as_str()) {
                    let ghost before = p@;
                    p.items.push(
                        Item {
                            title: found.username.clone(),
                            key: String::new(),
                            target: Target::Member(found.user_id, found.username),
                        },
                    );
                    assert(items_of(p.items@) =~= before.items.push(
                        ItemModel {
                            title: found.username@,
                            key: seq![],
                            target: TargetModel::Member(found.user_id, found.username@),
                        },
                    ));
                }
            }
        }
    }

    fn on_logged_out(&mut self, result: Result<(), String>)
        ensures
            final(self)@ == old(self)@.logout_reported(said(result)),
    {
        match result {
            Ok(_) => {},
            Err(e) => {
                let message = glue3("Logged out locally, but ", e.as_str(), ".");
                self.set_hint(message.clone());
                if let Some(ls) = self.login_top() {
                    ls.error = Some(message);
                }
            },
        }
    }

    /// The session boundary.
    fn bound(&mut self, e: TaskErrorKind, reason: String)
        ensures
            forall|v: TaskErrorView|
                v.kind == e && v.message == reason@ ==> final(self)@ == #[trigger] old(self)@.bounded(v),
    {
        if e.recheckable() && self.me.is_some() && !self.session.recovery_tried {
            self.recheck_stored_session(reason);
        } else if self.session.recovery_pending && e.ends_session() {
            // The look at the token store decides.
        } else {
            self.end_session(
                glue3("Session expired (", reason.as_str(), "); log in again."),
            );
        }
    }

    fn deliver_session(&mut self, msg: Msg)
        ensures
            final(self)@ == old(self)@.session_delivered(msg@),
    {
        proof {
            reveal(AppModel::session_delivered);
        }
        match msg {
            Msg::Bootstrap { result, .. } => match result {
                Ok(user) => self.on_session_restored(user),
                Err(e) => self.on_restore_failed(e),
            },
            Msg::SessionLost(_) => {},
            Msg::LoginReady { generation, url } => self.on_login_ready(generation, url),
            Msg::LoginFailed { generation, message } => self.on_login_failed(generation, message),
            Msg::LoginComplete { generation, result } => self.on_login_complete(
                generation,
                result,
            ),
            Msg::LoggedOut(result) => self.on_logged_out(result),
            Msg::Notice(n) => self.on_notice(n),
            Msg::UpdateChecked { generation, forced, result } => self.handle_update_checked(
                generation,
                forced,
                result,
            ),
            Msg::PaletteMember { query, user } => self.on_palette_member(query, user),
            _ => {},
        }
    }

    fn deliver_page(&mut self, msg: Msg)
        ensures
            final(self)@ == old(self)@.page_delivered(msg@),
    {
        proof {
            reveal(AppModel::page_delivered);
        }
        match msg {
            Msg::NodesLoaded(result) => self.on_nodes_loaded(result),
            Msg::ForumLoaded { node_id, page, append, seq, result } => self.on_forum_loaded(
                node_id,
                page,
                append,
                seq,
                result,
            ),
            Msg::ThreadLoaded { id, page, result } => self.on_thread_loaded(id, page, result),
            Msg::ConversationsLoaded { page, result } => self.on_conversations_loaded(
                page,
                result,
            ),
            Msg::ConversationLoaded { id, page, mark_read, result } => {
                self.on_conversation_loaded(id, page, mark_read, result)
            },
            Msg::AlertsLoaded(result) => self.on_alerts_loaded(result),
            Msg::MediaLoaded { page, result } => self.on_media_loaded(page, result),
            Msg::ResourceLoaded { page, result } => self.on_resources_loaded(page, result),
            Msg::MediaCategoriesLoaded(result) => self.on_media_categories_loaded(result),
            Msg::ResourceViewLoaded { id, result } => self.on_resource_view_loaded(id, result),
            Msg::SearchDone { generation, page, result } => self.on_search_done(
                generation,
                page,
                result,
            ),
            Msg::ProfileLoaded { generation, result } => self.on_profile_loaded(
                generation,
                result,
            ),
            _ => {},
        }
    }

    fn deliver_outcome(&mut self, msg: Msg)
        ensures
            final(self)@ == old(self)@.outcome_delivered(msg@),
    {
        proof {
            reveal(AppModel::outcome_delivered);
        }
        match msg {
            Msg::ReplySent(result) => self.on_reply_sent(result),
            Msg::ThreadCreated(result) => self.on_thread_created(result),
            Msg::MarkedRead(result) => self.on_marked_read(result),
            Msg::ConvoReplySent(result) => self.on_convo_reply_sent(result),
            Msg::ConvoCreated(result) => self.on_convo_created(result),
            Msg::ConversationMarked(id, result) => self.on_conversation_marked(id, result),
            Msg::RecipientResolved { name, id } => self.on_recipient_resolved(name, id),
            Msg::AlertMarked(result) => self.on_alert_marked(result),
            Msg::PostToggled { verb, result } => self.on_post_toggled(verb, result),
            Msg::AttachmentUploaded(result) => self.on_attachment_uploaded(result),
            Msg::PostEdited { post_id, result } => self.on_post_edited(post_id, result),
            Msg::PostDeleted { thread_id, result, .. } => self.on_post_deleted(thread_id, result),
            Msg::SolutionMarked { thread_id, result, .. } => self.on_solution_marked(
                thread_id,
                result,
            ),
            _ => {},
        }
    }

    fn deliver(&mut self, msg: Msg)
        ensures
            final(self)@ == old(self)@.delivered(msg@),
    {
        if msg.is_page() {
            self.deliver_page(msg);
        } else if msg.is_outcome() {
            self.deliver_outcome(msg);
        } else {
            self.deliver_session(msg);
        }
    }

    fn stale(&self, msg: &Msg) -> (r: bool)
        ensures
            r == self@.is_stale(msg@),
    {
        match msg {
            Msg::Bootstrap { generation, .. } => *generation != self.session.bootstrap_generation,
            _ => false,
        }
    }

    fn shut_window(&mut self, msg: &Msg)
        ensures
            final(self)@ == old(self)@.window_shut(msg@),
    {
        if let Msg::Bootstrap { .. } = msg {
            self.session.recovery_pending = false;
            self.session.recovery_started_at = None;
        }
    }

    /// The session boundary, for any message: whether it still has to be
    /// delivered.
    fn cross_boundary(&mut self, msg: &mut Msg) -> (deliver: bool)
        ensures
            match old(msg)@.session_error() {
                Some(e) => {
                    &&& final(self)@ == old(self)@.bounded(e)
                    &&& final(msg)@ == old(msg)@.retryable()
                    &&& deliver == !(old(msg)@ is Bootstrap)
                },
                None => final(self)@ == old(self)@ && final(msg)@ == old(msg)@ && deliver,
            },
    {
        let failure = match session_error_of(msg) {
            Some(e) => Some((e.message.clone(), e.kind)),
            None => None,
        };
        match failure {
            Some((reason, kind)) => {
                self.bound(kind, reason);
                let answered = match msg {
                    Msg::Bootstrap { .. } => true,
                    _ => false,
                };
                mark_retryable(msg);
                !answered
            },
            None => true,
        }
    }

    /// Take in what background work reports.
    pub fn handle_msg(&mut self, msg: Msg)
        ensures
            final(self)@ == old(self)@.handled(msg@),
    {
        let mut msg = msg;
        if self.stale(&msg) {
            return;
        }
        self.shut_window(&msg);
        if self.cross_boundary(&mut msg) {
            self.deliver(msg);
        }
    }
}

} // verus!
