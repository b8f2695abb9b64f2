//! The session: how it is lost, rechecked, ended and begun.

use wftui::actions::Action;
use wftui::app::{App, QuickNodes, Site};
use wftui::effects::Effect;
use wftui::errors::{Error, TaskError, TaskErrorKind};
use wftui::input::{EscIntent, KeyRoute, TopScreen};
use wftui::keys::{KeyCode, KeyEvent, KeyModifiers};
use wftui::models::{Post, Thread, ThreadReply, Toggle, User};
use wftui::msg::{Msg, PostVerb};
use wftui::openers::search_state;
use wftui::screens::{
    ComposeState, ComposeTarget, LoginStage, Pane, Screen, SearchState, ThreadViewState,
};
use wftui::session::{home_state, login_state, SESSION_RECOVERY_TIMEOUT_MS};
use wftui::tasks::{resolve_profile_id, session_rechecked};
use wftui::update::UpdateConfig;
use wftui::writes::open_thread_position;

const RETRY_TEXT: &str = "Session token changed elsewhere — re-checking; try again";

fn test_app() -> App {
    let site = Site {
        base_url: "https://windowsforum.com".to_string(),
        quick: QuickNodes { news: 4, security: 5, tutorials: 6 },
    };
    let update = UpdateConfig { disabled: true, current_version: "1.0.0".to_string() };
    let mut app = App::new(site, true, update, 1_000_000);
    app.alerts_unread = 3;
    app.convos_unread = 5;
    app.status = String::new();
    app
}

fn kemical() -> User {
    User { user_id: 7, username: "kemical".to_string(), ..Default::default() }
}

fn live_app() -> App {
    let mut app = test_app();
    app.screens.push(home_state(false));
    app.me = Some(kemical());
    app
}

fn failure(message: &str, kind: TaskErrorKind) -> TaskError {
    TaskError { message: message.to_string(), code: None, max_page: None, kind }
}

fn no_token() -> TaskError {
    failure("not logged in", TaskErrorKind::NoToken)
}

fn invalid_grant() -> TaskError {
    TaskError {
        message: "oauth error [invalid_grant]".to_string(),
        code: Some("invalid_grant".to_string()),
        max_page: None,
        kind: TaskErrorKind::OAuth,
    }
}

fn thread(thread_id: u32) -> Thread {
    Thread { thread_id, ..Default::default() }
}

fn key(c: char) -> KeyEvent {
    KeyEvent::new(KeyCode::Char(c), KeyModifiers::empty())
}

fn control(c: char) -> KeyEvent {
    let modifiers = KeyModifiers { control: true, ..KeyModifiers::empty() };
    KeyEvent::new(KeyCode::Char(c), modifiers)
}

fn esc() -> KeyEvent {
    KeyEvent::new(KeyCode::Esc, KeyModifiers::empty())
}

fn screen(esc: EscIntent) -> TopScreen {
    TopScreen { input_capture: false, esc }
}

fn login_on_top(app: &App) -> bool {
    matches!(app.screens.last(), Some(Screen::Login(_)))
}

fn bootstrap(app: &App, result: Result<User, TaskError>) -> Msg {
    Msg::Bootstrap { generation: app.session.bootstrap_generation, result }
}

/// What the recheck that was asked for last reports when there is nothing to
/// adopt.
fn nothing_adopted(app: &App) -> Msg {
    match app.effects.iter().rev().find(|e| matches!(e, Effect::RecheckStoredSession { .. })) {
        Some(Effect::RecheckStoredSession { generation, reason }) => {
            session_rechecked(*generation, reason.clone(), None)
        }
        _ => panic!("expected a recheck"),
    }
}

fn reply_composer(busy: bool) -> Screen {
    Screen::Compose(ComposeState {
        target: Some(ComposeTarget::ThreadReply {
            thread_id: 42,
            thread_title: "a thread".to_string(),
        }),
        body: "a draft nobody may lose".to_string(),
        busy,
        ..Default::default()
    })
}

#[test]
fn an_oauth_error_arriving_mid_recheck_is_stale_and_the_recheck_still_decides() {
    let mut app = live_app();
    app.handle_msg(Msg::NodesLoaded(Err(no_token())));
    assert!(app.session.recovery_pending);

    app.handle_msg(Msg::ThreadLoaded { id: 42, page: 1, result: Err(invalid_grant()) });
    assert!(app.me.is_some());
    assert!(!login_on_top(&app));

    let sent = nothing_adopted(&app);
    assert!(matches!(sent, Msg::Bootstrap { result: Err(_), .. }));
    app.handle_msg(sent);
    assert!(app.me.is_none());
    assert!(login_on_top(&app));
    assert!(!app.session.recovery_pending);

    app.me = Some(kemical());
    app.handle_msg(Msg::ThreadLoaded { id: 42, page: 1, result: Err(invalid_grant()) });
    assert!(app.me.is_none());
    assert!(app.status.contains("Session expired"));
}

#[test]
fn a_live_session_401_starts_a_recheck_instead_of_ending_the_session() {
    let mut app = live_app();
    app.handle_msg(Msg::SessionLost(TaskError {
        message: "Unauthorized".to_string(),
        code: Some("api_error.unauthorized".to_string()),
        max_page: None,
        kind: TaskErrorKind::Api(401),
    }));
    assert!(app.session.recovery_tried);
    assert!(app.session.recovery_pending);
    assert!(app.me.is_some());
    assert!(!login_on_top(&app));
}

#[test]
fn a_second_no_token_mid_recheck_does_not_end_the_session_and_the_recheck_still_wins() {
    let mut app = live_app();
    let generation_before = app.session.bootstrap_generation;
    app.handle_msg(Msg::NodesLoaded(Err(no_token())));
    assert!(app.session.recovery_pending);
    app.handle_msg(Msg::AlertsLoaded(Err(no_token())));

    assert!(app.me.is_some());
    assert!(!login_on_top(&app));
    assert_eq!(app.session.bootstrap_generation, generation_before);

    let m = session_rechecked(generation_before, String::new(), Some(Ok(kemical())));
    app.handle_msg(m);
    assert_eq!(app.me.as_ref().map(|u| u.user_id), Some(7));
    assert!(!login_on_top(&app));
}

#[test]
fn two_poller_session_lost_no_token_messages_do_not_end_the_session_and_the_recheck_still_wins() {
    let mut app = live_app();
    let generation_before = app.session.bootstrap_generation;
    app.handle_msg(Msg::SessionLost(no_token()));
    assert!(app.session.recovery_pending);
    app.handle_msg(Msg::SessionLost(no_token()));

    assert!(app.me.is_some());
    assert!(!login_on_top(&app));
    assert_eq!(app.session.bootstrap_generation, generation_before);

    let m = session_rechecked(generation_before, String::new(), Some(Ok(kemical())));
    app.handle_msg(m);
    assert_eq!(app.me.as_ref().map(|u| u.user_id), Some(7));
    assert!(!login_on_top(&app));
}

#[test]
fn a_poller_session_lost_oauth_message_mid_recheck_is_swallowed_and_the_recheck_still_wins() {
    let mut app = live_app();
    let generation_before = app.session.bootstrap_generation;
    app.handle_msg(Msg::SessionLost(no_token()));
    assert!(app.session.recovery_pending);
    app.handle_msg(Msg::SessionLost(invalid_grant()));

    assert!(app.me.is_some());
    assert!(!login_on_top(&app));
    assert_eq!(app.session.bootstrap_generation, generation_before);

    let m = session_rechecked(generation_before, String::new(), Some(Ok(kemical())));
    app.handle_msg(m);
    assert_eq!(app.me.as_ref().map(|u| u.user_id), Some(7));
}

#[test]
fn a_write_consumed_by_the_session_boundary_still_frees_the_composer() {
    let mut app = live_app();
    app.screens.push(reply_composer(true));
    app.handle_msg(Msg::ReplySent(Err(no_token())));
    assert!(app.session.recovery_pending);
    match app.screens.last() {
        Some(Screen::Compose(compose)) => {
            assert!(!compose.busy);
            assert_eq!(compose.body, "a draft nobody may lose");
            assert_eq!(compose.error.as_deref(), Some(RETRY_TEXT));
        }
        _ => panic!("the composer must still be open"),
    }

    let m = bootstrap(&app, Ok(kemical()));
    app.handle_msg(m);
    assert_eq!(app.status, "Session restored.");
    match app.screens.last() {
        Some(Screen::Compose(compose)) => {
            assert!(!compose.busy);
            assert_eq!(compose.body, "a draft nobody may lose");
        }
        _ => panic!("the composer must survive"),
    }
}

#[test]
fn a_list_load_consumed_by_the_session_boundary_reloads_after_the_recheck() {
    let mut app = live_app();
    if let Some(Screen::Home(h)) = app.screens.first_mut() {
        h.list.title = "Latest posts".to_string();
        h.list.loading = true;
    }
    app.handle_msg(Msg::ForumLoaded {
        node_id: 0,
        page: 1,
        append: false,
        seq: 0,
        result: Err(no_token()),
    });
    assert!(app.session.recovery_pending);
    match app.screens.first() {
        Some(Screen::Home(h)) => {
            assert!(!h.list.loading);
            assert_eq!(h.list.error.as_deref(), Some(RETRY_TEXT));
        }
        _ => panic!("expected Home"),
    }

    let m = bootstrap(&app, Ok(kemical()));
    app.handle_msg(m);
    match app.screens.first() {
        Some(Screen::Home(h)) => assert!(h.list.loading),
        _ => panic!("expected Home"),
    }
}

#[test]
fn a_session_recovery_window_left_open_past_the_timeout_backstop_keeps_the_live_session() {
    let mut app = live_app();
    app.session.recovery_tried = true;
    app.session.recovery_pending = true;
    app.session.recovery_started_at = Some(app.clock);

    app.expire_session_recovery_timeout();
    assert!(app.me.is_some());
    assert!(app.session.recovery_pending);

    app.clock += SESSION_RECOVERY_TIMEOUT_MS + 1_000;
    app.expire_session_recovery_timeout();
    assert!(app.me.is_some());
    assert!(!login_on_top(&app));
    assert!(!app.session.recovery_pending);
    assert!(app.session.recovery_started_at.is_none());
    assert!(app.status.contains("still signed in"));
}

#[test]
fn a_recheck_slower_than_the_old_15s_timeout_still_restores_the_session() {
    let mut app = live_app();
    app.screens.push(reply_composer(true));
    app.handle_msg(Msg::ReplySent(Err(no_token())));
    assert!(app.session.recovery_pending);

    app.clock += 16_000;
    app.expire_session_recovery_timeout();
    assert!(app.session.recovery_pending);
    assert!(app.me.is_some());

    let m = bootstrap(&app, Ok(kemical()));
    app.handle_msg(m);
    assert!(app.me.is_some());
    match app.screens.last() {
        Some(Screen::Compose(compose)) => assert_eq!(compose.body, "a draft nobody may lose"),
        _ => panic!("the composer must survive"),
    }
}

#[test]
fn bootstrap_ok_with_a_different_user_tears_down_the_old_identity() {
    let mut app = live_app();
    app.screens.push(search_state());
    app.keep_thread_position = Some((42, 1, 0, 0));
    app.open_palette();
    assert!(app.palette.is_some());
    app.alerts_unread = 5;
    app.convos_unread = 3;
    if let Some(Screen::Home(h)) = app.screens.first_mut() {
        h.list.node_id = 4;
        h.list.title = "News".to_string();
        h.list.threads = vec![Thread {
            thread_id: 1,
            title: "old identity's thread".to_string(),
            ..Default::default()
        }];
    }
    app.execute_action(Action::SubmitReply {
        thread_id: 42,
        message: "a draft written as the old identity".to_string(),
    });
    let m = bootstrap(
        &app,
        Ok(User { user_id: 99, username: "someone-else".to_string(), ..Default::default() }),
    );
    app.handle_msg(m);

    assert_eq!(app.me.as_ref().map(|u| u.user_id), Some(99));
    assert_eq!(app.screens.len(), 1);
    assert!(matches!(app.screens.last(), Some(Screen::Home(_))));
    assert!(app.keep_thread_position.is_none());
    assert!(app.palette.is_none());
    assert!(app.status.contains("someone-else"));
    assert_ne!(app.status, "Session restored.");
    assert_eq!(app.alerts_unread, 0);
    assert_eq!(app.convos_unread, 0);
    match app.screens.first() {
        Some(Screen::Home(h)) => {
            assert!(h.list.threads.is_empty());
            assert_eq!(h.list.node_id, 0);
        }
        _ => panic!("expected Home at the root"),
    }
    let sent = app.effects.iter().position(|e| matches!(e, Effect::SubmitReply { .. }));
    let aborted = app.effects.iter().position(|e| matches!(e, Effect::AbortWrites));
    assert!(sent.is_some() && sent < aborted, "the old identity's write is aborted");
}

#[test]
fn end_session_resets_homes_list_like_the_identity_change_teardown() {
    let mut app = live_app();
    if let Some(Screen::Home(h)) = app.screens.first_mut() {
        h.list.node_id = 4;
        h.list.title = "News".to_string();
        h.list.threads = vec![Thread {
            thread_id: 1,
            title: "old session's thread".to_string(),
            ..Default::default()
        }];
        h.focus = Pane::List;
    }
    app.end_session("Session expired; log in again.".to_string());
    match app.screens.first() {
        Some(Screen::Home(h)) => {
            assert!(h.list.threads.is_empty());
            assert_eq!(h.list.node_id, 0);
            assert!(h.focus == Pane::Tree);
        }
        _ => panic!("expected Home"),
    }

    app.handle_msg(Msg::LoginComplete {
        generation: app.session.login_generation,
        result: Ok(User {
            user_id: 99,
            username: "someone-else".to_string(),
            ..Default::default()
        }),
    });
    match app.screens.first() {
        Some(Screen::Home(h)) => assert!(h.list.loading),
        _ => panic!("expected Home"),
    }
}

#[test]
fn boundary_end_session_branch_lets_a_retained_screens_spinner_clear() {
    let mut app = test_app();
    app.screens.push(home_state(false));
    if let Some(Screen::Home(h)) = app.screens.first_mut() {
        h.tree.loading = true;
    }
    app.handle_msg(Msg::NodesLoaded(Err(no_token())));
    match app.screens.first() {
        Some(Screen::Home(h)) => assert!(!h.tree.loading),
        _ => panic!("expected Home"),
    }
}

#[test]
fn bootstrap_ok_with_the_same_user_is_unchanged() {
    let mut app = live_app();
    app.screens.push(search_state());
    app.keep_thread_position = Some((42, 1, 0, 0));
    let m = bootstrap(&app, Ok(kemical()));
    app.handle_msg(m);
    assert_eq!(app.me.as_ref().map(|u| u.user_id), Some(7));
    assert_eq!(app.screens.len(), 2);
    assert!(app.keep_thread_position.is_some());
    assert_eq!(app.status, "Session restored.");
}

#[test]
fn no_token_mid_session_rechecks_the_store_once_before_ending() {
    let mut app = live_app();
    app.handle_msg(Msg::NodesLoaded(Err(no_token())));
    assert!(app.me.is_some());
    assert!(app.session.recovery_tried);
    assert!(app.status.contains("re-checking"));

    let sent = nothing_adopted(&app);
    assert!(matches!(sent, Msg::Bootstrap { result: Err(_), .. }));
    app.handle_msg(sent);
    assert!(app.me.is_none());
    assert!(login_on_top(&app));

    app.me = Some(kemical());
    app.session.recovery_tried = true;
    app.handle_msg(Msg::NodesLoaded(Err(no_token())));
    assert!(app.me.is_none());
    assert!(app.status.contains("Session expired"));
}

fn refusal(code: &str) -> TaskError {
    TaskError {
        message: "some phrase text".to_string(),
        code: Some(code.to_string()),
        max_page: None,
        kind: TaskErrorKind::Api(403),
    }
}

#[test]
fn permission_refusal_403s_on_ordinary_calls_do_not_end_the_session() {
    let mut app = live_app();
    app.start_pollers();
    app.screens.push(Screen::ThreadView(ThreadViewState {
        thread: thread(42),
        ..Default::default()
    }));
    app.handle_msg(Msg::PostToggled {
        verb: PostVerb::Like,
        result: Err(refusal("reacting_to_your_own_content_is_considered_cheating")),
    });
    assert!(app.me.is_some());
    assert!(app.pollers);
    assert!(matches!(app.screens.last(), Some(Screen::ThreadView(_))));
    assert!(app.status.contains("Like failed"));

    let mut app = live_app();
    app.start_pollers();
    app.screens.push(Screen::Compose(ComposeState {
        target: Some(ComposeTarget::ThreadReply {
            thread_id: 1,
            thread_title: "A thread".to_string(),
        }),
        body: "my draft".to_string(),
        busy: true,
        ..Default::default()
    }));
    app.handle_msg(Msg::ReplySent(Err(refusal(
        "you_may_not_perform_this_action_because_discussion_is_closed",
    ))));
    assert!(app.me.is_some());
    assert!(app.pollers);
    match app.screens.last() {
        Some(Screen::Compose(cs)) => {
            assert_eq!(cs.body, "my draft");
            assert!(!cs.busy);
            assert!(cs.error.is_some());
        }
        _ => panic!("expected the composer to survive"),
    }

    let mut app = live_app();
    app.start_pollers();
    app.screens.push(Screen::ThreadView(ThreadViewState {
        thread: thread(42),
        ..Default::default()
    }));
    app.handle_msg(Msg::ThreadLoaded { id: 42, page: 1, result: Err(refusal("no_permission")) });
    assert!(app.me.is_some());
    assert!(app.pollers);
    match app.screens.last() {
        Some(Screen::ThreadView(v)) => assert!(v.error.is_some()),
        _ => panic!("expected the thread to survive"),
    }
}

#[test]
fn bootstrap_403s_end_the_session_only_for_account_gone_codes() {
    for code in [
        "you_have_been_banned",
        "your_account_has_been_rejected",
        "your_account_has_been_disabled",
        "api_error.api_key_inactive",
    ] {
        let mut app = live_app();
        app.start_pollers();
        let m = bootstrap(
            &app,
            Err(TaskError {
                message: "account gone".to_string(),
                code: Some(code.to_string()),
                max_page: None,
                kind: TaskErrorKind::Api(403),
            }),
        );
        app.handle_msg(m);
        assert!(app.me.is_none(), "code {code:?} must end the session");
        assert!(login_on_top(&app), "code {code:?}");
        assert!(!app.pollers, "code {code:?}");
    }

    let err = TaskError::of(&Error::Api {
        code: "api_error.missing_scope".to_string(),
        message: "This request requires access to the following scope: media:read".to_string(),
        status: 403,
        max_page: None,
    });
    assert!(err.message.contains("media:read") && err.message.contains("sign in again"));
    let mut app = live_app();
    app.start_pollers();
    let m = bootstrap(&app, Err(err));
    app.handle_msg(m);
    assert!(app.me.is_some());
    assert!(app.pollers);
}

#[test]
fn like_and_vote_notices_follow_the_servers_insert_or_delete() {
    assert_eq!(PostVerb::Like.notice(Toggle::Inserted), "Post liked.");
    assert_eq!(PostVerb::Like.notice(Toggle::Removed), "Like removed.");
    assert_eq!(PostVerb::VoteUp.notice(Toggle::Inserted), "Voted up.");
    assert_eq!(PostVerb::VoteDown.notice(Toggle::Inserted), "Voted down.");
    assert_eq!(PostVerb::VoteUp.notice(Toggle::Removed), "Vote removed.");
    assert_eq!(PostVerb::VoteDown.notice(Toggle::Removed), "Vote removed.");
    assert_eq!(PostVerb::of_vote("up"), PostVerb::VoteUp);
    assert_eq!(PostVerb::of_vote("DOWN"), PostVerb::VoteDown);
}

#[test]
fn the_refresh_after_a_like_keeps_the_reader_and_the_selection_in_place() {
    let posts = |n: u32| -> Vec<Post> {
        (1..=n).map(|i| Post { post_id: i, ..Default::default() }).collect()
    };
    let loaded = || Msg::ThreadLoaded {
        id: 42,
        page: 2,
        result: Ok(ThreadReply { thread: thread(42), posts: posts(5), ..Default::default() }),
    };
    let place = |app: &App| match app.screens.last() {
        Some(Screen::ThreadView(view)) => (view.sel_post, view.scroll),
        _ => panic!("expected the thread"),
    };

    let mut app = test_app();
    app.push_screen(Screen::ThreadView(ThreadViewState {
        thread: thread(42),
        page: 2,
        sel_post: 3,
        scroll: 12,
        posts: posts(5),
        ..Default::default()
    }));
    assert_eq!(open_thread_position(&app.screens), Some((42, 2, 3, 12)));

    app.keep_thread_position = Some((42, 2, 3, 12));
    app.handle_msg(loaded());
    assert_eq!(place(&app), (3, 12));
    assert!(app.keep_thread_position.is_none());

    app.handle_msg(loaded());
    assert_eq!(place(&app), (0, 0));
}

#[test]
fn status_toasts_clear_after_four_seconds_but_hints_never_do() {
    let mut app = test_app();
    app.set_status("Reply posted.".to_string());
    assert_eq!(app.status, "Reply posted.");
    assert!(app.status_set_at.is_some());

    app.expire_status_toast();
    assert_eq!(app.status, "Reply posted.");
    app.clock += 3_999;
    app.expire_status_toast();
    assert_eq!(app.status, "Reply posted.");

    app.clock += 1_001;
    app.expire_status_toast();
    assert_eq!(app.status, "");
    assert!(app.status_set_at.is_none());

    app.set_hint("Sign in first, or press q to quit.".to_string());
    assert!(app.status_set_at.is_none());
    app.clock += 60_000;
    app.expire_status_toast();
    app.expire_status_toast();
    assert_eq!(app.status, "Sign in first, or press q to quit.");
}

#[test]
fn sign_in_screen_blocks_global_nav_and_esc_while_logged_out() {
    let gate = || screen(EscIntent::Blocked("Sign in first, or press q to quit.".to_string()));
    let mut app = test_app();
    app.screens.push(login_state());
    if let Some(Screen::Login(ls)) = app.screens.last_mut() {
        ls.stage = LoginStage::Waiting;
        ls.url = "https://windowsforum.com/tui-start/abc123".to_string();
    }
    assert!(app.me.is_none());

    // The screen gets the key, and its answer to it copies the link.
    assert!(matches!(app.handle_key(key('c'), gate()), KeyRoute::Screen));
    app.execute_action(Action::OscCopy("https://windowsforum.com/tui-start/abc123".to_string()));
    assert_eq!(app.screens.len(), 1);
    assert!(login_on_top(&app));
    assert_eq!(app.clipboard, "https://windowsforum.com/tui-start/abc123");

    for c in ['a', 's', '/'] {
        app.handle_key(key(c), gate());
    }
    assert_eq!(app.screens.len(), 1);
    assert!(login_on_top(&app));

    app.handle_key(esc(), gate());
    assert_eq!(app.screens.len(), 1);
    assert!(login_on_top(&app));
    assert!(app.status.contains("Sign in first"));
}

#[test]
fn ctrl_l_with_the_palette_open_clears_it_and_leaves_login_on_top() {
    let mut app = test_app();
    app.screens.push(home_state(false));
    app.open_palette();
    assert!(app.palette.is_some());
    app.handle_key(control('l'), screen(EscIntent::Leave));
    assert!(app.palette.is_none());
    assert!(login_on_top(&app));
}

/// Every write that was asked for is followed by an abort of what still waits.
fn writes_aborted(app: &App) -> bool {
    let write = app.effects.iter().rposition(|e| {
        matches!(e, Effect::SubmitReply { .. } | Effect::ReactPost { .. })
    });
    let abort = app.effects.iter().rposition(|e| matches!(e, Effect::AbortWrites));
    write.is_some() && write < abort
}

#[test]
fn a_reply_abandoned_by_ctrl_l_is_never_sent() {
    let mut app = live_app();
    app.execute_action(Action::SubmitReply {
        thread_id: 42,
        message: "a draft the user then abandoned".to_string(),
    });
    assert!(!writes_aborted(&app));
    app.handle_key(control('l'), screen(EscIntent::Leave));
    assert!(app.me.is_none());
    assert!(writes_aborted(&app));
}

#[test]
fn a_like_abandoned_by_ctrl_l_is_never_sent() {
    let mut app = live_app();
    app.execute_action(Action::ReactPost(99));
    assert!(!writes_aborted(&app));
    app.handle_key(control('l'), screen(EscIntent::Leave));
    assert!(app.me.is_none());
    assert!(writes_aborted(&app));
}

#[test]
fn toast_expiry_marks_dirty_exactly_once() {
    let mut app = test_app();
    app.set_status("Reply posted.".to_string());
    assert!(!app.expire_status_toast());
    app.clock += 5_000;
    assert!(app.expire_status_toast());
    assert!(!app.expire_status_toast());
}

#[test]
fn a_post_toggled_landing_after_teardown_reloads_nothing() {
    let liked = || Msg::PostToggled { verb: PostVerb::Like, result: Ok(Toggle::Inserted) };
    let mut app = test_app();
    app.me = Some(kemical());
    app.screens.push(Screen::ThreadView(ThreadViewState {
        thread: thread(42),
        page: 2,
        ..Default::default()
    }));
    app.handle_msg(liked());
    assert!(matches!(&app.keep_thread_position, Some((42, 2, ..))));
    app.keep_thread_position = None;

    app.me = None;
    let asked = app.effects.len();
    app.handle_msg(liked());
    assert!(app.keep_thread_position.is_none());
    assert_eq!(app.effects.len(), asked);
}

#[test]
fn ctrl_l_on_a_waiting_login_screen_leaves_it_untouched() {
    let mut app = test_app();
    app.screens.push(login_state());
    if let Some(Screen::Login(ls)) = app.screens.last_mut() {
        ls.stage = LoginStage::Waiting;
        ls.url = "https://windowsforum.com/tui-start/abc123".to_string();
    }
    app.status = "Login link \u{2192} clipboard + login-url.txt".to_string();
    app.handle_key(control('l'), screen(EscIntent::Leave));
    assert_eq!(app.screens.len(), 1);
    match app.screens.last() {
        Some(Screen::Login(ls)) => {
            assert!(matches!(ls.stage, LoginStage::Waiting));
            assert_eq!(ls.url, "https://windowsforum.com/tui-start/abc123");
        }
        _ => panic!("expected the sign-in screen to survive"),
    }
    assert_ne!(app.status, "Logged out.");
}

#[test]
fn enter_while_waiting_restarts_login_and_supersedes_the_old_flow() {
    let mut app = test_app();
    app.screens.push(login_state());
    if let Some(Screen::Login(ls)) = app.screens.last_mut() {
        ls.stage = LoginStage::Waiting;
        ls.url = "https://windowsforum.com/tui-start/old".to_string();
    }
    app.session.login_task = true;
    let before = app.session.login_generation;

    app.execute_action(Action::LoginBegin);
    assert!(app.effects.iter().any(|e| matches!(e, Effect::AbortLogin)));
    let generation = app.session.login_generation;
    assert_ne!(before, generation);
    match app.effects.last() {
        Some(Effect::BeginLogin { generation: g }) => assert_eq!(*g, generation),
        _ => panic!("expected a new flow"),
    }
    let login = |app: &App| match app.screens.last() {
        Some(Screen::Login(ls)) => {
            (ls.busy, ls.error.clone(), ls.url.clone(), matches!(ls.stage, LoginStage::Idle))
        }
        _ => panic!("expected the sign-in screen"),
    };
    assert_eq!(login(&app), (true, None, String::new(), true));

    app.handle_msg(Msg::LoginReady {
        generation: before,
        url: "https://windowsforum.com/tui-start/stale".to_string(),
    });
    app.handle_msg(Msg::LoginFailed {
        generation: before,
        message: "login link expired".to_string(),
    });
    assert_eq!(login(&app), (true, None, String::new(), true));

    app.handle_msg(Msg::LoginFailed {
        generation,
        message: "timed out waiting for approval".to_string(),
    });
    let (busy, error, _, _) = login(&app);
    assert!(!busy);
    assert_eq!(error.as_deref(), Some("timed out waiting for approval"));
}

#[test]
fn start_pollers_replaces_the_previous_pair_and_logout_stops_them() {
    let running = |app: &App| -> i32 {
        app.effects.iter().fold(0, |n, e| match e {
            Effect::StartPollers => n + 1,
            Effect::StopPollers => 0,
            _ => n,
        })
    };
    let mut app = test_app();
    app.start_pollers();
    assert_eq!(running(&app), 1);
    app.start_pollers();
    assert_eq!(running(&app), 1);

    app.logout();
    assert_eq!(running(&app), 0);
    assert!(!app.pollers);
    assert_eq!(app.alerts_unread, 0);
    assert_eq!(app.convos_unread, 0);
}

#[test]
fn esc_reaches_the_screen_first_and_never_pops_a_busy_composer() {
    let mut app = test_app();
    app.screens.push(home_state(false));
    app.screens.push(reply_composer(true));
    let busy = "Posting — Esc waits for the result.".to_string();
    app.handle_key(esc(), screen(EscIntent::Blocked(busy)));
    assert_eq!(app.screens.len(), 2);
    assert!(app.status.contains("Esc"));

    // Idle: the composer has the key, and its answer to it leaves.
    app.screens.pop();
    app.screens.push(reply_composer(false));
    assert!(matches!(app.handle_key(esc(), screen(EscIntent::Screen)), KeyRoute::Screen));
    app.execute_action(Action::PopScreen);
    assert_eq!(app.screens.len(), 1);

    app.screens.push(Screen::Search(SearchState {
        query: "edge".to_string(),
        input_mode: true,
        ..Default::default()
    }));
    assert!(matches!(app.handle_key(esc(), screen(EscIntent::Screen)), KeyRoute::Screen));
    assert_eq!(app.screens.len(), 2);
    if let Some(Screen::Search(s)) = app.screens.last_mut() {
        s.input_mode = false;
    }
    app.handle_key(esc(), screen(EscIntent::Leave));
    assert_eq!(app.screens.len(), 1);

    app.status.clear();
    app.handle_msg(Msg::ReplySent(Err(failure("Flood control", TaskErrorKind::Other))));
    assert!(app.status.contains("Flood control"));
}

#[test]
fn resolve_profile_id_prefers_a_found_id_only_when_the_caller_had_none() {
    assert_eq!(resolve_profile_id(0, Some(42)), 42);
    assert_eq!(resolve_profile_id(0, None), 0);
    assert_eq!(resolve_profile_id(7, Some(999)), 7);
    assert_eq!(resolve_profile_id(7, None), 7);
}
