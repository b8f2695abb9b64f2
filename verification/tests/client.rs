//! What the client does with messages, keys and actions.

use wftui::actions::Action;
use wftui::app::{App, QuickNodes, Selection, Site};
use wftui::effects::Effect;
use wftui::errors::{Error, TaskError, TaskErrorKind};
use wftui::input::{EscIntent, KeyRoute, TopScreen};
use wftui::keys::{Area, KeyCode, KeyEvent, KeyModifiers, MouseEvent, MouseKind, Pointed};
use wftui::mirror::{is_image_cell, FrameCell};
use wftui::models::{
    Conversation, ConversationReply, ForumReply, Node, SearchResultsReply, Thread, ThreadReply,
    User,
};
use wftui::msg::Msg;
use wftui::pointer::{Gesture, Wheel};
use wftui::screens::{
    ComposeState, ComposeTarget, ConversationViewState, ConversationsState, ForumTreeState,
    HomeState, InboxState, NewConversationState, Pane, Screen, ThreadListState, ThreadViewState,
};
use wftui::session::{home_state, login_state};
use wftui::update::UpdateConfig;
use wftui::url::resolve_open_url;
use wftui::writes::{known_conversation_last_page, known_thread_last_page};

fn test_app() -> App {
    let site = Site {
        base_url: "https://windowsforum.com".to_string(),
        quick: QuickNodes { news: 4, security: 5, tutorials: 6 },
    };
    let update = UpdateConfig { disabled: true, current_version: "1.0.0".to_string() };
    let mut app = App::new(site, true, update, 1_000_000);
    app.alerts_unread = 3;
    app.convos_unread = 5;
    app.status = String::new();
    app
}

fn failure(message: &str, kind: TaskErrorKind) -> TaskError {
    TaskError { message: message.to_string(), code: None, max_page: None, kind }
}

fn user(user_id: u32, username: &str) -> User {
    User { user_id, username: username.to_string(), ..Default::default() }
}

fn thread(thread_id: u32) -> Thread {
    Thread { thread_id, ..Default::default() }
}

fn key(code: KeyCode) -> KeyEvent {
    KeyEvent::new(code, KeyModifiers::empty())
}

/// A top screen that captures nothing and lets Esc leave.
fn open_screen() -> TopScreen {
    TopScreen { input_capture: false, esc: EscIntent::Leave }
}

fn press(app: &mut App, code: KeyCode) -> KeyRoute {
    app.handle_key(key(code), open_screen())
}

fn login_shown(app: &App) -> bool {
    app.screens.iter().any(|s| matches!(s, Screen::Login(_)))
}

fn login_on_top(app: &App) -> bool {
    matches!(app.screens.last(), Some(Screen::Login(_)))
}

fn nowhere() -> Pointed {
    Pointed { hit: None, text_like: false, post: None }
}

fn text_cell(symbol: &str, width: usize) -> FrameCell {
    FrameCell { symbol: symbol.to_string(), width, marked: false }
}

#[test]
fn image_cells_are_recognised_by_both_the_anchor_and_the_covered_cells() {
    let mut plain = text_cell("a", 1);
    assert!(!is_image_cell(&plain));

    let skipped = FrameCell { symbol: " ".to_string(), width: 1, marked: true };
    assert!(is_image_cell(&skipped));

    let anchor = FrameCell {
        symbol: "\x1b_Gf=100,i=7;AAAA\x1b\\".to_string(),
        width: 1,
        marked: true,
    };
    assert!(is_image_cell(&anchor));
    assert!(is_image_cell(&text_cell("\x1b_Gf=100,i=7;AAAA\x1b\\", 1)));

    plain.symbol = "\u{2503}".to_string();
    assert!(!is_image_cell(&plain));
}

#[test]
fn a_failed_revoke_is_reported_in_the_status_line() {
    let mut app = test_app();
    app.screens.push(login_state());
    app.status = "Logged out.".to_string();
    app.status_set_at = Some(app.clock);
    app.handle_msg(Msg::LoggedOut(Err("the server kept refresh token valid".to_string())));
    assert!(app.status.contains("Logged out locally") && app.status.contains("refresh token"));
    assert!(app.status_set_at.is_none());
    match app.screens.last() {
        Some(Screen::Login(ls)) => {
            assert!(ls.error.as_deref().is_some_and(|e| e.contains("refresh token")));
        }
        _ => panic!("expected the sign-in screen on top"),
    }

    app.status = "Logged out.".to_string();
    app.handle_msg(Msg::LoggedOut(Ok(())));
    assert_eq!(app.status, "Logged out.");
}

#[test]
fn a_successful_load_clears_a_previous_error_from_the_panel() {
    let mut app = test_app();
    app.push_screen(Screen::ThreadList(ThreadListState {
        node_id: 1,
        error: Some("connection reset".to_string()),
        loading: true,
        ..Default::default()
    }));
    app.handle_msg(Msg::ForumLoaded {
        node_id: 1,
        page: 1,
        append: false,
        seq: 0,
        result: Ok(ForumReply::default()),
    });
    match app.screens.last() {
        Some(Screen::ThreadList(list)) => assert!(list.error.is_none()),
        _ => panic!("expected the thread list"),
    }

    app.screens.clear();
    app.push_screen(Screen::ThreadView(ThreadViewState {
        error: Some("timed out".to_string()),
        loading: true,
        thread: thread(9),
        ..Default::default()
    }));
    app.handle_msg(Msg::ThreadLoaded {
        id: 9,
        page: 1,
        result: Ok(ThreadReply { thread: thread(9), ..Default::default() }),
    });
    match app.screens.last() {
        Some(Screen::ThreadView(view)) => assert!(view.error.is_none()),
        _ => panic!("expected the thread view"),
    }
}

#[test]
fn a_profile_reply_fills_only_the_screen_that_requested_it() {
    let mut app = test_app();
    app.open_profile(11, "alice");
    let alice_generation = app.minted.profile_generation;
    app.open_profile(22, "bob");
    let bob_generation = app.minted.profile_generation;
    assert_ne!(alice_generation, bob_generation);

    app.handle_msg(Msg::ProfileLoaded {
        generation: alice_generation,
        result: Ok(user(11, "alice")),
    });
    match app.screens.last() {
        Some(Screen::Profile(top)) => {
            assert_eq!(top.title, "bob");
            assert!(top.user.is_none());
            assert!(top.loading);
        }
        _ => panic!("expected bob's profile on top"),
    }

    app.handle_msg(Msg::ProfileLoaded { generation: bob_generation, result: Ok(user(22, "bob")) });
    match app.screens.last() {
        Some(Screen::Profile(top)) => {
            assert_eq!(top.user.as_ref().map(|u| u.user_id), Some(22));
            assert!(!top.loading);
        }
        _ => panic!("expected bob's profile on top"),
    }

    app.screens.pop();
    app.handle_msg(Msg::ProfileLoaded {
        generation: alice_generation,
        result: Ok(user(11, "alice")),
    });
    match app.screens.last() {
        Some(Screen::Profile(alice)) => {
            assert_eq!(alice.user.as_ref().map(|u| u.user_id), Some(11));
        }
        _ => panic!("expected alice's profile"),
    }
}

#[test]
fn a_search_reply_fills_only_the_screen_that_requested_it() {
    let mut app = test_app();
    app.execute_action(Action::OpenMemberContent {
        user_id: 11,
        username: "alice".to_string(),
        content: "thread".to_string(),
    });
    let alice_generation = app.minted.search_generation;
    app.execute_action(Action::OpenMemberContent {
        user_id: 22,
        username: "bob".to_string(),
        content: "post".to_string(),
    });
    let bob_generation = app.minted.search_generation;
    assert_ne!(alice_generation, bob_generation);

    app.handle_msg(Msg::SearchDone {
        generation: alice_generation,
        page: 1,
        result: Ok(SearchResultsReply::default()),
    });
    match app.screens.last() {
        Some(Screen::Search(top)) => {
            assert_eq!(top.member.as_ref().map(|m| m.0), Some(22));
            assert!(top.loading);
            assert!(top.results.is_empty());
        }
        _ => panic!("expected bob's search on top"),
    }

    app.handle_msg(Msg::SearchDone {
        generation: bob_generation,
        page: 1,
        result: Ok(SearchResultsReply::default()),
    });
    match app.screens.last() {
        Some(Screen::Search(top)) => assert!(!top.loading),
        _ => panic!("expected bob's search on top"),
    }
}

#[test]
fn recipient_prefill_seeds_a_char_cursor_not_a_byte_length() {
    let mut app = test_app();
    app.execute_action(Action::StartNewConversation(Some("Zoë".to_string())));
    match app.screens.last() {
        Some(Screen::NewConversation(state)) => {
            assert_eq!(state.recipients, "Zoë, ");
            assert_eq!(state.recipients.len(), 6);
            assert_eq!(state.recipients_cursor, state.recipients.chars().count());
            assert_eq!(state.recipients_cursor, 5);
        }
        _ => panic!("expected the form for a conversation"),
    }
}

#[test]
fn the_selection_mirror_skips_wide_char_continuation_cells() {
    let mut app = test_app();
    let mut row = vec![
        text_cell("\u{6f22}", 2),
        text_cell(" ", 1),
        text_cell("\u{5b57}", 2),
        text_cell(" ", 1),
        text_cell(" ", 1),
        text_cell("o", 1),
        text_cell("k", 1),
    ];
    while row.len() < 12 {
        row.push(text_cell(" ", 1));
    }
    app.pointer.capture_screen(&vec![row]);

    let shown: String = app.pointer.screen_rows[0].iter().collect();
    assert_eq!(shown.trim_end(), "\u{6f22}\u{5b57} ok");

    for col in [0u16, 1, 2, 3] {
        assert_eq!(app.pointer.find_word_bounds(col, 0), Some((0, 3)));
    }
    assert_eq!(app.pointer.extract_selection_text(0, 0, 3, 0), "\u{6f22}\u{5b57}");
    assert_eq!(app.pointer.find_word_bounds(5, 0), Some((5, 6)));
    assert_eq!(app.pointer.extract_selection_text(0, 0, 6, 0), "\u{6f22}\u{5b57} ok");
    assert_eq!(app.pointer.find_word_bounds(4, 0), None);
}

#[test]
fn a_selection_band_is_clipped_to_the_frame() {
    let mut app = test_app();
    app.pointer.selection = Some(Selection { anchor: (0, 0), end: (3, 0) });
    assert_eq!(app.pointer.paint_selection(12, 1), Some((0, 0, 3, 0)));
    assert_eq!(app.pointer.paint_selection(3, 1), Some((0, 0, 2, 0)));
    app.pointer.selection = Some(Selection { anchor: (9, 4), end: (2, 1) });
    assert_eq!(app.pointer.paint_selection(8, 3), Some((2, 1, 7, 2)));
    assert_eq!(app.pointer.paint_selection(2, 3), None);
    app.pointer.selection = None;
    assert_eq!(app.pointer.paint_selection(8, 3), None);
}

#[test]
fn known_thread_last_page_finds_the_open_view_or_defaults_to_one() {
    let view = |thread_id: u32, last_page: u32| {
        Screen::ThreadView(ThreadViewState {
            thread: thread(thread_id),
            last_page,
            ..Default::default()
        })
    };
    let screens = vec![view(1, 1), view(42, 3)];
    assert_eq!(known_thread_last_page(&screens, 42), 3);
    assert_eq!(known_thread_last_page(&screens, 1), 1);
    assert_eq!(known_thread_last_page(&screens, 999), 1);

    let screens = vec![view(7, 0)];
    assert_eq!(known_thread_last_page(&screens, 7), 1);
}

#[test]
fn known_conversation_last_page_finds_the_open_view_or_defaults_to_one() {
    let convo = |id: u32| Conversation { conversation_id: id, ..Default::default() };
    let standalone = |id: u32, last_page: u32| {
        Screen::ConversationView(ConversationViewState {
            conversation: convo(id),
            last_page,
            ..Default::default()
        })
    };
    let inbox_view = |id: u32, last_page: u32| {
        Screen::Inbox(InboxState {
            dual: true,
            view: Some(ConversationViewState {
                conversation: convo(id),
                last_page,
                ..Default::default()
            }),
            ..Default::default()
        })
    };

    let screens = vec![standalone(1, 1), standalone(42, 3)];
    assert_eq!(known_conversation_last_page(&screens, 42), 3);
    assert_eq!(known_conversation_last_page(&screens, 1), 1);
    assert_eq!(known_conversation_last_page(&screens, 999), 1);

    let screens = vec![inbox_view(9, 4)];
    assert_eq!(known_conversation_last_page(&screens, 9), 4);

    let screens = vec![standalone(7, 0)];
    assert_eq!(known_conversation_last_page(&screens, 7), 1);
}

#[test]
fn conversation_marked_flips_the_row_in_place_and_keeps_the_current_page() {
    let mut app = test_app();
    let convo = |id: u32, unread: bool| Conversation {
        conversation_id: id,
        is_unread: unread,
        ..Default::default()
    };
    app.push_screen(Screen::Inbox(InboxState {
        convos: ConversationsState {
            conversations: vec![convo(21, true), convo(22, true)],
            page: 2,
            last_page: 2,
            ..Default::default()
        },
        ..Default::default()
    }));
    app.convos_unread = 5;

    app.handle_msg(Msg::ConversationMarked(22, Ok(())));

    match app.screens.last() {
        Some(Screen::Inbox(ib)) => {
            assert_eq!(ib.convos.page, 2);
            assert!(!ib.convos.conversations[1].is_unread);
            assert!(ib.convos.conversations[0].is_unread);
        }
        _ => panic!("expected the inbox to survive"),
    }
    assert_eq!(app.convos_unread, 1);
    assert!(app.effects.is_empty(), "nothing is loaded again");
}

#[test]
fn resolve_open_url_allows_four_schemes_and_refuses_the_rest() {
    let base = "https://windowsforum.com";
    let ok = |url: &str, want: &str| assert_eq!(resolve_open_url(url, base), Ok(want.to_string()));
    let err = |url: &str, want: &str| {
        assert_eq!(resolve_open_url(url, base), Err(want.to_string()))
    };

    ok("mailto:someone@example.com", "mailto:someone@example.com");
    ok("HTTPS://Example.com/x", "HTTPS://Example.com/x");
    ok("ftp://host/file", "ftp://host/file");
    ok("http://windowsforum.com/threads/1", "http://windowsforum.com/threads/1");

    err("javascript:alert(1)", "javascript");
    err("data:text/html,x", "data");
    err("file:///etc/passwd", "file");
    err("VBScript:msgbox(1)", "vbscript");

    ok("/threads/123", "https://windowsforum.com/threads/123");
    ok("threads/123", "https://windowsforum.com/threads/123");
    ok("/search?q=foo:bar", "https://windowsforum.com/search?q=foo:bar");
}

#[test]
fn the_wheel_scrolls_the_pane_under_the_pointer_and_leaves_overlays_alone() {
    let wheel = |column: u16, row: u16| MouseEvent { kind: MouseKind::ScrollDown, column, row };
    let down = key(KeyCode::Down);

    let mut app = test_app();
    app.pointer.body_rect = Area { x: 0, y: 1, width: 120, height: 20 };
    app.screens.push(Screen::Home(HomeState {
        tree: ForumTreeState {
            nodes: (1..=5)
                .map(|node_id| Node {
                    node_id,
                    title: format!("Forum {node_id}"),
                    node_type: "Forum".to_string(),
                    ..Default::default()
                })
                .collect(),
            ..Default::default()
        },
        list: ThreadListState {
            threads: (1..=5)
                .map(|thread_id| Thread {
                    thread_id,
                    title: format!("Thread {thread_id}"),
                    ..Default::default()
                })
                .collect(),
            ..Default::default()
        },
        focus: Pane::Tree,
        dual: true,
    }));

    // Inside the body the screen gets the key, whichever pane it is over.
    for (x, y) in [(100, 5), (10, 5), (0, 1), (119, 20)] {
        match app.handle_mouse(wheel(x, y), nowhere()) {
            Gesture::Wheel(w) => assert_eq!(w, Wheel::Screen { key: down, times: 3 }),
            _ => panic!("expected a turn of the wheel"),
        }
    }

    // The key bar and the header do not scroll.
    for (x, y) in [(10, 21), (10, 0), (120, 5)] {
        match app.handle_mouse(wheel(x, y), nowhere()) {
            Gesture::Wheel(w) => assert_eq!(w, Wheel::Nothing),
            _ => panic!("expected a turn of the wheel"),
        }
    }

    app.show_help = true;
    app.handle_mouse(wheel(100, 5), nowhere());
    assert!(app.show_help);
    app.show_help = false;
    app.chord = true;
    app.handle_mouse(wheel(100, 5), nowhere());
    assert!(app.chord);
}

#[test]
fn member_content_keys_reach_search_member_and_never_the_keyword_search() {
    let mut app = test_app();
    app.execute_action(Action::OpenMemberContent {
        user_id: 42,
        username: "kemical".to_string(),
        content: "thread".to_string(),
    });
    match app.screens.last() {
        Some(Screen::Search(search)) => {
            assert_eq!(search.member, Some((42, "thread".to_string())));
        }
        _ => panic!("expected the member's content on top"),
    }
    app.execute_action(Action::LoadMemberContent {
        user_id: 42,
        content: "thread".to_string(),
        page: 3,
    });
    app.execute_action(Action::LoadMemberContent {
        user_id: 42,
        content: "post".to_string(),
        page: 1,
    });

    let searches: Vec<(u32, String, u32)> = app
        .effects
        .iter()
        .filter_map(|e| match e {
            Effect::SearchMember { user_id, content, page, .. } => {
                Some((*user_id, content.clone(), *page))
            }
            _ => None,
        })
        .collect();
    assert_eq!(
        searches,
        vec![
            (42, "thread".to_string(), 1),
            (42, "thread".to_string(), 3),
            (42, "post".to_string(), 1),
        ]
    );
    assert!(!app.effects.iter().any(|e| matches!(e, Effect::Search { .. })));
}

fn conversations_created(app: &App) -> usize {
    app.effects.iter().filter(|e| matches!(e, Effect::CreateConversation { .. })).count()
}

#[test]
fn a_second_enter_after_recipients_resolve_cannot_start_a_second_conversation() {
    let mut app = test_app();
    app.push_screen(Screen::NewConversation(NewConversationState {
        recipients: "kemical".to_string(),
        title: "hi".to_string(),
        body: "hello".to_string(),
        field: 2,
        busy: true,
        resolving: 1,
        ..Default::default()
    }));
    app.execute_action(Action::ResolveRecipients(vec!["kemical".to_string()]));
    app.handle_msg(Msg::RecipientResolved { name: "kemical".to_string(), id: Ok(Some(9)) });
    assert_eq!(conversations_created(&app), 1);
    match app.effects.last() {
        Some(Effect::CreateConversation { ids, title, body }) => {
            assert_eq!(*ids, vec![9]);
            assert_eq!((title.as_str(), body.as_str()), ("hi", "hello"));
        }
        _ => panic!("expected the conversation to go out"),
    }
    match app.screens.last() {
        Some(Screen::NewConversation(nc)) => {
            assert!(nc.busy);
            assert!(nc.sending);
        }
        _ => panic!("the form must stay up while the write is in flight"),
    }

    app.handle_msg(Msg::RecipientResolved { name: "kemical".to_string(), id: Ok(Some(9)) });
    assert_eq!(conversations_created(&app), 1);

    let blocked = TopScreen {
        input_capture: false,
        esc: EscIntent::Blocked("Sending…".to_string()),
    };
    app.handle_key(key(KeyCode::Esc), blocked);
    assert!(matches!(app.screens.last(), Some(Screen::NewConversation(_))));
}

#[test]
fn a_failed_recipient_lookup_does_not_read_as_not_found() {
    let mut app = test_app();
    app.push_screen(Screen::NewConversation(NewConversationState {
        recipients: "kemical".to_string(),
        title: "hi".to_string(),
        body: "hello".to_string(),
        busy: true,
        resolving: 1,
        ..Default::default()
    }));
    app.handle_msg(Msg::RecipientResolved {
        name: "kemical".to_string(),
        id: Err(failure("server error", TaskErrorKind::Api(500))),
    });
    match app.screens.last() {
        Some(Screen::NewConversation(nc)) => {
            assert_eq!(nc.errors.len(), 1);
            assert!(nc.errors[0].contains("lookup failed"));
            assert!(!nc.errors[0].contains("not found"));
            assert!(!nc.busy);
            assert!(!nc.sending);
        }
        _ => panic!("expected the form"),
    }
}

#[test]
fn a_create_failure_with_the_screen_gone_still_reaches_the_status_line() {
    let mut app = test_app();
    app.handle_msg(Msg::ConvoCreated(Err(failure("flooding", TaskErrorKind::Other))));
    assert!(app.status.contains("flooding"));
}

#[test]
fn only_a_user_opened_conversation_is_marked_read() {
    let conv = || Conversation {
        conversation_id: 7,
        title: "Hello".to_string(),
        is_unread: true,
        ..Default::default()
    };
    let reply = || ConversationReply {
        conversation: Conversation { conversation_id: 7, ..Default::default() },
        ..Default::default()
    };
    let marks = |app: &App| -> Vec<u32> {
        app.effects
            .iter()
            .filter_map(|e| match e {
                Effect::MarkConversationRead { id, .. } => Some(*id),
                _ => None,
            })
            .collect()
    };
    let unread = |app: &App| match app.screens.last() {
        Some(Screen::Inbox(ib)) => ib.convos.conversations[0].is_unread,
        _ => panic!("expected the inbox"),
    };

    let mut app = test_app();
    app.screens.push(Screen::Inbox(InboxState {
        dual: true,
        convos: ConversationsState {
            conversations: vec![conv()],
            page: 1,
            last_page: 1,
            ..Default::default()
        },
        view: Some(ConversationViewState {
            conversation: conv(),
            page: 1,
            loading: true,
            ..Default::default()
        }),
        ..Default::default()
    }));
    app.convos_unread = 1;

    app.handle_msg(Msg::ConversationLoaded {
        id: 7,
        page: 1,
        mark_read: false,
        result: Ok(reply()),
    });
    assert!(marks(&app).is_empty());
    assert!(unread(&app));
    assert_eq!(app.convos_unread, 1);

    app.handle_msg(Msg::ConversationLoaded {
        id: 7,
        page: 1,
        mark_read: true,
        result: Ok(reply()),
    });
    assert_eq!(marks(&app), vec![7]);
    assert!(!unread(&app));
    assert_eq!(app.convos_unread, 0);
}

#[test]
fn convo_reply_sent_asks_for_one_page_past_the_known_last_page() {
    let mut app = test_app();
    app.screens.push(Screen::ConversationView(ConversationViewState {
        conversation: Conversation { conversation_id: 7, ..Default::default() },
        page: 2,
        last_page: 2,
        ..Default::default()
    }));
    app.screens.push(Screen::Compose(ComposeState {
        target: Some(ComposeTarget::ConversationReply {
            conversation_id: 7,
            conversation_title: "Hello".to_string(),
            participants: "kemical".to_string(),
        }),
        body: "reply text".to_string(),
        ..Default::default()
    }));

    app.handle_msg(Msg::ConvoReplySent(Ok(())));
    assert!(matches!(
        app.effects.last(),
        Some(Effect::LoadConversation { id: 7, page: 3, mark_read: true })
    ));
    assert!(!app.screens.iter().any(|s| matches!(s, Screen::Compose(_))));
    assert_eq!(app.status, "Message sent.");
}

#[test]
fn conversation_loaded_error_with_max_page_reloads_the_clamped_page() {
    let mut app = test_app();
    app.screens.push(Screen::ConversationView(ConversationViewState {
        conversation: Conversation { conversation_id: 7, ..Default::default() },
        page: 3,
        last_page: 3,
        loading: true,
        ..Default::default()
    }));

    app.handle_msg(Msg::ConversationLoaded {
        id: 7,
        page: 3,
        mark_read: true,
        result: Err(TaskError {
            message: "invalid page".to_string(),
            code: Some("invalid_page".to_string()),
            max_page: Some(2),
            kind: TaskErrorKind::Api(400),
        }),
    });

    match app.screens.last() {
        Some(Screen::ConversationView(view)) => {
            assert_eq!(view.last_page, 2);
            assert!(view.loading);
            assert!(view.error.is_none());
        }
        _ => panic!("expected the conversation"),
    }
    assert!(matches!(
        app.effects.last(),
        Some(Effect::LoadConversation { id: 7, page: 2, mark_read: true })
    ));
}

#[test]
fn task_error_of_classifies_every_error_kind() {
    let api = |status: u16| Error::Api {
        code: "x".to_string(),
        message: "m".to_string(),
        status,
        max_page: None,
    };
    for status in [401, 403, 500, 200] {
        assert_eq!(TaskError::of(&api(status)).kind, TaskErrorKind::Api(status));
    }
    let invalid_grant = || Error::OAuth {
        code: "invalid_grant".to_string(),
        message: "expired".to_string(),
        status: 400,
    };
    assert_eq!(TaskError::of(&invalid_grant()).kind, TaskErrorKind::OAuth);
    assert_eq!(
        TaskError::of(&Error::NoToken { text: "not logged in".to_string() }).kind,
        TaskErrorKind::NoToken
    );
    assert_eq!(
        TaskError::of(&Error::Other { text: "bad".to_string() }).kind,
        TaskErrorKind::Other
    );

    assert!(TaskErrorKind::Api(401).ends_session());
    assert!(!TaskErrorKind::Api(403).ends_session());
    assert!(TaskErrorKind::OAuth.ends_session());
    assert!(TaskErrorKind::NoToken.ends_session());
    assert!(!TaskErrorKind::Api(500).ends_session());
    assert!(!TaskErrorKind::Api(200).ends_session());
    assert!(!TaskErrorKind::Other.ends_session());

    let oauth_http_error = TaskError::of(&Error::OAuth {
        code: "http_error".to_string(),
        message: "<html>bad gateway</html>".to_string(),
        status: 502,
    });
    assert_eq!(oauth_http_error.kind, TaskErrorKind::OAuth);
    assert!(!oauth_http_error.ends_session());

    let api_http_error = TaskError::of(&Error::Api {
        code: "http_error".to_string(),
        message: "<html>forbidden</html>".to_string(),
        status: 403,
        max_page: None,
    });
    assert_eq!(api_http_error.kind, TaskErrorKind::Api(403));
    assert!(!api_http_error.ends_session());

    assert!(TaskError::of(&invalid_grant()).ends_session());
}

fn bootstrap(app: &App, result: Result<User, TaskError>) -> Msg {
    Msg::Bootstrap { generation: app.session.bootstrap_generation, result }
}

#[test]
fn bootstrap_transient_error_keeps_the_session_and_r_retries() {
    let mut app = test_app();
    app.screens.push(home_state(true));
    let m = bootstrap(&app, Err(failure("http error: connection reset", TaskErrorKind::Other)));
    app.handle_msg(m);

    assert!(!login_shown(&app));
    assert!(app.session.bootstrap_retry_needed);
    assert!(app.status.contains("press r to retry"));
    assert!(!app.status.contains("Session expired"));

    press(&mut app, KeyCode::Char('r'));
    assert!(!app.session.bootstrap_retry_needed);
    assert!(matches!(app.effects.last(), Some(Effect::RestoreSession { .. })));
}

#[test]
fn bootstrap_transient_error_in_a_live_session_never_hijacks_r_from_the_composer() {
    let mut app = test_app();
    app.me = Some(user(7, "kemical"));
    app.screens.push(home_state(false));
    app.screens.push(Screen::ThreadView(ThreadViewState {
        thread: Thread { thread_id: 42, reply_count: 3, ..Default::default() },
        ..Default::default()
    }));
    app.session.recovery_tried = true;
    assert!(!app.pollers);

    let m = bootstrap(&app, Err(failure("http error: connection reset", TaskErrorKind::Other)));
    app.handle_msg(m);

    assert!(!app.session.bootstrap_retry_needed);
    assert!(app.me.is_some());
    assert!(app.status.contains("still signed in as kemical"));
    assert!(!app.status.contains("press r to retry"));
    assert!(app.pollers);
    assert!(!app.session.recovery_tried);

    // The key reaches the thread, whose answer to it opens the composer.
    assert!(matches!(press(&mut app, KeyCode::Char('r')), KeyRoute::Screen));
    app.execute_action(Action::StartReply(Thread {
        thread_id: 42,
        reply_count: 3,
        ..Default::default()
    }));
    assert!(matches!(app.screens.last(), Some(Screen::Compose(_))));

    app.handle_msg(Msg::NodesLoaded(Err(failure("not logged in", TaskErrorKind::NoToken))));
    assert!(app.session.recovery_pending);
    assert!(app.me.is_some());
}

#[test]
fn bootstrap_session_ending_error_still_goes_to_login() {
    let mut app = test_app();
    app.screens.push(home_state(true));
    let m = bootstrap(&app, Err(failure("not logged in", TaskErrorKind::NoToken)));
    app.handle_msg(m);

    assert!(login_on_top(&app));
    assert!(!app.session.bootstrap_retry_needed);
    assert!(app.status.contains("Session expired"));
}

fn invalid_grant() -> TaskError {
    TaskError::of(&Error::OAuth {
        code: "invalid_grant".to_string(),
        message: "The provided authorization code or refresh token is invalid.".to_string(),
        status: 400,
    })
}

#[test]
fn bootstrap_invalid_grant_ends_the_session_and_shows_login() {
    let mut app = test_app();
    app.screens.push(home_state(true));
    app.me = Some(user(3, "stale"));
    let m = bootstrap(&app, Err(invalid_grant()));
    app.handle_msg(m);

    assert!(login_on_top(&app));
    assert!(app.me.is_none());
    assert!(!app.session.bootstrap_retry_needed);
}

#[test]
fn login_complete_transient_error_reuses_the_bootstrap_retry_path() {
    let mut app = test_app();
    app.screens.push(home_state(true));
    app.screens.push(login_state());
    app.handle_msg(Msg::LoginComplete {
        generation: app.session.login_generation,
        result: Err(failure("http error: connection reset", TaskErrorKind::Other)),
    });

    assert!(!login_shown(&app));
    assert!(app.me.is_none());
    assert!(app.session.bootstrap_retry_needed);

    press(&mut app, KeyCode::Char('r'));
    assert!(!app.session.bootstrap_retry_needed);
    assert!(matches!(app.effects.last(), Some(Effect::RestoreSession { .. })));
}

#[test]
fn login_complete_session_ending_error_still_shows_on_the_login_screen() {
    let mut app = test_app();
    app.screens.push(home_state(true));
    app.screens.push(login_state());
    app.handle_msg(Msg::LoginComplete {
        generation: app.session.login_generation,
        result: Err(invalid_grant()),
    });

    assert!(!app.session.bootstrap_retry_needed);
    match app.screens.last() {
        Some(Screen::Login(ls)) => {
            assert!(!ls.busy);
            assert!(ls.error.is_some());
        }
        _ => panic!("the sign-in screen must stay up"),
    }
}

#[test]
fn bootstrap_transient_http_error_shows_retry_in_forums_panel_and_status() {
    let mut app = test_app();
    app.screens.push(home_state(true));
    let raw_body = "<html><head><title>502 Bad Gateway</title></head><body><center>\
        <h1>502 Bad Gateway</h1></center><hr><center>cloudflare</center></body></html>"
        .repeat(2);
    let m = bootstrap(
        &app,
        Err(TaskError::of(&Error::OAuth {
            code: "http_error".to_string(),
            message: raw_body,
            status: 502,
        })),
    );
    app.handle_msg(m);

    assert!(!login_shown(&app));
    assert!(app.session.bootstrap_retry_needed);
    assert!(!app.status.contains('\n'));
    assert!(app.status.contains("press r to retry"));
    assert!(app.status.chars().count() < 100);
    match app.screens.last() {
        Some(Screen::Home(h)) => {
            assert!(!h.tree.loading, "the spinner must not still be showing");
            assert!(h.tree.error.is_some(), "the panel shows the retry hint");
        }
        _ => panic!("expected Home"),
    }
}

#[test]
fn in_session_invalid_grant_ends_the_session_from_any_message() {
    let mut app = test_app();
    app.screens.push(home_state(false));
    app.me = Some(user(7, "kemical"));
    app.keep_thread_position = Some((42, 1, 0, 0));
    app.screens.push(Screen::ThreadView(ThreadViewState {
        thread: thread(42),
        ..Default::default()
    }));
    app.start_pollers();
    assert!(app.pollers);
    let generation_before = app.session.bootstrap_generation;

    app.handle_msg(Msg::ThreadLoaded {
        id: 42,
        page: 1,
        result: Err(TaskError {
            message: "oauth error [invalid_grant]".to_string(),
            code: Some("invalid_grant".to_string()),
            max_page: None,
            kind: TaskErrorKind::OAuth,
        }),
    });

    assert!(app.me.is_none());
    assert!(login_on_top(&app));
    assert!(!app.screens.iter().any(|s| matches!(s, Screen::ThreadView(_))));
    assert!(app.keep_thread_position.is_none());
    assert!(!app.pollers);
    assert!(app.status.contains("Session expired"));
    assert_ne!(app.session.bootstrap_generation, generation_before);

    let mut app = test_app();
    app.screens.push(home_state(false));
    app.me = Some(user(7, "kemical"));
    app.session.recovery_tried = true;
    app.handle_msg(Msg::SessionLost(TaskError {
        message: "unauthorized".to_string(),
        code: Some("api_error".to_string()),
        max_page: None,
        kind: TaskErrorKind::Api(401),
    }));
    assert!(app.me.is_none());
    assert!(login_on_top(&app));
}

#[test]
fn logout_during_restore_drops_the_late_bootstrap() {
    let mut app = test_app();
    app.screens.push(home_state(true));
    app.restore_session();
    let in_flight = app.session.bootstrap_generation;

    app.logout();
    assert!(login_on_top(&app));
    assert_eq!(app.status, "Logged out.");

    app.handle_msg(Msg::Bootstrap { generation: in_flight, result: Ok(user(7, "kemical")) });
    assert!(app.me.is_none());
    assert!(login_on_top(&app));
    assert!(!app.pollers);
    assert_eq!(app.status, "Logged out.");

    app.restore_session();
    let m = bootstrap(&app, Ok(user(7, "kemical")));
    app.handle_msg(m);
    assert!(app.me.is_some());
}
