//! What holds of the client as a whole, on concrete values.

use wftui::actions::Action;
use wftui::app::{App, QuickNodes, Site};
use wftui::effects::Effect;
use wftui::errors::{Error, TaskError, TaskErrorKind};
use wftui::goto::GoTarget;
use wftui::input::{EscIntent, KeyRoute, TopScreen};
use wftui::keys::{Hit, KeyCode, KeyEvent, KeyModifiers, MouseEvent, MouseKind, Pointed};
use wftui::models::{
    Attachment, Conversation, Forum, ForumReply, Node, Pagination, Post, Thread, User,
};
use wftui::msg::{mark_retryable, session_error_of, Msg, PostVerb};
use wftui::palette::Target;
use wftui::pointer::{Click, Gesture};
use wftui::screens::{
    ComposeState, ComposeTarget, DraftKey, DraftRow, DraftsState, InboxTab, NewConversationState,
    Screen, SearchState, ThreadListState, ThreadViewState,
};
use wftui::session::{home_state, login_state};
use wftui::update::{Outcome, UpdateConfig, UpdateState};

fn test_app() -> App {
    let site = Site {
        base_url: "https://windowsforum.com".to_string(),
        quick: QuickNodes { news: 4, security: 5, tutorials: 6 },
    };
    let update = UpdateConfig { disabled: false, current_version: "1.0.0".to_string() };
    let mut app = App::new(site, true, update, 1_000_000);
    app.status = String::new();
    app
}

fn live_app() -> App {
    let mut app = test_app();
    app.me = Some(User { user_id: 7, username: "kemical".to_string(), ..Default::default() });
    app.screens.push(home_state(false));
    app
}

fn failure(message: &str, kind: TaskErrorKind) -> TaskError {
    TaskError { message: message.to_string(), code: None, max_page: None, kind }
}

fn key(c: char) -> KeyEvent {
    KeyEvent::new(KeyCode::Char(c), KeyModifiers::empty())
}

fn open_screen() -> TopScreen {
    TopScreen { input_capture: false, esc: EscIntent::Leave }
}

fn writes(app: &App) -> usize {
    app.effects
        .iter()
        .filter(|e| {
            matches!(
                e,
                Effect::ReactPost { .. }
                    | Effect::VotePost { .. }
                    | Effect::SubmitReply { .. }
                    | Effect::SubmitThread { .. }
                    | Effect::SubmitConvoReply { .. }
                    | Effect::SubmitEdit { .. }
                    | Effect::DeletePost { .. }
                    | Effect::MarkSolution { .. }
                    | Effect::CreateConversation { .. }
                    | Effect::Upload { .. }
            )
        })
        .count()
}

#[test]
fn home_stays_at_the_root() {
    let rooted = |app: &App| matches!(app.screens.first(), Some(Screen::Home(_)));
    let mut app = live_app();
    app.screens.push(Screen::Compose(ComposeState {
        target: Some(ComposeTarget::ThreadReply { thread_id: 1, thread_title: String::new() }),
        ..Default::default()
    }));
    app.handle_msg(Msg::ReplySent(Ok(Post::default())));
    assert!(rooted(&app) && app.screens.len() == 1);
    app.handle_msg(Msg::ConvoCreated(Ok(Conversation::default())));
    assert!(rooted(&app));
    app.execute_action(Action::PopScreen);
    app.execute_action(Action::PopScreen);
    app.execute_action(Action::PopScreen);
    assert!(rooted(&app));
    app.go(GoTarget::Home);
    assert!(rooted(&app));
    app.run_palette_target(Target::SignOut);
    assert!(rooted(&app) && app.screens.len() == 2);
    app.handle_msg(Msg::LoginComplete {
        generation: app.session.login_generation,
        result: Ok(User::default()),
    });
    assert!(rooted(&app) && app.screens.len() == 1);
    app.handle_key(KeyEvent::new(KeyCode::Esc, KeyModifiers::empty()), open_screen());
    assert!(rooted(&app) && app.should_quit);
}

#[test]
fn nothing_is_written_but_by_a_write() {
    let mut app = live_app();
    for m in [
        Msg::Notice("hello".to_string()),
        Msg::NodesLoaded(Ok(Vec::new())),
        Msg::ReplySent(Ok(Post::default())),
        Msg::ThreadCreated(Ok(Thread { node_id: 4, ..Default::default() })),
        Msg::ConvoCreated(Ok(Conversation::default())),
        Msg::SessionLost(failure("x", TaskErrorKind::OAuth)),
    ] {
        app.handle_msg(m);
    }
    for c in ['c', 'a', 's', 'g', 'q', '?', ':'] {
        app.handle_key(key(c), open_screen());
    }
    app.go(GoTarget::News);
    app.run_palette_target(Target::NewThread(4));
    app.execute_action(Action::MarkThreadRead(3));
    app.execute_action(Action::StartNewThread(4));
    assert_eq!(writes(&app), 0);
    app.execute_action(Action::SubmitThread {
        node_id: 4,
        title: "t".to_string(),
        message: "m".to_string(),
    });
    app.execute_action(Action::VotePost(9, "up".to_string()));
    app.execute_action(Action::DeletePost { post_id: 9, thread_id: 2 });
    app.execute_action(Action::MarkSolution { post_id: 9, thread_id: 2 });
    app.execute_action(Action::SubmitEdit { post_id: 9, message: "m".to_string() });
    app.execute_action(Action::SubmitConvoReply { id: 9, message: "m".to_string() });
    assert_eq!(writes(&app), 6);
}

#[test]
fn a_conversation_goes_out_only_when_everybody_was_found() {
    let form = |resolving: u32| {
        Screen::NewConversation(NewConversationState {
            title: "t".to_string(),
            body: "b".to_string(),
            busy: true,
            resolving,
            ..Default::default()
        })
    };
    let found = |name: &str, id: Option<u32>| Msg::RecipientResolved {
        name: name.to_string(),
        id: Ok(id),
    };
    let mut app = live_app();
    app.screens.push(form(2));
    app.handle_msg(found("a", Some(3)));
    assert_eq!(writes(&app), 0);
    app.handle_msg(found("b", Some(4)));
    match app.effects.last() {
        Some(Effect::CreateConversation { ids, .. }) => assert_eq!(*ids, vec![3, 4]),
        _ => panic!("expected the conversation to go out"),
    }

    let mut app = live_app();
    app.screens.push(form(2));
    app.handle_msg(found("a", None));
    app.handle_msg(found("b", Some(4)));
    assert_eq!(writes(&app), 0);
    match app.screens.last() {
        Some(Screen::NewConversation(nc)) => {
            assert_eq!(nc.errors, vec!["a: not found"]);
            assert!(!nc.busy);
        }
        _ => panic!("expected the form"),
    }
}

#[test]
fn a_rejection_signs_the_member_out_whatever_brings_it() {
    for m in [
        Msg::SessionLost(failure("x", TaskErrorKind::OAuth)),
        Msg::ReplySent(Err(failure("x", TaskErrorKind::OAuth))),
        Msg::AlertsLoaded(Err(failure("x", TaskErrorKind::OAuth))),
        Msg::RecipientResolved {
            name: "a".to_string(),
            id: Err(failure("x", TaskErrorKind::OAuth)),
        },
    ] {
        let mut app = live_app();
        app.handle_msg(m);
        assert!(app.me.is_none());
        assert!(app.screens.iter().any(|s| matches!(s, Screen::Login(_))));
        assert!(app.effects.iter().any(|e| matches!(e, Effect::AbortWrites)));
    }
}

#[test]
fn a_retryable_message_ends_no_session() {
    let mut m = Msg::ReplySent(Err(failure("x", TaskErrorKind::NoToken)));
    assert!(session_error_of(&m).is_some());
    mark_retryable(&mut m);
    assert!(session_error_of(&m).is_none());
    let refused = Msg::MarkedRead(Err(failure("x", TaskErrorKind::Api(403))));
    assert!(session_error_of(&refused).is_none());
}

fn forum_page(count: u32, last_page: u32) -> ForumReply {
    ForumReply {
        forum: Forum { node_id: 4, title: String::new() },
        threads: (0..count).map(|i| Thread { thread_id: i, ..Default::default() }).collect(),
        sticky: Vec::new(),
        pagination: Pagination { last_page, total: 0, per_page: 20 },
    }
}

#[test]
fn a_fresh_load_outdates_what_is_in_flight() {
    let mut app = live_app();
    app.execute_action(Action::OpenThreadList(4, "News".to_string()));
    app.load_forum(4, 1);
    let first = app.minted.next_list_seq - 1;
    app.load_forum(4, 2);
    let second = app.minted.next_list_seq - 1;
    assert_ne!(first, second);
    let page = |seq: u64, page: u32| Msg::ForumLoaded {
        node_id: 4,
        page,
        append: false,
        seq,
        result: Ok(forum_page(3, 2)),
    };
    let rows = |app: &App| match app.screens.last() {
        Some(Screen::ThreadList(l)) => (l.threads.len(), l.page),
        _ => panic!("expected the list"),
    };
    app.handle_msg(page(first, 1));
    assert_eq!(rows(&app).0, 0, "a page nobody waits for is dropped");
    app.handle_msg(page(second, 2));
    assert_eq!(rows(&app), (3, 2));
}

#[test]
fn an_automatic_fill_is_bounded() {
    let mut app = live_app();
    app.screens.push(Screen::ThreadList(ThreadListState {
        node_id: 4,
        visible: 1_000,
        fill_budget: 2,
        ..Default::default()
    }));
    let mut page: u32 = 1;
    let mut asked = app.effects.len();
    loop {
        app.handle_msg(Msg::ForumLoaded {
            node_id: 4,
            page,
            append: page > 1,
            seq: 0,
            result: Ok(forum_page(20, 90)),
        });
        if app.effects.len() == asked {
            break;
        }
        asked = app.effects.len();
        page += 1;
    }
    assert_eq!(page, 3, "the page it asked for, and two more on the budget");
    match app.screens.last() {
        Some(Screen::ThreadList(l)) => assert_eq!((l.threads.len(), l.loading), (60, false)),
        _ => panic!("expected the list"),
    }
}

#[test]
fn only_allowed_schemes_open_and_the_rest_is_said() {
    let mut app = live_app();
    app.open_url("javascript:alert(1)");
    assert_eq!(app.status, "Refused to open \"javascript:\" link.");
    assert!(app.effects.is_empty());
    app.open_url("");
    assert!(app.effects.is_empty());
    app.open_url("/threads/1");
    assert_eq!(app.clipboard, "https://windowsforum.com/threads/1");
    assert!(matches!(app.effects[..], [Effect::CopyText { .. }, Effect::OpenBrowser { .. }]));
}

#[test]
fn a_paste_loses_nothing_and_one_line_stays_one_line() {
    let mut app = live_app();
    app.screens.push(Screen::Search(SearchState {
        query: "ab".to_string(),
        query_cursor: 1,
        input_mode: true,
        ..Default::default()
    }));
    let paste = app.handle_paste("x\r\ny".to_string()).expect("search takes a paste");
    assert_eq!((paste.raw.as_str(), paste.count), ("x  y", 4));
    app.insert_paste(&paste.raw, paste.count);
    match app.screens.last() {
        Some(Screen::Search(s)) => {
            assert_eq!((s.query.as_str(), s.query_cursor), ("ax  yb", 5));
        }
        _ => panic!("expected the search"),
    }
    assert_eq!(app.clipboard, "x\r\ny");

    app.screens.pop();
    assert!(app.handle_paste("lost?".to_string()).is_none());
    assert_eq!(
        app.status,
        "Pasted 5 characters into clipboard (press Ctrl+Y to insert)"
    );
    app.screens.push(Screen::Compose(ComposeState::default()));
    let again = app.execute_action(Action::PasteClipboard(None)).expect("a paste");
    assert_eq!(again.raw, "lost?");
    app.clipboard.clear();
    assert!(app.execute_action(Action::PasteClipboard(None)).is_none());
    assert!(app.status.starts_with("Nothing copied yet"));
}

#[test]
fn the_gate_lets_no_key_through() {
    let mut app = test_app();
    app.screens.push(home_state(false));
    app.screens.push(login_state());
    for c in ['c', 'a', 's', '/', 'g', 'G', ':'] {
        assert!(matches!(app.handle_key(key(c), open_screen()), KeyRoute::Screen));
    }
    assert_eq!(app.screens.len(), 2);
    assert!(app.palette.is_none() && !app.chord);
}

#[test]
fn a_chord_takes_its_second_key() {
    let mut app = live_app();
    assert!(matches!(app.handle_key(key('g'), open_screen()), KeyRoute::Done));
    assert!(app.chord);
    assert!(matches!(app.handle_key(key('z'), open_screen()), KeyRoute::Chord));
    assert!(!app.chord);
    assert!(matches!(app.handle_key(key('z'), open_screen()), KeyRoute::Screen));
    assert!(matches!(app.handle_key(key('G'), open_screen()), KeyRoute::Bottom));
}

#[test]
fn what_was_read_is_told_when_a_thread_is_left() {
    let view = || Screen::ThreadView(ThreadViewState {
        thread: Thread { thread_id: 9, ..Default::default() },
        posts: vec![Post { post_date: 50, ..Default::default() }],
        page: 2,
        last_page: 2,
        seen_date: 60,
        ..Default::default()
    });
    let mut app = live_app();
    app.screens.push(Screen::ThreadList(ThreadListState {
        threads: vec![Thread { thread_id: 9, is_unread: true, ..Default::default() }],
        ..Default::default()
    }));
    app.screens.push(view());
    assert!(app.pop_screen());
    assert!(matches!(app.effects[..], [Effect::MarkThreadRead { id: 9, date: Some(60) }]));
    match app.screens.last() {
        Some(Screen::ThreadList(l)) => assert!(!l.threads[0].is_unread),
        _ => panic!("expected the list"),
    }
}

#[test]
fn a_sent_composer_takes_its_draft_along() {
    let mut app = live_app();
    app.screens.push(Screen::Compose(ComposeState {
        target: Some(ComposeTarget::EditPost {
            post_id: 5,
            thread_id: 9,
            thread_title: String::new(),
        }),
        ..Default::default()
    }));
    app.handle_msg(Msg::PostEdited { post_id: 5, result: Ok(()) });
    assert!(matches!(
        app.effects[..],
        [Effect::DiscardDraft { .. }, Effect::LoadThread { id: 9, .. }]
    ));
    assert_eq!(app.status, "Post saved.");

    app.screens.push(Screen::Drafts(DraftsState::default()));
    app.refresh_drafts(vec![DraftRow { key: DraftKey::Thread(3), title: "t".to_string() }]);
    app.execute_action(Action::DropDraft(DraftKey::Thread(3)));
    assert!(matches!(app.effects.last(), Some(Effect::RefreshDrafts)));
}

#[test]
fn an_upload_leaves_its_reference_at_the_caret() {
    let mut app = live_app();
    app.screens.push(Screen::Compose(ComposeState {
        body: "ab".to_string(),
        body_cursor: 1,
        uploading: true,
        ..Default::default()
    }));
    app.handle_msg(Msg::AttachmentUploaded(Ok((
        "key".to_string(),
        Attachment { attachment_id: 12, filename: "shot.png".to_string(), ..Default::default() },
    ))));
    match app.screens.last() {
        Some(Screen::Compose(c)) => {
            assert_eq!(c.body, "a[ATTACH]12[/ATTACH]b");
            assert_eq!(c.body_cursor, 20);
            assert!(!c.uploading);
        }
        _ => panic!("expected the composer"),
    }
    assert_eq!(app.status, "Attached shot.png.");
    assert_eq!(app.compose_attachment_key().as_deref(), Some("key"));
}

#[test]
fn a_node_leads_where_its_kind_says() {
    let node = |node_id: u32, node_type: &str, depth: u32, parent: u32| Node {
        node_id,
        title: format!("Node {node_id}"),
        node_type: node_type.to_string(),
        depth,
        parent_node_id: parent,
        view_url: Some(format!("https://windowsforum.com/n/{node_id}")),
        ..Default::default()
    };
    let mut app = live_app();
    if let Some(Screen::Home(h)) = app.screens.first_mut() {
        h.tree.nodes =
            vec![node(1, "Category", 0, 0), node(2, "Forum", 1, 1), node(3, "LinkForum", 1, 1)];
    }
    app.execute_action(Action::OpenThreadList(1, "Category".to_string()));
    match app.screens.last() {
        Some(Screen::ThreadList(l)) => assert_eq!((l.node_id, l.title.as_str()), (2, "Node 2")),
        _ => panic!("a category leads to its first forum"),
    }
    app.execute_action(Action::OpenThreadList(3, "Link".to_string()));
    match app.effects.last() {
        Some(Effect::OpenBrowser { url }) => assert_eq!(url, "https://windowsforum.com/n/3"),
        _ => panic!("a link leads to its address"),
    }
    app.open_palette();
    let palette = app.palette.as_ref().expect("the palette");
    assert!(palette.items.iter().any(|i| matches!(i.target, Target::Forum(2, _))));
    assert!(!palette.items.iter().any(|i| matches!(i.target, Target::Forum(1, _))));
}

#[test]
fn a_superseded_update_check_is_dropped() {
    let mut app = live_app();
    app.schedule_startup_update_check();
    let stale = app.updater.generation;
    app.schedule_startup_update_check();
    assert!(app.effects.iter().any(|e| matches!(e, Effect::AbortUpdateCheck)));
    app.handle_update_checked(stale, true, Ok(Outcome::UpToDate));
    assert!(matches!(app.updater.state, UpdateState::Checking));
    assert_eq!(app.status, "");
    app.check_for_updates_now();
    assert_eq!(app.status, "Already checking for updates…");
}

#[test]
fn an_automatic_check_is_quiet_and_one_that_was_asked_for_answers() {
    let checked = |forced: bool, result: Result<Outcome, String>| {
        let mut app = live_app();
        app.schedule_startup_update_check();
        app.handle_msg(Msg::UpdateChecked {
            generation: app.updater.generation,
            forced,
            result,
        });
        (app.status.clone(), app.status_set_at.is_some(), app.update_chip())
    };
    let version = || "1.2.0".to_string();
    assert_eq!(checked(false, Ok(Outcome::UpToDate)).0, "");
    assert_eq!(checked(true, Ok(Outcome::UpToDate)).0, "wftui v1.0.0 is up to date.");
    assert_eq!(
        checked(true, Ok(Outcome::Skipped("dev build".to_string()))).0,
        "Updates unavailable: dev build."
    );
    assert_eq!(
        checked(true, Ok(Outcome::Throttled)).0,
        "Update check skipped: checked recently."
    );
    assert_eq!(checked(false, Ok(Outcome::Throttled)).0, "");
    assert_eq!(checked(false, Err("offline".to_string())).0, "");
    assert_eq!(checked(true, Err("offline".to_string())).0, "Update check failed: offline");
    let (status, toast, chip) = checked(false, Ok(Outcome::Staged { version: version() }));
    assert_eq!(status, "Update v1.2.0 downloaded — restart wftui to apply it.");
    assert!(!toast && chip.is_some());
    let manual = Outcome::ManualInstall { version: version(), command: "sudo x".to_string() };
    assert_eq!(
        checked(false, Ok(manual)).0,
        "Update v1.2.0 downloaded; install it with: sudo x"
    );
    let available = Outcome::Available {
        version: version(),
        html_url: "https://example.com".to_string(),
        why: "packaged".to_string(),
    };
    assert_eq!(
        checked(false, Ok(available)).0,
        "wftui v1.2.0 is available (packaged) — g u opens the release page."
    );
}

#[test]
fn a_picture_has_a_digit_key() {
    let mut app = live_app();
    let click = |app: &mut App, n: usize| {
        let at = || Pointed { hit: Some(Hit::Image(n)), text_like: false, post: Some(4) };
        app.clock += 1_000;
        let ev = |kind: MouseKind| MouseEvent { kind, column: 3, row: 3 };
        app.handle_mouse(ev(MouseKind::LeftDown), at());
        match app.handle_mouse(ev(MouseKind::LeftUp), at()) {
            Gesture::Click(c) => c,
            _ => panic!("expected a click"),
        }
    };
    assert_eq!(click(&mut app, 9), Click::Image { post: Some(4), key: Some(key('9')) });
    assert_eq!(click(&mut app, 1), Click::Image { post: Some(4), key: Some(key('1')) });
    assert_eq!(click(&mut app, 10), Click::Image { post: Some(4), key: None });
    assert_eq!(click(&mut app, 0), Click::Image { post: Some(4), key: None });
}

#[test]
fn tabs_and_links_are_clicked_through() {
    let mut app = live_app();
    let click = |app: &mut App, hit: fn() -> Hit| {
        let at = || Pointed { hit: Some(hit()), text_like: false, post: None };
        app.clock += 1_000;
        app.handle_mouse(MouseEvent { kind: MouseKind::LeftDown, column: 3, row: 3 }, at());
        app.handle_mouse(MouseEvent { kind: MouseKind::LeftUp, column: 3, row: 3 }, at());
    };
    click(&mut app, || Hit::Tab(InboxTab::Alerts));
    match app.screens.last() {
        Some(Screen::Inbox(ib)) => assert!(ib.tab == InboxTab::Alerts),
        _ => panic!("expected the inbox"),
    }
    app.screens.push(Screen::ThreadView(ThreadViewState { link_popup: true, ..Default::default() }));
    click(&mut app, || Hit::Link("https://example.com/a".to_string()));
    assert!(matches!(app.screens.last(), Some(Screen::ThreadView(v)) if !v.link_popup));
    assert_eq!(app.clipboard, "https://example.com/a");
}

#[test]
fn an_opaque_body_is_cut_short_and_ends_no_session() {
    let e = TaskError::of(&Error::Api {
        code: "http_error".to_string(),
        message: "x".repeat(200),
        status: 401,
        max_page: None,
    });
    assert!(!e.ends_session());
    assert_eq!(e.message.chars().count(), 81);
    assert!(e.message.ends_with('…'));
    assert_eq!(PostVerb::VoteUp.failure(), "Vote failed");
}
