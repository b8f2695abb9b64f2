//! Screens, lists, the palette and the pointer.

use wftui::actions::Action;
use wftui::app::{list_showing, App, QuickNodes, Site};
use wftui::effects::Effect;
use wftui::errors::{TaskError, TaskErrorKind};
use wftui::frame::restore_steps;
use wftui::goto::GoTarget;
use wftui::input::{EscIntent, KeyRoute, PaletteEvent, TopScreen};
use wftui::keys::{
    Area, Hit, KeyCode, KeyEvent, KeyModifiers, MouseEvent, MouseKind, Pointed,
};
use wftui::mirror::FrameCell;
use wftui::models::{
    Conversation, Forum, ForumReply, MediaItem, MediaListReply, Node, Pagination, Thread, User,
};
use wftui::msg::Msg;
use wftui::palette::Target;
use wftui::pointer::{Click, Gesture, RightClick};
use wftui::screens::{
    ComposeState, ComposeTarget, ForumTreeState, HomeState, InboxState, InboxTab, Pane, Screen,
    ThreadListState, ThreadViewState,
};
use wftui::session::home_state;
use wftui::update::UpdateConfig;

fn test_app() -> App {
    let site = Site {
        base_url: "https://windowsforum.com".to_string(),
        quick: QuickNodes { news: 4, security: 5, tutorials: 6 },
    };
    let update = UpdateConfig { disabled: true, current_version: "1.0.0".to_string() };
    let mut app = App::new(site, true, update, 1_000_000);
    app.alerts_unread = 3;
    app.convos_unread = 5;
    app.status = String::new();
    app
}

fn live_app() -> App {
    let mut app = test_app();
    app.me = Some(User { user_id: 7, username: "kemical".to_string(), ..Default::default() });
    app.screens.push(home_state(false));
    app
}

fn thread(thread_id: u32) -> Thread {
    Thread { thread_id, title: format!("Thread {thread_id}"), ..Default::default() }
}

fn key(c: char) -> KeyEvent {
    KeyEvent::new(KeyCode::Char(c), KeyModifiers::empty())
}

fn press(app: &mut App, k: KeyEvent) -> KeyRoute {
    app.handle_key(k, TopScreen { input_capture: false, esc: EscIntent::Leave })
}

fn control(c: char) -> KeyEvent {
    let modifiers = KeyModifiers { control: true, ..KeyModifiers::empty() };
    KeyEvent::new(KeyCode::Char(c), modifiers)
}

#[test]
fn restore_steps_are_ordered_and_independent() {
    assert_eq!(
        restore_steps(),
        [
            "pop_keyboard_enhancement_flags",
            "disable_bracketed_paste",
            "leave_alternate_screen",
            "disable_mouse_capture",
            "cursor_show",
        ]
    );
}

#[test]
fn a_double_enter_on_one_thread_stacks_no_duplicate_view() {
    let mut app = live_app();
    app.execute_action(Action::OpenThread(thread(42)));
    let depth = app.screens.len();
    assert!(matches!(app.screens.last(), Some(Screen::ThreadView(_))));
    app.execute_action(Action::OpenThread(thread(42)));
    assert_eq!(app.screens.len(), depth);
}

#[test]
fn reopening_a_loading_conversation_does_not_replace_the_view() {
    let conv = || Conversation {
        conversation_id: 5,
        title: "A DM".to_string(),
        ..Default::default()
    };
    let mut app = test_app();
    app.me = Some(User { user_id: 7, ..Default::default() });
    app.screens.push(Screen::Inbox(InboxState { dual: true, ..Default::default() }));
    app.open_conversation(conv());
    if let Some(Screen::Inbox(inbox)) = app.screens.last_mut() {
        inbox.view.as_mut().expect("the pane is primed").page = 7;
    }
    app.open_conversation(conv());
    match app.screens.last() {
        Some(Screen::Inbox(inbox)) => {
            let view = inbox.view.as_ref().expect("the view survives");
            assert_eq!(view.page, 7);
            assert!(view.loading);
        }
        _ => panic!("expected the inbox"),
    }
}

/// The palette's row with a title.
fn row(app: &App, title: &str) -> Target {
    let palette = app.palette.as_ref().expect("the palette is open");
    let item = palette.items.iter().find(|i| i.title == title).expect("a row of that title");
    match item.target {
        Target::MediaGallery => Target::MediaGallery,
        Target::Resources => Target::Resources,
        Target::NewThread(id) => Target::NewThread(id),
        _ => panic!("another row"),
    }
}

#[test]
fn the_gallery_and_resources_are_reachable_by_chord_and_palette() {
    let mut app = live_app();
    press(&mut app, key('g'));
    assert!(matches!(press(&mut app, key('m')), KeyRoute::Chord));
    app.go(GoTarget::Media);
    match app.screens.last() {
        Some(Screen::MediaGallery(m)) => assert!(m.loading),
        _ => panic!("the chord must open the gallery"),
    }

    press(&mut app, key('g'));
    assert!(matches!(press(&mut app, key('r')), KeyRoute::Chord));
    app.go(GoTarget::Resources);
    match app.screens.last() {
        Some(Screen::Resources(r)) => assert!(r.loading),
        _ => panic!("the chord must open the resources"),
    }

    press(&mut app, control('k'));
    let target = row(&app, "Media Gallery");
    app.palette_event(PaletteEvent::Run(target));
    assert!(matches!(app.screens.last(), Some(Screen::MediaGallery(_))));

    press(&mut app, control('k'));
    let target = row(&app, "Resources");
    app.palette_event(PaletteEvent::Run(target));
    assert!(matches!(app.screens.last(), Some(Screen::Resources(_))));
}

#[test]
fn a_short_page_pulls_in_the_next_one_until_the_pane_is_full() {
    let page_of = |n: u32, count: usize| ForumReply {
        forum: Forum { node_id: 4, title: "Windows News".to_string() },
        threads: (0..count).map(|i| thread(n * 100 + i as u32)).collect(),
        sticky: Vec::new(),
        pagination: Pagination { last_page: 3, total: 50, per_page: 20 },
    };
    let loaded = |page: u32, append: bool, reply: ForumReply| Msg::ForumLoaded {
        node_id: 4,
        page,
        append,
        seq: 0,
        result: Ok(reply),
    };
    let list = |app: &App| match app.screens.last() {
        Some(Screen::Home(h)) => {
            (h.list.threads.len(), h.list.page, h.list.pages_loaded, h.list.loading)
        }
        _ => panic!("expected Home"),
    };

    let mut app = test_app();
    app.screens.push(home_state(false));
    if let Some(Screen::Home(h)) = app.screens.last_mut() {
        h.list.visible = 45;
        h.list.node_id = 4;
    }
    app.handle_msg(loaded(1, false, page_of(1, 20)));
    assert_eq!(list(&app), (20, 1, 1, true));
    app.handle_msg(loaded(2, true, page_of(2, 20)));
    assert_eq!(list(&app), (40, 1, 2, true));
    app.handle_msg(loaded(3, true, page_of(3, 10)));
    assert_eq!(list(&app), (50, 1, 3, false));

    app.handle_msg(loaded(2, false, page_of(2, 20)));
    let (rows, page, pages, _) = list(&app);
    assert_eq!((rows, page, pages), (20, 2, 1));
}

#[test]
fn a_failed_fill_page_does_not_error_the_rows_already_shown() {
    let mut app = test_app();
    app.screens.push(home_state(false));
    if let Some(Screen::Home(h)) = app.screens.last_mut() {
        h.list.node_id = 4;
        h.list.threads = vec![thread(1)];
        h.list.page = 1;
        h.list.pages_loaded = 1;
        h.list.loading = true;
    }
    app.handle_msg(Msg::ForumLoaded {
        node_id: 4,
        page: 2,
        append: true,
        seq: 0,
        result: Err(TaskError {
            message: "gateway timeout".to_string(),
            code: None,
            max_page: None,
            kind: TaskErrorKind::Other,
        }),
    });
    match app.screens.last() {
        Some(Screen::Home(h)) => {
            assert!(h.list.error.is_none());
            assert_eq!(h.list.threads.len(), 1);
            assert!(!h.list.loading);
        }
        _ => panic!("expected Home"),
    }
}

#[test]
fn a_catalog_page_fills_its_screen_and_a_stale_reply_is_dropped() {
    let mut app = test_app();
    app.screens.push(home_state(false));
    app.execute_action(Action::OpenMediaGallery);
    app.handle_msg(Msg::MediaLoaded {
        page: 1,
        result: Ok(MediaListReply {
            media: vec![MediaItem {
                media_id: 33005,
                title: "Registry Explained".to_string(),
                ..Default::default()
            }],
            pagination: Pagination { last_page: 4, total: 80, per_page: 12 },
        }),
    });
    match app.screens.last() {
        Some(Screen::MediaGallery(m)) => {
            assert!(!m.loading);
            assert_eq!(m.items.len(), 1);
            assert_eq!(m.last_page, 4);
            assert_eq!(m.total, 80);
        }
        _ => panic!("expected the gallery"),
    }
    app.handle_msg(Msg::MediaLoaded { page: 2, result: Ok(MediaListReply::default()) });
    match app.screens.last() {
        Some(Screen::MediaGallery(m)) => {
            assert_eq!(m.items.len(), 1);
            assert_eq!(m.page, 1);
        }
        _ => panic!("expected the gallery"),
    }
}

#[test]
fn needs_continuous_redraw_tracks_animation_sources_only() {
    let mut app = test_app();
    app.screens.push(home_state(false));
    assert!(!app.needs_continuous_redraw(0));

    app.screens.clear();
    app.screens.push(Screen::Compose(ComposeState { busy: true, ..Default::default() }));
    assert!(!app.needs_continuous_redraw(0));
    assert!(app.needs_continuous_redraw(30_000));

    app.screens.clear();
    app.screens.push(Screen::ThreadView(ThreadViewState {
        thread: thread(42),
        loading: true,
        ..Default::default()
    }));
    assert!(app.needs_continuous_redraw(0));
    assert!(app.needs_continuous_redraw(30_000));
}

#[test]
fn the_keys_card_consumes_its_dismissing_key() {
    let mut app = live_app();
    press(&mut app, key('?'));
    assert!(app.show_help);
    assert!(matches!(press(&mut app, key('q')), KeyRoute::Done));
    assert!(!app.show_help);
    assert!(!app.should_quit);
    assert!(matches!(app.screens.last(), Some(Screen::Home(_))));
}

#[test]
fn the_profile_dm_key_opens_the_dm_composer() {
    let mut app = test_app();
    app.me = Some(User { user_id: 7, ..Default::default() });
    app.open_profile(42, "SysAdmin");
    press(&mut app, key('c'));
    assert!(matches!(app.screens.last(), Some(Screen::Inbox(_))));
    app.screens.pop();

    // The profile has the other key, and its answer to it opens the form.
    assert!(matches!(press(&mut app, key('d')), KeyRoute::Screen));
    app.execute_action(Action::StartNewConversation(Some("SysAdmin".to_string())));
    match app.screens.last() {
        Some(Screen::NewConversation(state)) => assert_eq!(state.recipients, "SysAdmin, "),
        _ => panic!("expected the form"),
    }
}

#[test]
fn pasting_a_tab_into_the_composer_keeps_the_caret_at_the_drawn_text_end() {
    let mut app = test_app();
    app.screens.push(Screen::Compose(ComposeState::default()));
    let paste = app.handle_paste("a\tb".to_string()).expect("the composer takes a paste");
    app.insert_paste(&paste.raw, paste.count);
    match app.screens.last() {
        Some(Screen::Compose(cs)) => {
            assert_eq!(cs.body, "a   b");
            assert_eq!(cs.body_cursor, cs.body.chars().count());
        }
        _ => panic!("expected the composer"),
    }
    assert_eq!(app.status, "Pasted 3 characters");
}

#[test]
fn a_forum_reply_only_reaches_the_list_that_asked_for_it() {
    let home = |node_id: u32| {
        Screen::Home(HomeState {
            list: ThreadListState { node_id, ..Default::default() },
            ..Default::default()
        })
    };
    let pushed = |node_id: u32| {
        Screen::ThreadList(ThreadListState {
            node_id,
            title: format!("node {node_id}"),
            ..Default::default()
        })
    };
    let mut stack = vec![home(0), pushed(46)];
    assert!(list_showing(&mut stack, 4).is_none());
    assert_eq!(list_showing(&mut stack, 46).map(|l| l.node_id), Some(46));
    assert_eq!(list_showing(&mut stack, 0).map(|l| l.node_id), Some(0));

    let mut same = vec![home(4), pushed(4)];
    list_showing(&mut same, 4).unwrap().title = "hit".to_string();
    assert!(matches!(&same[1], Screen::ThreadList(l) if l.title == "hit"));
    assert!(matches!(&same[0], Screen::Home(h) if h.list.title.is_empty()));
}

// The pointer. A frame is stood for by the target under the cell.

fn at(hit: Hit) -> Pointed {
    Pointed { hit: Some(hit), text_like: false, post: None }
}

fn nowhere() -> Pointed {
    Pointed { hit: None, text_like: false, post: None }
}

fn mouse(kind: MouseKind, column: u16, row: u16) -> MouseEvent {
    MouseEvent { kind, column, row }
}

/// Press and release in one cell: what is left to do after each.
fn click(app: &mut App, x: u16, y: u16, hit: fn() -> Hit) -> (Click, Click) {
    let step = |app: &mut App, kind: MouseKind| {
        match app.handle_mouse(mouse(kind, x, y), at(hit())) {
            Gesture::Click(c) => c,
            _ => panic!("expected a click"),
        }
    };
    (step(app, MouseKind::LeftDown), step(app, MouseKind::LeftUp))
}

fn home_app() -> App {
    let mut app = test_app();
    app.me = Some(User { user_id: 1, username: "Mike".to_string(), ..Default::default() });
    app.pointer.body_rect = Area { x: 0, y: 1, width: 120, height: 21 };
    app.screens.push(Screen::Home(HomeState {
        tree: ForumTreeState {
            nodes: (1..=3)
                .map(|node_id| Node {
                    node_id,
                    title: format!("Forum {node_id}"),
                    node_type: "Forum".to_string(),
                    view_url: Some(format!("https://windowsforum.com/forums/{node_id}/")),
                    ..Default::default()
                })
                .collect(),
            ..Default::default()
        },
        list: ThreadListState {
            node_id: 1,
            title: "Forum 1".to_string(),
            threads: (1..=4).map(thread).collect(),
            page: 1,
            last_page: 1,
            ..Default::default()
        },
        ..Default::default()
    }));
    app
}

#[test]
fn a_click_selects_the_row_and_clicking_it_again_opens_the_thread() {
    let mut app = home_app();
    let (down, up) = click(&mut app, 60, 5, || Hit::Row(2));
    assert_eq!((down, up), (Click::Done, Click::Row { index: 2, double: false }));
    assert_eq!(App::row_clicked(2, Some(0), false), None);

    app.clock += 1_000;
    let (_, up) = click(&mut app, 60, 5, || Hit::Row(2));
    assert_eq!(up, Click::Row { index: 2, double: false });
    assert_eq!(
        App::row_clicked(2, Some(2), false),
        Some(KeyEvent::new(KeyCode::Enter, KeyModifiers::empty()))
    );
    app.execute_action(Action::OpenThread(thread(3)));
    assert_eq!(app.screens.len(), 2);
    match app.screens.last() {
        Some(Screen::ThreadView(v)) => assert_eq!(v.thread.thread_id, 3),
        _ => panic!("expected the thread"),
    }
}

#[test]
fn a_double_click_on_an_unselected_row_opens_it_straight_away() {
    let mut app = home_app();
    let (_, up) = click(&mut app, 60, 6, || Hit::Row(3));
    assert_eq!(up, Click::Row { index: 3, double: false });
    let (down, up) = click(&mut app, 60, 6, || Hit::Row(3));
    assert_eq!((down, up), (Click::Row { index: 3, double: true }, Click::Done));
    assert!(App::row_clicked(3, Some(0), true).is_some());
}

#[test]
fn a_right_click_on_a_thread_row_selects_it_and_resolves_its_web_url() {
    let mut app = home_app();
    match app.handle_mouse(mouse(MouseKind::RightDown, 60, 5), at(Hit::Row(2))) {
        Gesture::Right(RightClick::Row(i)) => assert_eq!(i, 2),
        _ => panic!("expected a right click on the row"),
    }
    app.right_click_hit(Some("https://windowsforum.com/threads/3/".to_string()));
    match app.effects.last() {
        Some(Effect::OpenBrowser { url }) => {
            assert_eq!(url, "https://windowsforum.com/threads/3/");
        }
        _ => panic!("expected the browser"),
    }
    app.right_click_hit(None);
    assert_eq!(app.status, "Nothing here to open on the site.");
}

#[test]
fn key_bar_caps_press_their_key_and_header_badges_open_their_inbox_tab() {
    let mut app = home_app();
    let (_, up) = click(&mut app, 4, 22, || Hit::Key(Some(key('j'))));
    assert_eq!(up, Click::Key(key('j')));
    let (_, up) = click(&mut app, 40, 22, || Hit::Key(None));
    assert_eq!(up, Click::Done);

    let (_, up) = click(&mut app, 100, 0, || Hit::Badge(InboxTab::Alerts));
    assert_eq!(up, Click::Done);
    match app.screens.last() {
        Some(Screen::Inbox(ib)) => assert!(ib.tab == InboxTab::Alerts),
        _ => panic!("expected the inbox"),
    }
}

#[test]
fn overlay_rows_run_and_a_click_outside_closes_each_overlay() {
    let mut app = home_app();
    app.open_palette();
    let (_, up) = click(&mut app, 60, 5, || Hit::PaletteRow(0));
    assert_eq!(up, Click::PaletteRow(0));
    let first = app.palette.as_ref().map(|p| p.items[0].title.clone());
    assert_eq!(first.as_deref(), Some("New thread in Forum 1"));
    let target = row(&app, "New thread in Forum 1");
    app.palette_event(PaletteEvent::Run(target));
    assert!(app.palette.is_none());
    match app.screens.last() {
        Some(Screen::Compose(c)) => {
            assert!(matches!(c.target, Some(ComposeTarget::NewThread { node_id: 1 })));
        }
        _ => panic!("the row must run its own target"),
    }

    let mut app = home_app();
    app.open_palette();
    click(&mut app, 2, 2, || Hit::CloseOverlay);
    assert!(app.palette.is_none());

    app.clock += 1_000;
    app.show_help = true;
    click(&mut app, 2, 2, || Hit::CloseOverlay);
    assert!(!app.show_help);

    app.clock += 1_000;
    app.chord = true;
    click(&mut app, 2, 2, || Hit::CloseOverlay);
    assert!(!app.chord);

    let mut app = test_app();
    app.screens.push(Screen::ThreadView(ThreadViewState {
        thread: thread(9),
        page: 1,
        last_page: 1,
        link_popup: true,
        ..Default::default()
    }));
    click(&mut app, 2, 2, || Hit::CloseOverlay);
    assert!(matches!(app.screens.last(), Some(Screen::ThreadView(v)) if !v.link_popup));
}

fn draw(app: &mut App, rows: &[&str]) {
    let frame: Vec<Vec<FrameCell>> = rows
        .iter()
        .map(|r| {
            r.chars()
                .map(|c| FrameCell { symbol: c.to_string(), width: 1, marked: false })
                .collect()
        })
        .collect();
    app.pointer.capture_screen(&frame);
}

#[test]
fn a_press_and_release_in_one_cell_is_a_click_and_any_movement_is_a_drag() {
    let mut app = home_app();
    draw(&mut app, &["          ", "          "]);
    app.handle_mouse(mouse(MouseKind::LeftDown, 3, 1), at(Hit::Row(2)));
    app.handle_mouse(mouse(MouseKind::LeftDrag, 6, 1), at(Hit::Row(2)));
    assert!(app.pointer.selection.is_some());
    match app.handle_mouse(mouse(MouseKind::LeftUp, 6, 1), at(Hit::Row(2))) {
        Gesture::Click(c) => assert_eq!(c, Click::Done),
        _ => panic!("expected a release"),
    }
    assert!(app.pointer.selection.is_none());
    assert!(!app.status.starts_with("Copied"));

    app.clock += 1_000;
    let (_, up) = click(&mut app, 3, 1, || Hit::Row(2));
    assert_eq!(up, Click::Row { index: 2, double: false });
}

#[test]
fn with_the_mouse_disabled_nothing_is_registered_and_no_event_acts() {
    let mut app = home_app();
    app.pointer.enabled = false;
    for kind in [
        MouseKind::LeftDown,
        MouseKind::LeftUp,
        MouseKind::RightDown,
        MouseKind::ScrollDown,
    ] {
        assert!(matches!(app.handle_mouse(mouse(kind, 60, 5), at(Hit::Row(2))), Gesture::Done));
    }
    match app.screens.last() {
        Some(Screen::Home(h)) => {
            assert_eq!((h.list.sel, h.tree.sel), (0, 0));
            assert!(h.focus == Pane::Tree);
        }
        _ => panic!("expected Home"),
    }
    assert!(app.pointer.selection.is_none());
    assert!(app.effects.is_empty());
}

#[test]
fn a_drag_copies_what_it_covers() {
    let mut app = home_app();
    draw(&mut app, &["hello world   ", "second line   "]);
    app.handle_mouse(mouse(MouseKind::LeftDown, 6, 0), nowhere());
    app.handle_mouse(mouse(MouseKind::LeftDrag, 13, 1), nowhere());
    app.handle_mouse(mouse(MouseKind::LeftUp, 13, 1), nowhere());
    assert_eq!(app.clipboard, "world\n line");
    assert_eq!(app.status, "Copied 11 chars to your clipboard (and Ctrl+Y)");
    assert!(matches!(app.effects.last(), Some(Effect::CopyText { .. })));
}

#[test]
fn a_second_press_selects_the_word_and_a_third_the_line() {
    let mut app = home_app();
    draw(&mut app, &["see foo@bar.com, ok   "]);
    app.handle_mouse(mouse(MouseKind::LeftDown, 6, 0), nowhere());
    app.handle_mouse(mouse(MouseKind::LeftUp, 6, 0), nowhere());
    assert_eq!(app.clipboard, "");
    app.handle_mouse(mouse(MouseKind::LeftDown, 7, 0), nowhere());
    assert_eq!(app.clipboard, "foo@bar.com");
    assert_eq!(app.status, "Copied word (11 chars) to clipboard (and Ctrl+Y)");
    app.handle_mouse(mouse(MouseKind::LeftDown, 7, 0), nowhere());
    assert_eq!(app.clipboard, "see foo@bar.com, ok");
    assert_eq!(app.status, "Copied line (19 chars) to clipboard (and Ctrl+Y)");
    assert_eq!(app.pointer.click_count, 3);
    app.handle_mouse(mouse(MouseKind::LeftDown, 7, 0), nowhere());
    assert_eq!(app.pointer.click_count, 1);
}

#[test]
fn ctrl_c_copies_a_selection_and_quits_without_one() {
    let mut app = home_app();
    draw(&mut app, &["hello world"]);
    app.handle_mouse(mouse(MouseKind::LeftDown, 0, 0), nowhere());
    app.handle_mouse(mouse(MouseKind::LeftDrag, 4, 0), nowhere());
    assert!(!app.interrupt());
    assert_eq!(app.clipboard, "hello");
    assert_eq!(app.status, "Copied 5 chars to clipboard (selection cleared)");
    assert!(app.interrupt());
}
