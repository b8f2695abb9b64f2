//! Frames, the event loop's decisions and background work.

use wftui::app::{App, QuickNodes, Site};
use wftui::effects::{AttachContext, Effect};
use wftui::errors::{Error, TaskError, TaskErrorKind};
use wftui::frame::{exit_code, gate_state, Badge, BarOwner, Cap, GateState, Zones};
use wftui::keys::{
    Area, Hit, KeyCode, KeyEvent, KeyModifiers, MediaKey, MouseEvent, MouseKind, Pointed,
};
use wftui::models::{Alert, Conversation, Pagination, Thread, User};
use wftui::msg::Msg;
use wftui::pointer::{Click, Gesture, Wheel, WHEEL_LINES};
use wftui::screens::{HomeState, InboxTab, Screen, ThreadListState, ThreadViewState};
use wftui::session::{home_state, login_state};
use wftui::tasks::{
    alerts_polled, check_upload, conversations_polled, finish_login, latest_reply, logged_out,
    login_not_stored, login_polled, report, revocations, session_checked, session_recheck_died,
    unsent_revocations, upload_context, LinkStatus, LoginStep, Poll, TokenSet, LOGIN_POLLS, MEBIBYTE,
};
use wftui::text::{expand_tabs, trim};
use wftui::update::UpdateConfig;

fn test_app() -> App {
    let site = Site {
        base_url: "https://windowsforum.com".to_string(),
        quick: QuickNodes { news: 4, security: 5, tutorials: 6 },
    };
    let update = UpdateConfig { disabled: true, current_version: "1.0.0".to_string() };
    App::new(site, true, update, 1_000_000)
}

fn area(x: u16, y: u16, width: u16, height: u16) -> Area {
    Area { x, y, width, height }
}

#[test]
fn a_new_client_says_that_it_starts() {
    let app = test_app();
    assert_eq!(app.status, "Starting…");
    assert!(app.screens.is_empty() && app.effects.is_empty() && app.me.is_none());
    assert_eq!(app.pointer.body_rect, area(0, 0, 0, 0));
}

#[test]
fn a_run_starts_with_home_and_the_stored_session_or_the_sign_in() {
    let mut app = test_app();
    app.bootstrap(true);
    assert!(matches!(app.screens[..], [Screen::Home(_)]));
    assert!(matches!(app.effects[..], [Effect::RestoreSession { .. }]));

    let mut app = test_app();
    app.bootstrap(false);
    assert!(matches!(app.screens[..], [Screen::Home(_), Screen::Login(_)]));
    assert!(matches!(app.effects.last(), Some(Effect::BeginLogin { .. })));
}

#[test]
fn a_frame_has_a_header_a_body_and_two_rows_below() {
    let mut app = test_app();
    let zones = app.begin_frame(area(0, 0, 80, 24));
    assert_eq!(
        zones,
        Zones {
            header: area(0, 0, 80, 1),
            body: area(0, 1, 80, 21),
            keys: area(0, 22, 80, 1),
            status: area(0, 23, 80, 1),
        }
    );
    assert_eq!(app.pointer.body_rect, area(0, 1, 80, 21));

    let zones = app.begin_frame(area(5, 2, 40, 10));
    assert_eq!(zones.body, area(5, 3, 40, 7));
    assert_eq!((zones.header.x, zones.status.width), (5, 40));
}

#[test]
fn the_zones_follow_from_the_area_at_every_height() {
    let mut app = test_app();
    for (y, height) in [(0, 4), (0, 5), (7, 6), (3, 500), (0, 65_535), (1, 65_534), (9, 65_535)] {
        let end = if y + height > 65_535 { 65_535 } else { y + height };
        let zones = app.begin_frame(area(2, y as u16, 30, height as u16));
        assert_eq!(zones.header, area(2, y as u16, 30, 1));
        assert_eq!(zones.body, area(2, y as u16 + 1, 30, (end - y - 3) as u16));
        assert_eq!(zones.keys, area(2, (end - 2) as u16, 30, 1));
        assert_eq!(zones.status, area(2, (end - 1) as u16, 30, 1));
    }
    for y in [0, 40, 65_530, 65_533, 65_535] {
        for height in 0..4 {
            let zones = app.begin_frame(area(2, y, 30, height));
            let end = y.saturating_add(height);
            for z in [zones.header, zones.body, zones.keys, zones.status] {
                assert!((z.x, z.width) == (2, 30) && y <= z.y && z.y + z.height <= end);
            }
            assert!(end == y || zones.body.height >= 1, "the body keeps a row");
        }
    }
}

#[test]
fn an_overlay_takes_the_pointer_and_the_bars_keep_theirs() {
    let tab = KeyEvent::new(KeyCode::Tab, KeyModifiers::empty());
    let frame = |app: &mut App| -> Vec<(Area, String)> {
        let zones = app.begin_frame(area(0, 0, 80, 24));
        let badges = zones.badges(&vec![
            Badge { x: 60, width: 4, tab: InboxTab::Conversations },
            Badge { x: 66, width: 6, tab: InboxTab::Alerts },
        ]);
        let caps = zones.caps(&vec![
            Cap { x: 1, width: 3, key: Some(tab) },
            Cap { x: 8, width: 5, key: None },
        ]);
        let body = vec![(area(0, 1, 40, 1), Hit::Row(0)), (area(0, 2, 40, 1), Hit::Row(1))];
        let overlay = vec![(area(20, 5, 40, 1), Hit::PaletteRow(0))];
        let targets = app.targets(body, overlay, badges, caps);
        targets.into_iter().map(|(a, h)| (a, format!("{h:?}"))).collect()
    };
    let bars = || {
        vec![
            (area(60, 0, 4, 1), format!("{:?}", Hit::Badge(InboxTab::Conversations))),
            (area(66, 0, 6, 1), format!("{:?}", Hit::Badge(InboxTab::Alerts))),
            (area(1, 22, 3, 1), format!("{:?}", Hit::Key(Some(tab)))),
            (area(8, 22, 5, 1), format!("{:?}", Hit::Key(None))),
        ]
    };
    let bare = || {
        let mut all = vec![
            (area(0, 1, 40, 1), "Row(0)".to_string()),
            (area(0, 2, 40, 1), "Row(1)".to_string()),
        ];
        all.extend(bars());
        all
    };
    let covered = || {
        let mut all = vec![(area(20, 5, 40, 1), "PaletteRow(0)".to_string())];
        all.extend(bars());
        all
    };
    let mut app = test_app();
    assert_eq!(frame(&mut app), bare());
    app.show_help = true;
    assert_eq!(frame(&mut app), covered());
    app.show_help = false;
    app.chord = true;
    assert_eq!(frame(&mut app), covered());
    app.chord = false;
    app.open_palette();
    assert_eq!(frame(&mut app), covered());
    app.palette = None;
    assert_eq!(frame(&mut app), bare());

    let zones = app.begin_frame(area(0, 0, 80, 24));
    let edge = zones.badges(&vec![Badge { x: 65_530, width: 9, tab: InboxTab::Alerts }]);
    assert_eq!(edge[0].0, area(65_530, 0, 5, 1));
}

#[test]
fn a_clicked_cap_presses_the_very_key_it_stands_for() {
    let shift_tab = KeyModifiers { shift: true, ..KeyModifiers::empty() };
    for key in [
        KeyEvent::new(KeyCode::Tab, KeyModifiers::empty()),
        KeyEvent::new(KeyCode::BackTab, shift_tab),
        KeyEvent::new(KeyCode::PageDown, KeyModifiers::empty()),
        KeyEvent::new(KeyCode::F(5), KeyModifiers::empty()),
        KeyEvent::new(KeyCode::Left, KeyModifiers { alt: true, ..KeyModifiers::empty() }),
        KeyEvent::new(KeyCode::Char('x'), KeyModifiers { meta: true, ..KeyModifiers::empty() }),
        KeyEvent::new(KeyCode::Media(MediaKey::Play), KeyModifiers::empty()),
    ] {
        let mut app = test_app();
        let at = Pointed { hit: Some(Hit::Key(Some(key))), text_like: false, post: None };
        assert_eq!(app.click_hit(at, false), Click::Key(key));
    }
    let mut app = test_app();
    let at = Pointed { hit: Some(Hit::Key(None)), text_like: false, post: None };
    assert_eq!(app.click_hit(at, false), Click::Done);
}

#[test]
fn every_tab_expands_and_every_white_space_is_trimmed() {
    assert_eq!(expand_tabs("\ta\t\tb"), "   a      b");
    assert_eq!(expand_tabs("a b\n"), "a b\n");
    let white: Vec<u32> = vec![
        0x9, 0xa, 0xb, 0xc, 0xd, 0x20, 0x85, 0xa0, 0x1680, 0x2000, 0x2001, 0x2002, 0x2003, 0x2004,
        0x2005, 0x2006, 0x2007, 0x2008, 0x2009, 0x200a, 0x2028, 0x2029, 0x202f, 0x205f, 0x3000,
    ];
    for n in 0..=0x10ffff_u32 {
        if let Some(c) = char::from_u32(n) {
            assert_eq!(trim(&format!("{c}")).is_empty(), white.contains(&n), "{n:x}");
        }
    }
}

fn wheel(app: &mut App, column: u16, row: u16) -> Wheel {
    let at = Pointed { hit: None, text_like: false, post: None };
    let event = MouseEvent { kind: MouseKind::ScrollUp, column, row };
    match app.handle_mouse(event, at) {
        Gesture::Wheel(w) => w,
        _ => panic!("expected a turn of the wheel"),
    }
}

#[test]
fn the_body_ends_before_its_edges_even_at_the_end_of_the_grid() {
    let mut app = test_app();
    app.pointer.body_rect = area(10, 10, 5, 5);
    assert!(matches!(wheel(&mut app, 10, 10), Wheel::Screen { key, times: 3 } if key.code == KeyCode::Up));
    assert!(matches!(wheel(&mut app, 14, 14), Wheel::Screen { .. }));
    for (x, y) in [(9, 10), (10, 9), (15, 10), (10, 15)] {
        assert_eq!(wheel(&mut app, x, y), Wheel::Nothing);
    }
    app.pointer.body_rect = area(65_530, 0, 100, 10);
    assert!(matches!(wheel(&mut app, 65_534, 0), Wheel::Screen { .. }));
    assert_eq!(wheel(&mut app, 65_535, 0), Wheel::Nothing);

    app.pointer.body_rect = area(0, 0, 80, 24);
    app.open_palette();
    assert!(matches!(wheel(&mut app, 3, 3), Wheel::Palette { times: WHEEL_LINES, .. }));
}

#[test]
fn crumbs_name_the_places_on_the_stack() {
    let mut app = test_app();
    app.screens.push(Screen::Home(HomeState {
        list: ThreadListState { title: "Windows News".to_string(), ..Default::default() },
        ..Default::default()
    }));
    app.screens.push(Screen::ThreadView(ThreadViewState::default()));
    app.screens.push(login_state());
    let names = vec!["home".to_string(), "A thread".to_string(), "login".to_string()];
    assert_eq!(app.crumbs(&names), vec!["Forums", "Windows News", "A thread"]);

    app.screens.truncate(1);
    if let Some(Screen::Home(h)) = app.screens.last_mut() {
        h.list.title = String::new();
    }
    assert_eq!(app.crumbs(&vec!["home".to_string()]), vec!["Forums"]);
}

#[test]
fn the_window_is_named_once_per_name() {
    let mut app = test_app();
    app.name_window("Forums");
    assert_eq!(app.last_title, "wftui · Forums");
    app.name_window("Forums");
    assert_eq!(app.effects.len(), 1);
    app.convos_unread = 2;
    app.alerts_unread = 13;
    app.name_window("Forums");
    match app.effects.last() {
        Some(Effect::SetTitle { title }) => {
            assert_eq!(title, "wftui · Forums [2 DM · 13 alerts]");
        }
        _ => panic!("expected a new name"),
    }
}

#[test]
fn overlays_own_the_bar_and_hide_the_pictures() {
    let mut app = test_app();
    let o = app.overlays(false);
    assert!(!o.dim && !o.glass && o.images && o.bar == BarOwner::Screen);
    assert!(!app.overlays(true).images);

    app.chord = true;
    let o = app.overlays(false);
    assert!(!o.dim && o.glass && !o.images && o.bar == BarOwner::Screen);
    app.chord = false;

    app.open_palette();
    let o = app.overlays(false);
    assert!(o.dim && o.glass && !o.images && o.bar == BarOwner::Palette);
    app.show_help = true;
    assert_eq!(app.overlays(false).bar, BarOwner::Help);
}

#[test]
fn a_frame_is_due_when_something_moved() {
    let mut app = test_app();
    app.screens.push(home_state(false));
    assert!(!app.frame_due(false, 0, 0));
    assert!(app.frame_due(true, 0, 0));
    assert!(app.frame_due(false, 0, 50), "writes have just become free");
    assert!(app.frame_due(false, 50, 50), "its countdown runs");
    app.screens.push(home_state(true));
    assert!(app.frame_due(false, 0, 0), "a spinner turns");
}

#[test]
fn the_gate_is_ready_or_counts_down() {
    assert_eq!(gate_state(0, 30_000), GateState::Ready);
    assert_eq!(gate_state(7, 30_000), GateState::Waiting { left: 7, total: 30_000 });
}

#[test]
fn the_reader_is_started_again_a_few_times() {
    let mut app = test_app();
    assert!(app.reader_died(3, 3));
    assert_eq!(app.status, "Terminal input restarted.");
    assert!(!app.should_quit);
    assert!(!app.reader_died(4, 3));
    assert_eq!(app.status, "Terminal input failed — exiting.");
    assert!(app.should_quit);
    assert_eq!((exit_code(3, 3), exit_code(4, 3)), (0, 3));
}

#[test]
fn messages_are_taken_in_order_up_to_one_that_ends_the_run() {
    let mut app = test_app();
    assert!(!app.drain(Vec::new()));
    assert!(app.drain(vec![
        Msg::Notice("alerts:4".to_string()),
        Msg::Notice("quit".to_string()),
        Msg::Notice("alerts:9".to_string()),
    ]));
    assert!(app.should_quit);
    assert_eq!(app.alerts_unread, 4);
}

#[test]
fn a_tick_clears_what_has_been_up_for_its_time() {
    let mut app = test_app();
    app.set_status("Copied.".to_string());
    assert!(!app.tick());
    app.clock += 4_000;
    assert!(app.tick());
    assert!(!app.tick());
    assert_eq!(app.status, "");
}

#[test]
fn the_list_stays_ahead_of_the_reader_one_page_at_a_time() {
    let list = |sel: usize| ThreadListState {
        node_id: 4,
        page: 1,
        pages_loaded: 2,
        last_page: 9,
        visible: 10,
        fill_budget: 1,
        load_seq: 6,
        sel,
        threads: (0..40).map(|i| Thread { thread_id: i, ..Default::default() }).collect(),
        ..Default::default()
    };
    let mut app = test_app();
    app.screens.push(Screen::ThreadList(list(29)));
    app.autoload_more();
    assert!(app.effects.is_empty(), "a screenful is still ahead");

    app.screens.clear();
    app.screens.push(Screen::ThreadList(list(30)));
    app.autoload_more();
    assert!(matches!(
        app.effects[..],
        [Effect::LoadForumPage { node_id: 4, page: 3, append: true, seq: 6 }]
    ));
    app.autoload_more();
    assert_eq!(app.effects.len(), 1, "one page is in flight");

    let mut app = test_app();
    let mut spent = list(30);
    spent.fill_budget = 0;
    app.screens.push(Screen::ThreadList(spent));
    app.autoload_more();
    assert!(matches!(
        app.effects[..],
        [Effect::LoadForumPage { node_id: 4, page: 3, append: true, seq: 6 }]
    ));
    match &app.screens[0] {
        Screen::ThreadList(l) => assert!(l.loading && l.fill_budget == 0),
        _ => panic!("expected the list"),
    }

    let mut app = test_app();
    let mut last = list(39);
    last.last_page = 2;
    app.screens.push(Screen::ThreadList(last));
    app.autoload_more();
    assert!(app.effects.is_empty(), "there is no further page");
}

fn refused() -> Error {
    Error::Api {
        code: "api_error".to_string(),
        message: "unauthorized".to_string(),
        status: 401,
        max_page: None,
    }
}

#[test]
fn a_poller_reports_counts_and_stops_with_its_session() {
    let alerts = vec![
        Alert { alert_id: 1, viewed: false },
        Alert { alert_id: 2, viewed: true },
        Alert { alert_id: 3, viewed: false },
    ];
    match alerts_polled(&Ok(alerts)) {
        Poll::Report(Msg::Notice(n)) => assert_eq!(n, "alerts:2"),
        _ => panic!("expected a count"),
    }
    let convos = vec![
        Conversation { is_unread: true, ..Default::default() },
        Conversation { conversation_unread: true, ..Default::default() },
        Conversation::default(),
    ];
    match conversations_polled(&Ok(convos)) {
        Poll::Report(Msg::Notice(n)) => assert_eq!(n, "convos:2"),
        _ => panic!("expected a count"),
    }
    assert!(matches!(
        alerts_polled(&Err(refused())),
        Poll::Stop(Msg::SessionLost(TaskError { kind: TaskErrorKind::Api(401), .. }))
    ));
    assert!(matches!(
        conversations_polled(&Err(Error::Other { text: "timed out".to_string() })),
        Poll::Wait
    ));
}

#[test]
fn what_was_counted_reaches_its_badge() {
    let mut app = test_app();
    for n in [0u32, 7, 40, 4_294_967_295] {
        app.handle_msg(Msg::Notice(format!("alerts:{n}")));
        app.handle_msg(Msg::Notice(format!("convos:{n}")));
        assert_eq!((app.alerts_unread, app.convos_unread), (n, n));
    }
}

#[test]
fn the_latest_posts_are_a_forum_without_a_number() {
    let pages = Pagination { last_page: 3, total: 50, per_page: 20 };
    let r = latest_reply(vec![Thread { thread_id: 8, ..Default::default() }], pages);
    assert_eq!((r.forum.node_id, r.forum.title.as_str()), (0, "Latest posts"));
    assert_eq!((r.threads.len(), r.sticky.len(), r.pagination.last_page), (1, 0, 3));
}

#[test]
fn a_check_that_died_still_reports() {
    match session_recheck_died(5) {
        Msg::Bootstrap { generation: 5, result: Err(e) } => {
            assert_eq!(e.message, "session re-check ended unexpectedly");
            assert_eq!(e.kind, TaskErrorKind::NoToken);
        }
        _ => panic!("expected the check's report"),
    }
    assert!(matches!(session_checked(5, Err(refused())), Msg::Bootstrap { result: Err(_), .. }));
    assert!(report::<u8>(Ok(3)).is_ok());
}

#[test]
fn a_sign_in_link_is_asked_about_for_a_while() {
    assert!(matches!(login_polled(LinkStatus::Waiting, 1), LoginStep::Again));
    assert!(matches!(login_polled(LinkStatus::Unreachable, LOGIN_POLLS - 1), LoginStep::Again));
    match login_polled(LinkStatus::Waiting, LOGIN_POLLS) {
        LoginStep::Fail(s) => {
            assert_eq!(s, "timed out waiting for approval — press Enter to start again");
        }
        _ => panic!("expected the flow to end"),
    }
    match login_polled(LinkStatus::Expired, 1) {
        LoginStep::Fail(s) => assert_eq!(s, "login link expired — press Enter to start again"),
        _ => panic!("expected the flow to end"),
    }
    match login_polled(LinkStatus::Authorized("code".to_string()), LOGIN_POLLS) {
        LoginStep::Exchange(code) => assert_eq!(code, "code"),
        _ => panic!("expected the exchange"),
    }
    match login_not_stored(4, "disk full") {
        Msg::LoginFailed { generation: 4, message } => {
            assert_eq!(message, "token store: disk full");
        }
        _ => panic!("expected a failure"),
    }
    assert!(matches!(
        finish_login(4, Ok(User::default())),
        Msg::LoginComplete { generation: 4, result: Ok(_) }
    ));
}

#[test]
fn the_refresh_token_is_revoked_first_and_what_was_kept_is_said() {
    let tokens = |access: &str, refresh: &str| TokenSet {
        access_token: access.to_string(),
        refresh_token: refresh.to_string(),
    };
    let hints = |t: &TokenSet| -> Vec<String> {
        revocations(t).into_iter().map(|r| format!("{}={}", r.hint, r.token)).collect()
    };
    assert_eq!(hints(&tokens("a", "r")), vec!["refresh_token=r", "access_token=a"]);
    assert_eq!(hints(&tokens("a", "")), vec!["access_token=a"]);
    assert!(hints(&tokens("", "")).is_empty());

    assert_eq!(unsent_revocations(&Some(tokens("a", "r"))), vec!["refresh_token"]);
    assert_eq!(unsent_revocations(&Some(tokens("a", ""))), vec!["refresh_token"]);
    assert!(unsent_revocations(&None).is_empty());

    let both = vec!["refresh_token".to_string(), "access_token".to_string()];
    match logged_out(Ok(()), &both) {
        Msg::LoggedOut(Err(e)) => assert_eq!(
            e,
            "the server kept refresh token and access token valid — sign out in a browser \
             to end the session"
        ),
        _ => panic!("expected what was kept"),
    }
    assert!(matches!(logged_out(Ok(()), &Vec::new()), Msg::LoggedOut(Ok(()))));
    match logged_out(Err("store locked".to_string()), &both) {
        Msg::LoggedOut(Err(e)) => assert_eq!(e, "store locked"),
        _ => panic!("expected the store's failure"),
    }
}

#[test]
fn an_upload_is_checked_before_it_is_sent() {
    assert_eq!(check_upload("/a", true, 10, 10), Ok(()));
    assert_eq!(check_upload("/a", false, 0, 10), Err("/a is not a file.".to_string()));
    assert_eq!(
        check_upload("/a", true, 12 * MEBIBYTE + 1, 10 * MEBIBYTE),
        Err("/a is 12 MB; the limit here is 10 MB.".to_string())
    );
    let field = |c: AttachContext| upload_context(c);
    assert_eq!(
        field(AttachContext::Thread(8)),
        ("context[thread_id]".to_string(), "8".to_string())
    );
    assert_eq!(field(AttachContext::Node(9)).0, "context[node_id]");
    assert_eq!(field(AttachContext::Post(10)), ("context[post_id]".to_string(), "10".to_string()));
}
