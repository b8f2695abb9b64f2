//! What is opened, pasted, checked for and told: links, pastes, updates, frames and the
//! reports of background work.

use vstd::prelude::*;

use crate::app::{App, AppModel};
use crate::effects::{AttachContext, EffectModel};
use crate::errors::{error_view, Error, TaskErrorKind};
use crate::frame::{crumb_trail, exit_code, fetches, gate_state, restore_steps, GateState};
use crate::goto::GoTarget;
use crate::keys::{Area, Hit};
use crate::models::{
    unread_alerts, unread_conversations, Alert, Conversation, ForumReply, Pagination, Thread, User,
};
use crate::msg::{Msg, MsgModel};
use crate::palette::{PaletteModel, TargetModel};
use crate::screens::{ComposeModel, NewConversationModel, ScreenModel, SearchModel};
use crate::search::the_first_is_the_least;
use crate::tasks::{
    alerts_polled, check_upload, conversations_polled, finish_login, latest_reply, logged_out,
    login_not_stored, login_polled, resolve_profile_id, revocations, revocations_of,
    session_checked, session_recheck_died, session_rechecked, unsent_revocations, upload_context,
    LinkStatus, LoginStep, Poll, Revocation, TokenSet,
};
use crate::text::{breaks_to_spaces, digits, lowered, tabs_to_spaces, texts, without_returns};
use crate::update::{Outcome, UpdateModel, UpdaterModel};
use crate::url::{first_of, is_scheme, resolved, same_char};

verus! {

/// A link without a colon is a path of the site: it hangs on the site's address by one
/// slash.
pub proof fn a_path_hangs_on_the_site(url: Seq<char>, base: Seq<char>)
    requires
        !url.contains(':'),
    ensures
        url.len() > 0 && url[0] == '/' ==> resolved(url, base) == Ok::<Seq<char>, Seq<char>>(
            base + url,
        ),
        url.len() == 0 || url[0] != '/' ==> resolved(url, base) == Ok::<Seq<char>, Seq<char>>(
            base + seq!['/'] + url,
        ),
{
    reveal_strlit("/");
    the_first_is_the_least(url, same_char(':'));
    assert("/"@ =~= seq!['/']);
    if let Some(i) = first_of(url, ':') {
        assert(url[i] == ':');
    }
    if url.len() > 0 && url[0] == '/' {
        assert("/"@.is_prefix_of(url));
        assert(base + "/"@ + url.skip(1) =~= base + url);
    } else {
        assert(!"/"@.is_prefix_of(url)) by {
            if "/"@.is_prefix_of(url) {
                assert(url[0] == "/"@[0]);
            }
        }
    }
}

/// A link with a scheme is opened as it stands where the scheme is one of four, in
/// whatever case it is written, and is refused by that scheme's name otherwise.
pub proof fn a_scheme_decides(scheme: Seq<char>, rest: Seq<char>, base: Seq<char>)
    requires
        is_scheme(scheme),
    ensures
        ({
            let url = scheme + seq![':'] + rest;
            let s = lowered(scheme);
            resolved(url, base) == (if s == "http"@ || s == "https"@ || s == "mailto"@ || s
                == "ftp"@ {
                Ok::<Seq<char>, Seq<char>>(url)
            } else {
                Err::<Seq<char>, Seq<char>>(s)
            })
        }),
{
    let url = scheme + seq![':'] + rest;
    let n = scheme.len() as int;
    assert(url[n] == ':');
    assert forall|i: int| 0 <= i < n implies url[i] != ':' && url[i] != '/' by {
        assert(crate::url::scheme_char(scheme[i]));
        assert(url[i] == scheme[i]);
    }
    the_first_is_the_least(url, same_char(':'));
    the_first_is_the_least(url, same_char('/'));
    assert(same_char(':')(url[n]));
    match first_of(url, ':') {
        Some(i) => {
            assert(same_char(':')(url[i]));
            assert(i == n);
        },
        None => {
            assert(!same_char(':')(url[n]));
        },
    }
    if let Some(j) = first_of(url, '/') {
        assert(same_char('/')(url[j]));
    }
    assert(url.take(n) =~= scheme);
}

/// What opens is handed to the browser and put on every clipboard, and said; what is
/// refused is said and goes nowhere; an empty link does nothing.
pub proof fn a_link_is_opened_and_copied(app: AppModel, url: Seq<char>)
    ensures
        ({
            let next = app.url_opened(url);
            &&& url.len() == 0 ==> next == app
            &&& url.len() > 0 ==> match resolved(url, app.site.base_url@) {
                Ok(target) => next == (AppModel {
                    clipboard: target,
                    effects: app.effects.push(EffectModel::CopyText { text: target }).push(
                        EffectModel::OpenBrowser { url: target },
                    ),
                    status: "Opening "@ + target + " (also copied to clipboard)"@,
                    status_set_at: Some(app.clock),
                    ..app
                }),
                Err(scheme) => next == (AppModel {
                    status: "Refused to open \""@ + scheme + ":\" link."@,
                    status_set_at: Some(app.clock),
                    ..app
                }),
            }
        }),
{
}

/// A paste goes to the palette while it is open, and there alone: at the caret of its
/// query, with nothing said.
pub proof fn a_paste_goes_to_the_open_palette(app: AppModel, p: PaletteModel, text: Seq<char>, n: usize)
    requires
        app.palette == Some(p),
        p.cursor <= p.query.len(),
        p.cursor + text.len() <= usize::MAX,
    ensures
        app.paste_inserted(text, n) == (AppModel {
            palette: Some(
                PaletteModel {
                    query: p.query.take(p.cursor as int) + text + p.query.skip(p.cursor as int),
                    cursor: (p.cursor + text.len()) as usize,
                    ..p
                },
            ),
            ..app
        }),
        app.paste_form(text) == Some(tabs_to_spaces(breaks_to_spaces(text))),
{
}

/// A paste into a composer goes to the title where that has the keyboard, else to the
/// body, at the caret, which ends up behind it; the title takes no line break.
pub proof fn a_paste_goes_to_the_composers_field(
    app: AppModel,
    c: ComposeModel,
    text: Seq<char>,
    n: usize,
)
    requires
        app.palette is None,
        app.screens.len() > 0,
        app.screens.last() == ScreenModel::Compose(c),
        c.title_cursor <= c.title.len() && c.title_cursor + text.len() <= usize::MAX,
        c.body_cursor <= c.body.len() && c.body_cursor + text.len() <= usize::MAX,
    ensures
        ({
            let next = app.paste_inserted(text, n);
            let after = if c.title_field {
                ComposeModel {
                    title: c.title.take(c.title_cursor as int) + text + c.title.skip(
                        c.title_cursor as int,
                    ),
                    title_cursor: (c.title_cursor + text.len()) as usize,
                    ..c
                }
            } else {
                ComposeModel {
                    body: c.body.take(c.body_cursor as int) + text + c.body.skip(
                        c.body_cursor as int,
                    ),
                    body_cursor: (c.body_cursor + text.len()) as usize,
                    ..c
                }
            };
            &&& next == (AppModel {
                screens: app.screens.update(app.screens.len() - 1, ScreenModel::Compose(after)),
                status: "Pasted "@ + digits(n as nat) + " characters"@,
                status_set_at: Some(app.clock),
                ..app
            })
            &&& app.paste_form(text) == Some(
                tabs_to_spaces(
                    if c.title_field {
                        breaks_to_spaces(text)
                    } else {
                        without_returns(text)
                    },
                ),
            )
        }),
{
}

/// A paste into a search goes to the author where that field is active, else to the
/// query.
pub proof fn a_paste_goes_to_the_searchs_field(
    app: AppModel,
    s: SearchModel,
    text: Seq<char>,
    n: usize,
)
    requires
        app.palette is None,
        app.screens.len() > 0,
        app.screens.last() == ScreenModel::Search(s),
        s.author_cursor <= s.author.len() && s.author_cursor + text.len() <= usize::MAX,
        s.query_cursor <= s.query.len() && s.query_cursor + text.len() <= usize::MAX,
    ensures
        ({
            let next = app.paste_inserted(text, n);
            let after = if s.active_field == 1 {
                SearchModel {
                    author: s.author.take(s.author_cursor as int) + text + s.author.skip(
                        s.author_cursor as int,
                    ),
                    author_cursor: (s.author_cursor + text.len()) as usize,
                    ..s
                }
            } else {
                SearchModel {
                    query: s.query.take(s.query_cursor as int) + text + s.query.skip(
                        s.query_cursor as int,
                    ),
                    query_cursor: (s.query_cursor + text.len()) as usize,
                    ..s
                }
            };
            &&& next == (AppModel {
                screens: app.screens.update(app.screens.len() - 1, ScreenModel::Search(after)),
                status: "Pasted "@ + digits(n as nat) + " characters into search"@,
                status_set_at: Some(app.clock),
                ..app
            })
            &&& app.paste_form(text) == Some(tabs_to_spaces(breaks_to_spaces(text)))
        }),
{
}

/// A paste into the form of a conversation goes to the field that has the keyboard: the
/// recipients, the title or the body.
pub proof fn a_paste_goes_to_the_forms_field(
    app: AppModel,
    f: NewConversationModel,
    text: Seq<char>,
    n: usize,
)
    requires
        app.palette is None,
        app.screens.len() > 0,
        app.screens.last() == ScreenModel::NewConversation(f),
        f.recipients_cursor <= f.recipients.len() && f.recipients_cursor + text.len() <= usize::MAX,
        f.title_cursor <= f.title.len() && f.title_cursor + text.len() <= usize::MAX,
        f.body_cursor <= f.body.len() && f.body_cursor + text.len() <= usize::MAX,
    ensures
        ({
            let next = app.paste_inserted(text, n);
            let after = if f.field == 0 {
                NewConversationModel {
                    recipients: f.recipients.take(f.recipients_cursor as int) + text
                        + f.recipients.skip(f.recipients_cursor as int),
                    recipients_cursor: (f.recipients_cursor + text.len()) as usize,
                    ..f
                }
            } else if f.field == 1 {
                NewConversationModel {
                    title: f.title.take(f.title_cursor as int) + text + f.title.skip(
                        f.title_cursor as int,
                    ),
                    title_cursor: (f.title_cursor + text.len()) as usize,
                    ..f
                }
            } else {
                NewConversationModel {
                    body: f.body.take(f.body_cursor as int) + text + f.body.skip(
                        f.body_cursor as int,
                    ),
                    body_cursor: (f.body_cursor + text.len()) as usize,
                    ..f
                }
            };
            &&& next == (AppModel {
                screens: app.screens.update(
                    app.screens.len() - 1,
                    ScreenModel::NewConversation(after),
                ),
                status: "Pasted "@ + digits(n as nat) + " characters"@,
                status_set_at: Some(app.clock),
                ..app
            })
            &&& app.paste_form(text) == Some(
                tabs_to_spaces(
                    if f.field == 0 || f.field == 1 {
                        breaks_to_spaces(text)
                    } else {
                        without_returns(text)
                    },
                ),
            )
        }),
{
}

/// Whatever is pasted is on the client's own clipboard from then on; where no field takes
/// it, the reader is told how to get at it.
pub proof fn a_paste_is_kept(app: AppModel, text: Seq<char>)
    ensures
        ({
            let next = app.paste_begun(text);
            let field = app.palette is Some || (app.screens.len() > 0 && (app.screens.last() is
                Compose || app.screens.last() is Search || app.screens.last() is NewConversation));
            &&& text.len() == 0 ==> next == app
            &&& text.len() > 0 && (field || app.screens.len() == 0) ==> next == (AppModel {
                clipboard: text,
                ..app
            })
            &&& text.len() > 0 && !field && app.screens.len() > 0 ==> next == (AppModel {
                clipboard: text,
                status: "Pasted "@ + digits(text.len())
                    + " characters into clipboard (press Ctrl+Y to insert)"@,
                status_set_at: Some(app.clock),
                ..app
            })
            &&& field <==> app.paste_form(text) is Some
        }),
{
}

/// A check begun: under a number of its own, in the stead of the one that runs.
pub open spec fn checks(app: AppModel, next: AppModel, forced: bool, delayed: bool) -> bool {
    let generation = next.updater.generation;
    let before = if app.updater.task {
        app.effects.push(EffectModel::AbortUpdateCheck)
    } else {
        app.effects
    };
    &&& generation != app.updater.generation
    &&& next.updater == (UpdaterModel {
        generation,
        state: UpdateModel::Checking,
        task: true,
        ..app.updater
    })
    &&& next.effects == before.push(EffectModel::CheckUpdate { generation, forced, delayed })
    &&& next.screens == app.screens
}

/// Asking for updates acts on what is known: a release page opens, what is downloaded is
/// named again with what to do, a check that runs is not begun again, and where nothing
/// is known a check begins at once. `g u` and the palette's row do the same.
pub proof fn asking_for_updates_acts_on_what_is_known(app: AppModel)
    ensures
        ({
            let next = app.gone_to(GoTarget::Update);
            &&& next == app.target_run(TargetModel::Update)
            &&& app.updater.cfg.disabled ==> next == (AppModel {
                status: "Updates are disabled (WFTUI_NO_UPDATE)."@,
                status_set_at: Some(app.clock),
                ..app
            })
            &&& !app.updater.cfg.disabled ==> match app.updater.state {
                UpdateModel::Available { version, html_url } => next == app.url_opened(html_url),
                UpdateModel::Staged { version } => next == (AppModel {
                    status: "Update v"@ + version + " downloaded — restart wftui to apply it."@,
                    status_set_at: None,
                    ..app
                }),
                UpdateModel::JustApplied { version } => next == (AppModel {
                    status: "Update v"@ + version + " applied — restart wftui to run it."@,
                    status_set_at: None,
                    ..app
                }),
                UpdateModel::Manual { version, command } => next == (AppModel {
                    status: "Update v"@ + version + " downloaded; install it with: "@ + command,
                    status_set_at: None,
                    ..app
                }),
                UpdateModel::Checking => next == (AppModel {
                    status: "Already checking for updates…"@,
                    status_set_at: Some(app.clock),
                    ..app
                }),
                _ => {
                    &&& checks(app, next, true, false)
                    &&& next.status == "Checking for updates…"@
                    &&& next.status_set_at == Some(app.clock)
                },
            }
        }),
{
}

/// A start checks once, a little later and unasked, unless updates are off or this very
/// start applied one.
pub proof fn a_start_checks_for_updates(app: AppModel)
    ensures
        app.updater.cfg.disabled || app.updater.state is JustApplied ==> app.startup_check() == app,
        !app.updater.cfg.disabled && !(app.updater.state is JustApplied) ==> checks(
            app,
            app.startup_check(),
            false,
            true,
        ) && app.startup_check().status == app.status,
{
}

/// What a check came to is known from then on and told: something to act on always, and
/// what is not only where it was asked for.
pub proof fn a_check_is_told(app: AppModel, forced: bool, result: Result<Outcome, Seq<char>>)
    ensures
        ({
            let next = app.handled(
                MsgModel::UpdateChecked { generation: app.updater.generation, forced, result },
            );
            let known = |state: UpdateModel|
                UpdaterModel { task: false, state, ..app.updater };
            let hinted = |state: UpdateModel, said: Seq<char>|
                AppModel { updater: known(state), status: said, status_set_at: None, ..app };
            let answered = |state: UpdateModel, said: Seq<char>|
                if forced {
                    AppModel {
                        updater: known(state),
                        status: said,
                        status_set_at: Some(app.clock),
                        ..app
                    }
                } else {
                    AppModel { updater: known(state), ..app }
                };
            match result {
                Ok(Outcome::Staged { version }) => next == hinted(
                    UpdateModel::Staged { version: version@ },
                    "Update v"@ + version@ + " downloaded — restart wftui to apply it."@,
                ),
                Ok(Outcome::Available { version, html_url, why }) => next == hinted(
                    UpdateModel::Available { version: version@, html_url: html_url@ },
                    "wftui v"@ + version@ + " is available ("@ + why@
                        + ") — g u opens the release page."@,
                ),
                Ok(Outcome::ManualInstall { version, command }) => next == hinted(
                    UpdateModel::Manual { version: version@, command: command@ },
                    "Update v"@ + version@ + " downloaded; install it with: "@ + command@,
                ),
                Ok(Outcome::UpToDate) => next == answered(
                    UpdateModel::UpToDate,
                    "wftui v"@ + app.updater.cfg.current_version@ + " is up to date."@,
                ),
                Ok(Outcome::Throttled) => next == answered(
                    UpdateModel::Idle,
                    "Update check skipped: checked recently."@,
                ),
                Ok(Outcome::Skipped(why)) => next == answered(
                    UpdateModel::Idle,
                    "Updates unavailable: "@ + why@ + "."@,
                ),
                Err(e) => next == answered(
                    UpdateModel::Failed(e),
                    "Update check failed: "@ + e,
                ),
            }
        }),
{
    reveal(AppModel::session_delivered);
}

/// The chip of the header and the palette's row name the version that waits, and say
/// what is to be done about it.
pub proof fn what_waits_is_named(version: Seq<char>, url: Seq<char>, command: Seq<char>)
    ensures
        ({
            let staged = UpdateModel::Staged { version };
            let applied = UpdateModel::JustApplied { version };
            let page = UpdateModel::Available { version, html_url: url };
            let manual = UpdateModel::Manual { version, command };
            &&& staged.chip() == Some("update v"@ + version + " ready"@)
            &&& applied.chip() == Some("v"@ + version + " applied, restart"@)
            &&& page.chip() == Some("update v"@ + version)
            &&& manual.chip() == Some("update v"@ + version + " (manual)"@)
            &&& UpdateModel::Idle.chip() is None && UpdateModel::Checking.chip() is None
            &&& UpdateModel::UpToDate.chip() is None && UpdateModel::Failed(url).chip() is None
            &&& staged.row_title() == "Update v"@ + version + " ready, restart to apply"@
            &&& applied.row_title() == "Update v"@ + version + " ready, restart to apply"@
            &&& page.row_title() == "Update v"@ + version + ", open release page"@
            &&& manual.row_title() == "Update v"@ + version + ", install by hand"@
            &&& UpdateModel::Idle.row_title() == "Check for updates"@
            &&& UpdateModel::Failed(url).row_title() == "Check for updates"@
        }),
{
}

/// The window is named after the screen on top, with the unread conversations and alerts
/// where there are any, and only where its name changes.
pub proof fn the_window_says_what_is_unread(app: AppModel, title: Seq<char>)
    ensures
        ({
            let name = if app.alerts_unread == 0 && app.convos_unread == 0 {
                "wftui · "@ + title
            } else {
                "wftui · "@ + title + " ["@ + digits(app.convos_unread as nat) + " DM · "@ + digits(
                    app.alerts_unread as nat,
                ) + " alerts]"@
            };
            let next = app.window_named(title);
            &&& next.last_title == name
            &&& next.effects == (if name == app.last_title {
                app.effects
            } else {
                app.effects.push(EffectModel::SetTitle { title: name })
            })
            &&& next == (AppModel { last_title: next.last_title, effects: next.effects, ..app })
            &&& next.window_named(title) == next
        }),
{
}

/// What lies over the body: the palette and the key card dim it, they and the chord keep
/// clicks off it, and pictures are painted where nothing at all is over it. The key card
/// says what the bar shows before the palette does.
pub proof fn overlays_cover_the_body(app: AppModel, capture: bool)
    ensures
        ({
            let o = app.overlaid(capture);
            &&& o.dim <==> app.palette is Some || app.show_help
            &&& o.glass <==> app.palette is Some || app.show_help || app.chord
            &&& o.images <==> app.palette is None && !app.show_help && !app.chord && !capture
            &&& o.bar is Help <==> app.show_help
            &&& o.bar is Palette <==> app.palette is Some && !app.show_help
        }),
{
}

/// The crumbs follow the stack from its root: Home is the forums and the list that is
/// open in it, the sign-in is none, and any other screen is one under its own name.
pub proof fn crumbs_follow_the_stack(
    s: Seq<ScreenModel>,
    top: ScreenModel,
    names: Seq<Seq<char>>,
)
    requires
        names.len() == s.len() + 1,
    ensures
        ({
            let below = crumb_trail(s, names);
            let all = crumb_trail(s.push(top), names);
            match top {
                ScreenModel::Login(_) => all == below,
                ScreenModel::Home(h) => all == (if h.list.title.len() == 0 {
                    below.push("Forums"@)
                } else {
                    below.push("Forums"@).push(h.list.title)
                }),
                _ => all == below.push(names.last()),
            }
        }),
        crumb_trail(seq![], names).len() == 0,
{
    assert(s.push(top).drop_last() =~= s);
    let below = crumb_trail(s, names);
    match top {
        ScreenModel::Login(_) => {
            assert(crumb_trail(s.push(top), names) =~= below);
        },
        ScreenModel::Home(h) => {
            if h.list.title.len() == 0 {
                assert(crumb_trail(s.push(top), names) =~= below.push("Forums"@));
            } else {
                assert(crumb_trail(s.push(top), names) =~= below.push("Forums"@).push(
                    h.list.title,
                ));
            }
        },
        _ => {
            assert(crumb_trail(s.push(top), names) =~= below.push(names.last()));
        },
    }
}

/// Messages are taken in one after the other, oldest first; one that ends the run is the
/// last.
pub proof fn messages_are_taken_in_order(app: AppModel, m: MsgModel, rest: Seq<MsgModel>)
    ensures
        app.drained(seq![]) == app,
        app.handled(m).should_quit ==> app.drained(seq![m] + rest) == app.handled(m),
        !app.handled(m).should_quit ==> app.drained(seq![m] + rest) == app.handled(m).drained(rest),
{
    assert((seq![m] + rest).skip(1) =~= rest);
    assert((seq![m] + rest)[0] == m);
}

/// The reader of the terminal's input is started again as often as it may be, and then
/// the run ends.
pub proof fn a_lost_reader_is_restarted_or_ends_the_run(app: AppModel, deaths: u32, most: u32)
    ensures
        deaths <= most ==> app.reader_lost(deaths, most) == (AppModel {
            status: "Terminal input restarted."@,
            status_set_at: Some(app.clock),
            ..app
        }),
        deaths > most ==> app.reader_lost(deaths, most) == (AppModel {
            status: "Terminal input failed — exiting."@,
            status_set_at: None,
            should_quit: true,
            ..app
        }),
{
}

/// A screen waits for something that it asked for.
pub open spec fn awaits(s: ScreenModel) -> bool {
    ||| s matches ScreenModel::Home(h) && (h.tree.loading || h.list.loading)
    ||| s matches ScreenModel::ForumTree(t) && t.loading
    ||| s matches ScreenModel::ThreadList(l) && l.loading
    ||| s matches ScreenModel::ThreadView(v) && v.loading
    ||| s matches ScreenModel::ConversationView(v) && v.loading
    ||| s matches ScreenModel::Inbox(b) && (b.convos.loading || b.alerts.loading)
    ||| s matches ScreenModel::Inbox(b) && b.view is Some && b.view->0.loading
    ||| s matches ScreenModel::Search(r) && r.loading
    ||| s matches ScreenModel::Profile(p) && p.loading
    ||| s matches ScreenModel::MediaGallery(m) && m.loading
    ||| s matches ScreenModel::Resources(r) && r.loading
    ||| s matches ScreenModel::ResourceView(r) && r.loading
}

/// A screen that waits for anything keeps the frames coming, wherever on the stack it is,
/// and so does the write gate while it counts down; nothing else does.
pub proof fn waiting_keeps_the_frames_coming(app: AppModel, gate: u64)
    ensures
        app.animates(gate) <==> gate > 0 || exists|i: int|
            0 <= i < app.screens.len() && awaits(#[trigger] app.screens[i]),
{
    assert forall|i: int| 0 <= i < app.screens.len() implies awaits(#[trigger] app.screens[i])
        == fetches(app.screens[i]) by {}
}

/// What the write gate is said to do, and the code that a run ends with.
pub proof fn the_gate_and_the_exit_are_said(
    pending: u64,
    total: u64,
    g: GateState,
    deaths: u32,
    most: u32,
    code: u8,
)
    requires
        call_ensures(gate_state, (pending, total), g),
        call_ensures(exit_code, (deaths, most), code),
    ensures
        pending == 0 <==> g is Ready,
        pending > 0 ==> g == (GateState::Waiting { left: pending, total }),
        code == 3 <==> deaths > most,
        code == 0 <==> deaths <= most,
{
}

/// The terminal is given back in five steps: its keys and its pastes before its screen,
/// the pointer behind it, and the caret last.
pub proof fn the_terminal_is_given_back(r: [&'static str; 5])
    requires
        call_ensures(restore_steps, (), r),
    ensures
        r@[0] == "pop_keyboard_enhancement_flags",
        r@[1] == "disable_bracketed_paste",
        r@[2] == "leave_alternate_screen",
        r@[3] == "disable_mouse_capture",
        r@[4] == "cursor_show",
{
}

/// What can be clicked: the targets of what is up, the overlay's alone where one is, then
/// the badges and the caps, all of them and in their order.
pub proof fn targets_are_those_of_what_is_up(
    app: App,
    body: Vec<(Area, Hit)>,
    overlay: Vec<(Area, Hit)>,
    badges: Vec<(Area, Hit)>,
    caps: Vec<(Area, Hit)>,
    r: Vec<(Area, Hit)>,
)
    requires
        call_ensures(App::targets, (&app, body, overlay, badges, caps), r),
    ensures
        app.palette is Some || app.show_help || app.chord ==> r@ == overlay@ + badges@ + caps@,
        app.palette is None && !app.show_help && !app.chord ==> r@ == body@ + badges@ + caps@,
{
}

/// What a sign-in does about its link: it exchanges the very code that it was given,
/// gives up on a link that expired and after three hundred questions, and asks again
/// otherwise.
pub proof fn a_sign_in_asks_until_it_is_answered(
    status: LinkStatus,
    polls: u32,
    r: LoginStep,
)
    requires
        call_ensures(login_polled, (status, polls), r),
    ensures
        status matches LinkStatus::Authorized(code) ==> r == LoginStep::Exchange(code),
        status is Expired ==> (r matches LoginStep::Fail(s) && s@
            == "login link expired — press Enter to start again"@),
        (status is Waiting || status is Unreachable) && polls < 300 ==> r is Again,
        (status is Waiting || status is Unreachable) && polls >= 300 ==> (r matches
            LoginStep::Fail(s) && s@
            == "timed out waiting for approval — press Enter to start again"@),
{
}

/// A sign-in reports whose session it is, or that its tokens could not be kept.
pub proof fn a_sign_in_reports_its_member(
    generation: u64,
    user: User,
    e: Error,
    error: &str,
    done: Msg,
    failed: Msg,
    lost: Msg,
)
    requires
        call_ensures(finish_login, (generation, Ok::<User, Error>(user)), done),
        call_ensures(finish_login, (generation, Err::<User, Error>(e)), failed),
        call_ensures(login_not_stored, (generation, error), lost),
    ensures
        done@ == (MsgModel::LoginComplete { generation, result: Ok(user) }),
        failed@ == (MsgModel::LoginComplete {
            generation,
            result: Err(error_view(e)),
        }),
        lost@ == (MsgModel::LoginFailed { generation, message: "token store: "@ + error@ }),
{
}

/// A look at the stored session reports whose it is under the number of the look, or why
/// there is none.
pub proof fn a_look_reports_under_its_number(
    generation: u64,
    user: User,
    reason: String,
    found: Msg,
    adopted: Msg,
    none: Msg,
    died: Msg,
)
    requires
        call_ensures(session_checked, (generation, Ok::<User, Error>(user)), found),
        call_ensures(
            session_rechecked,
            (generation, reason, Some(Ok::<User, Error>(user))),
            adopted,
        ),
        call_ensures(session_rechecked, (generation, reason, None), none),
        call_ensures(session_recheck_died, (generation,), died),
    ensures
        found@ == (MsgModel::Bootstrap { generation, result: Ok(user) }),
        adopted@ == (MsgModel::Bootstrap { generation, result: Ok(user) }),
        none@ matches MsgModel::Bootstrap { generation: g, result: Err(e) } && g == generation
            && e.message == reason@ && e.kind == TaskErrorKind::NoToken && e.code is None,
        died@ matches MsgModel::Bootstrap { generation: g, result: Err(e) } && g == generation
            && e.message == "session re-check ended unexpectedly"@ && e.kind
            == TaskErrorKind::NoToken,
{
}

/// A poll reports how many were never viewed, or hold something unread.
pub proof fn a_poll_reports_its_count(
    alerts: Vec<Alert>,
    convos: Vec<Conversation>,
    p: Poll,
    q: Poll,
)
    requires
        call_ensures(alerts_polled, (&Ok::<Vec<Alert>, Error>(alerts),), p),
        call_ensures(conversations_polled, (&Ok::<Vec<Conversation>, Error>(convos),), q),
        unread_alerts(alerts@) <= u32::MAX,
        unread_conversations(convos@) <= u32::MAX,
    ensures
        p matches Poll::Report(m) && m@ == MsgModel::Notice(
            "alerts:"@ + digits(unread_alerts(alerts@)),
        ),
        q matches Poll::Report(m) && m@ == MsgModel::Notice(
            "convos:"@ + digits(unread_conversations(convos@)),
        ),
{
}

/// A failure that ends the session is reported and ends the poller; any other is let
/// pass.
pub proof fn a_poll_ends_with_the_session(e: Error, p: Poll, q: Poll)
    requires
        call_ensures(alerts_polled, (&Err::<Vec<Alert>, Error>(e),), p),
        call_ensures(conversations_polled, (&Err::<Vec<Conversation>, Error>(e),), q),
    ensures
        p is Stop <==> q is Stop,
        p is Wait <==> q is Wait,
        q is Stop ==> (q matches Poll::Stop(m) && m@ == MsgModel::SessionLost(error_view(e))),
        e is NoToken ==> (p matches Poll::Stop(m) && (m@ matches MsgModel::SessionLost(v)
            && v.kind == TaskErrorKind::NoToken)),
        e is Other ==> p is Wait,
        e matches Error::Api { code, status, .. } ==> (status != 401 || code@ == "http_error"@
            ==> p is Wait) && (status == 401 && code@ != "http_error"@ ==> p is Stop),
{
}

/// The profile that is fetched is the member that was asked for; a name decides only
/// where there is no number.
pub proof fn a_number_goes_before_a_name(user_id: u32, found: Option<u32>, r: u32)
    requires
        call_ensures(resolve_profile_id, (user_id, found), r),
    ensures
        user_id > 0 ==> r == user_id,
        user_id == 0 && found is Some ==> r == found->0,
        user_id == 0 && found is None ==> r == 0,
{
}

/// A sign-out revokes both tokens, the refresh token before the access token, each under
/// its own name and none that is empty.
pub proof fn a_sign_out_revokes_both_tokens(t: TokenSet, r: Vec<Revocation>)
    requires
        call_ensures(revocations, (&t,), r),
    ensures
        ({
            let both = t.refresh_token@.len() > 0 && t.access_token@.len() > 0;
            &&& both ==> {
                &&& r@.len() == 2
                &&& r@[0].token@ == t.refresh_token@ && r@[0].hint@ == "refresh_token"@
                &&& r@[1].token@ == t.access_token@ && r@[1].hint@ == "access_token"@
            }
            &&& t.refresh_token@.len() == 0 && t.access_token@.len() > 0 ==> {
                &&& r@.len() == 1
                &&& r@[0].token@ == t.access_token@ && r@[0].hint@ == "access_token"@
            }
            &&& t.refresh_token@.len() > 0 && t.access_token@.len() == 0 ==> {
                &&& r@.len() == 1
                &&& r@[0].token@ == t.refresh_token@ && r@[0].hint@ == "refresh_token"@
            }
            &&& t.refresh_token@.len() == 0 && t.access_token@.len() == 0 ==> r@.len() == 0
        }),
{
    let s = revocations_of(r@);
    assert(s.len() == r@.len());
    if r@.len() > 0 {
        assert(s[0] == (r@[0].token@, r@[0].hint@));
    }
    if r@.len() > 1 {
        assert(s[1] == (r@[1].token@, r@[1].hint@));
    }
}

/// Where nothing could be sent, the refresh token counts as kept if there were tokens.
pub proof fn an_unsent_sign_out_names_the_refresh_token(
    tokens: Option<TokenSet>,
    r: Vec<String>,
)
    requires
        call_ensures(unsent_revocations, (&tokens,), r),
    ensures
        tokens is Some ==> r@.len() == 1 && r@[0]@ == "refresh_token"@,
        tokens is None ==> r@.len() == 0,
{
    let s = texts(r@);
    assert(s.len() == r@.len());
    if r@.len() > 0 {
        assert(s[0] == r@[0]@);
    }
}

/// A sign-out that could not forget its tokens says why; one that forgot them says which
/// of them the site kept, and with none of them kept all is well.
pub proof fn a_sign_out_says_what_was_kept(
    e: String,
    failed: Vec<String>,
    one: String,
    unforgotten: Msg,
    m: Msg,
)
    requires
        call_ensures(logged_out, (Err::<(), String>(e), &failed), unforgotten),
        call_ensures(logged_out, (Ok::<(), String>(()), &failed), m),
        one@ == "refresh_token"@,
    ensures
        unforgotten@ == MsgModel::LoggedOut(Err(e@)),
        failed@.len() == 0 ==> m@ == MsgModel::LoggedOut(Ok(())),
        failed@ == seq![one] ==> m@ == MsgModel::LoggedOut(
            Err(
                "the server kept "@ + "refresh token"@
                    + " valid — sign out in a browser to end the session"@,
            ),
        ),
{
    reveal_strlit("refresh_token");
    reveal_strlit("refresh token");
    assert(texts(failed@).len() == failed@.len());
    if failed@ == seq![one] {
        assert(texts(failed@) =~= seq![one@]);
        assert(crate::text::underscores_to_spaces(one@) =~= "refresh token"@);
    }
}

/// A file may be uploaded where it is one and within the limit; what is said otherwise
/// names it.
pub proof fn an_upload_keeps_to_the_limit(
    path: &str,
    is_file: bool,
    len: u64,
    limit: u64,
    r: Result<(), String>,
)
    requires
        call_ensures(check_upload, (path, is_file, len, limit), r),
    ensures
        r is Ok <==> is_file && len <= limit,
        !is_file ==> (r matches Err(s) && s@ == path@ + " is not a file."@),
        is_file && len > limit ==> (r matches Err(s) && s@ == path@ + " is "@ + digits(
            (len / 1_048_576) as nat,
        ) + " MB; the limit here is "@ + digits((limit / 1_048_576) as nat) + " MB."@),
{
}

/// An upload says what it belongs to.
pub proof fn an_upload_says_what_it_belongs_to(
    id: u32,
    thread: (String, String),
    node: (String, String),
    post: (String, String),
)
    requires
        call_ensures(upload_context, (AttachContext::Thread(id),), thread),
        call_ensures(upload_context, (AttachContext::Node(id),), node),
        call_ensures(upload_context, (AttachContext::Post(id),), post),
    ensures
        thread.0@ == "context[thread_id]"@ && thread.1@ == digits(id as nat),
        node.0@ == "context[node_id]"@ && node.1@ == digits(id as nat),
        post.0@ == "context[post_id]"@ && post.1@ == digits(id as nat),
{
}

/// A page of the latest posts is a page of the forum 0 with the very threads.
pub proof fn the_latest_posts_are_the_forum_zero(
    threads: Vec<Thread>,
    pagination: Pagination,
    r: ForumReply,
)
    requires
        call_ensures(latest_reply, (threads, pagination), r),
    ensures
        r.forum.node_id == 0 && r.forum.title@ == "Latest posts"@,
        r.threads@ == threads@ && r.sticky@.len() == 0 && r.pagination == pagination,
{
}

} // verus!
