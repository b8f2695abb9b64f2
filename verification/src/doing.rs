//! What the client's functions do: each leaves the state that the model says, and hands
//! back what it says.

use vstd::prelude::*;

use crate::actions::Action;
use crate::app::{App, AppModel, Pointer, Site};
use crate::effects::EffectModel;
use crate::frame::{msgs_of, Badge, Cap, Overlays, Zones};
use crate::goto::GoTarget;
use crate::input::{KeyRoute, PaletteEvent, TopScreen};
use crate::keys::{Area, Hit, KeyCode, KeyEvent, MouseEvent, Pointed};
use crate::mirror::FrameCell;
use crate::msg::Msg;
use crate::palette::Target;
use crate::paste::Paste;
use crate::pointer::{Click, Gesture, Wheel};
use crate::pointing::{a_plain_row_reads_as_its_characters, is_plain_cell, pressed_alone};
use crate::screens::{DraftRow, ScreenModel};
use crate::text::texts;
use crate::update::{UpdateConfig, UpdateModel};
use crate::url::{resolve_open_url, resolved, scheme_of, url_scheme};

verus! {

/// A report, an action, a key and an event of the pointer do what the model says.
pub proof fn what_comes_in_is_dealt_with(
    a: &mut App,
    msg: Msg,
    b: &mut App,
    action: Action,
    paste: Option<Paste>,
    c: &mut App,
    key: KeyEvent,
    top: TopScreen,
    route: KeyRoute,
    d: &mut App,
    me: MouseEvent,
    at: Pointed,
    r: Gesture,
)
    requires
        call_ensures(App::handle_msg, (a, msg), ()),
        call_ensures(App::execute_action, (b, action), paste),
        call_ensures(App::handle_key, (c, key, top), route),
        call_ensures(App::handle_mouse, (d, me, at), r),
    ensures
        final(a)@ == old(a)@.handled(msg@),
        final(b)@ == old(b)@.acted(action),
        (final(c)@, route) == old(c)@.keyed(key, top),
        old(d)@.moused(me, at, final(d)@, r),
{
}

/// The palette does what the model says, and a query whose time has come is looked up
/// while it is open.
pub proof fn the_palette_does_what_it_says(
    a: &mut App,
    b: &mut App,
    event: PaletteEvent,
    c: &mut App,
    due: Option<String>,
)
    requires
        call_ensures(App::open_palette, (a,), ()),
        call_ensures(App::palette_event, (b, event), ()),
        call_ensures(App::poll_palette_member, (c, due), ()),
    ensures
        final(a)@ == old(a)@.palette_opened(),
        final(b)@ == old(b)@.palette_done(event),
        due is None || old(c)@.palette is None ==> final(c)@ == old(c)@,
        due is Some && old(c)@.palette is Some ==> final(c)@ == (AppModel {
            effects: old(c)@.effects.push(EffectModel::FindPaletteMember { query: due->0@ }),
            ..old(c)@
        }),
{
}

/// A row of the palette and a chord lead where the model says.
pub proof fn rows_and_chords_lead_where_they_say(
    a: &mut App,
    target: Target,
    b: &mut App,
    go: GoTarget,
    to_top: bool,
)
    requires
        call_ensures(App::run_palette_target, (a, target), ()),
        call_ensures(App::go, (b, go), to_top),
    ensures
        final(a)@ == old(a)@.target_run(target@),
        final(b)@ == old(b)@.gone_to(go),
        to_top <==> go == GoTarget::Top && old(b)@.screens.len() > 0,
{
}

/// A paste is kept and handed back whole: the text in the form its field takes, with the
/// count of what was pasted; an empty one, and one that no field takes, comes back to
/// nobody.
pub proof fn a_paste_comes_back_for_its_field(
    a: &mut App,
    text: String,
    p: Option<Paste>,
    b: &mut App,
    ins: &str,
    n: usize,
)
    requires
        call_ensures(App::handle_paste, (a, text), p),
        call_ensures(App::insert_paste, (b, ins, n), ()),
        text@.len() <= usize::MAX,
    ensures
        final(a)@ == old(a)@.paste_begun(text@),
        text@.len() == 0 ==> p is None,
        text@.len() > 0 ==> match old(a)@.paste_form(text@) {
            Some(form) => p matches Some(paste) && paste.raw@ == form && paste.count == text@.len(),
            None => p is None,
        },
        final(b)@ == old(b)@.paste_inserted(ins@, n),
{
}

/// The paste key takes what the client copied itself, and the system's clipboard only
/// where it copied nothing; with neither, it says so.
pub proof fn the_paste_key_prefers_the_own_clipboard(
    a: &mut App,
    system: Option<String>,
    p: Option<Paste>,
)
    requires
        call_ensures(App::execute_action, (a, Action::PasteClipboard(system)), p),
        old(a)@.clipboard.len() <= usize::MAX,
        system is Some ==> system->0@.len() <= usize::MAX,
    ensures
        ({
            let own = old(a)@.clipboard;
            let text = if own.len() > 0 {
                own
            } else if system is Some {
                system->0@
            } else {
                seq![]
            };
            &&& text.len() > 0 ==> final(a)@ == old(a)@.paste_begun(text) && match old(
                a,
            )@.paste_form(text) {
                Some(form) => p matches Some(paste) && paste.raw@ == form && paste.count
                    == text.len(),
                None => p is None,
            }
            &&& text.len() == 0 ==> p is None && final(a)@ == (AppModel {
                status: "Nothing copied yet — drag, double-click, or use system clipboard."@,
                status_set_at: Some(old(a)@.clock),
                ..old(a)@
            })
        }),
{
}

/// No other action hands a paste back.
pub proof fn only_the_paste_key_pastes(a: &mut App, action: Action, p: Option<Paste>)
    requires
        call_ensures(App::execute_action, (a, action), p),
        !(action is PasteClipboard),
    ensures
        p is None,
{
}

/// The second click on a row, and one on the row that was selected, is Enter; any other
/// presses nothing.
pub proof fn a_row_is_opened_by_its_second_click(
    index: usize,
    was: Option<usize>,
    double: bool,
    r: Option<KeyEvent>,
)
    requires
        call_ensures(App::row_clicked, (index, was, double), r),
    ensures
        double || was == Some(index) ==> r == Some(pressed_alone(KeyCode::Enter)),
        !double && was != Some(index) ==> r is None,
{
}

/// Ctrl+C ends the run where nothing is selected, and nowhere else; the wheel and the
/// pointer's other events go as the model says.
pub proof fn ctrl_c_ends_the_run_where_nothing_is_selected(
    a: &mut App,
    quit: bool,
    b: App,
    pos: (u16, u16),
    code: KeyCode,
    w: Wheel,
    c: &mut App,
    at: Pointed,
    double: bool,
    click: Click,
)
    requires
        call_ensures(App::interrupt, (a,), quit),
        call_ensures(App::handle_wheel, (&b, pos, code), w),
        call_ensures(App::click_hit, (c, at, double), click),
    ensures
        final(a)@ == old(a)@.interrupted(),
        quit <==> old(a).pointer.selection is None,
        w == b@.wheeled(pos, code),
        (final(c)@, click) == old(c)@.clicked(at, double),
        final(c).pointer == old(c).pointer,
{
}

/// A right click opens what it named, or says that there is nothing to open.
pub proof fn a_right_click_opens_what_it_named(a: &mut App, url: Option<String>)
    requires
        call_ensures(App::right_click_hit, (a, url), ()),
    ensures
        url is Some ==> final(a)@ == old(a)@.url_opened(url->0@),
        url is None ==> final(a)@ == (AppModel {
            status: "Nothing here to open on the site."@,
            status_set_at: Some(old(a)@.clock),
            ..old(a)@
        }),
{
}

/// Time clears a toast that was up for four seconds, and shuts a look at the token store
/// that was out for two minutes; the frame is drawn again exactly where one of the two
/// happened.
pub proof fn time_clears_what_is_overdue(a: &mut App, redraw: bool)
    requires
        call_ensures(App::tick, (a,), redraw),
    ensures
        ({
            let before = old(a)@;
            let toast = before.status_set_at matches Some(t) && before.clock >= t + 4_000;
            let look = before.session.recovery_pending && (
            before.session.recovery_started_at matches Some(t) && before.clock >= t + 120_000);
            &&& redraw <==> toast || look
            &&& !toast && !look ==> final(a)@ == before
            &&& toast && !look ==> final(a)@ == (AppModel {
                status: final(a)@.status,
                status_set_at: None,
                ..before
            }) && final(a)@.status.len() == 0
            &&& look ==> !final(a)@.session.recovery_pending && final(a)@.me == before.me
            &&& look && before.me is None ==> final(a)@.screens.len() > 0
                && final(a)@.screens.last() is Login
        }),
{
}

/// Reports are taken in as the model says, and the reader of the input is started again
/// as long as it may be.
pub proof fn reports_are_drained(
    a: &mut App,
    msgs: Vec<Msg>,
    got: bool,
    b: &mut App,
    deaths: u32,
    most: u32,
    restart: bool,
)
    requires
        call_ensures(App::drain, (a, msgs), got),
        call_ensures(App::reader_died, (b, deaths, most), restart),
    ensures
        final(a)@ == old(a)@.drained(msgs_of(msgs@)),
        got <==> msgs@.len() > 0,
        final(b)@ == old(b)@.reader_lost(deaths, most),
        restart <==> deaths <= most,
        msgs_of(msgs@).len() == msgs@.len(),
        forall|i: int| 0 <= i < msgs@.len() ==> #[trigger] msgs_of(msgs@)[i] == msgs@[i]@,
{
}

/// A frame is due where something happened, where the write gate moved, and while
/// anything moves by itself; its crumbs, overlays, name and chip are those of the model.
pub proof fn a_frame_shows_the_model(
    a: App,
    dirty: bool,
    gate: u64,
    drawn: u64,
    due: bool,
    names: Vec<String>,
    crumbs: Vec<String>,
    capture: bool,
    over: Overlays,
    b: &mut App,
    title: &str,
    chip: Option<String>,
    band: Option<(u16, u16, u16, u16)>,
    width: u16,
    height: u16,
)
    requires
        call_ensures(App::frame_due, (&a, dirty, gate, drawn), due),
        call_ensures(App::crumbs, (&a, &names), crumbs),
        call_ensures(App::overlays, (&a, capture), over),
        call_ensures(App::name_window, (b, title), ()),
        call_ensures(App::update_chip, (&a,), chip),
        call_ensures(Pointer::paint_selection, (&a.pointer, width, height), band),
    ensures
        due <==> dirty || gate != drawn || a@.animates(gate),
        texts(crumbs@) == crate::frame::crumb_trail(a@.screens, texts(names@)),
        over == a@.overlaid(capture),
        final(b)@ == old(b)@.window_named(title@),
        chip is Some ==> a@.updater.state.chip() == Some(chip->0@),
        chip is None <==> a@.updater.state.chip() is None,
        band == a.pointer.painted(width, height),
{
}

/// A frame of four rows or more has its header in the first row, the keys and the status
/// in the last two and the body in all the rows between, side to side; the wheel then
/// counts in that body.
pub proof fn a_frame_is_laid_out_from_the_top(a: &mut App, area: Area, z: Zones)
    requires
        call_ensures(App::begin_frame, (a, area), z),
        area.height >= 4,
        area.y + area.height <= u16::MAX,
    ensures
        z.header == (Area { height: 1, ..area }),
        z.body == (Area { y: (area.y + 1) as u16, height: (area.height - 3) as u16, ..area }),
        z.keys == (Area { y: (area.y + area.height - 2) as u16, height: 1, ..area }),
        z.status == (Area { y: (area.y + area.height - 1) as u16, height: 1, ..area }),
        final(a)@ == (AppModel {
            pointer: Pointer { body_rect: z.body, ..old(a)@.pointer },
            ..old(a)@
        }),
{
}

/// A run begins with nobody, nothing asked for and the number one for its first list, and
/// its start, its sign-in and its sign-out go as the model says.
pub proof fn a_run_begins_with_nobody(
    site: Site,
    mouse: bool,
    update: UpdateConfig,
    clock: u64,
    a: App,
    b: &mut App,
    has_tokens: bool,
    c: &mut App,
    d: &mut App,
    e: &mut App,
    f: &mut App,
)
    requires
        call_ensures(App::new, (site, mouse, update, clock), a),
        call_ensures(App::bootstrap, (b, has_tokens), ()),
        call_ensures(App::logout, (c,), ()),
        call_ensures(App::check_for_updates_now, (d,), ()),
        call_ensures(App::schedule_startup_update_check, (e,), ()),
        call_ensures(App::autoload_more, (f,), ()),
    ensures
        a@.screens.len() == 0 && a@.me is None && a@.effects.len() == 0,
        a@.alerts_unread == 0 && a@.convos_unread == 0,
        a@.palette is None && !a@.show_help && !a@.chord && !a@.should_quit && !a@.pollers,
        a@.site == site && a@.clock == clock && a@.pointer.enabled == mouse,
        a@.status == "Starting…"@ && a@.status_set_at is None && a@.clipboard.len() == 0,
        a@.updater.cfg == update && a@.updater.state == UpdateModel::Idle && !a@.updater.task,
        !a@.session.bootstrap_retry_needed && !a@.session.recovery_tried
            && !a@.session.recovery_pending && !a@.session.login_task,
        a@.minted.next_list_seq == 1,
        a@.pointer.selection is None && a@.pointer.press_pos is None && a@.pointer.click_count == 0,
        final(b)@ == old(b)@.bootstrapped(has_tokens),
        final(c)@ == old(c)@.logged_out(),
        final(d)@ == old(d)@.update_asked(),
        final(e)@ == old(e)@.startup_check(),
        final(f)@ == old(f)@.autoloaded(),
{
}

/// A link is resolved as the model says, and its scheme is what stands before its colon.
pub proof fn a_link_is_resolved(
    url: &str,
    base: &str,
    r: Result<String, String>,
    scheme: Option<String>,
)
    requires
        call_ensures(resolve_open_url, (url, base), r),
        call_ensures(url_scheme, (url,), scheme),
    ensures
        r is Ok ==> resolved(url@, base@) == Ok::<Seq<char>, Seq<char>>(r->Ok_0@),
        r is Err ==> resolved(url@, base@) == Err::<Seq<char>, Seq<char>>(r->Err_0@),
        scheme is Some ==> scheme_of(url@) == Some(scheme->0@),
        scheme is None <==> scheme_of(url@) is None,
{
}

/// The drafts that were read are the ones on show.
pub proof fn the_drafts_that_were_read_are_shown(a: &mut App, rows: Vec<DraftRow>)
    requires
        call_ensures(App::refresh_drafts, (a, rows), ()),
        old(a)@.screens.len() > 0,
        old(a)@.screens.last() is Drafts,
    ensures
        final(a)@.screens.len() == old(a)@.screens.len(),
        final(a)@.screens.last() matches ScreenModel::Drafts(d) && d.rows == rows@,
{
}

/// Each badge can be clicked in its columns of the header's row and opens its tab, and each
/// cap in its columns of the keys' row and presses its key; all of them, in their order.
pub proof fn badges_and_caps_are_where_they_are_drawn(
    z: Zones,
    badges: Vec<Badge>,
    caps: Vec<Cap>,
    b: Vec<(Area, Hit)>,
    c: Vec<(Area, Hit)>,
    i: int,
)
    requires
        call_ensures(Zones::badges, (&z, &badges), b),
        call_ensures(Zones::caps, (&z, &caps), c),
        z.header.y < u16::MAX && z.keys.y < u16::MAX,
    ensures
        b@.len() == badges@.len(),
        c@.len() == caps@.len(),
        0 <= i < badges@.len() && badges@[i].x + badges@[i].width <= u16::MAX ==> b@[i].0 == (Area {
            x: badges@[i].x,
            y: z.header.y,
            width: badges@[i].width,
            height: 1,
        }),
        0 <= i < badges@.len() ==> b@[i].1 == Hit::Badge(badges@[i].tab),
        0 <= i < caps@.len() && caps@[i].x + caps@[i].width <= u16::MAX ==> c@[i].0 == (Area {
            x: caps@[i].x,
            y: z.keys.y,
            width: caps@[i].width,
            height: 1,
        }),
        0 <= i < caps@.len() ==> c@[i].1 == Hit::Key(caps@[i].key),
{
}

/// A frame that was taken in reads as it was drawn: row by row and, where its cells are
/// those of plain text, character by character; nothing else of the pointer changes.
pub proof fn a_frame_reads_as_it_was_drawn(
    p: &mut Pointer,
    frame: Vec<Vec<FrameCell>>,
    y: int,
    x: int,
)
    requires
        call_ensures(Pointer::capture_screen, (p, &frame), ()),
        0 <= y < frame@.len(),
        0 <= x < frame@[y]@.len() <= 65535,
        forall|k: int| 0 <= k < frame@[y]@.len() ==> is_plain_cell(#[trigger] frame@[y]@[k]),
    ensures
        final(p).screen_rows@.len() == frame@.len() && final(p).screen_cols@.len() == frame@.len(),
        final(p).screen_rows@[y]@.len() == frame@[y]@.len(),
        final(p).screen_rows@[y]@[x] == frame@[y]@[x].symbol@[0],
        final(p).screen_cols@[y]@.len() == frame@[y]@.len() + 1,
        final(p).screen_cols@[y]@[x] == x,
        final(p).screen_cols@[y]@.last() == frame@[y]@.len(),
        final(p).selection == old(p).selection && final(p).press_pos == old(p).press_pos,
        final(p).click_count == old(p).click_count && final(p).enabled == old(p).enabled,
        final(p).body_rect == old(p).body_rect && final(p).last_click_at == old(p).last_click_at
            && final(p).last_click_pos == old(p).last_click_pos,
{
    a_plain_row_reads_as_its_characters(frame@[y]@, x);
}

} // verus!
