//! What the pointer does: which texts it copies, what its clicks open, and how a frame
//! reads under it.

use vstd::prelude::*;

use crate::app::{AppModel, Pointer, Selection};
use crate::effects::EffectModel;
use crate::frame::stretch;
use crate::keys::{
    Area, Hit, KeyCode, KeyEvent, KeyModifiers, MouseEvent, MouseKind, Pointed,
};
use crate::mirror::{glyph, is_run, kin, row_of, row_wf, without_tail, word_char, FrameCell};
use crate::pointer::{inside, Click, Gesture, RightClick, Wheel};
use crate::screens::{InboxPane, ScreenModel, ThreadViewModel};
use crate::text::{digits, joined, trimmed_end, white_space};
use crate::visiting::opens_inbox;

verus! {

/// The app with the pointer's button up and nothing selected.
pub open spec fn let_go(app: AppModel) -> AppModel {
    AppModel { pointer: Pointer { press_pos: None, selection: None, ..app.pointer }, ..app }
}

/// A key without modifiers.
pub open spec fn pressed_alone(code: KeyCode) -> KeyEvent {
    KeyEvent {
        code,
        modifiers: KeyModifiers {
            shift: false,
            control: false,
            alt: false,
            logo: false,
            hyper: false,
            meta: false,
        },
    }
}

/// A click, press and release in one cell, acts on what lies under it, and on nothing
/// else.
pub proof fn a_click_acts_on_what_lies_under_it(
    app: AppModel,
    me: MouseEvent,
    at: Pointed,
    next: AppModel,
    r: Gesture,
)
    requires
        me.kind == MouseKind::LeftUp,
        app.pointer.enabled,
        app.pointer.click_count <= 1,
        app.pointer.press_pos == Some((me.column, me.row)),
        app.pointer.selection matches Some(s) ==> s.anchor == s.end,
        app.moused(me, at, next, r),
    ensures
        r is Click,
        match at.hit {
            None => next == let_go(app) && r == Gesture::Click(Click::Done),
            Some(Hit::CloseOverlay) => {
                &&& r == Gesture::Click(Click::Done)
                &&& next.effects == app.effects
                &&& app.palette is Some ==> next == (AppModel {
                    palette: None,
                    status: next.status,
                    ..let_go(app)
                }) && next.status.len() == 0
                &&& app.palette is None && app.show_help ==> next == (AppModel {
                    show_help: false,
                    ..let_go(app)
                })
                &&& app.palette is None && !app.show_help && app.chord ==> next == (AppModel {
                    chord: false,
                    ..let_go(app)
                })
            },
            Some(Hit::Key(Some(k))) => next == let_go(app) && r == Gesture::Click(Click::Key(k)),
            Some(Hit::Key(None)) => next == let_go(app) && r == Gesture::Click(Click::Done),
            Some(Hit::Badge(tab)) => opens_inbox(let_go(app), next, tab),
            Some(Hit::Tab(tab)) => {
                &&& next.screens.len() > 0
                &&& next.screens.last() matches ScreenModel::Inbox(b) && b.tab == tab && b.focus
                    == InboxPane::List
                &&& app.screens.len() > 0 && app.screens.last() is Inbox ==> next.effects
                    == app.effects && next.screens.drop_last() == app.screens.drop_last()
            },
            Some(Hit::PaletteRow(i)) => next == let_go(app) && r == Gesture::Click(
                if app.palette is Some {
                    Click::PaletteRow(i)
                } else {
                    Click::Done
                },
            ),
            Some(Hit::Link(url)) => r == Gesture::Click(Click::Done) && next == let_go(
                app,
            ).popup_closed().url_opened(url@),
            Some(Hit::Video(n)) => next == let_go(app) && r == Gesture::Click(
                Click::Video { post: at.post, n },
            ),
            Some(Hit::Image(n)) => {
                &&& next == let_go(app)
                &&& r matches Gesture::Click(Click::Image { post, key }) && {
                    &&& post == at.post
                    &&& 1 <= n <= 9 ==> (key matches Some(k) && k.modifiers
                        == KeyModifiers::none() && (k.code matches KeyCode::Char(c) && c as int
                        == '0' as int + n))
                    &&& !(1 <= n <= 9) ==> key is None
                }
            },
            Some(Hit::Field(f)) => next == let_go(app) && r == Gesture::Click(Click::Field(f)),
            Some(Hit::Row(i)) => next == let_go(app) && r == Gesture::Click(
                Click::Row { index: i, double: false },
            ),
            Some(Hit::Post(i)) => next == let_go(app) && r == Gesture::Click(Click::Post(i)),
            Some(Hit::Crumb(i)) => next == let_go(app) && r == Gesture::Click(Click::Crumb(i)),
            Some(Hit::Pane(_)) => next == let_go(app) && r == Gesture::Click(Click::Pane),
        },
{
    reveal(AppModel::releases);
    match at.hit {
        Some(Hit::Tab(_)) => {
            if app.screens.len() > 0 && app.screens.last() is Inbox {
                assert(next.screens.drop_last() =~= app.screens.drop_last());
            }
        },
        Some(Hit::Badge(tab)) => {
            if !(app.screens.len() > 0 && app.screens.last() is Inbox) {
                assert(next.screens.drop_last() =~= let_go(app).screens);
            }
        },
        _ => {},
    }
}

/// The second press on a target of the interface opens it, and says that it is the
/// second.
pub proof fn a_double_click_opens(
    app: AppModel,
    me: MouseEvent,
    i: usize,
    next: AppModel,
    r: Gesture,
    t: u64,
)
    requires
        me.kind == MouseKind::LeftDown,
        app.pointer.enabled,
        app.pointer.last_click_at == Some(t),
        t <= app.clock < t + 400,
        app.pointer.last_click_pos == (me.column, me.row),
        app.pointer.click_count == 1,
        app.moused(
            me,
            Pointed { hit: Some(Hit::Row(i)), text_like: false, post: None },
            next,
            r,
        ),
    ensures
        r == Gesture::Click(Click::Row { index: i, double: true }),
        next.screens == app.screens && next.effects == app.effects,
        next.pointer.selection is None && next.pointer.click_count == 2,
{
    reveal(AppModel::presses);
}

/// Presses belong to one gesture where less than four tenths of a second and at most two
/// columns of one row lie between them; any other press begins a new one, with a band of
/// its own cell.
pub proof fn a_gesture_is_quick_and_narrow(
    app: AppModel,
    me: MouseEvent,
    at: Pointed,
    next: AppModel,
    r: Gesture,
    t: u64,
)
    requires
        me.kind == MouseKind::LeftDown,
        app.pointer.enabled,
        app.pointer.last_click_at == Some(t),
        app.pointer.click_count <= 3,
        app.moused(me, at, next, r),
    ensures
        ({
            let (x, y) = app.pointer.last_click_pos;
            let near = y == me.row && -2 <= x - me.column <= 2;
            let quick = app.clock < t + 400;
            &&& next.pointer.click_count == (if near && quick && app.pointer.click_count < 3 {
                app.pointer.click_count + 1
            } else {
                1
            })
            &&& next.pointer.last_click_at == Some(app.clock)
            &&& !(near && quick) ==> {
                &&& r == Gesture::Click(Click::Done)
                &&& next.pointer.selection == Some(
                    Selection { anchor: (me.column, me.row), end: (me.column, me.row) },
                )
                &&& next == (AppModel { pointer: next.pointer, ..app })
            }
        }),
{
    reveal(AppModel::presses);
    crate::pointer::a_gesture_has_at_most_three_presses(
        app,
        (me.column, me.row),
        at,
        next,
        r->Click_0,
    );
    let a = app.press_counted((me.column, me.row));
    let b = a.with_pointer(Pointer { selection: None, ..a.pointer });
    assert(b.clicked(at, true).0.pointer == b.pointer);
}

/// What was copied: it is on the client's own clipboard, it is handed to the terminal,
/// and the reader is told how much it is. Of an empty text nothing is copied or said.
pub open spec fn copies(
    app: AppModel,
    next: AppModel,
    text: Seq<char>,
    before: Seq<char>,
    behind: Seq<char>,
) -> bool {
    if text.len() == 0 {
        next.clipboard == app.clipboard && next.effects == app.effects && next.status == app.status
    } else {
        &&& next.clipboard == text
        &&& next.effects == app.effects.push(EffectModel::CopyText { text })
        &&& next.status == before + digits(text.len()) + behind
        &&& next.status_set_at == Some(app.clock)
    }
}

/// A drag that ends copies the text under its band, whichever way it was drawn, and
/// leaves no band behind.
pub proof fn a_drag_copies_what_it_covers(
    app: AppModel,
    me: MouseEvent,
    at: Pointed,
    next: AppModel,
    r: Gesture,
    x0: u16,
    x1: u16,
    y0: u16,
    y1: u16,
)
    requires
        me.kind == MouseKind::LeftUp,
        app.pointer.enabled,
        app.pointer.click_count <= 1,
        x0 <= x1 && y0 <= y1 && (x0, y0) != (x1, y1),
        app.pointer.selection == Some(Selection { anchor: (x0, y0), end: (x1, y1) })
            || app.pointer.selection == Some(Selection { anchor: (x1, y1), end: (x0, y0) })
            || app.pointer.selection == Some(Selection { anchor: (x0, y1), end: (x1, y0) })
            || app.pointer.selection == Some(Selection { anchor: (x1, y0), end: (x0, y1) }),
        app.moused(me, at, next, r),
    ensures
        r == Gesture::Click(Click::Done),
        next.pointer.selection is None && next.pointer.press_pos is None,
        next.screens == app.screens,
        copies(
            app,
            next,
            app.pointer.text_in(x0, y0, x1, y1),
            "Copied "@,
            " chars to your clipboard (and Ctrl+Y)"@,
        ),
        app.interrupted().pointer.selection is None,
        app.interrupted().screens == app.screens,
        copies(
            app,
            app.interrupted(),
            app.pointer.text_in(x0, y0, x1, y1),
            "Copied "@,
            " chars to clipboard (selection cleared)"@,
        ),
{
    reveal(AppModel::releases);
}

/// Ctrl+C with nothing selected copies nothing.
pub proof fn nothing_selected_copies_nothing(app: AppModel)
    requires
        app.pointer.selection is None,
    ensures
        app.interrupted() == app,
{
}

/// Moving with the button down draws the band on from where it began.
pub proof fn a_drag_draws_its_band_on(
    app: AppModel,
    me: MouseEvent,
    at: Pointed,
    next: AppModel,
    r: Gesture,
)
    requires
        me.kind == MouseKind::LeftDrag,
        app.pointer.enabled,
        app.moused(me, at, next, r),
    ensures
        r == Gesture::Done,
        next == (AppModel {
            pointer: Pointer { selection: next.pointer.selection, ..app.pointer },
            ..app
        }),
        match app.pointer.selection {
            Some(s) => next.pointer.selection == Some(
                Selection { anchor: s.anchor, end: (me.column, me.row) },
            ),
            None => next.pointer.selection is None,
        },
{
}

/// A second press on running text copies the word there, and a third the whole line;
/// the band is then the word or the line.
pub proof fn repeated_presses_copy_words_and_lines(
    app: AppModel,
    me: MouseEvent,
    at: Pointed,
    next: AppModel,
    r: Gesture,
    t: u64,
)
    requires
        me.kind == MouseKind::LeftDown,
        app.pointer.enabled && app.pointer.wf(),
        at.hit is None || at.text_like,
        app.pointer.last_click_at == Some(t),
        t <= app.clock < t + 400,
        app.pointer.last_click_pos == (me.column, me.row),
        me.row < app.pointer.screen_rows@.len(),
        me.column + 2 <= app.pointer.screen_cols@[me.row as int]@.len(),
        app.moused(me, at, next, r),
    ensures
        r == Gesture::Click(Click::Done),
        next.screens == app.screens,
        app.pointer.click_count == 1 ==> {
            let row = app.pointer.screen_rows@[me.row as int]@;
            let cols = app.pointer.screen_cols@[me.row as int]@;
            let under = glyph(row, cols, me.column as int);
            &&& under is Some && !white_space(under->0) ==> exists|s: u16, e: u16|
                {
                    &&& #[trigger] is_run(row, cols, me.column as int, s as int, e as int)
                    &&& next.pointer.selection == Some(
                        Selection { anchor: (s, me.row), end: (e, me.row) },
                    )
                    &&& copies(
                        app,
                        next,
                        app.pointer.text_in(s, me.row, e, me.row),
                        "Copied word ("@,
                        " chars) to clipboard (and Ctrl+Y)"@,
                    )
                }
            &&& under is None || white_space(under->0) ==> next.clipboard == app.clipboard
                && next.effects == app.effects
        },
        app.pointer.click_count == 2 ==> {
            let last = (app.pointer.screen_cols@[me.row as int]@.len() - 2) as u16;
            &&& next.pointer.selection == Some(
                Selection { anchor: (0, me.row), end: (last, me.row) },
            )
            &&& copies(
                app,
                next,
                app.pointer.text_in(0, me.row, last, me.row),
                "Copied line ("@,
                " chars) to clipboard (and Ctrl+Y)"@,
            )
        },
{
    reveal(AppModel::presses);
    let a = app.press_counted((me.column, me.row));
    let row = app.pointer.screen_rows@[me.row as int]@;
    let cols = app.pointer.screen_cols@[me.row as int]@;
    assert(row_wf(row, cols));
    if app.pointer.click_count == 1 {
        let word = choose|word: Option<(u16, u16)>|
            {
                &&& #[trigger] a.pointer.word_at(me.column, me.row, word)
                &&& next == match word {
                    Some(b) => a.row_selected(me.row, b, "Copied word ("@),
                    None => a,
                }
            };
        if let Some((s, e)) = word {
            assert(is_run(row, cols, me.column as int, s as int, e as int));
            assert(kin(row, cols, me.column as int, me.column as int));
            assert(a.pointer.text_in(s, me.row, e, me.row) == app.pointer.text_in(
                s,
                me.row,
                e,
                me.row,
            )) by {
                assert(a.pointer.lines(s, me.row, e, me.row) =~= app.pointer.lines(
                    s,
                    me.row,
                    e,
                    me.row,
                ));
            }
        }
    } else if app.pointer.click_count == 2 {
        let last = (cols.len() - 2) as u16;
        assert(a.pointer.lines(0, me.row, last, me.row) =~= app.pointer.lines(
            0,
            me.row,
            last,
            me.row,
        ));
    }
}

/// A right click names what it lies on, and changes nothing.
pub proof fn a_right_click_names_what_it_lies_on(
    app: AppModel,
    me: MouseEvent,
    at: Pointed,
    next: AppModel,
    r: Gesture,
)
    requires
        me.kind == MouseKind::RightDown,
        app.pointer.enabled,
        app.moused(me, at, next, r),
    ensures
        next == app,
        match at.hit {
            Some(Hit::Link(url)) => r matches Gesture::Right(RightClick::Link(u)) && u@ == url@,
            Some(Hit::Row(i)) => r == Gesture::Right(RightClick::Row(i)),
            Some(Hit::Post(i)) => r == Gesture::Right(RightClick::Post(i)),
            Some(Hit::Pane(_)) => r == Gesture::Right(RightClick::Here),
            Some(Hit::Image(_)) => r == Gesture::Right(RightClick::Here),
            _ => r == Gesture::Right(RightClick::Nothing),
        },
{
}

/// The wheel over the body is three presses of an arrow key: for the palette where it is
/// open, for nobody while the key card or the chord is up, else for the screen. Elsewhere
/// it does nothing.
pub proof fn the_wheel_presses_an_arrow_three_times(
    app: AppModel,
    me: MouseEvent,
    at: Pointed,
    next: AppModel,
    r: Gesture,
)
    requires
        me.kind == MouseKind::ScrollUp || me.kind == MouseKind::ScrollDown,
        app.pointer.enabled,
        app.pointer.body_rect.x + app.pointer.body_rect.width <= u16::MAX,
        app.pointer.body_rect.y + app.pointer.body_rect.height <= u16::MAX,
        app.moused(me, at, next, r),
    ensures
        ({
            let b = app.pointer.body_rect;
            let over = b.x <= me.column < b.x + b.width && b.y <= me.row < b.y + b.height;
            let key = pressed_alone(
                if me.kind == MouseKind::ScrollUp {
                    KeyCode::Up
                } else {
                    KeyCode::Down
                },
            );
            &&& next == app
            &&& r == Gesture::Wheel(
                if over && app.palette is Some {
                    Wheel::Palette { key, times: 3 }
                } else if over && !app.show_help && !app.chord {
                    Wheel::Screen { key, times: 3 }
                } else {
                    Wheel::Nothing
                },
            )
        }),
{
}

/// A cell of text: one character, one column, no picture.
pub open spec fn is_plain_cell(c: FrameCell) -> bool {
    !c.marked && c.width == 1 && c.symbol@.len() == 1 && c.symbol@[0] != '\x1b'
}

/// A row of text reads as its characters, one a column.
pub proof fn a_plain_row_reads_as_its_characters(cells: Seq<FrameCell>, i: int)
    requires
        cells.len() <= 65535,
        forall|k: int| 0 <= k < cells.len() ==> is_plain_cell(#[trigger] cells[k]),
        0 <= i < cells.len(),
    ensures
        row_of(cells).0.len() == cells.len() && row_of(cells).1.len() == cells.len(),
        row_of(cells).0[i] == cells[i].symbol@[0],
        row_of(cells).1[i] == i,
        row_of(cells).2 == 0,
    decreases cells.len(),
{
    reveal_with_fuel(row_of, 2);
    let rest = cells.drop_last();
    assert(is_plain_cell(cells[cells.len() - 1]));
    assert forall|k: int| 0 <= k < rest.len() implies is_plain_cell(#[trigger] rest[k]) by {
        assert(is_plain_cell(cells[k]));
    }
    if rest.len() > 0 {
        a_plain_row_reads_as_its_characters(
            rest,
            if i < rest.len() {
                i
            } else {
                0
            },
        );
    }
    assert(!cells.last().symbol@.contains('\x1b'));
}

/// One more cell behind a row: a column that a wide character covers adds nothing, a
/// cell of a picture reads as a space, and any other as its symbol; each column starts
/// where the row ended before it.
pub proof fn a_cell_adds_what_it_shows(cells: Seq<FrameCell>, c: FrameCell)
    ensures
        ({
            let (chars, starts, left) = row_of(cells);
            let (more, at, then) = row_of(cells.push(c));
            &&& at == starts.push(chars.len() as usize)
            &&& left > 0 ==> more == chars && then == left - 1
            &&& left == 0 && (c.marked || c.symbol@.contains('\x1b')) ==> more == chars + seq![' ']
                && then == 0
            &&& left == 0 && !c.marked && !c.symbol@.contains('\x1b') ==> {
                &&& more == chars + c.symbol@
                &&& c.width <= 1 ==> then == 0
                &&& c.width > 1 ==> then == c.width - 1
            }
        }),
{
    assert(cells.push(c).drop_last() =~= cells);
    let chars = row_of(cells).0;
    assert(chars.push(' ') =~= chars + seq![' ']);
}

/// No escape sequence of a picture is ever part of what a row reads as.
pub proof fn no_picture_is_copied(cells: Seq<FrameCell>)
    ensures
        !row_of(cells).0.contains('\x1b'),
    decreases cells.len(),
{
    if cells.len() > 0 {
        no_picture_is_copied(cells.drop_last());
        let chars = row_of(cells.drop_last()).0;
        let all = row_of(cells).0;
        let c = cells.last();
        if all.contains('\x1b') {
            let i = choose|i: int| 0 <= i < all.len() && all[i] == '\x1b';
            if i < chars.len() {
                assert(chars[i] == '\x1b');
            } else {
                assert(c.symbol@[i - chars.len()] == '\x1b');
            }
        }
    }
}

/// The column of a character is read as it, and so is every column that it covers.
pub proof fn a_wide_character_is_read_in_all_its_columns(row: Seq<char>, cols: Seq<usize>, c: int)
    requires
        row_wf(row, cols),
        0 <= c < cols.len() - 1,
    ensures
        cols[c] < cols[c + 1] ==> glyph(row, cols, c) == Some(row[cols[c] as int]),
        c > 0 && cols[c] == cols[c + 1] ==> glyph(row, cols, c) == glyph(row, cols, c - 1),
{
}

/// The part of a row that a band covers: from where its first column starts to where its
/// last one ends.
pub open spec fn part(p: Pointer, y: int, x0: u16, x1: u16) -> Seq<char> {
    let cols = p.screen_cols@[y]@;
    p.screen_rows@[y]@.subrange(cols[x0 as int] as int, cols[x1 + 1] as int)
}

/// A band of one row copies its part of the row, without the white space behind it.
pub proof fn a_band_of_one_row_is_its_part(p: Pointer, x0: u16, x1: u16, y: u16)
    requires
        p.wf(),
        y < p.screen_rows@.len(),
        x0 <= x1,
        x1 + 1 < p.screen_cols@[y as int]@.len(),
    ensures
        p.text_in(x0, y, x1, y) == trimmed_end(part(p, y as int, x0, x1)),
{
    let lines = p.lines(x0, y, x1, y);
    let one = trimmed_end(part(p, y as int, x0, x1));
    assert(lines =~= seq![one]);
    reveal_with_fuel(without_tail, 2);
    if one.len() == 0 {
        assert(lines.drop_last() =~= seq![]);
        assert(p.text_in(x0, y, x1, y) =~= one);
    }
}

/// One row more adds its part behind a line break; a row of white space adds nothing, as
/// long as nothing but such rows follow.
pub proof fn a_band_grows_by_a_line(p: Pointer, x0: u16, x1: u16, y0: u16, y1: u16)
    requires
        p.wf(),
        y0 < y1 < p.screen_rows@.len(),
        x0 <= x1,
        x1 + 1 < p.screen_cols@[y1 as int]@.len(),
    ensures
        ({
            let last = trimmed_end(part(p, y1 as int, x0, x1));
            let above = (y1 - 1) as u16;
            &&& last.len() == 0 ==> p.text_in(x0, y0, x1, y1) == p.text_in(x0, y0, x1, above)
            &&& last.len() > 0 ==> p.text_in(x0, y0, x1, y1) == joined(
                p.lines(x0, y0, x1, above),
                seq!['\n'],
            ) + seq!['\n'] + last
            &&& p.lines(x0, y0, x1, above).len() == y1 - y0
        }),
{
    let above = (y1 - 1) as u16;
    let last = trimmed_end(part(p, y1 as int, x0, x1));
    let all = p.lines(x0, y0, x1, y1);
    reveal_strlit("\n");
    assert("\n"@ =~= seq!['\n']);
    assert(all.len() == y1 - y0 + 1);
    assert(all.last() == last);
    assert(all.drop_last() =~= p.lines(x0, y0, x1, above));
}

/// A selection spans from the smaller to the larger of its two columns and rows.
pub proof fn a_selection_spans_its_corners(s: Selection)
    ensures
        ({
            let (x0, y0, x1, y1) = s.corners();
            &&& x0 <= s.anchor.0 <= x1 && x0 <= s.end.0 <= x1
            &&& y0 <= s.anchor.1 <= y1 && y0 <= s.end.1 <= y1
            &&& (x0 == s.anchor.0 && x1 == s.end.0) || (x0 == s.end.0 && x1 == s.anchor.0)
            &&& (y0 == s.anchor.1 && y1 == s.end.1) || (y0 == s.end.1 && y1 == s.anchor.1)
        }),
{
}

/// The cells that are highlighted are those of the selection that lie on the frame.
pub proof fn the_selection_is_painted_where_it_is_on_the_frame(
    p: Pointer,
    s: Selection,
    width: u16,
    height: u16,
    x: u16,
    y: u16,
)
    requires
        p.selection == Some(s),
    ensures
        ({
            let across = (s.anchor.0 <= x <= s.end.0) || (s.end.0 <= x <= s.anchor.0);
            let down = (s.anchor.1 <= y <= s.end.1) || (s.end.1 <= y <= s.anchor.1);
            across && down && x < width && y < height <==> (p.painted(width, height) matches Some(c)
                && c.0 <= x <= c.2 && c.1 <= y <= c.3)
        }),
{
}

/// A target of one row can be clicked in its own columns of that row and nowhere else.
pub proof fn a_stretch_is_one_row(x: u16, y: u16, width: u16, cx: u16, cy: u16)
    requires
        y < u16::MAX,
        x + width <= u16::MAX,
    ensures
        inside(stretch(x, y, width), cx, cy) <==> cy == y && x <= cx < x + width,
{
}

/// A cell is inside an area where it is in its columns and in its rows.
pub proof fn a_cell_is_inside_its_area(a: Area, x: u16, y: u16)
    requires
        a.x + a.width <= u16::MAX,
        a.y + a.height <= u16::MAX,
    ensures
        inside(a, x, y) <==> a.x <= x < a.x + a.width && a.y <= y < a.y + a.height,
{
}

/// A word, or a run of punctuation, holds no white space and nothing of the other kind, and
/// goes on to both sides as far as that holds.
pub proof fn a_run_is_all_of_one_kind(
    row: Seq<char>,
    cols: Seq<usize>,
    x: int,
    s: int,
    e: int,
    c: int,
)
    requires
        is_run(row, cols, x, s, e),
        s <= c <= e,
    ensures
        s <= x <= e,
        glyph(row, cols, c) matches Some(g) && !white_space(g) && (glyph(row, cols, x) matches
            Some(h) && word_char(g) == word_char(h)),
        s > 0 ==> (glyph(row, cols, s - 1) matches Some(g) ==> white_space(g) || word_char(g)
            != word_char(glyph(row, cols, x)->0)),
        e < cols.len() - 2 ==> (glyph(row, cols, e + 1) matches Some(g) ==> white_space(g)
            || word_char(g) != word_char(glyph(row, cols, x)->0)),
{
    assert(kin(row, cols, c, x));
}

/// A cell behind the end of its row counts as the last of it.
pub proof fn behind_a_row_is_its_last_column(p: Pointer, x: u16, y: u16, r: Option<(u16, u16)>)
    requires
        p.wf(),
        y < p.screen_rows@.len(),
        p.screen_cols@[y as int]@.len() >= 2,
        x + 2 > p.screen_cols@[y as int]@.len(),
        p.word_at(x, y, r),
    ensures
        p.word_at((p.screen_cols@[y as int]@.len() - 2) as u16, y, r),
{
    assert(row_wf(p.screen_rows@[y as int]@, p.screen_cols@[y as int]@));
}

/// A band that reaches below the frame ends with its last row.
pub proof fn a_band_ends_with_the_frame(p: Pointer, x0: u16, x1: u16, y0: u16, y1: u16)
    requires
        0 < p.screen_rows@.len() <= u16::MAX,
        y1 >= p.screen_rows@.len(),
    ensures
        p.text_in(x0, y0, x1, y1) == p.text_in(
            x0,
            y0,
            x1,
            (p.screen_rows@.len() - 1) as u16,
        ),
{
    let last = (p.screen_rows@.len() - 1) as u16;
    assert(p.lines(x0, y0, x1, y1) =~= p.lines(x0, y0, x1, last));
}

/// A band that reaches behind the end of a row ends with its last column.
pub proof fn a_band_ends_with_its_row(p: Pointer, x0: u16, x1: u16, y: u16)
    requires
        p.wf(),
        y < p.screen_rows@.len(),
        p.screen_cols@[y as int]@.len() >= 2,
        x1 + 2 > p.screen_cols@[y as int]@.len(),
    ensures
        p.text_in(x0, y, x1, y) == p.text_in(
            x0,
            y,
            (p.screen_cols@[y as int]@.len() - 2) as u16,
            y,
        ),
{
    let last = (p.screen_cols@[y as int]@.len() - 2) as u16;
    assert(row_wf(p.screen_rows@[y as int]@, p.screen_cols@[y as int]@));
    assert(p.lines(x0, y, x1, y) =~= p.lines(x0, y, last, y));
}

/// The release of a repeated press has nothing left to do, nor has one that no press
/// belongs to.
pub proof fn a_release_without_its_press_does_nothing(
    app: AppModel,
    me: MouseEvent,
    at: Pointed,
    next: AppModel,
    r: Gesture,
)
    requires
        me.kind == MouseKind::LeftUp,
        app.pointer.enabled,
        app.moused(me, at, next, r),
    ensures
        app.pointer.click_count > 1 ==> r == Gesture::Click(Click::Done) && next == (AppModel {
            pointer: Pointer { press_pos: None, ..app.pointer },
            ..app
        }),
        app.pointer.click_count <= 1 && app.pointer.selection is None && app.pointer.press_pos
            != Some((me.column, me.row)) ==> r == Gesture::Click(Click::Done) && next == let_go(app),
{
    reveal(AppModel::releases);
}

/// A double click acts on a target of the interface as a click does; only a row is told
/// of it.
pub proof fn a_double_click_is_a_click(app: AppModel, at: Pointed)
    ensures
        app.clicked(at, true).0 == app.clicked(at, false).0,
        !(at.hit matches Some(Hit::Row(_))) ==> app.clicked(at, true) == app.clicked(at, false),
        at.hit matches Some(Hit::Row(i)) ==> app.clicked(at, true) == (
            app,
            Click::Row { index: i, double: true },
        ),
{
}

/// Off the overlay, with none of the client's own up, the link popup of the thread on top
/// closes, and nothing else changes.
pub proof fn a_click_off_the_popup_closes_it(app: AppModel, v: ThreadViewModel)
    requires
        app.palette is None && !app.show_help && !app.chord,
        app.screens.len() > 0,
    ensures
        app.screens.last() == ScreenModel::ThreadView(v) ==> app.overlay_closed() == (AppModel {
            screens: app.screens.update(
                app.screens.len() - 1,
                ScreenModel::ThreadView(ThreadViewModel { link_popup: false, ..v }),
            ),
            ..app
        }) && app.popup_closed() == app.overlay_closed(),
        !(app.screens.last() is ThreadView) ==> app.overlay_closed() == app && app.popup_closed()
            == app,
{
}

} // verus!
