//! The mirror of the last frame: its characters by column, and the words, lines
//! and selections found in it.

use vstd::prelude::*;

use crate::app::{Pointer, Selection};
use crate::text::{
    chars_of, join, joined, letter_or_number, texts, text_of, trim_end, trimmed_end, white_space,
};

verus! {

/// A cell of a finished frame.
#[derive(Debug)]
pub struct FrameCell {
    pub symbol: String,
    /// How many columns the symbol covers.
    pub width: usize,
    /// The cell asks for special treatment when frames are compared: text
    /// never does.
    pub marked: bool,
}

/// The cell belongs to a picture: it holds the escape sequence of one, or is
/// covered by one.
pub open spec fn image_cell(c: FrameCell) -> bool {
    c.marked || c.symbol@.contains('\x1b')
}

/// What a row of cells reads as, where each column starts in it, and how many
/// columns to come are covered by the last character.
pub open spec fn row_of(cells: Seq<FrameCell>) -> (Seq<char>, Seq<usize>, nat)
    decreases cells.len(),
{
    if cells.len() == 0 {
        (seq![], seq![], 0)
    } else {
        let (chars, starts, covered) = row_of(cells.drop_last());
        let c = cells.last();
        let starts = starts.push(chars.len() as usize);
        if covered > 0 {
            (chars, starts, (covered - 1) as nat)
        } else if image_cell(c) {
            (chars.push(' '), starts, 0)
        } else {
            (
                chars + c.symbol@,
                starts,
                if c.width > 0 {
                    (c.width - 1) as nat
                } else {
                    0
                },
            )
        }
    }
}

/// A row's column starts never fall, begin at 0 and end where the row ends.
pub open spec fn row_wf(row: Seq<char>, cols: Seq<usize>) -> bool {
    &&& 1 <= cols.len() <= 65536
    &&& cols[0] == 0
    &&& cols.last() == row.len()
    &&& forall|i: int, j: int| 0 <= i <= j < cols.len() ==> cols[i] <= cols[j]
}

impl Pointer {
    /// Every row of the mirror has its column starts.
    pub open spec fn wf(self) -> bool {
        &&& self.screen_rows@.len() == self.screen_cols@.len()
        &&& forall|y: int|
            0 <= y < self.screen_rows@.len() ==> row_wf(
                (#[trigger] self.screen_rows@[y])@,
                self.screen_cols@[y]@,
            )
    }
}

impl Selection {
    /// The band as its upper left and lower right cell.
    pub open spec fn corners(self) -> (u16, u16, u16, u16) {
        (
            if self.anchor.0 <= self.end.0 { self.anchor.0 } else { self.end.0 },
            if self.anchor.1 <= self.end.1 { self.anchor.1 } else { self.end.1 },
            if self.anchor.0 <= self.end.0 { self.end.0 } else { self.anchor.0 },
            if self.anchor.1 <= self.end.1 { self.end.1 } else { self.anchor.1 },
        )
    }

    pub fn rect(&self) -> (r: (u16, u16, u16, u16))
        ensures
            r == self.corners(),
            r.0 <= r.2,
            r.1 <= r.3,
    {
        let (x0, x1) = if self.anchor.0 <= self.end.0 {
            (self.anchor.0, self.end.0)
        } else {
            (self.end.0, self.anchor.0)
        };
        let (y0, y1) = if self.anchor.1 <= self.end.1 {
            (self.anchor.1, self.end.1)
        } else {
            (self.end.1, self.anchor.1)
        };
        (x0, y0, x1, y1)
    }
}

/// The column holds no character of its own: it is covered by the one to its
/// left.
pub open spec fn covered(cols: Seq<usize>, c: int) -> bool {
    cols[c] == cols[c + 1]
}

/// The column where the character that covers `c` starts.
pub open spec fn base(cols: Seq<usize>, c: int) -> int
    decreases c,
{
    if c > 0 && covered(cols, c) {
        base(cols, c - 1)
    } else {
        c
    }
}

/// The character that covers a column, if one does.
pub open spec fn glyph(row: Seq<char>, cols: Seq<usize>, c: int) -> Option<char> {
    let b = base(cols, c);
    if covered(cols, b) {
        None
    } else {
        Some(row[cols[b] as int])
    }
}

/// Characters that stand inside words and addresses.
pub open spec fn word_char(c: char) -> bool {
    letter_or_number(c) || c == '_' || c == '-' || c == '.' || c == '/' || c == ':' || c == '@'
}

/// Two columns belong to runs of the same kind: both inside words, or both
/// outside; white space is of no kind.
pub open spec fn kin(row: Seq<char>, cols: Seq<usize>, a: int, b: int) -> bool {
    match (glyph(row, cols, a), glyph(row, cols, b)) {
        (Some(p), Some(q)) => !white_space(p) && !white_space(q) && word_char(p) == word_char(q),
        _ => false,
    }
}

/// `s..=e` is the longest run of columns of one kind round `x`.
pub open spec fn is_run(row: Seq<char>, cols: Seq<usize>, x: int, s: int, e: int) -> bool {
    &&& 0 <= s <= x <= e <= cols.len() - 2
    &&& forall|c: int| s <= c <= e ==> #[trigger] kin(row, cols, c, x)
    &&& s > 0 ==> !kin(row, cols, s - 1, x)
    &&& e < cols.len() - 2 ==> !kin(row, cols, e + 1, x)
}

/// There is a word, or a run of punctuation, at a column.
pub open spec fn has_run(row: Seq<char>, cols: Seq<usize>, x: int) -> bool {
    cols.len() >= 2 && kin(row, cols, x, x)
}

/// A column, kept inside the row.
pub open spec fn column(cols: Seq<usize>, x: u16) -> int {
    if x <= cols.len() - 2 {
        x as int
    } else {
        cols.len() - 2
    }
}

/// Where a column starts in its row; the row's end, for columns beyond it.
pub open spec fn start_of(cols: Seq<usize>, x: int) -> int {
    let last = cols.len() - 1;
    cols[if x <= last { x } else { last }] as int
}

/// The characters of a row between two columns, without the white space behind
/// them.
pub open spec fn slice(row: Seq<char>, cols: Seq<usize>, x0: u16, x1: u16) -> Seq<char> {
    trimmed_end(row.subrange(start_of(cols, x0 as int), start_of(cols, x1 + 1)))
}

/// The lines without the empty ones at the end.
pub open spec fn without_tail(lines: Seq<Seq<char>>) -> Seq<Seq<char>>
    decreases lines.len(),
{
    if lines.len() > 0 && lines.last().len() == 0 {
        without_tail(lines.drop_last())
    } else {
        lines
    }
}

impl Pointer {
    /// The selected part of each row, from `y0` on, as far as rows go.
    pub open spec fn lines(self, x0: u16, y0: u16, x1: u16, y1: u16) -> Seq<Seq<char>> {
        let rows = self.screen_rows@.len();
        let end = if y1 + 1 <= rows {
            y1 + 1
        } else {
            rows as int
        };
        Seq::new(
            if y0 <= end {
                (end - y0) as nat
            } else {
                0
            },
            |i: int| slice(self.screen_rows@[y0 + i]@, self.screen_cols@[y0 + i]@, x0, x1),
        )
    }

    /// In every row of a band the left end starts no later than the right one stops.
    pub open spec fn ends_in_order(self, x0: u16, y0: u16, x1: u16, y1: u16) -> bool {
        forall|y: int|
            y0 <= y <= y1 && y < self.screen_rows@.len() ==> start_of(
                (#[trigger] self.screen_cols@[y])@,
                x0 as int,
            ) <= start_of(self.screen_cols@[y]@, x1 + 1)
    }

    /// The ends of a band whose columns are in order are in order in every row.
    pub proof fn lemma_in_order(self, x0: u16, y0: u16, x1: u16, y1: u16)
        requires
            self.wf(),
            x0 <= x1 + 1,
        ensures
            self.ends_in_order(x0, y0, x1, y1),
    {
        assert forall|y: int| y0 <= y <= y1 && y < self.screen_rows@.len() implies start_of(
            (#[trigger] self.screen_cols@[y])@,
            x0 as int,
        ) <= start_of(self.screen_cols@[y]@, x1 + 1) by {
            assert(row_wf(self.screen_rows@[y]@, self.screen_cols@[y]@));
        }
    }

    /// The text under a band of cells.
    pub open spec fn text_in(self, x0: u16, y0: u16, x1: u16, y1: u16) -> Seq<char> {
        joined(without_tail(self.lines(x0, y0, x1, y1)), "\n"@)
    }

    /// The run at a cell.
    pub open spec fn word_at(self, x: u16, y: u16, r: Option<(u16, u16)>) -> bool {
        let row = self.screen_rows@[y as int]@;
        let cols = self.screen_cols@[y as int]@;
        match r {
            Some((s, e)) => y < self.screen_rows@.len() && cols.len() >= 2 && is_run(
                row,
                cols,
                column(cols, x),
                s as int,
                e as int,
            ),
            None => y >= self.screen_rows@.len() || cols.len() < 2 || !has_run(
                row,
                cols,
                column(cols, x),
            ),
        }
    }

    /// The first and last column of a row.
    pub open spec fn line_at(self, y: u16) -> Option<(u16, u16)> {
        if y < self.screen_cols@.len() && self.screen_cols@[y as int]@.len() >= 2 {
            Some((0, (self.screen_cols@[y as int]@.len() - 2) as u16))
        } else {
            None
        }
    }
}

/// True for a cell owned by a picture.
pub fn is_image_cell(cell: &FrameCell) -> (r: bool)
    ensures
        r == image_cell(*cell),
{
    if cell.marked {
        return true;
    }
    let v = chars_of(cell.symbol.as_str());
    for i in 0..v.len()
        invariant
            v@ == cell.symbol@,
            !cell.marked,
            forall|j: int| 0 <= j < i ==> v@[j] != '\x1b',
    {
        if v[i] == '\x1b' {
            assert(cell.symbol@[i as int] == '\x1b');
            return true;
        }
    }
    false
}

/// The character that covers a column.
fn glyph_at(row: &Vec<char>, cols: &Vec<usize>, c: usize) -> (r: Option<char>)
    requires
        row_wf(row@, cols@),
        c + 1 < cols.len(),
    ensures
        r == glyph(row@, cols@, c as int),
{
    let mut b: usize = c;
    while b > 0 && cols[b] == cols[b + 1]
        invariant
            b + 1 < cols.len(),
            base(cols@, b as int) == base(cols@, c as int),
        decreases b,
    {
        b -= 1;
    }
    if cols[b] == cols[b + 1] {
        None
    } else {
        assert(cols@[b as int] <= cols@[b + 1] <= cols@.last());
        Some(row[cols[b]])
    }
}

fn is_word_char(c: char) -> (r: bool)
    ensures
        r == word_char(c),
{
    c.is_alphanumeric() || c == '_' || c == '-' || c == '.' || c == '/' || c == ':' || c == '@'
}

/// The column is of the kind that `word` says, and no white space.
fn of_kind(row: &Vec<char>, cols: &Vec<usize>, c: usize, word: bool) -> (r: bool)
    requires
        row_wf(row@, cols@),
        c + 1 < cols.len(),
    ensures
        r == (glyph(row@, cols@, c as int) matches Some(g) && !white_space(g) && word_char(g)
            == word),
{
    match glyph_at(row, cols, c) {
        Some(g) => !g.is_whitespace() && is_word_char(g) == word,
        None => false,
    }
}

/// The longest run of columns of one kind round a column.
fn find_run(row: &Vec<char>, cols: &Vec<usize>, x: usize) -> (r: Option<(usize, usize)>)
    requires
        row_wf(row@, cols@),
        x + 1 < cols.len(),
    ensures
        match r {
            Some((s, e)) => is_run(row@, cols@, x as int, s as int, e as int),
            None => !has_run(row@, cols@, x as int),
        },
{
    let target = match glyph_at(row, cols, x) {
        Some(g) => g,
        None => return None,
    };
    if target.is_whitespace() {
        return None;
    }
    let word = is_word_char(target);
    let mut s: usize = x;
    while s > 0 && of_kind(row, cols, s - 1, word)
        invariant
            s <= x,
            x + 1 < cols.len(),
            row_wf(row@, cols@),
            glyph(row@, cols@, x as int) == Some(target),
            !white_space(target),
            word == word_char(target),
            forall|c: int| s <= c <= x ==> #[trigger] kin(row@, cols@, c, x as int),
        decreases s,
    {
        s -= 1;
    }
    let mut e: usize = x;
    let max: usize = cols.len() - 2;
    while e < max && of_kind(row, cols, e + 1, word)
        invariant
            s <= x <= e <= max,
            max == cols.len() - 2,
            row_wf(row@, cols@),
            glyph(row@, cols@, x as int) == Some(target),
            !white_space(target),
            word == word_char(target),
            forall|c: int| s <= c <= e ==> #[trigger] kin(row@, cols@, c, x as int),
        decreases max - e,
    {
        e += 1;
    }
    Some((s, e))
}

/// The selected part of a row.
fn slice_row(row: &Vec<char>, cols: &Vec<usize>, x0: u16, x1: u16) -> (r: String)
    requires
        row_wf(row@, cols@),
        start_of(cols@, x0 as int) <= start_of(cols@, x1 + 1),
    ensures
        r@ == slice(row@, cols@, x0, x1),
{
    let last: usize = cols.len() - 1;
    let a: usize = if x0 as usize <= last {
        x0 as usize
    } else {
        last
    };
    let b: usize = if x1 as usize + 1 <= last {
        x1 as usize + 1
    } else {
        last
    };
    let from: usize = cols[a];
    let to: usize = cols[b];
    assert(cols@[a as int] <= cols@[b as int] <= cols@.last());
    let mut part: Vec<char> = Vec::new();
    let mut i: usize = from;
    while i < to
        invariant
            from <= i <= to <= row.len(),
            part@ == row@.subrange(from as int, i as int),
        decreases to - i,
    {
        part.push(row[i]);
        i += 1;
        assert(part@ =~= row@.subrange(from as int, i as int));
    }
    trim_end(&mut part);
    text_of(&part)
}

/// Drop the empty lines at the end.
fn drop_tail(lines: &mut Vec<String>)
    ensures
        texts(final(lines)@) == without_tail(texts(old(lines)@)),
{
    let ghost all = texts(lines@);
    while lines.len() > 0 && lines[lines.len() - 1].as_str().unicode_len() == 0
        invariant
            without_tail(all) == without_tail(texts(lines@)),
        decreases lines@.len(),
    {
        let ghost before = texts(lines@);
        assert(before.last() == lines@.last()@);
        lines.pop();
        assert(texts(lines@) =~= before.drop_last());
    }
    assert(lines@.len() > 0 ==> texts(lines@).last() == lines@.last()@);
}

impl Pointer {
    /// The word, or the run of punctuation, at a cell.
    pub fn find_word_bounds(&self, x: u16, y: u16) -> (r: Option<(u16, u16)>)
        requires
            self.wf(),
        ensures
            self.word_at(x, y, r),
    {
        let y: usize = y as usize;
        if y >= self.screen_rows.len() {
            return None;
        }
        let row = &self.screen_rows[y];
        let cols = &self.screen_cols[y];
        assert(row_wf(self.screen_rows@[y as int]@, self.screen_cols@[y as int]@));
        if cols.len() < 2 {
            return None;
        }
        let max: usize = cols.len() - 2;
        let at: usize = if x as usize <= max {
            x as usize
        } else {
            max
        };
        match find_run(row, cols, at) {
            Some((s, e)) => Some((s as u16, e as u16)),
            None => None,
        }
    }

    /// The whole width of a row.
    pub fn find_line_bounds(&self, y: u16) -> (r: Option<(u16, u16)>)
        requires
            self.wf(),
        ensures
            r == self.line_at(y),
    {
        let y: usize = y as usize;
        if y >= self.screen_cols.len() {
            return None;
        }
        assert(row_wf(self.screen_rows@[y as int]@, self.screen_cols@[y as int]@));
        let cols = &self.screen_cols[y];
        if cols.len() < 2 {
            return None;
        }
        Some((0, (cols.len() - 2) as u16))
    }

    /// The text under a band of cells.
    pub fn extract_selection_text(&self, x0: u16, y0: u16, x1: u16, y1: u16) -> (r: String)
        requires
            self.wf(),
            self.ends_in_order(x0, y0, x1, y1),
        ensures
            r@ == self.text_in(x0, y0, x1, y1),
    {
        let rows: usize = self.screen_rows.len();
        let end: usize = if y1 as usize + 1 <= rows {
            y1 as usize + 1
        } else {
            rows
        };
        let ghost all = self.lines(x0, y0, x1, y1);
        let mut lines: Vec<String> = Vec::new();
        let mut y: usize = y0 as usize;
        assert(texts(lines@) =~= all.take(0));
        while y < end
            invariant
                self.wf(),
                self.ends_in_order(x0, y0, x1, y1),
                end <= y1 + 1,
                end <= self.screen_rows.len(),
                all == self.lines(x0, y0, x1, y1),
                y0 <= y,
                y0 <= end ==> y <= end && all.len() == end - y0,
                y0 > end ==> y == y0 && all.len() == 0,
                lines@.len() == y - y0,
                texts(lines@) == all.take(y - y0),
            decreases end - y,
        {
            assert(row_wf(self.screen_rows@[y as int]@, self.screen_cols@[y as int]@));
            let ghost before = texts(lines@);
            lines.push(slice_row(&self.screen_rows[y], &self.screen_cols[y], x0, x1));
            assert(texts(lines@) =~= before.push(all[y - y0]));
            assert(all.take(y - y0).push(all[y - y0]) =~= all.take(y - y0 + 1));
            y += 1;
        }
        assert(y - y0 == all.len());
        assert(texts(lines@) =~= all);
        drop_tail(&mut lines);
        join(&lines, "\n")
    }
}

/// Where the next character of a row begins, and that starts never fall.
pub open spec fn starts_wf(chars: Seq<char>, starts: Seq<usize>) -> bool {
    &&& starts.len() > 0 ==> starts[0] == 0
    &&& forall|i: int| 0 <= i < starts.len() ==> #[trigger] starts[i] <= chars.len()
    &&& forall|i: int, j: int| 0 <= i <= j < starts.len() ==> starts[i] <= starts[j]
}

/// Mirror one row of cells: its characters and its column starts.
fn capture_row(cells: &Vec<FrameCell>) -> (r: (Vec<char>, Vec<usize>))
    requires
        cells.len() <= 65535,
    ensures
        r.0@ == row_of(cells@).0,
        r.1@ == row_of(cells@).1.push(row_of(cells@).0.len() as usize),
        row_wf(r.0@, r.1@),
        r.1@.len() == cells.len() + 1,
{
    let mut row: Vec<char> = Vec::new();
    let mut starts: Vec<usize> = Vec::new();
    let mut covered: usize = 0;
    let n: usize = cells.len();
    assert(cells@.take(0) =~= seq![]);
    for x in 0..n
        invariant
            n == cells.len(),
            row@ == row_of(cells@.take(x as int)).0,
            starts@ == row_of(cells@.take(x as int)).1,
            covered == row_of(cells@.take(x as int)).2,
            starts@.len() == x,
            starts_wf(row@, starts@),
            x == 0 ==> row@.len() == 0,
    {
        assert(cells@.take(x + 1).drop_last() =~= cells@.take(x as int));
        assert(cells@.take(x + 1).last() == cells@[x as int]);
        starts.push(row.len());
        let cell = &cells[x];
        if covered > 0 {
            covered -= 1;
        } else if is_image_cell(cell) {
            row.push(' ');
        } else {
            let mut symbol = chars_of(cell.symbol.as_str());
            row.append(&mut symbol);
            covered = if cell.width > 0 {
                cell.width - 1
            } else {
                0
            };
        }
    }
    assert(cells@.take(n as int) =~= cells@);
    starts.push(row.len());
    (row, starts)
}

/// The rows that a frame reads as.
pub open spec fn mirrors(p: Pointer, frame: Seq<Vec<FrameCell>>) -> bool {
    &&& p.screen_rows@.len() == frame.len()
    &&& p.screen_cols@.len() == frame.len()
    &&& forall|y: int|
        #![trigger frame[y]]
        0 <= y < frame.len() ==> {
            let row = row_of(frame[y]@);
            &&& p.screen_rows@[y]@ == row.0
            &&& p.screen_cols@[y]@ == row.1.push(row.0.len() as usize)
        }
}

impl Pointer {
    /// Take in the symbols of a finished frame, so that a selection can be read
    /// from it later.
    pub fn capture_screen(&mut self, frame: &Vec<Vec<FrameCell>>)
        requires
            forall|y: int| 0 <= y < frame@.len() ==> (#[trigger] frame@[y])@.len() <= 65535,
        ensures
            mirrors(*final(self), frame@),
            final(self).wf(),
            *final(self) == (Pointer {
                screen_rows: final(self).screen_rows,
                screen_cols: final(self).screen_cols,
                ..*old(self)
            }),
    {
        let mut rows: Vec<Vec<char>> = Vec::new();
        let mut cols: Vec<Vec<usize>> = Vec::new();
        for y in 0..frame.len()
            invariant
                rows@.len() == y,
                cols@.len() == y,
                forall|k: int| 0 <= k < frame@.len() ==> (#[trigger] frame@[k])@.len() <= 65535,
                forall|k: int|
                    #![trigger frame@[k]]
                    0 <= k < y ==> {
                        let row = row_of(frame@[k]@);
                        &&& rows@[k]@ == row.0
                        &&& cols@[k]@ == row.1.push(row.0.len() as usize)
                    },
                forall|k: int| 0 <= k < y ==> row_wf((#[trigger] rows@[k])@, cols@[k]@),
        {
            assert(frame@[y as int]@.len() <= 65535);
            let (row, starts) = capture_row(&frame[y]);
            rows.push(row);
            cols.push(starts);
        }
        self.screen_rows = rows;
        self.screen_cols = cols;
    }
}

/// The columns of a run all belong to the same run: clicking any of them gives
/// the same bounds.
pub proof fn any_column_of_a_run_gives_the_run(
    row: Seq<char>,
    cols: Seq<usize>,
    x: int,
    s: int,
    e: int,
    c: int,
)
    requires
        is_run(row, cols, x, s, e),
        s <= c <= e,
    ensures
        is_run(row, cols, c, s, e),
{
    assert(kin(row, cols, c, x));
    assert forall|d: int| s <= d <= e implies #[trigger] kin(row, cols, d, c) by {
        assert(kin(row, cols, d, x));
    }
}

/// There is only one longest run round a column.
pub proof fn a_run_is_unique(
    row: Seq<char>,
    cols: Seq<usize>,
    x: int,
    s1: int,
    e1: int,
    s2: int,
    e2: int,
)
    requires
        is_run(row, cols, x, s1, e1),
        is_run(row, cols, x, s2, e2),
    ensures
        s1 == s2,
        e1 == e2,
{
    if s1 < s2 {
        assert(kin(row, cols, s2 - 1, x));
    }
    if s2 < s1 {
        assert(kin(row, cols, s1 - 1, x));
    }
    if e1 < e2 {
        assert(kin(row, cols, e1 + 1, x));
    }
    if e2 < e1 {
        assert(kin(row, cols, e2 + 1, x));
    }
}

/// A run never begins or ends inside a wide character.
pub proof fn a_run_holds_whole_characters(
    row: Seq<char>,
    cols: Seq<usize>,
    x: int,
    s: int,
    e: int,
)
    requires
        is_run(row, cols, x, s, e),
    ensures
        s > 0 ==> !covered(cols, s),
        e < cols.len() - 2 ==> !covered(cols, e + 1),
{
    assert(kin(row, cols, s, x));
    assert(kin(row, cols, e, x));
}

/// A selection reads the same whichever corner it was started from.
pub proof fn a_selection_has_no_direction(a: (u16, u16), b: (u16, u16))
    ensures
        (Selection { anchor: a, end: b }).corners() == (Selection { anchor: b, end: a }).corners(),
{
}

} // verus!
