use vstd::prelude::*;

verus! {

/// A cell position: column first, then line.
pub type Pos = (usize, usize);

/// A rectangular area of the screen, in cells.
#[derive(Debug, Clone, Copy, PartialEq, Eq)]
pub struct Rect {
    pub x: u16,
    pub y: u16,
    pub width: u16,
    pub height: u16,
}

/// The editing mode of the grid editor.
#[derive(Debug, Clone, Copy, PartialEq, Eq)]
pub enum Mode {
    Normal,
    _Insert,
}

/// A grid of characters with two cursors: `cursor_real` is where the
/// cursor is drawn, `cursor_image` remembers the column the user asked for
/// when the line under the cursor is too short to hold it.
#[derive(Debug, PartialEq)]
pub struct Editor {
    pub mode: Mode,
    pub outer_box: [(usize, usize); 2],
    pub inner_box: [(usize, usize); 2],
    pub greather_col: usize,
    pub cursor_image: Pos,
    pub cursor_real: Pos,
    pub lines: Vec<Vec<char>>,
}

impl Default for Editor {
    /// An empty editor in normal mode, with both boxes and both cursors at
    /// the origin.
    fn default() -> (e: Editor)
        ensures
            e.mode == Mode::Normal,
            e.outer_box@ == seq![(0usize, 0usize), (0usize, 0usize)],
            e.inner_box@ == seq![(0usize, 0usize), (0usize, 0usize)],
            e.greather_col == 0,
            e.cursor_image == (0usize, 0usize),
            e.cursor_real == (0usize, 0usize),
            e.lines@ == Seq::<Vec<char>>::empty(),
    {
        Editor {
            mode: Mode::Normal,
            outer_box: [(0, 0), (0, 0)],
            inner_box: [(0, 0), (0, 0)],
            greather_col: 0,
            cursor_image: (0, 0),
            cursor_real: (0, 0),
            lines: Vec::new(),
        }
    }
}

impl Clone for Editor {
    /// A copy of the editor: the same mode, boxes, cursors and text.
    fn clone(&self) -> (e: Editor)
        ensures
            e.mode == self.mode,
            e.outer_box@ == self.outer_box@,
            e.inner_box@ == self.inner_box@,
            e.greather_col == self.greather_col,
            e.cursor_image == self.cursor_image,
            e.cursor_real == self.cursor_real,
            e.text() == self.text(),
    {
        let mut lines: Vec<Vec<char>> = Vec::new();
        let n = self.lines.len();
        let mut i: usize = 0;
        while i < n
            invariant
                n == self.lines@.len(),
                i <= n,
                lines@.len() == i,
                forall|k: int| 0 <= k < i ==> #[trigger] lines@[k]@ == self.lines@[k]@,
            decreases n - i,
        {
            let line = &self.lines[i];
            let mut copy: Vec<char> = Vec::new();
            let m = line.len();
            let mut j: usize = 0;
            while j < m
                invariant
                    m == line@.len(),
                    j <= m,
                    copy@ == line@.subrange(0, j as int),
                decreases m - j,
            {
                copy.push(line[j]);
                j = j + 1;
            }
            assert(copy@ =~= line@);
            lines.push(copy);
            i = i + 1;
        }
        let e = Editor {
            mode: self.mode,
            outer_box: self.outer_box,
            inner_box: self.inner_box,
            greather_col: self.greather_col,
            cursor_image: self.cursor_image,
            cursor_real: self.cursor_real,
            lines,
        };
        assert(e.text() =~= self.text());
        e
    }
}

impl Editor {
    /// The text, line by line.
    pub open spec fn text(&self) -> Seq<Seq<char>> {
        self.lines@.map_values(|l: Vec<char>| l@)
    }

    /// Resizes the editor to `area`: the outer box ends at the area's size,
    /// the inner box 8 cells before it in each direction (at least at 0).
    pub fn set_boxes(&mut self, area: &Rect)
        ensures
            final(self).outer_box@ == seq![old(self).outer_box[0], (area.width as usize, area.height as usize)],
            final(self).inner_box@ == seq![
                old(self).inner_box[0],
                (area.width.saturating_sub(8) as usize, area.height.saturating_sub(8) as usize),
            ],
            final(self).cursor_real == old(self).cursor_real,
            final(self).cursor_image == old(self).cursor_image,
            final(self).lines@ == old(self).lines@,
            final(self).greather_col == old(self).greather_col,
            final(self).mode == old(self).mode,
    {
        let outer_start = self.outer_box[0];
        let inner_start = self.inner_box[0];
        self.outer_box = [outer_start, (area.width as usize, area.height as usize)];
        self.inner_box = [
            inner_start,
            (area.width.saturating_sub(8) as usize, area.height.saturating_sub(8) as usize),
        ];
    }
}

/// The cursors after a request to move the real cursor to `target`.
/// The request is refused (nothing changes) unless both the target line and
/// the current line exist. Otherwise, in order:
/// - moving from a longer line to a shorter one, past its end: the real
///   cursor goes to the last column of the target line (0 on an empty line)
///   and the image keeps the requested column;
/// - the remembered image column fits the target line while the two cursors
///   differ: both cursors go to the image column on the target line;
/// - the requested column fits the target line: both cursors go there;
/// - otherwise nothing changes.
pub open spec fn moved(text: Seq<Seq<char>>, real_pos: Pos, image_pos: Pos, target: Pos) -> (Pos, Pos) {
    let x = target.0;
    let y = target.1;
    if y < text.len() && real_pos.1 < text.len() {
        let next_len = text[y as int].len();
        let cur_len = text[real_pos.1 as int].len();
        if cur_len > next_len && x >= next_len {
            (((if next_len == 0 { 0 } else { next_len - 1 }) as usize, y), (x, y))
        } else if image_pos.0 < next_len && image_pos != real_pos {
            ((image_pos.0, y), (image_pos.0, y))
        } else if x < next_len {
            ((x, y), (x, y))
        } else {
            (real_pos, image_pos)
        }
    } else {
        (real_pos, image_pos)
    }
}

/// The keys the editor reacts to.
#[derive(Debug, Clone, Copy, PartialEq, Eq)]
pub enum KeyCode {
    Left,
    Right,
    Up,
    Down,
    Esc,
    Other,
}

/// An input event, as far as the editor reads it.
#[derive(Debug, Clone, Copy, PartialEq, Eq)]
pub enum Event {
    Key(KeyCode),
    Other,
}

impl Event {
    /// The event that ends the editing session: the Esc key.
    pub fn is_exit(&self) -> (r: bool)
        ensures
            r == (*self == Event::Key(KeyCode::Esc)),
    {
        match self {
            Event::Key(KeyCode::Esc) => true,
            _ => false,
        }
    }
}

/// Where an arrow key asks the real cursor to go from `pos`, one cell in
/// its direction, saturating at the ends of `usize`; `None` for any other
/// event.
pub open spec fn key_target(event: Event, pos: Pos) -> Option<Pos> {
    match event {
        Event::Key(KeyCode::Left) => Some((pos.0.saturating_sub(1), pos.1)),
        Event::Key(KeyCode::Right) => Some((pos.0.saturating_add(1), pos.1)),
        Event::Key(KeyCode::Up) => Some((pos.0, pos.1.saturating_sub(1))),
        Event::Key(KeyCode::Down) => Some((pos.0, pos.1.saturating_add(1))),
        _ => None,
    }
}

impl Editor {
    /// What any value of the type satisfies: the text has at most
    /// `usize::MAX` lines, each of at most `usize::MAX` characters.
    pub open spec fn well_sized(self) -> bool {
        &&& self.lines@.len() <= usize::MAX
        &&& forall|i: int| 0 <= i < self.lines@.len() ==> #[trigger] self.lines@[i]@.len() <= usize::MAX
    }

    /// The same editor with other cursors.
    pub open spec fn with_cursors(self, cursors: (Pos, Pos)) -> Editor {
        Editor { cursor_real: cursors.0, cursor_image: cursors.1, ..self }
    }

    /// The editor after a request to move the real cursor to `target`.
    pub open spec fn moved_to(self, target: Pos) -> Editor {
        self.with_cursors(moved(self.text(), self.cursor_real, self.cursor_image, target))
    }

    /// The editor after `event`.
    pub open spec fn after_event(self, event: Event) -> Editor {
        match key_target(event, self.cursor_real) {
            Some(t) => self.moved_to(t),
            None => self,
        }
    }

    /// Moves the real cursor towards `target`, as `moved` describes.
    pub fn move_cursor_to(&mut self, target: Pos)
        ensures
            *final(self) == old(self).moved_to(target),
    {
        let ghost text = self.text();
        let x = target.0;
        let y = target.1;
        let cur = self.cursor_real.1;
        if y < self.lines.len() && cur < self.lines.len() {
            let next_len = self.lines[y].len();
            let cur_len = self.lines[cur].len();
            assert(next_len == text[y as int].len() && cur_len == text[cur as int].len());
            if cur_len > next_len && x >= next_len {
                self.cursor_real = (next_len.saturating_sub(1), y);
                self.cursor_image = (x, y);
            } else if self.cursor_image.0 < next_len && (self.cursor_image.0 != self.cursor_real.0
                || self.cursor_image.1 != self.cursor_real.1) {
                let col = self.cursor_image.0;
                self.cursor_real = (col, y);
                self.cursor_image = (col, y);
            } else if x < next_len {
                self.cursor_real = (x, y);
                self.cursor_image = (x, y);
            }
        }
    }

    /// Moves the real cursor to where `f` maps it, as `move_cursor_to` does.
    pub fn move_cursor<F: FnOnce(Pos) -> Pos>(&mut self, f: F)
        requires
            call_requires(f, (old(self).cursor_real,)),
        ensures
            exists|t: Pos|
                call_ensures(f, (old(self).cursor_real,), t) && *final(self) == old(self).moved_to(t),
    {
        let t = f(self.cursor_real);
        self.move_cursor_to(t);
    }

    /// Reacts to an input event: an arrow key moves the real cursor one cell
    /// in its direction; any other event changes nothing.
    pub fn input(&mut self, event: Event)
        ensures
            *final(self) == old(self).after_event(event),
    {
        let (x, y) = self.cursor_real;
        match event {
            Event::Key(KeyCode::Left) => self.move_cursor_to((x.saturating_sub(1), y)),
            Event::Key(KeyCode::Right) => self.move_cursor_to((x.saturating_add(1), y)),
            Event::Key(KeyCode::Up) => self.move_cursor_to((x, y.saturating_sub(1))),
            Event::Key(KeyCode::Down) => self.move_cursor_to((x, y.saturating_add(1))),
            _ => {},
        }
    }
}

/// The smaller of two integers.
pub open spec fn min(a: int, b: int) -> int {
    if a <= b { a } else { b }
}

/// How many lines of `text`, from line `y_start` on, fit in `y_len` rows.
pub open spec fn window_rows(text: Seq<Seq<char>>, y_start: int, y_len: int) -> int {
    min(y_len, text.len() - y_start)
}

/// The part of `text` shown in a window of `x_len` columns by `y_len` rows
/// whose top left corner is column `x_start` of line `y_start`: row `i` is
/// line `y_start + i` from column `x_start` on, cut to at most `x_len`
/// characters.
pub open spec fn window(text: Seq<Seq<char>>, x_start: int, x_len: int, y_start: int, y_len: int) -> Seq<Seq<char>> {
    Seq::new(
        window_rows(text, y_start, y_len) as nat,
        |i: int|
            text[y_start + i].subrange(x_start, x_start + min(x_len, text[y_start + i].len() - x_start)),
    )
}

/// The window can be cut out of `text`: it starts within the text, and
/// every line it shows is at least `x_start` characters long.
pub open spec fn window_fits(text: Seq<Seq<char>>, x_start: int, y_start: int, y_len: int) -> bool {
    &&& y_start <= text.len()
    &&& forall|i: int|
        0 <= i < window_rows(text, y_start, y_len) ==> x_start <= #[trigger] text[y_start + i].len()
}

impl Editor {
    /// The text that the editor shows: the window that starts at the outer
    /// box's first corner and spans as many columns and rows as its second
    /// corner gives.
    pub open spec fn shown(self) -> Seq<Seq<char>> {
        window(
            self.text(),
            self.outer_box[0].0 as int,
            self.outer_box[1].0 as int,
            self.outer_box[0].1 as int,
            self.outer_box[1].1 as int,
        )
    }

    /// The characters to draw, row by row and column by column from the
    /// top left corner of the screen area.
    pub fn visible_lines(&self) -> (rows: Vec<Vec<char>>)
        requires
            window_fits(self.text(), self.outer_box[0].0 as int, self.outer_box[0].1 as int, self.outer_box[1].1 as int),
        ensures
            rows@.map_values(|r: Vec<char>| r@) == self.shown(),
    {
        let x_start = self.outer_box[0].0;
        let x_end = self.outer_box[1].0;
        let y_start = self.outer_box[0].1;
        let y_end = self.outer_box[1].1;
        let ghost text = self.text();
        let ghost shown = self.shown();
        let mut rows: Vec<Vec<char>> = Vec::new();
        let mut p: usize = 0;
        while p < y_end && p < self.lines.len() - y_start
            invariant
                text == self.text(),
                shown == self.shown(),
                x_start == self.outer_box[0].0,
                x_end == self.outer_box[1].0,
                y_start == self.outer_box[0].1,
                y_end == self.outer_box[1].1,
                window_fits(text, x_start as int, y_start as int, y_end as int),
                p <= window_rows(text, y_start as int, y_end as int),
                rows@.len() == p,
                forall|i: int| 0 <= i < p ==> #[trigger] rows@[i]@ == shown[i],
            decreases self.lines.len() - p,
        {
            let line = &self.lines[y_start + p];
            assert(line@ == text[y_start + p]);
            assert(x_start <= text[y_start + p as int].len());
            let mut row: Vec<char> = Vec::new();
            let mut q: usize = 0;
            while q < x_end && q < line.len() - x_start
                invariant
                    x_start <= line@.len(),
                    q <= line@.len() - x_start,
                    q <= x_end,
                    row@ == line@.subrange(x_start as int, x_start + q),
                decreases line@.len() - q,
            {
                row.push(line[x_start + q]);
                q = q + 1;
            }
            assert(q == min(x_end as int, line@.len() - x_start));
            assert(row@ == shown[p as int]);
            rows.push(row);
            p = p + 1;
        }
        assert(rows@.map_values(|r: Vec<char>| r@) =~= shown);
        rows
    }

    /// The screen cell of the real cursor, each coordinate cut to 16 bits.
    pub fn cursor_cell(&self) -> (cell: (u16, u16))
        ensures
            cell == (self.cursor_real.0 as u16, self.cursor_real.1 as u16),
    {
        (self.cursor_real.0 as u16, self.cursor_real.1 as u16)
    }
}

/// `pos` lies in the text: on an existing line and on one of its
/// characters, or at column 0 of an empty line.
pub open spec fn in_text(text: Seq<Seq<char>>, pos: Pos) -> bool {
    &&& pos.1 < text.len()
    &&& (pos.0 < text[pos.1 as int].len() || (pos.0 == 0 && text[pos.1 as int].len() == 0))
}

/// A move either leaves the real cursor where it was or puts it in the
/// text; so a real cursor in the text stays in the text.
pub proof fn lemma_move_stays_in_text(text: Seq<Seq<char>>, real_pos: Pos, image_pos: Pos, target: Pos)
    ensures
        moved(text, real_pos, image_pos, target).0 == real_pos
            || in_text(text, moved(text, real_pos, image_pos, target).0),
        in_text(text, real_pos) ==> in_text(text, moved(text, real_pos, image_pos, target).0),
{
}

/// When the image is on the real cursor's line and not left of it, a move
/// keeps it so.
pub proof fn lemma_image_follows_real(text: Seq<Seq<char>>, real_pos: Pos, image_pos: Pos, target: Pos)
    requires
        image_pos.1 == real_pos.1,
        image_pos.0 >= real_pos.0,
    ensures
        moved(text, real_pos, image_pos, target).1.1 == moved(text, real_pos, image_pos, target).0.1,
        moved(text, real_pos, image_pos, target).1.0 >= moved(text, real_pos, image_pos, target).0.0,
{
}

/// After a move that changes the cursors, they differ only when the real
/// cursor was clamped: it stands at the last column of its line (0 on an
/// empty line) and the image lies past the end of that line.
pub proof fn lemma_cursors_differ_only_when_clamped(
    text: Seq<Seq<char>>,
    real_pos: Pos,
    image_pos: Pos,
    target: Pos,
)
    ensures
        ({
            let m = moved(text, real_pos, image_pos, target);
            m != (real_pos, image_pos) && m.0 != m.1 ==> {
                &&& m.0.1 < text.len()
                &&& m.1.0 >= text[m.0.1 as int].len()
                &&& (m.0.0 + 1 == text[m.0.1 as int].len() || (m.0.0 == 0 && text[m.0.1 as int].len() == 0))
            }
        }),
{
}

/// With the two cursors together on a character of line `r`, going to line
/// `r2` at the same column and back to line `r` from wherever the real
/// cursor landed puts both cursors back where they were.
pub proof fn lemma_line_round_trip(text: Seq<Seq<char>>, c: usize, r: usize, r2: usize)
    requires
        r < text.len(),
        r2 < text.len(),
        c < text[r as int].len(),
    ensures
        ({
            let m1 = moved(text, (c, r), (c, r), (c, r2));
            moved(text, m1.0, m1.1, (m1.0.0, r)) == ((c, r), (c, r))
        }),
{
}

/// Down then Up restores the editor, when the two cursors are together on
/// a character and a line follows.
pub proof fn lemma_down_then_up(e: Editor)
    requires
        e.well_sized(),
        e.cursor_real == e.cursor_image,
        e.cursor_real.1 + 1 < e.text().len(),
        e.cursor_real.0 < e.text()[e.cursor_real.1 as int].len(),
    ensures
        e.after_event(Event::Key(KeyCode::Down)).after_event(Event::Key(KeyCode::Up)) == e,
{
    let (c, r) = e.cursor_real;
    lemma_line_round_trip(e.text(), c, r, (r + 1) as usize);
}

/// Up then Down restores the editor, when the two cursors are together on
/// a character of a line other than the first.
pub proof fn lemma_up_then_down(e: Editor)
    requires
        e.cursor_real == e.cursor_image,
        1 <= e.cursor_real.1 < e.text().len(),
        e.cursor_real.0 < e.text()[e.cursor_real.1 as int].len(),
    ensures
        e.after_event(Event::Key(KeyCode::Up)).after_event(Event::Key(KeyCode::Down)) == e,
{
    lemma_line_round_trip(e.text(), e.cursor_real.0, e.cursor_real.1, (e.cursor_real.1 - 1) as usize);
}

/// Right then Left restores the editor, when the two cursors are together
/// on a character that is not the last of its line.
pub proof fn lemma_right_then_left(e: Editor)
    requires
        e.well_sized(),
        e.cursor_real == e.cursor_image,
        e.cursor_real.1 < e.text().len(),
        e.cursor_real.0 + 1 < e.text()[e.cursor_real.1 as int].len(),
    ensures
        e.after_event(Event::Key(KeyCode::Right)).after_event(Event::Key(KeyCode::Left)) == e,
{
}

/// Left then Right restores the editor, when the two cursors are together
/// on a character that is not the first of its line.
pub proof fn lemma_left_then_right(e: Editor)
    requires
        e.cursor_real == e.cursor_image,
        e.cursor_real.1 < e.text().len(),
        1 <= e.cursor_real.0 < e.text()[e.cursor_real.1 as int].len(),
    ensures
        e.after_event(Event::Key(KeyCode::Left)).after_event(Event::Key(KeyCode::Right)) == e,
{
}

/// A request whose target line, or whose current line, does not exist
/// changes neither cursor.
pub proof fn lemma_move_off_the_text_is_refused(text: Seq<Seq<char>>, real_pos: Pos, image_pos: Pos, target: Pos)
    requires
        target.1 >= text.len() || real_pos.1 >= text.len(),
    ensures
        moved(text, real_pos, image_pos, target) == (real_pos, image_pos),
{
}

/// With the two cursors together, a move along the cursor's own line to a
/// column past its end changes neither cursor.
pub proof fn lemma_move_past_the_line_end_is_refused(text: Seq<Seq<char>>, pos: Pos, x: usize)
    requires
        pos.1 < text.len(),
        x >= text[pos.1 as int].len(),
    ensures
        moved(text, pos, pos, (x, pos.1)) == (pos, pos),
{
}

/// With the two cursors together, a move to a column that the target line
/// holds puts both cursors exactly on the target.
pub proof fn lemma_move_to_a_character_lands_there(text: Seq<Seq<char>>, pos: Pos, target: Pos)
    requires
        pos.1 < text.len(),
        target.1 < text.len(),
        target.0 < text[target.1 as int].len(),
    ensures
        moved(text, pos, pos, target) == (target, target),
{
}

/// A move that changes the cursors and leaves them apart goes to a line
/// strictly shorter than the current one: the image is the target itself,
/// past the end of that line, and the real cursor is on the line's last
/// character (column 0 of an empty line).
pub proof fn lemma_cursors_part_only_for_a_shorter_line(
    text: Seq<Seq<char>>,
    real_pos: Pos,
    image_pos: Pos,
    target: Pos,
)
    ensures
        ({
            let m = moved(text, real_pos, image_pos, target);
            m != (real_pos, image_pos) && m.0 != m.1 ==> {
                &&& real_pos.1 < text.len()
                &&& target.1 < text.len()
                &&& text[target.1 as int].len() < text[real_pos.1 as int].len()
                &&& m.1 == target
                &&& target.0 >= text[target.1 as int].len()
                &&& m.0.1 == target.1
                &&& m.0.0 + 1 == text[target.1 as int].len() || (m.0.0 == 0 && text[target.1 as int].len() == 0)
            }
        }),
{
}

/// The window shows one row for each line from its first, as many as fit:
/// the smaller of its height and the number of lines left; row `i` is line
/// `y_start + i` without its first `x_start` characters, cut to the
/// window's width.
pub proof fn lemma_window_shows_every_line_that_fits(
    text: Seq<Seq<char>>,
    x_start: int,
    x_len: int,
    y_start: int,
    y_len: int,
)
    requires
        0 <= x_start,
        0 <= x_len,
        0 <= y_start <= text.len(),
        0 <= y_len,
        window_fits(text, x_start, y_start, y_len),
    ensures
        window(text, x_start, x_len, y_start, y_len).len() == if y_len <= text.len() - y_start {
            y_len
        } else {
            text.len() - y_start
        },
        y_start + y_len >= text.len() ==> window(text, x_start, x_len, y_start, y_len).len() == text.len() - y_start,
        forall|i: int|
            0 <= i < window(text, x_start, x_len, y_start, y_len).len() ==> {
                let row = #[trigger] window(text, x_start, x_len, y_start, y_len)[i];
                let rest = text[y_start + i].skip(x_start);
                &&& row.len() <= x_len
                &&& row.len() == rest.len() || row.len() == x_len
                &&& row == rest.take(row.len() as int)
            },
{
    let w = window(text, x_start, x_len, y_start, y_len);
    assert forall|i: int| 0 <= i < w.len() implies {
        let row = #[trigger] w[i];
        let rest = text[y_start + i].skip(x_start);
        &&& row.len() <= x_len
        &&& row.len() == rest.len() || row.len() == x_len
        &&& row == rest.take(row.len() as int)
    } by {
        assert(x_start <= text[y_start + i].len());
        assert(w[i] =~= text[y_start + i].skip(x_start).take(w[i].len() as int));
    }
}

} // verus!
