use tui_textarea::TextArea;
use vstd::prelude::*;

verus! {

/// A multi-line text area of `tui_textarea`, held in `area`. Verified code
/// reads and changes it only through the functions below; the vim key
/// machine and the drawing code, which are not verified, use `area`
/// directly.
#[verifier::external_body]
pub struct TextBox<'a> {
    pub area: TextArea<'a>,
}

/// A position in a text box: line, then character column.
pub type Cursor = (usize, usize);

/// The part of the text shown: first line, first column, width and height.
pub type ViewRect = (u16, u16, u16, u16);

/// The lines of the text box.
pub uninterp spec fn box_lines(t: TextBox) -> Seq<Seq<char>>;

/// The cursor of the text box.
pub uninterp spec fn box_cursor(t: TextBox) -> Cursor;

/// Where the selection of the text box starts, when there is one (it ends
/// at the cursor).
pub uninterp spec fn box_selection(t: TextBox) -> Option<Cursor>;

/// The part of the text that the text box shows. Drawing the text box
/// updates it; drawing happens outside the library.
pub uninterp spec fn box_view(t: TextBox) -> ViewRect;

/// The text that a paste inserts, as its lines.
pub uninterp spec fn box_yank(t: TextBox) -> Seq<Seq<char>>;

/// The search pattern whose matches the text box highlights, if any.
pub uninterp spec fn box_pattern(t: TextBox) -> Option<Seq<char>>;

/// The tab length, and whether Tab inserts a hard tab.
pub uninterp spec fn box_tabs(t: TextBox) -> (u8, bool);

/// `pattern` compiles as a regular expression of the `regex` crate.
pub uninterp spec fn pattern_compiles(pattern: Seq<char>) -> bool;

/// The text box holds a selection.
pub open spec fn box_selecting(t: TextBox) -> bool {
    box_selection(t) is Some
}

/// The cursor and the selection's start stand on lines of the text
/// (editing a text box indexes its lines by them).
pub open spec fn box_valid(t: TextBox) -> bool {
    &&& box_cursor(t).0 < box_lines(t).len()
    &&& box_selection(t) matches Some(s) ==> s.0 < box_lines(t).len()
}

/// The smaller of two integers.
pub open spec fn min(a: int, b: int) -> int {
    if a <= b { a } else { b }
}

/// The larger of two integers.
pub open spec fn max(a: int, b: int) -> int {
    if a >= b { a } else { b }
}

/// `s` without one carriage return at its end.
pub open spec fn without_cr(s: Seq<char>) -> Seq<char> {
    if s.len() > 0 && s.last() == '\r' { s.drop_last() } else { s }
}

/// `s` cut at each newline (the newlines dropped): one more piece than
/// newlines.
pub open spec fn split_lines(s: Seq<char>) -> Seq<Seq<char>>
    decreases s.len(),
{
    if s.len() == 0 {
        seq![Seq::<char>::empty()]
    } else {
        let rest = split_lines(s.drop_last());
        if s.last() == '\n' {
            rest.push(Seq::<char>::empty())
        } else {
            rest.update(rest.len() - 1, rest.last().push(s.last()))
        }
    }
}

/// The lines of `s`: cut at each newline, each without one carriage return
/// at its end.
pub open spec fn pieces(s: Seq<char>) -> Seq<Seq<char>> {
    split_lines(s).map_values(|p: Seq<char>| without_cr(p))
}

/// The text and cursor after inserting the piece `p` (which holds no
/// newline) at `cursor`: the piece goes before the cursor's character (at
/// the end of the line when the cursor lies past it), and the cursor moves
/// past it. An empty piece changes nothing.
pub open spec fn inserted(lines: Seq<Seq<char>>, cursor: Cursor, p: Seq<char>) -> (Seq<Seq<char>>, Cursor) {
    if p.len() == 0 {
        (lines, cursor)
    } else {
        let line = lines[cursor.0 as int];
        let c = min(cursor.1 as int, line.len() as int);
        (lines.update(cursor.0 as int, line.take(c) + p + line.skip(c)), (cursor.0, (cursor.1 + p.len()) as usize))
    }
}

/// The text and cursor after inserting `s` at `cursor`: a single line goes
/// in as `inserted` says; several lines split the cursor's line, the first
/// ending it and the last starting its rest, with the cursor at the end of
/// the last one.
pub open spec fn inserted_text(lines: Seq<Seq<char>>, cursor: Cursor, s: Seq<char>) -> (Seq<Seq<char>>, Cursor) {
    let ps = pieces(s);
    let k = ps.len();
    if k <= 1 {
        inserted(lines, cursor, ps[0])
    } else {
        let row = cursor.0 as int;
        let line = lines[row];
        let c = min(cursor.1 as int, line.len() as int);
        (
            lines.take(row) + seq![line.take(c) + ps[0]] + ps.subrange(1, k - 1) + seq![ps[k - 1] + line.skip(c)]
                + lines.skip(row + 1),
            ((row + k - 1) as usize, ps[k - 1].len() as usize),
        )
    }
}

/// Inserting `s` changes the text: it has several lines or a non-empty one.
pub open spec fn inserts(s: Seq<char>) -> bool {
    pieces(s).len() > 1 || pieces(s)[0].len() > 0
}

/// Position `a` comes before position `b`.
pub open spec fn before(a: Cursor, b: Cursor) -> bool {
    a.0 < b.0 || (a.0 == b.0 && a.1 < b.1)
}

/// `pos` with its column cut to the length of its line.
pub open spec fn clamped(lines: Seq<Seq<char>>, pos: Cursor) -> Cursor {
    (pos.0, min(pos.1 as int, lines[pos.0 as int].len() as int) as usize)
}

/// The selection from `start` to the cursor covers some text.
pub open spec fn selects_text(lines: Seq<Seq<char>>, cursor: Cursor, start: Option<Cursor>) -> bool {
    start matches Some(s) && clamped(lines, s) != clamped(lines, cursor)
}

/// The text and cursor after deleting the text from `a` to `b` (`a` first):
/// the line of `a` keeps what lies before `a` and takes what lies after
/// `b`; the lines in between go; the cursor goes to `a`.
pub open spec fn removed_range(lines: Seq<Seq<char>>, a: Cursor, b: Cursor) -> (Seq<Seq<char>>, Cursor) {
    let ca = clamped(lines, a).1 as int;
    let cb = clamped(lines, b).1 as int;
    if a.0 == b.0 {
        (lines.update(a.0 as int, lines[a.0 as int].take(ca) + lines[a.0 as int].skip(cb)), a)
    } else {
        (
            lines.take(a.0 as int) + seq![lines[a.0 as int].take(ca) + lines[b.0 as int].skip(cb)] + lines.skip(
                b.0 + 1,
            ),
            a,
        )
    }
}

/// The text and cursor after deleting the selection from `start` to the
/// cursor, when it covers some text.
pub open spec fn without_selection(lines: Seq<Seq<char>>, cursor: Cursor, start: Option<Cursor>) -> (
    Seq<Seq<char>>,
    Cursor,
) {
    match start {
        Some(s) => if !selects_text(lines, cursor, start) {
            (lines, cursor)
        } else if before(clamped(lines, s), clamped(lines, cursor)) {
            removed_range(lines, s, cursor)
        } else {
            removed_range(lines, cursor, s)
        },
        None => (lines, cursor),
    }
}

/// Whether deleting the character before `cursor` changes anything: not at
/// the very start of the text, nor past the end of the line.
pub open spec fn deletes(lines: Seq<Seq<char>>, cursor: Cursor) -> bool {
    if cursor.1 == 0 {
        cursor.0 > 0
    } else {
        cursor.1 - 1 < lines[cursor.0 as int].len()
    }
}

/// The text and cursor after deleting the character before `cursor`: at the
/// start of a line other than the first, the line is joined to the one
/// before and the cursor goes to the joint; within a line, the character
/// before the cursor goes and the cursor moves back by one.
pub open spec fn deleted(lines: Seq<Seq<char>>, cursor: Cursor) -> (Seq<Seq<char>>, Cursor) {
    let row = cursor.0 as int;
    let col = cursor.1 as int;
    if !deletes(lines, cursor) {
        (lines, cursor)
    } else if col == 0 {
        (
            lines.take(row - 1) + seq![lines[row - 1] + lines[row]] + lines.skip(row + 1),
            ((row - 1) as usize, lines[row - 1].len() as usize),
        )
    } else {
        (lines.update(row, lines[row].remove(col - 1)), (cursor.0, (col - 1) as usize))
    }
}

/// The text and cursor after deleting the character before the cursor `n`
/// times, with no selection.
pub open spec fn deleted_times(lines: Seq<Seq<char>>, cursor: Cursor, n: nat) -> (Seq<Seq<char>>, Cursor)
    decreases n,
{
    if n == 0 {
        (lines, cursor)
    } else {
        let (l, c) = deleted(lines, cursor);
        deleted_times(l, c, (n - 1) as nat)
    }
}

/// `n` spaces.
pub open spec fn spaces(n: nat) -> Seq<char> {
    Seq::new(n, |i: int| ' ')
}

/// `pos` moved by `delta`, staying within `u16`.
pub open spec fn shifted(pos: u16, delta: i16) -> u16 {
    if delta >= 0 {
        pos.saturating_add(delta as u16)
    } else {
        pos.saturating_sub((-delta) as u16)
    }
}

/// The cursor brought into the view `v`, and onto a line and into its text.
pub open spec fn in_view(lines: Seq<Seq<char>>, cursor: Cursor, v: ViewRect) -> Cursor {
    let (top, left, width, height) = v;
    let bottom = max(top as int, top.saturating_add(height).saturating_sub(1) as int);
    let right = max(left as int, left.saturating_add(width).saturating_sub(1) as int);
    let row = min(min(max(cursor.0 as int, top as int), bottom), lines.len() - 1);
    let col = min(max(cursor.1 as int, left as int), right);
    (row as usize, min(col, lines[row].len() as int) as usize)
}

/// `after` is `before` scrolled by `rows` and `cols`: the view moves by
/// them, the cursor is brought into it, and everything else stays.
pub open spec fn scrolled(before: TextBox, after: TextBox, rows: i16, cols: i16) -> bool {
    let v = box_view(before);
    let v2 = (shifted(v.0, rows), shifted(v.1, cols), v.2, v.3);
    &&& box_view(after) == v2
    &&& box_cursor(after) == in_view(box_lines(before), box_cursor(before), v2)
    &&& box_lines(after) == box_lines(before)
    &&& box_selection(after) == box_selection(before)
    &&& box_yank(after) == box_yank(before)
    &&& box_pattern(after) == box_pattern(before)
    &&& box_tabs(after) == box_tabs(before)
}

/// `after` has the text and cursor `state`, no selection, and otherwise the
/// settings of `before`.
pub open spec fn edited(before: TextBox, after: TextBox, state: (Seq<Seq<char>>, Cursor)) -> bool {
    &&& (box_lines(after), box_cursor(after)) == state
    &&& box_selection(after) is None
    &&& box_view(after) == box_view(before)
    &&& box_yank(after) == box_yank(before)
    &&& box_pattern(after) == box_pattern(before)
    &&& box_tabs(after) == box_tabs(before)
}

/// `TextArea::default`: one empty line, the cursor at its start, no
/// selection, the view at the origin with no size, an empty paste text, no
/// search pattern, tabs four columns long and soft.
#[verifier::external_body]
pub(crate) fn empty_box<'a>() -> (t: TextBox<'a>)
    ensures
        box_lines(t) == seq![Seq::<char>::empty()],
        box_cursor(t) == (0usize, 0usize),
        box_selection(t) is None,
        box_view(t) == (0u16, 0u16, 0u16, 0u16),
        box_yank(t) == seq![Seq::<char>::empty()],
        box_pattern(t) is None,
        box_tabs(t) == (4u8, false),
{
    TextBox { area: TextArea::default() }
}

/// `TextArea::from`: the given lines (one empty line when there are
/// none), and otherwise as `TextArea::default`.
#[verifier::external_body]
pub(crate) fn box_from<'a>(lines: Vec<String>) -> (t: TextBox<'a>)
    ensures
        box_lines(t) == if lines@.len() == 0 {
            seq![Seq::<char>::empty()]
        } else {
            lines@.map_values(|l: String| l@)
        },
        box_cursor(t) == (0usize, 0usize),
        box_selection(t) is None,
        box_view(t) == (0u16, 0u16, 0u16, 0u16),
        box_yank(t) == seq![Seq::<char>::empty()],
        box_pattern(t) is None,
        box_tabs(t) == (4u8, false),
{
    TextBox { area: TextArea::from(lines) }
}

/// `TextArea::lines`, copied: the lines of the text box.
#[verifier::external_body]
pub(crate) fn lines_of(t: &TextBox) -> (r: Vec<String>)
    ensures
        r@.map_values(|l: String| l@) == box_lines(*t),
{
    t.area.lines().to_vec()
}

/// `TextArea::cursor`: the cursor of the text box.
#[verifier::external_body]
pub(crate) fn cursor_of(t: &TextBox) -> (r: Cursor)
    ensures
        r == box_cursor(*t),
{
    t.area.cursor()
}

/// `TextArea::selection_range`: the selection's start and the cursor, the
/// earlier first, when there is a selection.
#[verifier::external_body]
pub(crate) fn selection_range_of(t: &TextBox) -> (r: Option<(Cursor, Cursor)>)
    ensures
        r == match box_selection(*t) {
            Some(s) => Some(if before(box_cursor(*t), s) { (box_cursor(*t), s) } else { (s, box_cursor(*t)) }),
            None => None,
        },
{
    t.area.selection_range()
}

/// `TextArea::insert_str`: deletes the selection, then inserts `s` at the
/// cursor, as `without_selection` and `inserted_text` say; tells whether
/// `s` changed the text.
#[verifier::external_body]
pub(crate) fn insert_str(t: &mut TextBox, s: String) -> (r: bool)
    requires
        box_valid(*old(t)),
    ensures
        ({
            let cleared = without_selection(box_lines(*old(t)), box_cursor(*old(t)), box_selection(*old(t)));
            edited(*old(t), *final(t), inserted_text(cleared.0, cleared.1, s@))
        }),
        box_valid(*final(t)),
        r == inserts(s@),
{
    t.area.insert_str(s)
}

/// `TextArea::delete_char`: deletes the selection when it covers some
/// text, and the character before the cursor otherwise (see `deleted`);
/// tells whether the text changed.
#[verifier::external_body]
pub(crate) fn delete_char(t: &mut TextBox) -> (r: bool)
    requires
        box_valid(*old(t)),
    ensures
        if selects_text(box_lines(*old(t)), box_cursor(*old(t)), box_selection(*old(t))) {
            &&& edited(
                *old(t),
                *final(t),
                without_selection(box_lines(*old(t)), box_cursor(*old(t)), box_selection(*old(t))),
            )
            &&& r
        } else {
            &&& edited(*old(t), *final(t), deleted(box_lines(*old(t)), box_cursor(*old(t))))
            &&& r == deletes(box_lines(*old(t)), box_cursor(*old(t)))
        },
        box_valid(*final(t)),
{
    t.area.delete_char()
}

/// `TextArea::scroll` by rows and columns, as `scrolled` says.
#[verifier::external_body]
pub(crate) fn scroll(t: &mut TextBox, rows: i16, cols: i16)
    requires
        box_lines(*old(t)).len() > 0,
        rows > i16::MIN,
        cols > i16::MIN,
    ensures
        scrolled(*old(t), *final(t), rows, cols),
{
    t.area.scroll((rows, cols))
}

/// `TextArea::set_yank_text`: the text that a paste inserts becomes the
/// lines of `text` (see `pieces`); nothing else changes.
#[verifier::external_body]
pub(crate) fn set_yank_text(t: &mut TextBox, text: String)
    ensures
        box_yank(*final(t)) == pieces(text@),
        box_lines(*final(t)) == box_lines(*old(t)),
        box_cursor(*final(t)) == box_cursor(*old(t)),
        box_selection(*final(t)) == box_selection(*old(t)),
        box_view(*final(t)) == box_view(*old(t)),
        box_pattern(*final(t)) == box_pattern(*old(t)),
        box_tabs(*final(t)) == box_tabs(*old(t)),
{
    t.area.set_yank_text(text)
}

/// `TextArea::set_search_pattern`: when `pattern` compiles, the text box
/// highlights its matches (an empty pattern stops highlighting); tells
/// whether it compiled. Nothing else changes.
#[verifier::external_body]
pub(crate) fn set_search_pattern(t: &mut TextBox, pattern: &str) -> (r: bool)
    ensures
        r == pattern_compiles(pattern@),
        box_pattern(*final(t)) == if !r {
            box_pattern(*old(t))
        } else if pattern@.len() == 0 {
            None
        } else {
            Some(pattern@)
        },
        box_lines(*final(t)) == box_lines(*old(t)),
        box_cursor(*final(t)) == box_cursor(*old(t)),
        box_selection(*final(t)) == box_selection(*old(t)),
        box_view(*final(t)) == box_view(*old(t)),
        box_yank(*final(t)) == box_yank(*old(t)),
        box_tabs(*final(t)) == box_tabs(*old(t)),
{
    match t.area.set_search_pattern(pattern) {
        Ok(()) => true,
        Err(_) => false,
    }
}

/// `TextArea::set_tab_length`: sets the tab length; nothing else changes.
#[verifier::external_body]
pub(crate) fn set_tab_length(t: &mut TextBox, len: u8)
    ensures
        box_tabs(*final(t)) == (len, box_tabs(*old(t)).1),
        box_lines(*final(t)) == box_lines(*old(t)),
        box_cursor(*final(t)) == box_cursor(*old(t)),
        box_selection(*final(t)) == box_selection(*old(t)),
        box_view(*final(t)) == box_view(*old(t)),
        box_yank(*final(t)) == box_yank(*old(t)),
        box_pattern(*final(t)) == box_pattern(*old(t)),
{
    t.area.set_tab_length(len)
}

/// `TextArea::set_hard_tab_indent`: sets whether Tab inserts a hard tab;
/// nothing else changes.
#[verifier::external_body]
pub(crate) fn set_hard_tab_indent(t: &mut TextBox, enabled: bool)
    ensures
        box_tabs(*final(t)) == (box_tabs(*old(t)).0, enabled),
        box_lines(*final(t)) == box_lines(*old(t)),
        box_cursor(*final(t)) == box_cursor(*old(t)),
        box_selection(*final(t)) == box_selection(*old(t)),
        box_view(*final(t)) == box_view(*old(t)),
        box_yank(*final(t)) == box_yank(*old(t)),
        box_pattern(*final(t)) == box_pattern(*old(t)),
{
    t.area.set_hard_tab_indent(enabled)
}

/// A string with no newline is a single line.
pub proof fn lemma_split_single(s: Seq<char>)
    requires
        !s.contains('\n'),
    ensures
        split_lines(s) == seq![s],
    decreases s.len(),
{
    if s.len() > 0 {
        assert(!s.drop_last().contains('\n')) by {
            if s.drop_last().contains('\n') {
                let i = choose|i: int| 0 <= i < s.drop_last().len() && s.drop_last()[i] == '\n';
                assert(s[i] == '\n');
            }
        }
        lemma_split_single(s.drop_last());
        assert(s.last() != '\n') by {
            assert(s[s.len() - 1] == s.last());
        }
        assert(s.drop_last().push(s.last()) =~= s);
    } else {
        assert(s =~= Seq::<char>::empty());
    }
}

} // verus!
