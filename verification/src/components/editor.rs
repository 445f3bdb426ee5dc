use crate::components::text_box::{
    box_cursor, box_from, box_lines, box_pattern, box_selection, box_tabs, box_valid, box_view, box_yank,
    cursor_of, delete_char, deleted, deleted_times, edited, empty_box, insert_str, inserted, inserted_text,
    lines_of, pattern_compiles, pieces, scroll, scrolled, selection_range_of, selects_text, set_hard_tab_indent,
    set_search_pattern, set_tab_length, set_yank_text, spaces, without_selection, Cursor, TextBox,
};
use vstd::prelude::*;

verus! {

/// A key of the keyboard, as the query editor reads it.
#[derive(Debug, Clone, Copy, PartialEq, Eq, Structural)]
pub enum Key {
    Char(char),
    F(u8),
    Backspace,
    Enter,
    Left,
    Right,
    Up,
    Down,
    Tab,
    Delete,
    Home,
    End,
    PageUp,
    PageDown,
    Esc,
    Copy,
    Cut,
    Paste,
    MouseScrollDown,
    MouseScrollUp,
    Null,
}

/// A key press with its modifiers.
#[derive(Debug, Clone, Copy, PartialEq, Eq, Structural)]
pub struct Input {
    pub key: Key,
    pub ctrl: bool,
    pub alt: bool,
    pub shift: bool,
}

/// The input that stands for no key at all.
pub open spec fn null_input() -> Input {
    Input { key: Key::Null, ctrl: false, alt: false, shift: false }
}

impl Input {
    /// A key pressed with no modifier.
    pub fn plain(key: Key) -> (i: Input)
        ensures
            i == (Input { key, ctrl: false, alt: false, shift: false }),
    {
        Input { key, ctrl: false, alt: false, shift: false }
    }
}

impl Default for Input {
    fn default() -> (i: Input)
        ensures
            i == null_input(),
    {
        Input { key: Key::Null, ctrl: false, alt: false, shift: false }
    }
}

/// The mode of the vim key machine.
#[derive(Debug, Clone, Copy, PartialEq, Eq, Structural)]
pub enum Mode {
    Normal,
    Insert,
    Visual,
    Operator(char),
}

/// The state of the vim key machine: its mode and the input that waits for
/// the next key (the null input when none waits).
#[derive(Debug, Clone, Copy, PartialEq, Eq, Structural)]
pub struct Vim {
    pub mode: Mode,
    pub pending: Input,
}

/// A fresh machine in `mode`, with nothing pending.
pub open spec fn fresh_vim(mode: Mode) -> Vim {
    Vim { mode, pending: null_input() }
}

impl Vim {
    /// A fresh machine in `mode`, with nothing pending.
    pub fn new(mode: Mode) -> (v: Vim)
        ensures
            v == fresh_vim(mode),
    {
        Vim { mode, pending: Input { key: Key::Null, ctrl: false, alt: false, shift: false } }
    }

    /// The same machine, waiting with `pending`.
    pub fn with_pending(self, pending: Input) -> (v: Vim)
        ensures
            v == (Vim { mode: self.mode, pending }),
    {
        Vim { mode: self.mode, pending }
    }
}

/// What the vim key machine made of one input.
#[derive(Debug, Clone, Copy, PartialEq, Eq, Structural)]
pub enum Transition {
    Nop,
    Mode(Mode),
    Pending(Input),
}

/// The messages that the editor sends on its command channel.
#[derive(Debug, PartialEq, Eq)]
pub enum Action {
    /// Run a query: the text's lines, then two flags (the second asks to
    /// bypass the parser).
    Query(Vec<String>, bool, bool),
    CycleFocusForwards,
    RequestSaveFavorite(Vec<String>),
    Quit,
    AbortQuery,
    SubmitEditorQueryBypassParser,
    SubmitEditorQuery,
    QueryToEditor(Vec<String>),
    CopyData(String),
}

/// Where a key press goes.
#[derive(Debug, Clone, Copy, PartialEq, Eq, Structural)]
pub enum Route {
    /// Enter with Alt or Ctrl: submit the query.
    Submit,
    /// Tab without Shift, outside insert mode: move the focus on.
    CycleFocus,
    /// Ctrl-f outside insert mode, or Alt-f: save the query as a favorite.
    SaveFavorite,
    /// Ctrl-c in normal mode: quit.
    Quit,
    /// q in normal mode: abort the running query.
    AbortQuery,
    /// Anything else: the vim key machine.
    Vim,
}

/// The route of `input` in `mode`; the first rule that matches wins.
pub open spec fn route_of(input: Input, mode: Mode) -> Route {
    if input.key == Key::Enter && (input.alt || input.ctrl) {
        Route::Submit
    } else if input.key == Key::Tab && !input.shift && mode != Mode::Insert {
        Route::CycleFocus
    } else if input.key == Key::Char('f') && input.ctrl && mode != Mode::Insert {
        Route::SaveFavorite
    } else if input.key == Key::Char('f') && input.alt {
        Route::SaveFavorite
    } else if input.key == Key::Char('c') && input.ctrl && mode == Mode::Normal {
        Route::Quit
    } else if input.key == Key::Char('q') && mode == Mode::Normal {
        Route::AbortQuery
    } else {
        Route::Vim
    }
}

/// The route of `input` in `mode`.
pub fn route(input: &Input, mode: Mode) -> (r: Route)
    ensures
        r == route_of(*input, mode),
{
    match input {
        Input { key: Key::Enter, alt: true, .. } | Input { key: Key::Enter, ctrl: true, .. } => Route::Submit,
        Input { key: Key::Tab, shift: false, .. } if !matches!(mode, Mode::Insert) => Route::CycleFocus,
        Input { key: Key::Char('f'), ctrl: true, .. } if !matches!(mode, Mode::Insert) => Route::SaveFavorite,
        Input { key: Key::Char('f'), alt: true, .. } => Route::SaveFavorite,
        Input { key: Key::Char('c'), ctrl: true, .. } if matches!(mode, Mode::Normal) => Route::Quit,
        Input { key: Key::Char('q'), .. } if matches!(mode, Mode::Normal) => Route::AbortQuery,
        _ => Route::Vim,
    }
}


/// Whether padding typed at the right edge may still be taken back.
#[derive(Debug, Clone, Copy, PartialEq, Eq, Structural)]
pub enum Limit {
    Stop,
    Delete,
}

/// The auto-completion state of the editor.
#[derive(Debug, Clone, Copy, PartialEq, Eq, Structural)]
pub struct AutoComplete {
    pub limit: Limit,
    /// The cursor column seen at the last frame.
    pub cursor: usize,
    pub active: bool,
    pub test: bool,
    pub test1: bool,
}

impl Default for AutoComplete {
    fn default() -> (a: AutoComplete)
        ensures
            a == (AutoComplete { limit: Limit::Stop, cursor: 0, active: false, test: false, test1: false }),
    {
        AutoComplete { limit: Limit::Stop, cursor: 0, active: false, test: false, test1: false }
    }
}

/// What a frame does to the text at the right edge.
#[derive(Debug, Clone, Copy, PartialEq, Eq, Structural)]
pub enum PadEdit {
    Keep,
    /// Insert this many spaces at the cursor.
    InsertSpaces(usize),
    /// Delete this many characters before the cursor.
    DeleteChars(usize),
}

/// The edit a frame makes, and the next `limit`, when the cursor is at
/// column `col` and the edge lies at column `limit` with `rest` columns of
/// room: at or past the edge, a cursor that moved exactly one column since
/// the last frame gets `rest` spaces of padding; otherwise padding that may
/// still be taken back (`Delete`) is deleted, `rest` characters.
pub open spec fn pad_step(ac: AutoComplete, col: usize, limit: usize, rest: usize) -> (PadEdit, Limit) {
    if col >= limit {
        if col.saturating_sub(ac.cursor) == 1 {
            (PadEdit::InsertSpaces(rest), Limit::Delete)
        } else if ac.limit == Limit::Delete {
            (PadEdit::DeleteChars(rest), Limit::Stop)
        } else {
            (PadEdit::Keep, ac.limit)
        }
    } else {
        (PadEdit::Keep, ac.limit)
    }
}

/// A mouse button.
#[derive(Debug, Clone, Copy, PartialEq, Eq, Structural)]
pub enum MouseButton {
    Left,
    Right,
    Middle,
}

/// What the mouse did.
#[derive(Debug, Clone, Copy, PartialEq, Eq, Structural)]
pub enum MouseEventKind {
    Down(MouseButton),
    Up(MouseButton),
    Drag(MouseButton),
    Moved,
    ScrollDown,
    ScrollUp,
    ScrollLeft,
    ScrollRight,
}

/// An event as the editor component receives it.
#[derive(Debug, PartialEq, Eq)]
pub enum EditorEvent {
    Paste(String),
    Mouse(MouseEventKind),
    Key(Input),
    Other,
}

/// The key that a sideways scroll stands for: `h` to the left, `j` to the
/// right.
pub open spec fn mouse_key(kind: MouseEventKind) -> Option<Input> {
    match kind {
        MouseEventKind::ScrollLeft => Some(Input { key: Key::Char('h'), ctrl: false, alt: false, shift: false }),
        MouseEventKind::ScrollRight => Some(Input { key: Key::Char('j'), ctrl: false, alt: false, shift: false }),
        _ => None,
    }
}

/// The rows that the wheel scrolls by: one down, or one up.
pub open spec fn wheel_rows(kind: MouseEventKind) -> Option<i16> {
    match kind {
        MouseEventKind::ScrollDown => Some(1i16),
        MouseEventKind::ScrollUp => Some(-1i16),
        _ => None,
    }
}

/// The query editor: its text box, the state of its vim key machine, the
/// mode whose cursor style the text box shows, its auto-completion state,
/// and the command channel `S` it sends actions on once one is registered.
/// It keeps the keyword search pattern that its text box highlights, which
/// always compiles.
pub struct Editor<'a, S> {
    command_tx: Option<S>,
    textarea: TextBox<'a>,
    auto_complete: AutoComplete,
    vim_state: Vim,
    cursor_style: Mode,
    search_pattern: SearchPattern,
    last_query_duration: Option<i128>,
}

/// A non-empty search pattern that compiles.
struct SearchPattern {
    text: String,
}

impl SearchPattern {
    #[verifier::type_invariant]
    spec fn compiles(self) -> bool {
        self.text@.len() > 0 && pattern_compiles(self.text@)
    }
}

/// What can be seen of a query editor; `pattern` is the keyword search
/// pattern that it gives its text box, and `last_query_duration` how long
/// the last query took, in nanoseconds.
pub struct EditorView<'a, S> {
    pub command_tx: Option<S>,
    pub textarea: TextBox<'a>,
    pub auto_complete: AutoComplete,
    pub vim_state: Vim,
    pub cursor_style: Mode,
    pub pattern: Seq<char>,
    pub last_query_duration: Option<i128>,
}

impl<'a, S> View for Editor<'a, S> {
    type V = EditorView<'a, S>;

    closed spec fn view(&self) -> EditorView<'a, S> {
        EditorView {
            command_tx: self.command_tx,
            textarea: self.textarea,
            auto_complete: self.auto_complete,
            vim_state: self.vim_state,
            cursor_style: self.cursor_style,
            pattern: self.search_pattern.text@,
            last_query_duration: self.last_query_duration,
        }
    }
}

/// `v` holds the lines of the text box `t`.
pub open spec fn holds_lines(v: Vec<String>, t: TextBox) -> bool {
    v@.map_values(|l: String| l@) == box_lines(t)
}

/// `r` is what sending `action` through `send` on `tx` gave, or `Ok` when no
/// channel is registered (and nothing is sent).
pub open spec fn sent<S, E, F: FnOnce(&S, Action) -> Result<(), E>>(
    send: F,
    tx: Option<S>,
    action: Action,
    r: Result<(), E>,
) -> bool {
    match tx {
        Some(s) => call_ensures(send, (&s, action), r),
        None => r is Ok,
    }
}

/// `r` is what sending the action that `make` builds from the text box's
/// lines gave (see `sent`).
pub open spec fn sent_with_lines<S, E, F: FnOnce(&S, Action) -> Result<(), E>>(
    send: F,
    tx: Option<S>,
    t: TextBox,
    make: spec_fn(Vec<String>) -> Action,
    r: Result<(), E>,
) -> bool {
    match tx {
        Some(s) => exists|v: Vec<String>| holds_lines(v, t) && call_ensures(send, (&s, make(v)), r),
        None => r is Ok,
    }
}

/// The query that submitting the editor sends.
pub open spec fn submit_query(v: Vec<String>) -> Action {
    Action::Query(v, false, false)
}

/// The query that submitting the editor past the parser sends.
pub open spec fn bypass_query(v: Vec<String>) -> Action {
    Action::Query(v, false, true)
}

/// The request to save the editor's text as a favorite.
pub open spec fn favorite(v: Vec<String>) -> Action {
    Action::RequestSaveFavorite(v)
}

impl<'a, S> EditorView<'a, S> {
    /// The editor after a query was sent: back to a fresh normal mode.
    pub open spec fn submitted(self) -> EditorView<'a, S> {
        EditorView { vim_state: fresh_vim(Mode::Normal), cursor_style: Mode::Normal, ..self }
    }

    /// The editor after `input` went to the vim machine, which answered `t`
    /// and left the text box `tb`. In insert mode auto-completion is switched
    /// on by any key but Backspace, space and Esc, and off by those. A change
    /// of mode starts a fresh machine in the new mode and takes its cursor
    /// style; a pending input is kept by the machine; otherwise the machine
    /// stays as it was.
    pub open spec fn after_vim(self, input: Input, t: Transition, tb: TextBox<'a>) -> EditorView<'a, S> {
        let ac = if self.vim_state.mode == Mode::Insert {
            AutoComplete {
                active: input.key != Key::Backspace && input.key != Key::Char(' ') && input.key != Key::Esc,
                ..self.auto_complete
            }
        } else {
            self.auto_complete
        };
        match t {
            Transition::Mode(m) => if m != self.vim_state.mode {
                EditorView { textarea: tb, auto_complete: ac, vim_state: fresh_vim(m), cursor_style: m, ..self }
            } else {
                EditorView { textarea: tb, auto_complete: ac, ..self }
            },
            Transition::Nop => EditorView { textarea: tb, auto_complete: ac, ..self },
            Transition::Pending(p) => EditorView {
                textarea: tb,
                auto_complete: ac,
                vim_state: Vim { mode: self.vim_state.mode, pending: p },
                ..self
            },
        }
    }

    /// The edit that a frame makes at the right edge, and the next `limit`,
    /// for the column of the text box's cursor: as `pad_step` says, except
    /// that a text box whose cursor or selection lies off its lines is not
    /// edited and keeps its limit.
    pub open spec fn frame_step(self, limit: usize, rest: usize) -> (PadEdit, Limit) {
        let step = pad_step(self.auto_complete, box_cursor(self.textarea).1, limit, rest);
        if step.0 != PadEdit::Keep && !box_valid(self.textarea) {
            (PadEdit::Keep, self.auto_complete.limit)
        } else {
            step
        }
    }

    /// The same editor with the text box `tb`.
    pub open spec fn with_text(self, tb: TextBox<'a>) -> EditorView<'a, S> {
        EditorView { textarea: tb, ..self }
    }
}

/// `after` and `r` are what feeding `input` to the vim machine makes of
/// `before`: the machine, the input and the text box go to `vim`, whose
/// answer is taken as `after_vim` says; then the editor's channel goes to
/// `register` (the machine registers it), whose result is the result.
pub open spec fn vim_stepped<'a, S, E, V, R>(
    before: EditorView<'a, S>,
    after: EditorView<'a, S>,
    input: Input,
    vim: V,
    register: R,
    r: Result<(), E>,
) -> bool where
    V: FnOnce(Vim, Input, TextBox<'a>) -> (Transition, TextBox<'a>),
    R: FnOnce(&Option<S>) -> Result<(), E>,
 {
    exists|t: Transition, tb: TextBox<'a>|
        {
            &&& call_ensures(vim, (before.vim_state, input, before.textarea), (t, tb))
            &&& call_ensures(register, (&before.command_tx,), r)
            &&& after == before.after_vim(input, t, tb)
        }
}

/// `after` and `r` are what a submit makes of `before`, while no query runs:
/// with a channel, the query of the text's lines is sent; once it is sent
/// the machine returns to a fresh normal mode and the channel goes to
/// `register`, and once that succeeds the cursor style is normal mode's too.
/// The first failure, of the send or of `register`, is the result.
pub open spec fn submitted_with<'a, S, E, F, R>(
    before: EditorView<'a, S>,
    after: EditorView<'a, S>,
    send: F,
    register: R,
    r: Result<(), E>,
) -> bool where F: FnOnce(&S, Action) -> Result<(), E>, R: FnOnce(&Option<S>) -> Result<(), E> {
    match before.command_tx {
        None => r is Ok && after == before,
        Some(s) => exists|v: Vec<String>, sr: Result<(), E>|
            {
                &&& holds_lines(v, before.textarea)
                &&& call_ensures(send, (&s, submit_query(v)), sr)
                &&& match sr {
                    Err(e) => r == Err::<(), E>(e) && after == before,
                    Ok(_) => {
                        &&& call_ensures(register, (&before.command_tx,), r)
                        &&& after == if r is Ok {
                            before.submitted()
                        } else {
                            EditorView { vim_state: fresh_vim(Mode::Normal), ..before }
                        }
                    },
                }
            },
    }
}

/// `after` and `r` are what handling the key press `input` makes of
/// `before`. The route of `input` decides:
/// - Submit: while a query runs nothing happens; otherwise as
///   `submitted_with` says;
/// - CycleFocus, SaveFavorite, Quit, AbortQuery: `CycleFocusForwards`,
///   `RequestSaveFavorite` of the text's lines, `Quit` or `AbortQuery` is
///   sent, and nothing changes;
/// - Vim: as `vim_stepped` says.
/// Nothing is sent while no channel is registered; a failed send is the
/// result.
pub open spec fn key_handled<'a, S, E, F, V, R>(
    before: EditorView<'a, S>,
    after: EditorView<'a, S>,
    input: Input,
    query_task_running: bool,
    send: F,
    vim: V,
    register: R,
    r: Result<(), E>,
) -> bool where
    F: FnOnce(&S, Action) -> Result<(), E>,
    V: FnOnce(Vim, Input, TextBox<'a>) -> (Transition, TextBox<'a>),
    R: FnOnce(&Option<S>) -> Result<(), E>,
 {
    match route_of(input, before.vim_state.mode) {
        Route::Submit => if query_task_running {
            r is Ok && after == before
        } else {
            submitted_with(before, after, send, register, r)
        },
        Route::CycleFocus => sent(send, before.command_tx, Action::CycleFocusForwards, r) && after == before,
        Route::SaveFavorite => sent_with_lines(send, before.command_tx, before.textarea, |v: Vec<String>| favorite(v), r)
            && after == before,
        Route::Quit => sent(send, before.command_tx, Action::Quit, r) && after == before,
        Route::AbortQuery => sent(send, before.command_tx, Action::AbortQuery, r) && after == before,
        Route::Vim => vim_stepped(before, after, input, vim, register, r),
    }
}

/// `after` and `r` are what the mouse event `kind` makes of `before`:
/// nothing happens without the focus; the wheel scrolls the text box by one
/// row down or up (see `scrolled`), unless it holds no line at all; a
/// sideways scroll feeds its key (which always goes to the vim machine) as
/// `vim_stepped` says.
pub open spec fn mouse_handled<'a, S, E, V, R>(
    before: EditorView<'a, S>,
    after: EditorView<'a, S>,
    kind: MouseEventKind,
    focused: bool,
    vim: V,
    register: R,
    r: Result<(), E>,
) -> bool where
    V: FnOnce(Vim, Input, TextBox<'a>) -> (Transition, TextBox<'a>),
    R: FnOnce(&Option<S>) -> Result<(), E>,
 {
    if !focused {
        r is Ok && after == before
    } else {
        match (wheel_rows(kind), mouse_key(kind)) {
            (Some(rows), _) => r is Ok && if box_lines(before.textarea).len() > 0 {
                &&& after == before.with_text(after.textarea)
                &&& scrolled(before.textarea, after.textarea, rows, 0)
            } else {
                after == before
            },
            (None, Some(i)) => route_of(i, before.vim_state.mode) == Route::Vim && vim_stepped(
                before,
                after,
                i,
                vim,
                register,
                r,
            ),
            (None, None) => r is Ok && after == before,
        }
    }
}

/// `after` is `before` with `text` pasted into its text box: the selection
/// is deleted and `text` goes in at the cursor (see `insert_str`). A text
/// box whose cursor or selection lies off its lines is left as it is.
pub open spec fn pasted<'a, S>(before: EditorView<'a, S>, after: EditorView<'a, S>, text: Seq<char>) -> bool {
    if box_valid(before.textarea) {
        let t = before.textarea;
        let cleared = without_selection(box_lines(t), box_cursor(t), box_selection(t));
        &&& after == before.with_text(after.textarea)
        &&& edited(t, after.textarea, inserted_text(cleared.0, cleared.1, text))
    } else {
        after == before
    }
}

/// The actions that a key press may send (see `key_handled`): the query of
/// the text's lines for a submit while no query runs, the lines as a
/// favorite, or the command of the key; nothing for the vim machine.
pub open spec fn key_may_send<'a, S>(before: EditorView<'a, S>, input: Input, query_task_running: bool, a: Action) -> bool {
    match route_of(input, before.vim_state.mode) {
        Route::Submit => !query_task_running && exists|v: Vec<String>|
            holds_lines(v, before.textarea) && a == submit_query(v),
        Route::CycleFocus => a == Action::CycleFocusForwards,
        Route::SaveFavorite => exists|v: Vec<String>| holds_lines(v, before.textarea) && a == favorite(v),
        Route::Quit => a == Action::Quit,
        Route::AbortQuery => a == Action::AbortQuery,
        Route::Vim => false,
    }
}

/// The actions that handling `action` may send (see `update`): the query
/// of the text's lines, past the parser or not, for the two submit
/// requests; nothing otherwise.
pub open spec fn update_may_send<'a, S>(before: EditorView<'a, S>, action: Action, a: Action) -> bool {
    match action {
        Action::SubmitEditorQueryBypassParser => exists|v: Vec<String>|
            holds_lines(v, before.textarea) && a == bypass_query(v),
        Action::SubmitEditorQuery => exists|v: Vec<String>| holds_lines(v, before.textarea) && a == submit_query(v),
        _ => false,
    }
}

/// A point in time: seconds since the epoch, and nanoseconds within the
/// second.
pub type Instant = (i64, u32);

/// The nanoseconds from `a` to `b`.
pub open spec fn nanos_between(a: Instant, b: Instant) -> int {
    (b.0 - a.0) * 1_000_000_000 + (b.1 - a.1)
}

/// How long the last query took, in nanoseconds, once a query has started at
/// `start`: until `end` when it has ended, and until `now` while it runs;
/// `previous` while no query has started.
pub open spec fn query_duration(
    previous: Option<i128>,
    start: Option<Instant>,
    end: Option<Instant>,
    now: Instant,
) -> Option<i128> {
    match start {
        Some(s) => Some(
            match end {
                Some(e) => nanos_between(s, e) as i128,
                None => nanos_between(s, now) as i128,
            },
        ),
        None => previous,
    }
}

/// The nanoseconds from `a` to `b`.
fn elapsed(a: Instant, b: Instant) -> (d: i128)
    ensures
        d == nanos_between(a, b),
{
    let secs: i128 = b.0 as i128 - a.0 as i128;
    assert(-0x1_0000_0000_0000_0000 <= secs <= 0x1_0000_0000_0000_0000);
    assert(-0x1_0000_0000_0000_0000 * 1_000_000_000 <= secs * 1_000_000_000 <= 0x1_0000_0000_0000_0000
        * 1_000_000_000) by (nonlinear_arith)
        requires
            -0x1_0000_0000_0000_0000 <= secs <= 0x1_0000_0000_0000_0000,
    ;
    secs * 1_000_000_000 + (b.1 as i128 - a.1 as i128)
}

/// The text and cursor after deleting `n` times before the cursor, the
/// first deletion taking the selection when it covers some text.
pub open spec fn deleted_n(lines: Seq<Seq<char>>, cursor: Cursor, start: Option<Cursor>, n: nat) -> (
    Seq<Seq<char>>,
    Cursor,
) {
    if n == 0 {
        (lines, cursor)
    } else {
        let first = if selects_text(lines, cursor, start) {
            without_selection(lines, cursor, start)
        } else {
            deleted(lines, cursor)
        };
        deleted_times(first.0, first.1, (n - 1) as nat)
    }
}

/// `after` is the text box `before` drawn: tabs two columns long and soft,
/// the text and cursor `state`, the selection `sel`, and the view, paste
/// text and search pattern of `before`.
pub open spec fn framed(before: TextBox, after: TextBox, state: (Seq<Seq<char>>, Cursor), sel: Option<Cursor>) -> bool {
    &&& (box_lines(after), box_cursor(after)) == state
    &&& box_selection(after) == sel
    &&& box_view(after) == box_view(before)
    &&& box_yank(after) == box_yank(before)
    &&& box_pattern(after) == box_pattern(before)
    &&& box_tabs(after) == (2u8, false)
}

/// The search pattern that highlights `keywords`: any of them, in any case,
/// as a whole word (not inside a run of letters, digits, quotes, backquotes,
/// dots or underscores).
pub open spec fn keyword_pattern(keywords: Seq<Seq<char>>) -> Seq<char> {
    "(?i)(^|[^a-zA-Z0-9'\"`._]+)("@ + joined(keywords, "|"@) + ")($|[^a-zA-Z0-9'\"`._]+)"@
}

/// The words joined into one string, `sep` between each two.
pub open spec fn joined(words: Seq<Seq<char>>, sep: Seq<char>) -> Seq<char>
    decreases words.len(),
{
    if words.len() == 0 {
        Seq::empty()
    } else if words.len() == 1 {
        words[0]
    } else {
        joined(words.drop_last(), sep) + sep + words.last()
    }
}

/// The search pattern that highlights `keywords`, as `keyword_pattern`
/// says.
pub fn keyword_regex(keywords: &Vec<String>) -> (pattern: String)
    ensures
        pattern@ == keyword_pattern(keywords@.map_values(|k: String| k@)),
{
    let ghost words = keywords@.map_values(|k: String| k@);
    let mut pattern = String::from_str("(?i)(^|[^a-zA-Z0-9'\"`._]+)(");
    let ghost start = pattern@;
    let n = keywords.len();
    let mut i: usize = 0;
    while i < n
        invariant
            n == keywords@.len(),
            words == keywords@.map_values(|k: String| k@),
            i <= n,
            pattern@ == start + joined(words.take(i as int), "|"@),
        decreases n - i,
    {
        if i != 0 {
            pattern.append("|");
        }
        pattern.append(keywords[i].as_str());
        assert(words.take(i + 1).drop_last() =~= words.take(i as int));
        i = i + 1;
    }
    assert(words.take(n as int) =~= words);
    pattern.append(")($|[^a-zA-Z0-9'\"`._]+)");
    pattern
}

/// A string of `n` spaces.
fn spaces_string(n: usize) -> (s: String)
    ensures
        s@ == spaces(n as nat),
{
    let mut s = String::new();
    let mut i: usize = 0;
    while i < n
        invariant
            i <= n,
            s@ == spaces(i as nat),
        decreases n - i,
    {
        proof {
            reveal_strlit(" ");
        }
        s.append(" ");
        assert(s@ =~= spaces((i + 1) as nat));
        i = i + 1;
    }
    s
}

/// Whether the cursor and the selection's start of `t` stand on its lines.
fn is_valid(t: &TextBox) -> (b: bool)
    ensures
        b == box_valid(*t),
{
    let n = lines_of(t).len();
    let (row, _col) = cursor_of(t);
    if row >= n {
        return false;
    }
    match selection_range_of(t) {
        Some((_first, last)) => last.0 < n,
        None => true,
    }
}

impl<'a, S> Editor<'a, S> {
    /// A new editor with an empty text box that highlights `keywords`, in
    /// normal mode, with no command channel and no query duration.
    pub fn new(keywords: &Vec<String>) -> (e: Editor<'a, S>)
        requires
            pattern_compiles(keyword_pattern(keywords@.map_values(|k: String| k@))),
        ensures
            e@.command_tx is None,
            box_lines(e@.textarea) == seq![Seq::<char>::empty()],
            box_cursor(e@.textarea) == (0usize, 0usize),
            box_selection(e@.textarea) is None,
            box_view(e@.textarea) == (0u16, 0u16, 0u16, 0u16),
            box_yank(e@.textarea) == seq![Seq::<char>::empty()],
            box_tabs(e@.textarea) == (4u8, false),
            e@.pattern == keyword_pattern(keywords@.map_values(|k: String| k@)),
            box_pattern(e@.textarea) == Some(e@.pattern),
            e@.auto_complete == (AutoComplete { limit: Limit::Stop, cursor: 0, active: false, test: false, test1: false }),
            e@.vim_state == fresh_vim(Mode::Normal),
            e@.cursor_style == Mode::Normal,
            e@.last_query_duration is None,
    {
        let pattern = keyword_regex(keywords);
        proof {
            reveal_strlit("(?i)(^|[^a-zA-Z0-9'\"`._]+)(");
        }
        assert(pattern@.len() > 0);
        let mut textarea = empty_box();
        let compiled = set_search_pattern(&mut textarea, pattern.as_str());
        assert(compiled);
        Editor {
            command_tx: None,
            textarea,
            auto_complete: AutoComplete::default(),
            vim_state: Vim::new(Mode::Normal),
            cursor_style: Mode::Normal,
            search_pattern: SearchPattern { text: pattern },
            last_query_duration: None,
        }
    }

    /// A new editor as `new` makes it, when the search pattern of `keywords`
    /// compiles; `None` otherwise.
    pub fn try_new(keywords: &Vec<String>) -> (r: Option<Editor<'a, S>>)
        ensures
            r is Some <==> pattern_compiles(keyword_pattern(keywords@.map_values(|k: String| k@))),
            r matches Some(e) ==> {
                &&& e@.command_tx is None
                &&& box_lines(e@.textarea) == seq![Seq::<char>::empty()]
                &&& box_cursor(e@.textarea) == (0usize, 0usize)
                &&& box_selection(e@.textarea) is None
                &&& box_view(e@.textarea) == (0u16, 0u16, 0u16, 0u16)
                &&& box_yank(e@.textarea) == seq![Seq::<char>::empty()]
                &&& box_tabs(e@.textarea) == (4u8, false)
                &&& e@.pattern == keyword_pattern(keywords@.map_values(|k: String| k@))
                &&& box_pattern(e@.textarea) == Some(e@.pattern)
                &&& e@.auto_complete == (AutoComplete {
                    limit: Limit::Stop,
                    cursor: 0,
                    active: false,
                    test: false,
                    test1: false,
                })
                &&& e@.vim_state == fresh_vim(Mode::Normal)
                &&& e@.cursor_style == Mode::Normal
                &&& e@.last_query_duration is None
            },
    {
        let pattern = keyword_regex(keywords);
        let mut probe = empty_box();
        if set_search_pattern(&mut probe, pattern.as_str()) {
            Some(Self::new(keywords))
        } else {
            None
        }
    }

    /// Registers the command channel `tx`: first the channel the editor had
    /// goes to `register` (the vim machine registers it); once that
    /// succeeds the editor keeps `tx`. The result is `register`'s.
    pub fn register_action_handler<E, R>(&mut self, tx: S, register: R) -> (r: Result<(), E>) where
        R: FnOnce(&Option<S>) -> Result<(), E>,

        requires
            forall|c: &Option<S>| call_requires(register, (c,)),
        ensures
            call_ensures(register, (&old(self)@.command_tx,), r),
            r is Ok ==> final(self)@ == (EditorView { command_tx: Some(tx), ..old(self)@ }),
            r is Err ==> final(self)@ == old(self)@,
    {
        let res = register(&self.command_tx);
        match res {
            Ok(unit) => {
                assert(unit == ());
                self.command_tx = Some(tx);
                Ok(())
            },
            Err(e) => Err(e),
        }
    }

    /// Hands the machine, `input` and the text box to `vim` and takes its
    /// answer, as `after_vim` says.
    pub fn feed_vim<V>(&mut self, input: Input, vim: V) where
        V: FnOnce(Vim, Input, TextBox<'a>) -> (Transition, TextBox<'a>),

        requires
            call_requires(vim, (old(self)@.vim_state, input, old(self)@.textarea)),
        ensures
            exists|t: Transition, tb: TextBox<'a>|
                call_ensures(vim, (old(self)@.vim_state, input, old(self)@.textarea), (t, tb)) && final(self)@
                    == old(self)@.after_vim(input, t, tb),
    {
        if matches!(self.vim_state.mode, Mode::Insert) {
            self.auto_complete.active = !matches!(input.key, Key::Backspace | Key::Char(' ') | Key::Esc);
        }
        let current = self.vim_state;
        let mut text = empty_box();
        std::mem::swap(&mut text, &mut self.textarea);
        let (t, tb) = vim(current, input, text);
        self.textarea = tb;
        match t {
            Transition::Mode(m) => {
                if m != current.mode {
                    self.cursor_style = m;
                    self.vim_state = Vim::new(m);
                }
            },
            Transition::Nop => {},
            Transition::Pending(p) => {
                self.vim_state = current.with_pending(p);
            },
        }
        assert(self@ == old(self)@.after_vim(input, t, tb));
    }

    /// The action that the key press `input` sends, if any (see
    /// `key_may_send`): `None` exactly for the vim machine's keys and for a
    /// submit while a query runs.
    pub fn message_for(&self, input: &Input, query_task_running: bool) -> (m: Option<Action>)
        ensures
            m is None <==> (route_of(*input, self@.vim_state.mode) == Route::Vim || (route_of(
                *input,
                self@.vim_state.mode,
            ) == Route::Submit && query_task_running)),
            m matches Some(a) ==> key_may_send(self@, *input, query_task_running, a),
    {
        match route(input, self.vim_state.mode) {
            Route::Submit => if query_task_running {
                None
            } else {
                let v = lines_of(&self.textarea);
                assert(holds_lines(v, self@.textarea) && Action::Query(v, false, false) == submit_query(v));
                Some(Action::Query(v, false, false))
            },
            Route::CycleFocus => Some(Action::CycleFocusForwards),
            Route::SaveFavorite => {
                let v = lines_of(&self.textarea);
                assert(holds_lines(v, self@.textarea) && Action::RequestSaveFavorite(v) == favorite(v));
                Some(Action::RequestSaveFavorite(v))
            },
            Route::Quit => Some(Action::Quit),
            Route::AbortQuery => Some(Action::AbortQuery),
            Route::Vim => None,
        }
    }

    /// Feeds `input` to the vim machine, as `vim_stepped` says.
    fn vim_step<E, V, R>(&mut self, input: Input, vim: V, register: R) -> (r: Result<(), E>) where
        V: FnOnce(Vim, Input, TextBox<'a>) -> (Transition, TextBox<'a>),
        R: FnOnce(&Option<S>) -> Result<(), E>,

        requires
            forall|v: Vim, i: Input, t: TextBox<'a>| call_requires(vim, (v, i, t)),
            forall|c: &Option<S>| call_requires(register, (c,)),
        ensures
            vim_stepped(old(self)@, final(self)@, input, vim, register, r),
    {
        self.feed_vim(input, vim);
        register(&self.command_tx)
    }

    /// Handles a key press, as `key_handled` says. `send` is only ever
    /// called with an action that `key_may_send` allows.
    pub fn transition_vim_state<E, F, V, R>(
        &mut self,
        input: Input,
        query_task_running: bool,
        send: F,
        vim: V,
        register: R,
    ) -> (r: Result<(), E>) where
        F: FnOnce(&S, Action) -> Result<(), E>,
        V: FnOnce(Vim, Input, TextBox<'a>) -> (Transition, TextBox<'a>),
        R: FnOnce(&Option<S>) -> Result<(), E>,

        requires
            forall|s: &S, a: Action|
                key_may_send(old(self)@, input, query_task_running, a) ==> call_requires(send, (s, a)),
            forall|v: Vim, i: Input, t: TextBox<'a>| call_requires(vim, (v, i, t)),
            forall|c: &Option<S>| call_requires(register, (c,)),
        ensures
            key_handled(old(self)@, final(self)@, input, query_task_running, send, vim, register, r),
    {
        let route = route(&input, self.vim_state.mode);
        if matches!(route, Route::Vim) {
            return self.vim_step(input, vim, register);
        }
        match self.message_for(&input, query_task_running) {
            Some(action) => match &self.command_tx {
                Some(sender) => {
                    let ghost a = action;
                    let ghost before = self@;
                    let sr = send(sender, action);
                    let ghost gsr = sr;
                    proof {
                        if route == Route::Submit {
                            let v = choose|v: Vec<String>| holds_lines(v, self@.textarea) && a == submit_query(v);
                            assert(holds_lines(v, self@.textarea) && call_ensures(send, (sender, submit_query(v)), gsr));
                        }
                        if route == Route::SaveFavorite {
                            let v = choose|v: Vec<String>| holds_lines(v, self@.textarea) && a == favorite(v);
                            assert(holds_lines(v, self@.textarea) && call_ensures(send, (sender, favorite(v)), gsr));
                        }
                    }
                    match sr {
                        Err(e) => Err(e),
                        Ok(unit) => {
                            assert(unit == ());
                            if matches!(route, Route::Submit) {
                                self.vim_state = Vim::new(Mode::Normal);
                                let rr = register(&self.command_tx);
                                match rr {
                                    Ok(unit2) => {
                                        assert(unit2 == ());
                                        self.cursor_style = Mode::Normal;
                                        assert(self@ == before.submitted());
                                        Ok(())
                                    },
                                    Err(e) => Err(e),
                                }
                            } else {
                                Ok(())
                            }
                        },
                    }
                },
                None => Ok(()),
            },
            None => Ok(()),
        }
    }
}

impl<'a, S> Editor<'a, S> {
    /// Handles an action sent to the editor: the two submit requests send the
    /// query of the text's lines (the first past the parser); `QueryToEditor`
    /// puts its lines in a fresh text box, which highlights the keyword
    /// pattern again; `CopyData` sets the text that a paste inserts; any
    /// other action does nothing. `send` is only ever called with an action
    /// that `update_may_send` allows.
    pub fn update<E, F>(&mut self, action: Action, send: F) -> (r: Result<(), E>) where
        F: FnOnce(&S, Action) -> Result<(), E>,

        requires
            forall|s: &S, a: Action| update_may_send(old(self)@, action, a) ==> call_requires(send, (s, a)),
        ensures
            action == Action::SubmitEditorQueryBypassParser ==> {
                &&& sent_with_lines(send, old(self)@.command_tx, old(self)@.textarea, |v: Vec<String>| bypass_query(v), r)
                &&& final(self)@ == old(self)@
            },
            action == Action::SubmitEditorQuery ==> {
                &&& sent_with_lines(send, old(self)@.command_tx, old(self)@.textarea, |v: Vec<String>| submit_query(v), r)
                &&& final(self)@ == old(self)@
            },
            action matches Action::QueryToEditor(lines) ==> {
                &&& r is Ok
                &&& final(self)@ == old(self)@.with_text(final(self)@.textarea)
                &&& box_lines(final(self)@.textarea) == if lines@.len() == 0 {
                    seq![Seq::<char>::empty()]
                } else {
                    lines@.map_values(|l: String| l@)
                }
                &&& box_cursor(final(self)@.textarea) == (0usize, 0usize)
                &&& box_selection(final(self)@.textarea) is None
                &&& box_view(final(self)@.textarea) == (0u16, 0u16, 0u16, 0u16)
                &&& box_yank(final(self)@.textarea) == seq![Seq::<char>::empty()]
                &&& box_tabs(final(self)@.textarea) == (4u8, false)
                &&& box_pattern(final(self)@.textarea) == Some(old(self)@.pattern)
            },
            action matches Action::CopyData(data) ==> {
                &&& r is Ok
                &&& final(self)@ == old(self)@.with_text(final(self)@.textarea)
                &&& box_yank(final(self)@.textarea) == pieces(data@)
                &&& box_lines(final(self)@.textarea) == box_lines(old(self)@.textarea)
                &&& box_cursor(final(self)@.textarea) == box_cursor(old(self)@.textarea)
                &&& box_selection(final(self)@.textarea) == box_selection(old(self)@.textarea)
                &&& box_view(final(self)@.textarea) == box_view(old(self)@.textarea)
                &&& box_pattern(final(self)@.textarea) == box_pattern(old(self)@.textarea)
                &&& box_tabs(final(self)@.textarea) == box_tabs(old(self)@.textarea)
            },
            !(action is SubmitEditorQueryBypassParser || action is SubmitEditorQuery || action is QueryToEditor
                || action is CopyData) ==> r is Ok && final(self)@ == old(self)@,
    {
        match action {
            Action::SubmitEditorQueryBypassParser => match &self.command_tx {
                Some(sender) => {
                    let v = lines_of(&self.textarea);
                    let ghost gv = v;
                    assert(holds_lines(gv, self@.textarea));
                    let res = send(sender, Action::Query(v, false, true));
                    assert(holds_lines(gv, self.textarea) && call_ensures(send, (sender, bypass_query(gv)), res));
                    res
                },
                None => Ok(()),
            },
            Action::SubmitEditorQuery => match &self.command_tx {
                Some(sender) => {
                    let v = lines_of(&self.textarea);
                    let ghost gv = v;
                    assert(holds_lines(gv, self@.textarea));
                    let res = send(sender, Action::Query(v, false, false));
                    assert(holds_lines(gv, self.textarea) && call_ensures(send, (sender, submit_query(gv)), res));
                    res
                },
                None => Ok(()),
            },
            Action::QueryToEditor(lines) => {
                let mut textarea = box_from(lines);
                proof {
                    use_type_invariant(&self.search_pattern);
                }
                let compiled = set_search_pattern(&mut textarea, self.search_pattern.text.as_str());
                assert(compiled);
                self.textarea = textarea;
                Ok(())
            },
            Action::CopyData(data) => {
                set_yank_text(&mut self.textarea, data);
                Ok(())
            },
            _ => Ok(()),
        }
    }

    /// Handles a mouse event, as `mouse_handled` says.
    pub fn handle_mouse_events<E, V, R>(&mut self, kind: MouseEventKind, focused: bool, vim: V, register: R) -> (r:
        Result<(), E>) where
        V: FnOnce(Vim, Input, TextBox<'a>) -> (Transition, TextBox<'a>),
        R: FnOnce(&Option<S>) -> Result<(), E>,

        requires
            forall|v: Vim, i: Input, t: TextBox<'a>| call_requires(vim, (v, i, t)),
            forall|c: &Option<S>| call_requires(register, (c,)),
        ensures
            mouse_handled(old(self)@, final(self)@, kind, focused, vim, register, r),
    {
        if !focused {
            return Ok(());
        }
        match kind {
            MouseEventKind::ScrollDown => {
                if lines_of(&self.textarea).len() > 0 {
                    scroll(&mut self.textarea, 1, 0);
                }
                Ok(())
            },
            MouseEventKind::ScrollUp => {
                if lines_of(&self.textarea).len() > 0 {
                    scroll(&mut self.textarea, -1, 0);
                }
                Ok(())
            },
            MouseEventKind::ScrollLeft => {
                let i = Input::plain(Key::Char('h'));
                proof {
                    lemma_plain_letters_go_to_vim(i, self.vim_state.mode);
                }
                self.vim_step(i, vim, register)
            },
            MouseEventKind::ScrollRight => {
                let i = Input::plain(Key::Char('j'));
                proof {
                    lemma_plain_letters_go_to_vim(i, self.vim_state.mode);
                }
                self.vim_step(i, vim, register)
            },
            _ => Ok(()),
        }
    }

    /// Handles an event: nothing happens without the focus; a paste goes
    /// into the text box at the cursor (see `pasted`); a mouse event is
    /// handled as `handle_mouse_events` does, a key press as
    /// `transition_vim_state` does; any other event, or none, does nothing.
    /// `send` is only ever called for a key press, with an action that
    /// `key_may_send` allows. A mouse event never fails: `register` must not
    /// fail on a sideways scroll.
    pub fn handle_events<E, F, V, R>(
        &mut self,
        event: Option<EditorEvent>,
        focused: bool,
        query_task_running: bool,
        send: F,
        vim: V,
        register: R,
    ) -> (r: Result<(), E>) where
        F: FnOnce(&S, Action) -> Result<(), E>,
        V: FnOnce(Vim, Input, TextBox<'a>) -> (Transition, TextBox<'a>),
        R: FnOnce(&Option<S>) -> Result<(), E>,

        requires
            forall|s: &S, a: Action|
                (event matches Some(EditorEvent::Key(input)) && key_may_send(old(self)@, input, query_task_running, a))
                    ==> call_requires(send, (s, a)),
            forall|v: Vim, i: Input, t: TextBox<'a>| call_requires(vim, (v, i, t)),
            forall|c: &Option<S>| call_requires(register, (c,)),
            focused && (event matches Some(EditorEvent::Mouse(kind)) && mouse_key(kind) is Some) ==> forall|
                c: &Option<S>,
                rr: Result<(), E>,
            | #[trigger] call_ensures(register, (c,), rr) ==> rr is Ok,
        ensures
            !focused ==> r is Ok && final(self)@ == old(self)@,
            focused ==> match event {
                Some(EditorEvent::Paste(text)) => r is Ok && pasted(old(self)@, final(self)@, text@),
                Some(EditorEvent::Mouse(kind)) => r is Ok && mouse_handled(
                    old(self)@,
                    final(self)@,
                    kind,
                    true,
                    vim,
                    register,
                    r,
                ),
                Some(EditorEvent::Key(input)) => key_handled(
                    old(self)@,
                    final(self)@,
                    input,
                    query_task_running,
                    send,
                    vim,
                    register,
                    r,
                ),
                _ => r is Ok && final(self)@ == old(self)@,
            },
    {
        if !focused {
            return Ok(());
        }
        match event {
            Some(EditorEvent::Paste(text)) => {
                if is_valid(&self.textarea) {
                    insert_str(&mut self.textarea, text);
                }
                Ok(())
            },
            Some(EditorEvent::Mouse(kind)) => {
                let mr = self.handle_mouse_events(kind, true, vim, register);
                match mr {
                    Ok(unit) => {
                        assert(unit == ());
                        Ok(())
                    },
                    Err(e) => {
                        assert(false);
                        Err(e)
                    },
                }
            },
            Some(EditorEvent::Key(input)) => self.transition_vim_state(
                input,
                query_task_running,
                send,
                vim,
                register,
            ),
            _ => Ok(()),
        }
    }

    /// Records how long the last query took (see `query_duration`), given
    /// when it started and ended and the time now.
    pub fn note_query_duration(&mut self, start: Option<Instant>, end: Option<Instant>, now: Instant)
        ensures
            final(self)@ == (EditorView {
                last_query_duration: query_duration(old(self)@.last_query_duration, start, end, now),
                ..old(self)@
            }),
    {
        if let Some(s) = start {
            self.last_query_duration = match end {
                Some(e) => Some(elapsed(s, e)),
                None => Some(elapsed(s, now)),
            };
        }
    }

    /// Draws a frame: records the query duration (see
    /// `note_query_duration`), makes the tabs two columns long and soft,
    /// then makes the edit at the right edge for the cursor's column (see
    /// `frame_step`): `rest` spaces inserted at the cursor (over the
    /// selection), or `rest` deletions before the cursor (the first taking
    /// the selection), or nothing. The frame then records the cursor's column
    /// and switches auto-completion off.
    pub fn draw(
        &mut self,
        limit: usize,
        rest: usize,
        query_start: Option<Instant>,
        query_end: Option<Instant>,
        now: Instant,
    )
        ensures
            ({
                let b = old(self)@;
                let t = b.textarea;
                let step = b.frame_step(limit, rest);
                &&& final(self)@ == (EditorView {
                    textarea: final(self)@.textarea,
                    auto_complete: AutoComplete {
                        limit: step.1,
                        cursor: box_cursor(t).1,
                        active: false,
                        ..b.auto_complete
                    },
                    last_query_duration: query_duration(b.last_query_duration, query_start, query_end, now),
                    ..b
                })
                &&& step.0 == PadEdit::Keep ==> framed(
                    t,
                    final(self)@.textarea,
                    (box_lines(t), box_cursor(t)),
                    box_selection(t),
                )
                &&& step.0 matches PadEdit::InsertSpaces(n) ==> {
                    let cleared = without_selection(box_lines(t), box_cursor(t), box_selection(t));
                    framed(t, final(self)@.textarea, inserted_text(cleared.0, cleared.1, spaces(n as nat)), None)
                }
                &&& step.0 matches PadEdit::DeleteChars(n) ==> framed(
                    t,
                    final(self)@.textarea,
                    deleted_n(box_lines(t), box_cursor(t), box_selection(t), n as nat),
                    if n == 0 { box_selection(t) } else { None },
                )
            }),
    {
        self.note_query_duration(query_start, query_end, now);
        let ghost t0 = self.textarea;
        set_tab_length(&mut self.textarea, 2);
        set_hard_tab_indent(&mut self.textarea, false);
        let (_row, col) = cursor_of(&self.textarea);
        let valid = is_valid(&self.textarea);
        if col >= limit && valid {
            if col.saturating_sub(self.auto_complete.cursor) == 1 {
                let padding = spaces_string(rest);
                insert_str(&mut self.textarea, padding);
                self.auto_complete.limit = Limit::Delete;
            } else {
                match self.auto_complete.limit {
                    Limit::Delete => {
                        let ghost start = (box_lines(self.textarea), box_cursor(self.textarea));
                        let ghost sel = box_selection(self.textarea);
                        let ghost whole = self@;
                        let mut num: usize = 0;
                        while num < rest
                            invariant
                                self@ == whole.with_text(self.textarea),
                                num <= rest,
                                box_valid(self.textarea),
                                framed(
                                    t0,
                                    self.textarea,
                                    deleted_n(start.0, start.1, sel, num as nat),
                                    if num == 0 { sel } else { None },
                                ),
                            decreases rest - num,
                        {
                            delete_char(&mut self.textarea);
                            proof {
                                if num > 0 {
                                    let first = if selects_text(start.0, start.1, sel) {
                                        without_selection(start.0, start.1, sel)
                                    } else {
                                        deleted(start.0, start.1)
                                    };
                                    lemma_deleted_times_step(first.0, first.1, (num - 1) as nat);
                                }
                            }
                            num = num + 1;
                        }
                        self.auto_complete.limit = Limit::Stop;
                    },
                    Limit::Stop => {},
                }
            }
        }
        self.auto_complete.cursor = col;
        self.auto_complete.active = false;
    }

    /// The vim machine's state.
    pub fn vim_state(&self) -> (v: Vim)
        ensures
            v == self@.vim_state,
    {
        self.vim_state
    }

    /// The mode whose cursor style the text box shows.
    pub fn cursor_style(&self) -> (m: Mode)
        ensures
            m == self@.cursor_style,
    {
        self.cursor_style
    }

    /// The auto-completion state.
    pub fn auto_complete(&self) -> (a: AutoComplete)
        ensures
            a == self@.auto_complete,
    {
        self.auto_complete
    }

    /// Whether a command channel is registered.
    pub fn has_command_tx(&self) -> (b: bool)
        ensures
            b == self@.command_tx is Some,
    {
        self.command_tx.is_some()
    }

    /// How long the last query took, in nanoseconds.
    pub fn last_query_duration(&self) -> (d: Option<i128>)
        ensures
            d == self@.last_query_duration,
    {
        self.last_query_duration
    }

    /// The text box.
    pub fn text_box(&self) -> (t: &TextBox<'a>)
        ensures
            *t == self@.textarea,
    {
        &self.textarea
    }

    /// The lines of the text box.
    pub fn lines(&self) -> (v: Vec<String>)
        ensures
            holds_lines(v, self@.textarea),
    {
        lines_of(&self.textarea)
    }

    /// The cursor of the text box.
    pub fn cursor(&self) -> (c: Cursor)
        ensures
            c == box_cursor(self@.textarea),
    {
        cursor_of(&self.textarea)
    }
}

/// Deleting `n + 1` times is deleting `n` times and then once more.
proof fn lemma_deleted_times_step(lines: Seq<Seq<char>>, cursor: Cursor, n: nat)
    ensures
        deleted_times(lines, cursor, n + 1) == ({
            let m = deleted_times(lines, cursor, n);
            deleted(m.0, m.1)
        }),
    decreases n,
{
    let d = deleted(lines, cursor);
    if n == 0 {
        assert(deleted_times(d.0, d.1, 0) == d);
    } else {
        lemma_deleted_times_step(d.0, d.1, (n - 1) as nat);
        assert(deleted_times(lines, cursor, n) == deleted_times(d.0, d.1, (n - 1) as nat));
        assert(deleted_times(lines, cursor, n + 1) == deleted_times(d.0, d.1, n));
    }
}

/// A letter typed with no modifier, other than `q`, goes to the vim machine
/// in every mode.
pub proof fn lemma_plain_letters_go_to_vim(input: Input, mode: Mode)
    requires
        input.key is Char,
        input.key != Key::Char('q'),
        !input.ctrl,
        !input.alt,
    ensures
        route_of(input, mode) == Route::Vim,
{
}

/// In insert mode every key typed without Ctrl and Alt goes to the vim
/// machine: typing never sends a message.
pub proof fn lemma_insert_mode_types(input: Input)
    requires
        !input.ctrl,
        !input.alt,
    ensures
        route_of(input, Mode::Insert) == Route::Vim,
{
}

/// The cursor style shown is the style of the vim mode, once it is so:
/// every change of the editor keeps it.
pub proof fn lemma_cursor_style_follows_mode<'a, S>(
    e: EditorView<'a, S>,
    input: Input,
    t: Transition,
    tb: TextBox<'a>,
)
    requires
        e.cursor_style == e.vim_state.mode,
    ensures
        e.after_vim(input, t, tb).cursor_style == e.after_vim(input, t, tb).vim_state.mode,
        e.submitted().cursor_style == e.submitted().vim_state.mode,
{
}

/// Padding put in when the cursor reached the edge is taken back, `rest`
/// characters, at the next frame at or past the edge unless the cursor then
/// moved by exactly one column again.
pub proof fn lemma_padding_is_taken_back(ac: AutoComplete, col1: usize, col2: usize, limit: usize, rest: usize)
    requires
        col1 >= limit,
        col1.saturating_sub(ac.cursor) == 1,
        col2 >= limit,
        col2.saturating_sub(col1) != 1,
    ensures
        pad_step(ac, col1, limit, rest) == (PadEdit::InsertSpaces(rest), Limit::Delete),
        pad_step(
            AutoComplete { limit: pad_step(ac, col1, limit, rest).1, cursor: col1, active: false, ..ac },
            col2,
            limit,
            rest,
        ) == (PadEdit::DeleteChars(rest), Limit::Stop),
{
}

/// Deleting `m` characters before a cursor that stands just past `m`
/// spaces, inserted at column `c` of line `row`, takes the spaces out
/// again and puts the cursor back at `c`.
proof fn lemma_spaces_deleted(lines: Seq<Seq<char>>, row: usize, c: usize, m: nat)
    requires
        row < lines.len(),
        c <= lines[row as int].len(),
        c + m <= usize::MAX,
    ensures
        deleted_times(
            lines.update(row as int, lines[row as int].take(c as int) + spaces(m) + lines[row as int].skip(c as int)),
            (row, (c + m) as usize),
            m,
        ) == (lines, (row, c)),
    decreases m,
{
    let line = lines[row as int];
    if m == 0 {
        assert(line.take(c as int) + spaces(0) + line.skip(c as int) =~= line);
        assert(lines.update(row as int, line) =~= lines);
    } else {
        let padded = lines.update(row as int, line.take(c as int) + spaces(m) + line.skip(c as int));
        let shorter = lines.update(row as int, line.take(c as int) + spaces((m - 1) as nat) + line.skip(c as int));
        assert(padded[row as int].remove(c + m - 1) =~= shorter[row as int]);
        assert(padded.update(row as int, padded[row as int].remove(c + m - 1)) =~= shorter);
        assert(deleted(padded, (row, (c + m) as usize)) == (shorter, (row, (c + m - 1) as usize)));
        lemma_spaces_deleted(lines, row, c, (m - 1) as nat);
    }
}

/// Padding is undone by deleting as many characters: inserting `n` spaces
/// at a cursor that stands on a line, within it, and then deleting `n`
/// characters before the cursor gives back the text and the cursor.
pub proof fn lemma_padding_undone(lines: Seq<Seq<char>>, cursor: Cursor, n: nat)
    requires
        cursor.0 < lines.len(),
        cursor.1 <= lines[cursor.0 as int].len(),
        cursor.1 + n <= usize::MAX,
    ensures
        ({
            let p = inserted(lines, cursor, spaces(n));
            deleted_times(p.0, p.1, n) == (lines, cursor)
        }),
{
    lemma_spaces_deleted(lines, cursor.0, cursor.1, n);
}
/// Enter with Ctrl or Alt submits the query in every mode of the vim machine.
pub proof fn lemma_enter_with_modifier_submits(input: Input, mode: Mode)
    requires
        input.key == Key::Enter,
        input.ctrl || input.alt,
    ensures
        route_of(input, mode) == Route::Submit,
{
}

/// Outside insert mode the command keys are taken by the editor, in every
/// such mode: Tab without Shift moves the focus on, and Ctrl-f saves a
/// favorite; Alt-f saves a favorite in every mode. In insert mode Tab and
/// Ctrl-f are typed: they go to the vim machine.
pub proof fn lemma_command_keys_outside_insert(input: Input, mode: Mode)
    ensures
        mode != Mode::Insert && input.key == Key::Tab && !input.shift ==> route_of(input, mode) == Route::CycleFocus,
        mode != Mode::Insert && input.key == Key::Char('f') && input.ctrl ==> route_of(input, mode)
            == Route::SaveFavorite,
        input.key == Key::Char('f') && input.alt ==> route_of(input, mode) == Route::SaveFavorite,
        mode == Mode::Insert && (input.key == Key::Tab || input.key == Key::Char('f')) && !input.alt
            ==> route_of(input, mode) == Route::Vim,
{
}

/// Ctrl-c quits and `q` aborts the running query in normal mode only; in
/// every other mode (where neither is also a command key) they go to the
/// vim machine.
pub proof fn lemma_quit_keys_only_in_normal_mode(input: Input, mode: Mode)
    ensures
        mode == Mode::Normal && input.key == Key::Char('c') && input.ctrl ==> route_of(input, mode) == Route::Quit,
        mode == Mode::Normal && input.key == Key::Char('q') ==> route_of(input, mode) == Route::AbortQuery,
        mode != Mode::Normal && (input.key == Key::Char('c') || input.key == Key::Char('q')) ==> route_of(input, mode)
            == Route::Vim,
{
}

/// Every key other than Enter, Tab, `f`, `c` and `q` goes to the vim
/// machine, whatever its modifiers and the mode.
pub proof fn lemma_other_keys_go_to_vim(input: Input, mode: Mode)
    requires
        input.key != Key::Enter,
        input.key != Key::Tab,
        input.key != Key::Char('f'),
        input.key != Key::Char('c'),
        input.key != Key::Char('q'),
    ensures
        route_of(input, mode) == Route::Vim,
{
}

/// With no padding pending, a frame never deletes: at or past the edge, a
/// cursor that did not move by exactly one column leaves the text as it is
/// and the limit at `Stop`; before the edge nothing changes either.
pub proof fn lemma_no_padding_nothing_deleted(ac: AutoComplete, col: usize, limit: usize, rest: usize)
    requires
        ac.limit == Limit::Stop,
    ensures
        !(pad_step(ac, col, limit, rest).0 is DeleteChars),
        col.saturating_sub(ac.cursor) != 1 ==> pad_step(ac, col, limit, rest) == (PadEdit::Keep, Limit::Stop),
        col < limit ==> pad_step(ac, col, limit, rest) == (PadEdit::Keep, Limit::Stop),
{
}

/// A frame leaves padding pending (`Delete`) only where it inserts it, or
/// where padding was already pending and the cursor stays before the edge;
/// it deletes only padding that was pending, and then nothing is pending.
pub proof fn lemma_padding_pending_only_after_insert(ac: AutoComplete, col: usize, limit: usize, rest: usize)
    ensures
        pad_step(ac, col, limit, rest).1 == Limit::Delete ==> pad_step(ac, col, limit, rest).0 == PadEdit::InsertSpaces(
            rest,
        ) || (ac.limit == Limit::Delete && col < limit && pad_step(ac, col, limit, rest).0 == PadEdit::Keep),
        pad_step(ac, col, limit, rest).0 is DeleteChars ==> ac.limit == Limit::Delete && pad_step(
            ac,
            col,
            limit,
            rest,
        ) == (PadEdit::DeleteChars(rest), Limit::Stop),
        pad_step(ac, col, limit, rest).0 is InsertSpaces ==> col >= limit && col.saturating_sub(ac.cursor) == 1,
{
}

/// Text is deleted only by a frame after an earlier one inserted padding:
/// from no pending padding, a frame that inserts nothing is never followed
/// by one that deletes.
pub proof fn lemma_no_delete_without_earlier_padding(
    ac: AutoComplete,
    col1: usize,
    col2: usize,
    limit: usize,
    rest: usize,
)
    requires
        ac.limit == Limit::Stop,
        !(pad_step(ac, col1, limit, rest).0 is InsertSpaces),
    ensures
        pad_step(ac, col1, limit, rest).1 == Limit::Stop,
        !(pad_step(
            AutoComplete { limit: pad_step(ac, col1, limit, rest).1, cursor: col1, active: false, ..ac },
            col2,
            limit,
            rest,
        ).0 is DeleteChars),
{
}

/// A submit whose send and registration both succeed leaves the editor in
/// a fresh normal mode, with normal mode's cursor style, whatever mode it
/// was in, and keeps its text; with no channel, a submit changes nothing.
pub proof fn lemma_submit_returns_to_normal_mode<'a, S, E, F, R>(
    before: EditorView<'a, S>,
    after: EditorView<'a, S>,
    send: F,
    register: R,
    r: Result<(), E>,
) where F: FnOnce(&S, Action) -> Result<(), E>, R: FnOnce(&Option<S>) -> Result<(), E>
    requires
        submitted_with(before, after, send, register, r),
        r is Ok,
    ensures
        before.command_tx is Some ==> {
            &&& after.vim_state == fresh_vim(Mode::Normal)
            &&& after.cursor_style == Mode::Normal
            &&& after.textarea == before.textarea
            &&& after.command_tx == before.command_tx
            &&& after.auto_complete == before.auto_complete
        },
        before.command_tx is None ==> after == before,
{
}

/// Ctrl-Enter or Alt-Enter, while no query runs and a channel is
/// registered, returns the editor to a fresh normal mode in every mode, once
/// the handling succeeded.
pub proof fn lemma_submit_key_returns_to_normal_mode<'a, S, E, F, V, R>(
    before: EditorView<'a, S>,
    after: EditorView<'a, S>,
    input: Input,
    send: F,
    vim: V,
    register: R,
    r: Result<(), E>,
) where
    F: FnOnce(&S, Action) -> Result<(), E>,
    V: FnOnce(Vim, Input, TextBox<'a>) -> (Transition, TextBox<'a>),
    R: FnOnce(&Option<S>) -> Result<(), E>,

    requires
        key_handled(before, after, input, false, send, vim, register, r),
        input.key == Key::Enter,
        input.ctrl || input.alt,
        before.command_tx is Some,
        r is Ok,
    ensures
        after.vim_state == fresh_vim(Mode::Normal),
        after.cursor_style == Mode::Normal,
        after.textarea == before.textarea,
{
    lemma_submit_returns_to_normal_mode(before, after, send, register, r);
}
} // verus!
