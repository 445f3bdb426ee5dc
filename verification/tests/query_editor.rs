use editor::components::editor::{
    keyword_regex, route, Action, AutoComplete, Editor, EditorEvent, Input, Key, Limit, Mode, MouseButton,
    MouseEventKind, Route, Transition, Vim,
};
use editor::components::text_box::TextBox;
use tui_textarea::CursorMove;

fn input(key: Key, ctrl: bool, alt: bool, shift: bool) -> Input {
    Input { key, ctrl, alt, shift }
}

fn keywords() -> Vec<String> {
    vec!["select".to_string(), "from".to_string()]
}

fn strings(lines: &[&str]) -> Vec<String> {
    lines.iter().map(|l| l.to_string()).collect()
}

/// An editor with a channel and the given text.
fn connected(lines: &[&str]) -> Editor<'static, ()> {
    let mut e: Editor<'static, ()> = Editor::new(&keywords());
    e.register_action_handler((), ok_register).unwrap();
    e.update(Action::QueryToEditor(strings(lines)), |_: &(), _: Action| Ok::<(), String>(())).unwrap();
    e
}

fn ok_register(_: &Option<()>) -> Result<(), String> {
    Ok(())
}

fn never_vim<'a>(_: Vim, _: Input, _: TextBox<'a>) -> (Transition, TextBox<'a>) {
    panic!("the vim machine must not be asked")
}

fn answer<'a>(t: Transition) -> impl FnOnce(Vim, Input, TextBox<'a>) -> (Transition, TextBox<'a>) {
    move |_: Vim, _: Input, b: TextBox<'a>| (t, b)
}

/// Puts the editor in `mode` through the vim machine.
fn enter(e: &mut Editor<'static, ()>, mode: Mode) {
    e.feed_vim(input(Key::Null, false, false, false), answer(Transition::Mode(mode)));
}

/// Moves the text box's cursor through the vim machine.
fn move_cursor(e: &mut Editor<'static, ()>, m: CursorMove) {
    e.feed_vim(input(Key::Null, false, false, false), move |_: Vim, _: Input, mut b: TextBox<'static>| {
        b.area.move_cursor(m);
        (Transition::Nop, b)
    });
}

#[test]
fn routes_follow_the_first_matching_rule() {
    assert_eq!(route(&input(Key::Enter, false, true, false), Mode::Insert), Route::Submit);
    assert_eq!(route(&input(Key::Enter, true, false, false), Mode::Normal), Route::Submit);
    assert_eq!(route(&input(Key::Enter, false, false, false), Mode::Normal), Route::Vim);
    assert_eq!(route(&input(Key::Tab, false, false, false), Mode::Normal), Route::CycleFocus);
    assert_eq!(route(&input(Key::Tab, false, false, true), Mode::Normal), Route::Vim);
    assert_eq!(route(&input(Key::Tab, false, false, false), Mode::Insert), Route::Vim);
    assert_eq!(route(&input(Key::Char('f'), true, false, false), Mode::Visual), Route::SaveFavorite);
    assert_eq!(route(&input(Key::Char('f'), true, false, false), Mode::Insert), Route::Vim);
    assert_eq!(route(&input(Key::Char('f'), true, true, false), Mode::Insert), Route::SaveFavorite);
    assert_eq!(route(&input(Key::Char('f'), false, true, false), Mode::Insert), Route::SaveFavorite);
    assert_eq!(route(&input(Key::Char('c'), true, false, false), Mode::Normal), Route::Quit);
    assert_eq!(route(&input(Key::Char('c'), true, false, false), Mode::Visual), Route::Vim);
    assert_eq!(route(&input(Key::Char('q'), false, false, false), Mode::Normal), Route::AbortQuery);
    assert_eq!(route(&input(Key::Char('q'), false, false, false), Mode::Insert), Route::Vim);
    assert_eq!(route(&input(Key::Char('q'), false, false, false), Mode::Operator('d')), Route::Vim);
}

#[test]
fn plain_typing_in_insert_mode_goes_to_vim() {
    for key in [Key::Char('q'), Key::Char('f'), Key::Tab, Key::Enter, Key::Char('c'), Key::Esc] {
        assert_eq!(route(&input(key, false, false, false), Mode::Insert), Route::Vim);
    }
}

#[test]
fn submit_sends_the_query_and_returns_to_normal_mode() {
    let mut e = connected(&["select *", "from t;"]);
    enter(&mut e, Mode::Insert);
    let mut sent = Vec::new();
    let r = e.transition_vim_state(
        input(Key::Enter, true, false, false),
        false,
        |_: &(), a: Action| {
            sent.push(a);
            Ok::<(), String>(())
        },
        never_vim, ok_register);
    assert_eq!(r, Ok(()));
    assert_eq!(sent, vec![Action::Query(strings(&["select *", "from t;"]), false, false)]);
    assert_eq!(e.vim_state(), Vim::new(Mode::Normal));
    assert_eq!(e.cursor_style(), Mode::Normal);
}

#[test]
fn failed_submit_changes_nothing() {
    let mut e = connected(&["select 1;"]);
    enter(&mut e, Mode::Insert);
    let r = e.transition_vim_state(
        input(Key::Enter, true, false, false),
        false,
        |_: &(), _: Action| Err("closed".to_string()),
        never_vim, ok_register);
    assert_eq!(r, Err("closed".to_string()));
    assert_eq!(e.vim_state(), Vim::new(Mode::Insert));
    assert_eq!(e.cursor_style(), Mode::Insert);
}

#[test]
fn submit_while_a_query_runs_sends_nothing() {
    let mut e = connected(&["select 1;"]);
    enter(&mut e, Mode::Insert);
    let mut sent = Vec::new();
    let r = e.transition_vim_state(
        input(Key::Enter, false, true, false),
        true,
        |_: &(), a: Action| {
            sent.push(a);
            Ok::<(), String>(())
        },
        never_vim, ok_register);
    assert_eq!(r, Ok(()));
    assert!(sent.is_empty());
    assert_eq!(e.vim_state().mode, Mode::Insert);
}

#[test]
fn nothing_is_sent_without_a_channel() {
    let mut e: Editor<'static, ()> = Editor::new(&keywords());
    let mut sent = Vec::new();
    let r = e.transition_vim_state(
        input(Key::Char('q'), false, false, false),
        false,
        |_: &(), a: Action| {
            sent.push(a);
            Ok::<(), String>(())
        },
        never_vim, ok_register);
    assert_eq!(r, Ok(()));
    assert!(sent.is_empty());
    assert!(!e.has_command_tx());
}

#[test]
fn command_keys_send_their_actions() {
    let cases = [
        (input(Key::Tab, false, false, false), Action::CycleFocusForwards),
        (input(Key::Char('f'), false, true, false), Action::RequestSaveFavorite(strings(&["a", "b"]))),
        (input(Key::Char('f'), true, false, false), Action::RequestSaveFavorite(strings(&["a", "b"]))),
        (input(Key::Char('c'), true, false, false), Action::Quit),
        (input(Key::Char('q'), false, false, false), Action::AbortQuery),
    ];
    for (key, action) in cases {
        let mut e = connected(&["a", "b"]);
        let mut sent = Vec::new();
        let r = e.transition_vim_state(
            key,
            true,
            |_: &(), a: Action| {
                sent.push(a);
                Ok::<(), String>(())
            },
            never_vim, ok_register);
        assert_eq!(r, Ok(()));
        assert_eq!(sent, vec![action]);
        assert_eq!(e.vim_state(), Vim::new(Mode::Normal));
    }
}

#[test]
fn a_new_mode_starts_a_fresh_machine_with_its_cursor_style() {
    let mut e = connected(&["x"]);
    let g = input(Key::Char('g'), false, false, false);
    e.feed_vim(g, |_: Vim, i: Input, b: TextBox<'static>| (Transition::Pending(i), b));
    assert_eq!(e.vim_state(), Vim { mode: Mode::Normal, pending: g });
    let r = e.transition_vim_state(
        input(Key::Char('i'), false, false, false),
        false,
        |_: &(), _: Action| Ok::<(), String>(()),
        |v: Vim, i: Input, b: TextBox<'static>| {
            assert_eq!(v.mode, Mode::Normal);
            assert_eq!(v.pending, g);
            assert_eq!(i.key, Key::Char('i'));
            (Transition::Mode(Mode::Insert), b)
        }, ok_register);
    assert_eq!(r, Ok(()));
    assert_eq!(e.vim_state(), Vim::new(Mode::Insert));
    assert_eq!(e.cursor_style(), Mode::Insert);
    assert!(!e.auto_complete().active);
}

#[test]
fn the_same_mode_keeps_the_machine() {
    let mut e = connected(&["x"]);
    let g = input(Key::Char('g'), false, false, false);
    e.feed_vim(g, |_: Vim, i: Input, b: TextBox<'static>| (Transition::Pending(i), b));
    let waiting = e.vim_state();
    e.transition_vim_state(
        input(Key::Char('x'), false, false, false),
        false,
        |_: &(), _: Action| Ok::<(), String>(()),
        answer(Transition::Mode(Mode::Normal)), ok_register)
    .unwrap();
    assert_eq!(e.vim_state(), waiting);
    e.transition_vim_state(
        input(Key::Char('x'), false, false, false),
        false,
        |_: &(), _: Action| Ok::<(), String>(()),
        answer(Transition::Nop), ok_register)
    .unwrap();
    assert_eq!(e.vim_state(), waiting);
}

#[test]
fn the_vim_machine_edits_the_text() {
    let mut e = connected(&["ab"]);
    e.transition_vim_state(
        input(Key::Char('x'), false, false, false),
        false,
        |_: &(), _: Action| Ok::<(), String>(()),
        |_: Vim, _: Input, mut b: TextBox<'static>| {
            b.area.delete_next_char();
            (Transition::Nop, b)
        }, ok_register)
    .unwrap();
    assert_eq!(e.lines(), strings(&["b"]));
}

#[test]
fn typing_in_insert_mode_switches_auto_completion() {
    let mut e = connected(&["x"]);
    enter(&mut e, Mode::Insert);
    let typed = |e: &mut Editor<'static, ()>, key: Key| {
        e.transition_vim_state(
            input(key, false, false, false),
            false,
            |_: &(), _: Action| Ok::<(), String>(()),
            answer(Transition::Nop), ok_register)
        .unwrap();
        e.auto_complete().active
    };
    assert!(typed(&mut e, Key::Char('s')));
    assert!(!typed(&mut e, Key::Char(' ')));
    assert!(typed(&mut e, Key::Char('e')));
    assert!(!typed(&mut e, Key::Backspace));
    assert!(typed(&mut e, Key::Enter));
    assert!(!typed(&mut e, Key::Esc));
    // Leaving insert mode is a key press too; outside insert mode keys leave
    // auto-completion as it is.
    enter(&mut e, Mode::Normal);
    assert!(e.auto_complete().active);
    assert!(typed(&mut e, Key::Esc));
}

#[test]
fn update_sends_submit_requests() {
    let mut e = connected(&["select 1;"]);
    let mut sent = Vec::new();
    let r = e.update(Action::SubmitEditorQueryBypassParser, |_: &(), a: Action| {
        sent.push(a);
        Ok::<(), String>(())
    });
    assert_eq!(r, Ok(()));
    let r = e.update(Action::SubmitEditorQuery, |_: &(), a: Action| {
        sent.push(a);
        Ok::<(), String>(())
    });
    assert_eq!(r, Ok(()));
    assert_eq!(
        sent,
        vec![Action::Query(strings(&["select 1;"]), false, true), Action::Query(strings(&["select 1;"]), false, false)]
    );
    let r = e.update(Action::SubmitEditorQuery, |_: &(), _: Action| Err("closed".to_string()));
    assert_eq!(r, Err("closed".to_string()));
    let r = e.update(Action::Quit, |_: &(), _: Action| -> Result<(), String> { panic!("no send") });
    assert_eq!(r, Ok(()));
}

#[test]
fn update_without_a_channel_sends_nothing() {
    let mut e: Editor<'static, ()> = Editor::new(&keywords());
    let r = e.update(Action::SubmitEditorQuery, |_: &(), _: Action| -> Result<(), String> { panic!("no send") });
    assert_eq!(r, Ok(()));
}

#[test]
fn query_to_editor_replaces_the_text_and_keeps_highlighting() {
    let mut e = connected(&["old"]);
    move_cursor(&mut e, CursorMove::End);
    assert_eq!(e.cursor(), (0, 3));
    e.update(Action::QueryToEditor(strings(&["select a", "from b"])), |_: &(), _: Action| Ok::<(), String>(()))
        .unwrap();
    assert_eq!(e.lines(), strings(&["select a", "from b"]));
    assert_eq!(e.cursor(), (0, 0));
    let pattern = e.text_box().area.search_pattern().unwrap().as_str().to_string();
    assert_eq!(pattern, keyword_regex(&keywords()));
    e.update(Action::QueryToEditor(vec![]), |_: &(), _: Action| Ok::<(), String>(())).unwrap();
    assert_eq!(e.lines(), strings(&[""]));
}

#[test]
fn copy_data_sets_the_paste_text() {
    let mut e = connected(&["a"]);
    e.update(Action::CopyData("abc".to_string()), |_: &(), _: Action| Ok::<(), String>(())).unwrap();
    assert_eq!(e.text_box().area.yank_text(), "abc");
    assert_eq!(e.lines(), strings(&["a"]));
}

#[test]
fn mouse_wheel_scrolls_and_sideways_scroll_types_h_and_j() {
    let mut e = connected(&["a", "b", "c"]);
    move_cursor(&mut e, CursorMove::Bottom);
    assert_eq!(e.cursor(), (2, 0));
    // Nothing was drawn yet, so the view is a single cell; scrolling down by
    // one moves it to the second line and brings the cursor into it.
    e.handle_mouse_events(MouseEventKind::ScrollDown, true, never_vim, ok_register);
    assert_eq!(e.cursor(), (1, 0));
    e.handle_mouse_events(MouseEventKind::ScrollUp, true, never_vim, ok_register);
    e.handle_mouse_events(MouseEventKind::ScrollDown, false, never_vim, ok_register);
    e.handle_mouse_events(MouseEventKind::Down(MouseButton::Left), true, never_vim, ok_register);
    assert_eq!(e.lines(), strings(&["a", "b", "c"]));
    let mut seen = Vec::new();
    e.handle_mouse_events(MouseEventKind::ScrollLeft, true, |_: Vim, i: Input, b: TextBox<'static>| {
        seen.push(i);
        (Transition::Nop, b)
    }, ok_register);
    e.handle_mouse_events(MouseEventKind::ScrollRight, true, |_: Vim, i: Input, b: TextBox<'static>| {
        seen.push(i);
        (Transition::Nop, b)
    }, ok_register);
    assert_eq!(seen, vec![Input::plain(Key::Char('h')), Input::plain(Key::Char('j'))]);
}

#[test]
fn events_are_dispatched_only_with_the_focus() {
    let mut e = connected(&["xy"]);
    move_cursor(&mut e, CursorMove::Forward);
    let ok = |_: &(), _: Action| Ok::<(), String>(());
    let r = e.handle_events(Some(EditorEvent::Paste("abc".to_string())), false, false, ok, never_vim, ok_register);
    assert_eq!(r, Ok(()));
    assert_eq!(e.lines(), strings(&["xy"]));
    let r = e.handle_events(Some(EditorEvent::Paste("abc".to_string())), true, false, ok, never_vim, ok_register);
    assert_eq!(r, Ok(()));
    assert_eq!(e.lines(), strings(&["xabcy"]));
    assert_eq!(e.cursor(), (0, 4));
    let r = e.handle_events(Some(EditorEvent::Mouse(MouseEventKind::ScrollUp)), true, false, ok, never_vim, ok_register);
    assert_eq!(r, Ok(()));
    let r = e.handle_events(None, true, false, ok, never_vim, ok_register);
    assert_eq!(r, Ok(()));
    let r = e.handle_events(Some(EditorEvent::Other), true, false, ok, never_vim, ok_register);
    assert_eq!(r, Ok(()));
    let r = e.handle_events(
        Some(EditorEvent::Key(input(Key::Char('i'), false, false, false))),
        true,
        false,
        ok,
        answer(Transition::Mode(Mode::Insert)), ok_register);
    assert_eq!(r, Ok(()));
    assert_eq!(e.vim_state().mode, Mode::Insert);
    let r = e.handle_events(
        Some(EditorEvent::Key(input(Key::Char('q'), false, false, false))),
        true,
        false,
        |_: &(), _: Action| Err("closed".to_string()),
        answer(Transition::Nop), ok_register);
    assert_eq!(r, Ok(()));
    enter(&mut e, Mode::Normal);
    let r = e.handle_events(
        Some(EditorEvent::Key(input(Key::Char('q'), false, false, false))),
        true,
        false,
        |_: &(), _: Action| Err("closed".to_string()),
        never_vim, ok_register);
    assert_eq!(r, Err("closed".to_string()));
}

#[test]
fn padding_at_the_edge_is_inserted_then_taken_back() {
    let mut e = connected(&["select"]);
    move_cursor(&mut e, CursorMove::End);
    move_cursor(&mut e, CursorMove::Back);
    // Before the edge: nothing happens, the column is recorded.
    e.draw(6, 2, None, None, (0, 0));
    assert_eq!(e.auto_complete().cursor, 5);
    assert_eq!(e.lines(), strings(&["select"]));
    // The cursor reaches the edge one column on: padding.
    move_cursor(&mut e, CursorMove::End);
    e.draw(6, 2, None, None, (0, 0));
    assert_eq!(e.lines(), strings(&["select  "]));
    assert_eq!(e.cursor(), (0, 8));
    assert_eq!(e.auto_complete().limit, Limit::Delete);
    // The padding moved the cursor by two: it is taken back, once.
    e.draw(6, 2, None, None, (0, 0));
    assert_eq!(e.lines(), strings(&["select"]));
    assert_eq!(e.cursor(), (0, 6));
    assert_eq!(e.auto_complete().limit, Limit::Stop);
    e.draw(6, 2, None, None, (0, 0));
    assert_eq!(e.lines(), strings(&["select"]));
    assert!(!e.auto_complete().active);
}

#[test]
fn a_new_editor_is_empty_in_normal_mode_without_a_channel() {
    let e: Editor<'static, ()> = Editor::new(&keywords());
    assert!(!e.has_command_tx());
    assert_eq!(e.vim_state(), Vim::new(Mode::Normal));
    assert_eq!(e.vim_state().pending, Input::default());
    assert_eq!(e.cursor_style(), Mode::Normal);
    assert_eq!(e.auto_complete(), AutoComplete::default());
    assert_eq!(e.auto_complete().limit, Limit::Stop);
    assert_eq!(e.lines(), strings(&[""]));
    assert_eq!(e.cursor(), (0, 0));
    let pattern = e.text_box().area.search_pattern().unwrap().as_str().to_string();
    assert_eq!(pattern, "(?i)(^|[^a-zA-Z0-9'\"`._]+)(select|from)($|[^a-zA-Z0-9'\"`._]+)");
}

#[test]
fn try_new_refuses_a_pattern_that_does_not_compile() {
    assert!(Editor::<'static, ()>::try_new(&keywords()).is_some());
    assert!(Editor::<'static, ()>::try_new(&vec!["(".to_string()]).is_none());
}

#[test]
fn keyword_regex_joins_the_keywords() {
    let words = vec!["select".to_string(), "from".to_string(), "where".to_string()];
    assert_eq!(keyword_regex(&words), "(?i)(^|[^a-zA-Z0-9'\"`._]+)(select|from|where)($|[^a-zA-Z0-9'\"`._]+)");
    assert_eq!(keyword_regex(&vec![]), "(?i)(^|[^a-zA-Z0-9'\"`._]+)()($|[^a-zA-Z0-9'\"`._]+)");
}

#[test]
fn copy_data_sets_the_paste_text_line_by_line() {
    let mut e = connected(&["a"]);
    e.update(Action::CopyData("one\r\ntwo\n".to_string()), |_: &(), _: Action| Ok::<(), String>(())).unwrap();
    assert_eq!(e.text_box().area.yank_text(), "one\ntwo\n");
    e.feed_vim(input(Key::Null, false, false, false), |_: Vim, _: Input, mut b: TextBox<'static>| {
        b.area.paste();
        (Transition::Nop, b)
    });
    assert_eq!(e.lines(), strings(&["one", "two", "a"]));
}

#[test]
fn a_multi_line_paste_splits_the_line() {
    let mut e = connected(&["abcd"]);
    move_cursor(&mut e, CursorMove::Forward);
    move_cursor(&mut e, CursorMove::Forward);
    let ok = |_: &(), _: Action| Ok::<(), String>(());
    e.handle_events(Some(EditorEvent::Paste("X\r\nYY\nZ".to_string())), true, false, ok, never_vim, ok_register).unwrap();
    assert_eq!(e.lines(), strings(&["abX", "YY", "Zcd"]));
    assert_eq!(e.cursor(), (2, 1));
}

#[test]
fn a_paste_replaces_the_selection() {
    let mut e = connected(&["abcd", "efgh"]);
    e.feed_vim(input(Key::Null, false, false, false), |_: Vim, _: Input, mut b: TextBox<'static>| {
        b.area.move_cursor(CursorMove::Forward);
        b.area.start_selection();
        b.area.move_cursor(CursorMove::Down);
        (Transition::Nop, b)
    });
    let ok = |_: &(), _: Action| Ok::<(), String>(());
    e.handle_events(Some(EditorEvent::Paste("-".to_string())), true, false, ok, never_vim, ok_register).unwrap();
    assert_eq!(e.lines(), strings(&["a-fgh"]));
    assert_eq!(e.cursor(), (0, 2));
}

#[test]
fn the_wheel_scrolls_down_then_up() {
    let mut e = connected(&["a", "b", "c"]);
    e.handle_mouse_events(MouseEventKind::ScrollDown, true, never_vim, ok_register);
    e.handle_mouse_events(MouseEventKind::ScrollDown, true, never_vim, ok_register);
    assert_eq!(e.cursor(), (2, 0));
    e.handle_mouse_events(MouseEventKind::ScrollUp, true, never_vim, ok_register);
    assert_eq!(e.cursor(), (1, 0));
}

#[test]
fn drawing_sets_soft_tabs_of_two_and_records_the_query_duration() {
    let mut e = connected(&["x"]);
    assert_eq!(e.last_query_duration(), None);
    e.draw(80, 8, None, None, (100, 0));
    assert_eq!(e.last_query_duration(), None);
    assert_eq!(e.text_box().area.tab_length(), 2);
    assert!(!e.text_box().area.hard_tab_indent());
    e.draw(80, 8, Some((1, 500)), None, (4, 0));
    assert_eq!(e.last_query_duration(), Some(2_999_999_500));
    e.draw(80, 8, Some((1, 0)), Some((2, 250)), (9, 0));
    assert_eq!(e.last_query_duration(), Some(1_000_000_250));
    e.draw(80, 8, None, None, (10, 0));
    assert_eq!(e.last_query_duration(), Some(1_000_000_250));
    e.draw(80, 8, Some((i64::MIN, 0)), Some((i64::MAX, 999_999_999)), (0, 0));
    assert_eq!(
        e.last_query_duration(),
        Some((i64::MAX as i128 - i64::MIN as i128) * 1_000_000_000 + 999_999_999)
    );
}

#[test]
fn the_channel_is_registered_with_the_vim_machine() {
    let mut e: Editor<'static, u8> = Editor::new(&keywords());
    let mut seen = Vec::new();
    e.register_action_handler(7, |c: &Option<u8>| {
        seen.push(*c);
        Ok::<(), String>(())
    })
    .unwrap();
    assert!(e.has_command_tx());
    let r = e.register_action_handler(8, |_: &Option<u8>| Err("refused".to_string()));
    assert_eq!(r, Err("refused".to_string()));
    // A key for the vim machine registers the channel again, and its failure is the result.
    let r = e.transition_vim_state(
        input(Key::Char('x'), false, false, false),
        false,
        |_: &u8, _: Action| Ok::<(), String>(()),
        answer(Transition::Nop),
        |c: &Option<u8>| {
            seen.push(*c);
            Err("refused".to_string())
        },
    );
    assert_eq!(r, Err("refused".to_string()));
    assert_eq!(seen, vec![None, Some(7)]);
}

#[test]
fn a_submit_whose_registration_fails_keeps_the_cursor_style() {
    let mut e = connected(&["select 1;"]);
    enter(&mut e, Mode::Insert);
    let r = e.transition_vim_state(
        input(Key::Enter, true, false, false),
        false,
        |_: &(), _: Action| Ok::<(), String>(()),
        never_vim,
        |_: &Option<()>| Err("refused".to_string()),
    );
    assert_eq!(r, Err("refused".to_string()));
    assert_eq!(e.vim_state(), Vim::new(Mode::Normal));
    assert_eq!(e.cursor_style(), Mode::Insert);
}

#[test]
fn message_for_gives_the_action_of_a_key() {
    let e = connected(&["a"]);
    assert_eq!(e.message_for(&input(Key::Enter, true, false, false), false), Some(Action::Query(strings(&["a"]), false, false)));
    assert_eq!(e.message_for(&input(Key::Enter, true, false, false), true), None);
    assert_eq!(e.message_for(&input(Key::Char('x'), false, false, false), false), None);
    assert_eq!(e.message_for(&input(Key::Char('q'), false, false, false), true), Some(Action::AbortQuery));
}

#[test]
fn padding_over_a_selection_replaces_it() {
    let mut e = connected(&["select"]);
    move_cursor(&mut e, CursorMove::End);
    move_cursor(&mut e, CursorMove::Back);
    e.draw(6, 2, None, None, (0, 0));
    e.feed_vim(input(Key::Null, false, false, false), |_: Vim, _: Input, mut b: TextBox<'static>| {
        b.area.move_cursor(CursorMove::Head);
        b.area.start_selection();
        b.area.move_cursor(CursorMove::End);
        (Transition::Nop, b)
    });
    // The cursor moved from column 5 to 6: padding, which takes the selection's place.
    e.draw(6, 2, None, None, (0, 0));
    assert_eq!(e.lines(), strings(&["  "]));
    assert_eq!(e.cursor(), (0, 2));
}
