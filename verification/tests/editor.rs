use editor::editor::{Editor, Event, KeyCode, Rect};

#[test]
fn set_boxes_works() {
    let mut editor = Editor::default();
    editor.set_boxes(&Rect { x: 0, y: 0, width: 20, height: 30 });

    let mut expected_editor = Editor::default();
    expected_editor.outer_box[1] = (20, 30);
    expected_editor.inner_box[1] = (12, 22);

    assert_eq!(expected_editor, editor)
}

#[test]
fn real_cursor_position_when_next_line_hasnt_a_col_acess() {
    let mut editor = Editor::default();
    editor.lines.push(vec!['T', 'e', 'x', 't']);
    editor.lines.push(vec!['E', 'x', 'a', 'm', 'p', 'l', 'e']);
    editor.lines.push(vec!['T', 'e', 'x', 't']);

    editor.cursor_real = (6, 1);
    editor.move_cursor(|(x, y)| (x, y.saturating_sub(1)));
    assert_eq!(editor.cursor_real, (3, 0))
}

#[test]
fn image_cursor_position_when_the_next_line_hasnt_a_col_acess() {
    let mut editor = Editor::default();
    editor.lines.push(vec!['T', 'e', 'x', 't']);
    editor.lines.push(vec!['E', 'x', 'a', 'm', 'p', 'l', 'e']);
    editor.lines.push(vec!['T', 'e', 'x', 't']);

    editor.cursor_real = (6, 1);
    editor.move_cursor(|(x, y)| (x, y.saturating_add(1)));
    assert_eq!(editor.cursor_image, (6, 2))
}

#[test]
fn cursors_position_are_equal_when_the_current_line_has_a_col_acess_and_the_next_line_has_a_col_acess() {
    let mut editor = Editor::default();
    editor.lines.push(vec!['E', 'x', 'a', 'm', 'p', 'l', 'e']);
    editor.lines.push(vec!['T', 'e', 'x', 't']);
    editor.move_cursor(|(x, y)| (x, y.saturating_add(1)));
    assert_eq!(editor.cursor_real, editor.cursor_image)
}

#[test]
fn cursors_position_are_equal_when_the_current_line_hasnt_a_acess_col_but_the_next_line_has_a_acess_col() {
    let mut editor = Editor::default();
    editor.lines.push(vec!['E', 'x', 'a', 'm', 'p', 'l', 'e']);
    editor.lines.push(vec!['T', 'e', 'x', 't']);
    editor.move_cursor(|(x, y)| (x.saturating_add(6), y.saturating_add(1)));
    editor.move_cursor(|(x, y)| (x, y.saturating_sub(1)));
    assert_eq!(editor.cursor_real, editor.cursor_image)
}

fn three_lines() -> Editor {
    let mut editor = Editor::default();
    editor.lines.push(vec!['T', 'e', 'x', 't']);
    editor.lines.push(vec!['E', 'x', 'a', 'm', 'p', 'l', 'e']);
    editor.lines.push(vec!['T', 'e', 'x', 't']);
    editor
}

#[test]
fn clamped_move_keeps_the_asked_column_in_the_image() {
    let mut editor = three_lines();
    editor.cursor_real = (6, 1);
    editor.cursor_image = (6, 1);
    editor.input(Event::Key(KeyCode::Down));
    assert_eq!(editor.cursor_real, (3, 2));
    assert_eq!(editor.cursor_image, (6, 2));
}

#[test]
fn down_then_up_restores_the_column() {
    let mut editor = three_lines();
    editor.cursor_real = (6, 1);
    editor.cursor_image = (6, 1);
    editor.input(Event::Key(KeyCode::Down));
    editor.input(Event::Key(KeyCode::Up));
    assert_eq!(editor.cursor_real, (6, 1));
    assert_eq!(editor.cursor_image, (6, 1));
}

#[test]
fn up_then_down_restores_the_column() {
    let mut editor = three_lines();
    editor.cursor_real = (5, 1);
    editor.cursor_image = (5, 1);
    editor.input(Event::Key(KeyCode::Up));
    assert_eq!(editor.cursor_real, (3, 0));
    editor.input(Event::Key(KeyCode::Down));
    assert_eq!(editor.cursor_real, (5, 1));
    assert_eq!(editor.cursor_image, (5, 1));
}

#[test]
fn right_then_left_restores_the_column() {
    let mut editor = three_lines();
    editor.input(Event::Key(KeyCode::Right));
    assert_eq!(editor.cursor_real, (1, 0));
    editor.input(Event::Key(KeyCode::Left));
    assert_eq!(editor.cursor_real, (0, 0));
    assert_eq!(editor.cursor_image, (0, 0));
}

#[test]
fn moves_past_the_text_are_refused() {
    let mut editor = three_lines();
    editor.input(Event::Key(KeyCode::Left));
    assert_eq!(editor.cursor_real, (0, 0));
    editor.input(Event::Key(KeyCode::Up));
    assert_eq!(editor.cursor_real, (0, 0));
    editor.cursor_real = (3, 0);
    editor.cursor_image = (3, 0);
    editor.input(Event::Key(KeyCode::Right));
    assert_eq!(editor.cursor_real, (3, 0));
    editor.cursor_real = (0, 2);
    editor.cursor_image = (0, 2);
    editor.input(Event::Key(KeyCode::Down));
    assert_eq!(editor.cursor_real, (0, 2));
}

#[test]
fn moving_into_an_empty_line_puts_the_cursor_at_column_zero() {
    let mut editor = Editor::default();
    editor.lines.push(vec!['a', 'b']);
    editor.lines.push(vec![]);
    editor.cursor_real = (1, 0);
    editor.cursor_image = (1, 0);
    editor.input(Event::Key(KeyCode::Down));
    assert_eq!(editor.cursor_real, (0, 1));
    assert_eq!(editor.cursor_image, (1, 1));
}

#[test]
fn remembered_column_is_used_on_a_long_enough_line() {
    let mut editor = three_lines();
    editor.cursor_real = (3, 0);
    editor.cursor_image = (6, 0);
    editor.move_cursor_to((3, 1));
    assert_eq!(editor.cursor_real, (6, 1));
    assert_eq!(editor.cursor_image, (6, 1));
}

#[test]
fn other_events_change_nothing() {
    let mut editor = three_lines();
    editor.cursor_real = (2, 1);
    editor.cursor_image = (2, 1);
    editor.input(Event::Key(KeyCode::Other));
    editor.input(Event::Other);
    editor.input(Event::Key(KeyCode::Esc));
    assert_eq!(editor.cursor_real, (2, 1));
}

#[test]
fn esc_ends_the_session() {
    assert!(Event::Key(KeyCode::Esc).is_exit());
    assert!(!Event::Key(KeyCode::Left).is_exit());
    assert!(!Event::Other.is_exit());
}

#[test]
fn set_boxes_saturates_small_areas() {
    let mut editor = Editor::default();
    editor.set_boxes(&Rect { x: 3, y: 4, width: 5, height: 9 });
    assert_eq!(editor.outer_box, [(0, 0), (5, 9)]);
    assert_eq!(editor.inner_box, [(0, 0), (0, 1)]);
}

#[test]
fn visible_lines_cut_to_the_box() {
    let mut editor = three_lines();
    editor.set_boxes(&Rect { x: 0, y: 0, width: 5, height: 2 });
    assert_eq!(
        editor.visible_lines(),
        vec![vec!['T', 'e', 'x', 't'], vec!['E', 'x', 'a', 'm', 'p']]
    );
    editor.outer_box[0] = (2, 1);
    assert_eq!(editor.visible_lines(), vec![vec!['a', 'm', 'p', 'l', 'e'], vec!['x', 't']]);
}

#[test]
fn cursor_cell_truncates_to_sixteen_bits() {
    let mut editor = Editor::default();
    editor.cursor_real = (70000, 3);
    assert_eq!(editor.cursor_cell(), (4464, 3));
}

#[test]
fn clone_copies_the_whole_editor() {
    let mut editor = three_lines();
    editor.set_boxes(&Rect { x: 0, y: 0, width: 20, height: 30 });
    editor.cursor_real = (3, 2);
    editor.cursor_image = (5, 2);
    let copy = editor.clone();
    assert_eq!(copy, editor);
    editor.lines[0].push('!');
    assert_ne!(copy, editor);
}
