use editor_core::editor::{Command, SourceEditor};

fn chars(s: &str) -> Vec<char> {
    s.chars().collect()
}

fn editor(text: &str, width: usize, height: usize) -> SourceEditor {
    SourceEditor::new(text.to_string(), width, height)
}

#[test]
fn empty_text_gives_one_empty_line() {
    let ed = editor("", 80, 24);
    assert_eq!(ed.buffer, vec![chars("")]);
    assert_eq!((ed.row, ed.column, ed.scroll), (0, 0, 0));
}

#[test]
fn trailing_newline_gives_trailing_empty_line() {
    let ed = editor("ab\n", 80, 24);
    assert_eq!(ed.buffer, vec![chars("ab"), chars("")]);
}

#[test]
fn text_splits_at_every_line_feed() {
    let ed = editor("one\ntwo\n\nfour", 80, 24);
    assert_eq!(ed.buffer, vec![chars("one"), chars("two"), chars(""), chars("four")]);
}

#[test]
fn typing_inserts_at_cursor() {
    let mut ed = editor("", 80, 24);
    ed.keypress('a');
    ed.keypress('b');
    assert_eq!(ed.buffer, vec![chars("ab")]);
    assert_eq!((ed.row, ed.column), (0, 2));
    ed.left();
    ed.keypress('x');
    assert_eq!(ed.buffer, vec![chars("axb")]);
    assert_eq!((ed.row, ed.column), (0, 2));
}

#[test]
fn enter_splits_line_at_cursor() {
    let mut ed = editor("abc\nde", 80, 24);
    ed.end();
    assert_eq!((ed.row, ed.column), (0, 3));
    ed.apply(Command::Enter);
    assert_eq!(ed.buffer, vec![chars("abc"), chars(""), chars("de")]);
    assert_eq!((ed.row, ed.column), (1, 0));
}

#[test]
fn enter_at_start_of_line_pushes_it_down() {
    let mut ed = editor("ab", 80, 24);
    ed.enter();
    assert_eq!(ed.buffer, vec![chars(""), chars("ab")]);
    assert_eq!((ed.row, ed.column), (1, 0));
}

#[test]
fn backspace_at_document_start_is_noop() {
    let mut ed = editor("ab", 80, 24);
    ed.apply(Command::Backspace);
    assert_eq!(ed.buffer, vec![chars("ab")]);
    assert_eq!((ed.row, ed.column), (0, 0));
}

#[test]
fn backspace_at_line_start_merges_lines() {
    let mut ed = editor("hello\nworld", 80, 24);
    ed.down();
    assert_eq!((ed.row, ed.column), (1, 0));
    ed.apply(Command::Backspace);
    assert_eq!(ed.buffer, vec![chars("helloworld")]);
    assert_eq!((ed.row, ed.column), (0, 5));
}

#[test]
fn backspace_removes_character_before_cursor() {
    let mut ed = editor("abc", 80, 24);
    ed.end();
    ed.backspace();
    assert_eq!(ed.buffer, vec![chars("ab")]);
    assert_eq!((ed.row, ed.column), (0, 2));
}

#[test]
fn backspace_undoes_keypress() {
    let mut ed = editor("hello", 80, 24);
    ed.right();
    ed.right();
    ed.keypress('x');
    assert_eq!(ed.buffer, vec![chars("hexllo")]);
    ed.backspace();
    assert_eq!(ed.buffer, vec![chars("hello")]);
    assert_eq!((ed.row, ed.column), (0, 2));
}

#[test]
fn backspace_undoes_enter() {
    let mut ed = editor("hello", 80, 24);
    ed.right();
    ed.right();
    ed.enter();
    assert_eq!(ed.buffer, vec![chars("he"), chars("llo")]);
    ed.backspace();
    assert_eq!(ed.buffer, vec![chars("hello")]);
    assert_eq!((ed.row, ed.column), (0, 2));
}

#[test]
fn move_up_at_top_row_is_noop() {
    let mut ed = editor("ab\ncd", 80, 24);
    ed.right();
    ed.up();
    assert_eq!((ed.row, ed.column), (0, 1));
}

#[test]
fn move_down_at_last_row_is_noop() {
    let mut ed = editor("ab\ncd", 80, 24);
    ed.down();
    ed.right();
    ed.down();
    assert_eq!((ed.row, ed.column), (1, 1));
}

#[test]
fn left_at_line_start_and_right_at_line_end_are_noops() {
    let mut ed = editor("ab", 80, 24);
    ed.left();
    assert_eq!((ed.row, ed.column), (0, 0));
    ed.end();
    ed.right();
    assert_eq!((ed.row, ed.column), (0, 2));
}

#[test]
fn home_and_end_jump_within_the_line() {
    let mut ed = editor("abcd", 80, 24);
    ed.end();
    assert_eq!(ed.column, 4);
    ed.home();
    assert_eq!(ed.column, 0);
}

#[test]
fn vertical_moves_clamp_column_without_memory() {
    let mut ed = editor("abcd\nx\nlong", 80, 24);
    ed.end();
    assert_eq!(ed.column, 4);
    ed.down();
    assert_eq!((ed.row, ed.column), (1, 1));
    // The clamp to the short line sticks: the original column is not restored.
    ed.down();
    assert_eq!((ed.row, ed.column), (2, 1));
}

#[test]
fn scroll_follows_cursor_down() {
    let mut ed = editor("a\nb\nc\nd\ne", 10, 2);
    for _ in 0..4 {
        ed.down();
    }
    assert_eq!((ed.row, ed.scroll), (4, 3));
    assert!(ed.scroll <= ed.row && ed.row < ed.scroll + ed.height);
}

#[test]
fn scroll_follows_cursor_up() {
    let mut ed = editor("a\nb\nc\nd\ne", 10, 2);
    for _ in 0..4 {
        ed.down();
    }
    for _ in 0..4 {
        ed.up();
    }
    assert_eq!((ed.row, ed.scroll), (0, 0));
}

#[test]
fn scroll_is_unchanged_while_cursor_stays_visible() {
    let mut ed = editor("a\nb\nc", 10, 24);
    ed.down();
    assert_eq!(ed.scroll, 0);
}

#[test]
fn resize_reanchors_scroll_to_cursor() {
    let mut ed = editor("a\nb\nc\nd\ne", 10, 5);
    for _ in 0..4 {
        ed.down();
    }
    assert_eq!((ed.row, ed.scroll), (4, 0));
    ed.resize(10, 1);
    assert_eq!(ed.scroll, 4);
    assert!(ed.scroll <= ed.row && ed.row < ed.scroll + ed.height);
}

#[test]
fn render_truncates_long_lines_and_marks_document_end() {
    let ed = editor("abcdefgh", 5, 2);
    let (lines, col, row) = ed.render();
    assert_eq!(lines, vec![chars("abcde"), chars("~")]);
    assert_eq!((col, row), (0, 0));
}

#[test]
fn render_shows_the_scrolled_window() {
    let mut ed = editor("a\nb\nc\nd\ne", 10, 2);
    for _ in 0..4 {
        ed.down();
    }
    let (lines, col, row) = ed.render();
    assert_eq!(lines, vec![chars("d"), chars("e")]);
    assert_eq!((col, row), (0, 1));
}

#[test]
fn render_clamps_cursor_column_to_width() {
    let mut ed = editor("abcdef", 3, 2);
    ed.end();
    let (lines, col, row) = ed.render();
    assert_eq!(lines[0], chars("abc"));
    assert_eq!((col, row), (3, 0));
}

#[test]
fn render_of_zero_height_viewport_is_empty() {
    let ed = editor("ab", 5, 0);
    let (lines, col, row) = ed.render();
    assert!(lines.is_empty());
    assert_eq!((col, row), (0, 0));
}

#[test]
fn line_exactly_at_width_is_kept_whole() {
    let ed = editor("abcde", 5, 1);
    let (lines, _, _) = ed.render();
    assert_eq!(lines, vec![chars("abcde")]);
}

#[test]
fn only_exit_asks_to_end_the_session() {
    let mut ed = editor("ab", 80, 24);
    assert!(!ed.apply(Command::MoveRight));
    assert!(!ed.apply(Command::InsertChar('x')));
    assert!(ed.apply(Command::Exit));
    assert_eq!(ed.buffer, vec![chars("axb")]);
    assert_eq!((ed.row, ed.column), (0, 2));
}

#[test]
fn apply_routes_each_command_to_its_operation() {
    let mut ed = editor("ab\ncdef", 80, 24);
    ed.apply(Command::MoveDown);
    ed.apply(Command::End);
    assert_eq!((ed.row, ed.column), (1, 4));
    ed.apply(Command::MoveLeft);
    assert_eq!(ed.column, 3);
    ed.apply(Command::Home);
    assert_eq!(ed.column, 0);
    ed.apply(Command::MoveUp);
    assert_eq!((ed.row, ed.column), (0, 0));
    ed.apply(Command::Resize(10, 1));
    assert_eq!((ed.width, ed.height, ed.scroll), (10, 1, 0));
}

#[test]
fn backspace_merge_reanchors_scroll() {
    // Cursor at the top of a scrolled one-row window: the merge moves the
    // cursor a row up, and the viewport must follow it.
    let mut ed = editor("a\nb\nc", 10, 1);
    ed.down();
    assert_eq!((ed.row, ed.scroll), (1, 1));
    ed.apply(Command::Backspace);
    assert_eq!(ed.buffer, vec![chars("ab"), chars("c")]);
    assert_eq!((ed.row, ed.column), (0, 1));
    assert_eq!(ed.scroll, 0);
    assert!(ed.scroll <= ed.row && ed.row < ed.scroll + ed.height);
}

#[test]
fn backspace_within_a_line_keeps_scroll() {
    let mut ed = editor("a\nb\nc\nd\ne", 10, 2);
    for _ in 0..4 {
        ed.down();
    }
    ed.end();
    assert_eq!((ed.row, ed.column, ed.scroll), (4, 1, 3));
    ed.backspace();
    assert_eq!(ed.buffer, vec![chars("a"), chars("b"), chars("c"), chars("d"), chars("")]);
    assert_eq!((ed.row, ed.column, ed.scroll), (4, 0, 3));
}
