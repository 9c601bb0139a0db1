use rust_edit::app::{
    App, Direction, Mode, Position, Size, DEFAULT_STATUS, QUIT_TIMES, SAVED_STATUS,
};
use rust_edit::document::Document;

fn lines_of(app: &App) -> Vec<String> {
    (0..app.content.line_count()).map(|y| app.content.line_text(y)).collect()
}

fn app_with(lines: &[&str]) -> App {
    let owned: Vec<String> = lines.iter().map(|s| s.to_string()).collect();
    let mut app = App::new();
    app.content = Document::from_lines(&owned);
    app.resize(80, 24);
    app
}

fn typed(app: &mut App, text: &str) {
    for c in text.chars() {
        app.insert_char(c);
    }
}

fn logical(app: &App) -> (usize, usize) {
    let p = app.get_cursor_position();
    (p.x, p.y)
}

fn prompt_of(app: &App) -> String {
    app.prompt_text()
}

fn cursor_in_bounds(app: &App) -> bool {
    let p = app.get_cursor_position();
    p.y < app.content.line_count() && p.x <= app.content.line_length(p.y)
}

const LEFT: Direction = Direction { x: -1, y: 0 };
const RIGHT: Direction = Direction { x: 1, y: 0 };
const UP: Direction = Direction { x: 0, y: 1 };
const DOWN: Direction = Direction { x: 0, y: -1 };

#[test]
fn a_new_session_is_fresh() {
    let app = App::new();
    assert!(app.running);
    assert!(!app.dirty);
    assert!(!app.prompt_is_open());
    assert!(!app.is_selecting);
    assert_eq!(lines_of(&app), vec![""]);
    assert_eq!(logical(&app), (0, 0));
    assert_eq!(app.opened_filename, "");
    assert_eq!(app.status, DEFAULT_STATUS);
    assert_eq!(app.status, "Press Ctrl + C to quit, Ctrl + S to save.");
    assert_eq!(app.quit_times, QUIT_TIMES);
    assert_eq!(app.quit_times, 2);
    assert_eq!(app.window_size.cols, 0);
    assert_eq!(app.window_size.rows, 0);
    assert_eq!(app.content.line_numbers_width, 4);
    assert_eq!(prompt_of(&app), "");
}

#[test]
fn the_default_session_is_a_new_one() {
    let app = App::default();
    assert!(app.running);
    assert_eq!(lines_of(&app), vec![""]);
    assert_eq!(app.status, DEFAULT_STATUS);
}

#[test]
fn tick_changes_nothing() {
    let mut app = app_with(&["abc"]);
    app.move_cursor(RIGHT, false);
    app.tick();
    assert_eq!(lines_of(&app), vec!["abc"]);
    assert_eq!(logical(&app), (1, 0));
    assert!(app.running);
}

#[test]
fn resize_takes_note_of_the_size() {
    let mut app = App::new();
    app.resize(120, 40);
    assert_eq!(app.window_size.cols, 120);
    assert_eq!(app.window_size.rows, 40);
    assert_eq!(lines_of(&app), vec![""]);
}

#[test]
fn typing_then_enter_then_typing_makes_two_lines() {
    let mut app = App::new();
    typed(&mut app, "ab");
    assert_eq!(app.add_new_line(), None);
    typed(&mut app, "c");
    assert_eq!(lines_of(&app), vec!["ab", "c"]);
    assert_eq!(logical(&app), (1, 1));
    assert!(app.dirty);
    app.opened_filename = "t.txt".to_string();
    assert_eq!(app.save_to_file(), Some("ab\nc".to_string()));
    assert_eq!(app.opened_filename, "t.txt");
    assert!(!app.dirty);
    assert_eq!(app.status, "Saved to t.txt");
}

#[test]
fn typing_then_enter_then_typing_in_a_sized_terminal() {
    let mut app = App::new();
    app.resize(80, 24);
    typed(&mut app, "ab");
    app.add_new_line();
    typed(&mut app, "c");
    assert_eq!(lines_of(&app), vec!["ab", "c"]);
    assert_eq!(logical(&app), (1, 1));
    assert_eq!((app.cursor.visible.x, app.cursor.visible.y), (1, 1));
    assert_eq!((app.cursor.offset.x, app.cursor.offset.y), (0, 0));
}

#[test]
fn backspace_three_times_at_the_end_of_hello() {
    let mut app = app_with(&["hello"]);
    app.jump_at_end_line();
    assert_eq!(logical(&app), (5, 0));
    app.pop_char();
    app.pop_char();
    app.pop_char();
    assert_eq!(lines_of(&app), vec!["he"]);
    assert_eq!(logical(&app), (2, 0));
    assert!(app.dirty);
}

#[test]
fn backspace_at_the_start_of_a_line_joins_it_to_the_line_before() {
    let mut app = app_with(&["foo", "bar"]);
    app.move_cursor(DOWN, false);
    assert_eq!(logical(&app), (0, 1));
    app.pop_char();
    assert_eq!(lines_of(&app), vec!["foobar"]);
    assert_eq!(logical(&app), (3, 0));
    assert!(app.dirty);
}

#[test]
fn quitting_twice_with_unsaved_changes_ends_the_session() {
    let mut app = App::new();
    typed(&mut app, "x");
    assert!(app.dirty);
    app.quit();
    assert!(app.running);
    assert_eq!(app.quit_times, 1);
    app.quit();
    assert!(!app.running);
    assert_eq!(app.quit_times, 0);
}

#[test]
fn quitting_without_changes_ends_the_session_at_once() {
    let mut app = App::new();
    app.quit();
    assert!(!app.running);
    assert_eq!(app.quit_times, 2);
}

#[test]
fn an_edit_between_two_quits_starts_the_countdown_anew() {
    let mut app = App::new();
    typed(&mut app, "x");
    app.quit();
    assert_eq!(app.quit_times, 1);
    typed(&mut app, "y");
    assert_eq!(app.quit_times, 2);
    app.quit();
    assert!(app.running);
    app.quit();
    assert!(!app.running);
}

#[test]
fn a_cursor_movement_between_two_quits_starts_the_countdown_anew() {
    let mut app = App::new();
    typed(&mut app, "x");
    app.quit();
    app.move_cursor(LEFT, false);
    assert_eq!(app.quit_times, 2);
    app.quit();
    assert!(app.running);
    app.move_cursor(UP, false);
    assert_eq!(app.quit_times, 2);
    assert!(app.dirty);
}

#[test]
fn quitting_again_after_the_end_keeps_the_countdown_at_zero() {
    let mut app = App::new();
    app.set_dirty();
    app.quit();
    app.quit();
    app.quit();
    app.quit();
    assert!(!app.running);
    assert_eq!(app.quit_times, 0);
}

#[test]
fn set_dirty_marks_and_resets() {
    let mut app = App::new();
    app.set_dirty();
    app.quit();
    assert_eq!(app.quit_times, 1);
    app.set_dirty();
    assert!(app.dirty);
    assert_eq!(app.quit_times, 2);
    app.quit();
    app.reset_quit();
    assert_eq!(app.quit_times, 2);
    assert!(app.dirty);
}

#[test]
fn get_cursor_position_adds_the_scroll_offset() {
    let mut app = app_with(&["0123456789", "b", "c", "d"]);
    app.resize(4, 6);
    for _ in 0..7 {
        app.move_cursor(RIGHT, false);
    }
    assert_eq!((app.cursor.visible.x, app.cursor.offset.x), (3, 4));
    assert_eq!(logical(&app), (7, 0));
    app.jump_at_start_line();
    for _ in 0..3 {
        app.move_cursor(DOWN, false);
    }
    assert_eq!((app.cursor.visible.y, app.cursor.offset.y), (2, 1));
    assert_eq!(logical(&app), (0, 3));
}

#[test]
fn moving_restores_the_default_status() {
    let mut app = app_with(&["abc"]);
    app.opened_filename = "f".to_string();
    app.save_to_file();
    assert_eq!(app.status, "Saved to f");
    app.move_cursor(Direction { x: 0, y: 0 }, false);
    assert_eq!(app.status, DEFAULT_STATUS);
    assert_eq!(logical(&app), (0, 0));
}

#[test]
fn moving_at_the_edges_of_the_document_does_nothing() {
    let mut app = app_with(&["ab", "cd"]);
    app.move_cursor(LEFT, false);
    assert_eq!(logical(&app), (0, 0));
    app.move_cursor(UP, false);
    assert_eq!(logical(&app), (0, 0));
    app.move_cursor(DOWN, false);
    app.jump_at_end_line();
    assert_eq!(logical(&app), (2, 1));
    app.move_cursor(RIGHT, false);
    assert_eq!(logical(&app), (2, 1));
    app.move_cursor(DOWN, false);
    assert_eq!(logical(&app), (2, 1));
}

#[test]
fn the_text_rows_are_the_height_less_four() {
    let mut app = app_with(&["a", "b", "c", "d", "e"]);
    app.resize(80, 6);
    app.move_cursor(DOWN, false);
    app.move_cursor(DOWN, false);
    assert_eq!((app.cursor.visible.y, app.cursor.offset.y), (2, 0));
    app.move_cursor(DOWN, false);
    assert_eq!((app.cursor.visible.y, app.cursor.offset.y), (2, 1));
    app.resize(80, 3);
    app.move_cursor(DOWN, false);
    assert_eq!((app.cursor.visible.y, app.cursor.offset.y), (2, 2));
    assert_eq!(logical(&app), (0, 4));
}

#[test]
fn the_first_selecting_move_records_where_the_selection_began() {
    let mut app = app_with(&["hello"]);
    app.move_cursor(RIGHT, false);
    app.move_cursor(RIGHT, false);
    assert!(!app.is_selecting);
    app.move_cursor(RIGHT, true);
    assert!(app.is_selecting);
    assert_eq!((app.selecting_position.x, app.selecting_position.y), (2, 0));
    assert_eq!(logical(&app), (3, 0));
    app.move_cursor(RIGHT, true);
    assert_eq!((app.selecting_position.x, app.selecting_position.y), (2, 0));
    assert_eq!(logical(&app), (4, 0));
    app.move_cursor(LEFT, false);
    assert!(app.is_selecting);
    assert_eq!((app.selecting_position.x, app.selecting_position.y), (2, 0));
}

#[test]
fn typing_in_the_middle_of_a_line() {
    let mut app = app_with(&["ac"]);
    app.move_cursor(RIGHT, false);
    app.insert_char('b');
    assert_eq!(lines_of(&app), vec!["abc"]);
    assert_eq!(logical(&app), (2, 0));
    assert!(app.dirty);
    assert_eq!(app.status, DEFAULT_STATUS);
}

#[test]
fn typing_past_the_right_edge_scrolls() {
    let mut app = App::new();
    app.resize(3, 24);
    typed(&mut app, "abcde");
    assert_eq!(lines_of(&app), vec!["abcde"]);
    assert_eq!((app.cursor.visible.x, app.cursor.offset.x), (2, 3));
    assert_eq!(logical(&app), (5, 0));
}

#[test]
fn enter_in_the_middle_of_a_line_takes_the_rest_along() {
    let mut app = app_with(&["hello world", "next"]);
    for _ in 0..5 {
        app.move_cursor(RIGHT, false);
    }
    assert_eq!(app.add_new_line(), None);
    assert_eq!(lines_of(&app), vec!["hello", " world", "next"]);
    assert_eq!(logical(&app), (0, 1));
    assert!(app.dirty);
}

#[test]
fn enter_at_the_start_of_a_line_leaves_an_empty_line_above() {
    let mut app = app_with(&["abc"]);
    app.add_new_line();
    assert_eq!(lines_of(&app), vec!["", "abc"]);
    assert_eq!(logical(&app), (0, 1));
}

#[test]
fn enter_resets_the_horizontal_scroll() {
    let mut app = app_with(&["0123456789"]);
    app.resize(4, 24);
    app.jump_at_end_line();
    assert_eq!((app.cursor.visible.x, app.cursor.offset.x), (4, 6));
    app.add_new_line();
    assert_eq!(lines_of(&app), vec!["0123456789", ""]);
    assert_eq!((app.cursor.visible.x, app.cursor.offset.x), (0, 0));
    assert_eq!(logical(&app), (0, 1));
}

#[test]
fn enter_scrolls_down_when_the_rows_are_used_up() {
    let mut app = App::new();
    app.resize(80, 5);
    app.add_new_line();
    assert_eq!((app.cursor.visible.y, app.cursor.offset.y), (1, 0));
    app.add_new_line();
    assert_eq!((app.cursor.visible.y, app.cursor.offset.y), (1, 1));
    assert_eq!(lines_of(&app), vec!["", "", ""]);
    assert_eq!(logical(&app), (0, 2));
}

#[test]
fn backspace_on_an_empty_line_removes_the_line() {
    let mut app = app_with(&["abc", "", "def"]);
    app.move_cursor(DOWN, false);
    assert_eq!(logical(&app), (0, 1));
    app.pop_char();
    assert_eq!(lines_of(&app), vec!["abc", "def"]);
    assert_eq!(logical(&app), (0, 0));
    assert!(app.dirty);
}

#[test]
fn backspace_on_an_empty_first_line_removes_it_and_stays() {
    let mut app = app_with(&["", "def"]);
    app.pop_char();
    assert_eq!(lines_of(&app), vec!["def"]);
    assert_eq!(logical(&app), (0, 0));
}

#[test]
fn backspace_on_the_only_line_when_empty_keeps_one_line() {
    let mut app = App::new();
    app.pop_char();
    assert_eq!(app.content.line_count(), 1);
    assert_eq!(lines_of(&app), vec![""]);
    assert_eq!(logical(&app), (0, 0));
    app.pop_char();
    assert_eq!(app.content.line_count(), 1);
}

#[test]
fn backspace_at_the_very_start_of_a_line_with_text_does_nothing() {
    let mut app = app_with(&["abc", "def"]);
    app.opened_filename = "f".to_string();
    app.save_to_file();
    app.pop_char();
    assert_eq!(lines_of(&app), vec!["abc", "def"]);
    assert_eq!(logical(&app), (0, 0));
    assert!(!app.dirty);
    assert_eq!(app.status, "Saved to f");
}

#[test]
fn backspace_in_the_middle_takes_the_character_before_the_cursor() {
    let mut app = app_with(&["abcd"]);
    app.move_cursor(RIGHT, false);
    app.move_cursor(RIGHT, false);
    app.pop_char();
    assert_eq!(lines_of(&app), vec!["acd"]);
    assert_eq!(logical(&app), (1, 0));
}

#[test]
fn backspace_goes_by_the_column_in_the_document_not_on_the_screen() {
    let mut app = app_with(&["0123456789", "x"]);
    app.resize(0, 24);
    for _ in 0..4 {
        app.move_cursor(RIGHT, false);
    }
    assert_eq!((app.cursor.visible.x, app.cursor.offset.x), (0, 4));
    app.pop_char();
    assert_eq!(lines_of(&app), vec!["012456789", "x"]);
    assert_eq!(logical(&app), (3, 0));
}

#[test]
fn joining_puts_the_cursor_at_the_seam() {
    let mut app = app_with(&["hello", "", "world"]);
    app.move_cursor(DOWN, false);
    app.move_cursor(DOWN, false);
    app.pop_char();
    assert_eq!(lines_of(&app), vec!["hello", "world"]);
    assert_eq!(logical(&app), (0, 1));
    app.pop_char();
    assert_eq!(lines_of(&app), vec!["helloworld"]);
    assert_eq!(logical(&app), (5, 0));
    assert_eq!((app.cursor.visible.x, app.cursor.offset.x), (5, 0));
}

#[test]
fn jumps_go_to_the_ends_of_the_line() {
    let mut app = app_with(&["hello world"]);
    app.jump_at_end_line();
    assert_eq!(logical(&app), (11, 0));
    app.jump_at_start_line();
    assert_eq!(logical(&app), (0, 0));
    app.resize(4, 24);
    app.jump_at_end_line();
    assert_eq!((app.cursor.visible.x, app.cursor.offset.x), (4, 7));
    app.jump_at_start_line();
    assert_eq!((app.cursor.visible.x, app.cursor.offset.x), (0, 0));
}

#[test]
fn saving_without_a_name_opens_the_prompt() {
    let mut app = app_with(&["abc"]);
    app.set_dirty();
    assert_eq!(app.save_to_file(), None);
    assert!(app.prompt_is_open());
    assert!(app.dirty);
    assert_eq!(prompt_of(&app), "");
    assert_eq!(app.prompt_column(), 0);
    assert_eq!(logical(&app), (0, 0));
}

#[test]
fn saving_while_a_prompt_is_open_saves_nothing() {
    let mut app = app_with(&["abc"]);
    app.opened_filename = "named".to_string();
    app.set_dirty();
    app.enter_prompt();
    typed(&mut app, "xy");
    assert_eq!(app.save_to_file(), None);
    assert!(app.prompt_is_open());
    assert!(app.dirty);
    assert_eq!(prompt_of(&app), "xy");
    assert_eq!(app.prompt_column(), 2);
}

#[test]
fn saving_through_the_prompt() {
    let mut app = App::new();
    typed(&mut app, "ab");
    app.add_new_line();
    typed(&mut app, "c");
    assert_eq!(app.save_to_file(), None);
    assert!(app.prompt_is_open());
    typed(&mut app, "t.txt");
    assert_eq!(prompt_of(&app), "t.txt");
    assert_eq!(lines_of(&app), vec!["ab", "c"]);
    assert_eq!(app.add_new_line(), Some("ab\nc".to_string()));
    assert_eq!(app.opened_filename, "t.txt");
    assert!(!app.prompt_is_open());
    assert!(!app.dirty);
    assert_eq!(prompt_of(&app), "");
    assert_eq!(app.status, format!("{}{}", SAVED_STATUS, "t.txt"));
    assert_eq!(app.status, "Saved to t.txt");
    assert_eq!(logical(&app), (1, 1));
}

#[test]
fn confirming_an_empty_prompt_asks_again() {
    let mut app = app_with(&["abc"]);
    app.set_dirty();
    app.save_to_file();
    assert_eq!(app.add_new_line(), None);
    assert!(app.prompt_is_open());
    assert!(app.dirty);
    assert_eq!(app.opened_filename, "");
    assert_eq!(lines_of(&app), vec!["abc"]);
}

#[test]
fn the_prompt_does_not_touch_the_document_or_its_cursor() {
    let mut app = app_with(&["hello", "world"]);
    app.move_cursor(DOWN, false);
    app.move_cursor(RIGHT, false);
    app.enter_prompt();
    typed(&mut app, "name");
    app.move_cursor(UP, false);
    app.move_cursor(DOWN, false);
    app.move_cursor(LEFT, false);
    app.pop_char();
    assert_eq!(prompt_of(&app), "nam");
    assert_eq!(lines_of(&app), vec!["hello", "world"]);
    assert_eq!(logical(&app), (1, 1));
    app.exit_prompt();
    assert!(!app.prompt_is_open());
    assert_eq!(prompt_of(&app), "");
    assert_eq!(app.prompt_column(), 0);
    assert_eq!(logical(&app), (1, 1));
    assert!(!app.dirty);
}

#[test]
fn the_prompt_cursor_stays_inside_what_was_typed() {
    let mut app = App::new();
    app.enter_prompt();
    app.move_cursor(LEFT, false);
    assert_eq!(app.prompt_column(), 0);
    app.move_cursor(RIGHT, false);
    assert_eq!(app.prompt_column(), 0);
    typed(&mut app, "abc");
    assert_eq!(app.prompt_column(), 3);
    app.move_cursor(RIGHT, false);
    assert_eq!(app.prompt_column(), 3);
    app.move_cursor(LEFT, false);
    app.move_cursor(LEFT, false);
    assert_eq!(app.prompt_column(), 1);
    app.insert_char('X');
    assert_eq!(prompt_of(&app), "aXbc");
    assert_eq!(app.prompt_column(), 2);
    app.jump_at_end_line();
    assert_eq!(app.prompt_column(), 4);
    app.jump_at_start_line();
    assert_eq!(app.prompt_column(), 0);
    app.pop_char();
    assert_eq!(prompt_of(&app), "aXb");
    assert_eq!(app.prompt_column(), 0);
}

#[test]
fn backspace_in_an_empty_prompt_does_nothing() {
    let mut app = App::new();
    app.set_dirty();
    app.quit();
    app.enter_prompt();
    app.pop_char();
    assert!(app.prompt_is_open());
    assert_eq!(prompt_of(&app), "");
    assert_eq!(app.quit_times, 1);
}

#[test]
fn entering_an_open_prompt_keeps_what_was_typed() {
    let mut app = App::new();
    app.enter_prompt();
    typed(&mut app, "abc");
    app.enter_prompt();
    assert_eq!(prompt_of(&app), "abc");
    assert_eq!(app.prompt_column(), 3);
}

#[test]
fn leaving_without_a_prompt_changes_nothing() {
    let mut app = app_with(&["abc"]);
    app.move_cursor(RIGHT, false);
    app.exit_prompt();
    assert!(!app.prompt_is_open());
    assert_eq!(logical(&app), (1, 0));
    assert_eq!(lines_of(&app), vec!["abc"]);
}

#[test]
fn room_checks_hold_for_everyday_sessions() {
    let mut app = app_with(&["abc", "def"]);
    assert!(app.has_room_to_insert());
    assert!(app.has_room_to_break());
    assert!(app.has_room_to_erase());
    app.move_cursor(DOWN, false);
    assert!(app.has_room_to_erase());
    app.enter_prompt();
    assert!(app.has_room_to_insert());
    assert!(app.has_room_to_break());
    assert!(app.has_room_to_erase());
}

#[test]
fn the_cursor_stays_in_the_document_through_any_run_of_commands() {
    for (width, height) in [(1u16, 1u16), (2, 5), (7, 6), (80, 24)] {
        let mut app = App::new();
        app.resize(width, height);
        let mut seed: u64 = 0xD1B54A32D192ED03;
        for step in 0..4000u32 {
            seed ^= seed << 13;
            seed ^= seed >> 7;
            seed ^= seed << 17;
            match seed % 11 {
                0 | 1 | 2 => app.insert_char(char::from(b'a' + (step % 26) as u8)),
                3 => {
                    app.add_new_line();
                }
                4 | 5 => app.pop_char(),
                6 => app.move_cursor(LEFT, false),
                7 => app.move_cursor(RIGHT, step % 2 == 0),
                8 => app.move_cursor(UP, false),
                9 => app.move_cursor(DOWN, false),
                _ => {
                    if step % 2 == 0 {
                        app.jump_at_end_line()
                    } else {
                        app.jump_at_start_line()
                    }
                }
            }
            assert!(app.content.line_count() >= 1);
            assert!(cursor_in_bounds(&app));
        }
    }
}

#[test]
fn a_position_is_a_column_and_a_row() {
    let p = Position { x: 3, y: 4 };
    let q = p;
    assert_eq!((p.x, p.y), (q.x, q.y));
}

#[test]
fn open_cuts_the_text_into_lines() {
    let app = App::open("notes.txt".to_string(), "one\ntwo\n");
    assert_eq!(lines_of(&app), vec!["one", "two", ""]);
    assert_eq!(app.opened_filename, "notes.txt");
    assert!(app.running);
    assert!(!app.dirty);
    assert!(!app.prompt_is_open());
    assert_eq!(logical(&app), (0, 0));
    assert_eq!(app.status, DEFAULT_STATUS);
    assert_eq!(app.quit_times, 2);
}

#[test]
fn a_file_that_is_opened_and_saved_unchanged_keeps_every_byte() {
    for text in ["", "abc", "abc\n", "a\n\nb\n", "\n"] {
        let mut app = App::open("f".to_string(), text);
        assert_eq!(app.save_to_file(), Some(text.to_string()));
    }
}

#[test]
fn a_session_out_of_bounds_is_not_well_formed() {
    let mut app = app_with(&["abc", "de"]);
    assert!(app.is_well_formed());
    app.cursor.visible.x = 4;
    assert!(!app.is_well_formed());
    app.cursor.visible.x = 3;
    assert!(app.is_well_formed());
    app.cursor.offset.y = 2;
    assert!(!app.is_well_formed());
    app.cursor.offset.y = 0;
    app.mode = Mode::Prompt { input: vec!['a'], cursor: 2 };
    assert!(!app.is_well_formed());
    app.mode = Mode::Prompt { input: vec!['a'], cursor: 1 };
    assert!(app.is_well_formed());
    app.mode = Mode::Normal;
    app.quit_times = 3;
    assert!(!app.is_well_formed());
    app.quit_times = -1;
    assert!(!app.is_well_formed());
    app.quit_times = 0;
    assert!(app.is_well_formed());
}

#[test]
fn the_mode_holds_the_prompt() {
    let mut app = App::new();
    assert!(matches!(app.mode, Mode::Normal));
    assert_eq!(app.prompt_length(), 0);
    assert_eq!(app.prompt_column(), 0);
    assert_eq!(app.prompt_text(), "");
    app.enter_prompt();
    typed(&mut app, "abc");
    app.move_cursor(LEFT, false);
    match &app.mode {
        Mode::Prompt { input, cursor } => {
            assert_eq!(input, &vec!['a', 'b', 'c']);
            assert_eq!(*cursor, 2);
        }
        Mode::Normal => panic!("a prompt is open"),
    }
    assert_eq!(app.prompt_length(), 3);
    assert_eq!(app.prompt_column(), 2);
    assert_eq!(app.prompt_text(), "abc");
    app.exit_prompt();
    assert!(matches!(app.mode, Mode::Normal));
}

#[test]
fn the_size_is_kept_in_rows_and_columns() {
    let mut app = App::new();
    app.resize(u16::MAX, 1);
    let Size { rows, cols } = app.window_size;
    assert_eq!((rows, cols), (1, 65535));
}
