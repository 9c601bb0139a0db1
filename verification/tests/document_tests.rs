use rust_edit::document::{line_numbers_width_for, Document, MIN_LINE_NUMBERS_WIDTH};
use rust_edit::gap_buffer::GapBuffer;

fn lines_of(d: &Document) -> Vec<String> {
    (0..d.line_count()).map(|y| d.line_text(y)).collect()
}

fn document_of(lines: &[&str]) -> Document {
    let owned: Vec<String> = lines.iter().map(|s| s.to_string()).collect();
    Document::from_lines(&owned)
}

fn line_of(text: &str) -> GapBuffer {
    let mut b = GapBuffer::new(4);
    b.push_str(text);
    b
}

#[test]
fn a_new_document_has_one_empty_line() {
    let d = Document::new();
    assert_eq!(d.line_count(), 1);
    assert_eq!(d.line_length(0), 0);
    assert_eq!(d.line_text(0), "");
    assert_eq!(d.to_text(), "");
    assert_eq!(d.line_numbers_width, 4);
}

#[test]
fn from_lines_keeps_the_lines_in_order() {
    let d = document_of(&["foo", "", "bär"]);
    assert_eq!(lines_of(&d), vec!["foo", "", "bär"]);
    assert_eq!(d.line_length(0), 3);
    assert_eq!(d.line_length(1), 0);
    assert_eq!(d.line_length(2), 3);
}

#[test]
fn from_no_lines_gives_one_empty_line() {
    let d = Document::from_lines(&Vec::new());
    assert_eq!(d.line_count(), 1);
    assert_eq!(lines_of(&d), vec![""]);
}

#[test]
fn from_lines_holds_a_line_longer_than_the_default_size() {
    let long: String = std::iter::repeat('z').take(200).collect();
    let d = Document::from_lines(&vec![long.clone()]);
    assert_eq!(d.line_length(0), 200);
    assert_eq!(d.line_text(0), long);
}

#[test]
fn to_text_joins_with_single_line_feeds() {
    assert_eq!(document_of(&["ab", "c"]).to_text(), "ab\nc");
    assert_eq!(document_of(&["only"]).to_text(), "only");
    assert_eq!(document_of(&["a", "", "b"]).to_text(), "a\n\nb");
    assert_eq!(document_of(&["a", ""]).to_text(), "a\n");
    assert_eq!(document_of(&["", ""]).to_text(), "\n");
}

#[test]
fn to_text_reads_across_the_gap() {
    let mut d = document_of(&["hello", "world"]);
    d.insert_char(0, 2, 'X');
    d.remove_char(1, 0);
    assert_eq!(d.to_text(), "heXllo\norld");
}

#[test]
fn insert_line_moves_the_later_lines_down() {
    let mut d = document_of(&["a", "c"]);
    d.insert_line(1, line_of("b"));
    assert_eq!(lines_of(&d), vec!["a", "b", "c"]);
    d.insert_line(0, line_of("start"));
    assert_eq!(lines_of(&d), vec!["start", "a", "b", "c"]);
    d.insert_line(4, line_of("end"));
    assert_eq!(lines_of(&d), vec!["start", "a", "b", "c", "end"]);
}

#[test]
fn push_line_adds_behind_the_last() {
    let mut d = Document::new();
    d.push_line(line_of("x"));
    assert_eq!(lines_of(&d), vec!["", "x"]);
}

#[test]
fn remove_line_returns_the_text_it_took_out() {
    let mut d = document_of(&["a", "b", "c"]);
    assert_eq!(d.remove_line(1), "b");
    assert_eq!(lines_of(&d), vec!["a", "c"]);
    assert_eq!(d.remove_line(1), "c");
    assert_eq!(lines_of(&d), vec!["a"]);
}

#[test]
fn removing_the_only_line_empties_it() {
    let mut d = document_of(&["last"]);
    assert_eq!(d.remove_line(0), "last");
    assert_eq!(d.line_count(), 1);
    assert_eq!(lines_of(&d), vec![""]);
    assert_eq!(d.remove_line(0), "");
    assert_eq!(d.line_count(), 1);
}

#[test]
fn split_line_breaks_a_line_into_two() {
    let mut d = document_of(&["hello world", "next"]);
    d.split_line(0, 5);
    assert_eq!(lines_of(&d), vec!["hello", " world", "next"]);
    d.split_line(2, 0);
    assert_eq!(lines_of(&d), vec!["hello", " world", "", "next"]);
    d.split_line(3, 4);
    assert_eq!(lines_of(&d), vec!["hello", " world", "", "next", ""]);
}

#[test]
fn join_line_into_previous_appends_and_removes() {
    let mut d = document_of(&["foo", "bar", "baz"]);
    d.join_line_into_previous(1);
    assert_eq!(lines_of(&d), vec!["foobar", "baz"]);
    d.join_line_into_previous(1);
    assert_eq!(lines_of(&d), vec!["foobarbaz"]);
}

#[test]
fn join_appends_at_the_end_even_after_an_edit_in_the_middle() {
    let mut d = document_of(&["abcd", "ef"]);
    d.insert_char(0, 1, 'X');
    d.join_line_into_previous(1);
    assert_eq!(lines_of(&d), vec!["aXbcdef"]);
}

#[test]
fn split_then_join_gives_the_document_back() {
    let mut d = document_of(&["one", "two three", "four"]);
    d.split_line(1, 3);
    assert_eq!(lines_of(&d), vec!["one", "two", " three", "four"]);
    d.join_line_into_previous(2);
    assert_eq!(lines_of(&d), vec!["one", "two three", "four"]);
}

#[test]
fn insert_char_and_remove_char_edit_one_line() {
    let mut d = document_of(&["ac", "xyz"]);
    d.insert_char(0, 1, 'b');
    assert_eq!(lines_of(&d), vec!["abc", "xyz"]);
    d.insert_char(0, 7, '!');
    assert_eq!(lines_of(&d), vec!["abc", "xyz"]);
    d.remove_char(1, 1);
    assert_eq!(lines_of(&d), vec!["abc", "xz"]);
    d.remove_char(1, 2);
    assert_eq!(lines_of(&d), vec!["abc", "xz"]);
}

#[test]
fn the_number_column_is_four_wide_up_to_ten_thousand_lines() {
    assert_eq!(MIN_LINE_NUMBERS_WIDTH, 4);
    assert_eq!(line_numbers_width_for(0), 4);
    assert_eq!(line_numbers_width_for(1), 4);
    assert_eq!(line_numbers_width_for(9), 4);
    assert_eq!(line_numbers_width_for(1000), 4);
    assert_eq!(line_numbers_width_for(9_999), 4);
    assert_eq!(line_numbers_width_for(10_000), 4);
}

#[test]
fn the_number_column_widens_with_the_logarithm_of_the_line_count() {
    assert_eq!(line_numbers_width_for(10_001), 5);
    assert_eq!(line_numbers_width_for(100_000), 5);
    assert_eq!(line_numbers_width_for(100_001), 6);
    assert_eq!(line_numbers_width_for(1_000_000), 6);
    assert_eq!(line_numbers_width_for(1_000_001), 7);
    assert_eq!(line_numbers_width_for(4_294_967_295), 10);
}

#[test]
fn the_number_column_never_narrows_as_lines_are_added() {
    let mut last = 0;
    for count in 0..20_000usize {
        let width = line_numbers_width_for(count);
        assert!(width >= last);
        last = width;
    }
    assert_eq!(last, 5);
}

#[test]
fn the_cached_width_follows_the_line_count() {
    let mut d = Document::new();
    for _ in 0..10_000 {
        d.push_line(GapBuffer::new(0));
    }
    assert_eq!(d.line_count(), 10_001);
    assert_eq!(d.line_numbers_width, 5);
    d.remove_line(10_000);
    assert_eq!(d.line_count(), 10_000);
    assert_eq!(d.line_numbers_width, 4);
}

#[test]
fn from_text_cuts_at_line_feeds() {
    assert_eq!(lines_of(&Document::from_text("")), vec![""]);
    assert_eq!(lines_of(&Document::from_text("abc")), vec!["abc"]);
    assert_eq!(lines_of(&Document::from_text("ab\nc")), vec!["ab", "c"]);
    assert_eq!(lines_of(&Document::from_text("ab\nc\n")), vec!["ab", "c", ""]);
    assert_eq!(lines_of(&Document::from_text("\n")), vec!["", ""]);
    assert_eq!(lines_of(&Document::from_text("\n\nx")), vec!["", "", "x"]);
    assert_eq!(lines_of(&Document::from_text("a\r\nb")), vec!["a\r", "b"]);
}

#[test]
fn a_text_that_is_loaded_and_saved_keeps_every_byte() {
    for text in ["", "\n", "abc", "abc\n", "a\n\nb", "\n\n\n", "tab\tünï\r\ncode\n", "x\ny\nz"] {
        assert_eq!(Document::from_text(text).to_text(), text);
    }
}

#[test]
fn lines_that_are_saved_and_loaded_come_back() {
    for lines in [vec![""], vec!["a"], vec!["a", ""], vec!["", ""], vec!["foo", "bar", "", "baz"]] {
        let d = document_of(&lines);
        let again = Document::from_text(&d.to_text());
        assert_eq!(lines_of(&again), lines);
    }
}

#[test]
fn well_formedness_can_be_tested() {
    let mut d = document_of(&["abc", "de"]);
    assert!(d.is_well_formed());
    d.line_numbers_width = 3;
    assert!(!d.is_well_formed());
    d.line_numbers_width = 4;
    assert!(d.is_well_formed());
    d.lines[1].gap_start = d.lines[1].gap_end + 1;
    assert!(!d.is_well_formed());
    let mut e = Document::new();
    e.lines.clear();
    assert!(!e.is_well_formed());
}
