use notepad::{Event, Key, LineBuffer};

fn press(key: Key) -> Event {
    Event::press(key)
}

fn lines_of(b: &LineBuffer) -> Vec<String> {
    b.lines()
}

/// Builds the buffer `["ab", "cd"]` with the cursor at (1, 0).
fn two_lines_at_second_start() -> LineBuffer {
    let mut b = LineBuffer::new();
    b.apply(&Event::text("ab"));
    b.apply(&press(Key::Enter));
    b.apply(&Event::text("cd"));
    b.apply(&press(Key::ArrowLeft));
    b.apply(&press(Key::ArrowLeft));
    b
}

#[test]
fn starts_with_one_empty_line() {
    let b = LineBuffer::new();
    assert_eq!(lines_of(&b), vec![String::new()]);
    assert_eq!(b.cursor(), (0, 0));
    let d = LineBuffer::default();
    assert_eq!(lines_of(&d), vec![String::new()]);
    assert_eq!(d.cursor(), (0, 0));
}

#[test]
fn scenario_insert_split_insert() {
    let mut b = LineBuffer::new();
    b.apply(&Event::text("hi"));
    assert_eq!(lines_of(&b), vec!["hi".to_string()]);
    assert_eq!(b.cursor(), (0, 2));
    b.apply(&press(Key::Enter));
    assert_eq!(lines_of(&b), vec!["hi".to_string(), String::new()]);
    assert_eq!(b.cursor(), (1, 0));
    b.apply(&Event::text("x"));
    assert_eq!(lines_of(&b), vec!["hi".to_string(), "x".to_string()]);
    assert_eq!(b.cursor(), (1, 1));
}

#[test]
fn scenario_backspace_merges_lines() {
    let mut b = two_lines_at_second_start();
    assert_eq!(lines_of(&b), vec!["ab".to_string(), "cd".to_string()]);
    assert_eq!(b.cursor(), (1, 0));
    b.apply(&press(Key::Backspace));
    assert_eq!(lines_of(&b), vec!["abcd".to_string()]);
    assert_eq!(b.cursor(), (0, 2));
}

#[test]
fn scenario_arrows_at_line_ends() {
    let mut b = LineBuffer::new();
    b.apply(&Event::text("abc"));
    assert_eq!(b.cursor(), (0, 3));
    b.apply(&press(Key::ArrowRight));
    assert_eq!(lines_of(&b), vec!["abc".to_string()]);
    assert_eq!(b.cursor(), (0, 3));
    for _ in 0..3 {
        b.apply(&press(Key::ArrowLeft));
    }
    assert_eq!(b.cursor(), (0, 0));
    b.apply(&press(Key::ArrowLeft));
    assert_eq!(b.cursor(), (0, 0));
    assert_eq!(lines_of(&b), vec!["abc".to_string()]);
}

#[test]
fn insertion_goes_in_at_the_cursor() {
    let mut b = LineBuffer::new();
    b.apply(&Event::text("abef"));
    b.apply(&press(Key::ArrowLeft));
    b.apply(&press(Key::ArrowLeft));
    b.apply(&Event::text("cd"));
    assert_eq!(lines_of(&b), vec!["abcdef".to_string()]);
    assert_eq!(b.cursor(), (0, 4));
}

#[test]
fn columns_count_characters_not_bytes() {
    let mut b = LineBuffer::new();
    b.apply(&Event::text("é€"));
    assert_eq!(b.cursor(), (0, 2));
    b.apply(&press(Key::ArrowLeft));
    b.apply(&Event::text("x"));
    assert_eq!(b.line(0), "éx€".to_string());
    assert_eq!(b.cursor(), (0, 2));
    b.apply(&press(Key::Backspace));
    assert_eq!(b.line(0), "é€".to_string());
    assert_eq!(b.cursor(), (0, 1));
}

#[test]
fn newline_in_text_does_not_split() {
    let mut b = LineBuffer::new();
    b.apply(&Event::text("a\nb"));
    assert_eq!(b.line_count(), 1);
    assert_eq!(b.line(0), "a\nb".to_string());
    assert_eq!(b.cursor(), (0, 3));
}

#[test]
fn empty_text_changes_nothing() {
    let mut b = LineBuffer::new();
    b.apply(&Event::text("ab"));
    b.apply(&Event::text(""));
    assert_eq!(lines_of(&b), vec!["ab".to_string()]);
    assert_eq!(b.cursor(), (0, 2));
}

#[test]
fn backspace_removes_previous_character() {
    let mut b = LineBuffer::new();
    b.apply(&Event::text("abc"));
    b.apply(&press(Key::ArrowLeft));
    b.apply(&press(Key::Backspace));
    assert_eq!(lines_of(&b), vec!["ac".to_string()]);
    assert_eq!(b.cursor(), (0, 1));
}

#[test]
fn split_then_merge_restores_line() {
    let mut b = LineBuffer::new();
    b.apply(&Event::text("hello"));
    b.apply(&press(Key::ArrowLeft));
    b.apply(&press(Key::ArrowLeft));
    b.apply(&press(Key::Enter));
    assert_eq!(lines_of(&b), vec!["hel".to_string(), "lo".to_string()]);
    assert_eq!(b.cursor(), (1, 0));
    b.apply(&press(Key::Backspace));
    assert_eq!(lines_of(&b), vec!["hello".to_string()]);
    assert_eq!(b.cursor(), (0, 3));
}

#[test]
fn split_inserts_line_right_below() {
    let mut b = two_lines_at_second_start();
    b.apply(&press(Key::ArrowLeft));
    assert_eq!(b.cursor(), (0, 2));
    b.apply(&press(Key::ArrowLeft));
    b.apply(&press(Key::Enter));
    assert_eq!(
        lines_of(&b),
        vec!["a".to_string(), "b".to_string(), "cd".to_string()]
    );
    assert_eq!(b.cursor(), (1, 0));
}

#[test]
fn boundary_keys_are_no_ops() {
    let mut b = LineBuffer::new();
    b.apply(&press(Key::Backspace));
    b.apply(&press(Key::ArrowLeft));
    b.apply(&press(Key::ArrowRight));
    assert_eq!(lines_of(&b), vec![String::new()]);
    assert_eq!(b.cursor(), (0, 0));

    let mut c = two_lines_at_second_start();
    c.apply(&press(Key::ArrowRight));
    c.apply(&press(Key::ArrowRight));
    assert_eq!(c.cursor(), (1, 2));
    c.apply(&press(Key::ArrowRight));
    assert_eq!(c.cursor(), (1, 2));
    assert_eq!(lines_of(&c), vec!["ab".to_string(), "cd".to_string()]);
}

#[test]
fn arrows_wrap_across_lines() {
    let mut b = two_lines_at_second_start();
    b.apply(&press(Key::ArrowLeft));
    assert_eq!(b.cursor(), (0, 2));
    b.apply(&press(Key::ArrowRight));
    assert_eq!(b.cursor(), (1, 0));
}

#[test]
fn releases_change_nothing() {
    for key in [
        Key::Backspace,
        Key::Enter,
        Key::ArrowLeft,
        Key::ArrowRight,
        Key::Other,
    ] {
        let mut b = two_lines_at_second_start();
        b.apply(&Event::release(key));
        assert_eq!(lines_of(&b), vec!["ab".to_string(), "cd".to_string()]);
        assert_eq!(b.cursor(), (1, 0));
    }
}

#[test]
fn unknown_key_press_changes_nothing() {
    let mut b = two_lines_at_second_start();
    b.apply(&press(Key::Other));
    assert_eq!(lines_of(&b), vec!["ab".to_string(), "cd".to_string()]);
    assert_eq!(b.cursor(), (1, 0));
}

#[test]
fn release_does_not_stop_the_rest_of_a_batch() {
    let mut b = LineBuffer::new();
    let events = vec![
        Event::text("ab"),
        Event::release(Key::Enter),
        Event::press(Key::Enter),
        Event::text("c"),
    ];
    b.apply_all(&events);
    assert_eq!(lines_of(&b), vec!["ab".to_string(), "c".to_string()]);
    assert_eq!(b.cursor(), (1, 1));
}

#[test]
fn cursor_stays_valid_over_a_long_batch() {
    let mut b = LineBuffer::new();
    let keys = [
        Key::Enter,
        Key::Backspace,
        Key::ArrowLeft,
        Key::ArrowRight,
        Key::Other,
    ];
    for round in 0..40usize {
        if round % 3 == 0 {
            b.apply(&Event::text("xy"));
        }
        b.apply(&press(keys[round % keys.len()]));
        let (line, column) = b.cursor();
        assert!(b.line_count() >= 1);
        assert!(line < b.line_count());
        assert!(column <= b.line(line).chars().count());
    }
}
