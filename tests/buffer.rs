use livecmd::buffer::EditBuffer;
use livecmd::keys::Action;

fn text_of(b: &EditBuffer) -> String {
    b.chars().iter().collect()
}

#[test]
fn insert_places_characters_at_cursor() {
    let mut b = EditBuffer::new();
    b.insert('a');
    b.insert('c');
    b.move_left();
    b.insert('b');
    assert_eq!(text_of(&b), "abc");
    assert_eq!(b.cursor(), 2);
    assert_eq!(b.text(), "abc");
}

#[test]
fn delete_back_removes_before_cursor() {
    let mut b = EditBuffer::new();
    for c in "abc".chars() {
        b.insert(c);
    }
    b.move_left();
    assert!(b.delete_back());
    assert_eq!(text_of(&b), "ac");
    assert_eq!(b.cursor(), 1);
}

#[test]
fn edge_moves_and_delete_change_nothing() {
    let mut b = EditBuffer::new();
    b.move_left();
    assert!(!b.delete_back());
    assert_eq!(b.cursor(), 0);
    assert_eq!(text_of(&b), "");
    b.insert('x');
    b.move_right();
    assert_eq!(b.cursor(), 1);
    b.move_left();
    b.move_left();
    assert_eq!(b.cursor(), 0);
    assert!(!b.delete_back());
    assert_eq!(text_of(&b), "x");
}

#[test]
fn cursor_stays_in_bounds_over_many_actions() {
    let mut b = EditBuffer::new();
    let actions = [
        Action::CursorLeft,
        Action::Insert('q'),
        Action::CursorRight,
        Action::CursorRight,
        Action::DeleteBack,
        Action::DeleteBack,
        Action::Insert('w'),
        Action::Insert('e'),
        Action::CursorLeft,
        Action::CursorLeft,
        Action::CursorLeft,
        Action::Insert('r'),
        Action::Commit,
        Action::Abort,
    ];
    for a in actions {
        b.apply(a);
        assert!(b.cursor() <= b.chars().len());
    }
    assert_eq!(text_of(&b), "rwe");
    assert_eq!(b.cursor(), 1);
}

#[test]
fn apply_reports_text_changes_only() {
    let mut b = EditBuffer::new();
    assert!(b.apply(Action::Insert('a')));
    assert!(!b.apply(Action::CursorLeft));
    assert!(!b.apply(Action::DeleteBack));
    assert!(!b.apply(Action::CursorRight));
    assert!(!b.apply(Action::CursorRight));
    assert!(b.apply(Action::DeleteBack));
    assert_eq!(text_of(&b), "");
}
