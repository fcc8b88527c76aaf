use fdb_future::cursor::Cursor;

#[test]
fn fresh_cursor_has_everything_left() {
    assert_eq!(Cursor::new(0).len(), 0);
    assert_eq!(Cursor::new(9).len(), 9);
}

#[test]
fn cursor_nth_gives_the_index_and_moves_past_it() {
    let mut c = Cursor::new(6);
    assert_eq!(c.nth(0), Some(0));
    assert_eq!(c.nth(2), Some(3));
    assert_eq!(c.len(), 2);
    assert_eq!(c.nth(1), Some(5));
    assert_eq!(c.len(), 0);
    assert_eq!(c.nth(0), None);
}

#[test]
fn cursor_nth_back_gives_the_index_and_moves_before_it() {
    let mut c = Cursor::new(6);
    assert_eq!(c.nth_back(0), Some(5));
    assert_eq!(c.nth_back(2), Some(2));
    assert_eq!(c.len(), 2);
    assert_eq!(c.nth_back(1), Some(0));
    assert_eq!(c.len(), 0);
    assert_eq!(c.nth_back(0), None);
}

#[test]
fn cursor_ends_meet_in_the_middle() {
    let mut c = Cursor::new(3);
    assert_eq!(c.nth(0), Some(0));
    assert_eq!(c.nth_back(0), Some(2));
    assert_eq!(c.nth(0), Some(1));
    assert_eq!(c.nth(0), None);
    assert_eq!(c.nth_back(0), None);
}

#[test]
fn cursor_asked_too_far_is_exhausted() {
    let mut c = Cursor::new(5);
    assert_eq!(c.nth(5), None);
    assert_eq!(c.len(), 0);
    let mut c = Cursor::new(5);
    assert_eq!(c.nth_back(5), None);
    assert_eq!(c.len(), 0);
    assert_eq!(c.nth(0), None);
    let mut c = Cursor::new(5);
    assert_eq!(c.nth(1), Some(1));
    assert_eq!(c.nth(usize::MAX), None);
    assert_eq!(c.nth_back(0), None);
    let mut c = Cursor::new(5);
    assert_eq!(c.nth_back(usize::MAX), None);
    assert_eq!(c.len(), 0);
}

#[test]
fn cursor_remaining_is_length_less_both_ends() {
    let total = 20usize;
    let mut c = Cursor::new(total);
    let mut front = 0usize;
    let mut back = 0usize;
    for step in 0..6usize {
        if step % 2 == 0 {
            assert!(c.nth(step).is_some());
            front += step + 1;
        } else {
            assert!(c.nth_back(1).is_some());
            back += 2;
        }
        assert_eq!(c.len(), total - front - back);
    }
}
