use feedctl::tracker::Tracker;

#[test]
fn empty_list_has_no_selection() {
    let mut t = Tracker::new();
    assert_eq!(t.selected(), None);
    t.next();
    assert_eq!(t.selected(), None);
    t.previous();
    assert_eq!(t.selected(), None);
    t.jump_forward(5);
    assert_eq!(t.selected(), None);
    t.jump_backward(5);
    assert_eq!(t.selected(), None);
}

#[test]
fn next_wraps_from_last_to_first() {
    let mut t = Tracker::new();
    t.set_items(3);
    t.next();
    assert_eq!(t.selected(), Some(0));
    t.next();
    assert_eq!(t.selected(), Some(1));
    t.next();
    assert_eq!(t.selected(), Some(2));
    t.next();
    assert_eq!(t.selected(), Some(0));
}

#[test]
fn previous_wraps_from_first_to_last() {
    let mut t = Tracker::new();
    t.set_items(3);
    t.next();
    assert_eq!(t.selected(), Some(0));
    t.previous();
    assert_eq!(t.selected(), Some(2));
    t.previous();
    assert_eq!(t.selected(), Some(1));
}

#[test]
fn selection_stays_in_range_over_any_walk() {
    let mut t = Tracker::new();
    t.set_items(4);
    for step in 0..25usize {
        if step % 3 == 0 {
            t.next();
        } else {
            t.previous();
        }
        let sel = t.selected().expect("non-empty list always selects");
        assert!(sel < 4);
    }
}

#[test]
fn page_jumps_clamp_at_the_edges() {
    let mut t = Tracker::new();
    t.set_items(10);
    t.next();
    t.jump_forward(5);
    assert_eq!(t.selected(), Some(5));
    t.jump_forward(100);
    assert_eq!(t.selected(), Some(9));
    t.jump_backward(3);
    assert_eq!(t.selected(), Some(6));
    t.jump_backward(100);
    assert_eq!(t.selected(), Some(0));
}

#[test]
fn shrinking_the_list_clamps_the_selection() {
    let mut t = Tracker::new();
    t.set_items(8);
    t.next();
    t.jump_forward(6);
    assert_eq!(t.selected(), Some(6));
    t.set_items(3);
    assert_eq!(t.selected(), Some(2));
    t.set_items(0);
    assert_eq!(t.selected(), None);
}
