use snake_core::{to_coord_u32, Direction, Snake};

#[test]
fn new_snake_lies_behind_its_head() {
    let s = Snake::new(5, 5);
    assert_eq!(s.body(), vec![(5, 5), (4, 5), (3, 5)]);
    assert!(s.head_direction() == Direction::Right);
    assert_eq!(s.head_position(), (5, 5));
    assert_eq!(s.last_tail(), None);
}

#[test]
fn new_snake_cells_are_unit_steps() {
    let s = Snake::new(-7, 12);
    let b = s.body();
    assert_eq!(b.len(), 3);
    for w in b.windows(2) {
        let dx = (w[0].0 - w[1].0).abs();
        let dy = (w[0].1 - w[1].1).abs();
        assert_eq!(dx + dy, 1);
    }
}

#[test]
fn step_grow_turn_scenario() {
    let mut s = Snake::new(5, 5);
    s.move_forward(None);
    assert_eq!(s.body(), vec![(6, 5), (5, 5), (4, 5)]);
    assert_eq!(s.last_tail(), Some((3, 5)));
    s.restore_tail();
    assert_eq!(s.body(), vec![(6, 5), (5, 5), (4, 5), (3, 5)]);
    s.move_forward(Some(Direction::Up));
    assert!(s.head_direction() == Direction::Up);
    assert_eq!(s.body(), vec![(6, 4), (6, 5), (5, 5), (4, 5)]);
    assert_eq!(s.last_tail(), Some((3, 5)));
}

#[test]
fn overlap_after_turn_skips_tail() {
    let mut s = Snake::new(5, 5);
    s.move_forward(None);
    s.restore_tail();
    s.move_forward(Some(Direction::Up));
    assert!(s.overlap_tail(5, 5));
    assert!(!s.overlap_tail(4, 5));
}

#[test]
fn straight_steps_keep_length_and_advance_head() {
    let mut s = Snake::new(0, 0);
    for k in 1..=10 {
        s.move_forward(None);
        assert_eq!(s.body().len(), 3);
        assert_eq!(s.head_position(), (k, 0));
    }
    s.move_forward(Some(Direction::Down));
    for k in 1..=4 {
        s.move_forward(None);
        assert_eq!(s.head_position(), (10, 1 + k));
        assert_eq!(s.body().len(), 3);
    }
}

#[test]
fn grow_after_step_appends_vacated_cell() {
    let mut s = Snake::new(2, 3);
    s.move_forward(Some(Direction::Down));
    let before = s.body().len();
    let vacated = s.last_tail().unwrap();
    assert_eq!(vacated, (0, 3));
    s.restore_tail();
    let b = s.body();
    assert_eq!(b.len(), before + 1);
    assert_eq!(*b.last().unwrap(), vacated);
    assert_eq!(s.last_tail(), None);
}

#[test]
fn grow_twice_adds_one_cell() {
    let mut s = Snake::new(5, 5);
    s.move_forward(None);
    s.restore_tail();
    s.restore_tail();
    assert_eq!(s.body(), vec![(6, 5), (5, 5), (4, 5), (3, 5)]);
}

#[test]
fn grow_before_any_step_changes_nothing() {
    let mut s = Snake::new(5, 5);
    s.restore_tail();
    assert_eq!(s.body(), vec![(5, 5), (4, 5), (3, 5)]);
}

#[test]
fn overlap_counts_every_cell_but_tail() {
    let s = Snake::new(5, 5);
    assert!(s.overlap_tail(5, 5));
    assert!(s.overlap_tail(4, 5));
    assert!(!s.overlap_tail(3, 5));
    assert!(!s.overlap_tail(6, 5));
    assert!(!s.overlap_tail(5, 4));
}

#[test]
fn first_step_target_is_free() {
    let s = Snake::new(5, 5);
    for d in [None, Some(Direction::Up), Some(Direction::Down), Some(Direction::Right)] {
        let (x, y) = s.next_head(d);
        assert!(!s.overlap_tail(x, y));
    }
}

#[test]
fn reversal_is_taken_as_given() {
    let mut s = Snake::new(5, 5);
    assert_eq!(s.next_head(Some(Direction::Left)), (4, 5));
    s.move_forward(Some(Direction::Left));
    assert!(s.head_direction() == Direction::Left);
    assert_eq!(s.body(), vec![(4, 5), (5, 5), (4, 5)]);
    assert!(s.overlap_tail(4, 5));
}

#[test]
fn next_head_leaves_state_unchanged() {
    let mut s = Snake::new(5, 5);
    s.move_forward(Some(Direction::Down));
    let body = s.body();
    let first = s.next_head(None);
    for _ in 0..5 {
        assert_eq!(s.next_head(None), first);
    }
    assert_eq!(first, (5, 7));
    assert_eq!(s.next_head(Some(Direction::Up)), (5, 5));
    assert_eq!(s.next_head(Some(Direction::Left)), (4, 6));
    assert_eq!(s.next_head(Some(Direction::Right)), (6, 6));
    assert_eq!(s.body(), body);
    assert!(s.head_direction() == Direction::Down);
    s.move_forward(None);
    assert_eq!(s.head_position(), first);
}

#[test]
fn opposite_pairs() {
    assert!(Direction::Up.opposite() == Direction::Down);
    assert!(Direction::Down.opposite() == Direction::Up);
    assert!(Direction::Left.opposite() == Direction::Right);
    assert!(Direction::Right.opposite() == Direction::Left);
}

#[test]
fn pixel_offsets() {
    assert_eq!(to_coord_u32(0), 0);
    assert_eq!(to_coord_u32(4), 100);
    assert_eq!(to_coord_u32(-3), 0);
    assert_eq!(to_coord_u32(i32::MAX), u32::MAX);
    assert_eq!(to_coord_u32(171_798_692), u32::MAX);
    assert_eq!(to_coord_u32(171_798_691), 4_294_967_275);
}
