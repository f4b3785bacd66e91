use magic_installer::menu::{MenuEvent, MenuOutcome, MenuState, Move};

#[test]
fn up_from_first_option_wraps_to_last() {
    let mut m = MenuState::new(4, 80, 24);
    assert_eq!(m.handle(MenuEvent::Up), MenuOutcome::SelectionMoved);
    assert_eq!(m.selected, 3);
}

#[test]
fn down_from_last_option_wraps_to_first() {
    let mut m = MenuState::new(4, 80, 24);
    m.apply_move(Move::Up);
    assert_eq!(m.selected, 3);
    m.apply_move(Move::Down);
    assert_eq!(m.selected, 0);
    m.apply_move(Move::Down);
    assert_eq!(m.selected, 1);
}

#[test]
fn any_moves_keep_selection_in_range() {
    let moves = [Move::Up, Move::Up, Move::Down, Move::Up, Move::Up, Move::Up, Move::Up, Move::Down, Move::Down];
    let mut m = MenuState::new(4, 80, 24);
    let mut expected: usize = 0;
    for mv in moves {
        m.apply_move(mv);
        expected = match mv {
            Move::Up => (expected + 3) % 4,
            Move::Down => (expected + 1) % 4,
        };
        assert!(m.selected < 4);
        assert_eq!(m.selected, expected);
    }
}

#[test]
fn single_option_menu_stays_on_it() {
    let mut m = MenuState::new(1, 10, 10);
    m.apply_move(Move::Up);
    assert_eq!(m.selected, 0);
    m.apply_move(Move::Down);
    assert_eq!(m.selected, 0);
}

#[test]
fn resize_keeps_selection() {
    let mut m = MenuState::new(4, 80, 24);
    m.handle(MenuEvent::Down);
    assert_eq!(m.handle(MenuEvent::Resize { width: 120, height: 40 }), MenuOutcome::Resized);
    assert_eq!(m, MenuState { selected: 1, option_count: 4, width: 120, height: 40 });
}

#[test]
fn confirm_cancel_and_other_keys() {
    let mut m = MenuState::new(4, 80, 24);
    m.handle(MenuEvent::Down);
    m.handle(MenuEvent::Down);
    assert_eq!(m.handle(MenuEvent::Confirm), MenuOutcome::Chosen(2));
    assert_eq!(m.handle(MenuEvent::Cancel), MenuOutcome::Cancelled);
    assert_eq!(m.handle(MenuEvent::Other), MenuOutcome::Ignored);
    assert_eq!(m.selected, 2);
}
