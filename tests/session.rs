use minigolf::{ConnectionParams, IdAllocator, PlayerTurn, TurnBeginEvent};

#[test]
fn ids_are_handed_out_in_order() {
    let mut ids = IdAllocator::new();
    assert_eq!(ids.allocate(), 1);
    assert_eq!(ids.allocate(), 2);
    assert_eq!(ids.next, 3);
}

#[test]
fn ids_wrap_at_the_end_of_the_range() {
    let mut ids = IdAllocator { next: u32::MAX };
    assert_eq!(ids.allocate(), u32::MAX);
    assert_eq!(ids.allocate(), 0);
}

#[test]
fn shot_counts_only_on_own_turn() {
    let mut p = PlayerTurn::new(7);
    assert!(!p.shot(7));
    assert_eq!(p.shot_count, 0);
    assert_eq!(p.update(true), Some(TurnBeginEvent::new(7)));
    assert!(p.is_turn);
    assert!(!p.shot(8));
    assert!(p.is_turn);
    assert!(p.shot(7));
    assert!(!p.is_turn);
    assert_eq!(p.shot_count, 1);
}

#[test]
fn turn_begins_once_when_ball_stops() {
    let mut p = PlayerTurn::new(3);
    assert_eq!(p.update(false), None);
    assert!(!p.is_turn);
    assert_eq!(p.update(true), Some(TurnBeginEvent { player_id: 3 }));
    assert_eq!(p.update(true), None);
    assert!(p.is_turn);
}

#[test]
fn hole_resets_shot_count() {
    let mut p = PlayerTurn { id: 2, is_turn: false, shot_count: 5 };
    p.hole();
    assert_eq!(p, PlayerTurn { id: 2, is_turn: false, shot_count: 0 });
}

#[test]
fn connection_params_hold_reconnect_id() {
    let params = ConnectionParams { id: Some(4), name: "ann".to_string() };
    assert_eq!(params.id, Some(4));
    assert_eq!(params.name, "ann");
}

#[test]
fn game_id_is_five_letters_or_digits() {
    for _ in 0..20 {
        let id = minigolf::new_game_id();
        assert_eq!(id.len(), 5);
        assert!(id.iter().all(|b| b.is_ascii_alphanumeric()));
    }
}

#[test]
fn ignored_shot_at_largest_count_leaves_player_unchanged() {
    let mut p = PlayerTurn { id: 1, is_turn: false, shot_count: u32::MAX };
    assert!(!p.shot(1));
    assert_eq!(p, PlayerTurn { id: 1, is_turn: false, shot_count: u32::MAX });
}
