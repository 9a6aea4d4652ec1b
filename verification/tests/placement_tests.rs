use conquest::game_state::GamePhase;
use conquest::initial_placement::GameStateDuringInitialPlacement;
use conquest::Player;

#[test]
fn random_placement_claims_everything() {
    let placed = GameStateDuringInitialPlacement::new().place_random();
    let mut count_a = 0;
    let mut count_b = 0;
    let mut armies_a: u32 = 0;
    let mut armies_b: u32 = 0;
    for entry in &placed.territories {
        match entry.player {
            Some(Player::A) => {
                count_a += 1;
                armies_a += entry.armies as u32;
            }
            Some(Player::B) => {
                count_b += 1;
                armies_b += entry.armies as u32;
            }
            None => panic!("unclaimed territory after placement"),
        }
        assert!(entry.armies >= 1);
    }
    assert_eq!(count_a, 21);
    assert_eq!(count_b, 21);
    assert_eq!(armies_a, 40);
    assert_eq!(armies_b, 40);
}

#[test]
fn start_enters_reinforce_phase() {
    let placed = GameStateDuringInitialPlacement::new().place_random();
    let state = placed.start();
    assert_eq!(state.current_player(), Player::A);
    let expected = state.number_of_reinforcements(Player::A);
    assert_eq!(state.phase(), GamePhase::Reinforce(expected));
    for (i, entry) in state.territory_states().iter().enumerate() {
        assert_eq!(Some(entry.player()), placed.territories[i].player);
        assert_eq!(entry.armies(), placed.territories[i].armies);
    }
}

#[test]
fn deterministic_claims_drive_placement() {
    // The deterministic claim step makes setups reproducible: callers pick
    // the indices instead of the engine's random source.
    let mut board = GameStateDuringInitialPlacement::new();
    // Claim the first remaining unclaimed territory every time: player A
    // takes even indices, player B odd ones.
    let mut active = Player::A;
    for _ in 0..42 {
        board.claim_nth_unclaimed(active, 0);
        active = active.next();
    }
    for (i, entry) in board.territories.iter().enumerate() {
        let expected = if i % 2 == 0 { Player::A } else { Player::B };
        assert_eq!(entry.player, Some(expected));
        assert_eq!(entry.armies, 1);
    }
    board.add_army_nth_owned(Player::A, 0);
    assert_eq!(board.territories[0].armies, 2);
    board.add_army_nth_owned(Player::B, 1);
    assert_eq!(board.territories[3].armies, 2);
}

#[test]
fn fresh_board_is_empty() {
    let board = GameStateDuringInitialPlacement::new();
    assert_eq!(board.current_player, Player::A);
    assert_eq!(board.territories.len(), 42);
    for entry in &board.territories {
        assert!(entry.player.is_none());
        assert_eq!(entry.armies, 0);
    }
}
