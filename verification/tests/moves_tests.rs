use conquest::game::{eval_territory, GameResult};
use conquest::game_state::{GamePhase, GameState, Move, MoveApplyErr, TerritoryState};
use conquest::territories::Territory;
use conquest::Player;

const DEFAULT_PLAYER: Player = Player::A;
const DEFAULT_ARMIES: u8 = 1;
const TARGET_TERRITORY: Territory = Territory::Alaska;
const SOURCE_TERRITORY: Territory = Territory::NorthwestTerritory;
const SOURCE_TERRITORY_ARMIES: u8 = 10;

fn uniform_territories() -> Vec<TerritoryState> {
    let mut territories = Vec::new();
    for _ in 0..42 {
        territories.push(TerritoryState::new(DEFAULT_PLAYER, DEFAULT_ARMIES));
    }
    territories
}

fn dummy_state(phase: GamePhase) -> GameState {
    let mut territories = uniform_territories();
    territories[TARGET_TERRITORY.index()] = TerritoryState::new(Player::B, DEFAULT_ARMIES);
    territories[SOURCE_TERRITORY.index()] =
        TerritoryState::new(DEFAULT_PLAYER, SOURCE_TERRITORY_ARMIES);
    GameState::new(Player::A, territories, phase)
}

fn dummy_state_with_armies(phase: GamePhase, target_armies: u8) -> GameState {
    let mut territories = uniform_territories();
    territories[TARGET_TERRITORY.index()] = TerritoryState::new(Player::B, target_armies);
    territories[SOURCE_TERRITORY.index()] =
        TerritoryState::new(DEFAULT_PLAYER, SOURCE_TERRITORY_ARMIES);
    GameState::new(Player::A, territories, phase)
}

#[test]
fn attack_pass_skips() {
    let start = dummy_state(GamePhase::Attack);
    let result = start.apply_move(&Move::Pass);
    let result = result.unwrap();
    assert_eq!(result.states_with_count().len(), 1);
    let result = &result.states_with_count()[0];
    assert_eq!(result.count(), 1);
    assert_eq!(result.state().current_player(), Player::B);
    assert_eq!(result.state().phase(), GamePhase::Reinforce(3));
}

#[test]
fn attack_other_player() {
    const TARGET_TERRITORY_ARMIES: u8 = 3;

    let start = dummy_state_with_armies(GamePhase::Attack, TARGET_TERRITORY_ARMIES);
    let result = start.apply_move(&Move::Attack {
        from: SOURCE_TERRITORY,
        to: TARGET_TERRITORY,
        attacking: 1,
    });
    let result = result.unwrap();
    assert_eq!(result.states_with_count().len(), 2);
    for state_result in result.states_with_count() {
        assert!(state_result.count() > 0);
        let state = state_result.state();
        assert_eq!(state.current_player(), Player::A);
        assert_eq!(state.phase(), GamePhase::Attack);

        let source_territory_state = state.territory_state(SOURCE_TERRITORY);
        assert_eq!(source_territory_state.player(), Player::A);

        let target_territory_state = state.territory_state(TARGET_TERRITORY);
        assert_eq!(target_territory_state.player(), Player::B);

        if source_territory_state.armies() == SOURCE_TERRITORY_ARMIES - 1 {
            assert!(target_territory_state.armies() == TARGET_TERRITORY_ARMIES);
        } else {
            assert!(target_territory_state.armies() == TARGET_TERRITORY_ARMIES - 1);
            assert_eq!(source_territory_state.armies(), SOURCE_TERRITORY_ARMIES);
        }
    }
}

#[test]
fn attack_and_capture() {
    let start = dummy_state_with_armies(GamePhase::Attack, 1);
    let result = start.apply_move(&Move::Attack {
        from: SOURCE_TERRITORY,
        to: TARGET_TERRITORY,
        attacking: 1,
    });
    let result = result.unwrap();
    assert_eq!(result.states_with_count().len(), 2);
    for state_result in result.states_with_count() {
        assert!(state_result.count() > 0);
        let state = state_result.state();
        assert_eq!(state.current_player(), Player::A);
        assert_eq!(state.phase(), GamePhase::Attack);

        let source_territory_state = state.territory_state(SOURCE_TERRITORY);
        assert_eq!(source_territory_state.armies(), SOURCE_TERRITORY_ARMIES - 1);
        assert_eq!(source_territory_state.player(), Player::A);

        let target_territory_state = state.territory_state(TARGET_TERRITORY);
        assert_eq!(target_territory_state.armies(), 1);
        assert!(
            target_territory_state.player() == Player::A
                || target_territory_state.player() == Player::B
        );
    }
}

#[test]
fn compare_dice_rolls() {
    let scenario = GameState::compare_rolls(&[1], &[6]);
    assert_eq!(scenario.attacker_losses, 1);
    assert_eq!(scenario.defender_losses, 0);

    let scenario = GameState::compare_rolls(&[6], &[6]);
    assert_eq!(scenario.attacker_losses, 1);
    assert_eq!(scenario.defender_losses, 0);

    let scenario = GameState::compare_rolls(&[6], &[1]);
    assert_eq!(scenario.attacker_losses, 0);
    assert_eq!(scenario.defender_losses, 1);

    let scenario = GameState::compare_rolls(&[6, 2], &[3]);
    assert_eq!(scenario.attacker_losses, 0);
    assert_eq!(scenario.defender_losses, 1);
}

#[test]
fn sort_descending_orders_dice() {
    assert_eq!(GameState::sort_descending(vec![2, 6, 3]), vec![6, 3, 2]);
    assert_eq!(GameState::sort_descending(vec![1, 1, 5]), vec![5, 1, 1]);
    assert_eq!(GameState::sort_descending(vec![4, 2]), vec![4, 2]);
    assert_eq!(GameState::sort_descending(vec![2, 4]), vec![4, 2]);
    assert_eq!(GameState::sort_descending(vec![6]), vec![6]);
}

#[test]
fn simple_attack_exact_weights() {
    // One attacking die against a 3-army defender (two defender dice):
    // exactly two outcomes, weights counting all 6 * 36 ordered roll pairs.
    let start = dummy_state_with_armies(GamePhase::Attack, 3);
    let result = start
        .apply_move(&Move::Attack { from: SOURCE_TERRITORY, to: TARGET_TERRITORY, attacking: 1 })
        .unwrap();
    let entries = result.states_with_count();
    assert_eq!(entries.len(), 2);
    // The attacker's single die must strictly beat the higher of the two
    // defender dice: sum over a of (a-1)^2 = 55 winning triples.
    assert_eq!(entries[0].count(), 161);
    assert_eq!(entries[1].count(), 55);
    assert_eq!(result.total_count(), 216);
    for state_result in entries {
        assert_eq!(state_result.state().territory_state(TARGET_TERRITORY).player(), Player::B);
    }
}

#[test]
fn guaranteed_capture_branch() {
    // A 1-army defender: losing its single die comparison flips ownership
    // to the attacker, with the committed attacking force moved in.
    let start = dummy_state_with_armies(GamePhase::Attack, 1);
    let result = start
        .apply_move(&Move::Attack { from: SOURCE_TERRITORY, to: TARGET_TERRITORY, attacking: 1 })
        .unwrap();
    let entries = result.states_with_count();
    assert_eq!(entries.len(), 2);
    assert_eq!(result.total_count(), 36);
    let survived = &entries[0];
    let captured = &entries[1];
    assert_eq!(survived.count(), 21);
    assert_eq!(survived.state().territory_state(TARGET_TERRITORY).player(), Player::B);
    assert_eq!(survived.state().territory_state(TARGET_TERRITORY).armies(), 1);
    assert_eq!(captured.count(), 15);
    assert_eq!(captured.state().territory_state(TARGET_TERRITORY).player(), Player::A);
    assert_eq!(captured.state().territory_state(TARGET_TERRITORY).armies(), 1);
}

#[test]
fn weight_conservation_three_on_two() {
    // Full 3-vs-2 battle: weights over all outcomes sum to 6^3 * 6^2.
    let start = dummy_state_with_armies(GamePhase::Attack, 2);
    let result = start
        .apply_move(&Move::Attack { from: SOURCE_TERRITORY, to: TARGET_TERRITORY, attacking: 3 })
        .unwrap();
    assert_eq!(result.states_with_count().len(), 3);
    assert_eq!(result.total_count(), 7776);
}

#[test]
fn fortify_conserves_armies() {
    let start = dummy_state(GamePhase::Attack);
    let before_from = start.territory_state(SOURCE_TERRITORY).armies();
    let before_to = start.territory_state(Territory::Greenland).armies();
    let result = start
        .apply_move(&Move::Fortify {
            from: SOURCE_TERRITORY,
            to: Territory::Greenland,
            armies: 4,
        })
        .unwrap();
    let entries = result.states_with_count();
    assert_eq!(entries.len(), 1);
    let state = entries[0].state();
    assert_eq!(state.territory_state(SOURCE_TERRITORY).armies(), before_from - 4);
    assert_eq!(state.territory_state(Territory::Greenland).armies(), before_to + 4);
    assert_eq!(
        state.territory_state(SOURCE_TERRITORY).armies() as u16
            + state.territory_state(Territory::Greenland).armies() as u16,
        before_from as u16 + before_to as u16
    );
    assert_eq!(state.current_player(), Player::B);
    assert!(matches!(state.phase(), GamePhase::Reinforce(_)));
}

#[test]
fn reinforcement_exhaustion() {
    let start = dummy_state(GamePhase::Reinforce(3));
    let mid = start
        .apply_move(&Move::Reinforce { territory: SOURCE_TERRITORY, armies: 2 })
        .unwrap();
    let mid_state = mid.states_with_count()[0].state();
    assert_eq!(mid_state.phase(), GamePhase::Reinforce(1));
    let done = mid_state
        .apply_move(&Move::Reinforce { territory: SOURCE_TERRITORY, armies: 1 })
        .unwrap();
    let done_state = done.states_with_count()[0].state();
    assert_eq!(done_state.phase(), GamePhase::Attack);
    assert_eq!(done_state.territory_state(SOURCE_TERRITORY).armies(), SOURCE_TERRITORY_ARMIES + 3);
    let extra = done_state.apply_move(&Move::Reinforce { territory: SOURCE_TERRITORY, armies: 1 });
    assert!(matches!(extra, Err(MoveApplyErr::MoveNotInPhase(_, _))));
}

#[test]
fn full_map_ownership_finishes() {
    let state = GameState::new(Player::A, uniform_territories(), GamePhase::Attack);
    assert!(state.is_finished());
    assert!(state.legal_moves().is_empty());
}

#[test]
fn legal_moves_deterministic_and_pure() {
    let state = dummy_state(GamePhase::Attack);
    let first = state.legal_moves();
    let second = state.legal_moves();
    assert_eq!(first.len(), second.len());
    for m in &first {
        assert!(second.contains(m));
    }
    for m in &second {
        assert!(first.contains(m));
    }
    // The state itself is untouched by generation.
    assert_eq!(state.territory_state(SOURCE_TERRITORY).armies(), SOURCE_TERRITORY_ARMIES);
    assert_eq!(state.current_player(), Player::A);
}

#[test]
fn legal_moves_in_reinforce_phase() {
    let state = dummy_state(GamePhase::Reinforce(2));
    let moves = state.legal_moves();
    // 41 owned territories, and 1 or 2 armies to place on each.
    assert_eq!(moves.len(), 82);
    assert!(moves.contains(&Move::Reinforce { territory: SOURCE_TERRITORY, armies: 1 }));
    assert!(moves.contains(&Move::Reinforce { territory: SOURCE_TERRITORY, armies: 2 }));
    assert!(!moves.contains(&Move::Pass));
    assert!(!moves.contains(&Move::Reinforce { territory: TARGET_TERRITORY, armies: 1 }));
}

#[test]
fn legal_moves_in_attack_phase() {
    let state = dummy_state(GamePhase::Attack);
    let moves = state.legal_moves();
    assert!(moves.contains(&Move::Pass));
    // Only the source territory holds more than one army, so every
    // non-pass move starts there.
    assert!(moves.contains(&Move::Attack {
        from: SOURCE_TERRITORY,
        to: TARGET_TERRITORY,
        attacking: 3
    }));
    assert!(!moves.contains(&Move::Attack {
        from: SOURCE_TERRITORY,
        to: TARGET_TERRITORY,
        attacking: 4
    }));
    assert!(moves.contains(&Move::Fortify {
        from: SOURCE_TERRITORY,
        to: Territory::Greenland,
        armies: 9
    }));
    for m in &moves {
        match m {
            Move::Pass => {}
            Move::Fortify { from, .. } | Move::Attack { from, .. } => {
                assert_eq!(*from, SOURCE_TERRITORY);
            }
            Move::Reinforce { .. } => panic!("reinforce move generated in attack phase"),
        }
    }
}

fn state_with_a_owning(indices: &[usize]) -> GameState {
    let mut territories = Vec::new();
    for i in 0..42 {
        let owner = if indices.contains(&i) { Player::A } else { Player::B };
        territories.push(TerritoryState::new(owner, 1));
    }
    GameState::new(Player::A, territories, GamePhase::Attack)
}

#[test]
fn reinforcement_tiers_step_at_14_and_17() {
    // Holdings chosen so that A never fully controls a continent.
    let thirteen: Vec<usize> = vec![1, 2, 3, 4, 5, 6, 7, 8, 9, 10, 11, 13, 14];
    let mut fourteen = thirteen.clone();
    fourteen.push(15);
    let mut sixteen = fourteen.clone();
    sixteen.push(16);
    sixteen.push(17);
    let mut seventeen = sixteen.clone();
    seventeen.push(18);
    assert_eq!(state_with_a_owning(&thirteen).number_of_reinforcements(Player::A), 3);
    assert_eq!(state_with_a_owning(&fourteen).number_of_reinforcements(Player::A), 4);
    assert_eq!(state_with_a_owning(&sixteen).number_of_reinforcements(Player::A), 4);
    assert_eq!(state_with_a_owning(&seventeen).number_of_reinforcements(Player::A), 5);
}

#[test]
fn continent_bonuses_add_up() {
    // A holds exactly North America; B holds everything else.
    let north_america: Vec<usize> = (0..9).collect();
    let state = state_with_a_owning(&north_america);
    assert_eq!(state.number_of_reinforcements(Player::A), 3 + 5);
    // B owns 33 territories and fully controls the other five continents.
    assert_eq!(state.number_of_reinforcements(Player::B), 5 + 2 + 5 + 3 + 7 + 2);
    let continents = state.continents_for_player(Player::A);
    assert_eq!(continents.len(), 1);
    assert_eq!(continents[0], conquest::territories::Continent::NorthAmerica);
}

#[test]
fn error_game_finished() {
    let state = GameState::new(Player::A, uniform_territories(), GamePhase::Attack);
    let r = state.apply_move(&Move::Pass);
    assert!(matches!(r, Err(MoveApplyErr::GameFinished)));
}

#[test]
fn error_pass_during_reinforce() {
    let state = dummy_state(GamePhase::Reinforce(3));
    let r = state.apply_move(&Move::Pass);
    assert!(matches!(r, Err(MoveApplyErr::MoveNotInPhase(Move::Pass, GamePhase::Reinforce(3)))));
}

#[test]
fn error_too_many_reinforcements() {
    let state = dummy_state(GamePhase::Reinforce(3));
    let r = state.apply_move(&Move::Reinforce { territory: SOURCE_TERRITORY, armies: 4 });
    assert!(matches!(r, Err(MoveApplyErr::TooManyReinforcements)));
}

#[test]
fn error_reinforce_unowned_territory() {
    let state = dummy_state(GamePhase::Reinforce(3));
    let r = state.apply_move(&Move::Reinforce { territory: TARGET_TERRITORY, armies: 1 });
    assert!(matches!(r, Err(MoveApplyErr::ToTerritoryNotOwned)));
}

#[test]
fn error_reinforce_overflowing_territory() {
    let mut territories = uniform_territories();
    territories[SOURCE_TERRITORY.index()] = TerritoryState::new(Player::A, 255);
    territories[TARGET_TERRITORY.index()] = TerritoryState::new(Player::B, 1);
    let state = GameState::new(Player::A, territories, GamePhase::Reinforce(3));
    let r = state.apply_move(&Move::Reinforce { territory: SOURCE_TERRITORY, armies: 1 });
    assert!(matches!(r, Err(MoveApplyErr::TooManyUnitsMoved)));
}

#[test]
fn error_fortify_from_enemy_territory() {
    let state = dummy_state(GamePhase::Attack);
    // Alaska belongs to B; fortifying out of it is rejected.
    let r = state.apply_move(&Move::Fortify {
        from: TARGET_TERRITORY,
        to: SOURCE_TERRITORY,
        armies: 1,
    });
    assert!(matches!(r, Err(MoveApplyErr::FromTerritoryNotOwned)));
}

#[test]
fn error_fortify_non_adjacent() {
    let state = dummy_state(GamePhase::Attack);
    let r = state.apply_move(&Move::Fortify {
        from: SOURCE_TERRITORY,
        to: Territory::Japan,
        armies: 1,
    });
    assert!(matches!(r, Err(MoveApplyErr::NonAdjacentTerritories)));
}

#[test]
fn error_fortify_too_many_units() {
    let state = dummy_state(GamePhase::Attack);
    let r = state.apply_move(&Move::Fortify {
        from: SOURCE_TERRITORY,
        to: Territory::Greenland,
        armies: 11,
    });
    assert!(matches!(r, Err(MoveApplyErr::TooManyUnitsMoved)));
}

#[test]
fn error_attack_own_territory() {
    let state = dummy_state(GamePhase::Attack);
    let r = state.apply_move(&Move::Attack {
        from: SOURCE_TERRITORY,
        to: Territory::Greenland,
        attacking: 1,
    });
    assert!(matches!(r, Err(MoveApplyErr::ToTerritoryOwned)));
}

#[test]
fn error_attack_zero_units() {
    let state = dummy_state(GamePhase::Attack);
    let r = state.apply_move(&Move::Attack {
        from: SOURCE_TERRITORY,
        to: TARGET_TERRITORY,
        attacking: 0,
    });
    assert!(matches!(r, Err(MoveApplyErr::ZeroUnitsInAttack)));
}

#[test]
fn error_attack_non_adjacent() {
    let state = dummy_state(GamePhase::Attack);
    let r = state.apply_move(&Move::Attack {
        from: SOURCE_TERRITORY,
        to: Territory::Japan,
        attacking: 1,
    });
    assert!(matches!(r, Err(MoveApplyErr::NonAdjacentTerritories)));
}

#[test]
fn error_attack_with_whole_force() {
    let state = dummy_state(GamePhase::Attack);
    // The source holds 10 armies; at least one must stay behind.
    let r = state.apply_move(&Move::Attack {
        from: SOURCE_TERRITORY,
        to: TARGET_TERRITORY,
        attacking: 10,
    });
    assert!(matches!(r, Err(MoveApplyErr::TooManyUnitsMoved)));
}

#[test]
fn error_attack_from_enemy_territory() {
    let mut territories = uniform_territories();
    territories[TARGET_TERRITORY.index()] = TerritoryState::new(Player::B, 3);
    territories[SOURCE_TERRITORY.index()] = TerritoryState::new(Player::B, 3);
    let state = GameState::new(Player::A, territories, GamePhase::Attack);
    let r = state.apply_move(&Move::Attack {
        from: TARGET_TERRITORY,
        to: SOURCE_TERRITORY,
        attacking: 1,
    });
    assert!(matches!(r, Err(MoveApplyErr::FromTerritoryNotOwned)));
}

#[test]
fn accessors_enumerate_all_territories() {
    let state = dummy_state(GamePhase::Attack);
    let named = state.named_territories_iter();
    assert_eq!(named.len(), 42);
    for (i, entry) in named.iter().enumerate() {
        assert_eq!(entry.territory().index(), i);
    }
    let of_a = state.territories_states_of_player(Player::A);
    assert_eq!(of_a.len(), 41);
    let of_b = state.territories_states_of_player(Player::B);
    assert_eq!(of_b.len(), 1);
    assert_eq!(of_b[0].territory(), TARGET_TERRITORY);
    assert_eq!(of_b[0].state().armies(), DEFAULT_ARMIES);
    assert_eq!(state.territory_states().len(), 42);
}

#[test]
fn eval_territory_majority() {
    // A holds 41 territories against B's one: majority win for A.
    let majority_a = dummy_state(GamePhase::Attack);
    assert_eq!(eval_territory(&majority_a), GameResult::Win(Player::A));
    // An even 21/21 split is a draw.
    let split: Vec<usize> = (0..21).collect();
    let even = state_with_a_owning(&split);
    assert_eq!(eval_territory(&even), GameResult::Draw);
    // B holding 41 territories wins.
    let mostly_b = state_with_a_owning(&[0]);
    assert_eq!(eval_territory(&mostly_b), GameResult::Win(Player::B));
    // A finished game is won by its sole owner, the player to move.
    let finished = GameState::new(Player::A, uniform_territories(), GamePhase::Attack);
    assert_eq!(eval_territory(&finished), GameResult::Win(Player::A));
}
