use conquest::apply_move_result::ApplyMoveResult;
use conquest::arena::ArenaResult;
use conquest::bots::{Bot, RandomBot};
use conquest::draw_map::DrawMapOptions;
use conquest::game::{Game, GameResult, PlayOptions};
use conquest::game_state::{GamePhase, GameState, TerritoryState};
use conquest::move_results::GameStateResults;
use conquest::territories::Territory;
use conquest::Player;

fn board(owner_of_alaska: Player) -> GameState {
    let mut territories = Vec::new();
    for _ in 0..42 {
        territories.push(TerritoryState::new(Player::A, 2));
    }
    territories[Territory::Alaska.index()] = TerritoryState::new(owner_of_alaska, 2);
    GameState::new(Player::A, territories, GamePhase::Attack)
}

#[test]
fn apply_move_result_counts() {
    let mut result = ApplyMoveResult::new();
    assert_eq!(result.states_with_count().len(), 0);
    result.push(board(Player::B), 3);
    result.push(board(Player::A), 5);
    assert_eq!(result.states_with_count().len(), 2);
    assert_eq!(result.total_count(), 8);
    assert_eq!(result.states_with_count()[0].count(), 3);
    assert_eq!(result.states_with_count()[1].count(), 5);

    let single = ApplyMoveResult::single(board(Player::B));
    assert_eq!(single.states_with_count().len(), 1);
    assert_eq!(single.states_with_count()[0].count(), 1);
    assert_eq!(single.total_count(), 1);
}

#[test]
fn random_state_matches_some_entry() {
    let mut result = ApplyMoveResult::new();
    result.push(board(Player::B), 1);
    result.push(board(Player::A), 7);
    let picked = result.random_state_by_probability();
    let alaska = picked.territory_state(Territory::Alaska).player();
    assert!(alaska == Player::A || alaska == Player::B);
    assert_eq!(picked.current_player(), Player::A);
    assert_eq!(picked.phase(), GamePhase::Attack);
}

#[test]
fn game_state_results_counts() {
    let mut results = GameStateResults::new();
    assert_eq!(results.results().len(), 0);
    results.push(board(Player::B), 2);
    results.push(board(Player::A), 9);
    assert_eq!(results.results().len(), 2);
    assert_eq!(results.all_counts(), 11);
    assert_eq!(results.results()[0].count(), 2);
    assert_eq!(results.results()[1].state().current_player(), Player::A);

    let single = GameStateResults::single(board(Player::B));
    assert_eq!(single.results().len(), 1);
    assert_eq!(single.all_counts(), 1);
}

#[test]
fn arena_result_tallies() {
    let results = vec![
        GameResult::Win(Player::A),
        GameResult::Draw,
        GameResult::Win(Player::B),
        GameResult::Win(Player::A),
    ];
    let rounds = vec![10, 2000, 7, 3];
    let arena = ArenaResult::new(results, rounds);
    assert_eq!(arena.wins(Player::A), 2);
    assert_eq!(arena.wins(Player::B), 1);
    assert_eq!(arena.draws(), 1);
    assert_eq!(arena.winner(), Some(Player::A));

    let tied = ArenaResult::new(
        vec![GameResult::Win(Player::A), GameResult::Win(Player::B)],
        vec![1, 1],
    );
    assert_eq!(tied.winner(), None);

    let b_ahead = ArenaResult::new(vec![GameResult::Win(Player::B)], vec![1]);
    assert_eq!(b_ahead.winner(), Some(Player::B));
}

#[test]
fn play_options_builders() {
    let defaults = PlayOptions::default();
    assert!(defaults.filename.is_none());
    assert!(!defaults.debug_output);
    let with_images = PlayOptions::default().save_map_images("maps");
    assert_eq!(with_images.filename.as_deref(), Some("maps"));
    assert!(!with_images.debug_output);
    let noisy = PlayOptions::default().verbose();
    assert!(noisy.debug_output);
}

#[test]
fn random_bot_picks_legal_moves() {
    let state = board(Player::B);
    let legal = state.legal_moves();
    for _ in 0..20 {
        let m = RandomBot.make_move(&state);
        assert!(legal.contains(&m));
    }
}

#[test]
fn game_rounds_advance() {
    let mut game = Game::new(RandomBot, RandomBot);
    assert_eq!(game.round(), 0);
    let mut rounds_done = 0;
    for _ in 0..3 {
        match game.play_round(PlayOptions::default()).unwrap() {
            (Some(result), _) => {
                assert!(matches!(result, GameResult::Win(_)));
                break;
            }
            (None, moves) => {
                rounds_done += 1;
                assert!(!moves.is_empty());
            }
        }
    }
    assert_eq!(game.round(), rounds_done);
}

#[test]
fn player_cycles() {
    assert_eq!(Player::A.next(), Player::B);
    assert_eq!(Player::B.next(), Player::A);
    assert_eq!(Player::A.next().next(), Player::A);
}

#[test]
fn draw_map_options_builders() {
    let defaults = DrawMapOptions::default();
    assert_eq!(defaults.filename, "output-map.png");
    assert!(!defaults.should_print);
    let custom = DrawMapOptions::default().filename("round-7.png").should_print();
    assert_eq!(custom.filename, "round-7.png");
    assert!(custom.should_print);
}
