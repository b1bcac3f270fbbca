use snake_game::game::{Game, GameKey, GameState};
use snake_game::snake::{Block, Direction};

fn body_cells(game: &Game) -> Vec<Block> {
    game.snake().body().clone()
}

#[test]
fn initial_configuration() {
    let game = Game::new(30, 30);
    assert_eq!(game.game_state(), GameState::Running);
    assert_eq!(game.score(), 0);
    assert_eq!(game.level(), 1);
    assert_eq!(game.width(), 30);
    assert_eq!(game.height(), 30);
    assert_eq!(game.food(), Some(Block { x: 6, y: 4 }));
    assert!(!game.bonus_food());
    assert_eq!(game.snake().head_position(), (4, 2));
    assert_eq!(game.snake().head_direction(), Direction::Right);
    assert_eq!(
        body_cells(&game),
        vec![Block { x: 4, y: 2 }, Block { x: 3, y: 2 }, Block { x: 2, y: 2 }]
    );
}

#[test]
fn five_ticks_right_scenario() {
    let mut game = Game::new(30, 30);
    for _ in 0..5 {
        game.update(200);
    }
    assert_eq!(game.snake().head_position(), (9, 2));
    assert_eq!(game.snake().head_direction(), Direction::Right);
    assert_eq!(game.game_state(), GameState::Running);
    assert_eq!(game.score(), 0);
    assert_eq!(game.food(), Some(Block { x: 6, y: 4 }));
    assert_eq!(body_cells(&game).len(), 3);
}

#[test]
fn no_tick_before_threshold() {
    let mut game = Game::new(30, 30);
    game.update(140);
    assert_eq!(game.snake().head_position(), (4, 2));
    game.update(1);
    assert_eq!(game.snake().head_position(), (5, 2));
}

#[test]
fn directional_input_moves_head() {
    let mut game = Game::new(30, 30);
    game.key_pressed(GameKey::Down);
    assert_eq!(game.snake().head_position(), (4, 3));
    assert_eq!(game.snake().head_direction(), Direction::Down);
    assert_eq!(game.game_state(), GameState::Running);
    assert_eq!(body_cells(&game).len(), 3);
}

#[test]
fn reversal_input_is_ignored() {
    let mut game = Game::new(30, 30);
    game.key_pressed(GameKey::Left);
    assert_eq!(game.snake().head_position(), (4, 2));
    assert_eq!(game.snake().head_direction(), Direction::Right);
    assert_eq!(game.game_state(), GameState::Running);
}

#[test]
fn unrecognized_key_is_ignored() {
    let mut game = Game::new(30, 30);
    game.key_pressed(GameKey::Other);
    assert_eq!(game.snake().head_position(), (4, 2));
    assert_eq!(game.snake().head_direction(), Direction::Right);
    assert_eq!(game.game_state(), GameState::Running);
    assert_eq!(game.score(), 0);
}

fn eat_first_food(game: &mut Game) {
    // From the start, steer down twice and right twice: the head crosses
    // (4, 3), (4, 4), (5, 4) and lands on the food at (6, 4).
    game.key_pressed(GameKey::Down);
    game.key_pressed(GameKey::Down);
    game.key_pressed(GameKey::Right);
    game.key_pressed(GameKey::Right);
}

#[test]
fn eating_grows_snake_and_scores() {
    let mut game = Game::new(30, 30);
    eat_first_food(&mut game);
    assert_eq!(game.snake().head_position(), (6, 4));
    assert_eq!(game.score(), 1);
    assert_eq!(game.level(), 1);
    assert_eq!(game.food(), None);
    assert!(!game.bonus_food());
    assert_eq!(
        body_cells(&game),
        vec![
            Block { x: 6, y: 4 },
            Block { x: 5, y: 4 },
            Block { x: 4, y: 4 },
            Block { x: 4, y: 3 }
        ]
    );
}

#[test]
fn update_spawns_food_off_snake() {
    let mut game = Game::new(30, 30);
    eat_first_food(&mut game);
    assert_eq!(game.food(), None);
    game.update(1);
    let food = game.food().expect("food must respawn on the next frame");
    assert!(1 <= food.x && food.x <= 28);
    assert!(1 <= food.y && food.y <= 28);
    for cell in body_cells(&game) {
        assert_ne!(cell, food);
    }
    // one millisecond is below the tick threshold: nothing moved
    assert_eq!(game.snake().head_position(), (6, 4));
}

#[test]
fn self_collision_ends_game() {
    let mut game = Game::new(30, 30);
    eat_first_food(&mut game);
    // Four cells now; curl back into the body: down, left, then up hits the
    // cell (5, 4).
    game.key_pressed(GameKey::Down);
    game.key_pressed(GameKey::Left);
    game.key_pressed(GameKey::Up);
    assert_eq!(game.game_state(), GameState::GameOver);
    assert_eq!(game.score(), 1);
    assert_eq!(game.level(), 1);
    assert_eq!(game.snake().head_position(), (5, 5));
    assert_eq!(body_cells(&game).len(), 4);
}

#[test]
fn border_collision_ends_game() {
    let mut game = Game::new(30, 30);
    game.key_pressed(GameKey::Up);
    assert_eq!(game.snake().head_position(), (4, 1));
    assert_eq!(game.game_state(), GameState::Running);
    game.key_pressed(GameKey::Up);
    assert_eq!(game.game_state(), GameState::GameOver);
    assert_eq!(game.snake().head_position(), (4, 1));
    assert_eq!(game.score(), 0);
}

#[test]
fn paused_update_changes_nothing() {
    let mut game = Game::new(30, 30);
    game.key_pressed(GameKey::Pause);
    assert_eq!(game.game_state(), GameState::Paused);
    for _ in 0..3 {
        game.update(500);
    }
    assert_eq!(game.snake().head_position(), (4, 2));
    assert_eq!(game.score(), 0);
    assert_eq!(game.level(), 1);
    assert_eq!(game.food(), Some(Block { x: 6, y: 4 }));
    assert_eq!(game.game_state(), GameState::Paused);
}

#[test]
fn pause_toggle_round_trip() {
    let mut game = Game::new(30, 30);
    game.key_pressed(GameKey::Pause);
    assert_eq!(game.game_state(), GameState::Paused);
    game.key_pressed(GameKey::Pause);
    assert_eq!(game.game_state(), GameState::Running);
}

#[test]
fn directional_input_ignored_when_paused() {
    let mut game = Game::new(30, 30);
    game.key_pressed(GameKey::Pause);
    game.key_pressed(GameKey::Down);
    assert_eq!(game.snake().head_position(), (4, 2));
    assert_eq!(game.snake().head_direction(), Direction::Right);
    assert_eq!(game.game_state(), GameState::Paused);
}

#[test]
fn directional_input_ignored_after_game_over() {
    let mut game = Game::new(30, 30);
    game.key_pressed(GameKey::Up);
    game.key_pressed(GameKey::Up);
    assert_eq!(game.game_state(), GameState::GameOver);
    game.key_pressed(GameKey::Down);
    assert_eq!(game.snake().head_position(), (4, 1));
    assert_eq!(game.game_state(), GameState::GameOver);
}

#[test]
fn pause_in_game_over_stays_over() {
    let mut game = Game::new(30, 30);
    game.key_pressed(GameKey::Up);
    game.key_pressed(GameKey::Up);
    assert_eq!(game.game_state(), GameState::GameOver);
    // the pause input is accepted but only restart leaves the game-over phase
    game.key_pressed(GameKey::Pause);
    assert_eq!(game.game_state(), GameState::GameOver);
    assert_eq!(game.snake().head_position(), (4, 1));
    game.key_pressed(GameKey::Restart);
    assert_eq!(game.game_state(), GameState::Running);
    assert_eq!(game.snake().head_position(), (4, 2));
}

#[test]
fn restart_restores_initial_config() {
    let mut game = Game::new(30, 30);
    eat_first_food(&mut game);
    game.key_pressed(GameKey::Up);
    game.key_pressed(GameKey::Left);
    assert_eq!(game.score(), 1);
    game.key_pressed(GameKey::Restart);
    assert_eq!(game.game_state(), GameState::Running);
    assert_eq!(game.score(), 0);
    assert_eq!(game.level(), 1);
    assert_eq!(game.food(), Some(Block { x: 6, y: 4 }));
    assert!(!game.bonus_food());
    assert_eq!(game.snake().head_direction(), Direction::Right);
    assert_eq!(
        body_cells(&game),
        vec![Block { x: 4, y: 2 }, Block { x: 3, y: 2 }, Block { x: 2, y: 2 }]
    );
}

#[test]
fn restart_while_paused() {
    let mut game = Game::new(30, 30);
    game.key_pressed(GameKey::Down);
    game.key_pressed(GameKey::Pause);
    game.key_pressed(GameKey::Restart);
    assert_eq!(game.game_state(), GameState::Running);
    assert_eq!(game.snake().head_position(), (4, 2));
    assert_eq!(game.score(), 0);
}
