use potatoes::fishable::{Fishable, FishableType};
use potatoes::game::{Game, GameState};

fn started() -> Game {
    let mut game = Game::new();
    game.update(false);
    game
}

#[test]
fn new_game_waits_at_start() {
    let game = Game::new();
    assert_eq!(game.state(), GameState::Start);
    assert_eq!(game.line_depth(), 200);
    assert_eq!(game.fall_rate(), 0);
    assert!(game.fishables().is_empty());
    assert!(game.can_update());
    assert!(!game.reads_input());
}

#[test]
fn first_update_starts_falling() {
    let mut game = Game::new();
    game.update(false);
    assert_eq!(game.state(), GameState::Falling);
    assert_eq!(game.fall_rate(), 3);
    assert_eq!(game.line_depth(), 200);
    assert_eq!(
        game.fishables(),
        &vec![Fishable {
            position: (100, 100),
            scale_percent: 50,
            velocity: (0, 0),
            category: FishableType::Turbofish,
            color: 1,
        }]
    );
}

#[test]
fn first_update_ignores_space() {
    let mut game = Game::new();
    game.update(true);
    assert_eq!(game.state(), GameState::Falling);
    assert_eq!(game.fall_rate(), 3);
    assert_eq!(game.line_depth(), 200);
    assert_eq!(game.fishables().len(), 1);
    assert_eq!(game.fishables()[0].position, (100, 100));
}

#[test]
fn space_held_while_falling_starts_reeling() {
    let mut game = started();
    assert!(game.reads_input());
    game.update(true);
    assert_eq!(game.state(), GameState::Reeling);
    assert_eq!(game.fall_rate(), -3);
    assert_eq!(game.line_depth(), 203);
}

#[test]
fn space_released_while_reeling_starts_falling() {
    let mut game = started();
    game.update(true);
    assert!(game.reads_input());
    game.update(false);
    assert_eq!(game.state(), GameState::Falling);
    assert_eq!(game.fall_rate(), 3);
    assert_eq!(game.line_depth(), 200);
}

#[test]
fn space_held_while_reeling_keeps_reeling() {
    let mut game = started();
    game.update(true);
    game.update(true);
    game.update(true);
    assert_eq!(game.state(), GameState::Reeling);
    assert_eq!(game.fall_rate(), -3);
    assert_eq!(game.line_depth(), 197);
}

#[test]
fn falling_line_is_three_deeper_each_update() {
    let mut game = started();
    let mut n: i32 = 0;
    while n < 1000 {
        assert_eq!(game.line_depth(), 200 + 3 * n);
        assert!(game.can_update());
        game.update(false);
        assert_eq!(game.state(), GameState::Falling);
        n += 1;
    }
    assert_eq!(game.line_depth(), 3200);
    assert_eq!(game.fishables().len(), 1);
}

#[test]
fn reeled_line_rises_above_the_surface() {
    let mut game = started();
    let mut n: i32 = 0;
    while n < 100 {
        game.update(true);
        n += 1;
    }
    assert_eq!(game.state(), GameState::Reeling);
    assert_eq!(game.line_depth(), 203 - 3 * 99);
    assert!(game.line_depth() < 0);
}

#[test]
fn nothing_is_ever_caught() {
    let mut game = Game::new();
    assert_eq!(game.check_collisions(), None);
    let mut n: u32 = 0;
    while n < 500 {
        game.update(n % 7 < 3);
        assert_eq!(game.check_collisions(), None);
        assert!(!matches!(game.state(), GameState::Caught(_)));
        n += 1;
    }
}

#[test]
fn update_leaves_the_water_alone_after_the_start() {
    let mut game = started();
    let before = game.fishables().clone();
    game.update(false);
    game.update(true);
    game.update(false);
    assert_eq!(game.fishables(), &before);
}
