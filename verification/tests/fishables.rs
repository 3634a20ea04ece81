use potatoes::fishable::{advance_and_cull, Fishable, FishableType};
use potatoes::game::{Game, GameState};
use potatoes::spawn::SpawnRoll;

fn fish(x: i32, y: i32, vx: i32, vy: i32) -> Fishable {
    Fishable {
        position: (x, y),
        scale_percent: 25,
        velocity: (vx, vy),
        category: FishableType::Turbofish,
        color: 2,
    }
}

fn roll(side: i32, x_offset: i32, y: i32, speed: i32, color: i32) -> SpawnRoll {
    let r = SpawnRoll { side, x_offset, y, speed, color };
    assert!(r.is_valid());
    r
}

#[test]
fn drift_adds_both_velocity_components_to_x() {
    assert_eq!(fish(10, 20, 3, 4).drift(), Some(fish(17, 20, 3, 4)));
    assert_eq!(fish(10, 20, -5, 0).drift(), Some(fish(5, 20, -5, 0)));
}

#[test]
fn drift_keeps_the_bounds_themselves() {
    assert_eq!(fish(3999, 50, 1, 0).drift(), Some(fish(4000, 50, 1, 0)));
    assert_eq!(fish(-2999, 50, -1, 0).drift(), Some(fish(-3000, 50, -1, 0)));
    assert_eq!(fish(4000, 50, 1, 0).drift(), None);
    assert_eq!(fish(-3000, 50, -1, 0).drift(), None);
    assert_eq!(fish(4000, 50, 0, 1).drift(), None);
}

#[test]
fn drift_drops_what_starts_outside_and_stays_outside() {
    assert_eq!(fish(5000, 50, 0, 0).drift(), None);
    assert_eq!(fish(-3001, 50, 0, 0).drift(), None);
    assert_eq!(fish(4001, 50, -1, 0).drift(), Some(fish(4000, 50, -1, 0)));
}

#[test]
fn drift_is_total_at_the_ends_of_the_integers() {
    assert_eq!(fish(i32::MAX, 0, i32::MAX, i32::MAX).drift(), None);
    assert_eq!(fish(i32::MIN, 0, i32::MIN, i32::MIN).drift(), None);
    assert_eq!(fish(i32::MAX, 0, i32::MIN, 0).drift(), Some(fish(-1, 0, i32::MIN, 0)));
}

#[test]
fn cull_removes_what_leaves_and_keeps_the_order() {
    let mut water = vec![
        fish(0, 1, 1, 0),
        fish(4000, 2, 5, 0),
        fish(100, 3, -2, 0),
        fish(-3000, 4, -1, 0),
        fish(-3000, 5, 1, 0),
    ];
    advance_and_cull(&mut water);
    assert_eq!(water, vec![fish(1, 1, 1, 0), fish(98, 3, -2, 0), fish(-2999, 5, 1, 0)]);
}

#[test]
fn cull_of_empty_water_is_empty() {
    let mut water: Vec<Fishable> = Vec::new();
    advance_and_cull(&mut water);
    assert!(water.is_empty());
}

#[test]
fn cull_leaves_nothing_out_of_bounds() {
    let mut water: Vec<Fishable> = Vec::new();
    let mut x: i32 = -3010;
    while x <= 4010 {
        water.push(fish(x, 10, 3, 0));
        water.push(fish(x, 10, -3, 0));
        x += 1;
    }
    advance_and_cull(&mut water);
    assert!(water.iter().all(|f| -3000 <= f.position.0 && f.position.0 <= 4000));
    assert_eq!(water.len(), 2 * 7001);
}

#[test]
fn roll_on_the_left_moves_right() {
    let f = roll(0, 250, 500, 4, 3).spawn();
    assert_eq!(
        f,
        Fishable {
            position: (-1250, 500),
            scale_percent: 25,
            velocity: (4, 0),
            category: FishableType::Turbofish,
            color: 3,
        }
    );
}

#[test]
fn roll_on_the_right_moves_left() {
    let f = roll(1, -1000, 10, 5, 5).spawn();
    assert_eq!(
        f,
        Fishable {
            position: (2000, 10),
            scale_percent: 25,
            velocity: (-5, 0),
            category: FishableType::Turbofish,
            color: 5,
        }
    );
}

#[test]
fn roll_validity_follows_the_ranges() {
    assert!(SpawnRoll { side: 0, x_offset: -1000, y: 10, speed: 1, color: 1 }.is_valid());
    assert!(SpawnRoll { side: 1, x_offset: 999, y: 999, speed: 5, color: 5 }.is_valid());
    assert!(!SpawnRoll { side: 2, x_offset: 0, y: 10, speed: 1, color: 1 }.is_valid());
    assert!(!SpawnRoll { side: -1, x_offset: 0, y: 10, speed: 1, color: 1 }.is_valid());
    assert!(!SpawnRoll { side: 0, x_offset: 1000, y: 10, speed: 1, color: 1 }.is_valid());
    assert!(!SpawnRoll { side: 0, x_offset: -1001, y: 10, speed: 1, color: 1 }.is_valid());
    assert!(!SpawnRoll { side: 0, x_offset: 0, y: 9, speed: 1, color: 1 }.is_valid());
    assert!(!SpawnRoll { side: 0, x_offset: 0, y: 1000, speed: 1, color: 1 }.is_valid());
    assert!(!SpawnRoll { side: 0, x_offset: 0, y: 10, speed: 0, color: 1 }.is_valid());
    assert!(!SpawnRoll { side: 0, x_offset: 0, y: 10, speed: 6, color: 1 }.is_valid());
    assert!(!SpawnRoll { side: 0, x_offset: 0, y: 10, speed: 1, color: 0 }.is_valid());
    assert!(!SpawnRoll { side: 0, x_offset: 0, y: 10, speed: 1, color: 6 }.is_valid());
}

#[test]
fn step_adds_the_rolled_fishable_at_the_end() {
    let mut game = Game::new();
    game.update(false);
    game.step_fishables(roll(0, 0, 300, 2, 4));
    assert_eq!(game.fishables().len(), 2);
    assert_eq!(game.fishables()[0].position, (100, 100));
    assert_eq!(game.fishables()[1].position, (-1500, 300));
    assert_eq!(game.fishables()[1].velocity, (2, 0));
    game.step_fishables(roll(1, 5, 20, 3, 1));
    assert_eq!(game.fishables().len(), 3);
    assert_eq!(game.fishables()[1].position, (-1498, 300));
    assert_eq!(game.fishables()[2].position, (3005, 20));
    assert_eq!(game.fishables()[2].velocity, (-3, 0));
    assert_eq!(game.state(), GameState::Falling);
    assert_eq!(game.line_depth(), 200);
    assert_eq!(game.fall_rate(), 3);
}

#[test]
fn step_in_an_unstarted_game_only_touches_the_water() {
    let mut game = Game::new();
    game.step_fishables(roll(1, 0, 10, 1, 1));
    assert_eq!(game.state(), GameState::Start);
    assert_eq!(game.line_depth(), 200);
    assert_eq!(game.fall_rate(), 0);
    assert_eq!(game.fishables().len(), 1);
}

#[test]
fn step_stops_adding_at_fifty() {
    let mut game = Game::new();
    let mut n: usize = 0;
    while n < 120 {
        game.step_fishables(roll(0, -1000, 10, 1, 1));
        n += 1;
        let expected = if n < 50 { n } else { 50 };
        assert_eq!(game.fishables().len(), expected);
    }
}

#[test]
fn step_culls_a_fishable_that_swims_out() {
    let mut game = Game::new();
    game.step_fishables(roll(1, 999, 10, 5, 1));
    assert_eq!(game.fishables()[0].position.0, 3999);
    game.step_fishables(roll(0, -1000, 10, 5, 1));
    assert_eq!(game.fishables()[0].position.0, 3994);
    assert_eq!(game.fishables()[1].position.0, -2500);
    let mut n: i32 = 0;
    while n < 1500 {
        game.step_fishables(roll(1, 999, 999, 1, 2));
        assert!(game.fishables().len() <= 50);
        assert!(game.fishables().iter().all(|f| -3000 <= f.position.0 && f.position.0 <= 4000));
        n += 1;
    }
    // The first fishable went left five at a time and passed -3000; the
    // second went right five at a time and passed 4000.
    assert!(game.fishables().iter().all(|f| f.color == 2));
}

#[test]
fn start_can_lift_the_count_above_fifty() {
    let mut game = Game::new();
    let mut n: usize = 0;
    while n < 50 {
        game.step_fishables(roll(0, 0, 10, 1, 1));
        n += 1;
    }
    assert_eq!(game.fishables().len(), 50);
    game.update(false);
    assert_eq!(game.fishables().len(), 51);
    game.step_fishables(roll(0, 0, 10, 1, 1));
    assert_eq!(game.fishables().len(), 51);
}

#[test]
fn sampled_rolls_are_valid_and_vary() {
    let mut rng = rand::thread_rng();
    let first = SpawnRoll::sample(&mut rng);
    let mut varied = false;
    let mut left = false;
    let mut right = false;
    let mut n: u32 = 0;
    while n < 2000 {
        let r = SpawnRoll::sample(&mut rng);
        assert!(r.is_valid());
        if r != first {
            varied = true;
        }
        if r.side == 0 {
            left = true;
        } else {
            right = true;
        }
        n += 1;
    }
    assert!(varied);
    assert!(left && right);
}

#[test]
fn random_ticks_fill_the_water_to_fifty() {
    let mut game = Game::new();
    game.update(false);
    let mut n: usize = 1;
    while n < 50 {
        game.update_fishables();
        n += 1;
        assert_eq!(game.fishables().len(), n);
    }
    game.update_fishables();
    assert_eq!(game.fishables().len(), 50);
    for f in game.fishables().iter().skip(1) {
        assert_eq!(f.scale_percent, 25);
        assert_eq!(f.category, FishableType::Turbofish);
        assert_eq!(f.velocity.1, 0);
        assert!(1 <= f.color && f.color < 6);
        assert!(10 <= f.position.1 && f.position.1 < 1000);
        assert!(f.velocity.0 != 0 && -6 < f.velocity.0 && f.velocity.0 < 6);
        assert!(-3000 <= f.position.0 && f.position.0 <= 4000);
    }
    let y = game.fishables()[1].position.1;
    assert!(game.fishables().iter().skip(1).any(|f| f.position.1 != y));
}

#[test]
fn random_ticks_keep_bounds_and_cap() {
    let mut game = Game::new();
    let mut n: u32 = 0;
    while n < 3000 {
        game.update_fishables();
        assert!(game.fishables().len() <= 50);
        assert!(game.fishables().iter().all(|f| -3000 <= f.position.0 && f.position.0 <= 4000));
        n += 1;
    }
    assert_eq!(game.state(), GameState::Start);
    assert_eq!(game.line_depth(), 200);
}
