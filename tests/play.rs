use snake_game::game::{Cell, Game, Key, Tick};
use snake_game::position::{Direction, Position};

fn interior(g: &Game) -> bool {
    g.food.x >= 1 && g.food.x <= g.width - 2 && g.food.y >= 1 && g.food.y <= g.height - 2
}

#[test]
fn new_game_layout() {
    let g = Game::new(28, 20);
    assert_eq!(g.snake.head(), Position { x: 14, y: 10 });
    assert_eq!(g.snake.len(), 1);
    assert_eq!(g.snake.direction(), Direction::Right);
    assert_eq!(g.food, Position { x: 7, y: 5 });
    assert_eq!(g.score, 0);
}

#[test]
fn three_ticks_without_input() {
    let mut g = Game::new(10, 10);
    assert_eq!(g.snake.head(), Position { x: 5, y: 5 });
    for _ in 0..3 {
        assert_eq!(g.tick(), Tick::Moved);
    }
    assert_eq!(g.snake.head(), Position { x: 8, y: 5 });
    assert_eq!(g.snake.len(), 1);
    assert!(!g.check_collision());
    assert_eq!(g.score, 0);
}

#[test]
fn food_reached_after_one_tick() {
    let mut g = Game::new(10, 10);
    g.relocate_food(5, 4);
    assert_eq!(g.food, Position { x: 6, y: 5 });
    g.snake.move_snake();
    assert_eq!(g.snake.head(), Position { x: 6, y: 5 });
    assert!(!g.check_collision());
    assert!(g.check_food());
    assert_eq!(g.score, 1);
    assert_eq!(g.snake.len(), 2);
    assert!(interior(&g));
    g.snake.move_snake();
    assert_eq!(g.snake.len(), 2);
    assert_eq!(g.snake.head(), Position { x: 7, y: 5 });
    assert_eq!(g.snake.segment(1), Position { x: 6, y: 5 });
}

#[test]
fn tick_eats_food() {
    let mut g = Game::new(10, 10);
    g.relocate_food(5, 4);
    assert_eq!(g.tick(), Tick::Ate);
    assert_eq!(g.score, 1);
    assert_eq!(g.snake.len(), 2);
    assert!(interior(&g));
    let t = g.tick();
    assert!(t == Tick::Moved || t == Tick::Ate);
    assert_eq!(g.snake.head(), Position { x: 7, y: 5 });
    assert!(g.snake.len() >= 2);
}

#[test]
fn run_into_right_border() {
    let mut g = Game::new(10, 10);
    for _ in 0..3 {
        g.snake.move_snake();
    }
    assert_eq!(g.snake.head().x, g.width - 2);
    assert!(!g.check_collision());
    g.snake.move_snake();
    assert_eq!(g.snake.head().x, g.width - 1);
    assert!(g.check_collision());
}

#[test]
fn tick_reports_crash_at_border() {
    let mut g = Game::new(10, 10);
    for _ in 0..3 {
        assert_eq!(g.tick(), Tick::Moved);
    }
    assert_eq!(g.tick(), Tick::Crashed);
    assert_eq!(g.snake.head(), Position { x: 9, y: 5 });
}

#[test]
fn collision_on_each_border() {
    let mut g = Game::new(6, 6);
    assert_eq!(g.snake.head(), Position { x: 3, y: 3 });
    assert!(!g.check_collision());
    g.on_key(Key::Up);
    g.snake.move_snake();
    g.snake.move_snake();
    assert!(!g.check_collision());
    g.snake.move_snake();
    assert_eq!(g.snake.head().y, 0);
    assert!(g.check_collision());

    let mut g = Game::new(6, 6);
    g.on_key(Key::Down);
    g.snake.move_snake();
    assert!(!g.check_collision());
    g.snake.move_snake();
    assert_eq!(g.snake.head().y, 5);
    assert!(g.check_collision());

    let mut g = Game::new(6, 6);
    g.on_key(Key::Up);
    g.on_key(Key::Left);
    for _ in 0..2 {
        g.snake.move_snake();
    }
    assert!(!g.check_collision());
    g.snake.move_snake();
    assert_eq!(g.snake.head().x, 0);
    assert!(g.check_collision());
}

#[test]
fn collision_with_own_body() {
    let mut g = Game::new(12, 12);
    for _ in 0..4 {
        g.snake.grow();
    }
    g.snake.move_snake();
    g.on_key(Key::Down);
    g.snake.move_snake();
    g.on_key(Key::Left);
    g.snake.move_snake();
    assert!(!g.check_collision());
    g.on_key(Key::Up);
    g.snake.move_snake();
    assert!(g.check_collision());
}

#[test]
fn check_food_misses() {
    let mut g = Game::new(10, 10);
    assert!(!g.check_food());
    assert_eq!(g.score, 0);
    assert_eq!(g.snake.len(), 1);
    assert_eq!(g.food, Position { x: 2, y: 2 });
}

#[test]
fn food_under_head_is_eaten() {
    let mut g = Game::new(10, 10);
    g.relocate_food(4, 4);
    assert_eq!(g.food, g.snake.head());
    assert!(g.check_food());
    assert_eq!(g.score, 1);
    assert_eq!(g.snake.len(), 2);
    assert_eq!(g.snake.head(), Position { x: 5, y: 5 });
    assert!(interior(&g));
}

#[test]
fn random_food_stays_inside() {
    let mut g = Game::new(5, 7);
    for _ in 0..200 {
        g.food = g.snake.head();
        assert!(g.check_food());
        assert!(interior(&g));
    }
    assert_eq!(g.score, 200);
}

#[test]
fn relocate_folds_draws_into_interior() {
    let mut g = Game::new(10, 10);
    g.relocate_food(0, 0);
    assert_eq!(g.food, Position { x: 1, y: 1 });
    g.relocate_food(7, 15);
    assert_eq!(g.food, Position { x: 8, y: 8 });
    g.relocate_food(u16::MAX, 8);
    assert_eq!(g.food, Position { x: 8, y: 1 });
}

#[test]
fn eat_with_given_draws() {
    let mut g = Game::new(10, 10);
    g.eat(2, 3);
    assert_eq!(g.food, Position { x: 3, y: 4 });
    assert_eq!(g.score, 1);
    assert_eq!(g.snake.len(), 2);
}

#[test]
fn score_saturates() {
    let mut g = Game::new(10, 10);
    g.score = u16::MAX;
    g.eat(0, 0);
    assert_eq!(g.score, u16::MAX);
    assert_eq!(g.snake.len(), 2);
}

#[test]
fn reversal_is_refused_for_each_pair() {
    let all = [Direction::Up, Direction::Down, Direction::Left, Direction::Right];
    for d in all {
        let mut g = Game::new(10, 10);
        g.snake.set_direction(d);
        assert!(!g.steer(d.opposite()));
        assert_eq!(g.snake.direction(), d);
        for e in all {
            if e != d.opposite() {
                let mut h = Game::new(10, 10);
                h.snake.set_direction(d);
                assert!(h.steer(e));
                assert_eq!(h.snake.direction(), e);
            }
        }
    }
}

#[test]
fn keys_steer_and_quit() {
    let mut g = Game::new(10, 10);
    assert!(g.on_key(Key::Left));
    assert_eq!(g.snake.direction(), Direction::Right);
    assert!(g.on_key(Key::Other));
    assert_eq!(g.snake.direction(), Direction::Right);
    assert!(g.on_key(Key::Up));
    assert_eq!(g.snake.direction(), Direction::Up);
    assert!(g.on_key(Key::Down));
    assert_eq!(g.snake.direction(), Direction::Up);
    assert!(g.on_key(Key::Left));
    assert_eq!(g.snake.direction(), Direction::Left);
    assert!(g.on_key(Key::Right));
    assert_eq!(g.snake.direction(), Direction::Left);
    assert!(g.on_key(Key::Down));
    assert_eq!(g.snake.direction(), Direction::Down);
    assert!(g.on_key(Key::Up));
    assert_eq!(g.snake.direction(), Direction::Down);
    assert!(!g.on_key(Key::Esc));
    assert_eq!(g.snake.direction(), Direction::Down);
}

#[test]
fn frame_shows_each_kind_of_cell() {
    let g = Game::new(6, 5);
    let f = g.frame();
    assert_eq!(f.len(), 5);
    assert!(f.iter().all(|row| row.len() == 6));
    assert_eq!(f[2][3], Cell::Body);
    assert_eq!(f[1][1], Cell::Food);
    assert_eq!(f[0][0], Cell::Wall);
    assert_eq!(f[4][2], Cell::Wall);
    assert_eq!(f[2][5], Cell::Wall);
    assert_eq!(f[2][2], Cell::Empty);
    assert_eq!(g.cell_at(3, 2), Cell::Body);
    assert_eq!(g.cell_at(1, 1), Cell::Food);
    assert_eq!(g.cell_at(5, 0), Cell::Wall);
}

#[test]
fn body_drawn_over_wall() {
    let mut g = Game::new(10, 10);
    for _ in 0..4 {
        g.snake.move_snake();
    }
    assert_eq!(g.cell_at(9, 5), Cell::Body);
    assert_eq!(g.cell_at(9, 4), Cell::Wall);
}

#[test]
fn display_score_scales_by_hundred() {
    let mut g = Game::new(10, 10);
    assert_eq!(g.display_score(), 0);
    g.score = 3;
    assert_eq!(g.display_score(), 300);
    g.score = u16::MAX;
    assert_eq!(g.display_score(), 6_553_500);
}
