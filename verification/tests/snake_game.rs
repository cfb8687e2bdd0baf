use snake::food::{ate, eat, spawn, spawn_sys, Food};
use snake::game::{game_over, move_finished, move_tick, GameOverEvent, MoveTimer, SnakeGame};
use snake::snake::{
    grow, input, movement, setup, Direction, LastTailPosition, SnakeBits, SnakeHead,
};
use snake::space::Position;

fn pos(x: i32, y: i32) -> Position {
    Position { x, y }
}

fn snake_of(cells: &[(i32, i32)]) -> SnakeBits {
    let mut bits = SnakeBits::default();
    for &(x, y) in cells {
        bits.0.push(pos(x, y));
    }
    bits
}

#[test]
fn opposite_all_directions() {
    assert_eq!(Direction::Up.opposite(), Direction::Down);
    assert_eq!(Direction::Down.opposite(), Direction::Up);
    assert_eq!(Direction::Left.opposite(), Direction::Right);
    assert_eq!(Direction::Right.opposite(), Direction::Left);
}

#[test]
fn sub_is_componentwise() {
    assert_eq!(pos(5, 2).sub(pos(0, 1)), pos(5, 1));
    assert_eq!(pos(3, 7).sub(pos(4, -2)), pos(-1, 9));
}

#[test]
fn reversal_never_changes_direction() {
    let mut head = SnakeHead { dir: Direction::Up, turned: false };
    head.try_dir(Direction::Down);
    assert_eq!(head.dir, Direction::Up);
    assert!(!head.turned);

    let mut head = SnakeHead { dir: Direction::Left, turned: false };
    input(&mut head, true, false, false, false);
    assert_eq!(head.dir, Direction::Left);
}

#[test]
fn at_most_one_turn_per_tick() {
    let mut head = SnakeHead { dir: Direction::Up, turned: false };
    input(&mut head, true, false, false, false);
    assert_eq!(head.dir, Direction::Right);
    assert!(head.turned);
    input(&mut head, false, true, false, false);
    assert_eq!(head.dir, Direction::Right);
}

#[test]
fn a_locked_head_drops_further_turn_requests() {
    let mut head = SnakeHead { dir: Direction::Up, turned: false };
    head.try_dir(Direction::Right);
    assert_eq!(head.dir, Direction::Right);
    assert!(head.turned);
    head.try_dir(Direction::Down);
    assert_eq!(head.dir, Direction::Right);
    assert!(head.turned);
}

#[test]
fn input_key_priority() {
    let mut head = SnakeHead { dir: Direction::Up, turned: false };
    input(&mut head, true, true, true, true);
    assert_eq!(head.dir, Direction::Right);

    let mut head = SnakeHead { dir: Direction::Right, turned: false };
    input(&mut head, false, true, false, true);
    assert_eq!(head.dir, Direction::Down);
}

#[test]
fn movement_keeps_count_and_follows_the_leader() {
    let mut head = SnakeHead { dir: Direction::Right, turned: true };
    let mut bits = snake_of(&[(4, 4), (3, 4), (3, 3)]);
    let mut last_tail = LastTailPosition::default();
    let mut events: Vec<GameOverEvent> = Vec::new();
    movement(&mut head, &mut bits, &mut last_tail, &mut events);
    assert_eq!(bits.0, vec![pos(5, 4), pos(4, 4), pos(3, 4)]);
    assert_eq!(last_tail.0, Some(pos(3, 3)));
    assert!(events.is_empty());
    assert!(!head.turned);
}

#[test]
fn movement_inside_arena_fires_nothing() {
    let mut head = SnakeHead { dir: Direction::Up, turned: false };
    let mut bits = snake_of(&[(5, 2), (5, 1)]);
    let mut last_tail = LastTailPosition::default();
    let mut events: Vec<GameOverEvent> = Vec::new();
    movement(&mut head, &mut bits, &mut last_tail, &mut events);
    assert_eq!(events.len(), 0);
    assert_eq!(bits.0, vec![pos(5, 3), pos(5, 2)]);
}

#[test]
fn movement_out_of_bounds_fires_game_over() {
    let mut head = SnakeHead { dir: Direction::Right, turned: false };
    let mut bits = snake_of(&[(9, 2), (8, 2)]);
    let mut last_tail = LastTailPosition::default();
    let mut events: Vec<GameOverEvent> = Vec::new();
    movement(&mut head, &mut bits, &mut last_tail, &mut events);
    assert_eq!(bits.0[0], pos(10, 2));
    assert!(!events.is_empty());
}

#[test]
fn movement_self_collision_fires_game_over() {
    // The head turns back into the cell its neighbour is about to vacate
    // into: new head (5,6) equals segment 2's post-move cell.
    let mut head = SnakeHead { dir: Direction::Up, turned: false };
    let mut bits = snake_of(&[(5, 5), (5, 6), (4, 6), (4, 5)]);
    let mut last_tail = LastTailPosition::default();
    let mut events: Vec<GameOverEvent> = Vec::new();
    movement(&mut head, &mut bits, &mut last_tail, &mut events);
    assert_eq!(bits.0[0], pos(5, 6));
    assert_eq!(bits.0[2], pos(5, 6));
    assert!(!events.is_empty());
}

#[test]
fn grow_appends_the_vacated_tail_cell() {
    let mut head = SnakeHead { dir: Direction::Up, turned: false };
    let mut bits = snake_of(&[(5, 2), (5, 1)]);
    let mut last_tail = LastTailPosition::default();
    let mut events: Vec<GameOverEvent> = Vec::new();
    movement(&mut head, &mut bits, &mut last_tail, &mut events);
    let before = bits.0.len();
    grow(&mut bits, &last_tail);
    assert_eq!(bits.0.len(), before + 1);
    assert_eq!(bits.0, vec![pos(5, 3), pos(5, 2), pos(5, 1)]);
}

#[test]
fn setup_restores_the_starting_snake() {
    let mut head = SnakeHead { dir: Direction::Left, turned: true };
    let mut bits = snake_of(&[(1, 1), (2, 1), (3, 1)]);
    setup(&mut head, &mut bits);
    assert_eq!(head.dir, Direction::Up);
    assert!(!head.turned);
    assert_eq!(bits.0, vec![pos(5, 2), pos(5, 1)]);
}

#[test]
fn random_position_stays_in_the_arena() {
    for _ in 0..200 {
        let p = Position::random();
        assert!(0 <= p.x && p.x < 10);
        assert!(0 <= p.y && p.y < 10);
    }
}

#[test]
fn random_exceptions_misses_the_excluded_cells() {
    let excl = vec![pos(5, 2), pos(5, 1), pos(0, 0)];
    for _ in 0..100 {
        let p = Position::random_exceptions(&excl);
        assert!(!excl.contains(&p));
        assert!(0 <= p.x && p.x < 10);
        assert!(0 <= p.y && p.y < 10);
    }
}

#[test]
fn random_exceptions_finds_the_single_free_cell() {
    // Exclude every cell but (7,3): the only possible answer is (7,3).
    let mut excl = Vec::new();
    for x in 0..10 {
        for y in 0..10 {
            if !(x == 7 && y == 3) {
                excl.push(pos(x, y));
            }
        }
    }
    let p = Position::random_exceptions(&excl);
    assert_eq!(p, pos(7, 3));
}

#[test]
fn eat_on_the_food_cell_emits_one_event() {
    let mut food = Food(Some(pos(5, 3)));
    let mut events: Vec<snake::food::EatEvent> = Vec::new();
    eat(&mut food, pos(5, 3), &mut events);
    assert!(food.0.is_none());
    assert_eq!(events.len(), 1);
    assert!(ate(&events));
}

#[test]
fn eat_elsewhere_keeps_the_food() {
    let mut food = Food(Some(pos(5, 3)));
    let mut events: Vec<snake::food::EatEvent> = Vec::new();
    eat(&mut food, pos(4, 3), &mut events);
    assert_eq!(food.0, Some(pos(5, 3)));
    assert!(events.is_empty());
    assert!(!ate(&events));
}

#[test]
fn spawn_places_the_food() {
    let mut food = Food(None);
    spawn(&mut food, pos(2, 8));
    assert_eq!(food.0, Some(pos(2, 8)));
}

#[test]
fn spawn_sys_avoids_the_snake() {
    let segments = vec![pos(5, 2), pos(5, 1), pos(5, 0)];
    for _ in 0..50 {
        let mut food = Food(None);
        spawn_sys(&mut food, &segments);
        let p = food.0.unwrap();
        assert!(!segments.contains(&p));
        assert!(0 <= p.x && p.x < 10 && 0 <= p.y && p.y < 10);
    }
}

#[test]
fn move_timer_accumulates_and_wraps() {
    let mut timer = MoveTimer::default();
    move_tick(&mut timer, 100);
    assert!(!move_finished(&timer));
    assert_eq!(timer.elapsed_ms, 100);
    move_tick(&mut timer, 100);
    assert!(move_finished(&timer));
    assert_eq!(timer.elapsed_ms, 50);
    move_tick(&mut timer, 100);
    assert!(move_finished(&timer));
    assert_eq!(timer.elapsed_ms, 0);
}

#[test]
fn game_over_without_events_changes_nothing() {
    let events: Vec<GameOverEvent> = Vec::new();
    let mut head = SnakeHead { dir: Direction::Left, turned: true };
    let mut bits = snake_of(&[(1, 1), (2, 1)]);
    let mut food = Food(Some(pos(9, 9)));
    game_over(&events, &mut head, &mut bits, &mut food);
    assert_eq!(head.dir, Direction::Left);
    assert!(head.turned);
    assert_eq!(bits.0, vec![pos(1, 1), pos(2, 1)]);
    assert_eq!(food.0, Some(pos(9, 9)));
}

#[test]
fn game_over_with_an_event_restarts_the_round() {
    let events = vec![GameOverEvent];
    let mut head = SnakeHead { dir: Direction::Right, turned: true };
    let mut bits = snake_of(&[(9, 2), (8, 2)]);
    let mut food = Food(Some(pos(9, 9)));
    game_over(&events, &mut head, &mut bits, &mut food);
    assert_eq!(head.dir, Direction::Up);
    assert!(!head.turned);
    assert_eq!(bits.0, vec![pos(5, 2), pos(5, 1)]);
    let f = food.0.unwrap();
    assert_ne!(f, pos(5, 2));
    assert_ne!(f, pos(5, 1));
}

#[test]
fn new_round_starts_in_the_starting_configuration() {
    let g = SnakeGame::new();
    assert_eq!(g.head.dir, Direction::Up);
    assert!(!g.head.turned);
    assert_eq!(g.bits.0, vec![pos(5, 2), pos(5, 1)]);
    let f = g.food.0.unwrap();
    assert_ne!(f, pos(5, 2));
    assert_ne!(f, pos(5, 1));
    assert!(g.eat_events.is_empty());
    assert!(g.game_over_events.is_empty());
}

#[test]
fn scenario_three_ticks_up_ends_at_five_five() {
    let mut g = SnakeGame::new();
    // Keep the food off the snake's path so nothing is eaten.
    g.food = Food(Some(pos(0, 0)));
    for _ in 0..3 {
        g.tick(150, false, false, false, false);
        assert!(g.game_over_events.is_empty());
    }
    assert_eq!(g.bits.0[0], pos(5, 5));
    assert_eq!(g.bits.0.len(), 2);
}

#[test]
fn scenario_wall_hit_resets_the_round() {
    let mut g = SnakeGame::new();
    g.head = SnakeHead { dir: Direction::Right, turned: false };
    g.bits = snake_of(&[(9, 2), (8, 2)]);
    g.food = Food(Some(pos(0, 0)));
    g.tick(150, false, false, false, false);
    assert!(!g.game_over_events.is_empty());
    assert_eq!(g.bits.0, vec![pos(5, 2), pos(5, 1)]);
    assert_eq!(g.head.dir, Direction::Up);
    let f = g.food.0.unwrap();
    assert_ne!(f, pos(5, 2));
    assert_ne!(f, pos(5, 1));
}

#[test]
fn scenario_eating_grows_by_one_and_respawns_food() {
    let mut g = SnakeGame::new();
    g.food = Food(Some(pos(5, 3)));
    g.tick(150, false, false, false, false);
    assert!(g.game_over_events.is_empty());
    assert_eq!(g.eat_events.len(), 1);
    assert_eq!(g.bits.0, vec![pos(5, 3), pos(5, 2), pos(5, 1)]);
    let f = g.food.0.unwrap();
    assert!(!g.bits.0.contains(&f));
}

#[test]
fn ticks_below_the_interval_only_steer() {
    let mut g = SnakeGame::new();
    let before = g.bits.0.clone();
    g.tick(100, true, false, false, false);
    assert_eq!(g.bits.0, before);
    assert_eq!(g.head.dir, Direction::Right);
    g.tick(49, false, false, false, true);
    assert_eq!(g.bits.0, before);
    // The turn lock holds until the next movement step.
    assert_eq!(g.head.dir, Direction::Right);
}

#[test]
fn spawn_appends_a_segment_at_the_tail_end() {
    let mut bits = snake_of(&[(5, 2), (5, 1)]);
    snake::snake::spawn(&mut bits, pos(5, 0));
    assert_eq!(bits.0, vec![pos(5, 2), pos(5, 1), pos(5, 0)]);
}

#[test]
fn two_short_frames_make_one_movement_step() {
    let mut g = SnakeGame::new();
    g.food = Food(Some(pos(0, 0)));
    g.tick(75, false, false, false, false);
    assert_eq!(g.bits.0[0], pos(5, 2));
    g.tick(75, false, false, false, false);
    assert_eq!(g.bits.0[0], pos(5, 3));
}

#[test]
fn an_accepted_turn_steers_the_next_step() {
    let mut g = SnakeGame::new();
    g.food = Food(Some(pos(0, 0)));
    g.tick(150, true, false, false, false);
    assert_eq!(g.head.dir, Direction::Right);
    assert_eq!(g.bits.0[0], pos(6, 2));
    assert_eq!(g.bits.0[1], pos(5, 2));
}
