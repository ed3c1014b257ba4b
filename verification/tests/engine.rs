//! Unit-level checks: geometry, hit boxes, collision, move legality, and the
//! spawn grid formulas.

use space_invaders::entity::{ship_rocket_colision, Rocket, Ship, Side, ENEMY1_SHIP, PLAYER_SHIP, ROCKET};
use space_invaders::game::{create_enemy_grid, Game};
use space_invaders::geometry::{Direction, Position, RocketDirection};

fn enemy_at(x: i32, y: i32) -> Ship {
    Ship { pos: Position { x, y }, shape: ENEMY1_SHIP, destroyed: false, side: Side::Enemy }
}

fn rocket_at(x: i32, y: i32) -> Rocket {
    Rocket {
        max_allowed_y: 20,
        max_allowed_x: 40,
        owner: 0,
        pos: Position { x, y },
        shape: ROCKET,
        direction: RocketDirection::Up,
        destroyed: false,
    }
}

#[test]
fn position_moves_one_cell_per_axis() {
    let mut p = Position { x: 10, y: 10 };
    p.up();
    assert_eq!((p.x, p.y), (10, 9));
    p.down();
    assert_eq!((p.x, p.y), (10, 10));
    p.left();
    assert_eq!((p.x, p.y), (9, 10));
    p.right();
    assert_eq!((p.x, p.y), (10, 10));
    p.move_into(&Direction::UpLeft);
    assert_eq!((p.x, p.y), (9, 9));
    p.move_into(&Direction::DownRight);
    assert_eq!((p.x, p.y), (10, 10));
    p.move_into(&Direction::UpRight);
    assert_eq!((p.x, p.y), (11, 9));
    p.move_into(&Direction::DownLeft);
    assert_eq!((p.x, p.y), (10, 10));
}

#[test]
fn sampled_numbers_map_to_the_eight_directions() {
    assert_eq!(Direction::from_number(1), Direction::Up);
    assert_eq!(Direction::from_number(2), Direction::Down);
    assert_eq!(Direction::from_number(3), Direction::Right);
    assert_eq!(Direction::from_number(4), Direction::Left);
    assert_eq!(Direction::from_number(5), Direction::UpLeft);
    assert_eq!(Direction::from_number(6), Direction::UpRight);
    assert_eq!(Direction::from_number(7), Direction::DownLeft);
    assert_eq!(Direction::from_number(8), Direction::DownRight);
}

#[test]
fn random_direction_reaches_every_variant() {
    let mut seen = [false; 8];
    for _ in 0..2000 {
        let idx = match Direction::random() {
            Direction::Up => 0,
            Direction::Down => 1,
            Direction::Left => 2,
            Direction::Right => 3,
            Direction::UpLeft => 4,
            Direction::UpRight => 5,
            Direction::DownLeft => 6,
            Direction::DownRight => 7,
        };
        seen[idx] = true;
    }
    assert!(seen.iter().all(|s| *s), "some direction was never sampled");
}

#[test]
fn hit_boxes_cover_the_glyph_run() {
    let s = enemy_at(3, 7);
    assert_eq!(s.hit_boxes(), vec![(3, 7), (4, 7)]);
    let p = Ship { pos: Position { x: 10, y: 17 }, shape: PLAYER_SHIP, destroyed: false, side: Side::Player };
    let boxes = p.hit_boxes();
    assert_eq!(boxes.len(), 9);
    assert_eq!(boxes[0], (10, 17));
    assert_eq!(boxes[8], (18, 17));
}

#[test]
fn collision_requires_overlap_and_both_alive() {
    let s = enemy_at(20, 5);
    assert!(ship_rocket_colision(&rocket_at(20, 5), &s));
    assert!(ship_rocket_colision(&rocket_at(21, 5), &s));
    assert!(!ship_rocket_colision(&rocket_at(22, 5), &s));
    assert!(!ship_rocket_colision(&rocket_at(19, 5), &s));
    assert!(!ship_rocket_colision(&rocket_at(20, 6), &s));
    let mut dead_rocket = rocket_at(20, 5);
    dead_rocket.destroyed = true;
    assert!(!ship_rocket_colision(&dead_rocket, &s));
    let mut dead_ship = s;
    dead_ship.destroyed = true;
    assert!(!ship_rocket_colision(&rocket_at(20, 5), &dead_ship));
}

#[test]
fn collision_depends_only_on_current_state() {
    // Two pairs in the same state must agree, whatever else differs.
    let s1 = enemy_at(20, 5);
    let mut s2 = enemy_at(20, 5);
    s2.side = Side::Player;
    s2.shape = ENEMY1_SHIP;
    let r1 = rocket_at(21, 5);
    let mut r2 = rocket_at(21, 5);
    r2.owner = 7;
    r2.max_allowed_y = 99;
    assert_eq!(ship_rocket_colision(&r1, &s1), ship_rocket_colision(&r2, &s2));
}

#[test]
fn rocket_progress_travels_up_and_dies_past_the_top() {
    let mut r = rocket_at(20, 2);
    r.progress();
    assert_eq!((r.pos.x, r.pos.y, r.destroyed), (20, 1, false));
    r.progress();
    assert_eq!((r.pos.x, r.pos.y, r.destroyed), (20, 0, false));
    r.progress();
    assert_eq!((r.pos.x, r.pos.y, r.destroyed), (20, -1, true));
}

#[test]
fn downward_rocket_dies_past_the_bottom() {
    let mut r = rocket_at(20, 19);
    r.direction = RocketDirection::Down;
    r.progress();
    assert_eq!((r.pos.y, r.destroyed), (20, false));
    r.progress();
    assert_eq!((r.pos.y, r.destroyed), (21, true));
}

#[test]
fn legality_boundary_left_and_right() {
    let at_left = enemy_at(1, 5);
    assert!(!Game::valid_move_for_a_ship(20, 40, &at_left, &Direction::Left));
    assert!(Game::valid_move_for_a_ship(20, 40, &at_left, &Direction::Right));
    let at_right = enemy_at(38, 5);
    assert!(!Game::valid_move_for_a_ship(20, 40, &at_right, &Direction::Right));
    assert!(Game::valid_move_for_a_ship(20, 40, &at_right, &Direction::Left));
}

#[test]
fn legality_boundary_top_and_bottom() {
    let at_top = enemy_at(5, 1);
    assert!(!Game::valid_move_for_a_ship(20, 40, &at_top, &Direction::Up));
    assert!(Game::valid_move_for_a_ship(20, 40, &at_top, &Direction::Down));
    let at_bottom = enemy_at(5, 18);
    assert!(!Game::valid_move_for_a_ship(20, 40, &at_bottom, &Direction::Down));
    assert!(Game::valid_move_for_a_ship(20, 40, &at_bottom, &Direction::Up));
}

#[test]
fn diagonal_fails_if_either_axis_would_cross_the_margin() {
    let corner = enemy_at(1, 5);
    assert!(!Game::valid_move_for_a_ship(20, 40, &corner, &Direction::UpLeft));
    assert!(!Game::valid_move_for_a_ship(20, 40, &corner, &Direction::DownLeft));
    assert!(Game::valid_move_for_a_ship(20, 40, &corner, &Direction::UpRight));
    let top = enemy_at(5, 1);
    assert!(!Game::valid_move_for_a_ship(20, 40, &top, &Direction::UpRight));
    assert!(Game::valid_move_for_a_ship(20, 40, &top, &Direction::DownRight));
}

#[test]
fn every_legal_move_lands_inside_the_margin() {
    let all = [
        Direction::Up,
        Direction::Down,
        Direction::Left,
        Direction::Right,
        Direction::UpLeft,
        Direction::UpRight,
        Direction::DownLeft,
        Direction::DownRight,
    ];
    for x in 1..=38 {
        for y in 1..=18 {
            let s = enemy_at(x, y);
            for d in all.iter() {
                if Game::valid_move_for_a_ship(20, 40, &s, d) {
                    let mut p = s.pos;
                    p.move_into(d);
                    assert!(1 <= p.x && p.x <= 38, "x={} escaped from ({}, {})", p.x, x, y);
                    assert!(1 <= p.y && p.y <= 18, "y={} escaped from ({}, {})", p.y, x, y);
                }
            }
        }
    }
}

#[test]
fn enemy_grid_positions_follow_the_formula() {
    let grid = create_enemy_grid(20, 40, 5, 5);
    assert_eq!(grid.len(), 25);
    // x_offset = (40 - (2·4 + 5·2)) / 2 = 11; column j at 11 + 2j + (j-1)·2
    let xs = [9, 13, 17, 21, 25];
    for i in 0..5 {
        for j in 0..5 {
            let s = &grid[i * 5 + j];
            assert_eq!(s.pos.x, xs[j]);
            assert_eq!(s.pos.y, 2 + i as i32);
            assert_eq!(s.shape, ENEMY1_SHIP);
            assert!(!s.destroyed);
            assert_eq!(s.side, Side::Enemy);
        }
    }
}

#[test]
fn grid_columns_never_overlap() {
    let grid = create_enemy_grid(20, 40, 1, 5);
    for j in 0..4 {
        let here = &grid[j];
        let next = &grid[j + 1];
        assert!(here.pos.x + ENEMY1_SHIP.len() as i32 <= next.pos.x);
    }
}
