//! Session-level scenarios: whole ticks, intents, outcome resolution, and
//! what a frame draws.

use space_invaders::entity::{Rocket, Ship, Side, ENEMY1_SHIP, PLAYER_SHIP, ROCKET};
use space_invaders::game::{Game, GameResult, Intent, RenderPlan, UNKNOWN_KEY_MSG, YOU_LOST, YOU_WON};
use space_invaders::geometry::{Position, RocketDirection};

fn player_at(x: i32, y: i32) -> Ship {
    Ship { pos: Position { x, y }, shape: PLAYER_SHIP, destroyed: false, side: Side::Player }
}

fn enemy_at(x: i32, y: i32) -> Ship {
    Ship { pos: Position { x, y }, shape: ENEMY1_SHIP, destroyed: false, side: Side::Enemy }
}

fn game_with(ships: Vec<Ship>, rockets: Vec<Rocket>) -> Game {
    Game {
        max_height: 20,
        max_width: 40,
        ships,
        rockets,
        msg: None,
        result: GameResult::Unknown,
        done: false,
    }
}

#[test]
fn new_game_layout() {
    let g = Game::new(20, 40);
    assert_eq!(g.max_height, 20);
    assert_eq!(g.max_width, 40);
    assert_eq!(g.ships.len(), 26);
    assert_eq!(g.ships[0].side, Side::Player);
    assert_eq!(g.ships[0].pos.x, (40 - PLAYER_SHIP.len() as i32) / 2);
    assert_eq!(g.ships[0].pos.y, 20 - 20 / 6);
    for k in 1..26 {
        assert_eq!(g.ships[k].side, Side::Enemy);
    }
    assert!(g.rockets.is_empty());
    assert!(g.msg.is_none());
    assert_eq!(g.result, GameResult::Unknown);
    assert!(!g.done);
}

#[test]
fn fire_creates_rocket_above_the_center() {
    let mut g = game_with(vec![player_at(16, 10), enemy_at(20, 5)], vec![]);
    g.shoot_rocket(0);
    assert_eq!(g.rockets.len(), 1);
    let r = &g.rockets[0];
    assert_eq!(r.pos.x, 16 + PLAYER_SHIP.len() as i32 / 2);
    assert_eq!(r.pos.y, 9);
    assert_eq!(r.direction, RocketDirection::Up);
    assert_eq!(r.owner, 0);
    assert_eq!(r.shape, ROCKET);
    assert_eq!(r.max_allowed_y, 20);
    assert_eq!(r.max_allowed_x, 40);
    assert!(!r.destroyed);
}

#[test]
fn fired_rocket_travels_one_cell_per_tick() {
    let mut g = game_with(vec![player_at(16, 10)], vec![]);
    g.shoot_rocket(0);
    let x = g.rockets[0].pos.x;
    for k in 1..=9 {
        let mut r = g.rockets[0];
        r.progress();
        g.rockets[0] = r;
        assert_eq!(g.rockets[0].pos.x, x);
        assert_eq!(g.rockets[0].pos.y, 9 - k);
        assert!(!g.rockets[0].destroyed);
    }
}

#[test]
fn pruning_twice_equals_pruning_once() {
    let mut dead_enemy = enemy_at(9, 2);
    dead_enemy.destroyed = true;
    let mut dead_rocket = Rocket {
        max_allowed_y: 20,
        max_allowed_x: 40,
        owner: 0,
        pos: Position { x: 4, y: 4 },
        shape: ROCKET,
        direction: RocketDirection::Up,
        destroyed: true,
    };
    let live_rocket = Rocket { destroyed: false, pos: Position { x: 6, y: 6 }, ..dead_rocket };
    let mut g = game_with(
        vec![player_at(15, 17), dead_enemy, enemy_at(13, 2), dead_enemy],
        vec![dead_rocket, live_rocket, dead_rocket],
    );
    g.prune_destroyed();
    let ships_once: Vec<(i32, i32)> = g.ships.iter().map(|s| (s.pos.x, s.pos.y)).collect();
    let rockets_once: Vec<(i32, i32)> = g.rockets.iter().map(|r| (r.pos.x, r.pos.y)).collect();
    assert_eq!(ships_once, vec![(15, 17), (13, 2)]);
    assert_eq!(rockets_once, vec![(6, 6)]);
    g.prune_destroyed();
    let ships_twice: Vec<(i32, i32)> = g.ships.iter().map(|s| (s.pos.x, s.pos.y)).collect();
    let rockets_twice: Vec<(i32, i32)> = g.rockets.iter().map(|r| (r.pos.x, r.pos.y)).collect();
    assert_eq!(ships_once, ships_twice);
    assert_eq!(rockets_once, rockets_twice);
}

#[test]
fn scenario_direct_hit_from_below_wins() {
    // Arena 40 wide, 20 high; one adversary at (20, 5); the player fires from
    // directly below. The adversary is held still by stepping the
    // deterministic phases, so the rocket climbs into its row and column.
    let mut g = game_with(vec![player_at(16, 10), enemy_at(20, 5)], vec![]);
    g.shoot_rocket(0);
    assert_eq!(g.rockets[0].pos, Position { x: 20, y: 9 });
    for _ in 0..4 {
        assert_eq!(g.result, GameResult::Unknown);
        g.advance_rockets();
        g.resolve_collisions();
        g.prune_destroyed();
        g.evaluate_outcome();
    }
    // advance took the rocket to y = 5: the adversary's row and column.
    assert_eq!(g.ships.len(), 1);
    assert_eq!(g.ships[0].side, Side::Player);
    assert!(g.rockets.is_empty());
    assert_eq!(g.result, GameResult::Won);
}

#[test]
fn scenario_last_enemy_pruned_decides_won_in_the_same_tick() {
    let mut doomed = enemy_at(20, 5);
    doomed.destroyed = true;
    let mut g = game_with(vec![player_at(16, 10), doomed], vec![]);
    g.update_states();
    // Never a transient Unknown: the very tick that prunes decides.
    assert_eq!(g.result, GameResult::Won);
    assert_eq!(g.ships.len(), 1);
    assert_eq!(g.ships[0].side, Side::Player);
}

#[test]
fn scenario_exited_rocket_is_never_drawn() {
    let stray = Rocket {
        max_allowed_y: 20,
        max_allowed_x: 40,
        owner: 0,
        pos: Position { x: 5, y: 0 },
        shape: ROCKET,
        direction: RocketDirection::Up,
        destroyed: false,
    };
    let mut g = game_with(vec![player_at(16, 10), enemy_at(20, 5), enemy_at(30, 5)], vec![stray]);
    g.update_states();
    // The rocket moved to y = -1, out the top of the 20-row arena: pruned.
    assert!(g.rockets.is_empty());
    match g.render_plan() {
        RenderPlan::Draw(cmds) => {
            for cmd in cmds.iter() {
                assert_ne!(cmd.text, ROCKET);
                assert!(cmd.y >= 0, "drawn at negative row {}", cmd.y);
            }
        }
        RenderPlan::Banner(_) => panic!("outcome should still be undetermined"),
    }
}

#[test]
fn lone_enemy_or_empty_arena_is_a_loss() {
    let mut g = game_with(vec![enemy_at(20, 5)], vec![]);
    g.evaluate_outcome();
    assert_eq!(g.result, GameResult::Lost);
    let mut empty = game_with(vec![], vec![]);
    empty.evaluate_outcome();
    assert_eq!(empty.result, GameResult::Lost);
}

#[test]
fn enemies_stay_inside_the_margin_across_many_ticks() {
    let mut g = game_with(
        vec![player_at(16, 10), enemy_at(9, 2), enemy_at(13, 2), enemy_at(1, 1), enemy_at(38, 18)],
        vec![],
    );
    for _ in 0..50 {
        g.update_states();
        assert_eq!(g.ships.len(), 5);
        for s in g.ships.iter().skip(1) {
            assert!(1 <= s.pos.x && s.pos.x <= 38, "enemy x {} out of margin", s.pos.x);
            assert!(1 <= s.pos.y && s.pos.y <= 18, "enemy y {} out of margin", s.pos.y);
        }
        assert_eq!((g.ships[0].pos.x, g.ships[0].pos.y), (16, 10));
    }
}

#[test]
fn move_intents_shift_the_player_one_cell() {
    let mut g = game_with(vec![player_at(16, 10), enemy_at(9, 2), enemy_at(13, 2)], vec![]);
    g.apply_intent(Intent::MoveLeft);
    assert_eq!((g.ships[0].pos.x, g.ships[0].pos.y), (15, 10));
    g.apply_intent(Intent::MoveRight);
    assert_eq!((g.ships[0].pos.x, g.ships[0].pos.y), (16, 10));
    g.apply_intent(Intent::MoveUp);
    assert_eq!((g.ships[0].pos.x, g.ships[0].pos.y), (16, 9));
    g.apply_intent(Intent::MoveDown);
    assert_eq!((g.ships[0].pos.x, g.ships[0].pos.y), (16, 10));
}

#[test]
fn fire_intent_adds_a_rocket_and_ticks() {
    let mut g = game_with(vec![player_at(16, 10), enemy_at(9, 2), enemy_at(13, 2)], vec![]);
    g.apply_intent(Intent::Fire);
    assert_eq!(g.rockets.len(), 1);
    // created at y = 9, then the same tick advanced it one cell up.
    assert_eq!(g.rockets[0].pos, Position { x: 20, y: 8 });
}

#[test]
fn quit_intent_finishes_without_a_tick() {
    let mut g = game_with(vec![player_at(16, 10), enemy_at(9, 2)], vec![]);
    let enemy_before = (g.ships[1].pos.x, g.ships[1].pos.y);
    g.apply_intent(Intent::Quit);
    assert!(g.done);
    assert_eq!((g.ships[1].pos.x, g.ships[1].pos.y), enemy_before);
    assert_eq!(g.result, GameResult::Unknown);
}

#[test]
fn unrecognized_intent_surfaces_a_message_and_still_ticks() {
    let mut g = game_with(vec![player_at(16, 10), enemy_at(9, 2), enemy_at(13, 2)], vec![]);
    g.apply_intent(Intent::Unrecognized);
    assert_eq!(g.msg.as_deref(), Some(UNKNOWN_KEY_MSG));
    assert_eq!((g.ships[0].pos.x, g.ships[0].pos.y), (16, 10));
}

#[test]
fn intents_are_ignored_once_the_outcome_is_decided() {
    let mut g = game_with(vec![player_at(16, 10)], vec![]);
    g.result = GameResult::Won;
    g.apply_intent(Intent::MoveLeft);
    assert_eq!((g.ships[0].pos.x, g.ships[0].pos.y), (16, 10));
    g.apply_intent(Intent::Fire);
    assert!(g.rockets.is_empty());
}

#[test]
fn messages_are_one_shot() {
    let mut g = game_with(vec![player_at(16, 10)], vec![]);
    g.set_message(String::from("hello there"));
    assert_eq!(g.take_message().as_deref(), Some("hello there"));
    assert_eq!(g.take_message(), None);
}

#[test]
fn render_plan_shows_the_right_banner_and_finishes() {
    let mut g = game_with(vec![player_at(16, 10)], vec![]);
    g.result = GameResult::Won;
    match g.render_plan() {
        RenderPlan::Banner(text) => assert_eq!(text, YOU_WON),
        RenderPlan::Draw(_) => panic!("expected the winning banner"),
    }
    assert!(g.done);
    let mut lost = game_with(vec![enemy_at(9, 2)], vec![]);
    lost.result = GameResult::Lost;
    match lost.render_plan() {
        RenderPlan::Banner(text) => assert_eq!(text, YOU_LOST),
        RenderPlan::Draw(_) => panic!("expected the losing banner"),
    }
    assert!(lost.done);
}

#[test]
fn render_plan_draws_survivors_in_order_ships_then_rockets() {
    let mut dead = enemy_at(13, 2);
    dead.destroyed = true;
    let rocket = Rocket {
        max_allowed_y: 20,
        max_allowed_x: 40,
        owner: 0,
        pos: Position { x: 20, y: 7 },
        shape: ROCKET,
        direction: RocketDirection::Up,
        destroyed: false,
    };
    let mut g = game_with(vec![player_at(16, 10), dead, enemy_at(9, 2)], vec![rocket]);
    match g.render_plan() {
        RenderPlan::Draw(cmds) => {
            assert_eq!(cmds.len(), 3);
            assert_eq!((cmds[0].x, cmds[0].y, cmds[0].text), (16, 10, PLAYER_SHIP));
            assert_eq!((cmds[1].x, cmds[1].y, cmds[1].text), (9, 2, ENEMY1_SHIP));
            assert_eq!((cmds[2].x, cmds[2].y, cmds[2].text), (20, 7, ROCKET));
        }
        RenderPlan::Banner(_) => panic!("expected draw requests"),
    }
    assert!(!g.done);
}

#[test]
fn can_step_spots_a_rocket_at_the_integer_edge() {
    let edge = Rocket {
        max_allowed_y: 20,
        max_allowed_x: 40,
        owner: 0,
        pos: Position { x: 5, y: i32::MIN },
        shape: ROCKET,
        direction: RocketDirection::Up,
        destroyed: false,
    };
    let g = game_with(vec![player_at(16, 10)], vec![edge]);
    assert!(!g.can_step());
    let ok = game_with(vec![player_at(16, 10)], vec![]);
    assert!(ok.can_step());
}
