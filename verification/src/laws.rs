//! Session-wide properties of the simulation, each stated over the spec
//! functions the engine's contracts use and proved once and for all.

use vstd::prelude::*;
use crate::geometry::{Direction, Position, RocketDirection};
use crate::entity::{hit_spec, Rocket, Ship, ShipId, Side};
use crate::game::{
    fire_fits, in_margin, lemma_live_rockets_push, lemma_live_ships_push, live_rockets,
    live_ships, outcome_of, rocket_draws, rocket_from, rocket_in_flight_ok, valid_move_spec,
    GameResult,
};

verus! {

/// A ship standing inside the 1-cell margin stays inside it after any move
/// the legality test accepts. The test checks only the axes the move
/// touches, so the ship has to start inside the margin: from an
/// out-of-margin position (say far below the arena) a purely horizontal
/// legal move would keep the bad `y`.
pub proof fn lemma_legal_move_keeps_margin(
    max_height: i32,
    max_width: i32,
    ship: Ship,
    d: Direction,
)
    requires
        in_margin(ship.pos, max_height as int, max_width as int),
        valid_move_spec(max_height as int, max_width as int, ship, d),
    ensures
        in_margin(ship.pos.moved(d), max_height as int, max_width as int),
{
}

/// At the margin the legality test rejects the move that would cross it: a
/// ship at `x == 1` may not go left, one at `x == width - 2` may not go
/// right, and the vertical margins bound `y` the same way.
pub proof fn lemma_boundary_move_rejected(max_height: i32, max_width: i32, ship: Ship)
    ensures
        ship.pos.x == 1 ==> !valid_move_spec(
            max_height as int,
            max_width as int,
            ship,
            Direction::Left,
        ),
        ship.pos.x == max_width as int - 2 ==> !valid_move_spec(
            max_height as int,
            max_width as int,
            ship,
            Direction::Right,
        ),
        ship.pos.y == 1 ==> !valid_move_spec(
            max_height as int,
            max_width as int,
            ship,
            Direction::Up,
        ),
        ship.pos.y == max_height as int - 2 ==> !valid_move_spec(
            max_height as int,
            max_width as int,
            ship,
            Direction::Down,
        ),
{
}

/// A rocket after `k` ticks of unhindered travel.
pub open spec fn progressed_k(r: Rocket, k: nat) -> Rocket
    decreases k,
{
    if k == 0 {
        r
    } else {
        progressed_k(r, (k - 1) as nat).progressed()
    }
}

/// An upward rocket that has not left the arena flies in a straight line:
/// `k` ticks move it from `y` to `y - k`, same column, still alive.
pub proof fn lemma_rocket_trajectory(r: Rocket, k: nat)
    requires
        r.direction == RocketDirection::Up,
        !r.destroyed,
        r.pos.y - k >= 0,
    ensures
        progressed_k(r, k) == (Rocket {
            pos: Position { x: r.pos.x, y: (r.pos.y - k) as i32 },
            destroyed: false,
            ..r
        }),
    decreases k,
{
    if k == 0 {
    } else {
        lemma_rocket_trajectory(r, (k - 1) as nat);
    }
}

/// A rocket fired from a ship at `(x, y)` starts at `(x + width/2, y - 1)`
/// traveling up, and `k` unhindered ticks later sits at
/// `(x + width/2, y - 1 - k)`, still alive.
pub proof fn lemma_fired_rocket_trajectory(
    ship: Ship,
    idx: ShipId,
    max_height: int,
    max_width: int,
    k: nat,
)
    requires
        fire_fits(ship),
        ship.pos.y - 1 - k >= 0,
    ensures
        rocket_from(ship, idx, max_height, max_width).direction == RocketDirection::Up,
        rocket_from(ship, idx, max_height, max_width).pos == (Position {
            x: (ship.pos.x + ship.width() / 2) as i32,
            y: (ship.pos.y - 1) as i32,
        }),
        progressed_k(rocket_from(ship, idx, max_height, max_width), k).pos == (Position {
            x: (ship.pos.x + ship.width() / 2) as i32,
            y: (ship.pos.y - 1 - k) as i32,
        }),
        !progressed_k(rocket_from(ship, idx, max_height, max_width), k).destroyed,
{
    let r = rocket_from(ship, idx, max_height, max_width);
    assert(r.pos.y == ship.pos.y - 1);
    lemma_rocket_trajectory(r, k);
}

/// Pruning the ship list is idempotent.
proof fn lemma_live_ships_idempotent(ss: Seq<Ship>)
    ensures
        live_ships(live_ships(ss)) == live_ships(ss),
    decreases ss.len(),
{
    if ss.len() == 0 {
    } else {
        let prefix = ss.drop_last();
        lemma_live_ships_idempotent(prefix);
        if !ss.last().destroyed {
            assert(live_ships(ss) == live_ships(prefix).push(ss.last()));
            lemma_live_ships_push(live_ships(prefix), ss.last());
        } else {
            assert(live_ships(ss) == live_ships(prefix));
        }
    }
}

/// Pruning the rocket list is idempotent.
proof fn lemma_live_rockets_idempotent(rs: Seq<Rocket>)
    ensures
        live_rockets(live_rockets(rs)) == live_rockets(rs),
    decreases rs.len(),
{
    if rs.len() == 0 {
    } else {
        let prefix = rs.drop_last();
        lemma_live_rockets_idempotent(prefix);
        if !rs.last().destroyed {
            assert(live_rockets(rs) == live_rockets(prefix).push(rs.last()));
            lemma_live_rockets_push(live_rockets(prefix), rs.last());
        } else {
            assert(live_rockets(rs) == live_rockets(prefix));
        }
    }
}

/// Running the destroyed-filter twice yields the very live sets that running
/// it once yields.
pub proof fn lemma_prune_idempotent(ss: Seq<Ship>, rs: Seq<Rocket>)
    ensures
        live_ships(live_ships(ss)) == live_ships(ss),
        live_rockets(live_rockets(rs)) == live_rockets(rs),
{
    lemma_live_ships_idempotent(ss);
    lemma_live_rockets_idempotent(rs);
}

/// Whether a rocket hits a ship depends only on the two current positions,
/// the two destroyed flags and the ship's glyph width — not on when in the
/// collision pass the pair is looked at.
pub proof fn lemma_hit_depends_only_on_state(r1: Rocket, s1: Ship, r2: Rocket, s2: Ship)
    requires
        r1.pos == r2.pos,
        r1.destroyed == r2.destroyed,
        s1.pos == s2.pos,
        s1.destroyed == s2.destroyed,
        s1.shape@.len() == s2.shape@.len(),
    ensures
        hit_spec(r1, s1) == hit_spec(r2, s2),
{
}

/// The outcome is decided in the very tick that prunes the live set: one
/// survivor classifies the session at once — Won exactly when it is the
/// player's ship — an emptied arena is an immediate loss, and Unknown never
/// lingers once fewer than two ships remain.
pub proof fn lemma_outcome_decided_with_prune(ss: Seq<Ship>, prev: GameResult)
    ensures
        live_ships(ss).len() == 1 ==> outcome_of(live_ships(ss), prev) == (
        if live_ships(ss)[0].side == Side::Player {
            GameResult::Won
        } else {
            GameResult::Lost
        }),
        live_ships(ss).len() == 0 ==> outcome_of(live_ships(ss), prev) == GameResult::Lost,
        outcome_of(live_ships(ss), prev) == GameResult::Unknown ==> live_ships(ss).len() >= 2
            && prev == GameResult::Unknown,
{
}

/// A rocket that left the top of the arena never reaches the display: every
/// rocket that survives a tick is in flight (`update_states` guarantees it),
/// and the draw requests of upward rockets in flight all carry `y >= 0` —
/// so no frame ever asks for a rocket at a negative row.
pub proof fn lemma_exited_rockets_never_drawn(rs: Seq<Rocket>)
    requires
        forall|k: int| 0 <= k < rs.len() ==> #[trigger] rocket_in_flight_ok(rs[k]),
        forall|k: int| 0 <= k < rs.len() ==> rs[k].direction == RocketDirection::Up,
    ensures
        forall|c: int| 0 <= c < rocket_draws(rs).len() ==> #[trigger] rocket_draws(rs)[c].y >= 0,
    decreases rs.len(),
{
    if rs.len() == 0 {
    } else {
        let prefix = rs.drop_last();
        assert forall|k: int| 0 <= k < prefix.len() implies #[trigger] rocket_in_flight_ok(
            prefix[k],
        ) && prefix[k].direction == RocketDirection::Up by {
            assert(prefix[k] == rs[k]);
        }
        lemma_exited_rockets_never_drawn(prefix);
        assert(rs.last() == rs[rs.len() - 1]);
        assert forall|c: int| 0 <= c < rocket_draws(rs).len()
            implies #[trigger] rocket_draws(rs)[c].y >= 0 by {
            if !rs.last().destroyed {
                assert(rocket_draws(rs) == rocket_draws(prefix).push(
                    rs.last().spec_draw_request()->Some_0,
                ));
                if c < rocket_draws(prefix).len() {
                    assert(rocket_draws(rs)[c] == rocket_draws(prefix)[c]);
                } else {
                    assert(rocket_in_flight_ok(rs[rs.len() - 1]));
                    assert(rocket_draws(rs)[c] == rs.last().spec_draw_request()->Some_0);
                }
            } else {
                assert(rocket_draws(rs) == rocket_draws(prefix));
            }
        }
    }
}

} // verus!
