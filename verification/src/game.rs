//! The session: arena bounds, the live entity sets, the outcome state
//! machine, and the once-per-tick simulation step.

use vstd::prelude::*;
use vstd::string::StrSliceExecFns;
use vstd::string::StringExecFns;
use crate::geometry::{Direction, Position, RocketDirection};
use crate::entity::{
    hit_spec, DrawCmd, Rocket, Ship, ShipId, Side, ENEMY1_SHIP, PLAYER_SHIP, ROCKET,
};

verus! {

/// Greeting surfaced on the first frame.
pub const WELCOME: &'static str = "welcome to space invaders";

/// Banner shown when the player wins.
pub const YOU_WON: &'static str = "YOU WON, NICE JOB";

/// Banner shown when the player loses.
pub const YOU_LOST: &'static str = "GET GOOOD PLS";

/// Message surfaced after an unrecognized key.
pub const UNKNOWN_KEY_MSG: &'static str = "unknown key";

/// Horizontal gap between two enemy ships in the spawn grid.
pub const ENEMY_X_DELTA: i32 = 2;

/// Rows of the enemy spawn grid.
pub const ENEMY_GRID_ROWS: i32 = 5;

/// Columns of the enemy spawn grid.
pub const ENEMY_GRID_COLS: i32 = 5;

/// How often an enemy resamples a random direction before giving up and
/// standing still for the tick. Bounding the retries keeps the step total
/// even for a ship with no legal move at all.
pub const MOVE_RETRY_CAP: u32 = 64;

/// The terminal classification of a session.
#[derive(Clone, Copy, Debug, PartialEq, Eq, Structural)]
pub enum GameResult {
    Unknown,
    Won,
    Lost,
}

/// One player input, independent of whatever key encoding the embedding
/// program reads.
#[derive(Clone, Copy, Debug, PartialEq, Eq, Structural)]
pub enum Intent {
    MoveUp,
    MoveDown,
    MoveLeft,
    MoveRight,
    Fire,
    Quit,
    Unrecognized,
}

/// What one frame should show: a terminal banner, or the glyphs of every
/// surviving entity.
#[derive(Debug)]
#[verifier::ext_equal]
pub enum RenderPlan {
    Banner(&'static str),
    Draw(Vec<DrawCmd>),
}

/// The whole session state. The game is the sole mutator of everything in
/// here; index 0 of `ships` is reserved for the player's ship.
#[derive(Debug)]
#[verifier::ext_equal]
pub struct Game {
    pub max_height: i32,
    pub max_width: i32,
    pub ships: Vec<Ship>,
    pub rockets: Vec<Rocket>,
    pub msg: Option<String>,
    pub result: GameResult,
    pub done: bool,
}

/// A proposed move is legal when every axis it touches lands inside the
/// 1-cell margin: `x` in `[1, width - 2]`, `y` in `[1, height - 2]`.
/// A diagonal must satisfy both of its axes.
pub open spec fn valid_move_spec(max_height: int, max_width: int, ship: Ship, d: Direction) -> bool {
    match d {
        Direction::Up => ship.pos.y - 1 >= 1,
        Direction::Down => ship.pos.y + 1 <= max_height - 2,
        Direction::Left => ship.pos.x - 1 >= 1,
        Direction::Right => ship.pos.x + 1 <= max_width - 2,
        Direction::UpLeft => ship.pos.y - 1 >= 1 && ship.pos.x - 1 >= 1,
        Direction::UpRight => ship.pos.y - 1 >= 1 && ship.pos.x + 1 <= max_width - 2,
        Direction::DownLeft => ship.pos.y + 1 <= max_height - 2 && ship.pos.x - 1 >= 1,
        Direction::DownRight => ship.pos.y + 1 <= max_height - 2 && ship.pos.x + 1 <= max_width
            - 2,
    }
}

/// Position lies inside the 1-cell margin of an arena of the given bounds.
pub open spec fn in_margin(p: Position, max_height: int, max_width: int) -> bool {
    &&& 1 <= p.x <= max_width - 2
    &&& 1 <= p.y <= max_height - 2
}

/// Every rocket has room on its travel axis for one more step of `i32`
/// arithmetic.
pub open spec fn rockets_can_step(rs: Seq<Rocket>) -> bool {
    forall|k: int| 0 <= k < rs.len() ==> rs[k].step_fits()
}

/// Every rocket after one tick of travel.
pub open spec fn all_progressed(rs: Seq<Rocket>) -> Seq<Rocket> {
    rs.map_values(|r: Rocket| r.progressed())
}

/// Width in cells of an enemy ship's glyph.
pub open spec fn enemy_width() -> int {
    ENEMY1_SHIP@.len() as int
}

/// Total width of the enemy spawn grid: `num_cols` glyphs separated by
/// `ENEMY_X_DELTA`-cell gaps.
pub open spec fn enemy_grid_width(num_cols: int) -> int {
    (ENEMY_X_DELTA as int) * (num_cols - 1) + num_cols * enemy_width()
}

/// Leftmost offset that horizontally centers the enemy spawn grid.
pub open spec fn enemy_grid_x_offset(max_width: int, num_cols: int) -> int {
    (max_width - enemy_grid_width(num_cols)) / 2
}

/// The enemy ship spawned at row `i`, column `j` of the grid: column `j`
/// sits at `x_offset + j·gap + (j − 1)·width`, row `i` at `height/8 + i`.
pub open spec fn enemy_cell(max_height: int, max_width: int, num_cols: int, i: int, j: int) -> Ship {
    Ship {
        pos: Position {
            x: (enemy_grid_x_offset(max_width, num_cols) + j * (ENEMY_X_DELTA as int) + (j - 1)
                * enemy_width()) as i32,
            y: (max_height / 8 + i) as i32,
        },
        shape: ENEMY1_SHIP,
        destroyed: false,
        side: Side::Enemy,
    }
}

/// The player's ship at session start: horizontally centered, near the
/// bottom of the arena.
pub open spec fn initial_player(max_height: int, max_width: int) -> Ship {
    Ship {
        pos: Position {
            x: ((max_width - PLAYER_SHIP@.len()) / 2) as i32,
            y: (max_height - max_height / 6) as i32,
        },
        shape: PLAYER_SHIP,
        destroyed: false,
        side: Side::Player,
    }
}

/// The rocket a ship fires: one cell above the ship's horizontal center,
/// traveling up, bounded by the arena it was fired in.
pub open spec fn rocket_from(ship: Ship, idx: ShipId, max_height: int, max_width: int) -> Rocket {
    Rocket {
        max_allowed_y: max_height as i32,
        max_allowed_x: max_width as i32,
        owner: idx,
        pos: Position {
            x: (ship.pos.x + ship.width() / 2) as i32,
            y: (ship.pos.y - 1) as i32,
        },
        shape: ROCKET,
        direction: RocketDirection::Up,
        destroyed: false,
    }
}

/// Firing from this ship stays within `i32` on both axes.
pub open spec fn fire_fits(ship: Ship) -> bool {
    &&& ship.pos.x + ship.width() / 2 <= i32::MAX
    &&& ship.pos.y > i32::MIN
}

/// Row-major index arithmetic: an earlier row's cells sit strictly before
/// the current row's block.
proof fn lemma_grid_index_bounds(a: int, b: int, i: int, cols: int)
    requires
        0 <= a < i,
        0 <= b < cols,
    ensures
        0 <= a * cols + b < i * cols,
{
    assert(0 <= a * cols + b && a * cols + b < i * cols) by (nonlinear_arith)
        requires
            0 <= a < i,
            0 <= b < cols,
    ;
}

/// The initial enemy ships, arranged in a `num_rows × num_cols` grid that is
/// horizontally centered in the arena. Row-major: cell `(i, j)` sits at
/// index `i·num_cols + j`.
pub fn create_enemy_grid(
    max_height: i32,
    max_width: i32,
    num_rows: i32,
    num_cols: i32,
) -> (ships: Vec<Ship>)
    requires
        0 <= num_rows,
        0 <= num_cols,
        0 <= max_height,
        enemy_grid_width(num_cols as int) <= max_width,
        max_height / 8 + num_rows <= i32::MAX,
    ensures
        ships@.len() == num_rows * num_cols,
        forall|i: int, j: int|
            0 <= i < num_rows && 0 <= j < num_cols ==> ships@[i * (num_cols as int) + j]
                == enemy_cell(max_height as int, max_width as int, num_cols as int, i, j),
{
    let ew: usize = ENEMY1_SHIP.unicode_len();
    proof {
        reveal_strlit("@@");
        assert(ew == 2);
    }
    let num: i64 = (max_width as i64) - ((ENEMY_X_DELTA as i64) * ((num_cols as i64) - 1) + (
    num_cols as i64) * (ew as i64));
    assert(num == max_width - enemy_grid_width(num_cols as int));
    let x_off: i64 = ((num as u64) / 2) as i64;
    proof {
        vstd::arithmetic::div_mod::lemma_div_basics_5(num as int, 2);
        assert(x_off == enemy_grid_x_offset(max_width as int, num_cols as int));
    }
    let y_base: i32 = ((max_height as u64) / 8) as i32;
    proof {
        vstd::arithmetic::div_mod::lemma_div_basics_5(max_height as int, 8);
        assert(y_base == max_height as int / 8);
    }
    let mut ships = Vec::<Ship>::new();
    let mut i: i32 = 0;
    while i < num_rows
        invariant
            0 <= i <= num_rows,
            0 <= num_cols,
            0 <= max_height,
            ew == enemy_width(),
            ew == 2,
            num == max_width - enemy_grid_width(num_cols as int),
            0 <= num,
            x_off == enemy_grid_x_offset(max_width as int, num_cols as int),
            0 <= x_off,
            2 * x_off <= num,
            y_base == max_height as int / 8,
            0 <= y_base,
            max_height / 8 + num_rows <= i32::MAX,
            ships@.len() == i * (num_cols as int),
            forall|a: int, b: int|
                0 <= a < i && 0 <= b < num_cols ==> ships@[a * (num_cols as int) + b]
                    == enemy_cell(max_height as int, max_width as int, num_cols as int, a, b),
        decreases num_rows - i,
    {
        let mut j: i32 = 0;
        while j < num_cols
            invariant
                0 <= i < num_rows,
                0 <= j <= num_cols,
                0 <= num_cols,
                0 <= max_height,
                ew == enemy_width(),
                ew == 2,
                num == max_width - enemy_grid_width(num_cols as int),
                0 <= num,
                x_off == enemy_grid_x_offset(max_width as int, num_cols as int),
                0 <= x_off,
                2 * x_off <= num,
                y_base == max_height as int / 8,
                0 <= y_base,
                max_height / 8 + num_rows <= i32::MAX,
                ships@.len() == i * (num_cols as int) + j,
                forall|a: int, b: int|
                    0 <= a < i && 0 <= b < num_cols ==> ships@[a * (num_cols as int) + b]
                        == enemy_cell(max_height as int, max_width as int, num_cols as int, a, b),
                forall|b: int|
                    0 <= b < j ==> ships@[i * (num_cols as int) + b] == enemy_cell(
                        max_height as int,
                        max_width as int,
                        num_cols as int,
                        i as int,
                        b,
                    ),
            decreases num_cols - j,
        {
            proof {
                assert(2 * (num_cols as int) + 2 * ((num_cols as int) - 1) == enemy_grid_width(
                    num_cols as int,
                ));
            }
            let cell_x64: i64 = x_off + (j as i64) * (ENEMY_X_DELTA as i64) + ((j as i64) - 1) * (
            ew as i64);
            assert(cell_x64 <= x_off + enemy_grid_width(num_cols as int) <= max_width);
            let cell_x: i32 = cell_x64 as i32;
            let cell_y: i32 = y_base + i;
            proof {
                assert(ships@.len() == i * (num_cols as int) + j);
            }
            ships.push(
                Ship {
                    pos: Position { x: cell_x, y: cell_y },
                    shape: ENEMY1_SHIP,
                    destroyed: false,
                    side: Side::Enemy,
                },
            );
            proof {
                assert forall|a: int, b: int| 0 <= a < i && 0 <= b < num_cols implies 0 <= #[trigger] (
                a * (num_cols as int) + b) < i * (num_cols as int) by {
                    lemma_grid_index_bounds(a, b, i as int, num_cols as int);
                }
            }
            j = j + 1;
        }
        proof {
            assert((i + 1) * (num_cols as int) == i * (num_cols as int) + (num_cols as int))
                by (nonlinear_arith);
        }
        i = i + 1;
    }
    ships
}

/// A rocket with its destroyed flag set; nothing else changes.
pub open spec fn rocket_killed(r: Rocket) -> Rocket {
    Rocket { destroyed: true, ..r }
}

/// A ship with its destroyed flag set; nothing else changes.
pub open spec fn ship_killed(s: Ship) -> Ship {
    Ship { destroyed: true, ..s }
}

/// One ship scanned against the rockets from index `i` on, in order: on a
/// hit both parties are marked destroyed and the scan continues, so a ship
/// already destroyed by an earlier rocket in the same pass cannot be hit
/// again.
pub open spec fn scan_rockets(s: Ship, rs: Seq<Rocket>, i: int) -> (Ship, Seq<Rocket>)
    decreases rs.len() - i,
{
    if i < 0 || i >= rs.len() {
        (s, rs)
    } else if hit_spec(rs[i], s) {
        scan_rockets(ship_killed(s), rs.update(i, rocket_killed(rs[i])), i + 1)
    } else {
        scan_rockets(s, rs, i + 1)
    }
}

/// All ships from index `j` on scanned against the rockets, in order,
/// threading the evolving rocket set from ship to ship.
pub open spec fn scan_ships(ss: Seq<Ship>, rs: Seq<Rocket>, j: int) -> (Seq<Ship>, Seq<Rocket>)
    decreases ss.len() - j,
{
    if j < 0 || j >= ss.len() {
        (ss, rs)
    } else {
        let hit = scan_rockets(ss[j], rs, 0);
        scan_ships(ss.update(j, hit.0), hit.1, j + 1)
    }
}

/// The collision pass over every (ship, rocket) pair, in pass order.
pub open spec fn collide(ss: Seq<Ship>, rs: Seq<Rocket>) -> (Seq<Ship>, Seq<Rocket>) {
    scan_ships(ss, rs, 0)
}

/// The ships that survive pruning: the not-destroyed ones, in order.
pub open spec fn live_ships(ss: Seq<Ship>) -> Seq<Ship>
    decreases ss.len(),
{
    if ss.len() == 0 {
        Seq::empty()
    } else {
        let rest = live_ships(ss.drop_last());
        if !ss.last().destroyed {
            rest.push(ss.last())
        } else {
            rest
        }
    }
}

/// The rockets that survive pruning: the not-destroyed ones, in order.
pub open spec fn live_rockets(rs: Seq<Rocket>) -> Seq<Rocket>
    decreases rs.len(),
{
    if rs.len() == 0 {
        Seq::empty()
    } else {
        let rest = live_rockets(rs.drop_last());
        if !rs.last().destroyed {
            rest.push(rs.last())
        } else {
            rest
        }
    }
}

/// The outcome read off the pruned live set: a sole surviving player ship
/// wins, a sole surviving enemy or an empty arena loses, anything else
/// leaves the previous outcome standing.
pub open spec fn outcome_of(ss: Seq<Ship>, prev: GameResult) -> GameResult {
    if ss.len() == 1 {
        if ss[0].side == Side::Player {
            GameResult::Won
        } else {
            GameResult::Lost
        }
    } else if ss.len() == 0 {
        GameResult::Lost
    } else {
        prev
    }
}

/// One enemy ship's tick: either it stands still (no legal direction was
/// sampled within the retry bound) or it took one step in some direction
/// that was legal for it.
pub open spec fn enemy_moved_ok(pre: Ship, post: Ship, max_height: int, max_width: int) -> bool {
    ||| post == pre
    ||| exists|d: Direction|
        #[trigger] valid_move_spec(max_height, max_width, pre, d) && post == (Ship {
            pos: pre.pos.moved(d),
            ..pre
        })
}

/// The autonomous-motion phase: the player (index 0) stands still, every
/// other ship either stands still or takes one legal step.
pub open spec fn enemies_stepped(
    pre: Seq<Ship>,
    post: Seq<Ship>,
    max_height: int,
    max_width: int,
) -> bool {
    &&& post.len() == pre.len()
    &&& (pre.len() > 0 ==> post[0] == pre[0])
    &&& forall|i: int|
        1 <= i < pre.len() ==> #[trigger] enemy_moved_ok(pre[i], post[i], max_height, max_width)
}

/// One whole simulation step from the pre-tick entity sets to the post-tick
/// ones: rockets advance, enemies move (the only non-deterministic part,
/// quantified away), collisions resolve in pass order, the destroyed are
/// pruned, and the outcome is read off the pruned set.
pub open spec fn sim_step(
    pre_ships: Seq<Ship>,
    pre_rockets: Seq<Rocket>,
    prev: GameResult,
    max_height: int,
    max_width: int,
    post_ships: Seq<Ship>,
    post_rockets: Seq<Rocket>,
    post_result: GameResult,
) -> bool {
    exists|moved: Seq<Ship>|
        {
            &&& #[trigger] enemies_stepped(pre_ships, moved, max_height, max_width)
            &&& post_ships == live_ships(collide(moved, all_progressed(pre_rockets)).0)
            &&& post_rockets == live_rockets(collide(moved, all_progressed(pre_rockets)).1)
            &&& post_result == outcome_of(post_ships, prev)
        }
}

/// The ship list with the player's ship (index 0) shifted one step in
/// direction `d`, legal or not: player moves are applied unchecked.
pub open spec fn with_player_moved(ships: Seq<Ship>, d: Direction) -> Seq<Ship> {
    ships.update(0, Ship { pos: ships[0].pos.moved(d), ..ships[0] })
}

/// A rocket that survived a tick: alive, and still inside the arena on its
/// travel axis, so it can be drawn at a real cell and can take another step.
pub open spec fn rocket_in_flight_ok(r: Rocket) -> bool {
    &&& !r.destroyed
    &&& (r.direction == RocketDirection::Up ==> r.pos.y >= 0)
    &&& (r.direction == RocketDirection::Down ==> r.pos.y <= r.max_allowed_y)
}

/// A legal move never leaves `i32` on either axis.
proof fn lemma_valid_move_fits(max_height: int, max_width: int, s: Ship, d: Direction)
    requires
        valid_move_spec(max_height, max_width, s, d),
        max_height <= i32::MAX,
        max_width <= i32::MAX,
    ensures
        s.pos.move_fits(d),
{
}

/// The draw requests of the surviving ships, in list order.
pub open spec fn ship_draws(ss: Seq<Ship>) -> Seq<DrawCmd>
    decreases ss.len(),
{
    if ss.len() == 0 {
        Seq::empty()
    } else {
        let rest = ship_draws(ss.drop_last());
        match ss.last().spec_draw_request() {
            Some(cmd) => rest.push(cmd),
            None => rest,
        }
    }
}

/// The draw requests of the surviving rockets, in list order.
pub open spec fn rocket_draws(rs: Seq<Rocket>) -> Seq<DrawCmd>
    decreases rs.len(),
{
    if rs.len() == 0 {
        Seq::empty()
    } else {
        let rest = rocket_draws(rs.drop_last());
        match rs.last().spec_draw_request() {
            Some(cmd) => rest.push(cmd),
            None => rest,
        }
    }
}

/// Everything one frame draws: every surviving ship's glyph, then every
/// surviving rocket's.
pub open spec fn draw_cmds(ss: Seq<Ship>, rs: Seq<Rocket>) -> Seq<DrawCmd> {
    ship_draws(ss) + rocket_draws(rs)
}

/// The direction a movement intent shifts the player's ship in. Only the
/// four movement intents are meaningful here.
pub open spec fn intent_direction(intent: Intent) -> Direction {
    match intent {
        Intent::MoveUp => Direction::Up,
        Intent::MoveDown => Direction::Down,
        Intent::MoveLeft => Direction::Left,
        Intent::MoveRight => Direction::Right,
        Intent::Fire | Intent::Quit | Intent::Unrecognized => Direction::Up,
    }
}

/// The `i32` room an intent needs before it can be applied: one step for a
/// move, the rocket spawn cell for a fire, one travel step for every rocket
/// already in flight.
pub open spec fn intent_fits(g: Game, intent: Intent) -> bool {
    match intent {
        Intent::MoveUp => g.ships@.len() >= 1 && rockets_can_step(g.rockets@) && g.ships@[0].pos.y
            > i32::MIN,
        Intent::MoveDown => g.ships@.len() >= 1 && rockets_can_step(g.rockets@) && g.ships@[0].pos.y
            < i32::MAX,
        Intent::MoveLeft => g.ships@.len() >= 1 && rockets_can_step(g.rockets@) && g.ships@[0].pos.x
            > i32::MIN,
        Intent::MoveRight => g.ships@.len() >= 1 && rockets_can_step(g.rockets@)
            && g.ships@[0].pos.x < i32::MAX,
        Intent::Fire => g.ships@.len() >= 1 && rockets_can_step(g.rockets@) && fire_fits(
            g.ships@[0],
        ) && g.ships@[0].pos.y > i32::MIN + 1,
        Intent::Quit => true,
        Intent::Unrecognized => rockets_can_step(g.rockets@),
    }
}

/// The collision scan of one ship leaves every rocket either untouched or
/// merely marked destroyed: positions, directions and bounds never change.
proof fn lemma_scan_rockets_shape(s: Ship, rs: Seq<Rocket>, i: int)
    ensures
        scan_rockets(s, rs, i).1.len() == rs.len(),
        forall|k: int|
            0 <= k < rs.len() ==> (#[trigger] scan_rockets(s, rs, i).1[k] == rs[k] || scan_rockets(
                s,
                rs,
                i,
            ).1[k] == rocket_killed(rs[k])),
    decreases rs.len() - i,
{
    if i < 0 || i >= rs.len() {
    } else if hit_spec(rs[i], s) {
        let rs2 = rs.update(i, rocket_killed(rs[i]));
        lemma_scan_rockets_shape(ship_killed(s), rs2, i + 1);
        assert forall|k: int| 0 <= k < rs.len() implies (#[trigger] scan_rockets(s, rs, i).1[k]
            == rs[k] || scan_rockets(s, rs, i).1[k] == rocket_killed(rs[k])) by {
            assert(rs2[k] == rs[k] || rs2[k] == rocket_killed(rs[k]));
            assert(rocket_killed(rocket_killed(rs[k])) == rocket_killed(rs[k]));
        }
    } else {
        lemma_scan_rockets_shape(s, rs, i + 1);
    }
}

/// The whole collision pass leaves every rocket either untouched or merely
/// marked destroyed.
proof fn lemma_scan_ships_shape(ss: Seq<Ship>, rs: Seq<Rocket>, j: int)
    ensures
        scan_ships(ss, rs, j).0.len() == ss.len(),
        scan_ships(ss, rs, j).1.len() == rs.len(),
        forall|k: int|
            0 <= k < rs.len() ==> (#[trigger] scan_ships(ss, rs, j).1[k] == rs[k] || scan_ships(
                ss,
                rs,
                j,
            ).1[k] == rocket_killed(rs[k])),
    decreases ss.len() - j,
{
    if j < 0 || j >= ss.len() {
    } else {
        let hit = scan_rockets(ss[j], rs, 0);
        lemma_scan_rockets_shape(ss[j], rs, 0);
        lemma_scan_ships_shape(ss.update(j, hit.0), hit.1, j + 1);
        assert forall|k: int| 0 <= k < rs.len() implies (#[trigger] scan_ships(ss, rs, j).1[k]
            == rs[k] || scan_ships(ss, rs, j).1[k] == rocket_killed(rs[k])) by {
            assert(hit.1[k] == rs[k] || hit.1[k] == rocket_killed(rs[k]));
            assert(rocket_killed(rocket_killed(rs[k])) == rocket_killed(rs[k]));
        }
    }
}

/// Pruning keeps only rockets that were already acceptable: if every live
/// rocket of `rs` is in flight, so is every survivor of the pruning.
proof fn lemma_live_rockets_in_flight(rs: Seq<Rocket>)
    requires
        forall|m: int|
            0 <= m < rs.len() ==> (!rs[m].destroyed ==> #[trigger] rocket_in_flight_ok(rs[m])),
    ensures
        forall|k: int|
            0 <= k < live_rockets(rs).len() ==> rocket_in_flight_ok(
                #[trigger] live_rockets(rs)[k],
            ),
    decreases rs.len(),
{
    if rs.len() == 0 {
    } else {
        let prefix = rs.drop_last();
        assert forall|m: int| 0 <= m < prefix.len() && !prefix[m].destroyed
            implies #[trigger] rocket_in_flight_ok(prefix[m]) by {
            assert(prefix[m] == rs[m]);
        }
        lemma_live_rockets_in_flight(prefix);
        assert forall|k: int| 0 <= k < live_rockets(rs).len() implies rocket_in_flight_ok(
            #[trigger] live_rockets(rs)[k],
        ) by {
            if !rs.last().destroyed {
                assert(live_rockets(rs) == live_rockets(prefix).push(rs.last()));
                if k < live_rockets(prefix).len() {
                    assert(live_rockets(rs)[k] == live_rockets(prefix)[k]);
                } else {
                    assert(live_rockets(rs)[k] == rs.last());
                    assert(rs.last() == rs[rs.len() - 1]);
                }
            } else {
                assert(live_rockets(rs) == live_rockets(prefix));
            }
        }
    }
}

/// Appending a ship commutes with pruning.
pub(crate) proof fn lemma_live_ships_push(ss: Seq<Ship>, s: Ship)
    ensures
        live_ships(ss.push(s)) == (if !s.destroyed {
            live_ships(ss).push(s)
        } else {
            live_ships(ss)
        }),
{
    assert(ss.push(s).drop_last() =~= ss);
    assert(ss.push(s).last() == s);
}

/// Appending a rocket commutes with pruning.
pub(crate) proof fn lemma_live_rockets_push(rs: Seq<Rocket>, r: Rocket)
    ensures
        live_rockets(rs.push(r)) == (if !r.destroyed {
            live_rockets(rs).push(r)
        } else {
            live_rockets(rs)
        }),
{
    assert(rs.push(r).drop_last() =~= rs);
    assert(rs.push(r).last() == r);
}

/// Appending a ship commutes with collecting draw requests.
proof fn lemma_ship_draws_push(ss: Seq<Ship>, s: Ship)
    ensures
        ship_draws(ss.push(s)) == (match s.spec_draw_request() {
            Some(cmd) => ship_draws(ss).push(cmd),
            None => ship_draws(ss),
        }),
{
    assert(ss.push(s).drop_last() =~= ss);
    assert(ss.push(s).last() == s);
}

/// Appending a rocket commutes with collecting draw requests.
proof fn lemma_rocket_draws_push(rs: Seq<Rocket>, r: Rocket)
    ensures
        rocket_draws(rs.push(r)) == (match r.spec_draw_request() {
            Some(cmd) => rocket_draws(rs).push(cmd),
            None => rocket_draws(rs),
        }),
{
    assert(rs.push(r).drop_last() =~= rs);
    assert(rs.push(r).last() == r);
}

impl Game {
    /// A fresh session in an arena of the given bounds: the player's ship at
    /// index 0, the enemy grid behind it, no rockets, outcome undetermined.
    pub fn new(max_height: i32, max_width: i32) -> (game: Game)
        requires
            1 <= max_height,
            PLAYER_SHIP@.len() <= max_width,
            enemy_grid_width(ENEMY_GRID_COLS as int) <= max_width,
        ensures
            game.max_height == max_height,
            game.max_width == max_width,
            game.rockets@ == Seq::<Rocket>::empty(),
            game.msg is None,
            game.result == GameResult::Unknown,
            game.done == false,
            game.ships@.len() == 1 + (ENEMY_GRID_ROWS as int) * (ENEMY_GRID_COLS as int),
            game.ships@[0] == initial_player(max_height as int, max_width as int),
            forall|i: int, j: int|
                0 <= i < ENEMY_GRID_ROWS && 0 <= j < ENEMY_GRID_COLS ==> game.ships@[1 + i * (
                ENEMY_GRID_COLS as int) + j] == enemy_cell(
                    max_height as int,
                    max_width as int,
                    ENEMY_GRID_COLS as int,
                    i,
                    j,
                ),
    {
        let pw: usize = PLAYER_SHIP.unicode_len();
        proof {
            reveal_strlit("YOUR SHIP");
            assert(pw == 9);
        }
        let pdx: i64 = (max_width as i64) - (pw as i64);
        let px: i32 = (((pdx as u64) / 2) as i64) as i32;
        proof {
            vstd::arithmetic::div_mod::lemma_div_basics_5(pdx as int, 2);
            assert(px == (max_width - PLAYER_SHIP@.len()) / 2);
        }
        let py_div: i32 = ((max_height as u64) / 6) as i32;
        proof {
            vstd::arithmetic::div_mod::lemma_div_basics_5(max_height as int, 6);
        }
        let py: i32 = max_height - py_div;
        let player = Ship {
            pos: Position { x: px, y: py },
            shape: PLAYER_SHIP,
            destroyed: false,
            side: Side::Player,
        };
        proof {
            vstd::arithmetic::div_mod::lemma_div_is_ordered(
                max_height as int,
                i32::MAX as int,
                8,
            );
        }
        let grid: Vec<Ship> = create_enemy_grid(
            max_height,
            max_width,
            ENEMY_GRID_ROWS,
            ENEMY_GRID_COLS,
        );
        let mut ships = Vec::<Ship>::new();
        ships.push(player);
        let mut k: usize = 0;
        while k < grid.len()
            invariant
                k <= grid@.len(),
                ships@.len() == 1 + k,
                ships@[0] == player,
                forall|m: int| 0 <= m < k ==> ships@[1 + m] == grid@[m],
            decreases grid@.len() - k,
        {
            ships.push(grid[k]);
            k = k + 1;
        }
        proof {
            assert forall|i: int, j: int| 0 <= i < ENEMY_GRID_ROWS && 0 <= j < ENEMY_GRID_COLS
                implies ships@[1 + i * (ENEMY_GRID_COLS as int) + j] == enemy_cell(
                max_height as int,
                max_width as int,
                ENEMY_GRID_COLS as int,
                i,
                j,
            ) by {
                assert(0 <= i * (ENEMY_GRID_COLS as int) + j < (ENEMY_GRID_ROWS as int) * (
                ENEMY_GRID_COLS as int)) by (nonlinear_arith)
                    requires
                        0 <= i < ENEMY_GRID_ROWS as int,
                        0 <= j < ENEMY_GRID_COLS as int,
                ;
            }
        }
        Game {
            max_height,
            max_width,
            ships,
            rockets: Vec::new(),
            msg: None,
            result: GameResult::Unknown,
            done: false,
        }
    }

    /// Fire a rocket from ship `idx`: it appears one cell above the ship's
    /// horizontal center and travels up. There is no cooldown, and a
    /// destroyed ship may still fire: the rocket flies either way.
    pub fn shoot_rocket(&mut self, idx: ShipId)
        requires
            idx < old(self).ships@.len(),
            fire_fits(old(self).ships@[idx as int]),
        ensures
            final(self).rockets@ == old(self).rockets@.push(
                rocket_from(
                    old(self).ships@[idx as int],
                    idx,
                    old(self).max_height as int,
                    old(self).max_width as int,
                ),
            ),
            *final(self) == (Game { rockets: final(self).rockets, ..*old(self) }),
    {
        let ship: Ship = self.ships[idx];
        let w: usize = ship.shape.unicode_len();
        let rx: i32 = ((ship.pos.x as i64) + ((w / 2) as i64)) as i32;
        let ry: i32 = ship.pos.y - 1;
        self.rockets.push(
            Rocket {
                max_allowed_y: self.max_height,
                max_allowed_x: self.max_width,
                owner: idx,
                pos: Position { x: rx, y: ry },
                shape: ROCKET,
                direction: RocketDirection::Up,
                destroyed: false,
            },
        );
    }

    /// The boundary-legality test for a proposed move: every axis the move
    /// touches is checked, and a diagonal fails if either of its axes would
    /// leave the margin.
    pub fn valid_move_for_a_ship(
        max_height: i32,
        max_width: i32,
        ship: &Ship,
        d: &Direction,
    ) -> (legal: bool)
        ensures
            legal == valid_move_spec(max_height as int, max_width as int, *ship, *d),
    {
        let x: i64 = ship.pos.x as i64;
        let y: i64 = ship.pos.y as i64;
        let h: i64 = max_height as i64;
        let w: i64 = max_width as i64;
        match d {
            Direction::Up => y - 1 >= 1,
            Direction::Down => y + 1 <= h - 2,
            Direction::Left => x - 1 >= 1,
            Direction::Right => x + 1 <= w - 2,
            Direction::UpLeft => y - 1 >= 1 && x - 1 >= 1,
            Direction::UpRight => y - 1 >= 1 && x + 1 <= w - 2,
            Direction::DownLeft => y + 1 <= h - 2 && x - 1 >= 1,
            Direction::DownRight => y + 1 <= h - 2 && x + 1 <= w - 2,
        }
    }

    /// Do all rockets have room for one more step? The embedding program may
    /// test this before asking for a tick.
    pub fn can_step(&self) -> (ok: bool)
        ensures
            ok == rockets_can_step(self.rockets@),
    {
        let mut i: usize = 0;
        while i < self.rockets.len()
            invariant
                i <= self.rockets@.len(),
                forall|k: int| 0 <= k < i ==> self.rockets@[k].step_fits(),
            decreases self.rockets@.len() - i,
        {
            let r: Rocket = self.rockets[i];
            match r.direction {
                RocketDirection::Up => {
                    if r.pos.y == i32::MIN {
                        return false;
                    }
                }
                RocketDirection::Down => {
                    if r.pos.y == i32::MAX {
                        return false;
                    }
                }
            }
            i = i + 1;
        }
        true
    }

    /// Surface a one-shot message on the next frame.
    pub fn set_message(&mut self, text: String)
        ensures
            *final(self) == (Game { msg: Some(text), ..*old(self) }),
    {
        self.msg = Some(text);
    }

    /// Hand the pending one-shot message out (clearing it), if there is one.
    pub fn take_message(&mut self) -> (msg: Option<String>)
        ensures
            msg == old(self).msg,
            *final(self) == (Game { msg: None, ..*old(self) }),
    {
        self.msg.take()
    }

    /// Phase 1 of a tick: every rocket travels one cell; one that left the
    /// arena is marked destroyed.
    pub fn advance_rockets(&mut self)
        requires
            rockets_can_step(old(self).rockets@),
        ensures
            final(self).rockets@ == all_progressed(old(self).rockets@),
            *final(self) == (Game { rockets: final(self).rockets, ..*old(self) }),
    {
        let ghost rs0 = self.rockets@;
        let mut out = Vec::<Rocket>::new();
        let mut i: usize = 0;
        while i < self.rockets.len()
            invariant
                i <= rs0.len(),
                self.rockets@ == rs0,
                rockets_can_step(rs0),
                out@.len() == i,
                forall|k: int| 0 <= k < i ==> out@[k] == rs0[k].progressed(),
            decreases rs0.len() - i,
        {
            let mut r: Rocket = self.rockets[i];
            assert(rs0[i as int].step_fits());
            r.progress();
            out.push(r);
            i = i + 1;
        }
        self.rockets = out;
        proof {
            assert(self.rockets@ =~= all_progressed(rs0));
        }
    }

    /// One enemy ship's autonomous motion: sample random directions until a
    /// legal one comes up (bounded by `MOVE_RETRY_CAP`; on exhaustion the
    /// ship stands still for this tick) and take that step.
    #[verifier::loop_isolation(false)]
    fn step_enemy(max_height: i32, max_width: i32, ship: &mut Ship)
        ensures
            enemy_moved_ok(*old(ship), *final(ship), max_height as int, max_width as int),
    {
        let ghost s0 = *ship;
        let mut tries: u32 = 0;
        while tries < MOVE_RETRY_CAP
            invariant
                *ship == s0,
            decreases MOVE_RETRY_CAP - tries,
        {
            let d: Direction = Direction::random();
            if Game::valid_move_for_a_ship(max_height, max_width, ship, &d) {
                proof {
                    lemma_valid_move_fits(max_height as int, max_width as int, *ship, d);
                }
                ship.pos.move_into(&d);
                proof {
                    assert(valid_move_spec(max_height as int, max_width as int, s0, d) && *ship
                        == (Ship { pos: s0.pos.moved(d), ..s0 }));
                }
                return ;
            }
            tries = tries + 1;
        }
    }

    /// Phase 2 of a tick: every ship but the player's takes one random legal
    /// step (or stands still once the retry bound is spent).
    pub fn move_enemy_ships(&mut self)
        ensures
            enemies_stepped(
                old(self).ships@,
                final(self).ships@,
                old(self).max_height as int,
                old(self).max_width as int,
            ),
            *final(self) == (Game { ships: final(self).ships, ..*old(self) }),
    {
        let ghost g0 = *self;
        let ghost ss0 = self.ships@;
        let mut idx: usize = 1;
        while idx < self.ships.len()
            invariant
                1 <= idx,
                self.ships@.len() == ss0.len(),
                ss0.len() > 0 ==> self.ships@[0] == ss0[0],
                forall|i: int| idx <= i < ss0.len() ==> self.ships@[i] == ss0[i],
                forall|i: int|
                    1 <= i < idx && i < ss0.len() ==> #[trigger] enemy_moved_ok(
                        ss0[i],
                        self.ships@[i],
                        g0.max_height as int,
                        g0.max_width as int,
                    ),
                *self == (Game { ships: self.ships, ..g0 }),
            decreases ss0.len() - idx,
        {
            let mh: i32 = self.max_height;
            let mw: i32 = self.max_width;
            let mut s: Ship = self.ships[idx];
            Game::step_enemy(mh, mw, &mut s);
            self.ships[idx] = s;
            idx = idx + 1;
        }
    }

    /// Phase 3 of a tick: scan every (ship, rocket) pair in pass order; a
    /// hit destroys both parties on the spot, so neither is matched again
    /// later in the same pass.
    pub fn resolve_collisions(&mut self)
        ensures
            final(self).ships@ == collide(old(self).ships@, old(self).rockets@).0,
            final(self).rockets@ == collide(old(self).ships@, old(self).rockets@).1,
            *final(self) == (Game {
                ships: final(self).ships,
                rockets: final(self).rockets,
                ..*old(self)
            }),
    {
        let ghost g0 = *self;
        let ghost ss0 = self.ships@;
        let ghost rs0 = self.rockets@;
        let mut j: usize = 0;
        while j < self.ships.len()
            invariant
                j <= self.ships@.len(),
                self.ships@.len() == ss0.len(),
                self.rockets@.len() == rs0.len(),
                scan_ships(self.ships@, self.rockets@, j as int) == scan_ships(ss0, rs0, 0),
                *self == (Game { ships: self.ships, rockets: self.rockets, ..g0 }),
            decreases self.ships@.len() - j,
        {
            let ghost ships_in = self.ships@;
            let ghost rockets_in = self.rockets@;
            let mut s: Ship = self.ships[j];
            let mut i: usize = 0;
            while i < self.rockets.len()
                invariant
                    i <= self.rockets@.len(),
                    j < ships_in.len(),
                    self.ships@ == ships_in,
                    self.rockets@.len() == rockets_in.len(),
                    scan_rockets(s, self.rockets@, i as int) == scan_rockets(
                        ships_in[j as int],
                        rockets_in,
                        0,
                    ),
                    *self == (Game { ships: self.ships, rockets: self.rockets, ..g0 }),
                decreases self.rockets@.len() - i,
            {
                let hit: bool = crate::entity::ship_rocket_colision(&self.rockets[i], &s);
                if hit {
                    let ghost pre_s = s;
                    let ghost pre_rs = self.rockets@;
                    s.destroyed = true;
                    let mut r: Rocket = self.rockets[i];
                    r.destroyed = true;
                    self.rockets[i] = r;
                    proof {
                        assert(s == ship_killed(pre_s));
                        assert(self.rockets@ == pre_rs.update(
                            i as int,
                            rocket_killed(pre_rs[i as int]),
                        ));
                        assert(scan_rockets(pre_s, pre_rs, i as int) == scan_rockets(
                            s,
                            self.rockets@,
                            i as int + 1,
                        ));
                    }
                } else {
                    proof {
                        assert(scan_rockets(s, self.rockets@, i as int) == scan_rockets(
                            s,
                            self.rockets@,
                            i as int + 1,
                        ));
                    }
                }
                i = i + 1;
            }
            proof {
                assert(scan_rockets(s, self.rockets@, self.rockets@.len() as int) == (s,
                self.rockets@));
            }
            self.ships[j] = s;
            proof {
                assert(self.ships@ == ships_in.update(j as int, s));
                assert(scan_ships(ships_in, rockets_in, j as int) == scan_ships(
                    self.ships@,
                    self.rockets@,
                    j as int + 1,
                ));
            }
            j = j + 1;
        }
        proof {
            assert(scan_ships(self.ships@, self.rockets@, self.ships@.len() as int) == (
            self.ships@, self.rockets@));
        }
    }

    /// Phase 4 of a tick: drop every destroyed ship and rocket from the live
    /// sets, keeping the survivors in order.
    pub fn prune_destroyed(&mut self)
        ensures
            final(self).ships@ == live_ships(old(self).ships@),
            final(self).rockets@ == live_rockets(old(self).rockets@),
            *final(self) == (Game {
                ships: final(self).ships,
                rockets: final(self).rockets,
                ..*old(self)
            }),
    {
        let ghost ss0 = self.ships@;
        let ghost rs0 = self.rockets@;
        let mut ships_out = Vec::<Ship>::new();
        let mut i: usize = 0;
        while i < self.ships.len()
            invariant
                i <= ss0.len(),
                self.ships@ == ss0,
                ships_out@ == live_ships(ss0.take(i as int)),
            decreases ss0.len() - i,
        {
            let s: Ship = self.ships[i];
            proof {
                assert(ss0.take((i + 1) as int).drop_last() =~= ss0.take(i as int));
                assert(ss0.take((i + 1) as int).last() == ss0[i as int]);
            }
            if !s.destroyed {
                ships_out.push(s);
            }
            i = i + 1;
        }
        proof {
            assert(ss0.take(ss0.len() as int) =~= ss0);
        }
        self.ships = ships_out;
        let mut rockets_out = Vec::<Rocket>::new();
        let mut k: usize = 0;
        while k < self.rockets.len()
            invariant
                k <= rs0.len(),
                self.rockets@ == rs0,
                rockets_out@ == live_rockets(rs0.take(k as int)),
            decreases rs0.len() - k,
        {
            let r: Rocket = self.rockets[k];
            proof {
                assert(rs0.take((k + 1) as int).drop_last() =~= rs0.take(k as int));
                assert(rs0.take((k + 1) as int).last() == rs0[k as int]);
            }
            if !r.destroyed {
                rockets_out.push(r);
            }
            k = k + 1;
        }
        proof {
            assert(rs0.take(rs0.len() as int) =~= rs0);
        }
        self.rockets = rockets_out;
    }

    /// Phase 5 of a tick: read the outcome off the pruned live set. Fewer
    /// than two survivors decide the session; the count is then 0 or 1 by
    /// arithmetic, so no further case can arise.
    pub fn evaluate_outcome(&mut self)
        ensures
            final(self).result == outcome_of(old(self).ships@, old(self).result),
            *final(self) == (Game { result: final(self).result, ..*old(self) }),
    {
        if self.ships.len() < 2 {
            if self.ships.len() == 1 {
                let s0: Ship = self.ships[0];
                if s0.side == Side::Player {
                    self.result = GameResult::Won;
                } else {
                    self.result = GameResult::Lost;
                }
            } else {
                assert(self.ships@.len() == 0);
                self.result = GameResult::Lost;
            }
        }
    }

    /// One whole tick, in order: rockets travel, enemies move, collisions
    /// resolve, the destroyed are pruned, the outcome is read off the pruned
    /// set. The outcome check runs after pruning, so a ship destroyed this
    /// very tick is never miscounted as alive; every rocket that survives is
    /// still inside the arena on its travel axis.
    pub fn update_states(&mut self)
        requires
            rockets_can_step(old(self).rockets@),
        ensures
            sim_step(
                old(self).ships@,
                old(self).rockets@,
                old(self).result,
                old(self).max_height as int,
                old(self).max_width as int,
                final(self).ships@,
                final(self).rockets@,
                final(self).result,
            ),
            forall|k: int|
                0 <= k < final(self).rockets@.len() ==> rocket_in_flight_ok(
                    #[trigger] final(self).rockets@[k],
                ),
            final(self).max_height == old(self).max_height,
            final(self).max_width == old(self).max_width,
            final(self).msg == old(self).msg,
            final(self).done == old(self).done,
    {
        let ghost g0 = *self;
        self.advance_rockets();
        let ghost rs1 = self.rockets@;
        self.move_enemy_ships();
        let ghost moved = self.ships@;
        self.resolve_collisions();
        let ghost cr_ships = self.ships@;
        let ghost cr_rockets = self.rockets@;
        self.prune_destroyed();
        self.evaluate_outcome();
        proof {
            assert(rs1 == all_progressed(g0.rockets@));
            assert(enemies_stepped(g0.ships@, moved, g0.max_height as int, g0.max_width as int));
            assert(cr_ships == collide(moved, rs1).0);
            assert(cr_rockets == collide(moved, rs1).1);
            assert(self.ships@ == live_ships(cr_ships));
            assert(self.rockets@ == live_rockets(cr_rockets));
            assert(self.result == outcome_of(self.ships@, g0.result));
            assert(sim_step(
                g0.ships@,
                g0.rockets@,
                g0.result,
                g0.max_height as int,
                g0.max_width as int,
                self.ships@,
                self.rockets@,
                self.result,
            ));
            assert forall|m: int| 0 <= m < rs1.len() implies (!rs1[m].destroyed
                ==> #[trigger] rocket_in_flight_ok(rs1[m])) by {
                assert(g0.rockets@[m].step_fits());
                assert(rs1[m] == g0.rockets@[m].progressed());
            }
            lemma_scan_ships_shape(moved, rs1, 0);
            assert forall|m: int| 0 <= m < cr_rockets.len() implies (!cr_rockets[m].destroyed
                ==> #[trigger] rocket_in_flight_ok(cr_rockets[m])) by {
                assert(cr_rockets[m] == rs1[m] || cr_rockets[m] == rocket_killed(rs1[m]));
            }
            lemma_live_rockets_in_flight(cr_rockets);
        }
    }

    /// Apply one player intent and, unless the intent was Quit, run one
    /// simulation step. Once the outcome is decided, input no longer
    /// applies. Player moves are applied unchecked, as fired; only enemy
    /// motion consults the legality test.
    pub fn apply_intent(&mut self, intent: Intent)
        requires
            old(self).result == GameResult::Unknown ==> intent_fits(*old(self), intent),
        ensures
            old(self).result != GameResult::Unknown ==> *final(self) == *old(self),
            old(self).result == GameResult::Unknown ==> {
                let h = old(self).max_height as int;
                let w = old(self).max_width as int;
                match intent {
                    Intent::Quit => *final(self) == (Game { done: true, ..*old(self) }),
                    Intent::MoveUp | Intent::MoveDown | Intent::MoveLeft | Intent::MoveRight => {
                        let d = intent_direction(intent);
                        &&& sim_step(
                            with_player_moved(old(self).ships@, d),
                            old(self).rockets@,
                            old(self).result,
                            h,
                            w,
                            final(self).ships@,
                            final(self).rockets@,
                            final(self).result,
                        )
                        &&& final(self).msg == old(self).msg
                        &&& final(self).done == old(self).done
                        &&& final(self).max_height == old(self).max_height
                        &&& final(self).max_width == old(self).max_width
                    },
                    Intent::Fire => {
                        &&& sim_step(
                            old(self).ships@,
                            old(self).rockets@.push(
                                rocket_from(old(self).ships@[0], 0, h, w),
                            ),
                            old(self).result,
                            h,
                            w,
                            final(self).ships@,
                            final(self).rockets@,
                            final(self).result,
                        )
                        &&& final(self).msg == old(self).msg
                        &&& final(self).done == old(self).done
                        &&& final(self).max_height == old(self).max_height
                        &&& final(self).max_width == old(self).max_width
                    },
                    Intent::Unrecognized => {
                        &&& sim_step(
                            old(self).ships@,
                            old(self).rockets@,
                            old(self).result,
                            h,
                            w,
                            final(self).ships@,
                            final(self).rockets@,
                            final(self).result,
                        )
                        &&& final(self).msg matches Some(m) && m@ == UNKNOWN_KEY_MSG@
                        &&& final(self).done == old(self).done
                        &&& final(self).max_height == old(self).max_height
                        &&& final(self).max_width == old(self).max_width
                    },
                }
            },
    {
        if self.result != GameResult::Unknown {
            return ;
        }
        match intent {
            Intent::MoveUp => {
                let mut s0: Ship = self.ships[0];
                s0.up();
                self.ships[0] = s0;
                proof {
                    assert(self.ships@ == with_player_moved(old(self).ships@, Direction::Up));
                }
                self.update_states();
            }
            Intent::MoveDown => {
                let mut s0: Ship = self.ships[0];
                s0.down();
                self.ships[0] = s0;
                proof {
                    assert(self.ships@ == with_player_moved(old(self).ships@, Direction::Down));
                }
                self.update_states();
            }
            Intent::MoveLeft => {
                let mut s0: Ship = self.ships[0];
                s0.left();
                self.ships[0] = s0;
                proof {
                    assert(self.ships@ == with_player_moved(old(self).ships@, Direction::Left));
                }
                self.update_states();
            }
            Intent::MoveRight => {
                let mut s0: Ship = self.ships[0];
                s0.right();
                self.ships[0] = s0;
                proof {
                    assert(self.ships@ == with_player_moved(old(self).ships@, Direction::Right));
                }
                self.update_states();
            }
            Intent::Fire => {
                self.shoot_rocket(0);
                proof {
                    assert forall|k: int| 0 <= k < self.rockets@.len()
                        implies #[trigger] self.rockets@[k].step_fits() by {
                        if k < old(self).rockets@.len() {
                            assert(old(self).rockets@[k].step_fits());
                        }
                    }
                }
                self.update_states();
            }
            Intent::Quit => {
                self.done = true;
            }
            Intent::Unrecognized => {
                self.msg = Some(String::from_str(UNKNOWN_KEY_MSG));
                self.update_states();
            }
        }
    }

    /// What the next frame shows. A decided outcome turns into its banner
    /// and finishes the session; otherwise the frame draws every surviving
    /// entity, ships first, then rockets.
    pub fn render_plan(&mut self) -> (plan: RenderPlan)
        ensures
            final(self).ships == old(self).ships,
            final(self).rockets == old(self).rockets,
            final(self).msg == old(self).msg,
            final(self).result == old(self).result,
            final(self).max_height == old(self).max_height,
            final(self).max_width == old(self).max_width,
            old(self).result == GameResult::Unknown ==> {
                &&& final(self).done == old(self).done
                &&& plan matches RenderPlan::Draw(cmds) && cmds@ == draw_cmds(
                    old(self).ships@,
                    old(self).rockets@,
                )
            },
            old(self).result == GameResult::Won ==> final(self).done && (plan
                matches RenderPlan::Banner(text) && text@ == YOU_WON@),
            old(self).result == GameResult::Lost ==> final(self).done && (plan
                matches RenderPlan::Banner(text) && text@ == YOU_LOST@),
    {
        match self.result {
            GameResult::Won => {
                self.done = true;
                RenderPlan::Banner(YOU_WON)
            }
            GameResult::Lost => {
                self.done = true;
                RenderPlan::Banner(YOU_LOST)
            }
            GameResult::Unknown => {
                let ghost ss0 = self.ships@;
                let ghost rs0 = self.rockets@;
                let mut cmds = Vec::<DrawCmd>::new();
                let mut i: usize = 0;
                while i < self.ships.len()
                    invariant
                        i <= ss0.len(),
                        self.ships@ == ss0,
                        cmds@ == ship_draws(ss0.take(i as int)),
                    decreases ss0.len() - i,
                {
                    proof {
                        assert(ss0.take((i + 1) as int).drop_last() =~= ss0.take(i as int));
                        lemma_ship_draws_push(ss0.take(i as int), ss0[i as int]);
                        assert(ss0.take((i + 1) as int) == ss0.take(i as int).push(ss0[i as int]));
                    }
                    let req: Option<DrawCmd> = (&self.ships[i]).draw_request();
                    if let Some(cmd) = req {
                        cmds.push(cmd);
                    }
                    i = i + 1;
                }
                proof {
                    assert(ss0.take(ss0.len() as int) =~= ss0);
                }
                let mut k: usize = 0;
                while k < self.rockets.len()
                    invariant
                        k <= rs0.len(),
                        self.rockets@ == rs0,
                        self.ships@ == ss0,
                        cmds@ == ship_draws(ss0) + rocket_draws(rs0.take(k as int)),
                    decreases rs0.len() - k,
                {
                    proof {
                        assert(rs0.take((k + 1) as int).drop_last() =~= rs0.take(k as int));
                        lemma_rocket_draws_push(rs0.take(k as int), rs0[k as int]);
                        assert(rs0.take((k + 1) as int) == rs0.take(k as int).push(rs0[k as int]));
                    }
                    let req: Option<DrawCmd> = (&self.rockets[k]).draw_request();
                    if let Some(cmd) = req {
                        proof {
                            assert((cmds@.push(cmd)) =~= ship_draws(ss0) + rocket_draws(
                                rs0.take(k as int),
                            ).push(cmd));
                        }
                        cmds.push(cmd);
                    }
                    k = k + 1;
                }
                proof {
                    assert(rs0.take(rs0.len() as int) =~= rs0);
                }
                RenderPlan::Draw(cmds)
            }
        }
    }
}

} // verus!
