//! The engine: a player on a grid, the rule by which input moves the player,
//! the rays cast over the player's field of view, and the vertical lines that
//! those rays become on the screen.

use vstd::prelude::*;
use crate::cast::{
    cast, cast_spec, lemma_cast_bounds, lemma_cast_is_pure, lemma_distance_monotone_in_depth,
    max_steps, Ray,
};
use crate::fixed::{
    floor_to_units, floor_units, fmul, lemma_fmul_commutes, lemma_fmul_unit, multiply,
    multiply_wide, ONE, WIDE_LIMIT,
};
use crate::grid::{reference_cell, CellKind, Grid, REFERENCE_ROWS, REFERENCE_SIZE};
use crate::trig::{
    cos, cos_spec, lemma_cos_range, lemma_full_turn, lemma_sin_range, normalize, sin, sin_spec, PI,
    QUARTER_PI,
};

verus! {

/// The number of screen columns of the built-in configuration.
pub const SCREEN_WIDTH: usize = 200;

/// The far-plane depth of the built-in configuration: 16 cells.
pub const DEPTH: i64 = 16_000_000_000;

/// The field of view of the built-in configuration: an eighth of a turn.
pub const FOV: i64 = QUARTER_PI;

/// The speed of the built-in configuration: 5000 per second.
pub const SPEED: i64 = 5_000_000_000_000;

/// The distance between two probes of a ray in the built-in configuration:
/// a tenth of a cell.
pub const RAY_STEP: i64 = 100_000_000;

/// The part of the speed at which the player turns.
pub const THREE_QUARTERS: i64 = 750_000_000;

/// Where the player of the built-in world starts.
pub const START_X: i64 = 10_500_000_000;

/// Where the player of the built-in world starts.
pub const START_Y: i64 = 5_500_000_000;

/// The widest and the tallest grid on which every cell can be reached by a
/// stored coordinate.
pub const MAX_CELLS: u64 = 9_223_372_036;

/// The player: a position in cells and a facing angle in radians, all
/// fixed-point. The player faces in the direction `(sin angle, cos angle)`.
#[derive(Clone, Copy, Debug, PartialEq, Eq, Structural)]
pub struct Player {
    pub x: i64,
    pub y: i64,
    pub angle: i64,
}

/// What the engine is configured with.
#[derive(Clone, Copy, Debug, PartialEq, Eq, Structural)]
pub struct Config {
    /// The number of screen columns, and so of rays per frame.
    pub columns: usize,
    /// The distance of the far plane, beyond which a ray is a miss.
    pub depth: i64,
    /// The field of view in radians.
    pub fov: i64,
    /// The speed of movement per second; turning goes at three quarters of
    /// it, in radians per second.
    pub speed: i64,
    /// The distance between two probes of a ray.
    pub step: i64,
}

/// A line on the screen from `(x0, y0)` to `(x1, y1)`, in normalized device
/// coordinates: fixed-point numbers between minus one and one.
#[derive(Clone, Copy, Debug, PartialEq, Eq, Structural)]
pub struct Line {
    pub x0: i64,
    pub y0: i64,
    pub x1: i64,
    pub y1: i64,
}

/// A player on a grid, with the configuration of the view.
pub struct RayCaster {
    player: Player,
    config: Config,
    map: Grid,
}

/// The angle by which the player turns in the time `dt`: three quarters of
/// the speed, times `dt`.
pub open spec fn turn_amount(speed: int, dt: int) -> int {
    fmul(fmul(speed, THREE_QUARTERS as int), dt)
}

/// The angle after turning: `amount` to the left takes it away, `amount` to
/// the right adds it.
pub open spec fn turned(angle: int, rot_left: bool, rot_right: bool, amount: int) -> int {
    angle - (if rot_left {
        amount
    } else {
        0
    }) + (if rot_right {
        amount
    } else {
        0
    })
}

/// The distance moved along one axis in the time `dt`, where `dir` is the
/// sine or the cosine of the facing angle: `dir` times the speed, times `dt`.
pub open spec fn stride(dir: int, speed: int, dt: int) -> int {
    fmul(fmul(dir, speed), dt)
}

/// Where a try to move from `(x, y)` by `(dx, dy)` ends: at the new place if
/// that lies in an empty cell of the grid, else where it started.
pub open spec fn moved(grid: &Grid, x: int, y: int, dx: int, dy: int) -> (int, int) {
    if grid.is_blocking_spec(x + dx, y + dy) {
        (x, y)
    } else {
        (x + dx, y + dy)
    }
}

/// Whether the point `(x, y)` is a place where a player may stand: if it lies
/// on the grid, its cell is empty.
pub open spec fn stands_free(grid: &Grid, x: int, y: int) -> bool {
    grid.in_bounds(floor_units(x), floor_units(y)) ==> !grid.is_blocking_spec(x, y)
}

/// The angle of the ray through column `i` of `columns`: the rays fan out
/// over the field of view, from half of it to the left of the facing angle.
pub open spec fn column_angle(angle: int, fov: int, i: int, columns: int) -> int {
    angle - fov / 2 + (i * fov) / columns
}

/// The horizontal screen coordinate of column `i` of `columns`:
/// `2 * (i / columns) - 1`.
pub open spec fn screen_x(i: int, columns: int) -> int {
    (2 * i * ONE) / columns - ONE
}

/// Half the height of the line drawn for a ray of length `distance`:
/// `1 - distance / depth`, kept between zero and one.
pub open spec fn half_height(distance: int, depth: int) -> int {
    let h = ONE - (distance * ONE) / depth;
    if h < 0 {
        0
    } else if h > ONE {
        ONE as int
    } else {
        h
    }
}

/// The line drawn for column `i` and a ray of length `distance`: vertical,
/// and as far below the horizon as above it.
pub open spec fn projected(i: int, distance: int, columns: int, depth: int) -> (int, int, int, int) {
    (
        screen_x(i, columns),
        -half_height(distance, depth),
        screen_x(i, columns),
        half_height(distance, depth),
    )
}

/// The four coordinates of a line.
pub open spec fn line_coordinates(line: Line) -> (int, int, int, int) {
    (line.x0 as int, line.y0 as int, line.x1 as int, line.y1 as int)
}

/// Screen columns run from minus one up to, but not including, one.
pub proof fn lemma_screen_x_range(i: int, columns: int)
    requires
        0 <= i < columns,
    ensures
        -ONE <= screen_x(i, columns) < ONE,
{
    let one = ONE as int;
    let n = 2 * i * one;
    assert(0 <= n < 2 * one * columns) by (nonlinear_arith)
        requires
            0 <= i < columns,
            n == 2 * i * one,
            one > 0,
    ;
    assert(0 <= n / columns < 2 * one) by (nonlinear_arith)
        requires
            0 <= n < 2 * one * columns,
            0 < columns,
    ;
}

/// A ray that ends before the far plane is drawn with its true height.
pub proof fn lemma_half_height_exact(distance: int, depth: int)
    requires
        0 <= distance <= depth,
        0 < depth,
    ensures
        half_height(distance, depth) == ONE - (distance * ONE) / depth,
        0 <= half_height(distance, depth) <= ONE,
        distance == 0 ==> half_height(distance, depth) == ONE,
        distance == depth ==> half_height(distance, depth) == 0,
{
    let one = ONE as int;
    let n = distance * one;
    assert(0 <= n <= depth * one) by (nonlinear_arith)
        requires
            0 <= distance <= depth,
            n == distance * one,
            one > 0,
    ;
    assert(0 <= n / depth <= one) by (nonlinear_arith)
        requires
            0 <= n <= depth * one,
            0 < depth,
    ;
    if distance == 0 {
        assert(n == 0) by (nonlinear_arith)
            requires
                n == distance * one,
                distance == 0,
        ;
        assert(0int / depth == 0) by (nonlinear_arith)
            requires
                0 < depth,
        ;
    }
    if distance == depth {
        assert(n / depth == one) by (nonlinear_arith)
            requires
                n == depth * one,
                0 < depth,
        ;
    }
}

/// What the rays of a frame are depends on the player, the configuration and
/// the grid's size and cells alone: two engines that agree on these cast the
/// same ray through every column, with the same result.
pub proof fn lemma_ray_cast_is_pure(a: RayCaster, b: RayCaster, i: int)
    requires
        a.spec_player() == b.spec_player(),
        a.spec_config() == b.spec_config(),
        a.spec_map().spec_width() == b.spec_map().spec_width(),
        a.spec_map().spec_height() == b.spec_map().spec_height(),
        a.spec_map().spec_cells() == b.spec_map().spec_cells(),
    ensures
        a.column_ray(i) == b.column_ray(i),
        a.column_result(i) == b.column_result(i),
{
    lemma_cast_is_pure(
        &a.spec_map(),
        &b.spec_map(),
        a.column_ray(i),
        a.spec_config().depth as int,
        a.spec_config().step as int,
    );
}

/// The far plane never shortens a ray: of two engines that differ in the
/// depth of the far plane alone, the one with the deeper far plane sees, in
/// every column, a distance at least as large.
pub proof fn lemma_ray_cast_monotone_in_depth(near: RayCaster, far: RayCaster, i: int)
    requires
        near.spec_player() == far.spec_player(),
        near.spec_map() == far.spec_map(),
        near.spec_config().columns == far.spec_config().columns,
        near.spec_config().fov == far.spec_config().fov,
        near.spec_config().step == far.spec_config().step,
        0 < near.spec_config().step,
        0 < near.spec_config().depth <= far.spec_config().depth,
    ensures
        near.column_result(i).0 <= far.column_result(i).0,
{
    lemma_distance_monotone_in_depth(
        &near.spec_map(),
        near.column_ray(i),
        near.spec_config().depth as int,
        far.spec_config().depth as int,
        near.spec_config().step as int,
    );
}

impl Config {
    /// What every configuration must obey: at least one column, a far plane
    /// and a step beyond zero, a field of view of less than half a turn, a
    /// speed beyond zero, and a last probe whose distance can be stored.
    pub open spec fn wf(&self) -> bool {
        &&& self.columns >= 1
        &&& self.depth > 0
        &&& 0 < self.fov < PI
        &&& self.speed > 0
        &&& self.step > 0
        &&& self.depth - 1 + self.step <= i64::MAX
    }

    /// The built-in configuration.
    pub open spec fn reference_spec() -> Config {
        Config { columns: SCREEN_WIDTH, depth: DEPTH, fov: FOV, speed: SPEED, step: RAY_STEP }
    }

    /// The built-in configuration: 200 columns, a far plane at 16 cells, a
    /// field of view of an eighth of a turn, speed 5000, step 0.1.
    pub fn reference() -> (config: Config)
        ensures
            config == Config::reference_spec(),
            config.wf(),
    {
        Config { columns: SCREEN_WIDTH, depth: DEPTH, fov: FOV, speed: SPEED, step: RAY_STEP }
    }

    /// Whether this configuration obeys the rules.
    pub fn is_valid(&self) -> (valid: bool)
        ensures
            valid == self.wf(),
    {
        self.columns >= 1 && self.depth > 0 && 0 < self.fov && self.fov < PI && self.speed > 0
            && self.step > 0 && self.depth - 1 <= i64::MAX - self.step
    }
}

fn turn_amount_exec(speed: i64, dt: i64) -> (amount: i128)
    ensures
        amount == turn_amount(speed as int, dt as int),
        -WIDE_LIMIT <= amount <= WIDE_LIMIT,
{
    proof {
        let bound: int = if speed < 0 {
            -speed
        } else {
            speed as int
        };
        lemma_fmul_unit(THREE_QUARTERS as int, speed as int, bound);
        lemma_fmul_commutes(THREE_QUARTERS as int, speed as int);
    }
    multiply_wide(multiply(speed, THREE_QUARTERS), dt)
}

fn stride_exec(dir: i64, speed: i64, dt: i64) -> (moved_by: i128)
    requires
        -ONE <= dir <= ONE,
    ensures
        moved_by == stride(dir as int, speed as int, dt as int),
        -WIDE_LIMIT <= moved_by <= WIDE_LIMIT,
{
    proof {
        let bound: int = if speed < 0 {
            -speed
        } else {
            speed as int
        };
        lemma_fmul_unit(dir as int, speed as int, bound);
    }
    multiply_wide(multiply(dir, speed), dt)
}

impl RayCaster {
    /// The player.
    pub closed spec fn spec_player(&self) -> Player {
        self.player
    }

    /// The configuration.
    pub closed spec fn spec_config(&self) -> Config {
        self.config
    }

    /// The grid.
    pub closed spec fn spec_map(&self) -> Grid {
        self.map
    }

    /// The configuration obeys its rules, the grid is well formed and no
    /// larger than stored coordinates can span, and the player does not stand
    /// in a wall.
    pub open spec fn wf(&self) -> bool {
        &&& self.spec_config().wf()
        &&& self.spec_map().wf()
        &&& self.spec_map().spec_width() <= MAX_CELLS
        &&& self.spec_map().spec_height() <= MAX_CELLS
        &&& stands_free(&self.spec_map(), self.spec_player().x as int, self.spec_player().y as int)
    }

    /// The facing angle after one frame of input.
    pub open spec fn next_angle(&self, keys: Seq<bool>, dt: int) -> int {
        turned(
            self.spec_player().angle as int,
            keys[0],
            keys[1],
            turn_amount(self.spec_config().speed as int, dt),
        )
    }

    /// The position after one frame of input: first the move forwards, if
    /// asked for, then the move backwards, if asked for, each along the new
    /// facing angle, and each only if it ends in an empty cell of the grid.
    pub open spec fn next_position(&self, keys: Seq<bool>, dt: int) -> (int, int) {
        let angle = self.next_angle(keys, dt);
        let dx = stride(sin_spec(angle), self.spec_config().speed as int, dt);
        let dy = stride(cos_spec(angle), self.spec_config().speed as int, dt);
        let x = self.spec_player().x as int;
        let y = self.spec_player().y as int;
        let ahead = if keys[2] {
            moved(&self.spec_map(), x, y, dx, dy)
        } else {
            (x, y)
        };
        if keys[3] {
            moved(&self.spec_map(), ahead.0, ahead.1, -dx, -dy)
        } else {
            ahead
        }
    }

    /// The ray through screen column `i`.
    pub open spec fn column_ray(&self, i: int) -> Ray {
        let angle = column_angle(
            self.spec_player().angle as int,
            self.spec_config().fov as int,
            i,
            self.spec_config().columns as int,
        );
        Ray {
            x: self.spec_player().x,
            y: self.spec_player().y,
            eye_x: sin_spec(angle) as i64,
            eye_y: cos_spec(angle) as i64,
        }
    }

    /// The distance and the hit flag of the ray through screen column `i`.
    pub open spec fn column_result(&self, i: int) -> (int, bool) {
        cast_spec(
            &self.spec_map(),
            self.column_ray(i),
            self.spec_config().depth as int,
            self.spec_config().step as int,
        )
    }

    /// The built-in world: the built-in map and configuration, with the
    /// player at (10.5, 5.5), facing along the y axis.
    pub fn new() -> (caster: RayCaster)
        ensures
            caster.wf(),
            caster.spec_player() == (Player { x: START_X, y: START_Y, angle: 0 }),
            caster.spec_config() == Config::reference_spec(),
            caster.spec_map().spec_width() == REFERENCE_SIZE,
            caster.spec_map().spec_height() == REFERENCE_SIZE,
            forall|cx: int, cy: int|
                0 <= cx < REFERENCE_SIZE && 0 <= cy < REFERENCE_SIZE
                    ==> #[trigger] caster.spec_map().at_spec(cx, cy) == reference_cell(cx, cy),
    {
        let map = Grid::reference();
        proof {
            assert(floor_units(START_X as int) == 10);
            assert(floor_units(START_Y as int) == 5);
            assert(REFERENCE_ROWS[5] == 0b1000_0110_0000_0001u16);
            assert((0b1000_0110_0000_0001u16 >> 5u16) & 1 != 1) by (bit_vector);
            assert(map.at_spec(10, 5) == reference_cell(10, 5));
        }
        RayCaster {
            player: Player { x: START_X, y: START_Y, angle: 0 },
            config: Config::reference(),
            map,
        }
    }

    /// A world of one's own. `None` when the configuration breaks its rules,
    /// when the grid is wider or taller than `MAX_CELLS`, or when the player
    /// would stand in a wall.
    pub fn assemble(config: Config, map: Grid, player: Player) -> (made: Option<RayCaster>)
        requires
            map.wf(),
        ensures
            made is Some <==> {
                &&& config.wf()
                &&& map.spec_width() <= MAX_CELLS
                &&& map.spec_height() <= MAX_CELLS
                &&& stands_free(&map, player.x as int, player.y as int)
            },
            made matches Some(caster) ==> {
                &&& caster.wf()
                &&& caster.spec_player() == player
                &&& caster.spec_config() == config
                &&& caster.spec_map() == map
            },
    {
        if !config.is_valid() || map.width() as u64 > MAX_CELLS || map.height() as u64 > MAX_CELLS {
            return None;
        }
        let cx: i128 = floor_to_units(player.x as i128);
        let cy: i128 = floor_to_units(player.y as i128);
        if map.contains(cx, cy) && map.is_blocking(player.x as i128, player.y as i128) {
            return None;
        }
        Some(RayCaster { player, config, map })
    }

    /// The player.
    pub fn player(&self) -> (player: Player)
        ensures
            player == self.spec_player(),
    {
        self.player
    }

    /// The configuration.
    pub fn config(&self) -> (config: Config)
        ensures
            config == self.spec_config(),
    {
        self.config
    }

    /// The grid.
    pub fn map(&self) -> (map: &Grid)
        ensures
            *map == self.spec_map(),
    {
        &self.map
    }

    /// Whether one frame of input with these keys and this time step leaves
    /// the facing angle within what can be stored.
    pub fn turn_fits(&self, keys: &[bool], elapsed_time: i64) -> (fits: bool)
        requires
            keys@.len() >= 4,
        ensures
            fits == (i64::MIN <= self.next_angle(keys@, elapsed_time as int) <= i64::MAX),
    {
        let amount: i128 = turn_amount_exec(self.config.speed, elapsed_time);
        let mut angle: i128 = self.player.angle as i128;
        if keys[0] {
            angle = angle - amount;
        }
        if keys[1] {
            angle = angle + amount;
        }
        i64::MIN as i128 <= angle && angle <= i64::MAX as i128
    }

    /// Applies one frame of input. `keys` holds, in this order, turn left,
    /// turn right, forward, backward; `elapsed_time` is the length of the
    /// frame in seconds, fixed-point.
    ///
    /// The player first turns, then moves along the new facing angle. A move
    /// that would end in a wall or off the grid is left out without notice.
    pub fn handle_input(&mut self, keys: &[bool], elapsed_time: i64)
        requires
            old(self).wf(),
            keys@.len() >= 4,
            i64::MIN <= old(self).next_angle(keys@, elapsed_time as int) <= i64::MAX,
        ensures
            final(self).wf(),
            final(self).spec_config() == old(self).spec_config(),
            final(self).spec_map() == old(self).spec_map(),
            final(self).spec_player().angle == old(self).next_angle(keys@, elapsed_time as int),
            (final(self).spec_player().x as int, final(self).spec_player().y as int) == old(
                self,
            ).next_position(keys@, elapsed_time as int),
            (final(self).spec_player().x == old(self).spec_player().x && final(self).spec_player().y
                == old(self).spec_player().y) || (final(self).spec_map().in_bounds(
                floor_units(final(self).spec_player().x as int),
                floor_units(final(self).spec_player().y as int),
            ) && final(self).spec_map().at_spec(
                floor_units(final(self).spec_player().x as int),
                floor_units(final(self).spec_player().y as int),
            ) == CellKind::Empty),
    {
        let speed: i64 = self.config.speed;
        let amount: i128 = turn_amount_exec(speed, elapsed_time);
        let mut wide_angle: i128 = self.player.angle as i128;
        if keys[0] {
            wide_angle = wide_angle - amount;
        }
        if keys[1] {
            wide_angle = wide_angle + amount;
        }
        let angle: i64 = wide_angle as i64;
        self.player.angle = angle;

        let dx: i128 = stride_exec(sin(angle), speed, elapsed_time);
        let dy: i128 = stride_exec(cos(angle), speed, elapsed_time);

        if keys[2] {
            let new_x: i128 = self.player.x as i128 + dx;
            let new_y: i128 = self.player.y as i128 + dy;
            if self.is_valid_move(new_x, new_y) {
                self.player.x = new_x as i64;
                self.player.y = new_y as i64;
            }
        }
        if keys[3] {
            let new_x: i128 = self.player.x as i128 - dx;
            let new_y: i128 = self.player.y as i128 - dy;
            if self.is_valid_move(new_x, new_y) {
                self.player.x = new_x as i64;
                self.player.y = new_y as i64;
            }
        }
    }

    /// Whether the player may move to the point `(x, y)`: whether it lies in
    /// an empty cell of the grid.
    pub fn is_valid_move(&self, x: i128, y: i128) -> (valid: bool)
        requires
            self.spec_map().wf(),
        ensures
            valid == !self.spec_map().is_blocking_spec(x as int, y as int),
            valid ==> self.spec_map().in_bounds(floor_units(x as int), floor_units(y as int)),
    {
        !self.map.is_blocking(x, y)
    }

    /// The ray through screen column `column`.
    pub fn ray_through(&self, column: usize) -> (ray: Ray)
        requires
            self.wf(),
            column < self.spec_config().columns,
        ensures
            ray == self.column_ray(column as int),
            -ONE <= ray.eye_x <= ONE,
            -ONE <= ray.eye_y <= ONE,
    {
        let fov: i128 = self.config.fov as i128;
        let columns: i128 = self.config.columns as i128;
        proof {
            assert(0 <= (column as int) * (fov as int) <= 0x1_0000_0000_0000_0000 * 0x1_0000_0000)
                by (nonlinear_arith)
                requires
                    0 <= column <= 0x1_0000_0000_0000_0000,
                    0 <= fov <= 0x1_0000_0000,
            ;
            let spread = (column as int) * (fov as int);
            assert(0 <= spread / (columns as int) <= spread) by (nonlinear_arith)
                requires
                    0 <= spread,
                    1 <= columns,
            ;
        }
        let wide: i128 = self.player.angle as i128 - fov / 2 + (column as i128 * fov) / columns;
        let angle: i64 = normalize(wide);
        proof {
            lemma_full_turn(wide as int);
            lemma_sin_range(wide as int);
            lemma_cos_range(wide as int);
        }
        Ray { x: self.player.x, y: self.player.y, eye_x: sin(angle), eye_y: cos(angle) }
    }

    /// Casts one ray for each screen column, from the leftmost to the
    /// rightmost, and returns for each its distance and whether it hit.
    ///
    /// The result depends on the player, the grid and the configuration
    /// alone. Every distance is positive and less than one step beyond the
    /// far plane; where the far plane lies a whole number of steps away, no
    /// distance exceeds it, and a ray that misses ends exactly on it.
    pub fn ray_cast(&self) -> (ray_results: Vec<(i64, bool)>)
        requires
            self.wf(),
        ensures
            ray_results@.len() == self.spec_config().columns,
            forall|i: int|
                0 <= i < ray_results@.len() ==> (ray_results@[i].0 as int, ray_results@[i].1)
                    == #[trigger] self.column_result(i),
            forall|i: int|
                0 <= i < ray_results@.len() ==> 0 < (#[trigger] ray_results@[i]).0
                    < self.spec_config().depth + self.spec_config().step,
            forall|i: int|
                0 <= i < ray_results@.len() && !(#[trigger] ray_results@[i]).1
                    ==> self.spec_config().depth <= ray_results@[i].0 == max_steps(
                    self.spec_config().depth as int,
                    self.spec_config().step as int,
                ) * self.spec_config().step,
            self.spec_config().depth % self.spec_config().step == 0 ==> forall|i: int|
                0 <= i < ray_results@.len() ==> 0 < (#[trigger] ray_results@[i]).0
                    <= self.spec_config().depth,
            self.spec_config().depth % self.spec_config().step == 0 ==> forall|i: int|
                0 <= i < ray_results@.len() && !(#[trigger] ray_results@[i]).1 ==> ray_results@[i].0
                    == self.spec_config().depth,
    {
        let columns: usize = self.config.columns;
        let mut ray_results: Vec<(i64, bool)> = Vec::new();
        let mut column: usize = 0;
        while column < columns
            invariant
                self.wf(),
                columns == self.spec_config().columns,
                column <= columns,
                ray_results@.len() == column,
                forall|i: int|
                    0 <= i < column ==> (ray_results@[i].0 as int, ray_results@[i].1)
                        == #[trigger] self.column_result(i),
            decreases columns - column,
        {
            let ray = self.ray_through(column);
            let result = cast(&self.map, ray, self.config.depth, self.config.step);
            ray_results.push(result);
            column = column + 1;
        }
        proof {
            assert forall|i: int| 0 <= i < ray_results@.len() implies {
                &&& 0 < (#[trigger] ray_results@[i]).0 < self.spec_config().depth
                    + self.spec_config().step
                &&& !ray_results@[i].1 ==> self.spec_config().depth <= ray_results@[i].0
                    == max_steps(self.spec_config().depth as int, self.spec_config().step as int)
                    * self.spec_config().step
                &&& self.spec_config().depth % self.spec_config().step == 0 ==> ray_results@[i].0
                    <= self.spec_config().depth
                &&& self.spec_config().depth % self.spec_config().step == 0 && !ray_results@[i].1
                    ==> ray_results@[i].0 == self.spec_config().depth
            } by {
                assert((ray_results@[i].0 as int, ray_results@[i].1) == self.column_result(i));
                lemma_cast_bounds(
                    &self.spec_map(),
                    self.column_ray(i),
                    self.spec_config().depth as int,
                    self.spec_config().step as int,
                );
            }
        }
        ray_results
    }

    /// The line drawn for screen column `column` and a ray of length
    /// `distance`: vertical at `2 * (column / columns) - 1`, reaching
    /// `1 - distance / depth` below and above the horizon. A distance at or
    /// beyond the far plane gives a point on the horizon.
    pub fn project(&self, column: usize, distance: i64) -> (line: Line)
        requires
            self.wf(),
            column < self.spec_config().columns,
        ensures
            line_coordinates(line) == projected(
                column as int,
                distance as int,
                self.spec_config().columns as int,
                self.spec_config().depth as int,
            ),
            line.x0 == line.x1,
            line.y0 == -line.y1,
            -ONE <= line.x0 < ONE,
            0 <= line.y1 <= ONE,
            0 <= distance <= self.spec_config().depth ==> line.y1 == ONE - (distance * ONE)
                / (self.spec_config().depth as int),
    {
        let columns: i128 = self.config.columns as i128;
        let depth: i128 = self.config.depth as i128;
        proof {
            lemma_screen_x_range(column as int, columns as int);
            if 0 <= distance <= depth {
                lemma_half_height_exact(distance as int, depth as int);
            }
        }
        let x: i128 = (2 * (column as i128) * (ONE as i128)) / columns - ONE as i128;
        let half: i64 = if distance <= 0 {
            proof {
                let scaled = distance * ONE;
                assert(scaled / (depth as int) <= 0) by (nonlinear_arith)
                    requires
                        scaled <= 0,
                        0 < depth,
                ;
            }
            ONE
        } else {
            let scaled: i128 = distance as i128 * (ONE as i128);
            proof {
                assert(0 <= scaled / depth) by (nonlinear_arith)
                    requires
                        0 <= scaled,
                        0 < depth,
                ;
            }
            let h: i128 = ONE as i128 - scaled / depth;
            if h < 0 {
                0
            } else {
                h as i64
            }
        };
        Line { x0: x as i64, y0: -half, x1: x as i64, y1: half }
    }

    /// The lines of one frame: for each ray, in order, the line drawn for it
    /// in its column.
    pub fn render(&self, ray_results: &Vec<(i64, bool)>) -> (lines: Vec<Line>)
        requires
            self.wf(),
            ray_results@.len() <= self.spec_config().columns,
        ensures
            lines@.len() == ray_results@.len(),
            forall|i: int|
                0 <= i < lines@.len() ==> line_coordinates(#[trigger] lines@[i]) == projected(
                    i,
                    ray_results@[i].0 as int,
                    self.spec_config().columns as int,
                    self.spec_config().depth as int,
                ),
    {
        let mut lines: Vec<Line> = Vec::new();
        let mut column: usize = 0;
        while column < ray_results.len()
            invariant
                self.wf(),
                ray_results@.len() <= self.spec_config().columns,
                column <= ray_results@.len(),
                lines@.len() == column,
                forall|i: int|
                    0 <= i < column ==> line_coordinates(#[trigger] lines@[i]) == projected(
                        i,
                        ray_results@[i].0 as int,
                        self.spec_config().columns as int,
                        self.spec_config().depth as int,
                    ),
            decreases ray_results@.len() - column,
        {
            let line = self.project(column, ray_results[column].0);
            lines.push(line);
            column = column + 1;
        }
        lines
    }
}

} // verus!
