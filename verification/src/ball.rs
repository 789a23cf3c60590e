//! Balls: where they spawn, how they fly, and when they leave. Also the
//! steady spawner, which lets a fixed number of balls appear whenever its
//! timer completes.

use vstd::prelude::*;
use crate::motion::aim;
use crate::motion::aimed;
use crate::motion::axis_speed;
use crate::motion::axis_speed_of;
use crate::motion::fraction;
use crate::motion::in_range;
use crate::motion::integrate;
use crate::motion::lemma_aimed_within_speed;
use crate::motion::magnitude;
use crate::motion::moved;
use crate::motion::saturate;
use crate::motion::Velocity;
use crate::motion::FRACTION_SCALE;
use crate::player::Player;
use crate::random::Draw;
use crate::timer::Timer;
use crate::wall::is_out_of_wall;
use crate::wall::lemma_walk_stays_on_wall;
use crate::wall::Point;
use crate::wall::WallLocation;
use crate::wall::WallPlugin;

verus! {

/// The balls that the game's own steady spawner adds at a time.
pub const GEN_NUM_PER_TIME: u32 = 2;

/// The base speed of the game's own balls.
pub const BALL_BASE_SPEED: i32 = 150_000_000;

/// The fluctuation range of the speed of the game's own balls.
pub const BALL_FLUCTUATE_RANGE: u32 = 250_000_000;

/// The radius of the game's own balls.
pub const BALL_RADIUS: u32 = 3_000_000;

/// The period of the game's own steady spawner.
pub const SPAWN_PERIOD: u64 = 1_000_000_000;

/// A ball.
#[derive(Clone, Copy, Debug, PartialEq, Eq, Structural)]
pub struct Ball {
    pub pos: Point,
    pub velocity: Velocity,
    pub radius: u32,
}

/// The steady spawner's settings.
#[derive(Clone, Copy, Debug, PartialEq, Eq, Structural)]
pub struct EnemyPlugin {
    /// The balls that appear each time the timer completes.
    pub gen_num_per_time: u32,
    /// The speed about which a ball's speed along an axis fluctuates.
    pub base_speed: i32,
    /// The width of the range in which it fluctuates.
    pub fluctuate_range: u32,
    /// The radius of a ball.
    pub radius: u32,
    /// The timer's period, in nanoseconds.
    pub period: u64,
}

/// How far along a wall a ball appears: the fraction's share of the wall's
/// length, rounded down. It is less than the wall's length.
pub open spec fn spawn_distance(walls: WallPlugin, wall: WallLocation, along: u32) -> int {
    fraction(along) * walls.side(wall) / (FRACTION_SCALE as int)
}

/// Where on a wall a ball appears.
pub open spec fn spawn_point(walls: WallPlugin, wall: WallLocation, along: u32) -> (int, int) {
    wall.walk(walls, spawn_distance(walls, wall, along))
}

/// The ball that a draw gives: on the drawn wall, aimed at the target, with
/// a speed of its own along each axis.
pub open spec fn spawned(
    walls: WallPlugin,
    target: Point,
    base: i32,
    range: u32,
    radius: u32,
    draw: Draw,
) -> Ball {
    let from = spawn_point(walls, draw.wall, draw.along);
    let velocity = aimed(
        from,
        target@,
        axis_speed_of(base as int, range as int, draw.speed_x),
        axis_speed_of(base as int, range as int, draw.speed_y),
    );
    Ball {
        pos: Point { x: from.0 as i64, y: from.1 as i64 },
        velocity: Velocity { x: velocity.0 as i64, y: velocity.1 as i64 },
        radius,
    }
}

/// The ball after `elapsed` nanoseconds of flight.
pub open spec fn flown(ball: Ball, elapsed: u64) -> Ball {
    Ball {
        pos: Point {
            x: saturate(moved(ball.pos, ball.velocity, elapsed).0) as i64,
            y: saturate(moved(ball.pos, ball.velocity, elapsed).1) as i64,
        },
        velocity: ball.velocity,
        radius: ball.radius,
    }
}

/// The ball is inside the arena or on a wall.
pub open spec fn inside(walls: WallPlugin, ball: Ball) -> bool {
    walls.contains(ball.pos.x as int, ball.pos.y as int)
}

/// The balls that the draws give, in the draws' order.
pub open spec fn all_spawned(
    walls: WallPlugin,
    target: Point,
    base: i32,
    range: u32,
    radius: u32,
    draws: Seq<Draw>,
) -> Seq<Ball> {
    draws.map_values(|draw: Draw| spawned(walls, target, base, range, radius, draw))
}

/// The balls after `elapsed` nanoseconds of flight.
pub open spec fn all_flown(balls: Seq<Ball>, elapsed: u64) -> Seq<Ball> {
    balls.map_values(|ball: Ball| flown(ball, elapsed))
}

/// Those of the balls that are inside the arena or on a wall, in their
/// order.
pub open spec fn all_inside(balls: Seq<Ball>, walls: WallPlugin) -> Seq<Ball> {
    balls.filter(|ball: Ball| inside(walls, ball))
}

/// A spawn distance stays short of the wall's length.
pub proof fn lemma_spawn_distance(walls: WallPlugin, wall: WallLocation, along: u32)
    requires
        walls.wf(),
    ensures
        0 <= spawn_distance(walls, wall, along) < walls.side(wall),
{
    let f = fraction(along);
    let side = walls.side(wall);
    let scale = FRACTION_SCALE as int;
    assert(0 <= f * side / scale < side) by (nonlinear_arith)
        requires
            0 <= f < scale,
            0 < side,
            0 < scale,
    ;
}

/// Every ball that a draw gives lies on the wall that was drawn, which is
/// part of the arena's outline, and so inside or on the walls.
pub proof fn lemma_spawned_on_wall(
    walls: WallPlugin,
    target: Point,
    base: i32,
    range: u32,
    radius: u32,
    draw: Draw,
)
    requires
        walls.wf(),
    ensures
        walls.on_wall(
            draw.wall,
            spawned(walls, target, base, range, radius, draw).pos.x as int,
            spawned(walls, target, base, range, radius, draw).pos.y as int,
        ),
        walls.on_perimeter(
            spawned(walls, target, base, range, radius, draw).pos.x as int,
            spawned(walls, target, base, range, radius, draw).pos.y as int,
        ),
        inside(walls, spawned(walls, target, base, range, radius, draw)),
{
    lemma_spawn_distance(walls, draw.wall, draw.along);
    lemma_walk_stays_on_wall(walls, draw.wall, spawn_distance(walls, draw.wall, draw.along));
}

/// Every ball that a draw gives has, along each axis, a velocity no faster
/// than that axis' speed, which lies within half the fluctuation range of
/// the base speed; where no speed in that range is negative, the velocity
/// points towards the target.
pub proof fn lemma_spawned_speed(
    walls: WallPlugin,
    target: Point,
    base: i32,
    range: u32,
    radius: u32,
    draw: Draw,
)
    requires
        walls.wf(),
    ensures
        ({
            let ball = spawned(walls, target, base, range, radius, draw);
            let speed_x = axis_speed_of(base as int, range as int, draw.speed_x);
            let speed_y = axis_speed_of(base as int, range as int, draw.speed_y);
            &&& 2 * base - range <= 2 * speed_x <= 2 * base + range
            &&& 2 * base - range <= 2 * speed_y <= 2 * base + range
            &&& magnitude(ball.velocity.x as int) <= magnitude(speed_x)
            &&& magnitude(ball.velocity.y as int) <= magnitude(speed_y)
            &&& 2 * base >= range && target.x >= ball.pos.x ==> 0 <= 2 * ball.velocity.x <= 2 * base
                + range
            &&& 2 * base >= range && target.x <= ball.pos.x ==> 0 >= 2 * ball.velocity.x >= -(2
                * base + range)
            &&& 2 * base >= range && target.y >= ball.pos.y ==> 0 <= 2 * ball.velocity.y <= 2 * base
                + range
            &&& 2 * base >= range && target.y <= ball.pos.y ==> 0 >= 2 * ball.velocity.y >= -(2
                * base + range)
        }),
{
    lemma_spawn_distance(walls, draw.wall, draw.along);
    lemma_walk_stays_on_wall(walls, draw.wall, spawn_distance(walls, draw.wall, draw.along));
    let from = spawn_point(walls, draw.wall, draw.along);
    let speed_x = axis_speed_of(base as int, range as int, draw.speed_x);
    let speed_y = axis_speed_of(base as int, range as int, draw.speed_y);
    lemma_axis_speed_range(base, range, draw.speed_x);
    lemma_axis_speed_range(base, range, draw.speed_y);
    lemma_aimed_within_speed(from, target@, speed_x, speed_y);
    let ball = spawned(walls, target, base, range, radius, draw);
    let velocity = aimed(from, target@, speed_x, speed_y);
    assert(ball.pos.x == from.0 && ball.pos.y == from.1);
    assert(ball.velocity.x == velocity.0 && ball.velocity.y == velocity.1);
}

/// The speed along an axis lies within half the fluctuation range of the
/// base speed.
pub proof fn lemma_axis_speed_range(base: i32, range: u32, word: u32)
    ensures
        2 * base - range <= 2 * axis_speed_of(base as int, range as int, word) <= 2 * base + range,
{
    let numerator = FRACTION_SCALE / 2 - fraction(word);
    let scale = FRACTION_SCALE as int;
    let r = range as int;
    assert(numerator >= 0 ==> 0 <= 2 * ((numerator * r) / scale) <= r) by (nonlinear_arith)
        requires
            numerator <= 8_388_608,
            scale == 16_777_216,
            0 <= r,
    ;
    assert(numerator < 0 ==> 0 <= 2 * ((-(numerator * r)) / scale) <= r && numerator * r <= 0)
        by (nonlinear_arith)
        requires
            -8_388_608 <= numerator,
            scale == 16_777_216,
            0 <= r,
    ;
    assert(numerator >= 0 ==> numerator * r >= 0) by (nonlinear_arith)
        requires
            0 <= r,
    ;
    assert(numerator < 0 && numerator * r == 0 ==> 0int / scale == 0);
}

/// Culling keeps the balls that are inside the arena or on a wall, each of
/// them, and nothing else.
pub proof fn lemma_culling(balls: Seq<Ball>, walls: WallPlugin)
    ensures
        forall|k: int|
            0 <= k < all_inside(balls, walls).len() ==> inside(
                walls,
                #[trigger] all_inside(balls, walls)[k],
            ) && balls.contains(all_inside(balls, walls)[k]),
        forall|i: int|
            0 <= i < balls.len() && inside(walls, balls[i]) ==> all_inside(balls, walls).contains(
                #[trigger] balls[i],
            ),
        all_inside(balls, walls).len() <= balls.len(),
    decreases balls.len(),
{
    reveal(Seq::filter);
    let kept = all_inside(balls, walls);
    if balls.len() > 0 {
        let rest = balls.drop_last();
        let kept_rest = all_inside(rest, walls);
        lemma_culling(rest, walls);
        assert forall|k: int| 0 <= k < kept.len() implies inside(walls, #[trigger] kept[k])
            && balls.contains(kept[k]) by {
            if k < kept_rest.len() {
                assert(kept[k] == kept_rest[k]);
                let j = choose|j: int| 0 <= j < rest.len() && rest[j] == kept_rest[k];
                assert(balls[j] == kept[k]);
            } else {
                assert(kept[k] == balls.last());
                assert(balls[balls.len() - 1] == kept[k]);
            }
        }
        assert forall|i: int| 0 <= i < balls.len() && inside(walls, balls[i]) implies kept.contains(
            #[trigger] balls[i],
        ) by {
            if i == balls.len() - 1 {
                assert(kept[kept.len() - 1] == balls[i]);
            } else {
                assert(rest[i] == balls[i]);
                assert(kept_rest.contains(rest[i]));
                let j = choose|j: int| 0 <= j < kept_rest.len() && kept_rest[j] == rest[i];
                assert(kept[j] == balls[i]);
            }
        }
    }
}

/// A ball on one of the walls is not culled.
pub proof fn lemma_ball_on_wall_stays(balls: Seq<Ball>, walls: WallPlugin, i: int)
    requires
        0 <= i < balls.len(),
        walls.on_perimeter(balls[i].pos.x as int, balls[i].pos.y as int),
    ensures
        all_inside(balls, walls).contains(balls[i]),
{
    lemma_culling(balls, walls);
}

/// A ball that is inside the arena or on a wall after its flight has
/// flown as far as its velocity takes it: no coordinate stopped at the end
/// of its range.
pub proof fn lemma_flight_inside(ball: Ball, elapsed: u64, walls: WallPlugin)
    requires
        walls.wf(),
        inside(walls, flown(ball, elapsed)),
    ensures
        flown(ball, elapsed).pos@ == moved(ball.pos, ball.velocity, elapsed),
{
}

/// Where on the drawn wall a ball appears: as far along the wall as the
/// drawn fraction of the wall's length.
pub fn rand_spawn_pos(walls: &WallPlugin, wall: WallLocation, along: u32) -> (pos: Point)
    requires
        walls.wf(),
    ensures
        pos@ == spawn_point(*walls, wall, along),
        walls.on_wall(wall, pos.x as int, pos.y as int),
        walls.on_perimeter(pos.x as int, pos.y as int),
        in_range(pos),
{
    let side: i64 = walls.side_len(wall);
    let numerator: i64 = (along / 256) as i64;
    proof {
        lemma_spawn_distance(*walls, wall, along);
        assert(0 <= numerator * side <= 16_777_216 * (2 * 1_000_000_000_000_000_000))
            by (nonlinear_arith)
            requires
                0 <= numerator < 16_777_216,
                0 < side <= 2 * 1_000_000_000_000_000_000,
        ;
    }
    let distance: i128 = ((numerator as i128) * (side as i128)) / (FRACTION_SCALE as i128);
    proof {
        lemma_walk_stays_on_wall(*walls, wall, distance as int);
    }
    wall.go_on_wall(walls, distance as i64)
}

/// The velocity of a ball at `pos` that is aimed at the player: along each
/// axis the direction towards the player times that axis' own speed, which
/// the drawn word places in the fluctuation range about the base speed.
pub fn velocity_to_player(
    pos: Point,
    player_translation: Point,
    base: i32,
    range: u32,
    word_x: u32,
    word_y: u32,
) -> (velocity: Velocity)
    requires
        in_range(pos),
        in_range(player_translation),
    ensures
        velocity@ == aimed(
            pos@,
            player_translation@,
            axis_speed_of(base as int, range as int, word_x),
            axis_speed_of(base as int, range as int, word_y),
        ),
        magnitude(velocity.x as int) <= magnitude(axis_speed_of(base as int, range as int, word_x)),
        magnitude(velocity.y as int) <= magnitude(axis_speed_of(base as int, range as int, word_y)),
{
    let speed_x: i64 = axis_speed(base, range, word_x);
    let speed_y: i64 = axis_speed(base, range, word_y);
    aim(pos, player_translation, speed_x, speed_y)
}

/// The ball that a draw gives.
pub fn spawn_ball(
    walls: &WallPlugin,
    target: Point,
    base: i32,
    range: u32,
    radius: u32,
    draw: &Draw,
) -> (ball: Ball)
    requires
        walls.wf(),
        in_range(target),
    ensures
        ball == spawned(*walls, target, base, range, radius, *draw),
        walls.on_wall(draw.wall, ball.pos.x as int, ball.pos.y as int),
        walls.on_perimeter(ball.pos.x as int, ball.pos.y as int),
{
    let pos = rand_spawn_pos(walls, draw.wall, draw.along);
    let velocity = velocity_to_player(pos, target, base, range, draw.speed_x, draw.speed_y);
    Ball { pos, velocity, radius }
}

/// Adds the balls that the first `count` draws give, in the draws' order.
pub fn spawn_balls(
    balls: &mut Vec<Ball>,
    walls: &WallPlugin,
    target: Point,
    base: i32,
    range: u32,
    radius: u32,
    draws: &Vec<Draw>,
    count: usize,
)
    requires
        walls.wf(),
        in_range(target),
        count <= draws.len(),
    ensures
        final(balls)@ == old(balls)@ + all_spawned(
            *walls,
            target,
            base,
            range,
            radius,
            draws@.take(count as int),
        ),
{
    let mut i: usize = 0;
    assert(balls@ =~= old(balls)@ + all_spawned(
        *walls,
        target,
        base,
        range,
        radius,
        draws@.take(0),
    ));
    while i < count
        invariant
            i <= count <= draws.len(),
            walls.wf(),
            in_range(target),
            balls@ == old(balls)@ + all_spawned(
                *walls,
                target,
                base,
                range,
                radius,
                draws@.take(i as int),
            ),
        decreases count - i,
    {
        let ball = spawn_ball(walls, target, base, range, radius, &draws[i]);
        balls.push(ball);
        assert(all_spawned(*walls, target, base, range, radius, draws@.take(i + 1))
            =~= all_spawned(*walls, target, base, range, radius, draws@.take(i as int)).push(
            ball,
        ));
        assert(balls@ =~= old(balls)@ + all_spawned(
            *walls,
            target,
            base,
            range,
            radius,
            draws@.take(i + 1),
        ));
        i = i + 1;
    }
}

/// Adds `count` balls, each from a random draw of its own, and tells the
/// draws.
pub(crate) fn spawn_random(
    balls: &mut Vec<Ball>,
    walls: &WallPlugin,
    target: Point,
    base: i32,
    range: u32,
    radius: u32,
    count: u128,
) -> (drawn: Ghost<Seq<Draw>>)
    requires
        walls.wf(),
        in_range(target),
    ensures
        drawn@.len() == count,
        final(balls)@ == old(balls)@ + all_spawned(*walls, target, base, range, radius, drawn@),
{
    let ghost mut drawn: Seq<Draw> = Seq::empty();
    let mut i: u128 = 0;
    assert(balls@ =~= old(balls)@ + all_spawned(*walls, target, base, range, radius, drawn));
    while i < count
        invariant
            i <= count,
            walls.wf(),
            in_range(target),
            drawn.len() == i,
            balls@ == old(balls)@ + all_spawned(*walls, target, base, range, radius, drawn),
        decreases count - i,
    {
        let draw = Draw::random();
        let ball = spawn_ball(walls, target, base, range, radius, &draw);
        balls.push(ball);
        proof {
            let before = drawn;
            drawn = drawn.push(draw);
            assert(all_spawned(*walls, target, base, range, radius, drawn) =~= all_spawned(
                *walls,
                target,
                base,
                range,
                radius,
                before,
            ).push(ball));
            assert(balls@ =~= old(balls)@ + all_spawned(
                *walls,
                target,
                base,
                range,
                radius,
                drawn,
            ));
        }
        i = i + 1;
    }
    Ghost(drawn)
}

/// Lets every ball fly for `elapsed` nanoseconds.
pub fn apply_velocity(balls: &mut Vec<Ball>, elapsed: u64)
    ensures
        final(balls)@ == all_flown(old(balls)@, elapsed),
{
    let count: usize = balls.len();
    let mut i: usize = 0;
    while i < count
        invariant
            i <= count,
            balls.len() == count,
            old(balls).len() == count,
            forall|j: int| 0 <= j < i ==> balls@[j] == flown(old(balls)@[j], elapsed),
            forall|j: int| i <= j < count ==> balls@[j] == old(balls)@[j],
        decreases count - i,
    {
        let ball = balls[i];
        let pos = integrate(ball.pos, ball.velocity, elapsed);
        balls[i] = Ball { pos, velocity: ball.velocity, radius: ball.radius };
        i = i + 1;
    }
    assert(balls@ =~= all_flown(old(balls)@, elapsed));
}

/// Removes the balls that have left the arena. A ball on a wall stays.
pub fn despawn_if_out_of_wall(balls: &mut Vec<Ball>, walls: &WallPlugin)
    ensures
        final(balls)@ == all_inside(old(balls)@, *walls),
{
    let mut kept: Vec<Ball> = Vec::new();
    let count: usize = balls.len();
    let mut i: usize = 0;
    assert(all_inside(balls@.take(0), *walls) =~= Seq::<Ball>::empty()) by {
        reveal(Seq::filter);
    }
    while i < count
        invariant
            i <= count,
            balls.len() == count,
            balls@ == old(balls)@,
            kept@ == all_inside(balls@.take(i as int), *walls),
        decreases count - i,
    {
        let ball = balls[i];
        proof {
            reveal(Seq::filter);
            assert(balls@.take(i + 1).drop_last() =~= balls@.take(i as int));
            assert(balls@.take(i + 1).last() == ball);
        }
        if !is_out_of_wall(walls, ball.pos.x, ball.pos.y) {
            kept.push(ball);
        }
        i = i + 1;
    }
    assert(balls@.take(count as int) =~= balls@);
    *balls = kept;
}

/// Removes every ball.
pub fn despawn_enemy(balls: &mut Vec<Ball>)
    ensures
        final(balls)@ == Seq::<Ball>::empty(),
{
    balls.clear();
}

impl EnemyPlugin {
    /// The timer's period is not empty.
    pub open spec fn wf(self) -> bool {
        0 < self.period
    }

    /// The balls that appear when `elapsed` nanoseconds pass on the timer:
    /// the fixed number for each time that the period completes.
    pub open spec fn due(self, timer: Timer, elapsed: u64) -> int {
        timer.fires(elapsed) * self.gen_num_per_time
    }

    /// Tests the well-formedness of the settings.
    pub fn is_valid(&self) -> (ok: bool)
        ensures
            ok == self.wf(),
    {
        0 < self.period
    }

    /// The game's own steady spawner.
    pub fn standard() -> (settings: EnemyPlugin)
        ensures
            settings.wf(),
            settings == (EnemyPlugin {
                gen_num_per_time: GEN_NUM_PER_TIME,
                base_speed: BALL_BASE_SPEED,
                fluctuate_range: BALL_FLUCTUATE_RANGE,
                radius: BALL_RADIUS,
                period: SPAWN_PERIOD,
            }),
    {
        EnemyPlugin {
            gen_num_per_time: GEN_NUM_PER_TIME,
            base_speed: BALL_BASE_SPEED,
            fluctuate_range: BALL_FLUCTUATE_RANGE,
            radius: BALL_RADIUS,
            period: SPAWN_PERIOD,
        }
    }
}

/// Lets `elapsed` nanoseconds pass on the steady spawner's timer and tells
/// how many balls are due.
pub fn fire(settings: &EnemyPlugin, timer: &mut Timer, elapsed: u64) -> (count: u128)
    requires
        old(timer).wf(),
    ensures
        *final(timer) == old(timer).after(elapsed),
        count == settings.due(*old(timer), elapsed),
{
    let fired: u64 = timer.tick(elapsed);
    assert(0 <= fired * settings.gen_num_per_time <= 0xffff_ffff_ffff_ffff * 0xffff_ffff)
        by (nonlinear_arith)
        requires
            0 <= fired <= 0xffff_ffff_ffff_ffff,
            0 <= settings.gen_num_per_time <= 0xffff_ffff,
    ;
    (fired as u128) * (settings.gen_num_per_time as u128)
}

/// The steady spawner's tick: lets `elapsed` nanoseconds pass on its timer
/// and, for each time that the period completed, adds the fixed number of
/// balls, each aimed at the player. The balls take their draws from the
/// front of `draws`.
pub fn spawn_enemy(
    settings: &EnemyPlugin,
    timer: &mut Timer,
    balls: &mut Vec<Ball>,
    walls: &WallPlugin,
    player: &Player,
    elapsed: u64,
    draws: &Vec<Draw>,
)
    requires
        old(timer).wf(),
        walls.wf(),
        in_range(player.pos),
        settings.due(*old(timer), elapsed) <= draws.len(),
    ensures
        *final(timer) == old(timer).after(elapsed),
        final(balls)@ == old(balls)@ + all_spawned(
            *walls,
            player.pos,
            settings.base_speed,
            settings.fluctuate_range,
            settings.radius,
            draws@.take(settings.due(*old(timer), elapsed)),
        ),
{
    let count: u128 = fire(settings, timer, elapsed);
    spawn_balls(
        balls,
        walls,
        player.pos,
        settings.base_speed,
        settings.fluctuate_range,
        settings.radius,
        draws,
        count as usize,
    );
}

} // verus!
