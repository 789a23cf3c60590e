//! The spawn mode: idle, or one of the spawners at work. Also the burst
//! spawner, whose waves grow the longer it is at work.

use vstd::prelude::*;
use crate::ball::spawn_balls;
use crate::ball::all_spawned;
use crate::ball::Ball;
use crate::motion::in_range;
use crate::player::Player;
use crate::random::Draw;
use crate::timer::Timer;
use crate::wall::WallPlugin;

verus! {

/// The balls of a wave of the game's own burst spawner, before it grows.
pub const GEN_NUM_PER_TIME: u32 = 3;

/// The base speed of the balls of the game's own burst spawner.
pub const BALL_BASE_SPEED: i32 = 150_000_000;

/// The fluctuation range of their speed.
pub const BALL_FLUCTUATE_RANGE: u32 = 250_000_000;

/// Their radius.
pub const BALL_RADIUS: u32 = 3_000_000;

/// The time between two waves of the game's own burst spawner.
pub const COOL_DOWN: u64 = 1_000_000_000;

/// The time for which a spawner of the game's own stays at work.
pub const DURATION: u64 = 10_000_000_000;

/// A spawner.
#[derive(Clone, Copy, Debug, PartialEq, Eq, Structural)]
pub enum Spark {
    /// A fixed number of balls at a fixed pace.
    Steady,
    /// Waves of balls that grow while the spawner is at work.
    Bursting,
}

/// The spawn mode.
#[derive(Clone, Copy, Debug, PartialEq, Eq, Structural)]
pub enum SparkState {
    /// No spawner is at work; the next one is about to be picked.
    Idle,
    /// The given spawner is at work.
    Sparking(Spark),
}

/// The settings of the spawn mode and of the burst spawner.
#[derive(Clone, Copy, Debug, PartialEq, Eq, Structural)]
pub struct SparkPlugin {
    /// Whether the steady spawner is among those to pick from.
    pub steady: bool,
    /// Whether the burst spawner is among those to pick from.
    pub bursting: bool,
    /// The balls of a wave, before it grows.
    pub gen_num_per_time: u32,
    /// The speed about which a ball's speed along an axis fluctuates.
    pub base_speed: i32,
    /// The width of the range in which it fluctuates.
    pub fluctuate_range: u32,
    /// The radius of a ball.
    pub radius: u32,
    /// The time between two waves, in nanoseconds.
    pub cool_down: u64,
    /// The time for which a spawner stays at work, in nanoseconds.
    pub duration: u64,
}

impl Spark {
    /// All spawners.
    pub open spec fn all() -> Seq<Spark> {
        seq![Spark::Steady, Spark::Bursting]
    }

    /// All spawners.
    pub fn values() -> (sparks: Vec<Spark>)
        ensures
            sparks@ == Spark::all(),
    {
        let sparks = vec![Spark::Steady, Spark::Bursting];
        assert(sparks@ =~= Spark::all());
        sparks
    }
}

impl SparkPlugin {
    /// There is a spawner to pick, and no period is empty.
    pub open spec fn wf(self) -> bool {
        (self.steady || self.bursting) && 0 < self.cool_down && 0 < self.duration
    }

    /// The spawners to pick from, in the order of `Spark::all`.
    pub open spec fn declared(self) -> Seq<Spark> {
        self.declared_among(Spark::all().len() as int)
    }

    /// Those of the first `count` spawners that are to pick from.
    pub open spec fn declared_among(self, count: int) -> Seq<Spark> {
        (if self.steady && count >= 1 {
            seq![Spark::Steady]
        } else {
            Seq::<Spark>::empty()
        }) + (if self.bursting && count >= 2 {
            seq![Spark::Bursting]
        } else {
            Seq::<Spark>::empty()
        })
    }

    /// The spawner is among those to pick from.
    pub open spec fn offers(self, spark: Spark) -> bool {
        match spark {
            Spark::Steady => self.steady,
            Spark::Bursting => self.bursting,
        }
    }

    /// The balls of a wave: one more for every three whole seconds that the
    /// spawner has been at work.
    pub open spec fn wave(self, duration: Timer) -> int {
        self.gen_num_per_time + duration.seconds() / 3
    }

    /// The balls that appear when `elapsed` nanoseconds pass on the timer
    /// between the waves: one wave for each time that its period completes.
    pub open spec fn due(self, cool_down: Timer, duration: Timer, elapsed: u64) -> int {
        cool_down.fires(elapsed) * self.wave(duration)
    }

    /// Tests the well-formedness of the settings.
    pub fn is_valid(&self) -> (ok: bool)
        ensures
            ok == self.wf(),
    {
        (self.steady || self.bursting) && 0 < self.cool_down && 0 < self.duration
    }

    /// The game's own spawn mode: the burst spawner alone is picked.
    pub fn standard() -> (settings: SparkPlugin)
        ensures
            settings.wf(),
            settings == (SparkPlugin {
                steady: false,
                bursting: true,
                gen_num_per_time: GEN_NUM_PER_TIME,
                base_speed: BALL_BASE_SPEED,
                fluctuate_range: BALL_FLUCTUATE_RANGE,
                radius: BALL_RADIUS,
                cool_down: COOL_DOWN,
                duration: DURATION,
            }),
    {
        SparkPlugin {
            steady: false,
            bursting: true,
            gen_num_per_time: GEN_NUM_PER_TIME,
            base_speed: BALL_BASE_SPEED,
            fluctuate_range: BALL_FLUCTUATE_RANGE,
            radius: BALL_RADIUS,
            cool_down: COOL_DOWN,
            duration: DURATION,
        }
    }

    /// Whether the spawner is among those to pick from.
    pub fn has(&self, spark: Spark) -> (offered: bool)
        ensures
            offered == self.offers(spark),
    {
        match spark {
            Spark::Steady => self.steady,
            Spark::Bursting => self.bursting,
        }
    }

    /// The spawners to pick from, in the order of `Spark::values`.
    pub fn variants(&self) -> (sparks: Vec<Spark>)
        ensures
            sparks@ == self.declared(),
            self.wf() ==> sparks.len() > 0,
    {
        let all = Spark::values();
        let mut sparks: Vec<Spark> = Vec::new();
        let mut i: usize = 0;
        assert(sparks@ =~= self.declared_among(0));
        while i < all.len()
            invariant
                i <= all.len(),
                all@ == Spark::all(),
                sparks@ == self.declared_among(i as int),
            decreases all.len() - i,
        {
            let spark = all[i];
            if self.has(spark) {
                sparks.push(spark);
            }
            i = i + 1;
            assert(sparks@ =~= self.declared_among(i as int));
        }
        sparks
    }
}

/// Leaves the idle mode: asks for the spawner at the picked place among
/// those to pick from.
pub fn into_rand_spark(settings: &SparkPlugin, pick: usize, next_mode: &mut Option<SparkState>)
    requires
        pick < settings.declared().len(),
    ensures
        *final(next_mode) == Some(SparkState::Sparking(settings.declared()[pick as int])),
{
    let sparks = settings.variants();
    *next_mode = Some(SparkState::Sparking(sparks[pick]));
}

/// Lets `elapsed` nanoseconds pass on the timer between the burst
/// spawner's waves and tells how many balls are due.
pub fn fire(settings: &SparkPlugin, cool_down: &mut Timer, duration: &Timer, elapsed: u64) -> (count:
    u128)
    requires
        old(cool_down).wf(),
    ensures
        *final(cool_down) == old(cool_down).after(elapsed),
        count == settings.due(*old(cool_down), *duration, elapsed),
{
    let fired: u64 = cool_down.tick(elapsed);
    let grown: u64 = duration.elapsed_secs() / 3;
    let wave: u64 = (settings.gen_num_per_time as u64) + grown;
    assert(0 <= fired * wave <= 0xffff_ffff_ffff_ffff * 0xffff_ffff_ffff_ffff) by (nonlinear_arith)
        requires
            0 <= fired <= 0xffff_ffff_ffff_ffff,
            0 <= wave <= 0xffff_ffff_ffff_ffff,
    ;
    (fired as u128) * (wave as u128)
}

/// The burst spawner's tick: lets `elapsed` nanoseconds pass on the timer
/// between the waves and, for each time that its period completed, adds a
/// wave of balls, each aimed at the player. The wave's size goes by the
/// time for which the spawner has been at work as the tick begins. The balls
/// take their draws from the front of `draws`.
pub fn spark(
    settings: &SparkPlugin,
    cool_down: &mut Timer,
    duration: &Timer,
    balls: &mut Vec<Ball>,
    walls: &WallPlugin,
    player: &Player,
    elapsed: u64,
    draws: &Vec<Draw>,
)
    requires
        old(cool_down).wf(),
        walls.wf(),
        in_range(player.pos),
        settings.due(*old(cool_down), *duration, elapsed) <= draws.len(),
    ensures
        *final(cool_down) == old(cool_down).after(elapsed),
        final(balls)@ == old(balls)@ + all_spawned(
            *walls,
            player.pos,
            settings.base_speed,
            settings.fluctuate_range,
            settings.radius,
            draws@.take(settings.due(*old(cool_down), *duration, elapsed)),
        ),
{
    let count: u128 = fire(settings, cool_down, duration, elapsed);
    spawn_balls(
        balls,
        walls,
        player.pos,
        settings.base_speed,
        settings.fluctuate_range,
        settings.radius,
        draws,
        count as usize,
    );
}

/// Lets `elapsed` nanoseconds pass on the timer that bounds a spawner's
/// work and asks for the idle mode where its period completed.
pub fn end(duration: &mut Timer, elapsed: u64, next_mode: &mut Option<SparkState>)
    requires
        old(duration).wf(),
    ensures
        *final(duration) == old(duration).after(elapsed),
        *final(next_mode) == if old(duration).fires(elapsed) > 0 {
            Some(SparkState::Idle)
        } else {
            *old(next_mode)
        },
{
    let fired: u64 = duration.tick(elapsed);
    if fired > 0 {
        *next_mode = Some(SparkState::Idle);
    }
}

} // verus!
