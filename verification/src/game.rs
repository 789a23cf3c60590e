//! The world and its tick: the spawners, the flight of the balls, the
//! player's moves, culling, collisions and the changes of state, in that
//! order.

use vstd::prelude::*;
use crate::ball::apply_velocity;
use crate::ball::despawn_enemy;
use crate::ball::despawn_if_out_of_wall;
use crate::ball::all_flown;
use crate::ball::all_inside;
use crate::ball::all_spawned;
use crate::ball::inside;
use crate::ball::lemma_culling;
use crate::ball::lemma_spawned_on_wall;
use crate::ball::lemma_spawned_speed;
use crate::motion::magnitude;
use crate::ball::spawn_enemy;
use crate::ball::spawn_random;
use crate::ball::Ball;
use crate::ball::EnemyPlugin;
use crate::player::has_room;
use crate::player::move_player;
use crate::player::room_for;
use crate::player::despawn_player;
use crate::player::spawn_player;
use crate::player::Intent;
use crate::player::Player;
use crate::player::PlayerPlugin;
use crate::random::pick_index;
use crate::random::Draw;
use crate::spark::end;
use crate::spark::into_rand_spark;
use crate::spark::spark;
use crate::spark::Spark;
use crate::spark::SparkPlugin;
use crate::spark::SparkState;
use crate::state::any_touch;
use crate::state::handle_continue_input;
use crate::state::pause_if_collision;
use crate::state::GameState;
use crate::state::StatePlugin;
use crate::timer::Timer;
use crate::ui::reset_ui;
use crate::ui::update_ui;
use crate::ball::SPAWN_PERIOD;
use crate::player::PLAYER_RADIUS;
use crate::player::PLAYER_SPEED;
use crate::spark::COOL_DOWN;
use crate::spark::DURATION;
use crate::wall::WallPlugin;
use crate::wall::BOTTOM_WALL_POS;
use crate::wall::LEFT_WALL_POS;
use crate::wall::RIGHT_WALL_POS;
use crate::wall::TOP_WALL_POS;
use crate::wall::WALL_THICKNESS;

verus! {

/// The settings of a game.
#[derive(Clone, Copy, Debug, PartialEq, Eq, Structural)]
pub struct GamePlugin {
    pub wall: WallPlugin,
    pub player: PlayerPlugin,
    pub enemy: EnemyPlugin,
    pub spark: SparkPlugin,
    pub state: StatePlugin,
}

/// What a tick takes from outside: the time that has passed since the last
/// tick, the directions held down, and the signal to go on.
#[derive(Clone, Copy, Debug, PartialEq, Eq, Structural)]
pub struct Input {
    pub elapsed: u64,
    pub intent: Intent,
    pub go_on: bool,
}

/// The world: all that a tick reads and changes.
#[derive(Clone, Debug, PartialEq, Eq)]
pub struct World {
    pub settings: GamePlugin,
    pub state: GameState,
    /// The state that has been asked for; the tick's end makes it the state.
    pub next_state: Option<GameState>,
    pub mode: SparkState,
    /// The spawn mode that has been asked for; the tick's end makes it the
    /// spawn mode.
    pub next_mode: Option<SparkState>,
    pub player: Option<Player>,
    pub balls: Vec<Ball>,
    /// The steady spawner's timer.
    pub spawn_timer: Timer,
    /// The timer between the burst spawner's waves.
    pub cool_down: Timer,
    /// The timer that bounds a spawner's work.
    pub duration: Timer,
    /// The nanoseconds that the round has lasted.
    pub round: u64,
}

/// The world as a value.
pub struct WorldView {
    pub settings: GamePlugin,
    pub state: GameState,
    pub next_state: Option<GameState>,
    pub mode: SparkState,
    pub next_mode: Option<SparkState>,
    pub player: Option<Player>,
    pub balls: Seq<Ball>,
    pub spawn_timer: Timer,
    pub cool_down: Timer,
    pub duration: Timer,
    pub round: u64,
}

impl View for World {
    type V = WorldView;

    /// The world with its balls as a sequence.
    open spec fn view(&self) -> WorldView {
        WorldView {
            settings: self.settings,
            state: self.state,
            next_state: self.next_state,
            mode: self.mode,
            next_mode: self.next_mode,
            player: self.player,
            balls: self.balls@,
            spawn_timer: self.spawn_timer,
            cool_down: self.cool_down,
            duration: self.duration,
            round: self.round,
        }
    }
}

impl GamePlugin {
    /// Each part is well-formed and the arena has room for the player.
    pub open spec fn wf(self) -> bool {
        &&& self.wall.wf()
        &&& has_room(self.wall, self.player.radius)
        &&& self.enemy.wf()
        &&& self.spark.wf()
        &&& self.state.wf()
    }

    /// Tests the well-formedness of the settings.
    pub fn is_valid(&self) -> (ok: bool)
        ensures
            ok == self.wf(),
    {
        self.wall.is_valid() && room_for(&self.wall, self.player.radius) && self.enemy.is_valid()
            && self.spark.is_valid() && self.state.is_valid()
    }

    /// The game's own settings: a square arena of 400 units with walls that
    /// are one unit thick; a player of radius 5 and speed 300; balls of
    /// radius 3 whose speed fluctuates by 250 about 150; two balls a second
    /// from the steady spawner; waves of three balls and more, a second
    /// apart, from the burst spawner, which alone is picked and works for
    /// ten seconds at a time; a collision pauses the game.
    pub fn standard() -> (settings: GamePlugin)
        ensures
            settings.wf(),
            settings.wall == (WallPlugin {
                left: LEFT_WALL_POS,
                right: RIGHT_WALL_POS,
                bottom: BOTTOM_WALL_POS,
                top: TOP_WALL_POS,
                thickness: WALL_THICKNESS,
            }),
            settings.player == (PlayerPlugin { radius: PLAYER_RADIUS, speed: PLAYER_SPEED }),
            settings.enemy == (EnemyPlugin {
                gen_num_per_time: crate::ball::GEN_NUM_PER_TIME,
                base_speed: crate::ball::BALL_BASE_SPEED,
                fluctuate_range: crate::ball::BALL_FLUCTUATE_RANGE,
                radius: crate::ball::BALL_RADIUS,
                period: SPAWN_PERIOD,
            }),
            settings.spark == (SparkPlugin {
                steady: false,
                bursting: true,
                gen_num_per_time: crate::spark::GEN_NUM_PER_TIME,
                base_speed: crate::spark::BALL_BASE_SPEED,
                fluctuate_range: crate::spark::BALL_FLUCTUATE_RANGE,
                radius: crate::spark::BALL_RADIUS,
                cool_down: COOL_DOWN,
                duration: DURATION,
            }),
            settings.state == (StatePlugin { on_collision: GameState::Paused }),
    {
        GamePlugin {
            wall: WallPlugin::standard(),
            player: PlayerPlugin::standard(),
            enemy: EnemyPlugin::standard(),
            spark: SparkPlugin::standard(),
            state: StatePlugin::standard(),
        }
    }
}

impl WorldView {
    /// The settings and the timers are well-formed, a round that is under
    /// way has a player, and the player does not reach over a wall.
    pub open spec fn wf(self) -> bool {
        &&& self.settings.wf()
        &&& self.spawn_timer.wf()
        &&& self.cool_down.wf()
        &&& self.duration.wf()
        &&& self.state == GameState::Running ==> self.player is Some
        &&& self.player matches Some(player) ==> player.within(self.settings.wall)
    }

    /// A spawner is at work.
    pub open spec fn sparking(self) -> bool {
        self.state == GameState::Running && self.mode is Sparking
    }

    /// The next spawner is about to be picked: a round is under way in the
    /// idle mode.
    pub open spec fn picking(self) -> bool {
        self.state == GameState::Running && self.mode is Idle
    }

    /// The balls that appear in a tick of `elapsed` nanoseconds.
    pub open spec fn due(self, elapsed: u64) -> int {
        if self.state == GameState::Running {
            match self.mode {
                SparkState::Idle => 0,
                SparkState::Sparking(Spark::Steady) => self.settings.enemy.due(
                    self.spawn_timer,
                    elapsed,
                ),
                SparkState::Sparking(Spark::Bursting) => self.settings.spark.due(
                    self.cool_down,
                    self.duration,
                    elapsed,
                ),
            }
        } else {
            0
        }
    }

    /// The world with the given state asked for. A later request takes the
    /// place of an earlier one.
    pub open spec fn asked(self, state: GameState) -> WorldView {
        WorldView { next_state: Some(state), ..self }
    }

    /// The balls that the draws give to the spawner that is at work: as
    /// many as are due, from the front of the draws.
    pub open spec fn newcomers(self, elapsed: u64, draws: Seq<Draw>) -> Seq<Ball> {
        match self.mode {
            SparkState::Idle => Seq::<Ball>::empty(),
            SparkState::Sparking(Spark::Steady) => all_spawned(
                self.settings.wall,
                self.player.unwrap().pos,
                self.settings.enemy.base_speed,
                self.settings.enemy.fluctuate_range,
                self.settings.enemy.radius,
                draws.take(self.due(elapsed)),
            ),
            SparkState::Sparking(Spark::Bursting) => all_spawned(
                self.settings.wall,
                self.player.unwrap().pos,
                self.settings.spark.base_speed,
                self.settings.spark.fluctuate_range,
                self.settings.spark.radius,
                draws.take(self.due(elapsed)),
            ),
        }
    }

    /// The spawn stage of a round's tick. In the idle mode the spawner at
    /// the picked place is asked for. Else the spawner at work lets the time
    /// pass on its timer and adds the balls that are due, aimed at where the
    /// player is as the tick begins.
    pub open spec fn spawned(self, elapsed: u64, draws: Seq<Draw>, pick: int) -> WorldView {
        match self.mode {
            SparkState::Idle => WorldView {
                next_mode: Some(SparkState::Sparking(self.settings.spark.declared()[pick])),
                ..self
            },
            SparkState::Sparking(Spark::Steady) => WorldView {
                spawn_timer: self.spawn_timer.after(elapsed),
                balls: self.balls + self.newcomers(elapsed, draws),
                ..self
            },
            SparkState::Sparking(Spark::Bursting) => WorldView {
                cool_down: self.cool_down.after(elapsed),
                balls: self.balls + self.newcomers(elapsed, draws),
                ..self
            },
        }
    }

    /// The motion stage: while a spawner is at work every ball flies, those
    /// of this tick too; the player moves by the directions held down.
    pub open spec fn moved(self, input: Input) -> WorldView {
        WorldView {
            balls: if self.mode is Sparking {
                all_flown(self.balls, input.elapsed)
            } else {
                self.balls
            },
            player: Some(self.player.unwrap().moved(input.intent, input.elapsed, self.settings.wall)),
            ..self
        }
    }

    /// The culling stage: while a spawner is at work the balls that have
    /// left the arena are removed.
    pub open spec fn culled(self) -> WorldView {
        WorldView {
            balls: if self.mode is Sparking {
                all_inside(self.balls, self.settings.wall)
            } else {
                self.balls
            },
            ..self
        }
    }

    /// The collision stage: while a spawner is at work, a ball that touches
    /// the player has the state asked for to which a collision leads.
    pub open spec fn judged(self) -> WorldView {
        if self.mode is Sparking && any_touch(self.player.unwrap(), self.balls) {
            self.asked(self.settings.state.on_collision)
        } else {
            self
        }
    }

    /// The last stage of a spawner's work: the time passes on the timer
    /// that bounds it, and where that timer's period completed the idle mode
    /// is asked for.
    pub open spec fn ended(self, elapsed: u64) -> WorldView {
        if self.mode is Sparking {
            WorldView {
                duration: self.duration.after(elapsed),
                next_mode: if self.duration.fires(elapsed) > 0 {
                    Some(SparkState::Idle)
                } else {
                    self.next_mode
                },
                ..self
            }
        } else {
            self
        }
    }

    /// The round's clock goes on by the tick's time.
    pub open spec fn clocked(self, elapsed: u64) -> WorldView {
        WorldView {
            round: if self.round + elapsed > u64::MAX {
                u64::MAX
            } else {
                (self.round + elapsed) as u64
            },
            ..self
        }
    }

    /// Outside a round, the signal to go on asks for a round.
    pub open spec fn continued(self, go_on: bool) -> WorldView {
        if go_on {
            self.asked(GameState::Running)
        } else {
            self
        }
    }

    /// A round begins as the tick ends: a round was asked for and none is
    /// under way.
    pub open spec fn entering(self) -> bool {
        self.next_state == Some(GameState::Running) && self.state != GameState::Running
    }

    /// The tick's end: what was asked for becomes the state and the spawn
    /// mode, and nothing is asked for any more. Where a round begins, the
    /// player is put afresh into the middle of the arena, every ball is
    /// removed and the round's clock starts over.
    pub open spec fn settled(self) -> WorldView {
        WorldView {
            state: match self.next_state {
                Some(state) => state,
                None => self.state,
            },
            next_state: None,
            mode: match self.next_mode {
                Some(mode) => mode,
                None => self.mode,
            },
            next_mode: None,
            player: if self.entering() {
                Some(self.settings.player.fresh(self.settings.wall))
            } else {
                self.player
            },
            balls: if self.entering() {
                Seq::<Ball>::empty()
            } else {
                self.balls
            },
            round: if self.entering() {
                0
            } else {
                self.round
            },
            ..self
        }
    }

    /// A tick's stages after the spawn stage, for a round that is under
    /// way.
    pub open spec fn finished(self, input: Input) -> WorldView {
        self.moved(input).culled().judged().ended(input.elapsed).clocked(input.elapsed).settled()
    }

    /// The world after a tick. While a round is under way the stages run in
    /// their order; else only the signal to go on is heard.
    pub open spec fn next(self, input: Input, draws: Seq<Draw>, pick: int) -> WorldView {
        if self.state == GameState::Running {
            self.spawned(input.elapsed, draws, pick).finished(input)
        } else {
            self.continued(input.go_on).settled()
        }
    }
}

impl World {
    /// The world is well-formed.
    pub open spec fn wf(self) -> bool {
        self@.wf()
    }

    /// The world before the first round: in the menu, idle and empty.
    pub fn new(settings: GamePlugin) -> (world: World)
        requires
            settings.wf(),
        ensures
            world.wf(),
            world@ == (WorldView {
                settings,
                state: GameState::Menu,
                next_state: None,
                mode: SparkState::Idle,
                next_mode: None,
                player: None,
                balls: Seq::<Ball>::empty(),
                spawn_timer: Timer { elapsed: 0, period: settings.enemy.period, times_finished: 0 },
                cool_down: Timer { elapsed: 0, period: settings.spark.cool_down, times_finished: 0 },
                duration: Timer { elapsed: 0, period: settings.spark.duration, times_finished: 0 },
                round: 0,
            }),
    {
        World {
            settings,
            state: GameState::Menu,
            next_state: None,
            mode: SparkState::Idle,
            next_mode: None,
            player: None,
            balls: Vec::new(),
            spawn_timer: Timer::new(settings.enemy.period),
            cool_down: Timer::new(settings.spark.cool_down),
            duration: Timer::new(settings.spark.duration),
            round: 0,
        }
    }

    /// Tests the world's well-formedness.
    pub fn is_valid(&self) -> (ok: bool)
        ensures
            ok == self.wf(),
    {
        let player_ok: bool = match self.player {
            Some(player) => {
                let radius: i128 = player.radius as i128;
                (self.settings.wall.left as i128) + radius <= (player.pos.x as i128) && (
                player.pos.x as i128) <= (self.settings.wall.right as i128) - radius && (
                self.settings.wall.bottom as i128) + radius <= (player.pos.y as i128) && (
                player.pos.y as i128) <= (self.settings.wall.top as i128) - radius
            },
            None => !matches!(self.state, GameState::Running),
        };
        self.settings.is_valid() && self.spawn_timer.is_valid() && self.cool_down.is_valid()
            && self.duration.is_valid() && player_ok
    }

    /// Asks for the given state. The tick's end makes it the state.
    pub fn request_state(&mut self, state: GameState)
        ensures
            final(self)@ == old(self)@.asked(state),
    {
        self.next_state = Some(state);
    }

    /// The balls that appear in a tick of `elapsed` nanoseconds.
    pub fn due_now(&self, elapsed: u64) -> (count: u128)
        requires
            self.wf(),
        ensures
            count == self@.due(elapsed),
    {
        match self.state {
            GameState::Running => match self.mode {
                SparkState::Idle => 0,
                SparkState::Sparking(Spark::Steady) => {
                    let mut timer = self.spawn_timer;
                    crate::ball::fire(&self.settings.enemy, &mut timer, elapsed)
                },
                SparkState::Sparking(Spark::Bursting) => {
                    let mut timer = self.cool_down;
                    crate::spark::fire(&self.settings.spark, &mut timer, &self.duration, elapsed)
                },
            },
            _ => 0,
        }
    }

    /// The spawn stage of a round's tick, with the draws and the pick
    /// given.
    fn spawn_stage(&mut self, elapsed: u64, draws: &Vec<Draw>, pick: usize)
        requires
            old(self).wf(),
            old(self).state == GameState::Running,
            old(self)@.due(elapsed) <= draws.len(),
            old(self).mode is Idle ==> pick < old(self).settings.spark.declared().len(),
        ensures
            final(self)@ == old(self)@.spawned(elapsed, draws@, pick as int),
            final(self).wf(),
            final(self).state == GameState::Running,
    {
        let settings = self.settings;
        match self.mode {
            SparkState::Idle => {
                into_rand_spark(&settings.spark, pick, &mut self.next_mode);
            },
            SparkState::Sparking(Spark::Steady) => {
                let player = self.player.unwrap();
                spawn_enemy(
                    &settings.enemy,
                    &mut self.spawn_timer,
                    &mut self.balls,
                    &settings.wall,
                    &player,
                    elapsed,
                    draws,
                );
            },
            SparkState::Sparking(Spark::Bursting) => {
                let player = self.player.unwrap();
                let duration = self.duration;
                spark(
                    &settings.spark,
                    &mut self.cool_down,
                    &duration,
                    &mut self.balls,
                    &settings.wall,
                    &player,
                    elapsed,
                    draws,
                );
            },
        }
    }

    /// The spawn stage of a round's tick, with the draws and the pick left
    /// to chance. Tells what was drawn and picked.
    fn spawn_stage_at_random(&mut self, elapsed: u64) -> (chance: Ghost<(Seq<Draw>, int)>)
        requires
            old(self).wf(),
            old(self).state == GameState::Running,
        ensures
            chance@.0.len() == old(self)@.due(elapsed),
            0 <= chance@.1 < old(self).settings.spark.declared().len(),
            final(self)@ == old(self)@.spawned(elapsed, chance@.0, chance@.1),
            final(self).wf(),
            final(self).state == GameState::Running,
    {
        let settings = self.settings;
        match self.mode {
            SparkState::Idle => {
                let sparks = settings.spark.variants();
                let pick: usize = pick_index(sparks.len()).unwrap();
                into_rand_spark(&settings.spark, pick, &mut self.next_mode);
                Ghost((Seq::<Draw>::empty(), pick as int))
            },
            SparkState::Sparking(Spark::Steady) => {
                let player = self.player.unwrap();
                let count: u128 = crate::ball::fire(&settings.enemy, &mut self.spawn_timer, elapsed);
                let drawn = spawn_random(
                    &mut self.balls,
                    &settings.wall,
                    player.pos,
                    settings.enemy.base_speed,
                    settings.enemy.fluctuate_range,
                    settings.enemy.radius,
                    count,
                );
                assert(drawn@.take(drawn@.len() as int) =~= drawn@);
                Ghost((drawn@, 0))
            },
            SparkState::Sparking(Spark::Bursting) => {
                let player = self.player.unwrap();
                let duration = self.duration;
                let count: u128 = crate::spark::fire(
                    &settings.spark,
                    &mut self.cool_down,
                    &duration,
                    elapsed,
                );
                let drawn = spawn_random(
                    &mut self.balls,
                    &settings.wall,
                    player.pos,
                    settings.spark.base_speed,
                    settings.spark.fluctuate_range,
                    settings.spark.radius,
                    count,
                );
                assert(drawn@.take(drawn@.len() as int) =~= drawn@);
                Ghost((drawn@, 0))
            },
        }
    }

    /// The tick's end: what was asked for becomes the state and the spawn
    /// mode; where a round begins, the world is made ready for it.
    pub fn apply_transitions(&mut self)
        requires
            old(self).wf(),
        ensures
            final(self)@ == old(self)@.settled(),
            final(self).wf(),
    {
        let settings = self.settings;
        let entering: bool = match (self.next_state, self.state) {
            (Some(GameState::Running), GameState::Running) => false,
            (Some(GameState::Running), _) => true,
            _ => false,
        };
        match self.next_state {
            Some(state) => {
                self.state = state;
            },
            None => {},
        }
        self.next_state = None;
        match self.next_mode {
            Some(mode) => {
                self.mode = mode;
            },
            None => {},
        }
        self.next_mode = None;
        if entering {
            despawn_player(&mut self.player);
            self.player = Some(spawn_player(&settings.player, &settings.wall));
            despawn_enemy(&mut self.balls);
            reset_ui(&mut self.round);
        }
    }

    /// A tick's stages after the spawn stage, for a round that is under
    /// way.
    fn finish_tick(&mut self, input: &Input)
        requires
            old(self).wf(),
            old(self).state == GameState::Running,
        ensures
            final(self)@ == old(self)@.finished(*input),
            final(self).wf(),
    {
        let settings = self.settings;
        let sparking: bool = match self.mode {
            SparkState::Sparking(_) => true,
            SparkState::Idle => false,
        };
        if sparking {
            apply_velocity(&mut self.balls, input.elapsed);
        }
        let mut player = self.player.unwrap();
        move_player(&mut player, &input.intent, input.elapsed, &settings.wall);
        self.player = Some(player);
        assert(self@ == old(self)@.moved(*input));
        if sparking {
            despawn_if_out_of_wall(&mut self.balls, &settings.wall);
        }
        assert(self@ == old(self)@.moved(*input).culled());
        if sparking {
            pause_if_collision(
                &player,
                &self.balls,
                settings.state.on_collision,
                &mut self.next_state,
            );
        }
        assert(self@ == old(self)@.moved(*input).culled().judged());
        if sparking {
            end(&mut self.duration, input.elapsed, &mut self.next_mode);
        }
        assert(self@ == old(self)@.moved(*input).culled().judged().ended(input.elapsed));
        update_ui(&mut self.round, input.elapsed);
        assert(self@ == old(self)@.moved(*input).culled().judged().ended(input.elapsed).clocked(
            input.elapsed,
        ));
        self.apply_transitions();
    }

    /// One tick, with what the spawn stage leaves to chance given: the
    /// balls take their draws from the front of `draws`, and the idle mode
    /// picks the spawner at the place `pick` among those to pick from. The
    /// draws must be as many as balls are due, and the pick must name a
    /// place where it is used.
    pub fn advance(&mut self, input: &Input, draws: &Vec<Draw>, pick: usize)
        requires
            old(self).wf(),
            old(self)@.due(input.elapsed) <= draws.len(),
            old(self)@.picking() ==> pick < old(self).settings.spark.declared().len(),
        ensures
            final(self)@ == old(self)@.next(*input, draws@, pick as int),
            final(self).wf(),
    {
        match self.state {
            GameState::Running => {
                self.spawn_stage(input.elapsed, draws, pick);
                self.finish_tick(input);
            },
            _ => {
                handle_continue_input(input.go_on, &mut self.next_state);
                self.apply_transitions();
            },
        }
    }

    /// One tick, with the draws and the pick left to chance: the world
    /// after it is the one that `next` gives for some draws, as many as
    /// balls are due, and some pick among the spawners to pick from.
    pub fn step(&mut self, input: &Input)
        requires
            old(self).wf(),
        ensures
            final(self).wf(),
            final(self).settings == old(self).settings,
            exists|draws: Seq<Draw>, pick: int|
                draws.len() == old(self)@.due(input.elapsed) && 0 <= pick < old(
                    self,
                ).settings.spark.declared().len() && final(self)@ == #[trigger] old(self)@.next(
                    *input,
                    draws,
                    pick,
                ),
    {
        match self.state {
            GameState::Running => {
                let chance = self.spawn_stage_at_random(input.elapsed);
                self.finish_tick(input);
                assert(self@ == old(self)@.next(*input, chance@.0, chance@.1));
            },
            _ => {
                handle_continue_input(input.go_on, &mut self.next_state);
                self.apply_transitions();
                assert(old(self).settings.spark.declared().len() > 0);
                assert(self@ == old(self)@.next(*input, Seq::<Draw>::empty(), 0));
            },
        }
    }
}

/// The spawn stage adds as many balls as are due, behind those that are in
/// the world, which it leaves as they are. For the steady spawner that is its
/// fixed number for each time that its period completes; for the burst
/// spawner a wave for each time that the period between the waves completes.
pub proof fn lemma_spawn_count(world: WorldView, elapsed: u64, draws: Seq<Draw>, pick: int)
    requires
        world.wf(),
        world.state == GameState::Running,
        world.due(elapsed) <= draws.len(),
    ensures
        0 <= world.due(elapsed),
        world.spawned(elapsed, draws, pick).balls.len() == world.balls.len() + world.due(elapsed),
        forall|k: int|
            0 <= k < world.balls.len() ==> world.spawned(elapsed, draws, pick).balls[k]
                == world.balls[k],
        world.mode == SparkState::Sparking(Spark::Steady) ==> world.due(elapsed)
            == world.spawn_timer.fires(elapsed) * world.settings.enemy.gen_num_per_time,
        world.mode == SparkState::Sparking(Spark::Bursting) ==> world.due(elapsed)
            == world.cool_down.fires(elapsed) * (world.settings.spark.gen_num_per_time
            + world.duration.seconds() / 3),
        world.mode is Idle ==> world.due(elapsed) == 0,
{
    let steady = world.spawn_timer.fires(elapsed);
    let bursts = world.cool_down.fires(elapsed);
    let wave = world.settings.spark.wave(world.duration);
    assert(0 <= steady * world.settings.enemy.gen_num_per_time) by (nonlinear_arith)
        requires
            0 <= steady,
            0 <= world.settings.enemy.gen_num_per_time,
    ;
    assert(0 <= bursts * wave) by (nonlinear_arith)
        requires
            0 <= bursts,
            0 <= wave,
    ;
}

/// Every ball that the spawn stage adds lies on the wall that was drawn for
/// it, and its velocity along each axis is no faster than the speed that was
/// drawn for that axis.
pub proof fn lemma_newcomers(world: WorldView, elapsed: u64, draws: Seq<Draw>, k: int)
    requires
        world.wf(),
        world.sparking(),
        world.due(elapsed) <= draws.len(),
        0 <= k < world.due(elapsed),
    ensures
        world.newcomers(elapsed, draws).len() == world.due(elapsed),
        world.settings.wall.on_wall(
            draws[k].wall,
            world.newcomers(elapsed, draws)[k].pos.x as int,
            world.newcomers(elapsed, draws)[k].pos.y as int,
        ),
        world.settings.wall.on_perimeter(
            world.newcomers(elapsed, draws)[k].pos.x as int,
            world.newcomers(elapsed, draws)[k].pos.y as int,
        ),
        world.mode == SparkState::Sparking(Spark::Steady) ==> 2 * magnitude(
            world.newcomers(elapsed, draws)[k].velocity.x as int,
        ) <= 2 * magnitude(world.settings.enemy.base_speed as int)
            + world.settings.enemy.fluctuate_range,
        world.mode == SparkState::Sparking(Spark::Steady) ==> 2 * magnitude(
            world.newcomers(elapsed, draws)[k].velocity.y as int,
        ) <= 2 * magnitude(world.settings.enemy.base_speed as int)
            + world.settings.enemy.fluctuate_range,
        world.mode == SparkState::Sparking(Spark::Bursting) ==> 2 * magnitude(
            world.newcomers(elapsed, draws)[k].velocity.x as int,
        ) <= 2 * magnitude(world.settings.spark.base_speed as int)
            + world.settings.spark.fluctuate_range,
        world.mode == SparkState::Sparking(Spark::Bursting) ==> 2 * magnitude(
            world.newcomers(elapsed, draws)[k].velocity.y as int,
        ) <= 2 * magnitude(world.settings.spark.base_speed as int)
            + world.settings.spark.fluctuate_range,
{
    let walls = world.settings.wall;
    let target = world.player.unwrap().pos;
    let enemy = world.settings.enemy;
    let spark = world.settings.spark;
    lemma_spawned_on_wall(
        walls,
        target,
        enemy.base_speed,
        enemy.fluctuate_range,
        enemy.radius,
        draws[k],
    );
    lemma_spawned_speed(walls, target, enemy.base_speed, enemy.fluctuate_range, enemy.radius, draws[k]);
    lemma_spawned_on_wall(
        walls,
        target,
        spark.base_speed,
        spark.fluctuate_range,
        spark.radius,
        draws[k],
    );
    lemma_spawned_speed(walls, target, spark.base_speed, spark.fluctuate_range, spark.radius, draws[k]);
}

/// A tick keeps the world well-formed, whatever is drawn and picked: a round
/// that is under way has its player, and the player stays between the walls.
pub proof fn lemma_tick_keeps_order(world: WorldView, input: Input, draws: Seq<Draw>, pick: int)
    requires
        world.wf(),
    ensures
        world.next(input, draws, pick).wf(),
        world.next(input, draws, pick).settings == world.settings,
        world.next(input, draws, pick).next_state is None,
        world.next(input, draws, pick).next_mode is None,
{
    if world.state == GameState::Running {
        let p = world.spawn_timer.period as int;
        let c = world.cool_down.period as int;
        let d = world.duration.period as int;
        let e = input.elapsed as int;
        assert(0 <= (world.spawn_timer.elapsed + e) % p < p) by (nonlinear_arith)
            requires
                0 < p,
                0 <= world.spawn_timer.elapsed + e,
        ;
        assert(0 <= (world.cool_down.elapsed + e) % c < c) by (nonlinear_arith)
            requires
                0 < c,
                0 <= world.cool_down.elapsed + e,
        ;
        assert(0 <= (world.duration.elapsed + e) % d < d) by (nonlinear_arith)
            requires
                0 < d,
                0 <= world.duration.elapsed + e,
        ;
    }
}

/// Asking again for what has been asked for changes nothing: neither a
/// second request for the same state, nor a second look at the collisions,
/// nor a second hearing of the signal to go on.
pub proof fn lemma_request_again(world: WorldView, state: GameState, go_on: bool)
    ensures
        world.asked(state).asked(state) == world.asked(state),
        world.judged().judged() == world.judged(),
        world.continued(go_on).continued(go_on) == world.continued(go_on),
        world.asked(state).asked(state).settled() == world.asked(state).settled(),
{
}

/// Whenever a round begins, the world has its player, in the middle of the
/// arena, and no ball, and the round's clock is at zero, whatever the spawn
/// mode is and whatever was left in the world.
pub proof fn lemma_round_begins(world: WorldView)
    requires
        world.entering(),
    ensures
        world.settled().state == GameState::Running,
        world.settled().player == Some(world.settings.player.fresh(world.settings.wall)),
        world.settled().balls.len() == 0,
        world.settled().round == 0,
        world.settled().mode == match world.next_mode {
            Some(mode) => mode,
            None => world.mode,
        },
{
}

/// Outside a round, the signal to go on begins one with the tick's end.
pub proof fn lemma_go_on_begins_round(world: WorldView, input: Input, draws: Seq<Draw>, pick: int)
    requires
        world.state != GameState::Running,
        input.go_on,
    ensures
        world.next(input, draws, pick).state == GameState::Running,
        world.next(input, draws, pick).player == Some(
            world.settings.player.fresh(world.settings.wall),
        ),
        world.next(input, draws, pick).balls.len() == 0,
        world.next(input, draws, pick).round == 0,
{
    lemma_round_begins(world.continued(input.go_on));
}

/// Outside a round, with no signal to go on and nothing asked for, a tick
/// changes nothing.
pub proof fn lemma_nothing_runs_outside_round(
    world: WorldView,
    input: Input,
    draws: Seq<Draw>,
    pick: int,
)
    requires
        world.state != GameState::Running,
        !input.go_on,
        world.next_state is None,
        world.next_mode is None,
    ensures
        world.next(input, draws, pick) == world,
{
}

/// A round's tick in the idle mode adds no ball and moves none: it picks
/// the spawner that is at work from the next tick on.
pub proof fn lemma_idle_tick(world: WorldView, input: Input, draws: Seq<Draw>, pick: int)
    requires
        world.state == GameState::Running,
        world.mode is Idle,
    ensures
        world.due(input.elapsed) == 0,
        world.next(input, draws, pick).balls == world.balls,
        world.next(input, draws, pick).mode == SparkState::Sparking(
            world.settings.spark.declared()[pick],
        ),
        world.next(input, draws, pick).spawn_timer == world.spawn_timer,
        world.next(input, draws, pick).cool_down == world.cool_down,
        world.next(input, draws, pick).duration == world.duration,
{
}

/// The tick in which the time of a spawner's work runs out ends in the idle
/// mode; until it has run out the spawner stays at work, unless another mode
/// was asked for before the tick.
pub proof fn lemma_work_ends(world: WorldView, input: Input, draws: Seq<Draw>, pick: int)
    requires
        world.sparking(),
    ensures
        world.duration.fires(input.elapsed) > 0 ==> world.next(input, draws, pick).mode
            == SparkState::Idle,
        world.duration.fires(input.elapsed) <= 0 && world.next_mode is None ==> world.next(
            input,
            draws,
            pick,
        ).mode == world.mode,
{
}

/// While a spawner is at work, every ball in the world after a tick is
/// inside the arena or on a wall, unless a round has just begun, which
/// leaves no ball.
pub proof fn lemma_balls_stay_inside(world: WorldView, input: Input, draws: Seq<Draw>, pick: int)
    requires
        world.sparking(),
    ensures
        forall|k: int|
            0 <= k < world.next(input, draws, pick).balls.len() ==> inside(
                world.settings.wall,
                #[trigger] world.next(input, draws, pick).balls[k],
            ),
{
    let flying = world.spawned(input.elapsed, draws, pick).moved(input);
    lemma_culling(flying.balls, world.settings.wall);
}

} // verus!
